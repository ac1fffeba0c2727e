//! The icon payload: the bytes of a rendered icon image, encoded as a
//! base64 string (standard alphabet, with `=` padding). An icon that could
//! not be rendered is the empty byte sequence and yields the empty payload.

use vstd::prelude::*;

verus! {

/// ASCII code of the padding character `=`.
pub const BASE64_PAD: u8 = 61;

/// ASCII code of the base64 digit for a six-bit value.
pub open spec fn sextet_code(v: u8) -> u8 {
    if v < 26 {
        (65 + v) as u8  // 'A' to 'Z'
    } else if v < 52 {
        (97 + (v - 26)) as u8  // 'a' to 'z'
    } else if v < 62 {
        (48 + (v - 52)) as u8  // '0' to '9'
    } else if v == 62 {
        43  // '+'
    } else {
        47  // '/'
    }
}

/// The four base64 bytes of a full three-byte group.
pub open spec fn encode_group(a: u8, b: u8, c: u8) -> Seq<u8> {
    seq![
        sextet_code(a >> 2),
        sextet_code((a & 3) << 4 | (b >> 4)),
        sextet_code((b & 15) << 2 | (c >> 6)),
        sextet_code(c & 63),
    ]
}

/// The four base64 bytes of a final group of one byte: two digits, two pads.
pub open spec fn encode_tail1(a: u8) -> Seq<u8> {
    seq![sextet_code(a >> 2), sextet_code((a & 3) << 4), BASE64_PAD, BASE64_PAD]
}

/// The four base64 bytes of a final group of two bytes: three digits, one pad.
pub open spec fn encode_tail2(a: u8, b: u8) -> Seq<u8> {
    seq![
        sextet_code(a >> 2),
        sextet_code((a & 3) << 4 | (b >> 4)),
        sextet_code((b & 15) << 2),
        BASE64_PAD,
    ]
}

/// The base64 bytes of `s[i..]`.
pub open spec fn base64_from(s: Seq<u8>, i: int) -> Seq<u8>
    decreases s.len() - i,
    when 0 <= i <= s.len()
{
    if i + 3 <= s.len() {
        encode_group(s[i], s[i + 1], s[i + 2]) + base64_from(s, i + 3)
    } else if i + 2 == s.len() {
        encode_tail2(s[i], s[i + 1])
    } else if i + 1 == s.len() {
        encode_tail1(s[i])
    } else {
        Seq::empty()
    }
}

/// The base64 encoding of a byte sequence.
pub open spec fn base64_of(s: Seq<u8>) -> Seq<u8> {
    base64_from(s, 0)
}

/// A byte of the base64 alphabet.
pub open spec fn is_base64_digit(x: u8) -> bool {
    (65 <= x <= 90) || (97 <= x <= 122) || (48 <= x <= 57) || x == 43 || x == 47
}

/// Syntactic validity of a base64 byte sequence: the length is a multiple of
/// four, every byte is a digit except that the last two may be padding, and
/// padding is contiguous at the end.
pub open spec fn is_valid_base64(t: Seq<u8>) -> bool {
    &&& t.len() % 4 == 0
    &&& forall|k: int|
        0 <= k < t.len() ==> (is_base64_digit(#[trigger] t[k]) || (t[k] == BASE64_PAD && k + 2
            >= t.len()))
    &&& (t.len() >= 2 && t[t.len() - 2] == BASE64_PAD ==> t[t.len() - 1] == BASE64_PAD)
}

proof fn lemma_sextet_code_digit(v: u8)
    ensures
        is_base64_digit(sextet_code(v)),
        sextet_code(v) != BASE64_PAD,
{
}

proof fn lemma_base64_from_valid(s: Seq<u8>, i: int)
    requires
        0 <= i <= s.len(),
    ensures
        is_valid_base64(base64_from(s, i)),
    decreases s.len() - i,
{
    let t = base64_from(s, i);
    if i + 3 <= s.len() {
        lemma_base64_from_valid(s, i + 3);
        let g = encode_group(s[i], s[i + 1], s[i + 2]);
        let rest = base64_from(s, i + 3);
        assert forall|k: int| 0 <= k < t.len() implies (is_base64_digit(#[trigger] t[k]) || (t[k]
            == BASE64_PAD && k + 2 >= t.len())) by {
            if k < 4 {
                assert(t[k] == g[k]);
                lemma_sextet_code_digit(s[i] >> 2);
                lemma_sextet_code_digit((s[i] & 3) << 4 | (s[i + 1] >> 4));
                lemma_sextet_code_digit((s[i + 1] & 15) << 2 | (s[i + 2] >> 6));
                lemma_sextet_code_digit(s[i + 2] & 63);
            } else {
                assert(t[k] == rest[k - 4]);
            }
        }
        if t.len() >= 2 && t[t.len() - 2] == BASE64_PAD {
            if rest.len() >= 2 {
                assert(t[t.len() - 2] == rest[rest.len() - 2]);
                assert(t[t.len() - 1] == rest[rest.len() - 1]);
            } else {
                assert(rest.len() == 0);
                lemma_sextet_code_digit((s[i + 1] & 15) << 2 | (s[i + 2] >> 6));
                assert(t[t.len() - 2] == g[2]);
            }
        }
    } else if i + 2 == s.len() {
        lemma_sextet_code_digit(s[i] >> 2);
        lemma_sextet_code_digit((s[i] & 3) << 4 | (s[i + 1] >> 4));
        lemma_sextet_code_digit((s[i + 1] & 15) << 2);
    } else if i + 1 == s.len() {
        lemma_sextet_code_digit(s[i] >> 2);
        lemma_sextet_code_digit((s[i] & 3) << 4);
    }
}

/// Every encoded payload is syntactically valid base64.
pub proof fn lemma_base64_encode_valid(s: Seq<u8>)
    ensures
        is_valid_base64(base64_of(s)),
{
    lemma_base64_from_valid(s, 0);
}

/// Six-bit value of a base64 digit.
pub open spec fn digit_value(x: u8) -> u8 {
    if 65 <= x <= 90 {
        (x - 65) as u8
    } else if 97 <= x <= 122 {
        (x - 97 + 26) as u8
    } else if 48 <= x <= 57 {
        (x - 48 + 52) as u8
    } else if x == 43 {
        62
    } else {
        63
    }
}

/// The bytes a base64 sequence stands for, read four digits at a time; a
/// pad in the third or fourth place closes the sequence.
pub open spec fn base64_decode(t: Seq<u8>) -> Seq<u8>
    decreases t.len(),
{
    if t.len() >= 4 {
        let v0 = digit_value(t[0]);
        let v1 = digit_value(t[1]);
        let v2 = digit_value(t[2]);
        let v3 = digit_value(t[3]);
        if t[2] == BASE64_PAD {
            seq![v0 << 2 | v1 >> 4]
        } else if t[3] == BASE64_PAD {
            seq![v0 << 2 | v1 >> 4, (v1 & 15) << 4 | v2 >> 2]
        } else {
            seq![v0 << 2 | v1 >> 4, (v1 & 15) << 4 | v2 >> 2, (v2 & 3) << 6 | v3]
                + base64_decode(t.skip(4))
        }
    } else {
        Seq::empty()
    }
}

proof fn lemma_digit_value_of_code(v: u8)
    requires
        v < 64,
    ensures
        digit_value(sextet_code(v)) == v,
{
}

proof fn lemma_base64_round_trip_from(s: Seq<u8>, i: int)
    requires
        0 <= i <= s.len(),
    ensures
        base64_decode(base64_from(s, i)) == s.skip(i),
    decreases s.len() - i,
{
    let t = base64_from(s, i);
    if i + 3 <= s.len() {
        let a = s[i];
        let b = s[i + 1];
        let c = s[i + 2];
        assert(a >> 2 < 64 && ((a & 3) << 4 | (b >> 4)) < 64 && ((b & 15) << 2 | (c >> 6)) < 64
            && (c & 63) < 64) by (bit_vector);
        lemma_digit_value_of_code(a >> 2);
        lemma_digit_value_of_code((a & 3) << 4 | (b >> 4));
        lemma_digit_value_of_code((b & 15) << 2 | (c >> 6));
        lemma_digit_value_of_code(c & 63);
        lemma_sextet_code_digit((b & 15) << 2 | (c >> 6));
        lemma_sextet_code_digit(c & 63);
        assert(((a >> 2) << 2 | ((a & 3) << 4 | (b >> 4)) >> 4) == a) by (bit_vector);
        assert(((((a & 3) << 4 | (b >> 4)) & 15) << 4 | ((b & 15) << 2 | (c >> 6)) >> 2) == b)
            by (bit_vector);
        assert(((((b & 15) << 2 | (c >> 6)) & 3) << 6 | (c & 63)) == c) by (bit_vector);
        lemma_base64_round_trip_from(s, i + 3);
        assert(t.skip(4) =~= base64_from(s, i + 3));
        assert(base64_decode(t) =~= s.skip(i));
    } else if i + 2 == s.len() {
        let a = s[i];
        let b = s[i + 1];
        assert(a >> 2 < 64 && ((a & 3) << 4 | (b >> 4)) < 64 && ((b & 15) << 2) < 64)
            by (bit_vector);
        lemma_digit_value_of_code(a >> 2);
        lemma_digit_value_of_code((a & 3) << 4 | (b >> 4));
        lemma_digit_value_of_code((b & 15) << 2);
        lemma_sextet_code_digit((b & 15) << 2);
        assert(((a >> 2) << 2 | ((a & 3) << 4 | (b >> 4)) >> 4) == a) by (bit_vector);
        assert(((((a & 3) << 4 | (b >> 4)) & 15) << 4 | ((b & 15) << 2) >> 2) == b)
            by (bit_vector);
        assert(base64_decode(t) =~= s.skip(i));
    } else if i + 1 == s.len() {
        let a = s[i];
        assert(a >> 2 < 64 && ((a & 3) << 4) < 64) by (bit_vector);
        lemma_digit_value_of_code(a >> 2);
        lemma_digit_value_of_code((a & 3) << 4);
        assert(((a >> 2) << 2 | ((a & 3) << 4) >> 4) == a) by (bit_vector);
        assert(base64_decode(t) =~= s.skip(i));
    } else {
        assert(base64_decode(t) =~= s.skip(i));
    }
}

/// Decoding an encoded payload returns exactly the original bytes; in
/// particular, a payload made from a non-empty image decodes to a non-empty
/// byte sequence.
pub proof fn lemma_base64_round_trip(s: Seq<u8>)
    ensures
        base64_decode(base64_of(s)) == s,
        s.len() > 0 ==> base64_decode(base64_of(s)).len() > 0,
{
    lemma_base64_round_trip_from(s, 0);
    assert(s.skip(0) =~= s);
}

/// The base64 digit for a six-bit value.
fn sextet(v: u8) -> (r: u8)
    requires
        v < 64,
    ensures
        r == sextet_code(v),
{
    if v < 26 {
        65 + v
    } else if v < 52 {
        97 + (v - 26)
    } else if v < 62 {
        48 + (v - 52)
    } else if v == 62 {
        43
    } else {
        47
    }
}

/// Encode bytes as base64: standard alphabet, with `=` padding.
pub fn base64_encode(bytes: &[u8]) -> (r: Vec<u8>)
    ensures
        r@ == base64_of(bytes@),
{
    let ghost s = bytes@;
    let n = bytes.len();
    let mut out: Vec<u8> = Vec::new();
    let mut i: usize = 0;
    proof {
        assert(Seq::<u8>::empty() + base64_from(s, 0) =~= base64_from(s, 0));
    }
    while n - i >= 3
        invariant
            i <= n,
            n == s.len(),
            s == bytes@,
            base64_of(s) == out@ + base64_from(s, i as int),
        decreases n - i,
    {
        let a = bytes[i];
        let b = bytes[i + 1];
        let c = bytes[i + 2];
        proof {
            assert(a >> 2 < 64 && ((a & 3) << 4 | (b >> 4)) < 64 && ((b & 15) << 2 | (c >> 6))
                < 64 && (c & 63) < 64) by (bit_vector);
        }
        let ghost prev = out@;
        let ghost i0 = i as int;
        out.push(sextet(a >> 2));
        out.push(sextet((a & 3) << 4 | (b >> 4)));
        out.push(sextet((b & 15) << 2 | (c >> 6)));
        out.push(sextet(c & 63));
        i = i + 3;
        proof {
            assert(out@ =~= prev + encode_group(a, b, c));
            assert(prev + base64_from(s, i0) =~= (prev + encode_group(a, b, c)) + base64_from(
                s,
                i0 + 3,
            ));
        }
    }
    let ghost before_tail = out@;
    if n - i == 2 {
        let a = bytes[i];
        let b = bytes[i + 1];
        proof {
            assert(a >> 2 < 64 && ((a & 3) << 4 | (b >> 4)) < 64 && ((b & 15) << 2) < 64)
                by (bit_vector);
        }
        out.push(sextet(a >> 2));
        out.push(sextet((a & 3) << 4 | (b >> 4)));
        out.push(sextet((b & 15) << 2));
        out.push(BASE64_PAD);
        proof {
            assert(out@ =~= before_tail + encode_tail2(a, b));
        }
    } else if n - i == 1 {
        let a = bytes[i];
        proof {
            assert(a >> 2 < 64 && ((a & 3) << 4) < 64) by (bit_vector);
        }
        out.push(sextet(a >> 2));
        out.push(sextet((a & 3) << 4));
        out.push(BASE64_PAD);
        out.push(BASE64_PAD);
        proof {
            assert(out@ =~= before_tail + encode_tail1(a));
        }
    } else {
        proof {
            assert(out@ =~= before_tail + base64_from(s, i as int));
        }
    }
    proof {
        assert(out@ =~= base64_of(s));
    }
    out
}

/// The characters of a byte sequence read as ASCII.
pub open spec fn ascii_chars(s: Seq<u8>) -> Seq<char> {
    s.map_values(|x: u8| x as char)
}

/// The icon payload for the bytes of a rendered icon: their base64
/// encoding, as a string.
pub open spec fn payload_of(icon: Seq<u8>) -> Seq<char> {
    ascii_chars(base64_of(icon))
}

/// Relies on String::from_utf8: ASCII bytes are valid UTF-8 and decode to
/// the string whose characters are exactly those bytes.
#[verifier::external_body]
fn ascii_to_string(bytes: Vec<u8>) -> (r: String)
    requires
        forall|k: int| 0 <= k < bytes@.len() ==> bytes@[k] < 128,
    ensures
        r@ == ascii_chars(bytes@),
{
    match String::from_utf8(bytes) {
        Ok(s) => s,
        Err(_) => String::new(),
    }
}

/// The payload for a rendered icon's bytes: their base64 encoding as a
/// string. An icon that could not be rendered is handed in as the empty
/// byte sequence and yields the empty payload.
pub fn icon_payload(icon: &[u8]) -> (r: String)
    ensures
        r@ == payload_of(icon@),
{
    let enc = base64_encode(icon);
    proof {
        lemma_base64_encode_valid(icon@);
        assert forall|k: int| 0 <= k < enc@.len() implies enc@[k] < 128 by {
            assert(is_base64_digit(enc@[k]) || enc@[k] == BASE64_PAD);
        }
    }
    ascii_to_string(enc)
}

/// The payload is a function of the rendered icon bytes alone: two
/// extractions that read the same unchanged bytes yield byte-identical
/// payloads.
pub proof fn lemma_payload_deterministic(b1: Seq<u8>, b2: Seq<u8>)
    requires
        b1 == b2,
    ensures
        payload_of(b1) == payload_of(b2),
{
}

} // verus!
