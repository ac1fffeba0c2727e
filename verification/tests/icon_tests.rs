use base64::Engine;
use launchcore::icon::base64_encode;
use launchcore::icon::icon_payload;

#[test]
fn encodes_reference_vectors() {
    assert_eq!(icon_payload(b""), "");
    assert_eq!(icon_payload(b"f"), "Zg==");
    assert_eq!(icon_payload(b"fo"), "Zm8=");
    assert_eq!(icon_payload(b"foo"), "Zm9v");
    assert_eq!(icon_payload(b"foob"), "Zm9vYg==");
    assert_eq!(icon_payload(b"fooba"), "Zm9vYmE=");
    assert_eq!(icon_payload(b"foobar"), "Zm9vYmFy");
}

#[test]
fn encodes_binary_image_bytes() {
    // The first bytes of a PNG image.
    let png_header: [u8; 8] = [0x89, 0x50, 0x4e, 0x47, 0x0d, 0x0a, 0x1a, 0x0a];
    assert_eq!(icon_payload(&png_header), "iVBORw0KGgo=");
    assert_eq!(base64_encode(&png_header), b"iVBORw0KGgo=".to_vec());
}

#[test]
fn agrees_with_the_reference_encoder_on_every_byte_value() {
    let mut all: Vec<u8> = Vec::new();
    for b in 0..=255u8 {
        all.push(b);
    }
    for len in 0..all.len() {
        let input = &all[..len];
        let ours = icon_payload(input);
        let reference = base64::engine::general_purpose::STANDARD.encode(input);
        assert_eq!(ours, reference);
    }
}

#[test]
fn payload_decodes_back_to_the_image_bytes() {
    let image: Vec<u8> = (0..1000u32).map(|x| (x * 7 % 256) as u8).collect();
    let payload = icon_payload(&image);
    let decoded = base64::engine::general_purpose::STANDARD
        .decode(payload.as_bytes())
        .expect("payload must be syntactically valid base64");
    assert!(!decoded.is_empty());
    assert_eq!(decoded, image);
}

#[test]
fn extraction_is_idempotent_on_unchanged_bytes() {
    let image: Vec<u8> = (0..257u32).map(|x| (x % 256) as u8).collect();
    let first = icon_payload(&image);
    let second = icon_payload(&image);
    assert_eq!(first, second);
}

#[test]
fn payload_is_syntactically_valid_base64() {
    let inputs: [&[u8]; 4] = [b"", b"\x00", b"\xff\xfe", b"icon bytes of any kind \x01\x02"];
    for input in inputs {
        let payload = icon_payload(input);
        assert_eq!(payload.len() % 4, 0);
        for (pos, ch) in payload.bytes().enumerate() {
            let digit = ch.is_ascii_alphanumeric() || ch == b'+' || ch == b'/';
            let pad_at_end = ch == b'=' && pos + 2 >= payload.len();
            assert!(digit || pad_at_end);
        }
    }
}
