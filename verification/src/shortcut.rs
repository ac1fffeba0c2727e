//! Classification of a filesystem path as a platform shortcut file or a
//! plain target, by exact, case-sensitive match on the path's extension.

use vstd::prelude::*;

verus! {

/// A path separator; the platform accepts the backslash and the slash.
pub open spec fn is_separator(c: char) -> bool {
    c == '\\' || c == '/'
}

/// Length of the path once trailing separators are dropped: they do not
/// change which component is the file name.
pub open spec fn trimmed_len(s: Seq<char>) -> int
    decreases s.len(),
{
    if s.len() == 0 {
        0
    } else if is_separator(s.last()) {
        trimmed_len(s.drop_last())
    } else {
        s.len() as int
    }
}

/// Index where the final path component (the file name) begins: just after
/// the last separator, or zero when the path holds no separator.
pub open spec fn file_name_start(s: Seq<char>) -> int
    decreases s.len(),
{
    if s.len() == 0 {
        0
    } else if is_separator(s.last()) {
        s.len() as int
    } else {
        file_name_start(s.drop_last())
    }
}

/// Position just after the last dot of the file name, or zero when the file
/// name holds no dot.
pub open spec fn dot_end(f: Seq<char>) -> int
    decreases f.len(),
{
    if f.len() == 0 {
        0
    } else if f.last() == '.' {
        f.len() as int
    } else {
        dot_end(f.drop_last())
    }
}

/// The extension of a path: the part of the final component (trailing
/// separators aside) after its last dot. A component without a dot has no
/// extension, and a dot that opens the component introduces none, so a bare
/// ".lnk" file has no extension at all.
pub open spec fn extension_of(s: Seq<char>) -> Option<Seq<char>> {
    let p = s.take(trimmed_len(s));
    let f = p.subrange(file_name_start(p), p.len() as int);
    let de = dot_end(f);
    if de >= 2 {
        Some(f.subrange(de, f.len() as int))
    } else {
        None
    }
}

/// The extension that marks a platform shortcut file.
pub open spec fn shortcut_extension() -> Seq<char> {
    seq!['l', 'n', 'k']
}

/// Whether the path names a platform shortcut file.
pub open spec fn is_shortcut_path(s: Seq<char>) -> bool {
    extension_of(s) matches Some(e) && e == shortcut_extension()
}

/// Whether the character is a path separator.
fn separator(c: char) -> (r: bool)
    ensures
        r == is_separator(c),
{
    c == '\\' || c == '/'
}

/// Whether the path names a platform shortcut file: its extension is the
/// shortcut extension, by exact, case-sensitive comparison.
#[verifier::rlimit(30)]
pub fn is_shortcut(path: &str) -> (r: bool)
    ensures
        r == is_shortcut_path(path@),
{
    let ghost s = path@;
    let n = path.unicode_len();

    // Drop trailing separators; the file name ends where they begin.
    proof {
        assert(s.take(n as int) =~= s);
    }
    let mut e: usize = n;
    while e > 0 && separator(path.get_char(e - 1))
        invariant
            e <= n,
            n == s.len(),
            s == path@,
            trimmed_len(s) == trimmed_len(s.take(e as int)),
        decreases e,
    {
        proof {
            assert(s.take(e as int).drop_last() =~= s.take(e as int - 1));
        }
        e = e - 1;
    }
    proof {
        if e > 0 {
            assert(s.take(e as int).last() == s[e as int - 1]);
        }
        assert(trimmed_len(s) == e as int);
    }
    let ghost p = s.take(e as int);

    // Scan backwards for the last separator; the file name follows it.
    proof {
        assert(p.take(e as int) =~= p);
    }
    let mut i: usize = e;
    while i > 0 && !separator(path.get_char(i - 1))
        invariant
            i <= e <= n,
            n == s.len(),
            s == path@,
            p == s.take(e as int),
            file_name_start(p) == file_name_start(p.take(i as int)),
        decreases i,
    {
        proof {
            assert(p.take(i as int).drop_last() =~= p.take(i as int - 1));
            assert(p.take(i as int).last() == s[i as int - 1]);
        }
        i = i - 1;
    }
    let fs: usize = i;
    proof {
        if fs > 0 {
            assert(p.take(fs as int).last() == s[fs as int - 1]);
        }
        assert(file_name_start(p) == fs as int);
    }
    let ghost f = p.subrange(fs as int, p.len() as int);

    // Scan backwards through the file name for its last dot.
    proof {
        assert(f.take(e as int - fs as int) =~= f);
    }
    let mut j: usize = e;
    while j > fs && path.get_char(j - 1) != '.'
        invariant
            fs <= j <= e <= n,
            n == s.len(),
            s == path@,
            p == s.take(e as int),
            f == p.subrange(fs as int, p.len() as int),
            dot_end(f) == dot_end(f.take(j as int - fs as int)),
        decreases j,
    {
        proof {
            assert(f.take(j as int - fs as int).drop_last() =~= f.take(j as int - 1 - fs as int));
            assert(f.take(j as int - fs as int).last() == s[j as int - 1]);
        }
        j = j - 1;
    }
    proof {
        if j > fs {
            assert(f.take(j as int - fs as int).last() == s[j as int - 1]);
        }
        assert(dot_end(f) == j - fs);
    }

    // The extension exists when the last dot is past the file name's first
    // character; it is the shortcut extension when it reads "lnk".
    if j - fs >= 2 && e - j == 3 {
        let r = path.get_char(j) == 'l' && path.get_char(j + 1) == 'n' && path.get_char(j + 2)
            == 'k';
        proof {
            let ext = f.subrange(dot_end(f), f.len() as int);
            assert(extension_of(s) == Some(ext));
            assert(ext.len() == 3);
            assert(ext[0] == s[j as int] && ext[1] == s[j as int + 1] && ext[2] == s[j as int
                + 2]);
            if r {
                assert(ext =~= shortcut_extension());
            } else {
                assert(ext != shortcut_extension());
            }
        }
        r
    } else {
        proof {
            if j - fs >= 2 {
                let ext = f.subrange(dot_end(f), f.len() as int);
                assert(extension_of(s) == Some(ext));
                assert(ext.len() == e - j);
                assert(ext != shortcut_extension());
            }
        }
        false
    }
}

} // verus!
