//! Format filter: decides image-format eligibility of a path by its
//! extension, case-insensitively, against a fixed whitelist.
//!
//! The path is examined as its UTF-8 bytes. The file name is the part after
//! the last `/`; the extension is the part after the last `.` of the file
//! name, provided that dot is not the name's first byte (a leading dot marks
//! a hidden file, not an extension).

use vstd::prelude::*;

verus! {

use vstd::string::StrSliceExecFns;
use vstd::string::StringSliceAdditionalSpecFns;

/// The suffix of `s` strictly after the last occurrence of `b`; all of `s`
/// when `b` does not occur.
pub open spec fn suffix_after_last(s: Seq<u8>, b: u8) -> Seq<u8>
    decreases s.len(),
{
    if s.len() == 0 {
        s
    } else if s.last() == b {
        Seq::empty()
    } else {
        suffix_after_last(s.drop_last(), b).push(s.last())
    }
}

/// Whether `b` occurs in `s`.
pub open spec fn contains_byte(s: Seq<u8>, b: u8) -> bool {
    exists|i: int| 0 <= i < s.len() && s[i] == b
}

/// The file-name part of a path: everything after the last `/`.
pub open spec fn spec_file_name(path: Seq<u8>) -> Seq<u8> {
    suffix_after_last(path, '/' as u8)
}

/// The extension of a path, if any: the bytes after the last `.` of the
/// file name, where that dot must come after the name's first byte.
pub open spec fn spec_extension(path: Seq<u8>) -> Option<Seq<u8>> {
    let name = spec_file_name(path);
    if name.len() >= 2 && contains_byte(name.skip(1), '.' as u8) {
        Some(suffix_after_last(name.skip(1), '.' as u8))
    } else {
        None
    }
}

/// ASCII lowercasing of one byte.
pub open spec fn lower_byte(b: u8) -> u8 {
    if 'A' as u8 <= b <= 'Z' as u8 {
        (b + 32) as u8
    } else {
        b
    }
}

/// ASCII lowercasing of a byte string.
pub open spec fn lower_bytes(s: Seq<u8>) -> Seq<u8> {
    s.map_values(|b: u8| lower_byte(b))
}

/// Whether a lowercased extension is in the whitelist of supported image
/// formats.
pub open spec fn spec_supported_ext(e: Seq<u8>) -> bool {
    let l = lower_bytes(e);
    ||| l == seq!['j' as u8, 'p' as u8, 'g' as u8]
    ||| l == seq!['j' as u8, 'p' as u8, 'e' as u8, 'g' as u8]
    ||| l == seq!['p' as u8, 'n' as u8, 'g' as u8]
    ||| l == seq!['p' as u8, 'n' as u8, 'm' as u8]
    ||| l == seq!['b' as u8, 'm' as u8, 'p' as u8]
    ||| l == seq!['d' as u8, 'd' as u8, 's' as u8]
    ||| l == seq!['e' as u8, 'x' as u8, 'r' as u8]
    ||| l == seq!['t' as u8, 'g' as u8, 'a' as u8]
    ||| l == seq!['t' as u8, 'i' as u8, 'f' as u8, 'f' as u8]
    ||| l == seq!['i' as u8, 'c' as u8, 'o' as u8]
    ||| l == seq!['q' as u8, 'o' as u8, 'i' as u8]
    ||| l == seq!['h' as u8, 'd' as u8, 'r' as u8]
    ||| l == seq!['w' as u8, 'e' as u8, 'b' as u8, 'p' as u8]
    ||| l == seq!['f' as u8, 'f' as u8]
}

/// Whether a path carries a supported extension.
pub open spec fn spec_supported_path(path: Seq<u8>) -> bool {
    match spec_extension(path) {
        Some(e) => spec_supported_ext(e),
        None => false,
    }
}

/// If `b` occurs at `k` and nowhere later, the suffix after the last `b` is
/// everything past `k`.
proof fn lemma_suffix_after_last_at(s: Seq<u8>, b: u8, k: int)
    requires
        0 <= k < s.len(),
        s[k] == b,
        forall|j: int| k < j < s.len() ==> s[j] != b,
    ensures
        suffix_after_last(s, b) == s.subrange(k + 1, s.len() as int),
    decreases s.len(),
{
    if s.last() == b {
        assert(k == s.len() - 1);
        assert(suffix_after_last(s, b) =~= s.subrange(k + 1, s.len() as int));
    } else {
        assert(k < s.len() - 1);
        lemma_suffix_after_last_at(s.drop_last(), b, k);
        assert(suffix_after_last(s, b) =~= s.subrange(k + 1, s.len() as int));
    }
}

/// If `b` does not occur in `s`, the suffix after the last `b` is `s`.
proof fn lemma_suffix_after_last_absent(s: Seq<u8>, b: u8)
    requires
        forall|j: int| 0 <= j < s.len() ==> s[j] != b,
    ensures
        suffix_after_last(s, b) == s,
    decreases s.len(),
{
    if s.len() > 0 {
        lemma_suffix_after_last_absent(s.drop_last(), b);
        assert(suffix_after_last(s, b) =~= s);
    } else {
        assert(suffix_after_last(s, b) =~= s);
    }
}

/// ASCII lowercasing of one byte, executable.
fn lower_u8(b: u8) -> (r: u8)
    ensures
        r == lower_byte(b),
{
    if 65 <= b && b <= 90 {
        b + 32
    } else {
        b
    }
}

/// Whether the bytes from `start` on, lowercased, form a whitelisted
/// extension.
fn ext_supported(bytes: &Vec<u8>, start: usize) -> (r: bool)
    requires
        start <= bytes@.len(),
    ensures
        r == spec_supported_ext(bytes@.subrange(start as int, bytes@.len() as int)),
{
    let n = bytes.len();
    let m = n - start;
    let ghost ext = bytes@.subrange(start as int, bytes@.len() as int);
    assert(lower_bytes(ext).len() == m);
    let r: bool = if m == 2 {
        let a = lower_u8(bytes[start]);
        let b = lower_u8(bytes[start + 1]);
        (a == 'f' as u8 && b == 'f' as u8)
    } else if m == 3 {
        let a = lower_u8(bytes[start]);
        let b = lower_u8(bytes[start + 1]);
        let c = lower_u8(bytes[start + 2]);
        (a == 'j' as u8 && b == 'p' as u8 && c == 'g' as u8) || (a == 'p' as u8 && b == 'n' as u8
            && c == 'g' as u8) || (a == 'p' as u8 && b == 'n' as u8 && c == 'm' as u8) || (a
            == 'b' as u8 && b == 'm' as u8 && c == 'p' as u8) || (a == 'd' as u8 && b == 'd' as u8
            && c == 's' as u8) || (a == 'e' as u8 && b == 'x' as u8 && c == 'r' as u8) || (a
            == 't' as u8 && b == 'g' as u8 && c == 'a' as u8) || (a == 'i' as u8 && b == 'c' as u8
            && c == 'o' as u8) || (a == 'q' as u8 && b == 'o' as u8 && c == 'i' as u8) || (a
            == 'h' as u8 && b == 'd' as u8 && c == 'r' as u8)
    } else if m == 4 {
        let a = lower_u8(bytes[start]);
        let b = lower_u8(bytes[start + 1]);
        let c = lower_u8(bytes[start + 2]);
        let d = lower_u8(bytes[start + 3]);
        (a == 'j' as u8 && b == 'p' as u8 && c == 'e' as u8 && d == 'g' as u8) || (a == 't' as u8
            && b == 'i' as u8 && c == 'f' as u8 && d == 'f' as u8) || (a == 'w' as u8 && b
            == 'e' as u8 && c == 'b' as u8 && d == 'p' as u8)
    } else {
        false
    };
    proof {
        if r {
            if m == 2 {
                assert(lower_bytes(ext) =~= seq![
                    lower_byte(ext[0]),
                    lower_byte(ext[1]),
                ]);
            } else if m == 3 {
                assert(lower_bytes(ext) =~= seq![
                    lower_byte(ext[0]),
                    lower_byte(ext[1]),
                    lower_byte(ext[2]),
                ]);
            } else if m == 4 {
                assert(lower_bytes(ext) =~= seq![
                    lower_byte(ext[0]),
                    lower_byte(ext[1]),
                    lower_byte(ext[2]),
                    lower_byte(ext[3]),
                ]);
            }
        }
    }
    r
}

/// The format filter: true iff the path names an existing regular file (a
/// fact the caller establishes) whose lowercase extension is in the
/// whitelist. Pure and case-insensitive; a directory is never supported.
pub fn is_supported_format(path: &str, is_regular_file: bool) -> (r: bool)
    ensures
        r == (is_regular_file && spec_supported_path(path.spec_bytes())),
{
    if !is_regular_file {
        return false;
    }
    let bytes: Vec<u8> = path.as_bytes_vec();
    let n = bytes.len();

    // Find the start of the file name: the index after the last '/'.
    let mut name_start: usize = 0;
    let mut i: usize = 0;
    while i < n
        invariant
            n == bytes@.len(),
            i <= n,
            name_start <= i,
            name_start > 0 ==> bytes@[name_start - 1] == '/' as u8,
            forall|j: int| name_start <= j < i ==> bytes@[j] != '/' as u8,
        decreases n - i,
    {
        if bytes[i] == '/' as u8 {
            name_start = i + 1;
        }
        i = i + 1;
    }
    proof {
        if name_start > 0 {
            lemma_suffix_after_last_at(bytes@, '/' as u8, name_start - 1);
        } else {
            lemma_suffix_after_last_absent(bytes@, '/' as u8);
            assert(bytes@.subrange(0, n as int) =~= bytes@);
        }
        assert(spec_file_name(bytes@) == bytes@.subrange(name_start as int, n as int));
    }

    // Find the last '.' strictly after the file name's first byte.
    let mut dot_pos: usize = 0;
    let mut has_dot = false;
    if name_start >= n {
        // Empty file name: no extension.
        assert(spec_file_name(bytes@).len() == 0);
        return false;
    }
    let mut k: usize = name_start + 1;
    while k < n
        invariant
            n == bytes@.len(),
            name_start < n,
            name_start + 1 <= k <= n,
            has_dot ==> name_start + 1 <= dot_pos < k && bytes@[dot_pos as int] == '.' as u8
                && forall|j: int| dot_pos < j < k ==> bytes@[j] != '.' as u8,
            !has_dot ==> forall|j: int| name_start + 1 <= j < k ==> bytes@[j] != '.' as u8,
        decreases n - k,
    {
        if bytes[k] == '.' as u8 {
            dot_pos = k;
            has_dot = true;
        }
        k = k + 1;
    }

    let ghost name = spec_file_name(bytes@);
    let ghost tail = name.skip(1);
    proof {
        assert(name == bytes@.subrange(name_start as int, n as int));
        assert(tail =~= bytes@.subrange(name_start + 1, n as int));
    }
    if !has_dot {
        proof {
            assert(forall|j: int|
                0 <= j < tail.len() ==> tail[j] == bytes@[name_start + 1 + j] && tail[j]
                    != '.' as u8);
            assert(!contains_byte(tail, '.' as u8));
        }
        return false;
    }
    proof {
        assert(tail[dot_pos - name_start - 1] == '.' as u8);
        assert(contains_byte(tail, '.' as u8));
        assert(name.len() >= 2);
        lemma_suffix_after_last_at(tail, '.' as u8, dot_pos - name_start - 1);
        assert(tail.subrange(dot_pos - name_start, tail.len() as int) =~= bytes@.subrange(
            dot_pos + 1,
            n as int,
        ));
        assert(spec_extension(bytes@) == Some(bytes@.subrange(dot_pos + 1, n as int)));
    }
    ext_supported(&bytes, dot_pos + 1)
}

} // verus!
