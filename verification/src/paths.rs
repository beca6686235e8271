//! Path-derived text: SVG-extension detection, file-stem extraction, and
//! composition of the unique output file name.

use vstd::prelude::*;

verus! {

/// Whether a path names an SVG file: it ends in `.svg` in any letter case.
pub open spec fn spec_is_svg_path(s: Seq<char>) -> bool {
    &&& s.len() >= 4
    &&& s[s.len() - 4] == '.'
    &&& (s[s.len() - 3] == 's' || s[s.len() - 3] == 'S')
    &&& (s[s.len() - 2] == 'v' || s[s.len() - 2] == 'V')
    &&& (s[s.len() - 1] == 'g' || s[s.len() - 1] == 'G')
}

/// Exec form of `spec_is_svg_path`.
pub fn is_svg_path(path: &str) -> (r: bool)
    ensures
        r == spec_is_svg_path(path@),
{
    let n = path.unicode_len();
    if n < 4 {
        return false;
    }
    let c3 = path.get_char(n - 4);
    let c2 = path.get_char(n - 3);
    let c1 = path.get_char(n - 2);
    let c0 = path.get_char(n - 1);
    c3 == '.' && (c2 == 's' || c2 == 'S') && (c1 == 'v' || c1 == 'V') && (c0 == 'g' || c0 == 'G')
}

/// The index of the last occurrence of `c` in `s`, or -1.
pub open spec fn spec_last_pos(s: Seq<char>, c: char) -> int
    decreases s.len(),
{
    if s.len() == 0 {
        -1
    } else if s[s.len() - 1] == c {
        s.len() - 1
    } else {
        spec_last_pos(s.drop_last(), c)
    }
}

/// `spec_last_pos` always lies in `-1 ..< s.len()`.
pub proof fn lemma_last_pos_bounds(s: Seq<char>, c: char)
    ensures
        -1 <= spec_last_pos(s, c) < s.len(),
    decreases s.len(),
{
    if s.len() > 0 && s[s.len() - 1] != c {
        lemma_last_pos_bounds(s.drop_last(), c);
    }
}

/// The index of the last occurrence of `c`, or `None`.
fn last_char_index(s: &str, c: char) -> (r: Option<usize>)
    ensures
        match r {
            Some(i) => i as int == spec_last_pos(s@, c),
            None => spec_last_pos(s@, c) == -1,
        },
{
    let n = s.unicode_len();
    proof {
        assert(s@.take(n as int) =~= s@);
    }
    let mut i: usize = n;
    while i > 0
        invariant
            i <= n,
            n == s@.len(),
            spec_last_pos(s@, c) == spec_last_pos(s@.take(i as int), c),
        decreases i,
    {
        if s.get_char(i - 1) == c {
            proof {
                assert(s@.take(i as int)[i - 1] == s@[i - 1]);
            }
            return Some(i - 1);
        }
        proof {
            assert(s@.take(i as int)[i - 1] == s@[i - 1]);
            assert(s@.take(i as int).drop_last() =~= s@.take(i as int - 1));
        }
        i = i - 1;
    }
    None
}

/// The file name: everything after the last `/`.
pub open spec fn spec_file_name(s: Seq<char>) -> Seq<char> {
    s.subrange(spec_last_pos(s, '/') + 1, s.len() as int)
}

/// The file stem of a path: the file name up to its last `.`, the whole
/// name when it has no dot beyond a leading one, and `converted` when the
/// path yields no file name at all — the current-directory and
/// parent-directory components `.` and `..` name no file.
pub open spec fn spec_file_stem(s: Seq<char>) -> Seq<char> {
    let name = spec_file_name(s);
    if name.len() == 0 || name == "."@ || name == ".."@ {
        "converted"@
    } else {
        let d = spec_last_pos(name, '.');
        if d <= 0 {
            name
        } else {
            name.subrange(0, d)
        }
    }
}

/// Exec form of `spec_file_stem`.
pub fn file_stem(path: &str) -> (r: String)
    ensures
        r@ == spec_file_stem(path@),
{
    proof {
        lemma_last_pos_bounds(path@, '/');
    }
    let n = path.unicode_len();
    let start: usize = match last_char_index(path, '/') {
        Some(i) => i + 1,
        None => 0,
    };
    let name: &str = path.substring_char(start, n);
    let m = name.unicode_len();
    if m == 0 {
        return String::from_str("converted");
    }
    if m <= 2 && name.get_char(0) == '.' && (m == 1 || name.get_char(1) == '.') {
        proof {
            reveal_strlit(".");
            reveal_strlit("..");
            if m == 1 {
                assert(name@ =~= "."@);
            } else {
                assert(name@ =~= ".."@);
            }
        }
        return String::from_str("converted");
    }
    proof {
        reveal_strlit(".");
        reveal_strlit("..");
        assert(name@ != "."@ && name@ != ".."@);
        lemma_last_pos_bounds(name@, '.');
    }
    match last_char_index(name, '.') {
        Some(d) => {
            if d > 0 {
                String::from_str(name.substring_char(0, d))
            } else {
                String::from_str(name)
            }
        },
        None => String::from_str(name),
    }
}

/// The unique output file name: stem, a separating dash, the fresh
/// identifier, a dot and the target extension.
pub open spec fn spec_output_name(
    stem: Seq<char>,
    uid: Seq<char>,
    ext: Seq<char>,
) -> Seq<char> {
    stem + "-"@ + uid + "."@ + ext
}

/// Composes the output file name from its three parts.
pub fn compose_output_name(stem: &str, uid: &str, ext: &str) -> (r: String)
    ensures
        r@ == spec_output_name(stem@, uid@, ext@),
{
    String::from_str(stem).concat("-").concat(uid).concat(".").concat(ext)
}

} // verus!
