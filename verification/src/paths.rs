//! Path inspection and output-path derivation, modelled over the path's
//! character sequence. A path's file name is everything after the last `/`;
//! within the file name, an extension exists only when a `.` stands at a
//! position after the first character (so a lone leading dot marks no
//! extension), and the stem is what precedes that dot.

use vstd::prelude::*;

verus! {

/// Index of the last occurrence of `c` in `s`, or -1 when `c` is absent.
pub open spec fn last_index_of(s: Seq<char>, c: char) -> int
    decreases s.len(),
{
    if s.len() == 0 {
        -1
    } else if s[s.len() - 1] == c {
        s.len() - 1
    } else {
        last_index_of(s.drop_last(), c)
    }
}

/// `last_index_of` returns -1 exactly when `c` is absent, and otherwise the
/// greatest index holding `c`.
pub proof fn lemma_last_index_of(s: Seq<char>, c: char)
    ensures
        -1 <= last_index_of(s, c) < s.len() || (s.len() == 0 && last_index_of(s, c) == -1),
        last_index_of(s, c) == -1 ==> forall|j: int| 0 <= j < s.len() ==> s[j] != c,
        last_index_of(s, c) >= 0 ==> {
            &&& last_index_of(s, c) < s.len()
            &&& s[last_index_of(s, c)] == c
            &&& forall|j: int| last_index_of(s, c) < j < s.len() ==> s[j] != c
        },
    decreases s.len(),
{
    if s.len() == 0 {
    } else if s[s.len() - 1] == c {
    } else {
        let t = s.drop_last();
        lemma_last_index_of(t, c);
        if last_index_of(s, c) == -1 {
            assert forall|j: int| 0 <= j < s.len() implies s[j] != c by {
                if j < s.len() - 1 {
                    assert(s[j] == t[j]);
                }
            }
        } else {
            let r = last_index_of(s, c);
            assert(s[r] == t[r]);
            assert forall|j: int| r < j < s.len() implies s[j] != c by {
                if j < s.len() - 1 {
                    assert(s[j] == t[j]);
                }
            }
        }
    }
}

/// An index holding `c` with nothing but non-`c` after it is the last index.
pub proof fn lemma_last_index_of_unique(s: Seq<char>, c: char, i: int)
    requires
        0 <= i < s.len(),
        s[i] == c,
        forall|j: int| i < j < s.len() ==> s[j] != c,
    ensures
        last_index_of(s, c) == i,
{
    lemma_last_index_of(s, c);
    let r = last_index_of(s, c);
    if r == -1 {
        assert(s[i] != c);
    } else if r < i {
        assert(s[i] != c);
    } else if r > i {
        assert(s[r] != c);
    }
}

/// When `c` occurs nowhere in `s`, `last_index_of` returns -1.
pub proof fn lemma_last_index_of_absent(s: Seq<char>, c: char)
    requires
        forall|j: int| 0 <= j < s.len() ==> s[j] != c,
    ensures
        last_index_of(s, c) == -1,
{
    lemma_last_index_of(s, c);
    let r = last_index_of(s, c);
    if r >= 0 {
        assert(s[r] != c);
    }
}

/// Index where the file name (the part after the last `/`) begins.
pub open spec fn file_name_start(p: Seq<char>) -> int {
    last_index_of(p, '/') + 1
}

/// The file-name portion of the path.
pub open spec fn spec_file_name(p: Seq<char>) -> Seq<char> {
    p.subrange(file_name_start(p), p.len() as int)
}

/// The directory portion of the path, trailing `/` included.
pub open spec fn spec_dir_prefix(p: Seq<char>) -> Seq<char> {
    p.subrange(0, file_name_start(p))
}

/// Whether the file name carries an extension: a `.` after its first
/// character.
pub open spec fn spec_has_extension(p: Seq<char>) -> bool {
    last_index_of(spec_file_name(p), '.') > 0
}

/// The extension: what follows the last `.` of the file name. Meaningful
/// only when `spec_has_extension` holds.
pub open spec fn spec_extension(p: Seq<char>) -> Seq<char> {
    let name = spec_file_name(p);
    name.subrange(last_index_of(name, '.') + 1, name.len() as int)
}

/// The stem: the file name up to its last `.`, or the whole file name when
/// there is no extension.
pub open spec fn spec_stem(p: Seq<char>) -> Seq<char> {
    let name = spec_file_name(p);
    if spec_has_extension(p) {
        name.subrange(0, last_index_of(name, '.'))
    } else {
        name
    }
}

/// Whether the path's extension is one of the accepted image extensions,
/// matched exactly and case-sensitively.
pub open spec fn spec_is_accepted(p: Seq<char>) -> bool {
    spec_has_extension(p) && (spec_extension(p) == "png"@ || spec_extension(p) == "jpg"@
        || spec_extension(p) == "jpeg"@ || spec_extension(p) == "bmp"@ || spec_extension(p)
        == "webp"@)
}

/// Stem used for the output file: the input's stem, or `image` when that
/// stem is empty.
pub open spec fn spec_output_stem(p: Seq<char>) -> Seq<char> {
    if spec_stem(p).len() == 0 {
        "image"@
    } else {
        spec_stem(p)
    }
}

/// Extension used for the output file: the input's extension, or `png` when
/// there is none.
pub open spec fn spec_output_extension(p: Seq<char>) -> Seq<char> {
    if spec_has_extension(p) {
        spec_extension(p)
    } else {
        "png"@
    }
}

/// The derived output path: `<dir><stem>_processed.<extension>`, in the
/// input's directory.
pub open spec fn spec_output_path(p: Seq<char>) -> Seq<char> {
    spec_dir_prefix(p) + spec_output_stem(p) + "_processed."@ + spec_output_extension(p)
}

/// Finds the last occurrence of `c` in `s` at an index of at least `start`,
/// reported as the last index of `c` within `s[start..]`.
fn find_last_char_from(s: &str, c: char, start: usize) -> (r: Option<usize>)
    requires
        start as nat <= s@.len(),
    ensures
        match r {
            Some(i) => start <= i && (i as nat) < s@.len() && s@[i as int] == c
                && last_index_of(s@.subrange(start as int, s@.len() as int), c) == i - start,
            None => last_index_of(s@.subrange(start as int, s@.len() as int), c) == -1,
        },
{
    let n: usize = s.unicode_len();
    let mut i: usize = n;
    while i > start
        invariant
            start <= i <= n,
            s@.len() == n as nat,
            forall|j: int| i <= j < s@.len() ==> s@[j] != c,
        decreases i,
    {
        i = i - 1;
        if s.get_char(i) == c {
            proof {
                let sub = s@.subrange(start as int, s@.len() as int);
                assert(sub[i - start] == s@[i as int]);
                assert forall|j: int| i - start < j < sub.len() implies sub[j] != c by {
                    assert(sub[j] == s@[j + start]);
                }
                lemma_last_index_of_unique(sub, c, i - start);
            }
            return Some(i);
        }
    }
    proof {
        let sub = s@.subrange(start as int, s@.len() as int);
        assert forall|j: int| 0 <= j < sub.len() implies sub[j] != c by {
            assert(sub[j] == s@[j + start]);
        }
        lemma_last_index_of_absent(sub, c);
    }
    None
}

/// Character-wise string equality, stated over the views.
pub fn str_eq(a: &str, b: &str) -> (r: bool)
    ensures
        r == (a@ == b@),
{
    let na: usize = a.unicode_len();
    let nb: usize = b.unicode_len();
    if na != nb {
        return false;
    }
    let mut i: usize = 0;
    while i < na
        invariant
            i <= na,
            a@.len() == na as nat,
            b@.len() == nb as nat,
            na == nb,
            forall|j: int| 0 <= j < i ==> a@[j] == b@[j],
        decreases na - i,
    {
        if a.get_char(i) != b.get_char(i) {
            return false;
        }
        i = i + 1;
    }
    proof {
        assert(a@ =~= b@);
    }
    true
}

/// Decides whether the path's extension is one of the accepted image
/// extensions (`png`, `jpg`, `jpeg`, `bmp`, `webp`), matched exactly and
/// case-sensitively; a path without an extension is rejected.
pub fn is_accepted_path(path: &str) -> (r: bool)
    ensures
        r == spec_is_accepted(path@),
{
    let n: usize = path.unicode_len();
    let slash: Option<usize> = find_last_char_from(path, '/', 0);
    proof {
        assert(path@.subrange(0, path@.len() as int) =~= path@);
    }
    let start: usize = match slash {
        Some(i) => i + 1,
        None => 0,
    };
    proof {
        assert(file_name_start(path@) == start as int);
        assert(spec_file_name(path@) == path@.subrange(start as int, path@.len() as int));
    }
    let dot: Option<usize> = find_last_char_from(path, '.', start);
    match dot {
        None => {
            proof {
                assert(!spec_has_extension(path@));
            }
            false
        },
        Some(d) => {
            if d == start {
                proof {
                    assert(!spec_has_extension(path@));
                }
                false
            } else {
                let ext: &str = path.substring_char(d + 1, n);
                proof {
                    let name = spec_file_name(path@);
                    assert(spec_has_extension(path@));
                    assert(ext@ =~= name.subrange(
                        last_index_of(name, '.') + 1,
                        name.len() as int,
                    ));
                    assert(ext@ == spec_extension(path@));
                }
                str_eq(ext, "png") || str_eq(ext, "jpg") || str_eq(ext, "jpeg") || str_eq(
                    ext,
                    "bmp",
                ) || str_eq(ext, "webp")
            }
        },
    }
}

/// Derives the output path `<dir><stem>_processed.<extension>` in the
/// input's directory, with stem falling back to `image` when the input's
/// stem is empty and extension falling back to `png` when the input has
/// none.
pub fn derive_output_path(path: &str) -> (r: String)
    ensures
        r@ == spec_output_path(path@),
{
    let n: usize = path.unicode_len();
    let slash: Option<usize> = find_last_char_from(path, '/', 0);
    proof {
        assert(path@.subrange(0, path@.len() as int) =~= path@);
    }
    let start: usize = match slash {
        Some(i) => i + 1,
        None => 0,
    };
    proof {
        assert(file_name_start(path@) == start as int);
        assert(spec_file_name(path@) == path@.subrange(start as int, path@.len() as int));
    }
    let dir: &str = path.substring_char(0, start);
    let dot: Option<usize> = find_last_char_from(path, '.', start);
    let mut stem: &str = "";
    let mut ext: &str = "png";
    match dot {
        Some(d) if d > start => {
            stem = path.substring_char(start, d);
            ext = path.substring_char(d + 1, n);
            proof {
                let name = spec_file_name(path@);
                assert(spec_has_extension(path@));
                assert(stem@ =~= name.subrange(0, last_index_of(name, '.')));
                assert(ext@ =~= name.subrange(last_index_of(name, '.') + 1, name.len() as int));
            }
        },
        _ => {
            stem = path.substring_char(start, n);
            proof {
                assert(!spec_has_extension(path@));
                assert(stem@ =~= spec_file_name(path@));
            }
        },
    }
    proof {
        assert(stem@ == spec_stem(path@));
        assert(ext@ == spec_output_extension(path@));
    }
    if stem.unicode_len() == 0 {
        stem = "image";
    }
    let mut out: String = String::new();
    out.append(dir);
    out.append(stem);
    out.append("_processed.");
    out.append(ext);
    proof {
        assert(out@ =~= spec_output_path(path@));
    }
    out
}

} // verus!
