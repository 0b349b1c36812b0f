//! Path names as plain strings, with `/` as the separator.
//!
//! Every file the pipeline touches lives under a temporary directory that
//! the pipeline itself creates, so path handling reduces to a few string
//! operations: joining, taking the file name, and swapping extensions.

use vstd::prelude::*;

verus! {

/// Index of the last occurrence of `c` in `s`, or `-1` when absent.
pub open spec fn last_index_of_char(s: Seq<char>, c: char) -> int
    decreases s.len(),
{
    if s.len() == 0 {
        -1
    } else if s.last() == c {
        s.len() - 1
    } else {
        last_index_of_char(s.drop_last(), c)
    }
}

/// `last_index_of_char` points at the last occurrence: everything after it
/// differs from `c`, and it is `-1` exactly when `c` does not occur.
pub proof fn lemma_last_index_of_char(s: Seq<char>, c: char)
    ensures
        -1 <= last_index_of_char(s, c) < s.len(),
        last_index_of_char(s, c) >= 0 ==> s[last_index_of_char(s, c)] == c,
        forall|j: int| last_index_of_char(s, c) < j < s.len() ==> s[j] != c,
    decreases s.len(),
{
    if s.len() > 0 && s.last() != c {
        lemma_last_index_of_char(s.drop_last(), c);
        assert(forall|j: int| 0 <= j < s.len() - 1 ==> s[j] == s.drop_last()[j]);
    }
}

/// The part after the last `/`; the whole string when there is no `/`.
pub open spec fn file_name_of(p: Seq<char>) -> Seq<char> {
    p.subrange(last_index_of_char(p, '/') + 1, p.len() as int)
}

/// The part up to and including the last `/`; empty when there is no `/`.
pub open spec fn dir_part_of(p: Seq<char>) -> Seq<char> {
    p.subrange(0, last_index_of_char(p, '/') + 1)
}

/// The file name with its extension removed. A name whose only `.` is the
/// leading one (or that has none) is kept whole.
pub open spec fn stem_of(name: Seq<char>) -> Seq<char> {
    let d = last_index_of_char(name, '.');
    if d <= 0 {
        name
    } else {
        name.subrange(0, d)
    }
}

/// The stem of the file-name part of a path.
pub open spec fn base_name_of(p: Seq<char>) -> Seq<char> {
    stem_of(file_name_of(p))
}

/// `dir` and `name` joined with a single `/`.
pub open spec fn joined(dir: Seq<char>, name: Seq<char>) -> Seq<char> {
    if dir.len() > 0 && dir.last() == '/' {
        dir + name
    } else {
        dir + seq!['/'] + name
    }
}

/// `p` with its file-name part replaced by `name`.
pub open spec fn with_file_name_of(p: Seq<char>, name: Seq<char>) -> Seq<char> {
    dir_part_of(p) + name
}

/// `p` with the extension of its file-name part replaced by `ext`.
pub open spec fn with_extension_of(p: Seq<char>, ext: Seq<char>) -> Seq<char> {
    dir_part_of(p) + stem_of(file_name_of(p)) + seq!['.'] + ext
}

/// Index of the last occurrence of `c` in `s`.
pub fn last_index_of(s: &str, c: char) -> (r: Option<usize>)
    ensures
        match r {
            Option::None => last_index_of_char(s@, c) == -1,
            Option::Some(i) => i < s@.len() && last_index_of_char(s@, c) == i,
        },
{
    proof {
        lemma_last_index_of_char(s@, c);
    }
    let mut i = s.unicode_len();
    while i > 0
        invariant
            i <= s@.len(),
            forall|j: int| i <= j < s@.len() ==> s@[j] != c,
            -1 <= last_index_of_char(s@, c) < s@.len(),
            last_index_of_char(s@, c) >= 0 ==> s@[last_index_of_char(s@, c)] == c,
            forall|j: int| last_index_of_char(s@, c) < j < s@.len() ==> s@[j] != c,
        decreases i,
    {
        i -= 1;
        if s.get_char(i) == c {
            return Some(i);
        }
    }
    None
}

/// Joins `dir` and `name` with a single `/`.
pub fn join_path(dir: &str, name: &str) -> (r: String)
    ensures
        r@ == joined(dir@, name@),
{
    let dl = dir.unicode_len();
    let mut s = String::from_str(dir);
    if !(dl > 0 && dir.get_char(dl - 1) == '/') {
        s.append("/");
        proof {
            reveal_strlit("/");
            assert(s@ =~= dir@ + seq!['/']);
        }
    }
    s.append(name);
    proof {
        if dl > 0 && dir@.last() == '/' {
            assert(s@ =~= dir@ + name@);
        } else {
            assert(s@ =~= dir@ + seq!['/'] + name@);
        }
    }
    s
}

/// The part of `p` after the last `/`.
pub fn file_name(p: &str) -> (r: String)
    ensures
        r@ == file_name_of(p@),
{
    let pl = p.unicode_len();
    match last_index_of(p, '/') {
        None => {
            let r = String::from_str(p);
            proof {
                assert(r@ =~= file_name_of(p@));
            }
            r
        },
        Some(i) => {
            let r = String::from_str(p.substring_char(i + 1, pl));
            r
        },
    }
}

/// The stem of the file-name part of `p`; `p`'s own name when it has no
/// separable extension.
pub fn base_name(p: &str) -> (r: String)
    ensures
        r@ == base_name_of(p@),
{
    let name = file_name(p);
    let _nl = name.as_str().unicode_len();
    match last_index_of(name.as_str(), '.') {
        Some(i) if i > 0 => String::from_str(name.as_str().substring_char(0, i)),
        _ => name,
    }
}

/// `p` with its file-name part replaced by `name`.
pub fn with_file_name(p: &str, name: &str) -> (r: String)
    ensures
        r@ == with_file_name_of(p@, name@),
{
    let _pl = p.unicode_len();
    match last_index_of(p, '/') {
        None => {
            let r = String::from_str(name);
            proof {
                assert(dir_part_of(p@) =~= Seq::<char>::empty());
                assert(r@ =~= with_file_name_of(p@, name@));
            }
            r
        },
        Some(i) => {
            let mut r = String::from_str(p.substring_char(0, i + 1));
            r.append(name);
            r
        },
    }
}

/// Where a fetched file is written: the default path, unless the response
/// carried a file name of its own, which then replaces the default's
/// file-name part.
pub fn choose_download_path(default_path: &str, inferred_name: &Option<String>) -> (r: String)
    ensures
        match inferred_name {
            Option::None => r@ == default_path@,
            Option::Some(n) => r@ == with_file_name_of(default_path@, n@),
        },
{
    match inferred_name {
        None => String::from_str(default_path),
        Some(n) => with_file_name(default_path, n.as_str()),
    }
}

/// `p` with the extension of its file-name part replaced by `ext`.
pub fn with_extension(p: &str, ext: &str) -> (r: String)
    ensures
        r@ == with_extension_of(p@, ext@),
{
    let _pl = p.unicode_len();
    let stem = base_name(p);
    let mut r = match last_index_of(p, '/') {
        None => {
            proof {
                assert(dir_part_of(p@) =~= Seq::<char>::empty());
            }
            String::new()
        },
        Some(i) => String::from_str(p.substring_char(0, i + 1)),
    };
    r.append(stem.as_str());
    r.append(".");
    r.append(ext);
    proof {
        reveal_strlit(".");
        assert(r@ =~= with_extension_of(p@, ext@));
    }
    r
}

} // verus!
