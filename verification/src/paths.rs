//! The library's model of path names.
//!
//! A path is a character sequence; `/` and `\` separate its components.
//! The file name is what follows the last separator; its extension is what
//! follows the last dot, provided something precedes that dot.  Joining a
//! directory and a relative name inserts a single `/`.  These rules cover
//! every name a directory listing yields.

use vstd::prelude::*;
use vstd::string::*;

verus! {

/// A path-component separator.
pub open spec fn is_sep(c: char) -> bool {
    c == '/' || c == '\\'
}

/// Index of the last separator in `p`, or `-1` when there is none.
pub open spec fn last_sep(p: Seq<char>) -> int
    decreases p.len(),
{
    if p.len() == 0 {
        -1
    } else if is_sep(p.last()) {
        p.len() - 1
    } else {
        last_sep(p.drop_last())
    }
}

/// Index of the last `.` in `p`, or `-1` when there is none.
pub open spec fn last_dot(p: Seq<char>) -> int
    decreases p.len(),
{
    if p.len() == 0 {
        -1
    } else if p.last() == '.' {
        p.len() - 1
    } else {
        last_dot(p.drop_last())
    }
}

proof fn lemma_last_sep_range(p: Seq<char>)
    ensures
        -1 <= last_sep(p) < p.len(),
    decreases p.len(),
{
    if p.len() > 0 && !is_sep(p.last()) {
        lemma_last_sep_range(p.drop_last());
    }
}

proof fn lemma_last_dot_range(p: Seq<char>)
    ensures
        -1 <= last_dot(p) < p.len(),
    decreases p.len(),
{
    if p.len() > 0 && p.last() != '.' {
        lemma_last_dot_range(p.drop_last());
    }
}

/// The file name of `p`: everything after the last separator.
pub open spec fn file_name_spec(p: Seq<char>) -> Seq<char> {
    p.subrange(last_sep(p) + 1, p.len() as int)
}

/// The extension of the file name `n`: what follows the last dot, provided
/// the dot is preceded by at least one character.
pub open spec fn name_extension(n: Seq<char>) -> Option<Seq<char>> {
    if last_dot(n) >= 1 {
        Some(n.subrange(last_dot(n) + 1, n.len() as int))
    } else {
        None
    }
}

/// The stem of the file name `n`: what precedes its extension's dot, or all
/// of `n` when there is no extension.
pub open spec fn name_stem(n: Seq<char>) -> Seq<char> {
    if last_dot(n) >= 1 {
        n.subrange(0, last_dot(n))
    } else {
        n
    }
}

/// The extension of the path `p`, taken from its file name.
pub open spec fn extension_spec(p: Seq<char>) -> Option<Seq<char>> {
    name_extension(file_name_spec(p))
}

/// The stem of the path `p`, or `None` when the file name is empty.
pub open spec fn stem_spec(p: Seq<char>) -> Option<Seq<char>> {
    if file_name_spec(p).len() == 0 {
        None
    } else {
        Some(name_stem(file_name_spec(p)))
    }
}

/// A name whose first character is a separator stands on its own when joined.
pub open spec fn is_rooted(n: Seq<char>) -> bool {
    n.len() > 0 && is_sep(n[0])
}

/// `dir` and `name` joined: `name` alone when it is rooted or `dir` is empty;
/// no separator is doubled.
pub open spec fn joined_path(dir: Seq<char>, name: Seq<char>) -> Seq<char> {
    if is_rooted(name) || dir.len() == 0 {
        name
    } else if is_sep(dir.last()) {
        dir + name
    } else {
        dir + seq!['/'] + name
    }
}

/// Finds the last separator of `p`, as `last_sep` names it.
fn find_last_sep(p: &str) -> (r: Option<usize>)
    ensures
        match r {
            Some(i) => last_sep(p@) == i as int,
            None => last_sep(p@) == -1,
        },
{
    let len = p.unicode_len();
    let mut i: usize = 0;
    let mut found: Option<usize> = None;
    while i < len
        invariant
            len == p@.len(),
            i <= len,
            match found {
                Some(k) => last_sep(p@.take(i as int)) == k as int && k < i,
                None => last_sep(p@.take(i as int)) == -1,
            },
        decreases len - i,
    {
        let c = p.get_char(i);
        proof {
            assert(p@.take(i + 1).drop_last() =~= p@.take(i as int));
            assert(p@.take(i + 1).last() == p@[i as int]);
        }
        if c == '/' || c == '\\' {
            found = Some(i);
        }
        i += 1;
    }
    proof {
        assert(p@.take(len as int) =~= p@);
    }
    found
}

/// Finds the last dot of `p`, as `last_dot` names it.
fn find_last_dot(p: &str) -> (r: Option<usize>)
    ensures
        match r {
            Some(i) => last_dot(p@) == i as int,
            None => last_dot(p@) == -1,
        },
{
    let len = p.unicode_len();
    let mut i: usize = 0;
    let mut found: Option<usize> = None;
    while i < len
        invariant
            len == p@.len(),
            i <= len,
            match found {
                Some(k) => last_dot(p@.take(i as int)) == k as int && k < i,
                None => last_dot(p@.take(i as int)) == -1,
            },
        decreases len - i,
    {
        let c = p.get_char(i);
        proof {
            assert(p@.take(i + 1).drop_last() =~= p@.take(i as int));
            assert(p@.take(i + 1).last() == p@[i as int]);
        }
        if c == '.' {
            found = Some(i);
        }
        i += 1;
    }
    proof {
        assert(p@.take(len as int) =~= p@);
    }
    found
}

/// The file name of `p`.
pub fn path_file_name(p: &str) -> (r: String)
    ensures
        r@ == file_name_spec(p@),
{
    let len = p.unicode_len();
    proof {
        lemma_last_sep_range(p@);
    }
    let start: usize = match find_last_sep(p) {
        Some(i) => i + 1,
        None => 0,
    };
    let sub = p.substring_char(start, len);
    String::from_str(sub)
}

/// The extension of `p`'s file name, or `None` when it has none.
pub fn extension_of(p: &str) -> (r: Option<String>)
    ensures
        match r {
            Some(e) => extension_spec(p@) == Some(e@),
            None => extension_spec(p@) is None,
        },
{
    let name = path_file_name(p);
    let n = name.as_str();
    let len = n.unicode_len();
    match find_last_dot(n) {
        Some(d) if d >= 1 => {
            proof {
                lemma_last_dot_range(n@);
            }
            let sub = n.substring_char(d + 1, len);
            Some(String::from_str(sub))
        },
        _ => None,
    }
}

/// The stem of `p`'s file name, or `None` when the file name is empty.
pub fn file_stem_of(p: &str) -> (r: Option<String>)
    ensures
        match r {
            Some(s) => stem_spec(p@) == Some(s@),
            None => stem_spec(p@) is None,
        },
{
    let name = path_file_name(p);
    let n = name.as_str();
    let len = n.unicode_len();
    if len == 0 {
        return None;
    }
    match find_last_dot(n) {
        Some(d) if d >= 1 => {
            proof {
                lemma_last_dot_range(n@);
            }
            let sub = n.substring_char(0, d);
            Some(String::from_str(sub))
        },
        _ => Some(name),
    }
}

/// `dir` and `name` joined, as `joined_path` describes.
pub fn join_path(dir: &str, name: &str) -> (r: String)
    ensures
        r@ == joined_path(dir@, name@),
{
    let nlen = name.unicode_len();
    let dlen = dir.unicode_len();
    if nlen > 0 {
        let c0 = name.get_char(0);
        if c0 == '/' || c0 == '\\' {
            return String::from_str(name);
        }
    }
    if dlen == 0 {
        return String::from_str(name);
    }
    let last = dir.get_char(dlen - 1);
    let mut out = String::from_str(dir);
    if !(last == '/' || last == '\\') {
        out.append("/");
        proof {
            reveal_strlit("/");
            assert(out@ =~= dir@ + seq!['/']);
        }
    }
    out.append(name);
    proof {
        if !(last == '/' || last == '\\') {
            assert(out@ =~= dir@ + seq!['/'] + name@);
        }
    }
    out
}

} // verus!
