//! Resolving target directories for a logical archive name.
//!
//! A fixed two-entry table maps a logical name to the relative
//! configuration path of the game it belongs to.  One candidate directory
//! is formed per enumerated volume; the caller reports which candidates
//! exist on disk, and only those remain.  An explicit target directory
//! bypasses resolution entirely.

use vstd::prelude::*;
use vstd::string::*;
use crate::chars::{is_upper, letter_str, str_eq};
use crate::locator::strings_view;

verus! {

/// The fixed table: the relative configuration path of a logical name.
pub open spec fn relative_path_spec(stem: Seq<char>) -> Option<Seq<char>> {
    if stem == "WindowsClient"@ {
        Some("\\网络游戏\\三角洲行动\\DeltaForce\\Saved\\Config"@)
    } else if stem == "Windows"@ {
        Some("\\网络游戏\\无畏契约\\live\\ShooterGame\\Saved\\Config"@)
    } else {
        None
    }
}

/// Looks `file_stem` up in the fixed table.
pub fn relative_path_for(file_stem: &str) -> (r: Option<&'static str>)
    ensures
        match r {
            Some(s) => relative_path_spec(file_stem@) == Some(s@),
            None => relative_path_spec(file_stem@) is None,
        },
{
    if str_eq(file_stem, "WindowsClient") {
        Some("\\网络游戏\\三角洲行动\\DeltaForce\\Saved\\Config")
    } else if str_eq(file_stem, "Windows") {
        Some("\\网络游戏\\无畏契约\\live\\ShooterGame\\Saved\\Config")
    } else {
        None
    }
}

/// The candidate directory on the volume lettered `letter`.
pub open spec fn candidate_spec(letter: char, rel: Seq<char>) -> Seq<char> {
    seq![letter, ':'] + rel
}

/// One candidate directory per drive, or none for a name outside the table.
pub open spec fn candidates_spec(stem: Seq<char>, drives: Seq<char>) -> Seq<Seq<char>> {
    match relative_path_spec(stem) {
        Some(rel) => drives.map_values(|c: char| candidate_spec(c, rel)),
        None => Seq::empty(),
    }
}

/// Forms the candidate directory `X:<relative path>` for every drive.
pub fn candidate_target_dirs(file_stem: &str, drives: &Vec<char>) -> (r: Vec<String>)
    requires
        forall|i: int| 0 <= i < drives@.len() ==> is_upper(#[trigger] drives@[i]),
    ensures
        strings_view(r@) == candidates_spec(file_stem@, drives@),
{
    let mut r: Vec<String> = Vec::new();
    match relative_path_for(file_stem) {
        None => {
            proof {
                assert(strings_view(r@) =~= candidates_spec(file_stem@, drives@));
            }
        },
        Some(rel) => {
            let mut i: usize = 0;
            while i < drives.len()
                invariant
                    i <= drives@.len(),
                    relative_path_spec(file_stem@) == Some(rel@),
                    forall|k: int| 0 <= k < drives@.len() ==> is_upper(#[trigger] drives@[k]),
                    strings_view(r@) =~= drives@.take(i as int).map_values(
                        |c: char| candidate_spec(c, rel@),
                    ),
                decreases drives@.len() - i,
            {
                let c = drives[i];
                let mut s = String::from_str(letter_str(c));
                s.append(":");
                s.append(rel);
                proof {
                    reveal_strlit(":");
                    assert(s@ =~= candidate_spec(c, rel@));
                    assert(drives@.take(i + 1).drop_last() =~= drives@.take(i as int));
                }
                r.push(s);
                proof {
                    assert(drives@.take(i + 1).map_values(|c: char| candidate_spec(c, rel@)) =~=
                        drives@.take(i as int).map_values(|c: char| candidate_spec(c, rel@)) + seq![
                        candidate_spec(drives@[i as int], rel@),
                    ]);
                    assert(strings_view(r@) =~= drives@.take(i + 1).map_values(
                        |c: char| candidate_spec(c, rel@),
                    ));
                }
                i += 1;
            }
            proof {
                assert(drives@.take(drives@.len() as int) =~= drives@);
                assert(strings_view(r@) =~= candidates_spec(file_stem@, drives@));
            }
        },
    }
    r
}

/// `s` thinned to the positions whose flag is set.
pub open spec fn filter_by_flags(s: Seq<Seq<char>>, flags: Seq<bool>) -> Seq<Seq<char>>
    decreases s.len(),
{
    if s.len() == 0 || flags.len() == 0 {
        Seq::empty()
    } else {
        filter_by_flags(s.drop_last(), flags.drop_last()) + if flags.last() {
            seq![s.last()]
        } else {
            Seq::empty()
        }
    }
}

/// The resolved target directories of `stem`: its candidates on the drives
/// whose flag reports the directory as existing.
pub open spec fn target_dirs_spec(stem: Seq<char>, drives: Seq<char>, exists: Seq<bool>) -> Seq<
    Seq<char>,
> {
    filter_by_flags(candidates_spec(stem, drives), exists)
}

/// Resolves the target directories of `file_stem`: one candidate per drive,
/// kept when `exists` marks it present.  A name outside the table resolves
/// to no directory at all.
pub fn get_target_dirs(file_stem: &str, drives: &Vec<char>, exists: &Vec<bool>) -> (r: Vec<String>)
    requires
        exists@.len() == drives@.len(),
        forall|i: int| 0 <= i < drives@.len() ==> is_upper(#[trigger] drives@[i]),
    ensures
        strings_view(r@) == target_dirs_spec(file_stem@, drives@, exists@),
        relative_path_spec(file_stem@) is None ==> r@.len() == 0,
{
    let cands = candidate_target_dirs(file_stem, drives);
    let mut r: Vec<String> = Vec::new();
    if cands.len() == 0 {
        proof {
            assert(strings_view(r@) =~= target_dirs_spec(file_stem@, drives@, exists@));
        }
        return r;
    }
    let ghost cv = candidates_spec(file_stem@, drives@);
    proof {
        assert(strings_view(cands@).len() == cands@.len());
        if relative_path_spec(file_stem@) is None {
            assert(cv.len() == 0);
        } else {
            assert(cv.len() == drives@.len());
        }
    }
    let mut i: usize = 0;
    while i < cands.len()
        invariant
            i <= cands@.len(),
            cands@.len() == exists@.len(),
            cv == strings_view(cands@),
            strings_view(r@) =~= filter_by_flags(cv.take(i as int), exists@.take(i as int)),
        decreases cands@.len() - i,
    {
        proof {
            assert(cv.take(i + 1).drop_last() =~= cv.take(i as int));
            assert(exists@.take(i + 1).drop_last() =~= exists@.take(i as int));
        }
        if exists[i] {
            r.push(cands[i].clone());
            proof {
                assert(strings_view(r@) =~= filter_by_flags(cv.take(i as int), exists@.take(i as int))
                    + seq![cv[i as int]]);
            }
        }
        i += 1;
    }
    proof {
        assert(cv.take(cands@.len() as int) =~= cv);
        assert(exists@.take(cands@.len() as int) =~= exists@);
    }
    r
}

/// Resolves where to extract: an explicit target directory is used verbatim,
/// whatever the volumes hold; otherwise the fixed table and the enumerated
/// volumes decide.
pub fn resolve_targets(
    explicit_dir: &Option<String>,
    file_stem: &str,
    drives: &Vec<char>,
    exists: &Vec<bool>,
) -> (r: Vec<String>)
    requires
        exists@.len() == drives@.len(),
        forall|i: int| 0 <= i < drives@.len() ==> is_upper(#[trigger] drives@[i]),
    ensures
        match explicit_dir {
            Some(d) => strings_view(r@) =~= seq![d@],
            None => strings_view(r@) == target_dirs_spec(file_stem@, drives@, exists@),
        },
{
    match explicit_dir {
        Some(d) => {
            let mut r: Vec<String> = Vec::new();
            r.push(d.clone());
            proof {
                assert(strings_view(r@) =~= seq![d@]);
            }
            r
        },
        None => get_target_dirs(file_stem, drives, exists),
    }
}

} // verus!
