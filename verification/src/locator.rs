//! Locating archives in a directory listing.
//!
//! A listing entry counts as an archive when its stem matches one of the
//! recognized logical names up to ASCII case and its extension one of the
//! recognized archive formats.  The locator keeps each match as the pair
//! of its stem, written as it appears, and its full path.

use vstd::prelude::*;
use vstd::string::*;
use crate::chars::{eq_icase, str_eq_icase};
use crate::paths::{extension_spec, stem_spec, extension_of, file_stem_of};

verus! {

/// A recognized logical archive name.
pub open spec fn valid_name(s: Seq<char>) -> bool {
    eq_icase(s, "WindowsClient"@) || eq_icase(s, "Windows"@)
}

/// A recognized archive format, named by its extension.
pub open spec fn valid_ext(s: Seq<char>) -> bool {
    eq_icase(s, "zip"@) || eq_icase(s, "rar"@) || eq_icase(s, "7z"@)
}

/// A path whose stem and extension are both recognized.
pub open spec fn is_archive_path(p: Seq<char>) -> bool {
    match (stem_spec(p), extension_spec(p)) {
        (Some(s), Some(e)) => valid_name(s) && valid_ext(e),
        _ => false,
    }
}

/// The pair the locator keeps for a matching path.
pub open spec fn archive_pair(p: Seq<char>) -> (Seq<char>, Seq<char>) {
    (stem_spec(p)->Some_0, p)
}

/// The pairs for the matching paths of `ps`, in listing order.
pub open spec fn located_archives(ps: Seq<Seq<char>>) -> Seq<(Seq<char>, Seq<char>)>
    decreases ps.len(),
{
    if ps.len() == 0 {
        Seq::empty()
    } else {
        located_archives(ps.drop_last()) + if is_archive_path(ps.last()) {
            seq![archive_pair(ps.last())]
        } else {
            Seq::empty()
        }
    }
}

/// The character sequences behind a vector of string pairs.
pub open spec fn pairs_view(s: Seq<(String, String)>) -> Seq<(Seq<char>, Seq<char>)> {
    s.map_values(|q: (String, String)| (q.0@, q.1@))
}

/// The character sequences behind a vector of strings.
pub open spec fn strings_view(s: Seq<String>) -> Seq<Seq<char>> {
    s.map_values(|p: String| p@)
}

/// Whether `s` is a recognized logical archive name.
pub fn is_valid_name(s: &str) -> (r: bool)
    ensures
        r == valid_name(s@),
{
    str_eq_icase(s, "WindowsClient") || str_eq_icase(s, "Windows")
}

/// Whether `s` is a recognized archive extension.
pub fn is_valid_ext(s: &str) -> (r: bool)
    ensures
        r == valid_ext(s@),
{
    str_eq_icase(s, "zip") || str_eq_icase(s, "rar") || str_eq_icase(s, "7z")
}

/// Picks the archives out of a directory listing: every path whose stem and
/// extension are recognized yields the pair of its stem and the path itself.
pub fn find_archives(paths: &Vec<String>) -> (r: Vec<(String, String)>)
    ensures
        pairs_view(r@) == located_archives(strings_view(paths@)),
{
    let ghost ps = strings_view(paths@);
    let mut r: Vec<(String, String)> = Vec::new();
    let mut i: usize = 0;
    while i < paths.len()
        invariant
            i <= paths.len(),
            ps == strings_view(paths@),
            pairs_view(r@) == located_archives(ps.take(i as int)),
        decreases paths.len() - i,
    {
        let p = &paths[i];
        let stem = file_stem_of(p.as_str());
        let ext = extension_of(p.as_str());
        proof {
            assert(ps.take(i + 1).drop_last() =~= ps.take(i as int));
            assert(ps.take(i + 1).last() == p@);
        }
        let mut pushed = false;
        match (stem, ext) {
            (Some(s), Some(e)) => {
                if is_valid_name(s.as_str()) && is_valid_ext(e.as_str()) {
                    r.push((s, p.clone()));
                    pushed = true;
                    proof {
                        assert(pairs_view(r@) =~= located_archives(ps.take(i as int)) + seq![
                            archive_pair(p@),
                        ]);
                    }
                }
            },
            _ => {},
        }
        if !pushed {
            proof {
                assert(pairs_view(r@) =~= located_archives(ps.take(i as int)) + Seq::empty());
            }
        }
        i += 1;
    }
    proof {
        assert(ps.take(paths@.len() as int) =~= ps);
    }
    r
}

/// How often `x` stands in `s`.
pub open spec fn occurrences(s: Seq<(Seq<char>, Seq<char>)>, x: (Seq<char>, Seq<char>)) -> nat
    decreases s.len(),
{
    if s.len() == 0 {
        0
    } else {
        occurrences(s.drop_last(), x) + if s.last() == x {
            1nat
        } else {
            0nat
        }
    }
}

/// How many entries of `ps` equal `p`.
pub open spec fn count_eq(ps: Seq<Seq<char>>, p: Seq<char>) -> nat
    decreases ps.len(),
{
    if ps.len() == 0 {
        0
    } else {
        count_eq(ps.drop_last(), p) + if ps.last() == p {
            1nat
        } else {
            0nat
        }
    }
}

proof fn lemma_occurrences_of_pair(ps: Seq<Seq<char>>, p: Seq<char>)
    requires
        is_archive_path(p),
    ensures
        occurrences(located_archives(ps), archive_pair(p)) == count_eq(ps, p),
    decreases ps.len(),
{
    if ps.len() > 0 {
        lemma_occurrences_of_pair(ps.drop_last(), p);
        let la = located_archives(ps.drop_last());
        if is_archive_path(ps.last()) {
            let tail = seq![archive_pair(ps.last())];
            assert((la + tail).drop_last() =~= la);
            if ps.last() != p {
                assert(archive_pair(ps.last()).1 != archive_pair(p).1);
            }
        } else {
            assert(la + Seq::empty() =~= la);
            assert(ps.last() != p);
        }
    }
}

proof fn lemma_count_eq_zero(ps: Seq<Seq<char>>, p: Seq<char>)
    requires
        forall|j: int| 0 <= j < ps.len() ==> ps[j] != p,
    ensures
        count_eq(ps, p) == 0,
    decreases ps.len(),
{
    if ps.len() > 0 {
        lemma_count_eq_zero(ps.drop_last(), p);
    }
}

proof fn lemma_count_eq_distinct(ps: Seq<Seq<char>>, i: int)
    requires
        0 <= i < ps.len(),
        forall|j: int, k: int| 0 <= j < k < ps.len() ==> ps[j] != ps[k],
    ensures
        count_eq(ps, ps[i]) == 1,
    decreases ps.len(),
{
    if i == ps.len() - 1 {
        lemma_count_eq_zero(ps.drop_last(), ps[i]);
    } else {
        lemma_count_eq_distinct(ps.drop_last(), i);
        assert(ps.last() != ps[i]);
    }
}

/// The locator includes each matching file of a listing of distinct paths
/// in its result exactly once.
pub proof fn lemma_locator_exactly_once(ps: Seq<Seq<char>>, i: int)
    requires
        0 <= i < ps.len(),
        is_archive_path(ps[i]),
        forall|j: int, k: int| 0 <= j < k < ps.len() ==> ps[j] != ps[k],
    ensures
        occurrences(located_archives(ps), archive_pair(ps[i])) == 1,
{
    lemma_occurrences_of_pair(ps, ps[i]);
    lemma_count_eq_distinct(ps, i);
}

} // verus!
