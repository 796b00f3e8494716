//! Validating an invocation and assembling extraction tasks.
//!
//! A run selects archives either by logical name from the working
//! directory's listing, by an explicit archive path, or, with no flags,
//! from the listing alone.  An explicit target directory is only valid
//! beside exactly one selected source.  Each selected archive crossed
//! with each of its resolved target directories gives one task.

use vstd::prelude::*;
use vstd::string::*;
use crate::chars::{eq_icase, str_eq_icase};
use crate::locator::{pairs_view, strings_view};
use crate::messages::{archive_needs_directory_message, invalid_invocation_message};

verus! {

/// How many sources the flags select.
pub open spec fn selected_sources(package_count: int, has_archive: bool) -> int {
    package_count + if has_archive {
        1int
    } else {
        0int
    }
}

/// Checks the flag combination: an explicit target directory demands
/// exactly one selected source.  A rejected combination yields the
/// message its log line carries.
pub fn check_invocation(package_count: usize, has_archive: bool, has_directory: bool) -> (r: Option<
    String,
>)
    ensures
        r is Some <==> (has_directory && selected_sources(package_count as int, has_archive) != 1),
        r matches Some(m) ==> m@ == "-d 参数必须与 -p 或 -a 参数一起使用，且只能指定一个压缩包"@,
{
    let one_source = if has_archive {
        package_count == 0
    } else {
        package_count == 1
    };
    if has_directory && !one_source {
        Some(invalid_invocation_message())
    } else {
        None
    }
}

/// Checks the explicit-archive flags: an archive path given without a
/// target directory is rejected with the message its log line carries.
pub fn check_archive_flags(has_archive: bool, has_directory: bool) -> (r: Option<String>)
    ensures
        r is Some <==> (has_archive && !has_directory),
        r matches Some(m) ==> m@ == "-a 参数必须搭配 -d 指定目标解压路径"@,
{
    if has_archive && !has_directory {
        Some(archive_needs_directory_message())
    } else {
        None
    }
}

/// The located archives whose stem is `name` up to ASCII case.
pub open spec fn matching_archives(archives: Seq<(Seq<char>, Seq<char>)>, name: Seq<char>) -> Seq<
    (Seq<char>, Seq<char>),
>
    decreases archives.len(),
{
    if archives.len() == 0 {
        Seq::empty()
    } else {
        matching_archives(archives.drop_last(), name) + if eq_icase(archives.last().0, name) {
            seq![archives.last()]
        } else {
            Seq::empty()
        }
    }
}

/// Picks the located archives whose stem matches the requested logical
/// name up to ASCII case, in listing order.
pub fn select_package_archives(name: &str, archives: &Vec<(String, String)>) -> (r: Vec<
    (String, String),
>)
    ensures
        pairs_view(r@) == matching_archives(pairs_view(archives@), name@),
{
    let ghost av = pairs_view(archives@);
    let mut r: Vec<(String, String)> = Vec::new();
    let mut i: usize = 0;
    while i < archives.len()
        invariant
            i <= archives@.len(),
            av == pairs_view(archives@),
            pairs_view(r@) =~= matching_archives(av.take(i as int), name@),
        decreases archives@.len() - i,
    {
        proof {
            assert(av.take(i + 1).drop_last() =~= av.take(i as int));
            assert(av.take(i + 1).last() == av[i as int]);
        }
        if str_eq_icase(archives[i].0.as_str(), name) {
            r.push((archives[i].0.clone(), archives[i].1.clone()));
            proof {
                assert(pairs_view(r@) =~= matching_archives(av.take(i as int), name@) + seq![
                    av[i as int],
                ]);
            }
        } else {
            proof {
                assert(matching_archives(av.take(i + 1), name@) =~= matching_archives(
                    av.take(i as int),
                    name@,
                ));
            }
        }
        i += 1;
    }
    proof {
        assert(av.take(archives@.len() as int) =~= av);
    }
    r
}

/// One task per target directory: the archive beside where it goes.
pub open spec fn tasks_spec(path: Seq<char>, dirs: Seq<Seq<char>>) -> Seq<(Seq<char>, Seq<char>)> {
    dirs.map_values(|d: Seq<char>| (path, d))
}

/// Crosses one archive with its resolved target directories.
pub fn tasks_for_archive(archive_path: &String, dirs: &Vec<String>) -> (r: Vec<(String, String)>)
    ensures
        pairs_view(r@) == tasks_spec(archive_path@, strings_view(dirs@)),
{
    let ghost dv = strings_view(dirs@);
    let mut r: Vec<(String, String)> = Vec::new();
    let mut i: usize = 0;
    while i < dirs.len()
        invariant
            i <= dirs@.len(),
            dv == strings_view(dirs@),
            pairs_view(r@) =~= dv.take(i as int).map_values(|d: Seq<char>| (archive_path@, d)),
        decreases dirs@.len() - i,
    {
        r.push((archive_path.clone(), dirs[i].clone()));
        proof {
            assert(dv.take(i + 1).map_values(|d: Seq<char>| (archive_path@, d)) =~= dv.take(
                i as int,
            ).map_values(|d: Seq<char>| (archive_path@, d)) + seq![(archive_path@, dv[i as int])]);
            assert(pairs_view(r@) =~= dv.take(i + 1).map_values(
                |d: Seq<char>| (archive_path@, d),
            ));
        }
        i += 1;
    }
    proof {
        assert(dv.take(dirs@.len() as int) =~= dv);
    }
    r
}

} // verus!
