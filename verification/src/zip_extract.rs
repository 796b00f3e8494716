//! Planning the writes of a ZIP extraction.
//!
//! The archive's bytes are handed in whole; the zip crate reads them from
//! an in-memory cursor.  Each entry becomes one planned write: a directory
//! when its stored name ends in a slash, otherwise a file holding the
//! entry's decompressed bytes, each under the target directory joined with
//! the stored name.  Performing the planned writes is the caller's
//! business.

use vstd::prelude::*;
use vstd::string::*;
use crate::paths::{is_sep, joined_path, join_path};

verus! {

#[verifier::external_type_specification]
#[verifier::external_body]
#[verifier::reject_recursive_types(R)]
pub struct ExZipArchive<R>(zip::read::ZipArchive<R>);

#[verifier::external_type_specification]
#[verifier::external_body]
pub struct ExZipError(zip::result::ZipError);

#[verifier::external_type_specification]
#[verifier::external_body]
#[verifier::reject_recursive_types(T)]
pub struct ExCursor<T>(std::io::Cursor<T>);

/// The entries a well-formed ZIP archive holds, each as its stored name
/// beside its decompressed bytes; `None` for bytes that form no archive.
pub uninterp spec fn zip_parse(data: Seq<u8>) -> Option<Seq<(Seq<char>, Seq<u8>)>>;

/// The entries behind an open archive reader.
pub uninterp spec fn zip_contents(a: zip::read::ZipArchive<std::io::Cursor<Vec<u8>>>) -> Seq<
    (Seq<char>, Seq<u8>),
>;

/// Bytes that open as an archive whose every entry decompresses: on such
/// bytes, and only on such, a full extraction succeeds.
pub uninterp spec fn zip_ok(data: Seq<u8>) -> bool;

/// Whether entry `i` of the open archive decompresses.
pub uninterp spec fn zip_entry_ok(
    a: zip::read::ZipArchive<std::io::Cursor<Vec<u8>>>,
    i: int,
) -> bool;

/// Relies on zip's `ZipArchive::new` over an in-memory cursor: it parses
/// the central directory, a function of the bytes alone, and errs exactly
/// on bytes that form no readable archive.  Bytes whose every entry also
/// decompresses open all the more, and what opens from them is an archive
/// of decompressible entries.
#[verifier::external_body]
fn zip_open(data: Vec<u8>) -> (r: Result<
    zip::read::ZipArchive<std::io::Cursor<Vec<u8>>>,
    zip::result::ZipError,
>)
    ensures
        r is Ok <==> zip_parse(data@) is Some,
        r matches Ok(a) ==> zip_contents(a) == zip_parse(data@)->Some_0,
        zip_ok(data@) ==> r is Ok,
        r matches Ok(a) ==> (zip_ok(data@) <==> (forall|i: int|
            0 <= i < zip_contents(a).len() ==> zip_entry_ok(a, i))),
{
    zip::ZipArchive::new(std::io::Cursor::new(data))
}

/// Relies on zip's `ZipArchive::len`: how many files the archive holds.
#[verifier::external_body]
fn zip_len(archive: &zip::read::ZipArchive<std::io::Cursor<Vec<u8>>>) -> (n: usize)
    ensures
        n == zip_contents(*archive).len(),
{
    archive.len()
}

/// Relies on zip's `ZipArchive::by_index` and the entry's stored name and
/// `Read` impl: hands entry `i` out as its name beside its decompressed
/// bytes.  Over an in-memory cursor this succeeds or fails as a function
/// of the archive's bytes and the index alone (an unsupported method,
/// encryption, or a corrupt stream fail it), and reading moves only the
/// cursor: the archive's contents, and which entries decompress, never
/// change.
#[verifier::external_body]
fn zip_entry(archive: &mut zip::read::ZipArchive<std::io::Cursor<Vec<u8>>>, i: usize) -> (r: Result<
    (String, Vec<u8>),
    zip::result::ZipError,
>)
    requires
        i < zip_contents(*old(archive)).len(),
    ensures
        zip_contents(*final(archive)) == zip_contents(*old(archive)),
        forall|j: int|
            zip_entry_ok(*final(archive), j) == zip_entry_ok(*old(archive), j),
        r is Ok <==> zip_entry_ok(*old(archive), i as int),
        r matches Ok(e) ==> (e.0@, e.1@) == zip_contents(*old(archive))[i as int],
{
    let mut f = archive.by_index(i)?;
    let name = f.name().to_string();
    let mut data = Vec::new();
    std::io::Read::read_to_end(&mut f, &mut data)?;
    Ok((name, data))
}

/// An entry whose stored name ends in a slash stands for a directory.
pub open spec fn is_dir_name(name: Seq<char>) -> bool {
    name.len() > 0 && is_sep(name.last())
}

/// One write of an extraction: a directory to create, or a file and the
/// bytes it receives.
#[derive(Debug)]
pub enum PlannedWrite {
    Directory { path: String },
    File { path: String, contents: Vec<u8> },
}

/// Whether `w` is the write that the entry `(name, bytes)` plans under
/// `dir`: its path joins `dir` with the name; a name ending in a slash
/// plans a directory, any other an identical copy of the bytes.
pub open spec fn write_plans_entry(
    w: PlannedWrite,
    dir: Seq<char>,
    entry: (Seq<char>, Seq<u8>),
) -> bool {
    if is_dir_name(entry.0) {
        w matches PlannedWrite::Directory { path } && path@ == joined_path(dir, entry.0)
    } else {
        w matches PlannedWrite::File { path, contents } && path@ == joined_path(dir, entry.0)
            && contents@ == entry.1
    }
}

/// Plans the write of one entry, handed over as its stored name and bytes.
pub fn plan_entry_write(output_dir: &str, name: &str, contents: Vec<u8>) -> (w: PlannedWrite)
    ensures
        write_plans_entry(w, output_dir@, (name@, contents@)),
{
    let len = name.unicode_len();
    let mut dir_entry = false;
    if len > 0 {
        let c = name.get_char(len - 1);
        dir_entry = c == '/' || c == '\\';
    }
    let path = join_path(output_dir, name);
    if dir_entry {
        PlannedWrite::Directory { path }
    } else {
        PlannedWrite::File { path, contents }
    }
}

/// Plans the writes that extracting the ZIP archive `data` into
/// `output_dir` performs: one write per entry, in the archive's order.
/// It succeeds exactly on bytes that open and decompress whole; bytes
/// that form no archive, and entries that fail to decompress, err with
/// the zip crate's error.
pub fn extract_zip(data: &Vec<u8>, output_dir: &str) -> (r: Result<
    Vec<PlannedWrite>,
    zip::result::ZipError,
>)
    ensures
        r is Ok <==> zip_ok(data@),
        r is Ok ==> zip_parse(data@) is Some,
        r matches Ok(ws) ==> {
            let entries = zip_parse(data@)->Some_0;
            &&& ws@.len() == entries.len()
            &&& forall|i: int|
                0 <= i < entries.len() ==> write_plans_entry(
                    #[trigger] ws@[i],
                    output_dir@,
                    entries[i],
                )
        },
{
    let ghost gdata = data@;
    let mut archive = match zip_open(data.clone()) {
        Ok(a) => a,
        Err(e) => {
            return Err(e);
        },
    };
    let n = zip_len(&archive);
    let mut ws: Vec<PlannedWrite> = Vec::new();
    let mut i: usize = 0;
    while i < n
        invariant
            gdata == data@,
            zip_parse(gdata) is Some,
            zip_contents(archive) == zip_parse(gdata)->Some_0,
            n == zip_contents(archive).len(),
            zip_ok(gdata) <==> (forall|k: int| 0 <= k < n ==> zip_entry_ok(archive, k)),
            i <= n,
            ws@.len() == i,
            forall|j: int| 0 <= j < i ==> zip_entry_ok(archive, j),
            forall|j: int|
                0 <= j < i ==> write_plans_entry(
                    #[trigger] ws@[j],
                    output_dir@,
                    zip_contents(archive)[j],
                ),
        decreases n - i,
    {
        proof {
            if zip_ok(gdata) {
                assert(zip_entry_ok(archive, i as int));
            }
        }
        let (name, bytes) = match zip_entry(&mut archive, i) {
            Ok(e) => e,
            Err(e) => {
                return Err(e);
            },
        };
        let w = plan_entry_write(output_dir, name.as_str(), bytes);
        ws.push(w);
        i += 1;
    }
    Ok(ws)
}

} // verus!
