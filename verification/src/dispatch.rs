//! Choosing a decoder by file extension.
//!
//! The extension of the archive path, compared without regard to ASCII
//! case, picks one of the three supported formats.  Anything else is
//! rejected with the lower-cased extension kept for the error report.

use vstd::prelude::*;
use vstd::string::*;
use crate::chars::{ascii_lower, eq_icase, lower_seq, str_eq_icase};
use crate::paths::{extension_of, extension_spec};

verus! {

/// A supported archive format.
#[derive(Clone, Copy, Debug, PartialEq, Eq, Structural)]
pub enum ArchiveFormat {
    Zip,
    Rar,
    SevenZ,
}

/// What extracting one archive into one directory takes: the chosen
/// format and the two paths, carried through unchanged.
#[derive(Debug)]
pub struct ExtractPlan {
    pub format: ArchiveFormat,
    pub archive_path: String,
    pub output_dir: String,
}

/// Rejection of an archive whose extension names no supported format;
/// carries that extension, lower-cased, or `None` when there was none.
#[derive(Debug)]
pub struct UnsupportedFormat {
    pub extension: Option<String>,
}

/// The format the extension of `p` names, if any.
pub open spec fn format_of(p: Seq<char>) -> Option<ArchiveFormat> {
    match extension_spec(p) {
        Some(e) => if eq_icase(e, "zip"@) {
            Some(ArchiveFormat::Zip)
        } else if eq_icase(e, "rar"@) {
            Some(ArchiveFormat::Rar)
        } else if eq_icase(e, "7z"@) {
            Some(ArchiveFormat::SevenZ)
        } else {
            None
        },
        None => None,
    }
}

/// The text reported for an unsupported extension.
pub open spec fn unsupported_message_spec(ext: Option<Seq<char>>) -> Seq<char> {
    "不支持的压缩格式: "@ + match ext {
        None => "None"@,
        Some(e) => "Some(\""@ + e + "\")"@,
    }
}

impl UnsupportedFormat {
    /// The error line this rejection puts into the log.
    pub fn message(&self) -> (r: String)
        ensures
            r@ == unsupported_message_spec(match self.extension {
                Some(e) => Some(e@),
                None => None,
            }),
    {
        let mut out = String::from_str("不支持的压缩格式: ");
        match &self.extension {
            None => {
                out.append("None");
            },
            Some(e) => {
                out.append("Some(\"");
                out.append(e.as_str());
                out.append("\")");
                proof {
                    assert(out@ =~= "不支持的压缩格式: "@ + ("Some(\""@ + e@ + "\")"@));
                }
            },
        }
        out
    }
}

/// Decides how `archive_path` is to be extracted into `output_dir`: the
/// extension picks the format, and the plan carries both paths through.
/// An extension outside the three supported ones, or a path without an
/// extension, is rejected.
pub fn extract(archive_path: &str, output_dir: &str) -> (r: Result<ExtractPlan, UnsupportedFormat>)
    ensures
        r is Ok <==> format_of(archive_path@) is Some,
        match r {
            Ok(plan) => {
                &&& Some(plan.format) == format_of(archive_path@)
                &&& plan.archive_path@ == archive_path@
                &&& plan.output_dir@ == output_dir@
            },
            Err(e) => match extension_spec(archive_path@) {
                Some(orig) => e.extension matches Some(x) && x@ == lower_seq(orig),
                None => e.extension is None,
            },
        },
{
    let ext = extension_of(archive_path);
    match ext {
        Some(e) => {
            let format = if str_eq_icase(e.as_str(), "zip") {
                Some(ArchiveFormat::Zip)
            } else if str_eq_icase(e.as_str(), "rar") {
                Some(ArchiveFormat::Rar)
            } else if str_eq_icase(e.as_str(), "7z") {
                Some(ArchiveFormat::SevenZ)
            } else {
                None
            };
            match format {
                Some(f) => Ok(
                    ExtractPlan {
                        format: f,
                        archive_path: String::from_str(archive_path),
                        output_dir: String::from_str(output_dir),
                    },
                ),
                None => Err(UnsupportedFormat { extension: Some(ascii_lower(e.as_str())) }),
            }
        },
        None => Err(UnsupportedFormat { extension: None }),
    }
}

} // verus!
