//! Formatting the error log's lines.
//!
//! A log line is the local timestamp, one space, the message, and a
//! newline.  Only the line's text is built here; appending it to the
//! log file is the caller's business.

use vstd::prelude::*;
use vstd::string::*;

verus! {

/// Relies on chrono's `Local::now` and its `format`: the local time as
/// `year-month-day hour:minute:second`, with the year at least four
/// digits and every other field exactly two.
#[verifier::external_body]
fn local_timestamp() -> (r: String)
    ensures
        r@.len() >= 19,
{
    chrono::Local::now().format("%Y-%m-%d %H:%M:%S").to_string()
}

/// One log line: the timestamp, a space, the message, a newline.
pub open spec fn log_line_spec(now: Seq<char>, msg: Seq<char>) -> Seq<char> {
    now + " "@ + msg + "\n"@
}

/// Writes `message` behind the given timestamp.
pub fn format_log_line(now: &str, message: &str) -> (r: String)
    ensures
        r@ == log_line_spec(now@, message@),
{
    let mut out = String::from_str(now);
    out.append(" ");
    out.append(message);
    out.append("\n");
    proof {
        assert(out@ =~= log_line_spec(now@, message@));
    }
    out
}

/// Stamps `message` with the local time: the line the error sink appends.
/// The line is some timestamp of at least nineteen characters, a space,
/// the message, and a newline.
pub fn make_log_line(message: &str) -> (r: String)
    ensures
        r@.len() >= message@.len() + 21,
        exists|ts: Seq<char>| ts.len() >= 19 && r@ == log_line_spec(ts, message@),
{
    let ts = local_timestamp();
    let r = format_log_line(ts.as_str(), message);
    proof {
        reveal_strlit(" ");
        reveal_strlit("\n");
        assert(ts@.len() >= 19 && r@ == log_line_spec(ts@, message@));
    }
    r
}

} // verus!
