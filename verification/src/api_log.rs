//! The file in the directory of a session that lists the calls of the services.
use crate::clock::{is_written_time, now_rfc3339};
use crate::task::EventKind;
use vstd::prelude::*;

verus! {

/// The name of the file.
pub const API_CALLS_FILE: &'static str = "api_calls.txt";

/// The line for a call: when it was, what it was, and what it was about.
pub open spec fn call_line(timestamp: Seq<char>, kind: EventKind, detail: Seq<char>) -> Seq<char> {
    timestamp + " | "@ + kind.text() + " | "@ + detail
}

/// The line for a call at a time.
pub fn api_call_log_line(timestamp: &str, kind: EventKind, detail: &str) -> (r: String)
    ensures
        r@ == call_line(timestamp@, kind, detail@),
{
    timestamp.to_owned().concat(" | ").concat(kind.name()).concat(" | ").concat(detail)
}

/// The line for a call that is made now.
pub fn append_api_call_log_line(kind: EventKind, detail: &str) -> (r: String)
    ensures
        exists|timestamp: Seq<char>|
            is_written_time(timestamp) && r@ == #[trigger] call_line(timestamp, kind, detail@),
{
    let timestamp = now_rfc3339();
    let line = api_call_log_line(timestamp.as_str(), kind, detail);
    assert(line@ == call_line(timestamp@, kind, detail@));
    line
}

/// The line for a call begins with the time and ends with what the call was about; between them
/// stands the word for the call, set apart on both sides.
pub proof fn a_call_is_logged_with_its_time_and_its_detail(
    timestamp: Seq<char>,
    kind: EventKind,
    detail: Seq<char>,
)
    ensures
        ({
            let line = call_line(timestamp, kind, detail);
            let word = timestamp.len() + 3;
            let rest = word + kind.text().len() + 3;
            &&& line.len() == rest + detail.len()
            &&& line.take(timestamp.len() as int) == timestamp
            &&& line.subrange(timestamp.len() as int, word as int) == seq![' ', '|', ' ']
            &&& line.subrange(word as int, rest - 3) == kind.text()
            &&& line.subrange(rest - 3, rest as int) == seq![' ', '|', ' ']
            &&& line.skip(rest as int) == detail
        }),
{
    reveal_strlit(" | ");
    let line = call_line(timestamp, kind, detail);
    let word = timestamp.len() + 3;
    let rest = word + kind.text().len() + 3;
    assert(line.take(timestamp.len() as int) =~= timestamp);
    assert(line.subrange(timestamp.len() as int, word as int) =~= seq![' ', '|', ' ']);
    assert(line.subrange(word as int, rest - 3) =~= kind.text());
    assert(line.subrange(rest - 3, rest as int) =~= seq![' ', '|', ' ']);
    assert(line.skip(rest as int) =~= detail);
}

} // verus!
