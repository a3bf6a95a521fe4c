//! The lines a sink writes.

use vstd::prelude::*;
use vstd::string::*;
use crate::record::{normalize_target, shown_target, Record, RecordView};
use crate::text::{digits, digits_of};

verus! {

/// A verbose line: the timestamp in square brackets, the level's name, two
/// spaces, the shown target, the digits of the thread in round brackets, and
/// the message.
pub open spec fn extended_text(timestamp: Seq<char>, record: RecordView) -> Seq<char> {
    "["@ + timestamp + "] "@ + record.level.label() + "  "@ + shown_target(record.target) + " ("@
        + digits(record.thread) + ") "@ + record.message
}

/// A terse line: the message behind `:: `.
pub open spec fn terse_text(message: Seq<char>) -> Seq<char> {
    ":: "@ + message
}

/// A line above a live spinner: the message behind `:: `, an arrow and a space.
pub open spec fn above_text(message: Seq<char>) -> Seq<char> {
    ":: \u{2192} "@ + message
}

/// Writes [`extended_text`].
pub fn extended_line(timestamp: &str, record: &Record) -> (r: String)
    ensures
        r@ == extended_text(timestamp@, record@),
{
    let mut line = String::from_str("[");
    line.append(timestamp);
    line.append("] ");
    line.append(record.level.as_str());
    line.append("  ");
    line.append(normalize_target(record.target.as_str()).as_str());
    line.append(" (");
    line.append(digits_of(record.thread.as_str()).as_str());
    line.append(") ");
    line.append(record.message.as_str());
    line
}

/// Writes [`terse_text`].
pub fn terse_line(message: &str) -> (r: String)
    ensures
        r@ == terse_text(message@),
{
    let mut line = String::from_str(":: ");
    line.append(message);
    line
}

/// Writes [`above_text`].
pub fn above_line(message: &str) -> (r: String)
    ensures
        r@ == above_text(message@),
{
    let mut line = String::from_str(":: \u{2192} ");
    line.append(message);
    line
}

} // verus!
