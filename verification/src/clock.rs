//! The time of a verbose line, as text.

use vstd::prelude::*;

verus! {

/// What chrono writes for the instant `secs` seconds after the Unix epoch, in
/// UTC, under the strftime pattern `pattern`. It is `None` where chrono has no
/// date for `secs` or rejects the pattern.
pub uninterp spec fn utc_text(secs: i64, pattern: Seq<char>) -> Option<Seq<char>>;

/// The pattern of a timestamp: year, month, day, hour, minute and second, with
/// no fraction of a second and no zone.
pub open spec fn timestamp_pattern() -> Seq<char> {
    "%Y-%m-%d %H:%M:%S"@
}

/// The timestamp of the instant `secs` seconds after the Unix epoch.
pub open spec fn timestamp_text(secs: i64) -> Option<Seq<char>> {
    utc_text(secs, timestamp_pattern())
}

/// Calls `chrono::DateTime::from_timestamp` with no nanoseconds, then
/// `DateTime::format` with `pattern`, and collects what
/// `DelayedFormat::write_to` writes. The contract gives that text the name
/// [`utc_text`] and claims nothing else of it. `None` stands for either
/// refusal by chrono: of the seconds or of the pattern.
#[verifier::external_body]
fn render_utc(secs: i64, pattern: &str) -> (r: Option<String>)
    ensures
        match r {
            Some(text) => utc_text(secs, pattern@) == Some(text@),
            None => utc_text(secs, pattern@) is None,
        },
{
    let instant = chrono::DateTime::from_timestamp(secs, 0)?;
    let mut text = String::new();
    match instant.format(pattern).write_to(&mut text) {
        Ok(()) => Some(text),
        Err(_) => None,
    }
}

/// Renders the instant `secs` seconds after the Unix epoch as a timestamp.
pub fn timestamp(secs: i64) -> (r: Option<String>)
    ensures
        match r {
            Some(text) => timestamp_text(secs) == Some(text@),
            None => timestamp_text(secs) is None,
        },
{
    render_utc(secs, "%Y-%m-%d %H:%M:%S")
}

} // verus!
