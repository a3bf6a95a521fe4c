//! Records as a sink receives them, and the reading of their target tags.

use vstd::prelude::*;
use vstd::string::*;
use crate::level::Level;
use crate::text::{has_prefix, same_text};

verus! {

/// Tag of a record that begins a progress spinner.
pub open spec fn progress_tag() -> Seq<char> {
    "progress"@
}

/// Tag of a record that pauses or resumes the spinner.
pub open spec fn pause_tag() -> Seq<char> {
    "progress_pause"@
}

/// Tag of a record that ends the spinner.
pub open spec fn end_tag() -> Seq<char> {
    "progress_end"@
}

/// Prefix of the targets that belong to the application.
pub open spec fn app_prefix() -> Seq<char> {
    "crunchy_cli"@
}

/// The application's prefix as its library crate spells it.
pub open spec fn core_prefix() -> Seq<char> {
    "crunchy_cli_core"@
}

/// What an admitted target addresses.
#[derive(Clone, Copy, Debug, PartialEq, Eq, Structural)]
pub enum Channel {
    /// The tag `progress`.
    Begin,
    /// The tag `progress_pause`.
    Pause,
    /// The tag `progress_end`.
    End,
    /// Any other target that begins with the application's prefix.
    Plain,
}

/// The channel of a target: one of the three reserved tags, or a target of the
/// application. A target that is neither has none.
pub open spec fn channel_of(target: Seq<char>) -> Option<Channel> {
    if target == progress_tag() {
        Some(Channel::Begin)
    } else if target == pause_tag() {
        Some(Channel::Pause)
    } else if target == end_tag() {
        Some(Channel::End)
    } else if app_prefix().is_prefix_of(target) {
        Some(Channel::Plain)
    } else {
        None
    }
}

/// The target as a verbose line shows it: a reserved tag becomes the
/// application's prefix, and a leading `crunchy_cli_core` loses its `_core`.
pub open spec fn shown_target(target: Seq<char>) -> Seq<char> {
    if target == progress_tag() || target == pause_tag() || target == end_tag() {
        app_prefix()
    } else if core_prefix().is_prefix_of(target) {
        app_prefix() + target.skip(core_prefix().len() as int)
    } else {
        target
    }
}

/// Computes [`channel_of`].
pub fn channel(target: &str) -> (r: Option<Channel>)
    ensures
        r == channel_of(target@),
{
    if same_text(target, "progress") {
        Some(Channel::Begin)
    } else if same_text(target, "progress_pause") {
        Some(Channel::Pause)
    } else if same_text(target, "progress_end") {
        Some(Channel::End)
    } else if has_prefix(target, "crunchy_cli") {
        Some(Channel::Plain)
    } else {
        None
    }
}

/// Computes [`shown_target`].
pub fn normalize_target(target: &str) -> (r: String)
    ensures
        r@ == shown_target(target@),
{
    if same_text(target, "progress") || same_text(target, "progress_pause") || same_text(
        target,
        "progress_end",
    ) {
        String::from_str("crunchy_cli")
    } else if has_prefix(target, "crunchy_cli_core") {
        let skip = "crunchy_cli_core".unicode_len();
        let mut out = String::from_str("crunchy_cli");
        out.append(target.substring_char(skip, target.unicode_len()));
        out
    } else {
        String::from_str(target)
    }
}

/// A log record: severity, target tag, formatted message, and the text that
/// identifies the thread it comes from.
#[derive(Clone, Debug, PartialEq, Eq)]
pub struct Record {
    pub level: Level,
    pub target: String,
    pub message: String,
    pub thread: String,
}

/// A record by its characters.
pub struct RecordView {
    pub level: Level,
    pub target: Seq<char>,
    pub message: Seq<char>,
    pub thread: Seq<char>,
}

impl View for Record {
    type V = RecordView;

    open spec fn view(&self) -> RecordView {
        RecordView {
            level: self.level,
            target: self.target@,
            message: self.message@,
            thread: self.thread@,
        }
    }
}

impl Record {
    /// A record of the given parts.
    pub fn new(level: Level, target: &str, message: &str, thread: &str) -> (r: Record)
        ensures
            r@ == (RecordView { level, target: target@, message: message@, thread: thread@ }),
    {
        Record {
            level,
            target: String::from_str(target),
            message: String::from_str(message),
            thread: String::from_str(thread),
        }
    }
}

} // verus!
