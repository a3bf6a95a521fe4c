//! The sink: one verbosity, one slot for a progress spinner, and the decision
//! of what each record does to the terminal.

use vstd::prelude::*;
use crate::clock::{timestamp, timestamp_text};
use crate::level::{Level, LevelFilter};
use crate::record::{channel, channel_of, Channel, Record, RecordView};
use crate::render::{above_line, above_text, extended_line, extended_text, terse_line, terse_text};

verus! {

/// What the owner of the terminal is to do for one record.
#[derive(Clone, Debug, PartialEq, Eq)]
pub enum Action {
    /// Nothing: the record was filtered out, or it addressed an empty slot.
    Skip,
    /// Write the line and a line break to standard output.
    Stdout(String),
    /// Write the line and a line break to standard error.
    Stderr(String),
    /// Create the spinner on standard output, showing this message.
    Start(String),
    /// Print the line above the live spinner.
    Above(String),
    /// Stop drawing the spinner, and keep it animated.
    Hide,
    /// Draw the spinner on standard output again.
    Show,
    /// Draw the last frame with this message and dispose of the spinner.
    Finish(String),
}

/// An action by its characters.
pub enum ActionView {
    Skip,
    Stdout(Seq<char>),
    Stderr(Seq<char>),
    Start(Seq<char>),
    Above(Seq<char>),
    Hide,
    Show,
    Finish(Seq<char>),
}

impl View for Action {
    type V = ActionView;

    open spec fn view(&self) -> ActionView {
        match self {
            Action::Skip => ActionView::Skip,
            Action::Stdout(line) => ActionView::Stdout(line@),
            Action::Stderr(line) => ActionView::Stderr(line@),
            Action::Start(message) => ActionView::Start(message@),
            Action::Above(line) => ActionView::Above(line@),
            Action::Hide => ActionView::Hide,
            Action::Show => ActionView::Show,
            Action::Finish(message) => ActionView::Finish(message@),
        }
    }
}

/// The live spinner as the sink knows it.
#[derive(Clone, Debug, PartialEq, Eq)]
pub struct Spinner {
    message: String,
    hidden: bool,
}

/// A spinner by its characters.
pub struct SpinnerView {
    pub message: Seq<char>,
    pub hidden: bool,
}

impl View for Spinner {
    type V = SpinnerView;

    closed spec fn view(&self) -> SpinnerView {
        SpinnerView { message: self.message@, hidden: self.hidden }
    }
}

/// The sink: it takes records one by one and decides what the terminal shows
/// for each.
#[derive(Debug)]
pub struct CliLogger {
    level: LevelFilter,
    progress: Option<Spinner>,
}

/// A sink by its verbosity and what its slot holds.
pub struct SinkView {
    pub level: LevelFilter,
    pub spinner: Option<SpinnerView>,
}

impl View for CliLogger {
    type V = SinkView;

    closed spec fn view(&self) -> SinkView {
        SinkView {
            level: self.level,
            spinner: match self.progress {
                Some(spinner) => Some(spinner@),
                None => None,
            },
        }
    }
}

/// A sink with an empty slot.
pub open spec fn fresh(level: LevelFilter) -> SinkView {
    SinkView { level, spinner: None }
}

/// A record passes a sink of this verbosity: its severity is within the
/// verbosity, and its target is a reserved tag or one of the application.
pub open spec fn admitted(level: LevelFilter, record: RecordView) -> bool {
    level.admits(record.level) && channel_of(record.target) is Some
}

/// Begin, interleave or end. With a spinner in the slot, `stop` takes it out
/// and finishes it, under `message` or, where that is empty, under the message
/// it shows; without `stop` the message goes above it. With the slot empty,
/// `stop` does nothing, and anything else starts a visible spinner.
pub open spec fn progress_step(sink: SinkView, message: Seq<char>, stop: bool) -> (
    SinkView,
    ActionView,
) {
    match sink.spinner {
        Some(spinner) => if stop {
            (
                SinkView { spinner: None, ..sink },
                ActionView::Finish(
                    if message.len() == 0 {
                        spinner.message
                    } else {
                        message
                    },
                ),
            )
        } else {
            (sink, ActionView::Above(above_text(message)))
        },
        None => if stop {
            (sink, ActionView::Skip)
        } else {
            (
                SinkView { spinner: Some(SpinnerView { message, hidden: false }), ..sink },
                ActionView::Start(message),
            )
        },
    }
}

/// Pause or resume: a spinner in the slot changes between drawn and hidden.
pub open spec fn pause_step(sink: SinkView) -> (SinkView, ActionView) {
    match sink.spinner {
        Some(spinner) => (
            SinkView { spinner: Some(SpinnerView { hidden: !spinner.hidden, ..spinner }), ..sink },
            if spinner.hidden {
                ActionView::Show
            } else {
                ActionView::Hide
            },
        ),
        None => (sink, ActionView::Skip),
    }
}

/// A record of the application that finds the slot empty: anything less severe
/// than a warning goes to standard output, the rest to standard error.
pub open spec fn plain_step(record: RecordView) -> ActionView {
    if record.level.spec_rank() > Level::Warn.spec_rank() {
        ActionView::Stdout(terse_text(record.message))
    } else {
        ActionView::Stderr(terse_text(record.message))
    }
}

/// What a terse sink does with an admitted record on `channel`.
pub open spec fn terse_step(sink: SinkView, record: RecordView, channel: Channel) -> (
    SinkView,
    ActionView,
) {
    match channel {
        Channel::Begin => progress_step(sink, record.message, false),
        Channel::Pause => pause_step(sink),
        Channel::End => progress_step(sink, record.message, true),
        Channel::Plain => if sink.spinner is Some {
            progress_step(sink, record.message, false)
        } else {
            (sink, plain_step(record))
        },
    }
}

/// What a sink does with a record, and the sink afterwards. `timestamp` is the
/// time to show, which only a verbose sink looks at.
pub open spec fn step(sink: SinkView, record: RecordView, timestamp: Seq<char>) -> (
    SinkView,
    ActionView,
) {
    if !admitted(sink.level, record) {
        (sink, ActionView::Skip)
    } else if sink.level.is_verbose() {
        (sink, ActionView::Stdout(extended_text(timestamp, record)))
    } else {
        terse_step(sink, record, channel_of(record.target)->0)
    }
}

/// A verbose sink needs the time to take an admitted record, and no sink needs
/// it for anything else.
pub open spec fn needs_time(sink: SinkView, record: RecordView) -> bool {
    admitted(sink.level, record) && sink.level.is_verbose()
}

/// The timestamp of an instant, or no text where it has none.
pub open spec fn time_shown(now: i64) -> Seq<char> {
    match timestamp_text(now) {
        Some(text) => text,
        None => Seq::empty(),
    }
}

/// Why a sink could not be installed.
#[derive(Clone, Copy, Debug, PartialEq, Eq, Structural)]
pub enum InitError {
    /// A sink is installed already.
    AlreadyInstalled,
}

impl Spinner {
    /// The message the spinner shows.
    pub fn message(&self) -> (r: &str)
        ensures
            r@ == self@.message,
    {
        self.message.as_str()
    }

    /// Whether drawing is suppressed.
    pub fn is_hidden(&self) -> (r: bool)
        ensures
            r == self@.hidden,
    {
        self.hidden
    }
}

impl CliLogger {
    /// A sink of the given verbosity with an empty slot.
    pub fn new(level: LevelFilter) -> (r: Self)
        ensures
            r@ == fresh(level),
    {
        Self { level, progress: None }
    }

    /// Installs a sink of the given verbosity in `installed`, the one place a
    /// process keeps its sink in. A place that holds a sink keeps it, and the
    /// call fails.
    pub fn init(installed: &mut Option<CliLogger>, level: LevelFilter) -> (r: Result<
        (),
        InitError,
    >)
        ensures
            match *old(installed) {
                Some(_) => r == Err::<(), InitError>(InitError::AlreadyInstalled)
                    && *final(installed) == *old(installed),
                None => r is Ok && (*final(installed) matches Some(sink) && sink@ == fresh(level)),
            },
    {
        if installed.is_some() {
            Err(InitError::AlreadyInstalled)
        } else {
            *installed = Some(CliLogger::new(level));
            Ok(())
        }
    }

    /// The verbosity the sink was made with.
    pub fn level(&self) -> (r: LevelFilter)
        ensures
            r == self@.level,
    {
        self.level
    }

    /// The spinner in the slot.
    pub fn spinner(&self) -> (r: Option<&Spinner>)
        ensures
            match r {
                Some(spinner) => self@.spinner == Some(spinner@),
                None => self@.spinner is None,
            },
    {
        self.progress.as_ref()
    }

    /// Whether a record of this severity is within the sink's verbosity.
    pub fn enabled(&self, level: Level) -> (r: bool)
        ensures
            r == self@.level.admits(level),
    {
        self.level.admits(level)
    }

    /// The verbose rendering of a record.
    pub fn extended(&self, record: &Record, timestamp: &str) -> (r: Action)
        ensures
            r@ == ActionView::Stdout(extended_text(timestamp@, record@)),
    {
        Action::Stdout(extended_line(timestamp, record))
    }

    /// The terse rendering of a record for standard output.
    pub fn normal(&self, record: &Record) -> (r: Action)
        ensures
            r@ == ActionView::Stdout(terse_text(record@.message)),
    {
        Action::Stdout(terse_line(record.message.as_str()))
    }

    /// The terse rendering of a record for standard error.
    pub fn error(&self, record: &Record) -> (r: Action)
        ensures
            r@ == ActionView::Stderr(terse_text(record@.message)),
    {
        Action::Stderr(terse_line(record.message.as_str()))
    }

    /// Begins, interleaves or ends progress: [`progress_step`].
    pub fn progress(&mut self, record: &Record, stop: bool) -> (r: Action)
        ensures
            (final(self)@, r@) == progress_step(old(self)@, record@.message, stop),
    {
        match self.progress.take() {
            Some(spinner) => {
                if stop {
                    if record.message.as_str().is_empty() {
                        Action::Finish(spinner.message)
                    } else {
                        Action::Finish(record.message.clone())
                    }
                } else {
                    self.progress = Some(spinner);
                    Action::Above(above_line(record.message.as_str()))
                }
            },
            None => {
                if stop {
                    Action::Skip
                } else {
                    self.progress = Some(Spinner { message: record.message.clone(), hidden: false });
                    Action::Start(record.message.clone())
                }
            },
        }
    }

    /// Pauses or resumes progress: [`pause_step`].
    pub fn pause(&mut self) -> (r: Action)
        ensures
            (final(self)@, r@) == pause_step(old(self)@),
    {
        match self.progress.take() {
            Some(spinner) => {
                let was_hidden = spinner.hidden;
                self.progress = Some(Spinner { message: spinner.message, hidden: !was_hidden });
                if was_hidden {
                    Action::Show
                } else {
                    Action::Hide
                }
            },
            None => Action::Skip,
        }
    }

    /// Takes a record that arrives `now` seconds after the Unix epoch. A
    /// verbose sink that is to show a time which has no timestamp does
    /// nothing and says so with `None`; everything else is [`step`].
    pub fn log(&mut self, record: &Record, now: i64) -> (r: Option<Action>)
        ensures
            r is None <==> needs_time(old(self)@, record@) && timestamp_text(now) is None,
            match r {
                Some(action) => (final(self)@, action@) == step(
                    old(self)@,
                    record@,
                    time_shown(now),
                ),
                None => final(self)@ == old(self)@,
            },
    {
        if self.level.is_verbose() && self.enabled(record.level) && channel(
            record.target.as_str(),
        ).is_some() {
            match timestamp(now) {
                Some(text) => Some(self.log_with(record, text.as_str())),
                None => None,
            }
        } else {
            Some(self.log_with(record, ""))
        }
    }

    /// Takes a record whose time is already text: [`step`].
    pub fn log_with(&mut self, record: &Record, timestamp: &str) -> (r: Action)
        ensures
            (final(self)@, r@) == step(old(self)@, record@, timestamp@),
    {
        if !self.enabled(record.level) {
            return Action::Skip;
        }
        match channel(record.target.as_str()) {
            None => Action::Skip,
            Some(channel) => {
                if self.level.is_verbose() {
                    self.extended(record, timestamp)
                } else {
                    match channel {
                        Channel::Begin => self.progress(record, false),
                        Channel::Pause => self.pause(),
                        Channel::End => self.progress(record, true),
                        Channel::Plain => {
                            if self.progress.is_some() {
                                self.progress(record, false)
                            } else if record.level.rank() > Level::Warn.rank() {
                                self.normal(record)
                            } else {
                                self.error(record)
                            }
                        },
                    }
                }
            },
        }
    }
}

} // verus!
