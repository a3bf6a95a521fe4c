//! What the code that reports progress hands to the logging framework, and the
//! guard that ends a progress it began.

use vstd::prelude::*;
use vstd::string::*;
use crate::level::{Level, LevelFilter};
use crate::record::{end_tag, pause_tag, progress_tag, Record, RecordView};

verus! {

/// A record on its way to the framework: it has no thread yet.
#[derive(Clone, Debug, PartialEq, Eq)]
pub struct Emission {
    pub level: Level,
    pub target: String,
    pub message: String,
}

/// An emission by its characters.
pub struct EmissionView {
    pub level: Level,
    pub target: Seq<char>,
    pub message: Seq<char>,
}

impl View for Emission {
    type V = EmissionView;

    open spec fn view(&self) -> EmissionView {
        EmissionView { level: self.level, target: self.target@, message: self.message@ }
    }
}

/// An emission of severity `Info`.
pub open spec fn info(target: Seq<char>, message: Seq<char>) -> EmissionView {
    EmissionView { level: Level::Info, target, message }
}

/// The emission that begins progress under `message`.
pub open spec fn begin_emission(message: Seq<char>) -> EmissionView {
    info(progress_tag(), message)
}

/// The emission that pauses or resumes progress. Its message is empty.
pub open spec fn pause_emission() -> EmissionView {
    info(pause_tag(), Seq::empty())
}

/// The emission that ends progress under `message`.
pub open spec fn end_emission(message: Seq<char>) -> EmissionView {
    info(end_tag(), message)
}

/// The emission of an indented line: under a verbose maximum the message as it
/// is, under a terse one the message behind one tab.
pub open spec fn tab_emission(max_level: LevelFilter, target: Seq<char>, message: Seq<char>)
    -> EmissionView {
    info(
        target,
        if max_level.is_verbose() {
            message
        } else {
            "\t"@ + message
        },
    )
}

/// What a guard emits when it is let go of: the end of progress with an empty
/// message, unless it was stopped before.
pub open spec fn released(stopped: bool) -> Option<EmissionView> {
    if stopped {
        None
    } else {
        Some(end_emission(Seq::empty()))
    }
}

/// Everything a guard's owner emits from beginning a progress under `begin`
/// until the guard is gone: `Some` final message where the owner stops it,
/// `None` where the owner only lets go of it.
pub open spec fn guard_life(begin: Seq<char>, stop: Option<Seq<char>>) -> Seq<EmissionView> {
    let by_owner = match stop {
        Some(message) => seq![end_emission(message)],
        None => Seq::empty(),
    };
    let by_guard = match released(stop is Some) {
        Some(emission) => seq![emission],
        None => Seq::empty(),
    };
    seq![begin_emission(begin)] + by_owner + by_guard
}

impl Emission {
    /// An emission of severity `Info`.
    fn new_info(target: &str, message: &str) -> (r: Emission)
        ensures
            r@ == info(target@, message@),
    {
        Emission {
            level: Level::Info,
            target: String::from_str(target),
            message: String::from_str(message),
        }
    }

    /// The record that the framework makes of the emission on a thread.
    pub fn on_thread(self, thread: &str) -> (r: Record)
        ensures
            r@ == (RecordView {
                level: self@.level,
                target: self@.target,
                message: self@.message,
                thread: thread@,
            }),
    {
        Record {
            level: self.level,
            target: self.target,
            message: self.message,
            thread: String::from_str(thread),
        }
    }
}

/// Guard of a progress that has begun. Its owner ends the progress once: by
/// [`ProgressHandler::stop`], or by [`ProgressHandler::release`] when the guard
/// goes out of scope.
#[derive(Debug)]
pub struct ProgressHandler {
    stopped: bool,
}

impl ProgressHandler {
    /// The guard's mark: set by a stop, and by nothing else.
    pub closed spec fn spec_is_stopped(&self) -> bool {
        self.stopped
    }

    /// Whether the progress was stopped through this guard.
    #[verifier::when_used_as_spec(spec_is_stopped)]
    pub fn is_stopped(&self) -> (r: bool)
        ensures
            r == self.spec_is_stopped(),
    {
        self.stopped
    }

    /// Lets go of the guard: [`released`].
    pub fn release(self) -> (r: Option<Emission>)
        ensures
            match r {
                Some(emission) => released(self.is_stopped()) == Some(emission@),
                None => released(self.is_stopped()) is None,
            },
    {
        if self.stopped {
            None
        } else {
            proof {
                reveal_strlit("");
                assert(""@ =~= Seq::<char>::empty());
            }
            Some(Emission::new_info("progress_end", ""))
        }
    }

    /// Stops the progress under a final message. The guard is marked and let
    /// go of here, which adds nothing to the emission returned.
    pub fn stop(self, msg: &str) -> (r: Emission)
        ensures
            r@ == end_emission(msg@),
    {
        let mut guard = self;
        guard.stopped = true;
        let end = Emission::new_info("progress_end", msg);
        let silence = guard.release();
        assert(silence is None);
        end
    }
}

/// Begins a progress under `msg`: the emission, and the guard that ends it.
pub fn progress(msg: &str) -> (r: (Emission, ProgressHandler))
    ensures
        r.0@ == begin_emission(msg@),
        !r.1.is_stopped(),
{
    (Emission::new_info("progress", msg), ProgressHandler { stopped: false })
}

/// Pauses a progress, or resumes a paused one.
pub fn progress_pause() -> (r: Emission)
    ensures
        r@ == pause_emission(),
{
    proof {
        reveal_strlit("");
        assert(""@ =~= Seq::<char>::empty());
    }
    Emission::new_info("progress_pause", "")
}

/// An informational line that a terse terminal shows indented: [`tab_emission`].
/// `max_level` is the verbosity the framework lets through.
pub fn tab_info(max_level: LevelFilter, target: &str, msg: &str) -> (r: Emission)
    ensures
        r@ == tab_emission(max_level, target@, msg@),
{
    if max_level.is_verbose() {
        Emission::new_info(target, msg)
    } else {
        let mut message = String::from_str("\t");
        message.append(msg);
        Emission { level: Level::Info, target: String::from_str(target), message }
    }
}

/// A progress that has begun is ended exactly once, whether its guard is
/// stopped or only let go of: the owner emits the beginning, then one end and
/// nothing else. The end carries the final message of a stop, and an empty
/// message otherwise.
pub proof fn lemma_guard_ends_once(begin: Seq<char>, stop: Option<Seq<char>>)
    ensures
        guard_life(begin, stop) == seq![
            begin_emission(begin),
            end_emission(
                match stop {
                    Some(message) => message,
                    None => Seq::empty(),
                },
            ),
        ],
        guard_life(begin, stop).filter(|e: EmissionView| e.target == end_tag()).len() == 1,
{
    reveal_strlit("progress");
    reveal_strlit("progress_end");
    let life = guard_life(begin, stop);
    assert(life =~= seq![begin_emission(begin), life[1]]);
    assert(life.drop_last() =~= seq![begin_emission(begin)]);
    assert(life.drop_last().drop_last() =~= Seq::<EmissionView>::empty());
    assert(progress_tag().len() != end_tag().len());
    reveal_with_fuel(Seq::filter, 3);
}

} // verus!
