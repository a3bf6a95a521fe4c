//! Severities of records and the verbosity a sink is configured with.

use vstd::prelude::*;

verus! {

/// Severity of a record. `Error` is the most severe and ranks lowest.
#[derive(Clone, Copy, Debug, PartialEq, Eq, Structural)]
pub enum Level {
    Error,
    Warn,
    Info,
    Debug,
    Trace,
}

/// Verbosity of a sink: the least severe level it still lets through.
#[derive(Clone, Copy, Debug, PartialEq, Eq, Structural)]
pub enum LevelFilter {
    /// Lets nothing through.
    Off,
    Error,
    Warn,
    Info,
    Debug,
    Trace,
}

impl Level {
    /// Position in the order of severities, from 1 for `Error` to 5 for `Trace`.
    pub open spec fn spec_rank(self) -> nat {
        match self {
            Level::Error => 1,
            Level::Warn => 2,
            Level::Info => 3,
            Level::Debug => 4,
            Level::Trace => 5,
        }
    }

    /// Computes [`Level::spec_rank`].
    pub fn rank(self) -> (r: u8)
        ensures
            r == self.spec_rank(),
    {
        match self {
            Level::Error => 1,
            Level::Warn => 2,
            Level::Info => 3,
            Level::Debug => 4,
            Level::Trace => 5,
        }
    }

    /// The upper-case name a rendered line shows for the level.
    pub open spec fn label(self) -> Seq<char> {
        match self {
            Level::Error => "ERROR"@,
            Level::Warn => "WARN"@,
            Level::Info => "INFO"@,
            Level::Debug => "DEBUG"@,
            Level::Trace => "TRACE"@,
        }
    }

    /// Gives [`Level::label`].
    pub fn as_str(self) -> (r: &'static str)
        ensures
            r@ == self.label(),
    {
        match self {
            Level::Error => "ERROR",
            Level::Warn => "WARN",
            Level::Info => "INFO",
            Level::Debug => "DEBUG",
            Level::Trace => "TRACE",
        }
    }
}

impl LevelFilter {
    /// Position in the order of verbosities: 0 for `Off`, then the rank of the
    /// level of the same name.
    pub open spec fn spec_rank(self) -> nat {
        match self {
            LevelFilter::Off => 0,
            LevelFilter::Error => 1,
            LevelFilter::Warn => 2,
            LevelFilter::Info => 3,
            LevelFilter::Debug => 4,
            LevelFilter::Trace => 5,
        }
    }

    /// Computes [`LevelFilter::spec_rank`].
    pub fn rank(self) -> (r: u8)
        ensures
            r == self.spec_rank(),
    {
        match self {
            LevelFilter::Off => 0,
            LevelFilter::Error => 1,
            LevelFilter::Warn => 2,
            LevelFilter::Info => 3,
            LevelFilter::Debug => 4,
            LevelFilter::Trace => 5,
        }
    }

    /// A record of this severity is at or below the verbosity.
    pub open spec fn spec_admits(self, level: Level) -> bool {
        level.spec_rank() <= self.spec_rank()
    }

    /// Computes [`LevelFilter::spec_admits`].
    #[verifier::when_used_as_spec(spec_admits)]
    pub fn admits(self, level: Level) -> (r: bool)
        ensures
            r == self.spec_admits(level),
    {
        level.rank() <= self.rank()
    }

    /// Verbose mode: the verbosity is `Debug` or finer. Every other verbosity is
    /// terse.
    pub open spec fn spec_is_verbose(self) -> bool {
        self.spec_rank() >= 4
    }

    /// Computes [`LevelFilter::spec_is_verbose`].
    #[verifier::when_used_as_spec(spec_is_verbose)]
    pub fn is_verbose(self) -> (r: bool)
        ensures
            r == self.spec_is_verbose(),
    {
        self.rank() >= 4
    }
}

} // verus!
