//! Severity thresholds that a filter directive can carry.

use vstd::prelude::*;

verus! {

/// The threshold of a directive: `Off` silences a scope, the others let
/// records through up to that severity.
#[derive(Clone, Copy, Debug, PartialEq, Eq, Structural)]
pub enum Level {
    Off,
    Info,
    Debug,
    Trace,
}

impl Level {
    /// The word that stands for this level in a directive.
    pub open spec fn word(self) -> Seq<char> {
        match self {
            Level::Off => "off"@,
            Level::Info => "info"@,
            Level::Debug => "debug"@,
            Level::Trace => "trace"@,
        }
    }

    /// How much a level lets through: a higher rank admits everything that a
    /// lower one admits.
    pub open spec fn rank(self) -> nat {
        match self {
            Level::Off => 0,
            Level::Info => 1,
            Level::Debug => 2,
            Level::Trace => 3,
        }
    }

    /// The word that stands for this level in a directive.
    pub fn name(&self) -> (word: &'static str)
        ensures
            word@ == self.word(),
    {
        match self {
            Level::Off => "off",
            Level::Info => "info",
            Level::Debug => "debug",
            Level::Trace => "trace",
        }
    }

    /// Whether this level lets through at least what `other` lets through.
    pub fn admits(&self, other: Level) -> (yes: bool)
        ensures
            yes == (self.rank() >= other.rank()),
    {
        match (self, other) {
            (Level::Trace, _) => true,
            (Level::Debug, Level::Trace) => false,
            (Level::Debug, _) => true,
            (Level::Info, Level::Info) => true,
            (Level::Info, Level::Off) => true,
            (Level::Info, _) => false,
            (Level::Off, Level::Off) => true,
            (Level::Off, _) => false,
        }
    }
}

} // verus!
