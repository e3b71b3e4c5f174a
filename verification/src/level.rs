//! Severity levels for events and records.

use vstd::prelude::*;

verus! {

/// The five severity levels, ordered from most to least severe.
///
/// `Error` is the most severe, `Trace` the least.  A level is used both as
/// the severity of an event and as a filter threshold: an event passes a
/// threshold when its level is at least as severe as the threshold.
#[derive(Clone, Copy, Debug, PartialEq, Eq, Structural, Hash)]
pub enum Level {
    Error,
    Warn,
    Info,
    Debug,
    Trace,
}

impl Level {
    /// Position of the level in the severity order; lower means more severe.
    pub open spec fn ordinal(self) -> int {
        match self {
            Level::Error => 0,
            Level::Warn => 1,
            Level::Info => 2,
            Level::Debug => 3,
            Level::Trace => 4,
        }
    }

    /// Whether an event at level `self` passes the filter `threshold`:
    /// true exactly when `self` is at least as severe as `threshold`.
    pub open spec fn spec_passes(self, threshold: Level) -> bool {
        self.ordinal() <= threshold.ordinal()
    }

    /// The ordinal of the level as a machine integer.
    pub fn severity_index(self) -> (r: u8)
        ensures
            r as int == self.ordinal(),
    {
        match self {
            Level::Error => 0,
            Level::Warn => 1,
            Level::Info => 2,
            Level::Debug => 3,
            Level::Trace => 4,
        }
    }

    /// Decides whether an event at level `self` passes the filter
    /// `threshold`.
    pub fn passes(self, threshold: Level) -> (r: bool)
        ensures
            r == self.spec_passes(threshold),
    {
        self.severity_index() <= threshold.severity_index()
    }
}

} // verus!
