use vstd::prelude::*;

use core::cmp::Ordering;

verus! {

/// Verbosity levels, from the least to the most verbose.
#[derive(Clone, Copy, Debug, PartialEq, Eq, Structural)]
pub enum LogLevel {
    Error,
    Warning,
    Info,
    Debug,
}

/// The configured verbosity of the process.
pub const LOG_LEVEL: LogLevel = LogLevel::Debug;

impl LogLevel {
    /// Numeric rank of a level; a higher rank is more verbose.
    pub open spec fn spec_rank(&self) -> int {
        match self {
            LogLevel::Error => 1,
            LogLevel::Warning => 2,
            LogLevel::Info => 3,
            LogLevel::Debug => 4,
        }
    }

    fn rank(&self) -> (r: u8)
        ensures
            r == self.spec_rank(),
    {
        match self {
            LogLevel::Error => 1,
            LogLevel::Warning => 2,
            LogLevel::Info => 3,
            LogLevel::Debug => 4,
        }
    }

    /// Run `f` only when this level is within the configured verbosity.
    pub fn log<F: FnOnce()>(&self, f: F)
        requires
            f.requires(()),
    {
        if self.rank() <= LOG_LEVEL.rank() {
            f();
        }
    }
}

impl PartialOrd for LogLevel {
    /// Levels are ordered by rank.
    fn partial_cmp(&self, other: &LogLevel) -> (r: Option<Ordering>) {
        let a = self.rank();
        let b = other.rank();
        if a < b {
            Some(Ordering::Less)
        } else if a == b {
            Some(Ordering::Equal)
        } else {
            Some(Ordering::Greater)
        }
    }
}

impl vstd::std_specs::cmp::PartialOrdSpecImpl for LogLevel {
    open spec fn obeys_partial_cmp_spec() -> bool {
        true
    }

    open spec fn partial_cmp_spec(&self, other: &LogLevel) -> Option<Ordering> {
        if self.spec_rank() < other.spec_rank() {
            Some(Ordering::Less)
        } else if self.spec_rank() == other.spec_rank() {
            Some(Ordering::Equal)
        } else {
            Some(Ordering::Greater)
        }
    }
}

} // verus!
