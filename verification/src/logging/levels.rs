//! How much is logged.

use vstd::prelude::*;

verus! {

/// How much is logged, from the least to the most.
#[derive(Debug, Clone, Copy, PartialEq, Eq, PartialOrd, Ord, Structural)]
pub enum VerbosityLevel {
    /// Evictions only.
    Quiet,
    /// Also critical changes.
    Normal,
    /// Also every change.
    Verbose,
    /// Also every interaction.
    Debug,
}

impl VerbosityLevel {
    /// The place of the level in the order: 0 for the least.
    pub open spec fn spec_rank(self) -> int {
        match self {
            VerbosityLevel::Quiet => 0,
            VerbosityLevel::Normal => 1,
            VerbosityLevel::Verbose => 2,
            VerbosityLevel::Debug => 3,
        }
    }

    /// What the level logs, in a few words.
    pub open spec fn spec_description(self) -> Seq<char> {
        match self {
            VerbosityLevel::Quiet => "Kicks uniquement"@,
            VerbosityLevel::Normal => "Changements critiques"@,
            VerbosityLevel::Verbose => "Tous les changements"@,
            VerbosityLevel::Debug => "Toutes les interactions"@,
        }
    }

    /// The level for a verbosity flag given `count` times: one step up for
    /// each time, up to the highest.
    pub fn from_count(count: u8) -> (level: VerbosityLevel)
        ensures
            level.spec_rank() == if count < 3 {
                count as int
            } else {
                3
            },
    {
        match count {
            0 => VerbosityLevel::Quiet,
            1 => VerbosityLevel::Normal,
            2 => VerbosityLevel::Verbose,
            _ => VerbosityLevel::Debug,
        }
    }

    /// The place of the level in the order: 0 for the least.
    pub fn rank(&self) -> (rank: u8)
        ensures
            rank == self.spec_rank(),
    {
        match self {
            VerbosityLevel::Quiet => 0,
            VerbosityLevel::Normal => 1,
            VerbosityLevel::Verbose => 2,
            VerbosityLevel::Debug => 3,
        }
    }

    /// What the level logs, in a few words.
    pub fn description(&self) -> (text: &'static str)
        ensures
            text@ == self.spec_description(),
    {
        match self {
            VerbosityLevel::Quiet => "Kicks uniquement",
            VerbosityLevel::Normal => "Changements critiques",
            VerbosityLevel::Verbose => "Tous les changements",
            VerbosityLevel::Debug => "Toutes les interactions",
        }
    }
}

} // verus!
