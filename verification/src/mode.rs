//! The ways in which the tool runs, and what each of them needs.

use vstd::prelude::*;

verus! {

/// How the tool was asked to run.
#[derive(Debug, Clone, Copy, PartialEq, Eq, Structural)]
pub struct Args {
    /// Let the user choose among several messages.
    pub interactive: bool,
    /// Replace the message of the last commit.
    pub amend: bool,
}

/// The four ways in which the tool runs.
#[derive(Debug, Clone, Copy, PartialEq, Eq, Structural)]
pub enum AiCommitMode {
    /// Commit with the one message that is generated.
    Auto,
    /// Commit with the message that the user chooses.
    Interactive,
    /// Amend with the one message that is generated.
    AmendAuto,
    /// Amend with the message that the user chooses.
    AmendInteractive,
}

impl AiCommitMode {
    /// Whether the mode amends the last commit.
    pub open spec fn amends(self) -> bool {
        self == AiCommitMode::AmendAuto || self == AiCommitMode::AmendInteractive
    }

    /// Whether the mode lets the user choose.
    pub open spec fn asks(self) -> bool {
        self == AiCommitMode::Interactive || self == AiCommitMode::AmendInteractive
    }

    /// Whether the mode has nothing to do unless changes are staged. To
    /// amend needs none: the message alone may change.
    pub fn needs_staged_files(&self) -> (b: bool)
        ensures
            b == !self.amends(),
    {
        match self {
            AiCommitMode::Auto => true,
            AiCommitMode::Interactive => true,
            AiCommitMode::AmendAuto => false,
            AiCommitMode::AmendInteractive => false,
        }
    }

    /// How many messages the mode asks the generator for: one, or five to
    /// choose from.
    pub fn variations(&self) -> (n: u32)
        ensures
            n == if self.asks() {
                5u32
            } else {
                1u32
            },
    {
        match self {
            AiCommitMode::Auto => 1,
            AiCommitMode::Interactive => 5,
            AiCommitMode::AmendAuto => 1,
            AiCommitMode::AmendInteractive => 5,
        }
    }
}

impl Args {
    /// The mode that the two switches ask for.
    pub fn determine_mode(&self) -> (mode: AiCommitMode)
        ensures
            mode.asks() == self.interactive,
            mode.amends() == self.amend,
    {
        match (self.interactive, self.amend) {
            (false, false) => AiCommitMode::Auto,
            (true, false) => AiCommitMode::Interactive,
            (false, true) => AiCommitMode::AmendAuto,
            (true, true) => AiCommitMode::AmendInteractive,
        }
    }
}

} // verus!
