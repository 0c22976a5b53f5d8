use vstd::prelude::*;

verus! {

/// A participant's answer to `Prepare`.
#[derive(PartialEq, Eq, Structural, Clone, Copy, Debug)]
pub enum Vote {
    Yes,
    No,
}

/// What travels over the channels: the coordinator sends `Prepare`, `Commit`
/// and `Rollback`; participants answer with a `Vote`.
#[derive(PartialEq, Eq, Structural, Clone, Copy, Debug)]
pub enum Message {
    Prepare,
    Commit,
    Rollback,
    Vote(Vote),
}

/// Why a transaction was rolled back.
#[derive(PartialEq, Eq, Structural, Clone, Copy, Debug)]
pub enum RollbackReason {
    /// At least one participant voted `No`.
    VotedNo,
    /// A participant did not answer in time, or answered with something that
    /// is not a vote.
    NoResponse,
    /// Every vote was `Yes`, but the coordinator was told to abort anyway.
    Forced,
}

/// The outcome of phase two.
#[derive(PartialEq, Eq, Structural, Clone, Copy, Debug)]
pub enum Decision {
    Commit,
    Rollback(RollbackReason),
}

impl Decision {
    pub open spec fn spec_message(self) -> Message {
        match self {
            Decision::Commit => Message::Commit,
            Decision::Rollback(_) => Message::Rollback,
        }
    }

    /// The message that announces this decision to every participant.
    pub fn message(&self) -> (m: Message)
        ensures
            m == self.spec_message(),
    {
        match self {
            Decision::Commit => Message::Commit,
            Decision::Rollback(_) => Message::Rollback,
        }
    }
}

} // verus!
