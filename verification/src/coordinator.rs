use vstd::prelude::*;

use crate::protocol::{Decision, Message, RollbackReason, Vote};

verus! {

/// How long the coordinator waits for each vote, in milliseconds.
pub const VOTE_TIMEOUT_MS: u64 = 5000;

/// What the coordinator learns while it waits for a vote.
#[derive(PartialEq, Eq, Structural, Clone, Copy, Debug)]
pub enum CoordinatorEvent {
    /// A message arrived from some participant.
    Received(Message),
    /// No message arrived within the timeout, or every participant hung up.
    TimedOut,
}

/// What the coordinator has to do next.
#[derive(PartialEq, Eq, Structural, Clone, Copy, Debug)]
pub enum CoordinatorAction {
    /// Wait (with the timeout) for the next vote.
    AwaitVote,
    /// Send the decision's message to every participant; the transaction is over.
    Decide(Decision),
}

/// `true` when every vote in `votes` is `Yes` (also when there are none).
pub open spec fn all_yes(votes: Seq<Vote>) -> bool {
    forall|i: int| 0 <= i < votes.len() ==> votes[i] == Vote::Yes
}

/// Phase two: commit only on unanimous `Yes`, unless a rollback is forced.
pub open spec fn decision_for(votes: Seq<Vote>, force_rollback: bool) -> Decision {
    if !all_yes(votes) {
        Decision::Rollback(RollbackReason::VotedNo)
    } else if force_rollback {
        Decision::Rollback(RollbackReason::Forced)
    } else {
        Decision::Commit
    }
}

/// The coordinator as a mathematical value.
pub struct CoordinatorState {
    /// How many votes the coordinator waits for.
    pub participants: nat,
    /// Abort even on unanimous `Yes`.
    pub force_rollback: bool,
    /// The votes received so far, in arrival order.
    pub votes: Seq<Vote>,
    /// A wait ended without a vote.
    pub aborted: bool,
}

impl CoordinatorState {
    /// The state right after `Prepare` went out to every participant.
    pub open spec fn fresh(participants: nat, force_rollback: bool) -> CoordinatorState {
        CoordinatorState { participants, force_rollback, votes: Seq::empty(), aborted: false }
    }

    pub open spec fn action(self) -> CoordinatorAction {
        if self.aborted {
            CoordinatorAction::Decide(Decision::Rollback(RollbackReason::NoResponse))
        } else if self.votes.len() < self.participants {
            CoordinatorAction::AwaitVote
        } else {
            CoordinatorAction::Decide(decision_for(self.votes, self.force_rollback))
        }
    }

    /// The state after `event` arrived while the coordinator was waiting.
    pub open spec fn apply(self, event: CoordinatorEvent) -> CoordinatorState {
        match event {
            CoordinatorEvent::Received(Message::Vote(v)) => CoordinatorState {
                votes: self.votes.push(v),
                ..self
            },
            _ => CoordinatorState { aborted: true, ..self },
        }
    }

    /// The state after the coordinator has been handed `events` one by one,
    /// for as long as it was waiting; events after its decision are not read.
    pub open spec fn replay(self, events: Seq<CoordinatorEvent>) -> CoordinatorState
        decreases events.len(),
    {
        if events.len() == 0 || self.action() != CoordinatorAction::AwaitVote {
            self
        } else {
            self.apply(events[0]).replay(events.drop_first())
        }
    }
}

/// The coordinator of one transaction, between phase one and phase two.
pub struct Coordinator {
    participants: usize,
    force_rollback: bool,
    votes: Vec<Vote>,
    aborted: bool,
}

impl View for Coordinator {
    type V = CoordinatorState;

    closed spec fn view(&self) -> CoordinatorState {
        CoordinatorState {
            participants: self.participants as nat,
            force_rollback: self.force_rollback,
            votes: self.votes@,
            aborted: self.aborted,
        }
    }
}

/// Phase two: `Commit` when every vote is `Yes` and no rollback is forced,
/// `Rollback` otherwise.
pub fn decide(votes: &[Vote], force_rollback: bool) -> (d: Decision)
    ensures
        d == decision_for(votes@, force_rollback),
{
    let mut i: usize = 0;
    while i < votes.len()
        invariant
            i <= votes@.len(),
            all_yes(votes@.take(i as int)),
        decreases votes@.len() - i,
    {
        if votes[i] != Vote::Yes {
            assert(votes@[i as int] == Vote::No);
            return Decision::Rollback(RollbackReason::VotedNo);
        }
        assert(forall|j: int|
            0 <= j < i + 1 ==> #[trigger] votes@.take(i + 1)[j] == votes@.take(i as int).push(votes@[i as int])[j]);
        i = i + 1;
    }
    assert(votes@.take(i as int) == votes@);
    if force_rollback {
        Decision::Rollback(RollbackReason::Forced)
    } else {
        Decision::Commit
    }
}

impl Coordinator {
    /// A coordinator that has just sent `Prepare` to `participants` participants.
    pub fn new(participants: usize, force_rollback: bool) -> (c: Coordinator)
        ensures
            c@ == CoordinatorState::fresh(participants as nat, force_rollback),
    {
        Coordinator { participants, force_rollback, votes: Vec::new(), aborted: false }
    }

    pub fn participants(&self) -> (n: usize)
        ensures
            n == self@.participants,
    {
        self.participants
    }

    pub fn votes(&self) -> (v: &[Vote])
        ensures
            v@ == self@.votes,
    {
        self.votes.as_slice()
    }

    /// What to do now: wait for another vote, or announce the decision.
    pub fn next_action(&self) -> (a: CoordinatorAction)
        ensures
            a == self@.action(),
    {
        if self.aborted {
            CoordinatorAction::Decide(Decision::Rollback(RollbackReason::NoResponse))
        } else if self.votes.len() < self.participants {
            CoordinatorAction::AwaitVote
        } else {
            CoordinatorAction::Decide(decide(self.votes.as_slice(), self.force_rollback))
        }
    }

    /// Takes in what the wait for a vote produced.
    pub fn on_event(&mut self, event: CoordinatorEvent)
        requires
            old(self)@.action() == CoordinatorAction::AwaitVote,
        ensures
            final(self)@ == old(self)@.apply(event),
    {
        match event {
            CoordinatorEvent::Received(Message::Vote(v)) => {
                self.votes.push(v);
            },
            _ => {
                self.aborted = true;
            },
        }
    }
}

} // verus!
