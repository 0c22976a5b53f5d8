//! What a participant does with each message from the coordinator.

use vstd::prelude::*;

use crate::protocol::{Message, Vote};
use crate::wal::WalEntry;

verus! {

/// A participant's local conditions hold with probability
/// `YES_NUMERATOR / YES_DENOMINATOR`, that is 90%.
pub const YES_NUMERATOR: u32 = 9;

pub const YES_DENOMINATOR: u32 = 10;

/// A fixed way of answering `Prepare`, to reproduce a failure on demand.
#[derive(PartialEq, Eq, Structural, Clone, Copy, Debug)]
pub enum Behavior {
    /// Answer at once with this vote.
    RespondWith(Vote),
    /// Wait this many milliseconds, then answer with this vote if the
    /// coordinator still listens.
    Delay(u64, Vote),
}

/// How a participant makes up its vote.
#[derive(PartialEq, Eq, Structural, Clone, Copy, Debug)]
pub enum VotePolicy {
    /// Vote `Yes` when its local conditions hold, which is a matter of chance.
    LocalConditions,
    /// Follow the given behavior.
    Forced(Behavior),
}

/// What a participant tells its operator.
#[derive(PartialEq, Eq, Structural, Clone, Copy, Debug)]
pub enum Report {
    Voting(Vote),
    Delaying(u64),
    VotingAfterDelay(Vote),
    CommitApplied,
    RollbackApplied,
}

/// One step of a participant's reaction, to be carried out in order.
#[derive(PartialEq, Eq, Structural, Clone, Copy, Debug)]
pub enum Effect {
    /// Append this entry to the participant's write-ahead log.
    AppendWal(WalEntry),
    /// Sleep this many milliseconds.
    Sleep(u64),
    /// Send this vote to the coordinator; the coordinator must be listening.
    SendVote(Vote),
    /// Send this vote to the coordinator if it still listens; if it has hung
    /// up, drop the vote.
    SendVoteIfListening(Vote),
    /// Tell the operator.
    Report(Report),
}

/// A participant of the transaction.
#[derive(PartialEq, Eq, Structural, Clone, Copy, Debug)]
pub struct Participant {
    pub id: u32,
    pub policy: VotePolicy,
    /// Whether the participant keeps a write-ahead log.
    pub write_ahead_log: bool,
}

/// The vote that an effect sends, if it sends one.
pub open spec fn sent_vote(effect: Effect) -> Option<Vote> {
    match effect {
        Effect::SendVote(v) => Some(v),
        Effect::SendVoteIfListening(v) => Some(v),
        _ => None,
    }
}

/// The log record that goes before a vote: only a `Yes` vote is a promise.
pub open spec fn prepared_record(write_ahead_log: bool, vote: Vote) -> Seq<Effect> {
    if write_ahead_log && vote == Vote::Yes {
        seq![Effect::AppendWal(WalEntry::Prepared)]
    } else {
        seq![]
    }
}

/// The log record that goes before an action.
pub open spec fn action_record(write_ahead_log: bool, entry: WalEntry) -> Seq<Effect> {
    if write_ahead_log {
        seq![Effect::AppendWal(entry)]
    } else {
        seq![]
    }
}

impl Participant {
    /// The vote that answers `Prepare`, given whether the local conditions hold.
    pub open spec fn chosen_vote(self, local_conditions_hold: bool) -> Vote {
        match self.policy {
            VotePolicy::LocalConditions => if local_conditions_hold {
                Vote::Yes
            } else {
                Vote::No
            },
            VotePolicy::Forced(Behavior::RespondWith(v)) => v,
            VotePolicy::Forced(Behavior::Delay(_, v)) => v,
        }
    }

    /// The reaction to `msg`, given whether the local conditions hold.
    pub open spec fn spec_react(self, msg: Message, local_conditions_hold: bool) -> Seq<Effect> {
        let wal = self.write_ahead_log;
        match msg {
            Message::Prepare => {
                let v = self.chosen_vote(local_conditions_hold);
                match self.policy {
                    VotePolicy::Forced(Behavior::Delay(ms, _)) => seq![
                        Effect::Report(Report::Delaying(ms)),
                        Effect::Sleep(ms),
                    ] + prepared_record(wal, v) + seq![
                        Effect::Report(Report::VotingAfterDelay(v)),
                        Effect::SendVoteIfListening(v),
                    ],
                    _ => prepared_record(wal, v) + seq![
                        Effect::Report(Report::Voting(v)),
                        Effect::SendVote(v),
                    ],
                }
            },
            Message::Commit => action_record(wal, WalEntry::Commit) + seq![
                Effect::Report(Report::CommitApplied),
            ],
            Message::Rollback => action_record(wal, WalEntry::Rollback) + seq![
                Effect::Report(Report::RollbackApplied),
            ],
            Message::Vote(_) => seq![],
        }
    }

    /// What to do on `msg`, given whether the local conditions hold (they
    /// matter only for `Prepare` under `VotePolicy::LocalConditions`).
    pub fn react(&self, msg: Message, local_conditions_hold: bool) -> (effects: Vec<Effect>)
        requires
            !(msg is Vote),
        ensures
            effects@ == self.spec_react(msg, local_conditions_hold),
    {
        let wal = self.write_ahead_log;
        let mut effects: Vec<Effect> = Vec::new();
        match msg {
            Message::Prepare => {
                let v = match self.policy {
                    VotePolicy::LocalConditions => if local_conditions_hold {
                        Vote::Yes
                    } else {
                        Vote::No
                    },
                    VotePolicy::Forced(Behavior::RespondWith(v)) => v,
                    VotePolicy::Forced(Behavior::Delay(_, v)) => v,
                };
                match self.policy {
                    VotePolicy::Forced(Behavior::Delay(ms, _)) => {
                        effects.push(Effect::Report(Report::Delaying(ms)));
                        effects.push(Effect::Sleep(ms));
                        if wal && v == Vote::Yes {
                            effects.push(Effect::AppendWal(WalEntry::Prepared));
                        }
                        effects.push(Effect::Report(Report::VotingAfterDelay(v)));
                        effects.push(Effect::SendVoteIfListening(v));
                    },
                    _ => {
                        if wal && v == Vote::Yes {
                            effects.push(Effect::AppendWal(WalEntry::Prepared));
                        }
                        effects.push(Effect::Report(Report::Voting(v)));
                        effects.push(Effect::SendVote(v));
                    },
                }
            },
            Message::Commit => {
                if wal {
                    effects.push(Effect::AppendWal(WalEntry::Commit));
                }
                effects.push(Effect::Report(Report::CommitApplied));
            },
            _ => {
                if wal {
                    effects.push(Effect::AppendWal(WalEntry::Rollback));
                }
                effects.push(Effect::Report(Report::RollbackApplied));
            },
        }
        effects
    }

    /// What to do on `msg`. Under `VotePolicy::LocalConditions` the answer
    /// to `Prepare` depends on `check_local_conditions`, which is a matter of
    /// chance; otherwise the reaction is fixed.
    pub fn on_message(&self, msg: Message) -> (effects: Vec<Effect>)
        requires
            !(msg is Vote),
        ensures
            effects@ == self.spec_react(msg, true) || effects@ == self.spec_react(msg, false),
            !(msg == Message::Prepare && self.policy == VotePolicy::LocalConditions)
                ==> effects@ == self.spec_react(msg, false),
    {
        let local_conditions_hold = match (msg, self.policy) {
            (Message::Prepare, VotePolicy::LocalConditions) => check_local_conditions(self.id),
            _ => false,
        };
        self.react(msg, local_conditions_hold)
    }
}

/// Calls `rand::Rng::random_range` with the range `0..bound` on the
/// thread-local generator that `rand::rng()` returns: a number drawn at random
/// below `bound`. rand panics on an empty range, which `requires` leaves out,
/// and when the operating system cannot seed the generator, which no
/// `requires` can rule out. Which number comes out is random and not stated.
#[verifier::external_body]
fn random_below(bound: u32) -> (r: u32)
    requires
        0 < bound,
    ensures
        r < bound,
{
    rand::Rng::random_range(&mut rand::rng(), 0..bound)
}

/// Whether the local conditions hold for a number `draw` drawn uniformly
/// below `YES_DENOMINATOR`: they do for `YES_NUMERATOR` of the possible draws.
pub fn local_conditions_hold(draw: u32) -> (b: bool)
    ensures
        b == local_conditions_hold_spec(draw),
{
    draw < YES_NUMERATOR
}

/// Whether participant `id`'s local conditions allow it to commit: a number is
/// drawn at random below `YES_DENOMINATOR`, and the conditions hold when it is
/// below `YES_NUMERATOR`, so with probability 9/10.
pub fn check_local_conditions(_id: u32) -> (b: bool)
    ensures
        exists|draw: u32| draw < YES_DENOMINATOR && b == local_conditions_hold_spec(draw),
{
    let draw = random_below(YES_DENOMINATOR);
    local_conditions_hold(draw)
}

pub open spec fn local_conditions_hold_spec(draw: u32) -> bool {
    draw < YES_NUMERATOR
}

} // verus!
