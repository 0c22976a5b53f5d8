//! What every participant guarantees, whatever its policy and its luck.

use vstd::prelude::*;

use crate::participant::{sent_vote, Behavior, Effect, Participant, Report, VotePolicy};
use crate::protocol::{Message, Vote};
use crate::wal::WalEntry;

verus! {

/// Write-ahead logging: a participant that keeps a log records its intention
/// before it carries it out. Before a `Yes` vote goes out, `Prepared` is in
/// the log; before a commit or a rollback is applied, `Commit` or `Rollback`
/// is in the log.
pub proof fn lemma_logs_before_acting(p: Participant, msg: Message, local_conditions_hold: bool)
    requires
        p.write_ahead_log,
        !(msg is Vote),
    ensures
        forall|j: int|
            0 <= j < p.spec_react(msg, local_conditions_hold).len() && sent_vote(
                #[trigger] p.spec_react(msg, local_conditions_hold)[j],
            ) == Some(Vote::Yes) ==> exists|i: int|
                0 <= i < j && p.spec_react(msg, local_conditions_hold)[i] == Effect::AppendWal(
                    WalEntry::Prepared,
                ),
        forall|j: int|
            0 <= j < p.spec_react(msg, local_conditions_hold).len()
                && #[trigger] p.spec_react(msg, local_conditions_hold)[j] == Effect::Report(
                Report::CommitApplied,
            ) ==> exists|i: int|
                0 <= i < j && p.spec_react(msg, local_conditions_hold)[i] == Effect::AppendWal(
                    WalEntry::Commit,
                ),
        forall|j: int|
            0 <= j < p.spec_react(msg, local_conditions_hold).len()
                && #[trigger] p.spec_react(msg, local_conditions_hold)[j] == Effect::Report(
                Report::RollbackApplied,
            ) ==> exists|i: int|
                0 <= i < j && p.spec_react(msg, local_conditions_hold)[i] == Effect::AppendWal(
                    WalEntry::Rollback,
                ),
{
    let e = p.spec_react(msg, local_conditions_hold);
    let v = p.chosen_vote(local_conditions_hold);
    match msg {
        Message::Prepare => {
            match p.policy {
                crate::participant::VotePolicy::Forced(crate::participant::Behavior::Delay(_, _)) => {
                    if v == Vote::Yes {
                        assert(e[2] == Effect::AppendWal(WalEntry::Prepared));
                    }
                },
                _ => {
                    if v == Vote::Yes {
                        assert(e[0] == Effect::AppendWal(WalEntry::Prepared));
                    }
                },
            }
        },
        Message::Commit => {
            assert(e[0] == Effect::AppendWal(WalEntry::Commit));
        },
        _ => {
            assert(e[0] == Effect::AppendWal(WalEntry::Rollback));
        },
    }
}

/// A participant records `Prepared` only when it answers `Prepare` with a
/// `Yes`: a `No` vote leaves no promise in the log.
pub proof fn lemma_prepared_only_before_yes(
    p: Participant,
    msg: Message,
    local_conditions_hold: bool,
    i: int,
)
    requires
        !(msg is Vote),
        0 <= i < p.spec_react(msg, local_conditions_hold).len(),
        p.spec_react(msg, local_conditions_hold)[i] == Effect::AppendWal(WalEntry::Prepared),
    ensures
        msg == Message::Prepare,
        p.chosen_vote(local_conditions_hold) == Vote::Yes,
{
}

/// A participant sends exactly one vote, the one it chose, and only in answer
/// to `Prepare`; the vote is the last thing it does. `Commit` and `Rollback`
/// are never answered.
pub proof fn lemma_one_vote_per_prepare(p: Participant, msg: Message, local_conditions_hold: bool)
    requires
        !(msg is Vote),
    ensures
        msg == Message::Prepare ==> {
            let e = p.spec_react(msg, local_conditions_hold);
            &&& e.len() > 0
            &&& sent_vote(e.last()) == Some(p.chosen_vote(local_conditions_hold))
            &&& forall|i: int| 0 <= i < e.len() - 1 ==> sent_vote(#[trigger] e[i]) is None
        },
        msg != Message::Prepare ==> forall|i: int|
            0 <= i < p.spec_react(msg, local_conditions_hold).len() ==> sent_vote(
                #[trigger] p.spec_react(msg, local_conditions_hold)[i],
            ) is None,
{
}

/// A participant with a forced behavior answers `Prepare` with the vote its
/// behavior names, and with no other, whatever the local conditions; a
/// delayed one first sleeps for the behavior's delay.
pub proof fn lemma_forced_participant_sends_its_behaviors_vote(
    p: Participant,
    behavior: Behavior,
    vote: Vote,
    local_conditions_hold: bool,
)
    requires
        p.policy == VotePolicy::Forced(behavior),
        behavior == Behavior::RespondWith(vote) || (behavior matches Behavior::Delay(_, w)
            && w == vote),
    ensures
        exists|j: int|
            0 <= j < p.spec_react(Message::Prepare, local_conditions_hold).len() && sent_vote(
                #[trigger] p.spec_react(Message::Prepare, local_conditions_hold)[j],
            ) == Some(vote),
        forall|j: int|
            0 <= j < p.spec_react(Message::Prepare, local_conditions_hold).len() && sent_vote(
                #[trigger] p.spec_react(Message::Prepare, local_conditions_hold)[j],
            ) is Some ==> sent_vote(p.spec_react(Message::Prepare, local_conditions_hold)[j])
                == Some(vote),
        behavior matches Behavior::Delay(ms, _) ==> p.spec_react(
            Message::Prepare,
            local_conditions_hold,
        ).contains(Effect::Sleep(ms)),
{
    let e = p.spec_react(Message::Prepare, local_conditions_hold);
    assert(sent_vote(e[e.len() - 1]) == Some(vote));
    if let Behavior::Delay(ms, _) = behavior {
        assert(e[1] == Effect::Sleep(ms));
    }
}

/// A participant that votes by its local conditions answers `Prepare` with
/// `Yes` exactly when they hold, and with `No` exactly when they do not.
pub proof fn lemma_local_conditions_decide_the_vote(p: Participant, local_conditions_hold: bool)
    requires
        p.policy == VotePolicy::LocalConditions,
    ensures
        local_conditions_hold ==> exists|j: int|
            0 <= j < p.spec_react(Message::Prepare, local_conditions_hold).len() && sent_vote(
                #[trigger] p.spec_react(Message::Prepare, local_conditions_hold)[j],
            ) == Some(Vote::Yes),
        !local_conditions_hold ==> exists|j: int|
            0 <= j < p.spec_react(Message::Prepare, local_conditions_hold).len() && sent_vote(
                #[trigger] p.spec_react(Message::Prepare, local_conditions_hold)[j],
            ) == Some(Vote::No),
        forall|j: int|
            0 <= j < p.spec_react(Message::Prepare, local_conditions_hold).len() && sent_vote(
                #[trigger] p.spec_react(Message::Prepare, local_conditions_hold)[j],
            ) is Some ==> (sent_vote(p.spec_react(Message::Prepare, local_conditions_hold)[j])
                == Some(Vote::Yes) <==> local_conditions_hold),
{
    let e = p.spec_react(Message::Prepare, local_conditions_hold);
    assert(sent_vote(e[e.len() - 1]) is Some);
}

/// Every participant, logging or not, applies the decision it is told: it
/// reports a commit on `Commit` and a rollback on `Rollback`, never the other
/// one, and applies nothing on `Prepare`.
pub proof fn lemma_applies_the_announced_decision(p: Participant, local_conditions_hold: bool)
    ensures
        p.spec_react(Message::Commit, local_conditions_hold).contains(
            Effect::Report(Report::CommitApplied),
        ),
        !p.spec_react(Message::Commit, local_conditions_hold).contains(
            Effect::Report(Report::RollbackApplied),
        ),
        p.spec_react(Message::Rollback, local_conditions_hold).contains(
            Effect::Report(Report::RollbackApplied),
        ),
        !p.spec_react(Message::Rollback, local_conditions_hold).contains(
            Effect::Report(Report::CommitApplied),
        ),
        !p.spec_react(Message::Prepare, local_conditions_hold).contains(
            Effect::Report(Report::CommitApplied),
        ),
        !p.spec_react(Message::Prepare, local_conditions_hold).contains(
            Effect::Report(Report::RollbackApplied),
        ),
{
    let c = p.spec_react(Message::Commit, local_conditions_hold);
    let r = p.spec_react(Message::Rollback, local_conditions_hold);
    assert(c[c.len() - 1] == Effect::Report(Report::CommitApplied));
    assert(r[r.len() - 1] == Effect::Report(Report::RollbackApplied));
}

} // verus!

verus! {

/// Of the `YES_DENOMINATOR` equally likely draws that decide a participant's
/// local conditions, exactly `YES_NUMERATOR` make them hold.
pub proof fn lemma_nine_draws_in_ten_hold()
    ensures
        Set::new(
            |d: u32| d < crate::participant::YES_DENOMINATOR
                && crate::participant::local_conditions_hold_spec(d),
        ).len() == crate::participant::YES_NUMERATOR,
        Set::new(|d: u32| d < crate::participant::YES_DENOMINATOR).len()
            == crate::participant::YES_DENOMINATOR,
{
    let holding = Set::new(
        |d: u32| d < crate::participant::YES_DENOMINATOR
            && crate::participant::local_conditions_hold_spec(d),
    );
    let all = Set::new(|d: u32| d < crate::participant::YES_DENOMINATOR);
    assert(holding =~= set![0u32, 1, 2, 3, 4, 5, 6, 7, 8]);
    assert(all =~= set![0u32, 1, 2, 3, 4, 5, 6, 7, 8, 9]);
    assert(set![0u32, 1, 2, 3, 4, 5, 6, 7, 8].len() == 9);
    assert(set![0u32, 1, 2, 3, 4, 5, 6, 7, 8, 9].len() == 10);
}

} // verus!
