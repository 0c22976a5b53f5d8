//! What the coordinator guarantees over a whole transaction, whatever the
//! participants answer and in whatever order the answers arrive.

use vstd::prelude::*;

use crate::coordinator::{all_yes, CoordinatorAction, CoordinatorEvent, CoordinatorState};
use crate::protocol::{Decision, Message, RollbackReason, Vote};

verus! {

/// `true` for an event that brings a vote.
pub open spec fn is_vote_event(event: CoordinatorEvent) -> bool {
    event matches CoordinatorEvent::Received(Message::Vote(_))
}

proof fn lemma_replay_general_commit(s: CoordinatorState, events: Seq<CoordinatorEvent>)
    requires
        !s.aborted,
        s.votes.len() <= s.participants,
        s.replay(events).action() == CoordinatorAction::Decide(Decision::Commit),
    ensures
        !s.force_rollback,
        all_yes(s.votes),
        s.votes.len() + events.len() >= s.participants,
        forall|i: int|
            0 <= i < s.participants - s.votes.len() ==> events[i] == CoordinatorEvent::Received(
                Message::Vote(Vote::Yes),
            ),
    decreases events.len(),
{
    if events.len() == 0 || s.action() != CoordinatorAction::AwaitVote {
        assert(s.replay(events) == s);
    } else {
        let s2 = s.apply(events[0]);
        let rest = events.drop_first();
        assert(s.replay(events) == s2.replay(rest));
        if is_vote_event(events[0]) {
            let v = events[0]->Received_0->Vote_0;
            assert(s2.votes == s.votes.push(v));
            lemma_replay_general_commit(s2, rest);
            assert(s2.votes[s.votes.len() as int] == v);
            assert forall|i: int| 0 <= i < s.votes.len() implies s.votes[i] == Vote::Yes by {
                assert(s2.votes[i] == s.votes[i]);
            }
            assert forall|i: int| 0 <= i < s.participants - s.votes.len() implies events[i]
                == CoordinatorEvent::Received(Message::Vote(Vote::Yes)) by {
                if i > 0 {
                    assert(events[i] == rest[i - 1]);
                }
            }
        } else {
            assert(s2.aborted);
            assert(s2.replay(rest) == s2);
        }
    }
}

proof fn lemma_replay_general_unanimous(s: CoordinatorState, events: Seq<CoordinatorEvent>)
    requires
        !s.aborted,
        !s.force_rollback,
        s.votes.len() <= s.participants,
        all_yes(s.votes),
        s.votes.len() + events.len() >= s.participants,
        forall|i: int|
            0 <= i < s.participants - s.votes.len() ==> events[i] == CoordinatorEvent::Received(
                Message::Vote(Vote::Yes),
            ),
    ensures
        s.replay(events).action() == CoordinatorAction::Decide(Decision::Commit),
    decreases events.len(),
{
    if events.len() == 0 || s.action() != CoordinatorAction::AwaitVote {
        assert(s.replay(events) == s);
    } else {
        let s2 = s.apply(events[0]);
        let rest = events.drop_first();
        assert(s.replay(events) == s2.replay(rest));
        assert(events[0] == CoordinatorEvent::Received(Message::Vote(Vote::Yes)));
        assert(s2.votes == s.votes.push(Vote::Yes));
        assert forall|i: int|
            0 <= i < s2.participants - s2.votes.len() implies rest[i] == CoordinatorEvent::Received(
            Message::Vote(Vote::Yes),
        ) by {
            assert(rest[i] == events[i + 1]);
        }
        lemma_replay_general_unanimous(s2, rest);
    }
}

proof fn lemma_replay_general_progress(s: CoordinatorState, events: Seq<CoordinatorEvent>)
    requires
        s.votes.len() <= s.participants,
    ensures
        s.replay(events).votes.len() <= s.replay(events).participants,
        s.replay(events).participants == s.participants,
        s.replay(events).force_rollback == s.force_rollback,
        s.votes.len() + events.len() >= s.participants ==> s.replay(events).action()
            != CoordinatorAction::AwaitVote,
    decreases events.len(),
{
    if events.len() == 0 || s.action() != CoordinatorAction::AwaitVote {
        assert(s.replay(events) == s);
    } else {
        let s2 = s.apply(events[0]);
        assert(s.replay(events) == s2.replay(events.drop_first()));
        lemma_replay_general_progress(s2, events.drop_first());
    }
}

proof fn lemma_replay_general_no_response(
    s: CoordinatorState,
    events: Seq<CoordinatorEvent>,
    k: int,
)
    requires
        !s.aborted,
        0 <= k < events.len(),
        s.votes.len() + k < s.participants,
        forall|i: int| 0 <= i < k ==> is_vote_event(#[trigger] events[i]),
        !is_vote_event(events[k]),
    ensures
        s.replay(events).action() == CoordinatorAction::Decide(
            Decision::Rollback(RollbackReason::NoResponse),
        ),
    decreases events.len(),
{
    let s2 = s.apply(events[0]);
    let rest = events.drop_first();
    assert(s.action() == CoordinatorAction::AwaitVote);
    assert(s.replay(events) == s2.replay(rest));
    if k == 0 {
        assert(s2.aborted);
        assert(s2.replay(rest) == s2);
    } else {
        assert(is_vote_event(events[0]));
        assert forall|i: int| 0 <= i < k - 1 implies is_vote_event(#[trigger] rest[i]) by {
            assert(rest[i] == events[i + 1]);
        }
        assert(rest[k - 1] == events[k]);
        lemma_replay_general_no_response(s2, rest, k - 1);
    }
}

/// Atomic commit: when the coordinator decides `Commit`, no rollback was
/// forced and each of the participants' answers that it read was a `Yes`
/// vote (one per participant, with no timeout in between).
pub proof fn lemma_commit_requires_unanimous_yes(
    participants: nat,
    force_rollback: bool,
    events: Seq<CoordinatorEvent>,
)
    requires
        CoordinatorState::fresh(participants, force_rollback).replay(events).action()
            == CoordinatorAction::Decide(Decision::Commit),
    ensures
        !force_rollback,
        events.len() >= participants,
        forall|i: int|
            0 <= i < participants ==> events[i] == CoordinatorEvent::Received(
                Message::Vote(Vote::Yes),
            ),
{
    lemma_replay_general_commit(CoordinatorState::fresh(participants, force_rollback), events);
}

/// When every participant answers `Yes` in time and no rollback is forced,
/// the coordinator decides `Commit`.
pub proof fn lemma_unanimous_yes_commits(participants: nat, events: Seq<CoordinatorEvent>)
    requires
        events.len() >= participants,
        forall|i: int|
            0 <= i < participants ==> events[i] == CoordinatorEvent::Received(
                Message::Vote(Vote::Yes),
            ),
    ensures
        CoordinatorState::fresh(participants, false).replay(events).action()
            == CoordinatorAction::Decide(Decision::Commit),
{
    let s = CoordinatorState::fresh(participants, false);
    assert(all_yes(s.votes));
    lemma_replay_general_unanimous(s, events);
}

/// The coordinator waits for at most one answer per participant: after as
/// many events as there are participants it has decided, and it never holds
/// more votes than there are participants.
pub proof fn lemma_decides_within_one_event_per_participant(
    participants: nat,
    force_rollback: bool,
    events: Seq<CoordinatorEvent>,
)
    ensures
        CoordinatorState::fresh(participants, force_rollback).replay(events).votes.len()
            <= participants,
        events.len() >= participants ==> CoordinatorState::fresh(
            participants,
            force_rollback,
        ).replay(events).action() != CoordinatorAction::AwaitVote,
{
    lemma_replay_general_progress(CoordinatorState::fresh(participants, force_rollback), events);
}

/// A timeout (or any answer that is not a vote) before the last vote ends
/// the transaction at once with a rollback, whatever the votes before it.
pub proof fn lemma_missing_vote_rolls_back(
    participants: nat,
    force_rollback: bool,
    events: Seq<CoordinatorEvent>,
    k: int,
)
    requires
        0 <= k < events.len(),
        k < participants,
        forall|i: int| 0 <= i < k ==> is_vote_event(#[trigger] events[i]),
        !is_vote_event(events[k]),
    ensures
        CoordinatorState::fresh(participants, force_rollback).replay(events).action()
            == CoordinatorAction::Decide(Decision::Rollback(RollbackReason::NoResponse)),
{
    lemma_replay_general_no_response(
        CoordinatorState::fresh(participants, force_rollback),
        events,
        k,
    );
}

/// A single `No` among the participants' answers means the transaction is
/// rolled back.
pub proof fn lemma_one_no_vote_rolls_back(
    participants: nat,
    force_rollback: bool,
    events: Seq<CoordinatorEvent>,
    k: int,
)
    requires
        events.len() >= participants,
        0 <= k < participants,
        events[k] == CoordinatorEvent::Received(Message::Vote(Vote::No)),
    ensures
        CoordinatorState::fresh(participants, force_rollback).replay(events).action() is Decide,
        CoordinatorState::fresh(participants, force_rollback).replay(events).action()
            != CoordinatorAction::Decide(Decision::Commit),
{
    lemma_decides_within_one_event_per_participant(participants, force_rollback, events);
    if CoordinatorState::fresh(participants, force_rollback).replay(events).action()
        == CoordinatorAction::Decide(Decision::Commit) {
        lemma_commit_requires_unanimous_yes(participants, force_rollback, events);
    }
}

/// A coordinator told to force a rollback never commits.
pub proof fn lemma_forced_rollback_never_commits(
    participants: nat,
    events: Seq<CoordinatorEvent>,
)
    ensures
        CoordinatorState::fresh(participants, true).replay(events).action()
            != CoordinatorAction::Decide(Decision::Commit),
{
    if CoordinatorState::fresh(participants, true).replay(events).action()
        == CoordinatorAction::Decide(Decision::Commit) {
        lemma_commit_requires_unanimous_yes(participants, true, events);
    }
}

} // verus!
