use two_phase_commit::coordinator::{decide, Coordinator, CoordinatorAction, CoordinatorEvent};
use two_phase_commit::protocol::{Decision, Message, RollbackReason, Vote};

fn vote(v: Vote) -> CoordinatorEvent {
    CoordinatorEvent::Received(Message::Vote(v))
}

/// Feeds `events` to a fresh coordinator while it waits and returns its decision
/// together with the number of events it read.
fn run(participants: usize, force_rollback: bool, events: &[CoordinatorEvent]) -> (CoordinatorAction, usize) {
    let mut c = Coordinator::new(participants, force_rollback);
    let mut read = 0;
    for e in events {
        if c.next_action() != CoordinatorAction::AwaitVote {
            break;
        }
        c.on_event(*e);
        read += 1;
    }
    (c.next_action(), read)
}

#[test]
fn case_a_one_participant_votes_no() {
    let (a, read) = run(3, false, &[vote(Vote::Yes), vote(Vote::No), vote(Vote::Yes)]);
    assert_eq!(a, CoordinatorAction::Decide(Decision::Rollback(RollbackReason::VotedNo)));
    assert_eq!(read, 3);
}

#[test]
fn case_b_one_participant_times_out() {
    let (a, read) = run(3, false, &[vote(Vote::Yes), vote(Vote::Yes), CoordinatorEvent::TimedOut]);
    assert_eq!(a, CoordinatorAction::Decide(Decision::Rollback(RollbackReason::NoResponse)));
    assert_eq!(read, 3);
}

#[test]
fn case_c_forced_rollback_with_unanimous_yes() {
    let (a, _) = run(3, true, &[vote(Vote::Yes), vote(Vote::Yes), vote(Vote::Yes)]);
    assert_eq!(a, CoordinatorAction::Decide(Decision::Rollback(RollbackReason::Forced)));
}

#[test]
fn unanimous_yes_commits() {
    let (a, read) = run(3, false, &[vote(Vote::Yes), vote(Vote::Yes), vote(Vote::Yes)]);
    assert_eq!(a, CoordinatorAction::Decide(Decision::Commit));
    assert_eq!(read, 3);
}

#[test]
fn timeout_stops_the_wait_at_once() {
    let (a, read) = run(3, false, &[CoordinatorEvent::TimedOut, vote(Vote::Yes), vote(Vote::Yes)]);
    assert_eq!(a, CoordinatorAction::Decide(Decision::Rollback(RollbackReason::NoResponse)));
    assert_eq!(read, 1);
}

#[test]
fn unexpected_message_counts_as_no_response() {
    let (a, read) = run(2, false, &[vote(Vote::Yes), CoordinatorEvent::Received(Message::Commit)]);
    assert_eq!(a, CoordinatorAction::Decide(Decision::Rollback(RollbackReason::NoResponse)));
    assert_eq!(read, 2);
}

#[test]
fn extra_events_after_the_last_vote_are_not_read() {
    let (a, read) = run(
        2,
        false,
        &[vote(Vote::Yes), vote(Vote::Yes), CoordinatorEvent::TimedOut, vote(Vote::No)],
    );
    assert_eq!(a, CoordinatorAction::Decide(Decision::Commit));
    assert_eq!(read, 2);
}

#[test]
fn no_vote_before_a_timeout_still_rolls_back() {
    let (a, _) = run(3, false, &[vote(Vote::No), CoordinatorEvent::TimedOut]);
    assert_eq!(a, CoordinatorAction::Decide(Decision::Rollback(RollbackReason::NoResponse)));
}

#[test]
fn no_participants_commits_at_once() {
    let c = Coordinator::new(0, false);
    assert_eq!(c.next_action(), CoordinatorAction::Decide(Decision::Commit));
    let c = Coordinator::new(0, true);
    assert_eq!(c.next_action(), CoordinatorAction::Decide(Decision::Rollback(RollbackReason::Forced)));
}

#[test]
fn coordinator_waits_while_votes_are_missing() {
    let mut c = Coordinator::new(2, false);
    assert_eq!(c.participants(), 2);
    assert_eq!(c.next_action(), CoordinatorAction::AwaitVote);
    c.on_event(vote(Vote::Yes));
    assert_eq!(c.next_action(), CoordinatorAction::AwaitVote);
    assert_eq!(c.votes(), &[Vote::Yes][..]);
    c.on_event(vote(Vote::No));
    assert_eq!(c.votes(), &[Vote::Yes, Vote::No][..]);
    assert_eq!(c.next_action(), CoordinatorAction::Decide(Decision::Rollback(RollbackReason::VotedNo)));
}

#[test]
fn forced_rollback_never_commits() {
    for n in 0..4 {
        let events = vec![vote(Vote::Yes); n];
        let (a, _) = run(n, true, &events);
        assert_ne!(a, CoordinatorAction::Decide(Decision::Commit));
    }
}

#[test]
fn decides_within_one_event_per_participant() {
    let events = [vote(Vote::No), vote(Vote::Yes), vote(Vote::Yes), vote(Vote::Yes)];
    let (a, read) = run(4, false, &events);
    assert!(matches!(a, CoordinatorAction::Decide(_)));
    assert_eq!(read, 4);
}

#[test]
fn decide_phase_two() {
    assert_eq!(decide(&[], false), Decision::Commit);
    assert_eq!(decide(&[Vote::Yes, Vote::Yes], false), Decision::Commit);
    assert_eq!(decide(&[Vote::Yes, Vote::No], false), Decision::Rollback(RollbackReason::VotedNo));
    assert_eq!(decide(&[Vote::No], true), Decision::Rollback(RollbackReason::VotedNo));
    assert_eq!(decide(&[Vote::Yes], true), Decision::Rollback(RollbackReason::Forced));
}

#[test]
fn decision_messages() {
    assert_eq!(Decision::Commit.message(), Message::Commit);
    assert_eq!(Decision::Rollback(RollbackReason::Forced).message(), Message::Rollback);
    assert_eq!(Decision::Rollback(RollbackReason::VotedNo).message(), Message::Rollback);
    assert_eq!(Decision::Rollback(RollbackReason::NoResponse).message(), Message::Rollback);
}
