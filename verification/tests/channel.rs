use std::sync::mpsc::channel;

use std::sync::mpsc::Sender;

use two_phase_commit::channel::{send_to_all, Outbox};
use two_phase_commit::protocol::{Message, Vote};

fn outboxes(senders: Vec<Sender<Message>>) -> Vec<Outbox> {
    senders.into_iter().map(Outbox::new).collect()
}

#[test]
fn send_to_all_reaches_every_participant() {
    let mut senders = Vec::new();
    let mut receivers = Vec::new();
    for _ in 0..3 {
        let (tx, rx) = channel();
        senders.push(tx);
        receivers.push(rx);
    }
    let mut senders = outboxes(senders);
    assert_eq!(send_to_all(&mut senders, Message::Prepare), Ok(()));
    assert_eq!(send_to_all(&mut senders, Message::Commit), Ok(()));
    for rx in &receivers {
        assert_eq!(rx.try_recv().unwrap(), Message::Prepare);
        assert_eq!(rx.try_recv().unwrap(), Message::Commit);
        assert!(rx.try_recv().is_err());
    }
}

#[test]
fn send_to_all_reports_a_participant_that_hung_up() {
    let (tx0, rx0) = channel();
    let (tx1, rx1) = channel::<Message>();
    let (tx2, rx2) = channel();
    drop(rx1);
    let mut senders = outboxes(vec![tx0, tx1, tx2]);
    assert_eq!(send_to_all(&mut senders, Message::Vote(Vote::Yes)), Err(1));
    assert_eq!(rx0.try_recv().unwrap(), Message::Vote(Vote::Yes));
    assert!(rx2.try_recv().is_err());
}

#[test]
fn send_to_all_with_no_participants() {
    assert_eq!(send_to_all(&mut Vec::new(), Message::Rollback), Ok(()));
}

#[test]
fn send_to_all_sends_twice_to_a_channel_held_twice() {
    let (tx, rx) = channel();
    let (other_tx, other_rx) = channel();
    let mut senders = outboxes(vec![tx.clone(), other_tx, tx]);
    assert_eq!(send_to_all(&mut senders, Message::Commit), Ok(()));
    assert_eq!(rx.try_recv().unwrap(), Message::Commit);
    assert_eq!(rx.try_recv().unwrap(), Message::Commit);
    assert!(rx.try_recv().is_err());
    assert_eq!(other_rx.try_recv().unwrap(), Message::Commit);
    assert!(other_rx.try_recv().is_err());
}

#[test]
fn send_to_all_over_joined_lists_equals_two_broadcasts() {
    let (ta, ra) = channel();
    let (tb, rb) = channel();
    let mut joined = outboxes(vec![ta.clone(), tb.clone()]);
    assert_eq!(send_to_all(&mut joined, Message::Prepare), Ok(()));
    let mut first = outboxes(vec![ta]);
    let mut second = outboxes(vec![tb]);
    assert_eq!(send_to_all(&mut first, Message::Prepare), Ok(()));
    assert_eq!(send_to_all(&mut second, Message::Prepare), Ok(()));
    for rx in [&ra, &rb] {
        assert_eq!(rx.try_recv().unwrap(), Message::Prepare);
        assert_eq!(rx.try_recv().unwrap(), Message::Prepare);
        assert!(rx.try_recv().is_err());
    }
}

#[test]
fn outbox_send_hands_back_a_refused_message() {
    let (tx, rx) = channel();
    let mut outbox = Outbox::new(tx);
    assert_eq!(outbox.send(Message::Prepare), Ok(()));
    assert_eq!(rx.try_recv().unwrap(), Message::Prepare);
    drop(rx);
    assert_eq!(outbox.send(Message::Commit), Err(Message::Commit));
}
