//! Sending the coordinator's messages over `std::sync::mpsc` channels.

use vstd::prelude::*;

use crate::protocol::Message;

use std::sync::mpsc::Sender;

verus! {

#[verifier::external_type_specification]
#[verifier::external_body]
#[verifier::reject_recursive_types(T)]
pub struct ExSender<T>(Sender<T>);

/// The sending end of the channel to one participant, together with the
/// history of what that channel has accepted from it.
pub struct Outbox {
    sender: Sender<Message>,
    delivered: Ghost<Seq<Message>>,
    refused: Ghost<bool>,
}

impl Outbox {
    /// The messages the channel has accepted through this outbox, oldest first.
    pub closed spec fn history(&self) -> Seq<Message> {
        self.delivered@
    }

    /// Whether the channel has refused a message sent through this outbox,
    /// which happens once its receiver is gone.
    pub closed spec fn has_refused(&self) -> bool {
        self.refused@
    }

    /// An outbox that has sent nothing yet.
    pub fn new(sender: Sender<Message>) -> (o: Outbox)
        ensures
            o.history() == Seq::<Message>::empty(),
            !o.has_refused(),
    {
        Outbox { sender, delivered: Ghost(Seq::empty()), refused: Ghost(false) }
    }

    /// Sends `msg` through the channel. On success the history grows by `msg`;
    /// on failure the message comes back, the history stays, and the outbox
    /// records the refusal.
    pub fn send(&mut self, msg: Message) -> (r: Result<(), Message>)
        ensures
            r is Ok ==> final(self).history() == old(self).history().push(msg)
                && final(self).has_refused() == old(self).has_refused(),
            r matches Err(m) ==> m == msg && final(self).history() == old(self).history()
                && final(self).has_refused(),
    {
        let r = send_message(self, msg);
        match r {
            Ok(()) => {},
            Err(_) => {
                self.refused = Ghost(true);
            },
        }
        r
    }
}

/// Calls `std::sync::mpsc::Sender::send` on the outbox's sender with `msg`;
/// it never blocks. std documents that on success `msg` is in the channel's
/// queue, behind what was sent before, and that it fails only when the
/// receiving half is gone, handing the message back unsent. So on success the
/// outbox's history of accepted messages grows by `msg`, and on failure
/// nothing changes. Whether it succeeds depends on the other end of the
/// channel, which is not stated.
#[verifier::external_body]
fn send_message(outbox: &mut Outbox, msg: Message) -> (r: Result<(), Message>)
    ensures
        r is Ok ==> final(outbox).history() == old(outbox).history().push(msg)
            && final(outbox).has_refused() == old(outbox).has_refused(),
        r matches Err(m) ==> m == msg && *final(outbox) == *old(outbox),
{
    outbox.sender.send(msg).map_err(|e| e.0)
}

/// Every outbox of `after` has delivered `msg` once more than the outbox at
/// the same place in `before`.
pub open spec fn delivered(before: Seq<Outbox>, after: Seq<Outbox>, msg: Message) -> bool {
    &&& after.len() == before.len()
    &&& forall|i: int|
        0 <= i < before.len() ==> #[trigger] after[i].history() == before[i].history().push(msg)
}

/// Sends `msg` to every participant, in order. Stops at the first participant
/// whose channel refuses it (its receiver is gone) and returns its index: the
/// participants before it have been sent `msg`, it and the ones after it
/// nothing. `Ok` means that every participant's channel accepted `msg`.
pub fn send_to_all(participants: &mut Vec<Outbox>, msg: Message) -> (r: Result<(), usize>)
    ensures
        final(participants)@.len() == old(participants)@.len(),
        r is Ok ==> delivered(old(participants)@, final(participants)@, msg),
        r matches Err(k) ==> {
            &&& k < old(participants)@.len()
            &&& delivered(
                old(participants)@.take(k as int),
                final(participants)@.take(k as int),
                msg,
            )
            &&& final(participants)@[k as int].has_refused()
            &&& final(participants)@[k as int].history() == old(
                participants,
            )@[k as int].history()
            &&& forall|i: int|
                k < i < old(participants)@.len() ==> #[trigger] final(participants)@[i]
                    == old(participants)@[i]
        },
        old(participants)@.len() == 0 ==> r == Ok::<(), usize>(()),
{
    let n = participants.len();
    let mut i: usize = 0;
    while i < n
        invariant
            n == old(participants)@.len(),
            participants@.len() == n,
            i <= n,
            delivered(old(participants)@.take(i as int), participants@.take(i as int), msg),
            forall|j: int| i <= j < n ==> #[trigger] participants@[j] == old(participants)@[j],
        decreases n - i,
    {
        let ghost before = participants@;
        match participants[i].send(msg) {
            Ok(()) => {},
            Err(_) => {
                assert(participants@.len() == n);
                assert(forall|j: int| 0 <= j < n && j != i ==> participants@[j] == before[j]);
                assert(participants@.take(i as int) =~= before.take(i as int));
                return Err(i);
            },
        }
        assert forall|j: int| 0 <= j < i + 1 implies #[trigger] participants@.take(i + 1)[j].history()
            == old(participants)@.take(i + 1)[j].history().push(msg) by {
            if j < i {
                assert(participants@.take(i + 1)[j] == before.take(i as int)[j]);
                assert(old(participants)@.take(i + 1)[j] == old(participants)@.take(i as int)[j]);
            }
        }
        i = i + 1;
    }
    assert(participants@.take(n as int) == participants@);
    assert(old(participants)@.take(n as int) == old(participants)@);
    Ok(())
}

/// What a broadcast leaves in each channel: every participant's history is
/// what it was, followed by the broadcast message, so each receiver gets
/// exactly that message next, after everything sent to it before.
pub proof fn lemma_broadcast_appends_its_message(
    before: Seq<Outbox>,
    after: Seq<Outbox>,
    msg: Message,
)
    requires
        delivered(before, after, msg),
    ensures
        forall|i: int|
            0 <= i < after.len() ==> {
                &&& #[trigger] after[i].history().len() == before[i].history().len() + 1
                &&& after[i].history().last() == msg
                &&& after[i].history().drop_last() == before[i].history()
            },
{
    assert forall|i: int| 0 <= i < after.len() implies {
        &&& #[trigger] after[i].history().len() == before[i].history().len() + 1
        &&& after[i].history().last() == msg
        &&& after[i].history().drop_last() == before[i].history()
    } by {
        assert(after[i].history() == before[i].history().push(msg));
        assert(before[i].history().push(msg).drop_last() =~= before[i].history());
    }
}

/// Broadcasting to two lists of participants one after the other has the same
/// effect, outbox by outbox, as broadcasting once to the two lists joined.
pub proof fn lemma_broadcast_splits(
    a_before: Seq<Outbox>,
    a_after: Seq<Outbox>,
    b_before: Seq<Outbox>,
    b_after: Seq<Outbox>,
    msg: Message,
)
    requires
        a_after.len() == a_before.len(),
        b_after.len() == b_before.len(),
    ensures
        delivered(a_before + b_before, a_after + b_after, msg) <==> (delivered(
            a_before,
            a_after,
            msg,
        ) && delivered(b_before, b_after, msg)),
{
    let before = a_before + b_before;
    let after = a_after + b_after;
    if delivered(before, after, msg) {
        assert forall|i: int| 0 <= i < a_before.len() implies #[trigger] a_after[i].history()
            == a_before[i].history().push(msg) by {
            assert(after[i] == a_after[i] && before[i] == a_before[i]);
        }
        assert forall|i: int| 0 <= i < b_before.len() implies #[trigger] b_after[i].history()
            == b_before[i].history().push(msg) by {
            let k = i + a_before.len();
            assert(after[k] == b_after[i] && before[k] == b_before[i]);
        }
    }
    if delivered(a_before, a_after, msg) && delivered(b_before, b_after, msg) {
        assert forall|i: int| 0 <= i < before.len() implies #[trigger] after[i].history()
            == before[i].history().push(msg) by {
            if i < a_before.len() {
                assert(after[i] == a_after[i] && before[i] == a_before[i]);
            } else {
                let k = i - a_before.len();
                assert(after[i] == b_after[k] && before[i] == b_before[k]);
            }
        }
    }
}

} // verus!
