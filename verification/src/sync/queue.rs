//! A bounded single-producer single-consumer queue.
//!
//! The producer checks for room ahead of time: once it has seen that the
//! slot `lookahead` positions past its own is free, it writes up to that
//! position without looking at the slots again.

use crate::pow2::{is_next_power_of_two, is_power_of_two, lemma_mask_is_mod, lemma_power_of_two_pos, max_pow2_request, next_power_of_two};
use crate::ring::{
    lemma_ring_empty, lemma_ring_pop, lemma_ring_push, lemma_slot_ahead_of_tail, lemma_slot_at_head, ring_view,
    ring_wf,
};
use crate::sync::{TryRecvError, TrySendError};
use vstd::prelude::*;

verus! {

/// The state of a queue as its users see it.
#[verifier::ext_equal]
pub struct QueueState<T> {
    /// The queued values, oldest first.
    pub contents: Seq<T>,
    /// The number of slots.
    pub capacity: nat,
    /// How far past its position the producer looks for room.
    pub lookahead: nat,
    /// How many values have been sent (the producer position).
    pub sent: nat,
    /// The position below which the producer knows it has room.
    pub limit: nat,
    /// Whether the sending side has gone away.
    pub sender_gone: bool,
    /// Whether the receiving side has gone away.
    pub receiver_gone: bool,
}

impl<T> QueueState<T> {
    /// How many values have been received (the consumer position).
    pub open spec fn received(self) -> int {
        self.sent - self.contents.len()
    }

    /// Every queue state that the operations reach has these properties.
    pub open spec fn wf(self) -> bool {
        &&& is_power_of_two(self.capacity)
        &&& self.lookahead == self.capacity / 4
        &&& self.contents.len() <= self.capacity
        &&& self.contents.len() <= self.sent
        &&& self.limit <= self.received() + self.capacity
        &&& self.sent <= usize::MAX
        &&& self.limit <= usize::MAX
    }

    /// The queue holds as many values as it has slots.
    pub open spec fn is_full(self) -> bool {
        self.contents.len() >= self.capacity
    }

    /// A send's position arithmetic fits in a `usize`.
    pub open spec fn send_fits(self) -> bool {
        !self.receiver_gone ==> {
            &&& self.sent >= self.limit ==> self.sent + self.lookahead <= usize::MAX
            &&& !self.is_full() ==> self.sent < usize::MAX
        }
    }

    /// The limit after a send that found room: when the producer has reached
    /// its limit and the slot `lookahead` ahead is free, the limit moves there.
    pub open spec fn next_limit(self) -> nat {
        if self.sent >= self.limit && self.contents.len() + self.lookahead < self.capacity {
            self.sent + self.lookahead
        } else {
            self.limit
        }
    }

    /// The state and the reply after trying to send `val`.
    pub open spec fn send(self, val: T) -> (QueueState<T>, Result<(), TrySendError<T>>) {
        if self.receiver_gone {
            (self, Err(TrySendError::Disconnected(val)))
        } else if self.is_full() {
            (self, Err(TrySendError::Full(val)))
        } else {
            (
                QueueState {
                    contents: self.contents.push(val),
                    sent: self.sent + 1,
                    limit: self.next_limit(),
                    ..self
                },
                Ok(()),
            )
        }
    }

    /// The state and the reply after trying to receive.
    pub open spec fn recv(self) -> (QueueState<T>, Result<T, TryRecvError>) {
        if self.contents.len() > 0 {
            (QueueState { contents: self.contents.drop_first(), ..self }, Ok(self.contents[0]))
        } else if self.sender_gone {
            (self, Err(TryRecvError::Disconnected))
        } else {
            (self, Err(TryRecvError::Empty))
        }
    }

    /// The values that receiving until the queue is empty returns, in order.
    pub open spec fn drained(self) -> Seq<T>
        decreases self.contents.len(),
    {
        if self.contents.len() > 0 {
            seq![self.contents[0]] + self.recv().0.drained()
        } else {
            Seq::empty()
        }
    }
}

/// The producer's state.
struct SenderCacheline {
    index: usize,
    lookahead_limit: usize,
    receiver_disconnected: bool,
}

/// The consumer's state.
struct ReceiverCacheline {
    index: usize,
    producer_disconnected: bool,
}

/// A slot in the queue, which holds a value or is free.
pub struct Slot<T> {
    value: Option<T>,
}

impl<T> Slot<T> {
    /// What the slot holds.
    pub closed spec fn content(&self) -> Option<T> {
        self.value
    }

    /// Whether the slot holds a value.
    fn has_value(&self) -> (r: bool)
        ensures
            r == self.content() is Some,
    {
        self.value.is_some()
    }

    /// Moves the value out of the slot, if there is one, leaving it free.
    fn take(&mut self) -> (r: Option<T>)
        ensures
            r == old(self).content(),
            final(self).content() is None,
    {
        self.value.take()
    }

    /// Writes the given value into this slot.
    fn write(&mut self, val: T)
        ensures
            final(self).content() == Some(val),
    {
        self.value = Some(val);
    }
}

/// The queue: a power-of-two ring of slots with the producer and consumer
/// positions and their connection flags.
pub struct Buffer<T> {
    storage: Vec<Slot<T>>,
    mask: usize,
    lookahead: usize,
    sender: SenderCacheline,
    receiver: ReceiverCacheline,
}

impl<T> View for Buffer<T> {
    type V = QueueState<T>;

    closed spec fn view(&self) -> QueueState<T> {
        QueueState {
            contents: ring_view(self.slots(), self.receiver.index as int, self.sender.index as int),
            capacity: self.storage@.len(),
            lookahead: self.lookahead as nat,
            sent: self.sender.index as nat,
            limit: self.sender.lookahead_limit as nat,
            sender_gone: self.receiver.producer_disconnected,
            receiver_gone: self.sender.receiver_disconnected,
        }
    }
}

impl<T> Buffer<T> {
    /// The slots, by index.
    closed spec fn slots(&self) -> Seq<Option<T>> {
        self.storage@.map_values(|s: Slot<T>| s.value)
    }

    /// The queue is well formed: the positions `[received, sent)` hold the
    /// queued values, the other slots are free, and every position below the
    /// limit is free or queued.
    pub closed spec fn wf(&self) -> bool {
        &&& is_power_of_two(self.storage@.len())
        &&& self.storage@.len() <= usize::MAX
        &&& self.mask == self.storage@.len() - 1
        &&& self.lookahead == self.storage@.len() / 4
        &&& self.sender.lookahead_limit <= self.receiver.index + self.storage@.len()
        &&& ring_wf(self.slots(), self.receiver.index as int, self.sender.index as int)
    }

    /// A well-formed queue has a well-formed state.
    pub proof fn lemma_wf_view(&self)
        requires
            self.wf(),
        ensures
            self@.wf(),
    {
    }

    proof fn lemma_cap_pos(&self)
        requires
            is_power_of_two(self.storage@.len()),
            self.storage@.len() <= usize::MAX,
        ensures
            self.storage@.len() > 0,
            self.slots().len() == self.storage@.len(),
    {
        lemma_mask_is_mod(0, self.storage@.len() as usize);
    }

    /// Maps a position to the index of its slot.
    fn index_of(&self, index: usize) -> (i: usize)
        requires
            is_power_of_two(self.storage@.len()),
            self.storage@.len() <= usize::MAX,
            self.mask == self.storage@.len() - 1,
        ensures
            i == (index as int) % (self.storage@.len() as int),
            i < self.storage@.len(),
    {
        proof {
            self.lemma_cap_pos();
            lemma_mask_is_mod(index, self.storage@.len() as usize);
        }
        index & self.mask
    }

    /// Whether there is room to send at position `tail`. The slot
    /// `lookahead` positions ahead is checked first: when it is free, the
    /// limit moves up to it. Otherwise the slot at `tail` itself is checked.
    fn has_space(&mut self, tail: usize) -> (r: bool)
        requires
            old(self).wf(),
            tail == old(self)@.sent,
            tail + old(self)@.lookahead <= usize::MAX,
        ensures
            final(self).wf(),
            r == !old(self)@.is_full(),
            final(self)@ == (QueueState {
                limit: if old(self)@.contents.len() + old(self)@.lookahead < old(self)@.capacity {
                    tail + old(self)@.lookahead
                } else {
                    old(self)@.limit as int
                } as nat,
                ..old(self)@
            }),
    {
        proof {
            self.lemma_cap_pos();
            lemma_slot_ahead_of_tail(self.slots(), self.receiver.index as int, tail as int, self.lookahead as int);
            lemma_slot_ahead_of_tail(self.slots(), self.receiver.index as int, tail as int, 0);
        }
        let index = self.index_of(tail + self.lookahead);
        if !self.storage[index].has_value() {
            self.sender.lookahead_limit = tail + self.lookahead;
            true
        } else {
            let index = self.index_of(tail);
            !self.storage[index].has_value()
        }
    }

    /// Attempts to push a value onto the queue. Fails if the receiver has
    /// gone away or the queue is full.
    pub fn try_send(&mut self, val: T) -> (r: Result<(), TrySendError<T>>)
        requires
            old(self).wf(),
            old(self)@.send_fits(),
        ensures
            final(self).wf(),
            final(self)@ == old(self)@.send(val).0,
            r == old(self)@.send(val).1,
    {
        if self.sender.receiver_disconnected {
            return Err(TrySendError::Disconnected(val));
        }
        let tail = self.sender.index;
        if tail >= self.sender.lookahead_limit && !self.has_space(tail) {
            return Err(TrySendError::Full(val));
        }
        proof {
            self.lemma_cap_pos();
            lemma_slot_ahead_of_tail(self.slots(), self.receiver.index as int, tail as int, 0);
            lemma_ring_push(self.slots(), self.receiver.index as int, tail as int, val);
        }
        let index = self.index_of(tail);
        let ghost before = self.slots();
        self.storage[index].write(val);
        proof {
            assert(self.slots() =~= before.update(index as int, Some(val)));
        }
        self.sender.index = tail + 1;
        Ok(())
    }

    /// Attempts to receive the oldest value. Fails if the queue is empty,
    /// with `Disconnected` once the sender has gone away.
    pub fn try_recv(&mut self) -> (r: Result<T, TryRecvError>)
        requires
            old(self).wf(),
        ensures
            final(self).wf(),
            final(self)@ == old(self)@.recv().0,
            r == old(self)@.recv().1,
    {
        let head = self.receiver.index;
        proof {
            self.lemma_cap_pos();
            lemma_slot_at_head(self.slots(), head as int, self.sender.index as int);
        }
        let index = self.index_of(head);
        let ghost before = self.slots();
        if let Some(val) = self.storage[index].take() {
            proof {
                assert(self.slots() =~= before.update(index as int, None));
                lemma_ring_pop(before, head as int, self.sender.index as int);
            }
            self.receiver.index = head + 1;
            Ok(val)
        } else {
            proof {
                assert(self.slots() =~= before);
            }
            if self.receiver.producer_disconnected {
                Err(TryRecvError::Disconnected)
            } else {
                Err(TryRecvError::Empty)
            }
        }
    }

    /// Whether a send's position arithmetic fits in a `usize`, so that
    /// `try_send` may be called.
    pub fn send_fits(&self) -> (r: bool)
        requires
            self.wf(),
        ensures
            r == self@.send_fits(),
    {
        if self.sender.receiver_disconnected {
            return true;
        }
        let tail = self.sender.index;
        let limit_fits = tail < self.sender.lookahead_limit || tail <= usize::MAX - self.lookahead;
        let step_fits = self.is_full() || tail < usize::MAX;
        limit_fits && step_fits
    }

    /// Returns true if all senders for this queue have been dropped.
    pub fn is_disconnected(&self) -> (r: bool)
        ensures
            r == self@.sender_gone,
    {
        self.receiver.producer_disconnected
    }

    /// Returns true if the queue is empty.
    pub fn is_empty(&self) -> (r: bool)
        requires
            self.wf(),
        ensures
            r == (self@.contents.len() == 0),
    {
        self.len() == 0
    }

    /// Returns true if the queue is full.
    pub fn is_full(&self) -> (r: bool)
        requires
            self.wf(),
        ensures
            r == self@.is_full(),
    {
        self.len() == self.capacity()
    }

    /// Returns the number of values in the queue.
    pub fn len(&self) -> (r: usize)
        requires
            self.wf(),
        ensures
            r == self@.contents.len(),
    {
        self.sender.index.saturating_sub(self.receiver.index)
    }

    /// Returns the capacity of the queue.
    pub fn capacity(&self) -> (r: usize)
        ensures
            r == self@.capacity,
    {
        self.storage.len()
    }

    /// The sending side goes away.
    pub fn drop_sender(&mut self)
        requires
            old(self).wf(),
        ensures
            final(self).wf(),
            final(self)@ == (QueueState { sender_gone: true, ..old(self)@ }),
    {
        self.receiver.producer_disconnected = true;
    }

    /// The receiving side goes away.
    pub fn drop_receiver(&mut self)
        requires
            old(self).wf(),
        ensures
            final(self).wf(),
            final(self)@ == (QueueState { receiver_gone: true, ..old(self)@ }),
    {
        self.sender.receiver_disconnected = true;
    }
}

/// Creates a queue whose capacity is `capacity` rounded up to the next
/// power of two, looking a quarter of it ahead.
pub fn bounded<T>(capacity: usize) -> (q: Buffer<T>)
    requires
        capacity <= max_pow2_request(),
    ensures
        q.wf(),
        is_next_power_of_two(capacity as nat, q@.capacity),
        q@ == (QueueState {
            contents: Seq::<T>::empty(),
            capacity: q@.capacity,
            lookahead: q@.capacity / 4,
            sent: 0,
            limit: q@.capacity,
            sender_gone: false,
            receiver_gone: false,
        }),
{
    let capacity = next_power_of_two(capacity);
    let mut storage: Vec<Slot<T>> = Vec::new();
    let mut i: usize = 0;
    while i < capacity
        invariant
            i <= capacity,
            storage@.len() == i,
            forall|j: int| 0 <= j < i ==> (#[trigger] storage@[j]).value is None,
        decreases capacity - i,
    {
        storage.push(Slot { value: None });
        i = i + 1;
    }
    let q = Buffer {
        storage,
        mask: capacity - 1,
        lookahead: capacity / 4,
        sender: SenderCacheline { index: 0, lookahead_limit: capacity, receiver_disconnected: false },
        receiver: ReceiverCacheline { index: 0, producer_disconnected: false },
    };
    proof {
        q.lemma_cap_pos();
        assert forall|j: int| 0 <= j < q.slots().len() implies (#[trigger] q.slots()[j]) is None by {
            assert(q.storage@[j].value is None);
        }
        lemma_ring_empty(q.slots(), 0);
    }
    q
}

/// Every operation keeps the state of a queue well formed.
pub proof fn law_operations_keep_state_wf<T>(s: QueueState<T>, val: T)
    requires
        s.wf(),
        s.send_fits(),
    ensures
        s.send(val).0.wf(),
        s.recv().0.wf(),
        (QueueState { sender_gone: true, ..s }).wf(),
        (QueueState { receiver_gone: true, ..s }).wf(),
{
}

/// A send changes the contents only by appending the value, and never
/// takes the queue past its capacity.
pub proof fn law_send_appends_within_capacity<T>(s: QueueState<T>, val: T)
    requires
        s.wf(),
    ensures
        s.send(val).1 is Ok ==> s.send(val).0.contents == s.contents.push(val),
        s.send(val).1 is Err ==> s.send(val).0 == s,
        s.send(val).0.contents.len() <= s.capacity,
{
}

/// Values leave a queue in the order they entered it: receiving until the
/// queue is empty returns exactly its contents, oldest first.
pub proof fn law_receives_return_contents_in_order<T>(s: QueueState<T>)
    ensures
        s.drained() == s.contents,
    decreases s.contents.len(),
{
    if s.contents.len() > 0 {
        law_receives_return_contents_in_order(s.recv().0);
        assert(seq![s.contents[0]] + s.contents.drop_first() =~= s.contents);
    }
}

/// A value sent to a queue with room comes out after every value already
/// in it.
pub proof fn law_sent_value_comes_out_last<T>(s: QueueState<T>, val: T)
    requires
        !s.receiver_gone,
        !s.is_full(),
    ensures
        s.send(val).1 is Ok,
        s.send(val).0.drained() == s.contents.push(val),
{
    law_receives_return_contents_in_order(s.send(val).0);
}

/// Sending a value to an empty queue and then receiving gives the value
/// back and leaves the queue empty.
pub proof fn law_send_then_recv<T>(s: QueueState<T>, val: T)
    requires
        s.wf(),
        s.contents.len() == 0,
        !s.receiver_gone,
    ensures
        s.send(val).1 is Ok,
        s.send(val).0.recv().1 == Ok::<T, TryRecvError>(val),
        s.send(val).0.recv().0.contents.len() == 0,
{
    lemma_power_of_two_pos(s.capacity);
}

/// A send fails with `Full` exactly when the queue is full (and the
/// receiver is still there); the value then comes back and nothing changes.
pub proof fn law_send_full_exactly_when_full<T>(s: QueueState<T>, val: T)
    requires
        !s.receiver_gone,
    ensures
        s.is_full() ==> s.send(val) == (s, Err::<(), TrySendError<T>>(TrySendError::Full(val))),
        !s.is_full() ==> s.send(val).1 == Ok::<(), TrySendError<T>>(()),
{
}

/// Once the receiver has gone away, every send fails with `Disconnected`,
/// hands the value back, and changes nothing.
pub proof fn law_gone_receiver_refuses<T>(s: QueueState<T>, val: T)
    requires
        s.receiver_gone,
    ensures
        s.send(val) == (s, Err::<(), TrySendError<T>>(TrySendError::Disconnected(val))),
{
}

/// Once the sender has gone away, the values already queued are still
/// received in order, and then every receive fails with `Disconnected`.
pub proof fn law_gone_sender_still_delivers<T>(s: QueueState<T>)
    requires
        s.sender_gone,
    ensures
        s.drained() == s.contents,
        s.contents.len() == 0 ==> s.recv() == (s, Err::<T, TryRecvError>(TryRecvError::Disconnected)),
        s.recv().0.sender_gone,
{
    law_receives_return_contents_in_order(s);
}

/// While the sender is there, receiving from an empty queue fails with
/// `Empty` and changes nothing.
pub proof fn law_empty_queue_recv<T>(s: QueueState<T>)
    requires
        !s.sender_gone,
        s.contents.len() == 0,
    ensures
        s.recv() == (s, Err::<T, TryRecvError>(TryRecvError::Empty)),
{
}

/// A send never changes the capacity, the lookahead, or whether either
/// side has gone away; a failed send changes nothing at all.
pub proof fn law_send_keeps_settings<T>(s: QueueState<T>, val: T)
    ensures
        s.send(val).0.capacity == s.capacity,
        s.send(val).0.lookahead == s.lookahead,
        s.send(val).0.sender_gone == s.sender_gone,
        s.send(val).0.receiver_gone == s.receiver_gone,
        s.send(val).1 is Err ==> s.send(val).0 == s,
        s.send(val).1 is Ok ==> s.send(val).0.sent == s.sent + 1,
{
}

/// While the receiver is there, no send reports `Disconnected`, and a queue
/// with room for two more values takes two sends in a row, in order.
pub proof fn law_live_receiver_takes_sends<T>(s: QueueState<T>, a: T, b: T)
    requires
        !s.receiver_gone,
    ensures
        !(s.send(a).1 matches Err(TrySendError::Disconnected(_))),
        s.contents.len() + 2 <= s.capacity ==> {
            &&& s.send(a).1 is Ok
            &&& s.send(a).0.send(b).1 is Ok
            &&& s.send(a).0.send(b).0.contents == s.contents.push(a).push(b)
        },
{
}

/// Receiving from a queue that holds values returns the oldest one and
/// removes it; a receive never reports `Disconnected` while the sender is
/// there, and one that fails finds the queue empty and changes nothing.
/// A receive never changes the capacity, the producer's position or limit,
/// or whether either side has gone away.
pub proof fn law_recv_returns_oldest<T>(s: QueueState<T>)
    ensures
        s.contents.len() > 0 ==> s.recv().1 == Ok::<T, TryRecvError>(s.contents[0]),
        s.contents.len() > 0 ==> s.recv().0.contents == s.contents.drop_first(),
        !s.sender_gone ==> s.recv().1 != Err::<T, TryRecvError>(TryRecvError::Disconnected),
        s.recv().1 is Err ==> s.contents.len() == 0 && s.recv().0 == s,
        s.recv().0.capacity == s.capacity,
        s.recv().0.lookahead == s.lookahead,
        s.recv().0.sent == s.sent,
        s.recv().0.limit == s.limit,
        s.recv().0.sender_gone == s.sender_gone,
        s.recv().0.receiver_gone == s.receiver_gone,
{
}

/// Two values sent to an empty queue with room for both come back, in the
/// order they were sent, from the next two receives.
pub proof fn law_two_sends_two_receives<T>(s: QueueState<T>, a: T, b: T)
    requires
        s.contents.len() == 0,
        s.capacity >= 2,
        !s.receiver_gone,
    ensures
        s.send(a).0.send(b).0.recv().1 == Ok::<T, TryRecvError>(a),
        s.send(a).0.send(b).0.recv().0.recv().1 == Ok::<T, TryRecvError>(b),
        s.send(a).0.send(b).0.recv().0.recv().0.contents.len() == 0,
{
    let s2 = s.send(a).0.send(b).0;
    assert(s2.contents =~= seq![a, b]);
    assert(s2.recv().0.contents =~= seq![b]);
}

} // verus!
