//! The interface of the bounded queues.

use vstd::prelude::*;

verus! {

/// The queued values and the reply after offering `val` to a queue that
/// holds `queued` and room for `max_size` values: the value is appended if
/// there is room, and handed back otherwise.
pub open spec fn offer_outcome<T>(queued: Seq<T>, max_size: nat, val: T) -> (Seq<T>, Option<T>) {
    if queued.len() < max_size {
        (queued.push(val), None)
    } else {
        (queued, Some(val))
    }
}

/// The queued values and the reply after polling a queue that holds
/// `queued`: the oldest value is removed and returned, if there is one.
pub open spec fn poll_outcome<T>(queued: Seq<T>) -> (Seq<T>, Option<T>) {
    if queued.len() > 0 {
        (queued.drop_first(), Some(queued[0]))
    } else {
        (queued, None)
    }
}

/// The values that polling a queue holding `queued` until it is empty
/// returns, in the order they come out.
pub open spec fn drained<T>(queued: Seq<T>) -> Seq<T>
    decreases queued.len(),
{
    if queued.len() > 0 {
        seq![poll_outcome(queued).1->0] + drained(poll_outcome(queued).0)
    } else {
        Seq::empty()
    }
}

/// A bounded first-in first-out queue.
pub trait ConcurrentQueue<T>: Sized {
    /// The queue is well formed.
    spec fn inv(&self) -> bool;

    /// The queued values, oldest first.
    spec fn queued(&self) -> Seq<T>;

    /// The most values the queue holds at once.
    spec fn max_size(&self) -> nat;

    /// How many values the queue has accepted so far.
    spec fn offered(&self) -> nat;

    /// A well-formed queue never holds more values than its capacity,
    /// and has room for at least one.
    proof fn lemma_size_bounded(&self)
        requires
            self.inv(),
        ensures
            self.queued().len() <= self.max_size(),
            self.max_size() > 0,
    ;

    /// Whether an offer's position arithmetic fits in a `usize`, so that
    /// `offer` may be called.
    fn offer_fits(&self) -> (r: bool)
        requires
            self.inv(),
        ensures
            r == (self.queued().len() < self.max_size() ==> self.offered() < usize::MAX),
    ;

    /// Tries to put a value onto the queue.
    ///
    /// If the queue is not full, the value is appended and `None` comes
    /// back. If it is full, the queue is unchanged and `Some(val)` comes back.
    fn offer(&mut self, val: T) -> (r: Option<T>)
        requires
            old(self).inv(),
            old(self).queued().len() < old(self).max_size() ==> old(self).offered() < usize::MAX,
        ensures
            final(self).inv(),
            final(self).max_size() == old(self).max_size(),
            final(self).queued() == offer_outcome(old(self).queued(), old(self).max_size(), val).0,
            r == offer_outcome(old(self).queued(), old(self).max_size(), val).1,
            final(self).offered() == old(self).offered() + if r is None { 1int } else { 0int },
    ;

    /// Tries to remove the oldest value from the queue.
    ///
    /// If the queue is not empty, its oldest value is removed and returned.
    /// If it is empty, `None` comes back.
    fn poll(&mut self) -> (r: Option<T>)
        requires
            old(self).inv(),
        ensures
            final(self).inv(),
            final(self).max_size() == old(self).max_size(),
            final(self).offered() == old(self).offered(),
            final(self).queued() == poll_outcome(old(self).queued()).0,
            r == poll_outcome(old(self).queued()).1,
    ;

    /// Returns the capacity of the queue.
    fn capacity(&self) -> (r: usize)
        requires
            self.inv(),
        ensures
            r == self.max_size(),
    ;

    /// Returns how many values are in the queue.
    fn size(&self) -> (r: usize)
        requires
            self.inv(),
        ensures
            r == self.queued().len(),
    ;

    /// Tells whether the queue is empty.
    fn is_empty(&self) -> (r: bool)
        requires
            self.inv(),
        ensures
            r == (self.queued().len() == 0),
    {
        self.size() == 0
    }

    /// Tells whether the queue is full.
    fn is_full(&self) -> (r: bool)
        requires
            self.inv(),
        ensures
            r == (self.queued().len() == self.max_size()),
    {
        self.capacity() == self.size()
    }
}

/// Values leave a queue in the order they entered it: polling until empty
/// returns exactly the queued values, oldest first.
pub proof fn law_polls_return_queued_in_order<T>(queued: Seq<T>)
    ensures
        drained(queued) == queued,
    decreases queued.len(),
{
    if queued.len() > 0 {
        law_polls_return_queued_in_order(queued.drop_first());
        assert(seq![queued[0]] + queued.drop_first() =~= queued);
    }
}

/// A value offered to a queue with room comes out after every value
/// already in it.
pub proof fn law_offered_value_comes_out_last<T>(queued: Seq<T>, max_size: nat, val: T)
    requires
        queued.len() < max_size,
    ensures
        offer_outcome(queued, max_size, val).1 is None,
        drained(offer_outcome(queued, max_size, val).0) == queued.push(val),
{
    law_polls_return_queued_in_order(queued.push(val));
}

/// Offering a value to an empty queue and then polling gives the value back
/// and leaves the queue empty.
pub proof fn law_offer_then_poll<T>(max_size: nat, val: T)
    requires
        max_size > 0,
    ensures
        offer_outcome(Seq::<T>::empty(), max_size, val).1 is None,
        poll_outcome(offer_outcome(Seq::<T>::empty(), max_size, val).0) == (Seq::<T>::empty(), Some(val)),
{
    assert(seq![val].drop_first() =~= Seq::<T>::empty());
}

/// A full queue refuses a value: it hands the value back and keeps what it holds.
pub proof fn law_full_queue_refuses<T>(queued: Seq<T>, max_size: nat, val: T)
    requires
        queued.len() >= max_size,
    ensures
        offer_outcome(queued, max_size, val) == (queued, Some(val)),
{
}

/// Polling an empty queue returns nothing and leaves it empty.
pub proof fn law_empty_queue_gives_nothing<T>()
    ensures
        poll_outcome(Seq::<T>::empty()) == (Seq::<T>::empty(), None::<T>),
{
}

/// Offering never takes a queue past its capacity.
pub proof fn law_offer_keeps_bound<T>(queued: Seq<T>, max_size: nat, val: T)
    requires
        queued.len() <= max_size,
    ensures
        offer_outcome(queued, max_size, val).0.len() <= max_size,
        poll_outcome(queued).0.len() <= max_size,
{
}

} // verus!
