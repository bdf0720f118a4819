//! A bounded queue for a single producer and several consumers.

use crate::collection::buffer::Buffer;
use crate::collection::concurrent_queue::ConcurrentQueue;
use crate::pow2::{is_next_power_of_two, max_pow2_request};
use crate::ring::{lemma_ring_pop, lemma_ring_push, lemma_slot_ahead_of_tail, lemma_slot_at_head};
use vstd::prelude::*;

verus! {

/// A bounded queue allowing a single producer and multiple consumers.
///
/// Consumers read the producer position through `tail_cache`, a copy of it
/// that is refreshed only when the consumers catch up with it.
pub struct SpmcConcurrentQueue<T> {
    buffer: Buffer<T>,
    tail_cache: usize,
}

impl<T> SpmcConcurrentQueue<T> {
    /// Creates a queue whose capacity is `initial_capacity` rounded up to
    /// the next power of two.
    pub fn with_capacity(initial_capacity: usize) -> (q: SpmcConcurrentQueue<T>)
        requires
            initial_capacity <= max_pow2_request(),
        ensures
            q.inv(),
            is_next_power_of_two(initial_capacity as nat, q.max_size()),
            q.queued() == Seq::<T>::empty(),
            q.offered() == 0,
    {
        SpmcConcurrentQueue { buffer: Buffer::with_capacity(initial_capacity), tail_cache: 0 }
    }

    /// The cached producer position.
    pub closed spec fn cached_tail(&self) -> nat {
        self.tail_cache as nat
    }

    /// The cached producer position never runs ahead of the real one, so a
    /// consumer below it always finds a value.
    pub proof fn lemma_cached_tail_behind(&self)
        requires
            self.inv(),
        ensures
            self.cached_tail() <= self.offered(),
    {
    }
}

/// Moves the consumer position from `head` to `head + 1` if it is still
/// `head`, and tells whether it did.
fn cas_head<T>(q: &mut SpmcConcurrentQueue<T>, head: usize) -> (r: bool)
    requires
        head < usize::MAX,
    ensures
        r == (old(q).buffer.head_pos() == head),
        r ==> final(q).buffer.head_pos() == head + 1,
        !r ==> final(q).buffer.head_pos() == old(q).buffer.head_pos(),
        final(q).buffer.tail_pos() == old(q).buffer.tail_pos(),
        final(q).buffer.slots() == old(q).buffer.slots(),
        final(q).buffer.cap() == old(q).buffer.cap(),
        final(q).buffer.shape_ok() == old(q).buffer.shape_ok(),
        final(q).tail_cache == old(q).tail_cache,
{
    if q.buffer.head() == head {
        q.buffer.set_head(head + 1);
        true
    } else {
        false
    }
}

impl<T> ConcurrentQueue<T> for SpmcConcurrentQueue<T> {
    closed spec fn inv(&self) -> bool {
        &&& self.buffer.wf()
        &&& self.tail_cache <= self.buffer.tail_pos()
    }

    closed spec fn queued(&self) -> Seq<T> {
        self.buffer.contents()
    }

    closed spec fn max_size(&self) -> nat {
        self.buffer.cap()
    }

    closed spec fn offered(&self) -> nat {
        self.buffer.tail_pos()
    }

    proof fn lemma_size_bounded(&self) {
    }

    /// Puts a value at the tail: the item there is free unless the queue is
    /// full. Only the producer position is read and written.
    fn offer(&mut self, val: T) -> (r: Option<T>) {
        let index = self.buffer.tail();
        proof {
            lemma_slot_ahead_of_tail(self.buffer.slots(), self.buffer.head_pos() as int, index as int, 0);
        }
        if self.buffer.item_is_defined(index) {
            return Some(val);
        }
        proof {
            lemma_ring_push(self.buffer.slots(), self.buffer.head_pos() as int, index as int, val);
        }
        self.buffer.write_item(index, val);
        self.buffer.set_tail(index + 1);
        None
    }

    /// Claims the value at the head. The producer position is read afresh
    /// only when the head has caught up with the cached copy of it.
    fn poll(&mut self) -> (r: Option<T>) {
        let index = self.buffer.head();
        let current_tail_cache = self.tail_cache;
        if index >= current_tail_cache {
            let current_tail = self.buffer.tail();
            if index >= current_tail {
                return None;
            }
            self.tail_cache = current_tail;
        }
        proof {
            lemma_slot_at_head(self.buffer.slots(), index as int, self.buffer.tail_pos() as int);
            lemma_ring_pop(self.buffer.slots(), index as int, self.buffer.tail_pos() as int);
        }
        let claimed = cas_head(self, index);
        proof {
            assert(claimed);
        }
        self.buffer.take_item(index)
    }

    fn offer_fits(&self) -> (r: bool) {
        self.buffer.size() == self.buffer.capacity() || self.buffer.tail() < usize::MAX
    }

    fn capacity(&self) -> (r: usize) {
        self.buffer.capacity()
    }

    fn size(&self) -> (r: usize) {
        self.buffer.size()
    }
}

} // verus!
