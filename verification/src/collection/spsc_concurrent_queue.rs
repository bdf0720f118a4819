//! A bounded queue for a single producer and a single consumer.

use crate::collection::buffer::Buffer;
use crate::collection::concurrent_queue::ConcurrentQueue;
use crate::pow2::{is_next_power_of_two, max_pow2_request};
use crate::ring::{lemma_ring_pop, lemma_ring_push, lemma_slot_ahead_of_tail, lemma_slot_at_head};
use vstd::prelude::*;

verus! {

/// A bounded queue allowing a single producer and a single consumer.
pub struct SpscConcurrentQueue<T> {
    buffer: Buffer<T>,
}

impl<T> SpscConcurrentQueue<T> {
    /// Creates a queue whose capacity is `initial_capacity` rounded up to
    /// the next power of two.
    pub fn with_capacity(initial_capacity: usize) -> (q: SpscConcurrentQueue<T>)
        requires
            initial_capacity <= max_pow2_request(),
        ensures
            q.inv(),
            is_next_power_of_two(initial_capacity as nat, q.max_size()),
            q.queued() == Seq::<T>::empty(),
            q.offered() == 0,
    {
        SpscConcurrentQueue { buffer: Buffer::with_capacity(initial_capacity) }
    }
}

impl<T: Clone> SpscConcurrentQueue<T> {
    /// Returns a clone of the oldest value without removing it, or `None`
    /// if the queue is empty.
    pub fn peek(&self) -> (r: Option<T>)
        requires
            self.inv(),
        ensures
            self.queued().len() == 0 ==> r is None,
            self.queued().len() > 0 ==> r is Some && cloned(self.queued()[0], r->0),
    {
        let index = self.buffer.head();
        proof {
            lemma_slot_at_head(self.buffer.slots(), index as int, self.buffer.tail_pos() as int);
        }
        if self.buffer.item_is_defined(index) {
            Some(self.buffer.item_value(index).clone())
        } else {
            None
        }
    }
}

impl<T> ConcurrentQueue<T> for SpscConcurrentQueue<T> {
    closed spec fn inv(&self) -> bool {
        self.buffer.wf()
    }

    closed spec fn queued(&self) -> Seq<T> {
        self.buffer.contents()
    }

    closed spec fn max_size(&self) -> nat {
        self.buffer.cap()
    }

    closed spec fn offered(&self) -> nat {
        self.buffer.tail_pos()
    }

    proof fn lemma_size_bounded(&self) {
    }

    /// Puts a value at the tail: the item there is free unless the queue is full.
    fn offer(&mut self, val: T) -> (r: Option<T>) {
        let index = self.buffer.tail();
        proof {
            lemma_slot_ahead_of_tail(self.buffer.slots(), self.buffer.head_pos() as int, index as int, 0);
        }
        if self.buffer.item_is_defined(index) {
            return Some(val);
        }
        proof {
            lemma_ring_push(self.buffer.slots(), self.buffer.head_pos() as int, index as int, val);
        }
        self.buffer.set_tail(index + 1);
        self.buffer.write_item(index, val);
        None
    }

    /// Takes the value at the head: the item there holds one unless the queue is empty.
    fn poll(&mut self) -> (r: Option<T>) {
        let index = self.buffer.head();
        proof {
            lemma_slot_at_head(self.buffer.slots(), index as int, self.buffer.tail_pos() as int);
        }
        if !self.buffer.item_is_defined(index) {
            return None;
        }
        proof {
            lemma_ring_pop(self.buffer.slots(), index as int, self.buffer.tail_pos() as int);
        }
        self.buffer.set_head(index + 1);
        self.buffer.take_item(index)
    }

    fn offer_fits(&self) -> (r: bool) {
        self.buffer.size() == self.buffer.capacity() || self.buffer.tail() < usize::MAX
    }

    fn capacity(&self) -> (r: usize) {
        self.buffer.capacity()
    }

    fn size(&self) -> (r: usize) {
        self.buffer.size()
    }
}

} // verus!
