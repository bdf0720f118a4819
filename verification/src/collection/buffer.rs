//! The ring buffer shared by the queues of this module.

use crate::pow2::{is_next_power_of_two, is_power_of_two, lemma_mask_is_mod, max_pow2_request, next_power_of_two};
use crate::ring::{lemma_ring_empty, ring_view, ring_wf, slot_at};
use vstd::prelude::*;

verus! {

/// A data item: a slot that either holds a value ready to be consumed or
/// is free.
pub struct Item<T> {
    value: Option<T>,
}

impl<T> Item<T> {
    /// What the slot holds.
    pub closed spec fn content(&self) -> Option<T> {
        self.value
    }

    /// Whether the slot holds a value that can be consumed.
    pub fn is_defined(&self) -> (r: bool)
        ensures
            r == self.content() is Some,
    {
        self.value.is_some()
    }
}

/// The implementation-agnostic representation of a bounded queue: the
/// producer and consumer positions, and a power-of-two number of items.
///
/// Positions only grow; position `p` lives in item `p & mask`, which is
/// `p % capacity`.
pub struct Buffer<T> {
    tail: usize,
    head: usize,
    capacity: usize,
    mask: usize,
    items: Vec<Item<T>>,
}

impl<T> Buffer<T> {
    /// The slots, by item index.
    pub closed spec fn slots(&self) -> Seq<Option<T>> {
        self.items@.map_values(|it: Item<T>| it.value)
    }

    /// The consumer position.
    pub closed spec fn head_pos(&self) -> nat {
        self.head as nat
    }

    /// The producer position.
    pub closed spec fn tail_pos(&self) -> nat {
        self.tail as nat
    }

    /// The number of items.
    pub closed spec fn cap(&self) -> nat {
        self.capacity as nat
    }

    /// The mask and the item vector agree with the capacity.
    pub closed spec fn shape_ok(&self) -> bool {
        &&& self.items@.len() == self.capacity
        &&& self.mask == self.capacity - 1
        &&& is_power_of_two(self.capacity as nat)
    }

    /// The buffer is well formed: the positions `[head, tail)` hold the
    /// queued values and all other items are free.
    pub open spec fn wf(&self) -> bool {
        &&& self.shape_ok()
        &&& self.slots().len() == self.cap()
        &&& is_power_of_two(self.cap())
        &&& self.tail_pos() <= usize::MAX
        &&& ring_wf(self.slots(), self.head_pos() as int, self.tail_pos() as int)
    }

    /// The queued values, oldest first.
    pub open spec fn contents(&self) -> Seq<T> {
        ring_view(self.slots(), self.head_pos() as int, self.tail_pos() as int)
    }

    proof fn lemma_slots_len(&self)
        requires
            self.shape_ok(),
        ensures
            self.slots().len() == self.cap(),
            self.cap() > 0,
    {
        lemma_mask_is_mod(0, self.capacity);
    }

    /// Creates a buffer whose capacity is `min_capacity` rounded up to the
    /// next power of two.
    pub fn with_capacity(min_capacity: usize) -> (b: Buffer<T>)
        requires
            min_capacity <= max_pow2_request(),
        ensures
            b.wf(),
            is_next_power_of_two(min_capacity as nat, b.cap()),
            b.contents() == Seq::<T>::empty(),
            b.head_pos() == 0,
            b.tail_pos() == 0,
    {
        let capacity = next_power_of_two(min_capacity);
        let items = allocate_buffer(capacity);
        let b = Buffer { tail: 0, head: 0, capacity, mask: capacity - 1, items };
        proof {
            b.lemma_slots_len();
            assert forall|i: int| 0 <= i < b.slots().len() implies (#[trigger] b.slots()[i]) is None by {
                assert(b.items@[i].value is None);
            }
            lemma_ring_empty(b.slots(), 0);
        }
        b
    }

    /// Returns the capacity.
    pub fn capacity(&self) -> (r: usize)
        ensures
            r == self.cap(),
    {
        self.capacity
    }

    /// Returns the consumer position.
    pub fn head(&self) -> (r: usize)
        ensures
            r == self.head_pos(),
    {
        self.head
    }

    /// Returns the producer position.
    pub fn tail(&self) -> (r: usize)
        ensures
            r == self.tail_pos(),
    {
        self.tail
    }

    /// Sets the consumer position.
    pub fn set_head(&mut self, head: usize)
        ensures
            final(self).head_pos() == head,
            final(self).tail_pos() == old(self).tail_pos(),
            final(self).slots() == old(self).slots(),
            final(self).cap() == old(self).cap(),
            final(self).shape_ok() == old(self).shape_ok(),
    {
        self.head = head;
    }

    /// Sets the producer position.
    pub fn set_tail(&mut self, tail: usize)
        ensures
            final(self).tail_pos() == tail,
            final(self).head_pos() == old(self).head_pos(),
            final(self).slots() == old(self).slots(),
            final(self).cap() == old(self).cap(),
            final(self).shape_ok() == old(self).shape_ok(),
    {
        self.tail = tail;
    }

    /// Maps a position to the index of its item.
    fn index_of(&self, index: usize) -> (i: usize)
        requires
            self.shape_ok(),
        ensures
            i == (index as int) % (self.cap() as int),
            i < self.slots().len(),
    {
        proof {
            lemma_mask_is_mod(index, self.capacity);
            self.lemma_slots_len();
        }
        index & self.mask
    }

    /// Whether the item at the given position holds a value.
    pub fn item_is_defined(&self, index: usize) -> (r: bool)
        requires
            self.shape_ok(),
        ensures
            r == slot_at(self.slots(), index as int) is Some,
    {
        let i = self.index_of(index);
        self.items[i].is_defined()
    }

    /// The value held by the item at the given position.
    pub fn item_value(&self, index: usize) -> (r: &T)
        requires
            self.shape_ok(),
            slot_at(self.slots(), index as int) is Some,
        ensures
            slot_at(self.slots(), index as int) == Some(*r),
    {
        let i = self.index_of(index);
        self.items[i].value.as_ref().unwrap()
    }

    /// Stores a value in the item at the given position.
    pub fn write_item(&mut self, index: usize, val: T)
        requires
            old(self).shape_ok(),
        ensures
            final(self).shape_ok(),
            final(self).slots() == old(self).slots().update((index as int) % (old(self).cap() as int), Some(val)),
            final(self).head_pos() == old(self).head_pos(),
            final(self).tail_pos() == old(self).tail_pos(),
            final(self).cap() == old(self).cap(),
    {
        let i = self.index_of(index);
        self.items.set(i, Item { value: Some(val) });
        proof {
            assert(self.slots() =~= old(self).slots().update(i as int, Some(val)));
        }
    }

    /// Moves the value out of the item at the given position, leaving it free.
    pub fn take_item(&mut self, index: usize) -> (r: Option<T>)
        requires
            old(self).shape_ok(),
        ensures
            final(self).shape_ok(),
            r == slot_at(old(self).slots(), index as int),
            final(self).slots() == old(self).slots().update((index as int) % (old(self).cap() as int), None),
            final(self).head_pos() == old(self).head_pos(),
            final(self).tail_pos() == old(self).tail_pos(),
            final(self).cap() == old(self).cap(),
    {
        let i = self.index_of(index);
        let mut item = Item { value: None };
        self.items.set_and_swap(i, &mut item);
        proof {
            assert(self.slots() =~= old(self).slots().update(i as int, None));
        }
        item.value
    }

    /// Uses the head and tail positions to return the number of queued values.
    pub fn size(&self) -> (r: usize)
        requires
            self.wf(),
        ensures
            r == self.contents().len(),
    {
        self.tail - self.head
    }
}

/// Allocates `capacity` free items.
fn allocate_buffer<T>(capacity: usize) -> (items: Vec<Item<T>>)
    ensures
        items@.len() == capacity,
        forall|i: int| 0 <= i < capacity ==> (#[trigger] items@[i]).value is None,
{
    let mut items: Vec<Item<T>> = Vec::new();
    let mut index: usize = 0;
    while index < capacity
        invariant
            index <= capacity,
            items@.len() == index,
            forall|i: int| 0 <= i < index ==> (#[trigger] items@[i]).value is None,
        decreases capacity - index,
    {
        items.push(Item { value: None });
        index = index + 1;
    }
    items
}

} // verus!
