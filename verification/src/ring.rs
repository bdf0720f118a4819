//! The mathematical model of a ring of slots.
//!
//! A ring is a sequence of `n` slots together with two unbounded positions,
//! `head <= tail`. The position `p` lives in slot `p % n`; the positions in
//! `[head, tail)` hold the queued values, oldest first, and every other slot
//! is empty.

use vstd::prelude::*;

verus! {

/// The slot that position `p` maps to.
pub open spec fn slot_at<T>(slots: Seq<Option<T>>, p: int) -> Option<T> {
    slots[p % (slots.len() as int)]
}

/// The occupied positions are exactly `[head, tail)`, and they fit in the ring.
pub open spec fn ring_wf<T>(slots: Seq<Option<T>>, head: int, tail: int) -> bool {
    &&& slots.len() > 0
    &&& 0 <= head <= tail <= head + slots.len()
    &&& forall|p: int| head <= p < tail ==> (#[trigger] slot_at(slots, p)) is Some
    &&& forall|p: int| tail <= p < head + slots.len() ==> (#[trigger] slot_at(slots, p)) is None
}

/// The queued values, oldest first.
pub open spec fn ring_view<T>(slots: Seq<Option<T>>, head: int, tail: int) -> Seq<T> {
    Seq::new((tail - head) as nat, |i: int| slot_at(slots, head + i)->0)
}

/// Two distinct positions less than `n` apart map to distinct slots.
pub proof fn lemma_distinct_slots(a: int, b: int, n: int)
    requires
        n > 0,
        a < b < a + n,
    ensures
        a % n != b % n,
{
    assert(a % n != b % n) by (nonlinear_arith)
        requires
            n > 0,
            a < b < a + n,
    {
        let qa = a / n;
        let qb = b / n;
        assert(a == n * qa + a % n);
        assert(b == n * qb + b % n);
        if a % n == b % n {
            assert(b - a == n * (qb - qa));
            if qb - qa <= 0 {
                assert(n * (qb - qa) <= 0);
            } else {
                assert(n * (qb - qa) >= n);
            }
        }
    };
}

/// A position and the one a full turn later map to the same slot.
pub proof fn lemma_turn_same_slot(p: int, n: int)
    requires
        n > 0,
    ensures
        (p + n) % n == p % n,
{
    assert((p + n) % n == p % n) by (nonlinear_arith)
        requires
            n > 0,
    {
        let q = p / n;
        assert(p == n * q + p % n);
        assert(p + n == n * (q + 1) + p % n);
        assert(0 <= p % n < n);
    };
}

/// The slot `d` positions past the tail is occupied exactly when the ring
/// holds at least `n - d` values.
pub proof fn lemma_slot_ahead_of_tail<T>(slots: Seq<Option<T>>, head: int, tail: int, d: int)
    requires
        ring_wf(slots, head, tail),
        0 <= d < slots.len(),
    ensures
        (slot_at(slots, tail + d) is Some) <==> (tail - head + d >= slots.len()),
{
    let n = slots.len() as int;
    let q = tail + d;
    if q < head + n {
        assert(slot_at(slots, q) is None);
    } else {
        lemma_turn_same_slot(q - n, n);
        assert(slot_at(slots, q - n) is Some);
    }
}

/// The slot at the head is occupied exactly when the ring is not empty,
/// and then it holds the oldest value.
pub proof fn lemma_slot_at_head<T>(slots: Seq<Option<T>>, head: int, tail: int)
    requires
        ring_wf(slots, head, tail),
    ensures
        (slot_at(slots, head) is Some) <==> (head < tail),
        head < tail ==> slot_at(slots, head) == Some(ring_view(slots, head, tail)[0]),
{
    if head == tail {
        assert(slot_at(slots, head) is None);
    } else {
        assert(slot_at(slots, head) is Some);
    }
}

/// Writing a value into the slot at the tail and advancing the tail appends it.
pub proof fn lemma_ring_push<T>(slots: Seq<Option<T>>, head: int, tail: int, v: T)
    requires
        ring_wf(slots, head, tail),
        tail - head < slots.len(),
    ensures
        ring_wf(slots.update(tail % (slots.len() as int), Some(v)), head, tail + 1),
        ring_view(slots.update(tail % (slots.len() as int), Some(v)), head, tail + 1)
            =~= ring_view(slots, head, tail).push(v),
{
    let n = slots.len() as int;
    let s2 = slots.update(tail % n, Some(v));
    assert forall|p: int| head <= p < tail implies slot_at(s2, p) == slot_at(slots, p) by {
        lemma_distinct_slots(p, tail, n);
    }
    assert forall|p: int| tail + 1 <= p < head + n implies slot_at(s2, p) == slot_at(slots, p) by {
        lemma_distinct_slots(tail, p, n);
    }
    assert(slot_at(s2, tail) == Some(v));
    assert forall|p: int| head <= p < tail + 1 implies (#[trigger] slot_at(s2, p)) is Some by {
        if p < tail {
            assert(slot_at(slots, p) is Some);
        }
    }
    assert forall|p: int| tail + 1 <= p < head + n implies (#[trigger] slot_at(s2, p)) is None by {
        assert(slot_at(slots, p) is None);
    }
    let v1 = ring_view(s2, head, tail + 1);
    let v0 = ring_view(slots, head, tail);
    assert forall|i: int| 0 <= i < v1.len() implies v1[i] == v0.push(v)[i] by {
        if i < v0.len() {
            assert(slot_at(s2, head + i) == slot_at(slots, head + i));
        }
    }
}

/// Emptying the slot at the head and advancing the head removes the oldest value.
pub proof fn lemma_ring_pop<T>(slots: Seq<Option<T>>, head: int, tail: int)
    requires
        ring_wf(slots, head, tail),
        head < tail,
    ensures
        ring_wf(slots.update(head % (slots.len() as int), None), head + 1, tail),
        ring_view(slots.update(head % (slots.len() as int), None), head + 1, tail)
            =~= ring_view(slots, head, tail).drop_first(),
{
    let n = slots.len() as int;
    let s2 = slots.update(head % n, None);
    assert forall|p: int| head < p < head + n implies slot_at(s2, p) == slot_at(slots, p) by {
        lemma_distinct_slots(head, p, n);
    }
    lemma_turn_same_slot(head, n);
    assert(slot_at(s2, head + n) is None);
    assert forall|p: int| head + 1 <= p < tail implies (#[trigger] slot_at(s2, p)) is Some by {
        assert(slot_at(slots, p) is Some);
    }
    assert forall|p: int| tail <= p < head + 1 + n implies (#[trigger] slot_at(s2, p)) is None by {
        if p < head + n {
            assert(slot_at(slots, p) is None);
        }
    }
    let v1 = ring_view(s2, head + 1, tail);
    let v0 = ring_view(slots, head, tail);
    assert forall|i: int| 0 <= i < v1.len() implies v1[i] == v0.drop_first()[i] by {
        assert(slot_at(s2, head + 1 + i) == slot_at(slots, head + 1 + i));
    }
}

/// An empty ring of `n` slots.
pub proof fn lemma_ring_empty<T>(slots: Seq<Option<T>>, start: int)
    requires
        slots.len() > 0,
        start >= 0,
        forall|i: int| 0 <= i < slots.len() ==> (#[trigger] slots[i]) is None,
    ensures
        ring_wf(slots, start, start),
        ring_view(slots, start, start) =~= Seq::<T>::empty(),
{
    let n = slots.len() as int;
    assert forall|p: int| start <= p < start + n implies (#[trigger] slot_at(slots, p)) is None by {
        assert(0 <= p % n < n) by (nonlinear_arith)
            requires
                n > 0,
        ;
    }
}

} // verus!
