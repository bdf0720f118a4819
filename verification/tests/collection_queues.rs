use std::mem;
use std::sync::atomic::{AtomicBool, Ordering};
use std::sync::Arc;

use cosmo::collection::buffer::Buffer;
use cosmo::collection::{ConcurrentQueue, SpmcConcurrentQueue, SpscConcurrentQueue};

#[derive(Debug)]
struct Payload {
    value: u64,
    dropped: Arc<AtomicBool>,
}

impl Clone for Payload {
    fn clone(&self) -> Payload {
        let is_dropped = self.dropped.load(Ordering::Relaxed);
        Payload { value: self.value, dropped: Arc::new(AtomicBool::new(is_dropped)) }
    }
}

impl Drop for Payload {
    fn drop(&mut self) {
        self.dropped.store(true, Ordering::Relaxed);
    }
}

impl PartialEq<Payload> for Payload {
    fn eq(&self, other: &Payload) -> bool {
        self.value == other.value
    }
}

// Single producer, single consumer.

#[test]
fn spsc_concurrent_queue_capacity_is_next_power_of_two() {
    assert_eq!(16, SpscConcurrentQueue::<i32>::with_capacity(10).capacity());
}

#[test]
fn spsc_concurrent_queue_adds_and_removes_a_value() {
    let mut q = SpscConcurrentQueue::<i32>::with_capacity(2);
    assert_eq!(None, q.offer(34));
    assert_eq!(Some(34), q.poll());
}

#[test]
fn spsc_concurrent_queue_gets_full() {
    let mut q = SpscConcurrentQueue::<i32>::with_capacity(2);
    assert_eq!(None, q.offer(1));
    assert_eq!(None, q.offer(2));
    assert_eq!(Some(3), q.offer(3));
    assert!(q.is_full());
}

#[test]
fn spsc_concurrent_queue_gets_empty() {
    let mut q = SpscConcurrentQueue::<i32>::with_capacity(2);
    assert_eq!(None, q.poll());
    assert!(q.is_empty());
}

#[test]
fn peeks_a_value() {
    let mut q = SpscConcurrentQueue::<i32>::with_capacity(2);
    assert_eq!(None, q.offer(34));
    assert_eq!(Some(34), q.peek());
    assert_eq!(Some(34), q.poll());
    assert_eq!(None, q.poll());
}

#[test]
fn spsc_concurrent_queue_items_are_moved() {
    let mut q = SpscConcurrentQueue::<Payload>::with_capacity(2);
    let dropped = Arc::new(AtomicBool::new(false));
    let p1 = Payload { value: 67, dropped: dropped.clone() };
    assert!(q.is_empty());
    assert_eq!(None, q.offer(p1));
    let p2 = q.poll().unwrap();
    assert_eq!(67, p2.value);
    assert!(!dropped.load(Ordering::Relaxed));
    mem::drop(p2);
    assert!(dropped.load(Ordering::Relaxed));
}

#[test]
fn peeked_items_are_cloned() {
    let mut q = SpscConcurrentQueue::<Payload>::with_capacity(2);
    let dropped = Arc::new(AtomicBool::new(false));
    let p1 = Payload { value: 67, dropped: dropped.clone() };
    assert!(q.is_empty());
    assert_eq!(None, q.offer(p1));
    let p2 = q.peek().unwrap();
    let dropped2 = p2.dropped.clone();
    assert_eq!(67, p2.value);
    assert!(!dropped.load(Ordering::Relaxed));
    assert!(!dropped2.load(Ordering::Relaxed));
    mem::drop(p2);
    assert!(!dropped.load(Ordering::Relaxed));
    assert!(dropped2.load(Ordering::Relaxed));
}

#[test]
fn spsc_concurrent_queue_lost_items_are_dropped() {
    let mut q = SpscConcurrentQueue::<Payload>::with_capacity(2);
    let dropped = Arc::new(AtomicBool::new(false));
    let p = Payload { value: 67, dropped: dropped.clone() };
    assert_eq!(None, q.offer(p));
    assert_eq!(1, q.size());
    assert!(!dropped.load(Ordering::Relaxed));
    mem::drop(q);
    assert!(dropped.load(Ordering::Relaxed));
}

// Single producer, multiple consumers.

#[test]
fn spmc_concurrent_queue_capacity_is_next_power_of_two() {
    assert_eq!(16, SpmcConcurrentQueue::<i32>::with_capacity(10).capacity());
}

#[test]
fn spmc_concurrent_queue_adds_and_removes_a_value() {
    let mut q = SpmcConcurrentQueue::<i32>::with_capacity(2);
    assert_eq!(None, q.offer(34));
    assert_eq!(Some(34), q.poll());
}

#[test]
fn spmc_concurrent_queue_gets_full() {
    let mut q = SpmcConcurrentQueue::<i32>::with_capacity(2);
    assert_eq!(None, q.offer(1));
    assert_eq!(None, q.offer(2));
    assert_eq!(Some(3), q.offer(3));
    assert!(q.is_full());
}

#[test]
fn spmc_concurrent_queue_gets_empty() {
    let mut q = SpmcConcurrentQueue::<i32>::with_capacity(2);
    assert_eq!(None, q.poll());
    assert!(q.is_empty());
}

#[test]
fn spmc_concurrent_queue_items_are_moved() {
    let mut q = SpmcConcurrentQueue::<Payload>::with_capacity(2);
    let dropped = Arc::new(AtomicBool::new(false));
    let p1 = Payload { value: 67, dropped: dropped.clone() };
    assert!(q.is_empty());
    assert_eq!(None, q.offer(p1));
    let p2 = q.poll().unwrap();
    assert_eq!(67, p2.value);
    assert!(!dropped.load(Ordering::Relaxed));
    mem::drop(p2);
    assert!(dropped.load(Ordering::Relaxed));
}

#[test]
fn spmc_concurrent_queue_lost_items_are_dropped() {
    let mut q = SpmcConcurrentQueue::<Payload>::with_capacity(2);
    let dropped = Arc::new(AtomicBool::new(false));
    let p = Payload { value: 67, dropped: dropped.clone() };
    assert_eq!(None, q.offer(p));
    assert_eq!(1, q.size());
    assert!(!dropped.load(Ordering::Relaxed));
    mem::drop(q);
    assert!(dropped.load(Ordering::Relaxed));
}

// Further cases.

#[test]
fn doc_capacity_of_a_power_of_two_is_kept() {
    let mut q = SpscConcurrentQueue::<u64>::with_capacity(16);
    assert_eq!(16, q.capacity());
    q.offer(10);
    assert_eq!(16, q.capacity());
    assert_eq!(1024, SpmcConcurrentQueue::<u64>::with_capacity(1024).capacity());
    assert_eq!(1, SpscConcurrentQueue::<u64>::with_capacity(0).capacity());
    assert_eq!(1, SpmcConcurrentQueue::<u64>::with_capacity(1).capacity());
}

#[test]
fn doc_size_counts_values() {
    let mut q = SpscConcurrentQueue::<u64>::with_capacity(16);
    assert_eq!(0, q.size());
    q.offer(10);
    assert_eq!(1, q.size());
}

#[test]
fn spsc_values_leave_in_order_across_wraparound() {
    let mut q = SpscConcurrentQueue::<u32>::with_capacity(4);
    let mut next_in = 0u32;
    let mut next_out = 0u32;
    for round in 0..10u32 {
        for _ in 0..(round % 4 + 1) {
            if q.offer(next_in).is_none() {
                next_in += 1;
            }
        }
        assert!(q.size() <= 4);
        for _ in 0..(round % 3 + 1) {
            if let Some(v) = q.poll() {
                assert_eq!(next_out, v);
                next_out += 1;
            }
        }
    }
    while let Some(v) = q.poll() {
        assert_eq!(next_out, v);
        next_out += 1;
    }
    assert_eq!(next_in, next_out);
    assert!(q.is_empty());
}

#[test]
fn spmc_values_leave_in_order_across_wraparound() {
    let mut q = SpmcConcurrentQueue::<u32>::with_capacity(3);
    assert_eq!(4, q.capacity());
    for i in 0..4 {
        assert_eq!(None, q.offer(i));
    }
    assert_eq!(Some(9), q.offer(9));
    assert_eq!(Some(0), q.poll());
    assert_eq!(Some(1), q.poll());
    assert_eq!(None, q.offer(4));
    assert_eq!(None, q.offer(5));
    assert!(q.is_full());
    for i in 2..6 {
        assert_eq!(Some(i), q.poll());
    }
    assert_eq!(None, q.poll());
}

#[test]
fn full_queue_hands_value_back_unchanged() {
    let mut q = SpscConcurrentQueue::<i32>::with_capacity(1);
    assert_eq!(None, q.offer(1));
    assert_eq!(Some(2), q.offer(2));
    assert_eq!(1, q.size());
    assert_eq!(Some(1), q.peek());
    assert_eq!(Some(1), q.poll());
    assert_eq!(None, q.peek());
}

#[test]
fn buffer_items_follow_positions() {
    let mut b = Buffer::<u8>::with_capacity(3);
    assert_eq!(4, b.capacity());
    assert_eq!(0, b.size());
    assert!(!b.item_is_defined(0));
    b.write_item(5, 9);
    assert!(b.item_is_defined(1));
    assert_eq!(9, *b.item_value(1));
    assert_eq!(Some(9), b.take_item(9));
    assert_eq!(None, b.take_item(1));
    b.set_tail(2);
    b.set_head(1);
    assert_eq!(1, b.head());
    assert_eq!(2, b.tail());
}

#[test]
fn offer_fits_on_fresh_queues() {
    let q = SpscConcurrentQueue::<u8>::with_capacity(2);
    assert!(q.offer_fits());
    let q = SpmcConcurrentQueue::<u8>::with_capacity(2);
    assert!(q.offer_fits());
}
