use std::sync::Arc;

use cosmo::sync::queue::bounded;
use cosmo::sync::{TryRecvError, TrySendError};

#[test]
fn test_capacity_is_power_of_two() {
    assert_eq!(16, bounded::<usize>(10).capacity());
}

#[test]
fn bounded_adds_and_removes_a_value() {
    let mut q = bounded::<usize>(2);
    assert_eq!(Ok(()), q.try_send(34));
    assert_eq!(Ok(34), q.try_recv());
}

#[test]
fn becomes_full() {
    let mut q = bounded::<usize>(2);
    assert!(q.is_empty());
    assert_eq!(Ok(()), q.try_send(1));
    assert_eq!(Ok(()), q.try_send(2));
    assert!(matches!(q.try_send(3), Err(TrySendError::Full(3))));
    assert!(q.is_full());
}

#[test]
fn becomes_empty() {
    let mut q = bounded::<usize>(2);
    assert!(matches!(q.try_recv(), Err(TryRecvError::Empty)));
}

#[test]
fn bounded_lost_items_are_dropped() {
    let item = Arc::new(10);
    {
        let mut q = bounded(2);
        assert!(q.try_send(item.clone()).is_ok());
        assert_eq!(2, Arc::strong_count(&item));
    }
    assert_eq!(1, Arc::strong_count(&item));
}

#[test]
fn disconnecting_a_receiver_produces_an_error_when_sending() {
    let mut q = bounded(2);
    q.drop_receiver();
    assert!(matches!(q.try_send(10), Err(TrySendError::Disconnected(10))));
}

#[test]
fn disconnecting_a_sender_produces_an_error_when_receiving() {
    let mut q = bounded(2);
    let _ = q.try_send(10);
    q.drop_sender();
    assert!(matches!(q.try_recv(), Ok(10)));
    assert!(matches!(q.try_recv(), Err(TryRecvError::Disconnected)));
}

// Further cases.

#[test]
fn lookahead_is_a_quarter_and_values_keep_order_across_laps() {
    let mut q = bounded::<u32>(8);
    assert_eq!(8, q.capacity());
    for i in 0..8 {
        assert_eq!(Ok(()), q.try_send(i));
    }
    assert!(q.is_full());
    assert_eq!(Err(TrySendError::Full(99)), q.try_send(99));
    for i in 0..3 {
        assert_eq!(Ok(i), q.try_recv());
    }
    // Room for three more: the queue only reports full when every slot is taken.
    for i in 8..11 {
        assert_eq!(Ok(()), q.try_send(i));
    }
    assert_eq!(8, q.len());
    assert_eq!(Err(TrySendError::Full(11)), q.try_send(11));
    for i in 3..11 {
        assert_eq!(Ok(i), q.try_recv());
    }
    assert_eq!(Err(TryRecvError::Empty), q.try_recv());
    assert!(q.is_empty());
}

#[test]
fn long_run_keeps_fifo_order() {
    let mut q = bounded::<u64>(16);
    let mut sent = 0u64;
    let mut received = 0u64;
    for round in 0..200u64 {
        for _ in 0..(round % 7) {
            match q.try_send(sent) {
                Ok(()) => sent += 1,
                Err(TrySendError::Full(v)) => {
                    assert_eq!(sent, v);
                    assert_eq!(16, q.len());
                }
                Err(TrySendError::Disconnected(_)) => panic!("receiver is still there"),
            }
        }
        for _ in 0..(round % 5) {
            match q.try_recv() {
                Ok(v) => {
                    assert_eq!(received, v);
                    received += 1;
                }
                Err(e) => {
                    assert_eq!(TryRecvError::Empty, e);
                    assert!(q.is_empty());
                }
            }
        }
        assert_eq!((sent - received) as usize, q.len());
    }
}

#[test]
fn sender_gone_after_draining_and_flag_is_visible() {
    let mut q = bounded::<u8>(4);
    assert!(!q.is_disconnected());
    assert_eq!(Ok(()), q.try_send(1));
    assert_eq!(Ok(()), q.try_send(2));
    q.drop_sender();
    assert!(q.is_disconnected());
    assert_eq!(Ok(1), q.try_recv());
    assert_eq!(Ok(2), q.try_recv());
    assert_eq!(Err(TryRecvError::Disconnected), q.try_recv());
}

#[test]
fn receiver_gone_refuses_even_with_room() {
    let mut q = bounded::<u8>(4);
    assert!(q.send_fits());
    q.drop_receiver();
    assert_eq!(Err(TrySendError::Disconnected(5)), q.try_send(5));
    assert_eq!(0, q.len());
}
