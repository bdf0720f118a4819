use std::sync::atomic::{AtomicUsize, Ordering};
use std::sync::Arc;
use std::task::{Wake, Waker};

use cosmo::sync::channel::{bounded, next_send_step, Poll, SendStep};
use cosmo::sync::{RecvError, SendError, TryRecvError, TrySendError};

struct CountingWaker {
    wakes: AtomicUsize,
}

impl Wake for CountingWaker {
    fn wake(self: Arc<Self>) {
        self.wakes.fetch_add(1, Ordering::SeqCst);
    }

    fn wake_by_ref(self: &Arc<Self>) {
        self.wakes.fetch_add(1, Ordering::SeqCst);
    }
}

fn counting_waker() -> (Arc<CountingWaker>, Waker) {
    let counter = Arc::new(CountingWaker { wakes: AtomicUsize::new(0) });
    let waker = Waker::from(counter.clone());
    (counter, waker)
}

#[test]
fn channel_sends_and_receives_in_order() {
    let mut c = bounded::<u32>(4);
    assert_eq!(Ok(()), c.try_send(1));
    assert_eq!(Ok(()), c.try_send(2));
    assert_eq!(Ok(1), c.try_recv());
    assert_eq!(Ok(2), c.try_recv());
    assert_eq!(Err(TryRecvError::Empty), c.try_recv());
}

#[test]
fn waiting_receiver_is_woken_by_a_send() {
    let mut c = bounded::<u32>(2);
    let (counter, waker) = counting_waker();
    assert!(matches!(c.poll_recv(&waker), Poll::Pending));
    assert_eq!(0, counter.wakes.load(Ordering::SeqCst));
    assert_eq!(Ok(()), c.try_send(7));
    assert_eq!(1, counter.wakes.load(Ordering::SeqCst));
    assert!(matches!(c.poll_recv(&waker), Poll::Ready(Ok(7))));
    // A second send does not wake again: nobody waits.
    assert_eq!(Ok(()), c.try_send(8));
    assert_eq!(1, counter.wakes.load(Ordering::SeqCst));
}

#[test]
fn waiting_sender_is_woken_by_a_receive() {
    let mut c = bounded::<u32>(1);
    let (counter, waker) = counting_waker();
    assert!(matches!(c.poll_ready(&waker), Poll::Ready(())));
    assert_eq!(Ok(()), c.try_send(1));
    assert_eq!(Err(TrySendError::Full(2)), c.try_send(2));
    assert!(matches!(c.poll_ready(&waker), Poll::Pending));
    assert_eq!(0, counter.wakes.load(Ordering::SeqCst));
    assert_eq!(Ok(1), c.try_recv());
    assert_eq!(1, counter.wakes.load(Ordering::SeqCst));
    assert!(matches!(c.poll_ready(&waker), Poll::Ready(())));
    assert_eq!(Ok(()), c.try_send(2));
}

#[test]
fn poll_recv_reports_disconnection_after_draining() {
    let mut c = bounded::<u32>(2);
    let (_counter, waker) = counting_waker();
    assert_eq!(Ok(()), c.try_send(3));
    c.drop_sender();
    assert!(matches!(c.poll_recv(&waker), Poll::Ready(Ok(3))));
    assert!(matches!(c.poll_recv(&waker), Poll::Ready(Err(RecvError::Disconnected))));
    assert_eq!(Err(TryRecvError::Disconnected), c.try_recv());
}

#[test]
fn channel_refuses_after_receiver_leaves() {
    let mut c = bounded::<u32>(2);
    c.drop_receiver();
    assert!(c.send_fits());
    assert_eq!(Err(TrySendError::Disconnected(4)), c.try_send(4));
}

#[test]
fn send_steps_follow_attempts() {
    assert!(matches!(next_send_step::<u8>(Ok(())), SendStep::Done(Ok(()))));
    assert!(matches!(next_send_step(Err(TrySendError::Full(5u8))), SendStep::Retry(5)));
    assert!(matches!(
        next_send_step(Err(TrySendError::Disconnected(6u8))),
        SendStep::Done(Err(SendError::Disconnected(6)))
    ));
}

#[test]
fn poll_ready_with_room_leaves_no_one_waiting() {
    let mut c = bounded::<u32>(2);
    let (counter, waker) = counting_waker();
    assert!(matches!(c.poll_ready(&waker), Poll::Ready(())));
    assert_eq!(Ok(()), c.try_send(1));
    assert_eq!(Ok(1), c.try_recv());
    assert_eq!(0, counter.wakes.load(Ordering::SeqCst));
}
