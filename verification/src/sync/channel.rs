//! A bounded single-producer single-consumer channel for asynchronous code.
//!
//! It is the queue of [`crate::sync::queue`] with a waker for each side: a
//! side that has to wait registers its waker, and the other side wakes it
//! once it has made progress.

use crate::pow2::{is_next_power_of_two, lemma_power_of_two_pos, max_pow2_request};
use crate::sync::queue::{bounded as bounded_queue, Buffer, QueueState};
use crate::sync::{RecvError, SendError, TryRecvError, TrySendError};
use futures_util::task::AtomicWaker;
use std::task::Waker;
use vstd::prelude::*;

verus! {

/// The waker handle of an asynchronous task (from std).
#[verifier::external_type_specification]
#[verifier::external_body]
pub struct ExWaker(Waker);

/// A cell that holds the waker to notify (from futures-util).
#[verifier::external_type_specification]
#[verifier::external_body]
pub struct ExAtomicWaker(AtomicWaker);

/// How many wakers the cell holds (none or one).
pub uninterp spec fn held_wakers(cell: AtomicWaker) -> nat;

/// Calls `AtomicWaker::new` of futures-util, which makes a cell with no
/// waker in it.
#[verifier::external_body]
fn new_atomic_waker() -> (c: AtomicWaker)
    ensures
        held_wakers(c) == 0,
{
    AtomicWaker::new()
}

/// Calls `AtomicWaker::register` of futures-util. With the cell used by
/// one task at a time, it stores (a clone of) `waker` in the cell in place of
/// any earlier one, so the cell then holds one waker. Which waker it holds is
/// left unsaid: a `Waker` is no plain value that a contract can compare.
#[verifier::external_body]
fn register_waker(cell: &mut AtomicWaker, waker: &Waker)
    ensures
        held_wakers(*final(cell)) == 1,
{
    cell.register(waker);
}

/// Calls `AtomicWaker::wake` of futures-util. With the cell used by one task
/// at a time, it takes the stored waker, if any, out of the cell and wakes
/// its task, so the cell then holds no waker.
#[verifier::external_body]
fn wake_registered(cell: &mut AtomicWaker)
    ensures
        held_wakers(*final(cell)) == 0,
{
    cell.wake();
}

/// A waker cell with a flag that says whether a task waits on it.
struct ChannelWaker {
    waker: AtomicWaker,
    should_wake: bool,
    /// How many times the cell's waker has been woken through this waker.
    wakes: Ghost<nat>,
}

impl ChannelWaker {
    /// Whether a task waits to be woken.
    spec fn armed(&self) -> bool {
        self.should_wake
    }

    /// Whether the cell holds the waker of a task.
    spec fn registered(&self) -> bool {
        held_wakers(self.waker) > 0
    }

    /// How many times a registered waker has been woken.
    spec fn woken(&self) -> nat {
        self.wakes@
    }

    fn new() -> (w: ChannelWaker)
        ensures
            !w.armed(),
            !w.registered(),
            w.woken() == 0,
    {
        ChannelWaker { waker: new_atomic_waker(), should_wake: false, wakes: Ghost(0) }
    }

    /// Registers the waker of the task that is about to wait.
    fn register(&mut self, w: &Waker)
        ensures
            final(self).armed(),
            final(self).registered(),
            final(self).woken() == old(self).woken(),
    {
        register_waker(&mut self.waker, w);
        self.should_wake = true;
    }

    /// Wakes the waiting task, if there is one: its waker is taken out of
    /// the cell and woken.
    fn wake(&mut self)
        ensures
            !final(self).armed(),
            final(self).registered() == (old(self).registered() && !old(self).armed()),
            final(self).woken() == old(self).woken() + if old(self).armed() { 1nat } else { 0nat },
    {
        if self.should_wake {
            self.should_wake = false;
            wake_registered(&mut self.waker);
            proof {
                self.wakes@ = self.wakes@ + 1;
            }
        }
    }

    /// Stops waiting without being woken; the cell keeps its waker.
    fn take(&mut self)
        ensures
            !final(self).armed(),
            final(self).registered() == old(self).registered(),
            final(self).woken() == old(self).woken(),
    {
        self.should_wake = false;
    }
}

/// The outcome of an asynchronous step: done with a value, or waiting to be
/// woken.
pub enum Poll<T> {
    /// The step is done.
    Ready(T),
    /// The step waits; the task's waker has been registered.
    Pending,
}

/// The state of a channel as its users see it.
#[verifier::ext_equal]
pub struct ChannelState<T> {
    /// The state of the queue.
    pub queue: QueueState<T>,
    /// Whether the sending task waits to be woken.
    pub sender_waits: bool,
    /// Whether the receiving task waits to be woken.
    pub receiver_waits: bool,
    /// Whether the sender's cell holds the waker of the sending task.
    pub sender_registered: bool,
    /// Whether the receiver's cell holds the waker of the receiving task.
    pub receiver_registered: bool,
    /// How many times the sending task has been woken.
    pub sender_wakes: nat,
    /// How many times the receiving task has been woken.
    pub receiver_wakes: nat,
}

impl<T> ChannelState<T> {
    /// The state and the reply after trying to send `val`: as for the
    /// queue, and a successful send wakes the receiving task if it waits,
    /// which takes its waker out of the receiver's cell.
    pub open spec fn send(self, val: T) -> (ChannelState<T>, Result<(), TrySendError<T>>) {
        let (queue, r) = self.queue.send(val);
        (
            ChannelState {
                queue,
                receiver_waits: if r is Ok { false } else { self.receiver_waits },
                receiver_registered: if r is Ok && self.receiver_waits {
                    false
                } else {
                    self.receiver_registered
                },
                receiver_wakes: if r is Ok && self.receiver_waits {
                    self.receiver_wakes + 1
                } else {
                    self.receiver_wakes
                },
                ..self
            },
            r,
        )
    }

    /// The state and the reply after checking for room: the sending task's
    /// waker goes into the sender's cell; `Pending`, with the sending task
    /// waiting, while the queue is full.
    pub open spec fn poll_ready(self) -> (ChannelState<T>, Poll<()>) {
        if self.queue.is_full() {
            (ChannelState { sender_waits: true, sender_registered: true, ..self }, Poll::Pending)
        } else {
            (ChannelState { sender_waits: false, sender_registered: true, ..self }, Poll::Ready(()))
        }
    }

    /// The state and the reply after trying to receive: as for the queue,
    /// and a successful receive wakes the sending task if it waits, which
    /// takes its waker out of the sender's cell.
    pub open spec fn recv(self) -> (ChannelState<T>, Result<T, TryRecvError>) {
        let (queue, r) = self.queue.recv();
        (
            ChannelState {
                queue,
                sender_waits: if r is Ok { false } else { self.sender_waits },
                sender_registered: if r is Ok && self.sender_waits {
                    false
                } else {
                    self.sender_registered
                },
                sender_wakes: if r is Ok && self.sender_waits {
                    self.sender_wakes + 1
                } else {
                    self.sender_wakes
                },
                ..self
            },
            r,
        )
    }

    /// The state and the reply after polling for a value: the oldest value,
    /// or `Disconnected` once the queue is empty and the sender gone, or else
    /// `Pending`, with the receiving task waiting and its waker in the
    /// receiver's cell.
    pub open spec fn poll_recv(self) -> (ChannelState<T>, Poll<Result<T, RecvError>>) {
        let (next, r) = self.recv();
        match r {
            Ok(v) => (next, Poll::Ready(Ok(v))),
            Err(TryRecvError::Disconnected) => (next, Poll::Ready(Err(RecvError::Disconnected))),
            Err(TryRecvError::Empty) => (
                ChannelState { receiver_waits: true, receiver_registered: true, ..next },
                Poll::Pending,
            ),
        }
    }
}

/// The channel: the queue and the wakers of both sides.
pub struct Channel<T> {
    queue: Buffer<T>,
    sender_waker: ChannelWaker,
    receiver_waker: ChannelWaker,
}

impl<T> View for Channel<T> {
    type V = ChannelState<T>;

    closed spec fn view(&self) -> ChannelState<T> {
        ChannelState {
            queue: self.queue@,
            sender_waits: self.sender_waker.armed(),
            receiver_waits: self.receiver_waker.armed(),
            sender_registered: self.sender_waker.registered(),
            receiver_registered: self.receiver_waker.registered(),
            sender_wakes: self.sender_waker.woken(),
            receiver_wakes: self.receiver_waker.woken(),
        }
    }
}

impl<T> Channel<T> {
    /// The channel is well formed.
    pub closed spec fn wf(&self) -> bool {
        self.queue.wf()
    }

    /// A well-formed channel has a well-formed queue state.
    pub proof fn lemma_wf_view(&self)
        requires
            self.wf(),
        ensures
            self@.queue.wf(),
    {
        self.queue.lemma_wf_view();
    }

    /// Attempts to push a value onto the channel, as the queue does; on
    /// success the receiving task is woken.
    pub fn try_send(&mut self, val: T) -> (r: Result<(), TrySendError<T>>)
        requires
            old(self).wf(),
            old(self)@.queue.send_fits(),
        ensures
            final(self).wf(),
            final(self)@ == old(self)@.send(val).0,
            r == old(self)@.send(val).1,
    {
        match self.queue.try_send(val) {
            Ok(()) => {
                self.receiver_waker.wake();
                Ok(())
            },
            Err(err) => Err(err),
        }
    }

    /// Checks whether a value can be pushed onto the channel: `Ready` if
    /// there are free slots, otherwise `Pending`, with the sending task's
    /// waker registered.
    pub fn poll_ready(&mut self, waker: &Waker) -> (r: Poll<()>)
        requires
            old(self).wf(),
        ensures
            final(self).wf(),
            final(self)@ == old(self)@.poll_ready().0,
            r == old(self)@.poll_ready().1,
    {
        self.sender_waker.register(waker);
        if self.queue.is_full() {
            Poll::Pending
        } else {
            self.sender_waker.take();
            Poll::Ready(())
        }
    }

    /// Attempts to receive the oldest value, as the queue does; on success
    /// the sending task is woken.
    pub fn try_recv(&mut self) -> (r: Result<T, TryRecvError>)
        requires
            old(self).wf(),
        ensures
            final(self).wf(),
            final(self)@ == old(self)@.recv().0,
            r == old(self)@.recv().1,
    {
        match self.queue.try_recv() {
            Ok(val) => {
                self.sender_waker.wake();
                Ok(val)
            },
            Err(err) => Err(err),
        }
    }

    /// Attempts to receive a value: `Ready` with the value, or with an
    /// error once the sender has gone away and the queue is empty; otherwise
    /// `Pending`, with the receiving task's waker registered. After
    /// registering, the queue is checked once more; that check matters only
    /// when the channel is shared and a sender may run in between. Through
    /// `&mut self` nothing can, and the second check finds the queue as the
    /// first one did.
    pub fn poll_recv(&mut self, waker: &Waker) -> (r: Poll<Result<T, RecvError>>)
        requires
            old(self).wf(),
        ensures
            final(self).wf(),
            final(self)@ == old(self)@.poll_recv().0,
            r == old(self)@.poll_recv().1,
    {
        match self.try_recv() {
            Ok(item) => Poll::Ready(Ok(item)),
            Err(TryRecvError::Disconnected) => Poll::Ready(Err(RecvError::Disconnected)),
            Err(TryRecvError::Empty) => {
                self.receiver_waker.register(waker);
                match self.try_recv() {
                    Ok(item) => {
                        self.receiver_waker.take();
                        Poll::Ready(Ok(item))
                    },
                    Err(TryRecvError::Disconnected) => Poll::Ready(Err(RecvError::Disconnected)),
                    Err(TryRecvError::Empty) => Poll::Pending,
                }
            },
        }
    }

    /// Whether a send's position arithmetic fits in a `usize`, so that
    /// `try_send` may be called.
    pub fn send_fits(&self) -> (r: bool)
        requires
            self.wf(),
        ensures
            r == self@.queue.send_fits(),
    {
        self.queue.send_fits()
    }

    /// The sending side goes away.
    pub fn drop_sender(&mut self)
        requires
            old(self).wf(),
        ensures
            final(self).wf(),
            final(self)@ == (ChannelState {
                queue: QueueState { sender_gone: true, ..old(self)@.queue },
                ..old(self)@
            }),
    {
        self.queue.drop_sender();
    }

    /// The receiving side goes away.
    pub fn drop_receiver(&mut self)
        requires
            old(self).wf(),
        ensures
            final(self).wf(),
            final(self)@ == (ChannelState {
                queue: QueueState { receiver_gone: true, ..old(self)@.queue },
                ..old(self)@
            }),
    {
        self.queue.drop_receiver();
    }
}

/// What an asynchronous send does after an attempt: finish with a result,
/// or wait for room and try again with the value.
pub enum SendStep<T> {
    /// The send is over.
    Done(Result<(), SendError<T>>),
    /// The channel was full: wait until it has room, then send this value.
    Retry(T),
}

/// Decides the next step of an asynchronous send from the outcome of an
/// attempt.
pub fn next_send_step<T>(attempt: Result<(), TrySendError<T>>) -> (s: SendStep<T>)
    ensures
        attempt is Ok ==> s == SendStep::<T>::Done(Ok(())),
        attempt matches Err(TrySendError::Disconnected(v)) ==> s == SendStep::<T>::Done(
            Err(SendError::Disconnected(v)),
        ),
        attempt matches Err(TrySendError::Full(v)) ==> s == SendStep::<T>::Retry(v),
{
    match attempt {
        Ok(()) => SendStep::Done(Ok(())),
        Err(TrySendError::Disconnected(val)) => SendStep::Done(Err(SendError::Disconnected(val))),
        Err(TrySendError::Full(pending)) => SendStep::Retry(pending),
    }
}

/// Creates a channel whose capacity is `capacity` rounded up to the next
/// power of two.
pub fn bounded<T>(capacity: usize) -> (c: Channel<T>)
    requires
        capacity <= max_pow2_request(),
    ensures
        c.wf(),
        is_next_power_of_two(capacity as nat, c@.queue.capacity),
        c@ == (ChannelState {
            queue: QueueState {
                contents: Seq::<T>::empty(),
                capacity: c@.queue.capacity,
                lookahead: c@.queue.capacity / 4,
                sent: 0,
                limit: c@.queue.capacity,
                sender_gone: false,
                receiver_gone: false,
            },
            sender_waits: false,
            receiver_waits: false,
            sender_registered: false,
            receiver_registered: false,
            sender_wakes: 0,
            receiver_wakes: 0,
        }),
{
    Channel {
        queue: bounded_queue(capacity),
        sender_waker: ChannelWaker::new(),
        receiver_waker: ChannelWaker::new(),
    }
}

/// A receiver that finds the channel empty waits, its waker registered;
/// the next send succeeds, wakes it (taking the waker out of its cell),
/// and its next poll returns the sent value.
pub proof fn law_send_wakes_waiting_receiver<T>(s: ChannelState<T>, val: T)
    requires
        s.queue.wf(),
        s.queue.contents.len() == 0,
        !s.queue.sender_gone,
        !s.queue.receiver_gone,
    ensures
        s.poll_recv().1 is Pending,
        s.poll_recv().0.receiver_waits,
        s.poll_recv().0.receiver_registered,
        s.poll_recv().0.send(val).1 is Ok,
        !s.poll_recv().0.send(val).0.receiver_waits,
        !s.poll_recv().0.send(val).0.receiver_registered,
        s.poll_recv().0.send(val).0.poll_recv().1 == Poll::<Result<T, RecvError>>::Ready(Ok(val)),
{
    lemma_power_of_two_pos(s.queue.capacity);
}

/// A sender that finds the channel full waits, its waker registered; the
/// next receive succeeds, wakes it (taking the waker out of its cell), and
/// its next check finds room.
pub proof fn law_recv_wakes_waiting_sender<T>(s: ChannelState<T>)
    requires
        s.queue.wf(),
        s.queue.is_full(),
    ensures
        s.poll_ready().1 is Pending,
        s.poll_ready().0.sender_waits,
        s.poll_ready().0.sender_registered,
        s.poll_ready().0.recv().1 is Ok,
        !s.poll_ready().0.recv().0.sender_waits,
        !s.poll_ready().0.recv().0.sender_registered,
        s.poll_ready().0.recv().0.poll_ready().1 == Poll::<()>::Ready(()),
{
    lemma_power_of_two_pos(s.queue.capacity);
}

/// When the channel reports room, a send that follows succeeds (while the
/// receiver is there).
pub proof fn law_ready_then_send_succeeds<T>(s: ChannelState<T>, val: T)
    requires
        s.poll_ready().1 is Ready,
        !s.queue.receiver_gone,
    ensures
        s.poll_ready().0.send(val).1 is Ok,
{
}

/// A send after a receive poll was left pending gives the queue's reply:
/// on success the receiving task is woken, its waker taken out of its cell;
/// on failure nothing changes.
pub proof fn law_send_after_pending_recv<T>(s: ChannelState<T>, val: T)
    requires
        s.queue.wf(),
        s.poll_recv().1 is Pending,
    ensures
        s.poll_recv().0.receiver_waits,
        s.poll_recv().0.receiver_registered,
        s.poll_recv().0.send(val).1 == s.poll_recv().0.queue.send(val).1,
        s.poll_recv().0.send(val).0.queue == s.poll_recv().0.queue.send(val).0,
        s.poll_recv().0.send(val).1 is Ok ==> {
            &&& !s.poll_recv().0.send(val).0.receiver_waits
            &&& !s.poll_recv().0.send(val).0.receiver_registered
        },
        s.poll_recv().0.send(val).1 is Err ==> s.poll_recv().0.send(val).0 == s.poll_recv().0,
{
}

/// Polling a channel that holds values is `Ready` with the oldest one,
/// which leaves the queue; it is `Pending` exactly when the queue is empty
/// and the sender is still there, and then the receiver waits with its waker
/// registered.
pub proof fn law_poll_recv_reply<T>(s: ChannelState<T>)
    ensures
        s.queue.contents.len() > 0 ==> {
            &&& s.poll_recv().1 == Poll::<Result<T, RecvError>>::Ready(Ok(s.queue.contents[0]))
            &&& s.poll_recv().0.queue.contents == s.queue.contents.drop_first()
            &&& s.poll_recv().0.sender_wakes == s.sender_wakes + if s.sender_waits { 1nat } else { 0nat }
        },
        (s.poll_recv().1 is Pending) <==> (s.queue.contents.len() == 0 && !s.queue.sender_gone),
        s.queue.contents.len() == 0 && s.queue.sender_gone ==> s.poll_recv().1
            == Poll::<Result<T, RecvError>>::Ready(Err(RecvError::Disconnected)),
        s.poll_recv().1 is Pending ==> {
            &&& s.poll_recv().0.receiver_waits
            &&& s.poll_recv().0.receiver_registered
            &&& s.poll_recv().0.queue == s.queue
        },
        s.poll_recv().0.receiver_wakes == s.receiver_wakes,
        s.poll_recv().0.queue.sent == s.queue.sent,
{
}

/// Checking for room is `Pending` exactly when every slot is taken; it
/// always registers the sender's waker and never changes the queue.
pub proof fn law_poll_ready_reply<T>(s: ChannelState<T>)
    ensures
        (s.poll_ready().1 is Pending) <==> (s.queue.contents.len() >= s.queue.capacity),
        s.poll_ready().0.sender_waits <==> (s.queue.contents.len() >= s.queue.capacity),
        s.poll_ready().0.sender_registered,
        s.poll_ready().0.queue == s.queue,
        s.poll_ready().0.sender_wakes == s.sender_wakes,
        s.poll_ready().0.receiver_wakes == s.receiver_wakes,
{
}

/// A successful receive wakes a waiting sender exactly once; a receive that
/// fails, or finds no sender waiting, wakes nobody. The reply is the queue's.
pub proof fn law_recv_wakes_waiting_sender_once<T>(s: ChannelState<T>)
    ensures
        s.recv().1 == s.queue.recv().1,
        s.recv().0.queue == s.queue.recv().0,
        s.recv().1 is Ok && s.sender_waits ==> {
            &&& s.recv().0.sender_wakes == s.sender_wakes + 1
            &&& !s.recv().0.sender_waits
        },
        !(s.recv().1 is Ok && s.sender_waits) ==> s.recv().0.sender_wakes == s.sender_wakes,
        s.recv().0.receiver_wakes == s.receiver_wakes,
        s.recv().0.receiver_waits == s.receiver_waits,
{
}

/// A successful send wakes a waiting receiver exactly once; a send that
/// fails, or finds no receiver waiting, wakes nobody. The reply is the queue's.
pub proof fn law_send_wakes_waiting_receiver_once<T>(s: ChannelState<T>, val: T)
    ensures
        s.send(val).1 == s.queue.send(val).1,
        s.send(val).0.queue == s.queue.send(val).0,
        s.send(val).1 is Ok && s.receiver_waits ==> {
            &&& s.send(val).0.receiver_wakes == s.receiver_wakes + 1
            &&& !s.send(val).0.receiver_waits
        },
        !(s.send(val).1 is Ok && s.receiver_waits) ==> s.send(val).0.receiver_wakes == s.receiver_wakes,
        s.send(val).0.sender_wakes == s.sender_wakes,
        s.send(val).0.sender_waits == s.sender_waits,
{
}

} // verus!
