//! Single-producer single-consumer queues and channels, and their errors.

pub mod channel;
pub mod queue;

use vstd::prelude::*;

verus! {

/// An error that may be emitted when attempting to send a value on a
/// bounded channel.
#[derive(Copy, Clone, PartialEq, Eq, Debug)]
pub enum TrySendError<T> {
    /// The channel is bounded and was full when the send was attempted.
    Full(T),
    /// There are no receivers to get the value.
    Disconnected(T),
}

impl<T> TrySendError<T> {
    /// The value that was not sent.
    pub open spec fn value(self) -> T {
        match self {
            TrySendError::Full(value) => value,
            TrySendError::Disconnected(value) => value,
        }
    }

    /// Consumes the error and returns the value that wasn't sent.
    pub fn into_inner(self) -> (r: T)
        ensures
            r == self.value(),
    {
        match self {
            TrySendError::Full(value) | TrySendError::Disconnected(value) => value,
        }
    }

    /// The short form of the error, which leaves out the value.
    pub fn label(&self) -> (r: &'static str)
        ensures
            self is Full ==> r@ == "Full(..)"@,
            self is Disconnected ==> r@ == "Disconnected(..)"@,
    {
        match self {
            TrySendError::Full(..) => "Full(..)",
            TrySendError::Disconnected(..) => "Disconnected(..)",
        }
    }

    /// The message that describes the error.
    pub fn message(&self) -> (r: &'static str)
        ensures
            self is Full ==> r@ == "sending on a full queue"@,
            self is Disconnected ==> r@ == "sending on a disconnected queue"@,
    {
        match self {
            TrySendError::Full(..) => "sending on a full queue",
            TrySendError::Disconnected(..) => "sending on a disconnected queue",
        }
    }
}

/// An error that may be emitted when attempting to send a value.
#[derive(Copy, Clone, PartialEq, Eq, Debug)]
pub enum SendError<T> {
    /// There are no more receivers, so no values can be sent.
    Disconnected(T),
}

impl<T> SendError<T> {
    /// The message that describes the error.
    pub fn message(&self) -> (r: &'static str)
        ensures
            r@ == "sending on a disconnected queue"@,
    {
        match self {
            SendError::Disconnected(..) => "sending on a disconnected queue",
        }
    }
}

/// An error that may be emitted when attempting to receive a value on
/// bounded queues.
#[derive(Copy, Clone, PartialEq, Eq, Debug)]
pub enum TryRecvError {
    /// The queue was empty when the receive was attempted.
    Empty,
    /// There are no more senders, so no values can be received.
    Disconnected,
}

impl TryRecvError {
    /// The message that describes the error.
    pub fn message(&self) -> (r: &'static str)
        ensures
            *self is Empty ==> r@ == "receiving on an empty queue"@,
            *self is Disconnected ==> r@ == "receiving on a disconnected queue"@,
    {
        match self {
            TryRecvError::Empty => "receiving on an empty queue",
            TryRecvError::Disconnected => "receiving on a disconnected queue",
        }
    }
}

/// An error that may be emitted when attempting to receive a value.
#[derive(Copy, Clone, PartialEq, Eq, Debug)]
pub enum RecvError {
    /// There are no more senders, so no values can be received.
    Disconnected,
}

impl RecvError {
    /// The message that describes the error.
    pub fn message(&self) -> (r: &'static str)
        ensures
            r@ == "receiving on a disconnected queue"@,
    {
        match self {
            RecvError::Disconnected => "receiving on a disconnected queue",
        }
    }
}

} // verus!
