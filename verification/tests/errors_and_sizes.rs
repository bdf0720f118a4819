use cosmo::pow2::next_power_of_two;
use cosmo::sync::{RecvError, SendError, TryRecvError, TrySendError};

#[test]
fn next_power_of_two_values() {
    assert_eq!(1, next_power_of_two(0));
    assert_eq!(1, next_power_of_two(1));
    assert_eq!(2, next_power_of_two(2));
    assert_eq!(8, next_power_of_two(5));
    assert_eq!(16, next_power_of_two(10));
    assert_eq!(1024, next_power_of_two(1024));
    assert_eq!(2048, next_power_of_two(1025));
    let top = usize::MAX / 2 + 1;
    assert_eq!(top, next_power_of_two(top));
    assert_eq!(top, next_power_of_two(top - 1));
}

#[test]
fn into_inner_returns_the_value() {
    assert_eq!(3, TrySendError::Full(3).into_inner());
    assert_eq!(4, TrySendError::Disconnected(4).into_inner());
}

#[test]
fn error_messages() {
    assert_eq!("sending on a full queue", TrySendError::Full(1).message());
    assert_eq!("sending on a disconnected queue", TrySendError::Disconnected(1).message());
    assert_eq!("Full(..)", TrySendError::Full(1).label());
    assert_eq!("Disconnected(..)", TrySendError::Disconnected(1).label());
    assert_eq!("sending on a disconnected queue", SendError::Disconnected(1).message());
    assert_eq!("receiving on an empty queue", TryRecvError::Empty.message());
    assert_eq!("receiving on a disconnected queue", TryRecvError::Disconnected.message());
    assert_eq!("receiving on a disconnected queue", RecvError::Disconnected.message());
}
