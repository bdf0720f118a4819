//! Bounded ring-buffer queues and channels, verified with Verus.

pub mod pow2;
pub mod ring;
pub mod collection;
pub mod sync;
