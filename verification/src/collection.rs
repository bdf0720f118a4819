//! Bounded queues over a power-of-two ring buffer: a single-producer
//! single-consumer one and a single-producer multiple-consumer one.

pub mod buffer;
pub mod concurrent_queue;
pub mod spmc_concurrent_queue;
pub mod spsc_concurrent_queue;

pub use concurrent_queue::ConcurrentQueue;
pub use spmc_concurrent_queue::SpmcConcurrentQueue;
pub use spsc_concurrent_queue::SpscConcurrentQueue;
