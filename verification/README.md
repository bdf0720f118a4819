# cosmo

Bounded queues over power-of-two ring buffers, with their behaviour stated
as Verus contracts and proved.

- `src/pow2.rs`: `next_power_of_two` and the fact that masking a position
  with `capacity - 1` is taking it modulo the capacity.
- `src/ring.rs`: the model of a ring of slots (positions `[head, tail)` hold
  the queued values) and the lemmas on writing at the tail and taking at
  the head.
- `src/collection/`: the `ConcurrentQueue` interface and its two
  implementations over a shared `Buffer`: single producer / single consumer
  (`SpscConcurrentQueue`, with `peek`) and single producer / multiple
  consumers (`SpmcConcurrentQueue`, with a cached copy of the producer
  position).
- `src/sync/queue.rs`: a queue whose producer looks a quarter of the ring
  ahead for room; its state is `QueueState`, and each operation is stated
  as a function on that state.
- `src/sync/channel.rs`: the same queue with a waker for each side
  (`futures-util`'s `AtomicWaker`), for asynchronous code.
- `src/sync.rs`: the error types.

The operations take `&mut self`: the queues are verified as sequential
objects. `app/` wraps them in `Arc<Mutex<..>>` handles (`Sender`,
`Receiver`, and `SharedQueue` for the collection queues) for threads and
tasks, and holds the asynchronous `send`,
`recv` and the `Stream` impl.
