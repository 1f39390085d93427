//! What the platform layer knows of the run queue behind an executor.
//!
//! The run queue itself, its tasks and their polling live with the integrator. Two things
//! of it matter here: which queue it is, and its *pender context*, the word that the queue
//! passes back to [`__pender`](crate::pender::__pender) each time one of its tasks is
//! woken. The platform chooses the context. Several queues may share one: two executors on
//! the same interrupt are woken together and still are two.

use vstd::prelude::*;

verus! {

/// Which run queue it is. The integrator gives each executor a queue of its own, and each
/// queue an identity of its own, such as its address.
#[derive(Clone, Copy, Debug, PartialEq, Eq, Structural)]
pub struct QueueId(pub usize);

/// The run queue `queue`, which passes `context` to the pender.
#[derive(Clone, Copy, Debug, PartialEq, Eq, Structural)]
pub struct RawExecutor {
    pub queue: QueueId,
    pub context: usize,
}

/// A handle that spawns tasks on the run queue `queue`, whose pender context is `context`,
/// from the execution context in which that queue is polled.
#[derive(Clone, Copy, Debug, PartialEq, Eq, Structural)]
pub struct Spawner {
    pub queue: QueueId,
    pub context: usize,
}

/// A handle that spawns tasks on the run queue `queue`, whose pender context is `context`,
/// from any execution context.
#[derive(Clone, Copy, Debug, PartialEq, Eq, Structural)]
pub struct SendSpawner {
    pub queue: QueueId,
    pub context: usize,
}

impl RawExecutor {
    /// The run queue `queue`, which is to pass `context` to the pender.
    pub fn new(queue: QueueId, context: usize) -> (r: Self)
        ensures
            r == (RawExecutor { queue, context }),
    {
        RawExecutor { queue, context }
    }

    /// The spawner of this run queue.
    pub fn spawner(&self) -> (r: Spawner)
        ensures
            r == (Spawner { queue: self.queue, context: self.context }),
    {
        Spawner { queue: self.queue, context: self.context }
    }
}

impl Spawner {
    /// The same spawner, usable from any execution context.
    pub fn make_send(&self) -> (r: SendSpawner)
        ensures
            r == (SendSpawner { queue: self.queue, context: self.context }),
    {
        SendSpawner { queue: self.queue, context: self.context }
    }
}

} // verus!
