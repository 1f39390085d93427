//! The thread-mode executor.

use vstd::prelude::*;

use crate::raw::{QueueId, RawExecutor, Spawner};

verus! {

/// The pender context of the thread-mode executor.
pub const THREAD_PENDER: usize = usize::MAX;

/// Thread-mode executor, using WFE/SEV.
///
/// It runs in thread mode, at the lowest priority level, and sleeps with the `WFE`
/// instruction when it has no more work to do. When a task is woken a `SEV` instruction
/// is executed, to make the `WFE` exit from sleep and poll the task.
pub struct Executor {
    inner: RawExecutor,
}

/// How far a run of the executor has got.
#[derive(Clone, Copy, Debug, PartialEq, Eq, Structural)]
pub enum RunState {
    /// Nothing has been done yet.
    Entry,
    /// The run queue is to be polled.
    Ready,
    /// The run queue has been polled.
    Polled,
}

/// What a run of the executor does.
#[derive(Clone, Copy, Debug, PartialEq, Eq, Structural)]
pub enum RunAction {
    /// Call the `init` closure with this spawner, to spawn the initial tasks.
    Init(Spawner),
    /// Poll the run queue.
    Poll,
    /// Execute `WFE`, to sleep until the next event.
    Wfe,
}

/// What a run of the executor with this run queue does in this state, and the state it is
/// in afterwards.
pub open spec fn run_step(queue: QueueId, state: RunState) -> (RunAction, RunState) {
    match state {
        RunState::Entry => (
            RunAction::Init(Spawner { queue, context: THREAD_PENDER }),
            RunState::Ready,
        ),
        RunState::Ready => (RunAction::Poll, RunState::Polled),
        RunState::Polled => (RunAction::Wfe, RunState::Ready),
    }
}

impl Executor {
    #[verifier::type_invariant]
    spec fn inv(self) -> bool {
        self.inner.context == THREAD_PENDER
    }

    /// The run queue.
    pub closed spec fn queue(self) -> QueueId {
        self.inner.queue
    }

    /// The context that the run queue passes to the pender.
    pub closed spec fn context(self) -> usize {
        self.inner.context
    }

    /// Creates a new executor, with this run queue.
    pub fn new(queue: QueueId) -> (r: Self)
        ensures
            r.queue() == queue,
            r.context() == THREAD_PENDER,
    {
        Executor { inner: RawExecutor::new(queue, THREAD_PENDER) }
    }

    /// Takes one step of a run of the executor.
    ///
    /// A run starts in [`RunState::Entry`] and never ends: the caller performs the action
    /// and takes the next step from the new state. The `init` closure gets a spawner for
    /// this executor, and after it has returned the executor alternates between polling
    /// and sleeping.
    pub fn run(&self, state: RunState) -> (r: (RunAction, RunState))
        ensures
            self.context() == THREAD_PENDER,
            r == run_step(self.queue(), state),
    {
        proof {
            use_type_invariant(self);
        }
        match state {
            RunState::Entry => (RunAction::Init(self.inner.spawner()), RunState::Ready),
            RunState::Ready => (RunAction::Poll, RunState::Polled),
            RunState::Polled => (RunAction::Wfe, RunState::Ready),
        }
    }
}

} // verus!
