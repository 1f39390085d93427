//! The interrupt-mode executor.

use vstd::prelude::*;

use crate::raw::{QueueId, RawExecutor, SendSpawner};

verus! {

/// Number of Software-Generated Interrupts: their ids are `0..=15`.
pub const SGI_COUNT: u8 = 16;

/// `critical_section::Mutex`, opaque here.
#[verifier::external_type_specification]
#[verifier::external_body]
#[verifier::reject_recursive_types(T)]
pub struct ExMutex<T>(critical_section::Mutex<T>);

/// `core::cell::Cell`, opaque here.
#[verifier::external_type_specification]
#[verifier::external_body]
#[verifier::reject_recursive_types(T)]
pub struct ExCell<T: ?Sized>(core::cell::Cell<T>);

/// The boolean inside a mutex-protected cell.
///
/// A `Cell` can be written to through a shared reference. Nothing here does so: the only
/// write, [`replace_flag`], takes the mutex exclusively, so what is behind a shared
/// reference to it stays as it is.
pub uninterp spec fn flag_value(flag: critical_section::Mutex<core::cell::Cell<bool>>) -> bool;

/// `critical_section::Mutex::new` around a `Cell`: the mutex holds the value that it was
/// made with.
#[verifier::external_body]
fn new_flag(value: bool) -> (flag: critical_section::Mutex<core::cell::Cell<bool>>)
    ensures
        flag_value(flag) == value,
{
    critical_section::Mutex::new(core::cell::Cell::new(value))
}

/// `critical_section::with` around `Mutex::borrow` and `Cell::replace`: inside one
/// critical section, stores `value` and returns the value that was there.
#[verifier::external_body]
fn replace_flag(
    flag: &mut critical_section::Mutex<core::cell::Cell<bool>>,
    value: bool,
) -> (previous: bool)
    ensures
        previous == flag_value(*old(flag)),
        flag_value(*final(flag)) == value,
{
    critical_section::with(|cs| flag.borrow(cs).replace(value))
}

/// `critical_section::with` around `Mutex::borrow` and `Cell::get`: inside one critical
/// section, returns the value that is there.
#[verifier::external_body]
fn read_flag(flag: &critical_section::Mutex<core::cell::Cell<bool>>) -> (value: bool)
    ensures
        value == flag_value(*flag),
{
    critical_section::with(|cs| flag.borrow(cs).get())
}

/// Why an interrupt executor refuses a request.
#[derive(Clone, Copy, Debug, PartialEq, Eq, Structural)]
pub enum InterruptError {
    /// The interrupt id is not that of an SGI.
    SgiOutOfRange,
    /// The executor has been started before.
    AlreadyStarted,
    /// The executor has not been started.
    NotStarted,
}

impl InterruptError {
    /// The message to fail with.
    pub fn message(&self) -> (r: &'static str)
        ensures
            r@ == (match self {
                InterruptError::SgiOutOfRange => "SGI interrupt id must be in 0..=15"@,
                InterruptError::AlreadyStarted =>
                    "InterruptExecutor::start() called multiple times on the same executor."@,
                InterruptError::NotStarted =>
                    "InterruptExecutor::spawner() called on uninitialized executor."@,
            }),
    {
        match self {
            InterruptError::SgiOutOfRange => "SGI interrupt id must be in 0..=15",
            InterruptError::AlreadyStarted =>
                "InterruptExecutor::start() called multiple times on the same executor.",
            InterruptError::NotStarted =>
                "InterruptExecutor::spawner() called on uninitialized executor.",
        }
    }
}

/// Interrupt executor.
///
/// It runs tasks in interrupt mode: the interrupt handler polls them, and when a task is
/// woken the interrupt is pended from software, as an SGI. Several of these executors run
/// at different priorities where their SGIs have different priorities.
///
/// Starting an executor takes it exclusively, and asking whether it has been started takes
/// it shared: the flag is tested and set inside a critical section, but that section alone
/// does not serialise callers that share an executor. Where several execution contexts
/// share one, the sharing code has to put a lock or a critical section of its own around
/// each call.
///
/// Its view is `None` until it is started, and then the id of the SGI that drives it.
pub struct InterruptExecutor {
    started: critical_section::Mutex<core::cell::Cell<bool>>,
    queue: QueueId,
    executor: Option<RawExecutor>,
}

impl View for InterruptExecutor {
    type V = Option<u8>;

    closed spec fn view(&self) -> Option<u8> {
        match self.executor {
            Some(executor) => Some(executor.context as u8),
            None => None,
        }
    }
}

/// The answer to a request to start on `sgi_interrupt_id` an executor whose run queue is
/// `queue` and whose view is `state`, and its view afterwards.
pub open spec fn start_outcome(queue: QueueId, state: Option<u8>, sgi_interrupt_id: u8) -> (
    Result<SendSpawner, InterruptError>,
    Option<u8>,
) {
    if sgi_interrupt_id >= SGI_COUNT {
        (Err(InterruptError::SgiOutOfRange), state)
    } else if state is Some {
        (Err(InterruptError::AlreadyStarted), state)
    } else {
        (Ok(SendSpawner { queue, context: sgi_interrupt_id as usize }), Some(sgi_interrupt_id))
    }
}

/// The answer to a request for a spawner of an executor whose run queue is `queue` and
/// whose view is `state`.
pub open spec fn spawner_outcome(queue: QueueId, state: Option<u8>) -> Result<
    SendSpawner,
    InterruptError,
> {
    match state {
        Some(sgi) => Ok(SendSpawner { queue, context: sgi as usize }),
        None => Err(InterruptError::NotStarted),
    }
}

impl InterruptExecutor {
    /// The flag is set exactly when the run queue is in use, and then the queue's context is
    /// the id of an SGI.
    pub closed spec fn wf(self) -> bool {
        &&& flag_value(self.started) == self.executor is Some
        &&& self.executor matches Some(executor) ==> {
            &&& executor.queue == self.queue
            &&& executor.context < SGI_COUNT
        }
    }

    /// The run queue, the same for the whole life of the executor.
    pub closed spec fn queue(self) -> QueueId {
        self.queue
    }

    /// An executor that has been started is on one of the SGIs.
    pub proof fn lemma_started_on_an_sgi(self)
        requires
            self.wf(),
            self@ is Some,
        ensures
            self@->0 < SGI_COUNT,
    {
    }

    /// Creates a new, not started executor, with this run queue.
    pub fn new(queue: QueueId) -> (r: Self)
        ensures
            r.wf(),
            r.queue() == queue,
            r@ is None,
    {
        InterruptExecutor { started: new_flag(false), queue, executor: None }
    }

    /// Whether the executor has been started.
    pub fn is_started(&self) -> (r: bool)
        requires
            self.wf(),
        ensures
            r == self@ is Some,
    {
        read_flag(&self.started)
    }

    /// Lets `sgi_interrupt_id` drive the run queue, and hands out its spawner.
    fn install(&mut self, sgi_interrupt_id: u8) -> (r: SendSpawner)
        requires
            sgi_interrupt_id < SGI_COUNT,
            flag_value(old(self).started),
        ensures
            final(self).wf(),
            final(self).queue() == old(self).queue(),
            final(self)@ == Some(sgi_interrupt_id),
            r == (SendSpawner {
                queue: old(self).queue(),
                context: sgi_interrupt_id as usize,
            }),
    {
        let executor = RawExecutor::new(self.queue, sgi_interrupt_id as usize);
        self.executor = Some(executor);
        executor.spawner().make_send()
    }

    /// Starts the executor, unless the interrupt id is not that of an SGI or the executor
    /// has been started before.
    ///
    /// A refused request changes nothing.
    pub fn try_start(&mut self, sgi_interrupt_id: u8) -> (r: Result<SendSpawner, InterruptError>)
        requires
            old(self).wf(),
        ensures
            final(self).wf(),
            final(self).queue() == old(self).queue(),
            (r, final(self)@) == start_outcome(old(self).queue(), old(self)@, sgi_interrupt_id),
    {
        if sgi_interrupt_id >= SGI_COUNT {
            return Err(InterruptError::SgiOutOfRange);
        }
        if replace_flag(&mut self.started, true) {
            return Err(InterruptError::AlreadyStarted);
        }
        Ok(self.install(sgi_interrupt_id))
    }

    /// Starts the executor.
    ///
    /// `sgi_interrupt_id` is the id of the SGI that drives the executor: each time one of
    /// its tasks is woken, that SGI is pended on the requesting CPU. The caller gets a
    /// spawner for any execution context, since the executor runs in that of the
    /// interrupt.
    ///
    /// The GIC is not touched: configuring and enabling the SGI is up to the caller, and
    /// so is the interrupt handler, which has to call [`on_interrupt`](Self::on_interrupt)
    /// between acknowledging the interrupt and signalling its end.
    pub fn start(&mut self, sgi_interrupt_id: u8) -> (r: SendSpawner)
        requires
            old(self).wf(),
            sgi_interrupt_id < SGI_COUNT,
            old(self)@ is None,
        ensures
            final(self).wf(),
            final(self).queue() == old(self).queue(),
            final(self)@ == Some(sgi_interrupt_id),
            r == (SendSpawner {
                queue: old(self).queue(),
                context: sgi_interrupt_id as usize,
            }),
    {
        let _ = replace_flag(&mut self.started, true);
        self.install(sgi_interrupt_id)
    }

    /// The run queue that the interrupt handler has to poll.
    ///
    /// To be called from the interrupt handler only.
    pub fn on_interrupt(&self) -> (r: &RawExecutor)
        requires
            self.wf(),
            self@ is Some,
        ensures
            *r == (RawExecutor { queue: self.queue(), context: self@->0 as usize }),
            r.context < SGI_COUNT,
    {
        self.executor.as_ref().unwrap()
    }

    /// A spawner for this executor, unless it has not been started.
    pub fn try_spawner(&self) -> (r: Result<SendSpawner, InterruptError>)
        requires
            self.wf(),
        ensures
            r == spawner_outcome(self.queue(), self@),
            r matches Ok(spawner) ==> spawner.context < SGI_COUNT,
    {
        if !read_flag(&self.started) {
            return Err(InterruptError::NotStarted);
        }
        Ok(self.spawner())
    }

    /// A spawner for this executor.
    pub fn spawner(&self) -> (r: SendSpawner)
        requires
            self.wf(),
            self@ is Some,
        ensures
            r == (SendSpawner { queue: self.queue(), context: self@->0 as usize }),
            r.context < SGI_COUNT,
    {
        self.on_interrupt().spawner().make_send()
    }
}

} // verus!
