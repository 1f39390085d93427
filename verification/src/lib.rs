//! Cortex-A/R platform layer of an async executor.
//!
//! An executor's run queue reports each wake-up of one of its tasks by calling the
//! *pender* with a context word. This crate decides what a wake-up does on an AArch32
//! core, and in which order an executor polls and sleeps:
//!
//! - [`thread`]: the thread-mode executor, which sleeps with `WFE` and is woken by `SEV`;
//! - [`interrupt`]: the interrupt-mode executor, driven by a Software-Generated Interrupt
//!   (SGI) of the Generic Interrupt Controller (GIC);
//! - [`pender`]: the pender, which turns a context into a `SEV` or an SGI;
//! - [`gicd`]: where the GIC Distributor is, and what a write to its SGI register says;
//! - [`gic`]: GIC setup and interrupt dispatch for an application with one such executor;
//! - [`laws`]: what holds of these together.
//!
//! All of it computes on plain values, but for the start flag of an interrupt executor,
//! which is kept in a `critical_section::Mutex`. Executing `WFE` and `SEV`, reading the
//! coprocessor and writing to registers is left to the caller.

pub mod gic;
pub mod gicd;
pub mod interrupt;
pub mod laws;
pub mod mmio;
pub mod pender;
pub mod raw;
pub mod thread;

pub use gicd::set_gicd_base;
pub use interrupt::InterruptExecutor;
pub use raw::{QueueId, SendSpawner, Spawner};
pub use thread::Executor;
