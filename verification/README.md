# cortex_ar

The Cortex-A/R platform layer of an async executor, verified with Verus.

A run queue reports each wake-up of one of its tasks to the *pender*, with a context word.
`src/` decides what happens then, as functions from plain values to plain values:

- a wake-up on the thread-mode executor executes `SEV`, so that the executor leaves `WFE`
  and polls;
- a wake-up on an interrupt-mode executor pends that executor's Software-Generated
  Interrupt on the requesting CPU, by a write to `GICD_SGIR`. The Distributor is at
  `PERIPHBASE + 0x1000` (from CBAR) unless `set_gicd_base` supplied another address.

`src/gic.rs` is for applications: it computes the GIC setup and the dispatch of an
acknowledged interrupt. Handlers acknowledge via `GICC_IAR`, then call `on_interrupt()`,
then signal the end of the interrupt via `GICC_EOIR`. `src/laws.rs` states and proves what
holds of the parts together.

`app/` executes the instructions and performs the register accesses, around a run queue
that the integrator supplies.

Each executor has a run queue of its own, which its spawners and its interrupt handler
refer to by a `QueueId` that the integrator chooses. Starting an interrupt executor takes it
exclusively; code that shares one between execution contexts serialises its calls, as
`app/interrupt.rs` does.

The flag of an interrupt executor lives in a `critical_section::Mutex`: programs provide a
critical section implementation, and the tests use the `std` feature of that crate.
