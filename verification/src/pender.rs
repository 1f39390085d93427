//! The pender: what a wake-up does.

use vstd::prelude::*;

use crate::gicd::{cbar_gicd_base, gicd_base, gicd_base_from_cbar};
use crate::gicd::{sgir_write, sgir_write_spec, SGIR_OFFSET, SGIR_TO_SELF};
use crate::gicd::{GicdBase, GicdOverride};
use crate::mmio::RegisterWrite;
use crate::thread::THREAD_PENDER;

verus! {

/// The kinds of executor that the program is built with.
#[derive(Clone, Copy, Debug, PartialEq, Eq, Structural)]
pub struct Features {
    /// A thread-mode executor.
    pub thread: bool,
    /// Interrupt-mode executors.
    pub interrupt: bool,
}

impl Features {
    /// Whether there is any executor for the pender to serve.
    pub open spec fn any(self) -> bool {
        self.thread || self.interrupt
    }

    /// Whether a wake-up with this context pends an SGI; all others signal an event.
    ///
    /// Where there are executors of one kind only, the context does not matter.
    pub open spec fn pends_sgi(self, context: usize) -> bool {
        self.interrupt && !(self.thread && context == THREAD_PENDER)
    }

    /// Whether a wake-up with this context pends an SGI.
    pub fn routes_to_sgi(&self, context: usize) -> (r: bool)
        ensures
            r == self.pends_sgi(context),
    {
        self.interrupt && !(self.thread && context == THREAD_PENDER)
    }
}

/// What the caller of the pender has to do next.
#[derive(Clone, Copy, Debug, PartialEq, Eq, Structural)]
pub enum PenderAction {
    /// Execute `SEV`. The wake-up is then complete.
    Sev,
    /// Write to `GICD_SGIR`. The wake-up is then complete.
    Write(RegisterWrite),
    /// Read CBAR and hand its value to [`pend_with_cbar`], along with `sgi_id`.
    ReadCbar { sgi_id: u32 },
}

/// What the pender asks for when it is called with `context`.
pub open spec fn pender_action(
    features: Features,
    gicd: GicdOverride,
    context: usize,
) -> PenderAction {
    if !features.pends_sgi(context) {
        PenderAction::Sev
    } else if gicd.base != 0 {
        PenderAction::Write(sgir_write_spec(gicd.base as int, (context % 16) as int))
    } else {
        PenderAction::ReadCbar { sgi_id: (context % 16) as u32 }
    }
}

/// Reports that a task was woken on the run queue with this context.
///
/// `context` is [`THREAD_PENDER`] for the thread-mode executor, or the SGI interrupt id
/// of an interrupt-mode executor. CBAR is asked for only where no override was provided.
pub fn __pender(features: Features, gicd: &GicdOverride, context: usize) -> (r: PenderAction)
    requires
        features.any(),
        features.pends_sgi(context) ==> gicd.base + SGIR_OFFSET <= usize::MAX,
    ensures
        r == pender_action(features, *gicd, context),
{
    if features.thread {
        if !features.interrupt || context == THREAD_PENDER {
            return PenderAction::Sev;
        }
    }
    assert((context & 0xF) == context % 16) by (bit_vector);
    let sgi_id: u32 = (context & 0xF) as u32;
    match gicd_base(gicd) {
        GicdBase::At(base) => PenderAction::Write(sgir_write(base, sgi_id)),
        GicdBase::FromCbar => PenderAction::ReadCbar { sgi_id },
    }
}

/// The write to `GICD_SGIR` that completes a wake-up, once CBAR has been read.
pub fn pend_with_cbar(sgi_id: u32, cbar: u32) -> (r: RegisterWrite)
    requires
        sgi_id < 16,
    ensures
        r == sgir_write_spec(cbar_gicd_base(cbar), sgi_id as int),
        r.address == cbar_gicd_base(cbar) + SGIR_OFFSET,
        r.value == SGIR_TO_SELF + sgi_id,
{
    sgir_write(gicd_base_from_cbar(cbar), sgi_id)
}

/// What a wake-up comes to in the end, on a core whose CBAR reads `cbar`.
pub open spec fn wake(
    features: Features,
    gicd: GicdOverride,
    cbar: u32,
    context: usize,
) -> PenderAction {
    match pender_action(features, gicd, context) {
        PenderAction::ReadCbar { sgi_id } => PenderAction::Write(
            sgir_write_spec(cbar_gicd_base(cbar), sgi_id as int),
        ),
        action => action,
    }
}

} // verus!
