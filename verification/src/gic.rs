//! GIC setup and interrupt dispatch for an application that runs one interrupt executor.
//!
//! This is the application's side of the bargain on a part with its GIC at `PERIPHBASE`:
//! the executor only *triggers* its SGI. All addresses are computed from the value read
//! from CBAR.

use vstd::prelude::*;

use crate::gicd::{cbar_gicd_base, gicd_base_from_cbar, lemma_periphbase_mask, periphbase_of};
use crate::mmio::RegisterWrite;

verus! {

/// Offset of the CPU interface from `PERIPHBASE`.
pub const GICC_OFFSET: usize = 0x100;

/// Offset of `GICD_CTLR` from the Distributor base.
pub const GICD_CTLR: usize = 0x000;

/// Offset of `GICD_ISENABLER0` from the Distributor base.
pub const GICD_ISENABLER0: usize = 0x100;

/// Offset of `GICC_CTLR` from the CPU interface base.
pub const GICC_CTLR: usize = 0x000;

/// Offset of `GICC_PMR` from the CPU interface base.
pub const GICC_PMR: usize = 0x004;

/// Offset of `GICC_IAR` from the CPU interface base.
pub const GICC_IAR: usize = 0x00C;

/// Offset of `GICC_EOIR` from the CPU interface base.
pub const GICC_EOIR: usize = 0x010;

/// `PERIPHBASE`, from the value read from CBAR.
pub fn periphbase(cbar: u32) -> (r: usize)
    ensures
        r == periphbase_of(cbar),
        r <= 0xFFF0_0000,
{
    proof {
        lemma_periphbase_mask(cbar);
    }
    (cbar & 0xFFF0_0000) as usize
}

/// Base of the Distributor.
pub fn gicd(cbar: u32) -> (r: usize)
    ensures
        r == cbar_gicd_base(cbar),
        r <= 0xFFF0_1000,
{
    gicd_base_from_cbar(cbar)
}

/// Base of the CPU interface.
pub open spec fn gicc_base(cbar: u32) -> int {
    periphbase_of(cbar) + GICC_OFFSET
}

/// Base of the CPU interface.
pub fn gicc(cbar: u32) -> (r: usize)
    ensures
        r == gicc_base(cbar),
        r <= 0xFFF0_0100,
{
    periphbase(cbar) + GICC_OFFSET
}

/// Whether a value written to `GICD_ISENABLER0` enables interrupt `id`.
pub open spec fn enables(value: u32, id: int) -> bool {
    (value >> (id as u32)) & 1 == 1
}

/// The writes, in order, that set the GIC up for the given interrupt.
pub open spec fn init_writes(cbar: u32, sgi: u8) -> Seq<RegisterWrite> {
    seq![
        RegisterWrite { address: (cbar_gicd_base(cbar) + GICD_CTLR) as usize, value: 1 },
        RegisterWrite {
            address: (cbar_gicd_base(cbar) + GICD_ISENABLER0) as usize,
            value: 1u32 << sgi,
        },
        RegisterWrite { address: (gicc_base(cbar) + GICC_PMR) as usize, value: 0xFF },
        RegisterWrite { address: (gicc_base(cbar) + GICC_CTLR) as usize, value: 1 },
    ]
}

/// The writes, in order, that enable the Distributor, unmask the given interrupt, accept
/// interrupts of all priorities and enable the CPU interface.
///
/// To be performed once, before interrupts are enabled on the core.
pub fn init(cbar: u32, sgi: u8) -> (r: [RegisterWrite; 4])
    requires
        sgi < 32,
    ensures
        r@ == init_writes(cbar, sgi),
        r[0].address == cbar_gicd_base(cbar) + GICD_CTLR,
        r[0].value == 1,
        r[1].address == cbar_gicd_base(cbar) + GICD_ISENABLER0,
        r[1].value == 1u32 << sgi,
        forall|id: int| 0 <= id < 32 ==> (#[trigger] enables(r[1].value, id) <==> id == sgi),
        r[2].address == gicc_base(cbar) + GICC_PMR,
        r[2].value == 0xFF,
        r[3].address == gicc_base(cbar) + GICC_CTLR,
        r[3].value == 1,
{
    proof {
        lemma_periphbase_mask(cbar);
    }
    let enable: u32 = 1u32 << sgi;
    assert forall|id: int| 0 <= id < 32 implies (#[trigger] enables(enable, id) <==> id
        == sgi) by {
        let k = id as u32;
        let s = sgi as u32;
        assert(((1u32 << s) >> k) & 1 == 1 <==> k == s) by (bit_vector)
            requires
                k < 32,
                s < 32,
        ;
    }
    [
        RegisterWrite { address: gicd(cbar) + GICD_CTLR, value: 1 },
        RegisterWrite { address: gicd(cbar) + GICD_ISENABLER0, value: enable },
        RegisterWrite { address: gicc(cbar) + GICC_PMR, value: 0xFF },
        RegisterWrite { address: gicc(cbar) + GICC_CTLR, value: 1 },
    ]
}

/// The address to read in order to acknowledge an interrupt.
pub open spec fn iar_address_spec(cbar: u32) -> int {
    gicc_base(cbar) + GICC_IAR
}

/// The address to read in order to acknowledge an interrupt.
pub fn iar_address(cbar: u32) -> (r: usize)
    ensures
        r == iar_address_spec(cbar),
        r == gicc_base(cbar) + GICC_IAR,
{
    gicc(cbar) + GICC_IAR
}

/// The interrupt that a value read from `GICC_IAR` acknowledges.
pub open spec fn iar_intid(iar: u32) -> u32 {
    iar % 0x400
}

/// Whether a value read from `GICC_IAR` calls for the executor that `sgi` drives.
pub open spec fn dispatches(sgi: u8, iar: u32) -> bool {
    iar_intid(iar) == sgi
}

/// What an interrupt handler does once it has acknowledged the interrupt.
#[derive(Clone, Copy, Debug, PartialEq, Eq, Structural)]
pub struct IrqPlan {
    /// Whether to call `on_interrupt` on the executor, before the end of the interrupt is
    /// signalled.
    pub on_interrupt: bool,
    /// The write that signals the end of the interrupt, in any case.
    pub end_of_interrupt: RegisterWrite,
}

/// What an interrupt handler does once it has read `iar` from `GICC_IAR`, where `sgi`
/// drives the executor.
pub open spec fn irq_plan(cbar: u32, sgi: u8, iar: u32) -> IrqPlan {
    IrqPlan {
        on_interrupt: dispatches(sgi, iar),
        end_of_interrupt: RegisterWrite {
            address: (gicc_base(cbar) + GICC_EOIR) as usize,
            value: iar,
        },
    }
}

/// What an interrupt handler does once it has read `iar` from `GICC_IAR`, where `sgi`
/// drives the executor.
///
/// The end of the interrupt is signalled with the whole value that was read.
pub fn irq(cbar: u32, sgi: u8, iar: u32) -> (r: IrqPlan)
    ensures
        r == irq_plan(cbar, sgi, iar),
        r.on_interrupt == dispatches(sgi, iar),
        r.on_interrupt == ((iar & 0x3FF) == sgi as u32),
        r.end_of_interrupt.address == gicc_base(cbar) + GICC_EOIR,
        r.end_of_interrupt.value == iar,
{
    proof {
        lemma_periphbase_mask(cbar);
    }
    assert((iar & 0x3FF) == iar % 0x400) by (bit_vector);
    let intid: u32 = iar & 0x3FF;
    IrqPlan {
        on_interrupt: intid == sgi as u32,
        end_of_interrupt: RegisterWrite { address: gicc(cbar) + GICC_EOIR, value: iar },
    }
}

} // verus!
