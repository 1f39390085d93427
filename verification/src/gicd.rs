//! The GIC Distributor: its base address and its SGI register.

use vstd::prelude::*;

use crate::mmio::RegisterWrite;

verus! {

/// Offset of the Distributor from `PERIPHBASE` on Cortex-A MPCore parts.
pub const GICD_OFFSET: u32 = 0x1000;

/// Offset of `GICD_SGIR` from the Distributor base.
pub const SGIR_OFFSET: usize = 0xF00;

/// `GICD_SGIR` with `TargetListFilter` = `0b10`, which routes the SGI to the requesting
/// CPU only, and every other field zero.
pub const SGIR_TO_SELF: u32 = 0x0200_0000;

/// Platform-supplied Distributor base, or 0 to derive it from CBAR.
///
/// 0 is correct for Cortex-A MPCore parts, where the GIC sits at `PERIPHBASE + 0x1000`.
/// On parts whose GIC is at a fixed address unrelated to CBAR (the Renesas RZ/A1 has its
/// Distributor at `0xE820_1000` while CBAR reads `0xF000_0000`) the application must
/// supply the address, with [`set_gicd_base`].
#[derive(Clone, Copy, Debug, PartialEq, Eq, Structural)]
pub struct GicdOverride {
    pub base: usize,
}

impl GicdOverride {
    /// No override: the base is derived from CBAR.
    pub fn new() -> (r: Self)
        ensures
            r.base == 0,
    {
        GicdOverride { base: 0 }
    }

    /// Whether `GICD_SGIR` of the overriding Distributor has an address at all.
    pub fn sgir_addressable(&self) -> (r: bool)
        ensures
            r == (self.base + SGIR_OFFSET <= usize::MAX),
    {
        self.base <= usize::MAX - SGIR_OFFSET
    }
}

/// Overrides the Distributor base used by the SGI pender, bypassing CBAR discovery.
///
/// `base` is the Distributor base, the block whose `GICD_SGIR` lives at offset `0xF00`;
/// 0 goes back to discovery. To be called once at startup, before any interrupt executor
/// is started or any task on it is woken.
pub fn set_gicd_base(gicd: &mut GicdOverride, base: usize)
    ensures
        *final(gicd) == (GicdOverride { base }),
{
    gicd.base = base;
}

/// Where the Distributor base comes from.
#[derive(Clone, Copy, Debug, PartialEq, Eq, Structural)]
pub enum GicdBase {
    /// It is this address.
    At(usize),
    /// It has to be derived from CBAR, by [`gicd_base_from_cbar`].
    FromCbar,
}

/// Where the Distributor base comes from: the override when one was provided, CBAR
/// otherwise.
pub fn gicd_base(gicd: &GicdOverride) -> (r: GicdBase)
    ensures
        r == (if gicd.base != 0 {
            GicdBase::At(gicd.base)
        } else {
            GicdBase::FromCbar
        }),
{
    if gicd.base != 0 {
        return GicdBase::At(gicd.base);
    }
    GicdBase::FromCbar
}

/// `PERIPHBASE`: the value read from CBAR, rounded down to a multiple of 1 MiB.
pub open spec fn periphbase_of(cbar: u32) -> int {
    (cbar / 0x10_0000) * 0x10_0000
}

/// The Distributor base that goes with the value read from CBAR.
pub open spec fn cbar_gicd_base(cbar: u32) -> int {
    periphbase_of(cbar) + GICD_OFFSET
}

/// The masked CBAR value is `PERIPHBASE`.
pub proof fn lemma_periphbase_mask(cbar: u32)
    ensures
        (cbar & 0xFFF0_0000) == periphbase_of(cbar),
        0 <= periphbase_of(cbar) <= 0xFFF0_0000,
{
    assert((cbar & 0xFFF0_0000) == (cbar / 0x10_0000) * 0x10_0000) by (bit_vector);
    assert((cbar & 0xFFF0_0000) <= 0xFFF0_0000) by (bit_vector);
}

/// The Distributor base derived from the value read from CBAR.
pub fn gicd_base_from_cbar(cbar: u32) -> (r: usize)
    ensures
        r == cbar_gicd_base(cbar),
        r <= 0xFFF0_1000,
{
    proof {
        lemma_periphbase_mask(cbar);
    }
    ((cbar & 0xFFF0_0000) + GICD_OFFSET) as usize
}

/// The write that pends SGI `sgi_id` on the requesting CPU, with the Distributor at
/// `base`.
pub open spec fn sgir_write_spec(base: int, sgi_id: int) -> RegisterWrite {
    RegisterWrite {
        address: (base + SGIR_OFFSET) as usize,
        value: (SGIR_TO_SELF + sgi_id) as u32,
    }
}

/// The write that pends SGI `sgi_id` on the requesting CPU, with the Distributor at
/// `base`.
pub fn sgir_write(base: usize, sgi_id: u32) -> (r: RegisterWrite)
    requires
        base + SGIR_OFFSET <= usize::MAX,
        sgi_id < 16,
    ensures
        r == sgir_write_spec(base as int, sgi_id as int),
        r.address == base + SGIR_OFFSET,
        r.value == SGIR_TO_SELF + sgi_id,
{
    assert((SGIR_TO_SELF | sgi_id) == SGIR_TO_SELF + sgi_id) by (bit_vector)
        requires
            sgi_id < 16,
    ;
    RegisterWrite { address: base + SGIR_OFFSET, value: SGIR_TO_SELF | sgi_id }
}

/// `SGIINTID` of a value written to `GICD_SGIR`: the SGI that it pends.
pub open spec fn sgir_intid(value: u32) -> u32 {
    value % 0x10
}

/// `TargetListFilter` of a value written to `GICD_SGIR`.
pub open spec fn sgir_target_list_filter(value: u32) -> u32 {
    (value / 0x100_0000) % 4
}

/// The bits of a value written to `GICD_SGIR` outside of `SGIINTID` and
/// `TargetListFilter`.
pub open spec fn sgir_other_bits(value: u32) -> int {
    value - sgir_intid(value) - 0x100_0000 * sgir_target_list_filter(value)
}

} // verus!
