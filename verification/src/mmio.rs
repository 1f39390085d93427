//! Accesses to memory-mapped registers, as plain values.

use vstd::prelude::*;

verus! {

/// One 32-bit volatile write: `value` goes to the register at `address`.
#[derive(Clone, Copy, Debug, PartialEq, Eq, Structural)]
pub struct RegisterWrite {
    pub address: usize,
    pub value: u32,
}

} // verus!
