//! Interrupt pending bits
use vstd::prelude::*;

verus! {

/// Value of the `PENDING` register after reset.
pub const RESET_VALUE: u32 = 0x0;

/// Marker type of the `PENDING` register: Interrupt pending bits.
pub struct PendingSpec;

/// Value read from the `PENDING` register.
#[derive(Clone, Copy, Debug, PartialEq, Eq)]
pub struct R {
    /// Raw register value.
    pub bits: u32,
}

impl R {
    /// Raw register value.
    pub fn bits(&self) -> (r: u32)
        ensures
            r == self.bits,
    {
        self.bits
    }
}

} // verus!
