//! Input level (one bit per pin, driven by each pin's peer)
use vstd::prelude::*;

verus! {

/// Value of the `IN` register after reset.
pub const RESET_VALUE: u32 = 0x0;

/// Marker type of the `IN` register: Input level (one bit per pin, driven by each pin's peer).
pub struct InSpec;

/// Value read from the `IN` register.
#[derive(Clone, Copy, Debug, PartialEq, Eq)]
pub struct R {
    /// Raw register value.
    pub bits: u32,
}

impl R {
    /// Raw register value.
    pub fn bits(&self) -> (r: u32)
        ensures
            r == self.bits,
    {
        self.bits
    }
}

} // verus!
