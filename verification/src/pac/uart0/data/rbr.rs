//! Receiver Buffer Register
use vstd::prelude::*;

verus! {

/// Value of the `RBR` register after reset.
pub const RESET_VALUE: u8 = 0x0;

/// Marker type of the `RBR` register: Receiver Buffer Register.
pub struct RbrSpec;

/// Value read from the `RBR` register.
#[derive(Clone, Copy, Debug, PartialEq, Eq)]
pub struct R {
    /// Raw register value.
    pub bits: u8,
}

impl R {
    /// Raw register value.
    pub fn bits(&self) -> (r: u8)
        ensures
            r == self.bits,
    {
        self.bits
    }
}

} // verus!
