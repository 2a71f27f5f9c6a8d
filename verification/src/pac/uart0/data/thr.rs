//! Transmitter Holding Register
use vstd::prelude::*;

verus! {

/// Value of the `THR` register after reset.
pub const RESET_VALUE: u8 = 0x0;

/// Fields of `THR` that act when written with 1 (strobes and write-1-to-clear flags);
/// a read-modify-write leaves them 0 so that it does not trigger them.
pub const ONE_TO_MODIFY_FIELDS_BITMAP: u8 = 0x0;

/// Marker type of the `THR` register: Transmitter Holding Register.
pub struct ThrSpec;

/// Value to be written to the `THR` register.
#[derive(Clone, Copy, Debug, PartialEq, Eq)]
pub struct W {
    /// Raw register value.
    pub bits: u8,
}

impl W {
    /// Writer for a plain write: starts from the reset value (`RESET_VALUE`), with every
    /// strobe and write-1-to-clear field left 0.
    pub fn new() -> (w: W)
        ensures
            w.bits == 0x0,
    {
        W { bits: 0x0 }
    }

    /// Replaces the whole register value.
    pub fn bits(&mut self, bits: u8)
        ensures
            final(self).bits == bits,
    {
        self.bits = bits;
    }
}

} // verus!
