//! FIFO Control Register
use vstd::prelude::*;
use crate::pac::{put_bit8, put_field8};

verus! {

/// Value of the `FCR` register after reset.
pub const RESET_VALUE: u8 = 0x0;

/// Fields of `FCR` that act when written with 1 (strobes and write-1-to-clear flags);
/// a read-modify-write leaves them 0 so that it does not trigger them.
pub const ONE_TO_MODIFY_FIELDS_BITMAP: u8 = 0x0;

/// Marker type of the `FCR` register: FIFO Control Register.
pub struct FcrSpec;

/// Value to be written to the `FCR` register.
#[derive(Clone, Copy, Debug, PartialEq, Eq)]
pub struct W {
    /// Raw register value.
    pub bits: u8,
}

impl W {
    /// Writer for a plain write: starts from the reset value (`RESET_VALUE`), with every
    /// strobe and write-1-to-clear field left 0.
    pub fn new() -> (w: W)
        ensures
            w.bits == 0x0,
    {
        W { bits: 0x0 }
    }

    /// Replaces the whole register value.
    pub fn bits(&mut self, bits: u8)
        ensures
            final(self).bits == bits,
    {
        self.bits = bits;
    }

    /// Bit 0 - FIFO enable
    pub fn fifoe(&mut self, value: bool)
        ensures
            final(self).bits == crate::pac::with_bit8(old(self).bits, 0, value),
    {
        self.bits = put_bit8(self.bits, 0, value);
    }

    /// Bit 1 - Receiver FIFO reset (self-clearing)
    pub fn rfifor(&mut self, value: bool)
        ensures
            final(self).bits == crate::pac::with_bit8(old(self).bits, 1, value),
    {
        self.bits = put_bit8(self.bits, 1, value);
    }

    /// Bit 2 - Transmitter FIFO reset (self-clearing)
    pub fn xfifor(&mut self, value: bool)
        ensures
            final(self).bits == crate::pac::with_bit8(old(self).bits, 2, value),
    {
        self.bits = put_bit8(self.bits, 2, value);
    }

    /// Bit 3 - DMA mode select
    pub fn dmam(&mut self, value: bool)
        ensures
            final(self).bits == crate::pac::with_bit8(old(self).bits, 3, value),
    {
        self.bits = put_bit8(self.bits, 3, value);
    }

    /// Bits 6:7 - Receiver FIFO trigger level
    pub fn rftl(&mut self, value: u8)
        ensures
            final(self).bits == crate::pac::with_field8(old(self).bits, 6, 0x3, value),
    {
        self.bits = put_field8(self.bits, 6, 0x3, value);
    }
}

} // verus!
