//! Interrupt Enable Register
use vstd::prelude::*;
use crate::pac::{BitReader, get_bit32, put_bit32};

verus! {

/// Value of the `INT_ENABLE` register after reset.
pub const RESET_VALUE: u32 = 0x0;

/// Fields of `INT_ENABLE` that act when written with 1 (strobes and write-1-to-clear flags);
/// a read-modify-write leaves them 0 so that it does not trigger them.
pub const ONE_TO_MODIFY_FIELDS_BITMAP: u32 = 0x0;

/// Marker type of the `INT_ENABLE` register: Interrupt Enable Register.
pub struct IntEnableSpec;

/// Field `PERIPH_EN` reader - Enable peripheral channel interrupt
pub type PeriphEnR = BitReader;

/// Field `VWIRE_EN` reader - Enable virtual wire interrupt
pub type VwireEnR = BitReader;

/// Value read from the `INT_ENABLE` register.
#[derive(Clone, Copy, Debug, PartialEq, Eq)]
pub struct R {
    /// Raw register value.
    pub bits: u32,
}

impl R {
    /// Raw register value.
    pub fn bits(&self) -> (r: u32)
        ensures
            r == self.bits,
    {
        self.bits
    }

    /// Bit 0 - Enable peripheral channel interrupt
    pub fn periph_en(&self) -> (r: PeriphEnR)
        ensures
            r.bit == crate::pac::bit32(self.bits, 0),
    {
        BitReader::new(get_bit32(self.bits, 0))
    }

    /// Bit 1 - Enable virtual wire interrupt
    pub fn vwire_en(&self) -> (r: VwireEnR)
        ensures
            r.bit == crate::pac::bit32(self.bits, 1),
    {
        BitReader::new(get_bit32(self.bits, 1))
    }
}

/// Value to be written to the `INT_ENABLE` register.
#[derive(Clone, Copy, Debug, PartialEq, Eq)]
pub struct W {
    /// Raw register value.
    pub bits: u32,
}

impl W {
    /// Writer for a plain write: starts from the reset value (`RESET_VALUE`), with every
    /// strobe and write-1-to-clear field left 0.
    pub fn new() -> (w: W)
        ensures
            w.bits == 0x0,
    {
        W { bits: 0x0 }
    }

    /// Writer for a read-modify-write: starts from the value read.
    pub fn modify(r: &R) -> (w: W)
        ensures
            w.bits == r.bits,
    {
        W { bits: r.bits }
    }

    /// Replaces the whole register value.
    pub fn bits(&mut self, bits: u32)
        ensures
            final(self).bits == bits,
    {
        self.bits = bits;
    }

    /// Bit 0 - Enable peripheral channel interrupt
    pub fn periph_en(&mut self, value: bool)
        ensures
            final(self).bits == crate::pac::with_bit32(old(self).bits, 0, value),
    {
        self.bits = put_bit32(self.bits, 0, value);
    }

    /// Bit 1 - Enable virtual wire interrupt
    pub fn vwire_en(&mut self, value: bool)
        ensures
            final(self).bits == crate::pac::with_bit32(old(self).bits, 1, value),
    {
        self.bits = put_bit32(self.bits, 1, value);
    }
}

} // verus!
