//! Interrupt polarity (0 = low/falling, 1 = high/rising)
use vstd::prelude::*;
use crate::pac::{FieldReader};

verus! {

/// Value of the `IRQ_POL` register after reset.
pub const RESET_VALUE: u32 = 0x0;

/// Fields of `IRQ_POL` that act when written with 1 (strobes and write-1-to-clear flags);
/// a read-modify-write leaves them 0 so that it does not trigger them.
pub const ONE_TO_MODIFY_FIELDS_BITMAP: u32 = 0x0;

/// Marker type of the `IRQ_POL` register: Interrupt polarity (0 = low/falling, 1 = high/rising).
pub struct IrqPolSpec;

/// Field `IRQ_POL` reader - Per-pin polarity select (0 = low/falling, 1 = high/rising)
pub type IrqPolR = FieldReader<u32>;

/// Value read from the `IRQ_POL` register.
#[derive(Clone, Copy, Debug, PartialEq, Eq)]
pub struct R {
    /// Raw register value.
    pub bits: u32,
}

impl R {
    /// Raw register value.
    pub fn bits(&self) -> (r: u32)
        ensures
            r == self.bits,
    {
        self.bits
    }

    /// Bits 0:31 - Per-pin polarity select (0 = low/falling, 1 = high/rising)
    pub fn irq_pol(&self) -> (r: IrqPolR)
        ensures
            r.bits == self.bits,
    {
        FieldReader::new(self.bits)
    }
}

/// Value to be written to the `IRQ_POL` register.
#[derive(Clone, Copy, Debug, PartialEq, Eq)]
pub struct W {
    /// Raw register value.
    pub bits: u32,
}

impl W {
    /// Writer for a plain write: starts from the reset value (`RESET_VALUE`), with every
    /// strobe and write-1-to-clear field left 0.
    pub fn new() -> (w: W)
        ensures
            w.bits == 0x0,
    {
        W { bits: 0x0 }
    }

    /// Writer for a read-modify-write: starts from the value read.
    pub fn modify(r: &R) -> (w: W)
        ensures
            w.bits == r.bits,
    {
        W { bits: r.bits }
    }

    /// Replaces the whole register value.
    pub fn bits(&mut self, bits: u32)
        ensures
            final(self).bits == bits,
    {
        self.bits = bits;
    }

    /// Bits 0:31 - Per-pin polarity select (0 = low/falling, 1 = high/rising)
    pub fn irq_pol(&mut self, value: u32)
        ensures
            final(self).bits == value,
    {
        self.bits = value;
    }
}

} // verus!
