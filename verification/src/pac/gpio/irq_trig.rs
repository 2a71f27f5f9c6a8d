//! Interrupt trigger type (0 = level, 1 = edge)
use vstd::prelude::*;
use crate::pac::{FieldReader};

verus! {

/// Value of the `IRQ_TRIG` register after reset.
pub const RESET_VALUE: u32 = 0x0;

/// Fields of `IRQ_TRIG` that act when written with 1 (strobes and write-1-to-clear flags);
/// a read-modify-write leaves them 0 so that it does not trigger them.
pub const ONE_TO_MODIFY_FIELDS_BITMAP: u32 = 0x0;

/// Marker type of the `IRQ_TRIG` register: Interrupt trigger type (0 = level, 1 = edge).
pub struct IrqTrigSpec;

/// Field `IRQ_TRIG` reader - Per-pin trigger select (0 = level, 1 = edge)
pub type IrqTrigR = FieldReader<u32>;

/// Value read from the `IRQ_TRIG` register.
#[derive(Clone, Copy, Debug, PartialEq, Eq)]
pub struct R {
    /// Raw register value.
    pub bits: u32,
}

impl R {
    /// Raw register value.
    pub fn bits(&self) -> (r: u32)
        ensures
            r == self.bits,
    {
        self.bits
    }

    /// Bits 0:31 - Per-pin trigger select (0 = level, 1 = edge)
    pub fn irq_trig(&self) -> (r: IrqTrigR)
        ensures
            r.bits == self.bits,
    {
        FieldReader::new(self.bits)
    }
}

/// Value to be written to the `IRQ_TRIG` register.
#[derive(Clone, Copy, Debug, PartialEq, Eq)]
pub struct W {
    /// Raw register value.
    pub bits: u32,
}

impl W {
    /// Writer for a plain write: starts from the reset value (`RESET_VALUE`), with every
    /// strobe and write-1-to-clear field left 0.
    pub fn new() -> (w: W)
        ensures
            w.bits == 0x0,
    {
        W { bits: 0x0 }
    }

    /// Writer for a read-modify-write: starts from the value read.
    pub fn modify(r: &R) -> (w: W)
        ensures
            w.bits == r.bits,
    {
        W { bits: r.bits }
    }

    /// Replaces the whole register value.
    pub fn bits(&mut self, bits: u32)
        ensures
            final(self).bits == bits,
    {
        self.bits = bits;
    }

    /// Bits 0:31 - Per-pin trigger select (0 = level, 1 = edge)
    pub fn irq_trig(&mut self, value: u32)
        ensures
            final(self).bits == value,
    {
        self.bits = value;
    }
}

} // verus!
