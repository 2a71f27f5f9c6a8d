//! Per-pin interrupt pending (write-1-to-clear)
use vstd::prelude::*;
use crate::pac::{FieldReader};

verus! {

/// Value of the `IRQ_PEND` register after reset.
pub const RESET_VALUE: u32 = 0x0;

/// Fields of `IRQ_PEND` that act when written with 1 (strobes and write-1-to-clear flags);
/// a read-modify-write leaves them 0 so that it does not trigger them.
pub const ONE_TO_MODIFY_FIELDS_BITMAP: u32 = 0xffffffff;

/// Marker type of the `IRQ_PEND` register: Per-pin interrupt pending (write-1-to-clear).
pub struct IrqPendSpec;

/// Field `IRQ_PEND` reader - Per-pin interrupt pending (write-1-to-clear)
pub type IrqPendR = FieldReader<u32>;

/// Value read from the `IRQ_PEND` register.
#[derive(Clone, Copy, Debug, PartialEq, Eq)]
pub struct R {
    /// Raw register value.
    pub bits: u32,
}

impl R {
    /// Raw register value.
    pub fn bits(&self) -> (r: u32)
        ensures
            r == self.bits,
    {
        self.bits
    }

    /// Bits 0:31 - Per-pin interrupt pending (write-1-to-clear)
    pub fn irq_pend(&self) -> (r: IrqPendR)
        ensures
            r.bits == self.bits,
    {
        FieldReader::new(self.bits)
    }
}

/// Value to be written to the `IRQ_PEND` register.
#[derive(Clone, Copy, Debug, PartialEq, Eq)]
pub struct W {
    /// Raw register value.
    pub bits: u32,
}

impl W {
    /// Writer for a plain write: starts from the reset value (`RESET_VALUE`), with every
    /// strobe and write-1-to-clear field left 0.
    pub fn new() -> (w: W)
        ensures
            w.bits == 0x0,
    {
        W { bits: 0x0 }
    }

    /// Writer for a read-modify-write: starts from the value read, with every strobe
    /// and write-1-to-clear field left 0.
    pub fn modify(r: &R) -> (w: W)
        ensures
            w.bits == r.bits & !ONE_TO_MODIFY_FIELDS_BITMAP,
    {
        W { bits: r.bits & !ONE_TO_MODIFY_FIELDS_BITMAP }
    }

    /// Replaces the whole register value.
    pub fn bits(&mut self, bits: u32)
        ensures
            final(self).bits == bits,
    {
        self.bits = bits;
    }

    /// Bits 0:31 - Per-pin interrupt pending (write-1-to-clear)
    pub fn irq_pend(&mut self, value: u32)
        ensures
            final(self).bits == value,
    {
        self.bits = value;
    }
}

} // verus!
