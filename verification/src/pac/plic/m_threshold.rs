//! M-mode priority threshold (context 0)
use vstd::prelude::*;
use crate::pac::{FieldReader, put_field32};

verus! {

/// Value of the `M_THRESHOLD` register after reset.
pub const RESET_VALUE: u32 = 0x0;

/// Fields of `M_THRESHOLD` that act when written with 1 (strobes and write-1-to-clear flags);
/// a read-modify-write leaves them 0 so that it does not trigger them.
pub const ONE_TO_MODIFY_FIELDS_BITMAP: u32 = 0x0;

/// Marker type of the `M_THRESHOLD` register: M-mode priority threshold (context 0).
pub struct MThresholdSpec;

/// Field `THRESHOLD` reader - Priority threshold (interrupts with priority <= threshold are masked)
pub type ThresholdR = FieldReader<u8>;

/// Value read from the `M_THRESHOLD` register.
#[derive(Clone, Copy, Debug, PartialEq, Eq)]
pub struct R {
    /// Raw register value.
    pub bits: u32,
}

impl R {
    /// Raw register value.
    pub fn bits(&self) -> (r: u32)
        ensures
            r == self.bits,
    {
        self.bits
    }

    /// Bits 0:2 - Priority threshold (interrupts with priority <= threshold are masked)
    pub fn threshold(&self) -> (r: ThresholdR)
        ensures
            r.bits == crate::pac::field32(self.bits, 0, 0x7) as u8,
    {
        FieldReader::new(((self.bits >> 0u32) & 0x7) as u8)
    }
}

/// Value to be written to the `M_THRESHOLD` register.
#[derive(Clone, Copy, Debug, PartialEq, Eq)]
pub struct W {
    /// Raw register value.
    pub bits: u32,
}

impl W {
    /// Writer for a plain write: starts from the reset value (`RESET_VALUE`), with every
    /// strobe and write-1-to-clear field left 0.
    pub fn new() -> (w: W)
        ensures
            w.bits == 0x0,
    {
        W { bits: 0x0 }
    }

    /// Writer for a read-modify-write: starts from the value read.
    pub fn modify(r: &R) -> (w: W)
        ensures
            w.bits == r.bits,
    {
        W { bits: r.bits }
    }

    /// Replaces the whole register value.
    pub fn bits(&mut self, bits: u32)
        ensures
            final(self).bits == bits,
    {
        self.bits = bits;
    }

    /// Bits 0:2 - Priority threshold (interrupts with priority <= threshold are masked)
    pub fn threshold(&mut self, value: u8)
        ensures
            final(self).bits == crate::pac::with_field32(old(self).bits, 0, 0x7, value as u32),
    {
        self.bits = put_field32(self.bits, 0, 0x7, value as u32);
    }
}

} // verus!
