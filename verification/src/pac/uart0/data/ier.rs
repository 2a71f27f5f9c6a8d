//! Interrupt Enable Register
use vstd::prelude::*;
use crate::pac::{BitReader, get_bit8, put_bit8};

verus! {

/// Value of the `IER` register after reset.
pub const RESET_VALUE: u8 = 0x0;

/// Fields of `IER` that act when written with 1 (strobes and write-1-to-clear flags);
/// a read-modify-write leaves them 0 so that it does not trigger them.
pub const ONE_TO_MODIFY_FIELDS_BITMAP: u8 = 0x0;

/// Marker type of the `IER` register: Interrupt Enable Register.
pub struct IerSpec;

/// Field `ERBFI` reader - Enable Received Data Available Interrupt
pub type ErbfiR = BitReader;

/// Field `ETBEI` reader - Enable Transmitter Holding Register Empty Interrupt
pub type EtbeiR = BitReader;

/// Field `ELSI` reader - Enable Receiver Line Status Interrupt
pub type ElsiR = BitReader;

/// Field `EDSSI` reader - Enable Modem Status Interrupt
pub type EdssiR = BitReader;

/// Value read from the `IER` register.
#[derive(Clone, Copy, Debug, PartialEq, Eq)]
pub struct R {
    /// Raw register value.
    pub bits: u8,
}

impl R {
    /// Raw register value.
    pub fn bits(&self) -> (r: u8)
        ensures
            r == self.bits,
    {
        self.bits
    }

    /// Bit 0 - Enable Received Data Available Interrupt
    pub fn erbfi(&self) -> (r: ErbfiR)
        ensures
            r.bit == crate::pac::bit8(self.bits, 0),
    {
        BitReader::new(get_bit8(self.bits, 0))
    }

    /// Bit 1 - Enable Transmitter Holding Register Empty Interrupt
    pub fn etbei(&self) -> (r: EtbeiR)
        ensures
            r.bit == crate::pac::bit8(self.bits, 1),
    {
        BitReader::new(get_bit8(self.bits, 1))
    }

    /// Bit 2 - Enable Receiver Line Status Interrupt
    pub fn elsi(&self) -> (r: ElsiR)
        ensures
            r.bit == crate::pac::bit8(self.bits, 2),
    {
        BitReader::new(get_bit8(self.bits, 2))
    }

    /// Bit 3 - Enable Modem Status Interrupt
    pub fn edssi(&self) -> (r: EdssiR)
        ensures
            r.bit == crate::pac::bit8(self.bits, 3),
    {
        BitReader::new(get_bit8(self.bits, 3))
    }
}

/// Value to be written to the `IER` register.
#[derive(Clone, Copy, Debug, PartialEq, Eq)]
pub struct W {
    /// Raw register value.
    pub bits: u8,
}

impl W {
    /// Writer for a plain write: starts from the reset value (`RESET_VALUE`), with every
    /// strobe and write-1-to-clear field left 0.
    pub fn new() -> (w: W)
        ensures
            w.bits == 0x0,
    {
        W { bits: 0x0 }
    }

    /// Writer for a read-modify-write: starts from the value read.
    pub fn modify(r: &R) -> (w: W)
        ensures
            w.bits == r.bits,
    {
        W { bits: r.bits }
    }

    /// Replaces the whole register value.
    pub fn bits(&mut self, bits: u8)
        ensures
            final(self).bits == bits,
    {
        self.bits = bits;
    }

    /// Bit 0 - Enable Received Data Available Interrupt
    pub fn erbfi(&mut self, value: bool)
        ensures
            final(self).bits == crate::pac::with_bit8(old(self).bits, 0, value),
    {
        self.bits = put_bit8(self.bits, 0, value);
    }

    /// Bit 1 - Enable Transmitter Holding Register Empty Interrupt
    pub fn etbei(&mut self, value: bool)
        ensures
            final(self).bits == crate::pac::with_bit8(old(self).bits, 1, value),
    {
        self.bits = put_bit8(self.bits, 1, value);
    }

    /// Bit 2 - Enable Receiver Line Status Interrupt
    pub fn elsi(&mut self, value: bool)
        ensures
            final(self).bits == crate::pac::with_bit8(old(self).bits, 2, value),
    {
        self.bits = put_bit8(self.bits, 2, value);
    }

    /// Bit 3 - Enable Modem Status Interrupt
    pub fn edssi(&mut self, value: bool)
        ensures
            final(self).bits == crate::pac::with_bit8(old(self).bits, 3, value),
    {
        self.bits = put_bit8(self.bits, 3, value);
    }
}

} // verus!
