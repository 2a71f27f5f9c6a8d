//! Modem Control Register
use vstd::prelude::*;
use crate::pac::{BitReader, get_bit8, put_bit8};

verus! {

/// Value of the `MCR` register after reset.
pub const RESET_VALUE: u8 = 0x0;

/// Fields of `MCR` that act when written with 1 (strobes and write-1-to-clear flags);
/// a read-modify-write leaves them 0 so that it does not trigger them.
pub const ONE_TO_MODIFY_FIELDS_BITMAP: u8 = 0x0;

/// Marker type of the `MCR` register: Modem Control Register.
pub struct McrSpec;

/// Field `DTR` reader - Data terminal ready
pub type DtrR = BitReader;

/// Field `RTS` reader - Request to send
pub type RtsR = BitReader;

/// Field `OUT1` reader - Output 1
pub type Out1R = BitReader;

/// Field `OUT2` reader - Output 2
pub type Out2R = BitReader;

/// Field `LOOP` reader - Loopback mode
pub type LoopR = BitReader;

/// Value read from the `MCR` register.
#[derive(Clone, Copy, Debug, PartialEq, Eq)]
pub struct R {
    /// Raw register value.
    pub bits: u8,
}

impl R {
    /// Raw register value.
    pub fn bits(&self) -> (r: u8)
        ensures
            r == self.bits,
    {
        self.bits
    }

    /// Bit 0 - Data terminal ready
    pub fn dtr(&self) -> (r: DtrR)
        ensures
            r.bit == crate::pac::bit8(self.bits, 0),
    {
        BitReader::new(get_bit8(self.bits, 0))
    }

    /// Bit 1 - Request to send
    pub fn rts(&self) -> (r: RtsR)
        ensures
            r.bit == crate::pac::bit8(self.bits, 1),
    {
        BitReader::new(get_bit8(self.bits, 1))
    }

    /// Bit 2 - Output 1
    pub fn out1(&self) -> (r: Out1R)
        ensures
            r.bit == crate::pac::bit8(self.bits, 2),
    {
        BitReader::new(get_bit8(self.bits, 2))
    }

    /// Bit 3 - Output 2
    pub fn out2(&self) -> (r: Out2R)
        ensures
            r.bit == crate::pac::bit8(self.bits, 3),
    {
        BitReader::new(get_bit8(self.bits, 3))
    }

    /// Bit 4 - Loopback mode
    pub fn loop_(&self) -> (r: LoopR)
        ensures
            r.bit == crate::pac::bit8(self.bits, 4),
    {
        BitReader::new(get_bit8(self.bits, 4))
    }
}

/// Value to be written to the `MCR` register.
#[derive(Clone, Copy, Debug, PartialEq, Eq)]
pub struct W {
    /// Raw register value.
    pub bits: u8,
}

impl W {
    /// Writer for a plain write: starts from the reset value (`RESET_VALUE`), with every
    /// strobe and write-1-to-clear field left 0.
    pub fn new() -> (w: W)
        ensures
            w.bits == 0x0,
    {
        W { bits: 0x0 }
    }

    /// Writer for a read-modify-write: starts from the value read.
    pub fn modify(r: &R) -> (w: W)
        ensures
            w.bits == r.bits,
    {
        W { bits: r.bits }
    }

    /// Replaces the whole register value.
    pub fn bits(&mut self, bits: u8)
        ensures
            final(self).bits == bits,
    {
        self.bits = bits;
    }

    /// Bit 0 - Data terminal ready
    pub fn dtr(&mut self, value: bool)
        ensures
            final(self).bits == crate::pac::with_bit8(old(self).bits, 0, value),
    {
        self.bits = put_bit8(self.bits, 0, value);
    }

    /// Bit 1 - Request to send
    pub fn rts(&mut self, value: bool)
        ensures
            final(self).bits == crate::pac::with_bit8(old(self).bits, 1, value),
    {
        self.bits = put_bit8(self.bits, 1, value);
    }

    /// Bit 2 - Output 1
    pub fn out1(&mut self, value: bool)
        ensures
            final(self).bits == crate::pac::with_bit8(old(self).bits, 2, value),
    {
        self.bits = put_bit8(self.bits, 2, value);
    }

    /// Bit 3 - Output 2
    pub fn out2(&mut self, value: bool)
        ensures
            final(self).bits == crate::pac::with_bit8(old(self).bits, 3, value),
    {
        self.bits = put_bit8(self.bits, 3, value);
    }

    /// Bit 4 - Loopback mode
    pub fn loop_(&mut self, value: bool)
        ensures
            final(self).bits == crate::pac::with_bit8(old(self).bits, 4, value),
    {
        self.bits = put_bit8(self.bits, 4, value);
    }
}

} // verus!
