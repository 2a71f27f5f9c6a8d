//! Line Control Register
use vstd::prelude::*;
use crate::pac::{BitReader, FieldReader, get_bit8, put_bit8, put_field8};

verus! {

/// Value of the `LCR` register after reset.
pub const RESET_VALUE: u8 = 0x0;

/// Fields of `LCR` that act when written with 1 (strobes and write-1-to-clear flags);
/// a read-modify-write leaves them 0 so that it does not trigger them.
pub const ONE_TO_MODIFY_FIELDS_BITMAP: u8 = 0x0;

/// Marker type of the `LCR` register: Line Control Register.
pub struct LcrSpec;

/// Field `WLS` reader - Word length select
pub type WlsR = FieldReader<u8>;

/// Field `STB` reader - Number of stop bits
pub type StbR = BitReader;

/// Field `PEN` reader - Parity enable
pub type PenR = BitReader;

/// Field `EPS` reader - Even parity select
pub type EpsR = BitReader;

/// Field `SP` reader - Stick parity
pub type SpR = BitReader;

/// Field `BC` reader - Break control
pub type BcR = BitReader;

/// Field `DLAB` reader - Divisor latch access bit
pub type DlabR = BitReader;

/// Value read from the `LCR` register.
#[derive(Clone, Copy, Debug, PartialEq, Eq)]
pub struct R {
    /// Raw register value.
    pub bits: u8,
}

impl R {
    /// Raw register value.
    pub fn bits(&self) -> (r: u8)
        ensures
            r == self.bits,
    {
        self.bits
    }

    /// Bits 0:1 - Word length select
    pub fn wls(&self) -> (r: WlsR)
        ensures
            r.bits == crate::pac::field8(self.bits, 0, 0x3),
    {
        FieldReader::new((self.bits >> 0u8) & 0x3)
    }

    /// Bit 2 - Number of stop bits
    pub fn stb(&self) -> (r: StbR)
        ensures
            r.bit == crate::pac::bit8(self.bits, 2),
    {
        BitReader::new(get_bit8(self.bits, 2))
    }

    /// Bit 3 - Parity enable
    pub fn pen(&self) -> (r: PenR)
        ensures
            r.bit == crate::pac::bit8(self.bits, 3),
    {
        BitReader::new(get_bit8(self.bits, 3))
    }

    /// Bit 4 - Even parity select
    pub fn eps(&self) -> (r: EpsR)
        ensures
            r.bit == crate::pac::bit8(self.bits, 4),
    {
        BitReader::new(get_bit8(self.bits, 4))
    }

    /// Bit 5 - Stick parity
    pub fn sp(&self) -> (r: SpR)
        ensures
            r.bit == crate::pac::bit8(self.bits, 5),
    {
        BitReader::new(get_bit8(self.bits, 5))
    }

    /// Bit 6 - Break control
    pub fn bc(&self) -> (r: BcR)
        ensures
            r.bit == crate::pac::bit8(self.bits, 6),
    {
        BitReader::new(get_bit8(self.bits, 6))
    }

    /// Bit 7 - Divisor latch access bit
    pub fn dlab(&self) -> (r: DlabR)
        ensures
            r.bit == crate::pac::bit8(self.bits, 7),
    {
        BitReader::new(get_bit8(self.bits, 7))
    }
}

/// Value to be written to the `LCR` register.
#[derive(Clone, Copy, Debug, PartialEq, Eq)]
pub struct W {
    /// Raw register value.
    pub bits: u8,
}

impl W {
    /// Writer for a plain write: starts from the reset value (`RESET_VALUE`), with every
    /// strobe and write-1-to-clear field left 0.
    pub fn new() -> (w: W)
        ensures
            w.bits == 0x0,
    {
        W { bits: 0x0 }
    }

    /// Writer for a read-modify-write: starts from the value read.
    pub fn modify(r: &R) -> (w: W)
        ensures
            w.bits == r.bits,
    {
        W { bits: r.bits }
    }

    /// Replaces the whole register value.
    pub fn bits(&mut self, bits: u8)
        ensures
            final(self).bits == bits,
    {
        self.bits = bits;
    }

    /// Bits 0:1 - Word length select
    pub fn wls(&mut self, value: u8)
        ensures
            final(self).bits == crate::pac::with_field8(old(self).bits, 0, 0x3, value),
    {
        self.bits = put_field8(self.bits, 0, 0x3, value);
    }

    /// Bit 2 - Number of stop bits
    pub fn stb(&mut self, value: bool)
        ensures
            final(self).bits == crate::pac::with_bit8(old(self).bits, 2, value),
    {
        self.bits = put_bit8(self.bits, 2, value);
    }

    /// Bit 3 - Parity enable
    pub fn pen(&mut self, value: bool)
        ensures
            final(self).bits == crate::pac::with_bit8(old(self).bits, 3, value),
    {
        self.bits = put_bit8(self.bits, 3, value);
    }

    /// Bit 4 - Even parity select
    pub fn eps(&mut self, value: bool)
        ensures
            final(self).bits == crate::pac::with_bit8(old(self).bits, 4, value),
    {
        self.bits = put_bit8(self.bits, 4, value);
    }

    /// Bit 5 - Stick parity
    pub fn sp(&mut self, value: bool)
        ensures
            final(self).bits == crate::pac::with_bit8(old(self).bits, 5, value),
    {
        self.bits = put_bit8(self.bits, 5, value);
    }

    /// Bit 6 - Break control
    pub fn bc(&mut self, value: bool)
        ensures
            final(self).bits == crate::pac::with_bit8(old(self).bits, 6, value),
    {
        self.bits = put_bit8(self.bits, 6, value);
    }

    /// Bit 7 - Divisor latch access bit
    pub fn dlab(&mut self, value: bool)
        ensures
            final(self).bits == crate::pac::with_bit8(old(self).bits, 7, value),
    {
        self.bits = put_bit8(self.bits, 7, value);
    }
}

} // verus!
