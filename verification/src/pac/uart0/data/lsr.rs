//! Line Status Register
use vstd::prelude::*;
use crate::pac::{BitReader, get_bit8};

verus! {

/// Value of the `LSR` register after reset.
pub const RESET_VALUE: u8 = 0x0;

/// Marker type of the `LSR` register: Line Status Register.
pub struct LsrSpec;

/// Field `DR` reader - Data ready
pub type DrR = BitReader;

/// Field `OE` reader - Overrun error
pub type OeR = BitReader;

/// Field `THRE` reader - Transmitter holding register empty
pub type ThreR = BitReader;

/// Field `TEMT` reader - Transmitter empty (holding and shift registers)
pub type TemtR = BitReader;

/// Value read from the `LSR` register.
#[derive(Clone, Copy, Debug, PartialEq, Eq)]
pub struct R {
    /// Raw register value.
    pub bits: u8,
}

impl R {
    /// Raw register value.
    pub fn bits(&self) -> (r: u8)
        ensures
            r == self.bits,
    {
        self.bits
    }

    /// Bit 0 - Data ready
    pub fn dr(&self) -> (r: DrR)
        ensures
            r.bit == crate::pac::bit8(self.bits, 0),
    {
        BitReader::new(get_bit8(self.bits, 0))
    }

    /// Bit 1 - Overrun error
    pub fn oe(&self) -> (r: OeR)
        ensures
            r.bit == crate::pac::bit8(self.bits, 1),
    {
        BitReader::new(get_bit8(self.bits, 1))
    }

    /// Bit 5 - Transmitter holding register empty
    pub fn thre(&self) -> (r: ThreR)
        ensures
            r.bit == crate::pac::bit8(self.bits, 5),
    {
        BitReader::new(get_bit8(self.bits, 5))
    }

    /// Bit 6 - Transmitter empty (holding and shift registers)
    pub fn temt(&self) -> (r: TemtR)
        ensures
            r.bit == crate::pac::bit8(self.bits, 6),
    {
        BitReader::new(get_bit8(self.bits, 6))
    }
}

} // verus!
