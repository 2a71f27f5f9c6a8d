//! Modem Status Register
use vstd::prelude::*;
use crate::pac::{BitReader, get_bit8};

verus! {

/// Value of the `MSR` register after reset.
pub const RESET_VALUE: u8 = 0x0;

/// Marker type of the `MSR` register: Modem Status Register.
pub struct MsrSpec;

/// Field `DCTS` reader - Delta clear to send
pub type DctsR = BitReader;

/// Field `DDSR` reader - Delta data set ready
pub type DdsrR = BitReader;

/// Field `TERI` reader - Trailing edge ring indicator
pub type TeriR = BitReader;

/// Field `DDCD` reader - Delta data carrier detect
pub type DdcdR = BitReader;

/// Field `CTS` reader - Clear to send
pub type CtsR = BitReader;

/// Field `DSR` reader - Data set ready
pub type DsrR = BitReader;

/// Field `RI` reader - Ring indicator
pub type RiR = BitReader;

/// Field `DCD` reader - Data carrier detect
pub type DcdR = BitReader;

/// Value read from the `MSR` register.
#[derive(Clone, Copy, Debug, PartialEq, Eq)]
pub struct R {
    /// Raw register value.
    pub bits: u8,
}

impl R {
    /// Raw register value.
    pub fn bits(&self) -> (r: u8)
        ensures
            r == self.bits,
    {
        self.bits
    }

    /// Bit 0 - Delta clear to send
    pub fn dcts(&self) -> (r: DctsR)
        ensures
            r.bit == crate::pac::bit8(self.bits, 0),
    {
        BitReader::new(get_bit8(self.bits, 0))
    }

    /// Bit 1 - Delta data set ready
    pub fn ddsr(&self) -> (r: DdsrR)
        ensures
            r.bit == crate::pac::bit8(self.bits, 1),
    {
        BitReader::new(get_bit8(self.bits, 1))
    }

    /// Bit 2 - Trailing edge ring indicator
    pub fn teri(&self) -> (r: TeriR)
        ensures
            r.bit == crate::pac::bit8(self.bits, 2),
    {
        BitReader::new(get_bit8(self.bits, 2))
    }

    /// Bit 3 - Delta data carrier detect
    pub fn ddcd(&self) -> (r: DdcdR)
        ensures
            r.bit == crate::pac::bit8(self.bits, 3),
    {
        BitReader::new(get_bit8(self.bits, 3))
    }

    /// Bit 4 - Clear to send
    pub fn cts(&self) -> (r: CtsR)
        ensures
            r.bit == crate::pac::bit8(self.bits, 4),
    {
        BitReader::new(get_bit8(self.bits, 4))
    }

    /// Bit 5 - Data set ready
    pub fn dsr(&self) -> (r: DsrR)
        ensures
            r.bit == crate::pac::bit8(self.bits, 5),
    {
        BitReader::new(get_bit8(self.bits, 5))
    }

    /// Bit 6 - Ring indicator
    pub fn ri(&self) -> (r: RiR)
        ensures
            r.bit == crate::pac::bit8(self.bits, 6),
    {
        BitReader::new(get_bit8(self.bits, 6))
    }

    /// Bit 7 - Data carrier detect
    pub fn dcd(&self) -> (r: DcdR)
        ensures
            r.bit == crate::pac::bit8(self.bits, 7),
    {
        BitReader::new(get_bit8(self.bits, 7))
    }
}

} // verus!
