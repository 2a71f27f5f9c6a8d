//! Interrupt Identification Register
use vstd::prelude::*;
use crate::pac::{BitReader, FieldReader, get_bit8};

verus! {

/// Value of the `IIR` register after reset.
pub const RESET_VALUE: u8 = 0x1;

/// Marker type of the `IIR` register: Interrupt Identification Register.
pub struct IirSpec;

/// Field `IPEND` reader - Interrupt NOT pending (0 = interrupt pending)
pub type IpendR = BitReader;

/// Field `IID` reader - Interrupt ID
pub type IidR = FieldReader<u8>;

/// Field `FIFOEN` reader - FIFOs enabled
pub type FifoenR = FieldReader<u8>;

/// Value read from the `IIR` register.
#[derive(Clone, Copy, Debug, PartialEq, Eq)]
pub struct R {
    /// Raw register value.
    pub bits: u8,
}

impl R {
    /// Raw register value.
    pub fn bits(&self) -> (r: u8)
        ensures
            r == self.bits,
    {
        self.bits
    }

    /// Bit 0 - Interrupt NOT pending (0 = interrupt pending)
    pub fn ipend(&self) -> (r: IpendR)
        ensures
            r.bit == crate::pac::bit8(self.bits, 0),
    {
        BitReader::new(get_bit8(self.bits, 0))
    }

    /// Bits 1:3 - Interrupt ID
    pub fn iid(&self) -> (r: IidR)
        ensures
            r.bits == crate::pac::field8(self.bits, 1, 0x7),
    {
        FieldReader::new((self.bits >> 1u8) & 0x7)
    }

    /// Bits 6:7 - FIFOs enabled
    pub fn fifoen(&self) -> (r: FifoenR)
        ensures
            r.bits == crate::pac::field8(self.bits, 6, 0x3),
    {
        FieldReader::new((self.bits >> 6u8) & 0x3)
    }
}

} // verus!
