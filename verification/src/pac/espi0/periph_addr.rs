//! Peripheral Address Register (offset of last peer shared memory write)
use vstd::prelude::*;
use crate::pac::{FieldReader};

verus! {

/// Value of the `PERIPH_ADDR` register after reset.
pub const RESET_VALUE: u32 = 0x0;

/// Marker type of the `PERIPH_ADDR` register: Peripheral Address Register (offset of last peer shared memory write).
pub struct PeriphAddrSpec;

/// Field `OFFSET` reader - Byte offset within shared memory of last peer write
pub type OffsetR = FieldReader<u32>;

/// Value read from the `PERIPH_ADDR` register.
#[derive(Clone, Copy, Debug, PartialEq, Eq)]
pub struct R {
    /// Raw register value.
    pub bits: u32,
}

impl R {
    /// Raw register value.
    pub fn bits(&self) -> (r: u32)
        ensures
            r == self.bits,
    {
        self.bits
    }

    /// Bits 0:31 - Byte offset within shared memory of last peer write
    pub fn offset(&self) -> (r: OffsetR)
        ensures
            r.bits == self.bits,
    {
        FieldReader::new(self.bits)
    }
}

} // verus!
