//! Virtual Wire Input Register (read-only)
use vstd::prelude::*;
use crate::pac::{FieldReader};

verus! {

/// Value of the `VWIRE_IN` register after reset.
pub const RESET_VALUE: u32 = 0x0;

/// Marker type of the `VWIRE_IN` register: Virtual Wire Input Register (read-only).
pub struct VwireInSpec;

/// Field `DATA` reader - Virtual wire input data received from peer
pub type DataR = FieldReader<u32>;

/// Value read from the `VWIRE_IN` register.
#[derive(Clone, Copy, Debug, PartialEq, Eq)]
pub struct R {
    /// Raw register value.
    pub bits: u32,
}

impl R {
    /// Raw register value.
    pub fn bits(&self) -> (r: u32)
        ensures
            r == self.bits,
    {
        self.bits
    }

    /// Bits 0:31 - Virtual wire input data received from peer
    pub fn data(&self) -> (r: DataR)
        ensures
            r.bits == self.bits,
    {
        FieldReader::new(self.bits)
    }
}

} // verus!
