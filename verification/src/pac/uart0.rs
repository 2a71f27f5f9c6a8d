//! 16550A UART registers.
//!
//! The same eight byte-wide registers are seen through two views chosen by the
//! divisor latch access bit (`LCR.DLAB`): [`data::Data`] when it is clear and
//! [`dlab::Dlab`] when it is set.
use vstd::prelude::*;

pub mod data;
pub mod dlab;

verus! {

/// Number of bytes the register block spans.
pub const BLOCK_SIZE: usize = 0x08;

/// Register block of the UART.
pub struct RegisterBlock {
    base: usize,
}

impl RegisterBlock {
    /// Whole block lies inside the address space.
    #[verifier::type_invariant]
    closed spec fn fits(self) -> bool {
        self.base <= usize::MAX - BLOCK_SIZE
    }

    /// Base address of the block.
    pub closed spec fn base_addr(self) -> usize {
        self.base
    }

    /// The register block whose first register is at `base`.
    pub fn at(base: usize) -> (rb: RegisterBlock)
        requires
            base <= usize::MAX - BLOCK_SIZE,
        ensures
            rb.base_addr() == base,
    {
        RegisterBlock { base }
    }

    /// 0x00..0x08 - UART registers when DLAB=1
    pub fn dlab(&self) -> (c: dlab::Dlab)
        ensures
            c.base_addr() == self.base_addr(),
    {
        proof {
            use_type_invariant(self);
        }
        dlab::Dlab::at(self.base)
    }

    /// 0x00..0x08 - UART registers when DLAB=0
    pub fn data(&self) -> (c: data::Data)
        ensures
            c.base_addr() == self.base_addr(),
    {
        proof {
            use_type_invariant(self);
        }
        data::Data::at(self.base)
    }
}

} // verus!
