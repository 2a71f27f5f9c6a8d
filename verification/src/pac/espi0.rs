//! eSPI peripheral registers.
use vstd::prelude::*;

use crate::pac::Reg;

pub mod int_enable;
pub mod int_status;
pub mod periph_addr;
pub mod vwire_in;
pub mod vwire_out;

verus! {

/// INT_STATUS (rw) register: Interrupt Status Register (write-1-to-clear).
pub type IntStatus = Reg<int_status::IntStatusSpec>;

/// INT_ENABLE (rw) register: Interrupt Enable Register.
pub type IntEnable = Reg<int_enable::IntEnableSpec>;

/// VWIRE_OUT (rw) register: Virtual Wire Output Register.
pub type VwireOut = Reg<vwire_out::VwireOutSpec>;

/// VWIRE_IN (r) register: Virtual Wire Input Register (read-only).
pub type VwireIn = Reg<vwire_in::VwireInSpec>;

/// PERIPH_ADDR (r) register: Peripheral Address Register.
pub type PeriphAddr = Reg<periph_addr::PeriphAddrSpec>;

/// Number of bytes the register block spans.
pub const BLOCK_SIZE: usize = 0x14;

/// Register block of the eSPI peripheral.
pub struct RegisterBlock {
    base: usize,
}

impl RegisterBlock {
    /// Whole block lies inside the address space.
    #[verifier::type_invariant]
    closed spec fn fits(self) -> bool {
        self.base <= usize::MAX - BLOCK_SIZE
    }

    /// Base address of the block.
    pub closed spec fn base_addr(self) -> usize {
        self.base
    }

    /// The register block whose first register is at `base`.
    pub fn at(base: usize) -> (rb: RegisterBlock)
        requires
            base <= usize::MAX - BLOCK_SIZE,
        ensures
            rb.base_addr() == base,
    {
        RegisterBlock { base }
    }

    /// 0x00 - Interrupt Status Register (write-1-to-clear)
    pub fn int_status(&self) -> (r: IntStatus)
        ensures
            r.addr == self.base_addr(),
    {
        Reg::at(self.base)
    }

    /// 0x04 - Interrupt Enable Register
    pub fn int_enable(&self) -> (r: IntEnable)
        ensures
            r.addr == self.base_addr() + 0x04,
    {
        proof {
            use_type_invariant(self);
        }
        Reg::at(self.base + 0x04)
    }

    /// 0x08 - Virtual Wire Output Register
    pub fn vwire_out(&self) -> (r: VwireOut)
        ensures
            r.addr == self.base_addr() + 0x08,
    {
        proof {
            use_type_invariant(self);
        }
        Reg::at(self.base + 0x08)
    }

    /// 0x0c - Virtual Wire Input Register (read-only)
    pub fn vwire_in(&self) -> (r: VwireIn)
        ensures
            r.addr == self.base_addr() + 0x0c,
    {
        proof {
            use_type_invariant(self);
        }
        Reg::at(self.base + 0x0c)
    }

    /// 0x10 - Peripheral Address Register (offset of last peer shared memory write)
    pub fn periph_addr(&self) -> (r: PeriphAddr)
        ensures
            r.addr == self.base_addr() + 0x10,
    {
        proof {
            use_type_invariant(self);
        }
        Reg::at(self.base + 0x10)
    }
}

} // verus!
