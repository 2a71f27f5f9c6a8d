//! I2C controller peripheral registers.
use vstd::prelude::*;

use crate::pac::Reg;

pub mod ctrl;
pub mod data;
pub mod status;

verus! {

/// CTRL (rw) register: control register.
pub type Ctrl = Reg<ctrl::CtrlSpec>;

/// STATUS (rw) register: status register.
pub type Status = Reg<status::StatusSpec>;

/// DATA (rw) register: read pops RX FIFO; write issues a command.
pub type Data = Reg<data::DataSpec>;

/// Number of bytes the register block spans.
pub const BLOCK_SIZE: usize = 0x0c;

/// Register block of the I2C controller peripheral.
pub struct RegisterBlock {
    base: usize,
}

impl RegisterBlock {
    /// Whole block lies inside the address space.
    #[verifier::type_invariant]
    closed spec fn fits(self) -> bool {
        self.base <= usize::MAX - BLOCK_SIZE
    }

    /// Base address of the block.
    pub closed spec fn base_addr(self) -> usize {
        self.base
    }

    /// The register block whose first register is at `base`.
    pub fn at(base: usize) -> (rb: RegisterBlock)
        requires
            base <= usize::MAX - BLOCK_SIZE,
        ensures
            rb.base_addr() == base,
    {
        RegisterBlock { base }
    }

    /// 0x00 - Control register
    pub fn ctrl(&self) -> (r: Ctrl)
        ensures
            r.addr == self.base_addr(),
    {
        Reg::at(self.base)
    }

    /// 0x04 - Status register
    pub fn status(&self) -> (r: Status)
        ensures
            r.addr == self.base_addr() + 0x04,
    {
        proof {
            use_type_invariant(self);
        }
        Reg::at(self.base + 0x04)
    }

    /// 0x08 - Data register: read pops RX FIFO; write issues a command
    pub fn data(&self) -> (r: Data)
        ensures
            r.addr == self.base_addr() + 0x08,
    {
        proof {
            use_type_invariant(self);
        }
        Reg::at(self.base + 0x08)
    }
}

} // verus!
