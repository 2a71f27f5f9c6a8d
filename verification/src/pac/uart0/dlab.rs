//! UART registers when DLAB=1.
use vstd::prelude::*;

use crate::pac::Reg;

pub mod dll;
pub mod dlm;
pub mod iir;
pub mod lcr;
pub mod msr;

verus! {

/// DLL (rw) register: Divisor Latch LSB.
pub type Dll = Reg<dll::DllSpec>;

/// DLM (rw) register: Divisor Latch MSB.
pub type Dlm = Reg<dlm::DlmSpec>;

/// LCR (rw) register: Line Control Register.
pub type Lcr = Reg<lcr::LcrSpec>;

/// The UART registers seen while DLAB is set.
pub struct Dlab {
    base: usize,
}

impl Dlab {
    /// Whole cluster lies inside the address space.
    #[verifier::type_invariant]
    closed spec fn fits(self) -> bool {
        self.base <= usize::MAX - 8
    }

    /// Base address of the cluster.
    pub closed spec fn base_addr(self) -> usize {
        self.base
    }

    /// The cluster whose first register is at `base`.
    pub fn at(base: usize) -> (c: Dlab)
        requires
            base <= usize::MAX - 8,
        ensures
            c.base_addr() == base,
    {
        Dlab { base }
    }

    /// 0x00 - Divisor Latch LSB
    pub fn dll(&self) -> (r: Dll)
        ensures
            r.addr == self.base_addr(),
    {
        Reg::at(self.base)
    }

    /// 0x01 - Divisor Latch MSB
    pub fn dlm(&self) -> (r: Dlm)
        ensures
            r.addr == self.base_addr() + 1,
    {
        proof {
            use_type_invariant(self);
        }
        Reg::at(self.base + 1)
    }

    /// 0x03 - Line Control Register
    pub fn lcr(&self) -> (r: Lcr)
        ensures
            r.addr == self.base_addr() + 3,
    {
        proof {
            use_type_invariant(self);
        }
        Reg::at(self.base + 3)
    }
}

} // verus!
