//! UART registers when DLAB=0.
use vstd::prelude::*;

use crate::pac::Reg;
use crate::pac::uart0::dlab::{iir, lcr, msr};

pub mod fcr;
pub mod ier;
pub mod lsr;
pub mod mcr;
pub mod rbr;
pub mod scr;
pub mod thr;

verus! {

/// RBR (r) register: Receiver Buffer Register.
pub type Rbr = Reg<rbr::RbrSpec>;

/// THR (w) register: Transmitter Holding Register.
pub type Thr = Reg<thr::ThrSpec>;

/// IER (rw) register: Interrupt Enable Register.
pub type Ier = Reg<ier::IerSpec>;

/// IIR (r) register: Interrupt Identification Register.
pub type Iir = Reg<iir::IirSpec>;

/// FCR (w) register: FIFO Control Register.
pub type Fcr = Reg<fcr::FcrSpec>;

/// LCR (rw) register: Line Control Register.
pub type Lcr = Reg<lcr::LcrSpec>;

/// MCR (rw) register: Modem Control Register.
pub type Mcr = Reg<mcr::McrSpec>;

/// LSR (r) register: Line Status Register.
pub type Lsr = Reg<lsr::LsrSpec>;

/// MSR (r) register: Modem Status Register.
pub type Msr = Reg<msr::MsrSpec>;

/// SCR (rw) register: Scratch Register.
pub type Scr = Reg<scr::ScrSpec>;

/// The UART registers seen while DLAB is clear.
pub struct Data {
    base: usize,
}

impl Data {
    /// Whole cluster lies inside the address space.
    #[verifier::type_invariant]
    closed spec fn fits(self) -> bool {
        self.base <= usize::MAX - 8
    }

    /// Base address of the cluster.
    pub closed spec fn base_addr(self) -> usize {
        self.base
    }

    /// The cluster whose first register is at `base`.
    pub fn at(base: usize) -> (c: Data)
        requires
            base <= usize::MAX - 8,
        ensures
            c.base_addr() == base,
    {
        Data { base }
    }

    /// 0x00 - Receiver Buffer Register
    pub fn rbr(&self) -> (r: Rbr)
        ensures
            r.addr == self.base_addr(),
    {
        Reg::at(self.base)
    }

    /// 0x00 - Transmitter Holding Register
    pub fn thr(&self) -> (r: Thr)
        ensures
            r.addr == self.base_addr(),
    {
        Reg::at(self.base)
    }

    /// 0x01 - Interrupt Enable Register
    pub fn ier(&self) -> (r: Ier)
        ensures
            r.addr == self.base_addr() + 1,
    {
        proof {
            use_type_invariant(self);
        }
        Reg::at(self.base + 1)
    }

    /// 0x02 - Interrupt Identification Register
    pub fn iir(&self) -> (r: Iir)
        ensures
            r.addr == self.base_addr() + 2,
    {
        proof {
            use_type_invariant(self);
        }
        Reg::at(self.base + 2)
    }

    /// 0x02 - FIFO Control Register
    pub fn fcr(&self) -> (r: Fcr)
        ensures
            r.addr == self.base_addr() + 2,
    {
        proof {
            use_type_invariant(self);
        }
        Reg::at(self.base + 2)
    }

    /// 0x03 - Line Control Register
    pub fn lcr(&self) -> (r: Lcr)
        ensures
            r.addr == self.base_addr() + 3,
    {
        proof {
            use_type_invariant(self);
        }
        Reg::at(self.base + 3)
    }

    /// 0x04 - Modem Control Register
    pub fn mcr(&self) -> (r: Mcr)
        ensures
            r.addr == self.base_addr() + 4,
    {
        proof {
            use_type_invariant(self);
        }
        Reg::at(self.base + 4)
    }

    /// 0x05 - Line Status Register
    pub fn lsr(&self) -> (r: Lsr)
        ensures
            r.addr == self.base_addr() + 5,
    {
        proof {
            use_type_invariant(self);
        }
        Reg::at(self.base + 5)
    }

    /// 0x06 - Modem Status Register
    pub fn msr(&self) -> (r: Msr)
        ensures
            r.addr == self.base_addr() + 6,
    {
        proof {
            use_type_invariant(self);
        }
        Reg::at(self.base + 6)
    }

    /// 0x07 - Scratch Register
    pub fn scr(&self) -> (r: Scr)
        ensures
            r.addr == self.base_addr() + 7,
    {
        proof {
            use_type_invariant(self);
        }
        Reg::at(self.base + 7)
    }
}

} // verus!
