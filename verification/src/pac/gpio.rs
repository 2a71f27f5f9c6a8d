//! GPIO peripheral registers.
use vstd::prelude::*;

use crate::pac::Reg;

pub mod in_;
pub mod irq_en;
pub mod irq_pend;
pub mod irq_pol;
pub mod irq_trig;
pub mod out;

verus! {

/// IN (r) register: input level (one bit per pin, driven by each pin's peer).
pub type In = Reg<in_::InSpec>;

/// OUT (rw) register: output level (one bit per pin, driven to each pin's peer).
pub type Out = Reg<out::OutSpec>;

/// IRQ_TRIG (rw) register: interrupt trigger type (0 = level, 1 = edge).
pub type IrqTrig = Reg<irq_trig::IrqTrigSpec>;

/// IRQ_POL (rw) register: interrupt polarity (0 = low/falling, 1 = high/rising).
pub type IrqPol = Reg<irq_pol::IrqPolSpec>;

/// IRQ_EN (rw) register: per-pin interrupt enable.
pub type IrqEn = Reg<irq_en::IrqEnSpec>;

/// IRQ_PEND (rw) register: per-pin interrupt pending (write-1-to-clear).
pub type IrqPend = Reg<irq_pend::IrqPendSpec>;

/// Number of bytes the register block spans.
pub const BLOCK_SIZE: usize = 0x18;

/// Register block of the GPIO peripheral.
pub struct RegisterBlock {
    base: usize,
}

impl RegisterBlock {
    /// Whole block lies inside the address space.
    #[verifier::type_invariant]
    closed spec fn fits(self) -> bool {
        self.base <= usize::MAX - BLOCK_SIZE
    }

    /// Base address of the block.
    pub closed spec fn base_addr(self) -> usize {
        self.base
    }

    /// The register block whose first register is at `base`.
    pub fn at(base: usize) -> (rb: RegisterBlock)
        requires
            base <= usize::MAX - BLOCK_SIZE,
        ensures
            rb.base_addr() == base,
    {
        RegisterBlock { base }
    }

    /// 0x00 - Input level (one bit per pin, driven by each pin's peer)
    pub fn in_(&self) -> (r: In)
        ensures
            r.addr == self.base_addr(),
    {
        Reg::at(self.base)
    }

    /// 0x04 - Output level (one bit per pin, driven to each pin's peer)
    pub fn out(&self) -> (r: Out)
        ensures
            r.addr == self.base_addr() + 0x04,
    {
        proof {
            use_type_invariant(self);
        }
        Reg::at(self.base + 0x04)
    }

    /// 0x08 - Interrupt trigger type (0 = level, 1 = edge)
    pub fn irq_trig(&self) -> (r: IrqTrig)
        ensures
            r.addr == self.base_addr() + 0x08,
    {
        proof {
            use_type_invariant(self);
        }
        Reg::at(self.base + 0x08)
    }

    /// 0x0c - Interrupt polarity (0 = low/falling, 1 = high/rising)
    pub fn irq_pol(&self) -> (r: IrqPol)
        ensures
            r.addr == self.base_addr() + 0x0c,
    {
        proof {
            use_type_invariant(self);
        }
        Reg::at(self.base + 0x0c)
    }

    /// 0x10 - Per-pin interrupt enable
    pub fn irq_en(&self) -> (r: IrqEn)
        ensures
            r.addr == self.base_addr() + 0x10,
    {
        proof {
            use_type_invariant(self);
        }
        Reg::at(self.base + 0x10)
    }

    /// 0x14 - Per-pin interrupt pending (write-1-to-clear)
    pub fn irq_pend(&self) -> (r: IrqPend)
        ensures
            r.addr == self.base_addr() + 0x14,
    {
        proof {
            use_type_invariant(self);
        }
        Reg::at(self.base + 0x14)
    }
}

} // verus!
