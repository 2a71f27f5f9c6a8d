//! Platform-level interrupt controller registers.
use vstd::prelude::*;

use crate::pac::Reg;

pub mod m_claim;
pub mod m_enable;
pub mod m_threshold;
pub mod pending;
pub mod priority;
pub mod s_claim;
pub mod s_enable;
pub mod s_threshold;

verus! {

/// PRIORITY (rw) register: priority for an interrupt source (source 0 is reserved).
pub type Priority = Reg<priority::PrioritySpec>;

/// PENDING (r) register: interrupt pending bits.
pub type Pending = Reg<pending::PendingSpec>;

/// M_ENABLE (rw) register: M-mode interrupt enable bits (context 0).
pub type MEnable = Reg<m_enable::MEnableSpec>;

/// S_ENABLE (rw) register: S-mode interrupt enable bits (context 1).
pub type SEnable = Reg<s_enable::SEnableSpec>;

/// M_THRESHOLD (rw) register: M-mode priority threshold (context 0).
pub type MThreshold = Reg<m_threshold::MThresholdSpec>;

/// M_CLAIM (rw) register: M-mode interrupt claim/complete (context 0).
pub type MClaim = Reg<m_claim::MClaimSpec>;

/// S_THRESHOLD (rw) register: S-mode priority threshold (context 1).
pub type SThreshold = Reg<s_threshold::SThresholdSpec>;

/// S_CLAIM (rw) register: S-mode interrupt claim/complete (context 1).
pub type SClaim = Reg<s_claim::SClaimSpec>;

/// Number of priority registers (one per interrupt source).
pub const PRIORITY_COUNT: usize = 96;

/// Number of registers in each array of pending and enable bits.
pub const BITS_WORD_COUNT: usize = 3;

/// Number of bytes the register block spans.
pub const BLOCK_SIZE: usize = 0x20_1008;

/// Register block of the platform-level interrupt controller.
pub struct RegisterBlock {
    base: usize,
}

impl RegisterBlock {
    /// Whole block lies inside the address space.
    #[verifier::type_invariant]
    closed spec fn fits(self) -> bool {
        self.base <= usize::MAX - BLOCK_SIZE
    }

    /// Base address of the block.
    pub closed spec fn base_addr(self) -> usize {
        self.base
    }

    /// The register block whose first register is at `base`.
    pub fn at(base: usize) -> (rb: RegisterBlock)
        requires
            base <= usize::MAX - BLOCK_SIZE,
        ensures
            rb.base_addr() == base,
    {
        RegisterBlock { base }
    }

    /// 0x00..0x180 - Priority for interrupt source `n` (source 0 is reserved)
    pub fn priority(&self, n: usize) -> (r: Priority)
        requires
            n < PRIORITY_COUNT,
        ensures
            r.addr == self.base_addr() + 4 * n,
    {
        proof {
            use_type_invariant(self);
        }
        Reg::at(self.base + 4 * n)
    }

    /// All priority registers, in source order.
    pub fn priority_iter(&self) -> (v: Vec<Priority>)
        ensures
            v.len() == PRIORITY_COUNT,
            forall|i: int| 0 <= i < PRIORITY_COUNT ==> #[trigger] v[i].addr == self.base_addr() + 4 * i,
    {
        let mut v: Vec<Priority> = Vec::new();
        let mut n: usize = 0;
        while n < PRIORITY_COUNT
            invariant
                n <= PRIORITY_COUNT,
                v.len() == n,
                forall|i: int| 0 <= i < n ==> #[trigger] v[i].addr == self.base_addr() + 4 * i,
            decreases PRIORITY_COUNT - n,
        {
            v.push(self.priority(n));
            n = n + 1;
        }
        v
    }

    /// 0x1000..0x100c - Interrupt pending bits, word `n`
    pub fn pending(&self, n: usize) -> (r: Pending)
        requires
            n < BITS_WORD_COUNT,
        ensures
            r.addr == self.base_addr() + 0x1000 + 4 * n,
    {
        proof {
            use_type_invariant(self);
        }
        Reg::at(self.base + 0x1000 + 4 * n)
    }

    /// All pending-bits registers, in order.
    pub fn pending_iter(&self) -> (v: Vec<Pending>)
        ensures
            v.len() == BITS_WORD_COUNT,
            forall|i: int|
                0 <= i < BITS_WORD_COUNT ==> #[trigger] v[i].addr == self.base_addr() + 0x1000 + 4
                    * i,
    {
        let mut v: Vec<Pending> = Vec::new();
        let mut n: usize = 0;
        while n < BITS_WORD_COUNT
            invariant
                n <= BITS_WORD_COUNT,
                v.len() == n,
                forall|i: int| 0 <= i < n ==> #[trigger] v[i].addr == self.base_addr() + 0x1000 + 4 * i,
            decreases BITS_WORD_COUNT - n,
        {
            v.push(self.pending(n));
            n = n + 1;
        }
        v
    }

    /// 0x2000..0x200c - M-mode interrupt enable bits (context 0), word `n`
    pub fn m_enable(&self, n: usize) -> (r: MEnable)
        requires
            n < BITS_WORD_COUNT,
        ensures
            r.addr == self.base_addr() + 0x2000 + 4 * n,
    {
        proof {
            use_type_invariant(self);
        }
        Reg::at(self.base + 0x2000 + 4 * n)
    }

    /// All M-mode interrupt enable registers, in order.
    pub fn m_enable_iter(&self) -> (v: Vec<MEnable>)
        ensures
            v.len() == BITS_WORD_COUNT,
            forall|i: int|
                0 <= i < BITS_WORD_COUNT ==> #[trigger] v[i].addr == self.base_addr() + 0x2000 + 4
                    * i,
    {
        let mut v: Vec<MEnable> = Vec::new();
        let mut n: usize = 0;
        while n < BITS_WORD_COUNT
            invariant
                n <= BITS_WORD_COUNT,
                v.len() == n,
                forall|i: int| 0 <= i < n ==> #[trigger] v[i].addr == self.base_addr() + 0x2000 + 4 * i,
            decreases BITS_WORD_COUNT - n,
        {
            v.push(self.m_enable(n));
            n = n + 1;
        }
        v
    }

    /// 0x2080..0x208c - S-mode interrupt enable bits (context 1), word `n`
    pub fn s_enable(&self, n: usize) -> (r: SEnable)
        requires
            n < BITS_WORD_COUNT,
        ensures
            r.addr == self.base_addr() + 0x2080 + 4 * n,
    {
        proof {
            use_type_invariant(self);
        }
        Reg::at(self.base + 0x2080 + 4 * n)
    }

    /// All S-mode interrupt enable registers, in order.
    pub fn s_enable_iter(&self) -> (v: Vec<SEnable>)
        ensures
            v.len() == BITS_WORD_COUNT,
            forall|i: int|
                0 <= i < BITS_WORD_COUNT ==> #[trigger] v[i].addr == self.base_addr() + 0x2080 + 4
                    * i,
    {
        let mut v: Vec<SEnable> = Vec::new();
        let mut n: usize = 0;
        while n < BITS_WORD_COUNT
            invariant
                n <= BITS_WORD_COUNT,
                v.len() == n,
                forall|i: int| 0 <= i < n ==> #[trigger] v[i].addr == self.base_addr() + 0x2080 + 4 * i,
            decreases BITS_WORD_COUNT - n,
        {
            v.push(self.s_enable(n));
            n = n + 1;
        }
        v
    }

    /// 0x200000 - M-mode priority threshold (context 0)
    pub fn m_threshold(&self) -> (r: MThreshold)
        ensures
            r.addr == self.base_addr() + 0x20_0000,
    {
        proof {
            use_type_invariant(self);
        }
        Reg::at(self.base + 0x20_0000)
    }

    /// 0x200004 - M-mode interrupt claim/complete (context 0). Read to claim, write to complete.
    pub fn m_claim(&self) -> (r: MClaim)
        ensures
            r.addr == self.base_addr() + 0x20_0004,
    {
        proof {
            use_type_invariant(self);
        }
        Reg::at(self.base + 0x20_0004)
    }

    /// 0x201000 - S-mode priority threshold (context 1)
    pub fn s_threshold(&self) -> (r: SThreshold)
        ensures
            r.addr == self.base_addr() + 0x20_1000,
    {
        proof {
            use_type_invariant(self);
        }
        Reg::at(self.base + 0x20_1000)
    }

    /// 0x201004 - S-mode interrupt claim/complete (context 1). Read to claim, write to complete.
    pub fn s_claim(&self) -> (r: SClaim)
        ensures
            r.addr == self.base_addr() + 0x20_1004,
    {
        proof {
            use_type_invariant(self);
        }
        Reg::at(self.base + 0x20_1004)
    }
}


/// Number of interrupt sources whose bits the pending and enable registers hold.
pub const SOURCE_COUNT: usize = 96;

/// Word and bit of interrupt source `source` in the pending and enable registers:
/// bit `source % 32` of word `source / 32`.
pub fn source_bit(source: usize) -> (r: (usize, u32))
    requires
        source < SOURCE_COUNT,
    ensures
        r.0 == source / 32,
        r.0 < BITS_WORD_COUNT,
        r.1 == 1u32 << (source % 32) as u32,
{
    (source / 32, 1u32 << (source % 32) as u32)
}

} // verus!
