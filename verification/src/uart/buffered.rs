//! Buffered UART driver.
//!
//! Unlike the unbuffered driver, whose reader takes bytes straight from the hardware
//! FIFO, this driver's interrupt handler drains every received byte into a ring buffer
//! supplied at construction, which greatly reduces the chance of FIFO overruns when the
//! application is slow to read. Transmission is not buffered and works as in the
//! unbuffered driver.
use vstd::prelude::*;

use super::int_flag;
use crate::pac::uart0::data::{fcr, ier, lsr, scr};
use crate::pac::uart0::dlab::iir;

verus! {

/// Buffered UART instance.
pub trait Instance {}

/// What one run of the buffered UART interrupt handler does.
#[derive(Debug, Copy, Clone, Eq, PartialEq)]
pub enum IrqAction {
    /// Line status event: read `LSR` to acknowledge it (draining later meets the byte in
    /// error).
    AckLineStatus,
    /// Received data: move bytes from `RBR` into the ring buffer while `LSR` says data
    /// is ready and the ring buffer has room; wake the reader if any byte was moved.
    DrainRx,
    /// Transmitter empty: write `scr` (recording `TX_EMPTY`), write `ier` (disabling the
    /// interrupt) and wake the transmitter.
    TxEmpty { scr: scr::W, ier: ier::W },
    /// Anything else: nothing to do.
    Ignore,
}

/// Buffered UART interrupt handler: the receive interrupts stay enabled and every
/// run drains all available bytes.
#[verifier::reject_recursive_types(T)]
pub struct InterruptHandler<T: Instance> {
    _phantom: core::marker::PhantomData<T>,
}

impl<T: Instance> InterruptHandler<T> {
    /// Services the interrupt, given the values of `IIR`, `SCR` and `IER`.
    pub fn on_interrupt(iir: &iir::R, scr: &scr::R, ier: &ier::R) -> (a: IrqAction)
        ensures
            ({
                let id = crate::pac::field8(iir.bits, 1, 0x7);
                &&& id == 0b011 ==> a == IrqAction::AckLineStatus
                &&& (id == 0b010 || id == 0b110) ==> a == IrqAction::DrainRx
                &&& id == 0b001 ==> a == (IrqAction::TxEmpty {
                    scr: scr::W { bits: scr.bits | int_flag::TX_EMPTY },
                    ier: ier::W { bits: crate::pac::with_bit8(ier.bits, 1, false) },
                })
                &&& !(id == 0b011 || id == 0b010 || id == 0b110 || id == 0b001) ==> a
                    == IrqAction::Ignore
            }),
    {
        let intid = super::InterruptType::try_from(iir.iid().bits());
        match intid {
            Ok(super::InterruptType::LineStatus) => IrqAction::AckLineStatus,
            Ok(super::InterruptType::RxAvailable) | Ok(super::InterruptType::CharacterTimeout) => {
                IrqAction::DrainRx
            },
            Ok(super::InterruptType::TxEmpty) => {
                let mut w = ier::W::modify(ier);
                w.etbei(false);
                IrqAction::TxEmpty { scr: scr::W { bits: scr.bits() | int_flag::TX_EMPTY }, ier: w }
            },
            _ => IrqAction::Ignore,
        }
    }
}

/// Progress of one handler run draining the hardware FIFO into the ring buffer.
pub struct Drain {
    moved_any: bool,
}

impl Drain {
    /// Whether any byte was moved into the ring buffer so far.
    pub closed spec fn moved_any(self) -> bool {
        self.moved_any
    }

    /// Starts a drain: nothing moved yet.
    pub fn new() -> (d: Drain)
        ensures
            !d.moved_any(),
    {
        Drain { moved_any: false }
    }

    /// Whether to take another byte from `RBR`, given the line status read: while data
    /// is ready.
    pub fn byte_ready(&self, lsr: &lsr::R) -> (b: bool)
        ensures
            b == crate::pac::bit8(lsr.bits, 0),
    {
        lsr.dr().bit()
    }

    /// Records whether the ring buffer accepted the byte just taken; returns whether to
    /// go on draining (a full ring buffer ends the drain).
    pub fn pushed(&mut self, accepted: bool) -> (go_on: bool)
        ensures
            go_on == accepted,
            final(self).moved_any() == (old(self).moved_any() || accepted),
    {
        if accepted {
            self.moved_any = true;
        }
        accepted
    }

    /// Whether to wake the reader once the drain is over: when any byte was moved.
    pub fn wake_reader(&self) -> (b: bool)
        ensures
            b == self.moved_any(),
    {
        self.moved_any
    }
}

/// Number of bytes to copy out of a contiguous region of the ring buffer holding
/// `region_len` bytes, when `copied` of the `to_read` bytes of a read were copied already.
pub fn copy_len(region_len: usize, to_read: usize, copied: usize) -> (n: usize)
    requires
        copied <= to_read,
    ensures
        n == if region_len < to_read - copied {
            region_len as int
        } else {
            to_read - copied
        },
{
    let left = to_read - copied;
    if region_len < left {
        region_len
    } else {
        left
    }
}

/// Outcome of one drain by the handler when the hardware FIFO holds `k` bytes and the
/// ring buffer has room for `free` more, after [`Drain`]'s rules (take a byte while data
/// is ready, stop once the ring buffer refuses one, wake the reader if any byte moved)
/// with a ring buffer that accepts a byte exactly when it has room: the number of bytes
/// moved into the ring buffer, the number taken from the FIFO, and whether the reader
/// is woken, when `moved_before` says whether a byte moved earlier in the run.
pub open spec fn drain_run(k: nat, free: nat, moved_before: bool) -> (nat, nat, bool)
    decreases k,
{
    if k == 0 {
        (0, 0, moved_before)
    } else if free == 0 {
        (0, 1, moved_before)
    } else {
        let (m, t, w) = drain_run((k - 1) as nat, (free - 1) as nat, true);
        (m + 1, t + 1, w)
    }
}

/// A drain moves `min(k, free)` bytes into the ring buffer; it takes one byte more from
/// the FIFO than it moves (and drops it) exactly when the FIFO holds more than the ring
/// buffer has room for; and it wakes the reader exactly when a byte moved.
pub proof fn lemma_drain_run(k: nat, free: nat)
    ensures
        ({
            let (moved, taken, wake) = drain_run(k, free, false);
            &&& moved == if k < free { k } else { free }
            &&& taken == if k > free { free + 1 } else { k }
            &&& wake == (moved > 0)
        }),
    decreases k,
{
    if k > 0 && free > 0 {
        lemma_drain_run_moved((k - 1) as nat, (free - 1) as nat);
    }
}

/// Once a byte moved, the reader is woken; the counts are as for a fresh drain.
proof fn lemma_drain_run_moved(k: nat, free: nat)
    ensures
        ({
            let (moved, taken, wake) = drain_run(k, free, true);
            &&& moved == if k < free { k } else { free }
            &&& taken == if k > free { free + 1 } else { k }
            &&& wake
        }),
    decreases k,
{
    if k > 0 && free > 0 {
        lemma_drain_run_moved((k - 1) as nat, (free - 1) as nat);
    }
}

/// Number of bytes copied after taking contiguous regions of lengths `regions` out of the
/// ring buffer, `copied` of `to_read` bytes having been copied before ([`copy_len`]).
pub open spec fn copy_run(regions: Seq<nat>, to_read: nat, copied: nat) -> nat
    decreases regions.len(),
{
    if regions.len() == 0 {
        copied
    } else {
        let n = if regions[0] < to_read - copied {
            regions[0]
        } else {
            (to_read - copied) as nat
        };
        copy_run(regions.drop_first(), to_read, copied + n)
    }
}

/// Total length of regions.
pub open spec fn total(regions: Seq<nat>) -> nat
    decreases regions.len(),
{
    if regions.len() == 0 {
        0
    } else {
        regions[0] + total(regions.drop_first())
    }
}

/// A read copies the regions it takes one after the other, never more than it is to
/// read: after regions totalling `t` bytes, `min(copied + t, to_read)` bytes are copied,
/// so once the regions hold the bytes to read, exactly those are copied.
pub proof fn lemma_copy_run(regions: Seq<nat>, to_read: nat, copied: nat)
    requires
        copied <= to_read,
    ensures
        copy_run(regions, to_read, copied) == if copied + total(regions) < to_read {
            copied + total(regions)
        } else {
            to_read
        },
    decreases regions.len(),
{
    if regions.len() > 0 {
        let n = if regions[0] < to_read - copied {
            regions[0]
        } else {
            (to_read - copied) as nat
        };
        lemma_copy_run(regions.drop_first(), to_read, copied + n);
    }
}

/// Register values that set up the receiver of a buffered UART, given the value of
/// `IER`: a FIFO trigger level of 1 byte (the handler drains all available bytes anyway)
/// and the receive interrupts enabled for good.
pub fn rx_setup(ier: &ier::R) -> (r: (fcr::W, ier::W))
    ensures
        r.0.bits == 0x01,
        r.1.bits == crate::pac::with_bit8(crate::pac::with_bit8(ier.bits, 2, true), 0, true),
{
    let fcr_w = super::set_fifo_trigger(super::RxFifoTrigger::_1);
    assert(1u8 | (0u8 << 6u8) == 1u8) by (bit_vector);
    let mut w = ier::W::modify(ier);
    w.elsi(true);
    w.erbfi(true);
    (fcr_w, w)
}

/// Number of bytes an async read takes from the ring buffer, given how many it holds
/// and the size of the caller's buffer; `None` (wait) when it holds none.
pub fn read_count(available: usize, len: usize) -> (n: Option<usize>)
    ensures
        available == 0 <==> n is None,
        n matches Some(k) ==> k == if available < len { available } else { len },
{
    if available > 0 {
        Some(if available < len { available } else { len })
    } else {
        None
    }
}

} // verus!
