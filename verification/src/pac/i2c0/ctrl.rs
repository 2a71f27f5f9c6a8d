//! Control register
use vstd::prelude::*;
use crate::pac::{BitReader, get_bit32, put_bit32};

verus! {

/// Value of the `CTRL` register after reset.
pub const RESET_VALUE: u32 = 0x0;

/// Fields of `CTRL` that act when written with 1 (strobes and write-1-to-clear flags);
/// a read-modify-write leaves them 0 so that it does not trigger them.
pub const ONE_TO_MODIFY_FIELDS_BITMAP: u32 = 0xc;

/// Marker type of the `CTRL` register: Control register.
pub struct CtrlSpec;

/// Field `RX_RDY_IE` reader - RX-ready interrupt enable
pub type RxRdyIeR = BitReader;

/// Field `CMD_DONE_IE` reader - Command-complete interrupt enable
pub type CmdDoneIeR = BitReader;

/// Field `CLEAR_FIFO` reader - Clear RX FIFO (write-1, self-clearing)
pub type ClearFifoR = BitReader;

/// Field `RESET` reader - Soft reset (write-1, self-clearing)
pub type ResetR = BitReader;

/// Value read from the `CTRL` register.
#[derive(Clone, Copy, Debug, PartialEq, Eq)]
pub struct R {
    /// Raw register value.
    pub bits: u32,
}

impl R {
    /// Raw register value.
    pub fn bits(&self) -> (r: u32)
        ensures
            r == self.bits,
    {
        self.bits
    }

    /// Bit 0 - RX-ready interrupt enable
    pub fn rx_rdy_ie(&self) -> (r: RxRdyIeR)
        ensures
            r.bit == crate::pac::bit32(self.bits, 0),
    {
        BitReader::new(get_bit32(self.bits, 0))
    }

    /// Bit 1 - Command-complete interrupt enable
    pub fn cmd_done_ie(&self) -> (r: CmdDoneIeR)
        ensures
            r.bit == crate::pac::bit32(self.bits, 1),
    {
        BitReader::new(get_bit32(self.bits, 1))
    }

    /// Bit 2 - Clear RX FIFO (write-1, self-clearing)
    pub fn clear_fifo(&self) -> (r: ClearFifoR)
        ensures
            r.bit == crate::pac::bit32(self.bits, 2),
    {
        BitReader::new(get_bit32(self.bits, 2))
    }

    /// Bit 3 - Soft reset (write-1, self-clearing)
    pub fn reset(&self) -> (r: ResetR)
        ensures
            r.bit == crate::pac::bit32(self.bits, 3),
    {
        BitReader::new(get_bit32(self.bits, 3))
    }
}

/// Value to be written to the `CTRL` register.
#[derive(Clone, Copy, Debug, PartialEq, Eq)]
pub struct W {
    /// Raw register value.
    pub bits: u32,
}

impl W {
    /// Writer for a plain write: starts from the reset value (`RESET_VALUE`), with every
    /// strobe and write-1-to-clear field left 0.
    pub fn new() -> (w: W)
        ensures
            w.bits == 0x0,
    {
        W { bits: 0x0 }
    }

    /// Writer for a read-modify-write: starts from the value read, with every strobe
    /// and write-1-to-clear field left 0.
    pub fn modify(r: &R) -> (w: W)
        ensures
            w.bits == r.bits & !ONE_TO_MODIFY_FIELDS_BITMAP,
    {
        W { bits: r.bits & !ONE_TO_MODIFY_FIELDS_BITMAP }
    }

    /// Replaces the whole register value.
    pub fn bits(&mut self, bits: u32)
        ensures
            final(self).bits == bits,
    {
        self.bits = bits;
    }

    /// Bit 0 - RX-ready interrupt enable
    pub fn rx_rdy_ie(&mut self, value: bool)
        ensures
            final(self).bits == crate::pac::with_bit32(old(self).bits, 0, value),
    {
        self.bits = put_bit32(self.bits, 0, value);
    }

    /// Bit 1 - Command-complete interrupt enable
    pub fn cmd_done_ie(&mut self, value: bool)
        ensures
            final(self).bits == crate::pac::with_bit32(old(self).bits, 1, value),
    {
        self.bits = put_bit32(self.bits, 1, value);
    }

    /// Bit 2 - Clear RX FIFO (write-1, self-clearing)
    ///
    /// Sets the field to 1, which clears the latched flag when the value is written.
    pub fn clear_fifo(&mut self)
        ensures
            final(self).bits == crate::pac::with_bit32(old(self).bits, 2, true),
    {
        self.bits = put_bit32(self.bits, 2, true);
    }

    /// Bit 3 - Soft reset (write-1, self-clearing)
    ///
    /// Sets the field to 1, which triggers the action when the value is written.
    pub fn reset(&mut self)
        ensures
            final(self).bits == crate::pac::with_bit32(old(self).bits, 3, true),
    {
        self.bits = put_bit32(self.bits, 3, true);
    }
}

} // verus!
