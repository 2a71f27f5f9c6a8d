//! Status register
use vstd::prelude::*;
use crate::pac::{BitReader, get_bit32, put_bit32};

verus! {

/// Value of the `STATUS` register after reset.
pub const RESET_VALUE: u32 = 0x0;

/// Fields of `STATUS` that act when written with 1 (strobes and write-1-to-clear flags);
/// a read-modify-write leaves them 0 so that it does not trigger them.
pub const ONE_TO_MODIFY_FIELDS_BITMAP: u32 = 0x2e;

/// Marker type of the `STATUS` register: Status register.
pub struct StatusSpec;

/// Field `RW` reader - Transfer direction (1=controller read, 0=controller write)
pub type RwR = BitReader;

/// Field `START` reader - Addressed: address matched (write-1-to-clear)
pub type StartR = BitReader;

/// Field `STOP` reader - Controller sent STOP (write-1-to-clear)
pub type StopR = BitReader;

/// Field `RESTART` reader - Repeated START, also sets START (write-1-to-clear)
pub type RestartR = BitReader;

/// Field `RX_RDY` reader - Byte in DATA awaiting strobe
pub type RxRdyR = BitReader;

/// Field `TX_DONE` reader - TX byte clocked and controller replied (write-1-to-clear)
pub type TxDoneR = BitReader;

/// Field `TX_NAK` reader - Last TX byte: 1=controller NAKed (done)
pub type TxNakR = BitReader;

/// Value read from the `STATUS` register.
#[derive(Clone, Copy, Debug, PartialEq, Eq)]
pub struct R {
    /// Raw register value.
    pub bits: u32,
}

impl R {
    /// Raw register value.
    pub fn bits(&self) -> (r: u32)
        ensures
            r == self.bits,
    {
        self.bits
    }

    /// Bit 0 - Transfer direction (1=controller read, 0=controller write)
    pub fn rw(&self) -> (r: RwR)
        ensures
            r.bit == crate::pac::bit32(self.bits, 0),
    {
        BitReader::new(get_bit32(self.bits, 0))
    }

    /// Bit 1 - Addressed: address matched (write-1-to-clear)
    pub fn start(&self) -> (r: StartR)
        ensures
            r.bit == crate::pac::bit32(self.bits, 1),
    {
        BitReader::new(get_bit32(self.bits, 1))
    }

    /// Bit 2 - Controller sent STOP (write-1-to-clear)
    pub fn stop(&self) -> (r: StopR)
        ensures
            r.bit == crate::pac::bit32(self.bits, 2),
    {
        BitReader::new(get_bit32(self.bits, 2))
    }

    /// Bit 3 - Repeated START, also sets START (write-1-to-clear)
    pub fn restart(&self) -> (r: RestartR)
        ensures
            r.bit == crate::pac::bit32(self.bits, 3),
    {
        BitReader::new(get_bit32(self.bits, 3))
    }

    /// Bit 4 - Byte in DATA awaiting strobe
    pub fn rx_rdy(&self) -> (r: RxRdyR)
        ensures
            r.bit == crate::pac::bit32(self.bits, 4),
    {
        BitReader::new(get_bit32(self.bits, 4))
    }

    /// Bit 5 - TX byte clocked and controller replied (write-1-to-clear)
    pub fn tx_done(&self) -> (r: TxDoneR)
        ensures
            r.bit == crate::pac::bit32(self.bits, 5),
    {
        BitReader::new(get_bit32(self.bits, 5))
    }

    /// Bit 6 - Last TX byte: 1=controller NAKed (done)
    pub fn tx_nak(&self) -> (r: TxNakR)
        ensures
            r.bit == crate::pac::bit32(self.bits, 6),
    {
        BitReader::new(get_bit32(self.bits, 6))
    }
}

/// Value to be written to the `STATUS` register.
#[derive(Clone, Copy, Debug, PartialEq, Eq)]
pub struct W {
    /// Raw register value.
    pub bits: u32,
}

impl W {
    /// Writer for a plain write: starts from the reset value (`RESET_VALUE`), with every
    /// strobe and write-1-to-clear field left 0.
    pub fn new() -> (w: W)
        ensures
            w.bits == 0x0,
    {
        W { bits: 0x0 }
    }

    /// Writer for a read-modify-write: starts from the value read, with every strobe
    /// and write-1-to-clear field left 0.
    pub fn modify(r: &R) -> (w: W)
        ensures
            w.bits == r.bits & !ONE_TO_MODIFY_FIELDS_BITMAP,
    {
        W { bits: r.bits & !ONE_TO_MODIFY_FIELDS_BITMAP }
    }

    /// Replaces the whole register value.
    pub fn bits(&mut self, bits: u32)
        ensures
            final(self).bits == bits,
    {
        self.bits = bits;
    }

    /// Bit 1 - Addressed: address matched (write-1-to-clear)
    ///
    /// Sets the field to 1, which clears the latched flag when the value is written.
    pub fn start(&mut self)
        ensures
            final(self).bits == crate::pac::with_bit32(old(self).bits, 1, true),
    {
        self.bits = put_bit32(self.bits, 1, true);
    }

    /// Bit 2 - Controller sent STOP (write-1-to-clear)
    ///
    /// Sets the field to 1, which clears the latched flag when the value is written.
    pub fn stop(&mut self)
        ensures
            final(self).bits == crate::pac::with_bit32(old(self).bits, 2, true),
    {
        self.bits = put_bit32(self.bits, 2, true);
    }

    /// Bit 3 - Repeated START, also sets START (write-1-to-clear)
    ///
    /// Sets the field to 1, which clears the latched flag when the value is written.
    pub fn restart(&mut self)
        ensures
            final(self).bits == crate::pac::with_bit32(old(self).bits, 3, true),
    {
        self.bits = put_bit32(self.bits, 3, true);
    }

    /// Bit 5 - TX byte clocked and controller replied (write-1-to-clear)
    ///
    /// Sets the field to 1, which clears the latched flag when the value is written.
    pub fn tx_done(&mut self)
        ensures
            final(self).bits == crate::pac::with_bit32(old(self).bits, 5, true),
    {
        self.bits = put_bit32(self.bits, 5, true);
    }
}

} // verus!
