//! Status register
use vstd::prelude::*;
use crate::pac::{BitReader, get_bit32, put_bit32};

verus! {

/// Value of the `STATUS` register after reset.
pub const RESET_VALUE: u32 = 0x0;

/// Fields of `STATUS` that act when written with 1 (strobes and write-1-to-clear flags);
/// a read-modify-write leaves them 0 so that it does not trigger them.
pub const ONE_TO_MODIFY_FIELDS_BITMAP: u32 = 0xe;

/// Marker type of the `STATUS` register: Status register.
pub struct StatusSpec;

/// Field `RX_RDY` reader - RX FIFO not empty
pub type RxRdyR = BitReader;

/// Field `NAK` reader - Target NAKed / link dropped (write-1-to-clear)
pub type NakR = BitReader;

/// Field `PROTO_ERR` reader - Illegal command ordering (write-1-to-clear)
pub type ProtoErrR = BitReader;

/// Field `CMD_DONE` reader - Command completed (write-1-to-clear)
pub type CmdDoneR = BitReader;

/// Value read from the `STATUS` register.
#[derive(Clone, Copy, Debug, PartialEq, Eq)]
pub struct R {
    /// Raw register value.
    pub bits: u32,
}

impl R {
    /// Raw register value.
    pub fn bits(&self) -> (r: u32)
        ensures
            r == self.bits,
    {
        self.bits
    }

    /// Bit 0 - RX FIFO not empty
    pub fn rx_rdy(&self) -> (r: RxRdyR)
        ensures
            r.bit == crate::pac::bit32(self.bits, 0),
    {
        BitReader::new(get_bit32(self.bits, 0))
    }

    /// Bit 1 - Target NAKed / link dropped (write-1-to-clear)
    pub fn nak(&self) -> (r: NakR)
        ensures
            r.bit == crate::pac::bit32(self.bits, 1),
    {
        BitReader::new(get_bit32(self.bits, 1))
    }

    /// Bit 2 - Illegal command ordering (write-1-to-clear)
    pub fn proto_err(&self) -> (r: ProtoErrR)
        ensures
            r.bit == crate::pac::bit32(self.bits, 2),
    {
        BitReader::new(get_bit32(self.bits, 2))
    }

    /// Bit 3 - Command completed (write-1-to-clear)
    pub fn cmd_done(&self) -> (r: CmdDoneR)
        ensures
            r.bit == crate::pac::bit32(self.bits, 3),
    {
        BitReader::new(get_bit32(self.bits, 3))
    }
}

/// Value to be written to the `STATUS` register.
#[derive(Clone, Copy, Debug, PartialEq, Eq)]
pub struct W {
    /// Raw register value.
    pub bits: u32,
}

impl W {
    /// Writer for a plain write: starts from the reset value (`RESET_VALUE`), with every
    /// strobe and write-1-to-clear field left 0.
    pub fn new() -> (w: W)
        ensures
            w.bits == 0x0,
    {
        W { bits: 0x0 }
    }

    /// Writer for a read-modify-write: starts from the value read, with every strobe
    /// and write-1-to-clear field left 0.
    pub fn modify(r: &R) -> (w: W)
        ensures
            w.bits == r.bits & !ONE_TO_MODIFY_FIELDS_BITMAP,
    {
        W { bits: r.bits & !ONE_TO_MODIFY_FIELDS_BITMAP }
    }

    /// Replaces the whole register value.
    pub fn bits(&mut self, bits: u32)
        ensures
            final(self).bits == bits,
    {
        self.bits = bits;
    }

    /// Bit 1 - Target NAKed / link dropped (write-1-to-clear)
    ///
    /// Sets the field to 1, which clears the latched flag when the value is written.
    pub fn nak(&mut self)
        ensures
            final(self).bits == crate::pac::with_bit32(old(self).bits, 1, true),
    {
        self.bits = put_bit32(self.bits, 1, true);
    }

    /// Bit 2 - Illegal command ordering (write-1-to-clear)
    ///
    /// Sets the field to 1, which clears the latched flag when the value is written.
    pub fn proto_err(&mut self)
        ensures
            final(self).bits == crate::pac::with_bit32(old(self).bits, 2, true),
    {
        self.bits = put_bit32(self.bits, 2, true);
    }

    /// Bit 3 - Command completed (write-1-to-clear)
    ///
    /// Sets the field to 1, which clears the latched flag when the value is written.
    pub fn cmd_done(&mut self)
        ensures
            final(self).bits == crate::pac::with_bit32(old(self).bits, 3, true),
    {
        self.bits = put_bit32(self.bits, 3, true);
    }
}

} // verus!
