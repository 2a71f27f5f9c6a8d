//! Control register
use vstd::prelude::*;
use crate::pac::{BitReader, get_bit32, put_bit32};

verus! {

/// Value of the `CTRL` register after reset.
pub const RESET_VALUE: u32 = 0x0;

/// Fields of `CTRL` that act when written with 1 (strobes and write-1-to-clear flags);
/// a read-modify-write leaves them 0 so that it does not trigger them.
pub const ONE_TO_MODIFY_FIELDS_BITMAP: u32 = 0x43;

/// Marker type of the `CTRL` register: Control register.
pub struct CtrlSpec;

/// Field `RX_ACK` reader - ACK pending RX byte and continue (write-1 strobe)
pub type RxAckR = BitReader;

/// Field `RX_NAK` reader - NAK pending RX byte / reject (write-1 strobe)
pub type RxNakR = BitReader;

/// Field `INT_START` reader - Interrupt enable: addressed (START)
pub type IntStartR = BitReader;

/// Field `INT_STOP` reader - Interrupt enable: STOP
pub type IntStopR = BitReader;

/// Field `INT_RX_RDY` reader - Interrupt enable: byte received
pub type IntRxRdyR = BitReader;

/// Field `INT_TX` reader - Interrupt enable: TX done
pub type IntTxR = BitReader;

/// Field `RESET` reader - Recover / soft reset (write-1, self-clearing)
pub type ResetR = BitReader;

/// Value read from the `CTRL` register.
#[derive(Clone, Copy, Debug, PartialEq, Eq)]
pub struct R {
    /// Raw register value.
    pub bits: u32,
}

impl R {
    /// Raw register value.
    pub fn bits(&self) -> (r: u32)
        ensures
            r == self.bits,
    {
        self.bits
    }

    /// Bit 0 - ACK pending RX byte and continue (write-1 strobe)
    pub fn rx_ack(&self) -> (r: RxAckR)
        ensures
            r.bit == crate::pac::bit32(self.bits, 0),
    {
        BitReader::new(get_bit32(self.bits, 0))
    }

    /// Bit 1 - NAK pending RX byte / reject (write-1 strobe)
    pub fn rx_nak(&self) -> (r: RxNakR)
        ensures
            r.bit == crate::pac::bit32(self.bits, 1),
    {
        BitReader::new(get_bit32(self.bits, 1))
    }

    /// Bit 2 - Interrupt enable: addressed (START)
    pub fn int_start(&self) -> (r: IntStartR)
        ensures
            r.bit == crate::pac::bit32(self.bits, 2),
    {
        BitReader::new(get_bit32(self.bits, 2))
    }

    /// Bit 3 - Interrupt enable: STOP
    pub fn int_stop(&self) -> (r: IntStopR)
        ensures
            r.bit == crate::pac::bit32(self.bits, 3),
    {
        BitReader::new(get_bit32(self.bits, 3))
    }

    /// Bit 4 - Interrupt enable: byte received
    pub fn int_rx_rdy(&self) -> (r: IntRxRdyR)
        ensures
            r.bit == crate::pac::bit32(self.bits, 4),
    {
        BitReader::new(get_bit32(self.bits, 4))
    }

    /// Bit 5 - Interrupt enable: TX done
    pub fn int_tx(&self) -> (r: IntTxR)
        ensures
            r.bit == crate::pac::bit32(self.bits, 5),
    {
        BitReader::new(get_bit32(self.bits, 5))
    }

    /// Bit 6 - Recover / soft reset (write-1, self-clearing)
    pub fn reset(&self) -> (r: ResetR)
        ensures
            r.bit == crate::pac::bit32(self.bits, 6),
    {
        BitReader::new(get_bit32(self.bits, 6))
    }
}

/// Value to be written to the `CTRL` register.
#[derive(Clone, Copy, Debug, PartialEq, Eq)]
pub struct W {
    /// Raw register value.
    pub bits: u32,
}

impl W {
    /// Writer for a plain write: starts from the reset value (`RESET_VALUE`), with every
    /// strobe and write-1-to-clear field left 0.
    pub fn new() -> (w: W)
        ensures
            w.bits == 0x0,
    {
        W { bits: 0x0 }
    }

    /// Writer for a read-modify-write: starts from the value read, with every strobe
    /// and write-1-to-clear field left 0.
    pub fn modify(r: &R) -> (w: W)
        ensures
            w.bits == r.bits & !ONE_TO_MODIFY_FIELDS_BITMAP,
    {
        W { bits: r.bits & !ONE_TO_MODIFY_FIELDS_BITMAP }
    }

    /// Replaces the whole register value.
    pub fn bits(&mut self, bits: u32)
        ensures
            final(self).bits == bits,
    {
        self.bits = bits;
    }

    /// Bit 0 - ACK pending RX byte and continue (write-1 strobe)
    ///
    /// Sets the field to 1, which triggers the action when the value is written.
    pub fn rx_ack(&mut self)
        ensures
            final(self).bits == crate::pac::with_bit32(old(self).bits, 0, true),
    {
        self.bits = put_bit32(self.bits, 0, true);
    }

    /// Bit 1 - NAK pending RX byte / reject (write-1 strobe)
    ///
    /// Sets the field to 1, which triggers the action when the value is written.
    pub fn rx_nak(&mut self)
        ensures
            final(self).bits == crate::pac::with_bit32(old(self).bits, 1, true),
    {
        self.bits = put_bit32(self.bits, 1, true);
    }

    /// Bit 2 - Interrupt enable: addressed (START)
    pub fn int_start(&mut self, value: bool)
        ensures
            final(self).bits == crate::pac::with_bit32(old(self).bits, 2, value),
    {
        self.bits = put_bit32(self.bits, 2, value);
    }

    /// Bit 3 - Interrupt enable: STOP
    pub fn int_stop(&mut self, value: bool)
        ensures
            final(self).bits == crate::pac::with_bit32(old(self).bits, 3, value),
    {
        self.bits = put_bit32(self.bits, 3, value);
    }

    /// Bit 4 - Interrupt enable: byte received
    pub fn int_rx_rdy(&mut self, value: bool)
        ensures
            final(self).bits == crate::pac::with_bit32(old(self).bits, 4, value),
    {
        self.bits = put_bit32(self.bits, 4, value);
    }

    /// Bit 5 - Interrupt enable: TX done
    pub fn int_tx(&mut self, value: bool)
        ensures
            final(self).bits == crate::pac::with_bit32(old(self).bits, 5, value),
    {
        self.bits = put_bit32(self.bits, 5, value);
    }

    /// Bit 6 - Recover / soft reset (write-1, self-clearing)
    ///
    /// Sets the field to 1, which triggers the action when the value is written.
    pub fn reset(&mut self)
        ensures
            final(self).bits == crate::pac::with_bit32(old(self).bits, 6, true),
    {
        self.bits = put_bit32(self.bits, 6, true);
    }
}

} // verus!
