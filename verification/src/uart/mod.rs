//! 16550A UART driver.
//!
//! The driver's decisions are functions of register values: each takes the values the
//! caller read from the UART and returns the values to write back, or says whether to
//! keep waiting. The interrupt handler records what happened in the scratch register
//! (see [`int_flag`]), where the waiting reader and writer find it.
use vstd::prelude::*;

use crate::pac::uart0::data::{fcr, ier, lsr, scr};
use crate::pac::uart0::dlab::{dll, dlm, iir, lcr};

pub mod buffered;
pub mod int_flag;

verus! {

/// 16550A TX/RX FIFO size in bytes.
pub const FIFO_SZ: usize = 16;

/// QEMU virt 16550A UART input clock frequency in Hz.
pub const UART_CLK: u32 = 3_686_400;

/// Interrupt reported by `IIR.IID` (the driver always runs the UART in FIFO mode).
#[derive(Debug, Clone, Copy, PartialEq, Eq, Structural)]
pub enum InterruptType {
    /// Receiver line status (an error condition).
    LineStatus,
    /// Received data available: the FIFO trigger level was reached.
    RxAvailable,
    /// Character timeout: data is ready but the FIFO trigger level was not reached.
    CharacterTimeout,
    /// Transmitter holding register empty.
    TxEmpty,
    /// Modem status (not handled by the driver).
    Modem,
}

/// Interrupt type of an `IIR.IID` value, if it names one.
pub open spec fn interrupt_type_of(value: u8) -> Result<InterruptType, ()> {
    if value == 0b011 {
        Ok(InterruptType::LineStatus)
    } else if value == 0b010 {
        Ok(InterruptType::RxAvailable)
    } else if value == 0b110 {
        Ok(InterruptType::CharacterTimeout)
    } else if value == 0b001 {
        Ok(InterruptType::TxEmpty)
    } else if value == 0b000 {
        Ok(InterruptType::Modem)
    } else {
        Err(())
    }
}

impl TryFrom<u8> for InterruptType {
    type Error = ();

    fn try_from(value: u8) -> (r: Result<InterruptType, ()>) {
        match value {
            0b011 => Ok(InterruptType::LineStatus),
            0b010 => Ok(InterruptType::RxAvailable),
            0b110 => Ok(InterruptType::CharacterTimeout),
            0b001 => Ok(InterruptType::TxEmpty),
            0b000 => Ok(InterruptType::Modem),
            _ => Err(()),
        }
    }
}

impl vstd::std_specs::convert::TryFromSpecImpl<u8> for InterruptType {
    open spec fn obeys_try_from_spec() -> bool {
        true
    }

    open spec fn try_from_spec(value: u8) -> Result<InterruptType, ()> {
        interrupt_type_of(value)
    }
}

/// Receiver FIFO trigger level.
#[derive(Debug, Clone, Copy, PartialEq, Eq, Structural)]
pub enum RxFifoTrigger {
    /// 1 byte.
    _1,
    /// 4 bytes.
    _4,
    /// 8 bytes.
    _8,
    /// 14 bytes.
    _14,
}

/// `FCR.RFTL` encoding of a trigger level.
pub open spec fn trigger_bits(t: RxFifoTrigger) -> u8 {
    match t {
        RxFifoTrigger::_1 => 0b00,
        RxFifoTrigger::_4 => 0b01,
        RxFifoTrigger::_8 => 0b10,
        RxFifoTrigger::_14 => 0b11,
    }
}

impl From<RxFifoTrigger> for u8 {
    fn from(trigger: RxFifoTrigger) -> (b: u8) {
        match trigger {
            RxFifoTrigger::_1 => 0b00,
            RxFifoTrigger::_4 => 0b01,
            RxFifoTrigger::_8 => 0b10,
            RxFifoTrigger::_14 => 0b11,
        }
    }
}

impl vstd::std_specs::convert::FromSpecImpl<RxFifoTrigger> for u8 {
    open spec fn obeys_from_spec() -> bool {
        true
    }

    open spec fn from_spec(trigger: RxFifoTrigger) -> u8 {
        trigger_bits(trigger)
    }
}

/// UART configuration.
#[derive(Debug, Copy, Clone, Eq, PartialEq)]
pub struct Config {
    /// Baudrate in bits per second (BPS).
    pub baudrate: u32,
}

impl Default for Config {
    fn default() -> (c: Config)
        ensures
            c.baudrate == 115_200,
    {
        Config { baudrate: 115_200 }
    }
}

/// UART error.
#[derive(Debug, Copy, Clone, Eq, PartialEq, Structural)]
pub enum Error {
    /// A baud rate was supplied which can not be represented based on chosen clock source.
    InvalidBaud,
    /// RX FIFO overrun occurred.
    Overrun,
}

impl Error {
    /// Human-readable description of the error.
    pub fn message(&self) -> (s: &'static str)
        ensures
            *self == Error::InvalidBaud ==> s@ == "Invalid baud rate"@,
            *self == Error::Overrun ==> s@ == "RX FIFO overrun"@,
    {
        match self {
            Error::InvalidBaud => "Invalid baud rate",
            Error::Overrun => "RX FIFO overrun",
        }
    }
}

/// Blocking mode.
pub struct Blocking;

/// Async mode.
pub struct Async;

/// Driver mode.
pub trait Mode {}

impl Mode for Blocking {}

impl Mode for Async {}

/// UART instance.
pub trait Instance {}

/// Baud rate divisor for `baudrate`: `baud = clock / (16 * divisor)`.
pub open spec fn divisor(baudrate: u32) -> int {
    UART_CLK as int / (16 * baudrate as int)
}

/// Whether `baudrate` can be produced: its divisor is non-zero and fits 16 bits.
pub open spec fn baud_representable(baudrate: u32) -> bool {
    baudrate > 0 && 1 <= divisor(baudrate) <= 0xffff
}

/// Register values that configure the UART for a baud rate, 8 data bits, 1 stop bit
/// and no parity, written in this order:
///
/// 1. `lcr` (8N1 with DLAB set, selecting the divisor latch),
/// 2. `dll` and `dlm` (the divisor),
/// 3. `LCR` with DLAB cleared again ([`clear_dlab`] of the value read back),
/// 4. `fcr` (FIFOs enabled and both reset),
/// 5. `scr` (no interrupt flags recorded).
#[derive(Debug, Copy, Clone, Eq, PartialEq)]
pub struct InitWrites {
    /// Line control: 8 data bits, DLAB set.
    pub lcr: lcr::W,
    /// Divisor latch, low byte.
    pub dll: dll::W,
    /// Divisor latch, high byte.
    pub dlm: dlm::W,
    /// FIFO control: enable, reset receiver and transmitter FIFOs.
    pub fcr: fcr::W,
    /// Scratch register holding the interrupt flags: cleared.
    pub scr: scr::W,
}

/// The register values that configure the UART for `config`, or
/// [`Error::InvalidBaud`] when the baud rate can not be represented.
pub fn init(config: Config) -> (r: Result<InitWrites, Error>)
    ensures
        r is Err <==> !baud_representable(config.baudrate),
        r is Err <==> !(4 <= config.baudrate <= 230_400),
        r matches Err(e) ==> e == Error::InvalidBaud,
        r matches Ok(w) ==> {
            &&& w.lcr.bits == 0x83
            &&& w.dll.bits as int == divisor(config.baudrate) % 256
            &&& w.dlm.bits as int == divisor(config.baudrate) / 256
            &&& w.dlm.bits * 256 + w.dll.bits == divisor(config.baudrate)
            &&& w.fcr.bits == 0x07
            &&& w.scr.bits == 0
        },
{
    proof {
        lemma_representable_bauds(config.baudrate);
    }
    // A rate whose 16-fold overflows is far above what the clock can produce.
    let scaled = match config.baudrate.checked_mul(16) {
        Some(m) => m,
        None => {
            return Err(Error::InvalidBaud);
        },
    };
    let d = match UART_CLK.checked_div(scaled) {
        Some(d) => d,
        None => {
            return Err(Error::InvalidBaud);
        },
    };
    if d == 0 || d > 0xffff {
        return Err(Error::InvalidBaud);
    }
    let d = d as u16;
    let mut lcr_w = lcr::W::new();
    lcr_w.wls(0b11);
    lcr_w.dlab(true);
    assert((((0u8 & !(0x3u8 << 0u8)) | ((3u8 & 0x3u8) << 0u8)) | (1u8 << 7u8)) == 0x83u8)
        by (bit_vector);
    let dll_w = dll::W { bits: d as u8 };
    let dlm_w = dlm::W { bits: (d >> 8u16) as u8 };
    assert(d as u8 as int == d as int % 256 && (d >> 8u16) as u8 as int == d as int / 256)
        by (bit_vector);
    let mut fcr_w = fcr::W::new();
    fcr_w.fifoe(true);
    fcr_w.rfifor(true);
    fcr_w.xfifor(true);
    assert(((0u8 | (1u8 << 0u8)) | (1u8 << 1u8)) | (1u8 << 2u8) == 0x07u8) by (bit_vector);
    let scr_w = scr::W { bits: 0 };
    Ok(InitWrites { lcr: lcr_w, dll: dll_w, dlm: dlm_w, fcr: fcr_w, scr: scr_w })
}

/// The baud rates the UART accepts are exactly 4 to 230400: below 4 the divisor does
/// not fit 16 bits, above 230400 it is zero.
pub proof fn lemma_representable_bauds(baudrate: u32)
    ensures
        baud_representable(baudrate) <==> 4 <= baudrate <= 230_400,
{
    let b = baudrate as int;
    if b > 0 {
        if b > 230_400 {
            assert(3_686_400int / (16 * b) == 0) by (nonlinear_arith)
                requires
                    b > 230_400,
            ;
        } else if b <= 3 {
            assert(3_686_400int / (16 * b) > 0xffff) by (nonlinear_arith)
                requires
                    1 <= b <= 3,
            ;
        } else {
            assert(1 <= 3_686_400int / (16 * b) <= 0xffff) by (nonlinear_arith)
                requires
                    4 <= b <= 230_400,
            ;
        }
    }
}

/// `LCR` value that clears DLAB again, given the value read.
pub fn clear_dlab(lcr: &lcr::R) -> (w: lcr::W)
    ensures
        w.bits == crate::pac::with_bit8(lcr.bits, 7, false),
{
    let mut w = lcr::W::modify(lcr);
    w.dlab(false);
    w
}

/// Outcome of taking a received byte, given the line status read when the byte was
/// ready: an overrun is reported, as it is not tied to one character.
pub fn read_inner(lsr: &lsr::R) -> (r: Result<(), Error>)
    ensures
        r == if crate::pac::bit8(lsr.bits, 1) {
            Err(Error::Overrun)
        } else {
            Ok(())
        },
{
    if lsr.oe().bit() {
        Err(Error::Overrun)
    } else {
        Ok(())
    }
}

/// Whether a received byte is ready, given the line status read.
pub fn data_ready(lsr: &lsr::R) -> (b: bool)
    ensures
        b == crate::pac::bit8(lsr.bits, 0),
{
    lsr.dr().bit()
}

/// Whether the transmitter holding register (the TX FIFO) is empty, given the line
/// status read.
pub fn tx_fifo_empty(lsr: &lsr::R) -> (b: bool)
    ensures
        b == crate::pac::bit8(lsr.bits, 5),
{
    lsr.thre().bit()
}

/// Whether both the transmit holding and shift registers are empty, given the line
/// status read.
pub fn tx_idle(lsr: &lsr::R) -> (b: bool)
    ensures
        b == crate::pac::bit8(lsr.bits, 6),
{
    lsr.temt().bit()
}

/// `FCR` value that keeps the FIFOs enabled and sets the receiver trigger level.
pub fn set_fifo_trigger(trigger: RxFifoTrigger) -> (w: fcr::W)
    ensures
        w.bits == 1u8 | (trigger_bits(trigger) << 6u8),
{
    let mut w = fcr::W::new();
    w.fifoe(true);
    let t: u8 = trigger.into();
    w.rftl(t);
    assert(((0u8 | (1u8 << 0u8)) & !(0x3u8 << 6u8)) | ((t & 0x3u8) << 6u8) == 1u8 | (t << 6u8))
        by (bit_vector)
        requires
            t < 4,
    ;
    w
}

/// Bounds `(start, end)` of the chunks a write of `len` bytes is cut into: each chunk
/// fills the TX FIFO ([`FIFO_SZ`] bytes) except possibly the last, and the chunks cover
/// `0..len` in order. The transmitter waits for the FIFO to empty before each chunk.
pub fn write_chunks(len: usize) -> (chunks: Vec<(usize, usize)>)
    ensures
        chunks.len() == (len + FIFO_SZ - 1) / FIFO_SZ as int,
        forall|i: int|
            #![trigger chunks[i]]
            0 <= i < chunks.len() ==> chunks[i].0 == FIFO_SZ * i && chunks[i].1 == if FIFO_SZ * (
            i + 1) <= len {
                FIFO_SZ * (i + 1)
            } else {
                len as int
            },
{
    let n: usize = len / FIFO_SZ + if len % FIFO_SZ != 0 {
        1
    } else {
        0
    };
    let mut chunks: Vec<(usize, usize)> = Vec::new();
    let mut i: usize = 0;
    while i < n
        invariant
            n == (len + FIFO_SZ - 1) / FIFO_SZ as int,
            i <= n,
            chunks.len() == i,
            forall|k: int|
                #![trigger chunks[k]]
                0 <= k < chunks.len() ==> chunks[k].0 == FIFO_SZ * k && chunks[k].1 == if FIFO_SZ
                    * (k + 1) <= len {
                    FIFO_SZ * (k + 1)
                } else {
                    len as int
                },
        decreases n - i,
    {
        let start = FIFO_SZ * i;
        let end: usize = if len - start >= FIFO_SZ {
            start + FIFO_SZ
        } else {
            len
        };
        chunks.push((start, end));
        i = i + 1;
    }
    chunks
}

/// How the buffer of an async read is split: into chunks of the highest FIFO trigger
/// level that fits, greedily, so that each interrupt moves a whole chunk.
#[derive(Debug, Copy, Clone, Eq, PartialEq)]
pub struct ReadPlan {
    /// Number of 14-byte chunks (trigger level 14).
    pub c14: usize,
    /// Number of 8-byte chunks (trigger level 8).
    pub c8: usize,
    /// Number of 4-byte chunks (trigger level 4).
    pub c4: usize,
    /// Number of trailing bytes read one by one (trigger level 1).
    pub c1: usize,
}

/// The split of an async read of `len` bytes: greedily into chunks of 14, then 8, then
/// 4 bytes, and the remaining bytes.
pub open spec fn read_plan_of(len: usize) -> ReadPlan {
    ReadPlan {
        c14: len / 14,
        c8: ((len % 14) / 8) as usize,
        c4: ((len % 14 % 8) / 4) as usize,
        c1: (len % 14 % 8 % 4) as usize,
    }
}

/// Splits an async read of `len` bytes into chunks of 14, then 8, then 4 bytes, and
/// the remaining bytes.
pub fn read_plan(len: usize) -> (p: ReadPlan)
    ensures
        p == read_plan_of(len),
        p.c14 == len / 14,
        p.c8 == (len % 14) / 8,
        p.c4 == (len % 14 % 8) / 4,
        p.c1 == len % 14 % 8 % 4,
        14 * p.c14 + 8 * p.c8 + 4 * p.c4 + p.c1 == len,
        p.c8 <= 1 && p.c4 <= 1 && p.c1 < 4,
{
    let c14 = len / 14;
    let rem = len % 14;
    let c8 = rem / 8;
    let rem = rem % 8;
    let c4 = rem / 4;
    let c1 = rem % 4;
    assert(14 * c14 + 8 * c8 + 4 * c4 + c1 == len) by (nonlinear_arith)
        requires
            c14 == len / 14,
            c8 == (len % 14) / 8,
            c4 == (len % 14 % 8) / 4,
            c1 == len % 14 % 8 % 4,
    ;
    ReadPlan { c14, c8, c4, c1 }
}

/// One stage of an async read: the FIFO trigger level is set to `trigger`, then `count`
/// chunks of `size` bytes are read into the buffer from byte `start` on, each batched
/// (all of it read once the trigger level was reached) or not (byte by byte, waiting
/// for each).
#[derive(Debug, Copy, Clone, Eq, PartialEq)]
pub struct ReadStage {
    /// Trigger level set before the stage.
    pub trigger: RxFifoTrigger,
    /// First byte of the buffer that the stage fills.
    pub start: usize,
    /// Number of chunks.
    pub count: usize,
    /// Bytes per chunk.
    pub size: usize,
    /// Whether each chunk is read at once after its wait.
    pub batched: bool,
}

/// The stages of an async read of `len` bytes, in order: chunks of 14, 8 and 4 bytes
/// with the matching trigger levels, then the remaining bytes one by one at a trigger
/// level of 1. Every stage sets its trigger level, even one without chunks.
pub fn read_stages(len: usize) -> (st: Vec<ReadStage>)
    ensures
        ({
            let p = read_plan_of(len);
            st@ == seq![
                ReadStage { trigger: RxFifoTrigger::_14, start: 0, count: p.c14, size: 14, batched: true },
                ReadStage {
                    trigger: RxFifoTrigger::_8,
                    start: (14 * p.c14) as usize,
                    count: p.c8,
                    size: 8,
                    batched: true,
                },
                ReadStage {
                    trigger: RxFifoTrigger::_4,
                    start: (14 * p.c14 + 8 * p.c8) as usize,
                    count: p.c4,
                    size: 4,
                    batched: true,
                },
                ReadStage {
                    trigger: RxFifoTrigger::_1,
                    start: (14 * p.c14 + 8 * p.c8 + 4 * p.c4) as usize,
                    count: p.c1,
                    size: 1,
                    batched: false,
                },
            ]
        }),
        forall|i: int| 0 <= i < 3 ==> #[trigger] st@[i].start + st@[i].count * st@[i].size == st@[i + 1].start,
        st@[3].start + st@[3].count * st@[3].size == len,
{
    let p = read_plan(len);
    let mut st: Vec<ReadStage> = Vec::new();
    st.push(ReadStage { trigger: RxFifoTrigger::_14, start: 0, count: p.c14, size: 14, batched: true });
    st.push(ReadStage { trigger: RxFifoTrigger::_8, start: 14 * p.c14, count: p.c8, size: 8, batched: true });
    st.push(
        ReadStage {
            trigger: RxFifoTrigger::_4,
            start: 14 * p.c14 + 8 * p.c8,
            count: p.c4,
            size: 4,
            batched: true,
        },
    );
    st.push(
        ReadStage {
            trigger: RxFifoTrigger::_1,
            start: 14 * p.c14 + 8 * p.c8 + 4 * p.c4,
            count: p.c1,
            size: 1,
            batched: false,
        },
    );
    assert(st@[0].count * st@[0].size == 14 * p.c14) by (nonlinear_arith)
        requires
            st@[0].count == p.c14,
            st@[0].size == 14,
    ;
    assert(st@[1].count * st@[1].size == 8 * p.c8) by (nonlinear_arith)
        requires
            st@[1].count == p.c8,
            st@[1].size == 8,
    ;
    assert(st@[2].count * st@[2].size == 4 * p.c4) by (nonlinear_arith)
        requires
            st@[2].count == p.c4,
            st@[2].size == 4,
    ;
    assert(st@[3].count * st@[3].size == p.c1) by (nonlinear_arith)
        requires
            st@[3].count == p.c1,
            st@[3].size == 1,
    ;
    st
}

/// How a batched chunk is read once the wait for received data ended.
#[derive(Debug, Copy, Clone, Eq, PartialEq, Structural)]
pub enum ChunkRead {
    /// The trigger level was reached, so the whole chunk is in the FIFO: read it at once.
    AtOnce,
    /// A character timeout ended the wait, so fewer bytes may be in the FIFO: read the
    /// chunk byte by byte at a trigger level of 1, waiting for each.
    ByteByByte,
}

/// How a batched chunk is read, given whether its wait ended with the trigger level
/// reached.
pub fn chunk_read(level_reached: bool) -> (r: ChunkRead)
    ensures
        r == if level_reached {
            ChunkRead::AtOnce
        } else {
            ChunkRead::ByteByByte
        },
{
    if level_reached {
        ChunkRead::AtOnce
    } else {
        ChunkRead::ByteByByte
    }
}

/// `FCR` value to write once a chunk of a batched stage was read, so that the next
/// chunk's wait runs at the stage's trigger level again: reading byte by byte set the
/// trigger level to 1, so the stage's level is set back; a chunk read at once left the
/// stage's level in force.
pub fn after_chunk(stage: &ReadStage, read: ChunkRead) -> (w: Option<fcr::W>)
    ensures
        read == ChunkRead::AtOnce ==> w is None,
        read == ChunkRead::ByteByByte ==> w == Some(
            fcr::W { bits: 1u8 | (trigger_bits(stage.trigger) << 6u8) },
        ),
{
    match read {
        ChunkRead::AtOnce => None,
        ChunkRead::ByteByByte => Some(set_fifo_trigger(stage.trigger)),
    }
}

/// Trigger level in force after the chunks of a stage whose trigger is `stage` were read
/// as `reads` say: a chunk read at once leaves the level as it was, and a chunk read
/// byte by byte sets it to 1 and then, by [`after_chunk`], back to the stage's.
pub open spec fn trigger_after(stage: RxFifoTrigger, reads: Seq<ChunkRead>) -> RxFifoTrigger
    decreases reads.len(),
{
    if reads.len() == 0 {
        stage
    } else {
        match reads.last() {
            ChunkRead::AtOnce => trigger_after(stage, reads.drop_last()),
            ChunkRead::ByteByByte => stage,
        }
    }
}

/// Every chunk of a batched stage waits at the stage's trigger level, whatever the
/// chunks before it did, so a wait that ends with the level reached finds the whole
/// chunk in the FIFO before it is read at once.
pub proof fn lemma_stage_trigger_kept(stage: RxFifoTrigger, reads: Seq<ChunkRead>)
    ensures
        trigger_after(stage, reads) == stage,
    decreases reads.len(),
{
    if reads.len() > 0 {
        lemma_stage_trigger_kept(stage, reads.drop_last());
    }
}

/// Outcome of a blocking read of `n` bytes from byte `k` on, where `lsrs[i]` is the line
/// status read once byte `i` was ready: the result and the number of bytes stored. The
/// first overrun ends it, and its byte is not stored ([`read_inner`]).
pub open spec fn blocking_read_from(lsrs: Seq<u8>, n: nat, k: nat) -> (Result<(), Error>, nat)
    decreases n - k,
{
    if k >= n {
        (Ok(()), k)
    } else if crate::pac::bit8(lsrs[k as int], 1) {
        (Err(Error::Overrun), k)
    } else {
        blocking_read_from(lsrs, n, k + 1)
    }
}

/// A blocking read stops at its first overrun, having stored the bytes before it, and
/// succeeds with all `n` bytes stored when no byte reports one.
pub proof fn lemma_blocking_read(lsrs: Seq<u8>, n: nat, k: nat, f: nat)
    requires
        k <= f <= n,
        forall|i: int| k <= i < f ==> !crate::pac::bit8(#[trigger] lsrs[i], 1),
    ensures
        f == n ==> blocking_read_from(lsrs, n, k) == (Ok::<(), Error>(()), n),
        f < n && crate::pac::bit8(lsrs[f as int], 1) ==> blocking_read_from(lsrs, n, k) == (
            Err::<(), Error>(Error::Overrun),
            f,
        ),
    decreases f - k,
{
    if k < f {
        assert(!crate::pac::bit8(lsrs[k as int], 1));
        lemma_blocking_read(lsrs, n, k + 1, f);
    }
}

/// How a wait for received data proceeds after one poll of the scratch register.
#[derive(Debug, Copy, Clone, Eq, PartialEq)]
pub enum RxReadyPoll {
    /// Data is ready: write `scr` (consuming the flag) and finish. `level_reached` is
    /// `true` when the FIFO trigger level was reached, `false` after a timeout (fewer
    /// bytes than the trigger level are in the FIFO).
    Ready { level_reached: bool, scr: scr::W },
    /// Nothing yet: write this value to `IER` (enabling the receive interrupts) and wait.
    Arm(ier::W),
}

/// Outcome of one poll of a wait for received data, given the values of `SCR` and
/// `IER`: a recorded timeout is consumed first (fewer bytes than the trigger level are
/// in the FIFO), then a recorded trigger-level event; with neither, the receive
/// interrupts (line status and received data) are enabled.
pub open spec fn rx_poll(scr: u8, ier: u8) -> RxReadyPoll {
    if scr & int_flag::TIMEOUT != 0 {
        RxReadyPoll::Ready { level_reached: false, scr: scr::W { bits: scr & !int_flag::TIMEOUT } }
    } else if scr & int_flag::RX_AVAILABLE != 0 {
        RxReadyPoll::Ready { level_reached: true, scr: scr::W { bits: scr & !int_flag::RX_AVAILABLE } }
    } else {
        RxReadyPoll::Arm(
            ier::W { bits: crate::pac::with_bit8(crate::pac::with_bit8(ier, 2, true), 0, true) },
        )
    }
}

/// One poll of a wait for received data, given the values of `SCR` and `IER`.
pub fn wait_rx_ready(scr: &scr::R, ier: &ier::R) -> (p: RxReadyPoll)
    ensures
        p == rx_poll(scr.bits, ier.bits),
{
    let flags = scr.bits();
    if flags & int_flag::TIMEOUT != 0 {
        RxReadyPoll::Ready { level_reached: false, scr: scr::W { bits: flags & !int_flag::TIMEOUT } }
    } else if flags & int_flag::RX_AVAILABLE != 0 {
        RxReadyPoll::Ready {
            level_reached: true,
            scr: scr::W { bits: flags & !int_flag::RX_AVAILABLE },
        }
    } else {
        let mut w = ier::W::modify(ier);
        w.elsi(true);
        w.erbfi(true);
        RxReadyPoll::Arm(w)
    }
}

/// How a wait for the transmitter holding register to empty proceeds after one poll.
#[derive(Debug, Copy, Clone, Eq, PartialEq)]
pub enum TxEmptyPoll {
    /// It is empty: write this value to `SCR` (consuming the flag) and finish.
    Ready(scr::W),
    /// Not yet: write this value to `IER` (enabling the TX-empty interrupt) and wait.
    Arm(ier::W),
}

/// Outcome of one poll of a wait for the TX FIFO to empty, given the values of `SCR`
/// and `IER`: a recorded TX-empty event is consumed; without one, the TX-empty interrupt
/// is enabled.
pub open spec fn tx_poll(scr: u8, ier: u8) -> TxEmptyPoll {
    if scr & int_flag::TX_EMPTY != 0 {
        TxEmptyPoll::Ready(scr::W { bits: scr & !int_flag::TX_EMPTY })
    } else {
        TxEmptyPoll::Arm(ier::W { bits: crate::pac::with_bit8(ier, 1, true) })
    }
}

/// One poll of a wait for the TX FIFO to empty, given the values of `SCR` and `IER`.
///
/// The interrupt handler records the event in `SCR` rather than the task reading
/// `LSR`, because reading `LSR` clears error bits the receiver may need to see.
pub fn wait_tx_empty(scr: &scr::R, ier: &ier::R) -> (p: TxEmptyPoll)
    ensures
        p == tx_poll(scr.bits, ier.bits),
{
    let flags = scr.bits();
    if flags & int_flag::TX_EMPTY != 0 {
        TxEmptyPoll::Ready(scr::W { bits: flags & !int_flag::TX_EMPTY })
    } else {
        let mut w = ier::W::modify(ier);
        w.etbei(true);
        TxEmptyPoll::Arm(w)
    }
}

/// Whose waiter the interrupt handler wakes.
#[derive(Debug, Copy, Clone, Eq, PartialEq, Structural)]
pub enum Wake {
    /// Nobody.
    Nobody,
    /// The receiver.
    Rx,
    /// The transmitter.
    Tx,
}

/// Register writes and wake-up of one run of the UART interrupt handler.
#[derive(Debug, Copy, Clone, Eq, PartialEq)]
pub struct IrqAction {
    /// Value for `SCR` recording the event, if any.
    pub scr: Option<scr::W>,
    /// Value for `IER` disabling the interrupt that fired (which clears it), if any.
    pub ier: Option<ier::W>,
    /// Whose waiter to wake.
    pub wake: Wake,
}

/// Register writes and wake-up of one run of the interrupt handler, given the interrupt
/// identified by `IIR.IID` and the values of `SCR` and `IER`.
pub open spec fn irq_action(id: u8, scr: u8, ier: u8) -> IrqAction {
    let rx_off = crate::pac::with_bit8(crate::pac::with_bit8(ier, 2, false), 0, false);
    if id == 0b011 || id == 0b010 {
        IrqAction {
            scr: Some(scr::W { bits: scr | int_flag::RX_AVAILABLE }),
            ier: Some(ier::W { bits: rx_off }),
            wake: Wake::Rx,
        }
    } else if id == 0b110 {
        IrqAction {
            scr: Some(scr::W { bits: scr | int_flag::TIMEOUT }),
            ier: Some(ier::W { bits: rx_off }),
            wake: Wake::Rx,
        }
    } else if id == 0b001 {
        IrqAction {
            scr: Some(scr::W { bits: scr | int_flag::TX_EMPTY }),
            ier: Some(ier::W { bits: crate::pac::with_bit8(ier, 1, false) }),
            wake: Wake::Tx,
        }
    } else {
        IrqAction { scr: None, ier: None, wake: Wake::Nobody }
    }
}

/// UART interrupt handler.
#[verifier::reject_recursive_types(T)]
pub struct InterruptHandler<T: Instance> {
    _phantom: core::marker::PhantomData<T>,
}

impl<T: Instance> InterruptHandler<T> {
    /// Services the interrupt, given the values of `IIR`, `SCR` and `IER`.
    ///
    /// A line status or received-data event records `RX_AVAILABLE`, a character timeout
    /// records `TIMEOUT` (so the reader falls back to byte-by-byte reading); both
    /// disable the receive interrupts and wake the receiver. A TX-empty event records
    /// `TX_EMPTY`, disables its interrupt and wakes the transmitter. Anything else is
    /// ignored.
    pub fn on_interrupt(iir: &iir::R, scr: &scr::R, ier: &ier::R) -> (a: IrqAction)
        ensures
            a == irq_action(crate::pac::field8(iir.bits, 1, 0x7), scr.bits, ier.bits),
    {
        let intid = InterruptType::try_from(iir.iid().bits());
        match intid {
            Ok(InterruptType::LineStatus) | Ok(InterruptType::RxAvailable) => {
                let mut w = ier::W::modify(ier);
                w.elsi(false);
                w.erbfi(false);
                IrqAction {
                    scr: Some(scr::W { bits: scr.bits() | int_flag::RX_AVAILABLE }),
                    ier: Some(w),
                    wake: Wake::Rx,
                }
            },
            Ok(InterruptType::CharacterTimeout) => {
                let mut w = ier::W::modify(ier);
                w.elsi(false);
                w.erbfi(false);
                IrqAction {
                    scr: Some(scr::W { bits: scr.bits() | int_flag::TIMEOUT }),
                    ier: Some(w),
                    wake: Wake::Rx,
                }
            },
            Ok(InterruptType::TxEmpty) => {
                let mut w = ier::W::modify(ier);
                w.etbei(false);
                IrqAction {
                    scr: Some(scr::W { bits: scr.bits() | int_flag::TX_EMPTY }),
                    ier: Some(w),
                    wake: Wake::Tx,
                }
            },
            _ => IrqAction { scr: None, ier: None, wake: Wake::Nobody },
        }
    }
}

/// What releasing a receiver or transmitter half does, given the number of live halves
/// before the release: the last one to go returns the `IER` value that disables every
/// UART interrupt (the caller also disables the UART's interrupt source).
pub fn drop_rx_tx(live_before: u8) -> (r: Option<ier::W>)
    ensures
        live_before == 1 <==> r is Some,
        r matches Some(w) ==> w.bits == ier::RESET_VALUE,
{
    if live_before == 1 {
        Some(ier::W { bits: ier::RESET_VALUE })
    } else {
        None
    }
}


/// An event the interrupt handler records reaches the task waiting for it: after a
/// receive event (line status, received data or character timeout) the reader's next
/// poll finishes, reporting a reached trigger level exactly when no timeout was
/// recorded; after a TX-empty event the writer's next poll finishes, and a further poll
/// waits again, as the event was consumed.
pub proof fn lemma_recorded_event_reaches_waiter(id: u8, scr: u8, ier: u8, ier_now: u8)
    ensures
        (id == 0b011 || id == 0b010 || id == 0b110) ==> ({
            let recorded = irq_action(id, scr, ier).scr->0.bits;
            &&& irq_action(id, scr, ier).wake == Wake::Rx
            &&& rx_poll(recorded, ier_now) matches RxReadyPoll::Ready { level_reached, .. }
                && level_reached == (id != 0b110 && scr & int_flag::TIMEOUT == 0)
        }),
        id == 0b001 ==> ({
            let recorded = irq_action(id, scr, ier).scr->0.bits;
            &&& irq_action(id, scr, ier).wake == Wake::Tx
            &&& tx_poll(recorded, ier_now) matches TxEmptyPoll::Ready(w) && tx_poll(w.bits, ier_now) is Arm
        }),
{
    assert((scr | 1u8) & 2u8 != 0 <==> scr & 2u8 != 0) by (bit_vector);
    assert((scr | 1u8) & 1u8 != 0) by (bit_vector);
    assert((scr | 2u8) & 2u8 != 0) by (bit_vector);
    assert((scr | 4u8) & 4u8 != 0 && ((scr | 4u8) & !4u8) & 4u8 == 0) by (bit_vector);
}


/// Bits of the flag constants and of a flag test on a scratch value.
proof fn lemma_flag_bits(x: u8, k: u8)
    requires
        k < 8,
    ensures
        crate::pac::bit8(int_flag::RX_AVAILABLE, k) == (k == 0),
        crate::pac::bit8(int_flag::TIMEOUT, k) == (k == 1),
        crate::pac::bit8(int_flag::TX_EMPTY, k) == (k == 2),
        (x & int_flag::RX_AVAILABLE != 0) == crate::pac::bit8(x, 0),
        (x & int_flag::TIMEOUT != 0) == crate::pac::bit8(x, 1),
        (x & int_flag::TX_EMPTY != 0) == crate::pac::bit8(x, 2),
{
    assert(((1u8 >> k) & 1u8 == 1u8) == (k == 0) && ((2u8 >> k) & 1u8 == 1u8) == (k == 1) && ((4u8
        >> k) & 1u8 == 1u8) == (k == 2)) by (bit_vector)
        requires
            k < 8,
    ;
    assert(((x & 1u8) != 0) == ((x >> 0u8) & 1u8 == 1u8) && ((x & 2u8) != 0) == ((x >> 1u8) & 1u8
        == 1u8) && ((x & 4u8) != 0) == ((x >> 2u8) & 1u8 == 1u8)) by (bit_vector);
}

/// Bit `k` of an OR and of an AND with a complement.
proof fn lemma_or_andnot_bits(x: u8, f: u8, k: u8)
    requires
        k < 8,
    ensures
        crate::pac::bit8(x | f, k) == (crate::pac::bit8(x, k) || crate::pac::bit8(f, k)),
        crate::pac::bit8(x & !f, k) == (crate::pac::bit8(x, k) && !crate::pac::bit8(f, k)),
{
    assert((((x | f) >> k) & 1u8 == 1u8) == ((x >> k) & 1u8 == 1u8 || (f >> k) & 1u8 == 1u8) && (((x
        & !f) >> k) & 1u8 == 1u8) == ((x >> k) & 1u8 == 1u8 && !((f >> k) & 1u8 == 1u8)))
        by (bit_vector)
        requires
            k < 8,
    ;
}

/// The interrupt handler records an event without losing the flags already recorded:
/// the scratch value it writes is the one it read with the event's flag added (bit 0 for
/// a line status or received-data event, bit 1 for a character timeout, bit 2 for a
/// TX-empty event) and every other bit kept. It disables exactly the interrupt that
/// fired (the two receive enables, bits 0 and 2, or the TX-empty enable, bit 1), keeps
/// every other enable, and wakes the waiter of that event; any other interrupt writes
/// nothing and wakes nobody.
pub proof fn lemma_handler_keeps_recorded_flags(id: u8, scr: u8, ier: u8)
    ensures
        (id == 0b011 || id == 0b010) ==> {
            &&& irq_action(id, scr, ier).wake == Wake::Rx
            &&& irq_action(id, scr, ier).scr matches Some(w) && forall|k: u8|
                k < 8 ==> crate::pac::bit8(w.bits, k) == (crate::pac::bit8(scr, k) || k == 0)
            &&& irq_action(id, scr, ier).ier matches Some(w) && forall|k: u8|
                k < 8 ==> crate::pac::bit8(w.bits, k) == (crate::pac::bit8(ier, k) && k != 0 && k != 2)
        },
        id == 0b110 ==> {
            &&& irq_action(id, scr, ier).wake == Wake::Rx
            &&& irq_action(id, scr, ier).scr matches Some(w) && forall|k: u8|
                k < 8 ==> crate::pac::bit8(w.bits, k) == (crate::pac::bit8(scr, k) || k == 1)
            &&& irq_action(id, scr, ier).ier matches Some(w) && forall|k: u8|
                k < 8 ==> crate::pac::bit8(w.bits, k) == (crate::pac::bit8(ier, k) && k != 0 && k != 2)
        },
        id == 0b001 ==> {
            &&& irq_action(id, scr, ier).wake == Wake::Tx
            &&& irq_action(id, scr, ier).scr matches Some(w) && forall|k: u8|
                k < 8 ==> crate::pac::bit8(w.bits, k) == (crate::pac::bit8(scr, k) || k == 2)
            &&& irq_action(id, scr, ier).ier matches Some(w) && forall|k: u8|
                k < 8 ==> crate::pac::bit8(w.bits, k) == (crate::pac::bit8(ier, k) && k != 1)
        },
        !(id == 0b011 || id == 0b010 || id == 0b110 || id == 0b001) ==> irq_action(id, scr, ier)
            == (IrqAction { scr: None, ier: None, wake: Wake::Nobody }),
{
    let rx_off = crate::pac::with_bit8(crate::pac::with_bit8(ier, 2, false), 0, false);
    assert forall|k: u8| k < 8 implies {
        &&& crate::pac::bit8(scr | int_flag::RX_AVAILABLE, k) == (crate::pac::bit8(scr, k) || k == 0)
        &&& crate::pac::bit8(scr | int_flag::TIMEOUT, k) == (crate::pac::bit8(scr, k) || k == 1)
        &&& crate::pac::bit8(scr | int_flag::TX_EMPTY, k) == (crate::pac::bit8(scr, k) || k == 2)
        &&& crate::pac::bit8(rx_off, k) == (crate::pac::bit8(ier, k) && k != 0 && k != 2)
        &&& crate::pac::bit8(crate::pac::with_bit8(ier, 1, false), k) == (crate::pac::bit8(ier, k)
            && k != 1)
    } by {
        lemma_flag_bits(scr, k);
        lemma_or_andnot_bits(scr, int_flag::RX_AVAILABLE, k);
        lemma_or_andnot_bits(scr, int_flag::TIMEOUT, k);
        lemma_or_andnot_bits(scr, int_flag::TX_EMPTY, k);
        crate::pac::lemma_bit8_write_read(ier, 2, k, false);
        crate::pac::lemma_bit8_write_read(crate::pac::with_bit8(ier, 2, false), 0, k, false);
        crate::pac::lemma_bit8_write_read(ier, 1, k, false);
    }
}

/// A wait for the TX FIFO to empty finishes exactly when a TX-empty event is recorded
/// (bit 2 of the scratch value), and then consumes that flag alone, keeping every other
/// recorded flag for its own waiter. Otherwise it arms the TX-empty interrupt alone: the
/// enable value written is the one read with bit 1 set and every other enable kept.
pub proof fn lemma_tx_wait_touches_only_its_bits(scr: u8, ier: u8)
    ensures
        tx_poll(scr, ier) is Ready <==> crate::pac::bit8(scr, 2),
        tx_poll(scr, ier) matches TxEmptyPoll::Ready(w) ==> forall|k: u8|
            k < 8 ==> crate::pac::bit8(w.bits, k) == (crate::pac::bit8(scr, k) && k != 2),
        tx_poll(scr, ier) matches TxEmptyPoll::Arm(w) ==> forall|k: u8|
            k < 8 ==> crate::pac::bit8(w.bits, k) == (crate::pac::bit8(ier, k) || k == 1),
{
    lemma_flag_bits(scr, 0);
    assert forall|k: u8| k < 8 implies {
        &&& crate::pac::bit8(scr & !int_flag::TX_EMPTY, k) == (crate::pac::bit8(scr, k) && k != 2)
        &&& crate::pac::bit8(crate::pac::with_bit8(ier, 1, true), k) == (crate::pac::bit8(ier, k)
            || k == 1)
    } by {
        lemma_flag_bits(scr, k);
        lemma_or_andnot_bits(scr, int_flag::TX_EMPTY, k);
        crate::pac::lemma_bit8_write_read(ier, 1, k, true);
    }
}

/// A wait for received data finishes exactly when a timeout (bit 1) or a reached
/// trigger level (bit 0) is recorded, the timeout first: it reports the level reached
/// exactly when no timeout was recorded, and consumes the flag it reports alone, keeping
/// every other recorded flag (a TX-empty event included) for its own waiter. Otherwise
/// it arms the two receive interrupts alone: the enable value written is the one read
/// with bits 0 and 2 set and every other enable kept.
pub proof fn lemma_rx_wait_touches_only_its_bits(scr: u8, ier: u8)
    ensures
        rx_poll(scr, ier) is Ready <==> (crate::pac::bit8(scr, 0) || crate::pac::bit8(scr, 1)),
        rx_poll(scr, ier) matches RxReadyPoll::Ready { level_reached, scr: w } ==> {
            &&& level_reached == !crate::pac::bit8(scr, 1)
            &&& forall|k: u8|
                k < 8 ==> crate::pac::bit8(w.bits, k) == (crate::pac::bit8(scr, k) && k != (if level_reached {
                    0u8
                } else {
                    1u8
                }))
        },
        rx_poll(scr, ier) matches RxReadyPoll::Arm(w) ==> forall|k: u8|
            k < 8 ==> crate::pac::bit8(w.bits, k) == (crate::pac::bit8(ier, k) || k == 0 || k == 2),
{
    lemma_flag_bits(scr, 0);
    assert forall|k: u8| k < 8 implies {
        &&& crate::pac::bit8(scr & !int_flag::TIMEOUT, k) == (crate::pac::bit8(scr, k) && k != 1)
        &&& crate::pac::bit8(scr & !int_flag::RX_AVAILABLE, k) == (crate::pac::bit8(scr, k) && k != 0)
        &&& crate::pac::bit8(crate::pac::with_bit8(crate::pac::with_bit8(ier, 2, true), 0, true), k) == (
        crate::pac::bit8(ier, k) || k == 0 || k == 2)
    } by {
        lemma_flag_bits(scr, k);
        lemma_or_andnot_bits(scr, int_flag::TIMEOUT, k);
        lemma_or_andnot_bits(scr, int_flag::RX_AVAILABLE, k);
        crate::pac::lemma_bit8_write_read(ier, 2, k, true);
        crate::pac::lemma_bit8_write_read(crate::pac::with_bit8(ier, 2, true), 0, k, true);
    }
}

} // verus!
