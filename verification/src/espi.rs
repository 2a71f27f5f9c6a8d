//! eSPI driver.
//!
//! The eSPI peripheral exchanges 32-bit virtual-wire values with its peer and shares a
//! memory region with it; the peer's writes to the region and its virtual-wire updates
//! are signalled by interrupts. Shared-memory accesses are whole 32-bit words, each of
//! which is one eSPI protocol message, so offsets and lengths are multiples of 4.
use vstd::prelude::*;

use crate::pac::espi0::{int_enable, int_status, vwire_out};
use vstd::bytes::{u32_from_le_bytes, u32_to_le_bytes};
use vstd::slice::slice_subrange;

verus! {

/// Default shared-memory base address (matches the QEMU virt machine).
pub const SHMEM_BASE: usize = 0x1020_0000;

/// Default shared-memory region size in bytes.
pub const SHMEM_SIZE: usize = 4096;

/// eSPI error.
#[derive(Debug, Copy, Clone, Eq, PartialEq, Structural)]
pub enum Error {
    /// Shared memory access out of bounds.
    OutOfBounds,
}

impl Error {
    /// Human-readable description of the error.
    pub fn message(&self) -> (s: &'static str)
        ensures
            s@ == "Shared memory access out of bounds"@,
    {
        match self {
            Error::OutOfBounds => "Shared memory access out of bounds",
        }
    }
}

/// Blocking mode.
pub struct Blocking;

/// Async mode.
pub struct Async;

/// Driver mode.
pub trait Mode {}

impl Mode for Blocking {}

impl Mode for Async {}

/// eSPI instance.
pub trait Instance {}

/// `INT_STATUS` bit of the peripheral channel (peer wrote to shared memory).
pub const PERIPH_PENDING: u32 = 1;

/// `INT_STATUS` bit of the virtual-wire channel (peer updated virtual wires).
pub const VWIRE_PENDING: u32 = 2;

/// Register writes and wake-ups of one run of the eSPI interrupt handler.
#[derive(Debug, Copy, Clone, Eq, PartialEq)]
pub struct IrqAction {
    /// Value for `INT_ENABLE` disabling each channel whose event is pending, if any is.
    pub int_enable: Option<int_enable::W>,
    /// Wake the task waiting for a shared-memory write.
    pub wake_periph: bool,
    /// Wake the task waiting for a virtual-wire update.
    pub wake_vwire: bool,
}

/// eSPI interrupt handler.
#[verifier::reject_recursive_types(T)]
pub struct InterruptHandler<T: Instance> {
    _phantom: core::marker::PhantomData<T>,
}

impl<T: Instance> InterruptHandler<T> {
    /// Services the interrupt, given the values of `INT_STATUS` and `INT_ENABLE`: each
    /// pending channel's interrupt is disabled and its waiter woken. Pending bits are
    /// not cleared here: the woken task reads its data register first, then clears them.
    pub fn on_interrupt(status: &int_status::R, enable: &int_enable::R) -> (a: IrqAction)
        ensures
            a.wake_periph == crate::pac::bit32(status.bits, 0),
            a.wake_vwire == crate::pac::bit32(status.bits, 1),
            !a.wake_periph && !a.wake_vwire <==> a.int_enable is None,
            a.int_enable matches Some(w) ==> w.bits == crate::pac::with_bit32(
                crate::pac::with_bit32(enable.bits, 0, !a.wake_periph && crate::pac::bit32(enable.bits, 0)),
                1,
                !a.wake_vwire && crate::pac::bit32(enable.bits, 1),
            ),
    {
        let periph = status.periph_pending().bit();
        let vwire = status.vwire_pending().bit();
        if !periph && !vwire {
            return IrqAction { int_enable: None, wake_periph: false, wake_vwire: false };
        }
        let mut w = int_enable::W::modify(enable);
        let keep_periph = !periph && enable.periph_en().bit();
        let keep_vwire = !vwire && enable.vwire_en().bit();
        w.periph_en(keep_periph);
        w.vwire_en(keep_vwire);
        IrqAction { int_enable: Some(w), wake_periph: periph, wake_vwire: vwire }
    }
}

/// Register values that bring the peripheral to a known state: every pending interrupt
/// cleared (`INT_STATUS` is write-1-to-clear) and every interrupt disabled.
pub fn init() -> (r: (int_status::W, int_enable::W))
    ensures
        r.0.bits == 0xFFFF_FFFF,
        r.1.bits == int_enable::RESET_VALUE,
{
    (int_status::W { bits: 0xFFFF_FFFF }, int_enable::W { bits: int_enable::RESET_VALUE })
}

/// `VWIRE_OUT` value that sends `val` to the peer.
pub fn vwire_word(val: u32) -> (w: vwire_out::W)
    ensures
        w.bits == val,
{
    let mut w = vwire_out::W::new();
    w.data(val);
    w
}

/// Whether a shared-memory write by the peer is pending, given `INT_STATUS`.
pub fn periph_pending(status: &int_status::R) -> (b: bool)
    ensures
        b == crate::pac::bit32(status.bits, 0),
{
    status.periph_pending().bit()
}

/// Whether a virtual-wire update by the peer is pending, given `INT_STATUS`.
pub fn vwire_pending(status: &int_status::R) -> (b: bool)
    ensures
        b == crate::pac::bit32(status.bits, 1),
{
    status.vwire_pending().bit()
}

/// `INT_STATUS` value that acknowledges a pending shared-memory write.
pub fn clear_periph() -> (w: int_status::W)
    ensures
        w.bits == PERIPH_PENDING,
{
    int_status::W { bits: PERIPH_PENDING }
}

/// `INT_STATUS` value that acknowledges a pending virtual-wire update.
pub fn clear_vwire() -> (w: int_status::W)
    ensures
        w.bits == VWIRE_PENDING,
{
    int_status::W { bits: VWIRE_PENDING }
}

/// `INT_ENABLE` value that re-enables the shared-memory-write interrupt before
/// waiting, given the value read.
pub fn arm_periph(enable: &int_enable::R) -> (w: int_enable::W)
    ensures
        w.bits == crate::pac::with_bit32(enable.bits, 0, true),
{
    let mut w = int_enable::W::modify(enable);
    w.periph_en(true);
    w
}

/// `INT_ENABLE` value that re-enables the virtual-wire interrupt before waiting, given
/// the value read.
pub fn arm_vwire(enable: &int_enable::R) -> (w: int_enable::W)
    ensures
        w.bits == crate::pac::with_bit32(enable.bits, 1, true),
{
    let mut w = int_enable::W::modify(enable);
    w.vwire_en(true);
    w
}

/// How a wait for a channel's event proceeds after one poll.
#[derive(Debug, Copy, Clone, Eq, PartialEq)]
pub enum EspiPoll {
    /// The event is pending: write this value to `INT_STATUS` (clearing the channel's
    /// pending bit alone) and finish. A peripheral-channel wait reads `PERIPH_ADDR`
    /// before the write; a virtual-wire wait reads `VWIRE_IN` after it.
    Ready(int_status::W),
    /// Nothing yet: write this value to `INT_ENABLE` (enabling the channel's interrupt)
    /// and wait.
    Arm(int_enable::W),
}

/// One poll of a wait for a virtual-wire update, given `INT_STATUS` and `INT_ENABLE`.
/// When arming, the peripheral channel's enable keeps its value.
pub fn poll_vwire(status: &int_status::R, enable: &int_enable::R) -> (p: EspiPoll)
    ensures
        crate::pac::bit32(status.bits, 1) ==> p == EspiPoll::Ready(int_status::W { bits: VWIRE_PENDING }),
        !crate::pac::bit32(status.bits, 1) ==> p == EspiPoll::Arm(
            int_enable::W { bits: crate::pac::with_bit32(enable.bits, 1, true) },
        ),
        p matches EspiPoll::Arm(w) ==> crate::pac::bit32(w.bits, 1) && crate::pac::bit32(w.bits, 0)
            == crate::pac::bit32(enable.bits, 0),
{
    proof {
        crate::pac::lemma_bit32_write_read(enable.bits, 1, 1, true);
        crate::pac::lemma_bit32_write_read(enable.bits, 1, 0, true);
    }
    if vwire_pending(status) {
        EspiPoll::Ready(clear_vwire())
    } else {
        EspiPoll::Arm(arm_vwire(enable))
    }
}

/// One poll of a wait for a shared-memory write by the peer, given `INT_STATUS` and
/// `INT_ENABLE`. When arming, the virtual-wire channel's enable keeps its value.
pub fn poll_periph(status: &int_status::R, enable: &int_enable::R) -> (p: EspiPoll)
    ensures
        crate::pac::bit32(status.bits, 0) ==> p == EspiPoll::Ready(int_status::W { bits: PERIPH_PENDING }),
        !crate::pac::bit32(status.bits, 0) ==> p == EspiPoll::Arm(
            int_enable::W { bits: crate::pac::with_bit32(enable.bits, 0, true) },
        ),
        p matches EspiPoll::Arm(w) ==> crate::pac::bit32(w.bits, 0) && crate::pac::bit32(w.bits, 1)
            == crate::pac::bit32(enable.bits, 1),
{
    proof {
        crate::pac::lemma_bit32_write_read(enable.bits, 0, 0, true);
        crate::pac::lemma_bit32_write_read(enable.bits, 0, 1, true);
    }
    if periph_pending(status) {
        EspiPoll::Ready(clear_periph())
    } else {
        EspiPoll::Arm(arm_periph(enable))
    }
}

/// The value a wait writes to `INT_STATUS` when it finishes clears its own channel's
/// pending bit and leaves the other channel's pending bit alone (`INT_STATUS` is
/// write-1-to-clear).
pub proof fn lemma_wait_clears_own_channel()
    ensures
        crate::pac::bit32(VWIRE_PENDING, 1) && !crate::pac::bit32(VWIRE_PENDING, 0),
        crate::pac::bit32(PERIPH_PENDING, 0) && !crate::pac::bit32(PERIPH_PENDING, 1),
{
    assert(((2u32 >> 1u32) & 1u32 == 1u32) && ((2u32 >> 0u32) & 1u32 != 1u32)) by (bit_vector);
    assert(((1u32 >> 0u32) & 1u32 == 1u32) && ((1u32 >> 1u32) & 1u32 != 1u32)) by (bit_vector);
}

/// What dropping a driver handle does, given the number of live handles before the
/// drop: the last one returns the `INT_ENABLE` value that disables every eSPI
/// interrupt (the caller also disables the peripheral's interrupt source).
pub fn release(live_before: u8) -> (r: Option<int_enable::W>)
    ensures
        live_before == 1 <==> r is Some,
        r matches Some(w) ==> w.bits == int_enable::RESET_VALUE,
{
    if live_before == 1 {
        Some(int_enable::W { bits: int_enable::RESET_VALUE })
    } else {
        None
    }
}

/// Whether an access of `len` bytes at `offset` stays inside the shared memory.
pub open spec fn shmem_in_bounds(offset: usize, len: usize) -> bool {
    offset + len <= SHMEM_SIZE
}

/// Address of word `i` of an access at `offset`.
pub open spec fn shmem_word_addr(offset: usize, i: int) -> int {
    SHMEM_BASE + offset + 4 * i
}

/// Bytes of a sequence of words, each in little-endian order.
pub open spec fn le_bytes_of_words(words: Seq<u32>) -> Seq<u8> {
    Seq::new(
        4 * words.len(),
        |j: int| vstd::bytes::spec_u32_to_le_bytes(words[j / 4])[j % 4],
    )
}

/// Words of a byte sequence whose length is a multiple of 4, each read in
/// little-endian order.
pub open spec fn words_of_le_bytes(bytes: Seq<u8>) -> Seq<u32> {
    Seq::new(
        bytes.len() / 4,
        |i: int| vstd::bytes::spec_u32_from_le_bytes(bytes.subrange(4 * i, 4 * i + 4)),
    )
}

/// Checks an access of `len` bytes at `offset`.
fn check_bounds(offset: usize, len: usize) -> (r: Result<(), Error>)
    ensures
        r is Ok <==> shmem_in_bounds(offset, len),
        r matches Err(e) ==> e == Error::OutOfBounds,
{
    let end = match offset.checked_add(len) {
        Some(end) => end,
        None => {
            return Err(Error::OutOfBounds);
        },
    };
    if end > SHMEM_SIZE {
        return Err(Error::OutOfBounds);
    }
    Ok(())
}

/// Addresses of the words to read, in order, for a read of `len` bytes of shared memory
/// at `offset`; [`Error::OutOfBounds`] when the access exceeds the shared memory.
/// The bytes read are then [`shmem_bytes`] of the words.
pub fn read_shmem(offset: usize, len: usize) -> (r: Result<Vec<usize>, Error>)
    requires
        offset % 4 == 0,
        len % 4 == 0,
    ensures
        r is Ok <==> shmem_in_bounds(offset, len),
        r matches Err(e) ==> e == Error::OutOfBounds,
        r matches Ok(addrs) ==> {
            &&& addrs.len() == len / 4
            &&& forall|i: int| 0 <= i < addrs.len() ==> #[trigger] addrs[i] == shmem_word_addr(offset, i)
        },
{
    check_bounds(offset, len)?;
    let base = SHMEM_BASE + offset;
    let mut addrs: Vec<usize> = Vec::new();
    let mut i: usize = 0;
    while i < len / 4
        invariant
            offset + len <= SHMEM_SIZE,
            base == SHMEM_BASE + offset,
            i <= len / 4,
            addrs.len() == i,
            forall|k: int| 0 <= k < i ==> #[trigger] addrs[k] == shmem_word_addr(offset, k),
        decreases len / 4 - i,
    {
        addrs.push(base + i * 4);
        i = i + 1;
    }
    Ok(addrs)
}

/// Bytes of the words read from shared memory, each word in little-endian order.
pub fn shmem_bytes(words: &[u32]) -> (bytes: Vec<u8>)
    requires
        4 * words@.len() <= usize::MAX,
    ensures
        bytes@ == le_bytes_of_words(words@),
{
    let mut bytes: Vec<u8> = Vec::new();
    let mut i: usize = 0;
    while i < words.len()
        invariant
            4 * words@.len() <= usize::MAX,
            i <= words@.len(),
            bytes@.len() == 4 * i,
            forall|j: int|
                0 <= j < 4 * i ==> #[trigger] bytes@[j] == vstd::bytes::spec_u32_to_le_bytes(
                    words@[j / 4],
                )[j % 4],
        decreases words.len() - i,
    {
        let b = u32_to_le_bytes(words[i]);
        let ghost before = bytes@;
        bytes.push(b[0]);
        bytes.push(b[1]);
        bytes.push(b[2]);
        bytes.push(b[3]);
        assert forall|j: int| 0 <= j < 4 * (i + 1) implies #[trigger] bytes@[j]
            == vstd::bytes::spec_u32_to_le_bytes(words@[j / 4])[j % 4] by {
            if j >= 4 * i {
                assert(j / 4 == i);
                assert(bytes@[j] == b@[j - 4 * i]);
            } else {
                assert(bytes@[j] == before[j]);
            }
        }
        i = i + 1;
    }
    assert(bytes@ == le_bytes_of_words(words@));
    bytes
}

/// Address and value of each word to write, in order, for a write of `data` to shared
/// memory at `offset` (each word takes 4 bytes in little-endian order);
/// [`Error::OutOfBounds`] when the access exceeds the shared memory.
pub fn write_shmem(offset: usize, data: &[u8]) -> (r: Result<Vec<(usize, u32)>, Error>)
    requires
        offset % 4 == 0,
        data@.len() % 4 == 0,
    ensures
        r is Ok <==> shmem_in_bounds(offset, data@.len() as usize),
        r matches Err(e) ==> e == Error::OutOfBounds,
        r matches Ok(words) ==> {
            &&& words.len() == data@.len() / 4
            &&& forall|i: int|
                #![trigger words[i]]
                0 <= i < words.len() ==> words[i].0 == shmem_word_addr(offset, i) && words[i].1
                    == words_of_le_bytes(data@)[i]
        },
{
    check_bounds(offset, data.len())?;
    let base = SHMEM_BASE + offset;
    let mut words: Vec<(usize, u32)> = Vec::new();
    let mut i: usize = 0;
    let n = data.len() / 4;
    while i < n
        invariant
            offset + data@.len() <= SHMEM_SIZE,
            data@.len() % 4 == 0,
            n == data@.len() / 4,
            base == SHMEM_BASE + offset,
            i <= n,
            words.len() == i,
            forall|k: int|
                #![trigger words[k]]
                0 <= k < i ==> words[k].0 == shmem_word_addr(offset, k) && words[k].1
                    == words_of_le_bytes(data@)[k],
        decreases n - i,
    {
        let chunk = slice_subrange(data, i * 4, i * 4 + 4);
        let val = u32_from_le_bytes(chunk);
        words.push((base + i * 4, val));
        i = i + 1;
    }
    Ok(words)
}

/// Reading back the words written: the bytes of the words of a byte sequence whose
/// length is a multiple of 4 are that byte sequence, and the words of the bytes of a
/// word sequence are that word sequence.
pub proof fn lemma_shmem_round_trip(bytes: Seq<u8>, words: Seq<u32>)
    requires
        bytes.len() % 4 == 0,
    ensures
        le_bytes_of_words(words_of_le_bytes(bytes)) == bytes,
        words_of_le_bytes(le_bytes_of_words(words)) == words,
{
    vstd::bytes::lemma_auto_spec_u32_to_from_le_bytes();
    let ws = words_of_le_bytes(bytes);
    let bs = le_bytes_of_words(ws);
    assert(bs.len() == bytes.len());
    assert forall|j: int| 0 <= j < bytes.len() implies bs[j] == bytes[j] by {
        let i = j / 4;
        let chunk = bytes.subrange(4 * i, 4 * i + 4);
        assert(chunk.len() == 4);
        assert(vstd::bytes::spec_u32_to_le_bytes(vstd::bytes::spec_u32_from_le_bytes(chunk)) == chunk);
        assert(chunk[j % 4] == bytes[4 * i + j % 4]);
    }
    assert(bs == bytes);
    let bs2 = le_bytes_of_words(words);
    let ws2 = words_of_le_bytes(bs2);
    assert(ws2.len() == words.len());
    assert forall|i: int| 0 <= i < words.len() implies ws2[i] == words[i] by {
        let chunk = bs2.subrange(4 * i, 4 * i + 4);
        assert(chunk == vstd::bytes::spec_u32_to_le_bytes(words[i])) by {
            assert forall|k: int| 0 <= k < 4 implies chunk[k] == vstd::bytes::spec_u32_to_le_bytes(
                words[i],
            )[k] by {
                assert((4 * i + k) / 4 == i);
                assert((4 * i + k) % 4 == k);
            }
        }
        assert(vstd::bytes::spec_u32_to_le_bytes(words[i]).len() == 4);
        assert(vstd::bytes::spec_u32_from_le_bytes(vstd::bytes::spec_u32_to_le_bytes(words[i]))
            == words[i]);
    }
    assert(ws2 == words);
}

} // verus!
