//! I2C target driver.
//!
//! The target answers to a single configured 7-bit address and is driven with the
//! `listen` → `respond` → re-`listen` loop: listening reports the controller's
//! [`Request`], then a write is drained into a buffer ([`WriteResponse`]) or a read is
//! served from one ([`ReadResponse`]) until the transfer terminates.
//!
//! Every decision the driver takes is a function of the value just read from a
//! register: it says which register value to write back and what to report. The
//! caller performs the register accesses and waits between polls.
use vstd::prelude::*;

use crate::pac::i2c_target::{addr, ctrl, data, status};

verus! {

/// Event reported by [`I2c::listen_step`].
#[derive(Debug, Clone, Copy, PartialEq, Eq, Structural)]
pub enum Request {
    /// The controller is writing to the target at the given address.
    Write(u8),
    /// The controller is reading from the target at the given address.
    Read(u8),
    /// The controller issued a repeated START ending the sub-transaction at the given
    /// address; the next listen reports the new direction.
    RepeatedStart(u8),
    /// The controller issued a STOP ending the transaction at the given address.
    Stop(u8),
}

/// Outcome of serving a read.
#[derive(Debug, Clone, Copy, PartialEq, Eq, Structural)]
pub enum ReadStatus {
    /// The controller NAKed exactly the last byte of the buffer; all bytes were sent.
    Complete(usize),
    /// The whole buffer was sent and the controller still wants more.
    NeedMore(usize),
    /// The controller ended the read (NAK, STOP or repeated START) before the buffer
    /// was exhausted; the count is the number of bytes it clocked out.
    EarlyStop(usize),
}

/// Outcome of draining a write.
#[derive(Debug, Clone, Copy, PartialEq, Eq, Structural)]
pub enum WriteStatus {
    /// The controller issued a STOP after the given number of bytes.
    Stopped(usize),
    /// The controller issued a repeated START after the given number of bytes.
    Restarted(usize),
    /// The buffer was filled (or had no room) with the given number of bytes.
    BufferFull(usize),
}

/// Blocking mode.
pub struct Blocking;

/// Async mode.
pub struct Async;

/// Driver mode.
pub trait Mode {}

impl Mode for Blocking {}

impl Mode for Async {}

/// I2C target instance.
pub trait Instance {}

/// STATUS value that clears exactly the write-1-to-clear flag at bit `n`.
pub open spec fn status_clear(n: u32) -> u32 {
    crate::pac::with_bit32(0, n, true)
}

/// CTRL value of a read-modify-write that starts from `bits` and sets bit `n`.
pub open spec fn ctrl_modify_set(bits: u32, n: u32) -> u32 {
    crate::pac::with_bit32(bits & !ctrl::ONE_TO_MODIFY_FIELDS_BITMAP, n, true)
}

/// CTRL value of a read-modify-write that starts from `bits` and clears the four event
/// interrupt enables (START, STOP, RX_RDY, TX).
pub open spec fn ctrl_events_disabled(bits: u32) -> u32 {
    crate::pac::with_bit32(
        crate::pac::with_bit32(
            crate::pac::with_bit32(
                crate::pac::with_bit32(bits & !ctrl::ONE_TO_MODIFY_FIELDS_BITMAP, 2, false),
                3,
                false,
            ),
            4,
            false,
        ),
        5,
        false,
    )
}

/// CTRL value of a read-modify-write that starts from `bits` and sets the four event
/// interrupt enables (START, STOP, RX_RDY, TX).
pub open spec fn ctrl_events_enabled(bits: u32) -> u32 {
    crate::pac::with_bit32(
        crate::pac::with_bit32(
            crate::pac::with_bit32(
                crate::pac::with_bit32(bits & !ctrl::ONE_TO_MODIFY_FIELDS_BITMAP, 2, true),
                3,
                true,
            ),
            4,
            true,
        ),
        5,
        true,
    )
}

/// Whether a STATUS value has an event the driver acts on latched
/// (START, STOP, RX_RDY or TX_DONE).
pub open spec fn has_event(bits: u32) -> bool {
    crate::pac::bit32(bits, 1) || crate::pac::bit32(bits, 2) || crate::pac::bit32(bits, 4)
        || crate::pac::bit32(bits, 5)
}

/// Request reported for a latched START: the controller's direction.
pub open spec fn direction_request(address: u8, bits: u32) -> Request {
    if crate::pac::bit32(bits, 0) {
        Request::Read(address)
    } else {
        Request::Write(address)
    }
}

/// Outcome of one poll of `listen`, for a target at `address` with a repeated START
/// `pending` or not, given the STATUS value read: the request reported with the raw
/// STATUS value to write back (none when nothing is latched), and whether a repeated
/// START is pending afterwards.
pub open spec fn listen_outcome(address: u8, pending: bool, bits: u32) -> (
    Option<(Request, u32)>,
    bool,
) {
    if crate::pac::bit32(bits, 2) {
        (Some((Request::Stop(address), status_clear(2))), false)
    } else if !crate::pac::bit32(bits, 1) {
        (None, pending)
    } else if crate::pac::bit32(bits, 3) && !pending {
        (Some((Request::RepeatedStart(address), status_clear(3))), true)
    } else {
        (Some((direction_request(address, bits), status_clear(1))), false)
    }
}

/// I2C target interrupt handler.
#[verifier::reject_recursive_types(T)]
pub struct InterruptHandler<T: Instance> {
    _phantom: core::marker::PhantomData<T>,
}

impl<T: Instance> InterruptHandler<T> {
    /// CTRL value the handler writes, given the value read: every event interrupt
    /// enable is cleared, which de-asserts the level-triggered line until the waiting
    /// task re-enables them.
    pub fn on_interrupt(ctrl: &ctrl::R) -> (w: ctrl::W)
        ensures
            w.bits == ctrl_events_disabled(ctrl.bits),
    {
        let mut w = ctrl::W::modify(ctrl);
        w.int_start(false);
        w.int_stop(false);
        w.int_rx_rdy(false);
        w.int_tx(false);
        w
    }
}

/// CTRL value that brings the device back to a known-clean baseline, preserving the
/// match address and the configured interrupt enables (the hardware `recover`).
pub fn recover_reg() -> (w: ctrl::W)
    ensures
        w.bits == crate::pac::with_bit32(0, 6, true),
{
    let mut w = ctrl::W::new();
    w.reset();
    w
}

/// STATUS value with only the write-1-to-clear flag at bit `n` set.
fn status_clearing(n: u32) -> (w: status::W)
    requires
        n == 1 || n == 2 || n == 3 || n == 5,
    ensures
        w.bits == status_clear(n),
{
    let mut w = status::W::new();
    if n == 1 {
        w.start();
    } else if n == 2 {
        w.stop();
    } else if n == 3 {
        w.restart();
    } else {
        w.tx_done();
    }
    w
}

/// I2C target driver state.
#[verifier::reject_recursive_types(M)]
pub struct I2c<M: Mode> {
    address: u8,
    restart_pending: bool,
    _phantom: core::marker::PhantomData<M>,
}

impl<M: Mode> I2c<M> {
    /// The address fits the 7-bit address field.
    #[verifier::type_invariant]
    closed spec fn seven_bit(self) -> bool {
        self.address < 128
    }

    /// The 7-bit address the target answers to.
    pub closed spec fn address(self) -> u8 {
        self.address
    }

    /// Whether a repeated START was reported and the new direction is still to be
    /// reported by the next listen.
    pub closed spec fn restart_pending(self) -> bool {
        self.restart_pending
    }

    /// The driver state after a recovery: the same address, no repeated START pending.
    pub closed spec fn recovered(self) -> I2c<M> {
        I2c { restart_pending: false, ..self }
    }

    fn new_inner(address: u8) -> (t: I2c<M>)
        ensures
            t.address() == address & 0x7f,
            !t.restart_pending(),
    {
        assert(address & 0x7f < 128) by (bit_vector);
        I2c { address: address & 0x7f, restart_pending: false, _phantom: core::marker::PhantomData }
    }

    /// The 7-bit address the target answers to.
    pub fn address_bits(&self) -> (a: u8)
        ensures
            a == self.address(),
            a < 128,
    {
        proof {
            use_type_invariant(self);
        }
        self.address
    }

    /// ADDR value that programs the target's address.
    pub fn address_register(&self) -> (w: addr::W)
        ensures
            w.bits == self.address(),
    {
        proof {
            use_type_invariant(self);
        }
        let mut w = addr::W::new();
        w.addr(self.address);
        let a = self.address;
        assert((0u32 & !(0x7fu32 << 0u32)) | (((a as u32) & 0x7f) << 0u32) == a as u32)
            by (bit_vector)
            requires
                a < 128,
        ;
        w
    }

    /// STATUS value that clears the latched START flag.
    pub fn clear_start(&mut self) -> (w: status::W)
        ensures
            w.bits == status_clear(1),
            *final(self) == *old(self),
    {
        status_clearing(1)
    }

    /// STATUS value that clears the latched STOP flag.
    pub fn clear_stop(&mut self) -> (w: status::W)
        ensures
            w.bits == status_clear(2),
            *final(self) == *old(self),
    {
        status_clearing(2)
    }

    /// STATUS value that clears the latched repeated-START flag.
    pub fn clear_restart(&mut self) -> (w: status::W)
        ensures
            w.bits == status_clear(3),
            *final(self) == *old(self),
    {
        status_clearing(3)
    }

    /// STATUS value that clears the latched TX_DONE flag.
    pub fn clear_tx_done(&mut self) -> (w: status::W)
        ensures
            w.bits == status_clear(5),
            *final(self) == *old(self),
    {
        status_clearing(5)
    }

    /// Turns a latched START into a request, given the STATUS value read; also returns
    /// the STATUS value to write back. A repeated START sets both START and RESTART: it
    /// is reported first as [`Request::RepeatedStart`], and the following call reports
    /// the new direction. Returns `None` when START is not latched.
    pub fn take_start_request(&mut self, status: &status::R) -> (r: Option<(Request, status::W)>)
        ensures
            final(self).address() == old(self).address(),
            !crate::pac::bit32(status.bits, 1) ==> r is None && *final(self) == *old(self),
            crate::pac::bit32(status.bits, 1) && crate::pac::bit32(status.bits, 3)
                && !old(self).restart_pending() ==> {
                &&& r matches Some((req, w)) && req == Request::RepeatedStart(old(self).address())
                    && w.bits == status_clear(3)
                &&& final(self).restart_pending()
            },
            crate::pac::bit32(status.bits, 1) && !(crate::pac::bit32(status.bits, 3)
                && !old(self).restart_pending()) ==> {
                &&& r matches Some((req, w)) && req == (if crate::pac::bit32(status.bits, 0) {
                    Request::Read(old(self).address())
                } else {
                    Request::Write(old(self).address())
                }) && w.bits == status_clear(1)
                &&& !final(self).restart_pending()
            },
    {
        proof {
            use_type_invariant(&*self);
        }
        if !status.start().bit() {
            return None;
        }
        if status.restart().bit() && !self.restart_pending {
            let w = self.clear_restart();
            self.restart_pending = true;
            return Some((Request::RepeatedStart(self.address), w));
        }
        self.restart_pending = false;
        let read = status.rw().bit();
        let w = self.clear_start();
        Some(
            (
                if read {
                    Request::Read(self.address)
                } else {
                    Request::Write(self.address)
                },
                w,
            ),
        )
    }

    /// One poll of `listen`, given the STATUS value read: the request to report and the
    /// STATUS value to write back, or `None` when nothing is latched yet.
    ///
    /// A latched STOP is reported first; otherwise a latched START is reported as by
    /// [`Self::take_start_request`].
    pub fn listen_step(&mut self, status: &status::R) -> (r: Option<(Request, status::W)>)
        ensures
            final(self).address() == old(self).address(),
            final(self).restart_pending() == listen_outcome(
                old(self).address(),
                old(self).restart_pending(),
                status.bits,
            ).1,
            r is None <==> listen_outcome(
                old(self).address(),
                old(self).restart_pending(),
                status.bits,
            ).0 is None,
            r matches Some((req, w)) ==> listen_outcome(
                old(self).address(),
                old(self).restart_pending(),
                status.bits,
            ).0 == Some((req, w.bits)),
    {
        proof {
            use_type_invariant(&*self);
        }
        if status.stop().bit() {
            let w = self.clear_stop();
            self.restart_pending = false;
            return Some((Request::Stop(self.address), w));
        }
        self.take_start_request(status)
    }

    /// Brings the driver back to a known-clean baseline after a wedged or cancelled
    /// transfer; returns the CTRL value that resets the device.
    pub fn recover(&mut self) -> (w: ctrl::W)
        ensures
            w.bits == crate::pac::with_bit32(0, 6, true),
            *final(self) == old(self).recovered(),
    {
        proof {
            use_type_invariant(&*self);
        }
        self.restart_pending = false;
        recover_reg()
    }

    /// Whether a STATUS value has an event latched that ends a wait
    /// (START, STOP, RX_RDY or TX_DONE).
    pub fn event_latched(&self, status: &status::R) -> (b: bool)
        ensures
            b == has_event(status.bits),
    {
        status.start().bit() || status.stop().bit() || status.rx_rdy().bit()
            || status.tx_done().bit()
    }

    /// CTRL value that re-enables every event interrupt before waiting, given the
    /// value read.
    pub fn arm_events(&self, ctrl: &ctrl::R) -> (w: ctrl::W)
        ensures
            w.bits == ctrl_events_enabled(ctrl.bits),
    {
        let mut w = ctrl::W::modify(ctrl);
        w.int_start(true);
        w.int_stop(true);
        w.int_rx_rdy(true);
        w.int_tx(true);
        w
    }
}

impl I2c<Blocking> {
    /// A blocking target driver answering to `address` (cut to 7 bits).
    pub fn new_blocking(address: u8) -> (t: I2c<Blocking>)
        ensures
            t.address() == address & 0x7f,
            !t.restart_pending(),
    {
        Self::new_inner(address)
    }
}

impl I2c<Async> {
    /// An async target driver answering to `address` (cut to 7 bits).
    pub fn new_async(address: u8) -> (t: I2c<Async>)
        ensures
            t.address() == address & 0x7f,
            !t.restart_pending(),
    {
        Self::new_inner(address)
    }
}

/// What to do after one poll of STATUS while draining a write.
#[derive(Debug, Clone, Copy, PartialEq, Eq)]
pub enum WriteStep {
    /// A byte is waiting in DATA: pop it and hand it to [`WriteResponse::receive`].
    ReceiveByte,
    /// The write is over: write `clear` to STATUS when present, then report `status`.
    Finish { status: WriteStatus, clear: Option<status::W> },
    /// Nothing is latched yet: poll again (after waiting for the interrupt).
    Pending,
}

/// What to do with a byte popped from DATA while draining a write.
#[derive(Debug, Clone, Copy, PartialEq, Eq)]
pub struct ByteAction {
    /// Index of the buffer slot the byte is stored in, when it is kept.
    pub store_at: Option<usize>,
    /// CTRL value to write: ACK when the byte is kept, NAK when there is no room.
    pub ctrl: ctrl::W,
    /// The write's outcome, when this byte ends it.
    pub done: Option<WriteStatus>,
}

/// What one poll while draining a write calls for, with `received` bytes stored so far,
/// given the STATUS value read.
pub open spec fn write_poll(received: usize, bits: u32) -> WriteStep {
    if crate::pac::bit32(bits, 4) {
        WriteStep::ReceiveByte
    } else if crate::pac::bit32(bits, 2) {
        WriteStep::Finish {
            status: WriteStatus::Stopped(received),
            clear: Some(status::W { bits: status_clear(2) }),
        }
    } else if crate::pac::bit32(bits, 1) {
        WriteStep::Finish { status: WriteStatus::Restarted(received), clear: None }
    } else {
        WriteStep::Pending
    }
}

/// Handling of a byte popped while draining a write into a buffer of `capacity` bytes
/// holding `received` bytes: the count afterwards, the slot the byte is stored in (none
/// when there is no room, and the byte is NAKed), and the write's outcome if this byte
/// ends it.
pub open spec fn write_receive(received: usize, capacity: usize) -> (usize, Option<usize>, Option<
    WriteStatus,
>) {
    if received < capacity {
        let n = (received + 1) as usize;
        (n, Some(received), if n == capacity { Some(WriteStatus::BufferFull(n)) } else { None })
    } else {
        (received, None, Some(WriteStatus::BufferFull(received)))
    }
}

/// Outcome of draining a write into a buffer of `capacity` bytes holding `received`
/// bytes, where `statuses` are the STATUS values read by the successive polls; `None`
/// while the write is not over.
pub open spec fn drain_write(capacity: usize, received: usize, statuses: Seq<u32>) -> Option<WriteStatus>
    decreases statuses.len(),
{
    if statuses.len() == 0 {
        None
    } else {
        match write_poll(received, statuses[0]) {
            WriteStep::ReceiveByte => {
                let (n, _, done) = write_receive(received, capacity);
                match done {
                    Some(ws) => Some(ws),
                    None => drain_write(capacity, n, statuses.drop_first()),
                }
            },
            WriteStep::Finish { status, .. } => Some(status),
            WriteStep::Pending => drain_write(capacity, received, statuses.drop_first()),
        }
    }
}

/// Whatever the controller does, a drained write reports a count that agrees with the
/// buffer (see [`write_status_fits`]).
pub proof fn lemma_drain_write_fits(capacity: usize, received: usize, statuses: Seq<u32>)
    requires
        received <= capacity,
    ensures
        drain_write(capacity, received, statuses) matches Some(ws) ==> write_status_fits(ws, capacity),
    decreases statuses.len(),
{
    if statuses.len() > 0 {
        let (n, _, _) = write_receive(received, capacity);
        lemma_drain_write_fits(capacity, n, statuses.drop_first());
        lemma_drain_write_fits(capacity, received, statuses.drop_first());
    }
}

/// A write whose first `j` polls each find a received byte, with room for all of them,
/// stores byte `i` in slot `i`, and then goes on as a drain holding `j` bytes: it ends
/// with a full buffer once `j` is the buffer's size, as `Stopped(j)` on a STOP and as
/// `Restarted(j)` on a repeated START. With no room at all, the first byte ends it as
/// `BufferFull(0)`.
pub proof fn lemma_drain_write_bytes(capacity: usize, statuses: Seq<u32>, j: nat)
    requires
        j <= capacity,
        j <= statuses.len(),
        forall|i: int| 0 <= i < j ==> crate::pac::bit32(#[trigger] statuses[i], 4),
    ensures
        forall|i: int| 0 <= i < j ==> (#[trigger] write_receive(i as usize, capacity)).1 == Some(i as usize),
        j == capacity && j > 0 ==> drain_write(capacity, 0, statuses) == Some(WriteStatus::BufferFull(capacity)),
        j < capacity ==> drain_write(capacity, 0, statuses) == drain_write(
            capacity,
            j as usize,
            statuses.skip(j as int),
        ),
        j < capacity && j < statuses.len() && !crate::pac::bit32(statuses[j as int], 4)
            && crate::pac::bit32(statuses[j as int], 2) ==> drain_write(capacity, 0, statuses) == Some(
            WriteStatus::Stopped(j as usize),
        ),
        j < capacity && j < statuses.len() && !crate::pac::bit32(statuses[j as int], 4)
            && !crate::pac::bit32(statuses[j as int], 2) && crate::pac::bit32(statuses[j as int], 1)
            ==> drain_write(capacity, 0, statuses) == Some(WriteStatus::Restarted(j as usize)),
        capacity == 0 && statuses.len() > 0 && crate::pac::bit32(statuses[0], 4) ==> drain_write(
            capacity,
            0,
            statuses,
        ) == Some(WriteStatus::BufferFull(0)),
    decreases j,
{
    if j > 0 {
        lemma_drain_write_bytes(capacity, statuses, (j - 1) as nat);
        let k = (j - 1) as int;
        let rest = statuses.skip(k);
        assert(rest.len() > 0 && rest[0] == statuses[k]);
        assert(rest.drop_first() == statuses.skip(k + 1));
        if k + 1 < capacity {
            assert(drain_write(capacity, k as usize, rest) == drain_write(
                capacity,
                (k + 1) as usize,
                statuses.skip(k + 1),
            ));
        }
    } else {
        assert(statuses.skip(0) == statuses);
    }
    if j < capacity && j < statuses.len() {
        let rest = statuses.skip(j as int);
        assert(rest[0] == statuses[j as int]);
    }
}

/// Whether a STATUS value has an event that a poll while draining a write acts on
/// (RX_RDY, STOP or START); a poll that finds none waits.
pub open spec fn write_event(bits: u32) -> bool {
    crate::pac::bit32(bits, 4) || crate::pac::bit32(bits, 2) || crate::pac::bit32(bits, 1)
}

/// The STATUS values among `statuses` that have such an event, in order.
pub open spec fn write_events(statuses: Seq<u32>) -> Seq<u32>
    decreases statuses.len(),
{
    if statuses.len() == 0 {
        seq![]
    } else if write_event(statuses[0]) {
        seq![statuses[0]] + write_events(statuses.drop_first())
    } else {
        write_events(statuses.drop_first())
    }
}

/// Polls that find nothing latched change nothing: a drain goes as over its events alone.
proof fn lemma_drain_write_skips_idle(capacity: usize, received: usize, statuses: Seq<u32>)
    ensures
        drain_write(capacity, received, statuses) == drain_write(
            capacity,
            received,
            write_events(statuses),
        ),
    decreases statuses.len(),
{
    if statuses.len() > 0 {
        let rest = statuses.drop_first();
        let e = write_events(rest);
        if write_event(statuses[0]) {
            let all = seq![statuses[0]] + e;
            assert(all[0] == statuses[0]);
            assert(all.drop_first() == e);
            let (n, _, _) = write_receive(received, capacity);
            lemma_drain_write_skips_idle(capacity, n, rest);
        } else {
            lemma_drain_write_skips_idle(capacity, received, rest);
        }
    }
}

/// Draining a write, over any STATUS values the polls read (idle polls included): with
/// `events` the polls that found something, when the first `j` of them each found a
/// received byte and the buffer has room for them, byte `i` went to slot `i`, and the
/// write ends as [`lemma_drain_write_bytes`] says of `events`; it is not over while the
/// polls found no more than those `j` bytes and the buffer is not full.
pub proof fn lemma_drain_write(capacity: usize, statuses: Seq<u32>, j: nat)
    requires
        j <= capacity,
        j <= write_events(statuses).len(),
        forall|i: int| 0 <= i < j ==> crate::pac::bit32(#[trigger] write_events(statuses)[i], 4),
    ensures
        ({
            let events = write_events(statuses);
            &&& forall|i: int| 0 <= i < j ==> (#[trigger] write_receive(i as usize, capacity)).1 == Some(i as usize)
            &&& drain_write(capacity, 0, statuses) == drain_write(capacity, 0, events)
            &&& j == capacity && j > 0 ==> drain_write(capacity, 0, statuses) == Some(
                WriteStatus::BufferFull(capacity),
            )
            &&& j < capacity && j == events.len() ==> drain_write(capacity, 0, statuses) is None
            &&& j < capacity && j < events.len() && !crate::pac::bit32(events[j as int], 4)
                && crate::pac::bit32(events[j as int], 2) ==> drain_write(capacity, 0, statuses) == Some(
                WriteStatus::Stopped(j as usize),
            )
            &&& j < capacity && j < events.len() && !crate::pac::bit32(events[j as int], 4)
                && !crate::pac::bit32(events[j as int], 2) ==> drain_write(capacity, 0, statuses) == Some(
                WriteStatus::Restarted(j as usize),
            )
            &&& capacity == 0 && events.len() > 0 && crate::pac::bit32(events[0], 4) ==> drain_write(
                capacity,
                0,
                statuses,
            ) == Some(WriteStatus::BufferFull(0))
        }),
{
    let events = write_events(statuses);
    lemma_drain_write_skips_idle(capacity, 0, statuses);
    lemma_write_events_are_events(statuses);
    lemma_drain_write_bytes(capacity, events, j);
    if j < capacity && j == events.len() {
        assert(events.skip(j as int).len() == 0);
    }
}

/// Every value listed by [`write_events`] has an event.
proof fn lemma_write_events_are_events(statuses: Seq<u32>)
    ensures
        forall|i: int| 0 <= i < write_events(statuses).len() ==> write_event(#[trigger] write_events(statuses)[i]),
    decreases statuses.len(),
{
    if statuses.len() > 0 {
        lemma_write_events_are_events(statuses.drop_first());
        let e = write_events(statuses.drop_first());
        if write_event(statuses[0]) {
            let all = seq![statuses[0]] + e;
            assert forall|i: int| 0 <= i < all.len() implies write_event(#[trigger] all[i]) by {
                if i > 0 {
                    assert(all[i] == e[i - 1]);
                }
            }
        }
    }
}

/// Progress of draining one write transfer into a buffer of `capacity` bytes.
pub struct WriteResponse {
    received: usize,
    capacity: usize,
}

impl WriteResponse {
    /// No more bytes are kept than the buffer holds.
    #[verifier::type_invariant]
    closed spec fn within_capacity(self) -> bool {
        self.received <= self.capacity
    }

    /// Number of bytes stored so far.
    pub closed spec fn received(self) -> usize {
        self.received
    }

    /// Size of the buffer.
    pub closed spec fn capacity(self) -> usize {
        self.capacity
    }

    /// Starts draining a write into a buffer of `capacity` bytes.
    pub fn new(capacity: usize) -> (r: WriteResponse)
        ensures
            r.received() == 0,
            r.capacity() == capacity,
    {
        WriteResponse { received: 0, capacity }
    }

    /// Number of bytes stored so far; never more than the buffer holds.
    pub fn received_count(&self) -> (n: usize)
        ensures
            n == self.received(),
            n <= self.capacity(),
    {
        proof {
            use_type_invariant(self);
        }
        self.received
    }

    /// One poll while draining a write, given the STATUS value read.
    ///
    /// A received byte is handled first; otherwise a STOP ends the write (and is
    /// cleared), and a repeated START ends it while staying latched for the next listen.
    pub fn poll<M: Mode>(&mut self, target: &mut I2c<M>, status: &status::R) -> (step: WriteStep)
        ensures
            step == write_poll(old(self).received(), status.bits),
            *final(self) == *old(self),
            step matches WriteStep::Finish { status: ws, .. } ==> write_status_fits(
                ws,
                old(self).capacity(),
            ),
            final(target).address() == old(target).address(),
            crate::pac::bit32(status.bits, 4) ==> step == WriteStep::ReceiveByte && *final(target) == *old(target),
            !crate::pac::bit32(status.bits, 4) && crate::pac::bit32(status.bits, 2) ==> {
                &&& step matches WriteStep::Finish { status: ws, clear: Some(w) } && ws
                    == WriteStatus::Stopped(old(self).received()) && w.bits == status_clear(2)
                &&& !final(target).restart_pending()
            },
            !crate::pac::bit32(status.bits, 4) && !crate::pac::bit32(status.bits, 2)
                && crate::pac::bit32(status.bits, 1) ==> step == (WriteStep::Finish {
                status: WriteStatus::Restarted(old(self).received()),
                clear: None,
            }) && *final(target) == *old(target),
            !crate::pac::bit32(status.bits, 4) && !crate::pac::bit32(status.bits, 2)
                && !crate::pac::bit32(status.bits, 1) ==> step == WriteStep::Pending && *final(target) == *old(target),
    {
        proof {
            use_type_invariant(&*target);
            use_type_invariant(&*self);
        }
        if status.rx_rdy().bit() {
            WriteStep::ReceiveByte
        } else if status.stop().bit() {
            let w = target.clear_stop();
            target.restart_pending = false;
            WriteStep::Finish { status: WriteStatus::Stopped(self.received), clear: Some(w) }
        } else if status.start().bit() {
            WriteStep::Finish { status: WriteStatus::Restarted(self.received), clear: None }
        } else {
            WriteStep::Pending
        }
    }

    /// Handles a byte popped from DATA, given the CTRL value read: the byte is kept and
    /// ACKed while the buffer has room (the write ends once the buffer is full), and is
    /// NAKed, ending the write, when there is no room.
    pub fn receive(&mut self, ctrl: &ctrl::R) -> (a: ByteAction)
        ensures
            (final(self).received(), a.store_at, a.done) == write_receive(
                old(self).received(),
                old(self).capacity(),
            ),
            final(self).capacity() == old(self).capacity(),
            a.done matches Some(ws) ==> write_status_fits(ws, final(self).capacity()),
            old(self).received() < old(self).capacity() ==> {
                &&& a.store_at == Some(old(self).received())
                &&& final(self).received() == old(self).received() + 1
                &&& a.ctrl.bits == ctrl_modify_set(ctrl.bits, 0)
                &&& a.done == if final(self).received() == final(self).capacity() {
                    Some(WriteStatus::BufferFull(final(self).received()))
                } else {
                    None
                }
            },
            old(self).received() == old(self).capacity() ==> {
                &&& a.store_at is None
                &&& final(self).received() == old(self).received()
                &&& a.ctrl.bits == ctrl_modify_set(ctrl.bits, 1)
                &&& a.done == Some(WriteStatus::BufferFull(old(self).received()))
            },
    {
        proof {
            use_type_invariant(&*self);
        }
        let mut w = ctrl::W::modify(ctrl);
        if self.received < self.capacity {
            let at = self.received;
            self.received = self.received + 1;
            w.rx_ack();
            let done = if self.received == self.capacity {
                Some(WriteStatus::BufferFull(self.received))
            } else {
                None
            };
            ByteAction { store_at: Some(at), ctrl: w, done }
        } else {
            w.rx_nak();
            ByteAction { store_at: None, ctrl: w, done: Some(WriteStatus::BufferFull(self.received)) }
        }
    }
}

/// Next move while serving a read.
#[derive(Debug, Clone, Copy, PartialEq, Eq)]
pub enum ReadNext {
    /// Write the buffer's byte at this index to DATA, then poll with [`ReadResponse::poll`].
    Transmit(usize),
    /// Every byte was sent and ACKed: report this outcome.
    Done(ReadStatus),
}

/// What to do after one poll of STATUS while a byte of a read is in flight.
#[derive(Debug, Clone, Copy, PartialEq, Eq)]
pub enum ReadStep {
    /// The byte was clocked out and ACKed: write this value to STATUS (clearing
    /// TX_DONE) and go on.
    Sent(status::W),
    /// The read is over: write `clear` to STATUS when present, then report `status`.
    Finish { status: ReadStatus, clear: Option<status::W> },
    /// Nothing is latched yet: poll again (after waiting for the interrupt).
    Pending,
}

/// What one poll while byte `sent` of a `len`-byte read is in flight calls for, given
/// the STATUS value read: the number of bytes sent afterwards and the step.
pub open spec fn read_poll(sent: usize, len: usize, bits: u32) -> (usize, ReadStep) {
    if crate::pac::bit32(bits, 5) {
        let n = (sent + 1) as usize;
        let clear = status::W { bits: status_clear(5) };
        if crate::pac::bit32(bits, 6) {
            (
                n,
                ReadStep::Finish {
                    status: if n == len {
                        ReadStatus::Complete(n)
                    } else {
                        ReadStatus::EarlyStop(n)
                    },
                    clear: Some(clear),
                },
            )
        } else {
            (n, ReadStep::Sent(clear))
        }
    } else if crate::pac::bit32(bits, 2) {
        (
            sent,
            ReadStep::Finish {
                status: ReadStatus::EarlyStop(sent),
                clear: Some(status::W { bits: status_clear(2) }),
            },
        )
    } else if crate::pac::bit32(bits, 1) {
        (sent, ReadStep::Finish { status: ReadStatus::EarlyStop(sent), clear: None })
    } else {
        (sent, ReadStep::Pending)
    }
}

/// Outcome of serving a read from a buffer of `len` bytes of which `sent` were sent,
/// where `statuses` are the STATUS values read by the successive polls while a byte is
/// in flight; `None` while the read is not over. The byte sent next is always the
/// buffer's byte `sent` ([`ReadResponse::next`]).
pub open spec fn serve_read(len: usize, sent: usize, statuses: Seq<u32>) -> Option<ReadStatus>
    decreases statuses.len(),
{
    if sent >= len {
        Some(ReadStatus::NeedMore(sent))
    } else if statuses.len() == 0 {
        None
    } else {
        let (n, step) = read_poll(sent, len, statuses[0]);
        match step {
            ReadStep::Finish { status, .. } => Some(status),
            _ => serve_read(len, n, statuses.drop_first()),
        }
    }
}

/// Whatever the controller does, a served read reports a count that agrees with the
/// buffer (see [`read_status_fits`]).
pub proof fn lemma_serve_read_fits(len: usize, sent: usize, statuses: Seq<u32>)
    requires
        sent <= len,
    ensures
        serve_read(len, sent, statuses) matches Some(rs) ==> read_status_fits(rs, len),
    decreases statuses.len(),
{
    if sent < len && statuses.len() > 0 {
        let (n, _) = read_poll(sent, len, statuses[0]);
        lemma_serve_read_fits(len, n, statuses.drop_first());
    }
}

/// Whether a STATUS value says the byte in flight was clocked out and ACKed.
pub open spec fn acked(bits: u32) -> bool {
    crate::pac::bit32(bits, 5) && !crate::pac::bit32(bits, 6)
}

/// A read whose first `j` polls each find the byte in flight ACKed has sent bytes
/// `0..j` in order: it asks for more once that is the whole buffer; otherwise the next
/// poll decides. A NAK of the next byte ends it as complete when that byte is the
/// buffer's last and as an early stop after `j + 1` bytes otherwise; a STOP or a
/// repeated START before the byte was clocked out ends it as an early stop after `j`.
pub proof fn lemma_serve_read_acked(len: usize, statuses: Seq<u32>, j: nat)
    requires
        j <= len,
        j <= statuses.len(),
        forall|i: int| 0 <= i < j ==> #[trigger] acked(statuses[i]),
    ensures
        serve_read(len, 0, statuses) == serve_read(len, j as usize, statuses.skip(j as int)),
        j == len ==> serve_read(len, 0, statuses) == Some(ReadStatus::NeedMore(len)),
        j < len && j < statuses.len() && crate::pac::bit32(statuses[j as int], 5)
            && crate::pac::bit32(statuses[j as int], 6) ==> serve_read(len, 0, statuses) == Some(
            if j + 1 == len {
                ReadStatus::Complete(len)
            } else {
                ReadStatus::EarlyStop((j + 1) as usize)
            },
        ),
        j < len && j < statuses.len() && !crate::pac::bit32(statuses[j as int], 5) && (
        crate::pac::bit32(statuses[j as int], 2) || crate::pac::bit32(statuses[j as int], 1)) ==> serve_read(
            len,
            0,
            statuses,
        ) == Some(ReadStatus::EarlyStop(j as usize)),
    decreases j,
{
    if j > 0 {
        lemma_serve_read_acked(len, statuses, (j - 1) as nat);
        let k = (j - 1) as int;
        let rest = statuses.skip(k);
        assert(rest.len() > 0 && rest[0] == statuses[k]);
        assert(rest.drop_first() == statuses.skip(k + 1));
        assert(acked(statuses[k]));
    } else {
        assert(statuses.skip(0) == statuses);
    }
    if j < len && j < statuses.len() {
        let rest = statuses.skip(j as int);
        assert(rest[0] == statuses[j as int]);
    }
}

/// Whether a STATUS value has an event that a poll while a byte of a read is in flight
/// acts on (TX_DONE, STOP or START); a poll that finds none waits.
pub open spec fn read_event(bits: u32) -> bool {
    crate::pac::bit32(bits, 5) || crate::pac::bit32(bits, 2) || crate::pac::bit32(bits, 1)
}

/// The STATUS values among `statuses` that have such an event, in order.
pub open spec fn read_events(statuses: Seq<u32>) -> Seq<u32>
    decreases statuses.len(),
{
    if statuses.len() == 0 {
        seq![]
    } else if read_event(statuses[0]) {
        seq![statuses[0]] + read_events(statuses.drop_first())
    } else {
        read_events(statuses.drop_first())
    }
}

/// Polls that find nothing latched change nothing: a read is served as over its events
/// alone.
proof fn lemma_serve_read_skips_idle(len: usize, sent: usize, statuses: Seq<u32>)
    ensures
        serve_read(len, sent, statuses) == serve_read(len, sent, read_events(statuses)),
    decreases statuses.len(),
{
    if statuses.len() > 0 {
        let rest = statuses.drop_first();
        let e = read_events(rest);
        if read_event(statuses[0]) {
            let all = seq![statuses[0]] + e;
            assert(all[0] == statuses[0]);
            assert(all.drop_first() == e);
            let (n, _) = read_poll(sent, len, statuses[0]);
            lemma_serve_read_skips_idle(len, n, rest);
        } else {
            lemma_serve_read_skips_idle(len, sent, rest);
        }
    }
}

/// Serving a read, over any STATUS values the polls read (idle polls included): with
/// `events` the polls that found something, when the first `j` of them each found the
/// byte in flight ACKed, bytes `0..j` were sent in order, and the read ends as
/// [`lemma_serve_read_acked`] says of `events`: it asks for more once `j` is the whole
/// buffer; a NAK of the next byte ends it as complete when that byte is the last and as
/// an early stop after `j + 1` bytes otherwise; a STOP or repeated START first ends it as
/// an early stop after `j`; and it is not over while the polls found no more than those
/// `j` ACKs short of the whole buffer. Its count is the number of bytes clocked out.
pub proof fn lemma_serve_read(len: usize, statuses: Seq<u32>, j: nat)
    requires
        j <= len,
        j <= read_events(statuses).len(),
        forall|i: int| 0 <= i < j ==> #[trigger] acked(read_events(statuses)[i]),
    ensures
        ({
            let events = read_events(statuses);
            &&& serve_read(len, 0, statuses) == serve_read(len, 0, events)
            &&& j == len ==> serve_read(len, 0, statuses) == Some(ReadStatus::NeedMore(len))
            &&& j < len && j == events.len() ==> serve_read(len, 0, statuses) is None
            &&& j < len && j < events.len() && crate::pac::bit32(events[j as int], 5)
                && crate::pac::bit32(events[j as int], 6) ==> serve_read(len, 0, statuses) == Some(
                if j + 1 == len {
                    ReadStatus::Complete(len)
                } else {
                    ReadStatus::EarlyStop((j + 1) as usize)
                },
            )
            &&& j < len && j < events.len() && !crate::pac::bit32(events[j as int], 5) ==> serve_read(
                len,
                0,
                statuses,
            ) == Some(ReadStatus::EarlyStop(j as usize))
        }),
{
    let events = read_events(statuses);
    lemma_serve_read_skips_idle(len, 0, statuses);
    lemma_read_events_are_events(statuses);
    lemma_serve_read_acked(len, events, j);
    if j < len && j == events.len() {
        assert(events.skip(j as int).len() == 0);
    }
    if j < len && j < events.len() {
        assert(read_event(events[j as int]));
    }
}

/// Every value listed by [`read_events`] has an event.
proof fn lemma_read_events_are_events(statuses: Seq<u32>)
    ensures
        forall|i: int| 0 <= i < read_events(statuses).len() ==> read_event(#[trigger] read_events(statuses)[i]),
    decreases statuses.len(),
{
    if statuses.len() > 0 {
        lemma_read_events_are_events(statuses.drop_first());
        let e = read_events(statuses.drop_first());
        if read_event(statuses[0]) {
            let all = seq![statuses[0]] + e;
            assert forall|i: int| 0 <= i < all.len() implies read_event(#[trigger] all[i]) by {
                if i > 0 {
                    assert(all[i] == e[i - 1]);
                }
            }
        }
    }
}

/// Counts reported by a read outcome agree with the buffer of `len` bytes: all of it for
/// a complete read or one that needs more, less of it for an early stop.
pub open spec fn read_status_fits(status: ReadStatus, len: usize) -> bool {
    match status {
        ReadStatus::Complete(n) => n == len,
        ReadStatus::NeedMore(n) => n == len,
        ReadStatus::EarlyStop(n) => n < len,
    }
}

/// Counts reported by a write outcome agree with the buffer of `capacity` bytes: a
/// full buffer is reported with its size, other outcomes with at most that many bytes.
pub open spec fn write_status_fits(status: WriteStatus, capacity: usize) -> bool {
    match status {
        WriteStatus::BufferFull(n) => n == capacity,
        WriteStatus::Stopped(n) => n <= capacity,
        WriteStatus::Restarted(n) => n <= capacity,
    }
}

/// Progress of serving one read transfer from a buffer of `len` bytes.
pub struct ReadResponse {
    sent: usize,
    len: usize,
}

impl ReadResponse {
    /// No more bytes are sent than the buffer holds.
    #[verifier::type_invariant]
    closed spec fn within_buffer(self) -> bool {
        self.sent <= self.len
    }

    /// Number of bytes the controller has clocked out so far.
    pub closed spec fn sent(self) -> usize {
        self.sent
    }

    /// Size of the buffer.
    pub closed spec fn len(self) -> usize {
        self.len
    }

    /// Starts serving a read from a buffer of `len` bytes.
    pub fn new(len: usize) -> (r: ReadResponse)
        ensures
            r.sent() == 0,
            r.len() == len,
    {
        ReadResponse { sent: 0, len }
    }

    /// Number of bytes the controller has clocked out so far; never more than the
    /// buffer holds.
    pub fn sent_count(&self) -> (n: usize)
        ensures
            n == self.sent(),
            n <= self.len(),
    {
        proof {
            use_type_invariant(self);
        }
        self.sent
    }

    /// The next byte to transmit, or the outcome once the whole buffer was sent.
    pub fn next(&self) -> (n: ReadNext)
        ensures
            self.sent() < self.len() ==> n == ReadNext::Transmit(self.sent()),
            self.sent() >= self.len() ==> n == ReadNext::Done(ReadStatus::NeedMore(self.sent())),
            n matches ReadNext::Done(rs) ==> read_status_fits(rs, self.len()),
    {
        proof {
            use_type_invariant(self);
        }
        if self.sent < self.len {
            ReadNext::Transmit(self.sent)
        } else {
            ReadNext::Done(ReadStatus::NeedMore(self.sent))
        }
    }

    /// One poll while a byte is in flight, given the STATUS value read.
    ///
    /// TX_DONE counts the byte; if the controller NAKed it the read is over, reported as
    /// complete when it was the buffer's last byte and as an early stop otherwise. A STOP
    /// (which is cleared) or a repeated START (left latched for the next listen) ends the
    /// read early.
    pub fn poll<M: Mode>(&mut self, target: &mut I2c<M>, status: &status::R) -> (step: ReadStep)
        requires
            old(self).sent() < old(self).len(),
        ensures
            (final(self).sent(), step) == read_poll(old(self).sent(), old(self).len(), status.bits),
            final(self).len() == old(self).len(),
            final(target).address() == old(target).address(),
            crate::pac::bit32(status.bits, 5) ==> {
                &&& final(self).sent() == old(self).sent() + 1
                &&& *final(target) == *old(target)
                &&& crate::pac::bit32(status.bits, 6) ==> (step matches ReadStep::Finish {
                    status: rs,
                    clear: Some(w),
                } && rs == (if final(self).sent() == final(self).len() {
                    ReadStatus::Complete(final(self).sent())
                } else {
                    ReadStatus::EarlyStop(final(self).sent())
                }) && w.bits == status_clear(5))
                &&& !crate::pac::bit32(status.bits, 6) ==> (step matches ReadStep::Sent(w)
                    && w.bits == status_clear(5))
            },
            !crate::pac::bit32(status.bits, 5) ==> final(self).sent() == old(self).sent(),
            step matches ReadStep::Finish { status: rs, .. } ==> read_status_fits(rs, old(self).len()),
            !crate::pac::bit32(status.bits, 5) && crate::pac::bit32(status.bits, 2) ==> {
                &&& step matches ReadStep::Finish { status: rs, clear: Some(w) } && rs
                    == ReadStatus::EarlyStop(old(self).sent()) && w.bits == status_clear(2)
                &&& !final(target).restart_pending()
            },
            !crate::pac::bit32(status.bits, 5) && !crate::pac::bit32(status.bits, 2)
                && crate::pac::bit32(status.bits, 1) ==> step == (ReadStep::Finish {
                status: ReadStatus::EarlyStop(old(self).sent()),
                clear: None,
            }) && *final(target) == *old(target),
            !crate::pac::bit32(status.bits, 5) && !crate::pac::bit32(status.bits, 2)
                && !crate::pac::bit32(status.bits, 1) ==> step == ReadStep::Pending && *final(target) == *old(target),
    {
        proof {
            use_type_invariant(&*target);
            use_type_invariant(&*self);
        }
        if status.tx_done().bit() {
            self.sent = self.sent + 1;
            let nak = status.tx_nak().bit();
            let w = target.clear_tx_done();
            if nak {
                let rs = if self.sent == self.len {
                    ReadStatus::Complete(self.sent)
                } else {
                    ReadStatus::EarlyStop(self.sent)
                };
                ReadStep::Finish { status: rs, clear: Some(w) }
            } else {
                ReadStep::Sent(w)
            }
        } else if status.stop().bit() {
            let w = target.clear_stop();
            target.restart_pending = false;
            ReadStep::Finish { status: ReadStatus::EarlyStop(self.sent), clear: Some(w) }
        } else if status.start().bit() {
            ReadStep::Finish { status: ReadStatus::EarlyStop(self.sent), clear: None }
        } else {
            ReadStep::Pending
        }
    }
}

/// DATA value that supplies `byte` for transmission.
pub fn transmit(byte: u8) -> (w: data::W)
    ensures
        w.bits == byte as u32,
{
    let mut w = data::W::new();
    w.data(byte);
    assert((0u32 & !(0xffu32 << 0u32)) | (((byte as u32) & 0xff) << 0u32) == byte as u32)
        by (bit_vector);
    w
}

/// A repeated START (which latches both START and RESTART) is reported as
/// [`Request::RepeatedStart`], and the next listen that sees START reports the new
/// direction.
pub proof fn lemma_repeated_start_then_direction(address: u8, first: u32, second: u32)
    requires
        crate::pac::bit32(first, 1),
        crate::pac::bit32(first, 3),
        !crate::pac::bit32(first, 2),
        crate::pac::bit32(second, 1),
        !crate::pac::bit32(second, 2),
    ensures
        listen_outcome(address, false, first) == (
            Some((Request::RepeatedStart(address), status_clear(3))),
            true,
        ),
        listen_outcome(address, listen_outcome(address, false, first).1, second) == (
            Some((direction_request(address, second), status_clear(1))),
            false,
        ),
{
}

/// Whatever else is latched, a STOP is reported as [`Request::Stop`] and leaves no
/// repeated START pending.
pub proof fn lemma_stop_reported_first(address: u8, pending: bool, bits: u32)
    requires
        crate::pac::bit32(bits, 2),
    ensures
        listen_outcome(address, pending, bits) == (
            Some((Request::Stop(address), status_clear(2))),
            false,
        ),
{
}


/// Recovery keeps the address, leaves no repeated START pending, and is idempotent:
/// recovering a recovered driver changes nothing.
pub proof fn lemma_recover_idempotent<M: Mode>(t: I2c<M>)
    ensures
        t.recovered().address() == t.address(),
        !t.recovered().restart_pending(),
        t.recovered().recovered() == t.recovered(),
{
}


/// A wait for target events ends exactly when START (bit 1), STOP (bit 2), RX_RDY (bit 4)
/// or TX_DONE (bit 5) is latched: whenever the STATUS value shares a bit with `0x36`.
/// In particular it ends on every value that a listen reports a request for, so a
/// latched STOP always ends the wait and is reported.
pub proof fn lemma_wait_ends_on_every_event(address: u8, pending: bool, bits: u32)
    ensures
        has_event(bits) <==> bits & 0x36 != 0,
        crate::pac::bit32(bits, 2) ==> has_event(bits),
        listen_outcome(address, pending, bits).0 is Some ==> has_event(bits),
{
    assert(((bits >> 1u32) & 1u32 == 1u32 || (bits >> 2u32) & 1u32 == 1u32 || (bits >> 4u32) & 1u32
        == 1u32 || (bits >> 5u32) & 1u32 == 1u32) <==> bits & 0x36u32 != 0) by (bit_vector);
}

} // verus!
