//! I2C controller driver.
//!
//! The controller is driven through three registers (`CTRL`/`STATUS`/`DATA`): each
//! transfer is built from `START`, `TX`, `RX` and `STOP` commands written to `DATA`,
//! and every command completes by latching `STATUS.CMD_DONE`. A transaction is
//! planned here as the exact sequence of commands to issue ([`transaction`]); the
//! caller issues them in order, waits for each to complete, and stops at the first
//! command whose status ([`take_status`]) is an error.
use vstd::prelude::*;

use crate::pac::i2c0::{ctrl, data, status};

verus! {

/// Maximum number of bytes that can be requested in a single `RX` burst.
///
/// The hardware encodes the count as `count - 1` in a single byte and its RX FIFO is
/// 256 bytes deep, so a burst moves at most 256 bytes. Larger reads are split into
/// multiple bursts, each preceded by a repeated `START`.
pub const MAX_RX_BURST: usize = 256;

/// `DATA` command code: issue a (repeated) START with the address byte.
pub const CMD_START: u8 = 0;

/// `DATA` command code: issue a STOP.
pub const CMD_STOP: u8 = 1;

/// `DATA` command code: receive `count - 1` + 1 bytes into the RX FIFO.
pub const CMD_RX: u8 = 2;

/// `DATA` command code: transmit one byte.
pub const CMD_TX: u8 = 3;

/// I2C error.
#[derive(Debug, Copy, Clone, Eq, PartialEq, Structural)]
pub enum Error {
    /// The target did not acknowledge its address or a written byte (or the link dropped).
    NoAcknowledge,
    /// The controller reported a protocol error (illegal command ordering).
    Protocol,
}

impl Error {
    /// Human-readable description of the error.
    pub fn message(&self) -> (s: &'static str)
        ensures
            *self == Error::NoAcknowledge ==> s@ == "No acknowledge"@,
            *self == Error::Protocol ==> s@ == "Protocol error"@,
    {
        match self {
            Error::NoAcknowledge => "No acknowledge",
            Error::Protocol => "Protocol error",
        }
    }
}

/// Blocking mode.
pub struct Blocking;

/// Async mode.
pub struct Async;

/// Driver mode.
pub trait Mode {}

impl Mode for Blocking {}

impl Mode for Async {}

/// I2C controller instance.
pub trait Instance {}

/// I2C controller interrupt handler.
#[verifier::reject_recursive_types(T)]
pub struct InterruptHandler<T: Instance> {
    _phantom: core::marker::PhantomData<T>,
}

impl<T: Instance> InterruptHandler<T> {
    /// CTRL value the handler writes, given the value read: the command-complete
    /// interrupt is disabled, de-asserting the level-triggered line until the waiting
    /// task re-enables it.
    pub fn on_interrupt(ctrl: &ctrl::R) -> (w: ctrl::W)
        ensures
            w.bits == crate::pac::with_bit32(ctrl.bits & !ctrl::ONE_TO_MODIFY_FIELDS_BITMAP, 1, false),
    {
        let mut w = ctrl::W::modify(ctrl);
        w.cmd_done_ie(false);
        w
    }
}

/// CTRL value that re-enables the command-complete interrupt before waiting, given the
/// value read.
pub fn arm_cmd_done(ctrl: &ctrl::R) -> (w: ctrl::W)
    ensures
        w.bits == crate::pac::with_bit32(ctrl.bits & !ctrl::ONE_TO_MODIFY_FIELDS_BITMAP, 1, true),
{
    let mut w = ctrl::W::modify(ctrl);
    w.cmd_done_ie(true);
    w
}

/// CTRL value that resets the device back to idle: clears the RX FIFO and status and
/// aborts any in-flight transfer.
pub fn reset() -> (w: ctrl::W)
    ensures
        w.bits == crate::pac::with_bit32(0, 3, true),
{
    let mut w = ctrl::W::new();
    w.reset();
    w
}

/// Raw `DATA` value of a command word.
pub open spec fn command_word_bits(command: u8, data: u8) -> u32 {
    ((command as u32) << 8u32) | (data as u32)
}

/// `DATA` value that issues `command` with its data byte.
pub fn command_word(command: u8, data: u8) -> (w: data::W)
    requires
        command < 4,
    ensures
        w.bits == command_word_bits(command, data),
{
    let mut w = data::W::new();
    w.data(data);
    w.cmd(command);
    let c = command as u32;
    let d = data as u32;
    assert((((0u32 & !(0xffu32 << 0u32)) | ((d & 0xff) << 0u32)) & !(0x3u32 << 8u32)) | ((c & 0x3)
        << 8u32) == (c << 8u32) | d) by (bit_vector)
        requires
            c < 4,
            d < 256,
    ;
    w
}

/// Whether the status value read says the current command completed.
pub fn command_done(status: &status::R) -> (b: bool)
    ensures
        b == crate::pac::bit32(status.bits, 3),
{
    status.cmd_done().bit()
}

/// Outcome of a completed command, given the STATUS value read, and the STATUS value
/// that clears every latched flag (NAK, PROTO_ERR and CMD_DONE).
pub fn take_status(status: &status::R) -> (r: (Result<(), Error>, status::W))
    ensures
        r.0 == if crate::pac::bit32(status.bits, 1) {
            Err(Error::NoAcknowledge)
        } else if crate::pac::bit32(status.bits, 2) {
            Err(Error::Protocol)
        } else {
            Ok(())
        },
        r.1.bits == 0b1110,
{
    let result = if status.nak().bit() {
        Err(Error::NoAcknowledge)
    } else if status.proto_err().bit() {
        Err(Error::Protocol)
    } else {
        Ok(())
    };
    let mut w = status::W::new();
    w.nak();
    w.proto_err();
    w.cmd_done();
    assert(((0u32 | (1u32 << 1u32)) | (1u32 << 2u32)) | (1u32 << 3u32) == 0b1110u32) by (bit_vector);
    (result, w)
}

/// One command of a transaction.
#[derive(Debug, Copy, Clone, Eq, PartialEq, Structural)]
pub enum Command {
    /// (Repeated) START addressing `address` for a read or a write.
    Start { address: u8, read: bool },
    /// Transmit one byte.
    Tx(u8),
    /// Receive `len` bytes (1 to [`MAX_RX_BURST`]) into bytes `offset..offset + len` of
    /// the buffer of operation `op`; pop them from DATA once the command completed.
    Rx { len: u16, op: usize, offset: usize },
    /// STOP.
    Stop,
}

/// Raw `DATA` value that issues a command.
pub open spec fn command_bits(c: Command) -> u32 {
    match c {
        Command::Start { address, read } => command_word_bits(
            CMD_START,
            ((address << 1u8) | (if read { 1u8 } else { 0u8 })) as u8,
        ),
        Command::Tx(b) => command_word_bits(CMD_TX, b),
        Command::Rx { len, .. } => command_word_bits(CMD_RX, (len - 1) as u8),
        Command::Stop => command_word_bits(CMD_STOP, 0),
    }
}

/// A command is well formed: a receive burst moves 1 to [`MAX_RX_BURST`] bytes.
pub open spec fn command_wf(c: Command) -> bool {
    c matches Command::Rx { len, .. } ==> 1 <= len <= MAX_RX_BURST
}

impl Command {
    /// `DATA` value that issues this command.
    pub fn data_word(&self) -> (w: data::W)
        requires
            command_wf(*self),
        ensures
            w.bits == command_bits(*self),
    {
        match *self {
            Command::Start { address, read } => command_word(
                CMD_START,
                (address << 1u8) | (if read { 1u8 } else { 0u8 }),
            ),
            Command::Tx(b) => command_word(CMD_TX, b),
            Command::Rx { len, .. } => command_word(CMD_RX, (len - 1) as u8),
            Command::Stop => command_word(CMD_STOP, 0),
        }
    }
}

/// One operation of a transaction.
#[derive(Debug, Clone, Eq, PartialEq)]
pub enum Operation {
    /// Write these bytes.
    Write(Vec<u8>),
    /// Read this many bytes.
    Read(usize),
}

/// Whether an operation reads.
pub open spec fn op_is_read(op: Operation) -> bool {
    op matches Operation::Read(_)
}

/// Direction of the last operation of a sequence (`None` when there is none).
pub open spec fn last_direction(ops: Seq<Operation>) -> Option<bool> {
    if ops.len() == 0 {
        None
    } else {
        Some(op_is_read(ops.last()))
    }
}

/// Commands of a read of `remaining` bytes into the buffer of operation `op`, from byte
/// `offset` on: bursts of at most [`MAX_RX_BURST`] bytes, each preceded by a START.
pub open spec fn read_commands(address: u8, op: usize, offset: nat, remaining: nat) -> Seq<Command>
    decreases remaining,
{
    if remaining == 0 {
        seq![]
    } else {
        let n: nat = if remaining < MAX_RX_BURST { remaining } else { MAX_RX_BURST as nat };
        seq![
            Command::Start { address, read: true },
            Command::Rx { len: n as u16, op, offset: offset as usize },
        ] + read_commands(address, op, offset + n, (remaining - n) as nat)
    }
}

/// Commands of a write of `bytes`: a START unless the previous operation was a write
/// too, then one TX per byte.
pub open spec fn write_commands(address: u8, bytes: Seq<u8>, prev_read: Option<bool>) -> Seq<
    Command,
> {
    (if prev_read != Some(false) {
        seq![Command::Start { address, read: false }]
    } else {
        seq![]
    }) + bytes.map_values(|b: u8| Command::Tx(b))
}

/// Commands of operation number `op`, given the direction of the operation before it.
pub open spec fn op_commands(address: u8, op: usize, operation: Operation, prev_read: Option<bool>) -> Seq<
    Command,
> {
    match operation {
        Operation::Write(bytes) => write_commands(address, bytes@, prev_read),
        Operation::Read(len) => read_commands(address, op, 0, len as nat),
    }
}

/// Commands of a sequence of operations, without the final STOP.
pub open spec fn operations_commands(address: u8, ops: Seq<Operation>) -> Seq<Command>
    decreases ops.len(),
{
    if ops.len() == 0 {
        seq![]
    } else {
        operations_commands(address, ops.drop_last()) + op_commands(
            address,
            (ops.len() - 1) as usize,
            ops.last(),
            last_direction(ops.drop_last()),
        )
    }
}

/// Commands of a transaction: those of its operations, then a STOP when any command was
/// issued at all.
pub open spec fn transaction_commands(address: u8, ops: Seq<Operation>) -> Seq<Command> {
    let body = operations_commands(address, ops);
    if body.len() > 0 {
        body.push(Command::Stop)
    } else {
        body
    }
}

/// Appends the commands of a read of `len` bytes into operation `op`'s buffer.
fn push_read(cmds: &mut Vec<Command>, address: u8, op: usize, len: usize)
    ensures
        final(cmds)@ == old(cmds)@ + read_commands(address, op, 0, len as nat),
        forall|i: int|
            old(cmds)@.len() <= i < final(cmds)@.len() ==> command_wf(#[trigger] final(cmds)@[i]),
{
    let ghost base = cmds@;
    let mut offset: usize = 0;
    let mut remaining: usize = len;
    while remaining > 0
        invariant
            offset + remaining == len,
            base.len() <= cmds@.len(),
            cmds@ + read_commands(address, op, offset as nat, remaining as nat) == base
                + read_commands(address, op, 0, len as nat),
            cmds@.subrange(0, base.len() as int) == base,
            forall|i: int| base.len() <= i < cmds@.len() ==> command_wf(#[trigger] cmds@[i]),
        decreases remaining,
    {
        let n: usize = if remaining < MAX_RX_BURST {
            remaining
        } else {
            MAX_RX_BURST
        };
        let ghost before = cmds@;
        cmds.push(Command::Start { address, read: true });
        cmds.push(Command::Rx { len: n as u16, op, offset });
        assert(read_commands(address, op, offset as nat, remaining as nat) == seq![
            Command::Start { address, read: true },
            Command::Rx { len: n as u16, op, offset },
        ] + read_commands(address, op, (offset + n) as nat, (remaining - n) as nat));
        assert(cmds@ == before + seq![
            Command::Start { address, read: true },
            Command::Rx { len: n as u16, op, offset },
        ]);
        assert(cmds@ + read_commands(address, op, (offset + n) as nat, (remaining - n) as nat)
            == before + read_commands(address, op, offset as nat, remaining as nat));
        assert(cmds@.subrange(0, base.len() as int) == before.subrange(0, base.len() as int));
        offset = offset + n;
        remaining = remaining - n;
    }
    assert(read_commands(address, op, offset as nat, 0) == Seq::<Command>::empty());
    assert(cmds@ + Seq::<Command>::empty() == cmds@);
}

/// Appends the commands of a write of `bytes`.
fn push_write(cmds: &mut Vec<Command>, address: u8, bytes: &Vec<u8>, prev_read: Option<bool>)
    ensures
        final(cmds)@ == old(cmds)@ + write_commands(address, bytes@, prev_read),
        forall|i: int|
            old(cmds)@.len() <= i < final(cmds)@.len() ==> command_wf(#[trigger] final(cmds)@[i]),
{
    let ghost base = cmds@;
    if prev_read != Some(false) {
        cmds.push(Command::Start { address, read: false });
    }
    let ghost head = cmds@;
    assert(head == base + (if prev_read != Some(false) {
        seq![Command::Start { address, read: false }]
    } else {
        seq![]
    }));
    let mut i: usize = 0;
    while i < bytes.len()
        invariant
            i <= bytes.len(),
            cmds@ == head + bytes@.take(i as int).map_values(|b: u8| Command::Tx(b)),
            head.len() >= base.len(),
            forall|k: int| base.len() <= k < head.len() ==> command_wf(#[trigger] head[k]),
        decreases bytes.len() - i,
    {
        cmds.push(Command::Tx(bytes[i]));
        assert(bytes@.take(i as int + 1).map_values(|b: u8| Command::Tx(b)) == bytes@.take(
            i as int,
        ).map_values(|b: u8| Command::Tx(b)).push(Command::Tx(bytes@[i as int])));
        i = i + 1;
    }
    assert(bytes@.take(bytes@.len() as int) == bytes@);
    assert forall|k: int| base.len() <= k < cmds@.len() implies command_wf(#[trigger] cmds@[k]) by {
        if k >= head.len() {
            assert(cmds@[k] == Command::Tx(bytes@[k - head.len()]));
        }
    }
}

/// The commands of a transaction against `address`, in the order they are issued.
///
/// A (repeated) START is issued before the first operation, whenever the transfer
/// direction changes, and before every read burst of at most [`MAX_RX_BURST`] bytes;
/// a STOP ends the transaction when any command was issued.
pub fn transaction(address: u8, operations: &[Operation]) -> (cmds: Vec<Command>)
    ensures
        cmds@ == transaction_commands(address, operations@),
        forall|i: int| 0 <= i < cmds@.len() ==> command_wf(#[trigger] cmds@[i]),
{
    let mut cmds: Vec<Command> = Vec::new();
    let mut started = false;
    let mut prev_read: Option<bool> = None;
    let mut i: usize = 0;
    while i < operations.len()
        invariant
            i <= operations@.len(),
            cmds@ == operations_commands(address, operations@.take(i as int)),
            prev_read == last_direction(operations@.take(i as int)),
            started == (cmds@.len() > 0),
            prev_read == Some(false) ==> started,
            forall|k: int| 0 <= k < cmds@.len() ==> command_wf(#[trigger] cmds@[k]),
        decreases operations.len() - i,
    {
        let ghost before = cmds@;
        let ghost prefix = operations@.take(i as int);
        match &operations[i] {
            Operation::Write(bytes) => {
                push_write(&mut cmds, address, bytes, prev_read);
                if prev_read != Some(false) {
                    started = true;
                }
                prev_read = Some(false);
            },
            Operation::Read(len) => {
                push_read(&mut cmds, address, i, *len);
                if *len > 0 {
                    started = true;
                }
                prev_read = Some(true);
            },
        }
        let ghost next = operations@.take(i as int + 1);
        assert(next.drop_last() == prefix);
        assert(next.last() == operations@[i as int]);
        assert(cmds@ == before + op_commands(address, i, operations@[i as int], last_direction(prefix)));
        proof {
            if !started {
                match operations@[i as int] {
                    Operation::Write(bytes) => {
                        assert(false);
                    },
                    Operation::Read(len) => {
                        assert(len == 0);
                        assert(read_commands(address, i, 0, 0) == Seq::<Command>::empty());
                    },
                }
            } else {
                match operations@[i as int] {
                    Operation::Read(len) => {
                        if before.len() == 0 {
                            assert(len > 0);
                            reveal_with_fuel(read_commands, 2);
                        }
                    },
                    _ => {},
                }
            }
        }
        i = i + 1;
    }
    assert(operations@.take(operations@.len() as int) == operations@);
    if started {
        cmds.push(Command::Stop);
    }
    cmds
}

/// Number of bursts a read of `remaining` bytes takes.
pub open spec fn burst_count(remaining: nat) -> nat {
    ((remaining + MAX_RX_BURST - 1) / MAX_RX_BURST as int) as nat
}

/// Length of burst `j` of a read of `remaining` bytes.
pub open spec fn burst_len(remaining: nat, j: int) -> int {
    if remaining - MAX_RX_BURST * j < MAX_RX_BURST {
        remaining - MAX_RX_BURST * j
    } else {
        MAX_RX_BURST as int
    }
}

/// A read of `remaining` bytes into operation `op`'s buffer from byte `offset` on is
/// issued as [`burst_count`] bursts, each right after a START of a read: burst `j`
/// moves the [`burst_len`] bytes that follow byte `offset + 256 * j`, so the bursts
/// fill the buffer's bytes once each, in order.
pub proof fn lemma_read_bursts(address: u8, op: usize, offset: nat, remaining: nat)
    ensures
        read_commands(address, op, offset, remaining).len() == 2 * burst_count(remaining),
        forall|j: int|
            0 <= j < burst_count(remaining) ==> {
                &&& #[trigger] read_commands(address, op, offset, remaining)[2 * j] == read_start(address)
                &&& read_commands(address, op, offset, remaining)[2 * j + 1] == (Command::Rx {
                    len: burst_len(remaining, j) as u16,
                    op,
                    offset: (offset + MAX_RX_BURST * j) as usize,
                })
            },
    decreases remaining,
{
    if remaining > 0 {
        let n: nat = if remaining < MAX_RX_BURST { remaining } else { MAX_RX_BURST as nat };
        lemma_read_bursts(address, op, offset + n, (remaining - n) as nat);
        let all = read_commands(address, op, offset, remaining);
        let rest = read_commands(address, op, offset + n, (remaining - n) as nat);
        if remaining <= MAX_RX_BURST {
            assert(burst_count(remaining) == 1);
            assert(burst_count((remaining - n) as nat) == 0);
        } else {
            assert(burst_count(remaining) == 1 + burst_count((remaining - n) as nat));
            assert forall|j: int| 1 <= j < burst_count(remaining) implies all[2 * j] == read_start(
                address,
            ) && all[2 * j + 1] == (Command::Rx {
                len: burst_len(remaining, j) as u16,
                op,
                offset: (offset + MAX_RX_BURST * j) as usize,
            }) by {
                assert(all[2 * j] == rest[2 * (j - 1)]);
                assert(all[2 * j + 1] == rest[2 * (j - 1) + 1]);
                assert(burst_len((remaining - n) as nat, j - 1) == burst_len(remaining, j));
            }
        }
    }
}

/// Bytes that a completed receive burst left in the RX FIFO: pop `len` bytes from `DATA`
/// into bytes `offset..offset + len` of operation `op`'s buffer.
#[derive(Debug, Copy, Clone, Eq, PartialEq, Structural)]
pub struct Burst {
    /// Index of the read operation.
    pub op: usize,
    /// First byte of the operation's buffer that the burst fills.
    pub offset: usize,
    /// Number of bytes.
    pub len: u16,
}

/// Outcome of a completed command, given the STATUS value read: a NAK is reported
/// before a protocol error.
pub open spec fn status_result(bits: u32) -> Result<(), Error> {
    if crate::pac::bit32(bits, 1) {
        Err(Error::NoAcknowledge)
    } else if crate::pac::bit32(bits, 2) {
        Err(Error::Protocol)
    } else {
        Ok(())
    }
}

/// What the completion of command `c` calls for, given the STATUS value read: the
/// error that ends the transaction, or the bytes of a receive burst to pop, if any.
pub open spec fn completion(c: Command, bits: u32) -> Result<Option<Burst>, Error> {
    match status_result(bits) {
        Err(e) => Err(e),
        Ok(_) => match c {
            Command::Rx { len, op, offset } => Ok(Some(Burst { op, offset, len })),
            _ => Ok(None),
        },
    }
}

/// Outcome of issuing `cmds` in order from command `k` on, where `statuses[i]` is the
/// STATUS value read once command `i` completed: the transaction's result and the
/// number of commands issued in all. The first command that fails ends it.
pub open spec fn run_from(cmds: Seq<Command>, statuses: Seq<u32>, k: nat) -> (Result<(), Error>, nat)
    decreases cmds.len() - k,
{
    if k >= cmds.len() {
        (Ok(()), k)
    } else {
        match status_result(statuses[k as int]) {
            Err(e) => (Err(e), k + 1),
            Ok(_) => run_from(cmds, statuses, k + 1),
        }
    }
}

/// What to do next while running a transaction.
#[derive(Debug, Copy, Clone, Eq, PartialEq)]
pub enum NextStep {
    /// Write this value to `DATA`, wait for `CMD_DONE`, then report the STATUS value
    /// read to [`Executor::complete`].
    Issue(data::W),
    /// The transaction is over with this result.
    Finished(Result<(), Error>),
}

/// Progress of running the commands of a transaction: each is issued once the one
/// before it completed cleanly, and the first that fails ends the transaction.
pub struct Executor {
    cmds: Vec<Command>,
    done: usize,
    error: Option<Error>,
}

impl Executor {
    /// Only commands that were planned complete, and each is well formed.
    #[verifier::type_invariant]
    closed spec fn consistent(self) -> bool {
        &&& self.done <= self.cmds@.len()
        &&& self.error is Some ==> self.done < self.cmds@.len()
        &&& forall|i: int| 0 <= i < self.cmds@.len() ==> command_wf(#[trigger] self.cmds@[i])
    }

    /// The commands of the transaction, in order.
    pub closed spec fn commands(self) -> Seq<Command> {
        self.cmds@
    }

    /// Number of commands that completed cleanly.
    pub closed spec fn completed(self) -> nat {
        self.done as nat
    }

    /// The error of the command that failed, once one did.
    pub closed spec fn error(self) -> Option<Error> {
        self.error
    }

    /// Starts running the transaction of `operations` against `address`.
    pub fn new(address: u8, operations: &[Operation]) -> (e: Executor)
        ensures
            e.commands() == transaction_commands(address, operations@),
            e.completed() == 0,
            e.error() is None,
    {
        Executor { cmds: transaction(address, operations), done: 0, error: None }
    }

    /// The next command to issue, or the result once the transaction is over: the
    /// error of the command that failed, or success once every command completed.
    pub fn next(&self) -> (s: NextStep)
        ensures
            self.error() matches Some(e) ==> s == NextStep::Finished(Err(e)),
            self.error() is None && self.completed() < self.commands().len() ==> s == NextStep::Issue(
                data::W { bits: command_bits(self.commands()[self.completed() as int]) },
            ),
            self.error() is None && self.completed() >= self.commands().len() ==> s
                == NextStep::Finished(Ok(())),
    {
        proof {
            use_type_invariant(self);
        }
        match self.error {
            Some(e) => NextStep::Finished(Err(e)),
            None => {
                if self.done < self.cmds.len() {
                    NextStep::Issue(self.cmds[self.done].data_word())
                } else {
                    NextStep::Finished(Ok(()))
                }
            },
        }
    }

    /// Records the completion of the command issued last, given the STATUS value read;
    /// returns what it calls for and the STATUS value that clears every latched flag.
    pub fn complete(&mut self, status: &status::R) -> (r: (Result<Option<Burst>, Error>, status::W))
        requires
            old(self).error() is None,
            old(self).completed() < old(self).commands().len(),
        ensures
            r.0 == completion(old(self).commands()[old(self).completed() as int], status.bits),
            r.1.bits == 0b1110,
            final(self).commands() == old(self).commands(),
            r.0 matches Err(e) ==> final(self).error() == Some(e) && final(self).completed()
                == old(self).completed(),
            r.0 is Ok ==> final(self).error() is None && final(self).completed() == old(self).completed()
                + 1,
    {
        proof {
            use_type_invariant(&*self);
        }
        let (result, clear) = take_status(status);
        match result {
            Err(e) => {
                self.error = Some(e);
                (Err(e), clear)
            },
            Ok(()) => {
                let burst = match self.cmds[self.done] {
                    Command::Rx { len, op, offset } => Some(Burst { op, offset, len }),
                    _ => None,
                };
                assert(self.done < self.cmds.len());
                self.done = self.done + 1;
                (Ok(burst), clear)
            },
        }
    }
}

/// When every command completes cleanly, every command is issued and the transaction
/// succeeds.
pub proof fn lemma_clean_run(cmds: Seq<Command>, statuses: Seq<u32>, k: nat)
    requires
        k <= cmds.len(),
        forall|i: int| k <= i < cmds.len() ==> #[trigger] status_result(statuses[i]) is Ok,
    ensures
        run_from(cmds, statuses, k) == (Ok::<(), Error>(()), cmds.len()),
    decreases cmds.len() - k,
{
    if k < cmds.len() {
        assert(status_result(statuses[k as int]) is Ok);
        lemma_clean_run(cmds, statuses, k + 1);
    }
}

/// When command `f` is the first to fail, exactly the commands up to and including it
/// are issued (no STOP follows), and the transaction fails with its error.
pub proof fn lemma_failed_run(cmds: Seq<Command>, statuses: Seq<u32>, k: nat, f: nat)
    requires
        k <= f < cmds.len(),
        forall|i: int| k <= i < f ==> #[trigger] status_result(statuses[i]) is Ok,
        status_result(statuses[f as int]) is Err,
    ensures
        run_from(cmds, statuses, k) == (status_result(statuses[f as int]), f + 1),
    decreases f - k,
{
    if k < f {
        assert(status_result(statuses[k as int]) is Ok);
        lemma_failed_run(cmds, statuses, k + 1, f);
    }
}

/// One completion of the executor agrees with [`run_from`]: after a clean completion
/// the run goes on from the next command, and a failure ends it with that command's
/// error.
pub proof fn lemma_run_step(cmds: Seq<Command>, statuses: Seq<u32>, k: nat)
    requires
        k < cmds.len(),
    ensures
        completion(cmds[k as int], statuses[k as int]) matches Err(e) ==> run_from(cmds, statuses, k)
            == (Err::<(), Error>(e), k + 1),
        completion(cmds[k as int], statuses[k as int]) is Ok ==> run_from(cmds, statuses, k)
            == run_from(cmds, statuses, k + 1),
{
}

/// START of a read from `address`.
pub open spec fn read_start(address: u8) -> Command {
    Command::Start { address, read: true }
}

/// Every burst of a read is immediately preceded by a START of a read.
proof fn lemma_read_bursts_follow_start(address: u8, op: usize, offset: nat, remaining: nat)
    ensures
        forall|i: int|
            0 <= i < read_commands(address, op, offset, remaining).len() && #[trigger] read_commands(
                address,
                op,
                offset,
                remaining,
            )[i] is Rx ==> i > 0 && read_commands(address, op, offset, remaining)[i - 1]
                == read_start(address),
        remaining > 0 ==> read_commands(address, op, offset, remaining).len() > 0 && read_commands(
            address,
            op,
            offset,
            remaining,
        )[0] == read_start(address),
    decreases remaining,
{
    if remaining > 0 {
        let n: nat = if remaining < MAX_RX_BURST { remaining } else { MAX_RX_BURST as nat };
        lemma_read_bursts_follow_start(address, op, offset + n, (remaining - n) as nat);
    }
}

/// The commands of the operations begin with a START whenever there are any, and there
/// are some whenever the last operation was a write.
proof fn lemma_operations_begin_with_start(address: u8, ops: Seq<Operation>)
    ensures
        operations_commands(address, ops).len() > 0 ==> (operations_commands(address, ops)[0] is Start),
        last_direction(ops) == Some(false) ==> operations_commands(address, ops).len() > 0,
    decreases ops.len(),
{
    if ops.len() > 0 {
        let prefix = ops.drop_last();
        lemma_operations_begin_with_start(address, prefix);
        match ops.last() {
            Operation::Read(len) => {
                lemma_read_bursts_follow_start(address, (ops.len() - 1) as usize, 0, len as nat);
            },
            Operation::Write(bytes) => {},
        }
    }
}

/// Every burst of the operations' commands is immediately preceded by a START of a read.
proof fn lemma_operations_bursts_follow_start(address: u8, ops: Seq<Operation>)
    ensures
        forall|i: int|
            0 <= i < operations_commands(address, ops).len() && #[trigger] operations_commands(
                address,
                ops,
            )[i] is Rx ==> i > 0 && operations_commands(address, ops)[i - 1] == read_start(address),
    decreases ops.len(),
{
    if ops.len() > 0 {
        let prefix = ops.drop_last();
        lemma_operations_bursts_follow_start(address, prefix);
        let head = operations_commands(address, prefix);
        let tail = op_commands(address, (ops.len() - 1) as usize, ops.last(), last_direction(prefix));
        let all = operations_commands(address, ops);
        assert(all == head + tail);
        match ops.last() {
            Operation::Read(len) => {
                lemma_read_bursts_follow_start(address, (ops.len() - 1) as usize, 0, len as nat);
            },
            Operation::Write(bytes) => {
                assert forall|k: int| 0 <= k < tail.len() implies !(#[trigger] tail[k] is Rx) by {
                    let starts: Seq<Command> = if last_direction(prefix) != Some(false) {
                        seq![Command::Start { address, read: false }]
                    } else {
                        seq![]
                    };
                    if k >= starts.len() {
                        assert(tail[k] == Command::Tx(bytes@[k - starts.len()]));
                    }
                }
            },
        }
        assert forall|i: int| 0 <= i < all.len() && #[trigger] all[i] is Rx implies i > 0 && all[i
            - 1] == read_start(address) by {
            if i < head.len() {
                assert(all[i] == head[i]);
                assert(all[i - 1] == head[i - 1]);
            } else {
                assert(all[i] == tail[i - head.len()]);
                assert(tail[i - head.len()] is Rx);
                assert(all[i - 1] == tail[i - head.len() - 1]);
            }
        }
    }
}

/// Framing of a transaction: whenever it issues any command, it begins with a START and
/// ends with a STOP, and every read burst is issued right after a START of a read.
pub proof fn lemma_transaction_framing(address: u8, ops: Seq<Operation>)
    ensures
        transaction_commands(address, ops).len() > 0 ==> {
            &&& (transaction_commands(address, ops)[0] is Start)
            &&& transaction_commands(address, ops).last() == Command::Stop
        },
        forall|i: int|
            0 <= i < transaction_commands(address, ops).len() && #[trigger] transaction_commands(
                address,
                ops,
            )[i] is Rx ==> i > 0 && transaction_commands(address, ops)[i - 1] == read_start(address),
{
    lemma_operations_begin_with_start(address, ops);
    lemma_operations_bursts_follow_start(address, ops);
    let body = operations_commands(address, ops);
    let all = transaction_commands(address, ops);
    if body.len() > 0 {
        assert forall|i: int| 0 <= i < all.len() && #[trigger] all[i] is Rx implies i > 0 && all[i
            - 1] == read_start(address) by {
            assert(i < body.len());
            assert(all[i] == body[i]);
            assert(all[i - 1] == body[i - 1]);
        }
    }
}

/// A transaction with no operation issues no command.
pub proof fn lemma_empty_transaction(address: u8)
    ensures
        transaction_commands(address, Seq::<Operation>::empty()) == Seq::<Command>::empty(),
{
}


/// A completion carries a burst exactly when a receive command completed cleanly (no
/// NAK, bit 1, and no protocol error, bit 2), and the burst is that command's own: its
/// operation, its first byte and its length. So for a read of `n` bytes into operation
/// `op`, the clean completion of burst `j` hands back bytes `256 * j` on, of the burst's
/// length: the bursts fill the read buffer once each, in order. A failed completion
/// reports a NAK whenever bit 1 is set, and a protocol error when only bit 2 is.
pub proof fn lemma_completion_is_the_commands_burst(c: Command, bits: u32)
    ensures
        completion(c, bits) matches Ok(Some(b)) ==> c == (Command::Rx { len: b.len, op: b.op, offset: b.offset }),
        completion(c, bits) is Err <==> (crate::pac::bit32(bits, 1) || crate::pac::bit32(bits, 2)),
        completion(c, bits) matches Err(e) ==> e == if crate::pac::bit32(bits, 1) {
            Error::NoAcknowledge
        } else {
            Error::Protocol
        },
        !crate::pac::bit32(bits, 1) && !crate::pac::bit32(bits, 2) ==> (completion(c, bits) is Ok
            && (completion(c, bits)->Ok_0 is Some <==> c is Rx)),
{
}

/// The burst handed back by the clean completion of burst `j` of a read of `remaining`
/// bytes into operation `op`, from byte `offset` on, fills bytes
/// `offset + 256 * j .. offset + 256 * j + len` with `len` the burst's length.
pub proof fn lemma_read_burst_completions(address: u8, op: usize, offset: nat, remaining: nat, j: int, bits: u32)
    requires
        0 <= j < burst_count(remaining),
        !crate::pac::bit32(bits, 1),
        !crate::pac::bit32(bits, 2),
    ensures
        completion(read_commands(address, op, offset, remaining)[2 * j + 1], bits) == Ok::<
            Option<Burst>,
            Error,
        >(Some(Burst { op, offset: (offset + MAX_RX_BURST * j) as usize, len: burst_len(remaining, j) as u16 })),
{
    lemma_read_bursts(address, op, offset, remaining);
    assert(read_commands(address, op, offset, remaining)[2 * j] == read_start(address));
}

} // verus!
