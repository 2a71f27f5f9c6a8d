use embassy_qemu_riscv::i2c::controller::{
    arm_cmd_done, command_done, command_word, reset, take_status, transaction, Blocking, Command, Error,
    Instance, InterruptHandler, Operation, CMD_RX, CMD_START, CMD_STOP, CMD_TX, MAX_RX_BURST,
};
use embassy_qemu_riscv::pac::i2c0::{ctrl, status};

struct I2c0;
impl Instance for I2c0 {}

#[test]
fn write_then_read_uses_repeated_start() {
    let cmds = transaction(0x50, &[Operation::Write(vec![1, 2]), Operation::Read(3)]);
    assert_eq!(
        cmds,
        vec![
            Command::Start { address: 0x50, read: false },
            Command::Tx(1),
            Command::Tx(2),
            Command::Start { address: 0x50, read: true },
            Command::Rx { len: 3, op: 1, offset: 0 },
            Command::Stop,
        ]
    );
}

#[test]
fn consecutive_writes_share_one_start() {
    let cmds = transaction(0x10, &[Operation::Write(vec![7]), Operation::Write(vec![8, 9])]);
    assert_eq!(
        cmds,
        vec![
            Command::Start { address: 0x10, read: false },
            Command::Tx(7),
            Command::Tx(8),
            Command::Tx(9),
            Command::Stop,
        ]
    );
}

#[test]
fn long_read_is_split_into_bursts() {
    let cmds = transaction(0x22, &[Operation::Read(300)]);
    assert_eq!(
        cmds,
        vec![
            Command::Start { address: 0x22, read: true },
            Command::Rx { len: MAX_RX_BURST as u16, op: 0, offset: 0 },
            Command::Start { address: 0x22, read: true },
            Command::Rx { len: 44, op: 0, offset: 256 },
            Command::Stop,
        ]
    );
}

#[test]
fn read_of_exactly_one_burst() {
    let cmds = transaction(0x22, &[Operation::Read(256)]);
    assert_eq!(cmds.len(), 3);
    assert_eq!(cmds[1], Command::Rx { len: 256, op: 0, offset: 0 });
}

#[test]
fn read_then_write_restarts_for_write() {
    let cmds = transaction(0x01, &[Operation::Read(1), Operation::Write(vec![0xaa])]);
    assert_eq!(
        cmds,
        vec![
            Command::Start { address: 0x01, read: true },
            Command::Rx { len: 1, op: 0, offset: 0 },
            Command::Start { address: 0x01, read: false },
            Command::Tx(0xaa),
            Command::Stop,
        ]
    );
}

#[test]
fn empty_transaction_issues_nothing() {
    assert!(transaction(0x50, &[]).is_empty());
    assert!(transaction(0x50, &[Operation::Read(0)]).is_empty());
}

#[test]
fn empty_write_still_addresses_target() {
    let cmds = transaction(0x33, &[Operation::Write(vec![])]);
    assert_eq!(cmds, vec![Command::Start { address: 0x33, read: false }, Command::Stop]);
}

#[test]
fn command_words_encode_command_and_data() {
    assert_eq!(Command::Start { address: 0x50, read: true }.data_word().bits, 0xa1);
    assert_eq!(Command::Start { address: 0x50, read: false }.data_word().bits, 0xa0);
    assert_eq!(Command::Tx(0x55).data_word().bits, 0x355);
    assert_eq!(Command::Rx { len: 3, op: 0, offset: 0 }.data_word().bits, 0x202);
    assert_eq!(Command::Rx { len: 256, op: 0, offset: 0 }.data_word().bits, 0x2ff);
    assert_eq!(Command::Stop.data_word().bits, 0x100);
    assert_eq!(command_word(CMD_TX, 0x12).bits, 0x312);
    assert_eq!(command_word(CMD_START, 0).bits, 0);
    assert_eq!(command_word(CMD_STOP, 0).bits, 0x100);
    assert_eq!(command_word(CMD_RX, 0xff).bits, 0x2ff);
}

#[test]
fn status_outcome_prefers_nak() {
    let (r, w) = take_status(&status::R { bits: 0b1010 });
    assert_eq!(r, Err(Error::NoAcknowledge));
    assert_eq!(w.bits, 0b1110);
    assert_eq!(take_status(&status::R { bits: 0b1100 }).0, Err(Error::Protocol));
    assert_eq!(take_status(&status::R { bits: 0b1110 }).0, Err(Error::NoAcknowledge));
    assert_eq!(take_status(&status::R { bits: 0b1000 }).0, Ok(()));
}

#[test]
fn command_done_reads_cmd_done_bit() {
    assert!(command_done(&status::R { bits: 0b1000 }));
    assert!(!command_done(&status::R { bits: 0b0111 }));
}

#[test]
fn ctrl_values() {
    assert_eq!(InterruptHandler::<I2c0>::on_interrupt(&ctrl::R { bits: 0b1111 }).bits, 0b0001);
    assert_eq!(arm_cmd_done(&ctrl::R { bits: 0b1001 }).bits, 0b0011);
    assert_eq!(reset().bits, 0b1000);
}

#[test]
fn controller_error_messages() {
    assert_eq!(Error::NoAcknowledge.message(), "No acknowledge");
    assert_eq!(Error::Protocol.message(), "Protocol error");
    let _mode = Blocking;
}

use embassy_qemu_riscv::i2c::controller::{Burst, Executor, NextStep};

#[test]
fn executor_runs_until_done() {
    let mut e = Executor::new(0x50, &[Operation::Write(vec![7]), Operation::Read(2)]);
    let mut issued = vec![];
    let mut bursts = vec![];
    loop {
        match e.next() {
            NextStep::Finished(r) => {
                assert_eq!(r, Ok(()));
                break;
            }
            NextStep::Issue(w) => {
                issued.push(w.bits);
                let (r, clear) = e.complete(&status::R { bits: 0b1000 });
                assert_eq!(clear.bits, 0b1110);
                if let Ok(Some(b)) = r {
                    bursts.push(b);
                }
            }
        }
    }
    assert_eq!(issued, vec![0xa0, 0x307, 0xa1, 0x201, 0x100]);
    assert_eq!(bursts, vec![Burst { op: 1, offset: 0, len: 2 }]);
}

#[test]
fn executor_stops_at_first_failure() {
    let mut e = Executor::new(0x50, &[Operation::Write(vec![1, 2])]);
    assert_eq!(e.next(), NextStep::Issue(Command::Start { address: 0x50, read: false }.data_word()));
    assert_eq!(e.complete(&status::R { bits: 0b1000 }).0, Ok(None));
    assert_eq!(e.next(), NextStep::Issue(Command::Tx(1).data_word()));
    assert_eq!(e.complete(&status::R { bits: 0b1110 }).0, Err(Error::NoAcknowledge));
    assert_eq!(e.next(), NextStep::Finished(Err(Error::NoAcknowledge)));
    let mut e = Executor::new(0x50, &[Operation::Read(1)]);
    let _ = e.next();
    assert_eq!(e.complete(&status::R { bits: 0b1100 }).0, Err(Error::Protocol));
    assert_eq!(e.next(), NextStep::Finished(Err(Error::Protocol)));
    assert_eq!(Executor::new(0x50, &[]).next(), NextStep::Finished(Ok(())));
}
