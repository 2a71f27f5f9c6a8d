use embassy_qemu_riscv::i2c::target::{
    recover_reg, transmit, Async, I2c, Instance, InterruptHandler, ReadNext, ReadResponse, ReadStatus, ReadStep,
    Request, WriteResponse, WriteStatus, WriteStep,
};
use embassy_qemu_riscv::pac::i2c_target::{ctrl, status};

struct Target;
impl Instance for Target {}

const RW: u32 = 1 << 0;
const START: u32 = 1 << 1;
const STOP: u32 = 1 << 2;
const RESTART: u32 = 1 << 3;
const RX_RDY: u32 = 1 << 4;
const TX_DONE: u32 = 1 << 5;
const TX_NAK: u32 = 1 << 6;

#[test]
fn address_is_cut_to_seven_bits() {
    let t = I2c::new_blocking(0xd0);
    assert_eq!(t.address_bits(), 0x50);
    assert_eq!(t.address_register().bits, 0x50);
}

#[test]
fn listen_reports_direction_and_clears_start() {
    let mut t = I2c::new_blocking(0x42);
    let (req, w) = t.listen_step(&status::R { bits: START }).unwrap();
    assert_eq!(req, Request::Write(0x42));
    assert_eq!(w.bits, START);
    let (req, _) = t.listen_step(&status::R { bits: START | RW }).unwrap();
    assert_eq!(req, Request::Read(0x42));
}

#[test]
fn listen_waits_when_nothing_latched() {
    let mut t = I2c::new_blocking(0x42);
    assert!(t.listen_step(&status::R { bits: 0 }).is_none());
    assert!(t.listen_step(&status::R { bits: RX_RDY }).is_none());
}

#[test]
fn repeated_start_is_reported_before_direction() {
    let mut t = I2c::new_async(0x21);
    let (req, w) = t.listen_step(&status::R { bits: START | RESTART | RW }).unwrap();
    assert_eq!(req, Request::RepeatedStart(0x21));
    assert_eq!(w.bits, RESTART);
    let (req, w) = t.listen_step(&status::R { bits: START | RESTART | RW }).unwrap();
    assert_eq!(req, Request::Read(0x21));
    assert_eq!(w.bits, START);
    // The pending flag was consumed: a new repeated start is reported again.
    let (req, _) = t.listen_step(&status::R { bits: START | RESTART }).unwrap();
    assert_eq!(req, Request::RepeatedStart(0x21));
}

#[test]
fn stop_is_reported_first() {
    let mut t = I2c::new_blocking(0x21);
    let (req, w) = t.listen_step(&status::R { bits: STOP | START | RESTART }).unwrap();
    assert_eq!(req, Request::Stop(0x21));
    assert_eq!(w.bits, STOP);
}

#[test]
fn take_start_request_ignores_stop() {
    let mut t = I2c::new_blocking(0x21);
    assert!(t.take_start_request(&status::R { bits: STOP }).is_none());
    assert_eq!(t.take_start_request(&status::R { bits: START | STOP }).unwrap().0, Request::Write(0x21));
}

#[test]
fn recover_clears_pending_restart() {
    let mut t = I2c::new_blocking(0x21);
    let _ = t.listen_step(&status::R { bits: START | RESTART });
    assert_eq!(t.recover().bits, 1 << 6);
    assert_eq!(t.recover().bits, 1 << 6);
    // With nothing pending, a repeated start is reported as such again.
    let (req, _) = t.listen_step(&status::R { bits: START | RESTART }).unwrap();
    assert_eq!(req, Request::RepeatedStart(0x21));
    assert_eq!(recover_reg().bits, 0x40);
}

#[test]
fn clear_values() {
    let mut t = I2c::new_blocking(1);
    assert_eq!(t.clear_start().bits, START);
    assert_eq!(t.clear_stop().bits, STOP);
    assert_eq!(t.clear_restart().bits, RESTART);
    assert_eq!(t.clear_tx_done().bits, TX_DONE);
}

#[test]
fn event_wait_and_interrupt_enables() {
    let t = I2c::new_async(1);
    assert!(t.event_latched(&status::R { bits: TX_DONE }));
    assert!(t.event_latched(&status::R { bits: RX_RDY }));
    assert!(!t.event_latched(&status::R { bits: RW | RESTART | TX_NAK }));
    assert_eq!(t.arm_events(&ctrl::R { bits: 0 }).bits, 0b11_1100);
    // RX_ACK, RX_NAK and RESET are strobes: a read-modify-write leaves them 0.
    assert_eq!(t.arm_events(&ctrl::R { bits: 0x43 }).bits, 0b11_1100);
    assert_eq!(InterruptHandler::<Target>::on_interrupt(&ctrl::R { bits: 0xff }).bits, 0x80);
}

#[test]
fn write_response_fills_buffer() {
    let mut t = I2c::new_blocking(5);
    let mut w = WriteResponse::new(2);
    assert_eq!(w.poll(&mut t, &status::R { bits: RX_RDY }), WriteStep::ReceiveByte);
    let a = w.receive(&ctrl::R { bits: 0 });
    assert_eq!(a.store_at, Some(0));
    assert_eq!(a.ctrl.bits, 1);
    assert_eq!(a.done, None);
    let a = w.receive(&ctrl::R { bits: 0x3c });
    assert_eq!(a.store_at, Some(1));
    assert_eq!(a.ctrl.bits, 0x3d);
    assert_eq!(a.done, Some(WriteStatus::BufferFull(2)));
    assert_eq!(w.received_count(), 2);
    // No room: the next byte is NAKed.
    let a = w.receive(&ctrl::R { bits: 0 });
    assert_eq!(a.store_at, None);
    assert_eq!(a.ctrl.bits, 2);
    assert_eq!(a.done, Some(WriteStatus::BufferFull(2)));
}

#[test]
fn write_response_ends_on_stop_or_restart() {
    let mut t = I2c::new_blocking(5);
    let mut w = WriteResponse::new(4);
    let _ = w.receive(&ctrl::R { bits: 0 });
    match w.poll(&mut t, &status::R { bits: STOP }) {
        WriteStep::Finish { status, clear } => {
            assert_eq!(status, WriteStatus::Stopped(1));
            assert_eq!(clear.unwrap().bits, STOP);
        }
        other => panic!("unexpected {:?}", other),
    }
    assert_eq!(
        w.poll(&mut t, &status::R { bits: START }),
        WriteStep::Finish { status: WriteStatus::Restarted(1), clear: None }
    );
    assert_eq!(w.poll(&mut t, &status::R { bits: 0 }), WriteStep::Pending);
}

#[test]
fn empty_write_buffer_naks_first_byte() {
    let mut w = WriteResponse::new(0);
    let a = w.receive(&ctrl::R { bits: 0 });
    assert_eq!(a.store_at, None);
    assert_eq!(a.done, Some(WriteStatus::BufferFull(0)));
}

#[test]
fn read_response_complete_when_last_byte_naked() {
    let mut t = I2c::new_blocking(5);
    let mut r = ReadResponse::new(2);
    assert_eq!(r.next(), ReadNext::Transmit(0));
    match r.poll(&mut t, &status::R { bits: TX_DONE }) {
        ReadStep::Sent(w) => assert_eq!(w.bits, TX_DONE),
        other => panic!("unexpected {:?}", other),
    }
    assert_eq!(r.next(), ReadNext::Transmit(1));
    match r.poll(&mut t, &status::R { bits: TX_DONE | TX_NAK }) {
        ReadStep::Finish { status, clear } => {
            assert_eq!(status, ReadStatus::Complete(2));
            assert_eq!(clear.unwrap().bits, TX_DONE);
        }
        other => panic!("unexpected {:?}", other),
    }
}

#[test]
fn read_response_early_stop_and_need_more() {
    let mut t = I2c::new_blocking(5);
    let mut r = ReadResponse::new(3);
    match r.poll(&mut t, &status::R { bits: TX_DONE | TX_NAK }) {
        ReadStep::Finish { status, .. } => assert_eq!(status, ReadStatus::EarlyStop(1)),
        other => panic!("unexpected {:?}", other),
    }
    let mut r = ReadResponse::new(3);
    match r.poll(&mut t, &status::R { bits: STOP }) {
        ReadStep::Finish { status, clear } => {
            assert_eq!(status, ReadStatus::EarlyStop(0));
            assert_eq!(clear.unwrap().bits, STOP);
        }
        other => panic!("unexpected {:?}", other),
    }
    assert_eq!(
        r.poll(&mut t, &status::R { bits: START }),
        ReadStep::Finish { status: ReadStatus::EarlyStop(0), clear: None }
    );
    assert_eq!(r.poll(&mut t, &status::R { bits: 0 }), ReadStep::Pending);
    let mut r = ReadResponse::new(1);
    let _ = r.poll(&mut t, &status::R { bits: TX_DONE });
    assert_eq!(r.sent_count(), 1);
    assert_eq!(r.next(), ReadNext::Done(ReadStatus::NeedMore(1)));
    assert_eq!(ReadResponse::new(0).next(), ReadNext::Done(ReadStatus::NeedMore(0)));
}

#[test]
fn transmit_writes_data_byte() {
    assert_eq!(transmit(0xa5).bits, 0xa5);
    let _ = Async;
}
