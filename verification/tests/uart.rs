use embassy_qemu_riscv::pac::uart0::data::{ier, lsr, scr};
use embassy_qemu_riscv::pac::uart0::dlab::{iir, lcr};
use embassy_qemu_riscv::uart::buffered::{self, copy_len, read_count, rx_setup, Drain};
use embassy_qemu_riscv::uart::{
    clear_dlab, data_ready, drop_rx_tx, init, int_flag, read_inner, read_plan, set_fifo_trigger, tx_fifo_empty,
    tx_idle, wait_rx_ready, wait_tx_empty, write_chunks, Config, Error, Instance, InterruptHandler, InterruptType,
    RxFifoTrigger, RxReadyPoll, TxEmptyPoll, Wake, FIFO_SZ, UART_CLK,
};

struct Uart0;
impl Instance for Uart0 {}
impl buffered::Instance for Uart0 {}

fn iir_of(id: u8) -> iir::R {
    iir::R { bits: (id << 1) | 0xc0 }
}

#[test]
fn default_config_is_115200() {
    assert_eq!(Config::default().baudrate, 115_200);
}

#[test]
fn init_programs_divisor_and_fifos() {
    let w = init(Config::default()).unwrap();
    assert_eq!(w.lcr.bits, 0x83);
    assert_eq!(w.dll.bits, 2);
    assert_eq!(w.dlm.bits, 0);
    assert_eq!(w.fcr.bits, 0x07);
    assert_eq!(w.scr.bits, 0);
    let w = init(Config { baudrate: 9600 }).unwrap();
    assert_eq!((w.dlm.bits as u32) * 256 + w.dll.bits as u32, UART_CLK / (16 * 9600));
    let w = init(Config { baudrate: 4 }).unwrap();
    assert_eq!(w.dll.bits, 0x00);
    assert_eq!(w.dlm.bits, 0xe1);
}

#[test]
fn init_rejects_unrepresentable_baud() {
    assert_eq!(init(Config { baudrate: 0 }), Err(Error::InvalidBaud));
    assert_eq!(init(Config { baudrate: 3 }), Err(Error::InvalidBaud));
    assert_eq!(init(Config { baudrate: 230_401 }), Err(Error::InvalidBaud));
    assert!(init(Config { baudrate: 230_400 }).is_ok());
}

#[test]
fn line_status_helpers() {
    assert_eq!(read_inner(&lsr::R { bits: 0b11 }), Err(Error::Overrun));
    assert_eq!(read_inner(&lsr::R { bits: 0b01 }), Ok(()));
    assert!(data_ready(&lsr::R { bits: 1 }));
    assert!(!data_ready(&lsr::R { bits: 0x60 }));
    assert!(tx_fifo_empty(&lsr::R { bits: 0x20 }));
    assert!(!tx_idle(&lsr::R { bits: 0x20 }));
    assert!(tx_idle(&lsr::R { bits: 0x40 }));
    assert_eq!(clear_dlab(&lcr::R { bits: 0x83 }).bits, 0x03);
}

#[test]
fn interrupt_type_codes() {
    assert_eq!(InterruptType::try_from(0b011), Ok(InterruptType::LineStatus));
    assert_eq!(InterruptType::try_from(0b010), Ok(InterruptType::RxAvailable));
    assert_eq!(InterruptType::try_from(0b110), Ok(InterruptType::CharacterTimeout));
    assert_eq!(InterruptType::try_from(0b001), Ok(InterruptType::TxEmpty));
    assert_eq!(InterruptType::try_from(0b000), Ok(InterruptType::Modem));
    assert_eq!(InterruptType::try_from(0b111), Err(()));
    assert_eq!(InterruptType::try_from(0b100), Err(()));
}

#[test]
fn fifo_trigger_encoding() {
    assert_eq!(u8::from(RxFifoTrigger::_1), 0);
    assert_eq!(u8::from(RxFifoTrigger::_14), 3);
    assert_eq!(set_fifo_trigger(RxFifoTrigger::_14).bits, 0xc1);
    assert_eq!(set_fifo_trigger(RxFifoTrigger::_8).bits, 0x81);
    assert_eq!(set_fifo_trigger(RxFifoTrigger::_4).bits, 0x41);
    assert_eq!(set_fifo_trigger(RxFifoTrigger::_1).bits, 0x01);
}

#[test]
fn read_plan_is_greedy() {
    let p = read_plan(31);
    assert_eq!((p.c14, p.c8, p.c4, p.c1), (2, 0, 0, 3));
    let p = read_plan(27);
    assert_eq!((p.c14, p.c8, p.c4, p.c1), (1, 1, 1, 1));
    let p = read_plan(0);
    assert_eq!((p.c14, p.c8, p.c4, p.c1), (0, 0, 0, 0));
    let p = read_plan(13);
    assert_eq!((p.c14, p.c8, p.c4, p.c1), (0, 1, 1, 1));
}

#[test]
fn write_is_cut_into_fifo_chunks() {
    assert_eq!(write_chunks(40), vec![(0, 16), (16, 32), (32, 40)]);
    assert_eq!(write_chunks(32), vec![(0, 16), (16, 32)]);
    assert_eq!(write_chunks(5), vec![(0, 5)]);
    assert!(write_chunks(0).is_empty());
    assert_eq!(FIFO_SZ, 16);
}

#[test]
fn handler_records_rx_event_and_reader_consumes_it() {
    let a = InterruptHandler::<Uart0>::on_interrupt(&iir_of(0b010), &scr::R { bits: 0 }, &ier::R { bits: 0b0111 });
    assert_eq!(a.wake, Wake::Rx);
    let recorded = a.scr.unwrap().bits;
    assert_eq!(recorded, int_flag::RX_AVAILABLE);
    assert_eq!(a.ier.unwrap().bits, 0b0010);
    match wait_rx_ready(&scr::R { bits: recorded }, &ier::R { bits: 0 }) {
        RxReadyPoll::Ready { level_reached, scr } => {
            assert!(level_reached);
            assert_eq!(scr.bits, 0);
        }
        RxReadyPoll::Arm(_) => panic!("event was recorded"),
    }
}

#[test]
fn timeout_is_reported_as_level_not_reached() {
    let a = InterruptHandler::<Uart0>::on_interrupt(&iir_of(0b110), &scr::R { bits: 0 }, &ier::R { bits: 0b0101 });
    assert_eq!(a.wake, Wake::Rx);
    assert_eq!(a.ier.unwrap().bits, 0);
    let recorded = a.scr.unwrap().bits;
    assert_eq!(
        wait_rx_ready(&scr::R { bits: recorded }, &ier::R { bits: 0 }),
        RxReadyPoll::Ready { level_reached: false, scr: scr::W { bits: 0 } }
    );
}

#[test]
fn reader_arms_when_nothing_recorded() {
    assert_eq!(
        wait_rx_ready(&scr::R { bits: int_flag::TX_EMPTY }, &ier::R { bits: 0b0010 }),
        RxReadyPoll::Arm(ier::W { bits: 0b0111 })
    );
}

#[test]
fn tx_event_is_consumed_once() {
    let a = InterruptHandler::<Uart0>::on_interrupt(&iir_of(0b001), &scr::R { bits: 1 }, &ier::R { bits: 0b0111 });
    assert_eq!(a.wake, Wake::Tx);
    assert_eq!(a.ier.unwrap().bits, 0b0101);
    let recorded = a.scr.unwrap().bits;
    assert_eq!(recorded, 0b101);
    let after = match wait_tx_empty(&scr::R { bits: recorded }, &ier::R { bits: 0 }) {
        TxEmptyPoll::Ready(w) => w.bits,
        TxEmptyPoll::Arm(_) => panic!("event was recorded"),
    };
    assert_eq!(after, 1);
    assert_eq!(wait_tx_empty(&scr::R { bits: after }, &ier::R { bits: 0 }), TxEmptyPoll::Arm(ier::W { bits: 0b0010 }));
}

#[test]
fn other_interrupts_are_ignored() {
    let a = InterruptHandler::<Uart0>::on_interrupt(&iir_of(0b000), &scr::R { bits: 0 }, &ier::R { bits: 0xf });
    assert_eq!(a.wake, Wake::Nobody);
    assert!(a.scr.is_none() && a.ier.is_none());
}

#[test]
fn last_half_dropped_disables_interrupts() {
    assert_eq!(drop_rx_tx(1).unwrap().bits, 0);
    assert!(drop_rx_tx(2).is_none());
    assert!(drop_rx_tx(0).is_none());
}

#[test]
fn buffered_handler_actions() {
    assert_eq!(
        buffered::InterruptHandler::<Uart0>::on_interrupt(&iir_of(0b011), &scr::R { bits: 0 }, &ier::R { bits: 0 }),
        buffered::IrqAction::AckLineStatus
    );
    assert_eq!(
        buffered::InterruptHandler::<Uart0>::on_interrupt(&iir_of(0b110), &scr::R { bits: 0 }, &ier::R { bits: 0 }),
        buffered::IrqAction::DrainRx
    );
    assert_eq!(
        buffered::InterruptHandler::<Uart0>::on_interrupt(&iir_of(0b001), &scr::R { bits: 0 }, &ier::R { bits: 0x7 }),
        buffered::IrqAction::TxEmpty { scr: scr::W { bits: 4 }, ier: ier::W { bits: 0x5 } }
    );
    assert_eq!(
        buffered::InterruptHandler::<Uart0>::on_interrupt(&iir_of(0b111), &scr::R { bits: 0 }, &ier::R { bits: 0 }),
        buffered::IrqAction::Ignore
    );
}

#[test]
fn buffered_receiver_setup_and_reads() {
    let (fcr, ier) = rx_setup(&ier::R { bits: 0b0010 });
    assert_eq!(fcr.bits, 0x01);
    assert_eq!(ier.bits, 0b0111);
    assert_eq!(read_count(0, 8), None);
    assert_eq!(read_count(3, 8), Some(3));
    assert_eq!(read_count(30, 8), Some(8));
    assert_eq!(copy_len(5, 8, 6), 2);
    assert_eq!(copy_len(1, 8, 6), 1);
}

#[test]
fn drain_stops_when_ring_full_and_wakes_if_moved() {
    let mut d = Drain::new();
    assert!(d.byte_ready(&lsr::R { bits: 0x61 }));
    assert!(!d.byte_ready(&lsr::R { bits: 0x60 }));
    assert!(!d.wake_reader());
    assert!(d.pushed(true));
    assert!(!d.pushed(false));
    assert!(d.wake_reader());
    let mut d = Drain::new();
    assert!(!d.pushed(false));
    assert!(!d.wake_reader());
}

#[test]
fn uart_error_messages() {
    assert_eq!(Error::InvalidBaud.message(), "Invalid baud rate");
    assert_eq!(Error::Overrun.message(), "RX FIFO overrun");
}

use embassy_qemu_riscv::uart::{chunk_read, read_stages, ChunkRead};

#[test]
fn huge_baud_rates_are_invalid() {
    assert_eq!(init(Config { baudrate: u32::MAX }), Err(Error::InvalidBaud));
    assert_eq!(init(Config { baudrate: 1 << 28 }), Err(Error::InvalidBaud));
}

#[test]
fn read_stages_cover_buffer() {
    let st = read_stages(27);
    assert_eq!(st.len(), 4);
    assert_eq!((st[0].trigger, st[0].start, st[0].count, st[0].size, st[0].batched), (RxFifoTrigger::_14, 0, 1, 14, true));
    assert_eq!((st[1].trigger, st[1].start, st[1].count, st[1].size), (RxFifoTrigger::_8, 14, 1, 8));
    assert_eq!((st[2].trigger, st[2].start, st[2].count, st[2].size), (RxFifoTrigger::_4, 22, 1, 4));
    assert_eq!((st[3].trigger, st[3].start, st[3].count, st[3].size, st[3].batched), (RxFifoTrigger::_1, 26, 1, 1, false));
    let st = read_stages(0);
    assert!(st.iter().all(|s| s.count == 0 && s.start == 0));
    assert_eq!(chunk_read(true), ChunkRead::AtOnce);
    assert_eq!(chunk_read(false), ChunkRead::ByteByByte);
}

use embassy_qemu_riscv::uart::after_chunk;

#[test]
fn fallback_restores_stage_trigger() {
    let st = read_stages(28);
    assert_eq!(after_chunk(&st[0], ChunkRead::AtOnce), None);
    assert_eq!(after_chunk(&st[0], ChunkRead::ByteByByte).unwrap().bits, 0xc1);
    assert_eq!(after_chunk(&st[1], ChunkRead::ByteByByte).unwrap().bits, 0x81);
    assert_eq!(after_chunk(&st[2], ChunkRead::ByteByByte).unwrap().bits, 0x41);
}
