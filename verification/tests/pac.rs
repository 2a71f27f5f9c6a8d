use embassy_qemu_riscv::pac::interrupt::{ExternalInterrupt, Hart, Priority, MAX_INTERRUPT_NUMBER, MAX_PRIORITY_NUMBER};
use embassy_qemu_riscv::pac::{get_bit32, get_bit8, put_bit32, put_bit8, put_field32, put_field8, Reg};
use embassy_qemu_riscv::pac::{espi0, gpio, i2c0, plic, uart0};

#[test]
fn bit_helpers() {
    assert!(get_bit32(0x8000_0000, 31));
    assert!(!get_bit32(0x7fff_ffff, 31));
    assert_eq!(put_bit32(0, 4, true), 0x10);
    assert_eq!(put_bit32(0xff, 4, false), 0xef);
    assert_eq!(put_field32(0xffff_ffff, 8, 0x3, 0b01), 0xffff_fdff);
    assert!(get_bit8(0x80, 7));
    assert_eq!(put_bit8(0x01, 0, false), 0);
    assert_eq!(put_bit8(0x00, 7, true), 0x80);
    assert_eq!(put_field8(0x00, 6, 0x3, 0b11), 0xc0);
    assert_eq!(put_field8(0xff, 1, 0x7, 0b1010), 0xf5);
}

#[test]
fn field_writers_and_readers() {
    let mut w = i2c0::data::W::new();
    w.data(0x5a);
    w.cmd(3);
    assert_eq!(w.bits, 0x35a);
    let r = i2c0::data::R { bits: w.bits };
    assert_eq!(r.data().bits(), 0x5a);
    assert_eq!(r.cmd().bits(), 3);
    let mut c = i2c0::ctrl::W::modify(&i2c0::ctrl::R { bits: 0xf });
    assert_eq!(c.bits, 0x3);
    c.clear_fifo();
    assert_eq!(c.bits, 0x7);
    let s = i2c0::status::R { bits: 0b1010 };
    assert!(s.nak().bit());
    assert!(s.nak().bit_is_set());
    assert!(s.proto_err().bit_is_clear());
    let mut l = uart0::dlab::lcr::W::new();
    l.wls(0b11);
    assert_eq!(l.bits, 0x03);
    assert_eq!(uart0::dlab::lcr::R { bits: 0x83 }.wls().bits(), 0b11);
}

#[test]
fn priority_numbers_round_trip() {
    assert_eq!(Priority::P5.number(), 5);
    assert_eq!(Priority::from_number(7), Some(Priority::P7));
    assert_eq!(Priority::from_number(8), None);
    assert_eq!(MAX_PRIORITY_NUMBER, 7);
    assert_eq!(Hart::H0.number(), 0);
    assert_eq!(Hart::from_number(0), Some(Hart::H0));
    assert_eq!(Hart::from_number(1), None);
}

#[test]
fn external_interrupt_numbers_round_trip() {
    assert_eq!(ExternalInterrupt::UART0.number(), 1);
    assert_eq!(ExternalInterrupt::I2C0.number(), 2);
    assert_eq!(ExternalInterrupt::I2C_TARGET.number(), 3);
    assert_eq!(ExternalInterrupt::from_number(3), Some(ExternalInterrupt::I2C_TARGET));
    assert_eq!(ExternalInterrupt::from_number(0), None);
    assert_eq!(ExternalInterrupt::from_number(4), None);
    assert_eq!(MAX_INTERRUPT_NUMBER, 3);
}

#[test]
fn register_block_addresses() {
    let p = plic::RegisterBlock::at(0x0c00_0000);
    assert_eq!(p.priority(1).addr(), 0x0c00_0004);
    assert_eq!(p.priority_iter().len(), plic::PRIORITY_COUNT);
    assert_eq!(p.priority_iter()[95].addr, 0x0c00_0000 + 4 * 95);
    assert_eq!(p.pending(2).addr, 0x0c00_1008);
    assert_eq!(p.m_enable(0).addr, 0x0c00_2000);
    assert_eq!(p.s_enable_iter()[1].addr, 0x0c00_2084);
    assert_eq!(p.m_threshold().addr, 0x0c20_0000);
    assert_eq!(p.m_claim().addr, 0x0c20_0004);
    assert_eq!(p.s_threshold().addr, 0x0c20_1000);
    assert_eq!(p.s_claim().addr, 0x0c20_1004);

    let u = uart0::RegisterBlock::at(0x1000_0000);
    assert_eq!(u.data().lsr().addr, 0x1000_0005);
    assert_eq!(u.data().scr().addr, 0x1000_0007);
    assert_eq!(u.dlab().dlm().addr, 0x1000_0001);
    assert_eq!(u.dlab().lcr().addr, 0x1000_0003);

    let g = gpio::RegisterBlock::at(0x1000_3000);
    assert_eq!(g.in_().addr, 0x1000_3000);
    assert_eq!(g.irq_pend().addr, 0x1000_3014);

    let i = i2c0::RegisterBlock::at(0x1000_1000);
    assert_eq!(i.data().addr, 0x1000_1008);

    let e = espi0::RegisterBlock::at(0x1000_4000);
    assert_eq!(e.periph_addr().addr, 0x1000_4010);

    let r: Reg<u8> = Reg::at(42);
    assert_eq!(r.addr(), 42);
}
