use embassy_qemu_riscv::gpio::{Flex, Input, InterruptHandler, IrqConfig, Level, LevelPoll, Output};
use embassy_qemu_riscv::pac::gpio::{in_, irq_en, irq_pend, out};

#[test]
fn level_conversions_round_trip() {
    assert_eq!(Level::from(true), Level::High);
    assert_eq!(Level::from(false), Level::Low);
    assert!(bool::from(Level::High));
    assert!(!bool::from(Level::Low));
}

#[test]
fn flex_reads_input_bit() {
    let pin = Flex::new_blocking(5);
    assert_eq!(pin.mask(), 1 << 5);
    assert!(pin.is_high(&in_::R { bits: 0b10_0000 }));
    assert!(pin.is_low(&in_::R { bits: 0b01_1111 }));
    assert_eq!(pin.level(&in_::R { bits: 0xffff_ffff }), Level::High);
}

#[test]
fn flex_output_changes_only_its_bit() {
    let pin = Flex::new_blocking(3);
    let cur = out::R { bits: 0b1010_0000 };
    assert_eq!(pin.set_high(&cur).bits, 0b1010_1000);
    assert_eq!(pin.set_low(&out::R { bits: 0xff }).bits, 0xf7);
    assert_eq!(pin.toggle(&out::R { bits: 0x08 }).bits, 0x00);
    assert_eq!(pin.toggle(&out::R { bits: 0x00 }).bits, 0x08);
    assert_eq!(pin.set_level(Level::High, &out::R { bits: 0 }).bits, 0x08);
    assert!(pin.is_set_high(&out::R { bits: 0x08 }));
    assert_eq!(pin.output_level(&out::R { bits: 0x00 }), Level::Low);
}

#[test]
fn output_new_drives_initial_level() {
    let (o, w) = Output::new(31, Level::High, &out::R { bits: 1 });
    assert_eq!(w.bits, 0x8000_0001);
    assert!(o.is_set_high(&out::R { bits: w.bits }));
}

#[test]
fn interrupt_handler_wakes_firing_pins_in_order() {
    let s = InterruptHandler::on_interrupt(&irq_pend::R { bits: 0b1011_0001 }, &irq_en::R { bits: 0b1001_0011 })
        .expect("pins are firing");
    assert_eq!(s.wake, vec![0, 4, 7]);
    assert_eq!(s.pend.bits, 0b1001_0001);
    assert_eq!(s.en.bits, 0b0000_0010);
    assert!(InterruptHandler::on_interrupt(&irq_pend::R { bits: 0b10 }, &irq_en::R { bits: 0b01 }).is_none());
}

#[test]
fn level_wait_arms_then_completes() {
    let pin = Flex::new_async(2);
    let cfg = IrqConfig { trig: 0b100, pol: 0, en: 0 };
    match pin.poll_level(Level::High, &in_::R { bits: 0 }, cfg) {
        LevelPoll::Arm(c) => {
            assert_eq!(c.trig, 0);
            assert_eq!(c.pol, 0b100);
            assert_eq!(c.en, 0b100);
        }
        LevelPoll::Ready(_) => panic!("input is low"),
    }
    match pin.poll_level(Level::High, &in_::R { bits: 0b100 }, IrqConfig { trig: 0, pol: 0b100, en: 0b101 }) {
        LevelPoll::Ready(w) => assert_eq!(w.bits, 0b001),
        LevelPoll::Arm(_) => panic!("input is high"),
    }
}

#[test]
fn input_reads_and_waits_through_its_flex() {
    let pin = Input::new_async(3);
    assert!(pin.is_high(&in_::R { bits: 0b1000 }));
    assert!(pin.is_low(&in_::R { bits: 0b0111 }));
    assert_eq!(pin.level(&in_::R { bits: 0 }), Level::Low);
    let cfg = IrqConfig { trig: 0, pol: 0, en: 0 };
    assert_eq!(pin.flex().poll_level(Level::Low, &in_::R { bits: 0 }, cfg), LevelPoll::Ready(irq_en::W { bits: 0 }));
    let blocking = Input::new_blocking(0);
    assert!(blocking.is_high(&in_::R { bits: 1 }));
}

#[test]
fn edge_wait_arms_and_fires() {
    let pin = Flex::new_async(4);
    let cfg = IrqConfig { trig: 0, pol: 0xffff_ffff, en: 0b1 };
    let arm = pin.arm_edge(true, false, &in_::R { bits: 0 }, cfg);
    assert_eq!(arm.config.trig, 0b1_0000);
    assert_eq!(arm.config.pol, 0xffff_ffff);
    assert_eq!(arm.config.en, 0b1_0001);
    assert_eq!(arm.pend.bits, 0b1_0000);
    // Any edge from a high input waits for the falling edge.
    let arm = pin.arm_edge(true, true, &in_::R { bits: 0b1_0000 }, cfg);
    assert_eq!(arm.config.pol, 0xffff_ffef);
    assert!(!pin.edge_fired(&irq_en::R { bits: 0b1_0000 }));
    assert!(pin.edge_fired(&irq_en::R { bits: 0b0_1111 }));
    let (en, pend) = pin.disarm(&irq_en::R { bits: 0b1_0001 });
    assert_eq!(en.bits, 0b1);
    assert_eq!(pend.bits, 0b1_0000);
}

#[test]
fn output_methods() {
    let (o, w) = Output::new(1, Level::Low, &out::R { bits: 0b11 });
    assert_eq!(w.bits, 0b01);
    assert_eq!(o.set_high(&out::R { bits: 0 }).bits, 0b10);
    assert_eq!(o.set_low(&out::R { bits: 0b11 }).bits, 0b01);
    assert_eq!(o.set_level(Level::High, &out::R { bits: 0 }).bits, 0b10);
    assert_eq!(o.toggle(&out::R { bits: 0b10 }).bits, 0);
    assert!(o.is_set_low(&out::R { bits: 0b01 }));
    assert_eq!(o.output_level(&out::R { bits: 0b10 }), Level::High);
}
