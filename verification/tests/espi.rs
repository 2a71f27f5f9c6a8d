use embassy_qemu_riscv::espi::{
    arm_periph, arm_vwire, clear_periph, clear_vwire, init, periph_pending, read_shmem, release, shmem_bytes,
    vwire_pending, vwire_word, write_shmem, Error, Instance, InterruptHandler, SHMEM_BASE, SHMEM_SIZE,
};
use embassy_qemu_riscv::pac::espi0::{int_enable, int_status};

struct Espi0;
impl Instance for Espi0 {}

#[test]
fn write_shmem_packs_little_endian_words() {
    let words = write_shmem(8, &[1, 2, 3, 4, 0xff, 0, 0, 0x80]).unwrap();
    assert_eq!(words, vec![(SHMEM_BASE + 8, 0x0403_0201), (SHMEM_BASE + 12, 0x8000_00ff)]);
    assert!(write_shmem(0, &[]).unwrap().is_empty());
}

#[test]
fn read_shmem_lists_word_addresses() {
    assert_eq!(read_shmem(4, 12).unwrap(), vec![SHMEM_BASE + 4, SHMEM_BASE + 8, SHMEM_BASE + 12]);
    assert_eq!(shmem_bytes(&[0x0403_0201, 0xdead_beef]), vec![1, 2, 3, 4, 0xef, 0xbe, 0xad, 0xde]);
}

#[test]
fn shmem_round_trip() {
    let data = [9u8, 8, 7, 6, 5, 4, 3, 2];
    let words: Vec<u32> = write_shmem(0, &data).unwrap().into_iter().map(|(_, v)| v).collect();
    assert_eq!(shmem_bytes(&words), data.to_vec());
}

#[test]
fn out_of_bounds_accesses_fail() {
    assert_eq!(read_shmem(SHMEM_SIZE - 4, 8), Err(Error::OutOfBounds));
    assert_eq!(write_shmem(SHMEM_SIZE, &[0, 0, 0, 0]), Err(Error::OutOfBounds));
    assert_eq!(read_shmem(usize::MAX - 3, 4), Err(Error::OutOfBounds));
    assert_eq!(read_shmem(SHMEM_SIZE - 4, 4).unwrap(), vec![SHMEM_BASE + SHMEM_SIZE - 4]);
    assert!(read_shmem(SHMEM_SIZE, 0).unwrap().is_empty());
}

#[test]
fn interrupt_handler_disables_pending_channels() {
    let a = InterruptHandler::<Espi0>::on_interrupt(&int_status::R { bits: 0b01 }, &int_enable::R { bits: 0b11 });
    assert!(a.wake_periph && !a.wake_vwire);
    assert_eq!(a.int_enable.unwrap().bits, 0b10);
    let a = InterruptHandler::<Espi0>::on_interrupt(&int_status::R { bits: 0b11 }, &int_enable::R { bits: 0b111 });
    assert!(a.wake_periph && a.wake_vwire);
    assert_eq!(a.int_enable.unwrap().bits, 0b100);
    let a = InterruptHandler::<Espi0>::on_interrupt(&int_status::R { bits: 0b100 }, &int_enable::R { bits: 0b11 });
    assert!(!a.wake_periph && !a.wake_vwire && a.int_enable.is_none());
}

#[test]
fn register_values() {
    let (s, e) = init();
    assert_eq!(s.bits, 0xffff_ffff);
    assert_eq!(e.bits, 0);
    assert_eq!(vwire_word(0x1234_5678).bits, 0x1234_5678);
    assert!(periph_pending(&int_status::R { bits: 1 }));
    assert!(!vwire_pending(&int_status::R { bits: 1 }));
    assert!(vwire_pending(&int_status::R { bits: 2 }));
    assert_eq!(clear_periph().bits, 1);
    assert_eq!(clear_vwire().bits, 2);
    assert_eq!(arm_periph(&int_enable::R { bits: 2 }).bits, 3);
    assert_eq!(arm_vwire(&int_enable::R { bits: 0 }).bits, 2);
    assert_eq!(release(1).unwrap().bits, 0);
    assert!(release(2).is_none());
}

#[test]
fn error_message() {
    assert_eq!(Error::OutOfBounds.message(), "Shared memory access out of bounds");
}

use embassy_qemu_riscv::espi::{poll_periph, poll_vwire, EspiPoll};

#[test]
fn wait_polls_clear_or_arm_their_channel() {
    assert_eq!(
        poll_vwire(&int_status::R { bits: 0b11 }, &int_enable::R { bits: 0 }),
        EspiPoll::Ready(int_status::W { bits: 0b10 })
    );
    assert_eq!(
        poll_vwire(&int_status::R { bits: 0b01 }, &int_enable::R { bits: 0b01 }),
        EspiPoll::Arm(int_enable::W { bits: 0b11 })
    );
    assert_eq!(
        poll_periph(&int_status::R { bits: 0b11 }, &int_enable::R { bits: 0 }),
        EspiPoll::Ready(int_status::W { bits: 0b01 })
    );
    assert_eq!(
        poll_periph(&int_status::R { bits: 0b10 }, &int_enable::R { bits: 0b10 }),
        EspiPoll::Arm(int_enable::W { bits: 0b11 })
    );
}
