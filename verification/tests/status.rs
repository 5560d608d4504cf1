use cpu::bus::Bus;
use cpu::{Cpu, FLAGS};

#[test]
fn flag_masks_are_single_bits() {
    assert_eq!(FLAGS::c(), 0x01);
    assert_eq!(FLAGS::z(), 0x02);
    assert_eq!(FLAGS::i(), 0x04);
    assert_eq!(FLAGS::d(), 0x08);
    assert_eq!(FLAGS::b(), 0x10);
    assert_eq!(FLAGS::u(), 0x20);
    assert_eq!(FLAGS::v(), 0x40);
    assert_eq!(FLAGS::n(), 0x80);
}

#[test]
fn match_flags_returns_the_mask() {
    assert_eq!(FLAGS::match_flags(FLAGS::C(0x01)), 0x01);
    assert_eq!(FLAGS::match_flags(FLAGS::N(0x80)), 0x80);
    assert_eq!(FLAGS::match_flags(FLAGS::V(0x40)), 0x40);
    assert_eq!(FLAGS::match_flags(FLAGS::U(0x20)), 0x20);
}

#[test]
fn setting_a_flag_ors_the_mask_in() {
    let mut cpu = Cpu::new(Bus::new());
    cpu.psr = 0b0100_0001;
    cpu.set_flag(FLAGS::n(), true);
    assert_eq!(cpu.psr, 0b1100_0001);
    cpu.set_flag(FLAGS::n(), true);
    assert_eq!(cpu.psr, 0b1100_0001);
}

#[test]
fn clearing_a_flag_touches_no_other_bit() {
    let mut cpu = Cpu::new(Bus::new());
    cpu.psr = 0xFF;
    cpu.set_flag(FLAGS::z(), false);
    assert_eq!(cpu.psr, 0xFD);
    cpu.set_flag(FLAGS::z(), false);
    assert_eq!(cpu.psr, 0xFD);
    cpu.set_flag(FLAGS::c(), false);
    assert_eq!(cpu.psr, 0xFC);
}

#[test]
fn get_flag_is_one_or_zero() {
    let mut cpu = Cpu::new(Bus::new());
    cpu.psr = 0x82;
    assert_eq!(cpu.get_flag(FLAGS::n()), 1);
    assert_eq!(cpu.get_flag(FLAGS::z()), 1);
    assert_eq!(cpu.get_flag(FLAGS::c()), 0);
    assert_eq!(cpu.get_flag(FLAGS::v()), 0);
}

#[test]
fn new_processor_is_zeroed() {
    let cpu = Cpu::new(Bus::new());
    assert_eq!(cpu.acc, 0);
    assert_eq!(cpu.x, 0);
    assert_eq!(cpu.y, 0);
    assert_eq!(cpu.sp, 0);
    assert_eq!(cpu.pc, 0);
    assert_eq!(cpu.psr, 0);
    assert_eq!(cpu.cycles, 0);
    assert!(cpu.complete());
}
