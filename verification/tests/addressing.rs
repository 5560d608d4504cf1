use cpu::bus::{Bus, BusWrite};
use cpu::Cpu;

fn cpu_with(bytes: &[(u16, u8)]) -> Cpu {
    let mut bus = Bus::new();
    for (addr, value) in bytes {
        bus.write(*addr, *value);
    }
    Cpu::new(bus)
}

#[test]
fn implied_latches_the_accumulator() {
    let mut cpu = cpu_with(&[]);
    cpu.acc = 0x77;
    cpu.pc = 0x8001;
    assert_eq!(Cpu::IMP(&mut cpu), 0);
    assert_eq!(cpu.fetched, 0x77);
    assert_eq!(cpu.pc, 0x8001);
}

#[test]
fn accumulator_latches_the_accumulator() {
    let mut cpu = cpu_with(&[]);
    cpu.acc = 0x12;
    cpu.pc = 0x8001;
    assert_eq!(Cpu::ACC(&mut cpu), 0);
    assert_eq!(cpu.fetched, 0x12);
    assert_eq!(cpu.pc, 0x8001);
}

#[test]
fn immediate_points_at_the_next_byte() {
    let mut cpu = cpu_with(&[(0x8001, 0x0A)]);
    cpu.pc = 0x8001;
    assert_eq!(Cpu::IMM(&mut cpu), 0);
    assert_eq!(cpu.addr_abs, 0x8001);
    assert_eq!(cpu.pc, 0x8002);
}

#[test]
fn immediate_wraps_at_the_end_of_memory() {
    let mut cpu = cpu_with(&[]);
    cpu.pc = 0xFFFF;
    assert_eq!(Cpu::IMM(&mut cpu), 0);
    assert_eq!(cpu.addr_abs, 0xFFFF);
    assert_eq!(cpu.pc, 0x0000);
}

#[test]
fn zero_page_reads_one_byte() {
    let mut cpu = cpu_with(&[(0x8001, 0x42)]);
    cpu.pc = 0x8001;
    cpu.x = 0x10;
    cpu.y = 0x20;
    assert_eq!(Cpu::ZP(&mut cpu), 0);
    assert_eq!(cpu.addr_abs, 0x0042);
    assert_eq!(cpu.pc, 0x8002);
}

#[test]
fn zero_page_x_wraps_within_the_page() {
    let mut cpu = cpu_with(&[(0x8001, 0xF0)]);
    cpu.pc = 0x8001;
    cpu.x = 0x20;
    assert_eq!(Cpu::ZPX(&mut cpu), 0);
    assert_eq!(cpu.addr_abs, 0x0010);
    assert_eq!(cpu.pc, 0x8002);
}

#[test]
fn zero_page_y_adds_the_index() {
    let mut cpu = cpu_with(&[(0x8001, 0x40)]);
    cpu.pc = 0x8001;
    cpu.y = 0x05;
    cpu.x = 0x50;
    assert_eq!(Cpu::ZPY(&mut cpu), 0);
    assert_eq!(cpu.addr_abs, 0x0045);
    assert_eq!(cpu.pc, 0x8002);
}

#[test]
fn absolute_reads_low_byte_first() {
    let mut cpu = cpu_with(&[(0x8001, 0x34), (0x8002, 0x12)]);
    cpu.pc = 0x8001;
    assert_eq!(Cpu::ABS(&mut cpu), 0);
    assert_eq!(cpu.addr_abs, 0x1234);
    assert_eq!(cpu.pc, 0x8003);
}

#[test]
fn absolute_x_within_a_page_owes_nothing() {
    let mut cpu = cpu_with(&[(0x8001, 0x00), (0x8002, 0x20)]);
    cpu.pc = 0x8001;
    cpu.x = 0xFF;
    assert_eq!(Cpu::ABSX(&mut cpu), 0);
    assert_eq!(cpu.addr_abs, 0x20FF);
    assert_eq!(cpu.pc, 0x8003);
}

#[test]
fn absolute_x_across_a_page_owes_one_cycle() {
    let mut cpu = cpu_with(&[(0x8001, 0xFF), (0x8002, 0x20)]);
    cpu.pc = 0x8001;
    cpu.x = 0x01;
    assert_eq!(Cpu::ABSX(&mut cpu), 1);
    assert_eq!(cpu.addr_abs, 0x2100);
    assert_eq!(cpu.pc, 0x8003);
}

#[test]
fn absolute_y_across_a_page_owes_one_cycle() {
    let mut cpu = cpu_with(&[(0x8001, 0x80), (0x8002, 0x30)]);
    cpu.pc = 0x8001;
    cpu.y = 0x80;
    cpu.x = 0x00;
    assert_eq!(Cpu::ABSY(&mut cpu), 1);
    assert_eq!(cpu.addr_abs, 0x3100);
    cpu.pc = 0x8001;
    cpu.y = 0x7F;
    assert_eq!(Cpu::ABSY(&mut cpu), 0);
    assert_eq!(cpu.addr_abs, 0x30FF);
}

#[test]
fn absolute_x_wraps_at_the_end_of_memory() {
    let mut cpu = cpu_with(&[(0x8001, 0xFF), (0x8002, 0xFF)]);
    cpu.pc = 0x8001;
    cpu.x = 0x02;
    assert_eq!(Cpu::ABSX(&mut cpu), 1);
    assert_eq!(cpu.addr_abs, 0x0001);
}

#[test]
fn relative_extends_the_sign() {
    let mut cpu = cpu_with(&[(0x8001, 0xFA), (0x8002, 0x05), (0x8003, 0x80), (0x8004, 0x7F)]);
    cpu.pc = 0x8001;
    assert_eq!(Cpu::REL(&mut cpu), 0);
    assert_eq!(cpu.addr_rel, 0xFFFA);
    assert_eq!(cpu.pc, 0x8002);
    assert_eq!(Cpu::REL(&mut cpu), 0);
    assert_eq!(cpu.addr_rel, 0x0005);
    assert_eq!(Cpu::REL(&mut cpu), 0);
    assert_eq!(cpu.addr_rel, 0xFF80);
    assert_eq!(Cpu::REL(&mut cpu), 0);
    assert_eq!(cpu.addr_rel, 0x007F);
    assert_eq!(cpu.pc, 0x8005);
}

#[test]
fn indexed_indirect_adds_x_before_reading_the_pointer() {
    let mut cpu = cpu_with(&[(0x8001, 0x20), (0x0024, 0x74), (0x0025, 0x20)]);
    cpu.pc = 0x8001;
    cpu.x = 0x04;
    assert_eq!(Cpu::INDX(&mut cpu), 0);
    assert_eq!(cpu.addr_abs, 0x2074);
    assert_eq!(cpu.pc, 0x8002);
}

#[test]
fn indexed_indirect_wraps_within_the_zero_page() {
    let mut cpu = cpu_with(&[(0x8001, 0xFE), (0x00FF, 0x34), (0x0000, 0x12), (0x0100, 0x99)]);
    cpu.pc = 0x8001;
    cpu.x = 0x01;
    assert_eq!(Cpu::INDX(&mut cpu), 0);
    assert_eq!(cpu.addr_abs, 0x1234);
    let mut cpu = cpu_with(&[(0x8001, 0xFF), (0x0004, 0x78), (0x0005, 0x56)]);
    cpu.pc = 0x8001;
    cpu.x = 0x05;
    assert_eq!(Cpu::INDX(&mut cpu), 0);
    assert_eq!(cpu.addr_abs, 0x5678);
}

#[test]
fn indirect_indexed_adds_y_after_reading_the_pointer() {
    let mut cpu = cpu_with(&[(0x8001, 0x86), (0x0086, 0x28), (0x0087, 0x40)]);
    cpu.pc = 0x8001;
    cpu.y = 0x10;
    assert_eq!(Cpu::INDY(&mut cpu), 0);
    assert_eq!(cpu.addr_abs, 0x4038);
    assert_eq!(cpu.pc, 0x8002);
}

#[test]
fn indirect_indexed_across_a_page_owes_one_cycle() {
    let mut cpu = cpu_with(&[(0x8001, 0x86), (0x0086, 0xF0), (0x0087, 0x40)]);
    cpu.pc = 0x8001;
    cpu.y = 0x10;
    assert_eq!(Cpu::INDY(&mut cpu), 1);
    assert_eq!(cpu.addr_abs, 0x4100);
}

#[test]
fn indirect_indexed_pointer_wraps_within_the_zero_page() {
    let mut cpu = cpu_with(&[(0x8001, 0xFF), (0x00FF, 0x00), (0x0000, 0x30), (0x0100, 0x77)]);
    cpu.pc = 0x8001;
    cpu.y = 0x01;
    assert_eq!(Cpu::INDY(&mut cpu), 0);
    assert_eq!(cpu.addr_abs, 0x3001);
}

#[test]
fn absolute_indirect_reads_the_pointer() {
    let mut cpu =
        cpu_with(&[(0x8001, 0x20), (0x8002, 0x01), (0x0120, 0xFC), (0x0121, 0xBA)]);
    cpu.pc = 0x8001;
    assert_eq!(Cpu::ABSIND(&mut cpu), 0);
    assert_eq!(cpu.addr_abs, 0xBAFC);
    assert_eq!(cpu.pc, 0x8003);
}

#[test]
fn absolute_indirect_does_not_cross_the_page() {
    let mut cpu = cpu_with(&[
        (0x8001, 0xFF),
        (0x8002, 0x02),
        (0x02FF, 0x34),
        (0x0200, 0x12),
        (0x0300, 0x99),
    ]);
    cpu.pc = 0x8001;
    assert_eq!(Cpu::ABSIND(&mut cpu), 0);
    assert_eq!(cpu.addr_abs, 0x1234);
    assert_eq!(cpu.pc, 0x8003);
}

#[test]
fn resolvers_leave_registers_and_flags_alone() {
    let mut cpu = cpu_with(&[(0x8001, 0xFF), (0x8002, 0x20)]);
    cpu.pc = 0x8001;
    cpu.acc = 1;
    cpu.x = 2;
    cpu.y = 3;
    cpu.sp = 4;
    cpu.psr = 0xA5;
    Cpu::ABSX(&mut cpu);
    assert_eq!((cpu.acc, cpu.x, cpu.y, cpu.sp, cpu.psr), (1, 2, 3, 4, 0xA5));
}
