use cpu::bus::{Bus, BusRead, BusWrite};
use cpu::lookup_table::{AddrMode, Operation};
use cpu::Cpu;

const C: u8 = 0x01;
const Z: u8 = 0x02;
const I: u8 = 0x04;
const D: u8 = 0x08;
const B: u8 = 0x10;
const U: u8 = 0x20;
const V: u8 = 0x40;
const N: u8 = 0x80;

/// A processor whose operand is `operand`, at address 0x0040.
fn with_operand(acc: u8, operand: u8, psr: u8) -> Cpu {
    let mut bus = Bus::new();
    bus.write(0x0040, operand);
    let mut cpu = Cpu::new(bus);
    cpu.acc = acc;
    cpu.psr = psr;
    cpu.addr_mode_name = AddrMode::ZP;
    cpu.addr_abs = 0x0040;
    cpu.sp = 0xFD;
    cpu
}

/// A processor whose operand is the accumulator.
fn on_accumulator(acc: u8, psr: u8) -> Cpu {
    let mut cpu = Cpu::new(Bus::new());
    cpu.acc = acc;
    cpu.psr = psr;
    cpu.addr_mode_name = AddrMode::ACC;
    Cpu::ACC(&mut cpu);
    cpu
}

#[test]
fn adc_sets_overflow_when_two_positives_give_a_negative() {
    let mut cpu = with_operand(0x50, 0x50, 0);
    assert_eq!(Cpu::ADC(&mut cpu), 0);
    assert_eq!(cpu.acc, 0xA0);
    assert_eq!(cpu.psr, N | V);
    assert_eq!(cpu.fetched, 0x50);
}

#[test]
fn adc_sets_carry_and_zero_on_wrap() {
    let mut cpu = with_operand(0xFF, 0x01, 0);
    Cpu::ADC(&mut cpu);
    assert_eq!(cpu.acc, 0x00);
    assert_eq!(cpu.psr, C | Z);
}

#[test]
fn adc_adds_the_carry() {
    let mut cpu = with_operand(0x01, 0x01, C);
    Cpu::ADC(&mut cpu);
    assert_eq!(cpu.acc, 0x03);
    assert_eq!(cpu.psr, 0);
}

#[test]
fn adc_sets_overflow_when_two_negatives_give_a_positive() {
    let mut cpu = with_operand(0x80, 0x80, 0);
    Cpu::ADC(&mut cpu);
    assert_eq!(cpu.acc, 0x00);
    assert_eq!(cpu.psr, C | Z | V);
}

#[test]
fn adc_keeps_the_other_flags() {
    let mut cpu = with_operand(0x10, 0x20, I | D | B | U | V | Z);
    Cpu::ADC(&mut cpu);
    assert_eq!(cpu.acc, 0x30);
    assert_eq!(cpu.psr, I | D | B | U);
}

#[test]
fn sbc_subtracts_without_borrow_when_carry_is_set() {
    let mut cpu = with_operand(0x50, 0x30, C);
    assert_eq!(Cpu::SBC(&mut cpu), 0);
    assert_eq!(cpu.acc, 0x20);
    assert_eq!(cpu.psr, C);
}

#[test]
fn sbc_borrows_when_carry_is_clear() {
    let mut cpu = with_operand(0x50, 0x30, 0);
    Cpu::SBC(&mut cpu);
    assert_eq!(cpu.acc, 0x1F);
    assert_eq!(cpu.psr, C);
}

#[test]
fn sbc_sets_overflow_when_the_sign_is_wrong() {
    let mut cpu = with_operand(0x50, 0xB0, C);
    Cpu::SBC(&mut cpu);
    assert_eq!(cpu.acc, 0xA0);
    assert_eq!(cpu.psr, N | V);
}

#[test]
fn sbc_below_zero_clears_carry() {
    let mut cpu = with_operand(0x00, 0x01, C);
    Cpu::SBC(&mut cpu);
    assert_eq!(cpu.acc, 0xFF);
    assert_eq!(cpu.psr, N);
}

#[test]
fn and_ora_eor_combine_bitwise() {
    let mut cpu = with_operand(0xF0, 0x3C, C);
    assert_eq!(Cpu::AND(&mut cpu), 0);
    assert_eq!(cpu.acc, 0x30);
    assert_eq!(cpu.psr, C);

    let mut cpu = with_operand(0xF0, 0x0F, 0);
    Cpu::AND(&mut cpu);
    assert_eq!(cpu.acc, 0x00);
    assert_eq!(cpu.psr, Z);

    let mut cpu = with_operand(0xF0, 0x0C, Z);
    assert_eq!(Cpu::ORA(&mut cpu), 0);
    assert_eq!(cpu.acc, 0xFC);
    assert_eq!(cpu.psr, N);

    let mut cpu = with_operand(0xFF, 0x0F, V);
    assert_eq!(Cpu::EOR(&mut cpu), 0);
    assert_eq!(cpu.acc, 0xF0);
    assert_eq!(cpu.psr, N | V);

    let mut cpu = with_operand(0x55, 0x55, N);
    Cpu::EOR(&mut cpu);
    assert_eq!(cpu.acc, 0x00);
    assert_eq!(cpu.psr, Z);
}

#[test]
fn asl_on_the_accumulator() {
    let mut cpu = on_accumulator(0x81, 0);
    assert_eq!(Cpu::ASL(&mut cpu), 0);
    assert_eq!(cpu.acc, 0x02);
    assert_eq!(cpu.psr, C);
}

#[test]
fn asl_on_an_implied_operand_writes_the_accumulator() {
    let mut cpu = Cpu::new(Bus::new());
    cpu.acc = 0x40;
    cpu.addr_mode_name = AddrMode::IMP;
    Cpu::IMP(&mut cpu);
    Cpu::ASL(&mut cpu);
    assert_eq!(cpu.acc, 0x80);
    assert_eq!(cpu.psr, N);
    assert_eq!(cpu.bus.read(0x0000, false), 0x00);
}

#[test]
fn asl_on_memory_leaves_the_accumulator() {
    let mut cpu = with_operand(0x11, 0x40, C);
    Cpu::ASL(&mut cpu);
    assert_eq!(cpu.bus.read(0x0040, false), 0x80);
    assert_eq!(cpu.acc, 0x11);
    assert_eq!(cpu.psr, N);
}

#[test]
fn asl_of_the_top_bit_alone_gives_zero() {
    let mut cpu = on_accumulator(0x80, 0);
    Cpu::ASL(&mut cpu);
    assert_eq!(cpu.acc, 0x00);
    assert_eq!(cpu.psr, C | Z);
}

#[test]
fn lsr_moves_bit_zero_to_carry() {
    let mut cpu = on_accumulator(0x01, N);
    assert_eq!(Cpu::LSR(&mut cpu), 0);
    assert_eq!(cpu.acc, 0x00);
    assert_eq!(cpu.psr, C | Z);

    let mut cpu = with_operand(0x11, 0xFE, C);
    Cpu::LSR(&mut cpu);
    assert_eq!(cpu.bus.read(0x0040, false), 0x7F);
    assert_eq!(cpu.acc, 0x11);
    assert_eq!(cpu.psr, 0);
}

#[test]
fn rol_rotates_through_carry() {
    let mut cpu = on_accumulator(0x80, C);
    assert_eq!(Cpu::ROL(&mut cpu), 0);
    assert_eq!(cpu.acc, 0x01);
    assert_eq!(cpu.psr, C);

    let mut cpu = with_operand(0x00, 0x40, 0);
    Cpu::ROL(&mut cpu);
    assert_eq!(cpu.bus.read(0x0040, false), 0x80);
    assert_eq!(cpu.psr, N);

    let mut cpu = on_accumulator(0x80, 0);
    Cpu::ROL(&mut cpu);
    assert_eq!(cpu.acc, 0x00);
    assert_eq!(cpu.psr, C | Z);
}

#[test]
fn ror_rotates_through_carry() {
    let mut cpu = on_accumulator(0x01, C);
    assert_eq!(Cpu::ROR(&mut cpu), 0);
    assert_eq!(cpu.acc, 0x80);
    assert_eq!(cpu.psr, C | N);

    let mut cpu = with_operand(0x00, 0x02, 0);
    Cpu::ROR(&mut cpu);
    assert_eq!(cpu.bus.read(0x0040, false), 0x01);
    assert_eq!(cpu.psr, 0);

    let mut cpu = on_accumulator(0x01, 0);
    Cpu::ROR(&mut cpu);
    assert_eq!(cpu.acc, 0x00);
    assert_eq!(cpu.psr, C | Z);
}

#[test]
fn bit_copies_the_top_bits_of_the_operand() {
    let mut cpu = with_operand(0x0F, 0xC0, C);
    assert_eq!(Cpu::BIT(&mut cpu), 0);
    assert_eq!(cpu.acc, 0x0F);
    assert_eq!(cpu.psr, C | Z | N | V);

    let mut cpu = with_operand(0xFF, 0x41, N | Z);
    Cpu::BIT(&mut cpu);
    assert_eq!(cpu.acc, 0xFF);
    assert_eq!(cpu.psr, V);

    let mut cpu = with_operand(0x01, 0x81, V);
    Cpu::BIT(&mut cpu);
    assert_eq!(cpu.psr, N);
}

#[test]
fn compare_orders_register_and_operand() {
    let mut cpu = with_operand(0x40, 0x40, 0);
    assert_eq!(Cpu::CMP(&mut cpu), 0);
    assert_eq!(cpu.psr, C | Z);
    assert_eq!(cpu.acc, 0x40);

    let mut cpu = with_operand(0x40, 0x41, C | Z);
    Cpu::CMP(&mut cpu);
    assert_eq!(cpu.psr, N);

    let mut cpu = with_operand(0x41, 0x40, N);
    Cpu::CMP(&mut cpu);
    assert_eq!(cpu.psr, C);

    let mut cpu = with_operand(0xFF, 0x01, 0);
    Cpu::CMP(&mut cpu);
    assert_eq!(cpu.psr, C | N);
}

#[test]
fn cpx_and_cpy_compare_the_index_registers() {
    let mut cpu = with_operand(0x00, 0x10, 0);
    cpu.x = 0x10;
    cpu.y = 0x0F;
    assert_eq!(Cpu::CPX(&mut cpu), 0);
    assert_eq!(cpu.psr, C | Z);
    assert_eq!(Cpu::CPY(&mut cpu), 0);
    assert_eq!(cpu.psr, N);
    assert_eq!((cpu.x, cpu.y, cpu.acc), (0x10, 0x0F, 0x00));
}

#[test]
fn inc_and_dec_wrap_in_memory() {
    let mut cpu = with_operand(0x11, 0xFF, C);
    assert_eq!(Cpu::INC(&mut cpu), 0);
    assert_eq!(cpu.bus.read(0x0040, false), 0x00);
    assert_eq!(cpu.psr, C | Z);
    assert_eq!(Cpu::DEC(&mut cpu), 0);
    assert_eq!(cpu.bus.read(0x0040, false), 0xFF);
    assert_eq!(cpu.psr, C | N);
    Cpu::DEC(&mut cpu);
    assert_eq!(cpu.bus.read(0x0040, false), 0xFE);
    assert_eq!(cpu.acc, 0x11);
}

#[test]
fn index_registers_wrap() {
    let mut cpu = Cpu::new(Bus::new());
    cpu.x = 0xFF;
    cpu.y = 0x00;
    assert_eq!(Cpu::INX(&mut cpu), 0);
    assert_eq!(cpu.x, 0x00);
    assert_eq!(cpu.psr, Z);
    assert_eq!(Cpu::DEY(&mut cpu), 0);
    assert_eq!(cpu.y, 0xFF);
    assert_eq!(cpu.psr, N);
    assert_eq!(Cpu::INY(&mut cpu), 0);
    assert_eq!(cpu.y, 0x00);
    assert_eq!(cpu.psr, Z);
    assert_eq!(Cpu::DEX(&mut cpu), 0);
    assert_eq!(cpu.x, 0xFF);
    assert_eq!(cpu.psr, N);
    cpu.x = 0x02;
    Cpu::DEX(&mut cpu);
    assert_eq!(cpu.x, 0x01);
    assert_eq!(cpu.psr, 0);
}

#[test]
fn loads_set_zero_and_negative() {
    let mut cpu = with_operand(0x11, 0x00, C | V);
    assert_eq!(Cpu::LDA(&mut cpu), 0);
    assert_eq!(cpu.acc, 0x00);
    assert_eq!(cpu.psr, C | V | Z);

    let mut cpu = with_operand(0x11, 0x80, Z);
    assert_eq!(Cpu::LDX(&mut cpu), 0);
    assert_eq!(cpu.x, 0x80);
    assert_eq!(cpu.acc, 0x11);
    assert_eq!(cpu.psr, N);

    let mut cpu = with_operand(0x11, 0x7F, N | Z);
    assert_eq!(Cpu::LDY(&mut cpu), 0);
    assert_eq!(cpu.y, 0x7F);
    assert_eq!(cpu.psr, 0);
}

#[test]
fn stores_set_no_flag() {
    let mut cpu = with_operand(0x00, 0x55, N);
    cpu.x = 0x80;
    cpu.y = 0x01;
    assert_eq!(Cpu::STA(&mut cpu), 0);
    assert_eq!(cpu.bus.read(0x0040, false), 0x00);
    assert_eq!(cpu.psr, N);
    assert_eq!(Cpu::STX(&mut cpu), 0);
    assert_eq!(cpu.bus.read(0x0040, false), 0x80);
    assert_eq!(cpu.psr, N);
    assert_eq!(Cpu::STY(&mut cpu), 0);
    assert_eq!(cpu.bus.read(0x0040, false), 0x01);
    assert_eq!(cpu.psr, N);
}

#[test]
fn transfers_copy_registers() {
    let mut cpu = Cpu::new(Bus::new());
    cpu.acc = 0x80;
    assert_eq!(Cpu::TAX(&mut cpu), 0);
    assert_eq!(cpu.x, 0x80);
    assert_eq!(cpu.psr, N);
    cpu.acc = 0x00;
    assert_eq!(Cpu::TAY(&mut cpu), 0);
    assert_eq!(cpu.y, 0x00);
    assert_eq!(cpu.psr, Z);
    cpu.sp = 0x7F;
    assert_eq!(Cpu::TSX(&mut cpu), 0);
    assert_eq!(cpu.x, 0x7F);
    assert_eq!(cpu.psr, 0);
    cpu.x = 0x90;
    assert_eq!(Cpu::TXA(&mut cpu), 0);
    assert_eq!(cpu.acc, 0x90);
    assert_eq!(cpu.psr, N);
    cpu.y = 0x00;
    assert_eq!(Cpu::TYA(&mut cpu), 0);
    assert_eq!(cpu.acc, 0x00);
    assert_eq!(cpu.psr, Z);
}

#[test]
fn txs_sets_no_flag() {
    let mut cpu = Cpu::new(Bus::new());
    cpu.x = 0x00;
    cpu.sp = 0x55;
    cpu.psr = N;
    assert_eq!(Cpu::TXS(&mut cpu), 0);
    assert_eq!(cpu.sp, 0x00);
    assert_eq!(cpu.psr, N);
}

#[test]
fn flag_instructions_change_one_flag() {
    let mut cpu = Cpu::new(Bus::new());
    cpu.psr = 0x00;
    assert_eq!(Cpu::SEC(&mut cpu), 0);
    assert_eq!(cpu.psr, C);
    assert_eq!(Cpu::SED(&mut cpu), 0);
    assert_eq!(cpu.psr, C | D);
    assert_eq!(Cpu::SEI(&mut cpu), 0);
    assert_eq!(cpu.psr, C | D | I);
    cpu.psr = 0xFF;
    assert_eq!(Cpu::CLC(&mut cpu), 0);
    assert_eq!(cpu.psr, 0xFE);
    assert_eq!(Cpu::CLD(&mut cpu), 0);
    assert_eq!(cpu.psr, 0xF6);
    assert_eq!(Cpu::CLI(&mut cpu), 0);
    assert_eq!(cpu.psr, 0xF2);
    assert_eq!(Cpu::CLV(&mut cpu), 0);
    assert_eq!(cpu.psr, 0xB2);
}

#[test]
fn pha_then_pla_restores_the_accumulator() {
    let mut cpu = Cpu::new(Bus::new());
    cpu.sp = 0xFD;
    cpu.acc = 0x9C;
    assert_eq!(Cpu::PHA(&mut cpu), 0);
    assert_eq!(cpu.sp, 0xFC);
    assert_eq!(cpu.bus.read(0x01FD, false), 0x9C);
    cpu.acc = 0x00;
    assert_eq!(Cpu::PLA(&mut cpu), 0);
    assert_eq!(cpu.acc, 0x9C);
    assert_eq!(cpu.sp, 0xFD);
    assert_eq!(cpu.psr, N);
}

#[test]
fn pla_of_zero_sets_zero() {
    let mut cpu = Cpu::new(Bus::new());
    cpu.sp = 0x10;
    cpu.acc = 0x33;
    cpu.psr = N;
    Cpu::PLA(&mut cpu);
    assert_eq!(cpu.acc, 0x00);
    assert_eq!(cpu.sp, 0x11);
    assert_eq!(cpu.psr, Z);
}

#[test]
fn stack_pointer_wraps_within_the_stack_page() {
    let mut cpu = Cpu::new(Bus::new());
    cpu.sp = 0x00;
    cpu.acc = 0x42;
    Cpu::PHA(&mut cpu);
    assert_eq!(cpu.sp, 0xFF);
    assert_eq!(cpu.bus.read(0x0100, false), 0x42);
    cpu.acc = 0x00;
    Cpu::PLA(&mut cpu);
    assert_eq!(cpu.sp, 0x00);
    assert_eq!(cpu.acc, 0x42);
}

#[test]
fn php_then_plp_restores_the_status_with_break_and_unused() {
    let mut cpu = Cpu::new(Bus::new());
    cpu.sp = 0xFD;
    cpu.psr = C | N;
    assert_eq!(Cpu::PHP(&mut cpu), 0);
    assert_eq!(cpu.psr, C | N);
    assert_eq!(cpu.sp, 0xFC);
    assert_eq!(cpu.bus.read(0x01FD, false), C | N | B | U);
    cpu.psr = 0x00;
    assert_eq!(Cpu::PLP(&mut cpu), 0);
    assert_eq!(cpu.psr, C | N | B | U);
    assert_eq!(cpu.sp, 0xFD);
}

#[test]
fn plp_forces_unused() {
    let mut cpu = Cpu::new(Bus::new());
    cpu.sp = 0x7F;
    cpu.bus.write(0x0180, Z | V);
    Cpu::PLP(&mut cpu);
    assert_eq!(cpu.psr, Z | V | U);
    assert_eq!(cpu.sp, 0x80);
}

#[test]
fn jmp_loads_the_program_counter() {
    let mut cpu = Cpu::new(Bus::new());
    cpu.addr_abs = 0xC000;
    cpu.pc = 0x8003;
    cpu.psr = 0xFF;
    assert_eq!(Cpu::JMP(&mut cpu), 0);
    assert_eq!(cpu.pc, 0xC000);
    assert_eq!(cpu.psr, 0xFF);
}

#[test]
fn jsr_then_rts_returns_behind_the_call() {
    let mut cpu = Cpu::new(Bus::new());
    cpu.sp = 0xFD;
    cpu.pc = 0x8003;
    cpu.addr_abs = 0x9000;
    assert_eq!(Cpu::JSR(&mut cpu), 0);
    assert_eq!(cpu.pc, 0x9000);
    assert_eq!(cpu.sp, 0xFB);
    assert_eq!(cpu.bus.read(0x01FD, false), 0x80);
    assert_eq!(cpu.bus.read(0x01FC, false), 0x02);
    assert_eq!(Cpu::RTS(&mut cpu), 0);
    assert_eq!(cpu.pc, 0x8003);
    assert_eq!(cpu.sp, 0xFD);
}

#[test]
fn brk_pushes_and_jumps_through_the_vector() {
    let mut cpu = Cpu::new(Bus::new());
    cpu.bus.write(0xFFFE, 0x00);
    cpu.bus.write(0xFFFF, 0x90);
    cpu.sp = 0xFD;
    cpu.pc = 0x8001;
    cpu.psr = U | C;
    assert_eq!(Cpu::BRK(&mut cpu), 0);
    assert_eq!(cpu.pc, 0x9000);
    assert_eq!(cpu.sp, 0xFA);
    assert_eq!(cpu.bus.read(0x01FD, false), 0x80);
    assert_eq!(cpu.bus.read(0x01FC, false), 0x02);
    assert_eq!(cpu.bus.read(0x01FB, false), U | C | I | B);
    assert_eq!(cpu.psr, U | C | I);
}

#[test]
fn rti_restores_status_and_program_counter() {
    let mut cpu = Cpu::new(Bus::new());
    cpu.bus.write(0x01FB, U | C | I | B);
    cpu.bus.write(0x01FC, 0x02);
    cpu.bus.write(0x01FD, 0x80);
    cpu.sp = 0xFA;
    cpu.psr = N;
    assert_eq!(Cpu::RTI(&mut cpu), 0);
    assert_eq!(cpu.psr, C | I);
    assert_eq!(cpu.pc, 0x8002);
    assert_eq!(cpu.sp, 0xFD);
}

fn branch_case(run: fn(&mut Cpu) -> u8, psr: u8, taken: bool) {
    let mut cpu = Cpu::new(Bus::new());
    cpu.pc = 0x8016;
    cpu.addr_rel = 0xFFFA;
    cpu.psr = psr;
    let extra = run(&mut cpu);
    if taken {
        assert_eq!(extra, 1);
        assert_eq!(cpu.pc, 0x8010);
        assert_eq!(cpu.addr_abs, 0x8010);
    } else {
        assert_eq!(extra, 0);
        assert_eq!(cpu.pc, 0x8016);
    }
    assert_eq!(cpu.psr, psr);
}

#[test]
fn branches_test_their_flag() {
    branch_case(Cpu::BCC, 0, true);
    branch_case(Cpu::BCC, C, false);
    branch_case(Cpu::BCS, C, true);
    branch_case(Cpu::BCS, 0xFE, false);
    branch_case(Cpu::BEQ, Z, true);
    branch_case(Cpu::BEQ, 0xFD, false);
    branch_case(Cpu::BNE, 0, true);
    branch_case(Cpu::BNE, Z, false);
    branch_case(Cpu::BMI, N, true);
    branch_case(Cpu::BMI, 0x7F, false);
    branch_case(Cpu::BPL, 0, true);
    branch_case(Cpu::BPL, N, false);
    branch_case(Cpu::BVC, 0, true);
    branch_case(Cpu::BVC, V, false);
    branch_case(Cpu::BVS, V, true);
    branch_case(Cpu::BVS, 0xBF, false);
}

#[test]
fn branch_to_another_page_owes_two_cycles() {
    let mut cpu = Cpu::new(Bus::new());
    cpu.pc = 0x8001;
    cpu.addr_rel = 0xFFFA;
    assert_eq!(Cpu::BNE(&mut cpu), 2);
    assert_eq!(cpu.pc, 0x7FFB);

    let mut cpu = Cpu::new(Bus::new());
    cpu.pc = 0x80F0;
    cpu.addr_rel = 0x0020;
    assert_eq!(Cpu::BCC(&mut cpu), 2);
    assert_eq!(cpu.pc, 0x8110);

    let mut cpu = Cpu::new(Bus::new());
    cpu.pc = 0x80F0;
    cpu.addr_rel = 0x000F;
    assert_eq!(Cpu::BCC(&mut cpu), 1);
    assert_eq!(cpu.pc, 0x80FF);
}

#[test]
fn branch_wraps_at_the_end_of_memory() {
    let mut cpu = Cpu::new(Bus::new());
    cpu.pc = 0xFFF0;
    cpu.addr_rel = 0x0020;
    assert_eq!(Cpu::BPL(&mut cpu), 2);
    assert_eq!(cpu.pc, 0x0010);
}

#[test]
fn nop_owes_a_cycle_for_six_opcodes() {
    let mut cpu = Cpu::new(Bus::new());
    cpu.psr = 0xA5;
    cpu.acc = 7;
    for opcode in 0..=255u8 {
        cpu.opcode = opcode;
        let slow = matches!(opcode, 0x1C | 0x3C | 0x5C | 0x7C | 0xDC | 0xFC);
        assert_eq!(Cpu::NOP(&mut cpu), if slow { 1 } else { 0 });
    }
    assert_eq!(cpu.psr, 0xA5);
    assert_eq!(cpu.acc, 7);
}

#[test]
fn undefined_operation_changes_nothing() {
    let mut cpu = with_operand(0x12, 0x34, 0xA5);
    cpu.x = 1;
    cpu.y = 2;
    cpu.pc = 0x8000;
    assert_eq!(Cpu::XXX(&mut cpu), 0);
    assert_eq!((cpu.acc, cpu.x, cpu.y, cpu.sp, cpu.pc, cpu.psr), (0x12, 1, 2, 0xFD, 0x8000, 0xA5));
    assert_eq!(cpu.bus.read(0x0040, false), 0x34);
}

#[test]
fn fetch_reads_memory_unless_the_operand_is_the_accumulator() {
    let mut cpu = with_operand(0x12, 0x34, 0);
    cpu.fetched = 0x99;
    assert_eq!(cpu.fetch(), 0x34);
    assert_eq!(cpu.fetched, 0x34);
    cpu.addr_mode_name = AddrMode::IMP;
    cpu.fetched = 0x99;
    assert_eq!(cpu.fetch(), 0x99);
    cpu.addr_mode_name = AddrMode::ACC;
    assert_eq!(cpu.fetch(), 0x99);
}

#[test]
fn execute_dispatches_on_the_operation() {
    let mut cpu = with_operand(0x50, 0x50, 0);
    assert_eq!(Cpu::execute(&mut cpu, Operation::ADC), 0);
    assert_eq!(cpu.acc, 0xA0);
    assert_eq!(Cpu::execute(&mut cpu, Operation::TAX), 0);
    assert_eq!(cpu.x, 0xA0);
    cpu.pc = 0x8016;
    cpu.addr_rel = 0xFFFA;
    assert_eq!(Cpu::execute(&mut cpu, Operation::BMI), 1);
    assert_eq!(cpu.pc, 0x8010);
    assert_eq!(Cpu::execute(&mut cpu, Operation::XXX), 0);
}

#[test]
fn resolve_dispatches_on_the_mode() {
    let mut cpu = with_operand(0, 0, 0);
    cpu.bus.write(0x8001, 0xFF);
    cpu.bus.write(0x8002, 0x20);
    cpu.pc = 0x8001;
    cpu.x = 1;
    assert_eq!(Cpu::resolve(&mut cpu, AddrMode::ABSX), 1);
    assert_eq!(cpu.addr_abs, 0x2100);
    cpu.pc = 0x8001;
    assert_eq!(Cpu::resolve(&mut cpu, AddrMode::ZP), 0);
    assert_eq!(cpu.addr_abs, 0x00FF);
    assert_eq!(Cpu::resolve(&mut cpu, AddrMode::XXX), 0);
    assert_eq!(cpu.pc, 0x8002);
}

#[test]
fn flags_outside_the_affected_ones_survive_every_operation() {
    let runs: [(fn(&mut Cpu) -> u8, u8); 20] = [
        (Cpu::ADC, C | Z | N | V),
        (Cpu::SBC, C | Z | N | V),
        (Cpu::AND, Z | N),
        (Cpu::ORA, Z | N),
        (Cpu::EOR, Z | N),
        (Cpu::ASL, C | Z | N),
        (Cpu::LSR, C | Z | N),
        (Cpu::ROL, C | Z | N),
        (Cpu::ROR, C | Z | N),
        (Cpu::BIT, Z | N | V),
        (Cpu::CMP, C | Z | N),
        (Cpu::LDA, Z | N),
        (Cpu::INC, Z | N),
        (Cpu::DEX, Z | N),
        (Cpu::STA, 0),
        (Cpu::PHA, 0),
        (Cpu::PHP, 0),
        (Cpu::JSR, 0),
        (Cpu::NOP, 0),
        (Cpu::TXS, 0),
    ];
    for (run, affected) in runs {
        for psr in [0x00u8, 0xFF, 0xA5, 0x5A] {
            for operand in [0x00u8, 0x01, 0x7F, 0x80, 0xFF] {
                let mut cpu = with_operand(0x81, operand, psr);
                run(&mut cpu);
                assert_eq!(cpu.psr & !affected, psr & !affected);
            }
        }
    }
}
