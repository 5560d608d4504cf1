//! The operations of the instruction set. Each runs on the state that the
//! addressing-mode resolver left and returns the extra cycles it owes.

use crate::bits::{
    add16, add8, complement, high_byte, is_negative, is_odd, lemma_clear_after_set, low_byte,
    make_word, shift_left, shift_right, sign_bits_overflow, sub16, sub8,
};
use crate::flags::{
    BREAK, CARRY, DECIMAL, FLAGS, IRQ_DISABLE, NEGATIVE, OVERFLOW, UNUSED, ZERO,
};
use crate::lookup_table::Operation;
use crate::machine::{bit, is_slow_nop, wrap8, Machine};
use crate::Cpu;
use vstd::prelude::*;

verus! {

impl Cpu {
    /// Adds `value` and Carry to the accumulator and sets Carry, Zero,
    /// Negative and Overflow from the sum.
    pub(crate) fn add_with_carry(&mut self, value: u8)
        ensures
            final(self)@ == old(self)@.add_with_carry(value),
    {
        let sum: u16 = self.acc as u16 + value as u16 + self.get_flag(FLAGS::c()) as u16;
        let result = low_byte(sum);
        let overflow = sign_bits_overflow(self.acc, value, result);
        self.set_flag(FLAGS::c(), sum > 255);
        self.set_zn(result);
        self.set_flag(FLAGS::v(), overflow);
        self.acc = result;
    }

    /// Loads `value` into the accumulator and takes Zero and Negative from it.
    pub(crate) fn load_acc(&mut self, value: u8)
        ensures
            final(self)@ == old(self)@.load_acc(value),
    {
        self.acc = value;
        self.set_zn(value);
    }

    /// Loads `value` into X and takes Zero and Negative from it.
    pub(crate) fn load_x(&mut self, value: u8)
        ensures
            final(self)@ == old(self)@.load_x(value),
    {
        self.x = value;
        self.set_zn(value);
    }

    /// Loads `value` into Y and takes Zero and Negative from it.
    pub(crate) fn load_y(&mut self, value: u8)
        ensures
            final(self)@ == old(self)@.load_y(value),
    {
        self.y = value;
        self.set_zn(value);
    }

    /// Finishes a shift or rotate that produced `result` and moved
    /// `carry_out` out of the operand.
    pub(crate) fn shifted(&mut self, result: u8, carry_out: bool)
        ensures
            final(self)@ == old(self)@.shifted(result, carry_out),
    {
        self.set_flag(FLAGS::c(), carry_out);
        self.set_zn(result);
        self.write_back(result);
    }

    /// Replaces the byte at the effective address by `result` and takes Zero
    /// and Negative from it.
    pub(crate) fn store_result(&mut self, result: u8)
        ensures
            final(self)@ == old(self)@.store_result(result),
    {
        self.write(self.addr_abs, result);
        self.set_zn(result);
    }

    /// Compares `register` with the operand.
    pub(crate) fn compare(&mut self, register: u8)
        ensures
            final(self)@ == old(self)@.compare(register),
    {
        let m = self.fetch();
        self.set_flag(FLAGS::z(), register == m);
        self.set_flag(FLAGS::c(), register >= m);
        self.set_flag(FLAGS::n(), is_negative(sub8(register, m)));
    }

    /// Takes a branch or not, and returns the extra cycles it owes.
    pub(crate) fn branch(&mut self, taken: bool) -> (extra: u8)
        ensures
            final(self)@ == old(self)@.branch(taken),
            extra == old(self)@.branch_bonus(taken),
    {
        if taken {
            let target = add16(self.pc, self.addr_rel);
            let extra: u8 = if high_byte(target) != high_byte(self.pc) {
                2
            } else {
                1
            };
            self.addr_abs = target;
            self.pc = target;
            extra
        } else {
            0x00
        }
    }

    /// Add with carry: the accumulator becomes accumulator plus operand plus
    /// Carry, modulo 256. Carry is set by a sum above 255, Overflow by a signed
    /// result of the wrong sign, Zero and Negative from the result.
    pub fn ADC(cpu: &mut Cpu) -> (extra: u8)
        ensures
            final(cpu)@ == old(cpu)@.adc(),
            extra == 0,
    {
        let m = cpu.fetch();
        cpu.add_with_carry(m);
        0x00
    }

    /// The accumulator is ANDed with the operand; Zero and Negative are taken
    /// from the result.
    pub fn AND(cpu: &mut Cpu) -> (extra: u8)
        ensures
            final(cpu)@ == old(cpu)@.and(),
            extra == 0,
    {
        let m = cpu.fetch();
        cpu.load_acc(cpu.acc & m);
        0x00
    }

    /// Shift left by one bit, in the accumulator or in memory: bit 7 goes to
    /// Carry; Zero and Negative are taken from the result.
    pub fn ASL(cpu: &mut Cpu) -> (extra: u8)
        ensures
            final(cpu)@ == old(cpu)@.asl(),
            extra == 0,
    {
        let m = cpu.fetch();
        cpu.shifted(shift_left(m, 0), is_negative(m));
        0x00
    }

    /// Branch when Carry is clear. A branch that is taken owes one extra cycle,
    /// and a second one when its target lies on another page.
    pub fn BCC(cpu: &mut Cpu) -> (extra: u8)
        ensures
            final(cpu)@ == old(cpu)@.branch(!old(cpu)@.flag(CARRY)),
            extra == old(cpu)@.branch_bonus(!old(cpu)@.flag(CARRY)),
    {
        let taken = cpu.get_flag(FLAGS::c()) == 0;
        cpu.branch(taken)
    }

    /// Branch when Carry is set. A branch that is taken owes one extra cycle,
    /// and a second one when its target lies on another page.
    pub fn BCS(cpu: &mut Cpu) -> (extra: u8)
        ensures
            final(cpu)@ == old(cpu)@.branch(old(cpu)@.flag(CARRY)),
            extra == old(cpu)@.branch_bonus(old(cpu)@.flag(CARRY)),
    {
        let taken = cpu.get_flag(FLAGS::c()) == 1;
        cpu.branch(taken)
    }

    /// Branch when Zero is set. A branch that is taken owes one extra cycle,
    /// and a second one when its target lies on another page.
    pub fn BEQ(cpu: &mut Cpu) -> (extra: u8)
        ensures
            final(cpu)@ == old(cpu)@.branch(old(cpu)@.flag(ZERO)),
            extra == old(cpu)@.branch_bonus(old(cpu)@.flag(ZERO)),
    {
        let taken = cpu.get_flag(FLAGS::z()) == 1;
        cpu.branch(taken)
    }

    /// Bit test: Zero tells whether accumulator and operand share no bit;
    /// Negative and Overflow are bits 7 and 6 of the operand. The accumulator
    /// is left alone.
    pub fn BIT(cpu: &mut Cpu) -> (extra: u8)
        ensures
            final(cpu)@ == old(cpu)@.bit_test(),
            extra == 0,
    {
        let m = cpu.fetch();
        cpu.set_flag(FLAGS::z(), cpu.acc & m == 0);
        cpu.set_flag(FLAGS::n(), m & FLAGS::n() != 0);
        cpu.set_flag(FLAGS::v(), m & FLAGS::v() != 0);
        0x00
    }

    /// Branch when Negative is set. A branch that is taken owes one extra
    /// cycle, and a second one when its target lies on another page.
    pub fn BMI(cpu: &mut Cpu) -> (extra: u8)
        ensures
            final(cpu)@ == old(cpu)@.branch(old(cpu)@.flag(NEGATIVE)),
            extra == old(cpu)@.branch_bonus(old(cpu)@.flag(NEGATIVE)),
    {
        let taken = cpu.get_flag(FLAGS::n()) == 1;
        cpu.branch(taken)
    }

    /// Branch when Zero is clear. A branch that is taken owes one extra cycle,
    /// and a second one when its target lies on another page.
    pub fn BNE(cpu: &mut Cpu) -> (extra: u8)
        ensures
            final(cpu)@ == old(cpu)@.branch(!old(cpu)@.flag(ZERO)),
            extra == old(cpu)@.branch_bonus(!old(cpu)@.flag(ZERO)),
    {
        let taken = cpu.get_flag(FLAGS::z()) == 0;
        cpu.branch(taken)
    }

    /// Branch when Negative is clear. A branch that is taken owes one extra
    /// cycle, and a second one when its target lies on another page.
    pub fn BPL(cpu: &mut Cpu) -> (extra: u8)
        ensures
            final(cpu)@ == old(cpu)@.branch(!old(cpu)@.flag(NEGATIVE)),
            extra == old(cpu)@.branch_bonus(!old(cpu)@.flag(NEGATIVE)),
    {
        let taken = cpu.get_flag(FLAGS::n()) == 0;
        cpu.branch(taken)
    }

    /// Software interrupt: skips the padding byte, disables interrupts, pushes
    /// the program counter (high byte first) and the status with Break set, and
    /// continues at the address in the interrupt vector with Break clear.
    pub fn BRK(cpu: &mut Cpu) -> (extra: u8)
        ensures
            final(cpu)@ == old(cpu)@.brk(),
            extra == 0,
    {
        cpu.pc = add16(cpu.pc, 1);
        cpu.set_flag(FLAGS::i(), true);
        cpu.push(high_byte(cpu.pc));
        cpu.push(low_byte(cpu.pc));
        proof {
            lemma_clear_after_set(cpu.psr, BREAK);
        }
        cpu.set_flag(FLAGS::b(), true);
        cpu.push(cpu.psr);
        cpu.set_flag(FLAGS::b(), false);
        cpu.pc = cpu.read_word(0xFFFE);
        0x00
    }

    /// Branch when Overflow is clear. A branch that is taken owes one extra
    /// cycle, and a second one when its target lies on another page.
    pub fn BVC(cpu: &mut Cpu) -> (extra: u8)
        ensures
            final(cpu)@ == old(cpu)@.branch(!old(cpu)@.flag(OVERFLOW)),
            extra == old(cpu)@.branch_bonus(!old(cpu)@.flag(OVERFLOW)),
    {
        let taken = cpu.get_flag(FLAGS::v()) == 0;
        cpu.branch(taken)
    }

    /// Branch when Overflow is set. A branch that is taken owes one extra
    /// cycle, and a second one when its target lies on another page.
    pub fn BVS(cpu: &mut Cpu) -> (extra: u8)
        ensures
            final(cpu)@ == old(cpu)@.branch(old(cpu)@.flag(OVERFLOW)),
            extra == old(cpu)@.branch_bonus(old(cpu)@.flag(OVERFLOW)),
    {
        let taken = cpu.get_flag(FLAGS::v()) == 1;
        cpu.branch(taken)
    }

    /// Clears Carry.
    pub fn CLC(cpu: &mut Cpu) -> (extra: u8)
        ensures
            final(cpu)@ == old(cpu)@.set_flag(CARRY, false),
            extra == 0,
    {
        cpu.set_flag(FLAGS::c(), false);
        0x00
    }

    /// Clears Decimal.
    pub fn CLD(cpu: &mut Cpu) -> (extra: u8)
        ensures
            final(cpu)@ == old(cpu)@.set_flag(DECIMAL, false),
            extra == 0,
    {
        cpu.set_flag(FLAGS::d(), false);
        0x00
    }

    /// Clears Interrupt-disable.
    pub fn CLI(cpu: &mut Cpu) -> (extra: u8)
        ensures
            final(cpu)@ == old(cpu)@.set_flag(IRQ_DISABLE, false),
            extra == 0,
    {
        cpu.set_flag(FLAGS::i(), false);
        0x00
    }

    /// Clears Overflow.
    pub fn CLV(cpu: &mut Cpu) -> (extra: u8)
        ensures
            final(cpu)@ == old(cpu)@.set_flag(OVERFLOW, false),
            extra == 0,
    {
        cpu.set_flag(FLAGS::v(), false);
        0x00
    }

    /// Compares the accumulator with the operand: Carry when the register is at
    /// least the operand, Zero when they are equal, Negative from bit 7 of the
    /// difference. No register changes.
    pub fn CMP(cpu: &mut Cpu) -> (extra: u8)
        ensures
            final(cpu)@ == old(cpu)@.compare(old(cpu).acc),
            extra == 0,
    {
        cpu.compare(cpu.acc);
        0x00
    }

    /// Compares X with the operand: Carry when the register is at least the
    /// operand, Zero when they are equal, Negative from bit 7 of the
    /// difference. No register changes.
    pub fn CPX(cpu: &mut Cpu) -> (extra: u8)
        ensures
            final(cpu)@ == old(cpu)@.compare(old(cpu).x),
            extra == 0,
    {
        cpu.compare(cpu.x);
        0x00
    }

    /// Compares Y with the operand: Carry when the register is at least the
    /// operand, Zero when they are equal, Negative from bit 7 of the
    /// difference. No register changes.
    pub fn CPY(cpu: &mut Cpu) -> (extra: u8)
        ensures
            final(cpu)@ == old(cpu)@.compare(old(cpu).y),
            extra == 0,
    {
        cpu.compare(cpu.y);
        0x00
    }

    /// Decrements the byte at the effective address modulo 256; Zero and
    /// Negative are taken from the result.
    pub fn DEC(cpu: &mut Cpu) -> (extra: u8)
        ensures
            final(cpu)@ == old(cpu)@.dec(),
            extra == 0,
    {
        let m = cpu.fetch();
        cpu.store_result(sub8(m, 1));
        0x00
    }

    /// Decrements X modulo 256; Zero and Negative are taken from the result.
    pub fn DEX(cpu: &mut Cpu) -> (extra: u8)
        ensures
            final(cpu)@ == old(cpu)@.load_x(wrap8(old(cpu).x - 1)),
            extra == 0,
    {
        cpu.load_x(sub8(cpu.x, 1));
        0x00
    }

    /// Decrements Y modulo 256; Zero and Negative are taken from the result.
    pub fn DEY(cpu: &mut Cpu) -> (extra: u8)
        ensures
            final(cpu)@ == old(cpu)@.load_y(wrap8(old(cpu).y - 1)),
            extra == 0,
    {
        cpu.load_y(sub8(cpu.y, 1));
        0x00
    }

    /// The accumulator is exclusive-ORed with the operand; Zero and Negative
    /// are taken from the result.
    pub fn EOR(cpu: &mut Cpu) -> (extra: u8)
        ensures
            final(cpu)@ == old(cpu)@.eor(),
            extra == 0,
    {
        let m = cpu.fetch();
        cpu.load_acc(cpu.acc ^ m);
        0x00
    }

    /// Increments the byte at the effective address modulo 256; Zero and
    /// Negative are taken from the result.
    pub fn INC(cpu: &mut Cpu) -> (extra: u8)
        ensures
            final(cpu)@ == old(cpu)@.inc(),
            extra == 0,
    {
        let m = cpu.fetch();
        cpu.store_result(add8(m, 1));
        0x00
    }

    /// Increments X modulo 256; Zero and Negative are taken from the result.
    pub fn INX(cpu: &mut Cpu) -> (extra: u8)
        ensures
            final(cpu)@ == old(cpu)@.load_x(wrap8(old(cpu).x + 1)),
            extra == 0,
    {
        cpu.load_x(add8(cpu.x, 1));
        0x00
    }

    /// Increments Y modulo 256; Zero and Negative are taken from the result.
    pub fn INY(cpu: &mut Cpu) -> (extra: u8)
        ensures
            final(cpu)@ == old(cpu)@.load_y(wrap8(old(cpu).y + 1)),
            extra == 0,
    {
        cpu.load_y(add8(cpu.y, 1));
        0x00
    }

    /// Jump: the program counter becomes the effective address.
    pub fn JMP(cpu: &mut Cpu) -> (extra: u8)
        ensures
            final(cpu)@ == (Machine { pc: old(cpu).addr_abs, ..old(cpu)@ }),
            extra == 0,
    {
        cpu.pc = cpu.addr_abs;
        0x00
    }

    /// Jump to subroutine: pushes the address of the last byte of the
    /// instruction, high byte first, and jumps to the effective address.
    pub fn JSR(cpu: &mut Cpu) -> (extra: u8)
        ensures
            final(cpu)@ == old(cpu)@.jsr(),
            extra == 0,
    {
        let ret = sub16(cpu.pc, 1);
        cpu.push(high_byte(ret));
        cpu.push(low_byte(ret));
        cpu.pc = cpu.addr_abs;
        0x00
    }

    /// Loads the operand into the accumulator; Zero and Negative are taken from
    /// it.
    pub fn LDA(cpu: &mut Cpu) -> (extra: u8)
        ensures
            final(cpu)@ == old(cpu)@.fetch().load_acc(old(cpu)@.operand()),
            extra == 0,
    {
        let m = cpu.fetch();
        cpu.load_acc(m);
        0x00
    }

    /// Loads the operand into X; Zero and Negative are taken from it.
    pub fn LDX(cpu: &mut Cpu) -> (extra: u8)
        ensures
            final(cpu)@ == old(cpu)@.fetch().load_x(old(cpu)@.operand()),
            extra == 0,
    {
        let m = cpu.fetch();
        cpu.load_x(m);
        0x00
    }

    /// Loads the operand into Y; Zero and Negative are taken from it.
    pub fn LDY(cpu: &mut Cpu) -> (extra: u8)
        ensures
            final(cpu)@ == old(cpu)@.fetch().load_y(old(cpu)@.operand()),
            extra == 0,
    {
        let m = cpu.fetch();
        cpu.load_y(m);
        0x00
    }

    /// Shift right by one bit, in the accumulator or in memory: bit 0 goes to
    /// Carry; Zero and Negative are taken from the result.
    pub fn LSR(cpu: &mut Cpu) -> (extra: u8)
        ensures
            final(cpu)@ == old(cpu)@.lsr(),
            extra == 0,
    {
        let m = cpu.fetch();
        cpu.shifted(shift_right(m, 0), is_odd(m));
        0x00
    }

    /// No operation: nothing changes. Six undefined opcodes that run as no-
    /// operations owe one extra cycle.
    pub fn NOP(cpu: &mut Cpu) -> (extra: u8)
        ensures
            final(cpu)@ == old(cpu)@,
            extra == bit(is_slow_nop(old(cpu).opcode)),
    {
        match cpu.opcode {
            0x1C | 0x3C | 0x5C | 0x7C | 0xDC | 0xFC => 0x01,
            _ => 0x00,
        }
    }

    /// The accumulator is ORed with the operand; Zero and Negative are taken
    /// from the result.
    pub fn ORA(cpu: &mut Cpu) -> (extra: u8)
        ensures
            final(cpu)@ == old(cpu)@.ora(),
            extra == 0,
    {
        let m = cpu.fetch();
        cpu.load_acc(cpu.acc | m);
        0x00
    }

    /// Pushes the accumulator.
    pub fn PHA(cpu: &mut Cpu) -> (extra: u8)
        ensures
            final(cpu)@ == old(cpu)@.push(old(cpu).acc),
            extra == 0,
    {
        cpu.push(cpu.acc);
        0x00
    }

    /// Pushes the status register with Break and Unused set in the pushed byte;
    /// the register itself is left alone.
    pub fn PHP(cpu: &mut Cpu) -> (extra: u8)
        ensures
            final(cpu)@ == old(cpu)@.push(old(cpu).psr | BREAK | UNUSED),
            extra == 0,
    {
        cpu.push(cpu.psr | FLAGS::b() | FLAGS::u());
        0x00
    }

    /// Pulls the accumulator; Zero and Negative are taken from it.
    pub fn PLA(cpu: &mut Cpu) -> (extra: u8)
        ensures
            final(cpu)@ == old(cpu)@.pla(),
            extra == 0,
    {
        let value = cpu.pull();
        cpu.load_acc(value);
        0x00
    }

    /// Pulls the status register; Unused is forced to one.
    pub fn PLP(cpu: &mut Cpu) -> (extra: u8)
        ensures
            final(cpu)@ == old(cpu)@.plp(),
            extra == 0,
    {
        cpu.psr = cpu.pull();
        cpu.set_flag(FLAGS::u(), true);
        0x00
    }

    /// Rotate left by one bit, in the accumulator or in memory: bit 7 goes to
    /// Carry and the old Carry becomes bit 0; Zero and Negative are taken from
    /// the result.
    pub fn ROL(cpu: &mut Cpu) -> (extra: u8)
        ensures
            final(cpu)@ == old(cpu)@.rol(),
            extra == 0,
    {
        let carry = cpu.get_flag(FLAGS::c());
        let m = cpu.fetch();
        cpu.shifted(shift_left(m, carry), is_negative(m));
        0x00
    }

    /// Rotate right by one bit, in the accumulator or in memory: bit 0 goes to
    /// Carry and the old Carry becomes bit 7; Zero and Negative are taken from
    /// the result.
    pub fn ROR(cpu: &mut Cpu) -> (extra: u8)
        ensures
            final(cpu)@ == old(cpu)@.ror(),
            extra == 0,
    {
        let carry = cpu.get_flag(FLAGS::c());
        let m = cpu.fetch();
        cpu.shifted(shift_right(m, carry), is_odd(m));
        0x00
    }

    /// Return from interrupt: pulls the status, with Break and Unused cleared,
    /// then the program counter, low byte first.
    pub fn RTI(cpu: &mut Cpu) -> (extra: u8)
        ensures
            final(cpu)@ == old(cpu)@.rti(),
            extra == 0,
    {
        cpu.psr = cpu.pull();
        cpu.set_flag(FLAGS::b(), false);
        cpu.set_flag(FLAGS::u(), false);
        let lo = cpu.pull();
        let hi = cpu.pull();
        cpu.pc = make_word(lo, hi);
        0x00
    }

    /// Return from subroutine: pulls the program counter, low byte first, and
    /// moves it one past the pulled address.
    pub fn RTS(cpu: &mut Cpu) -> (extra: u8)
        ensures
            final(cpu)@ == old(cpu)@.rts(),
            extra == 0,
    {
        let lo = cpu.pull();
        let hi = cpu.pull();
        cpu.pc = add16(make_word(lo, hi), 1);
        0x00
    }

    /// Subtract with borrow: the accumulator becomes accumulator plus the one's
    /// complement of the operand plus Carry, modulo 256, with the flags of that
    /// addition.
    pub fn SBC(cpu: &mut Cpu) -> (extra: u8)
        ensures
            final(cpu)@ == old(cpu)@.sbc(),
            extra == 0,
    {
        let m = cpu.fetch();
        cpu.add_with_carry(complement(m));
        0x00
    }

    /// Sets Carry.
    pub fn SEC(cpu: &mut Cpu) -> (extra: u8)
        ensures
            final(cpu)@ == old(cpu)@.set_flag(CARRY, true),
            extra == 0,
    {
        cpu.set_flag(FLAGS::c(), true);
        0x00
    }

    /// Sets Decimal.
    pub fn SED(cpu: &mut Cpu) -> (extra: u8)
        ensures
            final(cpu)@ == old(cpu)@.set_flag(DECIMAL, true),
            extra == 0,
    {
        cpu.set_flag(FLAGS::d(), true);
        0x00
    }

    /// Sets Interrupt-disable.
    pub fn SEI(cpu: &mut Cpu) -> (extra: u8)
        ensures
            final(cpu)@ == old(cpu)@.set_flag(IRQ_DISABLE, true),
            extra == 0,
    {
        cpu.set_flag(FLAGS::i(), true);
        0x00
    }

    /// Stores the accumulator at the effective address; no flag changes.
    pub fn STA(cpu: &mut Cpu) -> (extra: u8)
        ensures
            final(cpu)@ == old(cpu)@.write(old(cpu).addr_abs, old(cpu).acc),
            extra == 0,
    {
        cpu.write(cpu.addr_abs, cpu.acc);
        0x00
    }

    /// Stores X at the effective address; no flag changes.
    pub fn STX(cpu: &mut Cpu) -> (extra: u8)
        ensures
            final(cpu)@ == old(cpu)@.write(old(cpu).addr_abs, old(cpu).x),
            extra == 0,
    {
        cpu.write(cpu.addr_abs, cpu.x);
        0x00
    }

    /// Stores Y at the effective address; no flag changes.
    pub fn STY(cpu: &mut Cpu) -> (extra: u8)
        ensures
            final(cpu)@ == old(cpu)@.write(old(cpu).addr_abs, old(cpu).y),
            extra == 0,
    {
        cpu.write(cpu.addr_abs, cpu.y);
        0x00
    }

    /// Copies the accumulator to X; Zero and Negative are taken from it.
    pub fn TAX(cpu: &mut Cpu) -> (extra: u8)
        ensures
            final(cpu)@ == old(cpu)@.load_x(old(cpu).acc),
            extra == 0,
    {
        cpu.load_x(cpu.acc);
        0x00
    }

    /// Copies the accumulator to Y; Zero and Negative are taken from it.
    pub fn TAY(cpu: &mut Cpu) -> (extra: u8)
        ensures
            final(cpu)@ == old(cpu)@.load_y(old(cpu).acc),
            extra == 0,
    {
        cpu.load_y(cpu.acc);
        0x00
    }

    /// Copies the stack pointer to X; Zero and Negative are taken from it.
    pub fn TSX(cpu: &mut Cpu) -> (extra: u8)
        ensures
            final(cpu)@ == old(cpu)@.load_x(old(cpu).sp),
            extra == 0,
    {
        cpu.load_x(cpu.sp);
        0x00
    }

    /// Copies X to the accumulator; Zero and Negative are taken from it.
    pub fn TXA(cpu: &mut Cpu) -> (extra: u8)
        ensures
            final(cpu)@ == old(cpu)@.load_acc(old(cpu).x),
            extra == 0,
    {
        cpu.load_acc(cpu.x);
        0x00
    }

    /// Copies X to the stack pointer; no flag changes.
    pub fn TXS(cpu: &mut Cpu) -> (extra: u8)
        ensures
            final(cpu)@ == (Machine { sp: old(cpu).x, ..old(cpu)@ }),
            extra == 0,
    {
        cpu.sp = cpu.x;
        0x00
    }

    /// Copies Y to the accumulator; Zero and Negative are taken from it.
    pub fn TYA(cpu: &mut Cpu) -> (extra: u8)
        ensures
            final(cpu)@ == old(cpu)@.load_acc(old(cpu).y),
            extra == 0,
    {
        cpu.load_acc(cpu.y);
        0x00
    }

    /// Undefined opcode: nothing changes and no cycle is owed.
    pub fn XXX(cpu: &mut Cpu) -> (extra: u8)
        ensures
            final(cpu)@ == old(cpu)@,
            extra == 0,
    {
        0x00
    }

    /// Runs `operation` and returns the extra cycles it owes.
    pub fn execute(cpu: &mut Cpu, operation: Operation) -> (extra: u8)
        ensures
            final(cpu)@ == old(cpu)@.execute(operation),
            extra == old(cpu)@.execute_bonus(operation),
    {
        match operation {
            Operation::ADC => Cpu::ADC(cpu),
            Operation::AND => Cpu::AND(cpu),
            Operation::ASL => Cpu::ASL(cpu),
            Operation::BCC => Cpu::BCC(cpu),
            Operation::BCS => Cpu::BCS(cpu),
            Operation::BEQ => Cpu::BEQ(cpu),
            Operation::BIT => Cpu::BIT(cpu),
            Operation::BMI => Cpu::BMI(cpu),
            Operation::BNE => Cpu::BNE(cpu),
            Operation::BPL => Cpu::BPL(cpu),
            Operation::BRK => Cpu::BRK(cpu),
            Operation::BVC => Cpu::BVC(cpu),
            Operation::BVS => Cpu::BVS(cpu),
            Operation::CLC => Cpu::CLC(cpu),
            Operation::CLD => Cpu::CLD(cpu),
            Operation::CLI => Cpu::CLI(cpu),
            Operation::CLV => Cpu::CLV(cpu),
            Operation::CMP => Cpu::CMP(cpu),
            Operation::CPX => Cpu::CPX(cpu),
            Operation::CPY => Cpu::CPY(cpu),
            Operation::DEC => Cpu::DEC(cpu),
            Operation::DEX => Cpu::DEX(cpu),
            Operation::DEY => Cpu::DEY(cpu),
            Operation::EOR => Cpu::EOR(cpu),
            Operation::INC => Cpu::INC(cpu),
            Operation::INX => Cpu::INX(cpu),
            Operation::INY => Cpu::INY(cpu),
            Operation::JMP => Cpu::JMP(cpu),
            Operation::JSR => Cpu::JSR(cpu),
            Operation::LDA => Cpu::LDA(cpu),
            Operation::LDX => Cpu::LDX(cpu),
            Operation::LDY => Cpu::LDY(cpu),
            Operation::LSR => Cpu::LSR(cpu),
            Operation::NOP => Cpu::NOP(cpu),
            Operation::ORA => Cpu::ORA(cpu),
            Operation::PHA => Cpu::PHA(cpu),
            Operation::PHP => Cpu::PHP(cpu),
            Operation::PLA => Cpu::PLA(cpu),
            Operation::PLP => Cpu::PLP(cpu),
            Operation::ROL => Cpu::ROL(cpu),
            Operation::ROR => Cpu::ROR(cpu),
            Operation::RTI => Cpu::RTI(cpu),
            Operation::RTS => Cpu::RTS(cpu),
            Operation::SBC => Cpu::SBC(cpu),
            Operation::SEC => Cpu::SEC(cpu),
            Operation::SED => Cpu::SED(cpu),
            Operation::SEI => Cpu::SEI(cpu),
            Operation::STA => Cpu::STA(cpu),
            Operation::STX => Cpu::STX(cpu),
            Operation::STY => Cpu::STY(cpu),
            Operation::TAX => Cpu::TAX(cpu),
            Operation::TAY => Cpu::TAY(cpu),
            Operation::TSX => Cpu::TSX(cpu),
            Operation::TXA => Cpu::TXA(cpu),
            Operation::TXS => Cpu::TXS(cpu),
            Operation::TYA => Cpu::TYA(cpu),
            Operation::XXX => Cpu::XXX(cpu),
        }
    }
}

} // verus!
