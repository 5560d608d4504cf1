//! The mathematical model of the processor: its state as plain values and
//! the meaning of every addressing mode, operation and control signal as a
//! function from state to state.

use crate::bus::RAM_SIZE;
use crate::flags::{
    flag_is_set, with_flag, with_zn, BREAK, CARRY, DECIMAL, IRQ_DISABLE, NEGATIVE, OVERFLOW,
    UNUSED, ZERO,
};
use crate::lookup_table::{instruction_at, AddrMode, Operation};
use vstd::prelude::*;

verus! {

/// First address of the stack page.
pub const STACK_BASE: u16 = 0x0100;

/// Address of the low byte of the non-maskable interrupt vector.
pub const NMI_VECTOR: u16 = 0xFFFA;

/// Address of the low byte of the reset vector.
pub const RESET_VECTOR: u16 = 0xFFFC;

/// Address of the low byte of the vector shared by interrupt requests and
/// software interrupts.
pub const IRQ_VECTOR: u16 = 0xFFFE;

/// Stack pointer after a reset.
pub const RESET_SP: u8 = 0xFD;

/// Cycles that a reset takes.
pub const RESET_CYCLES: u8 = 8;

/// Cycles that entering a maskable interrupt takes.
pub const IRQ_CYCLES: u8 = 7;

/// Cycles that entering a non-maskable interrupt takes.
pub const NMI_CYCLES: u8 = 8;

/// `v` reduced modulo 256.
pub open spec fn wrap8(v: int) -> u8 {
    (v % 256) as u8
}

/// `v` reduced modulo 65536.
pub open spec fn wrap16(v: int) -> u16 {
    (v % 65536) as u16
}

/// The 16-bit value with low byte `lo` and high byte `hi`.
pub open spec fn word(lo: u8, hi: u8) -> u16 {
    (hi * 256 + lo) as u16
}

/// Low byte of a 16-bit value.
pub open spec fn low(v: u16) -> u8 {
    (v % 256) as u8
}

/// High byte of a 16-bit value, which is also the number of its page.
pub open spec fn high(v: u16) -> u8 {
    (v / 256) as u8
}

/// A signed byte widened to sixteen bits in two's complement.
pub open spec fn sign_extend(b: u8) -> u16 {
    if b >= 0x80 {
        (0xFF00 + b) as u16
    } else {
        b as u16
    }
}

/// One for `true`, zero for `false`.
pub open spec fn bit(on: bool) -> u8 {
    if on {
        1
    } else {
        0
    }
}

/// Whether two bytes, read as signed numbers, add up (with the carry on top)
/// to a result byte of the wrong sign: both have one sign and the result has
/// the other.
pub open spec fn signed_overflow(a: u8, b: u8, result: u8) -> bool {
    (a >= 0x80) == (b >= 0x80) && (result >= 0x80) != (a >= 0x80)
}

/// Whether an undefined no-operation opcode owes one extra cycle.
pub open spec fn is_slow_nop(opcode: u8) -> bool {
    opcode == 0x1C || opcode == 0x3C || opcode == 0x5C || opcode == 0x7C || opcode == 0xDC
        || opcode == 0xFC
}

/// The processor with its memory, as plain values.
pub struct Machine {
    /// The 64 KiB of memory on the bus, indexed by address.
    pub mem: Seq<u8>,
    /// X index register.
    pub x: u8,
    /// Y index register.
    pub y: u8,
    /// Stack pointer, an offset into the stack page.
    pub sp: u8,
    /// Program counter.
    pub pc: u16,
    /// Accumulator.
    pub acc: u8,
    /// Status register.
    pub psr: u8,
    /// Operand byte of the current instruction.
    pub fetched: u8,
    /// Opcode byte of the current instruction.
    pub opcode: u8,
    /// Branch displacement of the current instruction, sign-extended.
    pub addr_rel: u16,
    /// Addressing mode of the current instruction.
    pub addr_mode_name: AddrMode,
    /// Effective address of the current instruction.
    pub addr_abs: u16,
    /// Cycles left before the next instruction is fetched.
    pub cycles: u8,
}

impl Machine {
    /// Every address is backed by storage.
    pub open spec fn wf(self) -> bool {
        self.mem.len() == RAM_SIZE
    }

    /// The byte at `addr`.
    pub open spec fn read(self, addr: u16) -> u8 {
        self.mem[addr as int]
    }

    /// The machine after `data` is stored at `addr`.
    pub open spec fn write(self, addr: u16, data: u8) -> Machine {
        Machine { mem: self.mem.update(addr as int, data), ..self }
    }

    /// Whether the flag with mask `mask` is set.
    pub open spec fn flag(self, mask: u8) -> bool {
        flag_is_set(self.psr, mask)
    }

    /// The machine after the flag with mask `mask` is set (`on`) or cleared.
    pub open spec fn set_flag(self, mask: u8, on: bool) -> Machine {
        Machine { psr: with_flag(self.psr, mask, on), ..self }
    }

    /// The carry flag as a number.
    pub open spec fn carry(self) -> u8 {
        bit(self.flag(CARRY))
    }

    /// The address `k` bytes past the program counter, wrapping at the end
    /// of memory.
    pub open spec fn pc_plus(self, k: int) -> u16 {
        wrap16(self.pc + k)
    }

    /// The 16-bit value stored at `addr` and the address after it, low byte
    /// first.
    pub open spec fn read_word(self, addr: u16) -> u16 {
        word(self.read(addr), self.read(wrap16(addr + 1)))
    }

    /// The 16-bit value stored in the zero page at `ptr`, low byte first;
    /// the high byte of a pointer at `0xFF` is taken from `0x00`.
    pub open spec fn read_zero_page_word(self, ptr: u8) -> u16 {
        word(self.read(ptr as u16), self.read(wrap8(ptr + 1) as u16))
    }

    /// The operand of the current instruction: the byte fetched by the
    /// resolver when the accumulator is the operand, the byte at the
    /// effective address otherwise.
    pub open spec fn operand(self) -> u8 {
        if self.addr_mode_name.targets_accumulator() {
            self.fetched
        } else {
            self.read(self.addr_abs)
        }
    }

    /// The machine after the operand is latched.
    pub open spec fn fetch(self) -> Machine {
        Machine { fetched: self.operand(), ..self }
    }

    /// The machine after `result` is written to the operand's place: the
    /// accumulator when it is the operand, the effective address otherwise.
    pub open spec fn write_back(self, result: u8) -> Machine {
        if self.addr_mode_name.targets_accumulator() {
            Machine { acc: result, ..self }
        } else {
            self.write(self.addr_abs, result)
        }
    }

    /// The machine after Zero and Negative are taken from `value`.
    pub open spec fn set_zn(self, value: u8) -> Machine {
        Machine { psr: with_zn(self.psr, value), ..self }
    }

    /// Address of the stack cell that the stack pointer names.
    pub open spec fn stack_addr(self) -> u16 {
        (STACK_BASE + self.sp) as u16
    }

    /// The machine after `data` is pushed: stored at the stack pointer,
    /// which then moves down by one, wrapping within the stack page.
    pub open spec fn push(self, data: u8) -> Machine {
        Machine {
            mem: self.mem.update(self.stack_addr() as int, data),
            sp: wrap8(self.sp - 1),
            ..self
        }
    }

    /// The machine after the stack pointer moves up by one, wrapping within
    /// the stack page; the pulled byte is then `stack_top()`.
    pub open spec fn pull(self) -> Machine {
        Machine { sp: wrap8(self.sp + 1), ..self }
    }

    /// The byte in the stack cell that the stack pointer names.
    pub open spec fn stack_top(self) -> u8 {
        self.read(self.stack_addr())
    }

    // ---------------------------------------------------------------
    // Addressing modes. Each starts with the program counter on the
    // first operand byte and leaves it behind the last.
    // ---------------------------------------------------------------
    /// Implied or accumulator: the accumulator is latched as the operand.
    pub open spec fn implied(self) -> Machine {
        Machine { fetched: self.acc, ..self }
    }

    /// Immediate: the operand is the next byte of the program.
    pub open spec fn immediate(self) -> Machine {
        Machine { addr_abs: self.pc, pc: self.pc_plus(1), ..self }
    }

    /// Zero page, with `index` added to the operand byte modulo 256.
    pub open spec fn zero_page(self, index: u8) -> Machine {
        Machine { addr_abs: wrap8(self.read(self.pc) + index) as u16, pc: self.pc_plus(1), ..self }
    }

    /// Absolute, with `index` added to the operand word modulo 65536.
    pub open spec fn absolute(self, index: u8) -> Machine {
        Machine { addr_abs: wrap16(self.read_word(self.pc) + index), pc: self.pc_plus(2), ..self }
    }

    /// Relative: the operand byte is latched as a signed displacement.
    pub open spec fn relative(self) -> Machine {
        Machine { addr_rel: sign_extend(self.read(self.pc)), pc: self.pc_plus(1), ..self }
    }

    /// Indexed indirect: X is added to the operand byte modulo 256, and the
    /// address is read from the zero page there.
    pub open spec fn indexed_indirect(self) -> Machine {
        Machine {
            addr_abs: self.read_zero_page_word(wrap8(self.read(self.pc) + self.x)),
            pc: self.pc_plus(1),
            ..self
        }
    }

    /// Indirect indexed: an address is read from the zero page at the
    /// operand byte, and Y is added to it modulo 65536.
    pub open spec fn indirect_indexed(self) -> Machine {
        Machine {
            addr_abs: wrap16(self.read_zero_page_word(self.read(self.pc)) + self.y),
            pc: self.pc_plus(1),
            ..self
        }
    }

    /// Where absolute indirect addressing takes the high byte of the target
    /// from: the byte after the pointer, but the first byte of the pointer's
    /// own page when the pointer is the last byte of a page.
    pub open spec fn indirect_high_addr(ptr: u16) -> u16 {
        if low(ptr) == 0xFF {
            (ptr - 0xFF) as u16
        } else {
            (ptr + 1) as u16
        }
    }

    /// Absolute indirect: the address is read from the pointer that the
    /// operand word gives, without crossing into the next page.
    pub open spec fn absolute_indirect(self) -> Machine {
        let ptr = self.read_word(self.pc);
        Machine {
            addr_abs: word(self.read(ptr), self.read(Self::indirect_high_addr(ptr))),
            pc: self.pc_plus(2),
            ..self
        }
    }

    /// The machine after the resolver of `mode` has run.
    pub open spec fn resolve(self, mode: AddrMode) -> Machine {
        match mode {
            AddrMode::IMP => self.implied(),
            AddrMode::ACC => self.implied(),
            AddrMode::IMM => self.immediate(),
            AddrMode::ZP => self.zero_page(0),
            AddrMode::ZPX => self.zero_page(self.x),
            AddrMode::ZPY => self.zero_page(self.y),
            AddrMode::ABS => self.absolute(0),
            AddrMode::ABSX => self.absolute(self.x),
            AddrMode::ABSY => self.absolute(self.y),
            AddrMode::REL => self.relative(),
            AddrMode::INDX => self.indexed_indirect(),
            AddrMode::INDY => self.indirect_indexed(),
            AddrMode::ABSIND => self.absolute_indirect(),
            AddrMode::XXX => self,
        }
    }

    /// The address that an indexed mode adds its index to, for the three
    /// modes that can cross a page.
    pub open spec fn index_base(self, mode: AddrMode) -> u16 {
        match mode {
            AddrMode::INDY => self.read_zero_page_word(self.read(self.pc)),
            _ => self.read_word(self.pc),
        }
    }

    /// Whether resolving `mode` adds an index that carries into the high
    /// byte: the effective address lies on another page than the address
    /// before indexing.
    pub open spec fn page_crossed(self, mode: AddrMode) -> bool {
        match mode {
            AddrMode::ABSX | AddrMode::ABSY | AddrMode::INDY => high(self.resolve(mode).addr_abs)
                != high(self.index_base(mode)),
            _ => false,
        }
    }

    /// Extra cycles that the resolver of `mode` owes: one when a page is
    /// crossed, none otherwise.
    pub open spec fn resolve_bonus(self, mode: AddrMode) -> u8 {
        bit(self.page_crossed(mode))
    }

    // ---------------------------------------------------------------
    // Operations. Each starts from the state that the resolver left.
    // ---------------------------------------------------------------
    /// The accumulator plus `value` plus carry. Carry is set when the sum
    /// exceeds 255, Overflow when the signed sum does not fit, Zero and
    /// Negative from the result byte.
    pub open spec fn add_with_carry(self, value: u8) -> Machine {
        let sum = self.acc + value + self.carry();
        let result = wrap8(sum);
        let flagged = self.set_flag(CARRY, sum > 255).set_zn(result).set_flag(
            OVERFLOW,
            signed_overflow(self.acc, value, result),
        );
        Machine { acc: result, ..flagged }
    }

    /// Add memory and carry to the accumulator.
    pub open spec fn adc(self) -> Machine {
        self.fetch().add_with_carry(self.operand())
    }

    /// Subtract memory and borrow (the complement of carry) from the
    /// accumulator: the one's complement of the operand is added.
    pub open spec fn sbc(self) -> Machine {
        self.fetch().add_with_carry((255 - self.operand()) as u8)
    }

    /// The machine after `result` is loaded into the accumulator, with Zero
    /// and Negative taken from it.
    pub open spec fn load_acc(self, result: u8) -> Machine {
        Machine { acc: result, ..self }.set_zn(result)
    }

    /// The machine after `result` is loaded into X, with Zero and Negative
    /// taken from it.
    pub open spec fn load_x(self, result: u8) -> Machine {
        Machine { x: result, ..self }.set_zn(result)
    }

    /// The machine after `result` is loaded into Y, with Zero and Negative
    /// taken from it.
    pub open spec fn load_y(self, result: u8) -> Machine {
        Machine { y: result, ..self }.set_zn(result)
    }

    /// AND memory into the accumulator.
    pub open spec fn and(self) -> Machine {
        self.fetch().load_acc(self.acc & self.operand())
    }

    /// OR memory into the accumulator.
    pub open spec fn ora(self) -> Machine {
        self.fetch().load_acc(self.acc | self.operand())
    }

    /// Exclusive-OR memory into the accumulator.
    pub open spec fn eor(self) -> Machine {
        self.fetch().load_acc(self.acc ^ self.operand())
    }

    /// The machine after a shift or rotate has produced `result` and moved
    /// `carry_out` out of the operand: Carry, Zero and Negative are set from
    /// them, and the result replaces the operand.
    pub open spec fn shifted(self, result: u8, carry_out: bool) -> Machine {
        self.set_flag(CARRY, carry_out).set_zn(result).write_back(result)
    }

    /// Shift left: bit 7 goes to Carry, bit 0 becomes zero.
    pub open spec fn asl(self) -> Machine {
        self.fetch().shifted(wrap8(self.operand() * 2), self.operand() >= 0x80)
    }

    /// Shift right: bit 0 goes to Carry, bit 7 becomes zero.
    pub open spec fn lsr(self) -> Machine {
        self.fetch().shifted((self.operand() / 2) as u8, self.operand() % 2 == 1)
    }

    /// Rotate left: bit 7 goes to Carry, the old Carry becomes bit 0.
    pub open spec fn rol(self) -> Machine {
        self.fetch().shifted(wrap8(self.operand() * 2 + self.carry()), self.operand() >= 0x80)
    }

    /// Rotate right: bit 0 goes to Carry, the old Carry becomes bit 7.
    pub open spec fn ror(self) -> Machine {
        self.fetch().shifted(
            (self.operand() / 2 + 128 * self.carry()) as u8,
            self.operand() % 2 == 1,
        )
    }

    /// Bit test: Zero tells whether the accumulator and the operand share no
    /// bit; Negative and Overflow are bits 7 and 6 of the operand.
    pub open spec fn bit_test(self) -> Machine {
        let m = self.operand();
        self.fetch().set_flag(ZERO, self.acc & m == 0).set_flag(
            NEGATIVE,
            flag_is_set(m, NEGATIVE),
        ).set_flag(OVERFLOW, flag_is_set(m, OVERFLOW))
    }

    /// Where a taken branch goes: the displacement added to the program
    /// counter modulo 65536.
    pub open spec fn branch_target(self) -> u16 {
        wrap16(self.pc + self.addr_rel)
    }

    /// The machine after a branch that is taken or not.
    pub open spec fn branch(self, taken: bool) -> Machine {
        if taken {
            Machine { addr_abs: self.branch_target(), pc: self.branch_target(), ..self }
        } else {
            self
        }
    }

    /// Extra cycles of a branch: none when it is not taken, one when it is,
    /// two when its target lies on another page than the program counter.
    pub open spec fn branch_bonus(self, taken: bool) -> u8 {
        if !taken {
            0
        } else if high(self.branch_target()) != high(self.pc) {
            2
        } else {
            1
        }
    }

    /// Whether the branch `operation` is taken in this state; `false` for an
    /// operation that is no branch.
    pub open spec fn branch_taken(self, operation: Operation) -> bool {
        match operation {
            Operation::BCC => !self.flag(CARRY),
            Operation::BCS => self.flag(CARRY),
            Operation::BEQ => self.flag(ZERO),
            Operation::BNE => !self.flag(ZERO),
            Operation::BMI => self.flag(NEGATIVE),
            Operation::BPL => !self.flag(NEGATIVE),
            Operation::BVC => !self.flag(OVERFLOW),
            Operation::BVS => self.flag(OVERFLOW),
            _ => false,
        }
    }

    /// Software interrupt: the address after the padding byte and the status
    /// with Break set are pushed, interrupts are disabled, and execution
    /// continues at the address in the interrupt vector with Break cleared.
    pub open spec fn brk(self) -> Machine {
        let ret = self.pc_plus(1);
        let psr = with_flag(self.psr, IRQ_DISABLE, true);
        let pushed = Machine { pc: ret, psr, ..self }.push(high(ret)).push(low(ret)).push(
            with_flag(psr, BREAK, true),
        );
        Machine {
            psr: with_flag(psr, BREAK, false),
            pc: pushed.read_word(IRQ_VECTOR),
            ..pushed
        }
    }

    /// Compare `register` with memory: Carry when the register is at least
    /// the operand, Zero when they are equal, Negative from bit 7 of the
    /// difference modulo 256.
    pub open spec fn compare(self, register: u8) -> Machine {
        let m = self.operand();
        self.fetch().set_flag(ZERO, register == m).set_flag(CARRY, register >= m).set_flag(
            NEGATIVE,
            wrap8(register - m) >= 0x80,
        )
    }

    /// The machine after the byte at the effective address is replaced by
    /// `result`, with Zero and Negative taken from it.
    pub open spec fn store_result(self, result: u8) -> Machine {
        self.write(self.addr_abs, result).set_zn(result)
    }

    /// Decrement memory, modulo 256.
    pub open spec fn dec(self) -> Machine {
        self.fetch().store_result(wrap8(self.operand() - 1))
    }

    /// Increment memory, modulo 256.
    pub open spec fn inc(self) -> Machine {
        self.fetch().store_result(wrap8(self.operand() + 1))
    }

    /// Jump to subroutine: the address of the last byte of the instruction
    /// is pushed, high byte first.
    pub open spec fn jsr(self) -> Machine {
        let ret = self.pc_plus(-1);
        Machine { pc: self.addr_abs, ..self.push(high(ret)).push(low(ret)) }
    }

    /// Pull the accumulator.
    pub open spec fn pla(self) -> Machine {
        self.pull().load_acc(self.pull().stack_top())
    }

    /// Pull the status register; Unused is forced to one.
    pub open spec fn plp(self) -> Machine {
        Machine { psr: with_flag(self.pull().stack_top(), UNUSED, true), ..self.pull() }
    }

    /// Return from interrupt: the status is pulled with Break and Unused
    /// cleared, then the program counter, low byte first.
    pub open spec fn rti(self) -> Machine {
        let s1 = self.pull();
        let s2 = s1.pull();
        let s3 = s2.pull();
        Machine {
            psr: with_flag(with_flag(s1.stack_top(), BREAK, false), UNUSED, false),
            pc: word(s2.stack_top(), s3.stack_top()),
            ..s3
        }
    }

    /// Return from subroutine: the program counter is pulled, low byte
    /// first, and moved one past the pulled address.
    pub open spec fn rts(self) -> Machine {
        let s1 = self.pull();
        let s2 = s1.pull();
        Machine { pc: wrap16(word(s1.stack_top(), s2.stack_top()) + 1), ..s2 }
    }

    /// The machine after `operation` has run.
    pub open spec fn execute(self, operation: Operation) -> Machine {
        match operation {
            Operation::ADC => self.adc(),
            Operation::AND => self.and(),
            Operation::ASL => self.asl(),
            Operation::BCC
            | Operation::BCS
            | Operation::BEQ
            | Operation::BNE
            | Operation::BMI
            | Operation::BPL
            | Operation::BVC
            | Operation::BVS => self.branch(self.branch_taken(operation)),
            Operation::BIT => self.bit_test(),
            Operation::BRK => self.brk(),
            Operation::CLC => self.set_flag(CARRY, false),
            Operation::CLD => self.set_flag(DECIMAL, false),
            Operation::CLI => self.set_flag(IRQ_DISABLE, false),
            Operation::CLV => self.set_flag(OVERFLOW, false),
            Operation::CMP => self.compare(self.acc),
            Operation::CPX => self.compare(self.x),
            Operation::CPY => self.compare(self.y),
            Operation::DEC => self.dec(),
            Operation::DEX => self.load_x(wrap8(self.x - 1)),
            Operation::DEY => self.load_y(wrap8(self.y - 1)),
            Operation::EOR => self.eor(),
            Operation::INC => self.inc(),
            Operation::INX => self.load_x(wrap8(self.x + 1)),
            Operation::INY => self.load_y(wrap8(self.y + 1)),
            Operation::JMP => Machine { pc: self.addr_abs, ..self },
            Operation::JSR => self.jsr(),
            Operation::LDA => self.fetch().load_acc(self.operand()),
            Operation::LDX => self.fetch().load_x(self.operand()),
            Operation::LDY => self.fetch().load_y(self.operand()),
            Operation::LSR => self.lsr(),
            Operation::NOP => self,
            Operation::ORA => self.ora(),
            Operation::PHA => self.push(self.acc),
            Operation::PHP => self.push(self.psr | BREAK | UNUSED),
            Operation::PLA => self.pla(),
            Operation::PLP => self.plp(),
            Operation::ROL => self.rol(),
            Operation::ROR => self.ror(),
            Operation::RTI => self.rti(),
            Operation::RTS => self.rts(),
            Operation::SBC => self.sbc(),
            Operation::SEC => self.set_flag(CARRY, true),
            Operation::SED => self.set_flag(DECIMAL, true),
            Operation::SEI => self.set_flag(IRQ_DISABLE, true),
            Operation::STA => self.write(self.addr_abs, self.acc),
            Operation::STX => self.write(self.addr_abs, self.x),
            Operation::STY => self.write(self.addr_abs, self.y),
            Operation::TAX => self.load_x(self.acc),
            Operation::TAY => self.load_y(self.acc),
            Operation::TSX => self.load_x(self.sp),
            Operation::TXA => self.load_acc(self.x),
            Operation::TXS => Machine { sp: self.x, ..self },
            Operation::TYA => self.load_acc(self.y),
            Operation::XXX => self,
        }
    }

    /// Extra cycles that `operation` owes in this state: those of a branch,
    /// one for a slow no-operation opcode, none otherwise.
    pub open spec fn execute_bonus(self, operation: Operation) -> u8 {
        match operation {
            Operation::BCC
            | Operation::BCS
            | Operation::BEQ
            | Operation::BNE
            | Operation::BMI
            | Operation::BPL
            | Operation::BVC
            | Operation::BVS => self.branch_bonus(self.branch_taken(operation)),
            Operation::NOP => bit(is_slow_nop(self.opcode)),
            _ => 0,
        }
    }

    // ---------------------------------------------------------------
    // The fetch-execute cycle and the control signals.
    // ---------------------------------------------------------------
    /// The machine after the opcode at the program counter is fetched: the
    /// opcode and its addressing mode are latched, Unused is forced to one,
    /// and the program counter stands on the first operand byte.
    pub open spec fn fetch_opcode(self) -> Machine {
        let opcode = self.read(self.pc);
        Machine {
            opcode,
            addr_mode_name: instruction_at(opcode).address_mode,
            psr: with_flag(self.psr, UNUSED, true),
            pc: self.pc_plus(1),
            ..self
        }
    }

    /// The machine after the opcode is fetched and its operand resolved,
    /// before the operation runs.
    pub open spec fn decode(self) -> Machine {
        self.fetch_opcode().resolve(instruction_at(self.read(self.pc)).address_mode)
    }

    /// Cycles that the instruction at the program counter takes: the base
    /// count of its table entry plus what resolver and operation owe.
    pub open spec fn instruction_cycles(self) -> int {
        let ins = instruction_at(self.read(self.pc));
        let resolver_extra = self.fetch_opcode().resolve_bonus(ins.address_mode);
        let operation_extra = self.decode().execute_bonus(ins.operation);
        ins.cycles + resolver_extra + operation_extra
    }

    /// The machine after the instruction at the program counter has run
    /// whole, with the cycles it still owes after the one just spent.
    pub open spec fn step(self) -> Machine {
        let done = self.decode().execute(instruction_at(self.read(self.pc)).operation);
        let total = self.instruction_cycles();
        Machine {
            psr: with_flag(done.psr, UNUSED, true),
            cycles: if total > 0 {
                (total - 1) as u8
            } else {
                0
            },
            ..done
        }
    }

    /// One clock tick: between instructions the next one runs whole; within
    /// an instruction one owed cycle is paid off.
    pub open spec fn clock(self) -> Machine {
        if self.cycles == 0 {
            self.step()
        } else {
            Machine { cycles: (self.cycles - 1) as u8, ..self }
        }
    }

    /// The machine after a reset: registers cleared, the stack pointer and
    /// the status at their reset values, the program counter loaded from
    /// the reset vector.
    pub open spec fn reset(self) -> Machine {
        Machine {
            pc: self.read_word(RESET_VECTOR),
            acc: 0,
            x: 0,
            y: 0,
            sp: RESET_SP,
            psr: UNUSED,
            fetched: 0,
            addr_rel: 0,
            addr_abs: 0,
            cycles: RESET_CYCLES,
            ..self
        }
    }

    /// The status that an interrupt pushes and keeps: Break cleared, Unused
    /// and Interrupt-disable set.
    pub open spec fn interrupt_status(psr: u8) -> u8 {
        with_flag(with_flag(with_flag(psr, BREAK, false), UNUSED, true), IRQ_DISABLE, true)
    }

    /// The machine after an interrupt is entered through `vector`: the
    /// program counter (high byte first) and the status are pushed, and
    /// execution continues at the address in the vector after `cycles`
    /// cycles.
    pub open spec fn interrupt(self, vector: u16, cycles: u8) -> Machine {
        let psr = Self::interrupt_status(self.psr);
        let pushed = Machine { psr, ..self }.push(high(self.pc)).push(low(self.pc)).push(psr);
        Machine { addr_abs: vector, pc: pushed.read_word(vector), cycles, ..pushed }
    }

    /// Interrupt request: ignored while Interrupt-disable is set.
    pub open spec fn irq(self) -> Machine {
        if self.flag(IRQ_DISABLE) {
            self
        } else {
            self.interrupt(IRQ_VECTOR, IRQ_CYCLES)
        }
    }

    /// Non-maskable interrupt: entered whatever the flags say.
    pub open spec fn nmi(self) -> Machine {
        self.interrupt(NMI_VECTOR, NMI_CYCLES)
    }
}

} // verus!
