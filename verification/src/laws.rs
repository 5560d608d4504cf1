//! Laws of the processor that hold in every state.

use crate::flags::{
    flag_is_set, with_flag, with_zn, BREAK, CARRY, DECIMAL, IRQ_DISABLE, NEGATIVE, OVERFLOW,
    UNUSED, ZERO,
};
use crate::lookup_table::{instruction_at, AddrMode, Operation};
use crate::machine::{bit, high, low, signed_overflow, word, wrap16, wrap8, Machine};
use vstd::prelude::*;

verus! {

/// The flags that `operation` is defined to affect, as a mask over the
/// status register.
pub open spec fn affected_flags(operation: Operation) -> u8 {
    match operation {
        Operation::ADC | Operation::SBC => CARRY | ZERO | NEGATIVE | OVERFLOW,
        Operation::ASL | Operation::LSR | Operation::ROL | Operation::ROR => CARRY | ZERO
            | NEGATIVE,
        Operation::CMP | Operation::CPX | Operation::CPY => ZERO | CARRY | NEGATIVE,
        Operation::BIT => ZERO | NEGATIVE | OVERFLOW,
        Operation::AND
        | Operation::ORA
        | Operation::EOR
        | Operation::LDA
        | Operation::LDX
        | Operation::LDY
        | Operation::INC
        | Operation::DEC
        | Operation::INX
        | Operation::INY
        | Operation::DEX
        | Operation::DEY
        | Operation::TAX
        | Operation::TAY
        | Operation::TSX
        | Operation::TXA
        | Operation::TYA
        | Operation::PLA => ZERO | NEGATIVE,
        Operation::CLC | Operation::SEC => CARRY,
        Operation::CLD | Operation::SED => DECIMAL,
        Operation::CLI | Operation::SEI => IRQ_DISABLE,
        Operation::CLV => OVERFLOW,
        Operation::BRK => IRQ_DISABLE | BREAK,
        Operation::PLP | Operation::RTI => 0xFF,
        Operation::BCC
        | Operation::BCS
        | Operation::BEQ
        | Operation::BNE
        | Operation::BMI
        | Operation::BPL
        | Operation::BVC
        | Operation::BVS
        | Operation::JMP
        | Operation::JSR
        | Operation::RTS
        | Operation::NOP
        | Operation::PHA
        | Operation::PHP
        | Operation::STA
        | Operation::STX
        | Operation::STY
        | Operation::TXS
        | Operation::XXX => 0x00,
    }
}

/// Each way in which an operation writes flags leaves the bits outside the
/// written flags as they were.
proof fn lemma_flag_writes(p: u8, q: u8, v: u8, a: bool, b: bool, c: bool)
    by (bit_vector)
    ensures
        with_flag(with_zn(with_flag(p, CARRY, a), v), OVERFLOW, b) & !(CARRY | ZERO | NEGATIVE
            | OVERFLOW) == p & !(CARRY | ZERO | NEGATIVE | OVERFLOW),
        with_zn(with_flag(p, CARRY, a), v) & !(CARRY | ZERO | NEGATIVE) == p & !(CARRY | ZERO
            | NEGATIVE),
        with_flag(with_flag(with_flag(p, ZERO, a), CARRY, b), NEGATIVE, c) & !(ZERO | CARRY
            | NEGATIVE) == p & !(ZERO | CARRY | NEGATIVE),
        with_flag(with_flag(with_flag(p, ZERO, a), NEGATIVE, b), OVERFLOW, c) & !(ZERO | NEGATIVE
            | OVERFLOW) == p & !(ZERO | NEGATIVE | OVERFLOW),
        with_zn(p, v) & !(ZERO | NEGATIVE) == p & !(ZERO | NEGATIVE),
        with_flag(p, CARRY, a) & !CARRY == p & !CARRY,
        with_flag(p, DECIMAL, a) & !DECIMAL == p & !DECIMAL,
        with_flag(p, IRQ_DISABLE, a) & !IRQ_DISABLE == p & !IRQ_DISABLE,
        with_flag(p, OVERFLOW, a) & !OVERFLOW == p & !OVERFLOW,
        with_flag(with_flag(p, IRQ_DISABLE, true), BREAK, false) & !(IRQ_DISABLE | BREAK) == p
            & !(IRQ_DISABLE | BREAK),
        p & !0xFFu8 == q & !0xFFu8,
{
}

/// Flag purity: whatever the state, an operation leaves every flag that it
/// is not defined to affect exactly as it was.
pub proof fn lemma_flag_purity(s: Machine, operation: Operation)
    ensures
        s.execute(operation).psr & !affected_flags(operation) == s.psr & !affected_flags(
            operation,
        ),
{
    let p = s.psr;
    let m = s.operand();
    let c = s.carry();
    match operation {
        Operation::ADC => {
            let sum = s.acc + m + c;
            lemma_flag_writes(
                p,
                p,
                wrap8(sum),
                sum > 255,
                signed_overflow(s.acc, m, wrap8(sum)),
                false,
            );
        },
        Operation::SBC => {
            let value = (255 - m) as u8;
            let sum = s.acc + value + c;
            lemma_flag_writes(
                p,
                p,
                wrap8(sum),
                sum > 255,
                signed_overflow(s.acc, value, wrap8(sum)),
                false,
            );
        },
        Operation::ASL => {
            lemma_flag_writes(p, p, wrap8(m * 2), m >= 0x80, false, false);
        },
        Operation::LSR => {
            lemma_flag_writes(p, p, (m / 2) as u8, m % 2 == 1, false, false);
        },
        Operation::ROL => {
            lemma_flag_writes(p, p, wrap8(m * 2 + c), m >= 0x80, false, false);
        },
        Operation::ROR => {
            lemma_flag_writes(p, p, (m / 2 + 128 * c) as u8, m % 2 == 1, false, false);
        },
        Operation::CMP => {
            lemma_flag_writes(
                p,
                p,
                0,
                s.acc == m,
                s.acc >= m,
                wrap8(s.acc - m) >= 0x80,
            );
        },
        Operation::CPX => {
            lemma_flag_writes(p, p, 0, s.x == m, s.x >= m, wrap8(s.x - m) >= 0x80);
        },
        Operation::CPY => {
            lemma_flag_writes(p, p, 0, s.y == m, s.y >= m, wrap8(s.y - m) >= 0x80);
        },
        Operation::BIT => {
            lemma_flag_writes(
                p,
                p,
                0,
                s.acc & m == 0,
                flag_is_set(m, NEGATIVE),
                flag_is_set(m, OVERFLOW),
            );
        },
        Operation::AND => {
            lemma_flag_writes(p, p, s.acc & m, false, false, false);
        },
        Operation::ORA => {
            lemma_flag_writes(p, p, s.acc | m, false, false, false);
        },
        Operation::EOR => {
            lemma_flag_writes(p, p, s.acc ^ m, false, false, false);
        },
        Operation::LDA | Operation::LDX | Operation::LDY => {
            lemma_flag_writes(p, p, m, false, false, false);
        },
        Operation::INC => {
            lemma_flag_writes(p, p, wrap8(m + 1), false, false, false);
        },
        Operation::DEC => {
            lemma_flag_writes(p, p, wrap8(m - 1), false, false, false);
        },
        Operation::INX => {
            lemma_flag_writes(p, p, wrap8(s.x + 1), false, false, false);
        },
        Operation::INY => {
            lemma_flag_writes(p, p, wrap8(s.y + 1), false, false, false);
        },
        Operation::DEX => {
            lemma_flag_writes(p, p, wrap8(s.x - 1), false, false, false);
        },
        Operation::DEY => {
            lemma_flag_writes(p, p, wrap8(s.y - 1), false, false, false);
        },
        Operation::TAX | Operation::TAY => {
            lemma_flag_writes(p, p, s.acc, false, false, false);
        },
        Operation::TSX => {
            lemma_flag_writes(p, p, s.sp, false, false, false);
        },
        Operation::TXA => {
            lemma_flag_writes(p, p, s.x, false, false, false);
        },
        Operation::TYA => {
            lemma_flag_writes(p, p, s.y, false, false, false);
        },
        Operation::PLA => {
            lemma_flag_writes(p, p, s.pull().stack_top(), false, false, false);
        },
        Operation::CLC | Operation::CLD | Operation::CLI | Operation::CLV => {
            lemma_flag_writes(p, p, 0, false, false, false);
        },
        Operation::SEC | Operation::SED | Operation::SEI => {
            lemma_flag_writes(p, p, 0, true, false, false);
        },
        Operation::BRK => {
            lemma_flag_writes(p, p, 0, false, false, false);
        },
        Operation::PLP | Operation::RTI => {
            lemma_flag_writes(s.execute(operation).psr, p, 0, false, false, false);
        },
        _ => {},
    }
}

/// Forcing Unused before and after an operation touches no flag but Unused.
proof fn lemma_unused_around(p: u8, q: u8, m: u8)
    by (bit_vector)
    requires
        q & !m == with_flag(p, UNUSED, true) & !m,
    ensures
        with_flag(q, UNUSED, true) & !(m | UNUSED) == p & !(m | UNUSED),
        flag_is_set(with_flag(q, UNUSED, true), UNUSED),
{
}

/// Flag purity of a whole instruction: when the instruction at the program
/// counter has run, every flag is as before but Unused, which is forced to
/// one, and the flags that its operation is defined to affect.
pub proof fn lemma_instruction_flag_purity(s: Machine)
    ensures
        ({
            let affected = affected_flags(instruction_at(s.read(s.pc)).operation);
            s.step().psr & !(affected | UNUSED) == s.psr & !(affected | UNUSED)
        }),
        s.step().flag(UNUSED),
{
    let operation = instruction_at(s.read(s.pc)).operation;
    let decoded = s.decode();
    lemma_resolve_keeps_status(s.fetch_opcode(), instruction_at(s.read(s.pc)).address_mode);
    lemma_flag_purity(decoded, operation);
    lemma_unused_around(s.psr, decoded.execute(operation).psr, affected_flags(operation));
}

/// No resolver touches the status register, the registers or memory.
pub proof fn lemma_resolve_keeps_status(s: Machine, mode: AddrMode)
    ensures
        s.resolve(mode).psr == s.psr,
        s.resolve(mode).acc == s.acc,
        s.resolve(mode).x == s.x,
        s.resolve(mode).y == s.y,
        s.resolve(mode).sp == s.sp,
        s.resolve(mode).mem == s.mem,
{
}

/// What the stack operations rely on when they read back what was pushed.
proof fn lemma_pushed_status(p: u8)
    by (bit_vector)
    ensures
        with_flag(p | BREAK | UNUSED, UNUSED, true) == p | BREAK | UNUSED,
{
}

/// Stack round trip of the accumulator: whatever happens to the accumulator
/// and the flags after it was pushed, pulling it restores the pushed value
/// and leaves the stack pointer where it was before the push.
pub proof fn lemma_push_pull_accumulator(s: Machine, scratch: u8, flags: u8)
    requires
        s.wf(),
    ensures
        ({
            let pushed = s.execute(Operation::PHA);
            let pulled = (Machine { acc: scratch, psr: flags, ..pushed }).execute(Operation::PLA);
            pulled.acc == s.acc && pulled.sp == s.sp
        }),
{
    let pushed = s.push(s.acc);
    assert(s.execute(Operation::PHA) == pushed);
    let clobbered = Machine { acc: scratch, psr: flags, ..pushed };
    lemma_stack_pointer_returns(s.sp);
    assert(clobbered.pull().sp == s.sp);
    assert(clobbered.pull().stack_top() == s.acc);
    assert(clobbered.execute(Operation::PLA) == clobbered.pla());
}

/// Moving the stack pointer down by one and up again gives it back.
proof fn lemma_stack_pointer_returns(sp: u8)
    ensures
        wrap8(wrap8(sp - 1) + 1) == sp,
{
}

/// Stack round trip of a byte: pulling right after a push gives the pushed
/// byte back and leaves the stack pointer where it was before the push,
/// also when it wraps around the stack page.
pub proof fn lemma_push_pull(s: Machine, data: u8)
    requires
        s.wf(),
    ensures
        s.push(data).pull().stack_top() == data,
        s.push(data).pull().sp == s.sp,
{
    lemma_stack_pointer_returns(s.sp);
}

/// Unused is forced to one where the status register is rewritten outside
/// the fetch: when the status is pulled, on reset, and on interrupt entry,
/// which also sets Interrupt-disable and clears Break.
pub proof fn lemma_unused_is_forced(s: Machine, vector: u16, cycles: u8)
    ensures
        s.plp().flag(UNUSED),
        s.reset().flag(UNUSED),
        s.interrupt(vector, cycles).flag(UNUSED),
        s.interrupt(vector, cycles).flag(IRQ_DISABLE),
        !s.interrupt(vector, cycles).flag(BREAK),
{
    lemma_forced_bits(s.psr, s.pull().stack_top());
}

/// What an interrupt leaves on the stack: the status that it keeps on top,
/// the program counter of the interrupted program below it, low byte first,
/// and the stack pointer three cells further down.
pub proof fn lemma_interrupt_frame(s: Machine, vector: u16, cycles: u8)
    requires
        s.wf(),
    ensures
        ({
            let entered = s.interrupt(vector, cycles);
            let status = entered.pull();
            let pc_low = status.pull();
            let pc_high = pc_low.pull();
            &&& status.stack_top() == entered.psr
            &&& word(pc_low.stack_top(), pc_high.stack_top()) == s.pc
            &&& pc_high.sp == s.sp
        }),
{
    let psr = Machine::interrupt_status(s.psr);
    let first = (Machine { psr, ..s }).push(high(s.pc));
    let second = first.push(low(s.pc));
    let third = second.push(psr);
    lemma_stack_pointer_returns(s.sp);
    lemma_stack_pointer_returns(first.sp);
    lemma_stack_pointer_returns(second.sp);
    let entered = s.interrupt(vector, cycles);
    assert(entered.mem == third.mem && entered.sp == third.sp);
    let status = entered.pull();
    assert(status.sp == second.sp);
    let pc_low = status.pull();
    assert(pc_low.sp == first.sp);
    let pc_high = pc_low.pull();
    assert(pc_high.sp == s.sp);
    assert(status.stack_top() == psr);
    assert(pc_low.stack_top() == low(s.pc));
    assert(pc_high.stack_top() == high(s.pc));
}

/// The bits that rewriting the status register forces.
proof fn lemma_forced_bits(p: u8, q: u8)
    by (bit_vector)
    ensures
        flag_is_set(with_flag(q, UNUSED, true), UNUSED),
        flag_is_set(UNUSED, UNUSED),
        flag_is_set(
            with_flag(with_flag(with_flag(p, BREAK, false), UNUSED, true), IRQ_DISABLE, true),
            UNUSED,
        ),
        flag_is_set(
            with_flag(with_flag(with_flag(p, BREAK, false), UNUSED, true), IRQ_DISABLE, true),
            IRQ_DISABLE,
        ),
        !flag_is_set(
            with_flag(with_flag(with_flag(p, BREAK, false), UNUSED, true), IRQ_DISABLE, true),
            BREAK,
        ),
{
}

/// Reducing modulo 65536 in between does not change a sum reduced modulo
/// 65536.
proof fn lemma_wrap16_twice(a: int, k: int)
    ensures
        wrap16(wrap16(a) + k) == wrap16(a + k),
{
}

/// Stack round trip of the status: whatever happens to the status after it
/// was pushed, pulling it restores the pushed value with Break and Unused
/// set, and leaves the stack pointer where it was before the push.
pub proof fn lemma_push_pull_status(s: Machine, flags: u8)
    requires
        s.wf(),
    ensures
        ({
            let pushed = s.execute(Operation::PHP);
            let pulled = (Machine { psr: flags, ..pushed }).execute(Operation::PLP);
            pulled.psr == s.psr | BREAK | UNUSED && pulled.sp == s.sp
        }),
{
    lemma_pushed_status(s.psr);
    let pushed = s.push(s.psr | BREAK | UNUSED);
    assert(s.execute(Operation::PHP) == pushed);
    let clobbered = Machine { psr: flags, ..pushed };
    lemma_stack_pointer_returns(s.sp);
    assert(clobbered.pull().sp == s.sp);
    assert(clobbered.pull().stack_top() == s.psr | BREAK | UNUSED);
    assert(clobbered.execute(Operation::PLP) == clobbered.plp());
}

/// Return from interrupt undoes interrupt entry: the interrupted program
/// continues where it was, with the stack pointer it had, whatever the
/// handler did to the registers in between.
pub proof fn lemma_interrupt_returns(s: Machine, vector: u16, cycles: u8, handler: Machine)
    requires
        s.wf(),
        handler.mem == s.interrupt(vector, cycles).mem,
        handler.sp == s.interrupt(vector, cycles).sp,
    ensures
        handler.rti().pc == s.pc,
        handler.rti().sp == s.sp,
{
    lemma_interrupt_frame(s, vector, cycles);
    let entered = s.interrupt(vector, cycles);
    assert(handler.pull().stack_addr() == entered.pull().stack_addr());
    assert(handler.pull().pull().stack_addr() == entered.pull().pull().stack_addr());
    assert(handler.pull().pull().pull().stack_addr() == entered.pull().pull().pull().stack_addr());
}

/// Splitting a 16-bit value into its bytes and joining them gives it back.
proof fn lemma_word_of_bytes(v: u16)
    ensures
        word(low(v), high(v)) == v,
{
}

/// Return from subroutine undoes the call: execution continues behind the
/// calling instruction, with the stack pointer it had, whatever the
/// subroutine did to the registers in between.
pub proof fn lemma_subroutine_returns(s: Machine, subroutine: Machine)
    requires
        s.wf(),
        subroutine.mem == s.jsr().mem,
        subroutine.sp == s.jsr().sp,
    ensures
        s.jsr().pc == s.addr_abs,
        subroutine.rts().pc == s.pc,
        subroutine.rts().sp == s.sp,
{
    let ret = s.pc_plus(-1);
    let first = s.push(high(ret));
    let second = first.push(low(ret));
    assert(s.jsr().mem == second.mem && s.jsr().sp == second.sp);
    lemma_stack_pointer_returns(s.sp);
    lemma_stack_pointer_returns(first.sp);
    let pulled_low = subroutine.pull();
    assert(pulled_low.sp == first.sp);
    let pulled_high = pulled_low.pull();
    assert(pulled_high.sp == s.sp);
    assert(pulled_low.stack_top() == low(ret));
    assert(pulled_high.stack_top() == high(ret));
    lemma_word_of_bytes(ret);
    lemma_wrap16_twice(s.pc - 1, 1);
}

/// Whether `mode` adds an index that can carry into the high byte of the
/// address.
pub open spec fn can_cross_page(mode: AddrMode) -> bool {
    mode == AddrMode::ABSX || mode == AddrMode::ABSY || mode == AddrMode::INDY
}

/// Whether `operation` is one of the eight branches.
pub open spec fn is_branch(operation: Operation) -> bool {
    operation == Operation::BCC || operation == Operation::BCS || operation == Operation::BEQ
        || operation == Operation::BNE || operation == Operation::BMI || operation
        == Operation::BPL || operation == Operation::BVC || operation == Operation::BVS
}

/// Page-cross cycle accounting: an instruction that is no branch takes its
/// base cycle count, and exactly one cycle more when its addressing mode
/// adds an index that carries the address onto another page, so that the
/// high byte after the addition differs from the high byte before. The
/// zero-page modes wrap within their page and never owe the cycle.
pub proof fn lemma_page_cross_costs_one_cycle(s: Machine)
    requires
        !is_branch(instruction_at(s.read(s.pc)).operation),
    ensures
        ({
            let entry = instruction_at(s.read(s.pc));
            let after_fetch = s.fetch_opcode();
            let base = after_fetch.index_base(entry.address_mode);
            let indexed = after_fetch.resolve(entry.address_mode).addr_abs;
            let crossed = can_cross_page(entry.address_mode) && high(indexed) != high(base);
            s.instruction_cycles() == entry.cycles + bit(crossed)
        }),
{
    lemma_extra_cycles_in_the_table(s.read(s.pc));
}

/// In the instruction set every branch is relative, and the one opcode of
/// the no-operation is none of the slow ones.
proof fn lemma_extra_cycles_in_the_table(opcode: u8)
    ensures
        is_branch(instruction_at(opcode).operation) ==> instruction_at(opcode).address_mode
            == AddrMode::REL,
        instruction_at(opcode).operation == Operation::NOP ==> !crate::machine::is_slow_nop(
            opcode,
        ),
{
}

/// Branch cycle accounting: a branch instruction that is not taken takes
/// its base cycle count; taken, it takes one cycle more, and two more when
/// its target lies on another page than the instruction that follows it.
pub proof fn lemma_branch_costs(s: Machine)
    requires
        is_branch(instruction_at(s.read(s.pc)).operation),
    ensures
        ({
            let entry = instruction_at(s.read(s.pc));
            let before = s.decode();
            let taken = before.branch_taken(entry.operation);
            let target = wrap16(before.pc + before.addr_rel);
            &&& before.pc == wrap16(s.pc + 2)
            &&& !taken ==> s.instruction_cycles() == entry.cycles && s.step().pc == before.pc
            &&& taken && high(target) == high(before.pc)
                ==> s.instruction_cycles() == entry.cycles + 1 && s.step().pc == target
            &&& taken && high(target) != high(before.pc)
                ==> s.instruction_cycles() == entry.cycles + 2 && s.step().pc == target
        }),
{
    let entry = instruction_at(s.read(s.pc));
    lemma_extra_cycles_in_the_table(s.read(s.pc));
    assert(entry.address_mode == AddrMode::REL);
    let after_fetch = s.fetch_opcode();
    let before = after_fetch.relative();
    assert(s.decode() == before);
    lemma_wrap16_twice(s.pc + 1, 1);
    assert(before.pc == wrap16(s.pc + 2));
    assert(after_fetch.resolve_bonus(AddrMode::REL) == 0);
    let taken = before.branch_taken(entry.operation);
    assert(before.execute(entry.operation) == before.branch(taken));
    assert(before.execute_bonus(entry.operation) == before.branch_bonus(taken));
    assert(s.step().pc == before.branch(taken).pc);
}

/// Byte-count parity of disassembly and execution: fetching the instruction
/// at the program counter and resolving its operand moves the program
/// counter by exactly the number of bytes that the disassembler takes for
/// the instruction there.
pub proof fn lemma_disassembly_parity(s: Machine)
    ensures
        s.decode().pc == wrap16(s.pc + s.instruction_len(s.pc)),
{
}

/// A pass that finds an instruction also finds the one behind it, as long
/// as that one starts below the end of the pass.
pub proof fn lemma_pass_continues(s: Machine, start: int, stop: int, addr: int)
    requires
        s.pass_reaches(start, stop, addr),
        addr + s.instruction_len(wrap16(addr)) < stop,
    ensures
        s.pass_reaches(start, stop, addr + s.instruction_len(wrap16(addr))),
    decreases
        (if start < stop {
            stop - start
        } else {
            0
        }),
{
    let next = addr + s.instruction_len(wrap16(addr));
    if start == addr {
        assert(s.pass_reaches(next, stop, next));
    } else {
        lemma_pass_continues(s, start + s.instruction_len(wrap16(start)), stop, addr);
    }
}

/// Disassembly and execution stay in lockstep: when a listing holds the
/// line of the instruction at the program counter, and that instruction
/// ends below the end of the listing, then fetching the instruction and
/// resolving its operand leaves the program counter on the next line of
/// the listing.
pub proof fn lemma_listing_follows_execution(s: Machine, start: u16, stop: u16)
    requires
        s.pass_reaches(start as int, stop as int, s.pc as int),
        s.pc + s.instruction_len(s.pc) < stop,
    ensures
        s.pass_reaches(start as int, stop as int, s.decode().pc as int),
{
    lemma_disassembly_parity(s);
    lemma_pass_continues(s, start as int, stop as int, s.pc as int);
}

/// An interrupt request while Interrupt-disable is set changes nothing: no
/// register, no owed cycle, no byte of memory.
pub proof fn lemma_masked_irq_is_ignored(s: Machine)
    requires
        s.flag(IRQ_DISABLE),
    ensures
        s.irq() == s,
{
}

/// Reset determinism: whatever the registers held, after a reset they hold
/// their reset values, the program counter holds the reset vector, and
/// exactly eight clock ticks pass before the next instruction is fetched.
pub proof fn lemma_reset_is_deterministic(s: Machine, t: Machine)
    requires
        s.mem == t.mem,
    ensures
        s.reset().acc == 0 && s.reset().x == 0 && s.reset().y == 0,
        s.reset().sp == 0xFD,
        s.reset().psr == UNUSED,
        s.reset().pc == s.read_word(0xFFFC),
        s.reset().cycles == 8,
        s.reset().mem == s.mem,
        s.reset().acc == t.reset().acc && s.reset().x == t.reset().x && s.reset().y
            == t.reset().y && s.reset().sp == t.reset().sp && s.reset().psr == t.reset().psr
            && s.reset().pc == t.reset().pc && s.reset().cycles == t.reset().cycles,
        s.reset().clock().clock().clock().clock().clock().clock().clock().clock().cycles == 0,
        s.reset().clock().clock().clock().clock().clock().clock().clock().clock().pc
            == s.reset().pc,
        s.reset().clock().clock().clock().clock().clock().clock().clock().cycles == 1,
{
}

} // verus!
