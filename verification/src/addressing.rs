//! Addressing-mode resolvers: each finds the operand of the instruction
//! whose opcode was just fetched, moves the program counter past the operand
//! bytes, and says whether an extra cycle is owed.

use crate::bits::{add16, add8, extend_sign, high_byte, low_byte, make_word, page_start};
use crate::lookup_table::AddrMode;
use crate::Cpu;
use vstd::prelude::*;

verus! {

impl Cpu {
    /// Accumulator: the accumulator is latched as the operand; no operand byte
    /// is read.
    pub fn ACC(cpu: &mut Cpu) -> (extra: u8)
        ensures
            final(cpu)@ == old(cpu)@.resolve(AddrMode::ACC),
            extra == old(cpu)@.resolve_bonus(AddrMode::ACC),
    {
        cpu.fetched = cpu.acc;
        0x00
    }

    /// Immediate: the operand is the byte at the program counter, which moves
    /// past it.
    pub fn IMM(cpu: &mut Cpu) -> (extra: u8)
        ensures
            final(cpu)@ == old(cpu)@.resolve(AddrMode::IMM),
            extra == old(cpu)@.resolve_bonus(AddrMode::IMM),
    {
        cpu.addr_abs = cpu.pc;
        cpu.pc = add16(cpu.pc, 1);
        0x00
    }

    /// Absolute: the two operand bytes, low first, are the effective address.
    pub fn ABS(cpu: &mut Cpu) -> (extra: u8)
        ensures
            final(cpu)@ == old(cpu)@.resolve(AddrMode::ABS),
            extra == old(cpu)@.resolve_bonus(AddrMode::ABS),
    {
        cpu.addr_abs = cpu.read_word(cpu.pc);
        cpu.pc = add16(cpu.pc, 2);
        0x00
    }

    /// Zero page: the operand byte is the effective address.
    pub fn ZP(cpu: &mut Cpu) -> (extra: u8)
        ensures
            final(cpu)@ == old(cpu)@.resolve(AddrMode::ZP),
            extra == old(cpu)@.resolve_bonus(AddrMode::ZP),
    {
        cpu.addr_abs = cpu.read(cpu.pc) as u16;
        cpu.pc = add16(cpu.pc, 1);
        0x00
    }

    /// Zero page indexed by X: X is added to the operand byte, wrapping within
    /// the zero page.
    pub fn ZPX(cpu: &mut Cpu) -> (extra: u8)
        ensures
            final(cpu)@ == old(cpu)@.resolve(AddrMode::ZPX),
            extra == old(cpu)@.resolve_bonus(AddrMode::ZPX),
    {
        cpu.addr_abs = add8(cpu.read(cpu.pc), cpu.x) as u16;
        cpu.pc = add16(cpu.pc, 1);
        0x00
    }

    /// Zero page indexed by Y: Y is added to the operand byte, wrapping within
    /// the zero page.
    pub fn ZPY(cpu: &mut Cpu) -> (extra: u8)
        ensures
            final(cpu)@ == old(cpu)@.resolve(AddrMode::ZPY),
            extra == old(cpu)@.resolve_bonus(AddrMode::ZPY),
    {
        cpu.addr_abs = add8(cpu.read(cpu.pc), cpu.y) as u16;
        cpu.pc = add16(cpu.pc, 1);
        0x00
    }

    /// Absolute indexed by X: X is added to the operand word; one extra cycle
    /// is owed when that crosses a page.
    pub fn ABSX(cpu: &mut Cpu) -> (extra: u8)
        ensures
            final(cpu)@ == old(cpu)@.resolve(AddrMode::ABSX),
            extra == old(cpu)@.resolve_bonus(AddrMode::ABSX),
    {
        let base = cpu.read_word(cpu.pc);
        cpu.pc = add16(cpu.pc, 2);
        cpu.addr_abs = add16(base, cpu.x as u16);
        if high_byte(cpu.addr_abs) != high_byte(base) {
            return 1;
        }
        0x00
    }

    /// Absolute indexed by Y: Y is added to the operand word; one extra cycle
    /// is owed when that crosses a page.
    pub fn ABSY(cpu: &mut Cpu) -> (extra: u8)
        ensures
            final(cpu)@ == old(cpu)@.resolve(AddrMode::ABSY),
            extra == old(cpu)@.resolve_bonus(AddrMode::ABSY),
    {
        let base = cpu.read_word(cpu.pc);
        cpu.pc = add16(cpu.pc, 2);
        cpu.addr_abs = add16(base, cpu.y as u16);
        if high_byte(cpu.addr_abs) != high_byte(base) {
            return 1;
        }
        0x00
    }

    /// Implied: the accumulator is latched as the operand; no operand byte is
    /// read.
    pub fn IMP(cpu: &mut Cpu) -> (extra: u8)
        ensures
            final(cpu)@ == old(cpu)@.resolve(AddrMode::IMP),
            extra == old(cpu)@.resolve_bonus(AddrMode::IMP),
    {
        cpu.fetched = cpu.acc;
        0x00
    }

    /// Relative: the operand byte is latched as a signed displacement.
    pub fn REL(cpu: &mut Cpu) -> (extra: u8)
        ensures
            final(cpu)@ == old(cpu)@.resolve(AddrMode::REL),
            extra == old(cpu)@.resolve_bonus(AddrMode::REL),
    {
        cpu.addr_rel = extend_sign(cpu.read(cpu.pc));
        cpu.pc = add16(cpu.pc, 1);
        0x00
    }

    /// Indexed indirect: X is added to the operand byte within the zero page,
    /// and the effective address is read from there.
    pub fn INDX(cpu: &mut Cpu) -> (extra: u8)
        ensures
            final(cpu)@ == old(cpu)@.resolve(AddrMode::INDX),
            extra == old(cpu)@.resolve_bonus(AddrMode::INDX),
    {
        let ptr = add8(cpu.read(cpu.pc), cpu.x);
        cpu.pc = add16(cpu.pc, 1);
        let lo = cpu.read(ptr as u16);
        let hi = cpu.read(add8(ptr, 1) as u16);
        cpu.addr_abs = make_word(lo, hi);
        0x00
    }

    /// Indirect indexed: Y is added to the address read from the zero page at
    /// the operand byte; one extra cycle is owed when that crosses a page.
    pub fn INDY(cpu: &mut Cpu) -> (extra: u8)
        ensures
            final(cpu)@ == old(cpu)@.resolve(AddrMode::INDY),
            extra == old(cpu)@.resolve_bonus(AddrMode::INDY),
    {
        let ptr = cpu.read(cpu.pc);
        cpu.pc = add16(cpu.pc, 1);
        let lo = cpu.read(ptr as u16);
        let hi = cpu.read(add8(ptr, 1) as u16);
        let base = make_word(lo, hi);
        cpu.addr_abs = add16(base, cpu.y as u16);
        if high_byte(cpu.addr_abs) != high_byte(base) {
            return 1;
        }
        0x00
    }

    /// Absolute indirect: the effective address is read from the pointer that
    /// the operand word gives; the high byte of a pointer at the end of a page
    /// comes from the start of that page.
    pub fn ABSIND(cpu: &mut Cpu) -> (extra: u8)
        ensures
            final(cpu)@ == old(cpu)@.resolve(AddrMode::ABSIND),
            extra == old(cpu)@.resolve_bonus(AddrMode::ABSIND),
    {
        let ptr = cpu.read_word(cpu.pc);
        cpu.pc = add16(cpu.pc, 2);
        let lo = cpu.read(ptr);
        let hi = if low_byte(ptr) == 0xFF {
            cpu.read(page_start(ptr))
        } else {
            cpu.read(ptr + 1)
        };
        cpu.addr_abs = make_word(lo, hi);
        0x00
    }

    /// Runs the resolver of `mode`.
    pub fn resolve(cpu: &mut Cpu, mode: AddrMode) -> (extra: u8)
        ensures
            final(cpu)@ == old(cpu)@.resolve(mode),
            extra == old(cpu)@.resolve_bonus(mode),
    {
        match mode {
            AddrMode::IMP => Cpu::IMP(cpu),
            AddrMode::ACC => Cpu::ACC(cpu),
            AddrMode::IMM => Cpu::IMM(cpu),
            AddrMode::ZP => Cpu::ZP(cpu),
            AddrMode::ZPX => Cpu::ZPX(cpu),
            AddrMode::ZPY => Cpu::ZPY(cpu),
            AddrMode::ABS => Cpu::ABS(cpu),
            AddrMode::ABSX => Cpu::ABSX(cpu),
            AddrMode::ABSY => Cpu::ABSY(cpu),
            AddrMode::REL => Cpu::REL(cpu),
            AddrMode::INDX => Cpu::INDX(cpu),
            AddrMode::INDY => Cpu::INDY(cpu),
            AddrMode::ABSIND => Cpu::ABSIND(cpu),
            AddrMode::XXX => Cpu::XXX(cpu),
        }
    }
}

} // verus!
