//! An instruction-level simulator of a 6502-class 8-bit processor: its
//! registers and status flags, the resolution of addressing modes, the
//! execution of instructions, and reset and interrupt handling, against a
//! 64 KiB byte-addressable memory.
#![allow(non_snake_case)]

pub mod addressing;
mod bits;
pub mod bus;
pub mod control;
pub mod disassembler;
pub mod flags;
pub mod laws;
pub mod lookup_table;
pub mod machine;
pub mod operations;

use crate::bits::{add16, add8, make_word, sub8};
use crate::bus::{Bus, BusRead, BusWrite};
pub use crate::flags::FLAGS;
use crate::lookup_table::AddrMode;
use crate::machine::{bit, Machine};
use vstd::prelude::*;

verus! {

/// The processor core together with the bus it drives.
pub struct Cpu {
    /// The memory that the processor reads and writes.
    pub bus: Bus,
    /// X index register.
    pub x: u8,
    /// Y index register.
    pub y: u8,
    /// Stack pointer, an offset into the stack page.
    pub sp: u8,
    /// Program counter.
    pub pc: u16,
    /// Accumulator.
    pub acc: u8,
    /// Status register.
    pub psr: u8,
    /// Operand byte of the current instruction.
    pub fetched: u8,
    /// Opcode byte of the current instruction.
    pub opcode: u8,
    /// Branch displacement of the current instruction, sign-extended.
    pub addr_rel: u16,
    /// Addressing mode of the current instruction.
    pub addr_mode_name: AddrMode,
    /// Effective address of the current instruction.
    pub addr_abs: u16,
    /// Cycles left before the next instruction is fetched.
    pub cycles: u8,
}

impl View for Cpu {
    type V = Machine;

    open spec fn view(&self) -> Machine {
        Machine {
            mem: self.bus@,
            x: self.x,
            y: self.y,
            sp: self.sp,
            pc: self.pc,
            acc: self.acc,
            psr: self.psr,
            fetched: self.fetched,
            opcode: self.opcode,
            addr_rel: self.addr_rel,
            addr_mode_name: self.addr_mode_name,
            addr_abs: self.addr_abs,
            cycles: self.cycles,
        }
    }
}

impl Cpu {
    /// A processor on `bus` with every register zero, between instructions.
    pub fn new(bus: Bus) -> (cpu: Cpu)
        ensures
            cpu@ == (Machine {
                mem: bus@,
                x: 0,
                y: 0,
                sp: 0,
                pc: 0,
                acc: 0,
                psr: 0,
                fetched: 0,
                opcode: 0,
                addr_rel: 0,
                addr_mode_name: AddrMode::XXX,
                addr_abs: 0,
                cycles: 0,
            }),
            cpu@.wf(),
    {
        proof {
            use_type_invariant(&bus);
        }
        Cpu {
            bus,
            x: 0x00,
            y: 0x00,
            acc: 0x00,
            pc: 0x0000,
            psr: 0x00,
            sp: 0x00,
            fetched: 0x00,
            addr_abs: 0x0000,
            addr_rel: 0x0000,
            addr_mode_name: AddrMode::XXX,
            cycles: 0,
            opcode: 0x00,
        }
    }

    /// Reads the byte at `addr`; nothing changes.
    pub fn read(&mut self, addr: u16) -> (data: u8)
        ensures
            final(self)@ == old(self)@,
            final(self)@.wf(),
            data == old(self)@.read(addr),
    {
        proof {
            use_type_invariant(&self.bus);
        }
        self.bus.read(addr, false)
    }

    /// Stores `data` at `addr`.
    pub fn write(&mut self, addr: u16, data: u8)
        ensures
            final(self)@ == old(self)@.write(addr, data),
    {
        self.bus.write(addr, data);
    }

    /// One when a bit of the mask `f` is set in the status register, zero
    /// otherwise.
    pub fn get_flag(&self, f: u8) -> (on: u8)
        ensures
            on == bit(self@.flag(f)),
    {
        if self.psr & f > 0 {
            return 1;
        }
        0x00
    }

    /// Sets the bits of the mask `f` in the status register when `val`
    /// holds, and clears them otherwise; no other bit changes.
    pub fn set_flag(&mut self, f: u8, val: bool)
        ensures
            final(self)@ == old(self)@.set_flag(f, val),
    {
        if val {
            self.psr |= f;
        } else {
            self.psr &= !f;
        }
    }

    /// Latches and returns the operand of the current instruction: the
    /// byte at the effective address, unless the accumulator is the operand.
    pub fn fetch(&mut self) -> (operand: u8)
        ensures
            final(self)@ == old(self)@.fetch(),
            operand == old(self)@.operand(),
    {
        if !self.addr_mode_name.is_accumulator() {
            self.fetched = self.read(self.addr_abs);
        }
        self.fetched
    }

    /// Whether the processor stands between two instructions.
    pub fn complete(&self) -> (done: bool)
        ensures
            done == (self@.cycles == 0),
    {
        self.cycles == 0
    }

    /// Takes Zero and Negative from `value`.
    pub(crate) fn set_zn(&mut self, value: u8)
        ensures
            final(self)@ == old(self)@.set_zn(value),
    {
        self.set_flag(FLAGS::z(), value == 0);
        self.set_flag(FLAGS::n(), crate::bits::is_negative(value));
    }

    /// Pushes `data` on the stack.
    pub(crate) fn push(&mut self, data: u8)
        ensures
            final(self)@ == old(self)@.push(data),
    {
        self.write(0x0100 + self.sp as u16, data);
        self.sp = sub8(self.sp, 1);
    }

    /// Pulls a byte from the stack.
    pub(crate) fn pull(&mut self) -> (data: u8)
        ensures
            final(self)@ == old(self)@.pull(),
            data == old(self)@.pull().stack_top(),
    {
        self.sp = add8(self.sp, 1);
        self.read(0x0100 + self.sp as u16)
    }

    /// Reads the 16-bit value stored at `addr`, low byte first.
    pub(crate) fn read_word(&mut self, addr: u16) -> (value: u16)
        ensures
            final(self)@ == old(self)@,
            value == old(self)@.read_word(addr),
    {
        let lo = self.read(addr);
        let hi = self.read(add16(addr, 1));
        make_word(lo, hi)
    }

    /// Writes `result` to the operand's place.
    pub(crate) fn write_back(&mut self, result: u8)
        ensures
            final(self)@ == old(self)@.write_back(result),
    {
        if self.addr_mode_name.is_accumulator() {
            self.acc = result;
        } else {
            self.write(self.addr_abs, result);
        }
    }
}

} // verus!
