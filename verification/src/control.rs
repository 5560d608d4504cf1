//! The fetch-execute cycle, reset and the two interrupts.

use crate::bits::{add16, high_byte, low_byte};
use crate::flags::FLAGS;
use crate::lookup_table::{lemma_base_cycles_bounded, LookUpTable};
use crate::Cpu;
use vstd::prelude::*;

verus! {

impl Cpu {
    /// One clock tick. Between instructions (no cycle owed) the instruction
    /// at the program counter runs whole: its opcode is fetched, Unused is
    /// forced to one, the operand is resolved, the operation runs, and the
    /// cycles owed become the base count of the table entry plus the extras
    /// of resolver and operation, less the cycle just spent (an undefined
    /// opcode costs nothing). Within an instruction one owed cycle is paid
    /// off and nothing else changes.
    pub fn clock(&mut self, lookup: &LookUpTable)
        ensures
            final(self)@ == old(self)@.clock(),
    {
        if self.cycles == 0 {
            self.opcode = self.read(self.pc);
            self.set_flag(FLAGS::u(), true);
            self.pc = add16(self.pc, 1);

            let entry = lookup.entry(self.opcode);
            self.addr_mode_name = entry.address_mode;
            proof {
                lemma_base_cycles_bounded(self.opcode);
            }

            let resolver_extra = Cpu::resolve(self, entry.address_mode);
            let operation_extra = Cpu::execute(self, entry.operation);

            let total: u8 = entry.cycles + resolver_extra + operation_extra;
            self.cycles = if total > 0 {
                total - 1
            } else {
                0
            };
            self.set_flag(FLAGS::u(), true);
        } else {
            self.cycles -= 1;
        }
    }

    /// Reset: the program counter is loaded from the reset vector, the
    /// accumulator and the index registers are cleared, the stack pointer
    /// becomes `0xFD`, only Unused is set in the status, and eight cycles
    /// pass before the first instruction is fetched. Whatever instruction
    /// was running is abandoned; memory is untouched.
    pub fn reset(&mut self)
        ensures
            final(self)@ == old(self)@.reset(),
    {
        self.pc = self.read_word(0xFFFC);

        self.acc = 0x00;
        self.y = 0x00;
        self.x = 0x00;
        self.sp = 0xFD;
        self.psr = FLAGS::u();

        self.fetched = 0x00;
        self.addr_rel = 0x0000;
        self.addr_abs = 0x0000;

        self.cycles = 8;
    }

    /// Enters an interrupt through `vector`.
    pub(crate) fn interrupt(&mut self, vector: u16, cycles: u8)
        ensures
            final(self)@ == old(self)@.interrupt(vector, cycles),
    {
        self.push(high_byte(self.pc));
        self.push(low_byte(self.pc));

        self.set_flag(FLAGS::b(), false);
        self.set_flag(FLAGS::u(), true);
        self.set_flag(FLAGS::i(), true);
        self.push(self.psr);

        self.addr_abs = vector;
        self.pc = self.read_word(vector);
        self.cycles = cycles;
    }

    /// Interrupt request. While Interrupt-disable is set nothing at all
    /// changes. Otherwise the program counter (high byte first) and the
    /// status (Break clear, Unused set) are pushed, Interrupt-disable is set,
    /// and execution continues at the address in the vector at `0xFFFE`
    /// after seven cycles. Meant to be called between instructions.
    pub fn irq(&mut self)
        ensures
            final(self)@ == old(self)@.irq(),
            old(self)@.flag(crate::flags::IRQ_DISABLE) ==> final(self)@ == old(self)@,
    {
        if self.get_flag(FLAGS::i()) == 0 {
            self.interrupt(0xFFFE, 7);
        }
    }

    /// Non-maskable interrupt: as an interrupt request that Interrupt-disable
    /// cannot hold off, through the vector at `0xFFFA` and taking eight
    /// cycles. Meant to be called between instructions.
    pub fn nmi(&mut self)
        ensures
            final(self)@ == old(self)@.nmi(),
    {
        self.interrupt(0xFFFA, 8);
    }
}

} // verus!
