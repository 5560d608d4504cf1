//! The disassembler: a pass over memory that renders each instruction as a
//! line of text, reading as many operand bytes as execution would.

use crate::bits::{add16, extend_sign};
use crate::bus::RAM_SIZE;
use crate::lookup_table::{instruction_at, AddrMode, LookUpTable};
use crate::machine::{sign_extend, wrap16, Machine};
use crate::Cpu;
use vstd::prelude::*;
use vstd::string::*;

verus! {

/// The lower-case hexadecimal digit of a value below sixteen.
pub open spec fn hex_char(digit: int) -> char {
    if digit == 0 {
        '0'
    } else if digit == 1 {
        '1'
    } else if digit == 2 {
        '2'
    } else if digit == 3 {
        '3'
    } else if digit == 4 {
        '4'
    } else if digit == 5 {
        '5'
    } else if digit == 6 {
        '6'
    } else if digit == 7 {
        '7'
    } else if digit == 8 {
        '8'
    } else if digit == 9 {
        '9'
    } else if digit == 10 {
        'a'
    } else if digit == 11 {
        'b'
    } else if digit == 12 {
        'c'
    } else if digit == 13 {
        'd'
    } else if digit == 14 {
        'e'
    } else {
        'f'
    }
}

/// A 16-bit value as four lower-case hexadecimal digits, most significant
/// first.
pub open spec fn hex4(v: u16) -> Seq<char> {
    seq![
        hex_char(v as int / 4096),
        hex_char(v as int / 256 % 16),
        hex_char(v as int / 16 % 16),
        hex_char(v as int % 16),
    ]
}

impl Machine {
    /// The first operand byte of the instruction at `addr`.
    pub open spec fn first_operand(self, addr: u16) -> u8 {
        self.read(wrap16(addr + 1))
    }

    /// The two operand bytes of the instruction at `addr` as a word, low
    /// byte first.
    pub open spec fn operand_word(self, addr: u16) -> u16 {
        self.read_word(wrap16(addr + 1))
    }

    /// Number of bytes that the instruction at `addr` takes: the opcode and
    /// the operand bytes of its addressing mode.
    pub open spec fn instruction_len(self, addr: u16) -> nat {
        1 + instruction_at(self.read(addr)).address_mode.operand_len()
    }

    /// Where the branch at `addr` goes: the displacement added to the
    /// address of the next instruction, modulo 65536.
    pub open spec fn relative_target(self, addr: u16) -> u16 {
        wrap16(wrap16(addr + 2) + sign_extend(self.first_operand(addr)))
    }

    /// How the operand of the instruction at `addr` is rendered under
    /// `mode`. One-byte operands are padded to four digits; the two indirect
    /// modes share the label `INDX` and tell themselves apart by the index
    /// register, as the three absolute modes do under `ABS`; a relative
    /// operand is followed by the branch target in brackets.
    pub open spec fn operand_text(self, mode: AddrMode, addr: u16) -> Seq<char> {
        match mode {
            AddrMode::IMP => " {IMP}"@,
            AddrMode::IMM => " $"@ + hex4(self.first_operand(addr) as u16) + ", `{`IMM`}`"@,
            AddrMode::ZP => " $"@ + hex4(self.first_operand(addr) as u16) + ", `{`ZP`}`"@,
            AddrMode::ZPX => " $"@ + hex4(self.first_operand(addr) as u16) + ", X `{`ZPX`}`"@,
            AddrMode::ZPY => " $"@ + hex4(self.first_operand(addr) as u16) + ", Y `{`ZPY`}`"@,
            AddrMode::INDX => " $"@ + hex4(self.first_operand(addr) as u16) + ", X) `{`INDX`}`"@,
            AddrMode::INDY => " $"@ + hex4(self.first_operand(addr) as u16) + ", Y) `{`INDX`}`"@,
            AddrMode::ABS => " $"@ + hex4(self.operand_word(addr)) + ", `{`ABS`}`"@,
            AddrMode::ABSX => " $"@ + hex4(self.operand_word(addr)) + ", X `{`ABS`}`"@,
            AddrMode::ABSY => " $"@ + hex4(self.operand_word(addr)) + ", Y `{`ABS`}`"@,
            AddrMode::ABSIND => " $"@ + hex4(self.operand_word(addr)) + ", `{`ABSIND`}`"@,
            AddrMode::REL => " $"@ + hex4(self.first_operand(addr) as u16) + " [$"@ + hex4(
                self.relative_target(addr),
            ) + "] `{`REL`}`"@,
            AddrMode::ACC | AddrMode::XXX => Seq::empty(),
        }
    }

    /// The line of the instruction at `addr`: its address, its mnemonic and
    /// its operand.
    pub open spec fn line_text(self, addr: u16) -> Seq<char> {
        let entry = instruction_at(self.read(addr));
        "$"@ + hex4(addr) + ": "@ + entry.name@ + " "@ + self.operand_text(entry.address_mode, addr)
    }

    /// Whether a pass that stands at `cursor` and stops at `stop` finds an
    /// instruction starting at `addr`: the pass takes one instruction after
    /// the other for as long as it stands below `stop`.
    pub open spec fn pass_reaches(self, cursor: int, stop: int, addr: int) -> bool
        decreases
            (if cursor < stop {
                stop - cursor
            } else {
                0
            }),
    {
        if cursor >= stop || cursor < 0 {
            false
        } else if cursor == addr {
            true
        } else {
            self.pass_reaches(cursor + self.instruction_len(wrap16(cursor)), stop, addr)
        }
    }

    /// What a disassembly of `start` up to `stop` holds for `addr`: the
    /// line of the instruction that the pass finds there, or nothing.
    pub open spec fn listing_line(self, start: u16, stop: u16, addr: int) -> Seq<char> {
        if self.pass_reaches(start as int, stop as int, addr) {
            self.line_text(wrap16(addr))
        } else {
            Seq::empty()
        }
    }
}

/// The text of one hexadecimal digit.
fn hex_digit(digit: u16) -> (text: &'static str)
    requires
        digit < 16,
    ensures
        text@ == seq![hex_char(digit as int)],
{
    proof {
        reveal_strlit("0");
        reveal_strlit("1");
        reveal_strlit("2");
        reveal_strlit("3");
        reveal_strlit("4");
        reveal_strlit("5");
        reveal_strlit("6");
        reveal_strlit("7");
        reveal_strlit("8");
        reveal_strlit("9");
        reveal_strlit("a");
        reveal_strlit("b");
        reveal_strlit("c");
        reveal_strlit("d");
        reveal_strlit("e");
        reveal_strlit("f");
    }
    let text = match digit {
        0 => "0",
        1 => "1",
        2 => "2",
        3 => "3",
        4 => "4",
        5 => "5",
        6 => "6",
        7 => "7",
        8 => "8",
        9 => "9",
        10 => "a",
        11 => "b",
        12 => "c",
        13 => "d",
        14 => "e",
        _ => "f",
    };
    assert(text@ =~= seq![hex_char(digit as int)]);
    text
}

/// Appends the four hexadecimal digits of `v` to `line`.
fn append_hex4(line: &mut String, v: u16)
    ensures
        final(line)@ == old(line)@ + hex4(v),
{
    line.append(hex_digit(v / 4096));
    line.append(hex_digit(v / 256 % 16));
    line.append(hex_digit(v / 16 % 16));
    line.append(hex_digit(v % 16));
    assert(line@ =~= old(line)@ + hex4(v));
}

/// As many empty lines as there are addresses.
fn empty_listing() -> (lines: Vec<String>)
    ensures
        lines@.len() == RAM_SIZE,
        forall|a: int| 0 <= a < RAM_SIZE ==> (#[trigger] lines@[a])@ == Seq::<char>::empty(),
{
    let mut lines: Vec<String> = Vec::with_capacity(RAM_SIZE);
    let mut i: usize = 0;
    while i < RAM_SIZE
        invariant
            i <= RAM_SIZE,
            lines@.len() == i,
            forall|a: int| 0 <= a < i ==> (#[trigger] lines@[a])@ == Seq::<char>::empty(),
        decreases RAM_SIZE - i,
    {
        lines.push(String::new());
        i += 1;
    }
    lines
}

impl Cpu {
    /// Appends the rendering of a one-byte operand and what follows it.
    fn append_byte_operand(&mut self, line: &mut String, addr: u16, tail: &str)
        ensures
            final(self)@ == old(self)@,
            final(line)@ == old(line)@ + " $"@ + hex4(old(self)@.first_operand(addr) as u16)
                + tail@,
    {
        let value = self.read(add16(addr, 1));
        line.append(" $");
        append_hex4(line, value as u16);
        line.append(tail);
    }

    /// Appends the rendering of a two-byte operand and what follows it.
    fn append_word_operand(&mut self, line: &mut String, addr: u16, tail: &str)
        ensures
            final(self)@ == old(self)@,
            final(line)@ == old(line)@ + " $"@ + hex4(old(self)@.operand_word(addr)) + tail@,
    {
        let value = self.read_word(add16(addr, 1));
        line.append(" $");
        append_hex4(line, value);
        line.append(tail);
    }

    /// Appends the operand of the instruction at `addr` as `mode` renders
    /// it, and returns the number of operand bytes read.
    fn append_operand(&mut self, line: &mut String, mode: AddrMode, addr: u16) -> (len: usize)
        ensures
            final(self)@ == old(self)@,
            final(line)@ =~= old(line)@ + old(self)@.operand_text(mode, addr),
            len == mode.operand_len(),
    {
        match mode {
            AddrMode::IMP => {
                line.append(" {IMP}");
                0
            },
            AddrMode::IMM => {
                self.append_byte_operand(line, addr, ", `{`IMM`}`");
                1
            },
            AddrMode::ZP => {
                self.append_byte_operand(line, addr, ", `{`ZP`}`");
                1
            },
            AddrMode::ZPX => {
                self.append_byte_operand(line, addr, ", X `{`ZPX`}`");
                1
            },
            AddrMode::ZPY => {
                self.append_byte_operand(line, addr, ", Y `{`ZPY`}`");
                1
            },
            AddrMode::INDX => {
                self.append_byte_operand(line, addr, ", X) `{`INDX`}`");
                1
            },
            AddrMode::INDY => {
                self.append_byte_operand(line, addr, ", Y) `{`INDX`}`");
                1
            },
            AddrMode::ABS => {
                self.append_word_operand(line, addr, ", `{`ABS`}`");
                2
            },
            AddrMode::ABSX => {
                self.append_word_operand(line, addr, ", X `{`ABS`}`");
                2
            },
            AddrMode::ABSY => {
                self.append_word_operand(line, addr, ", Y `{`ABS`}`");
                2
            },
            AddrMode::ABSIND => {
                self.append_word_operand(line, addr, ", `{`ABSIND`}`");
                2
            },
            AddrMode::REL => {
                let value = self.read(add16(addr, 1));
                let target = add16(add16(addr, 2), extend_sign(value));
                self.append_byte_operand(line, addr, " [$");
                append_hex4(line, target);
                line.append("] `{`REL`}`");
                1
            },
            AddrMode::ACC | AddrMode::XXX => 0,
        }
    }

    /// Renders the instruction at `addr` and returns its line with the
    /// number of bytes the instruction takes.
    fn render_line(&mut self, addr: u16, lookup: &LookUpTable) -> (rendered: (String, usize))
        ensures
            final(self)@ == old(self)@,
            rendered.0@ == old(self)@.line_text(addr),
            rendered.1 == old(self)@.instruction_len(addr),
    {
        let opcode = self.read(addr);
        let entry = lookup.entry(opcode);
        let mut line = String::new();
        line.append("$");
        append_hex4(&mut line, addr);
        line.append(": ");
        line.append(entry.name);
        line.append(" ");
        let operand_len = self.append_operand(&mut line, entry.address_mode, addr);
        assert(line@ =~= old(self)@.line_text(addr));
        (line, 1 + operand_len)
    }

    /// Disassembles memory from `start` up to, not including, `stop`. The
    /// pass takes one instruction after the other, each as long as its
    /// addressing mode says, for as long as it stands below `stop`. The
    /// result has one entry per address: the line of the instruction that
    /// the pass found starting there, and the empty string everywhere else.
    /// Neither registers nor memory change.
    pub fn disassemble(&mut self, start: u16, stop: u16, lookup: &LookUpTable) -> (lines: Vec<
        String,
    >)
        ensures
            final(self)@ == old(self)@,
            lines@.len() == RAM_SIZE,
            forall|a: int|
                0 <= a < RAM_SIZE ==> (#[trigger] lines@[a])@ == old(self)@.listing_line(
                    start,
                    stop,
                    a,
                ),
    {
        let mut lines = empty_listing();
        let mut addr: usize = start as usize;
        let ghost mut found: Set<int> = Set::empty();
        while addr < stop as usize
            invariant
                self@ == old(self)@,
                lines@.len() == RAM_SIZE,
                addr <= RAM_SIZE + 1,
                forall|a: int|
                    #![trigger old(self)@.pass_reaches(start as int, stop as int, a)]
                    old(self)@.pass_reaches(start as int, stop as int, a) == (found.contains(a)
                        || old(self)@.pass_reaches(addr as int, stop as int, a)),
                forall|a: int|
                    0 <= a < RAM_SIZE ==> (#[trigger] lines@[a])@ == if found.contains(a) {
                        old(self)@.line_text(wrap16(a))
                    } else {
                        Seq::<char>::empty()
                    },
            decreases RAM_SIZE + 2 - addr,
        {
            let (line, len) = self.render_line(addr as u16, lookup);
            lines[addr] = line;
            proof {
                assert forall|a: int|
                    #![trigger old(self)@.pass_reaches(start as int, stop as int, a)]
                    old(self)@.pass_reaches(start as int, stop as int, a) == (found.insert(
                        addr as int,
                    ).contains(a) || old(self)@.pass_reaches(
                        addr + len,
                        stop as int,
                        a,
                    )) by {
                    assert(old(self)@.pass_reaches(addr as int, stop as int, a) == (a == addr
                        || old(self)@.pass_reaches(addr + len, stop as int, a)));
                }
                found = found.insert(addr as int);
            }
            addr += len;
        }
        lines
    }
}

} // verus!
