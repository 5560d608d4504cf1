//! The opcode table: what each of the 256 opcode bytes stands for.

use vstd::prelude::*;

verus! {

/// How an instruction finds its operand.
#[allow(non_camel_case_types)]
#[derive(Clone, Copy, Debug, PartialEq, Eq, Structural)]
pub enum AddrMode {
    /// Implied: no operand bytes; the operand is the accumulator.
    IMP,
    /// Accumulator: the accumulator is named as the operand.
    ACC,
    /// Immediate: the operand is the byte after the opcode.
    IMM,
    /// Zero page: one byte addresses the first page.
    ZP,
    /// Zero page indexed by X, wrapping within the first page.
    ZPX,
    /// Zero page indexed by Y, wrapping within the first page.
    ZPY,
    /// Absolute: two bytes, low first, give the address.
    ABS,
    /// Absolute indexed by X.
    ABSX,
    /// Absolute indexed by Y.
    ABSY,
    /// Relative: one signed byte, used by branches.
    REL,
    /// Indexed indirect: X is added to a zero-page pointer before it is read.
    INDX,
    /// Indirect indexed: Y is added to the address read from a zero-page pointer.
    INDY,
    /// Absolute indirect: the address is read from a pointer anywhere in memory.
    ABSIND,
    /// The resolver of an undefined opcode: does nothing.
    XXX,
}

/// What an instruction does.
#[derive(Clone, Copy, Debug, PartialEq, Eq, Structural)]
pub enum Operation {
    /// Add memory and carry to the accumulator
    ADC,
    /// AND memory into the accumulator
    AND,
    /// Shift left one bit
    ASL,
    /// Branch when carry is clear
    BCC,
    /// Branch when carry is set
    BCS,
    /// Branch when the result was zero
    BEQ,
    /// Test bits of memory against the accumulator
    BIT,
    /// Branch when the result was negative
    BMI,
    /// Branch when the result was not zero
    BNE,
    /// Branch when the result was not negative
    BPL,
    /// Software interrupt
    BRK,
    /// Branch when overflow is clear
    BVC,
    /// Branch when overflow is set
    BVS,
    /// Clear carry
    CLC,
    /// Clear decimal mode
    CLD,
    /// Clear interrupt disable
    CLI,
    /// Clear overflow
    CLV,
    /// Compare memory with the accumulator
    CMP,
    /// Compare memory with X
    CPX,
    /// Compare memory with Y
    CPY,
    /// Decrement memory
    DEC,
    /// Decrement X
    DEX,
    /// Decrement Y
    DEY,
    /// Exclusive-OR memory into the accumulator
    EOR,
    /// Increment memory
    INC,
    /// Increment X
    INX,
    /// Increment Y
    INY,
    /// Jump
    JMP,
    /// Jump to subroutine
    JSR,
    /// Load the accumulator
    LDA,
    /// Load X
    LDX,
    /// Load Y
    LDY,
    /// Shift right one bit
    LSR,
    /// No operation
    NOP,
    /// OR memory into the accumulator
    ORA,
    /// Push the accumulator
    PHA,
    /// Push the status register
    PHP,
    /// Pull the accumulator
    PLA,
    /// Pull the status register
    PLP,
    /// Rotate left through carry
    ROL,
    /// Rotate right through carry
    ROR,
    /// Return from interrupt
    RTI,
    /// Return from subroutine
    RTS,
    /// Subtract memory and borrow from the accumulator
    SBC,
    /// Set carry
    SEC,
    /// Set decimal mode
    SED,
    /// Set interrupt disable
    SEI,
    /// Store the accumulator
    STA,
    /// Store X
    STX,
    /// Store Y
    STY,
    /// Transfer the accumulator to X
    TAX,
    /// Transfer the accumulator to Y
    TAY,
    /// Transfer the stack pointer to X
    TSX,
    /// Transfer X to the accumulator
    TXA,
    /// Transfer X to the stack pointer
    TXS,
    /// Transfer Y to the accumulator
    TYA,
    /// Undefined opcode: does nothing.
    XXX,
}

impl AddrMode {
    /// Number of operand bytes that follow the opcode byte.
    pub open spec fn operand_len(self) -> nat {
        match self {
            AddrMode::IMP | AddrMode::ACC | AddrMode::XXX => 0,
            AddrMode::IMM
            | AddrMode::ZP
            | AddrMode::ZPX
            | AddrMode::ZPY
            | AddrMode::REL
            | AddrMode::INDX
            | AddrMode::INDY => 1,
            AddrMode::ABS | AddrMode::ABSX | AddrMode::ABSY | AddrMode::ABSIND => 2,
        }
    }

    /// Whether the operand is the accumulator itself rather than a memory cell.
    pub open spec fn targets_accumulator(self) -> bool {
        self == AddrMode::IMP || self == AddrMode::ACC
    }

    /// Whether the operand is the accumulator itself rather than a memory cell.
    pub fn is_accumulator(self) -> (acc: bool)
        ensures
            acc == self.targets_accumulator(),
    {
        match self {
            AddrMode::IMP | AddrMode::ACC => true,
            _ => false,
        }
    }
}

impl Operation {
    /// The three letters under which the operation is written in a program
    /// listing; `???` for an undefined opcode.
    pub open spec fn mnemonic(self) -> Seq<char> {
        match self {
            Operation::ADC => "ADC"@,
            Operation::AND => "AND"@,
            Operation::ASL => "ASL"@,
            Operation::BCC => "BCC"@,
            Operation::BCS => "BCS"@,
            Operation::BEQ => "BEQ"@,
            Operation::BIT => "BIT"@,
            Operation::BMI => "BMI"@,
            Operation::BNE => "BNE"@,
            Operation::BPL => "BPL"@,
            Operation::BRK => "BRK"@,
            Operation::BVC => "BVC"@,
            Operation::BVS => "BVS"@,
            Operation::CLC => "CLC"@,
            Operation::CLD => "CLD"@,
            Operation::CLI => "CLI"@,
            Operation::CLV => "CLV"@,
            Operation::CMP => "CMP"@,
            Operation::CPX => "CPX"@,
            Operation::CPY => "CPY"@,
            Operation::DEC => "DEC"@,
            Operation::DEX => "DEX"@,
            Operation::DEY => "DEY"@,
            Operation::EOR => "EOR"@,
            Operation::INC => "INC"@,
            Operation::INX => "INX"@,
            Operation::INY => "INY"@,
            Operation::JMP => "JMP"@,
            Operation::JSR => "JSR"@,
            Operation::LDA => "LDA"@,
            Operation::LDX => "LDX"@,
            Operation::LDY => "LDY"@,
            Operation::LSR => "LSR"@,
            Operation::NOP => "NOP"@,
            Operation::ORA => "ORA"@,
            Operation::PHA => "PHA"@,
            Operation::PHP => "PHP"@,
            Operation::PLA => "PLA"@,
            Operation::PLP => "PLP"@,
            Operation::ROL => "ROL"@,
            Operation::ROR => "ROR"@,
            Operation::RTI => "RTI"@,
            Operation::RTS => "RTS"@,
            Operation::SBC => "SBC"@,
            Operation::SEC => "SEC"@,
            Operation::SED => "SED"@,
            Operation::SEI => "SEI"@,
            Operation::STA => "STA"@,
            Operation::STX => "STX"@,
            Operation::STY => "STY"@,
            Operation::TAX => "TAX"@,
            Operation::TAY => "TAY"@,
            Operation::TSX => "TSX"@,
            Operation::TXA => "TXA"@,
            Operation::TXS => "TXS"@,
            Operation::TYA => "TYA"@,
            Operation::XXX => "???"@,
        }
    }
}

/// One entry of the opcode table.
#[derive(Clone, Copy, Debug)]
pub struct Instruction {
    /// Mnemonic, `???` for an undefined opcode.
    pub name: &'static str,
    /// What the instruction does.
    pub operation: Operation,
    /// How it finds its operand.
    pub address_mode: AddrMode,
    /// Base cycle count, 0 for an undefined opcode.
    pub cycles: u8,
}

/// Number of opcode bytes.
pub const TABLE_SIZE: usize = 256;

/// No instruction takes more base cycles than this.
pub const MAX_BASE_CYCLES: u8 = 7;

/// The instruction set in opcode order: mnemonic, operation, addressing
/// mode and base cycle count of each opcode byte.
pub const OPCODES: [(&'static str, Operation, AddrMode, u8); 256] = [
    // 0x00 - 0x0F
    ("BRK", Operation::BRK, AddrMode::IMP, 7),
    ("ORA", Operation::ORA, AddrMode::INDX, 6),
    ("???", Operation::XXX, AddrMode::XXX, 0),
    ("???", Operation::XXX, AddrMode::XXX, 0),
    ("???", Operation::XXX, AddrMode::XXX, 0),
    ("ORA", Operation::ORA, AddrMode::ZP, 3),
    ("ASL", Operation::ASL, AddrMode::ZP, 5),
    ("???", Operation::XXX, AddrMode::XXX, 0),
    ("PHP", Operation::PHP, AddrMode::IMP, 3),
    ("ORA", Operation::ORA, AddrMode::IMM, 2),
    ("ASL", Operation::ASL, AddrMode::ACC, 2),
    ("???", Operation::XXX, AddrMode::XXX, 0),
    ("???", Operation::XXX, AddrMode::XXX, 0),
    ("ORA", Operation::ORA, AddrMode::ABS, 4),
    ("ASL", Operation::ASL, AddrMode::ABS, 6),
    ("???", Operation::XXX, AddrMode::XXX, 0),
    // 0x10 - 0x1F
    ("BPL", Operation::BPL, AddrMode::REL, 2),
    ("ORA", Operation::ORA, AddrMode::INDY, 5),
    ("???", Operation::XXX, AddrMode::XXX, 0),
    ("???", Operation::XXX, AddrMode::XXX, 0),
    ("???", Operation::XXX, AddrMode::XXX, 0),
    ("ORA", Operation::ORA, AddrMode::ZPX, 4),
    ("ASL", Operation::ASL, AddrMode::ZPX, 6),
    ("???", Operation::XXX, AddrMode::XXX, 0),
    ("CLC", Operation::CLC, AddrMode::IMP, 2),
    ("ORA", Operation::ORA, AddrMode::ABSY, 4),
    ("???", Operation::XXX, AddrMode::XXX, 0),
    ("???", Operation::XXX, AddrMode::XXX, 0),
    ("???", Operation::XXX, AddrMode::XXX, 0),
    ("ORA", Operation::ORA, AddrMode::ABSX, 4),
    ("ASL", Operation::ASL, AddrMode::ABSX, 7),
    ("???", Operation::XXX, AddrMode::XXX, 0),
    // 0x20 - 0x2F
    ("JSR", Operation::JSR, AddrMode::ABS, 6),
    ("AND", Operation::AND, AddrMode::INDX, 6),
    ("???", Operation::XXX, AddrMode::XXX, 0),
    ("???", Operation::XXX, AddrMode::XXX, 0),
    ("BIT", Operation::BIT, AddrMode::ZP, 3),
    ("AND", Operation::AND, AddrMode::ZP, 3),
    ("ROL", Operation::ROL, AddrMode::ZP, 5),
    ("???", Operation::XXX, AddrMode::XXX, 0),
    ("PLP", Operation::PLP, AddrMode::IMP, 4),
    ("AND", Operation::AND, AddrMode::IMM, 2),
    ("ROL", Operation::ROL, AddrMode::ACC, 2),
    ("???", Operation::XXX, AddrMode::XXX, 0),
    ("BIT", Operation::BIT, AddrMode::ABS, 4),
    ("AND", Operation::AND, AddrMode::ABS, 4),
    ("ROL", Operation::ROL, AddrMode::ABS, 6),
    ("???", Operation::XXX, AddrMode::XXX, 0),
    // 0x30 - 0x3F
    ("BMI", Operation::BMI, AddrMode::REL, 2),
    ("AND", Operation::AND, AddrMode::INDY, 5),
    ("???", Operation::XXX, AddrMode::XXX, 0),
    ("???", Operation::XXX, AddrMode::XXX, 0),
    ("???", Operation::XXX, AddrMode::XXX, 0),
    ("AND", Operation::AND, AddrMode::ZPX, 4),
    ("ROL", Operation::ROL, AddrMode::ZPX, 6),
    ("???", Operation::XXX, AddrMode::XXX, 0),
    ("SEC", Operation::SEC, AddrMode::IMP, 2),
    ("AND", Operation::AND, AddrMode::ABSY, 4),
    ("???", Operation::XXX, AddrMode::XXX, 0),
    ("???", Operation::XXX, AddrMode::XXX, 0),
    ("???", Operation::XXX, AddrMode::XXX, 0),
    ("AND", Operation::AND, AddrMode::ABSX, 4),
    ("ROL", Operation::ROL, AddrMode::ABSX, 7),
    ("???", Operation::XXX, AddrMode::XXX, 0),
    // 0x40 - 0x4F
    ("RTI", Operation::RTI, AddrMode::IMP, 6),
    ("EOR", Operation::EOR, AddrMode::INDX, 6),
    ("???", Operation::XXX, AddrMode::XXX, 0),
    ("???", Operation::XXX, AddrMode::XXX, 0),
    ("???", Operation::XXX, AddrMode::XXX, 0),
    ("EOR", Operation::EOR, AddrMode::ZP, 3),
    ("LSR", Operation::LSR, AddrMode::ZP, 5),
    ("???", Operation::XXX, AddrMode::XXX, 0),
    ("PHA", Operation::PHA, AddrMode::IMP, 3),
    ("EOR", Operation::EOR, AddrMode::IMM, 2),
    ("LSR", Operation::LSR, AddrMode::ACC, 2),
    ("???", Operation::XXX, AddrMode::XXX, 0),
    ("JMP", Operation::JMP, AddrMode::ABS, 3),
    ("EOR", Operation::EOR, AddrMode::ABS, 4),
    ("LSR", Operation::LSR, AddrMode::ABS, 6),
    ("???", Operation::XXX, AddrMode::XXX, 0),
    // 0x50 - 0x5F
    ("BVC", Operation::BVC, AddrMode::REL, 2),
    ("EOR", Operation::EOR, AddrMode::INDY, 5),
    ("???", Operation::XXX, AddrMode::XXX, 0),
    ("???", Operation::XXX, AddrMode::XXX, 0),
    ("???", Operation::XXX, AddrMode::XXX, 0),
    ("EOR", Operation::EOR, AddrMode::ZPX, 4),
    ("LSR", Operation::LSR, AddrMode::ZPX, 6),
    ("???", Operation::XXX, AddrMode::XXX, 0),
    ("CLI", Operation::CLI, AddrMode::IMP, 2),
    ("EOR", Operation::EOR, AddrMode::ABSY, 4),
    ("???", Operation::XXX, AddrMode::XXX, 0),
    ("???", Operation::XXX, AddrMode::XXX, 0),
    ("???", Operation::XXX, AddrMode::XXX, 0),
    ("EOR", Operation::EOR, AddrMode::ABSX, 4),
    ("LSR", Operation::LSR, AddrMode::ABSX, 7),
    ("???", Operation::XXX, AddrMode::XXX, 0),
    // 0x60 - 0x6F
    ("RTS", Operation::RTS, AddrMode::IMP, 6),
    ("ADC", Operation::ADC, AddrMode::INDX, 6),
    ("???", Operation::XXX, AddrMode::XXX, 0),
    ("???", Operation::XXX, AddrMode::XXX, 0),
    ("???", Operation::XXX, AddrMode::XXX, 0),
    ("ADC", Operation::ADC, AddrMode::ZP, 3),
    ("ROR", Operation::ROR, AddrMode::ZP, 5),
    ("???", Operation::XXX, AddrMode::XXX, 0),
    ("PLA", Operation::PLA, AddrMode::IMP, 4),
    ("ADC", Operation::ADC, AddrMode::IMM, 2),
    ("ROR", Operation::ROR, AddrMode::ACC, 2),
    ("???", Operation::XXX, AddrMode::XXX, 0),
    ("JMP", Operation::JMP, AddrMode::ABSIND, 5),
    ("ADC", Operation::ADC, AddrMode::ABS, 4),
    ("ROR", Operation::ROR, AddrMode::ABS, 6),
    ("???", Operation::XXX, AddrMode::XXX, 0),
    // 0x70 - 0x7F
    ("BVS", Operation::BVS, AddrMode::REL, 2),
    ("ADC", Operation::ADC, AddrMode::INDY, 5),
    ("???", Operation::XXX, AddrMode::XXX, 0),
    ("???", Operation::XXX, AddrMode::XXX, 0),
    ("???", Operation::XXX, AddrMode::XXX, 0),
    ("ADC", Operation::ADC, AddrMode::ZPX, 4),
    ("ROR", Operation::ROR, AddrMode::ZPX, 6),
    ("???", Operation::XXX, AddrMode::XXX, 0),
    ("SEI", Operation::SEI, AddrMode::IMP, 2),
    ("ADC", Operation::ADC, AddrMode::ABSY, 4),
    ("???", Operation::XXX, AddrMode::XXX, 0),
    ("???", Operation::XXX, AddrMode::XXX, 0),
    ("???", Operation::XXX, AddrMode::XXX, 0),
    ("ADC", Operation::ADC, AddrMode::ABSX, 4),
    ("ROR", Operation::ROR, AddrMode::ABSX, 7),
    ("???", Operation::XXX, AddrMode::XXX, 0),
    // 0x80 - 0x8F
    ("???", Operation::XXX, AddrMode::XXX, 0),
    ("STA", Operation::STA, AddrMode::INDX, 6),
    ("???", Operation::XXX, AddrMode::XXX, 0),
    ("???", Operation::XXX, AddrMode::XXX, 0),
    ("STY", Operation::STY, AddrMode::ZP, 3),
    ("STA", Operation::STA, AddrMode::ZP, 3),
    ("STX", Operation::STX, AddrMode::ZP, 3),
    ("???", Operation::XXX, AddrMode::XXX, 0),
    ("DEY", Operation::DEY, AddrMode::IMP, 2),
    ("???", Operation::XXX, AddrMode::XXX, 0),
    ("TXA", Operation::TXA, AddrMode::IMP, 2),
    ("???", Operation::XXX, AddrMode::XXX, 0),
    ("STY", Operation::STY, AddrMode::ABS, 4),
    ("STA", Operation::STA, AddrMode::ABS, 4),
    ("STX", Operation::STX, AddrMode::ABS, 4),
    ("???", Operation::XXX, AddrMode::XXX, 0),
    // 0x90 - 0x9F
    ("BCC", Operation::BCC, AddrMode::REL, 2),
    ("STA", Operation::STA, AddrMode::INDY, 6),
    ("???", Operation::XXX, AddrMode::XXX, 0),
    ("???", Operation::XXX, AddrMode::XXX, 0),
    ("STY", Operation::STY, AddrMode::ZPX, 4),
    ("STA", Operation::STA, AddrMode::ZPX, 4),
    ("STX", Operation::STX, AddrMode::ZPY, 4),
    ("???", Operation::XXX, AddrMode::XXX, 0),
    ("TYA", Operation::TYA, AddrMode::IMP, 2),
    ("STA", Operation::STA, AddrMode::ABSY, 5),
    ("TXS", Operation::TXS, AddrMode::IMP, 2),
    ("???", Operation::XXX, AddrMode::XXX, 0),
    ("???", Operation::XXX, AddrMode::XXX, 0),
    ("STA", Operation::STA, AddrMode::ABSX, 5),
    ("???", Operation::XXX, AddrMode::XXX, 0),
    ("???", Operation::XXX, AddrMode::XXX, 0),
    // 0xA0 - 0xAF
    ("LDY", Operation::LDY, AddrMode::IMM, 2),
    ("LDA", Operation::LDA, AddrMode::INDX, 6),
    ("LDX", Operation::LDX, AddrMode::IMM, 2),
    ("???", Operation::XXX, AddrMode::XXX, 0),
    ("LDY", Operation::LDY, AddrMode::ZP, 3),
    ("LDA", Operation::LDA, AddrMode::ZP, 3),
    ("LDX", Operation::LDX, AddrMode::ZP, 3),
    ("???", Operation::XXX, AddrMode::XXX, 0),
    ("TAY", Operation::TAY, AddrMode::IMP, 2),
    ("LDA", Operation::LDA, AddrMode::IMM, 2),
    ("TAX", Operation::TAX, AddrMode::IMP, 2),
    ("???", Operation::XXX, AddrMode::XXX, 0),
    ("LDY", Operation::LDY, AddrMode::ABS, 4),
    ("LDA", Operation::LDA, AddrMode::ABS, 4),
    ("LDX", Operation::LDX, AddrMode::ABS, 4),
    ("???", Operation::XXX, AddrMode::XXX, 0),
    // 0xB0 - 0xBF
    ("BCS", Operation::BCS, AddrMode::REL, 2),
    ("LDA", Operation::LDA, AddrMode::INDY, 5),
    ("???", Operation::XXX, AddrMode::XXX, 0),
    ("???", Operation::XXX, AddrMode::XXX, 0),
    ("LDY", Operation::LDY, AddrMode::ZPX, 4),
    ("LDA", Operation::LDA, AddrMode::ZPX, 4),
    ("LDX", Operation::LDX, AddrMode::ZPY, 4),
    ("???", Operation::XXX, AddrMode::XXX, 0),
    ("CLV", Operation::CLV, AddrMode::IMP, 2),
    ("LDA", Operation::LDA, AddrMode::ABSY, 4),
    ("TSX", Operation::TSX, AddrMode::IMP, 2),
    ("???", Operation::XXX, AddrMode::XXX, 0),
    ("LDY", Operation::LDY, AddrMode::ABSX, 4),
    ("LDA", Operation::LDA, AddrMode::ABSX, 4),
    ("LDX", Operation::LDX, AddrMode::ABSY, 4),
    ("???", Operation::XXX, AddrMode::XXX, 0),
    // 0xC0 - 0xCF
    ("CPY", Operation::CPY, AddrMode::IMM, 2),
    ("CMP", Operation::CMP, AddrMode::INDX, 6),
    ("???", Operation::XXX, AddrMode::XXX, 0),
    ("???", Operation::XXX, AddrMode::XXX, 0),
    ("CPY", Operation::CPY, AddrMode::ZP, 3),
    ("CMP", Operation::CMP, AddrMode::ZP, 3),
    ("DEC", Operation::DEC, AddrMode::ZP, 5),
    ("???", Operation::XXX, AddrMode::XXX, 0),
    ("INY", Operation::INY, AddrMode::IMP, 2),
    ("CMP", Operation::CMP, AddrMode::IMM, 2),
    ("DEX", Operation::DEX, AddrMode::IMP, 2),
    ("???", Operation::XXX, AddrMode::XXX, 0),
    ("CPY", Operation::CPY, AddrMode::ABS, 4),
    ("CMP", Operation::CMP, AddrMode::ABS, 4),
    ("DEC", Operation::DEC, AddrMode::ABS, 6),
    ("???", Operation::XXX, AddrMode::XXX, 0),
    // 0xD0 - 0xDF
    ("BNE", Operation::BNE, AddrMode::REL, 2),
    ("CMP", Operation::CMP, AddrMode::INDY, 5),
    ("???", Operation::XXX, AddrMode::XXX, 0),
    ("???", Operation::XXX, AddrMode::XXX, 0),
    ("???", Operation::XXX, AddrMode::XXX, 0),
    ("CMP", Operation::CMP, AddrMode::ZPX, 4),
    ("DEC", Operation::DEC, AddrMode::ZPX, 6),
    ("???", Operation::XXX, AddrMode::XXX, 0),
    ("CLD", Operation::CLD, AddrMode::IMP, 2),
    ("CMP", Operation::CMP, AddrMode::ABSY, 4),
    ("???", Operation::XXX, AddrMode::XXX, 0),
    ("???", Operation::XXX, AddrMode::XXX, 0),
    ("???", Operation::XXX, AddrMode::XXX, 0),
    ("CMP", Operation::CMP, AddrMode::ABSX, 4),
    ("DEC", Operation::DEC, AddrMode::ABSX, 7),
    ("???", Operation::XXX, AddrMode::XXX, 0),
    // 0xE0 - 0xEF
    ("CPX", Operation::CPX, AddrMode::IMM, 2),
    ("SBC", Operation::SBC, AddrMode::INDX, 6),
    ("???", Operation::XXX, AddrMode::XXX, 0),
    ("???", Operation::XXX, AddrMode::XXX, 0),
    ("CPX", Operation::CPX, AddrMode::ZP, 3),
    ("SBC", Operation::SBC, AddrMode::ZP, 3),
    ("INC", Operation::INC, AddrMode::ZP, 5),
    ("???", Operation::XXX, AddrMode::XXX, 0),
    ("INX", Operation::INX, AddrMode::IMP, 2),
    ("SBC", Operation::SBC, AddrMode::IMM, 2),
    ("NOP", Operation::NOP, AddrMode::IMP, 2),
    ("???", Operation::XXX, AddrMode::XXX, 0),
    ("CPX", Operation::CPX, AddrMode::ABS, 4),
    ("SBC", Operation::SBC, AddrMode::ABS, 4),
    ("INC", Operation::INC, AddrMode::ABS, 6),
    ("???", Operation::XXX, AddrMode::XXX, 0),
    // 0xF0 - 0xFF
    ("BEQ", Operation::BEQ, AddrMode::REL, 2),
    ("SBC", Operation::SBC, AddrMode::INDY, 5),
    ("???", Operation::XXX, AddrMode::XXX, 0),
    ("???", Operation::XXX, AddrMode::XXX, 0),
    ("???", Operation::XXX, AddrMode::XXX, 0),
    ("SBC", Operation::SBC, AddrMode::ZPX, 4),
    ("INC", Operation::INC, AddrMode::ZPX, 6),
    ("???", Operation::XXX, AddrMode::XXX, 0),
    ("SED", Operation::SED, AddrMode::IMP, 2),
    ("SBC", Operation::SBC, AddrMode::ABSY, 4),
    ("???", Operation::XXX, AddrMode::XXX, 0),
    ("???", Operation::XXX, AddrMode::XXX, 0),
    ("???", Operation::XXX, AddrMode::XXX, 0),
    ("SBC", Operation::SBC, AddrMode::ABSX, 4),
    ("INC", Operation::INC, AddrMode::ABSX, 7),
    ("???", Operation::XXX, AddrMode::XXX, 0),
];

/// The table entry of `opcode`.
pub open spec fn instruction_at(opcode: u8) -> Instruction {
    Instruction {
        name: OPCODES[opcode as int].0,
        operation: OPCODES[opcode as int].1,
        address_mode: OPCODES[opcode as int].2,
        cycles: OPCODES[opcode as int].3,
    }
}

/// The whole table as a sequence indexed by opcode.
pub open spec fn instruction_set() -> Seq<Instruction> {
    Seq::new(TABLE_SIZE as nat, |opcode: int| instruction_at(opcode as u8))
}

/// The instruction set by instruction: the opcode byte and base cycle count
/// under which `operation` is available with addressing mode `mode`, if it is.
pub open spec fn encoding(operation: Operation, mode: AddrMode) -> Option<(u8, u8)> {
    match operation {
        Operation::ADC => match mode {
            AddrMode::IMM => Some((0x69, 2)),
            AddrMode::ZP => Some((0x65, 3)),
            AddrMode::ZPX => Some((0x75, 4)),
            AddrMode::ABS => Some((0x6D, 4)),
            AddrMode::ABSX => Some((0x7D, 4)),
            AddrMode::ABSY => Some((0x79, 4)),
            AddrMode::INDX => Some((0x61, 6)),
            AddrMode::INDY => Some((0x71, 5)),
            _ => None,
        },
        Operation::AND => match mode {
            AddrMode::IMM => Some((0x29, 2)),
            AddrMode::ZP => Some((0x25, 3)),
            AddrMode::ZPX => Some((0x35, 4)),
            AddrMode::ABS => Some((0x2D, 4)),
            AddrMode::ABSX => Some((0x3D, 4)),
            AddrMode::ABSY => Some((0x39, 4)),
            AddrMode::INDX => Some((0x21, 6)),
            AddrMode::INDY => Some((0x31, 5)),
            _ => None,
        },
        Operation::ASL => match mode {
            AddrMode::ACC => Some((0x0A, 2)),
            AddrMode::ZP => Some((0x06, 5)),
            AddrMode::ZPX => Some((0x16, 6)),
            AddrMode::ABS => Some((0x0E, 6)),
            AddrMode::ABSX => Some((0x1E, 7)),
            _ => None,
        },
        Operation::BCC => match mode {
            AddrMode::REL => Some((0x90, 2)),
            _ => None,
        },
        Operation::BCS => match mode {
            AddrMode::REL => Some((0xB0, 2)),
            _ => None,
        },
        Operation::BEQ => match mode {
            AddrMode::REL => Some((0xF0, 2)),
            _ => None,
        },
        Operation::BIT => match mode {
            AddrMode::ZP => Some((0x24, 3)),
            AddrMode::ABS => Some((0x2C, 4)),
            _ => None,
        },
        Operation::BMI => match mode {
            AddrMode::REL => Some((0x30, 2)),
            _ => None,
        },
        Operation::BNE => match mode {
            AddrMode::REL => Some((0xD0, 2)),
            _ => None,
        },
        Operation::BPL => match mode {
            AddrMode::REL => Some((0x10, 2)),
            _ => None,
        },
        Operation::BRK => match mode {
            AddrMode::IMP => Some((0x00, 7)),
            _ => None,
        },
        Operation::BVC => match mode {
            AddrMode::REL => Some((0x50, 2)),
            _ => None,
        },
        Operation::BVS => match mode {
            AddrMode::REL => Some((0x70, 2)),
            _ => None,
        },
        Operation::CLC => match mode {
            AddrMode::IMP => Some((0x18, 2)),
            _ => None,
        },
        Operation::CLD => match mode {
            AddrMode::IMP => Some((0xD8, 2)),
            _ => None,
        },
        Operation::CLI => match mode {
            AddrMode::IMP => Some((0x58, 2)),
            _ => None,
        },
        Operation::CLV => match mode {
            AddrMode::IMP => Some((0xB8, 2)),
            _ => None,
        },
        Operation::CMP => match mode {
            AddrMode::IMM => Some((0xC9, 2)),
            AddrMode::ZP => Some((0xC5, 3)),
            AddrMode::ZPX => Some((0xD5, 4)),
            AddrMode::ABS => Some((0xCD, 4)),
            AddrMode::ABSX => Some((0xDD, 4)),
            AddrMode::ABSY => Some((0xD9, 4)),
            AddrMode::INDX => Some((0xC1, 6)),
            AddrMode::INDY => Some((0xD1, 5)),
            _ => None,
        },
        Operation::CPX => match mode {
            AddrMode::IMM => Some((0xE0, 2)),
            AddrMode::ZP => Some((0xE4, 3)),
            AddrMode::ABS => Some((0xEC, 4)),
            _ => None,
        },
        Operation::CPY => match mode {
            AddrMode::IMM => Some((0xC0, 2)),
            AddrMode::ZP => Some((0xC4, 3)),
            AddrMode::ABS => Some((0xCC, 4)),
            _ => None,
        },
        Operation::DEC => match mode {
            AddrMode::ZP => Some((0xC6, 5)),
            AddrMode::ZPX => Some((0xD6, 6)),
            AddrMode::ABS => Some((0xCE, 6)),
            AddrMode::ABSX => Some((0xDE, 7)),
            _ => None,
        },
        Operation::DEX => match mode {
            AddrMode::IMP => Some((0xCA, 2)),
            _ => None,
        },
        Operation::DEY => match mode {
            AddrMode::IMP => Some((0x88, 2)),
            _ => None,
        },
        Operation::EOR => match mode {
            AddrMode::IMM => Some((0x49, 2)),
            AddrMode::ZP => Some((0x45, 3)),
            AddrMode::ZPX => Some((0x55, 4)),
            AddrMode::ABS => Some((0x4D, 4)),
            AddrMode::ABSX => Some((0x5D, 4)),
            AddrMode::ABSY => Some((0x59, 4)),
            AddrMode::INDX => Some((0x41, 6)),
            AddrMode::INDY => Some((0x51, 5)),
            _ => None,
        },
        Operation::INC => match mode {
            AddrMode::ZP => Some((0xE6, 5)),
            AddrMode::ZPX => Some((0xF6, 6)),
            AddrMode::ABS => Some((0xEE, 6)),
            AddrMode::ABSX => Some((0xFE, 7)),
            _ => None,
        },
        Operation::INX => match mode {
            AddrMode::IMP => Some((0xE8, 2)),
            _ => None,
        },
        Operation::INY => match mode {
            AddrMode::IMP => Some((0xC8, 2)),
            _ => None,
        },
        Operation::JMP => match mode {
            AddrMode::ABS => Some((0x4C, 3)),
            AddrMode::ABSIND => Some((0x6C, 5)),
            _ => None,
        },
        Operation::JSR => match mode {
            AddrMode::ABS => Some((0x20, 6)),
            _ => None,
        },
        Operation::LDA => match mode {
            AddrMode::IMM => Some((0xA9, 2)),
            AddrMode::ZP => Some((0xA5, 3)),
            AddrMode::ZPX => Some((0xB5, 4)),
            AddrMode::ABS => Some((0xAD, 4)),
            AddrMode::ABSX => Some((0xBD, 4)),
            AddrMode::ABSY => Some((0xB9, 4)),
            AddrMode::INDX => Some((0xA1, 6)),
            AddrMode::INDY => Some((0xB1, 5)),
            _ => None,
        },
        Operation::LDX => match mode {
            AddrMode::IMM => Some((0xA2, 2)),
            AddrMode::ZP => Some((0xA6, 3)),
            AddrMode::ZPY => Some((0xB6, 4)),
            AddrMode::ABS => Some((0xAE, 4)),
            AddrMode::ABSY => Some((0xBE, 4)),
            _ => None,
        },
        Operation::LDY => match mode {
            AddrMode::IMM => Some((0xA0, 2)),
            AddrMode::ZP => Some((0xA4, 3)),
            AddrMode::ZPX => Some((0xB4, 4)),
            AddrMode::ABS => Some((0xAC, 4)),
            AddrMode::ABSX => Some((0xBC, 4)),
            _ => None,
        },
        Operation::LSR => match mode {
            AddrMode::ACC => Some((0x4A, 2)),
            AddrMode::ZP => Some((0x46, 5)),
            AddrMode::ZPX => Some((0x56, 6)),
            AddrMode::ABS => Some((0x4E, 6)),
            AddrMode::ABSX => Some((0x5E, 7)),
            _ => None,
        },
        Operation::NOP => match mode {
            AddrMode::IMP => Some((0xEA, 2)),
            _ => None,
        },
        Operation::ORA => match mode {
            AddrMode::IMM => Some((0x09, 2)),
            AddrMode::ZP => Some((0x05, 3)),
            AddrMode::ZPX => Some((0x15, 4)),
            AddrMode::ABS => Some((0x0D, 4)),
            AddrMode::ABSX => Some((0x1D, 4)),
            AddrMode::ABSY => Some((0x19, 4)),
            AddrMode::INDX => Some((0x01, 6)),
            AddrMode::INDY => Some((0x11, 5)),
            _ => None,
        },
        Operation::PHA => match mode {
            AddrMode::IMP => Some((0x48, 3)),
            _ => None,
        },
        Operation::PHP => match mode {
            AddrMode::IMP => Some((0x08, 3)),
            _ => None,
        },
        Operation::PLA => match mode {
            AddrMode::IMP => Some((0x68, 4)),
            _ => None,
        },
        Operation::PLP => match mode {
            AddrMode::IMP => Some((0x28, 4)),
            _ => None,
        },
        Operation::ROL => match mode {
            AddrMode::ACC => Some((0x2A, 2)),
            AddrMode::ZP => Some((0x26, 5)),
            AddrMode::ZPX => Some((0x36, 6)),
            AddrMode::ABS => Some((0x2E, 6)),
            AddrMode::ABSX => Some((0x3E, 7)),
            _ => None,
        },
        Operation::ROR => match mode {
            AddrMode::ACC => Some((0x6A, 2)),
            AddrMode::ZP => Some((0x66, 5)),
            AddrMode::ZPX => Some((0x76, 6)),
            AddrMode::ABS => Some((0x6E, 6)),
            AddrMode::ABSX => Some((0x7E, 7)),
            _ => None,
        },
        Operation::RTI => match mode {
            AddrMode::IMP => Some((0x40, 6)),
            _ => None,
        },
        Operation::RTS => match mode {
            AddrMode::IMP => Some((0x60, 6)),
            _ => None,
        },
        Operation::SBC => match mode {
            AddrMode::IMM => Some((0xE9, 2)),
            AddrMode::ZP => Some((0xE5, 3)),
            AddrMode::ZPX => Some((0xF5, 4)),
            AddrMode::ABS => Some((0xED, 4)),
            AddrMode::ABSX => Some((0xFD, 4)),
            AddrMode::ABSY => Some((0xF9, 4)),
            AddrMode::INDX => Some((0xE1, 6)),
            AddrMode::INDY => Some((0xF1, 5)),
            _ => None,
        },
        Operation::SEC => match mode {
            AddrMode::IMP => Some((0x38, 2)),
            _ => None,
        },
        Operation::SED => match mode {
            AddrMode::IMP => Some((0xF8, 2)),
            _ => None,
        },
        Operation::SEI => match mode {
            AddrMode::IMP => Some((0x78, 2)),
            _ => None,
        },
        Operation::STA => match mode {
            AddrMode::ZP => Some((0x85, 3)),
            AddrMode::ZPX => Some((0x95, 4)),
            AddrMode::ABS => Some((0x8D, 4)),
            AddrMode::ABSX => Some((0x9D, 5)),
            AddrMode::ABSY => Some((0x99, 5)),
            AddrMode::INDX => Some((0x81, 6)),
            AddrMode::INDY => Some((0x91, 6)),
            _ => None,
        },
        Operation::STX => match mode {
            AddrMode::ZP => Some((0x86, 3)),
            AddrMode::ZPY => Some((0x96, 4)),
            AddrMode::ABS => Some((0x8E, 4)),
            _ => None,
        },
        Operation::STY => match mode {
            AddrMode::ZP => Some((0x84, 3)),
            AddrMode::ZPX => Some((0x94, 4)),
            AddrMode::ABS => Some((0x8C, 4)),
            _ => None,
        },
        Operation::TAX => match mode {
            AddrMode::IMP => Some((0xAA, 2)),
            _ => None,
        },
        Operation::TAY => match mode {
            AddrMode::IMP => Some((0xA8, 2)),
            _ => None,
        },
        Operation::TSX => match mode {
            AddrMode::IMP => Some((0xBA, 2)),
            _ => None,
        },
        Operation::TXA => match mode {
            AddrMode::IMP => Some((0x8A, 2)),
            _ => None,
        },
        Operation::TXS => match mode {
            AddrMode::IMP => Some((0x9A, 2)),
            _ => None,
        },
        Operation::TYA => match mode {
            AddrMode::IMP => Some((0x98, 2)),
            _ => None,
        },
        Operation::XXX => None,
    }
}

/// No entry of the table has a base cycle count above `MAX_BASE_CYCLES`.
pub proof fn lemma_base_cycles_bounded(opcode: u8)
    ensures
        instruction_at(opcode).cycles <= MAX_BASE_CYCLES,
{
}

/// Every entry of the table is named by the mnemonic of its operation.
pub proof fn lemma_table_names(opcode: u8)
    ensures
        instruction_at(opcode).name@ == instruction_at(opcode).operation.mnemonic(),
{
}

/// Every defined entry of the table is the encoding of its operation with
/// its addressing mode; every undefined entry has the empty resolver and
/// costs nothing.
pub proof fn lemma_table_follows_encoding(opcode: u8)
    ensures
        instruction_at(opcode).operation != Operation::XXX ==> encoding(
            instruction_at(opcode).operation,
            instruction_at(opcode).address_mode,
        ) == Some((opcode, instruction_at(opcode).cycles)),
        instruction_at(opcode).operation == Operation::XXX ==> instruction_at(opcode).address_mode
            == AddrMode::XXX && instruction_at(opcode).cycles == 0,
{
}

/// Every encoding of an operation with an addressing mode stands in the
/// table, at its opcode and with its cycle count.
pub proof fn lemma_encoding_in_table(operation: Operation, mode: AddrMode)
    ensures
        encoding(operation, mode) matches Some(code) ==> {
            &&& instruction_at(code.0).operation == operation
            &&& instruction_at(code.0).address_mode == mode
            &&& instruction_at(code.0).cycles == code.1
        },
{
}

impl Instruction {
    /// The entry of `opcode` in the instruction set.
    pub fn decode(opcode: u8) -> (ins: Instruction)
        ensures
            ins == instruction_at(opcode),
    {
        let row = OPCODES[opcode as usize];
        Instruction { name: row.0, operation: row.1, address_mode: row.2, cycles: row.3 }
    }
}

/// The opcode table, built once and only read afterwards.
#[derive(Debug)]
pub struct LookUpTable {
    table: Vec<Instruction>,
}

impl View for LookUpTable {
    type V = Seq<Instruction>;

    closed spec fn view(&self) -> Seq<Instruction> {
        self.table@
    }
}

impl LookUpTable {
    /// A table always holds the instruction set, entry by entry.
    #[verifier::type_invariant]
    pub open spec fn well_formed(&self) -> bool {
        self@ == instruction_set()
    }

    /// Builds the table of all 256 opcodes.
    pub fn new() -> (lookup: LookUpTable)
        ensures
            lookup@ == instruction_set(),
    {
        let mut table: Vec<Instruction> = Vec::with_capacity(TABLE_SIZE);
        let mut opcode: u8 = 0;
        while table.len() < TABLE_SIZE
            invariant
                table@.len() <= TABLE_SIZE,
                table@.len() < TABLE_SIZE ==> opcode == table@.len(),
                forall|k: int| 0 <= k < table@.len() ==> table@[k] == instruction_at(k as u8),
            decreases TABLE_SIZE - table@.len(),
        {
            table.push(Instruction::decode(opcode));
            if opcode < 255 {
                opcode += 1;
            }
        }
        assert(table@ =~= instruction_set());
        LookUpTable { table }
    }

    /// The entry of `opcode`.
    pub fn entry(&self, opcode: u8) -> (ins: Instruction)
        ensures
            ins == instruction_at(opcode),
    {
        proof {
            use_type_invariant(self);
        }
        self.table[opcode as usize]
    }
}

} // verus!
