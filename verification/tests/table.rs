use cpu::lookup_table::{AddrMode, Instruction, LookUpTable, Operation};

fn check(lookup: &LookUpTable, opcode: u8, name: &str, op: Operation, mode: AddrMode, cycles: u8) {
    let entry = lookup.entry(opcode);
    assert_eq!(entry.name, name, "name of {:02x}", opcode);
    assert_eq!(entry.operation, op, "operation of {:02x}", opcode);
    assert_eq!(entry.address_mode, mode, "mode of {:02x}", opcode);
    assert_eq!(entry.cycles, cycles, "cycles of {:02x}", opcode);
}

#[test]
fn table_holds_known_entries() {
    let lookup = LookUpTable::new();
    check(&lookup, 0x00, "BRK", Operation::BRK, AddrMode::IMP, 7);
    check(&lookup, 0x0A, "ASL", Operation::ASL, AddrMode::ACC, 2);
    check(&lookup, 0x6C, "JMP", Operation::JMP, AddrMode::ABSIND, 5);
    check(&lookup, 0x91, "STA", Operation::STA, AddrMode::INDY, 6);
    check(&lookup, 0x96, "STX", Operation::STX, AddrMode::ZPY, 4);
    check(&lookup, 0xA1, "LDA", Operation::LDA, AddrMode::INDX, 6);
    check(&lookup, 0xA9, "LDA", Operation::LDA, AddrMode::IMM, 2);
    check(&lookup, 0xB5, "LDA", Operation::LDA, AddrMode::ZPX, 4);
    check(&lookup, 0xBE, "LDX", Operation::LDX, AddrMode::ABSY, 4);
    check(&lookup, 0xD0, "BNE", Operation::BNE, AddrMode::REL, 2);
    check(&lookup, 0xEA, "NOP", Operation::NOP, AddrMode::IMP, 2);
    check(&lookup, 0xFE, "INC", Operation::INC, AddrMode::ABSX, 7);
}

#[test]
fn undefined_opcodes_cost_nothing() {
    let lookup = LookUpTable::new();
    for opcode in [0x02u8, 0x1C, 0x3C, 0x80, 0x89, 0x9E, 0xFF] {
        check(&lookup, opcode, "???", Operation::XXX, AddrMode::XXX, 0);
    }
}

#[test]
fn table_has_151_defined_opcodes() {
    let lookup = LookUpTable::new();
    let mut defined = 0;
    for opcode in 0..=255u8 {
        let entry = lookup.entry(opcode);
        if entry.operation != Operation::XXX {
            defined += 1;
            assert!(entry.cycles >= 2 && entry.cycles <= 7);
            assert_ne!(entry.address_mode, AddrMode::XXX);
            assert_ne!(entry.name, "???");
        } else {
            assert_eq!(entry.cycles, 0);
            assert_eq!(entry.address_mode, AddrMode::XXX);
            assert_eq!(entry.name, "???");
        }
    }
    assert_eq!(defined, 151);
}

#[test]
fn decode_agrees_with_the_table() {
    let lookup = LookUpTable::new();
    for opcode in 0..=255u8 {
        let decoded = Instruction::decode(opcode);
        let entry = lookup.entry(opcode);
        assert_eq!(decoded.name, entry.name);
        assert_eq!(decoded.operation, entry.operation);
        assert_eq!(decoded.address_mode, entry.address_mode);
        assert_eq!(decoded.cycles, entry.cycles);
    }
}

#[test]
fn accumulator_modes_are_told_apart() {
    assert!(AddrMode::IMP.is_accumulator());
    assert!(AddrMode::ACC.is_accumulator());
    assert!(!AddrMode::IMM.is_accumulator());
    assert!(!AddrMode::ZP.is_accumulator());
    assert!(!AddrMode::XXX.is_accumulator());
}
