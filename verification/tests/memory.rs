use emu6502::instruction::{lookup, AddressingMode, Instruction, OpCode};
use emu6502::memory::{Memory, MEMORY_SIZE};

#[test]
fn new_memory_is_zero() {
    let memory = Memory::new();
    for address in 0..=0xFFFFu16 {
        assert_eq!(memory.read(address), 0);
    }
    assert_eq!(MEMORY_SIZE, 65536);
    assert!(Memory::default() == Memory::new());
}

#[test]
fn write_then_read_returns_the_value() {
    let mut memory = Memory::new();
    for (address, value) in [(0x0000u16, 0x01u8), (0x00FF, 0x80), (0x0100, 0xFF), (0xFFFF, 0x7F)] {
        memory.write(address, value);
        assert_eq!(memory.read(address), value);
    }
    assert_eq!(memory.read(0x0000), 0x01);
    assert_eq!(memory.read(0x00FF), 0x80);
    assert_eq!(memory.read(0x0001), 0x00);
    assert_eq!(memory.read(0xFFFE), 0x00);
}

#[test]
fn reads_do_not_change_memory() {
    let mut memory = Memory::new();
    memory.write(0x1234, 0xAB);
    let before = memory.clone();
    assert_eq!(memory.read(0x1234), 0xAB);
    assert_eq!(memory.read(0x1234), 0xAB);
    assert_eq!(memory.read_u16(0x1234), 0x00AB);
    assert_eq!(memory.read_u16(0x1234), 0x00AB);
    assert!(memory == before);
}

#[test]
fn later_write_wins() {
    let mut memory = Memory::new();
    memory.write(0x0200, 1);
    memory.write(0x0200, 2);
    assert_eq!(memory.read(0x0200), 2);
}

#[test]
fn words_are_little_endian() {
    let mut memory = Memory::new();
    memory.write_u16(0x0010, 0x1234);
    assert_eq!(memory.read(0x0010), 0x34);
    assert_eq!(memory.read(0x0011), 0x12);
    assert_eq!(memory.read_u16(0x0010), 0x1234);
    memory.write(0x0020, 0xCD);
    memory.write(0x0021, 0xAB);
    assert_eq!(memory.read_u16(0x0020), 0xABCD);
    memory.write_u16(0xFFFC, 0x0600);
    assert_eq!(memory.read(0xFFFC), 0x00);
    assert_eq!(memory.read(0xFFFD), 0x06);
}

#[test]
fn word_at_the_last_address_wraps() {
    let mut memory = Memory::new();
    memory.write_u16(0xFFFF, 0xBEEF);
    assert_eq!(memory.read(0xFFFF), 0xEF);
    assert_eq!(memory.read(0x0000), 0xBE);
    assert_eq!(memory.read_u16(0xFFFF), 0xBEEF);
}

#[test]
fn load_program_copies_the_bytes() {
    let mut memory = Memory::new();
    memory.write(0x05FF, 0x11);
    memory.write(0x0603, 0x22);
    memory.load_program(vec![0xA9, 0x05, 0x00], 0x0600);
    assert_eq!(memory.read(0x05FF), 0x11);
    assert_eq!(memory.read(0x0600), 0xA9);
    assert_eq!(memory.read(0x0601), 0x05);
    assert_eq!(memory.read(0x0602), 0x00);
    assert_eq!(memory.read(0x0603), 0x22);
}

#[test]
fn load_program_at_the_edges() {
    let mut memory = Memory::new();
    memory.load_program(Vec::new(), 0xFFFF);
    memory.load_program(vec![0x01], 0xFFFF);
    assert_eq!(memory.read(0xFFFF), 0x01);
    memory.load_program(vec![0xAA; 65536], 0x0000);
    assert_eq!(memory.read(0x0000), 0xAA);
    assert_eq!(memory.read(0xFFFF), 0xAA);
}

#[test]
fn lookup_finds_the_documented_rows() {
    assert_eq!(lookup(0xA9), Some(Instruction {
        opname: OpCode::LDA,
        opcode: 0xA9,
        mode: AddressingMode::Immediate,
        bytes: 2,
        cycles: 2,
    }));
    assert_eq!(lookup(0x69), Some(Instruction {
        opname: OpCode::ADC,
        opcode: 0x69,
        mode: AddressingMode::Immediate,
        bytes: 2,
        cycles: 2,
    }));
    assert_eq!(lookup(0x00), Some(Instruction {
        opname: OpCode::BRK,
        opcode: 0x00,
        mode: AddressingMode::Implied,
        bytes: 1,
        cycles: 7,
    }));
    assert_eq!(lookup(0xFE), Some(Instruction {
        opname: OpCode::INC,
        opcode: 0xFE,
        mode: AddressingMode::AbsoluteX,
        bytes: 3,
        cycles: 7,
    }));
    assert_eq!(lookup(0x91), Some(Instruction {
        opname: OpCode::STA,
        opcode: 0x91,
        mode: AddressingMode::IndirectY,
        bytes: 2,
        cycles: 6,
    }));
    assert_eq!(lookup(0x80).map(|d| (d.opname, d.mode, d.bytes)), Some((
        OpCode::BRA,
        AddressingMode::Immediate,
        2
    )));
}

#[test]
fn lookup_knows_no_undocumented_opcode() {
    for opcode in [0x02u8, 0x03, 0x04, 0x4C, 0x20, 0xEA, 0xFF, 0x6C, 0x24, 0xE0, 0xC0, 0x40] {
        assert_eq!(lookup(opcode), None);
    }
}

#[test]
fn table_rows_are_consistent() {
    let mut count = 0;
    for opcode in 0..=255u8 {
        if let Some(d) = lookup(opcode) {
            count += 1;
            assert_eq!(d.opcode, opcode);
            let length = match d.mode {
                AddressingMode::Implied => 1,
                AddressingMode::Absolute
                | AddressingMode::AbsoluteX
                | AddressingMode::AbsoluteY
                | AddressingMode::Indirect => 3,
                _ => 2,
            };
            assert_eq!(d.bytes, length);
            assert!(d.cycles >= 2 && d.cycles <= 7);
            assert_ne!(d.mode, AddressingMode::Indirect);
        }
    }
    assert_eq!(count, 139);
}

#[test]
fn from_name_reads_upper_case_names() {
    assert_eq!(OpCode::from_name("LDA"), Some(OpCode::LDA));
    assert_eq!(OpCode::from_name("BRK"), Some(OpCode::BRK));
    assert_eq!(OpCode::from_name("CMP"), Some(OpCode::CMP));
    assert_eq!(OpCode::from_name("BRA"), Some(OpCode::BRA));
    assert_eq!(OpCode::from_name("lda"), None);
    assert_eq!(OpCode::from_name("LD"), None);
    assert_eq!(OpCode::from_name("LDAA"), None);
    assert_eq!(OpCode::from_name(""), None);
    assert_eq!(OpCode::from_name("NOP"), None);
    assert_eq!(OpCode::from_name("L\u{c4}A"), None);
}

#[test]
fn every_mnemonic_is_read_back_from_its_name() {
    let all = [
        OpCode::LDA, OpCode::SBC, OpCode::INC, OpCode::DEC, OpCode::INX, OpCode::INY,
        OpCode::DEX, OpCode::DEY, OpCode::AND, OpCode::ORA, OpCode::EOR, OpCode::ASL,
        OpCode::LSR, OpCode::ROL, OpCode::ROR, OpCode::CLC, OpCode::SEI, OpCode::SED,
        OpCode::SEC, OpCode::CLV, OpCode::CLI, OpCode::CLD, OpCode::PLP, OpCode::PLA,
        OpCode::PHP, OpCode::PHA, OpCode::TXS, OpCode::TSX, OpCode::TYA, OpCode::TXA,
        OpCode::TAY, OpCode::TAX, OpCode::BRK, OpCode::RTS, OpCode::BRA, OpCode::BVS,
        OpCode::BVC, OpCode::BPL, OpCode::BMI, OpCode::BCC, OpCode::BCS, OpCode::BNE,
        OpCode::BEQ, OpCode::CMP, OpCode::ADC, OpCode::STA, OpCode::STY, OpCode::STX,
        OpCode::LDY, OpCode::LDX,
    ];
    assert_eq!(all.len(), 50);
    for op in all {
        let name = format!("{:?}", op);
        assert_eq!(OpCode::from_name(&name), Some(op));
    }
}
