use emu6502::assembler::{
    assemble, assemble_line, classify_address, create_opcode_map, encode, find_mode,
    is_assemblable, parse_operand, pick_reading, try_assemble,
};
use emu6502::cpu::CPU;
use emu6502::instruction::{lookup, AddressingMode, Instruction, OpCode};
use emu6502::memory::Memory;
use emu6502::text::{count_hex_digits, cut_at, hex_digit, strip_leading, strip_mark};

#[test]
fn assembles_load_add_break() {
    let code = assemble("LDA #$05\nADC #$03\nBRK");
    assert_eq!(code, vec![0xA9, 0x05, 0x69, 0x03, 0x00]);
}

#[test]
fn assembled_program_runs() {
    let code = assemble("lda #$ff ; load\nadc #$01\n\nbrk\n");
    assert_eq!(code, vec![0xA9, 0xFF, 0x69, 0x01, 0x00]);
    let mut memory = Memory::new();
    memory.load_program(code, 0x0600);
    memory.write_u16(0xFFFC, 0x0600);
    let mut cpu = CPU::new(memory);
    cpu.reset();
    for _ in 0..3 {
        cpu.execute_instruction();
    }
    assert!(cpu.halted);
    assert_eq!(cpu.a, 0);
    assert!(cpu.get_carry_flag());
    assert!(cpu.get_zero_flag());
    assert!(!cpu.get_negative_flag());
}

#[test]
fn empty_source_gives_no_code() {
    assert_eq!(assemble(""), Vec::<u8>::new());
    assert_eq!(assemble("\n\n   \n\t\n"), Vec::<u8>::new());
    assert_eq!(assemble("; nothing but a comment\n  ; and another"), Vec::<u8>::new());
}

#[test]
fn lines_end_with_or_without_carriage_return() {
    assert_eq!(assemble("INX\r\nINY\r\n"), vec![0xE8, 0xC8]);
    assert_eq!(assemble("INX\nINY"), vec![0xE8, 0xC8]);
}

#[test]
fn comment_is_cut_off() {
    assert_eq!(assemble("INX ; INY"), vec![0xE8]);
    assert_eq!(assemble("INX;INY"), vec![0xE8]);
    assert_eq!(assemble("LDA #$01;comment"), vec![0xA9, 0x01]);
    assert_eq!(assemble(";INX"), Vec::<u8>::new());
    assert_eq!(assemble("LDA ; #$01"), Vec::<u8>::new());
    assert_eq!(assemble("INX ; caf\u{e9} \u{1F600}\nINY"), vec![0xE8, 0xC8]);
}

#[test]
fn mnemonic_in_any_case() {
    assert_eq!(assemble("lda #$01"), vec![0xA9, 0x01]);
    assert_eq!(assemble("Lda #$01"), vec![0xA9, 0x01]);
    assert_eq!(assemble("  \t LDA \t #$01  "), vec![0xA9, 0x01]);
}

#[test]
fn words_after_the_operand_are_ignored() {
    assert_eq!(assemble("LDA #$01 #$02 INX"), vec![0xA9, 0x01]);
}

#[test]
fn immediate_operands() {
    assert_eq!(assemble("LDA #$2A"), vec![0xA9, 0x2A]);
    // without `$` the digits are read as hexadecimal first
    assert_eq!(assemble("LDA #42"), vec![0xA9, 0x42]);
    assert_eq!(assemble("LDA #$$$10"), vec![0xA9, 0x10]);
    // two bytes are written: the low byte of the value
    assert_eq!(assemble("LDA #$1234"), vec![0xA9, 0x34]);
    // too large for hexadecimal, read as decimal: 10000 is 0x2710
    assert_eq!(assemble("LDA #10000"), vec![0xA9, 0x10]);
    // cannot be read at all
    assert_eq!(assemble("LDA #70000"), vec![0xA9, 0x00]);
    assert_eq!(assemble("LDA #xyz"), vec![0xA9, 0x00]);
    assert_eq!(assemble("LDA #"), vec![0xA9, 0x00]);
}

#[test]
fn zero_page_and_absolute_operands() {
    assert_eq!(assemble("LDA $10"), vec![0xA5, 0x10]);
    assert_eq!(assemble("LDA $1"), vec![0xA5, 0x01]);
    assert_eq!(assemble("LDA $FF"), vec![0xA5, 0xFF]);
    assert_eq!(assemble("LDA $ff"), vec![0xA5, 0xFF]);
    assert_eq!(assemble("LDA $100"), vec![0xAD, 0x00, 0x01]);
    assert_eq!(assemble("LDA $1234"), vec![0xAD, 0x34, 0x12]);
    assert_eq!(assemble("STA $0200"), vec![0x8D, 0x00, 0x02]);
    // more than two digits make an absolute address, whatever the value
    assert_eq!(assemble("LDA $0010"), vec![0xAD, 0x10, 0x00]);
    assert_eq!(assemble("LDA $010"), vec![0xAD, 0x10, 0x00]);
    // cannot be read: zero, in page zero
    assert_eq!(assemble("LDA $"), vec![0xA5, 0x00]);
    assert_eq!(assemble("LDA $12G4"), vec![0xA5, 0x00]);
    assert_eq!(assemble("LDA $12345"), vec![0xA5, 0x00]);
}

#[test]
fn operands_without_prefix_are_absolute() {
    assert_eq!(assemble("LDA 10"), vec![0xAD, 0x10, 0x00]);
    assert_eq!(assemble("LDA 1234"), vec![0xAD, 0x34, 0x12]);
    assert_eq!(assemble("LDA ABCD"), vec![0xAD, 0xCD, 0xAB]);
    assert_eq!(assemble("LDA 10000"), vec![0xAD, 0x10, 0x27]);
    assert_eq!(assemble("LDA 65536"), vec![0xAD, 0x00, 0x00]);
    assert_eq!(assemble("LDA hello"), vec![0xAD, 0x00, 0x00]);
}

#[test]
fn implied_instructions() {
    assert_eq!(
        assemble("TAX\nTAY\nTXA\nTYA\nTSX\nTXS\nPHA\nPHP\nPLA\nPLP"),
        vec![0xAA, 0xA8, 0x8A, 0x98, 0xBA, 0x9A, 0x48, 0x08, 0x68, 0x28]
    );
    assert_eq!(
        assemble("CLC\nSEC\nCLD\nSED\nCLI\nSEI\nCLV\nRTS\nBRK"),
        vec![0x18, 0x38, 0xD8, 0xF8, 0x58, 0x78, 0xB8, 0x60, 0x00]
    );
    assert_eq!(assemble("ASL\nLSR\nROL\nROR"), vec![0x0A, 0x4A, 0x2A, 0x6A]);
    assert_eq!(assemble("INX\nINY\nDEX\nDEY"), vec![0xE8, 0xC8, 0xCA, 0x88]);
}

#[test]
fn branches_take_their_offset_as_immediate() {
    assert_eq!(assemble("BEQ #$05"), vec![0xF0, 0x05]);
    assert_eq!(assemble("BNE #$FB"), vec![0xD0, 0xFB]);
    assert_eq!(assemble("BCS #1\nBCC #2\nBMI #3\nBPL #4\nBVC #5\nBVS #6"), vec![
        0xB0, 0x01, 0x90, 0x02, 0x30, 0x03, 0x10, 0x04, 0x50, 0x05, 0x70, 0x06
    ]);
    assert_eq!(assemble("BRA #$10"), vec![0x80, 0x10]);
}

#[test]
fn instruction_without_a_fitting_variant_writes_nothing() {
    assert_eq!(assemble("STA #$10"), Vec::<u8>::new());
    assert_eq!(assemble("LDA"), Vec::<u8>::new());
    assert_eq!(assemble("INX $10"), Vec::<u8>::new());
    assert_eq!(assemble("BEQ $05"), Vec::<u8>::new());
    assert_eq!(assemble("INX\nSTA #$10\nINY"), vec![0xE8, 0xC8]);
}

#[test]
fn unknown_mnemonic_is_refused() {
    assert!(!is_assemblable("FOO"));
    assert!(!is_assemblable("LDA #$01\nJMP $1234\nBRK"));
    assert!(!is_assemblable("LD #$01"));
    assert!(!is_assemblable("LDAX"));
    assert!(!is_assemblable("#$01"));
    assert_eq!(try_assemble("FOO"), None);
    assert_eq!(try_assemble("LDA #$01\nNOP"), None);
}

#[test]
fn known_mnemonics_are_accepted() {
    assert!(is_assemblable(""));
    assert!(is_assemblable("LDA #$01\n; note\n\nbrk"));
    assert!(is_assemblable("STA #$10"));
    assert!(is_assemblable("; FOO"));
    assert_eq!(try_assemble("LDA #$01\nBRK"), Some(vec![0xA9, 0x01, 0x00]));
    assert_eq!(try_assemble(""), Some(vec![]));
}

#[test]
fn assemble_line_appends() {
    let opcodes = create_opcode_map();
    let mut code = vec![0xEA];
    assert!(assemble_line(&mut code, &opcodes, "LDA $1234 ; load"));
    assert_eq!(code, vec![0xEA, 0xAD, 0x34, 0x12]);
    assert!(assemble_line(&mut code, &opcodes, "   "));
    assert_eq!(code, vec![0xEA, 0xAD, 0x34, 0x12]);
    assert!(!assemble_line(&mut code, &opcodes, "WAT #1"));
    assert_eq!(code, vec![0xEA, 0xAD, 0x34, 0x12]);
}

#[test]
fn parse_operand_modes_and_values() {
    assert_eq!(parse_operand("#$2A"), (AddressingMode::Immediate, 0x2A));
    assert_eq!(parse_operand("#42"), (AddressingMode::Immediate, 0x42));
    assert_eq!(parse_operand("#$FFFF"), (AddressingMode::Immediate, 0xFFFF));
    assert_eq!(parse_operand("#99999"), (AddressingMode::Immediate, 0));
    assert_eq!(parse_operand("#65535"), (AddressingMode::Immediate, 65535));
    assert_eq!(parse_operand("$00"), (AddressingMode::ZeroPage, 0x00));
    assert_eq!(parse_operand("$FF"), (AddressingMode::ZeroPage, 0xFF));
    assert_eq!(parse_operand("$100"), (AddressingMode::Absolute, 0x100));
    assert_eq!(parse_operand("$FFFF"), (AddressingMode::Absolute, 0xFFFF));
    assert_eq!(parse_operand("$0010"), (AddressingMode::Absolute, 0x0010));
    assert_eq!(parse_operand("$+1F"), (AddressingMode::ZeroPage, 0x1F));
    assert_eq!(parse_operand("$zz"), (AddressingMode::ZeroPage, 0));
    assert_eq!(parse_operand("$"), (AddressingMode::ZeroPage, 0));
    assert_eq!(parse_operand("$$10"), (AddressingMode::ZeroPage, 0));
    assert_eq!(parse_operand("10"), (AddressingMode::Absolute, 0x10));
    assert_eq!(parse_operand("FFFF"), (AddressingMode::Absolute, 0xFFFF));
    assert_eq!(parse_operand("10000"), (AddressingMode::Absolute, 10000));
    assert_eq!(parse_operand("zz"), (AddressingMode::Absolute, 0));
    assert_eq!(parse_operand(""), (AddressingMode::Absolute, 0));
    assert_eq!(parse_operand("-1"), (AddressingMode::Absolute, 0));
}

#[test]
fn pick_reading_prefers_hexadecimal() {
    assert_eq!(pick_reading(Some(0x10), Some(10)), 0x10);
    assert_eq!(pick_reading(None, Some(10)), 10);
    assert_eq!(pick_reading(Some(0), None), 0);
    assert_eq!(pick_reading(None, None), 0);
}

#[test]
fn classify_address_by_digits() {
    assert_eq!(classify_address(Some(0x12), 0), (AddressingMode::ZeroPage, 0x12));
    assert_eq!(classify_address(Some(0x12), 2), (AddressingMode::ZeroPage, 0x12));
    assert_eq!(classify_address(Some(0x12), 3), (AddressingMode::Absolute, 0x12));
    assert_eq!(classify_address(Some(0x1234), 4), (AddressingMode::Absolute, 0x1234));
    assert_eq!(classify_address(None, 4), (AddressingMode::ZeroPage, 0));
    assert_eq!(classify_address(None, 1), (AddressingMode::ZeroPage, 0));
}

fn rows(op: OpCode) -> Vec<Instruction> {
    create_opcode_map().get(&op).cloned().unwrap_or_default()
}

#[test]
fn opcode_map_groups_rows_by_mnemonic() {
    let lda: Vec<u8> = rows(OpCode::LDA).iter().map(|d| d.opcode).collect();
    assert_eq!(lda, vec![0xA1, 0xA5, 0xA9, 0xAD, 0xB1, 0xB5, 0xB9, 0xBD]);
    let stx: Vec<u8> = rows(OpCode::STX).iter().map(|d| d.opcode).collect();
    assert_eq!(stx, vec![0x86, 0x8E, 0x96]);
    let brk = rows(OpCode::BRK);
    assert_eq!(brk.len(), 1);
    assert_eq!(brk[0], Instruction {
        opname: OpCode::BRK,
        opcode: 0x00,
        mode: AddressingMode::Implied,
        bytes: 1,
        cycles: 7,
    });
    let bra: Vec<u8> = rows(OpCode::BRA).iter().map(|d| d.opcode).collect();
    assert_eq!(bra, vec![0x80]);
}

#[test]
fn opcode_map_holds_the_whole_table() {
    let map = create_opcode_map();
    let mut total = 0;
    for opcode in 0..=255u8 {
        if let Some(d) = lookup(opcode) {
            let group = map.get(&d.opname).expect("mnemonic has rows");
            assert_eq!(group.iter().filter(|row| **row == d).count(), 1);
            assert!(group.iter().all(|row| row.opname == d.opname));
            assert!(group.windows(2).all(|pair| pair[0].opcode < pair[1].opcode));
            total += 1;
        }
    }
    assert_eq!(total, 139);
}

#[test]
fn find_mode_takes_the_first() {
    let first = Instruction {
        opname: OpCode::LDA,
        opcode: 0x01,
        mode: AddressingMode::ZeroPage,
        bytes: 2,
        cycles: 3,
    };
    let second = Instruction { opcode: 0x02, mode: AddressingMode::Absolute, bytes: 3, ..first };
    let third = Instruction { opcode: 0x03, ..first };
    let variants = vec![first, second, third];
    assert_eq!(find_mode(&variants, AddressingMode::ZeroPage), Some(first));
    assert_eq!(find_mode(&variants, AddressingMode::Absolute), Some(second));
    assert_eq!(find_mode(&variants, AddressingMode::Implied), None);
    assert_eq!(find_mode(&Vec::new(), AddressingMode::ZeroPage), None);
}

#[test]
fn encode_writes_by_length() {
    let one = Instruction {
        opname: OpCode::ASL,
        opcode: 0x0A,
        mode: AddressingMode::Implied,
        bytes: 1,
        cycles: 2,
    };
    let two = Instruction { opcode: 0x06, mode: AddressingMode::ZeroPage, bytes: 2, ..one };
    let three = Instruction { opcode: 0x0E, mode: AddressingMode::Absolute, bytes: 3, ..one };
    let variants = vec![one, two, three];
    let mut code = vec![0xFF];
    encode(&mut code, &variants, None);
    assert_eq!(code, vec![0xFF, 0x0A]);
    encode(&mut code, &variants, Some((AddressingMode::ZeroPage, 0x1234)));
    assert_eq!(code, vec![0xFF, 0x0A, 0x06, 0x34]);
    encode(&mut code, &variants, Some((AddressingMode::Absolute, 0x1234)));
    assert_eq!(code, vec![0xFF, 0x0A, 0x06, 0x34, 0x0E, 0x34, 0x12]);
    encode(&mut code, &variants, Some((AddressingMode::Implied, 0x1234)));
    assert_eq!(code, vec![0xFF, 0x0A, 0x06, 0x34, 0x0E, 0x34, 0x12, 0x0A]);
    encode(&mut code, &variants, Some((AddressingMode::Immediate, 0x1234)));
    assert_eq!(code.len(), 8);
    encode(&mut code, &vec![two], None);
    assert_eq!(code.len(), 8);
}

#[test]
fn what_is_assembled_decodes_to_the_same_instruction() {
    let map = create_opcode_map();
    for opcode in 0..=255u8 {
        if let Some(d) = lookup(opcode) {
            let group = map.get(&d.opname).expect("mnemonic has rows");
            assert_eq!(find_mode(group, d.mode), Some(d));
            let mut code = Vec::new();
            let operand = if d.mode == AddressingMode::Implied {
                None
            } else {
                Some((d.mode, 0xBEEF))
            };
            encode(&mut code, group, operand);
            assert_eq!(code.len(), d.bytes as usize);
            assert_eq!(code[0], opcode);
        }
    }
}

#[test]
fn cut_at_first_mark() {
    assert_eq!(cut_at("abc;def;ghi", ';'), "abc");
    assert_eq!(cut_at(";abc", ';'), "");
    assert_eq!(cut_at("abc", ';'), "abc");
    assert_eq!(cut_at("abc;", ';'), "abc");
    assert_eq!(cut_at("", ';'), "");
    assert_eq!(cut_at("\u{e9}\u{1F600};x", ';'), "\u{e9}\u{1F600}");
}

#[test]
fn strip_mark_removes_one() {
    assert_eq!(strip_mark("#12", '#'), Some("12"));
    assert_eq!(strip_mark("##12", '#'), Some("#12"));
    assert_eq!(strip_mark("#", '#'), Some(""));
    assert_eq!(strip_mark("12#", '#'), None);
    assert_eq!(strip_mark("", '#'), None);
    assert_eq!(strip_mark("#\u{e9}", '#'), Some("\u{e9}"));
}

#[test]
fn strip_leading_removes_all() {
    assert_eq!(strip_leading("$$$12$", '$'), "12$");
    assert_eq!(strip_leading("12", '$'), "12");
    assert_eq!(strip_leading("$$", '$'), "");
    assert_eq!(strip_leading("", '$'), "");
    assert_eq!(strip_leading("$\u{e9}$", '$'), "\u{e9}$");
}

#[test]
fn hex_digits_are_counted() {
    assert_eq!(count_hex_digits(""), 0);
    assert_eq!(count_hex_digits("12"), 2);
    assert_eq!(count_hex_digits("0aF9"), 4);
    assert_eq!(count_hex_digits("+1g:@G`/"), 1);
    assert_eq!(count_hex_digits("\u{e9}1"), 1);
    for c in "0123456789abcdefABCDEF".chars() {
        assert!(hex_digit(c));
    }
    for c in "/:@G`g +-$#\u{ff11}".chars() {
        assert!(!hex_digit(c));
    }
}
