use emu6502::cpu::CPU;
use emu6502::flags::{StatusFlags, BREAK, CARRY, NEGATIVE, OVERFLOW, UNUSED, ZERO};
use emu6502::instruction::{lookup, AddressingMode, OpCode, UnknownOpcode};
use emu6502::memory::Memory;

const START: u16 = 0x0600;

fn loaded(program: &[u8]) -> CPU {
    let mut memory = Memory::new();
    memory.load_program(program.to_vec(), START);
    memory.write_u16(0xFFFC, START);
    let mut cpu = CPU::new(memory);
    cpu.reset();
    cpu
}

fn run(cpu: &mut CPU) -> usize {
    let mut steps = 0;
    while !cpu.halted {
        assert!(steps < 10_000, "program did not halt");
        cpu.execute_instruction();
        steps += 1;
    }
    steps
}

#[test]
fn reset_loads_the_reset_vector() {
    let mut memory = Memory::new();
    memory.write_u16(0xFFFC, 0x1234);
    let mut cpu = CPU::new(memory);
    assert_eq!(cpu.pc, 0);
    assert_eq!(cpu.sp, 0xFF);
    cpu.a = 7;
    cpu.x = 8;
    cpu.y = 9;
    cpu.halted = true;
    cpu.fault = Some(UnknownOpcode { opcode: 2, address: 3 });
    cpu.status = StatusFlags::from_byte(0xFF);
    cpu.reset();
    assert_eq!(cpu.pc, 0x1234);
    assert_eq!(cpu.sp, 0xFD);
    assert_eq!(cpu.status.bits, 0);
    assert_eq!((cpu.a, cpu.x, cpu.y), (0, 0, 0));
    assert!(!cpu.halted);
    assert_eq!(cpu.fault, None);
}

#[test]
fn load_add_break() {
    let mut cpu = loaded(&[0xA9, 0x05, 0x69, 0x03, 0x00]);
    let steps = run(&mut cpu);
    assert_eq!(steps, 3);
    assert_eq!(cpu.a, 8);
    assert!(!cpu.get_carry_flag());
    assert!(!cpu.get_zero_flag());
    assert!(!cpu.get_negative_flag());
    assert!(cpu.get_break_flag());
    assert!(cpu.halted);
    assert_eq!(cpu.fault, None);
    assert_eq!(cpu.pc, 0x0605);
}

#[test]
fn add_wraps_and_carries() {
    let mut cpu = loaded(&[0xA9, 0xFF, 0x69, 0x01, 0x00]);
    run(&mut cpu);
    assert_eq!(cpu.a, 0);
    assert!(cpu.get_carry_flag());
    assert!(cpu.get_zero_flag());
    assert!(!cpu.get_negative_flag());
    assert!(!cpu.get_overflow_flag());
    assert!(cpu.halted);
}

#[test]
fn unknown_opcode_halts_at_once() {
    let mut cpu = loaded(&[0x02, 0xA9, 0x05]);
    cpu.execute_instruction();
    assert!(cpu.halted);
    assert_eq!(cpu.fault, Some(UnknownOpcode { opcode: 0x02, address: 0x0600 }));
    assert_eq!(cpu.a, 0);
    assert_eq!(cpu.pc, 0x0601);
    assert_eq!(cpu.sp, 0xFD);
    assert_eq!(cpu.status.bits, 0);
    cpu.execute_instruction();
    assert_eq!(cpu.pc, 0x0601);
    assert_eq!(cpu.a, 0);
}

#[test]
fn halted_processor_does_nothing() {
    let mut cpu = loaded(&[0xA9, 0x05]);
    cpu.halted = true;
    cpu.execute_instruction();
    assert_eq!(cpu.a, 0);
    assert_eq!(cpu.pc, START);
}

#[test]
fn add_with_carry_on_all_inputs() {
    let mut cpu = CPU::new(Memory::new());
    for a in 0..=255u16 {
        for b in 0..=255u16 {
            for carry in 0..=1u16 {
                cpu.memory.write(0x0000, b as u8);
                cpu.pc = 0;
                cpu.a = a as u8;
                cpu.set_carry_flag(carry == 1);
                cpu.adc(&AddressingMode::Immediate);
                let sum = a + b + carry;
                let result = (sum % 256) as u8;
                assert_eq!(cpu.a, result);
                assert_eq!(cpu.get_carry_flag(), sum > 255);
                assert_eq!(
                    cpu.get_overflow_flag(),
                    ((a as u8 ^ result) & (b as u8 ^ result) & 0x80) != 0
                );
                assert_eq!(cpu.get_zero_flag(), result == 0);
                assert_eq!(cpu.get_negative_flag(), result & 0x80 != 0);
                assert_eq!(cpu.pc, 1);
            }
        }
    }
}

#[test]
fn add_signed_overflow() {
    let mut cpu = loaded(&[0xA9, 0x50, 0x69, 0x50, 0x00]);
    run(&mut cpu);
    assert_eq!(cpu.a, 0xA0);
    assert!(cpu.get_overflow_flag());
    assert!(cpu.get_negative_flag());
    assert!(!cpu.get_carry_flag());
}

#[test]
fn load_accumulator_immediate_on_all_values() {
    for v in 0..=255u8 {
        for flags in [0x00u8, 0x41, 0xFF] {
            let mut memory = Memory::new();
            memory.write(0x0010, v);
            let mut cpu = CPU::new(memory);
            cpu.pc = 0x0010;
            cpu.status = StatusFlags::from_byte(flags);
            cpu.lda(&AddressingMode::Immediate);
            assert_eq!(cpu.a, v);
            assert_eq!(cpu.get_zero_flag(), v == 0);
            assert_eq!(cpu.get_negative_flag(), v & 0x80 != 0);
            assert_eq!(cpu.get_carry_flag(), flags & CARRY != 0);
            assert_eq!(cpu.get_overflow_flag(), flags & OVERFLOW != 0);
            assert_eq!(cpu.pc, 0x0011);
        }
    }
}

#[test]
fn push_then_pull_restores_accumulator() {
    for v in [0x00u8, 0x01, 0x7F, 0x80, 0xFF] {
        for sp in [0x00u8, 0x01, 0xFD, 0xFF] {
            let mut cpu = CPU::new(Memory::new());
            cpu.sp = sp;
            cpu.a = v;
            cpu.pha();
            assert_eq!(cpu.sp, sp.wrapping_sub(1));
            assert_eq!(cpu.memory.read(0x0100 + sp as u16), v);
            cpu.a = v ^ 0x5A;
            cpu.pla();
            assert_eq!(cpu.a, v);
            assert_eq!(cpu.sp, sp);
            assert_eq!(cpu.get_zero_flag(), v == 0);
            assert_eq!(cpu.get_negative_flag(), v & 0x80 != 0);
        }
    }
}

#[test]
fn push_and_pull_through_opcodes() {
    // LDA #$80, PHA, LDA #$00, PLA, BRK
    let mut cpu = loaded(&[0xA9, 0x80, 0x48, 0xA9, 0x00, 0x68, 0x00]);
    run(&mut cpu);
    assert_eq!(cpu.a, 0x80);
    assert_eq!(cpu.sp, 0xFD);
    assert!(cpu.get_negative_flag());
    assert!(!cpu.get_zero_flag());
    assert_eq!(cpu.memory.read(0x01FD), 0x80);
}

#[test]
fn status_push_sets_bits_four_and_five() {
    let mut cpu = CPU::new(Memory::new());
    cpu.sp = 0xFD;
    cpu.status = StatusFlags::from_byte(0x81);
    cpu.php();
    assert_eq!(cpu.memory.read(0x01FD), 0xB1);
    assert_eq!(cpu.sp, 0xFC);
    assert_eq!(cpu.status.bits, 0x81);
}

#[test]
fn status_pull_sets_bit_five_and_clears_bit_four() {
    let mut cpu = CPU::new(Memory::new());
    cpu.sp = 0xFC;
    cpu.memory.write(0x01FD, 0xDF);
    cpu.plp();
    assert_eq!(cpu.status.bits, 0xEF);
    assert_eq!(cpu.sp, 0xFD);
    cpu.sp = 0xFC;
    cpu.memory.write(0x01FD, 0x00);
    cpu.plp();
    assert_eq!(cpu.status.bits, 0x20);
}

#[test]
fn branch_taken_adds_the_offset() {
    let mut cpu = CPU::new(Memory::new());
    cpu.memory.write(0x0601, 0x05);
    cpu.pc = 0x0601;
    cpu.branch(true);
    assert_eq!(cpu.pc, 0x0607);
}

#[test]
fn branch_not_taken_skips_the_offset() {
    let mut cpu = CPU::new(Memory::new());
    cpu.memory.write(0x0601, 0x05);
    cpu.pc = 0x0601;
    cpu.branch(false);
    assert_eq!(cpu.pc, 0x0602);
}

#[test]
fn branch_backwards_and_across_the_ends() {
    let mut cpu = CPU::new(Memory::new());
    cpu.memory.write(0x0601, 0xFB);
    cpu.pc = 0x0601;
    cpu.branch(true);
    assert_eq!(cpu.pc, 0x05FD);

    cpu.memory.write(0x0000, 0x80);
    cpu.pc = 0x0000;
    cpu.branch(true);
    assert_eq!(cpu.pc, 0xFF81);

    cpu.memory.write(0xFFFE, 0x7F);
    cpu.pc = 0xFFFE;
    cpu.branch(true);
    assert_eq!(cpu.pc, 0x007E);

    cpu.memory.write(0xFFFF, 0x01);
    cpu.pc = 0xFFFF;
    cpu.branch(false);
    assert_eq!(cpu.pc, 0x0000);
}

#[test]
fn branch_opcodes_test_their_flags() {
    // opcode, flag mask, branches when the flag is set
    let cases: [(u8, u8, bool); 8] = [
        (0xF0, ZERO, true),
        (0xD0, ZERO, false),
        (0xB0, CARRY, true),
        (0x90, CARRY, false),
        (0x30, NEGATIVE, true),
        (0x10, NEGATIVE, false),
        (0x70, OVERFLOW, true),
        (0x50, OVERFLOW, false),
    ];
    for (opcode, mask, when_set) in cases {
        for set in [false, true] {
            let mut cpu = loaded(&[opcode, 0x05]);
            cpu.status = StatusFlags::from_byte(if set { mask } else { 0 });
            cpu.execute_instruction();
            let taken = set == when_set;
            assert_eq!(cpu.pc, if taken { 0x0607 } else { 0x0602 });
            assert!(!cpu.halted);
        }
    }
    let mut cpu = loaded(&[0x80, 0x05]);
    cpu.execute_instruction();
    assert_eq!(cpu.pc, 0x0607);
}

#[test]
fn zero_page_modes_wrap_within_page_zero() {
    let mut cpu = loaded(&[0xB5, 0xF0, 0xB6, 0xF0, 0xA5, 0x10]);
    cpu.memory.write(0x0005, 0x11);
    cpu.memory.write(0x0006, 0x22);
    cpu.memory.write(0x0010, 0x33);
    cpu.x = 0x15;
    cpu.y = 0x16;
    cpu.execute_instruction();
    assert_eq!(cpu.a, 0x11);
    assert_eq!(cpu.pc, 0x0602);
    cpu.execute_instruction();
    assert_eq!(cpu.x, 0x22);
    assert_eq!(cpu.pc, 0x0604);
    cpu.execute_instruction();
    assert_eq!(cpu.a, 0x33);
    assert_eq!(cpu.pc, 0x0606);
}

#[test]
fn absolute_modes_wrap_at_the_end_of_memory() {
    let mut cpu = loaded(&[0xAD, 0x34, 0x12, 0xBD, 0xFF, 0xFF, 0xB9, 0x00, 0x20]);
    cpu.memory.write(0x1234, 0x44);
    cpu.memory.write(0x0001, 0x55);
    cpu.memory.write(0x2003, 0x66);
    cpu.execute_instruction();
    assert_eq!(cpu.a, 0x44);
    assert_eq!(cpu.pc, 0x0603);
    cpu.x = 0x02;
    cpu.execute_instruction();
    assert_eq!(cpu.a, 0x55);
    assert_eq!(cpu.pc, 0x0606);
    cpu.y = 0x03;
    cpu.execute_instruction();
    assert_eq!(cpu.a, 0x66);
    assert_eq!(cpu.pc, 0x0609);
}

#[test]
fn indirect_modes_follow_the_pointer() {
    let mut cpu = loaded(&[0xA1, 0xFE, 0xB1, 0x40, 0xA1, 0x00]);
    // (0xFE + X) wraps to 0x02: pointer at 0x02/0x03
    cpu.memory.write(0x0002, 0x00);
    cpu.memory.write(0x0003, 0x30);
    cpu.memory.write(0x3000, 0x77);
    cpu.x = 0x04;
    cpu.execute_instruction();
    assert_eq!(cpu.a, 0x77);
    assert_eq!(cpu.pc, 0x0602);
    // pointer at 0x40/0x41 plus Y, wrapping at the end of memory
    cpu.memory.write(0x0040, 0xFF);
    cpu.memory.write(0x0041, 0xFF);
    cpu.memory.write(0x0001, 0x88);
    cpu.y = 0x02;
    cpu.execute_instruction();
    assert_eq!(cpu.a, 0x88);
    assert_eq!(cpu.pc, 0x0604);
    // pointer at 0xFF: its high byte comes from 0x00
    cpu.memory.write(0x00FF, 0x21);
    cpu.memory.write(0x0000, 0x43);
    cpu.memory.write(0x4321, 0x99);
    cpu.x = 0xFF;
    cpu.execute_instruction();
    assert_eq!(cpu.a, 0x99);
}

#[test]
fn operand_address_moves_past_the_operand() {
    let mut cpu = loaded(&[0x10, 0x34, 0x12]);
    cpu.x = 1;
    let address = cpu.get_operand_address(&AddressingMode::ZeroPageX);
    assert_eq!(address, 0x0011);
    assert_eq!(cpu.pc, 0x0601);
    let address = cpu.get_operand_address(&AddressingMode::AbsoluteX);
    assert_eq!(address, 0x1235);
    assert_eq!(cpu.pc, 0x0603);
    cpu.pc = START;
    assert_eq!(cpu.get_operand(&AddressingMode::Immediate), 0x10);
    assert_eq!(cpu.pc, 0x0601);
}

#[test]
fn stores_write_the_registers() {
    // STA $10, STX $11, STY $1234
    let mut cpu = loaded(&[0x85, 0x10, 0x86, 0x11, 0x8C, 0x34, 0x12]);
    cpu.a = 1;
    cpu.x = 2;
    cpu.y = 3;
    cpu.execute_instruction();
    cpu.execute_instruction();
    cpu.execute_instruction();
    assert_eq!(cpu.memory.read(0x0010), 1);
    assert_eq!(cpu.memory.read(0x0011), 2);
    assert_eq!(cpu.memory.read(0x1234), 3);
    assert_eq!(cpu.pc, 0x0607);
    assert_eq!(cpu.status.bits, 0);
}

#[test]
fn subtract_uses_the_carry_as_it_stands() {
    let mut cpu = CPU::new(Memory::new());
    cpu.memory.write(0, 0x03);
    cpu.a = 0x10;
    cpu.set_carry_flag(true);
    cpu.sbc(&AddressingMode::Immediate);
    assert_eq!(cpu.a, 0x0C);
    assert!(cpu.get_carry_flag());
    assert!(!cpu.get_overflow_flag());

    let mut cpu = CPU::new(Memory::new());
    cpu.memory.write(0, 0x01);
    cpu.a = 0x80;
    cpu.sbc(&AddressingMode::Immediate);
    assert_eq!(cpu.a, 0x7F);
    assert!(cpu.get_carry_flag());
    assert!(!cpu.get_overflow_flag());
    assert!(!cpu.get_negative_flag());

    let mut cpu = CPU::new(Memory::new());
    cpu.memory.write(0, 0x02);
    cpu.a = 0x01;
    cpu.sbc(&AddressingMode::Immediate);
    assert_eq!(cpu.a, 0xFF);
    assert!(!cpu.get_carry_flag());
    assert!(cpu.get_overflow_flag());
    assert!(cpu.get_negative_flag());

    let mut cpu = CPU::new(Memory::new());
    cpu.memory.write(0, 0xB0);
    cpu.a = 0x50;
    cpu.sbc(&AddressingMode::Immediate);
    assert_eq!(cpu.a, 0xA0);
    assert!(!cpu.get_carry_flag());
    assert!(!cpu.get_overflow_flag());
    assert!(cpu.get_negative_flag());
}

#[test]
fn subtract_overflow_on_all_inputs() {
    let mut cpu = CPU::new(Memory::new());
    for a in 0..=255u8 {
        for m in 0..=255u8 {
            for carry in [false, true] {
                cpu.memory.write(0x0000, m);
                cpu.pc = 0;
                cpu.a = a;
                cpu.set_carry_flag(carry);
                cpu.sbc(&AddressingMode::Immediate);
                let r = a.wrapping_sub(m).wrapping_sub(carry as u8);
                assert_eq!(cpu.a, r);
                assert_eq!(cpu.get_overflow_flag(), ((a ^ r) & (m ^ r) & 0x80) != 0);
                assert_eq!(cpu.get_carry_flag(), a >= m);
                assert_eq!(cpu.get_zero_flag(), r == 0);
                assert_eq!(cpu.get_negative_flag(), r & 0x80 != 0);
            }
        }
    }
}

#[test]
fn compare_sets_carry_when_not_below() {
    for (a, v, carry, zero, negative) in [
        (0x10u8, 0x10u8, true, true, false),
        (0x20, 0x10, true, false, false),
        (0x10, 0x20, false, false, true),
        (0x00, 0xFF, false, false, false),
    ] {
        let mut cpu = loaded(&[0xC9, v]);
        cpu.a = a;
        cpu.execute_instruction();
        assert_eq!(cpu.a, a);
        assert_eq!(cpu.get_carry_flag(), carry);
        assert_eq!(cpu.get_zero_flag(), zero);
        assert_eq!(cpu.get_negative_flag(), negative);
    }
    // CMP $10 through the table
    let mut cpu = loaded(&[0xC5, 0x10]);
    cpu.memory.write(0x0010, 0x05);
    cpu.a = 0x05;
    cpu.execute_instruction();
    assert!(cpu.get_zero_flag());
    assert!(!cpu.halted);
}

#[test]
fn logic_operations() {
    let mut cpu = loaded(&[0x29, 0x0F, 0x09, 0x80, 0x49, 0xFF]);
    cpu.a = 0x3C;
    cpu.execute_instruction();
    assert_eq!(cpu.a, 0x0C);
    cpu.execute_instruction();
    assert_eq!(cpu.a, 0x8C);
    assert!(cpu.get_negative_flag());
    cpu.execute_instruction();
    assert_eq!(cpu.a, 0x73);
    assert!(!cpu.get_negative_flag());
}

#[test]
fn shifts_and_rotates_on_the_accumulator() {
    let mut cpu = loaded(&[0x0A, 0x4A, 0x2A, 0x6A]);
    cpu.a = 0x81;
    cpu.execute_instruction();
    assert_eq!(cpu.a, 0x02);
    assert!(cpu.get_carry_flag());
    cpu.a = 0x03;
    cpu.execute_instruction();
    assert_eq!(cpu.a, 0x01);
    assert!(cpu.get_carry_flag());
    cpu.a = 0x80;
    cpu.execute_instruction();
    assert_eq!(cpu.a, 0x01);
    assert!(cpu.get_carry_flag());
    cpu.a = 0x02;
    cpu.execute_instruction();
    assert_eq!(cpu.a, 0x81);
    assert!(!cpu.get_carry_flag());
    assert!(cpu.get_negative_flag());
    assert_eq!(cpu.pc, 0x0604);
}

#[test]
fn shifts_and_rotates_on_memory() {
    let mut cpu = loaded(&[0x06, 0x10, 0x46, 0x11, 0x26, 0x12, 0x66, 0x13]);
    cpu.memory.write(0x0010, 0xC0);
    cpu.memory.write(0x0011, 0x01);
    cpu.memory.write(0x0012, 0x40);
    cpu.memory.write(0x0013, 0x01);
    cpu.execute_instruction();
    assert_eq!(cpu.memory.read(0x0010), 0x80);
    assert!(cpu.get_carry_flag());
    assert!(cpu.get_negative_flag());
    cpu.execute_instruction();
    assert_eq!(cpu.memory.read(0x0011), 0x00);
    assert!(cpu.get_carry_flag());
    assert!(cpu.get_zero_flag());
    cpu.execute_instruction();
    assert_eq!(cpu.memory.read(0x0012), 0x81);
    assert!(!cpu.get_carry_flag());
    cpu.set_carry_flag(true);
    cpu.execute_instruction();
    assert_eq!(cpu.memory.read(0x0013), 0x80);
    assert!(cpu.get_carry_flag());
    assert_eq!(cpu.a, 0);
    assert_eq!(cpu.pc, 0x0608);
}

#[test]
fn increments_and_decrements_wrap() {
    let mut cpu = loaded(&[0xE6, 0x10, 0xC6, 0x11, 0xE8, 0xC8, 0xCA, 0x88]);
    cpu.memory.write(0x0010, 0xFF);
    cpu.memory.write(0x0011, 0x00);
    cpu.execute_instruction();
    assert_eq!(cpu.memory.read(0x0010), 0x00);
    assert!(cpu.get_zero_flag());
    cpu.execute_instruction();
    assert_eq!(cpu.memory.read(0x0011), 0xFF);
    assert!(cpu.get_negative_flag());
    cpu.x = 0xFF;
    cpu.execute_instruction();
    assert_eq!(cpu.x, 0x00);
    cpu.y = 0x7F;
    cpu.execute_instruction();
    assert_eq!(cpu.y, 0x80);
    cpu.execute_instruction();
    assert_eq!(cpu.x, 0xFF);
    cpu.y = 0x00;
    cpu.execute_instruction();
    assert_eq!(cpu.y, 0xFF);
}

#[test]
fn transfers_between_registers() {
    let mut cpu = loaded(&[0xAA, 0xA8, 0x8A, 0x98, 0xBA, 0x9A]);
    cpu.a = 0x80;
    cpu.execute_instruction();
    assert_eq!(cpu.x, 0x80);
    assert!(cpu.get_negative_flag());
    cpu.execute_instruction();
    assert_eq!(cpu.y, 0x80);
    cpu.x = 0x00;
    cpu.execute_instruction();
    assert_eq!(cpu.a, 0x00);
    assert!(cpu.get_zero_flag());
    cpu.y = 0x01;
    cpu.execute_instruction();
    assert_eq!(cpu.a, 0x01);
    cpu.execute_instruction();
    assert_eq!(cpu.x, 0xFD);
    cpu.x = 0x00;
    let before = cpu.status.bits;
    cpu.execute_instruction();
    assert_eq!(cpu.sp, 0x00);
    assert_eq!(cpu.status.bits, before);
}

#[test]
fn flag_instructions() {
    let mut cpu = loaded(&[0x38, 0xF8, 0x78, 0x18, 0xD8, 0x58, 0xB8]);
    cpu.execute_instruction();
    cpu.execute_instruction();
    cpu.execute_instruction();
    assert_eq!(cpu.status.bits, 0x0D);
    assert!(cpu.get_decimal_flag());
    assert!(cpu.get_interrupt_disable_flag());
    cpu.set_overflow_flag(true);
    cpu.execute_instruction();
    cpu.execute_instruction();
    cpu.execute_instruction();
    cpu.execute_instruction();
    assert_eq!(cpu.status.bits, 0x00);
}

#[test]
fn return_halts() {
    let mut cpu = loaded(&[0x60]);
    cpu.execute_instruction();
    assert!(cpu.halted);
    assert_eq!(cpu.fault, None);
    assert_eq!(cpu.sp, 0xFD);
    assert!(!cpu.get_break_flag());
}

#[test]
fn stack_pointer_wraps() {
    let mut cpu = CPU::new(Memory::new());
    cpu.sp = 0x00;
    cpu.push(0xAB);
    assert_eq!(cpu.sp, 0xFF);
    assert_eq!(cpu.memory.read(0x0100), 0xAB);
    assert_eq!(cpu.pull(), 0xAB);
    assert_eq!(cpu.sp, 0x00);
}

#[test]
fn program_counter_wraps() {
    let mut memory = Memory::new();
    memory.write(0xFFFF, 0xA9);
    memory.write(0x0000, 0x42);
    let mut cpu = CPU::new(memory);
    cpu.pc = 0xFFFF;
    cpu.execute_instruction();
    assert_eq!(cpu.a, 0x42);
    assert_eq!(cpu.pc, 0x0001);
}

#[test]
fn flag_setters_and_getters() {
    let mut cpu = CPU::new(Memory::new());
    cpu.set_negative_flag(0x80);
    cpu.set_zero_flag(0);
    cpu.set_carry_flag(true);
    cpu.set_overflow_flag(true);
    cpu.set_break_flag(true);
    cpu.set_decimal_flag(true);
    cpu.set_interrupt_disable_flag(true);
    assert_eq!(cpu.status.bits, 0xDF);
    assert_eq!(cpu.status.to_byte(), 0xFF);
    cpu.set_negative_flag(0x7F);
    cpu.set_zero_flag(1);
    assert_eq!(cpu.status.bits, 0x5D);
    assert!(cpu.get_carry_flag() && cpu.get_overflow_flag() && cpu.get_break_flag());
    cpu.update_zero_and_negative_flags(0);
    assert!(cpu.get_zero_flag() && !cpu.get_negative_flag());
}

#[test]
fn status_byte_reads_the_unused_bit_as_one() {
    assert_eq!(StatusFlags::new().bits, 0);
    assert_eq!(StatusFlags::new().to_byte(), UNUSED);
    let mut flags = StatusFlags::from_byte(0x00);
    flags.set_carry(true);
    flags.set_negative(0xF0);
    assert_eq!(flags.to_byte(), 0xA1);
    assert!(flags.carry() && flags.negative() && !flags.zero());
    flags.set(BREAK, true);
    assert!(flags.break_flag());
    flags.set_zero(0);
    flags.set_overflow(true);
    flags.set_decimal(true);
    flags.set_interrupt_disable(true);
    flags.set_break(false);
    assert!(flags.zero() && flags.overflow() && flags.decimal() && flags.interrupt_disable());
    assert_eq!(flags.bits, 0xCF);
}

#[test]
fn dispatch_runs_one_handler() {
    let mut cpu = CPU::new(Memory::new());
    cpu.a = 0x40;
    cpu.dispatch(OpCode::ASL, &AddressingMode::Implied);
    assert_eq!(cpu.a, 0x80);
    cpu.memory.write(0x0000, 0x20);
    cpu.memory.write(0x0020, 0x40);
    cpu.dispatch(OpCode::ASL, &AddressingMode::ZeroPage);
    assert_eq!(cpu.memory.read(0x0020), 0x80);
    assert_eq!(cpu.a, 0x80);
    assert_eq!(cpu.pc, 1);
}

#[test]
fn every_table_entry_runs_without_halting_except_break_and_return() {
    for opcode in 0..=255u8 {
        let mut cpu = loaded(&[opcode, 0x10, 0x20]);
        cpu.execute_instruction();
        match lookup(opcode) {
            Some(d) => {
                assert_eq!(cpu.fault, None);
                assert_eq!(cpu.halted, d.opname == OpCode::BRK || d.opname == OpCode::RTS);
                let branch = matches!(
                    d.opname,
                    OpCode::BRA
                        | OpCode::BEQ
                        | OpCode::BNE
                        | OpCode::BCC
                        | OpCode::BCS
                        | OpCode::BMI
                        | OpCode::BPL
                        | OpCode::BVC
                        | OpCode::BVS
                );
                if !branch {
                    assert_eq!(cpu.pc, START + d.bytes as u16);
                }
            }
            None => {
                assert!(cpu.halted);
                assert_eq!(cpu.fault, Some(UnknownOpcode { opcode, address: START }));
                assert_eq!(cpu.pc, START + 1);
            }
        }
    }
}

#[test]
fn only_break_sets_the_break_flag() {
    for opcode in 0..=255u8 {
        let mut cpu = loaded(&[opcode, 0x10, 0x20]);
        cpu.memory.write(0x01FE, 0xFF);
        cpu.execute_instruction();
        assert_eq!(cpu.get_break_flag(), opcode == 0x00);
        assert!(cpu.fault.is_none() || cpu.halted);
    }
}
