//! The execution engine.
//!
//! [`CPU`] holds the registers and owns the [`Memory`] it runs on. Its view is
//! a [`Machine`], and every method is specified as the function of
//! [`crate::machine`] that it computes.

use vstd::prelude::*;
use crate::flags::{is_negative, lemma_bit7, lemma_with_has, lemma_with_zero_negative,
    StatusFlags, BREAK, CARRY, DECIMAL, INTERRUPT_DISABLE, NEGATIVE, OVERFLOW, UNUSED, ZERO};
use crate::instruction::{lemma_descriptor, lookup, AddressingMode, OpCode, UnknownOpcode};
use crate::machine::{carry_in, overflows, signed, wrap16, wrap8, Machine, RESET_VECTOR,
    STACK_BASE, STACK_RESET};
use crate::memory::{lemma_join_bytes, word_at, Memory};

verus! {

proof fn lemma_shift_left(value: u8)
    by (bit_vector)
    ensures
        value << 1 == (2 * value) % 0x100,
{
}

proof fn lemma_rotate_left(value: u8, carry: u8)
    by (bit_vector)
    requires
        carry <= 1,
    ensures
        (value << 1) | carry == (2 * value + carry) % 0x100,
{
}

proof fn lemma_shift_right(value: u8, carry: u8)
    by (bit_vector)
    requires
        carry <= 1,
    ensures
        value >> 1 == value / 2,
        (value >> 1) | (carry << 7) == value / 2 + 0x80 * carry,
        (value & 0x01 != 0) == (value % 2 == 1),
{
}

proof fn lemma_low_eight_bits(sum: u16)
    by (bit_vector)
    ensures
        sum as u8 == sum % 0x100,
{
}

/// `base + index` within one byte.
fn offset8(base: u8, index: u8) -> (sum: u8)
    ensures
        sum == wrap8(base + index),
{
    base.wrapping_add(index)
}

/// `base + index` within sixteen bits.
fn offset16(base: u16, index: u8) -> (sum: u16)
    ensures
        sum == wrap16(base + index),
{
    base.wrapping_add(index as u16)
}

/// The processor: registers, flags, and the memory it runs on.
pub struct CPU {
    /// Accumulator.
    pub a: u8,
    /// Index register X.
    pub x: u8,
    /// Index register Y.
    pub y: u8,
    /// Program counter.
    pub pc: u16,
    /// Stack pointer, an offset into page `0x01`.
    pub sp: u8,
    /// Status flags.
    pub status: StatusFlags,
    /// The address space.
    pub memory: Memory,
    /// Whether execution has stopped.
    pub halted: bool,
    /// The unknown opcode that stopped execution, if one did.
    pub fault: Option<UnknownOpcode>,
}

impl View for CPU {
    type V = Machine;

    open spec fn view(&self) -> Machine {
        Machine {
            a: self.a,
            x: self.x,
            y: self.y,
            pc: self.pc,
            sp: self.sp,
            status: self.status,
            memory: self.memory@,
            halted: self.halted,
            fault: self.fault,
        }
    }
}

impl CPU {
    /// The view of every processor covers the whole address space.
    pub proof fn lemma_view_wf(&self)
        ensures
            self@.wf(),
    {
        self.memory.lemma_len();
    }

    /// A processor on `memory` with cleared registers and flags, the program
    /// counter at zero and the stack pointer at `0xFF`. It is running; call
    /// [`CPU::reset`] to load the program counter from the reset vector.
    pub fn new(memory: Memory) -> (cpu: CPU)
        ensures
            cpu@ == (Machine {
                a: 0,
                x: 0,
                y: 0,
                pc: 0,
                sp: 0xFF,
                status: StatusFlags { bits: 0 },
                memory: memory@,
                halted: false,
                fault: None,
            }),
    {
        CPU {
            a: 0,
            x: 0,
            y: 0,
            pc: 0x0000,
            sp: 0xFF,
            status: StatusFlags::new(),
            memory,
            halted: false,
            fault: None,
        }
    }

    /// Resets the processor: registers and flags are cleared, the stack
    /// pointer is `0xFD`, the program counter is the word at the reset vector
    /// `0xFFFC`, and the processor runs. Memory is untouched.
    pub fn reset(&mut self)
        ensures
            final(self)@ == old(self)@.reset(),
    {
        self.a = 0;
        self.x = 0;
        self.y = 0;
        self.pc = self.memory.read_u16(RESET_VECTOR);
        self.sp = STACK_RESET;
        self.status = StatusFlags::new();
        self.halted = false;
        self.fault = None;
    }

    /// One step: fetch, decode, execute. Does nothing on a halted processor.
    /// A byte that is no instruction halts the processor and is recorded in
    /// `fault` with its address; nothing else changes but the program
    /// counter, which has moved past that byte.
    pub fn execute_instruction(&mut self)
        ensures
            final(self)@ == old(self)@.step(),
    {
        if self.halted {
            return ;
        }
        let address = self.pc;
        let opcode = self.fetch();
        match lookup(opcode) {
            Some(d) => {
                proof {
                    lemma_descriptor(opcode);
                }
                self.dispatch(d.opname, &d.mode);
            },
            None => {
                self.halted = true;
                self.fault = Some(UnknownOpcode { opcode, address });
            },
        }
    }

    /// Runs the handler of `op` in addressing mode `mode`, with the program
    /// counter at the first operand byte. Shifts and rotates work on the
    /// accumulator when `mode` is `Implied` and on memory otherwise.
    pub fn dispatch(&mut self, op: OpCode, mode: &AddressingMode)
        requires
            op.accepts(*mode),
        ensures
            final(self)@ == old(self)@.execute(op, *mode),
    {
        match op {
            OpCode::LDA => self.lda(mode),
            OpCode::LDX => self.ldx(mode),
            OpCode::LDY => self.ldy(mode),
            OpCode::STA => self.sta(mode),
            OpCode::STX => self.stx(mode),
            OpCode::STY => self.sty(mode),
            OpCode::ADC => self.adc(mode),
            OpCode::SBC => self.sbc(mode),
            OpCode::CMP => self.compare(mode),
            OpCode::AND => self.and(mode),
            OpCode::ORA => self.ora(mode),
            OpCode::EOR => self.eor(mode),
            OpCode::ASL => match mode {
                AddressingMode::Implied => self.asl_accumulator(),
                _ => self.asl(mode),
            },
            OpCode::LSR => match mode {
                AddressingMode::Implied => self.lsr_accumulator(),
                _ => self.lsr(mode),
            },
            OpCode::ROL => match mode {
                AddressingMode::Implied => self.rol_accumulator(),
                _ => self.rol(mode),
            },
            OpCode::ROR => match mode {
                AddressingMode::Implied => self.ror_accumulator(),
                _ => self.ror(mode),
            },
            OpCode::INC => self.inc(mode),
            OpCode::DEC => self.dec(mode),
            OpCode::INX => self.inx(),
            OpCode::INY => self.iny(),
            OpCode::DEX => self.dex(),
            OpCode::DEY => self.dey(),
            OpCode::TAX => self.tax(),
            OpCode::TAY => self.tay(),
            OpCode::TXA => self.txa(),
            OpCode::TYA => self.tya(),
            OpCode::TSX => self.tsx(),
            OpCode::TXS => self.txs(),
            OpCode::PHA => self.pha(),
            OpCode::PHP => self.php(),
            OpCode::PLA => self.pla(),
            OpCode::PLP => self.plp(),
            OpCode::BRA => self.branch(true),
            OpCode::BEQ => self.branch(self.get_zero_flag()),
            OpCode::BNE => self.branch(!self.get_zero_flag()),
            OpCode::BCS => self.branch(self.get_carry_flag()),
            OpCode::BCC => self.branch(!self.get_carry_flag()),
            OpCode::BMI => self.branch(self.get_negative_flag()),
            OpCode::BPL => self.branch(!self.get_negative_flag()),
            OpCode::BVS => self.branch(self.get_overflow_flag()),
            OpCode::BVC => self.branch(!self.get_overflow_flag()),
            OpCode::CLC => self.clear_carry(),
            OpCode::SEC => self.set_carry(),
            OpCode::CLD => self.clear_decimal(),
            OpCode::SED => self.set_decimal(),
            OpCode::CLI => self.clear_interrupt(),
            OpCode::SEI => self.set_interrupt(),
            OpCode::CLV => self.clear_overflow(),
            OpCode::BRK => self.brk(),
            OpCode::RTS => self.rts(),
        }
    }

    /// ADC, add with carry: A becomes A + operand + C modulo 256. C is set
    /// exactly when the sum exceeds 255, V exactly on two's-complement
    /// overflow, Z exactly when the result is zero and N exactly when its
    /// bit 7 is set.
    pub fn adc(&mut self, mode: &AddressingMode)
        requires
            mode.has_value(),
        ensures
            final(self)@ == old(self)@.adc(*mode),
            final(self).a == (old(self).a + old(self)@.operand(*mode) + carry_in(
                old(self).status,
            )) % 256,
            final(self).status.has(CARRY) == (old(self).a + old(self)@.operand(*mode)
                + carry_in(old(self).status) > 255),
            final(self).status.has(OVERFLOW) == ((old(self).a ^ final(self).a) & (old(
                self,
            )@.operand(*mode) ^ final(self).a) & 0x80 != 0),
            final(self).status.has(ZERO) == (final(self).a == 0),
            final(self).status.has(NEGATIVE) == (final(self).a & 0x80 != 0),
    {
        let value = self.get_operand(mode);
        let carry: u16 = if self.get_carry_flag() {
            1
        } else {
            0
        };
        let sum: u16 = self.a as u16 + value as u16 + carry;

        self.set_carry_flag(sum > 0xFF);
        let result = #[verifier::truncate]
        (sum as u8);
        proof {
            lemma_low_eight_bits(sum);
        }
        self.set_overflow_flag(((self.a ^ result) & (value ^ result) & 0x80) != 0);

        self.a = result;
        self.update_zero_and_negative_flags(self.a);
        proof {
            let before = old(self).status.with(CARRY, sum > 0xFF);
            let flags = before.with(OVERFLOW, overflows(old(self).a, value, result));
            lemma_with_has(old(self).status, CARRY, sum > 0xFF, OVERFLOW);
            lemma_with_has(
                before,
                OVERFLOW,
                overflows(old(self).a, value, result),
                CARRY,
            );
            lemma_with_zero_negative(flags, result, CARRY);
            lemma_with_zero_negative(flags, result, OVERFLOW);
            lemma_bit7(result);
        }
    }

    /// AND: A becomes A & operand; Z and N follow the result.
    pub fn and(&mut self, mode: &AddressingMode)
        requires
            mode.has_value(),
        ensures
            final(self)@ == old(self)@.and(*mode),
    {
        let value = self.get_operand(mode);
        self.a &= value;
        self.update_zero_and_negative_flags(self.a);
    }

    /// ORA: A becomes A | operand; Z and N follow the result.
    pub fn ora(&mut self, mode: &AddressingMode)
        requires
            mode.has_value(),
        ensures
            final(self)@ == old(self)@.ora(*mode),
    {
        let value = self.get_operand(mode);
        self.a |= value;
        self.update_zero_and_negative_flags(self.a);
    }

    /// EOR: A becomes A ^ operand; Z and N follow the result.
    pub fn eor(&mut self, mode: &AddressingMode)
        requires
            mode.has_value(),
        ensures
            final(self)@ == old(self)@.eor(*mode),
    {
        let value = self.get_operand(mode);
        self.a ^= value;
        self.update_zero_and_negative_flags(self.a);
    }

    /// ASL on memory: the byte at the effective address is shifted left by
    /// one; its bit 7 goes to C, Z and N follow the result.
    pub fn asl(&mut self, mode: &AddressingMode)
        requires
            mode.is_memory(),
        ensures
            final(self)@ == old(self)@.asl(*mode),
    {
        let addr = self.get_operand_address(mode);
        let value = self.mem_read(addr);
        proof {
            lemma_bit7(value);
            lemma_shift_left(value);
        }
        self.set_carry_flag(value & 0x80 != 0);
        let result = value << 1;
        self.mem_write(addr, result);
        self.update_zero_and_negative_flags(result);
    }

    /// ASL on the accumulator.
    pub fn asl_accumulator(&mut self)
        ensures
            final(self)@ == old(self)@.asl_accumulator(),
    {
        proof {
            lemma_bit7(self.a);
            lemma_shift_left(self.a);
        }
        self.set_carry_flag(self.a & 0x80 != 0);
        self.a <<= 1;
        self.update_zero_and_negative_flags(self.a);
    }

    /// LSR on memory: the byte at the effective address is shifted right by
    /// one; its bit 0 goes to C, Z and N follow the result.
    pub fn lsr(&mut self, mode: &AddressingMode)
        requires
            mode.is_memory(),
        ensures
            final(self)@ == old(self)@.lsr(*mode),
    {
        let addr = self.get_operand_address(mode);
        let value = self.mem_read(addr);
        proof {
            lemma_shift_right(value, 0);
        }
        self.set_carry_flag(value & 0x01 != 0);
        let result = value >> 1;
        self.mem_write(addr, result);
        self.update_zero_and_negative_flags(result);
    }

    /// LSR on the accumulator.
    pub fn lsr_accumulator(&mut self)
        ensures
            final(self)@ == old(self)@.lsr_accumulator(),
    {
        proof {
            lemma_shift_right(self.a, 0);
        }
        self.set_carry_flag(self.a & 0x01 != 0);
        self.a >>= 1;
        self.update_zero_and_negative_flags(self.a);
    }

    /// ROL on memory: the byte at the effective address is shifted left by
    /// one, the old C comes in as bit 0 and bit 7 goes to C.
    pub fn rol(&mut self, mode: &AddressingMode)
        requires
            mode.is_memory(),
        ensures
            final(self)@ == old(self)@.rol(*mode),
    {
        let addr = self.get_operand_address(mode);
        let value = self.mem_read(addr);
        let carry: u8 = if self.get_carry_flag() {
            1
        } else {
            0
        };
        proof {
            lemma_bit7(value);
            lemma_rotate_left(value, carry);
        }
        self.set_carry_flag(value & 0x80 != 0);
        let result = (value << 1) | carry;
        self.mem_write(addr, result);
        self.update_zero_and_negative_flags(result);
    }

    /// ROL on the accumulator.
    pub fn rol_accumulator(&mut self)
        ensures
            final(self)@ == old(self)@.rol_accumulator(),
    {
        let carry: u8 = if self.get_carry_flag() {
            1
        } else {
            0
        };
        proof {
            lemma_bit7(self.a);
            lemma_rotate_left(self.a, carry);
        }
        self.set_carry_flag(self.a & 0x80 != 0);
        self.a = (self.a << 1) | carry;
        self.update_zero_and_negative_flags(self.a);
    }

    /// ROR on memory: the byte at the effective address is shifted right by
    /// one, the old C comes in as bit 7 and bit 0 goes to C.
    pub fn ror(&mut self, mode: &AddressingMode)
        requires
            mode.is_memory(),
        ensures
            final(self)@ == old(self)@.ror(*mode),
    {
        let addr = self.get_operand_address(mode);
        let value = self.mem_read(addr);
        let carry: u8 = if self.get_carry_flag() {
            1
        } else {
            0
        };
        proof {
            lemma_shift_right(value, carry);
        }
        self.set_carry_flag(value & 0x01 != 0);
        let result = (value >> 1) | (carry << 7);
        self.mem_write(addr, result);
        self.update_zero_and_negative_flags(result);
    }

    /// ROR on the accumulator.
    pub fn ror_accumulator(&mut self)
        ensures
            final(self)@ == old(self)@.ror_accumulator(),
    {
        let carry: u8 = if self.get_carry_flag() {
            1
        } else {
            0
        };
        proof {
            lemma_shift_right(self.a, carry);
        }
        self.set_carry_flag(self.a & 0x01 != 0);
        self.a = (self.a >> 1) | (carry << 7);
        self.update_zero_and_negative_flags(self.a);
    }

    /// A relative branch. The offset byte at the program counter is consumed.
    /// If `condition` holds, the program counter then moves by the offset,
    /// read as a signed byte; the sum is formed in a wider integer and wraps
    /// at the end of the address space.
    pub fn branch(&mut self, condition: bool)
        ensures
            final(self)@ == old(self)@.branch(condition),
            !condition ==> final(self).pc == wrap16(old(self).pc + 1),
            condition ==> final(self).pc == wrap16(
                old(self).pc + 1 + signed(old(self)@.read(old(self).pc)),
            ),
    {
        let offset = self.fetch();
        if condition {
            let displacement: i32 = if offset < 0x80 {
                offset as i32
            } else {
                offset as i32 - 0x100
            };
            let target: i32 = self.pc as i32 + displacement;
            self.pc = if target < 0 {
                (target + 0x10000) as u16
            } else if target > 0xFFFF {
                (target - 0x10000) as u16
            } else {
                target as u16
            };
        }
    }

    /// CLC: clears C.
    pub fn clear_carry(&mut self)
        ensures
            final(self)@ == old(self)@.with_flag(CARRY, false),
    {
        self.set_carry_flag(false);
    }

    /// CLD: clears D.
    pub fn clear_decimal(&mut self)
        ensures
            final(self)@ == old(self)@.with_flag(DECIMAL, false),
    {
        self.set_decimal_flag(false);
    }

    /// CLI: clears I.
    pub fn clear_interrupt(&mut self)
        ensures
            final(self)@ == old(self)@.with_flag(INTERRUPT_DISABLE, false),
    {
        self.set_interrupt_disable_flag(false);
    }

    /// CLV: clears V.
    pub fn clear_overflow(&mut self)
        ensures
            final(self)@ == old(self)@.with_flag(OVERFLOW, false),
    {
        self.set_overflow_flag(false);
    }

    /// SEC: sets C.
    pub fn set_carry(&mut self)
        ensures
            final(self)@ == old(self)@.with_flag(CARRY, true),
    {
        self.set_carry_flag(true);
    }

    /// SED: sets D.
    pub fn set_decimal(&mut self)
        ensures
            final(self)@ == old(self)@.with_flag(DECIMAL, true),
    {
        self.set_decimal_flag(true);
    }

    /// SEI: sets I.
    pub fn set_interrupt(&mut self)
        ensures
            final(self)@ == old(self)@.with_flag(INTERRUPT_DISABLE, true),
    {
        self.set_interrupt_disable_flag(true);
    }

    /// LDA: the operand goes to A. Z is set exactly when it is zero, N
    /// exactly when its bit 7 is set; no other flag changes.
    pub fn lda(&mut self, mode: &AddressingMode)
        requires
            mode.has_value(),
        ensures
            final(self)@ == old(self)@.lda(*mode),
            final(self).a == old(self)@.operand(*mode),
            final(self).status.has(ZERO) == (final(self).a == 0),
            final(self).status.has(NEGATIVE) == (final(self).a & 0x80 != 0),
            final(self).status.has(CARRY) == old(self).status.has(CARRY),
            final(self).status.has(OVERFLOW) == old(self).status.has(OVERFLOW),
            final(self).status.has(BREAK) == old(self).status.has(BREAK),
            final(self).status.has(DECIMAL) == old(self).status.has(DECIMAL),
            final(self).status.has(INTERRUPT_DISABLE) == old(self).status.has(
                INTERRUPT_DISABLE,
            ),
    {
        let value = self.get_operand(mode);
        self.a = value;
        self.set_zero_flag(self.a);
        self.set_negative_flag(self.a);
        proof {
            lemma_with_zero_negative(old(self).status, value, CARRY);
            lemma_with_zero_negative(old(self).status, value, OVERFLOW);
            lemma_with_zero_negative(old(self).status, value, BREAK);
            lemma_with_zero_negative(old(self).status, value, DECIMAL);
            lemma_with_zero_negative(old(self).status, value, INTERRUPT_DISABLE);
            lemma_bit7(value);
        }
    }

    /// LDX: the operand goes to X; Z and N follow it.
    pub fn ldx(&mut self, mode: &AddressingMode)
        requires
            mode.has_value(),
        ensures
            final(self)@ == old(self)@.ldx(*mode),
    {
        let value = self.get_operand(mode);
        self.x = value;
        self.set_zero_flag(self.x);
        self.set_negative_flag(self.x);
    }

    /// LDY: the operand goes to Y; Z and N follow it.
    pub fn ldy(&mut self, mode: &AddressingMode)
        requires
            mode.has_value(),
        ensures
            final(self)@ == old(self)@.ldy(*mode),
    {
        let value = self.get_operand(mode);
        self.y = value;
        self.set_zero_flag(self.y);
        self.set_negative_flag(self.y);
    }

    /// STA: A is stored at the effective address.
    pub fn sta(&mut self, mode: &AddressingMode)
        requires
            mode.is_memory(),
        ensures
            final(self)@ == old(self)@.sta(*mode),
    {
        let addr = self.get_operand_address(mode);
        self.memory.write(addr, self.a);
    }

    /// STX: X is stored at the effective address.
    pub fn stx(&mut self, mode: &AddressingMode)
        requires
            mode.is_memory(),
        ensures
            final(self)@ == old(self)@.stx(*mode),
    {
        let addr = self.get_operand_address(mode);
        self.memory.write(addr, self.x);
    }

    /// STY: Y is stored at the effective address.
    pub fn sty(&mut self, mode: &AddressingMode)
        requires
            mode.is_memory(),
        ensures
            final(self)@ == old(self)@.sty(*mode),
    {
        let addr = self.get_operand_address(mode);
        self.memory.write(addr, self.y);
    }

    fn set_flag(&mut self, mask: u8)
        ensures
            final(self)@ == old(self)@.with_flag(mask, true),
    {
        self.status.set(mask, true);
    }

    fn clear_flag(&mut self, mask: u8)
        ensures
            final(self)@ == old(self)@.with_flag(mask, false),
    {
        self.status.set(mask, false);
    }

    /// Sets N to bit 7 of `value`.
    pub fn set_negative_flag(&mut self, value: u8)
        ensures
            final(self)@ == old(self)@.with_flag(NEGATIVE, is_negative(value)),
    {
        proof {
            lemma_bit7(value);
        }
        if value & 0x80 != 0 {
            self.set_flag(NEGATIVE);
        } else {
            self.clear_flag(NEGATIVE);
        }
    }

    /// Sets V to `overflow`.
    pub fn set_overflow_flag(&mut self, overflow: bool)
        ensures
            final(self)@ == old(self)@.with_flag(OVERFLOW, overflow),
    {
        if overflow {
            self.set_flag(OVERFLOW);
        } else {
            self.clear_flag(OVERFLOW);
        }
    }

    /// Sets B to `break_flag`.
    pub fn set_break_flag(&mut self, break_flag: bool)
        ensures
            final(self)@ == old(self)@.with_flag(BREAK, break_flag),
    {
        if break_flag {
            self.set_flag(BREAK);
        } else {
            self.clear_flag(BREAK);
        }
    }

    /// Sets D to `decimal`.
    pub fn set_decimal_flag(&mut self, decimal: bool)
        ensures
            final(self)@ == old(self)@.with_flag(DECIMAL, decimal),
    {
        if decimal {
            self.set_flag(DECIMAL);
        } else {
            self.clear_flag(DECIMAL);
        }
    }

    /// Sets I to `interrupt_disable`.
    pub fn set_interrupt_disable_flag(&mut self, interrupt_disable: bool)
        ensures
            final(self)@ == old(self)@.with_flag(INTERRUPT_DISABLE, interrupt_disable),
    {
        if interrupt_disable {
            self.set_flag(INTERRUPT_DISABLE);
        } else {
            self.clear_flag(INTERRUPT_DISABLE);
        }
    }

    /// Sets Z if `value` is zero and clears it otherwise.
    pub fn set_zero_flag(&mut self, value: u8)
        ensures
            final(self)@ == old(self)@.with_flag(ZERO, value == 0),
    {
        if value == 0 {
            self.set_flag(ZERO);
        } else {
            self.clear_flag(ZERO);
        }
    }

    /// Sets C to `carry`.
    pub fn set_carry_flag(&mut self, carry: bool)
        ensures
            final(self)@ == old(self)@.with_flag(CARRY, carry),
    {
        if carry {
            self.set_flag(CARRY);
        } else {
            self.clear_flag(CARRY);
        }
    }

    /// Whether N is set.
    pub fn get_negative_flag(&self) -> (on: bool)
        ensures
            on == self.status.has(NEGATIVE),
    {
        self.status.get(NEGATIVE)
    }

    /// Whether V is set.
    pub fn get_overflow_flag(&self) -> (on: bool)
        ensures
            on == self.status.has(OVERFLOW),
    {
        self.status.get(OVERFLOW)
    }

    /// Whether B is set.
    pub fn get_break_flag(&self) -> (on: bool)
        ensures
            on == self.status.has(BREAK),
    {
        self.status.get(BREAK)
    }

    /// Whether D is set.
    pub fn get_decimal_flag(&self) -> (on: bool)
        ensures
            on == self.status.has(DECIMAL),
    {
        self.status.get(DECIMAL)
    }

    /// Whether I is set.
    pub fn get_interrupt_disable_flag(&self) -> (on: bool)
        ensures
            on == self.status.has(INTERRUPT_DISABLE),
    {
        self.status.get(INTERRUPT_DISABLE)
    }

    /// Whether Z is set.
    pub fn get_zero_flag(&self) -> (on: bool)
        ensures
            on == self.status.has(ZERO),
    {
        self.status.get(ZERO)
    }

    /// Whether C is set.
    pub fn get_carry_flag(&self) -> (on: bool)
        ensures
            on == self.status.has(CARRY),
    {
        self.status.get(CARRY)
    }

    /// Push: `value` is written to `0x0100 + SP`, then SP goes down by one,
    /// wrapping from `0x00` to `0xFF`.
    pub fn push(&mut self, value: u8)
        ensures
            final(self)@ == old(self)@.push(value),
    {
        self.memory.write(STACK_BASE + self.sp as u16, value);
        self.sp = self.sp.wrapping_sub(1);
    }

    /// Pull: SP goes up by one, wrapping from `0xFF` to `0x00`, then the byte
    /// at `0x0100 + SP` is read.
    pub fn pull(&mut self) -> (value: u8)
        ensures
            final(self)@ == old(self)@.pulled(),
            value == old(self)@.pull_value(),
    {
        self.sp = self.sp.wrapping_add(1);
        self.memory.read(STACK_BASE + self.sp as u16)
    }

    /// PHA: pushes A.
    pub fn pha(&mut self)
        ensures
            final(self)@ == old(self)@.pha(),
    {
        self.push(self.a);
    }

    /// PHP: pushes the status byte with bits 4 and 5 set.
    pub fn php(&mut self)
        ensures
            final(self)@ == old(self)@.php(),
    {
        self.push(self.status.to_byte() | BREAK);
    }

    /// PLA: pulls into A; Z and N follow the value.
    pub fn pla(&mut self)
        ensures
            final(self)@ == old(self)@.pla(),
    {
        self.a = self.pull();
        self.set_zero_flag(self.a);
        self.set_negative_flag(self.a);
    }

    /// PLP: pulls into the status register; bit 5 is set and bit 4 cleared
    /// whatever the pulled byte holds.
    pub fn plp(&mut self)
        ensures
            final(self)@ == old(self)@.plp(),
    {
        let value = self.pull();
        self.status = StatusFlags::from_byte((value & !BREAK) | UNUSED);
    }

    /// SBC: A becomes A - operand - C modulo 256. C is set exactly when A was
    /// at least the operand. V is set exactly when bit 7 of the result
    /// differs from bit 7 of A before and from bit 7 of the operand, the test
    /// that ADC makes. Z and N follow the result.
    pub fn sbc(&mut self, mode: &AddressingMode)
        requires
            mode.has_value(),
        ensures
            final(self)@ == old(self)@.sbc(*mode),
            final(self).a == wrap8(
                old(self).a - old(self)@.operand(*mode) - carry_in(old(self).status),
            ),
            final(self).status.has(CARRY) == (old(self).a >= old(self)@.operand(*mode)),
            final(self).status.has(OVERFLOW) == ((old(self).a ^ final(self).a) & (old(
                self,
            )@.operand(*mode) ^ final(self).a) & 0x80 != 0),
            final(self).status.has(ZERO) == (final(self).a == 0),
            final(self).status.has(NEGATIVE) == is_negative(final(self).a),
    {
        let value = self.get_operand(mode);
        let carry: u8 = if self.get_carry_flag() {
            1
        } else {
            0
        };
        let result = self.a.wrapping_sub(value).wrapping_sub(carry);

        self.set_carry_flag(self.a >= value);
        self.set_overflow_flag(((self.a ^ result) & (value ^ result) & 0x80) != 0);

        self.a = result;
        self.update_zero_and_negative_flags(self.a);
        proof {
            let before = old(self).status.with(CARRY, old(self).a >= value);
            let overflow = overflows(old(self).a, value, result);
            lemma_with_has(old(self).status, CARRY, old(self).a >= value, OVERFLOW);
            lemma_with_has(before, OVERFLOW, overflow, CARRY);
            lemma_with_zero_negative(before.with(OVERFLOW, overflow), result, CARRY);
            lemma_with_zero_negative(before.with(OVERFLOW, overflow), result, OVERFLOW);
        }
    }

    /// CMP: compares A with the operand. C is set exactly when A is at least
    /// the operand; Z and N follow A - operand modulo 256. A is unchanged.
    pub fn compare(&mut self, mode: &AddressingMode)
        requires
            mode.has_value(),
        ensures
            final(self)@ == old(self)@.compare(*mode),
            final(self).a == old(self).a,
            final(self).status.has(CARRY) == (old(self).a >= old(self)@.operand(*mode)),
            final(self).status.has(ZERO) == (old(self).a == old(self)@.operand(*mode)),
            final(self).status.has(NEGATIVE) == is_negative(
                wrap8(old(self).a - old(self)@.operand(*mode)),
            ),
    {
        let value = self.get_operand(mode);
        let result = self.a.wrapping_sub(value);
        self.set_carry_flag(self.a >= value);
        self.set_zero_flag(result);
        self.set_negative_flag(result);
        proof {
            let before = old(self).status.with(CARRY, old(self).a >= value);
            lemma_with_has(old(self).status, CARRY, old(self).a >= value, ZERO);
            lemma_with_zero_negative(before, result, CARRY);
        }
    }

    /// INC: the byte at the effective address goes up by one modulo 256; Z
    /// and N follow the result.
    pub fn inc(&mut self, mode: &AddressingMode)
        requires
            mode.is_memory(),
        ensures
            final(self)@ == old(self)@.inc(*mode),
    {
        let addr = self.get_operand_address(mode);
        let value = self.mem_read(addr);
        let result = value.wrapping_add(1);
        self.mem_write(addr, result);
        self.update_zero_and_negative_flags(result);
    }

    /// INX: X goes up by one modulo 256; Z and N follow it.
    pub fn inx(&mut self)
        ensures
            final(self)@ == old(self)@.inx(),
    {
        self.x = self.x.wrapping_add(1);
        self.update_zero_and_negative_flags(self.x);
    }

    /// INY: Y goes up by one modulo 256; Z and N follow it.
    pub fn iny(&mut self)
        ensures
            final(self)@ == old(self)@.iny(),
    {
        self.y = self.y.wrapping_add(1);
        self.update_zero_and_negative_flags(self.y);
    }

    /// DEC: the byte at the effective address goes down by one modulo 256; Z
    /// and N follow the result.
    pub fn dec(&mut self, mode: &AddressingMode)
        requires
            mode.is_memory(),
        ensures
            final(self)@ == old(self)@.dec(*mode),
    {
        let addr = self.get_operand_address(mode);
        let value = self.mem_read(addr);
        let result = value.wrapping_sub(1);
        self.mem_write(addr, result);
        self.update_zero_and_negative_flags(result);
    }

    /// DEX: X goes down by one modulo 256; Z and N follow it.
    pub fn dex(&mut self)
        ensures
            final(self)@ == old(self)@.dex(),
    {
        self.x = self.x.wrapping_sub(1);
        self.update_zero_and_negative_flags(self.x);
    }

    /// DEY: Y goes down by one modulo 256; Z and N follow it.
    pub fn dey(&mut self)
        ensures
            final(self)@ == old(self)@.dey(),
    {
        self.y = self.y.wrapping_sub(1);
        self.update_zero_and_negative_flags(self.y);
    }

    /// TAX: X takes the value of A; Z and N follow it.
    pub fn tax(&mut self)
        ensures
            final(self)@ == old(self)@.tax(),
    {
        self.x = self.a;
        self.update_zero_and_negative_flags(self.x);
    }

    /// TAY: Y takes the value of A; Z and N follow it.
    pub fn tay(&mut self)
        ensures
            final(self)@ == old(self)@.tay(),
    {
        self.y = self.a;
        self.update_zero_and_negative_flags(self.y);
    }

    /// TXA: A takes the value of X; Z and N follow it.
    pub fn txa(&mut self)
        ensures
            final(self)@ == old(self)@.txa(),
    {
        self.a = self.x;
        self.update_zero_and_negative_flags(self.a);
    }

    /// TYA: A takes the value of Y; Z and N follow it.
    pub fn tya(&mut self)
        ensures
            final(self)@ == old(self)@.tya(),
    {
        self.a = self.y;
        self.update_zero_and_negative_flags(self.a);
    }

    /// TSX: X takes the value of the stack pointer; Z and N follow it.
    pub fn tsx(&mut self)
        ensures
            final(self)@ == old(self)@.tsx(),
    {
        self.x = self.sp;
        self.update_zero_and_negative_flags(self.x);
    }

    /// TXS: the stack pointer takes the value of X; no flag changes.
    pub fn txs(&mut self)
        ensures
            final(self)@ == old(self)@.txs(),
    {
        self.sp = self.x;
    }

    /// BRK: sets B and halts.
    pub fn brk(&mut self)
        ensures
            final(self)@ == old(self)@.brk(),
    {
        self.set_break_flag(true);
        self.halted = true;
    }

    /// RTS: halts. No return address is pulled from the stack.
    pub fn rts(&mut self)
        ensures
            final(self)@ == old(self)@.rts(),
    {
        self.halted = true;
    }

    /// The operand value of `mode`, with the program counter moved past the
    /// operand bytes: the byte at the program counter for `Immediate`, the
    /// byte at the effective address otherwise.
    pub fn get_operand(&mut self, mode: &AddressingMode) -> (value: u8)
        requires
            mode.has_value(),
        ensures
            value == old(self)@.operand(*mode),
            final(self)@ == old(self)@.past_operand(*mode),
    {
        match mode {
            AddressingMode::Immediate => self.fetch(),
            _ => {
                let addr = self.get_operand_address(mode);
                self.memory.read(addr)
            },
        }
    }

    /// The effective address of `mode`, with the program counter moved past
    /// the operand bytes.
    pub fn get_operand_address(&mut self, mode: &AddressingMode) -> (address: u16)
        requires
            mode.is_memory(),
        ensures
            address == old(self)@.effective_address(*mode),
            final(self)@ == old(self)@.past_operand(*mode),
    {
        match mode {
            AddressingMode::ZeroPage => self.fetch() as u16,
            AddressingMode::ZeroPageX => {
                let pos = self.fetch();
                offset8(pos, self.x) as u16
            },
            AddressingMode::ZeroPageY => {
                let pos = self.fetch();
                offset8(pos, self.y) as u16
            },
            AddressingMode::Absolute => self.fetch_word(),
            AddressingMode::AbsoluteX => {
                let base = self.fetch_word();
                offset16(base, self.x)
            },
            AddressingMode::AbsoluteY => {
                let base = self.fetch_word();
                offset16(base, self.y)
            },
            AddressingMode::IndirectX => {
                let base = self.fetch();
                self.read_pointer(offset8(base, self.x))
            },
            AddressingMode::IndirectY => {
                let base = self.fetch();
                let deref_base = self.read_pointer(base);
                offset16(deref_base, self.y)
            },
            // No verified caller gets here; one that is not verified and
            // breaks the precondition is stopped.
            _ => vstd::pervasive::unreached(),
        }
    }

    /// The byte at the program counter, which moves one byte on.
    fn fetch(&mut self) -> (value: u8)
        ensures
            value == old(self)@.read(old(self).pc),
            final(self)@ == old(self)@.advance(1),
    {
        let value = self.memory.read(self.pc);
        self.pc = self.pc.wrapping_add(1);
        value
    }

    /// The little-endian word at the program counter, which moves two bytes
    /// on.
    fn fetch_word(&mut self) -> (word: u16)
        ensures
            word == word_at(old(self)@.memory, old(self).pc),
            final(self)@ == old(self)@.advance(2),
    {
        let word = self.memory.read_u16(self.pc);
        self.pc = self.pc.wrapping_add(2);
        word
    }

    /// The little-endian pointer stored in page zero at `pointer`; its high
    /// byte comes from `pointer + 1` wrapped within page zero.
    fn read_pointer(&self, pointer: u8) -> (address: u16)
        ensures
            address == self@.zero_page_pointer(pointer),
    {
        let lo = self.memory.read(pointer as u16);
        let hi = self.memory.read(pointer.wrapping_add(1) as u16);
        proof {
            lemma_join_bytes(lo as u16, hi as u16);
        }
        (hi as u16) << 8 | (lo as u16)
    }

    /// The byte at `addr`.
    pub fn mem_read(&self, addr: u16) -> (value: u8)
        ensures
            value == self@.read(addr),
    {
        self.memory.read(addr)
    }

    /// Stores `value` at `addr`.
    pub fn mem_write(&mut self, addr: u16, value: u8)
        ensures
            final(self)@ == old(self)@.write(addr, value),
    {
        self.memory.write(addr, value)
    }

    /// Sets Z and N from `value`.
    pub fn update_zero_and_negative_flags(&mut self, value: u8)
        ensures
            final(self)@ == old(self)@.with_result_flags(value),
    {
        self.set_zero_flag(value);
        self.set_negative_flag(value);
    }
}

} // verus!
