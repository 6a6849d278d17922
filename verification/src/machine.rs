//! The processor as a mathematical state machine.
//!
//! A [`Machine`] is the whole state of a run: registers, flags, the 64 KiB of
//! memory as a `Seq<u8>`, and whether the engine has halted. Every
//! instruction is a function from `Machine` to `Machine`; [`Machine::step`]
//! is one fetch, decode and execute. The executable engine in
//! [`crate::cpu`] is proved to compute exactly these functions.

use vstd::prelude::*;
use crate::flags::{is_negative, is_single_bit, lemma_with_has, lemma_with_zero_negative,
    StatusFlags, BREAK, CARRY, DECIMAL, INTERRUPT_DISABLE, NEGATIVE, OVERFLOW, UNUSED, ZERO};
use crate::instruction::{descriptor, lemma_descriptor, AddressingMode, OpCode, UnknownOpcode};
use crate::memory::{word_at, word_of, MEMORY_SIZE};

verus! {

/// Address of the reset vector.
pub const RESET_VECTOR: u16 = 0xFFFC;

/// Stack pointer after a reset.
pub const STACK_RESET: u8 = 0xFD;

/// First address of the stack page.
pub const STACK_BASE: u16 = 0x0100;

/// `value` wrapped into 16 bits.
pub open spec fn wrap16(value: int) -> u16 {
    (value % 0x10000) as u16
}

/// `value` wrapped into 8 bits.
pub open spec fn wrap8(value: int) -> u8 {
    (value % 0x100) as u8
}

/// A byte read as a two's-complement number.
pub open spec fn signed(byte: u8) -> int {
    if byte < 0x80 {
        byte as int
    } else {
        byte - 0x100
    }
}

/// Where the stack pointer `sp` points.
pub open spec fn stack_address(sp: u8) -> u16 {
    (STACK_BASE + sp) as u16
}

/// 1 for a set carry, 0 for a clear one.
pub open spec fn carry_in(status: StatusFlags) -> int {
    if status.has(CARRY) {
        1
    } else {
        0
    }
}

/// The overflow test of ADC and SBC: bit 7 of `result` differs from bit 7 of
/// `left` and from bit 7 of `right`, where `left` is A before the instruction
/// and `right` the operand.
pub open spec fn overflows(left: u8, right: u8, result: u8) -> bool {
    (left ^ result) & (right ^ result) & 0x80 != 0
}

/// The state of the processor and its memory.
pub struct Machine {
    /// Accumulator.
    pub a: u8,
    /// Index register X.
    pub x: u8,
    /// Index register Y.
    pub y: u8,
    /// Program counter.
    pub pc: u16,
    /// Stack pointer, an offset into the page at [`STACK_BASE`].
    pub sp: u8,
    /// Status flags.
    pub status: StatusFlags,
    /// The address space.
    pub memory: Seq<u8>,
    /// Whether the engine has stopped.
    pub halted: bool,
    /// The unknown opcode that stopped the engine, if one did.
    pub fault: Option<UnknownOpcode>,
}

impl Machine {
    /// The memory covers the whole address space.
    pub open spec fn wf(self) -> bool {
        self.memory.len() == MEMORY_SIZE
    }

    /// The byte at `address`.
    pub open spec fn read(self, address: u16) -> u8 {
        self.memory[address as int]
    }

    /// The machine with `value` stored at `address`.
    pub open spec fn write(self, address: u16, value: u8) -> Machine {
        Machine { memory: self.memory.update(address as int, value), ..self }
    }

    /// The machine with the program counter moved `count` bytes on.
    pub open spec fn advance(self, count: int) -> Machine {
        Machine { pc: wrap16(self.pc + count), ..self }
    }

    /// The machine with Z and N set from `value`.
    pub open spec fn with_result_flags(self, value: u8) -> Machine {
        Machine { status: self.status.with_zero_negative(value), ..self }
    }

    /// The little-endian pointer stored in page zero at `pointer`; its high
    /// byte is taken from `pointer + 1` wrapped within page zero.
    pub open spec fn zero_page_pointer(self, pointer: u8) -> u16 {
        word_of(self.read(pointer as u16), self.read(wrap8(pointer + 1) as u16))
    }

    /// The effective address that `mode` resolves to when the program counter
    /// stands at the first operand byte. For `Immediate` that is the address
    /// of the operand byte itself; the modes without an address are given the
    /// same.
    pub open spec fn effective_address(self, mode: AddressingMode) -> u16 {
        match mode {
            AddressingMode::ZeroPage => self.read(self.pc) as u16,
            AddressingMode::ZeroPageX => wrap8(self.read(self.pc) + self.x) as u16,
            AddressingMode::ZeroPageY => wrap8(self.read(self.pc) + self.y) as u16,
            AddressingMode::Absolute => word_at(self.memory, self.pc),
            AddressingMode::AbsoluteX => wrap16(word_at(self.memory, self.pc) + self.x),
            AddressingMode::AbsoluteY => wrap16(word_at(self.memory, self.pc) + self.y),
            AddressingMode::IndirectX => self.zero_page_pointer(
                wrap8(self.read(self.pc) + self.x),
            ),
            AddressingMode::IndirectY => wrap16(
                self.zero_page_pointer(self.read(self.pc)) + self.y,
            ),
            _ => self.pc,
        }
    }

    /// The operand value of `mode`: the byte at the program counter for
    /// immediate addressing, the byte at the effective address otherwise.
    pub open spec fn operand(self, mode: AddressingMode) -> u8 {
        self.read(self.effective_address(mode))
    }

    /// The machine after the operand bytes of `mode` have been consumed.
    pub open spec fn past_operand(self, mode: AddressingMode) -> Machine {
        self.advance(mode.operand_length())
    }

    /// The state after a reset: registers and flags cleared, the stack pointer
    /// at [`STACK_RESET`], running, and the program counter loaded from the
    /// reset vector.
    pub open spec fn reset(self) -> Machine {
        Machine {
            a: 0,
            x: 0,
            y: 0,
            pc: word_at(self.memory, RESET_VECTOR),
            sp: STACK_RESET,
            status: StatusFlags { bits: 0 },
            memory: self.memory,
            halted: false,
            fault: None,
        }
    }

    // Loads and stores.

    /// LDA: the operand goes to A; Z and N follow it.
    pub open spec fn lda(self, mode: AddressingMode) -> Machine {
        let value = self.operand(mode);
        Machine { a: value, ..self.past_operand(mode) }.with_result_flags(value)
    }

    /// LDX: the operand goes to X; Z and N follow it.
    pub open spec fn ldx(self, mode: AddressingMode) -> Machine {
        let value = self.operand(mode);
        Machine { x: value, ..self.past_operand(mode) }.with_result_flags(value)
    }

    /// LDY: the operand goes to Y; Z and N follow it.
    pub open spec fn ldy(self, mode: AddressingMode) -> Machine {
        let value = self.operand(mode);
        Machine { y: value, ..self.past_operand(mode) }.with_result_flags(value)
    }

    /// STA: A is stored at the effective address.
    pub open spec fn sta(self, mode: AddressingMode) -> Machine {
        self.past_operand(mode).write(self.effective_address(mode), self.a)
    }

    /// STX: X is stored at the effective address.
    pub open spec fn stx(self, mode: AddressingMode) -> Machine {
        self.past_operand(mode).write(self.effective_address(mode), self.x)
    }

    /// STY: Y is stored at the effective address.
    pub open spec fn sty(self, mode: AddressingMode) -> Machine {
        self.past_operand(mode).write(self.effective_address(mode), self.y)
    }

    // Arithmetic and logic on the accumulator.

    /// ADC: A becomes A + operand + carry modulo 256. C is the carry out of
    /// bit 7, V the two's-complement overflow, Z and N follow the result.
    pub open spec fn adc(self, mode: AddressingMode) -> Machine {
        let value = self.operand(mode);
        let sum = self.a + value + carry_in(self.status);
        let result = wrap8(sum);
        let next = self.past_operand(mode);
        Machine {
            a: result,
            status: self.status.with(CARRY, sum > 0xFF).with(
                OVERFLOW,
                overflows(self.a, value, result),
            ),
            ..next
        }.with_result_flags(result)
    }

    /// SBC: A becomes A - operand - carry modulo 256. C says that A was at
    /// least the operand, V is the same test on A, operand and result as for
    /// ADC, Z and N follow the result.
    pub open spec fn sbc(self, mode: AddressingMode) -> Machine {
        let value = self.operand(mode);
        let result = wrap8(self.a - value - carry_in(self.status));
        let next = self.past_operand(mode);
        Machine {
            a: result,
            status: self.status.with(CARRY, self.a >= value).with(
                OVERFLOW,
                overflows(self.a, value, result),
            ),
            ..next
        }.with_result_flags(result)
    }

    /// CMP: compares A with the operand. C says that A is at least the
    /// operand; Z and N follow A - operand modulo 256. A keeps its value.
    pub open spec fn compare(self, mode: AddressingMode) -> Machine {
        let value = self.operand(mode);
        let next = self.past_operand(mode);
        Machine { status: self.status.with(CARRY, self.a >= value), ..next }.with_result_flags(
            wrap8(self.a - value),
        )
    }

    /// AND: A becomes A & operand; Z and N follow it.
    pub open spec fn and(self, mode: AddressingMode) -> Machine {
        let result = self.a & self.operand(mode);
        Machine { a: result, ..self.past_operand(mode) }.with_result_flags(result)
    }

    /// ORA: A becomes A | operand; Z and N follow it.
    pub open spec fn ora(self, mode: AddressingMode) -> Machine {
        let result = self.a | self.operand(mode);
        Machine { a: result, ..self.past_operand(mode) }.with_result_flags(result)
    }

    /// EOR: A becomes A ^ operand; Z and N follow it.
    pub open spec fn eor(self, mode: AddressingMode) -> Machine {
        let result = self.a ^ self.operand(mode);
        Machine { a: result, ..self.past_operand(mode) }.with_result_flags(result)
    }

    // Shifts and rotates.

    /// The machine after a shift or rotate of the accumulator gave `result`
    /// and shifted `carry` out.
    pub open spec fn shifted_accumulator(self, result: u8, carry: bool) -> Machine {
        Machine { a: result, status: self.status.with(CARRY, carry), ..self }.with_result_flags(
            result,
        )
    }

    /// The machine after a shift or rotate of the byte at the effective
    /// address of `mode` gave `result` and shifted `carry` out.
    pub open spec fn shifted_memory(self, mode: AddressingMode, result: u8, carry: bool)
        -> Machine {
        Machine {
            status: self.status.with(CARRY, carry),
            ..self.past_operand(mode)
        }.write(self.effective_address(mode), result).with_result_flags(result)
    }

    /// ASL on A: shift left by one; bit 7 goes to C.
    pub open spec fn asl_accumulator(self) -> Machine {
        self.shifted_accumulator(wrap8(2 * self.a), self.a >= 0x80)
    }

    /// ASL on memory: shift left by one; bit 7 goes to C.
    pub open spec fn asl(self, mode: AddressingMode) -> Machine {
        let value = self.operand(mode);
        self.shifted_memory(mode, wrap8(2 * value), value >= 0x80)
    }

    /// LSR on A: shift right by one; bit 0 goes to C.
    pub open spec fn lsr_accumulator(self) -> Machine {
        self.shifted_accumulator(self.a / 2, self.a % 2 == 1)
    }

    /// LSR on memory: shift right by one; bit 0 goes to C.
    pub open spec fn lsr(self, mode: AddressingMode) -> Machine {
        let value = self.operand(mode);
        self.shifted_memory(mode, value / 2, value % 2 == 1)
    }

    /// ROL on A: shift left by one, the old C comes in as bit 0 and bit 7
    /// goes to C.
    pub open spec fn rol_accumulator(self) -> Machine {
        self.shifted_accumulator(wrap8(2 * self.a + carry_in(self.status)), self.a >= 0x80)
    }

    /// ROL on memory: shift left by one, the old C comes in as bit 0 and bit 7
    /// goes to C.
    pub open spec fn rol(self, mode: AddressingMode) -> Machine {
        let value = self.operand(mode);
        self.shifted_memory(mode, wrap8(2 * value + carry_in(self.status)), value >= 0x80)
    }

    /// ROR on A: shift right by one, the old C comes in as bit 7 and bit 0
    /// goes to C.
    pub open spec fn ror_accumulator(self) -> Machine {
        self.shifted_accumulator(
            (self.a / 2 + 0x80 * carry_in(self.status)) as u8,
            self.a % 2 == 1,
        )
    }

    /// ROR on memory: shift right by one, the old C comes in as bit 7 and
    /// bit 0 goes to C.
    pub open spec fn ror(self, mode: AddressingMode) -> Machine {
        let value = self.operand(mode);
        self.shifted_memory(
            mode,
            (value / 2 + 0x80 * carry_in(self.status)) as u8,
            value % 2 == 1,
        )
    }

    // Increments and decrements.

    /// INC: the byte at the effective address goes up by one modulo 256.
    pub open spec fn inc(self, mode: AddressingMode) -> Machine {
        let result = wrap8(self.operand(mode) + 1);
        self.past_operand(mode).write(self.effective_address(mode), result).with_result_flags(
            result,
        )
    }

    /// DEC: the byte at the effective address goes down by one modulo 256.
    pub open spec fn dec(self, mode: AddressingMode) -> Machine {
        let result = wrap8(self.operand(mode) - 1);
        self.past_operand(mode).write(self.effective_address(mode), result).with_result_flags(
            result,
        )
    }

    /// INX: X goes up by one modulo 256.
    pub open spec fn inx(self) -> Machine {
        Machine { x: wrap8(self.x + 1), ..self }.with_result_flags(wrap8(self.x + 1))
    }

    /// INY: Y goes up by one modulo 256.
    pub open spec fn iny(self) -> Machine {
        Machine { y: wrap8(self.y + 1), ..self }.with_result_flags(wrap8(self.y + 1))
    }

    /// DEX: X goes down by one modulo 256.
    pub open spec fn dex(self) -> Machine {
        Machine { x: wrap8(self.x - 1), ..self }.with_result_flags(wrap8(self.x - 1))
    }

    /// DEY: Y goes down by one modulo 256.
    pub open spec fn dey(self) -> Machine {
        Machine { y: wrap8(self.y - 1), ..self }.with_result_flags(wrap8(self.y - 1))
    }

    // Transfers between registers.

    /// TAX: X takes the value of A.
    pub open spec fn tax(self) -> Machine {
        Machine { x: self.a, ..self }.with_result_flags(self.a)
    }

    /// TAY: Y takes the value of A.
    pub open spec fn tay(self) -> Machine {
        Machine { y: self.a, ..self }.with_result_flags(self.a)
    }

    /// TXA: A takes the value of X.
    pub open spec fn txa(self) -> Machine {
        Machine { a: self.x, ..self }.with_result_flags(self.x)
    }

    /// TYA: A takes the value of Y.
    pub open spec fn tya(self) -> Machine {
        Machine { a: self.y, ..self }.with_result_flags(self.y)
    }

    /// TSX: X takes the value of the stack pointer.
    pub open spec fn tsx(self) -> Machine {
        Machine { x: self.sp, ..self }.with_result_flags(self.sp)
    }

    /// TXS: the stack pointer takes the value of X; no flag changes.
    pub open spec fn txs(self) -> Machine {
        Machine { sp: self.x, ..self }
    }

    // The stack.

    /// Push: `value` is stored where the stack pointer points, then the stack
    /// pointer goes down by one modulo 256.
    pub open spec fn push(self, value: u8) -> Machine {
        Machine { sp: wrap8(self.sp - 1), ..self.write(stack_address(self.sp), value) }
    }

    /// The machine after a pull: the stack pointer has gone up by one modulo
    /// 256.
    pub open spec fn pulled(self) -> Machine {
        Machine { sp: wrap8(self.sp + 1), ..self }
    }

    /// The byte that a pull reads: the one where the stack pointer points
    /// after it has gone up.
    pub open spec fn pull_value(self) -> u8 {
        self.read(stack_address(wrap8(self.sp + 1)))
    }

    /// PHA: pushes A.
    pub open spec fn pha(self) -> Machine {
        self.push(self.a)
    }

    /// PHP: pushes the status byte with B set; the unused bit is set in it as
    /// in every status byte.
    pub open spec fn php(self) -> Machine {
        self.push(self.status.byte() | BREAK)
    }

    /// PLA: pulls into A; Z and N follow the value.
    pub open spec fn pla(self) -> Machine {
        Machine { a: self.pull_value(), ..self.pulled() }.with_result_flags(self.pull_value())
    }

    /// PLP: pulls into the status register, with B cleared and the unused bit
    /// set whatever the stored byte holds.
    pub open spec fn plp(self) -> Machine {
        Machine {
            status: StatusFlags { bits: (self.pull_value() & !BREAK) | UNUSED },
            ..self.pulled()
        }
    }

    // Control flow.

    /// A branch: the offset byte is consumed; if `condition` holds, the
    /// program counter then moves by the offset read as a signed byte,
    /// wrapping at the end of the address space.
    pub open spec fn branch(self, condition: bool) -> Machine {
        let after = self.advance(1);
        if condition {
            Machine { pc: wrap16(after.pc + signed(self.read(self.pc))), ..after }
        } else {
            after
        }
    }

    /// BRK: sets B and halts.
    pub open spec fn brk(self) -> Machine {
        Machine { status: self.status.with(BREAK, true), halted: true, ..self }
    }

    /// RTS: halts. No return address is pulled.
    pub open spec fn rts(self) -> Machine {
        Machine { halted: true, ..self }
    }

    /// The machine with the flag selected by `mask` set to `on`.
    pub open spec fn with_flag(self, mask: u8, on: bool) -> Machine {
        Machine { status: self.status.with(mask, on), ..self }
    }

    /// What the instruction `op` does in addressing mode `mode`, once its
    /// opcode byte has been consumed.
    pub open spec fn execute(self, op: OpCode, mode: AddressingMode) -> Machine {
        match op {
            OpCode::LDA => self.lda(mode),
            OpCode::LDX => self.ldx(mode),
            OpCode::LDY => self.ldy(mode),
            OpCode::STA => self.sta(mode),
            OpCode::STX => self.stx(mode),
            OpCode::STY => self.sty(mode),
            OpCode::ADC => self.adc(mode),
            OpCode::SBC => self.sbc(mode),
            OpCode::CMP => self.compare(mode),
            OpCode::AND => self.and(mode),
            OpCode::ORA => self.ora(mode),
            OpCode::EOR => self.eor(mode),
            OpCode::ASL => if mode == AddressingMode::Implied {
                self.asl_accumulator()
            } else {
                self.asl(mode)
            },
            OpCode::LSR => if mode == AddressingMode::Implied {
                self.lsr_accumulator()
            } else {
                self.lsr(mode)
            },
            OpCode::ROL => if mode == AddressingMode::Implied {
                self.rol_accumulator()
            } else {
                self.rol(mode)
            },
            OpCode::ROR => if mode == AddressingMode::Implied {
                self.ror_accumulator()
            } else {
                self.ror(mode)
            },
            OpCode::INC => self.inc(mode),
            OpCode::DEC => self.dec(mode),
            OpCode::INX => self.inx(),
            OpCode::INY => self.iny(),
            OpCode::DEX => self.dex(),
            OpCode::DEY => self.dey(),
            OpCode::TAX => self.tax(),
            OpCode::TAY => self.tay(),
            OpCode::TXA => self.txa(),
            OpCode::TYA => self.tya(),
            OpCode::TSX => self.tsx(),
            OpCode::TXS => self.txs(),
            OpCode::PHA => self.pha(),
            OpCode::PHP => self.php(),
            OpCode::PLA => self.pla(),
            OpCode::PLP => self.plp(),
            OpCode::BRA => self.branch(true),
            OpCode::BEQ => self.branch(self.status.has(ZERO)),
            OpCode::BNE => self.branch(!self.status.has(ZERO)),
            OpCode::BCS => self.branch(self.status.has(CARRY)),
            OpCode::BCC => self.branch(!self.status.has(CARRY)),
            OpCode::BMI => self.branch(self.status.has(NEGATIVE)),
            OpCode::BPL => self.branch(!self.status.has(NEGATIVE)),
            OpCode::BVS => self.branch(self.status.has(OVERFLOW)),
            OpCode::BVC => self.branch(!self.status.has(OVERFLOW)),
            OpCode::CLC => self.with_flag(CARRY, false),
            OpCode::SEC => self.with_flag(CARRY, true),
            OpCode::CLD => self.with_flag(DECIMAL, false),
            OpCode::SED => self.with_flag(DECIMAL, true),
            OpCode::CLI => self.with_flag(INTERRUPT_DISABLE, false),
            OpCode::SEI => self.with_flag(INTERRUPT_DISABLE, true),
            OpCode::CLV => self.with_flag(OVERFLOW, false),
            OpCode::BRK => self.brk(),
            OpCode::RTS => self.rts(),
        }
    }

    /// The machine after the opcode byte at the program counter was found
    /// not to be an instruction: halted, with the byte and its address
    /// recorded, the program counter past that one byte, and nothing else
    /// changed.
    pub open spec fn fail(self) -> Machine {
        Machine {
            halted: true,
            fault: Some(UnknownOpcode { opcode: self.read(self.pc), address: self.pc }),
            ..self.advance(1)
        }
    }

    /// One step of the engine. A halted machine stays as it is. Otherwise the
    /// byte at the program counter is fetched and looked up in the
    /// instruction table; an unknown byte halts the machine, a known one is
    /// executed.
    pub open spec fn step(self) -> Machine {
        if self.halted {
            self
        } else {
            match descriptor(self.read(self.pc)) {
                Some(d) => self.advance(1).execute(d.opname, d.mode),
                None => self.fail(),
            }
        }
    }

    /// The machine after `count` steps.
    pub open spec fn steps(self, count: nat) -> Machine
        decreases count,
    {
        if count == 0 {
            self
        } else {
            self.step().steps((count - 1) as nat)
        }
    }
}

/// An instruction keeps the memory as large as it was.
pub proof fn lemma_execute_wf(machine: Machine, op: OpCode, mode: AddressingMode)
    requires
        machine.wf(),
    ensures
        machine.execute(op, mode).wf(),
{
}

/// A step keeps the memory as large as it was.
pub proof fn lemma_step_wf(machine: Machine)
    requires
        machine.wf(),
    ensures
        machine.step().wf(),
{
    if !machine.halted {
        match descriptor(machine.read(machine.pc)) {
            Some(d) => lemma_execute_wf(machine.advance(1), d.opname, d.mode),
            None => {},
        }
    }
}

/// A halted machine stays as it is, however many steps are taken.
pub proof fn lemma_halted_is_final(machine: Machine, count: nat)
    requires
        machine.halted,
    ensures
        machine.steps(count) == machine,
    decreases count,
{
    if count > 0 {
        lemma_halted_is_final(machine, (count - 1) as nat);
    }
}

/// A step on a byte that is no instruction halts the machine and records the
/// byte and its address. The program counter has moved past that one byte;
/// registers, flags and memory are untouched.
pub proof fn lemma_unknown_opcode_halts(machine: Machine)
    requires
        !machine.halted,
        descriptor(machine.read(machine.pc)) is None,
    ensures
        machine.step().halted,
        machine.step().fault == Some(
            UnknownOpcode { opcode: machine.read(machine.pc), address: machine.pc },
        ),
        machine.step().pc == wrap16(machine.pc + 1),
        machine.step().a == machine.a,
        machine.step().x == machine.x,
        machine.step().y == machine.y,
        machine.step().sp == machine.sp,
        machine.step().status == machine.status,
        machine.step().memory == machine.memory,
{
}

/// Push then pull: the pull reads the value that was pushed and the stack
/// pointer is back where it was.
pub proof fn lemma_push_then_pull(machine: Machine, value: u8)
    requires
        machine.wf(),
    ensures
        machine.push(value).pull_value() == value,
        machine.push(value).pulled().sp == machine.sp,
        machine.push(value).pulled().memory == machine.memory.update(
            stack_address(machine.sp) as int,
            value,
        ),
{
}

/// PHA then PLA: A has its value from before the push, the stack pointer is
/// back where it was, and Z and N describe that value. No other flag and no
/// other register has changed, and memory only where the value was pushed.
pub proof fn lemma_pha_then_pla(machine: Machine)
    requires
        machine.wf(),
    ensures
        machine.pha().pla().a == machine.a,
        machine.pha().pla().sp == machine.sp,
        machine.pha().pla().status.has(ZERO) == (machine.a == 0),
        machine.pha().pla().status.has(NEGATIVE) == is_negative(machine.a),
        machine.pha().pla() == (Machine {
            status: machine.status.with_zero_negative(machine.a),
            memory: machine.memory.update(stack_address(machine.sp) as int, machine.a),
            ..machine
        }),
{
    lemma_push_then_pull(machine, machine.a);
    lemma_with_zero_negative(machine.status, machine.a, CARRY);
}

proof fn lemma_status_round_trip(bits: u8)
    by (bit_vector)
    ensures
        (((bits | 0x20) | 0x10) & !0x10u8) | 0x20 == (bits & !0x10u8) | 0x20,
{
}

/// PHP then PLP: every flag but B is as it was, B is clear and the unused bit
/// is set.
pub proof fn lemma_php_then_plp(machine: Machine)
    requires
        machine.wf(),
    ensures
        machine.php().plp().status == machine.status.with(BREAK, false).with(UNUSED, true),
        machine.php().plp().sp == machine.sp,
{
    let pushed = machine.status.byte() | BREAK;
    lemma_push_then_pull(machine, pushed);
    lemma_status_round_trip(machine.status.bits);
}

proof fn lemma_signed_overflow(left: u8, right: u8, carry: u8, result: u8)
    by (bit_vector)
    requires
        carry <= 1,
        result == (left + right + carry) % 0x100,
    ensures
        ((left ^ result) & (right ^ result) & 0x80 != 0) == ((left < 0x80 && right < 0x80
            && result >= 0x80) || (left >= 0x80 && right >= 0x80 && result < 0x80)),
{
}

/// The overflow test of an addition says that the sum of the operands, read
/// as signed bytes, and the carry does not fit a signed byte.
pub proof fn lemma_add_overflow_is_signed(left: u8, right: u8, carry: bool)
    ensures
        ({
            let c: int = if carry { 1 } else { 0 };
            overflows(left, right, wrap8(left + right + c)) == !(-0x80 <= signed(left)
                + signed(right) + c <= 0x7F)
        }),
{
    let c: u8 = if carry { 1 } else { 0 };
    lemma_signed_overflow(left, right, c, wrap8(left + right + c));
}

/// Whether `op` is one of the relative branches.
pub open spec fn is_branch(op: OpCode) -> bool {
    op == OpCode::BRA || op == OpCode::BEQ || op == OpCode::BNE || op == OpCode::BCS || op
        == OpCode::BCC || op == OpCode::BMI || op == OpCode::BPL || op == OpCode::BVS || op
        == OpCode::BVC
}

/// Moving the program counter on in two steps is moving it on by their sum.
pub proof fn lemma_advance_twice(machine: Machine, first: int, second: int)
    ensures
        machine.advance(first).advance(second) == machine.advance(first + second),
{
    let sum = machine.pc + first;
    assert(wrap16(wrap16(sum) + second) == wrap16(sum + second)) by {
        assert(((sum % 0x10000) + second) % 0x10000 == (sum + second) % 0x10000) by {
            vstd::arithmetic::div_mod::lemma_add_mod_noop(sum, second, 0x10000);
            vstd::arithmetic::div_mod::lemma_add_mod_noop(sum % 0x10000, second, 0x10000);
            vstd::arithmetic::div_mod::lemma_mod_twice(sum, 0x10000);
        }
    }
}

/// An instruction that is no branch consumes the operand bytes of its
/// addressing mode and moves the program counter nowhere else.
pub proof fn lemma_execute_advances(machine: Machine, op: OpCode, mode: AddressingMode)
    requires
        !is_branch(op),
        op.accepts(mode),
    ensures
        machine.execute(op, mode).pc == machine.advance(mode.operand_length()).pc,
{
    assert(machine.advance(0).pc == machine.pc);
}

/// An instruction that is no branch moves the program counter past itself:
/// by the length that the table gives for it.
pub proof fn lemma_step_advances_by_length(machine: Machine)
    requires
        !machine.halted,
        descriptor(machine.read(machine.pc)) is Some,
        !is_branch(descriptor(machine.read(machine.pc))->0.opname),
    ensures
        machine.step().pc == wrap16(
            machine.pc + descriptor(machine.read(machine.pc))->0.bytes,
        ),
{
    let d = descriptor(machine.read(machine.pc))->0;
    lemma_descriptor(machine.read(machine.pc));
    lemma_execute_advances(machine.advance(1), d.opname, d.mode);
    lemma_advance_twice(machine, 1, d.mode.operand_length());
}

/// A branch moves the program counter past itself and, if it is taken, on by
/// its offset, read as a signed byte.
pub proof fn lemma_branch_target(machine: Machine, condition: bool)
    ensures
        machine.branch(condition).pc == wrap16(
            machine.pc + 1 + if condition {
                signed(machine.read(machine.pc))
            } else {
                0
            },
        ),
        machine.branch(condition) == (Machine { pc: machine.branch(condition).pc, ..machine }),
{
}

proof fn lemma_pulled_status(value: u8)
    by (bit_vector)
    ensures
        ((value & !0x10u8) | 0x20) & 0x10 == 0,
{
}

/// B is set by BRK and by no other instruction.
pub proof fn lemma_break_only_by_brk(machine: Machine, op: OpCode, mode: AddressingMode)
    requires
        op != OpCode::BRK,
        !machine.status.has(BREAK),
    ensures
        !machine.execute(op, mode).status.has(BREAK),
{
    let status = machine.status;
    lemma_pulled_status(machine.pull_value());
    assert forall|mask: u8, on: bool| is_single_bit(mask) && mask != BREAK implies !(
    #[trigger] status.with(mask, on)).has(BREAK) by {
        lemma_with_has(status, mask, on, BREAK);
    }
    assert forall|value: u8| !(#[trigger] status.with_zero_negative(value)).has(BREAK) by {
        lemma_with_zero_negative(status, value, BREAK);
    }
    assert forall|on: bool, value: u8|
        !(#[trigger] status.with(CARRY, on).with_zero_negative(value)).has(BREAK) by {
        lemma_with_has(status, CARRY, on, BREAK);
        lemma_with_zero_negative(status.with(CARRY, on), value, BREAK);
    }
    assert forall|on: bool, over: bool, value: u8|
        !(#[trigger] status.with(CARRY, on).with(OVERFLOW, over).with_zero_negative(value)).has(
            BREAK,
        ) by {
        lemma_with_has(status, CARRY, on, BREAK);
        lemma_with_has(status.with(CARRY, on), OVERFLOW, over, BREAK);
        lemma_with_zero_negative(status.with(CARRY, on).with(OVERFLOW, over), value, BREAK);
    }
}

/// A recorded fault belongs to a halted machine, and a step keeps it so.
pub proof fn lemma_fault_means_halted(machine: Machine)
    requires
        machine.fault is Some ==> machine.halted,
    ensures
        machine.step().fault is Some ==> machine.step().halted,
{
}

} // verus!
