//! The assembler: from lines of mnemonics and operands to machine code.
//!
//! Each line is read as follows. What follows a `;` is a comment. The first
//! word is the mnemonic, in any case; the second word, if there is one, is
//! the operand. An operand that begins with `#` is immediate. One that begins
//! with `$` is a hexadecimal address, in page zero if it has at most two
//! hexadecimal digits and absolute otherwise. Any other operand is an
//! absolute address, read as hexadecimal if that is possible and as decimal
//! if not. An operand that cannot be read is zero.

use vstd::prelude::*;
use crate::instruction::{descriptor, lemma_descriptor, lookup, AddressingMode, Instruction,
    OpCode};
use crate::memory::{high_byte, lemma_split_word, low_byte};
use crate::text::{after_prefix, before_first, count_hex_digits, cut_at, hex_digit_count,
    lines_of, number_of, parse_number, split_lines, split_words, strip_leading, strip_mark,
    uppercase, uppercase_of, without_leading, words_of};

verus! {

/// The rows of the instruction table that belong to `op`, among the opcode
/// bytes below `limit`, in ascending order of their opcode bytes.
pub open spec fn variants_below(op: OpCode, limit: int) -> Seq<Instruction>
    decreases limit,
{
    if limit <= 0 {
        Seq::empty()
    } else {
        let rest = variants_below(op, limit - 1);
        match descriptor((limit - 1) as u8) {
            Some(d) => if d.opname == op {
                rest.push(d)
            } else {
                rest
            },
            None => rest,
        }
    }
}

/// All rows of the instruction table that belong to `op`, in ascending order
/// of their opcode bytes.
pub open spec fn variants(op: OpCode) -> Seq<Instruction> {
    variants_below(op, 0x100)
}

/// The instruction table by mnemonic: each mnemonic that has a row, with its
/// rows.
pub open spec fn opcode_map() -> Map<OpCode, Seq<Instruction>> {
    Map::new(|op: OpCode| variants(op).len() > 0, |op: OpCode| variants(op))
}

/// The first of `variants` whose addressing mode is `mode`.
pub open spec fn first_with_mode(variants: Seq<Instruction>, mode: AddressingMode) -> Option<
    Instruction,
>
    decreases variants.len(),
{
    if variants.len() == 0 {
        None
    } else if variants[0].mode == mode {
        Some(variants[0])
    } else {
        first_with_mode(variants.drop_first(), mode)
    }
}

/// The bytes of one instruction: the opcode byte, then the low byte of
/// `value` if the instruction is two bytes long, or its low and high byte if
/// it is three bytes long.
pub open spec fn instruction_bytes(d: Instruction, value: u16) -> Seq<u8> {
    if d.bytes == 2 {
        seq![d.opcode, low_byte(value)]
    } else if d.bytes == 3 {
        seq![d.opcode, low_byte(value), high_byte(value)]
    } else {
        seq![d.opcode]
    }
}

/// The machine code of one instruction, chosen among `variants` by its
/// operand. With an operand, the variant is the first of that addressing
/// mode; without one, the first implied variant, of which only the opcode
/// byte is written. Where no variant fits, no byte is written.
pub open spec fn encoded(variants: Seq<Instruction>, operand: Option<(AddressingMode, u16)>)
    -> Seq<u8> {
    match operand {
        Some((mode, value)) => match first_with_mode(variants, mode) {
            Some(d) => instruction_bytes(d, value),
            None => Seq::empty(),
        },
        None => match first_with_mode(variants, AddressingMode::Implied) {
            Some(d) => seq![d.opcode],
            None => Seq::empty(),
        },
    }
}

/// The hexadecimal reading if there is one, else the decimal reading, else
/// zero.
pub open spec fn first_reading(hexadecimal: Option<u16>, decimal: Option<u16>) -> u16 {
    match hexadecimal {
        Some(value) => value,
        None => match decimal {
            Some(value) => value,
            None => 0,
        },
    }
}

/// The value of a number written without a prefix.
pub open spec fn plain_value(text: Seq<char>) -> u16 {
    first_reading(number_of(text, 16), number_of(text, 10))
}

/// Mode and value of an operand written with `$`: `parsed` is its
/// hexadecimal reading and `digits` the number of its hexadecimal digits.
pub open spec fn address_operand(parsed: Option<u16>, digits: nat) -> (AddressingMode, u16) {
    match parsed {
        Some(value) => if digits <= 2 {
            (AddressingMode::ZeroPage, value)
        } else {
            (AddressingMode::Absolute, value)
        },
        None => (AddressingMode::ZeroPage, 0),
    }
}

/// Mode and value of the operand `text`.
pub open spec fn operand_of(text: Seq<char>) -> (AddressingMode, u16) {
    match after_prefix(text, '#') {
        Some(rest) => (AddressingMode::Immediate, plain_value(without_leading(rest, '$'))),
        None => match after_prefix(text, '$') {
            Some(rest) => address_operand(number_of(rest, 16), hex_digit_count(rest)),
            None => (AddressingMode::Absolute, plain_value(text)),
        },
    }
}

/// The words of a line, its comment left out.
pub open spec fn line_words(line: Seq<char>) -> Seq<Seq<char>> {
    words_of(before_first(line, ';'))
}

/// The mnemonic of a line that has words: its first word in upper case, if
/// that is the name of a mnemonic.
pub open spec fn line_mnemonic(line: Seq<char>) -> Option<OpCode> {
    OpCode::named(uppercase_of(line_words(line)[0]))
}

/// The operand of a line, if it has a second word.
pub open spec fn line_operand(line: Seq<char>) -> Option<(AddressingMode, u16)> {
    if line_words(line).len() > 1 {
        Some(operand_of(line_words(line)[1]))
    } else {
        None
    }
}

/// Whether a line can be assembled: it has no words, or its first word names
/// a mnemonic.
pub open spec fn line_is_valid(line: Seq<char>) -> bool {
    line_words(line).len() == 0 || line_mnemonic(line) is Some
}

/// The machine code of one line.
pub open spec fn line_code(line: Seq<char>) -> Seq<u8> {
    if line_words(line).len() == 0 {
        Seq::empty()
    } else {
        match line_mnemonic(line) {
            Some(op) => encoded(variants(op), line_operand(line)),
            None => Seq::empty(),
        }
    }
}

/// The machine code of `lines`, one after the other.
pub open spec fn code_of_lines(lines: Seq<Seq<char>>) -> Seq<u8>
    decreases lines.len(),
{
    if lines.len() == 0 {
        Seq::empty()
    } else {
        code_of_lines(lines.drop_last()) + line_code(lines.last())
    }
}

/// The machine code of a source text.
pub open spec fn assembled(source: Seq<char>) -> Seq<u8> {
    code_of_lines(lines_of(source))
}

/// Whether every line of a source text can be assembled.
pub open spec fn can_assemble(source: Seq<char>) -> bool {
    forall|i: int| 0 <= i < lines_of(source).len() ==> line_is_valid(#[trigger] lines_of(source)[i])
}

/// Every row among the variants of a mnemonic is a row of the instruction
/// table with that mnemonic, and the rows stand in ascending order of their
/// opcode bytes, all below `limit`.
pub proof fn lemma_variants_below(op: OpCode, limit: int)
    requires
        0 <= limit <= 0x100,
    ensures
        forall|i: int|
            0 <= i < variants_below(op, limit).len() ==> {
                let d = #[trigger] variants_below(op, limit)[i];
                &&& descriptor(d.opcode) == Some(d)
                &&& d.opname == op
                &&& d.opcode < limit
            },
        forall|i: int, j: int|
            0 <= i < j < variants_below(op, limit).len() ==> variants_below(op, limit)[i].opcode
                < variants_below(op, limit)[j].opcode,
    decreases limit,
{
    if limit > 0 {
        lemma_variants_below(op, limit - 1);
        lemma_descriptor((limit - 1) as u8);
    }
}

/// A row of the table below `limit` is among the variants of its mnemonic.
pub proof fn lemma_variants_below_hold(opcode: u8, limit: int)
    requires
        opcode < limit <= 0x100,
        descriptor(opcode) is Some,
    ensures
        variants_below(descriptor(opcode)->0.opname, limit).contains(descriptor(opcode)->0),
    decreases limit,
{
    let d = descriptor(opcode)->0;
    let rest = variants_below(d.opname, limit - 1);
    if opcode == limit - 1 {
        assert(rest.push(d)[rest.len() as int] == d);
    } else {
        lemma_variants_below_hold(opcode, limit - 1);
        let i = choose|i: int| 0 <= i < rest.len() && rest[i] == d;
        assert(variants_below(d.opname, limit)[i] == d);
    }
}

/// What `first_with_mode` finds is one of the variants and has the mode asked
/// for; it finds nothing only if no variant has that mode.
pub proof fn lemma_first_with_mode(variants: Seq<Instruction>, mode: AddressingMode)
    ensures
        match first_with_mode(variants, mode) {
            Some(d) => variants.contains(d) && d.mode == mode,
            None => forall|i: int| 0 <= i < variants.len() ==> variants[i].mode != mode,
        },
    decreases variants.len(),
{
    if variants.len() > 0 && variants[0].mode != mode {
        let rest = variants.drop_first();
        lemma_first_with_mode(rest, mode);
        match first_with_mode(rest, mode) {
            Some(d) => {
                let i = choose|i: int| 0 <= i < rest.len() && rest[i] == d;
                assert(variants[i + 1] == d);
            },
            None => {
                assert forall|i: int| 0 <= i < variants.len() implies variants[i].mode
                    != mode by {
                    if i > 0 {
                        assert(variants[i] == rest[i - 1]);
                    }
                }
            },
        }
    } else if variants.len() > 0 {
        assert(variants[0] == variants[0]);
    }
}

/// The assembler and the instruction table agree. The row that the assembler
/// picks for a mnemonic and an addressing mode is the row that the table
/// holds for the opcode byte written, and it has that mnemonic and that
/// mode; and the assembler picks a row wherever the table has one.
pub proof fn lemma_encoding_decodes(op: OpCode, mode: AddressingMode)
    ensures
        match first_with_mode(variants(op), mode) {
            Some(d) => descriptor(d.opcode) == Some(d) && d.opname == op && d.mode == mode,
            None => forall|opcode: u8|
                #[trigger] descriptor(opcode) is Some ==> !(descriptor(opcode)->0.opname == op
                    && descriptor(opcode)->0.mode == mode),
        },
{
    lemma_first_with_mode(variants(op), mode);
    lemma_variants_below(op, 0x100);
    match first_with_mode(variants(op), mode) {
        Some(d) => {
            let i = choose|i: int| 0 <= i < variants(op).len() && variants(op)[i] == d;
            assert(variants_below(op, 0x100)[i] == d);
        },
        None => {
            assert forall|opcode: u8| #[trigger] descriptor(opcode) is Some implies !(descriptor(
                opcode,
            )->0.opname == op && descriptor(opcode)->0.mode == mode) by {
                let d = descriptor(opcode)->0;
                if d.opname == op && d.mode == mode {
                    lemma_variants_below_hold(opcode, 0x100);
                    let i = choose|i: int| 0 <= i < variants(op).len() && variants(op)[i] == d;
                    assert(variants(op)[i].mode == mode);
                }
            }
        },
    }
}

/// The rows of one mnemonic.
struct Group {
    opname: OpCode,
    variants: Vec<Instruction>,
}

/// The instruction table by mnemonic, as [`create_opcode_map`] builds it.
pub struct OpcodeMap {
    groups: Vec<Group>,
}

impl View for OpcodeMap {
    type V = Map<OpCode, Seq<Instruction>>;

    closed spec fn view(&self) -> Map<OpCode, Seq<Instruction>> {
        Map::new(
            |op: OpCode| self.index_of(op) is Some,
            |op: OpCode| self.groups[self.index_of(op)->0].variants@,
        )
    }
}

impl OpcodeMap {
    /// No mnemonic has two groups, each group holds all the rows of its
    /// mnemonic, and every mnemonic that has rows has a group.
    #[verifier::type_invariant]
    spec fn complete(self) -> bool {
        &&& forall|i: int, j: int|
            0 <= i < j < self.groups.len() ==> self.groups[i].opname != self.groups[j].opname
        &&& forall|i: int|
            0 <= i < self.groups.len() ==> (#[trigger] self.groups[i]).variants@ == variants(
                self.groups[i].opname,
            ) && self.groups[i].variants@.len() > 0
        &&& forall|op: OpCode|
            (#[trigger] variants(op)).len() > 0 ==> exists|i: int| self.holds_at(op, i)
    }

    spec fn holds_at(self, op: OpCode, i: int) -> bool {
        0 <= i < self.groups.len() && self.groups[i].opname == op
    }

    spec fn index_of(self, op: OpCode) -> Option<int> {
        if exists|i: int| self.holds_at(op, i) {
            Some(choose|i: int| self.holds_at(op, i))
        } else {
            None
        }
    }

    proof fn lemma_view(self)
        requires
            self.complete(),
        ensures
            self@ == opcode_map(),
    {
        assert forall|op: OpCode| #[trigger]
            self@.contains_key(op) == opcode_map().contains_key(op) by {
            if self.index_of(op) is Some {
                let i = self.index_of(op)->0;
                assert(self.holds_at(op, i));
                assert(self.groups[i].variants@.len() > 0);
            }
        }
        assert forall|op: OpCode| self@.contains_key(op) implies #[trigger] self@[op]
            == opcode_map()[op] by {
            let i = self.index_of(op)->0;
            assert(self.holds_at(op, i));
            assert(self.groups[i].variants@ == variants(op));
        }
        assert(self@ =~= opcode_map());
    }

    /// The rows of `op`, or `None` if the table has no row for it. Every map
    /// holds the whole instruction table.
    pub fn get(&self, op: &OpCode) -> (found: Option<&Vec<Instruction>>)
        ensures
            self@ == opcode_map(),
            match found {
                Some(rows) => self@.contains_key(*op) && rows@ == self@[*op],
                None => !self@.contains_key(*op),
            },
    {
        proof {
            use_type_invariant(self);
            self.lemma_view();
        }
        let mut i: usize = 0;
        while i < self.groups.len()
            invariant
                i <= self.groups.len(),
                forall|j: int| 0 <= j < i ==> !self.holds_at(*op, j),
            decreases self.groups.len() - i,
        {
            if self.groups[i].opname == *op {
                proof {
                    use_type_invariant(self);
                    assert(self.holds_at(*op, i as int));
                    let k = self.index_of(*op)->0;
                    assert(self.holds_at(*op, k));
                    assert(self.groups[k].opname == self.groups[i as int].opname);
                }
                return Some(&self.groups[i].variants);
            }
            i += 1;
        }
        None
    }
}

/// Builds the instruction table by mnemonic: under each mnemonic that has a
/// row, its rows in ascending order of their opcode bytes.
pub fn create_opcode_map() -> (map: OpcodeMap)
    ensures
        map@ == opcode_map(),
{
    let mut groups: Vec<Group> = Vec::new();
    let mut next: u16 = 0;
    while next < 0x100
        invariant
            next <= 0x100,
            forall|i: int, j: int|
                0 <= i < j < groups.len() ==> groups[i].opname != groups[j].opname,
            forall|i: int|
                0 <= i < groups.len() ==> (#[trigger] groups[i]).variants@ == variants_below(
                    groups[i].opname,
                    next as int,
                ) && groups[i].variants@.len() > 0,
            forall|op: OpCode|
                (#[trigger] variants_below(op, next as int)).len() > 0 ==> exists|i: int|
                    0 <= i < groups.len() && (#[trigger] groups[i]).opname == op,
        decreases 0x100 - next,
    {
        let ghost before = groups@;
        match lookup(next as u8) {
            Some(d) => {
                let mut k: usize = 0;
                while k < groups.len() && groups[k].opname != d.opname
                    invariant
                        k <= groups.len(),
                        forall|j: int| 0 <= j < k ==> groups[j].opname != d.opname,
                    decreases groups.len() - k,
                {
                    k += 1;
                }
                if k < groups.len() {
                    groups[k].variants.push(d);
                } else {
                    let mut rows: Vec<Instruction> = Vec::new();
                    rows.push(d);
                    assert(variants_below(d.opname, next as int).len() == 0);
                    assert(rows@ =~= variants_below(d.opname, next + 1));
                    groups.push(Group { opname: d.opname, variants: rows });
                }
                proof {
                    assert forall|op: OpCode| (#[trigger] variants_below(op, next + 1)).len()
                        > 0 implies exists|i: int|
                        0 <= i < groups.len() && (#[trigger] groups[i]).opname == op by {
                        if op == d.opname {
                            assert(groups[k as int].opname == op);
                        } else {
                            assert(variants_below(op, next as int).len() > 0);
                            let i = choose|i: int|
                                0 <= i < before.len() && (#[trigger] before[i]).opname == op;
                            assert(groups[i].opname == op);
                        }
                    }
                }
            },
            None => {
                proof {
                    assert forall|op: OpCode| (#[trigger] variants_below(op, next + 1)).len()
                        > 0 implies exists|i: int|
                        0 <= i < groups.len() && (#[trigger] groups[i]).opname == op by {
                        assert(variants_below(op, next as int).len() > 0);
                    }
                }
            },
        }
        next += 1;
    }
    proof {
        let whole = OpcodeMap { groups };
        assert forall|op: OpCode| (#[trigger] variants(op)).len() > 0 implies exists|i: int|
            whole.holds_at(op, i) by {
            assert(variants_below(op, next as int).len() > 0);
            let i = choose|i: int| 0 <= i < groups.len() && (#[trigger] groups[i]).opname == op;
            assert(whole.holds_at(op, i));
        }
        assert forall|i: int| 0 <= i < groups.len() implies (#[trigger] groups[i]).variants@
            == variants(groups[i].opname) by {
            assert(groups[i].variants@ == variants_below(groups[i].opname, next as int));
        }
        whole.lemma_view();
    }
    OpcodeMap { groups }
}

/// The first of `variants` whose addressing mode is `mode`.
pub fn find_mode(variants: &Vec<Instruction>, mode: AddressingMode) -> (found: Option<
    Instruction,
>)
    ensures
        found == first_with_mode(variants@, mode),
{
    let mut i: usize = 0;
    assert(variants@.skip(0) =~= variants@);
    while i < variants.len()
        invariant
            i <= variants.len(),
            first_with_mode(variants@, mode) == first_with_mode(variants@.skip(i as int), mode),
        decreases variants.len() - i,
    {
        let ghost rest = variants@.skip(i as int);
        assert(rest[0] == variants@[i as int]);
        if variants[i].mode == mode {
            return Some(variants[i]);
        }
        assert(rest.drop_first() =~= variants@.skip(i + 1));
        i += 1;
    }
    assert(variants@.skip(i as int).len() == 0);
    None
}

/// Appends to `code` the machine code of one instruction, chosen among
/// `variants` by its operand.
pub fn encode(code: &mut Vec<u8>, variants: &Vec<Instruction>, operand: Option<
    (AddressingMode, u16),
>)
    ensures
        final(code)@ == old(code)@ + encoded(variants@, operand),
{
    match operand {
        Some((mode, value)) => {
            match find_mode(variants, mode) {
                Some(instruction) => {
                    proof {
                        lemma_split_word(value);
                    }
                    code.push(instruction.opcode);
                    if instruction.bytes == 2 {
                        code.push((value & 0xFF) as u8);
                        assert(code@ =~= old(code)@ + seq![
                            instruction.opcode,
                            low_byte(value),
                        ]);
                    } else if instruction.bytes == 3 {
                        code.push((value & 0xFF) as u8);
                        code.push((value >> 8) as u8);
                        assert(code@ =~= old(code)@ + seq![
                            instruction.opcode,
                            low_byte(value),
                            high_byte(value),
                        ]);
                    } else {
                        assert(code@ =~= old(code)@ + seq![instruction.opcode]);
                    }
                },
                None => {
                    assert(code@ =~= old(code)@ + Seq::<u8>::empty());
                },
            }
        },
        None => {
            match find_mode(variants, AddressingMode::Implied) {
                Some(instruction) => {
                    code.push(instruction.opcode);
                    assert(code@ =~= old(code)@ + seq![instruction.opcode]);
                },
                None => {
                    assert(code@ =~= old(code)@ + Seq::<u8>::empty());
                },
            }
        },
    }
}

/// Picks the hexadecimal reading of a number if there is one, else the
/// decimal reading, else zero.
pub fn pick_reading(hexadecimal: Option<u16>, decimal: Option<u16>) -> (value: u16)
    ensures
        value == first_reading(hexadecimal, decimal),
{
    match hexadecimal {
        Some(value) => value,
        None => match decimal {
            Some(value) => value,
            None => 0,
        },
    }
}

/// Mode and value of an operand written with `$`, from its hexadecimal
/// reading and the number of its hexadecimal digits: page zero for at most
/// two digits, absolute for more; page zero and zero if it cannot be read.
pub fn classify_address(parsed: Option<u16>, digits: usize) -> (operand: (AddressingMode, u16))
    ensures
        operand == address_operand(parsed, digits as nat),
{
    match parsed {
        Some(value) => if digits <= 2 {
            (AddressingMode::ZeroPage, value)
        } else {
            (AddressingMode::Absolute, value)
        },
        None => (AddressingMode::ZeroPage, 0),
    }
}

/// Reads an operand: its addressing mode and its value.
pub fn parse_operand(operand: &str) -> (parsed: (AddressingMode, u16))
    ensures
        parsed == operand_of(operand@),
{
    if let Some(stripped) = strip_mark(operand, '#') {
        let digits = strip_leading(stripped, '$');
        let value = pick_reading(parse_number(digits, 16), parse_number(digits, 10));
        (AddressingMode::Immediate, value)
    } else if let Some(stripped) = strip_mark(operand, '$') {
        classify_address(parse_number(stripped, 16), count_hex_digits(stripped))
    } else {
        let value = pick_reading(parse_number(operand, 16), parse_number(operand, 10));
        (AddressingMode::Absolute, value)
    }
}

/// The mnemonic of a line whose words are `words`, which are not empty.
fn mnemonic_of(words: &Vec<&str>) -> (found: Option<OpCode>)
    requires
        words@.len() > 0,
    ensures
        found == OpCode::named(uppercase_of(words@[0]@)),
{
    let name = uppercase(words[0]);
    OpCode::from_name(name.as_str())
}

/// Appends the machine code of `line` to `code` and says whether the line
/// could be assembled. Nothing is appended for a line that could not.
pub fn assemble_line(code: &mut Vec<u8>, opcodes: &OpcodeMap, line: &str) -> (valid: bool)
    ensures
        valid == line_is_valid(line@),
        final(code)@ == old(code)@ + line_code(line@),
{
    let words = split_words(cut_at(line, ';'));
    if words.len() == 0 {
        assert(code@ =~= old(code)@ + Seq::<u8>::empty());
        return true;
    }
    match mnemonic_of(&words) {
        Some(mnemonic) => {
            let operand = if words.len() > 1 {
                Some(parse_operand(words[1]))
            } else {
                None
            };
            match opcodes.get(&mnemonic) {
                Some(instructions) => {
                    encode(code, instructions, operand);
                },
                None => {
                    assert(variants(mnemonic).len() == 0);
                    assert(code@ =~= old(code)@ + Seq::<u8>::empty());
                },
            }
            true
        },
        None => {
            assert(code@ =~= old(code)@ + Seq::<u8>::empty());
            false
        },
    }
}

/// Whether every line of `source` can be assembled: each line that has a
/// word begins with a mnemonic.
pub fn is_assemblable(source: &str) -> (valid: bool)
    ensures
        valid == can_assemble(source@),
{
    let lines = split_lines(source);
    let mut i: usize = 0;
    while i < lines.len()
        invariant
            i <= lines.len(),
            lines@.len() == lines_of(source@).len(),
            forall|k: int|
                0 <= k < lines@.len() ==> (#[trigger] lines@[k])@ == lines_of(source@)[k],
            forall|k: int| 0 <= k < i ==> line_is_valid(#[trigger] lines_of(source@)[k]),
        decreases lines.len() - i,
    {
        let words = split_words(cut_at(lines[i], ';'));
        if words.len() > 0 {
            if mnemonic_of(&words).is_none() {
                assert(!line_is_valid(lines_of(source@)[i as int]));
                return false;
            }
        }
        i += 1;
    }
    true
}

/// Assembles `source` into machine code. Every line that has a word has to
/// begin with a mnemonic.
pub fn assemble(source: &str) -> (machine_code: Vec<u8>)
    requires
        can_assemble(source@),
    ensures
        machine_code@ == assembled(source@),
{
    let opcodes = create_opcode_map();
    let mut machine_code: Vec<u8> = Vec::new();
    let lines = split_lines(source);
    let mut i: usize = 0;
    while i < lines.len()
        invariant
            i <= lines.len(),
            can_assemble(source@),
            lines@.len() == lines_of(source@).len(),
            forall|k: int|
                0 <= k < lines@.len() ==> (#[trigger] lines@[k])@ == lines_of(source@)[k],
            machine_code@ == code_of_lines(lines_of(source@).take(i as int)),
        decreases lines.len() - i,
    {
        assert(lines_of(source@).take(i + 1).drop_last() =~= lines_of(source@).take(i as int));
        assemble_line(&mut machine_code, &opcodes, lines[i]);
        i += 1;
    }
    assert(lines_of(source@).take(i as int) =~= lines_of(source@));
    machine_code
}

/// Assembles `source` into machine code, or returns `None` if one of its
/// lines begins with a word that is no mnemonic.
pub fn try_assemble(source: &str) -> (machine_code: Option<Vec<u8>>)
    ensures
        match machine_code {
            Some(code) => can_assemble(source@) && code@ == assembled(source@),
            None => !can_assemble(source@),
        },
{
    if is_assemblable(source) {
        Some(assemble(source))
    } else {
        None
    }
}

} // verus!
