//! The flat 64 KiB address space.
//!
//! A [`Memory`] is viewed as a `Seq<u8>` of length [`MEMORY_SIZE`]; every
//! contract below is stated over that sequence.

use vstd::prelude::*;

verus! {

/// Number of addressable bytes.
pub const MEMORY_SIZE: usize = 0x10000;

/// The address after `address`, wrapping from `0xFFFF` to `0x0000`.
pub open spec fn next_address(address: u16) -> u16 {
    if address == 0xFFFF {
        0
    } else {
        (address + 1) as u16
    }
}

/// Low byte of a 16-bit word.
pub open spec fn low_byte(word: u16) -> u8 {
    (word % 256) as u8
}

/// High byte of a 16-bit word.
pub open spec fn high_byte(word: u16) -> u8 {
    (word / 256) as u8
}

/// The 16-bit word whose low byte is `low` and whose high byte is `high`.
pub open spec fn word_of(low: u8, high: u8) -> u16 {
    (low + 256 * high) as u16
}

/// The little-endian word stored at `address`: the low byte at `address`, the
/// high byte at the address after it.
pub open spec fn word_at(bytes: Seq<u8>, address: u16) -> u16 {
    word_of(bytes[address as int], bytes[next_address(address) as int])
}

/// `bytes` with the little-endian encoding of `word` stored at `address`.
pub open spec fn store_word(bytes: Seq<u8>, address: u16, word: u16) -> Seq<u8> {
    bytes.update(address as int, low_byte(word)).update(
        next_address(address) as int,
        high_byte(word),
    )
}

/// `bytes` with `program` copied over the bytes from `start` on.
pub open spec fn store_program(bytes: Seq<u8>, program: Seq<u8>, start: int) -> Seq<u8> {
    Seq::new(
        bytes.len(),
        |i: int|
            if start <= i < start + program.len() {
                program[i - start]
            } else {
                bytes[i]
            },
    )
}

/// Splitting a word into bytes and joining them again gives the word back.
pub proof fn lemma_word_bytes(word: u16)
    ensures
        word_of(low_byte(word), high_byte(word)) == word,
{
}

/// Joining two bytes and splitting the word gives the bytes back.
pub proof fn lemma_bytes_word(low: u8, high: u8)
    ensures
        low_byte(word_of(low, high)) == low,
        high_byte(word_of(low, high)) == high,
{
}

/// A byte that was just stored is the byte read back from that address, and
/// no other address sees the store.
pub proof fn lemma_read_after_write(bytes: Seq<u8>, address: u16, value: u8, other: u16)
    requires
        bytes.len() == MEMORY_SIZE,
    ensures
        bytes.update(address as int, value)[address as int] == value,
        other != address ==> bytes.update(address as int, value)[other as int]
            == bytes[other as int],
        bytes.update(address as int, value).len() == MEMORY_SIZE,
{
}

/// A word that was just stored is the word read back from that address.
pub proof fn lemma_read_word_after_write_word(bytes: Seq<u8>, address: u16, word: u16)
    requires
        bytes.len() == MEMORY_SIZE,
    ensures
        word_at(store_word(bytes, address, word), address) == word,
        store_word(bytes, address, word).len() == MEMORY_SIZE,
{
    lemma_word_bytes(word);
}

/// What `load_program` stores is what is read back, byte for byte, and the
/// bytes outside the program keep their values.
pub proof fn lemma_read_after_load(bytes: Seq<u8>, program: Seq<u8>, start: u16, address: u16)
    requires
        bytes.len() == MEMORY_SIZE,
        start + program.len() <= MEMORY_SIZE,
    ensures
        store_program(bytes, program, start as int).len() == MEMORY_SIZE,
        start <= address < start + program.len() ==> store_program(
            bytes,
            program,
            start as int,
        )[address as int] == program[address - start],
        !(start <= address < start + program.len()) ==> store_program(
            bytes,
            program,
            start as int,
        )[address as int] == bytes[address as int],
{
}

/// Shifting the high byte up and joining the low byte to it gives the word
/// of the two bytes.
pub proof fn lemma_join_bytes(low: u16, high: u16)
    by (bit_vector)
    requires
        low < 256,
        high < 256,
    ensures
        (high << 8) | low == low + 256 * high,
{
}

/// Masking a word gives its low byte and shifting it down its high byte.
pub proof fn lemma_split_word(word: u16)
    by (bit_vector)
    ensures
        word & 0x00FF == word % 256,
        word >> 8 == word / 256,
{
}

/// 65536 bytes of memory, addressed by a `u16`.
#[derive(PartialEq, Eq, PartialOrd, Ord, Clone, Debug)]
pub struct Memory {
    data: [u8; 65536],
}

impl View for Memory {
    type V = Seq<u8>;

    closed spec fn view(&self) -> Seq<u8> {
        self.data@
    }
}

impl Default for Memory {
    fn default() -> (memory: Memory)
        ensures
            memory@ == Seq::new(MEMORY_SIZE as nat, |i: int| 0u8),
    {
        Memory::new()
    }
}

impl Memory {
    /// Every memory holds exactly [`MEMORY_SIZE`] bytes.
    pub proof fn lemma_len(&self)
        ensures
            self@.len() == MEMORY_SIZE,
    {
    }

    /// A memory in which every byte is zero.
    pub fn new() -> (memory: Memory)
        ensures
            memory@ == Seq::new(MEMORY_SIZE as nat, |i: int| 0u8),
    {
        let memory = Memory { data: [0;65536] };
        assert(memory@ =~= Seq::new(MEMORY_SIZE as nat, |i: int| 0u8));
        memory
    }

    /// The byte at `address`.
    pub fn read(&self, address: u16) -> (value: u8)
        ensures
            value == self@[address as int],
    {
        self.data[address as usize]
    }

    /// Stores `value` at `address`; every other byte keeps its value.
    pub fn write(&mut self, address: u16, value: u8)
        ensures
            final(self)@ == old(self)@.update(address as int, value),
    {
        self.data[address as usize] = value;
    }

    /// The little-endian word at `address`. The high byte of a word at
    /// `0xFFFF` is the byte at `0x0000`.
    pub fn read_u16(&self, address: u16) -> (word: u16)
        ensures
            word == word_at(self@, address),
    {
        let low = self.read(address) as u16;
        let high = self.read(address.wrapping_add(1)) as u16;
        proof {
            lemma_join_bytes(low, high);
        }
        (high << 8) | low
    }

    /// Stores `word` at `address`, low byte first. The high byte of a word at
    /// `0xFFFF` goes to `0x0000`.
    pub fn write_u16(&mut self, address: u16, word: u16)
        ensures
            final(self)@ == store_word(old(self)@, address, word),
    {
        proof {
            lemma_split_word(word);
        }
        self.write(address, (word & 0x00FF) as u8);
        self.write(address.wrapping_add(1), (word >> 8) as u8);
    }

    /// Copies `program` into memory from `start_address` on. The program has
    /// to fit below the end of the address space.
    pub fn load_program(&mut self, program: Vec<u8>, start_address: u16)
        requires
            start_address + program.len() <= MEMORY_SIZE,
        ensures
            final(self)@ == store_program(old(self)@, program@, start_address as int),
    {
        let start = start_address as usize;
        let mut i: usize = 0;
        while i < program.len()
            invariant
                i <= program.len(),
                start == start_address,
                start + program.len() <= MEMORY_SIZE,
                self@.len() == MEMORY_SIZE,
                self@ == store_program(old(self)@, program@.take(i as int), start as int),
            decreases program.len() - i,
        {
            self.data[start + i] = program[i];
            i += 1;
            assert(self@ =~= store_program(old(self)@, program@.take(i as int), start as int));
        }
        assert(program@.take(i as int) =~= program@);
    }
}

} // verus!
