//! Text handling for the assembler.
//!
//! Splitting into lines and words, case folding and number parsing are left
//! to the standard library. Each of those calls is wrapped here, and what it
//! returns is given a name that the assembler's contracts speak of. The rest
//! is verified: cutting a comment off a line, removing a prefix, and counting
//! hexadecimal digits.

use vstd::prelude::*;
use vstd::string::StrSliceExecFns;

verus! {

/// The lines of `text`: what `str::lines` yields, in order.
pub uninterp spec fn lines_of(text: Seq<char>) -> Seq<Seq<char>>;

/// The words of `text`: what `str::split_whitespace` yields, in order.
pub uninterp spec fn words_of(text: Seq<char>) -> Seq<Seq<char>>;

/// `text` in upper case: what `str::to_uppercase` returns.
pub uninterp spec fn uppercase_of(text: Seq<char>) -> Seq<char>;

/// The number that `text` spells in base `radix`: what `u16::from_str_radix`
/// returns, with `None` for every error.
pub uninterp spec fn number_of(text: Seq<char>, radix: u32) -> Option<u16>;

/// Calls `str::lines`. The contract claims only that the result is the
/// sequence named [`lines_of`], item for item.
#[verifier::external_body]
pub(crate) fn split_lines<'a>(text: &'a str) -> (lines: Vec<&'a str>)
    ensures
        lines@.len() == lines_of(text@).len(),
        forall|i: int| 0 <= i < lines@.len() ==> (#[trigger] lines@[i])@ == lines_of(text@)[i],
{
    text.lines().collect()
}

/// Calls `str::split_whitespace`. The contract claims only that the result is
/// the sequence named [`words_of`], item for item.
#[verifier::external_body]
pub(crate) fn split_words<'a>(text: &'a str) -> (words: Vec<&'a str>)
    ensures
        words@.len() == words_of(text@).len(),
        forall|i: int| 0 <= i < words@.len() ==> (#[trigger] words@[i])@ == words_of(text@)[i],
{
    text.split_whitespace().collect()
}

/// Calls `str::to_uppercase`. The contract claims only that the result is the
/// text named [`uppercase_of`].
#[verifier::external_body]
pub(crate) fn uppercase(text: &str) -> (upper: String)
    ensures
        upper@ == uppercase_of(text@),
{
    text.to_uppercase()
}

/// Calls `u16::from_str_radix`, which panics on a radix outside 2 to 36. The
/// contract claims only that the result, with every error turned into
/// `None`, is the value named [`number_of`].
#[verifier::external_body]
pub(crate) fn parse_number(text: &str, radix: u32) -> (value: Option<u16>)
    requires
        2 <= radix <= 36,
    ensures
        value == number_of(text@, radix),
{
    u16::from_str_radix(text, radix).ok()
}

/// Index of the first `mark` in `text`, or the length of `text` if it holds
/// none.
pub open spec fn first_index_of(text: Seq<char>, mark: char) -> int
    decreases text.len(),
{
    if text.len() == 0 {
        0
    } else if text[0] == mark {
        0
    } else {
        1 + first_index_of(text.drop_first(), mark)
    }
}

/// The part of `text` before the first `mark`; all of it if it holds none.
pub open spec fn before_first(text: Seq<char>, mark: char) -> Seq<char> {
    text.take(first_index_of(text, mark))
}

/// `text` without its first character if that is `mark`.
pub open spec fn after_prefix(text: Seq<char>, mark: char) -> Option<Seq<char>> {
    if text.len() > 0 && text[0] == mark {
        Some(text.drop_first())
    } else {
        None
    }
}

/// Number of `mark`s that `text` begins with.
pub open spec fn leading_count(text: Seq<char>, mark: char) -> int
    decreases text.len(),
{
    if text.len() > 0 && text[0] == mark {
        1 + leading_count(text.drop_first(), mark)
    } else {
        0
    }
}

/// `text` without the `mark`s it begins with.
pub open spec fn without_leading(text: Seq<char>, mark: char) -> Seq<char> {
    text.skip(leading_count(text, mark))
}

/// Whether `c` is one of `0`-`9`, `a`-`f`, `A`-`F`.
pub open spec fn is_hex_digit(c: char) -> bool {
    ('0' <= c <= '9') || ('a' <= c <= 'f') || ('A' <= c <= 'F')
}

/// Number of hexadecimal digits in `text`.
pub open spec fn hex_digit_count(text: Seq<char>) -> nat
    decreases text.len(),
{
    if text.len() == 0 {
        0
    } else {
        hex_digit_count(text.drop_last()) + if is_hex_digit(text.last()) {
            1nat
        } else {
            0nat
        }
    }
}

/// The index of the first mark lies within the text, no character before it
/// is the mark, and the character at it is, if there is one.
pub proof fn lemma_first_index_of(text: Seq<char>, mark: char)
    ensures
        0 <= first_index_of(text, mark) <= text.len(),
        forall|i: int| 0 <= i < first_index_of(text, mark) ==> text[i] != mark,
        first_index_of(text, mark) < text.len() ==> text[first_index_of(text, mark)] == mark,
    decreases text.len(),
{
    if text.len() > 0 && text[0] != mark {
        let rest = text.drop_first();
        lemma_first_index_of(rest, mark);
        assert forall|i: int| 0 <= i < first_index_of(text, mark) implies text[i] != mark by {
            if i > 0 {
                assert(text[i] == rest[i - 1]);
            }
        }
        assert(first_index_of(rest, mark) < rest.len() ==> rest[first_index_of(rest, mark)]
            == text[first_index_of(text, mark)]);
    }
}

/// An index with the mark at it and no mark before it is the first index of
/// the mark; a text without the mark has its length as that index.
pub proof fn lemma_first_index_is(text: Seq<char>, mark: char, index: int)
    requires
        0 <= index <= text.len(),
        forall|i: int| 0 <= i < index ==> text[i] != mark,
        index < text.len() ==> text[index] == mark,
    ensures
        first_index_of(text, mark) == index,
{
    lemma_first_index_of(text, mark);
}

/// The marks counted at the start of a text are marks, and the character
/// after them, if there is one, is none.
pub proof fn lemma_leading_count(text: Seq<char>, mark: char)
    ensures
        0 <= leading_count(text, mark) <= text.len(),
        forall|i: int| 0 <= i < leading_count(text, mark) ==> text[i] == mark,
        leading_count(text, mark) < text.len() ==> text[leading_count(text, mark)] != mark,
    decreases text.len(),
{
    if text.len() > 0 && text[0] == mark {
        let rest = text.drop_first();
        lemma_leading_count(rest, mark);
        assert forall|i: int| 0 <= i < leading_count(text, mark) implies text[i] == mark by {
            if i > 0 {
                assert(text[i] == rest[i - 1]);
            }
        }
        assert(leading_count(rest, mark) < rest.len() ==> rest[leading_count(rest, mark)]
            == text[leading_count(text, mark)]);
    }
}

/// The part of a line before the first `mark`.
pub fn cut_at<'a>(text: &'a str, mark: char) -> (head: &'a str)
    ensures
        head@ == before_first(text@, mark),
{
    let length = text.unicode_len();
    let mut index: usize = 0;
    let mut found = false;
    for c in it: text.chars()
        invariant
            it.seq() == text@,
            text@.len() == length,
            index <= it.index(),
            !found ==> index == it.index(),
            found ==> index < text@.len() && text@[index as int] == mark,
            forall|i: int| 0 <= i < index ==> text@[i] != mark,
    {
        if !found {
            if c == mark {
                found = true;
            } else {
                index = index + 1;
            }
        }
    }
    proof {
        lemma_first_index_is(text@, mark, index as int);
    }
    text.substring_char(0, index)
}

/// `text` without its first character, if that character is `mark`.
pub fn strip_mark<'a>(text: &'a str, mark: char) -> (rest: Option<&'a str>)
    ensures
        match rest {
            Some(tail) => after_prefix(text@, mark) == Some(tail@),
            None => after_prefix(text@, mark) is None,
        },
{
    let length = text.unicode_len();
    if length > 0 && text.get_char(0) == mark {
        Some(text.substring_char(1, length))
    } else {
        None
    }
}

/// `text` without the `mark`s it begins with.
pub fn strip_leading<'a>(text: &'a str, mark: char) -> (rest: &'a str)
    ensures
        rest@ == without_leading(text@, mark),
{
    let length = text.unicode_len();
    let mut count: usize = 0;
    let mut done = false;
    for c in it: text.chars()
        invariant
            it.seq() == text@,
            text@.len() == length,
            count <= it.index(),
            !done ==> count == it.index(),
            done ==> count < text@.len() && text@[count as int] != mark,
            forall|i: int| 0 <= i < count ==> text@[i] == mark,
    {
        if !done {
            if c == mark {
                count = count + 1;
            } else {
                done = true;
            }
        }
    }
    proof {
        lemma_leading_count(text@, mark);
        let k = leading_count(text@, mark);
        if k < count {
            assert(text@[k] == mark);
        }
        if count < k {
            assert(text@[count as int] == mark);
        }
    }
    text.substring_char(count, length)
}

/// Whether `c` is a hexadecimal digit.
pub fn hex_digit(c: char) -> (yes: bool)
    ensures
        yes == is_hex_digit(c),
{
    ('0' <= c && c <= '9') || ('a' <= c && c <= 'f') || ('A' <= c && c <= 'F')
}

/// Number of hexadecimal digits in `text`.
pub fn count_hex_digits(text: &str) -> (count: usize)
    ensures
        count == hex_digit_count(text@),
{
    let length = text.unicode_len();
    let mut count: usize = 0;
    for c in it: text.chars()
        invariant
            it.seq() == text@,
            text@.len() == length,
            count <= it.index(),
            count == hex_digit_count(text@.take(it.index() as int)),
    {
        assert(text@.take(it.index() + 1).drop_last() =~= text@.take(it.index() as int));
        if hex_digit(c) {
            count = count + 1;
        }
    }
    assert(text@.take(text@.len() as int) =~= text@);
    count
}

} // verus!
