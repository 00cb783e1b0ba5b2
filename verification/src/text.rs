//! Text as sequences of characters: splitting at a separator and reading a
//! decimal number.

use vstd::prelude::*;

verus! {

/// The pieces of `text` between the occurrences of `separator`, in order. A
/// text with `n` separators has `n + 1` pieces, some of which may be empty.
pub open spec fn split(text: Seq<char>, separator: char) -> Seq<Seq<char>>
    decreases text.len(),
{
    if text.len() == 0 {
        seq![Seq::empty()]
    } else {
        let before = split(text.drop_last(), separator);
        if text.last() == separator {
            before.push(Seq::empty())
        } else {
            before.drop_last().push(before.last().push(text.last()))
        }
    }
}

/// The pieces put together again, with the separator between each two.
pub open spec fn joined(pieces: Seq<Seq<char>>, separator: char) -> Seq<char>
    decreases pieces.len(),
{
    if pieces.len() == 0 {
        Seq::empty()
    } else if pieces.len() == 1 {
        pieces[0]
    } else {
        joined(pieces.drop_last(), separator).push(separator) + pieces.last()
    }
}

/// Splitting loses nothing and leaves no separator behind: there is at
/// least one piece, no piece holds the separator, and the pieces joined by
/// the separator are the text again.
pub proof fn lemma_split_joins_back(text: Seq<char>, separator: char)
    ensures
        split(text, separator).len() >= 1,
        forall|i: int|
            0 <= i < split(text, separator).len() ==> !(#[trigger] split(text, separator)[i]).contains(
                separator,
            ),
        joined(split(text, separator), separator) == text,
    decreases text.len(),
{
    let pieces = split(text, separator);
    if text.len() == 0 {
        assert(joined(pieces, separator) =~= text);
    } else {
        let before = split(text.drop_last(), separator);
        lemma_split_joins_back(text.drop_last(), separator);
        if text.last() == separator {
            assert(pieces.drop_last() =~= before);
            assert(joined(pieces, separator) =~= text);
        } else {
            let grown = before.last().push(text.last());
            assert forall|i: int| 0 <= i < pieces.len() implies !(#[trigger] pieces[i]).contains(
                separator,
            ) by {
                if i == pieces.len() - 1 {
                    if grown.contains(separator) {
                        let at = choose|at: int| 0 <= at < grown.len() && grown[at] == separator;
                        if at < before.last().len() {
                            assert(before.last()[at] == separator);
                            assert(before.last().contains(separator));
                        }
                    }
                } else {
                    assert(pieces[i] == before[i]);
                }
            }
            if before.len() == 1 {
                assert(joined(pieces, separator) =~= text);
            } else {
                assert(pieces.drop_last() =~= before.drop_last());
                assert(joined(pieces, separator) =~= joined(before, separator).push(text.last()));
                assert(joined(pieces, separator) =~= text);
            }
        }
    }
}

/// A list of texts, each taken as its characters.
pub open spec fn texts(pieces: Seq<Vec<char>>) -> Seq<Seq<char>> {
    pieces.map_values(|piece: Vec<char>| piece@)
}

/// The characters of a string.
pub fn chars_of(text: &str) -> (chars: Vec<char>)
    ensures
        chars@ == text@,
{
    let mut chars: Vec<char> = Vec::new();
    for c in it: text.chars()
        invariant
            it.seq() == text@,
            chars@ == it.seq().take(it.index() as int),
    {
        chars.push(c);
        assert(it.seq().take(it.index() + 1) =~= it.seq().take(it.index() as int).push(c));
    }
    assert(text@.take(text@.len() as int) =~= text@);
    chars
}

/// Splits `text` at each occurrence of `separator`.
pub fn split_chars(text: &Vec<char>, separator: char) -> (pieces: Vec<Vec<char>>)
    ensures
        texts(pieces@) == split(text@, separator),
{
    let mut pieces: Vec<Vec<char>> = Vec::new();
    let mut current: Vec<char> = Vec::new();
    let mut i: usize = 0;
    while i < text.len()
        invariant
            i <= text.len(),
            texts(pieces@).push(current@) == split(text@.take(i as int), separator),
        decreases text.len() - i,
    {
        let ghost done = text@.take(i as int);
        let ghost next = text@.take(i + 1);
        let ghost before = texts(pieces@);
        let ghost piece = current@;
        proof {
            assert(next.drop_last() =~= done);
            assert(next.last() == text@[i as int]);
            assert(before.push(piece).drop_last() =~= before);
        }
        if text[i] == separator {
            pieces.push(current);
            current = Vec::new();
            proof {
                assert(texts(pieces@) =~= before.push(piece));
                assert(current@ =~= Seq::<char>::empty());
            }
        } else {
            current.push(text[i]);
        }
        i += 1;
    }
    proof {
        assert(text@.take(text.len() as int) =~= text@);
    }
    let ghost before = texts(pieces@);
    let ghost piece = current@;
    pieces.push(current);
    assert(texts(pieces@) =~= before.push(piece));
    pieces
}

/// Whether `chars` spells `word`.
pub fn same_text(chars: &Vec<char>, word: &str) -> (same: bool)
    ensures
        same == (chars@ == word@),
{
    let spelled = chars_of(word);
    if chars.len() != spelled.len() {
        return false;
    }
    let mut i: usize = 0;
    while i < chars.len()
        invariant
            i <= chars.len(),
            chars.len() == spelled.len(),
            spelled@ == word@,
            chars@.take(i as int) == spelled@.take(i as int),
        decreases chars.len() - i,
    {
        if chars[i] != spelled[i] {
            return false;
        }
        assert(chars@.take(i + 1) =~= chars@.take(i as int).push(chars@[i as int]));
        assert(spelled@.take(i + 1) =~= spelled@.take(i as int).push(spelled@[i as int]));
        i += 1;
    }
    assert(chars@.take(chars.len() as int) =~= chars@);
    assert(spelled@.take(chars.len() as int) =~= spelled@);
    true
}

/// Whether two strings spell the same.
pub fn same_str(one: &str, other: &str) -> (same: bool)
    ensures
        same == (one@ == other@),
{
    let chars = chars_of(one);
    same_text(&chars, other)
}

pub open spec fn is_digit(c: char) -> bool {
    '0' <= c && c <= '9'
}

/// The number that a decimal digit stands for.
pub open spec fn digit_value(c: char) -> nat {
    (c as u32 - '0' as u32) as nat
}

pub open spec fn all_digits(digits: Seq<char>) -> bool {
    forall|i: int| 0 <= i < digits.len() ==> is_digit(#[trigger] digits[i])
}

/// The number that a string of decimal digits stands for, the most
/// significant digit first.
pub open spec fn decimal_value(digits: Seq<char>) -> nat
    decreases digits.len(),
{
    if digits.len() == 0 {
        0
    } else {
        decimal_value(digits.drop_last()) * 10 + digit_value(digits.last())
    }
}

/// A number may be written with a plus sign in front, which says nothing.
pub open spec fn without_sign(text: Seq<char>) -> Seq<char> {
    if text.len() > 0 && text[0] == '+' {
        text.skip(1)
    } else {
        text
    }
}

/// The number that `text` spells as a `u32`: an optional plus sign, then
/// one or more decimal digits and nothing else, with a value that fits.
pub open spec fn parsed_u32(text: Seq<char>) -> Option<u32> {
    let digits = without_sign(text);
    if digits.len() > 0 && all_digits(digits) && decimal_value(digits) <= u32::MAX {
        Some(decimal_value(digits) as u32)
    } else {
        None
    }
}

/// The value of the first digits of a number is at most that of the number.
pub proof fn lemma_prefix_value(digits: Seq<char>, count: int)
    requires
        0 <= count <= digits.len(),
    ensures
        decimal_value(digits.take(count)) <= decimal_value(digits),
    decreases digits.len(),
{
    if count == digits.len() {
        assert(digits.take(count) =~= digits);
    } else {
        lemma_prefix_value(digits.drop_last(), count);
        assert(digits.drop_last().take(count) =~= digits.take(count));
    }
}

/// Reads `text` as a `u32` in decimal.
pub fn parse_u32(text: &Vec<char>) -> (number: Option<u32>)
    ensures
        number == parsed_u32(text@),
{
    let start: usize = if text.len() > 0 && text[0] == '+' {
        1
    } else {
        0
    };
    let ghost digits = without_sign(text@);
    if start == text.len() {
        return None;
    }
    let mut value: u32 = 0;
    let mut i: usize = start;
    while i < text.len()
        invariant
            start <= i <= text.len(),
            digits == without_sign(text@),
            digits == text@.skip(start as int),
            all_digits(digits.take(i - start)),
            value == decimal_value(digits.take(i - start)),
        decreases text.len() - i,
    {
        let c = text[i];
        let ghost read = digits.take(i - start);
        let ghost more = digits.take(i - start + 1);
        proof {
            assert(digits[i - start] == c);
            assert(more.drop_last() =~= read);
            assert(more.last() == c);
            lemma_prefix_value(digits, i - start + 1);
            assert(decimal_value(more) == decimal_value(read) * 10 + digit_value(c));
        }
        if !('0' <= c && c <= '9') {
            assert(!is_digit(digits[i - start]));
            return None;
        }
        let wide: u64 = value as u64 * 10 + (c as u32 - '0' as u32) as u64;
        if wide > u32::MAX as u64 {
            return None;
        }
        value = wide as u32;
        i += 1;
    }
    proof {
        assert(digits.take(i - start) =~= digits);
    }
    Some(value)
}

/// The decimal digit that stands for a number below ten.
pub open spec fn digit_char(digit: nat) -> char {
    ('0' as u8 + digit as u8) as char
}

/// A number written in decimal, the most significant digit first, without
/// leading zeros.
pub open spec fn decimal_digits(number: nat) -> Seq<char>
    decreases number,
{
    if number < 10 {
        seq![digit_char(number)]
    } else {
        decimal_digits(number / 10).push(digit_char(number % 10))
    }
}

/// `String::push` appends one character to the end of the string.
pub assume_specification[ String::push ](text: &mut String, c: char)
    ensures
        final(text)@ == old(text)@.push(c),
;

/// Appends `number` to `text`, written in decimal.
pub fn push_decimal(text: &mut String, number: u128)
    ensures
        final(text)@ == old(text)@ + decimal_digits(number as nat),
    decreases number,
{
    if number >= 10 {
        push_decimal(text, number / 10);
    }
    let digit = (number % 10) as u8;
    text.push((48u8 + digit) as char);
    proof {
        assert('0' as u8 == 48u8);
        assert(final(text)@ =~= old(text)@ + decimal_digits(number as nat));
    }
}

/// `number` written in decimal.
pub fn decimal_text(number: u128) -> (text: String)
    ensures
        text@ == decimal_digits(number as nat),
{
    let mut text = String::new();
    push_decimal(&mut text, number);
    assert(text@ =~= decimal_digits(number as nat));
    text
}

/// Writing a number in decimal yields digits only, and reading them gives
/// the number back.
pub proof fn lemma_decimal_round_trip(number: nat)
    ensures
        decimal_digits(number).len() > 0,
        all_digits(decimal_digits(number)),
        decimal_value(decimal_digits(number)) == number,
    decreases number,
{
    if number < 10 {
        let digits = decimal_digits(number);
        assert(digits.drop_last() =~= Seq::<char>::empty());
        assert(decimal_value(digits.drop_last()) == 0);
    } else {
        lemma_decimal_round_trip(number / 10);
        let digits = decimal_digits(number);
        assert(digits.drop_last() =~= decimal_digits(number / 10));
    }
}

} // verus!
