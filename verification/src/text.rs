//! Texts: splitting at separators, reading and writing decimal numbers.

use vstd::prelude::*;
use vstd::string::*;

verus! {

/// The position of the first `separator` in `text`, or the length of `text` if there is
/// none.
pub open spec fn first_separator(text: Seq<char>, separator: char) -> int
    decreases text.len(),
{
    if text.len() == 0 || text[0] == separator {
        0
    } else {
        1 + first_separator(text.drop_first(), separator)
    }
}

/// The parts of `text` between its separators, in order. A text without separator is its
/// own single part; two separators in a row enclose an empty part.
pub open spec fn split(text: Seq<char>, separator: char) -> Seq<Seq<char>>
    decreases text.len(),
{
    let n = first_separator(text, separator);
    if n < 0 || n >= text.len() {
        seq![text]
    } else {
        seq![text.take(n)] + split(text.skip(n + 1), separator)
    }
}

/// The first separator lies at `k` if no character before `k` is one and `k` is the end of
/// the text or holds one.
pub proof fn lemma_first_separator(text: Seq<char>, separator: char, k: int)
    requires
        0 <= k <= text.len(),
        forall|j: int| 0 <= j < k ==> text[j] != separator,
        k == text.len() || text[k] == separator,
    ensures
        first_separator(text, separator) == k,
    decreases k,
{
    if k > 0 {
        let rest = text.drop_first();
        assert forall|j: int| 0 <= j < k - 1 implies rest[j] != separator by {
            assert(rest[j] == text[j + 1]);
        }
        lemma_first_separator(rest, separator, k - 1);
    }
}

/// The texts of a list of strings.
pub open spec fn texts(strings: Seq<String>) -> Seq<Seq<char>> {
    strings.map_values(|s: String| s@)
}

/// Returns the parts of `text` between its separators.
pub fn split_text(text: &str, separator: char) -> (parts: Vec<String>)
    ensures
        texts(parts@) == split(text@, separator),
        parts@.len() >= 1,
{
    let length = text.unicode_len();
    let mut parts: Vec<String> = Vec::new();
    let mut start: usize = 0;
    let mut i: usize = 0;
    proof {
        assert(text@.skip(0) =~= text@);
        assert(texts(parts@) + split(text@.skip(0), separator) =~= split(text@, separator));
    }
    while i < length
        invariant
            length == text@.len(),
            start <= i <= length,
            forall|j: int| start <= j < i ==> text@[j] != separator,
            texts(parts@) + split(text@.skip(start as int), separator) == split(text@, separator),
        decreases length - i,
    {
        let c = text.get_char(i);
        if c == separator {
            let part = String::from_str(text.substring_char(start, i));
            proof {
                let rest = text@.skip(start as int);
                assert forall|j: int| 0 <= j < i - start implies rest[j] != separator by {
                    assert(rest[j] == text@[start + j]);
                }
                assert(rest[i - start] == text@[i as int]);
                lemma_first_separator(rest, separator, i - start);
                assert(rest.take(i - start) =~= text@.subrange(start as int, i as int));
                assert(rest.skip(i - start + 1) =~= text@.skip(i + 1));
                assert(split(rest, separator) == seq![part@] + split(
                    text@.skip(i + 1),
                    separator,
                ));
                assert(texts(parts@.push(part)) =~= texts(parts@) + seq![part@]);
                assert(texts(parts@.push(part)) + split(text@.skip(i + 1), separator) =~= texts(
                    parts@,
                ) + split(rest, separator));
            }
            parts.push(part);
            start = i + 1;
        }
        i = i + 1;
    }
    let part = String::from_str(text.substring_char(start, length));
    proof {
        let rest = text@.skip(start as int);
        assert forall|j: int| 0 <= j < length - start implies rest[j] != separator by {
            assert(rest[j] == text@[start + j]);
        }
        lemma_first_separator(rest, separator, length - start);
        assert(rest =~= text@.subrange(start as int, length as int));
        assert(split(rest, separator) == seq![part@]);
        assert(texts(parts@.push(part)) =~= texts(parts@) + seq![part@]);
    }
    parts.push(part);
    parts
}

/// The value of a decimal digit.
pub open spec fn digit_value(c: char) -> int {
    c as int - '0' as int
}

/// The character is a decimal digit.
pub open spec fn is_digit(c: char) -> bool {
    '0' <= c <= '9'
}

/// The number that the digits stand for.
pub open spec fn digits_value(digits: Seq<char>) -> int
    decreases digits.len(),
{
    if digits.len() == 0 {
        0
    } else {
        10 * digits_value(digits.drop_last()) + digit_value(digits.last())
    }
}

/// All characters are decimal digits.
pub open spec fn all_digits(text: Seq<char>) -> bool {
    forall|i: int| 0 <= i < text.len() ==> is_digit(#[trigger] text[i])
}

/// The digits of a number text: the text without a leading plus sign.
pub open spec fn digits_of(text: Seq<char>) -> Seq<char> {
    if text.len() > 0 && text[0] == '+' {
        text.drop_first()
    } else {
        text
    }
}

/// The number that a text stands for: the text consists of decimal digits, at least one,
/// after at most one plus sign, and the number fits into 32 bits.
pub open spec fn number_of(text: Seq<char>) -> Option<u32> {
    let digits = digits_of(text);
    if digits.len() > 0 && all_digits(digits) && digits_value(digits) <= u32::MAX {
        Some(digits_value(digits) as u32)
    } else {
        None
    }
}

/// The value of digits does not shrink when a digit is added.
pub proof fn lemma_digits_value_grows(digits: Seq<char>, count: int)
    requires
        all_digits(digits),
        0 <= count <= digits.len(),
    ensures
        0 <= digits_value(digits.take(count)) <= digits_value(digits),
    decreases digits.len() - count,
{
    if count < digits.len() {
        lemma_digits_value_grows(digits, count + 1);
        let longer = digits.take(count + 1);
        assert(longer.drop_last() =~= digits.take(count));
        assert(longer.last() == digits[count]);
        lemma_digits_value_not_negative(digits.take(count));
    } else {
        assert(digits.take(count) =~= digits);
        lemma_digits_value_not_negative(digits);
    }
}

/// The value of digits is not negative.
pub proof fn lemma_digits_value_not_negative(digits: Seq<char>)
    requires
        all_digits(digits),
    ensures
        0 <= digits_value(digits),
    decreases digits.len(),
{
    if digits.len() > 0 {
        assert forall|i: int| 0 <= i < digits.drop_last().len() implies is_digit(
            #[trigger] digits.drop_last()[i],
        ) by {
            assert(digits.drop_last()[i] == digits[i]);
        }
        lemma_digits_value_not_negative(digits.drop_last());
    }
}

/// Reads a number as `u32::from_str` of std reads it.
pub fn parse_u32(text: &str) -> (number: Option<u32>)
    ensures
        number == number_of(text@),
{
    let length = text.unicode_len();
    let start: usize = if length > 0 && text.get_char(0) == '+' {
        1
    } else {
        0
    };
    let ghost digits = digits_of(text@);
    proof {
        assert(digits =~= text@.skip(start as int));
    }
    if start == length {
        return None;
    }
    let mut value: u64 = 0;
    let mut i: usize = start;
    proof {
        assert(digits.take(0) =~= Seq::<char>::empty());
    }
    while i < length
        invariant
            start <= i <= length,
            length == text@.len(),
            digits == text@.skip(start as int),
            digits == digits_of(text@),
            all_digits(digits.take(i - start)),
            value == digits_value(digits.take(i - start)),
            value <= u32::MAX,
        decreases length - i,
    {
        let c = text.get_char(i);
        if c < '0' || c > '9' {
            proof {
                assert(digits[i - start] == c);
                assert(!all_digits(digits));
            }
            return None;
        }
        let digit: u64 = (c as u64) - ('0' as u64);
        let next: u64 = value * 10 + digit;
        proof {
            let longer = digits.take(i - start + 1);
            assert(longer.drop_last() =~= digits.take(i - start));
            assert(longer.last() == c);
            assert(next == digits_value(longer));
            assert forall|k: int| 0 <= k < longer.len() implies is_digit(#[trigger] longer[k]) by {
                if k < i - start {
                    assert(digits.take(i - start)[k] == longer[k]);
                }
            }
        }
        if next > u32::MAX as u64 {
            proof {
                if all_digits(digits) {
                    lemma_digits_value_grows(digits, i - start + 1);
                }
            }
            return None;
        }
        value = next;
        i = i + 1;
    }
    proof {
        assert(digits.take(length - start) =~= digits);
    }
    Some(value as u32)
}

/// The two parts of a text around its first `separator`, if it has one.
pub open spec fn split_once(text: Seq<char>, separator: char) -> Option<(Seq<char>, Seq<char>)> {
    let n = first_separator(text, separator);
    if 0 <= n < text.len() {
        Some((text.take(n), text.skip(n + 1)))
    } else {
        None
    }
}

/// Returns the two parts of `text` around its first `separator`, if it has one.
pub fn split_text_once<'a>(text: &'a str, separator: char) -> (parts: Option<(&'a str, &'a str)>)
    ensures
        parts.is_some() == split_once(text@, separator).is_some(),
        parts matches Some(p) ==> Some((p.0@, p.1@)) == split_once(text@, separator),
{
    let length = text.unicode_len();
    let mut i: usize = 0;
    while i < length
        invariant
            i <= length,
            length == text@.len(),
            forall|j: int| 0 <= j < i ==> text@[j] != separator,
        decreases length - i,
    {
        if text.get_char(i) == separator {
            proof {
                lemma_first_separator(text@, separator, i as int);
                assert(text@.take(i as int) =~= text@.subrange(0, i as int));
                assert(text@.skip(i + 1) =~= text@.subrange(i + 1, length as int));
            }
            return Some((text.substring_char(0, i), text.substring_char(i + 1, length)));
        }
        i = i + 1;
    }
    proof {
        lemma_first_separator(text@, separator, length as int);
    }
    None
}

/// The character of a decimal digit.
pub open spec fn digit_char(digit: int) -> char {
    if digit == 0 {
        '0'
    } else if digit == 1 {
        '1'
    } else if digit == 2 {
        '2'
    } else if digit == 3 {
        '3'
    } else if digit == 4 {
        '4'
    } else if digit == 5 {
        '5'
    } else if digit == 6 {
        '6'
    } else if digit == 7 {
        '7'
    } else if digit == 8 {
        '8'
    } else {
        '9'
    }
}

/// The decimal digits of a number, without leading zeros.
pub open spec fn decimal_text(number: nat) -> Seq<char>
    decreases number,
{
    if number < 10 {
        seq![digit_char(number as int)]
    } else {
        decimal_text(number / 10).push(digit_char((number % 10) as int))
    }
}

fn digit_text(digit: u64) -> (text: &'static str)
    requires
        digit < 10,
    ensures
        text@ == seq![digit_char(digit as int)],
{
    proof {
        reveal_strlit("0");
        reveal_strlit("1");
        reveal_strlit("2");
        reveal_strlit("3");
        reveal_strlit("4");
        reveal_strlit("5");
        reveal_strlit("6");
        reveal_strlit("7");
        reveal_strlit("8");
        reveal_strlit("9");
    }
    let text = if digit == 0 {
        "0"
    } else if digit == 1 {
        "1"
    } else if digit == 2 {
        "2"
    } else if digit == 3 {
        "3"
    } else if digit == 4 {
        "4"
    } else if digit == 5 {
        "5"
    } else if digit == 6 {
        "6"
    } else if digit == 7 {
        "7"
    } else if digit == 8 {
        "8"
    } else {
        "9"
    };
    assert(text@ =~= seq![digit_char(digit as int)]);
    text
}

/// Returns the decimal digits of a number.
pub fn decimal(number: u64) -> (text: String)
    ensures
        text@ == decimal_text(number as nat),
    decreases number,
{
    if number < 10 {
        String::from_str(digit_text(number))
    } else {
        let mut text = decimal(number / 10);
        text.append(digit_text(number % 10));
        assert(text@ =~= decimal_text(number as nat));
        text
    }
}

} // verus!
