//! Reading numbers and fields out of text.

use vstd::prelude::*;

verus! {

/// The characters of `text`, one by one.
pub fn chars_of(text: &str) -> (chars: Vec<char>)
    ensures
        chars@ == text@,
{
    let mut chars: Vec<char> = Vec::new();
    for c in it: text.chars()
        invariant
            chars@ == it.seq().take(it.index()),
            it.seq() == text@,
    {
        chars.push(c);
    }
    chars
}

/// The characters of `text` from `start` up to, not including, `end`.
pub fn part_of(text: &Vec<char>, start: usize, end: usize) -> (part: Vec<char>)
    requires
        start <= end <= text.len(),
    ensures
        part@ == text@.subrange(start as int, end as int),
{
    let mut part: Vec<char> = Vec::new();
    let mut index = start;
    while index < end
        invariant
            start <= index <= end <= text.len(),
            part@ == text@.subrange(start as int, index as int),
        decreases end - index,
    {
        part.push(text[index]);
        index += 1;
    }
    part
}

/// What `c` is worth as a digit in `radix`: `0` to `9` are worth 0 to 9, and
/// the letters, small or capital, are worth 10 to 35. A character that is
/// worth `radix` or more, or nothing, is no digit.
pub open spec fn digit_value(c: char, radix: u32) -> Option<u32> {
    let code = c as u32;
    let worth: int = if 48 <= code <= 57 {
        code - 48
    } else if 97 <= code <= 122 {
        code - 97 + 10
    } else if 65 <= code <= 90 {
        code - 65 + 10
    } else {
        radix as int
    };
    if worth < radix {
        Some(worth as u32)
    } else {
        None
    }
}

/// Whether every character of `digits` is a digit in `radix`.
pub open spec fn all_digits(digits: Seq<char>, radix: u32) -> bool {
    forall|index: int| 0 <= index < digits.len() ==> digit_value(#[trigger] digits[index], radix) is Some
}

/// The number that `digits` spell in `radix`, the most significant digit first.
pub open spec fn digits_value(digits: Seq<char>, radix: u32) -> int
    decreases digits.len(),
{
    if digits.len() == 0 {
        0
    } else {
        digits_value(digits.drop_last(), radix) * radix + match digit_value(
            digits.last(),
            radix,
        ) {
            Some(worth) => worth as int,
            None => 0,
        }
    }
}

/// The number that `text` spells in `radix`: one `+` may come first, at
/// least one digit must follow, nothing but digits may, and the number must
/// fit in 64 bits.
pub open spec fn parse_u64(text: Seq<char>, radix: u32) -> Option<u64> {
    let digits = if text.len() > 0 && text[0] == '+' {
        text.skip(1)
    } else {
        text
    };
    if digits.len() > 0 && all_digits(digits, radix) && digits_value(digits, radix) <= u64::MAX {
        Some(digits_value(digits, radix) as u64)
    } else {
        None
    }
}

/// The number that digits spell is not negative, and no prefix of digits
/// spells a greater number than the whole.
pub proof fn lemma_digits_value_grows(digits: Seq<char>, radix: u32, length: int)
    requires
        radix >= 1,
        0 <= length <= digits.len(),
    ensures
        0 <= digits_value(digits.take(length), radix) <= digits_value(digits, radix),
    decreases digits.len(),
{
    if digits.len() == 0 || length == digits.len() {
        assert(digits.take(length) =~= digits);
    }
    if digits.len() > 0 {
        let front = digits.drop_last();
        lemma_digits_value_grows(front, radix, front.len() as int);
        assert(front.take(front.len() as int) =~= front);
        let high = digits_value(front, radix);
        assert(high * radix >= high) by (nonlinear_arith)
            requires
                high >= 0,
                radix >= 1,
        ;
        if length < digits.len() {
            lemma_digits_value_grows(front, radix, length);
            assert(front.take(length) =~= digits.take(length));
        }
    }
}

/// What `c` is worth as a digit in `radix`, if it is one.
pub fn digit_of(c: char, radix: u32) -> (digit: Option<u32>)
    ensures
        digit == digit_value(c, radix),
{
    let code: u32 = c as u32;
    if 48 <= code && code <= 57 {
        let worth: u32 = code - 48;
        if worth < radix {
            Some(worth)
        } else {
            None
        }
    } else if 97 <= code && code <= 122 {
        let worth: u32 = code - 97 + 10;
        if worth < radix {
            Some(worth)
        } else {
            None
        }
    } else if 65 <= code && code <= 90 {
        let worth: u32 = code - 65 + 10;
        if worth < radix {
            Some(worth)
        } else {
            None
        }
    } else {
        None
    }
}

/// Reads `text` as a number in `radix`.
pub fn parse_number(text: &Vec<char>, radix: u32) -> (number: Option<u64>)
    ensures
        number == parse_u64(text@, radix),
{
    let length = text.len();
    let first: usize = if length > 0 && text[0] == '+' {
        1
    } else {
        0
    };
    if first == length {
        return None;
    }
    let ghost digits = if text@.len() > 0 && text@[0] == '+' {
        text@.skip(1)
    } else {
        text@
    };
    proof {
        assert(digits =~= text@.skip(first as int));
        assert(digits.take(0) =~= Seq::<char>::empty());
    }
    let mut value: u64 = 0;
    let mut index: usize = first;
    while index < length
        invariant
            first <= index <= length,
            length == text.len(),
            digits == text@.skip(first as int),
            digits == if text@.len() > 0 && text@[0] == '+' {
                text@.skip(1)
            } else {
                text@
            },
            all_digits(digits.take(index - first), radix),
            value == digits_value(digits.take(index - first), radix),
        decreases length - index,
    {
        let ghost seen = digits.take(index - first);
        let ghost more = digits.take(index - first + 1);
        proof {
            assert(more.drop_last() =~= seen);
            assert(more.last() == text[index as int]);
        }
        let digit = match digit_of(text[index], radix) {
            Some(digit) => digit,
            None => {
                proof {
                    assert(digit_value(digits[index - first], radix) is None);
                }
                return None;
            },
        };
        proof {
            lemma_digits_value_grows(digits, radix, index - first + 1);
            assert(digits_value(more, radix) == value * radix + digit);
            assert(value * radix >= 0) by (nonlinear_arith)
                requires
                    value >= 0,
                    radix >= 0,
            ;
        }
        let shifted = match value.checked_mul(radix as u64) {
            Some(shifted) => shifted,
            None => {
                return None;
            },
        };
        let next = match shifted.checked_add(digit as u64) {
            Some(next) => next,
            None => {
                return None;
            },
        };
        proof {
            assert forall|at: int| 0 <= at < more.len() implies digit_value(
                #[trigger] more[at],
                radix,
            ) is Some by {
                if at < seen.len() {
                    assert(more[at] == seen[at]);
                }
            }
        }
        value = next;
        index += 1;
    }
    proof {
        assert(digits.take(length - first) =~= digits);
    }
    Some(value)
}

/// The index of the first `stop` in `text` at or after `from`, or the
/// length of `text` if there is none.
pub open spec fn find(text: Seq<char>, stop: char, from: int) -> int
    decreases text.len() - from,
{
    if from < 0 || from >= text.len() {
        text.len() as int
    } else if text[from] == stop {
        from
    } else {
        find(text, stop, from + 1)
    }
}

/// The index of the first character of `text` at or after `from` that is no
/// space, or the length of `text` if only spaces are left.
pub open spec fn skip_spaces(text: Seq<char>, from: int) -> int
    decreases text.len() - from,
{
    if from < 0 || from >= text.len() {
        text.len() as int
    } else if text[from] != ' ' {
        from
    } else {
        skip_spaces(text, from + 1)
    }
}

/// Where a search that begins inside the text ends: at or after its start,
/// on the first `stop` if there is one, and at the length of the text if not.
pub proof fn lemma_find(text: Seq<char>, stop: char, from: int)
    requires
        0 <= from <= text.len(),
    ensures
        from <= find(text, stop, from) <= text.len(),
        find(text, stop, from) < text.len() ==> text[find(text, stop, from)] == stop,
        forall|index: int| from <= index < find(text, stop, from) ==> text[index] != stop,
    decreases text.len() - from,
{
    if from < text.len() && text[from] != stop {
        lemma_find(text, stop, from + 1);
    }
}

/// Where skipping spaces ends: at or after its start, on the first
/// character that is no space if there is one.
pub proof fn lemma_skip_spaces(text: Seq<char>, from: int)
    requires
        0 <= from <= text.len(),
    ensures
        from <= skip_spaces(text, from) <= text.len(),
        skip_spaces(text, from) < text.len() ==> text[skip_spaces(text, from)] != ' ',
        forall|index: int| from <= index < skip_spaces(text, from) ==> text[index] == ' ',
    decreases text.len() - from,
{
    if from < text.len() && text[from] == ' ' {
        lemma_skip_spaces(text, from + 1);
    }
}

/// Where the field with this number begins in `text`, counting from 0: the
/// fields are the runs of characters that hold no space, and any number of
/// spaces may stand before, between and after them. The length of `text`
/// says that there is no such field.
pub open spec fn field_start(text: Seq<char>, number: nat) -> int
    decreases number,
{
    if number == 0 {
        skip_spaces(text, 0)
    } else {
        skip_spaces(text, find(text, ' ', field_start(text, (number - 1) as nat)))
    }
}

/// Where the field with this number ends in `text`.
pub open spec fn field_end(text: Seq<char>, number: nat) -> int {
    find(text, ' ', field_start(text, number))
}

/// The field with this number, if `text` has that many.
pub open spec fn field(text: Seq<char>, number: nat) -> Option<Seq<char>> {
    if 0 <= field_start(text, number) < text.len() {
        Some(text.subrange(field_start(text, number), field_end(text, number)))
    } else {
        None
    }
}

/// A field lies inside the text, and a field that is there is not empty.
pub proof fn lemma_field_bounds(text: Seq<char>, number: nat)
    ensures
        0 <= field_start(text, number) <= field_end(text, number) <= text.len(),
        field_start(text, number) < text.len() ==> field_start(text, number) < field_end(
            text,
            number,
        ),
    decreases number,
{
    if number == 0 {
        lemma_skip_spaces(text, 0);
    } else {
        lemma_field_bounds(text, (number - 1) as nat);
        lemma_skip_spaces(text, field_end(text, (number - 1) as nat));
    }
    lemma_find(text, ' ', field_start(text, number));
}

/// Finds the first `stop` in `text` at or after `from`.
pub fn find_char(text: &Vec<char>, stop: char, from: usize) -> (index: usize)
    requires
        from <= text.len(),
    ensures
        index == find(text@, stop, from as int),
        from <= index <= text.len(),
{
    let mut index = from;
    while index < text.len() && text[index] != stop
        invariant
            from <= index <= text.len(),
            find(text@, stop, from as int) == find(text@, stop, index as int),
        decreases text.len() - index,
    {
        index += 1;
    }
    index
}

/// Finds the first character of `text` at or after `from` that is no space.
pub fn skip_space_chars(text: &Vec<char>, from: usize) -> (index: usize)
    requires
        from <= text.len(),
    ensures
        index == skip_spaces(text@, from as int),
        from <= index <= text.len(),
{
    let mut index = from;
    while index < text.len() && text[index] == ' '
        invariant
            from <= index <= text.len(),
            skip_spaces(text@, from as int) == skip_spaces(text@, index as int),
        decreases text.len() - index,
    {
        index += 1;
    }
    index
}

} // verus!
