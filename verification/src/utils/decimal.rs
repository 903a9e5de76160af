//! Whole numbers as decimal text.

use vstd::prelude::*;

verus! {

/// The character of a decimal digit.
pub open spec fn digit_char(digit: int) -> char {
    if digit == 0 {
        '0'
    } else if digit == 1 {
        '1'
    } else if digit == 2 {
        '2'
    } else if digit == 3 {
        '3'
    } else if digit == 4 {
        '4'
    } else if digit == 5 {
        '5'
    } else if digit == 6 {
        '6'
    } else if digit == 7 {
        '7'
    } else if digit == 8 {
        '8'
    } else {
        '9'
    }
}

/// The digit that a character stands for, or `None` for any other character.
pub open spec fn digit_of(character: char) -> Option<int> {
    if character == '0' {
        Some(0)
    } else if character == '1' {
        Some(1)
    } else if character == '2' {
        Some(2)
    } else if character == '3' {
        Some(3)
    } else if character == '4' {
        Some(4)
    } else if character == '5' {
        Some(5)
    } else if character == '6' {
        Some(6)
    } else if character == '7' {
        Some(7)
    } else if character == '8' {
        Some(8)
    } else if character == '9' {
        Some(9)
    } else {
        None
    }
}

/// The digits of a natural number, the most significant first, with no
/// leading zero.
pub open spec fn digits(number: nat) -> Seq<char>
    decreases number,
{
    if number < 10 {
        seq![digit_char(number as int)]
    } else {
        digits(number / 10).push(digit_char((number % 10) as int))
    }
}

/// The decimal text of a whole number: a minus sign before the digits of a
/// negative one.
pub open spec fn decimal_text(number: int) -> Seq<char> {
    if number < 0 {
        seq!['-'] + digits((-number) as nat)
    } else {
        digits(number as nat)
    }
}

/// Every character is a digit, and there is one at least.
pub open spec fn is_digits(text: Seq<char>) -> bool {
    text.len() > 0 && forall|i: int| 0 <= i < text.len() ==> digit_of(#[trigger] text[i]) is Some
}

/// The number that a text of digits stands for.
pub open spec fn digits_value(text: Seq<char>) -> int
    decreases text.len(),
{
    if text.len() == 0 {
        0
    } else {
        digits_value(text.drop_last()) * 10 + digit_of(text.last())->0
    }
}

/// Digits with no leading zero, but for the single digit `0`.
pub open spec fn is_canonical(text: Seq<char>) -> bool {
    is_digits(text) && (text.len() == 1 || text[0] != '0')
}

/// The whole number that a decimal text stands for, where it fits in 64 bits
/// with a sign: canonical digits, or a minus sign before canonical digits that
/// are not `0`. Any other text stands for no number.
pub open spec fn parsed_decimal(text: Seq<char>) -> Option<i64> {
    if is_canonical(text) {
        if digits_value(text) <= i64::MAX {
            Some(digits_value(text) as i64)
        } else {
            None
        }
    } else if text.len() > 0 && text[0] == '-' && is_canonical(text.drop_first()) && 0
        < digits_value(text.drop_first()) <= -(i64::MIN as int) {
        Some((-digits_value(text.drop_first())) as i64)
    } else {
        None
    }
}

/// The digits of a number are canonical and stand for the number.
pub proof fn digits_stand_for_the_number(number: nat)
    ensures
        is_canonical(digits(number)),
        digits_value(digits(number)) == number,
        number == 0 <==> digits(number) == seq!['0'],
    decreases number,
{
    if number < 10 {
        let text = digits(number);
        assert(text.drop_last() == Seq::<char>::empty());
        assert(digits_value(text.drop_last()) == 0);
        assert(text.last() == digit_char(number as int));
        assert(text[0] == digit_char(number as int));
    } else {
        digits_stand_for_the_number(number / 10);
        let text = digits(number);
        let front = digits(number / 10);
        assert(text.drop_last() == front);
        assert(text.last() == digit_char((number % 10) as int));
        assert forall|i: int| 0 <= i < text.len() implies digit_of(#[trigger] text[i]) is Some by {
            if i < front.len() {
                assert(text[i] == front[i]);
            }
        }
        assert(text[0] == front[0]);
        assert(front != seq!['0']);
        if front.len() == 1 {
            assert(front == seq![front[0]]);
        }
        assert(text.len() >= 2);
        assert(text[1] == if front.len() > 1 {
            front[1]
        } else {
            text.last()
        });
    }
}

/// A text of digits stands for at least what any of its beginnings stands
/// for.
pub proof fn a_beginning_stands_for_no_more(text: Seq<char>, length: int)
    requires
        is_digits(text),
        0 <= length <= text.len(),
    ensures
        0 <= digits_value(text.take(length)) <= digits_value(text),
    decreases text.len() - length,
{
    if length == text.len() {
        assert(text.take(length) == text);
        nonnegative_value(text);
    } else {
        a_beginning_stands_for_no_more(text, length + 1);
        let longer = text.take(length + 1);
        assert(longer.drop_last() == text.take(length));
        assert(longer.last() == text[length]);
        nonnegative_value(text.take(length));
    }
}

proof fn nonnegative_value(text: Seq<char>)
    requires
        forall|i: int| 0 <= i < text.len() ==> digit_of(#[trigger] text[i]) is Some,
    ensures
        0 <= digits_value(text),
    decreases text.len(),
{
    if text.len() > 0 {
        let front = text.drop_last();
        assert forall|i: int| 0 <= i < front.len() implies digit_of(#[trigger] front[i]) is Some by {
            assert(front[i] == text[i]);
        }
        nonnegative_value(front);
        assert(digit_of(text[text.len() - 1]) is Some);
    }
}

/// Text written and read back gives the number again.
pub proof fn decimal_text_reads_back(number: i64)
    ensures
        parsed_decimal(decimal_text(number as int)) == Some(number),
{
    if number < 0 {
        let magnitude = (-(number as int)) as nat;
        digits_stand_for_the_number(magnitude);
        let text = decimal_text(number as int);
        assert(text.drop_first() == digits(magnitude));
        assert(text[0] == '-');
        assert(digit_of('-') is None);
        assert(!is_digits(text));
    } else {
        digits_stand_for_the_number(number as nat);
    }
}

/// The text of one digit.
fn digit_text(digit: u8) -> (r: &'static str)
    requires
        digit < 10,
    ensures
        r@ == seq![digit_char(digit as int)],
{
    proof {
        reveal_strlit("0");
        reveal_strlit("1");
        reveal_strlit("2");
        reveal_strlit("3");
        reveal_strlit("4");
        reveal_strlit("5");
        reveal_strlit("6");
        reveal_strlit("7");
        reveal_strlit("8");
        reveal_strlit("9");
    }
    let text = match digit {
        0 => "0",
        1 => "1",
        2 => "2",
        3 => "3",
        4 => "4",
        5 => "5",
        6 => "6",
        7 => "7",
        8 => "8",
        _ => "9",
    };
    assert(text@ =~= seq![digit_char(digit as int)]);
    text
}

/// Appends the digits of `number` to `text`.
fn append_digits(text: &mut String, number: u64)
    ensures
        final(text)@ == old(text)@ + digits(number as nat),
    decreases number,
{
    if number >= 10 {
        append_digits(text, number / 10);
    }
    text.append(digit_text((number % 10) as u8));
    assert(seq![digit_char((number % 10) as int)] == Seq::<char>::empty().push(
        digit_char((number % 10) as int),
    ));
}

/// Writes a whole number as decimal text.
pub fn to_decimal(number: i64) -> (r: String)
    ensures
        r@ == decimal_text(number as int),
{
    let mut text = String::new();
    if number < 0 {
        proof {
            reveal_strlit("-");
        }
        text.append("-");
        assert(text@ =~= seq!['-']);
        let magnitude: u64 = if number == i64::MIN {
            0x8000_0000_0000_0000
        } else {
            (-number) as u64
        };
        append_digits(&mut text, magnitude);
    } else {
        append_digits(&mut text, number as u64);
    }
    text
}

/// The digit that a character stands for.
fn digit_value(character: char) -> (r: Option<u8>)
    ensures
        match r {
            Some(digit) => digit_of(character) == Some(digit as int) && digit < 10,
            None => digit_of(character) is None,
        },
{
    match character {
        '0' => Some(0),
        '1' => Some(1),
        '2' => Some(2),
        '3' => Some(3),
        '4' => Some(4),
        '5' => Some(5),
        '6' => Some(6),
        '7' => Some(7),
        '8' => Some(8),
        '9' => Some(9),
        _ => None,
    }
}

/// Reads the digits of `text` from `from` on: the number they stand for where
/// they are canonical and stand for at most `limit`.
fn read_digits(text: &str, from: usize, limit: u64) -> (r: Option<u64>)
    requires
        from <= text@.len(),
        limit <= 0x8000_0000_0000_0000,
    ensures
        match r {
            Some(value) => is_canonical(text@.skip(from as int)) && value == digits_value(
                text@.skip(from as int),
            ) && value <= limit,
            None => !is_canonical(text@.skip(from as int)) || digits_value(
                text@.skip(from as int),
            ) > limit,
        },
{
    let length = text.unicode_len();
    let ghost rest = text@.skip(from as int);
    if from >= length {
        return None;
    }
    if length - from > 1 && text.get_char(from) == '0' {
        assert(rest[0] == '0');
        return None;
    }
    let mut value: u64 = 0;
    let mut index = from;
    assert(rest.take(0) == Seq::<char>::empty());
    while index < length
        invariant
            from <= index <= length == text@.len(),
            rest == text@.skip(from as int),
            limit <= 0x8000_0000_0000_0000,
            value == digits_value(rest.take(index - from)),
            value <= limit,
            forall|i: int| 0 <= i < index - from ==> digit_of(#[trigger] rest[i]) is Some,
        decreases length - index,
    {
        let character = text.get_char(index);
        assert(rest[index - from] == character);
        let digit = match digit_value(character) {
            Some(digit) => digit,
            None => {
                return None;
            },
        };
        proof {
            let longer = rest.take(index - from + 1);
            assert(longer.drop_last() == rest.take(index - from));
            assert(longer.last() == character);
        }
        let next = value as u128 * 10 + digit as u128;
        if next > limit as u128 {
            proof {
                if is_digits(rest) {
                    a_beginning_stands_for_no_more(rest, index - from + 1);
                }
            }
            return None;
        }
        value = next as u64;
        index = index + 1;
    }
    assert(rest.take(index - from) == rest);
    Some(value)
}

/// Reads a whole number from decimal text.
pub fn parse_decimal(text: &str) -> (r: Option<i64>)
    ensures
        r == parsed_decimal(text@),
{
    let length = text.unicode_len();
    assert(text@.skip(0) == text@);
    if length > 0 && text.get_char(0) == '-' {
        assert(digit_of('-') is None);
        assert(!is_digits(text@));
        assert(text@.skip(1) == text@.drop_first());
        match read_digits(text, 1, 0x8000_0000_0000_0000) {
            Some(magnitude) => if magnitude == 0 {
                None
            } else if magnitude == 0x8000_0000_0000_0000 {
                Some(i64::MIN)
            } else {
                Some(-(magnitude as i64))
            },
            None => None,
        }
    } else {
        match read_digits(text, 0, 0x7fff_ffff_ffff_ffff) {
            Some(value) => Some(value as i64),
            None => None,
        }
    }
}

} // verus!
