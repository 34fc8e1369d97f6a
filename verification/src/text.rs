//! Plain text: numbers in decimal notation and the comparison of texts.

use vstd::prelude::*;

verus! {

/// The decimal digit `d`.
pub open spec fn digit_char(d: nat) -> char {
    if d == 0 {
        '0'
    } else if d == 1 {
        '1'
    } else if d == 2 {
        '2'
    } else if d == 3 {
        '3'
    } else if d == 4 {
        '4'
    } else if d == 5 {
        '5'
    } else if d == 6 {
        '6'
    } else if d == 7 {
        '7'
    } else if d == 8 {
        '8'
    } else {
        '9'
    }
}

/// The number `n` in decimal notation, without leading zeros.
pub open spec fn decimal_text(n: nat) -> Seq<char>
    decreases n,
{
    if n < 10 {
        seq![digit_char(n)]
    } else {
        decimal_text(n / 10).push(digit_char(n % 10))
    }
}

/// The text of one decimal digit.
fn digit_text(d: u64) -> (text: &'static str)
    requires
        d < 10,
    ensures
        text@ == seq![digit_char(d as nat)],
{
    proof {
        reveal_strlit("0");
        reveal_strlit("1");
        reveal_strlit("2");
        reveal_strlit("3");
        reveal_strlit("4");
        reveal_strlit("5");
        reveal_strlit("6");
        reveal_strlit("7");
        reveal_strlit("8");
        reveal_strlit("9");
    }
    let text = if d == 0 {
        "0"
    } else if d == 1 {
        "1"
    } else if d == 2 {
        "2"
    } else if d == 3 {
        "3"
    } else if d == 4 {
        "4"
    } else if d == 5 {
        "5"
    } else if d == 6 {
        "6"
    } else if d == 7 {
        "7"
    } else if d == 8 {
        "8"
    } else {
        "9"
    };
    assert(text@ =~= seq![digit_char(d as nat)]);
    text
}

/// The number `n` in decimal notation.
pub fn decimal(n: u64) -> (text: String)
    ensures
        text@ == decimal_text(n as nat),
    decreases n,
{
    if n < 10 {
        digit_text(n).to_string()
    } else {
        let text = decimal(n / 10).concat(digit_text(n % 10));
        assert(text@ =~= decimal_text(n as nat));
        text
    }
}

/// The decimal notation of a number has at least one digit.
pub proof fn lemma_decimal_nonempty(n: nat)
    ensures
        decimal_text(n).len() >= 1,
    decreases n,
{
    if n >= 10 {
        lemma_decimal_nonempty(n / 10);
    }
}

/// Different digits are written differently.
pub proof fn lemma_digit_injective(x: nat, y: nat)
    requires
        x < 10,
        y < 10,
        digit_char(x) == digit_char(y),
    ensures
        x == y,
{
}

/// Different numbers have different decimal notations.
pub proof fn lemma_decimal_injective(a: nat, b: nat)
    requires
        decimal_text(a) == decimal_text(b),
    ensures
        a == b,
    decreases a,
{
    if a < 10 && b < 10 {
        assert(seq![digit_char(a)][0] == digit_char(a));
        assert(seq![digit_char(b)][0] == digit_char(b));
        lemma_digit_injective(a, b);
    } else if a < 10 {
        lemma_decimal_nonempty(b / 10);
        assert(decimal_text(a).len() == 1);
        assert(decimal_text(b).len() == decimal_text(b / 10).len() + 1);
    } else if b < 10 {
        lemma_decimal_nonempty(a / 10);
        assert(decimal_text(b).len() == 1);
        assert(decimal_text(a).len() == decimal_text(a / 10).len() + 1);
    } else {
        let left = decimal_text(a / 10);
        let right = decimal_text(b / 10);
        assert(left =~= decimal_text(a).drop_last());
        assert(right =~= decimal_text(b).drop_last());
        assert(digit_char(a % 10) == decimal_text(a).last());
        assert(digit_char(b % 10) == decimal_text(b).last());
        lemma_decimal_injective(a / 10, b / 10);
        assert(a / 10 == b / 10);
        lemma_digit_injective(a % 10, b % 10);
        assert(a % 10 == b % 10);
        assert(a == 10 * (a / 10) + a % 10);
        assert(b == 10 * (b / 10) + b % 10);
    }
}

/// Whether `a` and `b` are the same text.
pub fn same_text(a: &str, b: &str) -> (same: bool)
    ensures
        same == (a@ == b@),
{
    let left = a.to_owned();
    let right = b.to_owned();
    left == right
}

/// The value of a decimal digit; none for every other character.
pub open spec fn digit_value(c: char) -> Option<nat> {
    if '0' <= c && c <= '9' {
        Some((c as u32 - '0' as u32) as nat)
    } else {
        None
    }
}

/// The number that `digits` denote in decimal notation; none where a
/// character is no digit. No digits at all denote zero.
pub open spec fn digits_value(digits: Seq<char>) -> Option<nat>
    decreases digits.len(),
{
    if digits.len() == 0 {
        Some(0)
    } else {
        match (digits_value(digits.drop_last()), digit_value(digits.last())) {
            (Some(front), Some(last)) => Some(front * 10 + last),
            _ => None,
        }
    }
}

/// The digits of a text that may begin with a plus sign.
pub open spec fn unsigned_digits(text: Seq<char>) -> Seq<char> {
    if text.len() > 0 && text[0] == '+' {
        text.skip(1)
    } else {
        text
    }
}

/// The number that `text` denotes: decimal digits, at least one, after at
/// most one plus sign, of a value that 64 bits can hold. Everything else
/// denotes no number.
pub open spec fn parsed_u64(text: Seq<char>) -> Option<u64> {
    let digits = unsigned_digits(text);
    if digits.len() == 0 {
        None
    } else {
        match digits_value(digits) {
            Some(value) if value <= u64::MAX => Some(value as u64),
            _ => None,
        }
    }
}

/// A text that denotes a number denotes at least what any of its beginnings
/// denotes, and each of its beginnings denotes a number too.
proof fn lemma_digits_value_grows(digits: Seq<char>, length: int)
    requires
        0 <= length <= digits.len(),
        digits_value(digits) is Some,
    ensures
        digits_value(digits.take(length)) is Some,
        digits_value(digits.take(length))->0 <= digits_value(digits)->0,
    decreases digits.len(),
{
    if length == digits.len() {
        assert(digits.take(length) =~= digits);
    } else {
        assert(digits.drop_last().take(length) =~= digits.take(length));
        lemma_digits_value_grows(digits.drop_last(), length);
    }
}

/// A text with a character that is no digit denotes no number, however it
/// goes on.
proof fn lemma_digits_value_fails(digits: Seq<char>, length: int)
    requires
        0 <= length <= digits.len(),
        digits_value(digits.take(length)) is None,
    ensures
        digits_value(digits) is None,
{
    if digits_value(digits) is Some {
        lemma_digits_value_grows(digits, length);
    }
}

/// The decimal notation of a number denotes that number and consists of
/// digits only.
proof fn lemma_decimal_denotes(n: nat)
    ensures
        digits_value(decimal_text(n)) == Some(n),
        decimal_text(n).len() >= 1,
        digit_value(decimal_text(n)[0]) is Some,
    decreases n,
{
    let text = decimal_text(n);
    if n < 10 {
        assert(text.drop_last() =~= Seq::<char>::empty());
        assert(text.last() == digit_char(n));
        assert(digit_value(digit_char(n)) == Some(n));
        assert(digits_value(text.drop_last()) == Some(0nat));
    } else {
        lemma_decimal_denotes(n / 10);
        assert(text.drop_last() =~= decimal_text(n / 10));
        assert(text.last() == digit_char(n % 10));
        assert(digit_value(digit_char(n % 10)) == Some(n % 10));
        assert(text[0] == decimal_text(n / 10)[0]);
        assert(n == (n / 10) * 10 + n % 10);
    }
}

/// Reading what was written gives the number back: every number that 64 bits
/// can hold is what its decimal notation denotes.
pub proof fn law_decimal_round_trip(n: u64)
    ensures
        parsed_u64(decimal_text(n as nat)) == Some(n),
{
    lemma_decimal_denotes(n as nat);
    let text = decimal_text(n as nat);
    assert(text[0] != '+');
    assert(unsigned_digits(text) == text);
}

/// The number that `text` denotes, as the standard library reads an unsigned
/// decimal number.
pub fn parse_u64(text: &str) -> (number: Option<u64>)
    ensures
        number == parsed_u64(text@),
{
    let length = text.unicode_len();
    let start: usize = if length > 0 && text.get_char(0) == '+' {
        1
    } else {
        0
    };
    if start == length {
        return None;
    }
    let ghost digits = unsigned_digits(text@);
    assert(digits =~= text@.skip(start as int));
    let mut value: u64 = 0;
    let mut i: usize = start;
    assert(digits.take(0) =~= Seq::<char>::empty());
    while i < length
        invariant
            length == text@.len(),
            start <= i <= length,
            digits == text@.skip(start as int),
            digits == unsigned_digits(text@),
            digits.len() > 0,
            digits_value(digits.take(i - start)) == Some(value as nat),
        decreases length - i,
    {
        let c = text.get_char(i);
        let ghost prefix = digits.take(i - start);
        let ghost next = digits.take(i - start + 1);
        proof {
            assert(next.drop_last() =~= prefix);
            assert(next.last() == c);
        }
        if !('0' <= c && c <= '9') {
            proof {
                assert(digit_value(c) is None);
                assert(digits_value(next) is None);
                lemma_digits_value_fails(digits, i - start + 1);
            }
            return None;
        }
        let digit = (c as u32 - '0' as u32) as u64;
        proof {
            assert(digit_value(c) == Some(digit as nat));
            assert(digits_value(next) == Some((value * 10 + digit) as nat));
        }
        let scaled = match value.checked_mul(10) {
            Some(scaled) => scaled,
            None => {
                proof {
                    assert(value * 10 > u64::MAX);
                    if digits_value(digits) is Some {
                        lemma_digits_value_grows(digits, i - start + 1);
                    }
                }
                return None;
            },
        };
        value = match scaled.checked_add(digit) {
            Some(sum) => sum,
            None => {
                proof {
                    assert(value * 10 + digit > u64::MAX);
                    if digits_value(digits) is Some {
                        lemma_digits_value_grows(digits, i - start + 1);
                    }
                }
                return None;
            },
        };
        i += 1;
    }
    assert(digits.take(length - start) =~= digits);
    Some(value)
}

} // verus!
