//! Unsigned decimal numbers as text: writing them and reading them back.

use vstd::prelude::*;

verus! {

/// The character of one decimal digit.
pub open spec fn digit_char(digit: nat) -> char {
    ('0' as nat + digit) as char
}

/// Whether a character is a decimal digit.
pub open spec fn is_digit(c: char) -> bool {
    '0' <= c <= '9'
}

/// The number that a decimal digit stands for.
pub open spec fn digit_value(c: char) -> nat {
    (c as nat - '0' as nat) as nat
}

/// `n` in decimal: no sign, no leading zero, "0" for zero.
pub open spec fn decimal(n: nat) -> Seq<char>
    decreases n,
{
    if n < 10 {
        seq![digit_char(n)]
    } else {
        decimal(n / 10).push(digit_char(n % 10))
    }
}

/// The number that a run of decimal digits stands for.
pub open spec fn digits_value(digits: Seq<char>) -> nat
    decreases digits.len(),
{
    if digits.len() == 0 {
        0
    } else {
        digits_value(digits.drop_last()) * 10 + digit_value(digits.last())
    }
}

/// What is left of an unsigned number once its optional leading `+` is gone.
pub open spec fn without_plus(text: Seq<char>) -> Seq<char> {
    if text.len() > 0 && text[0] == '+' {
        text.drop_first()
    } else {
        text
    }
}

/// Whether every character is a decimal digit.
pub open spec fn all_digits(text: Seq<char>) -> bool {
    forall|i: int| 0 <= i < text.len() ==> is_digit(#[trigger] text[i])
}

/// The number written in `text`: an optional `+` and then one or more decimal
/// digits, nothing before, between or after them, and no more than `max`.
pub open spec fn parsed(text: Seq<char>, max: nat) -> Option<nat> {
    let digits = without_plus(text);
    if digits.len() > 0 && all_digits(digits) && digits_value(digits) <= max {
        Some(digits_value(digits))
    } else {
        None
    }
}

/// A longer run of digits stands for a number that is no smaller.
proof fn lemma_prefix_value(digits: Seq<char>, len: int)
    requires
        0 <= len <= digits.len(),
    ensures
        digits_value(digits.take(len)) <= digits_value(digits),
    decreases digits.len(),
{
    if len == digits.len() {
        assert(digits.take(len) =~= digits);
    } else {
        lemma_prefix_value(digits.drop_last(), len);
        assert(digits.drop_last().take(len) =~= digits.take(len));
    }
}

/// Decimal text is a non-empty run of digits that stands for the number it was
/// written from.
pub proof fn law_decimal_value(n: nat)
    ensures
        decimal(n).len() > 0,
        all_digits(decimal(n)),
        digits_value(decimal(n)) == n,
    decreases n,
{
    if n < 10 {
        let text = decimal(n);
        assert(text.drop_last() =~= Seq::<char>::empty());
        assert(digits_value(text.drop_last()) == 0);
    } else {
        law_decimal_value(n / 10);
        let text = decimal(n);
        assert(text.drop_last() =~= decimal(n / 10));
        assert(text.last() == digit_char(n % 10));
    }
}

/// Reading gives back what was written: the decimal text of a number that is
/// within the bound reads as that number.
pub proof fn law_parsed_decimal(n: nat, max: nat)
    requires
        n <= max,
    ensures
        parsed(decimal(n), max) == Some(n),
{
    law_decimal_value(n);
    assert(is_digit(decimal(n)[0]));
    assert(without_plus(decimal(n)) == decimal(n));
}

/// Two numbers with the same decimal text are the same number.
pub proof fn law_decimal_injective(a: nat, b: nat)
    requires
        decimal(a) == decimal(b),
    ensures
        a == b,
{
    law_decimal_value(a);
    law_decimal_value(b);
}

/// One decimal digit as text.
fn digit_str(digit: u64) -> (text: &'static str)
    requires
        digit < 10,
    ensures
        text@ == seq![digit_char(digit as nat)],
{
    proof {
        reveal_strlit("0");
        reveal_strlit("1");
        reveal_strlit("2");
        reveal_strlit("3");
        reveal_strlit("4");
        reveal_strlit("5");
        reveal_strlit("6");
        reveal_strlit("7");
        reveal_strlit("8");
        reveal_strlit("9");
    }
    let text = match digit {
        0 => "0",
        1 => "1",
        2 => "2",
        3 => "3",
        4 => "4",
        5 => "5",
        6 => "6",
        7 => "7",
        8 => "8",
        _ => "9",
    };
    assert(text@ =~= seq![digit_char(digit as nat)]);
    text
}

/// Writes `n` in decimal.
pub fn to_decimal(n: u64) -> (text: String)
    ensures
        text@ == decimal(n as nat),
    decreases n,
{
    if n < 10 {
        String::from_str(digit_str(n))
    } else {
        let text = to_decimal(n / 10).concat(digit_str(n % 10));
        assert(text@ =~= decimal(n as nat));
        text
    }
}

/// Reads an unsigned decimal number of at most `max`.
fn parse_up_to(text: &str, max: u64) -> (n: Option<u64>)
    ensures
        match n {
            Some(n) => parsed(text@, max as nat) == Some(n as nat),
            None => parsed(text@, max as nat) is None,
        },
{
    let ghost digits = without_plus(text@);
    let ghost sign = text@.len() - digits.len();
    let mut n: u64 = 0;
    let mut first: bool = true;
    let mut any: bool = false;
    assert(digits.take(0) =~= Seq::<char>::empty());
    for c in it: text.chars()
        invariant
            it.seq() == text@,
            digits == without_plus(text@),
            sign == text@.len() - digits.len(),
            first == (it.index() == 0),
            any == (it.index() > sign),
            first ==> n == 0,
            !first ==> it.index() >= sign,
            !first ==> n == digits_value(digits.take(it.index() - sign)),
            !first ==> all_digits(digits.take(it.index() - sign)),
            digits.take(0) == Seq::<char>::empty(),
            n <= max,
    {
        let ghost index = it.index();
        assert(c == text@[index]);
        if first && c == '+' {
            assert(sign == 1);
        } else {
            let ghost at = index - sign;
            assert(digits[at] == c);
            if c < '0' || '9' < c {
                assert(!is_digit(digits[at]));
                return None;
            }
            let digit: u64 = c as u64 - '0' as u64;
            assert(digits.take(at + 1).drop_last() =~= digits.take(at));
            assert(digits.take(at + 1).last() == c);
            assert(digits_value(digits.take(at + 1)) == n * 10 + digit);
            if n > max / 10 || digit > max - n * 10 {
                proof {
                    lemma_prefix_value(digits, at + 1);
                }
                return None;
            }
            n = n * 10 + digit;
            any = true;
            assert(all_digits(digits.take(at + 1))) by {
                assert forall|i: int| 0 <= i < at + 1 implies is_digit(
                    #[trigger] digits.take(at + 1)[i],
                ) by {
                    if i < at {
                        assert(is_digit(digits.take(at)[i]));
                    }
                }
            }
        }
        first = false;
    }
    if any {
        assert(digits.take(digits.len() as int) =~= digits);
        Some(n)
    } else {
        None
    }
}

/// Reads a `usize` in decimal, as `str::parse` does.
pub fn parse_usize(text: &str) -> (n: Option<usize>)
    ensures
        match n {
            Some(n) => parsed(text@, usize::MAX as nat) == Some(n as nat),
            None => parsed(text@, usize::MAX as nat) is None,
        },
{
    match parse_up_to(text, usize::MAX as u64) {
        Some(n) => Some(n as usize),
        None => None,
    }
}

/// Reads a `u64` in decimal, as `str::parse` does.
pub fn parse_u64(text: &str) -> (n: Option<u64>)
    ensures
        match n {
            Some(n) => parsed(text@, u64::MAX as nat) == Some(n as nat),
            None => parsed(text@, u64::MAX as nat) is None,
        },
{
    parse_up_to(text, u64::MAX)
}

/// A number of one digit is written as that digit: 48 is the code of `0`, and the
/// other digits follow it.
pub proof fn law_decimal_one_digit(n: nat)
    requires
        n < 10,
    ensures
        decimal(n).len() == 1,
        decimal(n)[0] as nat == 48 + n,
{
}

/// Ten times a number and one digit more is written as the number is, with that digit
/// behind it.
pub proof fn law_decimal_append(n: nat, digit: nat)
    requires
        n > 0,
        digit < 10,
    ensures
        decimal(10 * n + digit).len() == decimal(n).len() + 1,
        decimal(10 * n + digit).drop_last() == decimal(n),
        decimal(10 * n + digit).last() as nat == 48 + digit,
{
    assert((10 * n + digit) / 10 == n);
    assert((10 * n + digit) % 10 == digit);
    assert(decimal(10 * n + digit).drop_last() =~= decimal(n));
}

/// No digits stand for zero, and a digit behind others adds itself to ten times what
/// they stand for.
pub proof fn law_digits_value_append(digits: Seq<char>, c: char)
    requires
        '0' <= c <= '9',
    ensures
        digits_value(Seq::empty()) == 0,
        digits_value(digits.push(c)) == 10 * digits_value(digits) + (c as nat - 48),
{
    assert(digits.push(c).drop_last() =~= digits);
}

/// A run of digits, with or without a `+` before it, reads as the number that the
/// digits stand for if that is within the bound, and not at all if it is beyond.
pub proof fn law_parsed_digits(digits: Seq<char>, max: nat)
    requires
        digits.len() > 0,
        forall|i: int| 0 <= i < digits.len() ==> '0' <= #[trigger] digits[i] <= '9',
    ensures
        parsed(digits, max) == parsed(seq!['+'] + digits, max),
        digits_value(digits) <= max ==> parsed(digits, max) == Some(digits_value(digits)),
        digits_value(digits) > max ==> parsed(digits, max) is None,
{
    assert('0' <= digits[0] <= '9');
    assert((seq!['+'] + digits).drop_first() =~= digits);
    assert(all_digits(digits));
}

/// A text without a digit, or with anything but digits behind an optional first `+`,
/// does not read as a number.
pub proof fn law_parsed_refuses(text: Seq<char>, at: int, max: nat)
    requires
        ({
            ||| text.len() == 0
            ||| text.len() == 1 && text[0] == '+'
            ||| 0 <= at < text.len() && !('0' <= text[at] <= '9') && (at > 0 || text[at]
                != '+')
        }),
    ensures
        parsed(text, max) is None,
{
    let digits = without_plus(text);
    if text.len() > 0 && !(text.len() == 1 && text[0] == '+') {
        if text[0] == '+' {
            assert(digits[at - 1] == text[at]);
        } else {
            assert(digits[at] == text[at]);
        }
    }
}

/// A number that was read is within the bound, and reads the same under every bound
/// that it is within.
pub proof fn law_parsed_bound(text: Seq<char>, max: nat, other: nat)
    ensures
        parsed(text, max) matches Some(n) ==> n <= max && (n <= other ==> parsed(text, other)
            == Some(n)),
{
}

} // verus!
