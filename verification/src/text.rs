//! Numbers as text.

use vstd::prelude::*;
use vstd::string::StringExecFns;

verus! {

/// The decimal digit `d`.
pub open spec fn digit(d: int) -> char {
    "0123456789"@[d]
}

/// `n` in decimal.
pub open spec fn digits(n: nat) -> Seq<char>
    decreases n,
{
    if n < 10 {
        seq![digit(n as int)]
    } else {
        digits(n / 10).push(digit((n % 10) as int))
    }
}

/// `n` in decimal, with a minus sign where it is below zero.
pub open spec fn decimal(n: int) -> Seq<char> {
    if n < 0 {
        seq!['-'] + digits((-n) as nat)
    } else {
        digits(n as nat)
    }
}

fn digit_text(d: u128) -> (text: &'static str)
    requires
        d < 10,
    ensures
        text@ == seq![digit(d as int)],
{
    proof {
        reveal_strlit("0123456789");
        reveal_strlit("0");
        reveal_strlit("1");
        reveal_strlit("2");
        reveal_strlit("3");
        reveal_strlit("4");
        reveal_strlit("5");
        reveal_strlit("6");
        reveal_strlit("7");
        reveal_strlit("8");
        reveal_strlit("9");
    }
    let text = if d == 0 {
        "0"
    } else if d == 1 {
        "1"
    } else if d == 2 {
        "2"
    } else if d == 3 {
        "3"
    } else if d == 4 {
        "4"
    } else if d == 5 {
        "5"
    } else if d == 6 {
        "6"
    } else if d == 7 {
        "7"
    } else if d == 8 {
        "8"
    } else {
        "9"
    };
    assert(text@ =~= seq![digit(d as int)]);
    text
}

/// Appends `n` in decimal.
pub fn append_digits(text: &mut String, n: u128)
    ensures
        final(text)@ == old(text)@ + digits(n as nat),
    decreases n,
{
    if n >= 10 {
        append_digits(text, n / 10);
    }
    text.append(digit_text(n % 10));
    proof {
        if n < 10 {
            assert(text@ =~= old(text)@ + digits(n as nat));
        } else {
            assert(text@ =~= old(text)@ + digits(n as nat / 10).push(digit((n as nat % 10) as int)));
        }
    }
}

/// Appends `n` in decimal, with a minus sign where it is below zero.
pub fn append_decimal(text: &mut String, n: i32)
    ensures
        final(text)@ == old(text)@ + decimal(n as int),
{
    if n < 0 {
        proof {
            reveal_strlit("-");
        }
        text.append("-");
        let magnitude: i64 = -(n as i64);
        append_digits(text, magnitude as u128);
        assert(text@ =~= old(text)@ + decimal(n as int));
    } else {
        append_digits(text, n as u128);
    }
}

/// The number that decimal digits stand for.
pub open spec fn number_of(text: Seq<char>) -> int
    decreases text.len(),
{
    if text.len() == 0 {
        0
    } else {
        10 * number_of(text.drop_last()) + (text.last() as int - '0' as int)
    }
}

/// A number can be read back from its digits: there is at least one, each is a decimal digit, and
/// the first is no zero unless it is the only one.
pub proof fn digits_can_be_read_back(n: nat)
    ensures
        number_of(digits(n)) == n,
        digits(n).len() >= 1,
        forall|i: int| 0 <= i < digits(n).len() ==> '0' <= #[trigger] digits(n)[i] <= '9',
        digits(n).len() > 1 ==> digits(n)[0] != '0',
    decreases n,
{
    reveal_strlit("0123456789");
    if n >= 10 {
        digits_can_be_read_back(n / 10);
        let rest = digits(n / 10);
        assert(digits(n).drop_last() =~= rest);
        assert(digits(n)[0] == rest[0]);
        if rest.len() == 1 {
            reveal_with_fuel(number_of, 2);
            assert(rest.drop_last() =~= Seq::empty());
            assert(number_of(rest) == rest[0] as int - '0' as int);
        }
    } else {
        reveal_with_fuel(number_of, 2);
        assert(digits(n).drop_last() =~= Seq::empty());
    }
}

/// A number below zero is a minus sign and the digits of its magnitude, and any other is its
/// digits.
pub proof fn decimal_can_be_read_back(n: int)
    ensures
        n >= 0 ==> number_of(decimal(n)) == n && decimal(n) == digits(n as nat),
        n < 0 ==> decimal(n)[0] == '-' && number_of(decimal(n).skip(1)) == -n && decimal(n).skip(1)
            == digits((-n) as nat),
{
    if n >= 0 {
        digits_can_be_read_back(n as nat);
    } else {
        digits_can_be_read_back((-n) as nat);
        assert(decimal(n).skip(1) =~= digits((-n) as nat));
    }
}

} // verus!
