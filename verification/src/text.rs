//! The text of labels: whole numbers and prices written in decimal.

use vstd::prelude::*;
use vstd::string::*;
use crate::types::PRICE_UNIT;

verus! {

/// The character of a decimal digit.
pub open spec fn digit_char(digit: int) -> char {
    if digit == 0 {
        '0'
    } else if digit == 1 {
        '1'
    } else if digit == 2 {
        '2'
    } else if digit == 3 {
        '3'
    } else if digit == 4 {
        '4'
    } else if digit == 5 {
        '5'
    } else if digit == 6 {
        '6'
    } else if digit == 7 {
        '7'
    } else if digit == 8 {
        '8'
    } else {
        '9'
    }
}

/// A natural number written in decimal, without leading zeros.
pub open spec fn decimal_digits(n: nat) -> Seq<char>
    decreases n,
{
    if n < 10 {
        seq![digit_char(n as int)]
    } else {
        decimal_digits(n / 10).push(digit_char((n % 10) as int))
    }
}

/// The decimal places of a fraction of `frac` price units, with
/// `0 < frac < PRICE_UNIT`, without trailing zeros. A price unit is one
/// ten-thousandth, so there are up to four places.
pub open spec fn fraction_digits(frac: nat) -> Seq<char> {
    let first = digit_char((frac / 1000) as int);
    let second = digit_char((frac / 100 % 10) as int);
    let third = digit_char((frac / 10 % 10) as int);
    let fourth = digit_char((frac % 10) as int);
    if frac % 10 != 0 {
        seq![first, second, third, fourth]
    } else if frac % 100 != 0 {
        seq![first, second, third]
    } else if frac % 1000 != 0 {
        seq![first, second]
    } else {
        seq![first]
    }
}

/// A price, given in price units, written in decimal: a minus sign if it
/// is negative, its whole part, and, unless it is a whole number, a point
/// and its decimal places without trailing zeros.
pub open spec fn price_text(price: int) -> Seq<char> {
    let magnitude = if price < 0 {
        -price
    } else {
        price
    };
    let sign = if price < 0 {
        seq!['-']
    } else {
        Seq::<char>::empty()
    };
    let whole = decimal_digits((magnitude / PRICE_UNIT as int) as nat);
    let frac = (magnitude % PRICE_UNIT as int) as nat;
    if frac == 0 {
        sign + whole
    } else {
        sign + whole + seq!['.'] + fraction_digits(frac)
    }
}

/// The text of one decimal digit.
fn digit_str(digit: u64) -> (text: &'static str)
    requires
        digit < 10,
    ensures
        text@ == seq![digit_char(digit as int)],
{
    proof {
        reveal_strlit("0");
        reveal_strlit("1");
        reveal_strlit("2");
        reveal_strlit("3");
        reveal_strlit("4");
        reveal_strlit("5");
        reveal_strlit("6");
        reveal_strlit("7");
        reveal_strlit("8");
        reveal_strlit("9");
    }
    let text = if digit == 0 {
        "0"
    } else if digit == 1 {
        "1"
    } else if digit == 2 {
        "2"
    } else if digit == 3 {
        "3"
    } else if digit == 4 {
        "4"
    } else if digit == 5 {
        "5"
    } else if digit == 6 {
        "6"
    } else if digit == 7 {
        "7"
    } else if digit == 8 {
        "8"
    } else {
        "9"
    };
    text
}

/// Appends a natural number in decimal to a text.
fn push_decimal(text: &mut String, n: u64)
    ensures
        final(text)@ == old(text)@ + decimal_digits(n as nat),
    decreases n,
{
    if n >= 10 {
        push_decimal(text, n / 10);
    }
    text.append(digit_str(n % 10));
}

/// Writes a natural number in decimal.
pub fn format_number(n: u64) -> (text: String)
    ensures
        text@ == decimal_digits(n as nat),
{
    let mut text = String::new();
    push_decimal(&mut text, n);
    text
}

/// Writes a price, given in price units, in decimal.
pub fn format_price(price: i64) -> (text: String)
    ensures
        text@ == price_text(price as int),
{
    let magnitude: u64 = if price < 0 {
        (-(price as i128)) as u64
    } else {
        price as u64
    };
    let mut text = String::new();
    if price < 0 {
        text.append("-");
    }
    proof {
        reveal_strlit("-");
        reveal_strlit(".");
    }
    push_decimal(&mut text, magnitude / PRICE_UNIT as u64);
    let frac: u64 = magnitude % PRICE_UNIT as u64;
    if frac != 0 {
        text.append(".");
        text.append(digit_str(frac / 1000));
        if frac % 1000 != 0 {
            text.append(digit_str(frac / 100 % 10));
            if frac % 100 != 0 {
                text.append(digit_str(frac / 10 % 10));
                if frac % 10 != 0 {
                    text.append(digit_str(frac % 10));
                }
            }
        }
    }
    text
}

} // verus!
