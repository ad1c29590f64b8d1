//! Rendering of a domain monetary amount into the provider's
//! string-encoded amount record.

use vstd::prelude::*;

verus! {

/// A monetary value as it appears on the wire: an ISO currency code and
/// the amount rendered as a decimal string with two fractional digits.
#[derive(Debug, Clone, PartialEq, Eq)]
pub struct Amount {
    pub currency: String,
    pub value: String,
}

/// The decimal digit character for `d` (`d < 10`).
pub open spec fn digit_char(d: nat) -> char {
    if d == 0 {
        '0'
    } else if d == 1 {
        '1'
    } else if d == 2 {
        '2'
    } else if d == 3 {
        '3'
    } else if d == 4 {
        '4'
    } else if d == 5 {
        '5'
    } else if d == 6 {
        '6'
    } else if d == 7 {
        '7'
    } else if d == 8 {
        '8'
    } else {
        '9'
    }
}

/// The decimal digit string of `n`, most significant digit first, with
/// no leading zeros (`0` itself is rendered as "0").
pub open spec fn dec_digits(n: nat) -> Seq<char>
    decreases n,
{
    if n < 10 {
        seq![digit_char(n)]
    } else {
        dec_digits(n / 10) + seq![digit_char(n % 10)]
    }
}

/// The decimal rendering of a signed integer: a leading '-' for
/// negative values, then the digits of the magnitude.
pub open spec fn dec_string(n: int) -> Seq<char> {
    if n >= 0 {
        dec_digits(n as nat)
    } else {
        seq!['-'] + dec_digits((-n) as nat)
    }
}

/// The provider's amount encoding: the integral amount rendered in
/// decimal, followed by a fixed two-decimal fractional suffix.
pub open spec fn amount_value(n: int) -> Seq<char> {
    dec_string(n) + ".00"@
}

fn digit_str(d: u64) -> (r: &'static str)
    requires
        d < 10,
    ensures
        r@ =~= seq![digit_char(d as nat)],
{
    proof {
        reveal_strlit("0");
        reveal_strlit("1");
        reveal_strlit("2");
        reveal_strlit("3");
        reveal_strlit("4");
        reveal_strlit("5");
        reveal_strlit("6");
        reveal_strlit("7");
        reveal_strlit("8");
        reveal_strlit("9");
    }
    if d == 0 {
        "0"
    } else if d == 1 {
        "1"
    } else if d == 2 {
        "2"
    } else if d == 3 {
        "3"
    } else if d == 4 {
        "4"
    } else if d == 5 {
        "5"
    } else if d == 6 {
        "6"
    } else if d == 7 {
        "7"
    } else if d == 8 {
        "8"
    } else {
        "9"
    }
}

/// Renders an unsigned integer in decimal.
pub fn u64_to_dec_string(n: u64) -> (r: String)
    ensures
        r@ == dec_digits(n as nat),
    decreases n,
{
    if n < 10 {
        String::from_str(digit_str(n))
    } else {
        u64_to_dec_string(n / 10).concat(digit_str(n % 10))
    }
}

/// Renders a signed integer in decimal, with a leading '-' when negative.
pub fn i64_to_dec_string(n: i64) -> (r: String)
    ensures
        r@ == dec_string(n as int),
{
    if n >= 0 {
        u64_to_dec_string(n as u64)
    } else {
        let wide: i128 = n as i128;
        let mag: u64 = (-wide) as u64;
        proof {
            assert(mag as int == -(n as int));
        }
        let s = String::from_str("-").concat(u64_to_dec_string(mag).as_str());
        proof {
            reveal_strlit("-");
            assert(s@ =~= dec_string(n as int));
        }
        s
    }
}

impl Amount {
    /// Encodes a domain amount and currency code into the wire record.
    pub fn new(currency: String, amount: i64) -> (r: Amount)
        ensures
            r.currency@ == currency@,
            r.value@ == amount_value(amount as int),
    {
        Amount { currency, value: i64_to_dec_string(amount).concat(".00") }
    }
}

} // verus!
