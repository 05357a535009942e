//! Rendering of report values as text: decimal numerals without padding,
//! a signed balance with an explicit `+` when non-negative, and the
//! `year/month` form of a report month.

use vstd::prelude::*;

use crate::date::Date;

verus! {

/// The decimal digit character of `d`.
pub open spec fn digit_char(d: int) -> char
    recommends
        0 <= d < 10,
{
    if d == 0 {
        '0'
    } else if d == 1 {
        '1'
    } else if d == 2 {
        '2'
    } else if d == 3 {
        '3'
    } else if d == 4 {
        '4'
    } else if d == 5 {
        '5'
    } else if d == 6 {
        '6'
    } else if d == 7 {
        '7'
    } else if d == 8 {
        '8'
    } else {
        '9'
    }
}

/// The decimal numeral of `n`, most significant digit first, with no
/// leading zeros (the numeral of 0 is "0").
pub open spec fn dec_digits(n: nat) -> Seq<char>
    decreases n,
{
    if n < 10 {
        seq![digit_char(n as int)]
    } else {
        dec_digits(n / 10).push(digit_char((n % 10) as int))
    }
}

/// The decimal numeral of an integer, with a leading minus sign when
/// negative and no sign otherwise.
pub open spec fn int_digits(n: int) -> Seq<char> {
    if n >= 0 {
        dec_digits(n as nat)
    } else {
        seq!['-'].add(dec_digits((-n) as nat))
    }
}

fn digit_str(d: u64) -> (s: &'static str)
    requires
        d < 10,
    ensures
        s@ == seq![digit_char(d as int)],
{
    proof {
        reveal_strlit("0");
        reveal_strlit("1");
        reveal_strlit("2");
        reveal_strlit("3");
        reveal_strlit("4");
        reveal_strlit("5");
        reveal_strlit("6");
        reveal_strlit("7");
        reveal_strlit("8");
        reveal_strlit("9");
    }
    let s: &'static str = if d == 0 {
        "0"
    } else if d == 1 {
        "1"
    } else if d == 2 {
        "2"
    } else if d == 3 {
        "3"
    } else if d == 4 {
        "4"
    } else if d == 5 {
        "5"
    } else if d == 6 {
        "6"
    } else if d == 7 {
        "7"
    } else if d == 8 {
        "8"
    } else {
        "9"
    };
    proof {
        assert(s@ =~= seq![digit_char(d as int)]);
    }
    s
}

/// Renders `n` as its decimal numeral.
pub fn u64_to_decimal(n: u64) -> (s: String)
    ensures
        s@ == dec_digits(n as nat),
    decreases n,
{
    if n < 10 {
        digit_str(n).to_owned()
    } else {
        let mut s = u64_to_decimal(n / 10);
        s.append(digit_str(n % 10));
        proof {
            assert(s@ =~= dec_digits(n as nat));
        }
        s
    }
}

/// Renders a signed value as its decimal numeral, minus sign included.
pub fn i64_to_decimal(n: i64) -> (s: String)
    ensures
        s@ == int_digits(n as int),
{
    if n >= 0 {
        u64_to_decimal(n as u64)
    } else {
        let magnitude: u64 = (-(n as i128)) as u64;
        let mut s = String::new();
        s.append("-");
        s.append(u64_to_decimal(magnitude).as_str());
        proof {
            reveal_strlit("-");
            assert(s@ =~= int_digits(n as int));
        }
        s
    }
}

/// Renders a net balance: an explicit leading `+` when the balance is
/// non-negative (zero included), the natural minus sign when negative.
pub fn format_price(price: i64) -> (s: String)
    ensures
        price >= 0 ==> s@ == seq!['+'].add(dec_digits(price as nat)),
        price < 0 ==> s@ == seq!['-'].add(dec_digits((-(price as int)) as nat)),
{
    if price >= 0 {
        let mut s = String::new();
        s.append("+");
        s.append(u64_to_decimal(price as u64).as_str());
        proof {
            reveal_strlit("+");
            assert(s@ =~= seq!['+'].add(dec_digits(price as nat)));
        }
        s
    } else {
        i64_to_decimal(price)
    }
}

/// Renders a report month as `year/month`, both numbers unpadded.
pub fn format_date(date: Date) -> (s: String)
    ensures
        s@ == int_digits(date.year as int).add(seq!['/']).add(dec_digits(date.month as nat)),
{
    let mut s = i64_to_decimal(date.year as i64);
    s.append("/");
    s.append(u64_to_decimal(date.month as u64).as_str());
    proof {
        reveal_strlit("/");
        assert(s@ =~= int_digits(date.year as int).add(seq!['/']).add(
            dec_digits(date.month as nat),
        ));
    }
    s
}

} // verus!
