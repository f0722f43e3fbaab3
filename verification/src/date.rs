//! Calendar dates as plain numbers, and the fixed day-month-year key
//! that names a day's entry file.

use vstd::prelude::*;
use vstd::string::StringExecFns;

verus! {

/// A calendar date held as plain year, month and day numbers.
pub struct Date {
    pub year: i32,
    pub month: u32,
    pub day: u32,
}

impl Date {
    /// Month and day lie within calendar bounds.
    pub open spec fn wf(self) -> bool {
        1 <= self.month <= 12 && 1 <= self.day <= 31
    }

    /// Accepts the components exactly when month and day lie within
    /// calendar bounds.
    pub fn new(year: i32, month: u32, day: u32) -> (r: Option<Date>)
        ensures
            r is Some <==> (1 <= month <= 12 && 1 <= day <= 31),
            r matches Some(d) ==> d == (Date { year, month, day }),
    {
        if 1 <= month && month <= 12 && 1 <= day && day <= 31 {
            Some(Date { year, month, day })
        } else {
            None
        }
    }
}

/// The character for a single decimal digit.
pub open spec fn spec_digit(d: nat) -> char
    recommends
        d < 10,
{
    if d == 0 {
        '0'
    } else if d == 1 {
        '1'
    } else if d == 2 {
        '2'
    } else if d == 3 {
        '3'
    } else if d == 4 {
        '4'
    } else if d == 5 {
        '5'
    } else if d == 6 {
        '6'
    } else if d == 7 {
        '7'
    } else if d == 8 {
        '8'
    } else {
        '9'
    }
}

fn digit_str(d: u32) -> (r: &'static str)
    requires
        d < 10,
    ensures
        r@ == seq![spec_digit(d as nat)],
{
    let r: &'static str = if d == 0 {
        "0"
    } else if d == 1 {
        "1"
    } else if d == 2 {
        "2"
    } else if d == 3 {
        "3"
    } else if d == 4 {
        "4"
    } else if d == 5 {
        "5"
    } else if d == 6 {
        "6"
    } else if d == 7 {
        "7"
    } else if d == 8 {
        "8"
    } else {
        "9"
    };
    proof {
        reveal_strlit("0");
        reveal_strlit("1");
        reveal_strlit("2");
        reveal_strlit("3");
        reveal_strlit("4");
        reveal_strlit("5");
        reveal_strlit("6");
        reveal_strlit("7");
        reveal_strlit("8");
        reveal_strlit("9");
        assert(r@ =~= seq![spec_digit(d as nat)]);
    }
    r
}

/// The decimal rendering of a number, most significant digit first, with
/// no padding.
pub open spec fn spec_decimal(n: nat) -> Seq<char>
    decreases n,
{
    if n < 10 {
        seq![spec_digit(n)]
    } else {
        spec_decimal(n / 10) + seq![spec_digit(n % 10)]
    }
}

fn decimal_string(n: u32) -> (r: String)
    ensures
        r@ == spec_decimal(n as nat),
    decreases n,
{
    if n < 10 {
        String::from_str(digit_str(n))
    } else {
        let r = decimal_string(n / 10).concat(digit_str(n % 10));
        proof {
            assert(r@ =~= spec_decimal(n as nat));
        }
        r
    }
}

/// The decimal rendering of a number, zero-padded on the left to at
/// least four digits.
pub open spec fn spec_padded4(n: nat) -> Seq<char> {
    if n < 10 {
        seq!['0', '0', '0'] + spec_decimal(n)
    } else if n < 100 {
        seq!['0', '0'] + spec_decimal(n)
    } else if n < 1000 {
        seq!['0'] + spec_decimal(n)
    } else {
        spec_decimal(n)
    }
}

fn padded4(n: u32) -> (r: String)
    ensures
        r@ == spec_padded4(n as nat),
{
    if n < 10 {
        let r = String::from_str("000").concat(decimal_string(n).as_str());
        proof {
            reveal_strlit("000");
            assert(r@ =~= spec_padded4(n as nat));
        }
        r
    } else if n < 100 {
        let r = String::from_str("00").concat(decimal_string(n).as_str());
        proof {
            reveal_strlit("00");
            assert(r@ =~= spec_padded4(n as nat));
        }
        r
    } else if n < 1000 {
        let r = String::from_str("0").concat(decimal_string(n).as_str());
        proof {
            reveal_strlit("0");
            assert(r@ =~= spec_padded4(n as nat));
        }
        r
    } else {
        decimal_string(n)
    }
}

/// A year rendered for the key: zero-padded to four digits, with a
/// leading minus sign for years before year zero.
pub open spec fn spec_year_digits(y: int) -> Seq<char> {
    if y >= 0 {
        spec_padded4(y as nat)
    } else {
        seq!['-'] + spec_padded4((-y) as nat)
    }
}

fn year_string(y: i32) -> (r: String)
    ensures
        r@ == spec_year_digits(y as int),
{
    if y >= 0 {
        padded4(y as u32)
    } else {
        let magnitude: u32 = (-(y as i64)) as u32;
        let r = String::from_str("-").concat(padded4(magnitude).as_str());
        proof {
            reveal_strlit("-");
            assert(magnitude as int == -(y as int));
            assert(r@ =~= spec_year_digits(y as int));
        }
        r
    }
}

/// A number below one hundred rendered as exactly two digits.
pub open spec fn spec_two_digits(n: nat) -> Seq<char>
    recommends
        n < 100,
{
    seq![spec_digit(n / 10), spec_digit(n % 10)]
}

fn two_digit_string(n: u32) -> (r: String)
    requires
        n < 100,
    ensures
        r@ == spec_two_digits(n as nat),
{
    let r = String::from_str(digit_str(n / 10)).concat(digit_str(n % 10));
    proof {
        assert(r@ =~= spec_two_digits(n as nat));
    }
    r
}

/// The key that names a day's entry file: zero-padded two-digit day and
/// month and four-digit year, separated by dashes.
pub open spec fn spec_date_key(d: Date) -> Seq<char>
    recommends
        d.wf(),
{
    spec_two_digits(d.day as nat) + "-"@ + spec_two_digits(d.month as nat) + "-"@
        + spec_year_digits(d.year as int)
}

pub fn date_key(d: &Date) -> (r: String)
    requires
        d.wf(),
    ensures
        r@ == spec_date_key(*d),
{
    let r = two_digit_string(d.day).concat("-").concat(two_digit_string(d.month).as_str()).concat(
        "-",
    ).concat(year_string(d.year).as_str());
    proof {
        assert(r@ =~= spec_date_key(*d));
    }
    r
}

} // verus!
