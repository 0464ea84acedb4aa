//! Decimal rendering of the integers that appear in CSV rows and in the
//! status bar, specified exactly as sequences of characters.

use vstd::prelude::*;
use vstd::string::StringExecFns;

verus! {

/// The character for one decimal digit.
pub open spec fn dec_digit(d: nat) -> char {
    if d == 0 {
        '0'
    } else if d == 1 {
        '1'
    } else if d == 2 {
        '2'
    } else if d == 3 {
        '3'
    } else if d == 4 {
        '4'
    } else if d == 5 {
        '5'
    } else if d == 6 {
        '6'
    } else if d == 7 {
        '7'
    } else if d == 8 {
        '8'
    } else {
        '9'
    }
}

/// The usual decimal rendering of `n`, without leading zeros (just "0" for 0).
pub open spec fn dec_str(n: nat) -> Seq<char>
    decreases n,
{
    if n < 10 {
        seq![dec_digit(n)]
    } else {
        dec_str(n / 10).push(dec_digit(n % 10))
    }
}

/// Decimal rendering of a possibly negative number.
pub open spec fn dec_str_signed(n: int) -> Seq<char> {
    if n >= 0 {
        dec_str(n as nat)
    } else {
        seq!['-'] + dec_str((-n) as nat)
    }
}

/// Rendering of a tenths-scaled quantity with one decimal place,
/// so 123 tenths is rendered "12.3".
pub open spec fn tenths_str(t: nat) -> Seq<char> {
    dec_str(t / 10) + seq!['.', dec_digit(t % 10)]
}

pub(crate) fn digit_str(d: u64) -> (s: &'static str)
    requires
        d < 10,
    ensures
        s@ == seq![dec_digit(d as nat)],
{
    proof {
        reveal_strlit("0");
        reveal_strlit("1");
        reveal_strlit("2");
        reveal_strlit("3");
        reveal_strlit("4");
        reveal_strlit("5");
        reveal_strlit("6");
        reveal_strlit("7");
        reveal_strlit("8");
        reveal_strlit("9");
    }
    let s: &'static str = if d == 0 {
        "0"
    } else if d == 1 {
        "1"
    } else if d == 2 {
        "2"
    } else if d == 3 {
        "3"
    } else if d == 4 {
        "4"
    } else if d == 5 {
        "5"
    } else if d == 6 {
        "6"
    } else if d == 7 {
        "7"
    } else if d == 8 {
        "8"
    } else {
        "9"
    };
    proof {
        assert(s@ =~= seq![dec_digit(d as nat)]);
    }
    s
}

/// Decimal rendering of an unsigned 64-bit number.
pub fn u64_to_dec(n: u64) -> (s: String)
    ensures
        s@ == dec_str(n as nat),
    decreases n,
{
    if n < 10 {
        digit_str(n).to_owned()
    } else {
        let mut s = u64_to_dec(n / 10);
        s.append(digit_str(n % 10));
        proof {
            assert(s@ =~= dec_str(n as nat));
        }
        s
    }
}

/// Decimal rendering of a signed 32-bit number.
pub fn i32_to_dec(n: i32) -> (s: String)
    ensures
        s@ == dec_str_signed(n as int),
{
    if n >= 0 {
        u64_to_dec(n as u64)
    } else {
        proof {
            reveal_strlit("-");
        }
        let wide: i64 = n as i64;
        let mag: u64 = (-wide) as u64;
        let mut s: String = "-".to_owned();
        s.append(u64_to_dec(mag).as_str());
        proof {
            assert(s@ =~= dec_str_signed(n as int));
        }
        s
    }
}

/// Rendering of a tenths-scaled quantity with one decimal place.
pub fn tenths_to_dec(t: u64) -> (s: String)
    ensures
        s@ == tenths_str(t as nat),
{
    proof {
        reveal_strlit(".");
    }
    let mut s = u64_to_dec(t / 10);
    s.append(".");
    s.append(digit_str(t % 10));
    proof {
        assert(s@ =~= tenths_str(t as nat));
    }
    s
}

} // verus!
