//! The digital clock readout: remaining seconds rendered as `MM:SS`.

use vstd::prelude::*;
use vstd::string::StringExecFns;

verus! {

/// The decimal digit character for `d` (meaningful for `0 <= d <= 9`).
pub open spec fn digit_char(d: int) -> char {
    if d == 0 {
        '0'
    } else if d == 1 {
        '1'
    } else if d == 2 {
        '2'
    } else if d == 3 {
        '3'
    } else if d == 4 {
        '4'
    } else if d == 5 {
        '5'
    } else if d == 6 {
        '6'
    } else if d == 7 {
        '7'
    } else if d == 8 {
        '8'
    } else {
        '9'
    }
}

/// `n` rendered as exactly two decimal digits (meaningful for `0 <= n < 100`).
pub open spec fn two_digits(n: int) -> Seq<char> {
    seq![digit_char(n / 10), digit_char(n % 10)]
}

/// `secs` rendered as `MM:SS`: whole minutes and leftover seconds, each
/// zero-padded to two digits (meaningful below 100 minutes).
pub open spec fn spec_clock_text(secs: int) -> Seq<char> {
    two_digits(secs / 60) + seq![':'] + two_digits(secs % 60)
}

/// The one-character string for the decimal digit `d`.
fn digit_str(d: u64) -> (r: &'static str)
    requires
        d < 10,
    ensures
        r@ == seq![digit_char(d as int)],
{
    proof {
        reveal_strlit("0");
        reveal_strlit("1");
        reveal_strlit("2");
        reveal_strlit("3");
        reveal_strlit("4");
        reveal_strlit("5");
        reveal_strlit("6");
        reveal_strlit("7");
        reveal_strlit("8");
        reveal_strlit("9");
    }
    let r: &'static str = if d == 0 {
        "0"
    } else if d == 1 {
        "1"
    } else if d == 2 {
        "2"
    } else if d == 3 {
        "3"
    } else if d == 4 {
        "4"
    } else if d == 5 {
        "5"
    } else if d == 6 {
        "6"
    } else if d == 7 {
        "7"
    } else if d == 8 {
        "8"
    } else {
        "9"
    };
    proof {
        assert(r@ =~= seq![digit_char(d as int)]);
    }
    r
}

/// `secs` formatted as the `MM:SS` countdown readout.
pub fn clock_text(secs: u64) -> (r: String)
    requires
        secs < 6000,
    ensures
        r@ == spec_clock_text(secs as int),
{
    proof {
        reveal_strlit(":");
    }
    let minutes: u64 = secs / 60;
    let seconds: u64 = secs % 60;
    let mut r = String::new();
    r.append(digit_str(minutes / 10));
    r.append(digit_str(minutes % 10));
    r.append(":");
    r.append(digit_str(seconds / 10));
    r.append(digit_str(seconds % 10));
    proof {
        assert(r@ =~= spec_clock_text(secs as int));
    }
    r
}

} // verus!
