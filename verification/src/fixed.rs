//! Fixed-point amounts with two decimal places.
//!
//! An amount (a price, a threshold, a balance) is stored as a signed count of
//! hundredths. This module renders such an amount as decimal text with
//! exactly two digits after the point, the way `{:.2}` formatting renders the
//! corresponding real number.

use vstd::prelude::*;
use vstd::string::StringExecFns;

verus! {

/// The decimal digit character for `d`, which must lie in `0..10`.
pub open spec fn spec_digit(d: int) -> char {
    if d == 0 {
        '0'
    } else if d == 1 {
        '1'
    } else if d == 2 {
        '2'
    } else if d == 3 {
        '3'
    } else if d == 4 {
        '4'
    } else if d == 5 {
        '5'
    } else if d == 6 {
        '6'
    } else if d == 7 {
        '7'
    } else if d == 8 {
        '8'
    } else {
        '9'
    }
}

/// The decimal digit characters of `n`, most significant first, with no
/// leading zeros (a single `'0'` when `n` is zero).
pub open spec fn spec_udec(n: nat) -> Seq<char>
    decreases n,
{
    if n < 10 {
        seq![spec_digit(n as int)]
    } else {
        spec_udec(n / 10).push(spec_digit((n % 10) as int))
    }
}

/// The absolute value of `c`.
pub open spec fn spec_abs(c: int) -> nat {
    if c >= 0 {
        c as nat
    } else {
        (-c) as nat
    }
}

/// The text for the fixed-point amount of `c` hundredths: an optional minus
/// sign, the whole part without leading zeros, a point, and exactly two
/// fractional digits.
pub open spec fn spec_fixed(c: int) -> Seq<char> {
    let sign: Seq<char> = if c < 0 {
        seq!['-']
    } else {
        Seq::empty()
    };
    let a = spec_abs(c);
    let frac = a % 100;
    sign + spec_udec(a / 100) + seq!['.', spec_digit((frac / 10) as int), spec_digit((frac % 10) as int)]
}

/// The decimal digit of `d` as a one-character string.
fn digit_str(d: u64) -> (s: &'static str)
    requires
        d < 10,
    ensures
        s@ == seq![spec_digit(d as int)],
{
    proof {
        reveal_strlit("0");
        reveal_strlit("1");
        reveal_strlit("2");
        reveal_strlit("3");
        reveal_strlit("4");
        reveal_strlit("5");
        reveal_strlit("6");
        reveal_strlit("7");
        reveal_strlit("8");
        reveal_strlit("9");
    }
    if d == 0 {
        proof { assert("0"@ =~= seq![spec_digit(d as int)]); }
        "0"
    } else if d == 1 {
        proof { assert("1"@ =~= seq![spec_digit(d as int)]); }
        "1"
    } else if d == 2 {
        proof { assert("2"@ =~= seq![spec_digit(d as int)]); }
        "2"
    } else if d == 3 {
        proof { assert("3"@ =~= seq![spec_digit(d as int)]); }
        "3"
    } else if d == 4 {
        proof { assert("4"@ =~= seq![spec_digit(d as int)]); }
        "4"
    } else if d == 5 {
        proof { assert("5"@ =~= seq![spec_digit(d as int)]); }
        "5"
    } else if d == 6 {
        proof { assert("6"@ =~= seq![spec_digit(d as int)]); }
        "6"
    } else if d == 7 {
        proof { assert("7"@ =~= seq![spec_digit(d as int)]); }
        "7"
    } else if d == 8 {
        proof { assert("8"@ =~= seq![spec_digit(d as int)]); }
        "8"
    } else {
        proof { assert("9"@ =~= seq![spec_digit(d as int)]); }
        "9"
    }
}

/// The decimal representation of `n`, most significant digit first.
pub fn u64_to_dec(n: u64) -> (s: String)
    ensures
        s@ == spec_udec(n as nat),
    decreases n,
{
    if n < 10 {
        digit_str(n).to_owned()
    } else {
        let mut s = u64_to_dec(n / 10);
        s.append(digit_str(n % 10));
        proof {
            assert(s@ =~= spec_udec((n / 10) as nat).push(spec_digit((n % 10) as int)));
        }
        s
    }
}

/// Renders `c` hundredths as decimal text with two digits after the point.
pub fn fixed_to_string(c: i64) -> (s: String)
    ensures
        s@ == spec_fixed(c as int),
{
    let a: u64 = if c >= 0 {
        c as u64
    } else {
        (-(c as i128)) as u64
    };
    assert(a as nat == spec_abs(c as int));
    let frac: u64 = a % 100;
    let mut s: String = if c < 0 {
        proof { reveal_strlit("-"); }
        "-".to_owned()
    } else {
        String::new()
    };
    let whole = u64_to_dec(a / 100);
    s.append(whole.as_str());
    proof { reveal_strlit("."); }
    s.append(".");
    s.append(digit_str(frac / 10));
    s.append(digit_str(frac % 10));
    proof {
        assert(s@ =~= spec_fixed(c as int));
    }
    s
}

} // verus!
