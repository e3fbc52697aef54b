//! Zero-padded `MM:SS` rendering of a whole number of seconds.

use vstd::prelude::*;
use vstd::string::StringExecFns;

verus! {

/// The character for a single decimal digit.
pub open spec fn digit_char(d: nat) -> char {
    if d == 0 {
        '0'
    } else if d == 1 {
        '1'
    } else if d == 2 {
        '2'
    } else if d == 3 {
        '3'
    } else if d == 4 {
        '4'
    } else if d == 5 {
        '5'
    } else if d == 6 {
        '6'
    } else if d == 7 {
        '7'
    } else if d == 8 {
        '8'
    } else {
        '9'
    }
}

/// The decimal digits of `n`, most significant first, with no leading zeros
/// (zero itself is the single digit `'0'`).
pub open spec fn spec_decimal(n: nat) -> Seq<char>
    decreases n,
{
    if n < 10 {
        seq![digit_char(n)]
    } else {
        spec_decimal(n / 10) + seq![digit_char(n % 10)]
    }
}

/// The decimal digits of `n`, left-padded with `'0'` to at least two digits.
pub open spec fn spec_padded2(n: nat) -> Seq<char> {
    if n < 10 {
        seq!['0'] + spec_decimal(n)
    } else {
        spec_decimal(n)
    }
}

/// `MM:SS`: whole minutes and leftover seconds, each zero-padded to at least
/// two digits, separated by a colon. Minutes keep all their digits when they
/// do not fit in two.
pub open spec fn spec_mmss(total_seconds: nat) -> Seq<char> {
    spec_padded2(total_seconds / 60) + seq![':'] + spec_padded2(total_seconds % 60)
}

/// The one-character string for a single decimal digit.
fn digit_str(d: u32) -> (r: &'static str)
    requires
        d < 10,
    ensures
        r@ == seq![digit_char(d as nat)],
{
    let r = if d == 0 {
        "0"
    } else if d == 1 {
        "1"
    } else if d == 2 {
        "2"
    } else if d == 3 {
        "3"
    } else if d == 4 {
        "4"
    } else if d == 5 {
        "5"
    } else if d == 6 {
        "6"
    } else if d == 7 {
        "7"
    } else if d == 8 {
        "8"
    } else {
        "9"
    };
    proof {
        reveal_strlit("0");
        reveal_strlit("1");
        reveal_strlit("2");
        reveal_strlit("3");
        reveal_strlit("4");
        reveal_strlit("5");
        reveal_strlit("6");
        reveal_strlit("7");
        reveal_strlit("8");
        reveal_strlit("9");
        assert(r@ =~= seq![digit_char(d as nat)]);
    }
    r
}

/// The decimal digits of `n`, most significant first, no leading zeros.
fn decimal_string(n: u32) -> (r: String)
    ensures
        r@ == spec_decimal(n as nat),
    decreases n,
{
    if n < 10 {
        String::from_str(digit_str(n))
    } else {
        let mut prefix = decimal_string(n / 10);
        prefix.append(digit_str(n % 10));
        proof {
            assert(prefix@ =~= spec_decimal(n as nat));
        }
        prefix
    }
}

/// The decimal digits of `n`, zero-padded to at least two digits.
fn padded2(n: u32) -> (r: String)
    ensures
        r@ == spec_padded2(n as nat),
{
    if n < 10 {
        let mut r = String::from_str("0");
        r.append(digit_str(n));
        proof {
            reveal_strlit("0");
            assert(r@ =~= spec_padded2(n as nat));
        }
        r
    } else {
        decimal_string(n)
    }
}

/// Renders a duration in whole seconds as zero-padded `MM:SS`. Total, pure,
/// and defined for every input; durations of one hundred minutes or more keep
/// all their minute digits rather than overflowing the field.
pub fn format_duration(seconds: u32) -> (r: String)
    ensures
        r@ == spec_mmss(seconds as nat),
{
    let mut r = padded2(seconds / 60);
    r.append(":");
    let secs = padded2(seconds % 60);
    r.append(secs.as_str());
    proof {
        reveal_strlit(":");
        assert(r@ =~= spec_mmss(seconds as nat));
    }
    r
}

} // verus!
