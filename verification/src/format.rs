//! Rendering a signed duration as text: a leading minus for negative
//! durations, then positive hour and minute magnitudes, as in
//! `-2h 15m`.

use vstd::prelude::*;
use vstd::string::StringExecFns;

use crate::timeval::Duration;

verus! {

/// The decimal digit character for `d`.
pub open spec fn spec_digit(d: int) -> char {
    if d == 0 {
        '0'
    } else if d == 1 {
        '1'
    } else if d == 2 {
        '2'
    } else if d == 3 {
        '3'
    } else if d == 4 {
        '4'
    } else if d == 5 {
        '5'
    } else if d == 6 {
        '6'
    } else if d == 7 {
        '7'
    } else if d == 8 {
        '8'
    } else {
        '9'
    }
}

/// The decimal rendering of a nonnegative number, most significant
/// digit first, without leading zeroes.
pub open spec fn spec_decimal(n: int) -> Seq<char>
    recommends
        n >= 0,
    decreases n,
{
    if n < 10 {
        seq![spec_digit(n)]
    } else {
        spec_decimal(n / 10) + seq![spec_digit(n % 10)]
    }
}

/// A minute count rendered with at least two digits.
pub open spec fn spec_two_digits(n: int) -> Seq<char>
    recommends
        0 <= n < 100,
{
    if n < 10 {
        seq!['0', spec_digit(n)]
    } else {
        spec_decimal(n)
    }
}

/// The text of a duration of `secs` seconds: an optional minus sign,
/// the whole hours, and the remaining minutes padded to two digits.
/// Component magnitudes are never negative.
pub open spec fn spec_duration_text(secs: int) -> Seq<char> {
    let mag = if secs < 0 {
        -secs
    } else {
        secs
    };
    let minutes = mag / 60;
    let sign: Seq<char> = if secs < 0 {
        seq!['-']
    } else {
        Seq::empty()
    };
    sign + spec_decimal(minutes / 60) + seq!['h', ' '] + spec_two_digits(minutes % 60) + seq!['m']
}

/// The one-character string for the digit `d`.
fn digit_str(d: u64) -> (r: &'static str)
    requires
        d < 10,
    ensures
        r@ == seq![spec_digit(d as int)],
{
    let r: &'static str = match d {
        0 => "0",
        1 => "1",
        2 => "2",
        3 => "3",
        4 => "4",
        5 => "5",
        6 => "6",
        7 => "7",
        8 => "8",
        _ => "9",
    };
    proof {
        reveal_strlit("0");
        reveal_strlit("1");
        reveal_strlit("2");
        reveal_strlit("3");
        reveal_strlit("4");
        reveal_strlit("5");
        reveal_strlit("6");
        reveal_strlit("7");
        reveal_strlit("8");
        reveal_strlit("9");
        assert(r@ =~= seq![spec_digit(d as int)]);
    }
    r
}

/// Appends the decimal rendering of `n` to `out`.
fn push_decimal(out: &mut String, n: u64)
    ensures
        final(out)@ == old(out)@ + spec_decimal(n as int),
    decreases n,
{
    if n >= 10 {
        push_decimal(out, n / 10);
        out.append(digit_str(n % 10));
    } else {
        out.append(digit_str(n));
    }
    proof {
        assert(final(out)@ =~= old(out)@ + spec_decimal(n as int));
    }
}

/// Renders a duration for display: sign first, then hours, then the
/// minutes within the hour, two digits wide.
pub fn format_duration(duration: &Duration) -> (r: String)
    ensures
        r@ == spec_duration_text(duration.secs as int),
{
    let secs = duration.secs;
    let mag: u64 = if secs >= 0 {
        secs as u64
    } else {
        ((-(secs + 1)) as u64) + 1
    };
    let minutes: u64 = mag / 60;
    let hours: u64 = minutes / 60;
    let mm: u64 = minutes % 60;
    let mut r = String::new();
    if secs < 0 {
        r.append("-");
    }
    push_decimal(&mut r, hours);
    r.append("h ");
    if mm < 10 {
        r.append("0");
    }
    push_decimal(&mut r, mm);
    r.append("m");
    proof {
        reveal_strlit("-");
        reveal_strlit("h ");
        reveal_strlit("0");
        reveal_strlit("m");
        assert(r@ =~= spec_duration_text(secs as int));
    }
    r
}

} // verus!
