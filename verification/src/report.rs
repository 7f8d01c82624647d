//! The line that shows, once per tick, the output power, the speed and a
//! bar in proportion to the speed.

use crate::dispatch::{bar_length, bar_marks, speed_of, BAR_WIDTH, FULL_SPEED};
use crate::power::POWER_ONE;
use vstd::prelude::*;

verus! {

/// Number of digits after the point, as many as `POWER_ONE` has zeros.
pub const PLACES: u32 = 5;

/// The character of the decimal digit `d`.
pub open spec fn digit_char(d: nat) -> char {
    if d == 0 {
        '0'
    } else if d == 1 {
        '1'
    } else if d == 2 {
        '2'
    } else if d == 3 {
        '3'
    } else if d == 4 {
        '4'
    } else if d == 5 {
        '5'
    } else if d == 6 {
        '6'
    } else if d == 7 {
        '7'
    } else if d == 8 {
        '8'
    } else {
        '9'
    }
}

/// `n` in decimal, without leading zeros.
pub open spec fn decimal(n: nat) -> Seq<char>
    decreases n,
{
    if n < 10 {
        seq![digit_char(n)]
    } else {
        decimal(n / 10).push(digit_char(n % 10))
    }
}

/// The last `places` decimal digits of `n`, with leading zeros.
pub open spec fn last_digits(n: nat, places: nat) -> Seq<char>
    decreases places,
{
    if places == 0 {
        Seq::empty()
    } else {
        last_digits(n / 10, (places - 1) as nat).push(digit_char(n % 10))
    }
}

/// A power of `units` written as a decimal number with `PLACES` digits
/// after the point.
pub open spec fn fixed_point(units: nat) -> Seq<char> {
    decimal(units / POWER_ONE as nat) + seq!['.'] + last_digits(
        units % POWER_ONE as nat,
        PLACES as nat,
    )
}

/// A bar of `marks` marks, filled with blanks to `BAR_WIDTH` characters.
pub open spec fn bar(marks: nat) -> Seq<char> {
    Seq::new(
        if marks > BAR_WIDTH {
            marks
        } else {
            BAR_WIDTH as nat
        },
        |i: int|
            if i < marks {
                '='
            } else {
                ' '
            },
    )
}

/// The line for a tick with output power `power`: the power, the speed
/// that follows from it, and the bar for that speed.
pub open spec fn status_line_of(power: nat) -> Seq<char> {
    "power: "@ + fixed_point(power) + "  |  vibration speed: "@ + fixed_point(speed_of(power))
        + "  ["@ + bar(bar_marks(speed_of(power))) + "]"@
}

/// The decimal digit `d` as a string.
fn digit_str(d: u64) -> (s: &'static str)
    requires
        d < 10,
    ensures
        s@ == seq![digit_char(d as nat)],
{
    proof {
        reveal_strlit("0");
        reveal_strlit("1");
        reveal_strlit("2");
        reveal_strlit("3");
        reveal_strlit("4");
        reveal_strlit("5");
        reveal_strlit("6");
        reveal_strlit("7");
        reveal_strlit("8");
        reveal_strlit("9");
    }
    let s: &'static str = if d == 0 {
        "0"
    } else if d == 1 {
        "1"
    } else if d == 2 {
        "2"
    } else if d == 3 {
        "3"
    } else if d == 4 {
        "4"
    } else if d == 5 {
        "5"
    } else if d == 6 {
        "6"
    } else if d == 7 {
        "7"
    } else if d == 8 {
        "8"
    } else {
        "9"
    };
    assert(s@ =~= seq![digit_char(d as nat)]);
    s
}

/// Appends `n` in decimal to `line`.
fn push_decimal(line: &mut String, n: u64)
    ensures
        final(line)@ == old(line)@ + decimal(n as nat),
    decreases n,
{
    if n >= 10 {
        push_decimal(line, n / 10);
    }
    line.append(digit_str(n % 10));
    assert(line@ =~= old(line)@ + decimal(n as nat));
}

/// Appends the last `places` decimal digits of `n` to `line`.
fn push_last_digits(line: &mut String, n: u64, places: u32)
    ensures
        final(line)@ == old(line)@ + last_digits(n as nat, places as nat),
    decreases places,
{
    if places > 0 {
        push_last_digits(line, n / 10, places - 1);
        line.append(digit_str(n % 10));
    }
    assert(line@ =~= old(line)@ + last_digits(n as nat, places as nat));
}

/// Appends a power of `units` as a decimal number to `line`.
fn push_fixed_point(line: &mut String, units: u64)
    ensures
        final(line)@ == old(line)@ + fixed_point(units as nat),
{
    proof {
        reveal_strlit(".");
    }
    push_decimal(line, units / POWER_ONE);
    line.append(".");
    push_last_digits(line, units % POWER_ONE, PLACES);
    assert(line@ =~= old(line)@ + fixed_point(units as nat));
}

/// Appends the bar of `marks` marks to `line`.
fn push_bar(line: &mut String, marks: u64)
    requires
        marks <= BAR_WIDTH,
    ensures
        final(line)@ == old(line)@ + bar(marks as nat),
{
    proof {
        reveal_strlit("=");
        reveal_strlit(" ");
    }
    let mut i: u64 = 0;
    while i < BAR_WIDTH
        invariant
            i <= BAR_WIDTH,
            marks <= BAR_WIDTH,
            line@ == old(line)@ + bar(marks as nat).take(i as int),
            "="@ == seq!['='],
            " "@ == seq![' '],
        decreases BAR_WIDTH - i,
    {
        if i < marks {
            line.append("=");
        } else {
            line.append(" ");
        }
        assert(bar(marks as nat).take(i + 1) =~= bar(marks as nat).take(i as int).push(
            bar(marks as nat)[i as int],
        ));
        i = i + 1;
        assert(line@ =~= old(line)@ + bar(marks as nat).take(i as int));
    }
    assert(bar(marks as nat).take(BAR_WIDTH as int) =~= bar(marks as nat));
}

/// The line that shows a tick with output power `power`.
pub fn status_line(power: u64) -> (line: String)
    ensures
        line@ == status_line_of(power as nat),
{
    let speed: u64 = if power > FULL_SPEED {
        FULL_SPEED
    } else {
        power
    };
    let mut line: String = String::new();
    line.append("power: ");
    push_fixed_point(&mut line, power);
    line.append("  |  vibration speed: ");
    push_fixed_point(&mut line, speed);
    line.append("  [");
    push_bar(&mut line, bar_length(speed));
    line.append("]");
    assert(line@ =~= status_line_of(power as nat));
    line
}

} // verus!
