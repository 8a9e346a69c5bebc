//! Formatting of the status line and the notification texts.

use crate::state::TimerState;
use crate::timer::Remaining;
use vstd::prelude::*;

verus! {

/// Number of whole minutes in a duration given in milliseconds.
pub fn minutes(duration_ms: u64) -> (m: u64)
    ensures
        m == duration_ms / 1000 / 60,
{
    duration_ms / 1000 / 60
}

/// Number of seconds left over once the whole minutes are taken out.
pub fn seconds(duration_ms: u64) -> (s: u64)
    ensures
        s == duration_ms / 1000 % 60,
{
    duration_ms / 1000 % 60
}

/// The decimal digit characters, by value.
pub open spec fn spec_digit_char(d: int) -> char {
    if d == 0 {
        '0'
    } else if d == 1 {
        '1'
    } else if d == 2 {
        '2'
    } else if d == 3 {
        '3'
    } else if d == 4 {
        '4'
    } else if d == 5 {
        '5'
    } else if d == 6 {
        '6'
    } else if d == 7 {
        '7'
    } else if d == 8 {
        '8'
    } else {
        '9'
    }
}

fn digit_str(d: u64) -> (r: &'static str)
    requires
        d < 10,
    ensures
        r@.len() == 1,
        r@[0] == spec_digit_char(d as int),
{
    proof {
        reveal_strlit("0");
        reveal_strlit("1");
        reveal_strlit("2");
        reveal_strlit("3");
        reveal_strlit("4");
        reveal_strlit("5");
        reveal_strlit("6");
        reveal_strlit("7");
        reveal_strlit("8");
        reveal_strlit("9");
    }
    match d {
        0 => "0",
        1 => "1",
        2 => "2",
        3 => "3",
        4 => "4",
        5 => "5",
        6 => "6",
        7 => "7",
        8 => "8",
        _ => "9",
    }
}

/// The decimal digits of `n`, most significant first, without leading zeros
/// (a single zero digit for zero itself).
pub open spec fn spec_decimal(n: nat) -> Seq<char>
    decreases n,
{
    if n < 10 {
        seq![spec_digit_char(n as int)]
    } else {
        spec_decimal(n / 10).push(spec_digit_char((n % 10) as int))
    }
}

/// Renders `n` in decimal.
pub fn decimal_string(n: u64) -> (r: String)
    ensures
        r@ == spec_decimal(n as nat),
    decreases n,
{
    if n < 10 {
        let r = String::from_str(digit_str(n));
        proof {
            assert(r@ =~= spec_decimal(n as nat));
        }
        r
    } else {
        let mut r = decimal_string(n / 10);
        r.append(digit_str(n % 10));
        proof {
            assert(r@ =~= spec_decimal(n as nat));
        }
        r
    }
}

/// `n` in decimal, zero-padded on the left to at least two digits.
pub open spec fn spec_two_digits(n: nat) -> Seq<char> {
    if n < 10 {
        seq!['0'] + spec_decimal(n)
    } else {
        spec_decimal(n)
    }
}

/// Renders `n` in decimal, zero-padded to at least two digits.
pub fn two_digit_string(n: u64) -> (r: String)
    ensures
        r@ == spec_two_digits(n as nat),
{
    if n < 10 {
        proof {
            reveal_strlit("0");
        }
        let mut r = String::from_str("0");
        r.append(digit_str(n));
        proof {
            assert(r@ =~= spec_two_digits(n as nat));
        }
        r
    } else {
        decimal_string(n)
    }
}

/// A duration of `duration_ms` milliseconds rendered as `MM:SS`: whole
/// minutes and leftover seconds, each zero-padded to two digits.
pub open spec fn spec_mm_ss(duration_ms: u64) -> Seq<char> {
    spec_two_digits((duration_ms / 1000 / 60) as nat) + seq![':'] + spec_two_digits(
        (duration_ms / 1000 % 60) as nat,
    )
}

/// Renders a duration in milliseconds as `MM:SS`.
pub fn mm_ss_string(duration_ms: u64) -> (r: String)
    ensures
        r@ == spec_mm_ss(duration_ms),
{
    let mut r = two_digit_string(minutes(duration_ms));
    proof {
        reveal_strlit(":");
    }
    r.append(":");
    let secs = two_digit_string(seconds(duration_ms));
    r.append(secs.as_str());
    proof {
        assert(r@ =~= spec_mm_ss(duration_ms));
    }
    r
}

/// Returns the fixed summary of the notification sent at a phase
/// transition.
pub fn notification_summary() -> (r: String)
    ensures
        r@ == "pomod: time is up"@,
{
    String::from_str("pomod: time is up")
}

/// The body of the notification sent at a phase transition, naming the
/// phase that just began.
pub open spec fn spec_notification_body(state: TimerState) -> Seq<char> {
    "next up: "@ + state.spec_phase_name()
}

/// Renders the notification body for the phase that just began. The
/// placeholder phase never begins (no transition yields it), so it is
/// excluded rather than given a body.
pub fn notification_body(state: &TimerState) -> (r: String)
    requires
        *state != TimerState::Uninitialized,
    ensures
        r@ == spec_notification_body(*state),
{
    let mut r = String::from_str("next up: ");
    r.append(state.phase_name());
    r
}

/// The milliseconds that a remaining-time value displays: an exhausted
/// phase reads as zero.
pub open spec fn spec_display_ms(remaining: Remaining) -> u64 {
    match remaining {
        Remaining::Time(d) => d,
        Remaining::Exhausted => 0,
    }
}

/// The status line for a phase and its remaining time: the phase glyph,
/// a space, and the remaining time as `MM:SS`.
pub open spec fn spec_status_line(state: TimerState, remaining: Remaining) -> Seq<char> {
    state.glyph() + seq![' '] + spec_mm_ss(spec_display_ms(remaining))
}

/// Renders the status line emitted once per poll tick.
pub fn status_line(state: &TimerState, remaining: &Remaining) -> (r: String)
    ensures
        r@ == spec_status_line(*state, *remaining),
{
    let mut r = state.pomicon();
    proof {
        reveal_strlit(" ");
    }
    r.append(" ");
    let ms: u64 = match remaining {
        Remaining::Time(d) => *d,
        Remaining::Exhausted => 0,
    };
    let tail = mm_ss_string(ms);
    r.append(tail.as_str());
    proof {
        assert(r@ =~= spec_status_line(*state, *remaining));
    }
    r
}

} // verus!
