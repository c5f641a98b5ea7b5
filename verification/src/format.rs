//! Derived views of a record: elapsed times as text, pedal fractions as
//! whole percentages.
//!
//! Both go from a single-precision bit pattern to whole numbers by cutting
//! off the fractional part. Nothing is rounded: a time of 59.9 seconds
//! shows as 59, and a fraction of 0.999 is 99 percent.

use vstd::prelude::*;
use vstd::string::*;
use vstd::arithmetic::power2::{pow2, lemma2_to64, lemma_pow2_strictly_increases};
use vstd::arithmetic::div_mod::lemma_div_is_ordered_by_denominator;
use crate::ieee::{is_nan, is_negative, scaled_floor, nan, sign_of, scaled_floor_saturating};
use crate::ieee::{exponent_field, fraction_field, significand, scaling_exponent};
use crate::record::Packet;

verus! {

/// The whole seconds of an elapsed time: the value cut off toward zero. A
/// NaN counts as zero, and a value beyond the 64-bit range as the nearest
/// end of that range.
pub open spec fn whole_seconds(bits: u32) -> i64 {
    if is_nan(bits) {
        0
    } else if is_negative(bits) {
        if scaled_floor(bits, 1) >= 0x8000_0000_0000_0000 {
            i64::MIN
        } else {
            (-(scaled_floor(bits, 1) as int)) as i64
        }
    } else {
        if scaled_floor(bits, 1) > i64::MAX as nat {
            i64::MAX
        } else {
            scaled_floor(bits, 1) as i64
        }
    }
}

/// The whole percent of a fraction: a hundred times the value, computed
/// exactly and cut off toward zero. A NaN and every negative value count
/// as zero, and a value beyond the range of `usize` as its maximum.
pub open spec fn whole_percent(bits: u32) -> usize {
    if is_nan(bits) || is_negative(bits) {
        0
    } else if scaled_floor(bits, 100) > usize::MAX as nat {
        usize::MAX
    } else {
        scaled_floor(bits, 100) as usize
    }
}

/// The character of a decimal digit.
pub open spec fn digit(d: nat) -> char {
    if d == 0 {
        '0'
    } else if d == 1 {
        '1'
    } else if d == 2 {
        '2'
    } else if d == 3 {
        '3'
    } else if d == 4 {
        '4'
    } else if d == 5 {
        '5'
    } else if d == 6 {
        '6'
    } else if d == 7 {
        '7'
    } else if d == 8 {
        '8'
    } else {
        '9'
    }
}

/// A number in decimal, without leading zeros.
pub open spec fn decimal(n: nat) -> Seq<char>
    decreases n,
{
    if n < 10 {
        seq![digit(n)]
    } else {
        decimal(n / 10).push(digit(n % 10))
    }
}

/// A number in decimal, with a leading zero where it has one digit.
pub open spec fn two_digits(n: nat) -> Seq<char> {
    if n < 10 {
        seq!['0', digit(n)]
    } else {
        decimal(n)
    }
}

/// The magnitude of a count of seconds.
pub open spec fn magnitude(secs: i64) -> nat {
    if secs < 0 {
        (-(secs as int)) as nat
    } else {
        secs as nat
    }
}

/// Hours, minutes and seconds of a count of seconds, written `HH:MM:SS`:
/// minutes and seconds below sixty, hours as large as they come, each with
/// two digits at least, and a minus sign in front of a negative count.
pub open spec fn duration_text(secs: i64) -> Seq<char> {
    let a = magnitude(secs);
    let sign = if secs < 0 {
        seq!['-']
    } else {
        Seq::<char>::empty()
    };
    sign + two_digits(a / 3600) + seq![':'] + two_digits((a % 3600) / 60) + seq![':'] + two_digits(
        a % 60,
    )
}

/// Cuts an elapsed time off to whole seconds.
pub fn truncate_seconds(bits: u32) -> (r: i64)
    ensures
        r == whole_seconds(bits),
{
    if nan(bits) {
        return 0;
    }
    let m: u64 = scaled_floor_saturating(bits, 1);
    if sign_of(bits) {
        if m >= 0x8000_0000_0000_0000 {
            i64::MIN
        } else {
            -(m as i64)
        }
    } else {
        if m > 0x7FFF_FFFF_FFFF_FFFF {
            i64::MAX
        } else {
            m as i64
        }
    }
}

/// Converts a pedal, clutch or handbrake fraction to a whole percentage.
///
/// The product with one hundred is exact and its fractional part is cut
/// off, so a press just short of full reads 99. Nothing is clamped to the
/// range of a pedal: a fraction above one gives more than 100.
pub fn percentage(fraction: u32) -> (r: usize)
    ensures
        r == whole_percent(fraction),
{
    if nan(fraction) || sign_of(fraction) {
        return 0;
    }
    let m: u64 = scaled_floor_saturating(fraction, 100);
    if m > usize::MAX as u64 {
        usize::MAX
    } else {
        m as usize
    }
}

fn digit_text(d: u64) -> (r: &'static str)
    requires
        d < 10,
    ensures
        r@ == seq![digit(d as nat)],
{
    proof {
        reveal_strlit("0");
        reveal_strlit("1");
        reveal_strlit("2");
        reveal_strlit("3");
        reveal_strlit("4");
        reveal_strlit("5");
        reveal_strlit("6");
        reveal_strlit("7");
        reveal_strlit("8");
        reveal_strlit("9");
    }
    let r = if d == 0 {
        "0"
    } else if d == 1 {
        "1"
    } else if d == 2 {
        "2"
    } else if d == 3 {
        "3"
    } else if d == 4 {
        "4"
    } else if d == 5 {
        "5"
    } else if d == 6 {
        "6"
    } else if d == 7 {
        "7"
    } else if d == 8 {
        "8"
    } else {
        "9"
    };
    assert(r@ =~= seq![digit(d as nat)]);
    r
}

fn put_decimal(out: &mut String, n: u64)
    ensures
        final(out)@ == old(out)@ + decimal(n as nat),
    decreases n,
{
    if n >= 10 {
        put_decimal(out, n / 10);
    }
    out.append(digit_text(n % 10));
    assert(out@ =~= old(out)@ + decimal(n as nat));
}

fn put_two_digits(out: &mut String, n: u64)
    ensures
        final(out)@ == old(out)@ + two_digits(n as nat),
{
    if n < 10 {
        out.append(digit_text(0));
    }
    put_decimal(out, n);
    assert(out@ =~= old(out)@ + two_digits(n as nat));
}

/// Writes a count of whole seconds as `HH:MM:SS`.
pub fn format_whole_seconds(secs: i64) -> (r: String)
    ensures
        r@ == duration_text(secs),
{
    proof {
        reveal_strlit("-");
        reveal_strlit(":");
    }
    let mut out = String::new();
    let a: u64 = if secs == i64::MIN {
        0x8000_0000_0000_0000
    } else if secs < 0 {
        (-secs) as u64
    } else {
        secs as u64
    };
    if secs < 0 {
        out.append("-");
    }
    put_two_digits(&mut out, a / 3600);
    out.append(":");
    put_two_digits(&mut out, (a % 3600) / 60);
    out.append(":");
    put_two_digits(&mut out, a % 60);
    assert(out@ =~= duration_text(secs));
    out
}

/// Writes an elapsed time, given in seconds, as `HH:MM:SS`.
///
/// The fractional part of the seconds is cut off before anything is
/// written: 924.497 seconds read `00:15:24`. Callers that need the
/// milliseconds have to take them from the record.
pub fn format_duration(seconds: u32) -> (r: String)
    ensures
        r@ == duration_text(whole_seconds(seconds)),
{
    format_whole_seconds(truncate_seconds(seconds))
}

impl Packet {
    /// The time spent on the current stage as `HH:MM:SS`.
    pub fn stage_time_pretty(self) -> (r: String)
        ensures
            r@ == duration_text(whole_seconds(self.stage_current_time)),
    {
        format_duration(self.stage_current_time)
    }

    /// The time spent in game as `HH:MM:SS`.
    pub fn total_time_pretty(self) -> (r: String)
        ensures
            r@ == duration_text(whole_seconds(self.game_total_time)),
    {
        format_duration(self.game_total_time)
    }

    /// The throttle input as a whole percentage.
    pub fn throttle_percentage(self) -> (r: usize)
        ensures
            r == whole_percent(self.vehicle_throttle),
    {
        percentage(self.vehicle_throttle)
    }

    /// The brake input as a whole percentage.
    pub fn brake_percentage(self) -> (r: usize)
        ensures
            r == whole_percent(self.vehicle_brake),
    {
        percentage(self.vehicle_brake)
    }

    /// The clutch input as a whole percentage.
    pub fn clutch_percentage(self) -> (r: usize)
        ensures
            r == whole_percent(self.vehicle_clutch),
    {
        percentage(self.vehicle_clutch)
    }

    /// The handbrake input as a whole percentage.
    pub fn handbrake_percentage(self) -> (r: usize)
        ensures
            r == whole_percent(self.vehicle_handbrake),
    {
        percentage(self.vehicle_handbrake)
    }
}

/// A fraction from zero to one, both included, gives a percentage from 0
/// to 100. The patterns of these fractions are those up to the pattern of
/// one.
pub proof fn law_percentage_in_range(fraction: u32)
    requires
        fraction <= 0x3F80_0000,
    ensures
        whole_percent(fraction) <= 100,
        fraction == 0x3F80_0000 ==> whole_percent(fraction) == 100,
        fraction == 0 ==> whole_percent(fraction) == 0,
{
    lemma2_to64();
    let e = scaling_exponent(fraction);
    let p = 100 * significand(fraction);
    let shift = (150 - e) as nat;
    assert(exponent_field(fraction) <= 127);
    if exponent_field(fraction) == 127 {
        assert(fraction_field(fraction) == 0);
        assert(p == 100 * 0x0080_0000);
        assert(shift == 23);
        assert(scaled_floor(fraction, 100) == 100);
    } else {
        assert(p < 100 * 0x0100_0000);
        assert(shift >= 24);
        if shift > 24 {
            lemma_pow2_strictly_increases(24, shift);
        }
        lemma_div_is_ordered_by_denominator(p as int, pow2(24) as int, pow2(shift) as int);
        assert(p as int / pow2(24) as int <= 100);
        assert(scaled_floor(fraction, 100) <= 100);
    }
}

/// Who formats the same record again gets the same text and the same
/// numbers: each view is a function of the record's fields alone.
pub proof fn law_views_repeat(first: Packet, second: Packet)
    requires
        first == second,
    ensures
        duration_text(whole_seconds(first.stage_current_time)) == duration_text(
            whole_seconds(second.stage_current_time),
        ),
        duration_text(whole_seconds(first.game_total_time)) == duration_text(
            whole_seconds(second.game_total_time),
        ),
        whole_percent(first.vehicle_throttle) == whole_percent(second.vehicle_throttle),
        whole_percent(first.vehicle_brake) == whole_percent(second.vehicle_brake),
        whole_percent(first.vehicle_clutch) == whole_percent(second.vehicle_clutch),
        whole_percent(first.vehicle_handbrake) == whole_percent(second.vehicle_handbrake),
{
}

} // verus!
