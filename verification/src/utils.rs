//! Small helpers: clock readings and the formatting of durations.
pub mod discord;
pub mod spotify;

use vstd::prelude::*;

use crate::text::{decimal, push_char, push_decimal};

verus! {

/// A reading of the system clock: milliseconds after the Unix epoch, or before
/// it when the clock is set earlier.
pub enum ClockReading {
    SinceEpoch(u128),
    BeforeEpoch(u128),
}

/// A point in time by the system clock.
#[verifier::external_type_specification]
#[verifier::external_body]
pub struct ExSystemTime(std::time::SystemTime);

/// How far a point in time lies before the one it was measured against.
#[verifier::external_type_specification]
#[verifier::external_body]
pub struct ExSystemTimeError(std::time::SystemTimeError);

/// The system clock now (`SystemTime::now`); it depends on the machine, so
/// nothing is promised of it.
#[verifier::external_body]
fn system_now() -> std::time::SystemTime {
    std::time::SystemTime::now()
}

/// The time from the Unix epoch to `t` (`SystemTime::duration_since`), or how
/// far `t` lies before the epoch.
#[verifier::external_body]
fn since_epoch(t: &std::time::SystemTime) -> Result<std::time::Duration, std::time::SystemTimeError> {
    t.duration_since(std::time::UNIX_EPOCH)
}

/// How far a point lies before the epoch (`SystemTimeError::duration`).
#[verifier::external_body]
fn before_epoch(e: &std::time::SystemTimeError) -> std::time::Duration {
    e.duration()
}

/// The whole milliseconds of a duration (`Duration::as_millis`).
#[verifier::external_body]
fn whole_millis(d: &std::time::Duration) -> u128 {
    d.as_millis()
}

/// Reads the system clock, in milliseconds after or before the Unix epoch.
pub(crate) fn read_clock() -> ClockReading {
    let now = system_now();
    match since_epoch(&now) {
        Ok(since) => ClockReading::SinceEpoch(whole_millis(&since)),
        Err(before) => ClockReading::BeforeEpoch(whole_millis(&before_epoch(&before))),
    }
}

/// Whole milliseconds since the Unix epoch of a clock reading; `None` for a
/// reading before the epoch.
pub fn millis_since_epoch(reading: ClockReading) -> (r: Option<u128>)
    ensures
        r == match reading {
            ClockReading::SinceEpoch(ms) => Some(ms),
            ClockReading::BeforeEpoch(_) => None::<u128>,
        },
{
    match reading {
        ClockReading::SinceEpoch(ms) => Some(ms),
        ClockReading::BeforeEpoch(_) => None,
    }
}

/// Milliseconds since the Unix epoch by the system clock; `None` when the clock
/// is set before the epoch. The reading itself depends on the machine, so
/// nothing is promised of it; [`millis_since_epoch`] states what is made of it.
pub fn get_time() -> Option<u128> {
    millis_since_epoch(read_clock())
}

/// The clock reading in milliseconds since the epoch as a signed number:
/// negative before the epoch, saturated at the ends of the `i64` range.
pub open spec fn signed_millis(reading: ClockReading) -> i64 {
    match reading {
        ClockReading::SinceEpoch(ms) => if ms <= i64::MAX { ms as i64 } else { i64::MAX },
        ClockReading::BeforeEpoch(ms) => if ms <= i64::MAX { (-ms) as i64 } else { i64::MIN },
    }
}

/// See [`signed_millis`].
pub fn to_signed_millis(reading: ClockReading) -> (r: i64)
    ensures
        r == signed_millis(reading),
{
    match reading {
        ClockReading::SinceEpoch(ms) => if ms <= i64::MAX as u128 { ms as i64 } else { i64::MAX },
        ClockReading::BeforeEpoch(ms) => if ms <= i64::MAX as u128 { -(ms as i64) } else { i64::MIN },
    }
}

/// A duration in seconds as text: `{h}h{m}m{s}s` from one hour on, `{m}m{s}s`
/// from one minute on, else `{s}s`.
pub open spec fn time_text(time: nat) -> Seq<char> {
    if time / 3600 >= 1 {
        decimal(time / 3600) + seq!['h'] + decimal((time % 3600) / 60) + seq!['m'] + decimal((time % 3600) % 60) + seq!['s']
    } else if time / 60 >= 1 {
        decimal(time / 60) + seq!['m'] + decimal(time % 60) + seq!['s']
    } else {
        decimal(time) + seq!['s']
    }
}

/// Formats a duration given in seconds.
pub fn time_to_string(time: u32) -> (r: String)
    ensures
        r@ == time_text(time as nat),
{
    let hour: u32 = 3600;
    let min: u32 = 60;
    let mut s = String::new();
    if time / hour >= 1 {
        push_decimal(&mut s, (time / hour) as u64);
        push_char(&mut s, 'h');
        push_decimal(&mut s, ((time % hour) / min) as u64);
        push_char(&mut s, 'm');
        push_decimal(&mut s, ((time % hour) % min) as u64);
        push_char(&mut s, 's');
    } else if time / min >= 1 {
        push_decimal(&mut s, (time / min) as u64);
        push_char(&mut s, 'm');
        push_decimal(&mut s, (time % min) as u64);
        push_char(&mut s, 's');
    } else {
        push_decimal(&mut s, time as u64);
        push_char(&mut s, 's');
    }
    proof {
        assert(s@ =~= time_text(time as nat));
    }
    s
}
} // verus!
