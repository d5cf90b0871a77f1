use vstd::prelude::*;

use crate::phase::{eighths_bucket, phase_at, Phase};

verus! {

/// Seconds in one day.
pub const SECONDS_PER_DAY: i64 = 86400;

/// The Unix epoch, 1970-01-01T00:00:00Z, as seconds on the Julian day count
/// (Julian date 2440587.5).
pub const UNIX_EPOCH_JULIAN_SECONDS: i64 = 210866760000;

/// A new moon used as the reference of the synodic cycle, 2000-01-06 at
/// 18:14 UTC, as seconds on the Julian day count (Julian date 2451550.26).
pub const SYNODIC_OFFSET_JULIAN_SECONDS: i64 = 211813942464;

/// Length of the synodic month, 29.530588853 days, in nanoseconds.
pub const SYNODIC_PERIOD_NANOS: i128 = 2551442876899200;

/// Nanoseconds in one second.
pub const NANOS_PER_SECOND: i128 = 1000000000;

/// The instant `secs` seconds after the Unix epoch, as seconds on the Julian
/// day count: the Julian date times the length of a day.
pub open spec fn spec_julian_seconds(secs: int) -> int {
    secs + UNIX_EPOCH_JULIAN_SECONDS
}

/// Remainder of `n` divided by `d` with the quotient truncated toward zero:
/// it carries the sign of `n`, so that `-3` over `10` leaves `-3`, not `7`.
pub open spec fn trunc_rem(n: int, d: int) -> int
    recommends
        d > 0,
{
    if n >= 0 {
        n % d
    } else {
        -((-n) % d)
    }
}

/// `num / den` rounded to the nearest integer, a tie away from zero.
pub open spec fn round_half_away(num: int, den: int) -> int
    recommends
        den > 0,
{
    if num >= 0 {
        (2 * num + den) / (2 * den)
    } else {
        -((-2 * num + den) / (2 * den))
    }
}

/// Age of the moon at the instant `secs` seconds after the Unix epoch, in
/// nanoseconds: the time since the reference new moon, reduced modulo the
/// synodic month with the sign of that time kept (negative before the
/// reference new moon). Divided by the synodic month it is the phase.
pub open spec fn spec_synodic_age_nanos(secs: int) -> int {
    trunc_rem(
        (spec_julian_seconds(secs) - SYNODIC_OFFSET_JULIAN_SECONDS) * NANOS_PER_SECOND,
        SYNODIC_PERIOD_NANOS as int,
    )
}

/// The phase at the instant `secs` seconds after the Unix epoch, rounded to
/// the nearest whole number of eighths of a cycle.
pub open spec fn spec_synodic_eighths(secs: int) -> int {
    round_half_away(8 * spec_synodic_age_nanos(secs), SYNODIC_PERIOD_NANOS as int)
}

/// The named stage of the moon at the instant `secs` seconds after the Unix epoch.
pub open spec fn spec_phase_name_at(secs: int) -> Phase {
    phase_at(eighths_bucket(spec_synodic_eighths(secs)))
}

/// The instant `secs` seconds after the Unix epoch as seconds on the Julian
/// day count. Exact for every `i64`, negative (pre-1970) values included.
pub fn julian_seconds(secs: i64) -> (r: i128)
    ensures
        r == spec_julian_seconds(secs as int),
{
    secs as i128 + UNIX_EPOCH_JULIAN_SECONDS as i128
}

/// The Unix epoch lies on Julian date 2440587.5: twice its Julian seconds are
/// 4881175 days.
pub proof fn lemma_unix_epoch_julian_date()
    ensures
        2 * spec_julian_seconds(0) == 4881175 * SECONDS_PER_DAY,
{
}

/// Age of the moon, in nanoseconds, at the instant `secs` seconds after the
/// Unix epoch. The result lies strictly between minus and plus one synodic
/// month, and has the sign of the time since the reference new moon.
pub fn synodic_age_nanos(secs: i64) -> (r: i128)
    ensures
        r == spec_synodic_age_nanos(secs as int),
        -SYNODIC_PERIOD_NANOS < r < SYNODIC_PERIOD_NANOS,
        spec_julian_seconds(secs as int) >= SYNODIC_OFFSET_JULIAN_SECONDS ==> r >= 0,
        spec_julian_seconds(secs as int) < SYNODIC_OFFSET_JULIAN_SECONDS ==> r <= 0,
{
    let since_reference: i128 = (julian_seconds(secs) - SYNODIC_OFFSET_JULIAN_SECONDS as i128)
        * NANOS_PER_SECOND;
    if since_reference >= 0 {
        since_reference % SYNODIC_PERIOD_NANOS
    } else {
        -((-since_reference) % SYNODIC_PERIOD_NANOS)
    }
}

/// The phase at the instant `secs` seconds after the Unix epoch, rounded to
/// the nearest whole number of eighths of a cycle (a tie away from zero).
/// The result lies in `-8..=8`.
pub fn synodic_eighths(secs: i64) -> (r: i64)
    ensures
        r == spec_synodic_eighths(secs as int),
        -8 <= r <= 8,
{
    let age = synodic_age_nanos(secs);
    let magnitude: i128 = if age >= 0 {
        age
    } else {
        -age
    };
    let p = SYNODIC_PERIOD_NANOS;
    let rounded: i128 = (16 * magnitude + p) / (2 * p);
    assert(0 <= rounded <= 8) by (nonlinear_arith)
        requires
            0 <= magnitude < p,
            p > 0,
            rounded == (16 * magnitude + p) / (2 * p),
    ;
    let rounded: i128 = if age >= 0 {
        rounded
    } else {
        -rounded
    };
    rounded as i64
}

/// The named stage of the moon at the instant `secs` seconds after the Unix
/// epoch, computed exactly: the phase is rounded to the nearest eighth of a
/// cycle and that count of eighths, reduced into `0..8`, picks the stage.
pub fn phase_name_at(secs: i64) -> (r: Phase)
    ensures
        r == spec_phase_name_at(secs as int),
{
    Phase::from_eighths(synodic_eighths(secs))
}

} // verus!
