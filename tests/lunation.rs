use moon_phase::lunation::{
    julian_seconds, phase_name_at, synodic_age_nanos, synodic_eighths, SECONDS_PER_DAY,
    SYNODIC_PERIOD_NANOS, UNIX_EPOCH_JULIAN_SECONDS,
};
use moon_phase::phase::Phase;

#[test]
fn lib_phase_detection() {
    let testcases = [
        (915245340, Phase::Full),           // 1999-01-02T02:49:00+00:00
        (932461200, Phase::FirstQuarter),   // 1999-07-20T09:00:00+00:00
        (947182380, Phase::New),            // 2000-01-06T18:13:00+00:00
        (947856840, Phase::FirstQuarter),   // 2000-01-14T13:34:00+00:00
        (948429600, Phase::Full),           // 2000-01-21T04:40:00+00:00
        (949046160, Phase::LastQuarter),    // 2000-01-28T07:56:00+00:00
        (977764860, Phase::New),            // 2000-12-25T17:21:00+00:00
        (1641148380, Phase::New),           // 2022-01-02T18:33:00+00:00
        (1642290540, Phase::WaxingGibbous), // 2022-01-15T23:49:00+00:00
        (1642291200, Phase::Full),          // 2022-01-16T00:00:00+00:00
        (1642463280, Phase::Full),          // 2022-01-17T23:48:00+00:00
        (1642550340, Phase::Full),          // 2022-01-18T23:59:00+00:00
        (1642610700, Phase::WaningGibbous), // 2022-01-19T16:45:00+00:00
    ];
    for (secs, exp) in &testcases {
        assert_eq!(phase_name_at(*secs), *exp, "Failed for {}", secs);
    }
}

#[test]
fn unix_epoch_is_julian_date_2440587_5() {
    let r = julian_seconds(0);
    assert_eq!(r, 210866760000);
    assert_eq!(2 * r, 4881175 * SECONDS_PER_DAY as i128);
    assert_eq!(r, UNIX_EPOCH_JULIAN_SECONDS as i128);
}

#[test]
fn julian_seconds_of_extremes() {
    assert_eq!(julian_seconds(-86400), 210866760000 - 86400);
    assert_eq!(julian_seconds(i64::MAX), i64::MAX as i128 + 210866760000);
    assert_eq!(julian_seconds(i64::MIN), i64::MIN as i128 + 210866760000);
}

#[test]
fn age_keeps_the_sign_before_the_reference_new_moon() {
    // 84 seconds before the reference new moon.
    assert_eq!(synodic_age_nanos(947182380), -84_000_000_000);
    assert_eq!(synodic_age_nanos(947182464), 0);
    assert_eq!(synodic_age_nanos(948429600), 1_247_136_000_000_000);
    assert_eq!(synodic_age_nanos(0), -597_156_670_396_800);
}

#[test]
fn age_wraps_after_one_synodic_month() {
    // One synodic month is 2551442.8768992 s: 2551442 s after the reference
    // the month is not yet over, two months of 2551443 s are just past it.
    let after_one_month = 947182464 + 2551442;
    assert_eq!(synodic_age_nanos(after_one_month), 2551442 * 1_000_000_000);
    let after_two_months = 947182464 + 2 * 2551443;
    assert_eq!(
        synodic_age_nanos(after_two_months),
        2 * 2551443 * 1_000_000_000 - 2 * SYNODIC_PERIOD_NANOS
    );
}

#[test]
fn eighths_at_both_ends_of_the_range() {
    assert_eq!(synodic_eighths(977764860), 8);
    assert_eq!(synodic_eighths(915245340), -4);
    assert_eq!(synodic_eighths(i64::MIN), -7);
    assert_eq!(synodic_eighths(i64::MAX), 3);
}

#[test]
fn phase_name_before_1970() {
    assert_eq!(phase_name_at(-1000000000), Phase::WaningCrescent);
    assert_eq!(phase_name_at(0), Phase::LastQuarter);
    assert_eq!(phase_name_at(i64::MIN), Phase::WaxingCrescent);
}

#[test]
fn phase_name_is_the_same_on_a_second_call() {
    let first = phase_name_at(1642610700);
    let second = phase_name_at(1642610700);
    assert_eq!(first, second);
    assert_eq!(synodic_age_nanos(1642610700), synodic_age_nanos(1642610700));
}
