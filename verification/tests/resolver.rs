use chrono::{DateTime, Duration, TimeZone, Utc};
use chrono_tz::Australia::Melbourne;
use tgtb::clock::{Instant, EARLIEST_SECS, LATEST_SECS};
use tgtb::resolver::{
    is_injected_failure, resolve, resolve_with, target_instant, time_after, time_in_4_hours,
    Resolution, Status, BLOCK_SECS, DRAW_SCALE, LAST_PASSING_DRAW, LOOKAHEAD_SECS,
};

/// Midnight UTC on 1 June 2021: winter in Melbourne, ten hours ahead.
const WINTER: i64 = 1_622_505_600;

/// Midnight UTC on 1 January 2021: summer in Melbourne, eleven hours ahead.
const SUMMER: i64 = 1_609_459_200;

fn at(secs: i64, nanos: u32) -> Instant {
    Instant::new(secs, nanos).expect("nanoseconds below one second")
}

/// The draw that stands for a value of the unit interval.
fn draw_for(value: f64) -> u64 {
    (value * 9_007_199_254_740_992.0) as u64
}

/// The timestamp the way it is computed with date-time arithmetic.
fn by_date_arithmetic(now: DateTime<Utc>, offset: i64) -> String {
    (now.with_timezone(&Melbourne) + Duration::hours(4) + Duration::hours(offset * 6)).to_rfc3339()
}

#[test]
fn constants_are_four_and_six_hours() {
    assert_eq!(LOOKAHEAD_SECS, 4 * 60 * 60);
    assert_eq!(BLOCK_SECS, 6 * 60 * 60);
    assert_eq!(DRAW_SCALE, 1u64 << 53);
}

#[test]
fn instant_refuses_a_full_second_of_nanos() {
    assert!(Instant::new(0, 999_999_999).is_some());
    assert!(Instant::new(0, 1_000_000_000).is_none());
    assert!(Instant::new(0, u32::MAX).is_none());
}

#[test]
fn instant_keeps_its_parts() {
    let instant = at(-5, 17);
    assert_eq!(instant.secs(), -5);
    assert_eq!(instant.nanos(), 17);
}

#[test]
fn last_passing_draw_is_ninety_nine_hundredths_of_the_scale() {
    assert_eq!(LAST_PASSING_DRAW, 8_917_127_262_193_582);
    assert_eq!(u128::from(LAST_PASSING_DRAW), 99 * u128::from(DRAW_SCALE) / 100);
}

#[test]
fn draw_at_the_threshold_passes() {
    assert!(!is_injected_failure(LAST_PASSING_DRAW));
}

#[test]
fn draw_just_over_the_threshold_fails() {
    assert!(is_injected_failure(LAST_PASSING_DRAW + 1));
}

#[test]
fn lowest_draw_passes_and_highest_fails() {
    assert!(!is_injected_failure(0));
    assert!(is_injected_failure(DRAW_SCALE - 1));
    assert!(is_injected_failure(u64::MAX));
}

#[test]
fn threshold_is_ninety_nine_hundredths() {
    assert_eq!(draw_for(0.99), LAST_PASSING_DRAW);
    assert!(!is_injected_failure(draw_for(0.99)));
    assert!(is_injected_failure(draw_for(0.995)));
    assert!(!is_injected_failure(draw_for(0.5)));
    assert!(!is_injected_failure(draw_for(0.0)));
}

#[test]
fn draws_fail_exactly_where_the_value_exceeds_the_threshold() {
    let mut value = 0.98_f64;
    while value < 1.0 {
        assert_eq!(is_injected_failure(draw_for(value)), value > 0.99, "value {}", value);
        value += 0.000_137;
    }
}

#[test]
fn target_is_four_hours_ahead_without_offset() {
    let target = target_instant(at(WINTER, 7), 0).expect("in range");
    assert_eq!(target.secs(), WINTER + 14_400);
    assert_eq!(target.nanos(), 7);
}

#[test]
fn target_moves_six_hours_per_unit() {
    assert_eq!(target_instant(at(WINTER, 0), 1).unwrap().secs(), WINTER + 14_400 + 21_600);
    assert_eq!(target_instant(at(WINTER, 0), 2).unwrap().secs(), WINTER + 14_400 + 43_200);
    assert_eq!(target_instant(at(WINTER, 0), -1).unwrap().secs(), WINTER + 14_400 - 21_600);
    assert_eq!(target_instant(at(WINTER, 0), -100).unwrap().secs(), WINTER + 14_400 - 2_160_000);
}

#[test]
fn target_outside_the_years_is_none() {
    assert!(target_instant(at(WINTER, 0), i64::MAX).is_none());
    assert!(target_instant(at(WINTER, 0), i64::MIN).is_none());
    assert!(target_instant(at(i64::MAX, 0), 0).is_none());
    assert!(target_instant(at(i64::MIN, 0), 0).is_none());
    assert!(target_instant(at(i64::MAX, 0), i64::MAX).is_none());
}

#[test]
fn target_range_ends_are_exact() {
    assert!(target_instant(at(LATEST_SECS - 14_400, 0), 0).is_some());
    assert!(target_instant(at(LATEST_SECS - 14_400 + 1, 0), 0).is_none());
    assert!(target_instant(at(EARLIEST_SECS - 14_400, 0), 0).is_some());
    assert!(target_instant(at(EARLIEST_SECS - 14_400 - 1, 0), 0).is_none());
}

#[test]
fn range_is_the_range_of_the_date_library() {
    assert_eq!(DateTime::<Utc>::MIN_UTC.timestamp(), EARLIEST_SECS);
    assert_eq!(DateTime::<Utc>::MAX_UTC.timestamp(), LATEST_SECS);
    assert!(Melbourne.timestamp_opt(EARLIEST_SECS - 1, 0).single().is_none());
    assert!(Melbourne.timestamp_opt(LATEST_SECS + 1, 0).single().is_none());
}

#[test]
fn rendering_succeeds_at_both_ends_of_the_range() {
    assert!(time_after(at(EARLIEST_SECS - 14_400, 0), 0).is_some());
    assert!(time_after(at(LATEST_SECS - 14_400, 999_999_999), 0).is_some());
    assert!(time_after(at(EARLIEST_SECS - 14_400 - 1, 0), 0).is_none());
    assert!(time_after(at(LATEST_SECS - 14_400 + 1, 0), 0).is_none());
}

#[test]
fn winter_time_is_ten_hours_ahead() {
    assert_eq!(time_after(at(WINTER, 0), 0).as_deref(), Some("2021-06-01T14:00:00+10:00"));
}

#[test]
fn summer_time_is_eleven_hours_ahead() {
    assert_eq!(time_after(at(SUMMER, 0), 0).as_deref(), Some("2021-01-01T15:00:00+11:00"));
}

#[test]
fn offset_two_adds_twelve_hours() {
    assert_eq!(time_after(at(WINTER, 0), 2).as_deref(), Some("2021-06-02T02:00:00+10:00"));
}

#[test]
fn negative_offset_goes_back() {
    assert_eq!(time_after(at(WINTER, 0), -1).as_deref(), Some("2021-06-01T08:00:00+10:00"));
}

#[test]
fn clocks_go_back_at_the_end_of_daylight_saving() {
    // Daylight saving ended in Melbourne on 3 April 2021 at 16:00 UTC.
    let change = 1_617_465_600;
    assert_eq!(
        time_after(at(change - 14_400 - 1, 0), 0).as_deref(),
        Some("2021-04-04T02:59:59+11:00")
    );
    assert_eq!(
        time_after(at(change - 14_400, 0), 0).as_deref(),
        Some("2021-04-04T02:00:00+10:00")
    );
}

#[test]
fn offset_can_cross_a_daylight_saving_change() {
    // From summer time, 540 blocks (135 days) on, into winter time.
    assert_eq!(time_after(at(SUMMER, 0), 540).as_deref(), Some("2021-05-16T14:00:00+10:00"));
}

#[test]
fn sub_second_part_is_printed_in_groups_of_three_digits() {
    assert_eq!(
        time_after(at(WINTER, 500_000_000), 0).as_deref(),
        Some("2021-06-01T14:00:00.500+10:00")
    );
    assert_eq!(
        time_after(at(WINTER, 250_000), 0).as_deref(),
        Some("2021-06-01T14:00:00.000250+10:00")
    );
    assert_eq!(
        time_after(at(WINTER, 123_456_789), 0).as_deref(),
        Some("2021-06-01T14:00:00.123456789+10:00")
    );
}

#[test]
fn time_before_the_epoch_is_rendered() {
    assert_eq!(time_after(at(-14_400, 0), 0).as_deref(), Some("1970-01-01T10:00:00+10:00"));
}

#[test]
fn rendering_agrees_with_date_arithmetic() {
    let readings = [0_i64, 1, WINTER, SUMMER, 1_617_465_600, 951_782_400, 4_102_444_800, -86_400];
    let offsets = [0_i64, 1, 2, 3, 4, -1, -2, -7, 40, 1_461, -1_461];
    for secs in readings {
        for nanos in [0_u32, 1, 999_999_999, 120_000_000] {
            for offset in offsets {
                let now = Utc.timestamp_opt(secs, nanos).unwrap();
                assert_eq!(
                    time_after(at(secs, nanos), offset),
                    Some(by_date_arithmetic(now, offset)),
                    "secs {} nanos {} offset {}",
                    secs,
                    nanos,
                    offset
                );
            }
        }
    }
}

#[test]
fn forced_success_resolves_to_the_timestamp() {
    let resolution = resolve_with(0, at(WINTER, 0), 0);
    assert_eq!(
        resolution,
        Resolution {
            status: Status::Success,
            result: Some("2021-06-01T14:00:00+10:00".to_string()),
        }
    );
}

#[test]
fn forced_success_with_offset_two_is_sixteen_hours_ahead() {
    let resolution = resolve_with(draw_for(0.5), at(WINTER, 0), 2);
    assert_eq!(resolution.status, Status::Success);
    assert_eq!(resolution.result.as_deref(), Some("2021-06-02T02:00:00+10:00"));
}

#[test]
fn forced_failure_has_no_result_whatever_the_offset() {
    for offset in [0_i64, 1, 2, -1, 1_000, i64::MAX, i64::MIN] {
        let resolution = resolve_with(draw_for(0.995), at(WINTER, 0), offset);
        assert_eq!(resolution, Resolution { status: Status::Failure, result: None });
    }
}

#[test]
fn unrenderable_target_resolves_to_failure() {
    let resolution = resolve_with(0, at(WINTER, 0), i64::MAX);
    assert_eq!(resolution, Resolution { status: Status::Failure, result: None });
}

#[test]
fn resolution_builders_keep_result_and_status_together() {
    assert_eq!(Resolution::failure(), Resolution { status: Status::Failure, result: None });
    assert_eq!(
        Resolution::success("x".to_string()),
        Resolution { status: Status::Success, result: Some("x".to_string()) }
    );
    assert_eq!(Resolution::from_rendered(None), Resolution::failure());
    assert_eq!(
        Resolution::from_rendered(Some("y".to_string())),
        Resolution::success("y".to_string())
    );
}

#[test]
fn result_is_present_exactly_on_success() {
    for draw in [0, LAST_PASSING_DRAW, LAST_PASSING_DRAW + 1, DRAW_SCALE - 1] {
        for offset in [0_i64, 5, -5, i64::MAX] {
            let resolution = resolve_with(draw, at(SUMMER, 3), offset);
            assert_eq!(resolution.result.is_some(), resolution.status == Status::Success);
        }
    }
}

#[test]
fn time_in_4_hours_reads_the_clock() {
    let before = Utc::now();
    let text = time_in_4_hours(0).expect("the present can be rendered");
    let after = Utc::now();
    let stamp = DateTime::parse_from_rfc3339(&text).expect("an RFC 3339 timestamp");
    assert!(before + Duration::hours(4) <= stamp);
    assert!(stamp <= after + Duration::hours(4));
    let offset_secs = stamp.offset().local_minus_utc();
    assert!(offset_secs == 36_000 || offset_secs == 39_600);
}

#[test]
fn time_in_4_hours_moves_with_the_offset() {
    let before = Utc::now();
    let text = time_in_4_hours(-3).expect("the present can be rendered");
    let after = Utc::now();
    let stamp = DateTime::parse_from_rfc3339(&text).expect("an RFC 3339 timestamp");
    assert!(before - Duration::hours(14) <= stamp);
    assert!(stamp <= after - Duration::hours(14));
}

#[test]
fn resolve_fails_about_one_time_in_a_hundred() {
    let runs = 4_000;
    let mut failures = 0;
    for _ in 0..runs {
        let resolution = resolve(0);
        assert_eq!(resolution.result.is_some(), resolution.status == Status::Success);
        if resolution.status == Status::Failure {
            failures += 1;
        }
    }
    assert!(failures >= 1, "no failure in {} runs", runs);
    assert!(failures <= 200, "{} failures in {} runs", failures, runs);
}
