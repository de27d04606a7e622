use chrono::{Datelike, Local, NaiveDate, NaiveTime, Offset, TimeZone, Timelike};
use timeturner::civil::{CivilTime, ZonedTime, EPOCH_DAY, MAX_DAY, MIN_DAY};
use timeturner::frame::{clock_delta, format_for_date_cmd, frame_age, LtcFrame};

const DAY: i32 = 738_886;

fn civil(day: i32, secs: u32, nanos: u32) -> CivilTime {
    CivilTime { day, secs, nanos }
}

fn zoned(day: i32, secs: u32, nanos: u32, offset: i32) -> ZonedTime {
    ZonedTime { local: civil(day, secs, nanos), offset }
}

fn frame(hours: u32, minutes: u32, seconds: u32, sub_ms: i64) -> LtcFrame {
    LtcFrame {
        status: "LOCK".to_string(),
        hours,
        minutes,
        seconds,
        frames: 12,
        sub_ms,
        timestamp: civil(DAY, 0, 0),
    }
}

#[test]
fn calendar_bounds_are_those_of_chrono() {
    assert_eq!(NaiveDate::MIN.num_days_from_ce(), MIN_DAY);
    assert_eq!(NaiveDate::MAX.num_days_from_ce(), MAX_DAY);
    assert_eq!(NaiveDate::from_ymd_opt(1970, 1, 1).unwrap().num_days_from_ce(), EPOCH_DAY);
    assert_eq!(NaiveDate::from_ymd_opt(2024, 1, 1).unwrap().num_days_from_ce(), DAY);
}

#[test]
fn fields_of_the_time_of_day() {
    let t = civil(DAY, 23 * 3600 + 59 * 60 + 58, 987_654_321);
    assert_eq!((t.hour(), t.minute(), t.second(), t.subsec_millis()), (23, 59, 58, 987));
    let midnight = civil(DAY, 0, 0);
    assert_eq!((midnight.hour(), midnight.minute(), midnight.second()), (0, 0, 0));
    assert_eq!(midnight.subsec_millis(), 0);
}

#[test]
fn date_command_text() {
    assert_eq!(format_for_date_cmd(&zoned(DAY, 0, 0, 0)), "00:00:00.000");
    assert_eq!(format_for_date_cmd(&zoned(DAY, 3723, 4_999_999, 7200)), "01:02:03.004");
    assert_eq!(format_for_date_cmd(&zoned(DAY, 86_399, 999_999_999, 0)), "23:59:59.999");
    // a leap second
    assert_eq!(format_for_date_cmd(&zoned(DAY, 86_399, 1_250_000_000, 0)), "23:59:59.1250");
}

#[test]
fn lock_is_spelled_exactly() {
    let mut f = frame(0, 0, 0, 0);
    assert!(f.locked());
    for other in ["FREE", "lock", "LOCKED", "LOC", ""] {
        f.status = other.to_string();
        assert!(!f.locked());
    }
}

#[test]
fn target_is_today_at_the_timecode() {
    let now = zoned(DAY, 50_000, 123, 3600);
    let f = frame(10, 20, 30, 480);
    assert!(f.fits_calendar(&now));
    assert_eq!(f.target_time(&now), civil(DAY, 37_230, 480_000_000));
    assert_eq!(f.resolve(&now, Some(3600)), zoned(DAY, 37_230, 480_000_000, 3600));
    assert_eq!(f.resolve(&now, Some(-60)), zoned(DAY, 37_230, 480_000_000, -60));
    assert_eq!(f.resolve(&now, None), now);
}

#[test]
fn impossible_timecode_counts_as_the_clock() {
    let now = zoned(DAY, 50_000, 123, 3600);
    for (h, m, s) in [(24, 0, 0), (1, 60, 0), (1, 2, 60), (u32::MAX, 0, 0)] {
        assert_eq!(frame(h, m, s, 40).target_time(&now), civil(DAY, 50_000, 40_000_123));
    }
}

#[test]
fn milliseconds_carry_over() {
    let now = zoned(DAY, 0, 0, 0);
    assert_eq!(frame(23, 59, 59, 1000).target_time(&now), civil(DAY + 1, 0, 0));
    assert_eq!(frame(23, 59, 59, 1999).target_time(&now), civil(DAY + 1, 0, 999_000_000));
    assert_eq!(frame(0, 0, 0, -1).target_time(&now), civil(DAY - 1, 86_399, 999_000_000));
    assert_eq!(frame(0, 0, 1, -1500).target_time(&now), civil(DAY - 1, 86_399, 500_000_000));
    assert_eq!(frame(12, 0, 0, 86_400_000 * 3).target_time(&now), civil(DAY + 3, 43_200, 0));
}

#[test]
fn times_outside_the_calendar() {
    let now = zoned(DAY, 0, 0, 0);
    assert!(!frame(0, 0, 0, i64::MAX).fits_calendar(&now));
    assert!(!frame(0, 0, 0, i64::MIN).fits_calendar(&now));
    assert_eq!(frame(0, 0, 0, i64::MAX).ask_zone(&now), None);
    let last = zoned(MAX_DAY, 0, 0, 0);
    assert!(frame(23, 59, 59, 999).fits_calendar(&last));
    assert!(!frame(23, 59, 59, 1000).fits_calendar(&last));
    let first = zoned(MIN_DAY, 0, 0, 0);
    assert!(frame(0, 0, 0, 0).fits_calendar(&first));
    assert!(!frame(0, 0, 0, -1).fits_calendar(&first));
    assert_eq!(frame(0, 0, 0, 0).target_time(&first), civil(MIN_DAY, 0, 0));
}

#[test]
fn zone_answers_as_chrono_does() {
    let now = zoned(DAY, 0, 0, 0);
    let date = NaiveDate::from_num_days_from_ce_opt(DAY).unwrap();
    let time = NaiveTime::from_hms_opt(10, 20, 30).unwrap();
    let expected = Local
        .from_local_datetime(&date.and_time(time))
        .single()
        .map(|dt| dt.offset().fix().local_minus_utc());
    assert_eq!(frame(10, 20, 30, 0).ask_zone(&now), Some(expected));
}

#[test]
fn delta_is_ahead_of_the_timecode() {
    let ltc = zoned(DAY, 37_230, 480_000_000, 3600);
    assert_eq!(clock_delta(&ltc, &ltc), 0);
    assert_eq!(clock_delta(&zoned(DAY, 37_231, 0, 3600), &ltc), 520);
    assert_eq!(clock_delta(&zoned(DAY, 37_230, 0, 3600), &ltc), -480);
    assert_eq!(clock_delta(&zoned(DAY + 1, 37_230, 480_000_000, 3600), &ltc), 86_400_000);
    // the same moment elsewhere
    assert_eq!(clock_delta(&zoned(DAY, 33_630, 480_000_000, 0), &ltc), 0);
}

#[test]
fn delta_is_cut_towards_zero() {
    let ltc = zoned(DAY, 100, 0, 0);
    assert_eq!(clock_delta(&zoned(DAY, 100, 999_999, 0), &ltc), 0);
    assert_eq!(clock_delta(&zoned(DAY, 99, 999_000_001, 0), &ltc), 0);
    assert_eq!(clock_delta(&zoned(DAY, 100, 1_999_999, 0), &ltc), 1);
    assert_eq!(clock_delta(&zoned(DAY, 99, 998_000_001, 0), &ltc), -1);
}

#[test]
fn delta_changes_sign_the_other_way_round() {
    let a = zoned(DAY, 100, 1_300_000_000, 0);
    let b = zoned(DAY, 4000, 7, -3600);
    assert_eq!(clock_delta(&a, &b), -clock_delta(&b, &a));
    let c = zoned(DAY, 4000, 700_000_000, 3600);
    assert_eq!(clock_delta(&c, &b), -clock_delta(&b, &c));
}

#[test]
fn age_of_a_frame() {
    assert_eq!(frame_age(civil(DAY, 10, 5_000_000), civil(DAY, 9, 999_000_000)), 6);
    assert_eq!(frame_age(civil(DAY, 0, 0), civil(DAY - 1, 86_399, 0)), 1000);
    assert_eq!(frame_age(civil(DAY, 9, 0), civil(DAY, 10, 0)), -1000);
}

#[test]
fn age_across_a_leap_second() {
    let leap = civil(DAY - 1, 86_399, 1_500_000_000);
    // on the next day the times of day compare the other way round
    assert_eq!(frame_age(civil(DAY, 3600, 0), leap), 3_599_500);
    assert_eq!(frame_age(leap, civil(DAY - 1, 82_800, 0)), 3_600_500);
    assert_eq!(frame_age(civil(DAY, 59, 1_000_000_000), civil(DAY, 0, 0)), 60_000);
    assert_eq!(frame_age(civil(DAY, 3600, 0), civil(DAY, 3599, 1_000_000_000)), 1000);
    assert_eq!(frame_age(civil(DAY, 3599, 1_000_000_000), civil(DAY, 3600, 0)), -1000);
}

#[test]
fn age_spans_the_calendar() {
    let span = (MAX_DAY as i64 - MIN_DAY as i64) * 86_400_000 + 86_399_000;
    assert_eq!(frame_age(civil(MAX_DAY, 86_399, 0), civil(MIN_DAY, 0, 0)), span);
    assert_eq!(frame_age(civil(MIN_DAY, 0, 0), civil(MAX_DAY, 86_399, 0)), -span);
}

#[test]
fn synced_clock_shows_the_timecode() {
    for (h, m, s, ms) in [(0, 0, 0, 0), (10, 20, 30, 480), (23, 59, 59, 999)] {
        let now = zoned(DAY, 50_000, 1, -1800);
        let set = frame(h, m, s, ms).resolve(&now, Some(-1800));
        assert_eq!(set.local.day, DAY);
        assert_eq!(format_for_date_cmd(&set), format!("{:02}:{:02}:{:02}.{:03}", h, m, s, ms));
    }
}

#[test]
fn sync_settles_the_clock() {
    let f = frame(10, 20, 30, 480);
    let now = zoned(DAY, 50_000, 1, 7200);
    let ltc = f.resolve(&now, Some(7200));
    assert_eq!(clock_delta(&now, &ltc), (50_000 - 37_230) * 1000 - 480);
    assert_eq!(clock_delta(&ltc, &f.resolve(&ltc, Some(7200))), 0);
    assert_eq!(clock_delta(&now, &f.resolve(&now, None)), 0);
}

#[test]
fn frame_times_agree_with_chrono() {
    let now = zoned(DAY, 1, 2, 0);
    let date = NaiveDate::from_num_days_from_ce_opt(DAY).unwrap();
    for ms in [-90_000_123i64, -1, 0, 1, 999, 1000, 123_456_789] {
        let sum = date.and_time(NaiveTime::from_hms_opt(6, 7, 8).unwrap())
            + chrono::Duration::milliseconds(ms);
        let t = frame(6, 7, 8, ms).target_time(&now);
        assert_eq!(t.day, sum.num_days_from_ce());
        assert_eq!(t.secs, sum.num_seconds_from_midnight());
        assert_eq!(t.nanos, sum.nanosecond());
    }
}

#[test]
fn clock_text_can_be_read_back() {
    for t in [civil(DAY, 0, 0), civil(DAY, 45_296, 789_000_000), civil(DAY, 86_399, 999_999_999)] {
        let text = format_for_date_cmd(&ZonedTime { local: t, offset: 0 });
        assert_eq!(text.len(), 12);
        assert_eq!(text[0..2].parse::<u32>().unwrap(), t.hour());
        assert_eq!(text[3..5].parse::<u32>().unwrap(), t.minute());
        assert_eq!(text[6..8].parse::<u32>().unwrap(), t.second());
        assert_eq!(text[9..12].parse::<u32>().unwrap(), t.subsec_millis());
    }
}
