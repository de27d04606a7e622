use chrono::{Datelike, Local, Timelike, Utc};
use timeturner::civil::{CivilTime, ZonedTime};
use timeturner::frame::LtcFrame;
use timeturner::sync_manager::{
    auto_sync, clock_sync, clock_sync_at, manual_sync, measure, measure_at, ClockSync, Measurement,
    OutOfSyncTimer, SAFE_OFFSET_MS,
};

const DAY: i32 = 738_886;
const SECOND: u64 = 1_000_000_000;

fn civil(day: i32, secs: u32, nanos: u32) -> CivilTime {
    CivilTime { day, secs, nanos }
}

fn zoned(secs: u32, nanos: u32) -> ZonedTime {
    ZonedTime { local: civil(DAY, secs, nanos), offset: 3600 }
}

fn frame(status: &str, hours: u32, minutes: u32, seconds: u32, sub_ms: i64) -> LtcFrame {
    LtcFrame {
        status: status.to_string(),
        hours,
        minutes,
        seconds,
        frames: 0,
        sub_ms,
        timestamp: civil(DAY, 100, 999_999_999),
    }
}

fn utc_now() -> CivilTime {
    let now = Utc::now();
    civil(now.num_days_from_ce(), now.num_seconds_from_midnight(), now.nanosecond())
}

fn text(sync: ClockSync) -> String {
    match sync {
        ClockSync::SetTo(text) => text,
        other => panic!("{:?}", other),
    }
}

#[test]
fn locked_frame_is_recorded() {
    let f = frame("LOCK", 10, 20, 30, 480);
    assert_eq!(
        measure_at(&f, 5, civil(DAY, 102, 0), &zoned(37_230, 0), Some(3600)),
        Measurement::Record { offset_ms: 995, clock_delta_ms: -480 }
    );
    assert_eq!(
        measure_at(&f, -5, civil(DAY, 102, 0), &zoned(37_231, 0), Some(0)),
        Measurement::Record { offset_ms: 1005, clock_delta_ms: 520 - 3_600_000 }
    );
    assert_eq!(
        measure_at(&f, 0, civil(DAY, 102, 0), &zoned(5, 0), None),
        Measurement::Record { offset_ms: 1000, clock_delta_ms: 0 }
    );
}

#[test]
fn unlocked_frame_clears() {
    for status in ["FREE", "lock", ""] {
        let f = frame(status, 10, 20, 30, 480);
        assert_eq!(
            measure_at(&f, 5, civil(DAY, 102, 0), &zoned(0, 0), Some(3600)),
            Measurement::Clear
        );
        assert_eq!(measure(&Some(f), 0), Measurement::Clear);
    }
}

#[test]
fn no_frame_keeps_the_records() {
    assert_eq!(measure(&None, 17), Measurement::Keep);
}

#[test]
fn measurement_out_of_range() {
    let far = frame("LOCK", 10, 20, 30, i64::MAX);
    assert_eq!(
        measure_at(&far, 0, civil(DAY, 102, 0), &zoned(0, 0), None),
        Measurement::OutOfRange
    );
    assert_eq!(measure(&Some(far), 0), Measurement::OutOfRange);
    let f = frame("LOCK", 10, 20, 30, 0);
    assert_eq!(
        measure_at(&f, i64::MIN, civil(DAY, 102, 0), &zoned(0, 0), None),
        Measurement::OutOfRange
    );
}

#[test]
fn measuring_reads_the_clock() {
    let mut f = frame("LOCK", 10, 20, 30, 0);
    f.timestamp = utc_now();
    match measure(&Some(f.clone()), 0) {
        Measurement::Record { offset_ms, .. } => assert!(0 <= offset_ms && offset_ms < 10_000),
        other => panic!("{:?}", other),
    }
    match measure(&Some(f), 1_000_000) {
        Measurement::Record { offset_ms, .. } => {
            assert!(-1_000_000 <= offset_ms && offset_ms < -990_000)
        }
        other => panic!("{:?}", other),
    }
}

#[test]
fn delta_of_a_frame_that_is_no_time_of_day() {
    // such a frame stands for what the clock shows, half a second on
    match measure(&Some(frame("LOCK", 99, 0, 0, 500)), 0) {
        Measurement::Record { clock_delta_ms, .. } => {
            assert!(clock_delta_ms == -500 || clock_delta_ms == 0)
        }
        other => panic!("{:?}", other),
    }
}

#[test]
fn clock_is_set_to_the_timecode() {
    let f = frame("FREE", 1, 2, 3, 45);
    assert_eq!(text(clock_sync_at(&f, &zoned(0, 0), Some(3600))), "01:02:03.045");
    assert_eq!(text(clock_sync_at(&f, &zoned(3661, 7_000_000), None)), "01:01:01.007");
    let odd = frame("LOCK", 25, 0, 0, 1500);
    assert_eq!(text(clock_sync_at(&odd, &zoned(3661, 7_000_000), Some(0))), "01:01:02.507");
}

#[test]
fn clock_is_not_set_out_of_range() {
    let f = frame("LOCK", 1, 2, 3, i64::MIN);
    assert!(matches!(clock_sync_at(&f, &zoned(0, 0), None), ClockSync::OutOfRange));
    assert!(matches!(clock_sync(&Some(f)), ClockSync::OutOfRange));
}

#[test]
fn clock_sync_of_the_machine() {
    assert!(matches!(clock_sync(&None), ClockSync::NoFrame));
    let shown = text(clock_sync(&Some(frame("LOCK", 12, 34, 56, 789))));
    let now = Local::now();
    // the zone has that time, or else the clock stays as it is
    assert!(shown == "12:34:56.789" || shown.starts_with(&format!("{:02}:", now.hour())));
}

#[test]
fn manual_request_is_served_once() {
    let f = Some(frame("LOCK", 12, 34, 56, 789));
    let step = manual_sync(true, &f);
    assert!(!step.requested);
    assert!(matches!(step.sync, Some(ClockSync::SetTo(_))));
    let step = manual_sync(step.requested, &f);
    assert!(!step.requested);
    assert!(step.sync.is_none());
}

#[test]
fn manual_request_without_a_frame_is_closed() {
    let step = manual_sync(true, &None);
    assert!(!step.requested);
    assert!(matches!(step.sync, Some(ClockSync::NoFrame)));
}

#[test]
fn sync_is_due_after_the_window() {
    let mut timer = OutOfSyncTimer::new();
    assert!(!timer.observe("OUT OF SYNC", 0, 7));
    assert_eq!(timer.since, Some(7));
    assert!(!timer.observe("OUT OF SYNC", 0, 7 + 5 * SECOND - 1));
    assert!(timer.observe("OUT OF SYNC", 0, 7 + 5 * SECOND));
    assert_eq!(timer.since, None);
    // a new window begins at the next look
    assert!(!timer.observe("OUT OF SYNC", 0, 8 + 5 * SECOND));
    assert!(!timer.observe("OUT OF SYNC", 0, 10 * SECOND));
    assert!(timer.observe("OUT OF SYNC", 0, 8 + 10 * SECOND));
}

#[test]
fn delta_above_ten_counts_as_out_of_sync() {
    for delta in [11, -11, 5000, i64::MIN + 1] {
        let mut timer = OutOfSyncTimer::new();
        assert!(!timer.observe("IN SYNC", delta, 1));
        assert_eq!(timer.since, Some(1));
    }
    for delta in [0, 10, -10] {
        let mut timer = OutOfSyncTimer { since: Some(1) };
        assert!(!timer.observe("IN SYNC", delta, 100 * SECOND));
        assert_eq!(timer.since, None);
    }
}

#[test]
fn other_statuses_go_by_the_delta() {
    let mut timer = OutOfSyncTimer::new();
    assert!(!timer.observe("UNKNOWN", 0, 1));
    assert_eq!(timer.since, None);
    assert!(!timer.observe("OUT OF SYNC", i64::MIN, 2));
    assert_eq!(timer.since, Some(2));
}

#[test]
fn one_look_in_sync_starts_over() {
    let mut timer = OutOfSyncTimer::new();
    assert!(!timer.observe("OUT OF SYNC", 0, 0));
    assert!(!timer.observe("IN SYNC", 0, 4 * SECOND));
    assert!(!timer.observe("OUT OF SYNC", 0, 6 * SECOND));
    assert!(!timer.observe("OUT OF SYNC", 0, 10 * SECOND));
    assert!(timer.observe("OUT OF SYNC", 0, 11 * SECOND));
}

#[test]
fn steady_clock_that_runs_back_fires_nothing() {
    let mut timer = OutOfSyncTimer { since: Some(9 * SECOND) };
    assert!(!timer.observe("OUT OF SYNC", 0, 0));
    assert_eq!(timer.since, Some(9 * SECOND));
}

#[test]
fn syncs_are_a_window_apart() {
    let mut timer = OutOfSyncTimer::new();
    let mut due = Vec::new();
    let mut now = 0;
    while now < 60 * SECOND {
        if timer.observe("OUT OF SYNC", 0, now) {
            due.push(now);
        }
        now += SECOND / 20;
    }
    assert_eq!(due.len(), 11);
    assert!(due.windows(2).all(|w| w[1] - w[0] >= 5 * SECOND));
}

#[test]
fn due_look_sets_the_clock_and_no_other_does() {
    let f = Some(frame("LOCK", 12, 34, 56, 789));
    let mut timer = OutOfSyncTimer::new();
    assert!(auto_sync(&mut timer, "OUT OF SYNC", 0, 3, &f).is_none());
    assert_eq!(timer.since, Some(3));
    assert!(auto_sync(&mut timer, "IN SYNC", -11, 2 + 5 * SECOND, &f).is_none());
    let sync = auto_sync(&mut timer, "OUT OF SYNC", 0, 3 + 5 * SECOND, &f);
    assert!(matches!(sync, Some(ClockSync::SetTo(_))));
    assert_eq!(timer.since, None);
    assert!(auto_sync(&mut timer, "IN SYNC", 10, 20 * SECOND, &f).is_none());
    assert_eq!(timer.since, None);
}

#[test]
fn due_look_without_a_frame_begins_a_new_window() {
    let mut timer = OutOfSyncTimer { since: Some(0) };
    let sync = auto_sync(&mut timer, "OUT OF SYNC", 0, 5 * SECOND, &None);
    assert!(matches!(sync, Some(ClockSync::NoFrame)));
    assert_eq!(timer.since, None);
}

#[test]
fn automatic_sync_out_of_range() {
    let mut timer = OutOfSyncTimer { since: Some(0) };
    let far = Some(frame("LOCK", 1, 2, 3, i64::MAX));
    let sync = auto_sync(&mut timer, "OUT OF SYNC", 0, 5 * SECOND, &far);
    assert!(matches!(sync, Some(ClockSync::OutOfRange)));
}

#[test]
fn ordinary_frame_is_always_recorded_and_always_sets_the_clock() {
    for (h, m, s, ms) in [(0, 0, 0, 0), (23, 59, 59, 999)] {
        let f = Some(frame("LOCK", h, m, s, ms));
        for hw in [0, SAFE_OFFSET_MS, -SAFE_OFFSET_MS] {
            assert!(matches!(measure(&f, hw), Measurement::Record { .. }));
        }
        assert!(matches!(clock_sync(&f), ClockSync::SetTo(_)));
        assert!(matches!(manual_sync(true, &f).sync, Some(ClockSync::SetTo(_))));
    }
}
