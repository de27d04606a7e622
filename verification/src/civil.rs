//! Calendar time as plain numbers, and the calls of chrono that compute with it.

use chrono::{Datelike, FixedOffset, Local, NaiveDate, NaiveTime, Offset, TimeZone, Timelike, Utc};
use vstd::prelude::*;

verus! {

/// The first day that chrono can represent, counted so that 1 January of year 1 is day 1.
pub const MIN_DAY: i32 = -95_746_129;

/// The last day that chrono can represent.
pub const MAX_DAY: i32 = 95_745_399;

/// The day on which the system clock begins to count: 1 January 1970.
pub const EPOCH_DAY: i32 = 719_163;

/// Seconds of a day.
pub const DAY_SECS: u32 = 86_400;

/// Nanoseconds of a second.
pub const SECOND: u32 = 1_000_000_000;

/// Nanoseconds of a millisecond.
pub const MILLI: u32 = 1_000_000;

/// A date and a time of day, without a zone.
#[derive(Clone, Copy, Debug, PartialEq, Eq, Structural)]
pub struct CivilTime {
    /// Day of the proleptic Gregorian calendar; 1 January of year 1 is day 1.
    pub day: i32,
    /// Seconds since midnight.
    pub secs: u32,
    /// Nanoseconds since the last full second; a second or more within a leap second.
    pub nanos: u32,
}

impl CivilTime {
    /// What chrono can represent.
    pub open spec fn valid(self) -> bool {
        &&& MIN_DAY <= self.day <= MAX_DAY
        &&& self.secs < DAY_SECS
        &&& self.nanos < 2 * SECOND
    }

    /// A valid time outside any leap second. Every reading of the system clock is one.
    pub open spec fn regular(self) -> bool {
        self.valid() && self.nanos < SECOND
    }

    /// Full seconds since the midnight that begins day 0.
    pub open spec fn total_secs(self) -> int {
        self.day * DAY_SECS + self.secs
    }

    /// Nanoseconds since the midnight that begins day 0.
    pub open spec fn total_nanos(self) -> int {
        self.total_secs() * SECOND + self.nanos
    }

    /// Hour of the day.
    pub fn hour(&self) -> (h: u32)
        ensures
            h == self.secs / 3600,
    {
        self.secs / 3600
    }

    /// Minute of the hour.
    pub fn minute(&self) -> (m: u32)
        ensures
            m == self.secs / 60 % 60,
    {
        self.secs / 60 % 60
    }

    /// Second of the minute.
    pub fn second(&self) -> (s: u32)
        ensures
            s == self.secs % 60,
    {
        self.secs % 60
    }

    /// Milliseconds since the last full second; a thousand or more within a leap second.
    pub fn subsec_millis(&self) -> (ms: u32)
        ensures
            ms == self.nanos / MILLI,
    {
        self.nanos / MILLI
    }
}

/// Nanoseconds of a day.
pub open spec fn day_nanos() -> int {
    DAY_SECS * SECOND
}

/// Whether a count of nanoseconds lies on a day that chrono can represent.
pub open spec fn representable(nanos: int) -> bool {
    MIN_DAY * day_nanos() <= nanos < (MAX_DAY + 1) * day_nanos()
}

/// The regular time that lies a count of nanoseconds after the midnight that begins day 0.
pub open spec fn civil_at(nanos: int) -> CivilTime {
    CivilTime {
        day: (nanos / day_nanos()) as i32,
        secs: (nanos % day_nanos() / SECOND as int) as u32,
        nanos: (nanos % SECOND as int) as u32,
    }
}

/// A regular time is determined by its count of nanoseconds, and every representable
/// count has one.
pub proof fn civil_at_is_inverse(nanos: int, t: CivilTime)
    requires
        representable(nanos),
    ensures
        civil_at(nanos).regular(),
        civil_at(nanos).total_nanos() == nanos,
        t.regular() && t.total_nanos() == nanos ==> t == civil_at(nanos),
{
    let n = nanos;
    let day = n / 86_400_000_000_000;
    let within = n % 86_400_000_000_000;
    assert(n % 1_000_000_000 == within % 1_000_000_000);
    if t.regular() && t.total_nanos() == nanos {
        let rest = t.secs * 1_000_000_000 + t.nanos;
        assert(0 <= rest < 86_400_000_000_000);
        assert(n == t.day * 86_400_000_000_000 + rest);
        assert(day == t.day);
        assert(within == rest);
    }
}

/// A date and time of a zone, with what the zone is ahead of UTC.
#[derive(Clone, Copy, Debug, PartialEq, Eq, Structural)]
pub struct ZonedTime {
    /// Date and time of day in the zone.
    pub local: CivilTime,
    /// Seconds that the zone is ahead of UTC.
    pub offset: i32,
}

impl ZonedTime {
    /// Full seconds of the same moment in UTC.
    pub open spec fn utc_secs(self) -> int {
        self.local.total_secs() - self.offset
    }

    /// What chrono can represent: the zone's own time, its offset, and the moment in UTC.
    pub open spec fn valid(self) -> bool {
        &&& self.local.valid()
        &&& -DAY_SECS < self.offset < DAY_SECS
        &&& MIN_DAY * DAY_SECS <= self.utc_secs() < (MAX_DAY + 1) * DAY_SECS
    }

    /// A valid time outside any leap second.
    pub open spec fn regular(self) -> bool {
        self.valid() && self.local.nanos < SECOND
    }

    /// What the system clock can show: a regular time since 1970.
    pub open spec fn readable(self) -> bool {
        self.regular() && self.utc_secs() >= EPOCH_DAY * DAY_SECS
    }
}

/// The system clock has shown this time in the local zone. What the predicate says stays in
/// this module: elsewhere it is known of a time only where `local_now` has read it.
pub closed spec fn clock_showed(now: ZonedTime) -> bool {
    now.readable()
}

/// The system clock has shown this time in UTC. What the predicate says stays in this
/// module: elsewhere it is known of a time only where `utc_now` has read it.
pub closed spec fn clock_showed_utc(now: CivilTime) -> bool {
    utc(now).readable()
}

/// The zone of the machine has been asked for the offset of a local date and time, and this
/// is its answer; `None` where it has no single offset. What the predicate says stays in this
/// module: elsewhere it is known of an answer only where `local_offset` has brought it.
pub closed spec fn zone_answered(t: CivilTime, offset: Option<i32>) -> bool {
    offset matches Some(o) ==> (ZonedTime { local: t, offset: o }).regular()
}

/// A time of UTC.
pub open spec fn utc(t: CivilTime) -> ZonedTime {
    ZonedTime { local: t, offset: 0 }
}

/// Nanoseconds from `earlier` to `later`. A leap second that either of them lies in counts
/// where it stands between the two times of day; no other leap second does.
pub open spec fn elapsed_nanos(later: ZonedTime, earlier: ZonedTime) -> int {
    let a = later.utc_secs() % DAY_SECS as int;
    let b = earlier.utc_secs() % DAY_SECS as int;
    let leap: int = if a > b && earlier.local.nanos >= SECOND {
        1
    } else if a < b && later.local.nanos >= SECOND {
        -1
    } else {
        0
    };
    (later.utc_secs() - earlier.utc_secs() + leap) * SECOND + later.local.nanos
        - earlier.local.nanos
}

/// Whole milliseconds of a count of nanoseconds, rounded towards zero.
pub open spec fn whole_millis(nanos: int) -> int {
    if nanos >= 0 {
        nanos / MILLI as int
    } else {
        -((-nanos) / MILLI as int)
    }
}

/// Calls `chrono::NaiveTime::from_hms_opt` and takes the seconds since midnight of the
/// time that it makes. There is one exactly for an hour below 24 and a minute and a second
/// below 60.
#[verifier::external_body]
pub(crate) fn seconds_of_day(hours: u32, minutes: u32, seconds: u32) -> (secs: Option<u32>)
    ensures
        secs == (if hours < 24 && minutes < 60 && seconds < 60 {
            Some((hours * 3600 + minutes * 60 + seconds) as u32)
        } else {
            None::<u32>
        }),
{
    match NaiveTime::from_hms_opt(hours, minutes, seconds) {
        Some(time) => Some(time.num_seconds_from_midnight()),
        None => None,
    }
}

/// Adds `chrono::Duration::milliseconds` to a `chrono::NaiveDateTime`. From a time outside
/// a leap second the sum is exact, and outside a leap second too. chrono panics where the
/// sum is on no day that it can represent.
#[verifier::external_body]
pub(crate) fn shift_millis(t: CivilTime, millis: i64) -> (sum: CivilTime)
    requires
        t.regular(),
        representable(t.total_nanos() + millis * MILLI),
    ensures
        sum.regular(),
        sum.total_nanos() == t.total_nanos() + millis * MILLI,
{
    let date = NaiveDate::from_num_days_from_ce_opt(t.day).unwrap();
    let time = NaiveTime::from_num_seconds_from_midnight_opt(t.secs, t.nanos).unwrap();
    let sum = date.and_time(time) + chrono::Duration::milliseconds(millis);
    CivilTime {
        day: sum.num_days_from_ce(),
        secs: sum.num_seconds_from_midnight(),
        nanos: sum.nanosecond(),
    }
}

/// Calls `from_local_datetime` of `chrono::Local` and takes the offset of the single
/// `DateTime` that it gives. It has the date and time that were asked for, in the zone
/// that the machine is set to. Which offset it has, and whether there is one at all (the
/// zone may skip a time of day, or have it twice), is a matter of that zone.
#[verifier::external_body]
pub(crate) fn local_offset(t: CivilTime) -> (offset: Option<i32>)
    requires
        t.regular(),
    ensures
        offset matches Some(o) ==> (ZonedTime { local: t, offset: o }).regular(),
        zone_answered(t, offset),
{
    let date = NaiveDate::from_num_days_from_ce_opt(t.day).unwrap();
    let time = NaiveTime::from_num_seconds_from_midnight_opt(t.secs, t.nanos).unwrap();
    match Local.from_local_datetime(&date.and_time(time)).single() {
        Some(found) => Some(found.offset().fix().local_minus_utc()),
        None => None,
    }
}

/// Calls `signed_duration_since` of `chrono::DateTime`, which its `-` is too, and
/// `num_milliseconds` of the result: the time that has passed, in whole milliseconds.
#[verifier::external_body]
pub(crate) fn millis_between(later: &ZonedTime, earlier: &ZonedTime) -> (millis: i64)
    requires
        later.valid(),
        earlier.valid(),
    ensures
        millis == whole_millis(elapsed_nanos(*later, *earlier)),
{
    let day_a = NaiveDate::from_num_days_from_ce_opt(later.local.day).unwrap();
    let day_b = NaiveDate::from_num_days_from_ce_opt(earlier.local.day).unwrap();
    let sec_a = NaiveTime::from_num_seconds_from_midnight_opt(later.local.secs, 0);
    let sec_b = NaiveTime::from_num_seconds_from_midnight_opt(earlier.local.secs, 0);
    let time_a = sec_a.unwrap().with_nanosecond(later.local.nanos).unwrap();
    let time_b = sec_b.unwrap().with_nanosecond(earlier.local.nanos).unwrap();
    let zone_a = FixedOffset::east_opt(later.offset).unwrap();
    let zone_b = FixedOffset::east_opt(earlier.offset).unwrap();
    let a = zone_a.from_local_datetime(&day_a.and_time(time_a)).unwrap();
    let b = zone_b.from_local_datetime(&day_b.and_time(time_b)).unwrap();
    a.signed_duration_since(b).num_milliseconds()
}

/// Calls `chrono::Local::now`: what the system clock shows, in the zone that the machine is
/// set to. The clock counts no leap seconds and begins in 1970. What it shows is left open.
/// chrono panics where the clock is before 1970 or past its last day.
#[verifier::external_body]
pub(crate) fn local_now() -> (now: ZonedTime)
    ensures
        now.readable(),
        clock_showed(now),
{
    let now = Local::now();
    let shown = now.naive_local();
    let local = CivilTime {
        day: shown.num_days_from_ce(),
        secs: shown.num_seconds_from_midnight(),
        nanos: shown.nanosecond(),
    };
    ZonedTime { local, offset: now.offset().fix().local_minus_utc() }
}

/// Calls `chrono::Utc::now`: what the system clock shows, in UTC. The clock counts no leap
/// seconds and begins in 1970. What it shows is left open. chrono panics where the clock is
/// before 1970 or past its last day.
#[verifier::external_body]
pub(crate) fn utc_now() -> (now: CivilTime)
    ensures
        utc(now).readable(),
        clock_showed_utc(now),
{
    let now = Utc::now();
    CivilTime {
        day: now.num_days_from_ce(),
        secs: now.num_seconds_from_midnight(),
        nanos: now.nanosecond(),
    }
}

} // verus!
