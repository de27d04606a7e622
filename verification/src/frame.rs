//! A decoded LTC frame, the wall-clock time that it stands for, and how far the system
//! clock is from it.

use crate::civil;
use crate::civil::{
    local_offset, millis_between, seconds_of_day, shift_millis, CivilTime, ZonedTime, DAY_SECS,
    MAX_DAY, MILLI, MIN_DAY, SECOND,
};
use crate::decimal;
use crate::decimal::push_padded;
use vstd::prelude::*;

verus! {

/// The latest timecode frame of the decoder.
#[derive(Clone, Debug)]
pub struct LtcFrame {
    /// `LOCK` while the decoder follows the signal.
    pub status: String,
    pub hours: u32,
    pub minutes: u32,
    pub seconds: u32,
    /// Frame within the second.
    pub frames: u32,
    /// What `frames` frames last at the frame rate of the signal, in milliseconds.
    pub sub_ms: i64,
    /// When the frame arrived, in UTC.
    pub timestamp: CivilTime,
}

impl LtcFrame {
    /// The fields make a time of day.
    pub open spec fn names_time(self) -> bool {
        self.hours < 24 && self.minutes < 60 && self.seconds < 60
    }

    /// The fields make a time of day, and the frames fill less than a second.
    pub open spec fn ordinary(self) -> bool {
        self.names_time() && 0 <= self.sub_ms < 1000
    }

    /// The full second of the frame on the day that `now` shows. A frame that makes no
    /// time of day counts as the time that `now` shows.
    pub open spec fn base(self, now: ZonedTime) -> CivilTime {
        if self.names_time() {
            CivilTime {
                day: now.local.day,
                secs: (self.hours * 3600 + self.minutes * 60 + self.seconds) as u32,
                nanos: 0,
            }
        } else {
            now.local
        }
    }

    /// Nanoseconds up to the moment of the frame.
    pub open spec fn target_nanos(self, now: ZonedTime) -> int {
        self.base(now).total_nanos() + self.sub_ms * MILLI
    }

    /// The moment of the frame is on a day that chrono can represent.
    pub open spec fn in_range(self, now: ZonedTime) -> bool {
        civil::representable(self.target_nanos(now))
    }

    /// Date and time that the frame stands for while the clock shows `now`.
    pub open spec fn target(self, now: ZonedTime) -> CivilTime {
        civil::civil_at(self.target_nanos(now))
    }

    /// An answer of the zone to the question which offset the target has.
    pub open spec fn answers(self, now: ZonedTime, offset: Option<i32>) -> bool {
        offset matches Some(o) ==> (ZonedTime { local: self.target(now), offset: o }).regular()
    }

    /// The target with the offset that the zone gives it; `now` where it gives none.
    pub open spec fn resolved(self, now: ZonedTime, offset: Option<i32>) -> ZonedTime {
        match offset {
            Some(o) => ZonedTime { local: self.target(now), offset: o },
            None => now,
        }
    }

    /// Whether the decoder follows the signal.
    pub fn locked(&self) -> (locked: bool)
        ensures
            locked == (self.status@ == "LOCK"@),
    {
        self.status == "LOCK".to_owned()
    }

    fn base_time(&self, now: &ZonedTime) -> (base: CivilTime)
        requires
            now.regular(),
        ensures
            base == self.base(*now),
            base.regular(),
    {
        match seconds_of_day(self.hours, self.minutes, self.seconds) {
            Some(secs) => CivilTime { day: now.local.day, secs, nanos: 0 },
            None => now.local,
        }
    }

    /// Whether the moment of the frame is on a day that chrono can represent.
    pub fn fits_calendar(&self, now: &ZonedTime) -> (fits: bool)
        requires
            now.regular(),
        ensures
            fits == self.in_range(*now),
    {
        let base: CivilTime = self.base_time(now);
        let day_secs: i128 = DAY_SECS as i128;
        let second: i128 = SECOND as i128;
        let milli: i128 = MILLI as i128;
        let start: i128 = (base.day as i128 * day_secs + base.secs as i128) * second
            + base.nanos as i128;
        let nanos: i128 = start + self.sub_ms as i128 * milli;
        let first: i128 = MIN_DAY as i128 * day_secs * second;
        let end: i128 = (MAX_DAY as i128 + 1) * day_secs * second;
        first <= nanos && nanos < end
    }

    /// Date and time that the frame stands for while the clock shows `now`.
    pub fn target_time(&self, now: &ZonedTime) -> (t: CivilTime)
        requires
            now.regular(),
            self.in_range(*now),
        ensures
            t == self.target(*now),
            t.regular(),
    {
        let base: CivilTime = self.base_time(now);
        let t: CivilTime = shift_millis(base, self.sub_ms);
        proof {
            civil::civil_at_is_inverse(self.target_nanos(*now), t);
        }
        t
    }

    /// The frame's date and time in the local zone, given what the zone answered.
    pub fn resolve(&self, now: &ZonedTime, offset: Option<i32>) -> (z: ZonedTime)
        requires
            now.regular(),
            self.in_range(*now),
            self.answers(*now, offset),
        ensures
            z == self.resolved(*now, offset),
            z.regular(),
    {
        match offset {
            Some(o) => ZonedTime { local: self.target_time(now), offset: o },
            None => *now,
        }
    }

    /// Asks the zone of the machine for the offset of the frame's date and time; `None`
    /// where that is on no day that chrono can represent.
    pub fn ask_zone(&self, now: &ZonedTime) -> (answer: Option<Option<i32>>)
        requires
            now.regular(),
        ensures
            answer is Some <==> self.in_range(*now),
            answer matches Some(offset) ==> self.answers(*now, offset) && civil::zone_answered(
                self.target(*now),
                offset,
            ),
    {
        if self.fits_calendar(now) {
            Some(local_offset(self.target_time(now)))
        } else {
            None
        }
    }
}

/// How far `now` is ahead of `ltc`, in whole milliseconds.
pub open spec fn delta_ms(now: ZonedTime, ltc: ZonedTime) -> int {
    civil::whole_millis(civil::elapsed_nanos(now, ltc))
}

/// How far the clock is ahead of the timecode, in whole milliseconds.
pub fn clock_delta(now: &ZonedTime, ltc: &ZonedTime) -> (delta: i64)
    requires
        now.valid(),
        ltc.valid(),
    ensures
        delta == delta_ms(*now, *ltc),
{
    millis_between(now, ltc)
}

/// How long before `now` the frame arrived, in whole milliseconds. Both are in UTC.
pub fn frame_age(now: CivilTime, arrival: CivilTime) -> (age: i64)
    requires
        now.valid(),
        arrival.valid(),
    ensures
        age == delta_ms(civil::utc(now), civil::utc(arrival)),
{
    millis_between(&ZonedTime { local: now, offset: 0 }, &ZonedTime { local: arrival, offset: 0 })
}

/// A time of day and its milliseconds as `HH:MM:SS.mmm`.
pub open spec fn time_text(hours: nat, minutes: nat, seconds: nat, millis: nat) -> Seq<char> {
    decimal::padded(hours, 2) + seq![':'] + decimal::padded(minutes, 2) + seq![':']
        + decimal::padded(seconds, 2) + seq!['.'] + decimal::padded(millis, 3)
}

/// The time of day of `t` as `HH:MM:SS.mmm`; four digits of milliseconds in a leap second.
pub open spec fn clock_text(t: CivilTime) -> Seq<char> {
    time_text(
        (t.secs / 3600) as nat,
        (t.secs / 60 % 60) as nat,
        (t.secs % 60) as nat,
        (t.nanos / MILLI) as nat,
    )
}

/// The time of day of `dt` as the `date` command reads it: `HH:MM:SS.mmm`.
pub fn format_for_date_cmd(dt: &ZonedTime) -> (text: String)
    ensures
        text@ == clock_text(dt.local),
{
    proof {
        reveal_strlit(":");
        reveal_strlit(".");
    }
    let mut text: String = String::new();
    push_padded(&mut text, dt.local.hour() as u64, 2);
    text.append(":");
    push_padded(&mut text, dt.local.minute() as u64, 2);
    text.append(":");
    push_padded(&mut text, dt.local.second() as u64, 2);
    text.append(".");
    push_padded(&mut text, dt.local.subsec_millis() as u64, 3);
    assert(":"@ =~= seq![':']);
    assert("."@ =~= seq!['.']);
    text
}

/// The text of a time of day has its separators in place and nothing but digits elsewhere,
/// and hour, minute, second and millisecond can be read back from it. It has twelve characters
/// outside a leap second and thirteen within one.
pub proof fn clock_text_reads_back(t: CivilTime)
    requires
        t.secs < DAY_SECS,
        t.nanos < 2 * SECOND,
    ensures
        clock_text(t).len() == (if t.nanos < 1_000_000_000 { 12nat } else { 13nat }),
        decimal::value(clock_text(t).subrange(0, 2)) == t.secs / 3600,
        decimal::value(clock_text(t).subrange(3, 5)) == t.secs / 60 % 60,
        decimal::value(clock_text(t).subrange(6, 8)) == t.secs % 60,
        decimal::value(clock_text(t).skip(9)) == t.nanos / 1_000_000,
        t.nanos < 1_000_000_000 ==> decimal::value(clock_text(t).subrange(9, 12)) == t.nanos
            / 1_000_000,
        clock_text(t)[2] == ':',
        clock_text(t)[5] == ':',
        clock_text(t)[8] == '.',
        forall|i: int|
            0 <= i < clock_text(t).len() && i != 2 && i != 5 && i != 8 ==> decimal::is_digit(
                #[trigger] clock_text(t)[i],
            ),
{
    time_text_reads_back(
        (t.secs / 3600) as nat,
        (t.secs / 60 % 60) as nat,
        (t.secs % 60) as nat,
        (t.nanos / MILLI) as nat,
    );
    if t.nanos < SECOND {
        assert(clock_text(t).subrange(9, 12) =~= clock_text(t).skip(9));
    }
}

/// Of four numbers the text of a time can be taken apart again: the first three take two
/// digits each, and the last takes the rest.
pub proof fn time_text_reads_back(hours: nat, minutes: nat, seconds: nat, millis: nat)
    requires
        hours < 100,
        minutes < 100,
        seconds < 100,
        millis < 10_000,
    ensures
        ({
            let text = time_text(hours, minutes, seconds, millis);
            &&& text.len() == (if millis < 1000 { 12nat } else { 13nat })
            &&& decimal::value(text.subrange(0, 2)) == hours
            &&& decimal::value(text.subrange(3, 5)) == minutes
            &&& decimal::value(text.subrange(6, 8)) == seconds
            &&& decimal::value(text.skip(9)) == millis
            &&& text[2] == ':' && text[5] == ':' && text[8] == '.'
            &&& forall|i: int|
                0 <= i < text.len() && i != 2 && i != 5 && i != 8 ==> decimal::is_digit(
                    #[trigger] text[i],
                )
        }),
{
    let text = time_text(hours, minutes, seconds, millis);
    decimal::padded_fills(hours);
    decimal::padded_fills(minutes);
    decimal::padded_fills(seconds);
    decimal::padded_fills(millis);
    decimal::padded_denotes(hours, 2);
    decimal::padded_denotes(minutes, 2);
    decimal::padded_denotes(seconds, 2);
    decimal::padded_denotes(millis, 3);
    decimal::padded_is_plain(hours, 2);
    decimal::padded_is_plain(minutes, 2);
    decimal::padded_is_plain(seconds, 2);
    decimal::padded_is_plain(millis, 3);
    assert(text.subrange(0, 2) =~= decimal::padded(hours, 2));
    assert(text.subrange(3, 5) =~= decimal::padded(minutes, 2));
    assert(text.subrange(6, 8) =~= decimal::padded(seconds, 2));
    assert(text.skip(9) =~= decimal::padded(millis, 3));
    assert forall|i: int|
        0 <= i < text.len() && i != 2 && i != 5 && i != 8 implies decimal::is_digit(
        #[trigger] text[i],
    ) by {
        if i < 2 {
            assert(text[i] == decimal::padded(hours, 2)[i]);
        } else if i < 5 {
            assert(text[i] == decimal::padded(minutes, 2)[i - 3]);
        } else if i < 8 {
            assert(text[i] == decimal::padded(seconds, 2)[i - 6]);
        } else {
            assert(text[i] == decimal::padded(millis, 3)[i - 9]);
        }
    }
}

/// Nanoseconds of the moment of a time in UTC.
pub open spec fn moment(z: ZonedTime) -> int {
    (z.local.day * 86_400 + z.local.secs - z.offset) * 1_000_000_000 + z.local.nanos
}

/// `millis` is a count of nanoseconds in milliseconds, without what is below a millisecond.
pub open spec fn is_in_millis(nanos: int, millis: int) -> bool {
    &&& nanos >= 0 ==> millis * 1_000_000 <= nanos < (millis + 1) * 1_000_000
    &&& nanos <= 0 ==> (millis - 1) * 1_000_000 < nanos <= millis * 1_000_000
}

/// The time of an ordinary frame on the day that the clock shows.
pub open spec fn today_at(frame: LtcFrame, now: ZonedTime) -> CivilTime {
    CivilTime {
        day: now.local.day,
        secs: (frame.hours * 3600 + frame.minutes * 60 + frame.seconds) as u32,
        nanos: (frame.sub_ms * 1_000_000) as u32,
    }
}

/// A frame that names a time of day stands for that time on the day that the clock shows,
/// moved by its milliseconds, and it stands for nothing where that is outside the calendar.
pub proof fn target_counts_from_midnight(frame: LtcFrame, now: ZonedTime)
    requires
        now.regular(),
        frame.hours < 24,
        frame.minutes < 60,
        frame.seconds < 60,
    ensures
        ({
            let secs = now.local.day * 86_400 + frame.hours * 3600 + frame.minutes * 60
                + frame.seconds;
            let nanos = secs * 1_000_000_000 + frame.sub_ms * 1_000_000;
            let t = frame.target(now);
            &&& frame.in_range(now) == (-95_746_129 * 86_400_000_000_000 <= nanos < 95_745_400
                * 86_400_000_000_000)
            &&& frame.in_range(now) ==> t.regular() && (t.day * 86_400 + t.secs) * 1_000_000_000
                + t.nanos == nanos
        }),
{
    if frame.in_range(now) {
        civil::civil_at_is_inverse(frame.target_nanos(now), frame.target(now));
    }
}

/// A frame that names no time of day stands for what the clock shows, moved by its
/// milliseconds.
pub proof fn target_counts_from_clock(frame: LtcFrame, now: ZonedTime)
    requires
        now.regular(),
        frame.hours >= 24 || frame.minutes >= 60 || frame.seconds >= 60,
    ensures
        ({
            let secs = now.local.day * 86_400 + now.local.secs;
            let nanos = secs * 1_000_000_000 + now.local.nanos + frame.sub_ms * 1_000_000;
            let t = frame.target(now);
            &&& frame.in_range(now) == (-95_746_129 * 86_400_000_000_000 <= nanos < 95_745_400
                * 86_400_000_000_000)
            &&& frame.in_range(now) ==> t.regular() && (t.day * 86_400 + t.secs) * 1_000_000_000
                + t.nanos == nanos
        }),
{
    if frame.in_range(now) {
        civil::civil_at_is_inverse(frame.target_nanos(now), frame.target(now));
    }
}

/// The time of a frame has the offset that the zone answers, and only without an answer is it
/// the time that the clock shows. For an ordinary frame it is the timecode itself, today.
pub proof fn answer_decides(frame: LtcFrame, now: ZonedTime, offset: Option<i32>)
    requires
        now.regular(),
    ensures
        offset matches Some(o) ==> frame.resolved(now, offset).local == frame.target(now)
            && frame.resolved(now, offset).offset == o,
        offset is None ==> frame.resolved(now, offset) == now,
        frame.hours < 24 && frame.minutes < 60 && frame.seconds < 60 && 0 <= frame.sub_ms < 1000
            ==> frame.in_range(now) && frame.target(now) == today_at(frame, now),
{
    if frame.ordinary() {
        civil::civil_at_is_inverse(frame.target_nanos(now), today_at(frame, now));
    }
}

/// The delta of two times is the time between them in milliseconds, cut towards zero: between
/// regular times the difference of their moments, and else what a leap second makes of it.
pub proof fn delta_is_time_between(now: ZonedTime, ltc: ZonedTime)
    ensures
        is_in_millis(civil::elapsed_nanos(now, ltc), delta_ms(now, ltc)),
        now.local.nanos < 1_000_000_000 && ltc.local.nanos < 1_000_000_000 ==> is_in_millis(
            moment(now) - moment(ltc),
            delta_ms(now, ltc),
        ),
{
    let gap = civil::elapsed_nanos(now, ltc);
    if now.local.nanos < 1_000_000_000 && ltc.local.nanos < 1_000_000_000 {
        assert(gap == moment(now) - moment(ltc));
    }
}

/// A clock that is set by a frame shows the timecode of the frame, with its frames as
/// milliseconds, on the day that the clock showed before: whatever the clock showed, if the
/// frame names a time of day, its frames fill less than a second and the zone has that time.
pub proof fn synced_clock_shows_timecode(frame: LtcFrame, now: ZonedTime, offset: i32)
    requires
        now.regular(),
        frame.ordinary(),
    ensures
        frame.in_range(now),
        frame.resolved(now, Some(offset)).local.day == now.local.day,
        clock_text(frame.resolved(now, Some(offset)).local) == time_text(
            frame.hours as nat,
            frame.minutes as nat,
            frame.seconds as nat,
            frame.sub_ms as nat,
        ),
{
    let secs = frame.hours * 3600 + frame.minutes * 60 + frame.seconds;
    let shown = CivilTime {
        day: now.local.day,
        secs: secs as u32,
        nanos: (frame.sub_ms * MILLI) as u32,
    };
    assert(shown.regular() && shown.total_nanos() == frame.target_nanos(now));
    civil::civil_at_is_inverse(frame.target_nanos(now), shown);
    assert(secs / 3600 == frame.hours);
    assert(secs / 60 % 60 == frame.minutes);
    assert(secs % 60 == frame.seconds);
    assert(frame.sub_ms * 1_000_000 / 1_000_000 == frame.sub_ms);
}

/// Where the zone has no single offset for the frame's time, the clock counts as right: its
/// delta is zero, and setting it sets what it shows.
pub proof fn unresolved_frame_changes_nothing(frame: LtcFrame, now: ZonedTime)
    ensures
        frame.resolved(now, None) == now,
        delta_ms(now, frame.resolved(now, None)) == 0,
        clock_text(frame.resolved(now, None).local) == clock_text(now.local),
{
}

/// The delta of two times is the negative of the delta the other way round.
pub proof fn delta_is_antisymmetric(a: ZonedTime, b: ZonedTime)
    ensures
        delta_ms(a, b) == -delta_ms(b, a),
{
    let there = civil::elapsed_nanos(a, b);
    let back = civil::elapsed_nanos(b, a);
    assert(there == -back);
}

/// A clock that is a number of whole milliseconds ahead of the timecode, or behind it, has
/// that number as its delta, whatever the two offsets from UTC are.
pub proof fn delta_counts_milliseconds(now: ZonedTime, ltc: ZonedTime, ahead: int)
    requires
        now.regular(),
        ltc.regular(),
        now.utc_secs() * SECOND + now.local.nanos == ltc.utc_secs() * SECOND + ltc.local.nanos
            + ahead * MILLI,
    ensures
        delta_ms(now, ltc) == ahead,
{
    assert(civil::elapsed_nanos(now, ltc) == ahead * 1_000_000);
    if ahead < 0 {
        assert((-ahead) * 1_000_000 / 1_000_000 == -ahead);
    } else {
        assert(ahead * 1_000_000 / 1_000_000 == ahead);
    }
}

/// A time without what it has below the millisecond: what a clock shows that is set to its
/// text.
pub open spec fn to_the_millisecond(z: ZonedTime) -> ZonedTime {
    ZonedTime {
        local: CivilTime { nanos: (z.local.nanos / MILLI * MILLI) as u32, ..z.local },
        offset: z.offset,
    }
}

/// A sync settles: a clock that was set by a frame shows the text it was set to, and measured
/// by the same frame it has the delta zero, as long as the frame's moment is on the day that
/// the clock showed before.
pub proof fn sync_settles(frame: LtcFrame, now: ZonedTime, offset: i32)
    requires
        now.regular(),
        frame.names_time(),
        frame.in_range(now),
        frame.answers(now, Some(offset)),
        frame.target(now).day == now.local.day,
    ensures
        ({
            let ltc = frame.resolved(now, Some(offset));
            let set = to_the_millisecond(ltc);
            &&& clock_text(set.local) == clock_text(ltc.local)
            &&& frame.resolved(set, Some(offset)) == ltc
            &&& delta_ms(set, frame.resolved(set, Some(offset))) == 0
        }),
{
    let ltc = frame.resolved(now, Some(offset));
    let set = to_the_millisecond(ltc);
    civil::civil_at_is_inverse(frame.target_nanos(now), ltc.local);
    assert(ltc.local.nanos / 1_000_000 * 1_000_000 / 1_000_000 == ltc.local.nanos / 1_000_000);
    assert(frame.base(set) == frame.base(now));
    let gap = civil::elapsed_nanos(set, ltc);
    assert(gap == set.local.nanos - ltc.local.nanos);
    assert(-1_000_000 < gap <= 0);
}

} // verus!
