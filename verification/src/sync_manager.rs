//! The decisions of the synchroniser: what to record of a frame, and when to set the
//! system clock to the timecode.

use crate::civil;
use crate::civil::{local_now, utc_now, CivilTime, ZonedTime};
use crate::frame;
use crate::frame::{clock_delta, format_for_date_cmd, frame_age, LtcFrame};
use vstd::prelude::*;

verus! {

/// How long the clock must be out of sync before it is set, in nanoseconds.
pub const OUT_OF_SYNC_WINDOW: u64 = 5_000_000_000;

/// The average delta up to which the clock counts as in sync, in milliseconds.
pub const MAX_DELTA_MS: i64 = 10;

/// Pause between two turns of the synchroniser, in milliseconds.
pub const TURN_PAUSE_MS: u64 = 50;

/// Hardware offsets up to this size never put the jitter of a frame out of range.
pub const SAFE_OFFSET_MS: i64 = 0x4000_0000_0000_0000;

/// What the latest frame means for the recorded jitter and clock deltas.
#[derive(Clone, Copy, Debug, PartialEq, Eq, Structural)]
pub enum Measurement {
    /// No frame yet: leave the records as they are.
    Keep,
    /// The decoder does not follow the signal: drop both records.
    Clear,
    /// Add one value to each record.
    Record { offset_ms: i64, clock_delta_ms: i64 },
    /// The frame's jitter is no 64-bit number, or its moment is on no day of the calendar.
    OutOfRange,
}

/// The jitter of a frame: its age when it is looked at, less what the hardware accounts for.
pub open spec fn jitter_ms(frame: LtcFrame, hw_offset_ms: int, utc_now: CivilTime) -> int {
    frame::delta_ms(civil::utc(utc_now), civil::utc(frame.timestamp)) - hw_offset_ms
}

/// What is measured of a frame while the clock shows `utc_now` and then `now`, and the zone
/// answers `offset`.
pub open spec fn measurement(
    frame: LtcFrame,
    hw_offset_ms: int,
    utc_now: CivilTime,
    now: ZonedTime,
    offset: Option<i32>,
) -> Measurement {
    let jitter = jitter_ms(frame, hw_offset_ms, utc_now);
    if frame.status@ != "LOCK"@ {
        Measurement::Clear
    } else if i64::MIN <= jitter <= i64::MAX && frame.in_range(now) {
        Measurement::Record {
            offset_ms: jitter as i64,
            clock_delta_ms: frame::delta_ms(now, frame.resolved(now, offset)) as i64,
        }
    } else {
        Measurement::OutOfRange
    }
}

/// What is measured of the latest frame, given the readings of the clock and the answer of
/// the zone.
pub fn measure_at(
    frame: &LtcFrame,
    hw_offset_ms: i64,
    utc_now: CivilTime,
    now: &ZonedTime,
    offset: Option<i32>,
) -> (m: Measurement)
    requires
        frame.timestamp.valid(),
        utc_now.regular(),
        now.regular(),
        frame.in_range(*now) ==> frame.answers(*now, offset),
    ensures
        m == measurement(*frame, hw_offset_ms as int, utc_now, *now, offset),
{
    if !frame.locked() {
        return Measurement::Clear;
    }
    let age: i64 = frame_age(utc_now, frame.timestamp);
    match age.checked_sub(hw_offset_ms) {
        Some(offset_ms) => {
            if frame.fits_calendar(now) {
                let ltc: ZonedTime = frame.resolve(now, offset);
                Measurement::Record { offset_ms, clock_delta_ms: clock_delta(now, &ltc) }
            } else {
                Measurement::OutOfRange
            }
        },
        None => Measurement::OutOfRange,
    }
}

/// What is measured of the latest frame, whatever the clock shows and the zone answers.
pub open spec fn measures_somehow(
    latest: Option<LtcFrame>,
    hw_offset_ms: int,
    m: Measurement,
) -> bool {
    match latest {
        None => m == Measurement::Keep,
        Some(frame) => if frame.status@ != "LOCK"@ {
            m == Measurement::Clear
        } else {
            exists|u: CivilTime, now: ZonedTime, offset: Option<i32>|
                civil::utc(u).readable() && now.readable() && civil::clock_showed_utc(u)
                    && civil::clock_showed(now) && (frame.in_range(now) ==> frame.answers(
                    now,
                    offset,
                ) && civil::zone_answered(frame.target(now), offset)) && m
                    == #[trigger] measurement(
                    frame,
                    hw_offset_ms,
                    u,
                    now,
                    offset,
                )
        },
    }
}

/// An ordinary frame has a measurement whatever the clock shows, unless the hardware offset
/// is out of all proportion.
proof fn ordinary_frame_is_recorded(
    frame: LtcFrame,
    hw_offset_ms: int,
    u: CivilTime,
    now: ZonedTime,
    offset: Option<i32>,
)
    requires
        frame.status@ == "LOCK"@,
        frame.ordinary(),
        frame.timestamp.valid(),
        -SAFE_OFFSET_MS <= hw_offset_ms <= SAFE_OFFSET_MS,
        u.regular(),
        now.regular(),
    ensures
        measurement(frame, hw_offset_ms, u, now, offset) is Record,
{
    frame::synced_clock_shows_timecode(frame, now, 0);
    let nanos = civil::elapsed_nanos(civil::utc(u), civil::utc(frame.timestamp));
    let span = 200_000_000 * 86_400 * 1_000_000_000;
    assert(-span <= nanos <= span);
}

/// Measures the latest frame against the clock of the machine. An ordinary locked frame is
/// always recorded.
pub fn measure(latest: &Option<LtcFrame>, hw_offset_ms: i64) -> (m: Measurement)
    requires
        latest matches Some(frame) ==> frame.timestamp.valid(),
    ensures
        measures_somehow(*latest, hw_offset_ms as int, m),
        latest matches Some(frame) ==> frame.status@ == "LOCK"@ && frame.ordinary()
            && -SAFE_OFFSET_MS <= hw_offset_ms <= SAFE_OFFSET_MS ==> m is Record,
{
    match latest {
        None => Measurement::Keep,
        Some(frame) => {
            if !frame.locked() {
                return Measurement::Clear;
            }
            let u: CivilTime = utc_now();
            let now: ZonedTime = local_now();
            let offset: Option<i32> = match frame.ask_zone(&now) {
                Some(answer) => answer,
                None => None,
            };
            proof {
                if frame.ordinary() && -SAFE_OFFSET_MS <= hw_offset_ms <= SAFE_OFFSET_MS {
                    ordinary_frame_is_recorded(*frame, hw_offset_ms as int, u, now, offset);
                }
            }
            measure_at(frame, hw_offset_ms, u, &now, offset)
        },
    }
}

/// What to do to the system clock.
#[derive(Clone, Debug)]
pub enum ClockSync {
    /// There is no frame to go by.
    NoFrame,
    /// The moment of the frame is on no day of the calendar.
    OutOfRange,
    /// Set the time of day to this text.
    SetTo(String),
}

/// Setting the clock by a frame, while the clock shows `now` and the zone answers `offset`.
pub open spec fn sets_clock(
    frame: LtcFrame,
    now: ZonedTime,
    offset: Option<i32>,
    sync: ClockSync,
) -> bool {
    if frame.in_range(now) {
        sync matches ClockSync::SetTo(text) && text@ == frame::clock_text(
            frame.resolved(now, offset).local,
        )
    } else {
        sync is OutOfRange
    }
}

/// How to set the clock by a frame, given the reading of the clock and the answer of the
/// zone.
pub fn clock_sync_at(frame: &LtcFrame, now: &ZonedTime, offset: Option<i32>) -> (sync: ClockSync)
    requires
        now.regular(),
        frame.in_range(*now) ==> frame.answers(*now, offset),
    ensures
        sets_clock(*frame, *now, offset, sync),
{
    if frame.fits_calendar(now) {
        ClockSync::SetTo(format_for_date_cmd(&frame.resolve(now, offset)))
    } else {
        ClockSync::OutOfRange
    }
}

/// Setting the clock by the latest frame, whatever the clock shows and the zone answers. An
/// ordinary frame always sets it.
pub open spec fn sets_clock_somehow(latest: Option<LtcFrame>, sync: ClockSync) -> bool {
    match latest {
        None => sync is NoFrame,
        Some(frame) => {
            &&& frame.ordinary() ==> sync is SetTo
            &&& exists|now: ZonedTime, offset: Option<i32>|
                now.readable() && civil::clock_showed(now) && (frame.in_range(now)
                    ==> frame.answers(now, offset) && civil::zone_answered(
                    frame.target(now),
                    offset,
                )) && #[trigger] sets_clock(frame, now, offset, sync)
        },
    }
}

/// How to set the clock of the machine by the latest frame.
pub fn clock_sync(latest: &Option<LtcFrame>) -> (sync: ClockSync)
    ensures
        sets_clock_somehow(*latest, sync),
{
    match latest {
        None => ClockSync::NoFrame,
        Some(frame) => {
            let now: ZonedTime = local_now();
            let offset: Option<i32> = match frame.ask_zone(&now) {
                Some(answer) => answer,
                None => None,
            };
            proof {
                if frame.ordinary() {
                    frame::synced_clock_shows_timecode(*frame, now, 0);
                }
            }
            clock_sync_at(frame, &now, offset)
        },
    }
}

/// The outcome of looking at the request for a manual sync.
#[derive(Clone, Debug)]
pub struct ManualStep {
    /// Whether the request is still open.
    pub requested: bool,
    /// What to do to the clock; `None` without a request.
    pub sync: Option<ClockSync>,
}

/// Serves a request for a manual sync. It is served once, even without a frame.
pub fn manual_sync(requested: bool, latest: &Option<LtcFrame>) -> (step: ManualStep)
    ensures
        !step.requested,
        step.sync is Some <==> requested,
        step.sync matches Some(sync) ==> sets_clock_somehow(*latest, sync),
{
    if requested {
        ManualStep { requested: false, sync: Some(clock_sync(latest)) }
    } else {
        ManualStep { requested: false, sync: None }
    }
}

/// One look at the state of the clock: whether it is out of sync, and when that was, in
/// nanoseconds of a steady clock.
pub struct Observation {
    pub out: bool,
    pub now: u64,
}

/// The clock counts as out of sync by its status, or by the size of its average delta.
pub open spec fn out_of_sync(status: Seq<char>, avg_delta_ms: int) -> bool {
    status == "OUT OF SYNC"@ || avg_delta_ms > MAX_DELTA_MS || avg_delta_ms < -MAX_DELTA_MS
}

/// The window has passed since the clock was first seen out of sync.
pub open spec fn sync_due(since: Option<u64>, o: Observation) -> bool {
    o.out && (since matches Some(start) && o.now - start >= OUT_OF_SYNC_WINDOW)
}

/// Since when the clock is out of sync, after one more look. A sync that is due begins a
/// new window.
pub open spec fn next_since(since: Option<u64>, o: Observation) -> Option<u64> {
    if !o.out || sync_due(since, o) {
        None
    } else if since is None {
        Some(o.now)
    } else {
        since
    }
}

/// Watches for how long the clock has been out of sync.
#[derive(Clone, Copy, Debug, PartialEq, Eq, Structural)]
pub struct OutOfSyncTimer {
    /// When the clock was first seen out of sync, in nanoseconds of a steady clock.
    pub since: Option<u64>,
}

impl OutOfSyncTimer {
    /// A timer that has seen nothing yet.
    pub fn new() -> (timer: Self)
        ensures
            timer.since is None,
    {
        OutOfSyncTimer { since: None }
    }

    /// Takes one look at the clock, and says whether a sync is due.
    pub fn observe(&mut self, status: &str, avg_delta_ms: i64, now: u64) -> (due: bool)
        requires
            status@ == "OUT OF SYNC"@ || avg_delta_ms > i64::MIN,
        ensures
            due == sync_due(
                old(self).since,
                Observation { out: out_of_sync(status@, avg_delta_ms as int), now },
            ),
            final(self).since == next_since(
                old(self).since,
                Observation { out: out_of_sync(status@, avg_delta_ms as int), now },
            ),
            status@ != "OUT OF SYNC"@ && -10 <= avg_delta_ms <= 10 ==> !due
                && final(self).since is None,
            status@ == "OUT OF SYNC"@ || avg_delta_ms > 10 || avg_delta_ms < -10
                ==> (match old(self).since {
                None => !due && final(self).since == Some(now),
                Some(start) => if now - start >= 5_000_000_000 {
                    due && final(self).since is None
                } else {
                    !due && final(self).since == Some(start)
                },
            }),
    {
        let by_status: bool = status.to_owned() == "OUT OF SYNC".to_owned();
        if by_status || avg_delta_ms > MAX_DELTA_MS || avg_delta_ms < -MAX_DELTA_MS {
            match self.since {
                Some(start) => {
                    if now as i128 - start as i128 >= OUT_OF_SYNC_WINDOW as i128 {
                        self.since = None;
                        true
                    } else {
                        false
                    }
                },
                None => {
                    self.since = Some(now);
                    false
                },
            }
        } else {
            self.since = None;
            false
        }
    }
}

/// Takes one look at the clock, and sets it by the latest frame if a sync is due. A sync that
/// is due is over after that look, even without a frame.
pub fn auto_sync(
    timer: &mut OutOfSyncTimer,
    status: &str,
    avg_delta_ms: i64,
    now: u64,
    latest: &Option<LtcFrame>,
) -> (sync: Option<ClockSync>)
    requires
        status@ == "OUT OF SYNC"@ || avg_delta_ms > i64::MIN,
    ensures
        sync is Some <==> sync_due(
            old(timer).since,
            Observation { out: out_of_sync(status@, avg_delta_ms as int), now },
        ),
        final(timer).since == next_since(
            old(timer).since,
            Observation { out: out_of_sync(status@, avg_delta_ms as int), now },
        ),
        sync is Some <==> (status@ == "OUT OF SYNC"@ || avg_delta_ms > 10 || avg_delta_ms < -10)
            && (old(timer).since matches Some(start) && now - start >= 5_000_000_000),
        sync matches Some(s) ==> sets_clock_somehow(*latest, s),
{
    if timer.observe(status, avg_delta_ms, now) {
        Some(clock_sync(latest))
    } else {
        None
    }
}

/// The state of a timer before look `k` of a row of looks; it starts out with `start`.
pub open spec fn since_before(start: Option<u64>, looks: Seq<Observation>, k: int) -> Option<u64>
    decreases k,
{
    if k <= 0 {
        start
    } else {
        next_since(since_before(start, looks, k - 1), looks[k - 1])
    }
}

/// A sync is due at look `k`.
pub open spec fn due_at(start: Option<u64>, looks: Seq<Observation>, k: int) -> bool {
    sync_due(since_before(start, looks, k), looks[k])
}

/// The clock was out of sync at every look from `from` to `to`.
pub open spec fn out_throughout(looks: Seq<Observation>, from: int, to: int) -> bool {
    forall|i: int| from <= i <= to ==> (#[trigger] looks[i]).out
}

/// No sync was due from look `from` up to look `to`, without the latter.
pub open spec fn none_due(start: Option<u64>, looks: Seq<Observation>, from: int, to: int) -> bool {
    forall|i: int| from <= i < to ==> !#[trigger] due_at(start, looks, i)
}

/// Look `j` began the window that is open before look `k`.
spec fn opened_by(start: Option<u64>, looks: Seq<Observation>, j: int, k: int) -> bool {
    &&& 0 <= j < k
    &&& since_before(start, looks, j) is None
    &&& since_before(start, looks, k) == Some(looks[j].now)
    &&& out_throughout(looks, j, k - 1)
    &&& none_due(start, looks, j, k)
}

proof fn open_window_has_opener(looks: Seq<Observation>, k: int) -> (j: int)
    requires
        0 <= k <= looks.len(),
        since_before(None, looks, k) is Some,
    ensures
        opened_by(None, looks, j, k),
    decreases k,
{
    let before = since_before(None, looks, k - 1);
    if before is None {
        k - 1
    } else {
        let j = open_window_has_opener(looks, k - 1);
        assert(!due_at(None, looks, k - 1));
        j
    }
}

/// A sync comes due only after the clock has been out of sync at every look for the whole
/// window, and no sync was due in the meantime.
pub proof fn due_only_after_window(looks: Seq<Observation>, k: int)
    requires
        0 <= k < looks.len(),
        due_at(None, looks, k),
    ensures
        exists|j: int|
            0 <= j < k && looks[k].now - (#[trigger] looks[j]).now >= OUT_OF_SYNC_WINDOW
                && out_throughout(looks, j, k) && none_due(None, looks, j, k),
{
    let j = open_window_has_opener(looks, k);
    assert(opened_by(None, looks, j, k));
    assert(looks[k].now - looks[j].now >= OUT_OF_SYNC_WINDOW);
}

/// A clock that stays out of sync is set at the first look at which the window has passed,
/// and at none before it.
pub proof fn due_once_window_passes(start: Option<u64>, looks: Seq<Observation>, j: int, k: int)
    requires
        0 <= j < k < looks.len(),
        since_before(start, looks, j) is None,
        out_throughout(looks, j, k),
        forall|i: int|
            j < i < k ==> (#[trigger] looks[i]).now - looks[j].now < OUT_OF_SYNC_WINDOW,
        looks[k].now - looks[j].now >= OUT_OF_SYNC_WINDOW,
    ensures
        due_at(start, looks, k),
        none_due(start, looks, j, k),
{
    assert(looks[j].out);
    window_stays_open(start, looks, j, k);
    assert(looks[k].out);
}

proof fn window_stays_open(start: Option<u64>, looks: Seq<Observation>, j: int, k: int)
    requires
        0 <= j < k < looks.len(),
        since_before(start, looks, j) is None,
        out_throughout(looks, j, k - 1),
        forall|i: int|
            j < i < k ==> (#[trigger] looks[i]).now - looks[j].now < OUT_OF_SYNC_WINDOW,
    ensures
        since_before(start, looks, k) == Some(looks[j].now),
        none_due(start, looks, j, k),
    decreases k,
{
    assert(looks[k - 1].out);
    if j < k - 1 {
        window_stays_open(start, looks, j, k - 1);
    }
    assert(!due_at(start, looks, k - 1));
}

/// One look at a clock in sync closes the window, and so does a sync that is due.
pub proof fn window_closes(start: Option<u64>, looks: Seq<Observation>, k: int)
    requires
        0 <= k < looks.len(),
        !looks[k].out || due_at(start, looks, k),
    ensures
        since_before(start, looks, k + 1) is None,
{
}

/// Two syncs are at least a window apart, if the steady clock does not run backwards.
pub proof fn syncs_are_apart(looks: Seq<Observation>, first: int, second: int)
    requires
        0 <= first < second < looks.len(),
        due_at(None, looks, first),
        due_at(None, looks, second),
        forall|i: int, j: int|
            0 <= i <= j < looks.len() ==> (#[trigger] looks[i]).now <= (#[trigger] looks[j]).now,
    ensures
        looks[second].now - looks[first].now >= OUT_OF_SYNC_WINDOW,
{
    let j = open_window_has_opener(looks, second);
    assert(opened_by(None, looks, j, second));
    assert(first < j);
}

/// A look at a clock with the status OUT OF SYNC counts as out of sync whatever the delta is,
/// and one at a delta above ten milliseconds either way whatever the status is. Every other
/// look counts as in sync.
pub proof fn what_counts_as_out_of_sync(status: Seq<char>, delta: int)
    ensures
        status == "OUT OF SYNC"@ ==> out_of_sync(status, delta),
        delta > 10 ==> out_of_sync(status, delta),
        delta < -10 ==> out_of_sync(status, delta),
        status != "OUT OF SYNC"@ && -10 <= delta <= 10 ==> !out_of_sync(status, delta),
{
}

/// From an empty timer, two looks with the status OUT OF SYNC that are five seconds apart or
/// more make a sync due at the second, whatever the deltas are, and leave the timer empty; if
/// they are less apart, no sync is due and the window stays open.
pub proof fn two_looks_out_of_sync(delta: int, t: u64, later_delta: int, later: u64)
    ensures
        ({
            let first = Observation { out: out_of_sync("OUT OF SYNC"@, delta), now: t };
            let second = Observation { out: out_of_sync("OUT OF SYNC"@, later_delta), now: later };
            let since = next_since(None, first);
            &&& !sync_due(None, first)
            &&& since == Some(t)
            &&& sync_due(since, second) == (later - t >= 5_000_000_000)
            &&& next_since(since, second) == (if later - t >= 5_000_000_000 {
                None
            } else {
                Some(t)
            })
        }),
{
}

/// The same of two looks at a delta of more than ten milliseconds, whatever the status is.
pub proof fn two_looks_far_off(
    status: Seq<char>,
    delta: int,
    t: u64,
    later_status: Seq<char>,
    later_delta: int,
    later: u64,
)
    requires
        delta > 10 || delta < -10,
        later_delta > 10 || later_delta < -10,
    ensures
        ({
            let first = Observation { out: out_of_sync(status, delta), now: t };
            let second = Observation { out: out_of_sync(later_status, later_delta), now: later };
            let since = next_since(None, first);
            &&& since == Some(t)
            &&& sync_due(since, second) == (later - t >= 5_000_000_000)
        }),
{
}

/// A look at a clock in sync makes no sync due and empties the timer, however long it ran.
pub proof fn look_in_sync(since: Option<u64>, status: Seq<char>, delta: int, now: u64)
    requires
        status != "OUT OF SYNC"@,
        -10 <= delta <= 10,
    ensures
        ({
            let look = Observation { out: out_of_sync(status, delta), now };
            &&& !sync_due(since, look)
            &&& next_since(since, look) is None
        }),
{
}

/// A frame is recorded exactly if the decoder is locked, its moment is in the calendar and its
/// jitter is a 64-bit number. Without a lock the records are dropped, and a frame never leaves
/// them as they are.
pub proof fn when_a_frame_is_recorded(
    frame: LtcFrame,
    hw_offset_ms: int,
    u: CivilTime,
    now: ZonedTime,
    offset: Option<i32>,
    age: int,
)
    requires
        frame::is_in_millis(civil::elapsed_nanos(civil::utc(u), civil::utc(frame.timestamp)), age),
    ensures
        ({
            let m = measurement(frame, hw_offset_ms, u, now, offset);
            &&& m is Clear <==> frame.status@ != "LOCK"@
            &&& m is Record <==> frame.status@ == "LOCK"@ && frame.in_range(now)
                && -0x8000_0000_0000_0000 <= age - hw_offset_ms <= 0x7fff_ffff_ffff_ffff
            &&& m !is Keep
        }),
{
    frame::delta_is_time_between(civil::utc(u), civil::utc(frame.timestamp));
}

/// The jitter that is recorded is the age of the frame, cut to milliseconds, less the hardware
/// offset. In particular it is `k` less the offset when the clock is read `k` milliseconds
/// after the frame arrived.
pub proof fn jitter_is_age_less_offset(
    frame: LtcFrame,
    hw_offset_ms: int,
    u: CivilTime,
    now: ZonedTime,
    offset: Option<i32>,
    k: int,
)
    requires
        frame.status@ == "LOCK"@,
        frame.timestamp.regular(),
        u.regular(),
        frame.in_range(now),
    ensures
        ({
            let m = measurement(frame, hw_offset_ms, u, now, offset);
            let arrived = frame.timestamp;
            let waited = (u.day * 86_400 + u.secs - arrived.day * 86_400 - arrived.secs)
                * 1_000_000_000 + u.nanos - arrived.nanos;
            &&& m matches Measurement::Record { offset_ms, .. } ==> frame::is_in_millis(
                waited,
                offset_ms + hw_offset_ms,
            )
            &&& waited == k * 1_000_000 && -0x8000_0000_0000_0000 <= k - hw_offset_ms
                <= 0x7fff_ffff_ffff_ffff ==> (m matches Measurement::Record { offset_ms, .. }
                && offset_ms == k - hw_offset_ms)
        }),
{
    let arrived = frame.timestamp;
    frame::delta_is_time_between(civil::utc(u), civil::utc(arrived));
    let waited = frame::moment(civil::utc(u)) - frame::moment(civil::utc(arrived));
    if waited == k * 1_000_000 {
        frame::delta_counts_milliseconds(civil::utc(u), civil::utc(arrived), k);
    }
}

/// The jitter of a frame that arrived in a leap second counts that second too.
pub proof fn jitter_counts_leap_second(
    frame: LtcFrame,
    hw_offset_ms: int,
    u: CivilTime,
    now: ZonedTime,
    offset: Option<i32>,
)
    ensures
        measurement(frame, hw_offset_ms, u, now, offset) matches Measurement::Record {
            offset_ms,
            ..
        } ==> frame::is_in_millis(
            civil::elapsed_nanos(civil::utc(u), civil::utc(frame.timestamp)),
            offset_ms + hw_offset_ms,
        ),
{
    frame::delta_is_time_between(civil::utc(u), civil::utc(frame.timestamp));
}

/// The clock delta that is recorded is the time from the frame's moment, at the offset that the
/// zone answered, to what the clock shows, cut to milliseconds. It is zero for want of an
/// answer only.
pub proof fn recorded_delta_is_true(
    frame: LtcFrame,
    hw_offset_ms: int,
    u: CivilTime,
    now: ZonedTime,
    offset: Option<i32>,
)
    requires
        now.regular(),
        frame.in_range(now),
        frame.answers(now, offset),
    ensures
        measurement(frame, hw_offset_ms, u, now, offset) matches Measurement::Record {
            clock_delta_ms,
            ..
        } ==> match offset {
            Some(o) => frame::is_in_millis(
                frame::moment(now) - frame::moment(
                    ZonedTime { local: frame.target(now), offset: o },
                ),
                clock_delta_ms as int,
            ),
            None => clock_delta_ms == 0,
        },
{
    let ltc = frame.resolved(now, offset);
    civil::civil_at_is_inverse(frame.target_nanos(now), frame.target(now));
    frame::delta_is_time_between(now, ltc);
    let gap = frame::moment(now) - frame::moment(ltc);
    assert(-200_000_000 * 86_400 * 1_000_000_000 <= gap <= 200_000_000 * 86_400 * 1_000_000_000);
}

/// Whatever is measured of an ordinary locked frame, it was measured by times that the clock
/// has shown and by an answer that the zone gave to the frame's time of today: the recorded
/// delta is the time from there to what the clock showed, and it is zero by default only where
/// the zone had no single offset. The recorded jitter is the age of the frame less the
/// hardware offset.
pub proof fn ordinary_measurement_is_true(frame: LtcFrame, hw_offset_ms: int, m: Measurement)
    requires
        measures_somehow(Some(frame), hw_offset_ms, m),
        frame.status@ == "LOCK"@,
        frame.timestamp.regular(),
        frame.hours < 24,
        frame.minutes < 60,
        frame.seconds < 60,
        0 <= frame.sub_ms < 1000,
        -1_000_000_000_000_000_000 <= hw_offset_ms <= 1_000_000_000_000_000_000,
    ensures
        m matches Measurement::Record { offset_ms, clock_delta_ms } && exists|
            u: CivilTime,
            now: ZonedTime,
            offset: Option<i32>,
        |
            #[trigger] civil::clock_showed_utc(u) && #[trigger] civil::clock_showed(now)
                && #[trigger] civil::zone_answered(frame::today_at(frame, now), offset)
                && frame::is_in_millis(
                frame::moment(civil::utc(u)) - frame::moment(civil::utc(frame.timestamp)),
                offset_ms + hw_offset_ms,
            ) && match offset {
                Some(o) => frame::is_in_millis(
                    frame::moment(now) - frame::moment(
                        ZonedTime { local: frame::today_at(frame, now), offset: o },
                    ),
                    clock_delta_ms as int,
                ),
                None => clock_delta_ms == 0,
            },
{
    let (u, now, offset) = choose|u: CivilTime, now: ZonedTime, offset: Option<i32>|
        civil::utc(u).readable() && now.readable() && civil::clock_showed_utc(u)
            && civil::clock_showed(now) && (frame.in_range(now) ==> frame.answers(now, offset)
            && civil::zone_answered(frame.target(now), offset)) && m == #[trigger] measurement(
            frame,
            hw_offset_ms,
            u,
            now,
            offset,
        );
    frame::answer_decides(frame, now, offset);
    ordinary_frame_is_recorded(frame, hw_offset_ms, u, now, offset);
    jitter_is_age_less_offset(frame, hw_offset_ms, u, now, offset, 0);
    recorded_delta_is_true(frame, hw_offset_ms, u, now, offset);
    assert(civil::clock_showed_utc(u) && civil::clock_showed(now) && civil::zone_answered(
        frame::today_at(frame, now),
        offset,
    ));
}

/// What is measured without a frame, and without a lock: nothing, and the end of the records.
pub proof fn nothing_to_measure(latest: Option<LtcFrame>, hw_offset_ms: int, m: Measurement)
    requires
        measures_somehow(latest, hw_offset_ms, m),
    ensures
        latest is None <==> m is Keep,
        (latest matches Some(frame) && frame.status@ != "LOCK"@) <==> m is Clear,
{
}

/// Whatever an ordinary frame sets the clock to, it is the timecode of the frame, unless the
/// zone was asked for that time of today and had no single offset for it: then it is what the
/// clock showed.
pub proof fn ordinary_sync_sets_timecode(frame: LtcFrame, sync: ClockSync)
    requires
        sets_clock_somehow(Some(frame), sync),
        frame.hours < 24,
        frame.minutes < 60,
        frame.seconds < 60,
        0 <= frame.sub_ms < 1000,
    ensures
        sync matches ClockSync::SetTo(text) && exists|now: ZonedTime, offset: Option<i32>|
            #[trigger] civil::clock_showed(now) && #[trigger] civil::zone_answered(
                frame::today_at(frame, now),
                offset,
            ) && text@ == (match offset {
                Some(_) => frame::time_text(
                    frame.hours as nat,
                    frame.minutes as nat,
                    frame.seconds as nat,
                    frame.sub_ms as nat,
                ),
                None => frame::clock_text(now.local),
            }),
{
    let (now, offset) = choose|now: ZonedTime, offset: Option<i32>|
        now.readable() && civil::clock_showed(now) && (frame.in_range(now) ==> frame.answers(
            now,
            offset,
        ) && civil::zone_answered(frame.target(now), offset)) && #[trigger] sets_clock(
            frame,
            now,
            offset,
            sync,
        );
    frame::answer_decides(frame, now, offset);
    frame::synced_clock_shows_timecode(frame, now, 0);
    if let Some(o) = offset {
        frame::synced_clock_shows_timecode(frame, now, o);
    }
    assert(civil::clock_showed(now) && civil::zone_answered(frame::today_at(frame, now), offset));
}

/// What any frame sets the clock to: the time of day of its moment where the zone has an offset
/// for it, and else what the clock shows. Nothing is set without a frame, or outside the
/// calendar.
pub proof fn sync_follows_frame(
    frame: LtcFrame,
    now: ZonedTime,
    offset: Option<i32>,
    sync: ClockSync,
)
    requires
        sets_clock(frame, now, offset, sync),
    ensures
        sync is SetTo <==> frame.in_range(now),
        sync is OutOfRange <==> !frame.in_range(now),
        sync matches ClockSync::SetTo(text) ==> text@ == (match offset {
            Some(_) => frame::clock_text(frame.target(now)),
            None => frame::clock_text(now.local),
        }),
{
}

/// There is a sync without a frame to go by exactly if there is no frame.
pub proof fn no_frame_sets_nothing(latest: Option<LtcFrame>, sync: ClockSync)
    requires
        sets_clock_somehow(latest, sync),
    ensures
        sync is NoFrame <==> latest is None,
{
}

} // verus!
