//! The terminal display: what it shows, what it remembers and what its keys do.

use crate::civil;
use crate::civil::{local_now, ZonedTime};
use crate::decimal;
use crate::decimal::{push_padded, push_signed};
use crate::frame;
use crate::frame::{format_for_date_cmd, LtcFrame};
use crate::sync_manager;
use crate::text;
use crate::text::{join, labelled};
use std::collections::VecDeque;
use vstd::prelude::*;

verus! {

/// How long the displayed delta stays as it is, in nanoseconds.
pub const DELTA_REFRESH: u64 = 1_000_000_000;

/// How many messages the log keeps.
pub const LOG_LINES: usize = 10;

/// The column in which every line of the display begins.
pub const COLUMN: u16 = 2;

/// The row of the first message of the log.
pub const LOG_ROW: u16 = 18;

/// The colours of the display.
#[derive(Clone, Copy, Debug, PartialEq, Eq, Structural)]
pub enum Color {
    Green,
    Yellow,
    Red,
}

/// The size of a number, without its sign.
pub open spec fn magnitude(n: int) -> int {
    if n < 0 {
        -n
    } else {
        n
    }
}

/// The colour of a clock delta: green below 20 ms, yellow below 100 ms, red from there on.
pub open spec fn delta_color_of(delta_ms: int) -> Color {
    if magnitude(delta_ms) < 20 {
        Color::Green
    } else if magnitude(delta_ms) < 100 {
        Color::Yellow
    } else {
        Color::Red
    }
}

/// The colour of a clock delta.
pub fn delta_color(delta_ms: i64) -> (color: Color)
    requires
        delta_ms > i64::MIN,
    ensures
        color == delta_color_of(delta_ms as int),
        color == Color::Green <==> -20 < delta_ms < 20,
        color == Color::Red <==> delta_ms <= -100 || delta_ms >= 100,
{
    if -20 < delta_ms && delta_ms < 20 {
        Color::Green
    } else if -100 < delta_ms && delta_ms < 100 {
        Color::Yellow
    } else {
        Color::Red
    }
}

/// The colour of a sync status: green in sync, red otherwise.
pub fn status_color(status: &str) -> (color: Color)
    ensures
        color == (if status@ == "IN SYNC"@ {
            Color::Green
        } else {
            Color::Red
        }),
{
    if status.to_owned() == "IN SYNC".to_owned() {
        Color::Green
    } else {
        Color::Red
    }
}

/// How steady the timecode arrives.
#[derive(Clone, Copy, Debug, PartialEq, Eq, Structural)]
pub enum JitterGrade {
    Good,
    Average,
    Bad,
}

impl JitterGrade {
    /// The word that the display shows.
    pub open spec fn word(self) -> Seq<char> {
        match self {
            JitterGrade::Good => "GOOD"@,
            JitterGrade::Average => "AVERAGE"@,
            JitterGrade::Bad => "BAD"@,
        }
    }

    /// The colour of the word.
    pub open spec fn color_of(self) -> Color {
        match self {
            JitterGrade::Good => Color::Green,
            JitterGrade::Average => Color::Yellow,
            JitterGrade::Bad => Color::Red,
        }
    }

    /// The word that the display shows.
    pub fn label(&self) -> (word: &'static str)
        ensures
            word@ == self.word(),
    {
        match self {
            JitterGrade::Good => "GOOD",
            JitterGrade::Average => "AVERAGE",
            JitterGrade::Bad => "BAD",
        }
    }

    /// The colour of the word.
    pub fn color(&self) -> (color: Color)
        ensures
            color == self.color_of(),
    {
        match self {
            JitterGrade::Good => Color::Green,
            JitterGrade::Average => Color::Yellow,
            JitterGrade::Bad => Color::Red,
        }
    }
}

/// The grade of an average jitter: good below 10 ms, average below 40 ms, bad from there on.
pub open spec fn jitter_grade_of(jitter_ms: int) -> JitterGrade {
    if magnitude(jitter_ms) < 10 {
        JitterGrade::Good
    } else if magnitude(jitter_ms) < 40 {
        JitterGrade::Average
    } else {
        JitterGrade::Bad
    }
}

/// The grade of an average jitter.
pub fn jitter_grade(jitter_ms: i64) -> (grade: JitterGrade)
    requires
        jitter_ms > i64::MIN,
    ensures
        grade == jitter_grade_of(jitter_ms as int),
        grade == JitterGrade::Good <==> -10 < jitter_ms < 10,
        grade == JitterGrade::Bad <==> jitter_ms <= -40 || jitter_ms >= 40,
{
    if -10 < jitter_ms && jitter_ms < 10 {
        JitterGrade::Good
    } else if -40 < jitter_ms && jitter_ms < 40 {
        JitterGrade::Average
    } else {
        JitterGrade::Bad
    }
}

/// The clock delta as it is displayed. It is taken anew once a second, so that it can be
/// read.
#[derive(Clone, Copy, Debug, PartialEq, Eq, Structural)]
pub struct DeltaCache {
    /// The delta in milliseconds.
    pub delta_ms: i64,
    /// The delta in frames.
    pub delta_frames: i64,
    /// When it was taken, in nanoseconds of a steady clock.
    pub last_update: i128,
}

impl DeltaCache {
    /// A second has passed since the delta was taken.
    pub open spec fn stale(self, now: u64) -> bool {
        now - self.last_update >= DELTA_REFRESH
    }

    /// The cache at `now`, when the average delta is `avg_delta_ms` and makes `frames` frames
    /// at the rate of the latest frame; without a frame the old count of frames stays.
    pub open spec fn refreshed(self, now: u64, avg_delta_ms: i64, frames: Option<i64>) -> Self {
        if self.stale(now) {
            DeltaCache {
                delta_ms: avg_delta_ms,
                delta_frames: match frames {
                    Some(count) => count,
                    None => self.delta_frames,
                },
                last_update: now as i128,
            }
        } else {
            self
        }
    }

    /// A cache that is to be filled at once.
    pub fn new(now: u64) -> (cache: Self)
        ensures
            cache.delta_ms == 0,
            cache.delta_frames == 0,
            cache.last_update == now - DELTA_REFRESH,
    {
        DeltaCache {
            delta_ms: 0,
            delta_frames: 0,
            last_update: now as i128 - DELTA_REFRESH as i128,
        }
    }

    /// Takes the delta anew if a second has passed.
    pub fn refresh(&mut self, now: u64, avg_delta_ms: i64, frames: Option<i64>)
        ensures
            *final(self) == old(self).refreshed(now, avg_delta_ms, frames),
    {
        if self.last_update <= now as i128 - DELTA_REFRESH as i128 {
            self.delta_ms = avg_delta_ms;
            if let Some(count) = frames {
                self.delta_frames = count;
            }
            self.last_update = now as i128;
        }
    }
}

/// The latest messages to the user, oldest first.
pub struct LogBuffer {
    messages: VecDeque<String>,
}

impl View for LogBuffer {
    type V = Seq<Seq<char>>;

    closed spec fn view(&self) -> Seq<Seq<char>> {
        text::texts(self.messages@)
    }
}

/// The last messages of a row, as many as the log keeps.
pub open spec fn latest_messages(all: Seq<Seq<char>>) -> Seq<Seq<char>> {
    if all.len() <= LOG_LINES {
        all
    } else {
        all.skip(all.len() - LOG_LINES)
    }
}

impl LogBuffer {
    /// It holds no more than it keeps.
    #[verifier::type_invariant]
    spec fn bounded(self) -> bool {
        self.messages@.len() <= LOG_LINES
    }

    /// An empty log.
    pub fn new() -> (log: Self)
        ensures
            log@ == Seq::<Seq<char>>::empty(),
    {
        let log: LogBuffer = LogBuffer { messages: VecDeque::with_capacity(LOG_LINES) };
        assert(log@ =~= Seq::<Seq<char>>::empty());
        log
    }

    /// How many messages there are.
    pub fn len(&self) -> (n: usize)
        ensures
            n == self@.len(),
            n <= LOG_LINES,
    {
        proof {
            use_type_invariant(self);
        }
        self.messages.len()
    }

    /// The message at a position.
    pub fn message(&self, i: usize) -> (message: &str)
        requires
            i < self@.len(),
        ensures
            message@ == self@[i as int],
    {
        self.messages[i].as_str()
    }

    /// Adds a message; the oldest goes when there are too many.
    pub fn push(&mut self, message: &str)
        ensures
            final(self)@ == latest_messages(old(self)@.push(message@)),
    {
        proof {
            use_type_invariant(&*self);
        }
        let mut messages: VecDeque<String> = VecDeque::new();
        std::mem::swap(&mut messages, &mut self.messages);
        if messages.len() == LOG_LINES {
            messages.pop_front();
        }
        messages.push_back(message.to_owned());
        self.messages = messages;
        assert(self@ =~= latest_messages(old(self)@.push(message@)));
    }
}

/// What a key asks for.
#[derive(Clone, Copy, Debug, PartialEq, Eq, Structural)]
pub enum KeyAction {
    /// Leave the program.
    Quit,
    /// Request a manual sync.
    RequestSync,
    /// Nothing.
    Ignore,
}

/// Q quits and S requests a sync, in either case.
pub open spec fn key_action(key: char) -> KeyAction {
    if key == 'q' || key == 'Q' {
        KeyAction::Quit
    } else if key == 's' || key == 'S' {
        KeyAction::RequestSync
    } else {
        KeyAction::Ignore
    }
}

/// Takes a key, and logs the request for a sync.
pub fn handle_key(log: &mut LogBuffer, key: char) -> (action: KeyAction)
    ensures
        action == key_action(key),
        action == KeyAction::Quit <==> key == 'q' || key == 'Q',
        action == KeyAction::RequestSync <==> key == 's' || key == 'S',
        final(log)@ == (if action == KeyAction::RequestSync {
            latest_messages(old(log)@.push("Manual sync requested..."@))
        } else {
            old(log)@
        }),
{
    if key == 'q' || key == 'Q' {
        KeyAction::Quit
    } else if key == 's' || key == 'S' {
        log.push("Manual sync requested...");
        KeyAction::RequestSync
    } else {
        KeyAction::Ignore
    }
}

/// What the display knows of the timecode.
#[derive(Clone, Debug)]
pub enum Panel {
    /// The state of the decoder cannot be read.
    Unavailable,
    /// No frame has come yet.
    Waiting,
    /// The latest frame, and its rate in frames per second with two decimals.
    Frame { frame: LtcFrame, rate: String },
}

/// What the display shows, but for the time and the log.
#[derive(Clone, Debug)]
pub struct Dashboard {
    /// The port that the decoder is at.
    pub serial_port: String,
    /// The NTP service runs.
    pub ntp_active: bool,
    /// The addresses of the machine.
    pub interfaces: Vec<String>,
    /// The timecode.
    pub panel: Panel,
    /// The displayed delta of the clock in milliseconds.
    pub delta_ms: i64,
    /// The displayed delta of the clock in frames.
    pub delta_frames: i64,
    /// Whether the clock agrees with the timecode, in words.
    pub sync_status: String,
    /// The average jitter in milliseconds.
    pub jitter_ms: i64,
    /// The share of locked frames in per cent, with one decimal.
    pub lock_ratio: String,
}

impl Dashboard {
    /// The two numbers have a magnitude within their type.
    pub open spec fn valid(self) -> bool {
        self.delta_ms > i64::MIN && self.jitter_ms > i64::MIN
    }
}

/// One line of the display.
#[derive(Clone, Debug)]
pub struct Line {
    pub col: u16,
    pub row: u16,
    /// The colour of the text; `None` for the terminal's own.
    pub color: Option<Color>,
    pub text: String,
}

/// One line of the display, with its text as a sequence.
#[verifier::ext_equal]
pub struct LineView {
    pub col: u16,
    pub row: u16,
    pub color: Option<Color>,
    pub text: Seq<char>,
}

impl View for Line {
    type V = LineView;

    open spec fn view(&self) -> LineView {
        LineView { col: self.col, row: self.row, color: self.color, text: self.text@ }
    }
}

/// The contents of a row of lines.
pub open spec fn views(lines: Seq<Line>) -> Seq<LineView> {
    lines.map_values(|l: Line| l@)
}

/// A line in the terminal's own colour.
pub open spec fn plain(row: int, text: Seq<char>) -> LineView {
    LineView { col: COLUMN, row: row as u16, color: None, text }
}

/// A line in a colour.
pub open spec fn colored(row: int, color: Color, text: Seq<char>) -> LineView {
    LineView { col: COLUMN, row: row as u16, color: Some(color), text }
}

/// The lines at the top: what the program is and what it is connected to.
pub open spec fn header_view(d: Dashboard) -> Seq<LineView> {
    seq![
        plain(1, "NTP Timeturner v2 - Rust Port"@),
        plain(2, "Using Serial Port: "@ + d.serial_port@),
        plain(3, "NTP Server       : "@ + if d.ntp_active { "ACTIVE"@ } else { "INACTIVE"@ }),
        plain(4, "Interfaces       : "@ + text::joined(text::texts(d.interfaces@), ", "@)),
    ]
}

/// A timecode as `HH:MM:SS:FF`.
pub open spec fn timecode_view(frame: LtcFrame) -> Seq<char> {
    decimal::padded(frame.hours as nat, 2) + seq![':'] + decimal::padded(frame.minutes as nat, 2)
        + seq![':'] + decimal::padded(frame.seconds as nat, 2) + seq![':'] + decimal::padded(
        frame.frames as nat,
        2,
    )
}

/// The lines of the timecode and of the clock while it shows `now`.
pub open spec fn panel_view(panel: Panel, now: ZonedTime) -> Seq<LineView> {
    let clock = plain(9, "System Clock     : "@ + frame::clock_text(now.local));
    match panel {
        Panel::Unavailable => Seq::empty(),
        Panel::Waiting => seq![
            plain(6, "LTC Status       : (waiting)"@),
            plain(7, "LTC Timecode     : …"@),
            plain(8, "Frame Rate       : …"@),
            clock,
        ],
        Panel::Frame { frame, rate } => seq![
            plain(6, "LTC Status       : "@ + frame.status@),
            plain(7, "LTC Timecode     : "@ + timecode_view(frame)),
            plain(8, "Frame Rate       : "@ + rate@ + "fps"@),
            clock,
        ],
    }
}

/// The text of the clock delta.
pub open spec fn delta_text_view(delta_ms: int, delta_frames: int) -> Seq<char> {
    "Timecode Δ       : "@ + decimal::signed(delta_ms) + " ms ("@ + decimal::signed(delta_frames)
        + " frames)"@
}

/// The lines of the measurements, and the line that names the keys.
pub open spec fn metrics_view(d: Dashboard) -> Seq<LineView> {
    let grade = jitter_grade_of(d.jitter_ms as int);
    seq![
        colored(
            11,
            delta_color_of(d.delta_ms as int),
            delta_text_view(d.delta_ms as int, d.delta_frames as int),
        ),
        colored(
            12,
            if d.sync_status@ == "IN SYNC"@ {
                Color::Green
            } else {
                Color::Red
            },
            "Sync Status      : "@ + d.sync_status@,
        ),
        colored(13, grade.color_of(), "Sync Jitter      : "@ + grade.word()),
        plain(14, "Lock Ratio       : "@ + d.lock_ratio@ + "% LOCK"@),
        plain(16, "[S] Set system clock to LTC    [Q] Quit"@),
    ]
}

/// The lines of the log.
pub open spec fn log_view(messages: Seq<Seq<char>>) -> Seq<LineView> {
    Seq::new(messages.len(), |i: int| plain(LOG_ROW + i, messages[i]))
}

/// All lines of the display.
pub open spec fn screen_view(d: Dashboard, log: Seq<Seq<char>>, now: ZonedTime) -> Seq<LineView> {
    header_view(d) + panel_view(d.panel, now) + metrics_view(d) + log_view(log)
}

fn push_line(lines: &mut Vec<Line>, row: u16, color: Option<Color>, text: String)
    ensures
        views(final(lines)@) == views(old(lines)@).push(
            LineView { col: COLUMN, row, color, text: text@ },
        ),
{
    lines.push(Line { col: COLUMN, row, color, text });
    assert(views(lines@) =~= views(old(lines)@).push(
        LineView { col: COLUMN, row, color, text: text@ },
    ));
}

fn push_header(lines: &mut Vec<Line>, d: &Dashboard)
    ensures
        views(final(lines)@) == views(old(lines)@) + header_view(*d),
{
    let server: &str = if d.ntp_active { "ACTIVE" } else { "INACTIVE" };
    let interfaces: String = join(&d.interfaces, ", ");
    push_line(lines, 1, None, "NTP Timeturner v2 - Rust Port".to_owned());
    push_line(lines, 2, None, labelled("Using Serial Port: ", d.serial_port.as_str()));
    push_line(lines, 3, None, labelled("NTP Server       : ", server));
    push_line(lines, 4, None, labelled("Interfaces       : ", interfaces.as_str()));
    assert(views(lines@) =~= views(old(lines)@) + header_view(*d));
}

/// The timecode of a frame as `HH:MM:SS:FF`.
pub fn timecode_text(frame: &LtcFrame) -> (text: String)
    ensures
        text@ == timecode_view(*frame),
{
    proof {
        reveal_strlit(":");
    }
    assert(":"@ =~= seq![':']);
    let mut text: String = String::new();
    push_padded(&mut text, frame.hours as u64, 2);
    text.append(":");
    push_padded(&mut text, frame.minutes as u64, 2);
    text.append(":");
    push_padded(&mut text, frame.seconds as u64, 2);
    text.append(":");
    push_padded(&mut text, frame.frames as u64, 2);
    text
}

fn push_panel(lines: &mut Vec<Line>, panel: &Panel, now: &ZonedTime)
    ensures
        views(final(lines)@) == views(old(lines)@) + panel_view(*panel, *now),
{
    match panel {
        Panel::Unavailable => {
            assert(views(lines@) =~= views(old(lines)@) + panel_view(*panel, *now));
            return;
        },
        Panel::Waiting => {
            push_line(lines, 6, None, "LTC Status       : (waiting)".to_owned());
            push_line(lines, 7, None, "LTC Timecode     : …".to_owned());
            push_line(lines, 8, None, "Frame Rate       : …".to_owned());
        },
        Panel::Frame { frame, rate } => {
            let timecode: String = timecode_text(frame);
            let mut rate_text: String = labelled("Frame Rate       : ", rate.as_str());
            rate_text.append("fps");
            push_line(lines, 6, None, labelled("LTC Status       : ", frame.status.as_str()));
            push_line(lines, 7, None, labelled("LTC Timecode     : ", timecode.as_str()));
            push_line(lines, 8, None, rate_text);
        },
    }
    let clock: String = format_for_date_cmd(now);
    push_line(lines, 9, None, labelled("System Clock     : ", clock.as_str()));
    assert(views(lines@) =~= views(old(lines)@) + panel_view(*panel, *now));
}

/// The text of the clock delta.
pub fn delta_text(delta_ms: i64, delta_frames: i64) -> (text: String)
    ensures
        text@ == delta_text_view(delta_ms as int, delta_frames as int),
{
    let mut text: String = "Timecode Δ       : ".to_owned();
    push_signed(&mut text, delta_ms);
    text.append(" ms (");
    push_signed(&mut text, delta_frames);
    text.append(" frames)");
    text
}

fn push_metrics(lines: &mut Vec<Line>, d: &Dashboard)
    requires
        d.valid(),
    ensures
        views(final(lines)@) == views(old(lines)@) + metrics_view(*d),
{
    let grade: JitterGrade = jitter_grade(d.jitter_ms);
    let status: &str = d.sync_status.as_str();
    let mut ratio: String = labelled("Lock Ratio       : ", d.lock_ratio.as_str());
    ratio.append("% LOCK");
    push_line(lines, 11, Some(delta_color(d.delta_ms)), delta_text(d.delta_ms, d.delta_frames));
    push_line(lines, 12, Some(status_color(status)), labelled("Sync Status      : ", status));
    push_line(lines, 13, Some(grade.color()), labelled("Sync Jitter      : ", grade.label()));
    push_line(lines, 14, None, ratio);
    push_line(lines, 16, None, "[S] Set system clock to LTC    [Q] Quit".to_owned());
    assert(views(lines@) =~= views(old(lines)@) + metrics_view(*d));
}

fn push_log(lines: &mut Vec<Line>, log: &LogBuffer)
    ensures
        views(final(lines)@) == views(old(lines)@) + log_view(log@),
{
    let count: usize = log.len();
    let mut i: usize = 0;
    assert(views(lines@) =~= views(old(lines)@) + log_view(log@).take(0));
    while i < count
        invariant
            i <= count,
            count == log@.len(),
            count <= LOG_LINES,
            views(lines@) == views(old(lines)@) + log_view(log@).take(i as int),
        decreases count - i,
    {
        push_line(lines, LOG_ROW + i as u16, None, log.message(i).to_owned());
        i = i + 1;
        assert(views(lines@) =~= views(old(lines)@) + log_view(log@).take(i as int));
    }
    assert(log_view(log@).take(i as int) =~= log_view(log@));
}

/// All lines of the display while the clock shows `now`.
pub fn screen(d: &Dashboard, log: &LogBuffer, now: &ZonedTime) -> (lines: Vec<Line>)
    requires
        d.valid(),
    ensures
        views(lines@) == screen_view(*d, log@, *now),
{
    let mut lines: Vec<Line> = Vec::new();
    push_header(&mut lines, d);
    push_panel(&mut lines, &d.panel, now);
    push_metrics(&mut lines, d);
    push_log(&mut lines, log);
    assert(views(lines@) =~= screen_view(*d, log@, *now));
    lines
}

/// All lines of the display, with the time of the machine.
pub fn current_screen(d: &Dashboard, log: &LogBuffer) -> (lines: Vec<Line>)
    requires
        d.valid(),
    ensures
        exists|now: ZonedTime|
            now.readable() && civil::clock_showed(now) && views(lines@)
                == #[trigger] screen_view(*d, log@, now),
{
    let now: ZonedTime = local_now();
    screen(d, log, &now)
}

/// No two lines of the display share a row: each is below the one before it, and all begin
/// in the same column.
pub proof fn lines_go_downwards(d: Dashboard, log: Seq<Seq<char>>, now: ZonedTime)
    requires
        log.len() <= LOG_LINES,
    ensures
        forall|i: int, j: int|
            0 <= i < j < screen_view(d, log, now).len() ==> (#[trigger] screen_view(
                d,
                log,
                now,
            )[i]).row < (#[trigger] screen_view(d, log, now)[j]).row,
        forall|i: int|
            0 <= i < screen_view(d, log, now).len() ==> (#[trigger] screen_view(d, log, now)[i]).col
                == COLUMN,
{
}

/// However many messages are logged, the log holds the latest of all of them: keeping the
/// latest after each message is the same as keeping the latest at the end.
pub proof fn log_keeps_latest(all: Seq<Seq<char>>, message: Seq<char>)
    ensures
        latest_messages(latest_messages(all).push(message)) == latest_messages(all.push(message)),
        latest_messages(all.push(message)).last() == message,
{
    assert(latest_messages(latest_messages(all).push(message)) =~= latest_messages(
        all.push(message),
    ));
}

/// A new cache takes the first delta that it is offered.
pub proof fn first_delta_is_taken(cache: DeltaCache, start: u64, now: u64, avg: i64, count: i64)
    requires
        cache.last_update == start - DELTA_REFRESH,
        start <= now,
    ensures
        cache.refreshed(now, avg, Some(count)).delta_ms == avg,
        cache.refreshed(now, avg, Some(count)).delta_frames == count,
{
}

/// A delta that was taken stays for a second, whatever is measured meanwhile, and is taken
/// anew after it.
pub proof fn delta_stays_for_a_second(
    cache: DeltaCache,
    taken: u64,
    avg: i64,
    frames: Option<i64>,
    later: u64,
    later_avg: i64,
    later_frames: Option<i64>,
)
    requires
        cache.stale(taken),
    ensures
        ({
            let shown = cache.refreshed(taken, avg, frames);
            let after = shown.refreshed(later, later_avg, later_frames);
            &&& later - taken < DELTA_REFRESH ==> after == shown
            &&& later - taken >= DELTA_REFRESH ==> after.delta_ms == later_avg
        }),
{
}

/// A clock that is in sync by its average delta is shown in green.
pub proof fn in_sync_is_green(status: Seq<char>, avg_delta_ms: int)
    requires
        !sync_manager::out_of_sync(status, avg_delta_ms),
    ensures
        delta_color_of(avg_delta_ms) == Color::Green,
{
}

/// The colour of a delta goes by its size alone: green below 20 ms, red from 100 ms on, yellow
/// between.
pub proof fn delta_color_goes_by_size(delta: int)
    ensures
        delta_color_of(delta) == Color::Green <==> -20 < delta < 20,
        delta_color_of(delta) == Color::Red <==> delta <= -100 || delta >= 100,
        delta_color_of(-delta) == delta_color_of(delta),
{
}

/// The grade of a jitter goes by its size alone: good below 10 ms, bad from 40 ms on, average
/// between. A better grade has a better colour.
pub proof fn jitter_grade_goes_by_size(jitter: int)
    ensures
        jitter_grade_of(jitter) == JitterGrade::Good <==> -10 < jitter < 10,
        jitter_grade_of(jitter) == JitterGrade::Bad <==> jitter <= -40 || jitter >= 40,
        jitter_grade_of(-jitter) == jitter_grade_of(jitter),
        jitter_grade_of(jitter).color_of() == Color::Green <==> -10 < jitter < 10,
        jitter_grade_of(jitter).color_of() == Color::Red <==> jitter <= -40 || jitter >= 40,
{
}

/// A key is taken in either case, and only two letters mean anything.
pub proof fn keys_in_either_case(key: char)
    ensures
        key_action('q') == KeyAction::Quit && key_action('Q') == KeyAction::Quit,
        key_action('s') == KeyAction::RequestSync && key_action('S') == KeyAction::RequestSync,
        key != 'q' && key != 'Q' && key != 's' && key != 'S' ==> key_action(key)
            == KeyAction::Ignore,
{
}

/// The log holds the last ten messages in order, or all of them where there are no more.
pub proof fn log_holds_last_ten(all: Seq<Seq<char>>)
    ensures
        latest_messages(all).len() == (if all.len() < 10 { all.len() } else { 10 }),
        forall|i: int|
            0 <= i < latest_messages(all).len() ==> #[trigger] latest_messages(all)[i]
                == all[all.len() - latest_messages(all).len() + i],
{
}

/// A cache takes the delta and the count of frames if a second has passed since it did so last,
/// keeps its count without a new one, and else stays as it is.
pub proof fn refresh_takes_or_keeps(cache: DeltaCache, now: u64, avg: i64, frames: Option<i64>)
    ensures
        ({
            let next = cache.refreshed(now, avg, frames);
            &&& now - cache.last_update < 1_000_000_000 ==> next == cache
            &&& now - cache.last_update >= 1_000_000_000 ==> {
                &&& next.delta_ms == avg
                &&& next.last_update == now
                &&& frames is None ==> next.delta_frames == cache.delta_frames
                &&& frames matches Some(count) ==> next.delta_frames == count
            }
        }),
{
}

/// The contents of lines are those of each line, in order.
pub proof fn views_are_contents(lines: Seq<Line>, i: int)
    requires
        0 <= i < lines.len(),
    ensures
        views(lines).len() == lines.len(),
        views(lines)[i].col == lines[i].col,
        views(lines)[i].row == lines[i].row,
        views(lines)[i].color == lines[i].color,
        views(lines)[i].text == lines[i].text@,
{
}

/// The timecode of a frame has eleven characters where its numbers have two digits at most, and
/// they can be read back from it.
pub proof fn timecode_reads_back(frame: LtcFrame)
    ensures
        timecode_view(frame) == text::joined(
            seq![
                decimal::padded(frame.hours as nat, 2),
                decimal::padded(frame.minutes as nat, 2),
                decimal::padded(frame.seconds as nat, 2),
                decimal::padded(frame.frames as nat, 2),
            ],
            seq![':'],
        ),
        frame.hours < 100 && frame.minutes < 100 && frame.seconds < 100 && frame.frames < 100 ==> {
            let t = timecode_view(frame);
            &&& t.len() == 11
            &&& t[2] == ':' && t[5] == ':' && t[8] == ':'
            &&& decimal::value(t.subrange(0, 2)) == frame.hours
            &&& decimal::value(t.subrange(3, 5)) == frame.minutes
            &&& decimal::value(t.subrange(6, 8)) == frame.seconds
            &&& decimal::value(t.subrange(9, 11)) == frame.frames
        },
{
    let h = decimal::padded(frame.hours as nat, 2);
    let m = decimal::padded(frame.minutes as nat, 2);
    let s = decimal::padded(frame.seconds as nat, 2);
    let f = decimal::padded(frame.frames as nat, 2);
    let t = timecode_view(frame);
    let colon = seq![':'];
    text::joined_alone(h, colon);
    text::joined_alone(m, colon);
    text::joined_alone(s, colon);
    text::joined_alone(f, colon);
    text::joined_of_both(seq![h], seq![m], colon);
    text::joined_of_both(seq![h] + seq![m], seq![s], colon);
    text::joined_of_both(seq![h] + seq![m] + seq![s], seq![f], colon);
    assert(seq![h, m, s, f] =~= seq![h] + seq![m] + seq![s] + seq![f]);
    assert(t =~= text::joined(seq![h, m, s, f], colon));
    decimal::padded_fills(frame.hours as nat);
    decimal::padded_fills(frame.minutes as nat);
    decimal::padded_fills(frame.seconds as nat);
    decimal::padded_fills(frame.frames as nat);
    decimal::padded_denotes(frame.hours as nat, 2);
    decimal::padded_denotes(frame.minutes as nat, 2);
    decimal::padded_denotes(frame.seconds as nat, 2);
    decimal::padded_denotes(frame.frames as nat, 2);
    if frame.hours < 100 && frame.minutes < 100 && frame.seconds < 100 && frame.frames < 100 {
        assert(t.subrange(0, 2) =~= h);
        assert(t.subrange(3, 5) =~= m);
        assert(t.subrange(6, 8) =~= s);
        assert(t.subrange(9, 11) =~= f);
    }
}

/// A line stands in a row, in the column of all lines, and reads a label of 19 characters and a
/// value behind it.
pub open spec fn reads(line: LineView, row: int, label: Seq<char>, value: Seq<char>) -> bool {
    &&& line.row == row
    &&& line.col == 2
    &&& label.len() == 19
    &&& line.text.take(19) == label
    &&& line.text.skip(19) == value
}

proof fn label_and_value(line: LineView, row: int, label: Seq<char>, value: Seq<char>)
    requires
        line.row == row,
        line.col == 2,
        label.len() == 19,
        line.text == label + value,
    ensures
        reads(line, row, label, value),
{
    assert(line.text.take(19) =~= label);
    assert(line.text.skip(19) =~= value);
}

/// The first rows of the screen are the title, and behind their labels the serial port, the
/// state of the NTP service and the addresses with commas between, all in the terminal's
/// colour.
pub proof fn header_gives_fields_back(d: Dashboard, log: Seq<Seq<char>>, now: ZonedTime)
    ensures
        ({
            let s = screen_view(d, log, now);
            &&& s.len() >= 4
            &&& s[0].row == 1 && s[0].col == 2 && s[0].text == "NTP Timeturner v2 - Rust Port"@
            &&& reads(s[1], 2, "Using Serial Port: "@, d.serial_port@)
            &&& reads(
                s[2],
                3,
                "NTP Server       : "@,
                if d.ntp_active { "ACTIVE"@ } else { "INACTIVE"@ },
            )
            &&& reads(
                s[3],
                4,
                "Interfaces       : "@,
                text::joined(text::texts(d.interfaces@), ", "@),
            )
            &&& forall|i: int| 0 <= i < 4 ==> (#[trigger] s[i]).color is None
        }),
{
    let s = screen_view(d, log, now);
    reveal_strlit("Using Serial Port: ");
    reveal_strlit("NTP Server       : ");
    reveal_strlit("Interfaces       : ");
    label_and_value(s[1], 2, "Using Serial Port: "@, d.serial_port@);
    label_and_value(
        s[2],
        3,
        "NTP Server       : "@,
        if d.ntp_active { "ACTIVE"@ } else { "INACTIVE"@ },
    );
    label_and_value(
        s[3],
        4,
        "Interfaces       : "@,
        text::joined(text::texts(d.interfaces@), ", "@),
    );
}

/// The rows of the timecode give status, timecode and rate of the latest frame back, and the
/// clock; before the first frame they say so. There are none where the state of the decoder
/// cannot be read.
pub proof fn panel_gives_frame_back(d: Dashboard, log: Seq<Seq<char>>, now: ZonedTime)
    ensures
        ({
            let s = screen_view(d, log, now);
            &&& d.panel is Unavailable ==> s.len() == 9 + log.len()
            &&& d.panel !is Unavailable ==> {
                &&& s.len() == 13 + log.len()
                &&& reads(s[7], 9, "System Clock     : "@, frame::clock_text(now.local))
                &&& forall|i: int| 4 <= i < 8 ==> (#[trigger] s[i]).color is None
            }
            &&& d.panel is Waiting ==> {
                &&& reads(s[4], 6, "LTC Status       : "@, "(waiting)"@)
                &&& reads(s[5], 7, "LTC Timecode     : "@, "…"@)
                &&& reads(s[6], 8, "Frame Rate       : "@, "…"@)
            }
            &&& d.panel matches Panel::Frame { frame, rate } ==> {
                &&& reads(s[4], 6, "LTC Status       : "@, frame.status@)
                &&& reads(s[5], 7, "LTC Timecode     : "@, timecode_view(frame))
                &&& reads(s[6], 8, "Frame Rate       : "@, rate@ + "fps"@)
            }
        }),
{
    let s = screen_view(d, log, now);
    reveal_strlit("System Clock     : ");
    reveal_strlit("LTC Status       : ");
    reveal_strlit("LTC Timecode     : ");
    reveal_strlit("Frame Rate       : ");
    match d.panel {
        Panel::Unavailable => {},
        Panel::Waiting => {
            reveal_strlit("LTC Status       : (waiting)");
            reveal_strlit("LTC Timecode     : …");
            reveal_strlit("Frame Rate       : …");
            reveal_strlit("(waiting)");
            reveal_strlit("…");
            assert(s[4].text =~= "LTC Status       : "@ + "(waiting)"@);
            assert(s[5].text =~= "LTC Timecode     : "@ + "…"@);
            assert(s[6].text =~= "Frame Rate       : "@ + "…"@);
            label_and_value(s[4], 6, "LTC Status       : "@, "(waiting)"@);
            label_and_value(s[5], 7, "LTC Timecode     : "@, "…"@);
            label_and_value(s[6], 8, "Frame Rate       : "@, "…"@);
            label_and_value(s[7], 9, "System Clock     : "@, frame::clock_text(now.local));
        },
        Panel::Frame { frame, rate } => {
            assert(s[6].text =~= "Frame Rate       : "@ + (rate@ + "fps"@));
            label_and_value(s[4], 6, "LTC Status       : "@, frame.status@);
            label_and_value(s[5], 7, "LTC Timecode     : "@, timecode_view(frame));
            label_and_value(s[6], 8, "Frame Rate       : "@, rate@ + "fps"@);
            label_and_value(s[7], 9, "System Clock     : "@, frame::clock_text(now.local));
        },
    }
}

/// The rows of the measurements give the delta in milliseconds and in frames back, the sync
/// status, the grade of the jitter and the lock ratio, each behind its label and in its colour;
/// the row of the keys follows.
pub proof fn metrics_give_fields_back(d: Dashboard, log: Seq<Seq<char>>, now: ZonedTime)
    ensures
        ({
            let s = screen_view(d, log, now);
            let top: int = if d.panel is Unavailable { 4 } else { 8 };
            &&& s.len() == top + 5 + log.len()
            &&& reads(
                s[top],
                11,
                "Timecode Δ       : "@,
                decimal::signed(d.delta_ms as int) + " ms ("@ + decimal::signed(
                    d.delta_frames as int,
                ) + " frames)"@,
            )
            &&& s[top].color == Some(delta_color_of(d.delta_ms as int))
            &&& reads(s[top + 1], 12, "Sync Status      : "@, d.sync_status@)
            &&& s[top + 1].color == Some(
                if d.sync_status@ == "IN SYNC"@ {
                    Color::Green
                } else {
                    Color::Red
                },
            )
            &&& -10 < d.jitter_ms < 10 ==> reads(s[top + 2], 13, "Sync Jitter      : "@, "GOOD"@)
                && s[top + 2].color == Some(Color::Green)
            &&& 10 <= d.jitter_ms < 40 || -40 < d.jitter_ms <= -10 ==> reads(
                s[top + 2],
                13,
                "Sync Jitter      : "@,
                "AVERAGE"@,
            ) && s[top + 2].color == Some(Color::Yellow)
            &&& d.jitter_ms >= 40 || d.jitter_ms <= -40 ==> reads(
                s[top + 2],
                13,
                "Sync Jitter      : "@,
                "BAD"@,
            ) && s[top + 2].color == Some(Color::Red)
            &&& reads(s[top + 3], 14, "Lock Ratio       : "@, d.lock_ratio@ + "% LOCK"@)
            &&& s[top + 3].color is None
            &&& s[top + 4].row == 16 && s[top + 4].col == 2 && s[top + 4].color is None
            &&& s[top + 4].text == "[S] Set system clock to LTC    [Q] Quit"@
        }),
{
    let s = screen_view(d, log, now);
    let top: int = if d.panel is Unavailable { 4 } else { 8 };
    reveal_strlit("Timecode Δ       : ");
    reveal_strlit("Sync Status      : ");
    reveal_strlit("Sync Jitter      : ");
    reveal_strlit("Lock Ratio       : ");
    let delta = decimal::signed(d.delta_ms as int) + " ms ("@ + decimal::signed(
        d.delta_frames as int,
    ) + " frames)"@;
    assert(s[top].text =~= "Timecode Δ       : "@ + delta);
    assert(s[top + 3].text =~= "Lock Ratio       : "@ + (d.lock_ratio@ + "% LOCK"@));
    label_and_value(s[top], 11, "Timecode Δ       : "@, delta);
    label_and_value(s[top + 1], 12, "Sync Status      : "@, d.sync_status@);
    label_and_value(
        s[top + 2],
        13,
        "Sync Jitter      : "@,
        jitter_grade_of(d.jitter_ms as int).word(),
    );
    label_and_value(s[top + 3], 14, "Lock Ratio       : "@, d.lock_ratio@ + "% LOCK"@);
}

/// The last rows are the messages of the log, one below the other from row 18 on.
pub proof fn log_rows_give_messages_back(
    d: Dashboard,
    log: Seq<Seq<char>>,
    now: ZonedTime,
    i: int,
)
    requires
        log.len() <= 10,
        0 <= i < log.len(),
    ensures
        ({
            let s = screen_view(d, log, now);
            let line = s[s.len() - log.len() + i];
            line.row == 18 + i && line.col == 2 && line.color is None && line.text == log[i]
        }),
{
}

/// Two dashboards that differ in their sync status differ in the row of the sync status,
/// whatever else they hold.
pub proof fn status_row_tells_apart(
    a: Dashboard,
    b: Dashboard,
    log: Seq<Seq<char>>,
    now: ZonedTime,
)
    requires
        a.sync_status@ != b.sync_status@,
    ensures
        ({
            let row_a: int = if a.panel is Unavailable { 5 } else { 9 };
            let row_b: int = if b.panel is Unavailable { 5 } else { 9 };
            screen_view(a, log, now)[row_a].text != screen_view(b, log, now)[row_b].text
        }),
{
    metrics_give_fields_back(a, log, now);
    metrics_give_fields_back(b, log, now);
}

} // verus!
