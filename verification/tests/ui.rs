use timeturner::civil::{CivilTime, ZonedTime};
use timeturner::frame::LtcFrame;
use timeturner::ui::{
    current_screen, delta_color, delta_text, handle_key, jitter_grade, screen, status_color,
    timecode_text, Color, Dashboard, DeltaCache, JitterGrade, KeyAction, Line, LogBuffer, Panel,
};

const SECOND: u64 = 1_000_000_000;

fn frame() -> LtcFrame {
    LtcFrame {
        status: "LOCK".to_string(),
        hours: 1,
        minutes: 2,
        seconds: 33,
        frames: 4,
        sub_ms: 160,
        timestamp: CivilTime { day: 738_886, secs: 0, nanos: 0 },
    }
}

fn dashboard(panel: Panel) -> Dashboard {
    Dashboard {
        serial_port: "/dev/ttyACM0".to_string(),
        ntp_active: true,
        interfaces: vec!["10.0.0.2".to_string(), "fd00::5".to_string()],
        panel,
        delta_ms: -21,
        delta_frames: -1,
        sync_status: "IN SYNC".to_string(),
        jitter_ms: 40,
        lock_ratio: "99.5".to_string(),
    }
}

fn clock() -> ZonedTime {
    ZonedTime { local: CivilTime { day: 738_886, secs: 3723, nanos: 4_000_000 }, offset: 0 }
}

fn cells(lines: &[Line]) -> Vec<(u16, u16, Option<Color>, &str)> {
    lines.iter().map(|l| (l.col, l.row, l.color, l.text.as_str())).collect()
}

fn messages(log: &LogBuffer) -> Vec<String> {
    (0..log.len()).map(|i| log.message(i).to_string()).collect()
}

#[test]
fn delta_colors() {
    for (delta, color) in [
        (0, Color::Green),
        (19, Color::Green),
        (-19, Color::Green),
        (20, Color::Yellow),
        (-20, Color::Yellow),
        (99, Color::Yellow),
        (-99, Color::Yellow),
        (100, Color::Red),
        (-100, Color::Red),
        (i64::MAX, Color::Red),
        (i64::MIN + 1, Color::Red),
    ] {
        assert_eq!(delta_color(delta), color);
    }
}

#[test]
fn jitter_grades() {
    for (jitter, grade) in [
        (0, JitterGrade::Good),
        (9, JitterGrade::Good),
        (-9, JitterGrade::Good),
        (10, JitterGrade::Average),
        (-10, JitterGrade::Average),
        (39, JitterGrade::Average),
        (-39, JitterGrade::Average),
        (40, JitterGrade::Bad),
        (-40, JitterGrade::Bad),
    ] {
        assert_eq!(jitter_grade(jitter), grade);
    }
    assert_eq!((JitterGrade::Good.label(), JitterGrade::Good.color()), ("GOOD", Color::Green));
    assert_eq!(JitterGrade::Average.label(), "AVERAGE");
    assert_eq!(JitterGrade::Average.color(), Color::Yellow);
    assert_eq!((JitterGrade::Bad.label(), JitterGrade::Bad.color()), ("BAD", Color::Red));
}

#[test]
fn status_colors() {
    assert_eq!(status_color("IN SYNC"), Color::Green);
    assert_eq!(status_color("OUT OF SYNC"), Color::Red);
    assert_eq!(status_color("UNKNOWN"), Color::Red);
}

#[test]
fn delta_is_taken_once_a_second() {
    let mut cache = DeltaCache::new(5);
    assert_eq!((cache.delta_ms, cache.delta_frames), (0, 0));
    cache.refresh(5, 12, Some(3));
    assert_eq!((cache.delta_ms, cache.delta_frames), (12, 3));
    cache.refresh(4 + SECOND, 99, Some(9));
    assert_eq!((cache.delta_ms, cache.delta_frames), (12, 3));
    cache.refresh(5 + SECOND, 99, None);
    assert_eq!((cache.delta_ms, cache.delta_frames), (99, 3));
    assert_eq!(cache.last_update, 5 + SECOND as i128);
}

#[test]
fn log_keeps_ten() {
    let mut log = LogBuffer::new();
    assert_eq!(log.len(), 0);
    for i in 0..13 {
        log.push(&format!("m{}", i));
    }
    let expected: Vec<String> = (3..13).map(|i| format!("m{}", i)).collect();
    assert_eq!(messages(&log), expected);
}

#[test]
fn keys() {
    let mut log = LogBuffer::new();
    assert_eq!(handle_key(&mut log, 'q'), KeyAction::Quit);
    assert_eq!(handle_key(&mut log, 'Q'), KeyAction::Quit);
    assert_eq!(handle_key(&mut log, 'x'), KeyAction::Ignore);
    assert_eq!(handle_key(&mut log, 'ß'), KeyAction::Ignore);
    assert_eq!(log.len(), 0);
    assert_eq!(handle_key(&mut log, 's'), KeyAction::RequestSync);
    assert_eq!(handle_key(&mut log, 'S'), KeyAction::RequestSync);
    assert_eq!(messages(&log), vec!["Manual sync requested...", "Manual sync requested..."]);
}

#[test]
fn texts() {
    assert_eq!(timecode_text(&frame()), "01:02:33:04");
    assert_eq!(delta_text(0, 0), "Timecode Δ       : +0 ms (+0 frames)");
    assert_eq!(delta_text(-15, 2), "Timecode Δ       : -15 ms (+2 frames)");
}

#[test]
fn whole_screen() {
    let mut log = LogBuffer::new();
    handle_key(&mut log, 's');
    log.push("later");
    let d = dashboard(Panel::Frame { frame: frame(), rate: "25.00".to_string() });
    assert_eq!(
        cells(&screen(&d, &log, &clock())),
        vec![
            (2, 1, None, "NTP Timeturner v2 - Rust Port"),
            (2, 2, None, "Using Serial Port: /dev/ttyACM0"),
            (2, 3, None, "NTP Server       : ACTIVE"),
            (2, 4, None, "Interfaces       : 10.0.0.2, fd00::5"),
            (2, 6, None, "LTC Status       : LOCK"),
            (2, 7, None, "LTC Timecode     : 01:02:33:04"),
            (2, 8, None, "Frame Rate       : 25.00fps"),
            (2, 9, None, "System Clock     : 01:02:03.004"),
            (2, 11, Some(Color::Yellow), "Timecode Δ       : -21 ms (-1 frames)"),
            (2, 12, Some(Color::Green), "Sync Status      : IN SYNC"),
            (2, 13, Some(Color::Red), "Sync Jitter      : BAD"),
            (2, 14, None, "Lock Ratio       : 99.5% LOCK"),
            (2, 16, None, "[S] Set system clock to LTC    [Q] Quit"),
            (2, 18, None, "Manual sync requested..."),
            (2, 19, None, "later"),
        ]
    );
}

#[test]
fn screen_without_a_frame() {
    let log = LogBuffer::new();
    let mut d = dashboard(Panel::Waiting);
    d.ntp_active = false;
    d.interfaces.clear();
    let lines = screen(&d, &log, &clock());
    assert_eq!(lines[2].text, "NTP Server       : INACTIVE");
    assert_eq!(lines[3].text, "Interfaces       : ");
    assert_eq!(lines[4].text, "LTC Status       : (waiting)");
    assert_eq!(lines[5].text, "LTC Timecode     : …");
    assert_eq!(lines[6].text, "Frame Rate       : …");
    assert_eq!(lines[7].text, "System Clock     : 01:02:03.004");
    assert_eq!(lines.len(), 13);
}

#[test]
fn screen_without_the_decoder() {
    let lines = screen(&dashboard(Panel::Unavailable), &LogBuffer::new(), &clock());
    let rows: Vec<u16> = lines.iter().map(|l| l.row).collect();
    assert_eq!(rows, vec![1, 2, 3, 4, 11, 12, 13, 14, 16]);
}

#[test]
fn rows_go_downwards() {
    let mut log = LogBuffer::new();
    for _ in 0..20 {
        handle_key(&mut log, 's');
    }
    let lines = screen(&dashboard(Panel::Waiting), &log, &clock());
    assert!(lines.windows(2).all(|w| w[0].row < w[1].row));
    assert_eq!(lines.last().unwrap().row, 27);
}

#[test]
fn screen_with_the_time_of_the_machine() {
    let lines = current_screen(&dashboard(Panel::Waiting), &LogBuffer::new());
    let text = lines[7].text.as_str();
    assert!(text.starts_with("System Clock     : "));
    assert_eq!(text.chars().count(), "System Clock     : 01:02:03.004".chars().count());
}
