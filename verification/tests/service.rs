use timeturner::service::{
    date_args, date_outcome, is_white_space, ntp_query_args, ntp_service_active, ntp_toggle_args,
    reply_is_active, trim, CommandOutput,
};

fn output(success: bool, stdout: &[u8]) -> Option<CommandOutput> {
    Some(CommandOutput { success, stdout: stdout.to_vec() })
}

#[test]
fn white_space_is_that_of_std() {
    for u in 0..=0x10FFFFu32 {
        if let Some(c) = char::from_u32(u) {
            assert_eq!(is_white_space(c), c.is_whitespace());
        }
    }
}

#[test]
fn trimming() {
    for s in ["", " ", "active", " active\n", "\t a b \u{3000}", "\u{a0}x", "x\u{85}"] {
        assert_eq!(trim(s), s.trim());
    }
}

#[test]
fn only_the_word_itself_is_active() {
    assert!(reply_is_active("active"));
    assert!(reply_is_active(" \tactive\r\n"));
    assert!(!reply_is_active("inactive\n"));
    assert!(!reply_is_active("active active"));
    assert!(!reply_is_active("Active"));
    assert!(!reply_is_active(""));
}

#[test]
fn service_state() {
    assert!(ntp_service_active(&output(true, b"active\n")));
    assert!(!ntp_service_active(&output(false, b"active\n")));
    assert!(!ntp_service_active(&output(true, b"inactive\n")));
    assert!(!ntp_service_active(&output(true, b"\xffactive\n")));
    assert!(!ntp_service_active(&output(true, b"active\xc3")));
    assert!(!ntp_service_active(&output(true, b"active \xed\xa0\x80")));
    assert!(!ntp_service_active(&None));
    assert!(ntp_service_active(&output(true, "\u{2003}active".as_bytes())));
}

#[test]
fn command_arguments() {
    assert_eq!(ntp_query_args(), vec!["is-active", "ntpd"]);
    assert_eq!(ntp_toggle_args(true), vec!["start", "ntpd"]);
    assert_eq!(ntp_toggle_args(false), vec!["stop", "ntpd"]);
    assert_eq!(date_args("01:02:03.004"), vec!["date", "-s", "01:02:03.004"]);
}

#[test]
fn date_command_result() {
    assert_eq!(date_outcome(true), Ok(()));
    assert_eq!(date_outcome(false), Err("date command failed"));
}
