use timeturner::startup::is_daemon;

fn args(words: &[&str]) -> Vec<String> {
    words.iter().map(|w| w.to_string()).collect()
}

#[test]
fn daemon_flag_anywhere() {
    assert!(is_daemon(&args(&["timeturner", "--daemon"])));
    assert!(is_daemon(&args(&["timeturner", "x", "--daemon", "y"])));
    assert!(!is_daemon(&args(&["timeturner"])));
    assert!(!is_daemon(&args(&["timeturner", "--daemons", "-daemon"])));
    assert!(!is_daemon(&args(&[])));
}
