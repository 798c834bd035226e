use sidecar_host::pattern::LinePattern;
use sidecar_host::pid::{parse_pid, pid_in_line, scan_for_pid, PidPoll, PollAction, MAX_RETRIES, PID_PATTERN};

fn pid_pattern() -> LinePattern {
    LinePattern::compile(PID_PATTERN).expect("the pid pattern compiles")
}

#[test]
fn parse_pid_reads_decimal() {
    assert_eq!(parse_pid("4821"), Some(4821));
    assert_eq!(parse_pid("0"), Some(0));
    assert_eq!(parse_pid("+7"), Some(7));
    assert_eq!(parse_pid("4294967295"), Some(u32::MAX));
}

#[test]
fn parse_pid_rejects_what_std_rejects() {
    assert_eq!(parse_pid(""), None);
    assert_eq!(parse_pid("+"), None);
    assert_eq!(parse_pid("-1"), None);
    assert_eq!(parse_pid("12a"), None);
    assert_eq!(parse_pid("4294967296"), None);
    assert_eq!(parse_pid("99999999999999999999"), None);
    assert_eq!(parse_pid("٣"), None);
}

#[test]
fn parse_pid_agrees_with_std() {
    for s in ["1", "00012", "+0", "4294967295", "4294967296", "", "+", "++1", " 1", "1 "] {
        assert_eq!(parse_pid(s), s.parse::<u32>().ok(), "input {:?}", s);
    }
}

#[test]
fn pid_line_is_recognised() {
    let p = pid_pattern();
    assert_eq!(pid_in_line(&p, "startup pid: 4821"), Some(4821));
    assert_eq!(pid_in_line(&p, "pid:77"), Some(77));
}

#[test]
fn non_matching_line_gives_no_pid() {
    let p = pid_pattern();
    assert_eq!(pid_in_line(&p, "pidgeon: 12"), None);
    assert_eq!(pid_in_line(&p, "no id here"), None);
    assert_eq!(pid_in_line(&p, "pid: 99999999999"), None);
}

#[test]
fn pid_pattern_compiles() {
    assert!(LinePattern::compile(PID_PATTERN).is_some());
    assert!(LinePattern::compile("").is_some());
}

#[test]
fn invalid_pattern_does_not_compile() {
    assert!(LinePattern::compile("pid:(").is_none());
}

#[test]
fn scan_finds_pid_only_after_line_is_written() {
    let p = pid_pattern();
    let mut lines = vec!["booting".to_string(), "pidgeon: 12".to_string()];
    assert_eq!(scan_for_pid(&p, &lines), None);
    lines.push("startup pid: 4821".to_string());
    assert_eq!(scan_for_pid(&p, &lines), Some(4821));
    lines.push("child pid: 5".to_string());
    assert_eq!(scan_for_pid(&p, &lines), Some(4821));
}

#[test]
fn scan_of_empty_log_finds_nothing() {
    let p = pid_pattern();
    assert_eq!(scan_for_pid(&p, &Vec::new()), None);
}

#[test]
fn poll_retries_then_gives_up() {
    let mut poll = PidPoll::new(3);
    assert_eq!(poll.after_read(None), PollAction::Retry);
    assert_eq!(poll.after_read(None), PollAction::Retry);
    assert_eq!(poll.after_read(None), PollAction::GiveUp);
    assert_eq!(poll.reads, 2);
}

#[test]
fn poll_stops_on_found_pid() {
    let mut poll = PidPoll::new(MAX_RETRIES);
    assert_eq!(poll.after_read(None), PollAction::Retry);
    assert_eq!(poll.after_read(Some(4821)), PollAction::Found(4821));
    assert_eq!(poll.reads, 1);
}

#[test]
fn poll_with_no_reads_left_gives_up() {
    let mut poll = PidPoll::new(0);
    assert_eq!(poll.after_read(None), PollAction::GiveUp);
    let mut poll = PidPoll::new(1);
    assert_eq!(poll.after_read(None), PollAction::GiveUp);
}
