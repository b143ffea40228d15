use hlshell::history::HistoryLog;

fn lines(log: &HistoryLog) -> Vec<String> {
    log.all().clone()
}

#[test]
fn new_log_is_empty() {
    let log = HistoryLog::new();
    assert_eq!(log.len(), 0);
    assert!(log.all().is_empty());
    assert_eq!(log.cursor(), 0);
}

#[test]
fn record_appends_in_order() {
    let mut log = HistoryLog::new();
    log.record("help".to_string());
    log.record("test".to_string());
    log.record("cc".to_string());
    assert_eq!(lines(&log), vec!["help", "test", "cc"]);
    assert_eq!(log.len(), 3);
}

#[test]
fn record_skips_a_repeat_of_the_last_line() {
    let mut log = HistoryLog::new();
    log.record("help".to_string());
    log.record("help".to_string());
    log.record("help".to_string());
    assert_eq!(lines(&log), vec!["help"]);
}

#[test]
fn record_keeps_repeats_that_are_not_adjacent() {
    let mut log = HistoryLog::new();
    log.record("help".to_string());
    log.record("test".to_string());
    log.record("help".to_string());
    assert_eq!(lines(&log), vec!["help", "test", "help"]);
}

#[test]
fn record_tells_lines_apart_exactly() {
    let mut log = HistoryLog::new();
    log.record("help".to_string());
    log.record("help ".to_string());
    log.record("Help ".to_string());
    log.record("".to_string());
    log.record("".to_string());
    assert_eq!(lines(&log), vec!["help", "help ", "Help ", ""]);
}

#[test]
fn no_two_neighbours_are_equal() {
    let mut log = HistoryLog::new();
    let submitted = ["a", "a", "b", "b", "b", "a", "c", "c", "a", "a", "b"];
    for line in submitted {
        log.record(line.to_string());
    }
    let kept = lines(&log);
    assert_eq!(kept, vec!["a", "b", "a", "c", "a", "b"]);
    for i in 0..kept.len() - 1 {
        assert_ne!(kept[i], kept[i + 1]);
    }
}

#[test]
fn cursor_moves_and_resets() {
    let mut log = HistoryLog::new();
    log.record("help".to_string());
    log.set_cursor(3);
    assert_eq!(log.cursor(), 3);
    log.record("test".to_string());
    assert_eq!(log.cursor(), 3);
    log.reset_cursor();
    assert_eq!(log.cursor(), 0);
    assert_eq!(lines(&log), vec!["help", "test"]);
}
