use devver_cli::log::{SessionLog, LOG_CAPACITY};

fn line(i: usize) -> String {
    format!("line {}", i)
}

#[test]
fn new_log_is_empty() {
    let log = SessionLog::new();
    assert_eq!(log.len(), 0);
    assert_eq!(log.recent(10), Vec::<String>::new());
}

#[test]
fn append_adds_at_the_tail() {
    let mut log = SessionLog::new();
    log.append("first");
    log.append("second");
    assert_eq!(log.len(), 2);
    assert_eq!(log.recent(2), vec!["first", "second"]);
}

#[test]
fn capacity_is_five_hundred() {
    assert_eq!(LOG_CAPACITY, 500);
}

#[test]
fn log_keeps_the_last_five_hundred_of_501() {
    let mut log = SessionLog::new();
    for i in 0..501 {
        log.append(&line(i));
    }
    let expected: Vec<String> = (1..501).map(line).collect();
    let recent = log.recent(501);
    assert_eq!(recent.len(), 500);
    assert_eq!(recent, expected);
    assert!(!recent.contains(&line(0)));
    assert_eq!(log.len(), 500);
}

#[test]
fn log_is_full_at_exactly_its_capacity() {
    let mut log = SessionLog::new();
    for i in 0..500 {
        log.append(&line(i));
    }
    assert_eq!(log.len(), 500);
    assert_eq!(log.recent(500)[0], line(0));
    log.append("one more");
    assert_eq!(log.len(), 500);
    assert_eq!(log.recent(500)[0], line(1));
    assert_eq!(log.recent(1), vec!["one more"]);
}

#[test]
fn log_never_outgrows_its_capacity() {
    let mut log = SessionLog::new();
    for i in 0..1234 {
        log.append(&line(i));
        assert!(log.len() <= LOG_CAPACITY);
    }
    let expected: Vec<String> = (734..1234).map(line).collect();
    assert_eq!(log.recent(usize::MAX), expected);
}

#[test]
fn recent_gives_a_window_oldest_first() {
    let mut log = SessionLog::new();
    for i in 0..5 {
        log.append(&line(i));
    }
    assert_eq!(log.recent(2), vec![line(3), line(4)]);
    assert_eq!(log.recent(5).len(), 5);
    assert_eq!(log.recent(9).len(), 5);
    assert_eq!(log.recent(0), Vec::<String>::new());
}

#[test]
fn recent_leaves_the_log_as_it_is() {
    let mut log = SessionLog::new();
    for i in 0..7 {
        log.append(&line(i));
    }
    let first = log.recent(3);
    let second = log.recent(3);
    assert_eq!(first, second);
    assert_eq!(log.len(), 7);
    let all: Vec<String> = (0..7).map(line).collect();
    assert_eq!(log.recent(7), all);
    assert_eq!(log.recent(7), all);
}

#[test]
fn equal_lines_are_kept_apart() {
    let mut log = SessionLog::new();
    log.append("same");
    log.append("same");
    assert_eq!(log.recent(5), vec!["same", "same"]);
}
