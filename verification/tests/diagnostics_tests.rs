use dotdash::diagnostics::{LogEvent, LogRing, LOG_CAPACITY};
use dotdash::rules::{Rule, RuleStore};

#[test]
fn log_lines_come_back_in_order() {
    let mut ring = LogRing::new();
    ring.push_log("one".to_string());
    ring.push_log("two".to_string());
    let logs = ring.get_logs();
    assert_eq!(logs.len(), 2);
    assert!(matches!(&logs[0], LogEvent::Line(s) if s == "one"));
    assert!(matches!(&logs[1], LogEvent::Line(s) if s == "two"));
}

#[test]
fn ring_evicts_oldest_beyond_capacity() {
    let mut ring = LogRing::new();
    for i in 0..(LOG_CAPACITY + 3) {
        ring.push_log(format!("line {}", i));
    }
    assert_eq!(ring.len(), LOG_CAPACITY);
    let logs = ring.get_logs();
    // The three oldest lines are gone, the newest is last.
    assert!(matches!(&logs[0], LogEvent::Line(s) if s == "line 3"));
    assert!(
        matches!(&logs[LOG_CAPACITY - 1], LogEvent::Line(s) if *s == format!("line {}", LOG_CAPACITY + 2))
    );
}

#[test]
fn structured_events_round_trip() {
    let mut ring = LogRing::new();
    ring.push_event(LogEvent::RuleMatched { rule_index: 4 });
    ring.push_event(LogEvent::DryRun { backspace_count: 7, replacement_len: 14 });
    ring.push_event(LogEvent::Heartbeat { events: 42, running: false });
    ring.push_event(LogEvent::Key { chars: vec!['a', 'b'] });
    let logs = ring.get_logs();
    assert!(matches!(logs[0], LogEvent::RuleMatched { rule_index: 4 }));
    assert!(matches!(logs[1], LogEvent::DryRun { backspace_count: 7, replacement_len: 14 }));
    assert!(matches!(logs[2], LogEvent::Heartbeat { events: 42, running: false }));
    assert!(matches!(&logs[3], LogEvent::Key { chars } if *chars == vec!['a', 'b']));
}

#[test]
fn rule_store_replaces_wholesale() {
    let mut store = RuleStore::new();
    assert_eq!(store.len(), 0);
    store.replace_all(vec![
        Rule { trigger: ";a".to_string(), replacement: "alpha".to_string() },
        Rule { trigger: ";b".to_string(), replacement: "beta".to_string() },
    ]);
    assert_eq!(store.len(), 2);
    let snap = store.snapshot();
    assert_eq!(snap.len(), 2);
    assert_eq!(snap[0].trigger, ";a");
    assert_eq!(snap[0].replacement, "alpha");
    assert_eq!(snap[1].trigger, ";b");
    store.replace_all(Vec::new());
    assert_eq!(store.len(), 0);
}
