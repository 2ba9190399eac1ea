use std::collections::VecDeque;
use std::sync::Arc;

use oculus::backend::{contains_case_insensitive, event_passes, filter_events, LogAppendBuf, LogCounts};
use oculus::data::Level;
use oculus::event::DashboardEvent;

fn event(level: Level, message: &str) -> Arc<DashboardEvent> {
    Arc::new(DashboardEvent {
        timestamp: 0,
        level,
        target: "app".to_string(),
        message: message.to_string(),
        span_id: None,
        parent_span_id: None,
        span_meta: None,
        file: None,
        line: None,
        fields: Vec::new(),
    })
}

#[test]
fn contains_ignores_ascii_case() {
    assert!(contains_case_insensitive("Hello World", "world"));
    assert!(contains_case_insensitive("Hello World", "LO WO"));
    assert!(!contains_case_insensitive("Hello World", "worlds"));
    assert!(!contains_case_insensitive("abc", "abcd"));
}

#[test]
fn contains_empty_needle_is_found() {
    assert!(contains_case_insensitive("", ""));
    assert!(contains_case_insensitive("anything", ""));
    assert!(!contains_case_insensitive("", "a"));
}

#[test]
fn contains_non_ascii_compares_bytes() {
    assert!(contains_case_insensitive("grüße aus Köln", "KÖLN".to_lowercase().as_str()));
    assert!(!contains_case_insensitive("Ärger", "ärger"));
    assert!(contains_case_insensitive("Ärger", "äRGER".replace('ä', "Ä").as_str()));
}

#[test]
fn level_order_is_by_severity() {
    assert!(Level::Error.at_least(&Level::Trace));
    assert!(Level::Warn.at_least(&Level::Warn));
    assert!(!Level::Info.at_least(&Level::Warn));
    assert_eq!(Level::Trace.rank(), 0);
    assert_eq!(Level::Error.rank(), 4);
}

#[test]
fn event_passes_level_and_search() {
    let e = event(Level::Warn, "Disk almost FULL");
    assert!(event_passes(&e, Level::Info, ""));
    assert!(event_passes(&e, Level::Warn, "full"));
    assert!(!event_passes(&e, Level::Error, ""));
    assert!(!event_passes(&e, Level::Trace, "empty"));
}

#[test]
fn filter_keeps_order_and_shares_events() {
    let logs: VecDeque<_> = vec![
        event(Level::Info, "a"),
        event(Level::Debug, "b"),
        event(Level::Error, "c"),
        event(Level::Warn, "d"),
    ].into();
    let shown = filter_events(&logs, Level::Info, "");
    let messages: Vec<&str> = shown.iter().map(|e| e.message.as_str()).collect();
    assert_eq!(messages, vec!["a", "c", "d"]);
    assert!(Arc::ptr_eq(&shown[1], &logs[2]));
}

#[test]
fn stricter_filter_shows_fewer() {
    let logs: VecDeque<_> = vec![event(Level::Info, "a"), event(Level::Debug, "b"), event(Level::Error, "c")].into();
    let lenient = filter_events(&logs, Level::Debug, "");
    let strict = filter_events(&logs, Level::Error, "");
    assert_eq!(lenient.len(), 3);
    assert_eq!(strict.len(), 1);
}

#[test]
fn counts_per_level_add_up() {
    let logs: VecDeque<_> = vec![
        event(Level::Info, "a"),
        event(Level::Info, "b"),
        event(Level::Error, "c"),
        event(Level::Trace, "d"),
    ].into();
    let c = LogCounts::from_logs(&logs);
    assert_eq!(c.total, 4);
    assert_eq!(c.info, 2);
    assert_eq!(c.error, 1);
    assert_eq!(c.trace, 1);
    assert_eq!(c.debug, 0);
    assert_eq!(c.warn, 0);
    assert_eq!(c.total, c.trace + c.debug + c.info + c.warn + c.error);
}

#[test]
fn counts_reset_to_zero() {
    let logs: VecDeque<_> = vec![event(Level::Warn, "a")].into();
    let mut c = LogCounts::from_logs(&logs);
    c.reset();
    assert_eq!((c.total, c.trace, c.debug, c.info, c.warn, c.error), (0, 0, 0, 0, 0, 0));
    let d = LogCounts::default();
    assert_eq!(d.total, 0);
}

#[test]
fn append_buffer_hands_out_everything_once() {
    let mut buf = LogAppendBuf::new();
    buf.push(1);
    buf.push(2);
    buf.push_batch(VecDeque::from(vec![3, 4]));
    assert_eq!(buf.swap(), VecDeque::from(vec![1, 2, 3, 4]));
    assert_eq!(buf.swap(), VecDeque::<i32>::new());
    buf.push(5);
    assert_eq!(buf.swap(), VecDeque::from(vec![5]));
}

#[test]
fn most_verbose_filter_shows_everything() {
    let logs: VecDeque<_> = vec![event(Level::Trace, "t"), event(Level::Error, "e"), event(Level::Debug, "d")].into();
    let shown = filter_events(&logs, Level::Trace, "");
    assert_eq!(shown.len(), 3);
    for (a, b) in shown.iter().zip(logs.iter()) {
        assert!(Arc::ptr_eq(a, b));
    }
}

#[test]
fn filtering_distributes_over_batches() {
    let first: VecDeque<_> = vec![event(Level::Info, "a"), event(Level::Trace, "b")].into();
    let second: VecDeque<_> = vec![event(Level::Warn, "c"), event(Level::Debug, "d")].into();
    let mut both = first.clone();
    both.extend(second.iter().cloned());
    let mut separate = filter_events(&first, Level::Info, "");
    separate.extend(filter_events(&second, Level::Info, ""));
    let together = filter_events(&both, Level::Info, "");
    let a: Vec<&str> = separate.iter().map(|e| e.message.as_str()).collect();
    let b: Vec<&str> = together.iter().map(|e| e.message.as_str()).collect();
    assert_eq!(a, b);
    assert_eq!(b, vec!["a", "c"]);
}

#[test]
fn match_survives_surrounding_text() {
    assert!(contains_case_insensitive("Connection", "CONN"));
    assert!(contains_case_insensitive("[net] Connection lost ✓", "CONN"));
    assert!(contains_case_insensitive("xxLOSTyy", "lost"));
}
