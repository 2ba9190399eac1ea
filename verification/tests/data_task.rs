use std::collections::VecDeque;
use std::sync::Arc;

use oculus::backend::stream::{
    editor_is_nvim, nvim_remote_command, DataTask, DataTaskAction, DataTaskCtrl, DataTaskEvent, StreamErrorKind,
    StreamTasks,
};
use oculus::data::{DisplaySettings, Level, StreamData};
use oculus::event::DashboardEvent;
use oculus::frontend::ScopedUIEvent;

fn event(level: Level, message: &str) -> Arc<DashboardEvent> {
    Arc::new(DashboardEvent {
        timestamp: 0,
        level,
        target: "t".to_string(),
        message: message.to_string(),
        span_id: None,
        parent_span_id: None,
        span_meta: None,
        file: None,
        line: None,
        fields: Vec::new(),
    })
}

fn q(v: Vec<Arc<DashboardEvent>>) -> VecDeque<Arc<DashboardEvent>> {
    v.into()
}

fn messages(d: &StreamData) -> Vec<String> {
    d.filtered_logs.iter().map(|e| e.message.clone()).collect()
}

fn settings(level: Level, search: &str) -> DisplaySettings {
    DisplaySettings {
        search_string: Arc::new(search.to_string()),
        level_filter: level,
        ..DisplaySettings::default()
    }
}

#[test]
fn default_settings_show_everything() {
    let s = DisplaySettings::default();
    assert!(s.search_string.is_empty());
    assert!(s.show_timestamps && s.show_targets && s.show_file_info && s.show_span_info && s.auto_scroll);
    assert_eq!(s.level_filter, Level::Trace);
    assert!(!s.wrap);
}

#[test]
fn publish_appends_shown_events_and_counts_all() {
    let mut task = DataTask::new(settings(Level::Info, ""));
    let first = task.publish_new_logs(q(vec![event(Level::Debug, "d1"), event(Level::Info, "i1")]));
    let first = first.expect("one event is shown");
    assert_eq!(messages(&first), vec!["i1"]);
    assert_eq!(first.log_counts.total, 2);
    assert_eq!(first.log_counts.debug, 1);
    let second = task.publish_new_logs(q(vec![event(Level::Error, "e1")])).expect("shown");
    assert_eq!(messages(&second), vec!["i1", "e1"]);
    assert_eq!(second.log_counts.total, 3);
    assert_eq!(second.log_counts.error, 1);
}

#[test]
fn publish_nothing_when_no_new_event_is_shown() {
    let mut task = DataTask::new(settings(Level::Warn, ""));
    assert!(task.publish_new_logs(q(vec![event(Level::Info, "i")])).is_none());
    assert!(task.publish_new_logs(VecDeque::new()).is_none());
    let d = task.publish_new_logs(q(vec![event(Level::Warn, "w")])).expect("shown");
    assert_eq!(messages(&d), vec!["w"]);
    assert_eq!(d.log_counts.total, 2);
}

#[test]
fn search_filters_messages_ignoring_case() {
    let mut task = DataTask::new(settings(Level::Trace, "CONN"));
    let d = task
        .publish_new_logs(q(vec![event(Level::Info, "connected"), event(Level::Info, "idle"), event(Level::Error, "Connection lost")]))
        .expect("shown");
    assert_eq!(messages(&d), vec!["connected", "Connection lost"]);
}

#[test]
fn settings_change_refilters_all_events() {
    let mut task = DataTask::new(settings(Level::Trace, ""));
    task.publish_new_logs(q(vec![event(Level::Debug, "d"), event(Level::Error, "e"), event(Level::Info, "i")]));
    match task.handle_ui_event(ScopedUIEvent::LogDisplaySettingsChanged(settings(Level::Info, ""))) {
        DataTaskAction::Publish(d) => {
            assert_eq!(messages(&d), vec!["e", "i"]);
            assert_eq!(d.log_counts.total, 3);
        }
        _ => panic!("settings change publishes"),
    }
}

#[test]
fn settings_change_refilters_the_shown_events_for_later_ticks() {
    let mut task = DataTask::new(settings(Level::Trace, ""));
    task.publish_new_logs(q(vec![event(Level::Debug, "d")]));
    task.handle_ui_event(ScopedUIEvent::LogDisplaySettingsChanged(settings(Level::Error, "")));
    let d = task.publish_new_logs(q(vec![event(Level::Error, "e")])).expect("shown");
    assert_eq!(messages(&d), vec!["e"]);
    assert_eq!(d.log_counts.total, 2);
}

#[test]
fn clear_forgets_everything() {
    let mut task = DataTask::new(settings(Level::Trace, ""));
    task.publish_new_logs(q(vec![event(Level::Info, "a"), event(Level::Warn, "b")]));
    match task.handle_ui_event(ScopedUIEvent::Clear) {
        DataTaskAction::Publish(d) => {
            assert!(d.filtered_logs.is_empty());
            assert_eq!(d.log_counts.total, 0);
            assert_eq!(d.log_counts.warn, 0);
        }
        _ => panic!("clear publishes"),
    }
    let d = task.publish_new_logs(q(vec![event(Level::Info, "c")])).expect("shown");
    assert_eq!(messages(&d), vec!["c"]);
    assert_eq!(d.log_counts.total, 1);
}

#[test]
fn open_in_editor_is_passed_on() {
    let mut task = DataTask::new(DisplaySettings::default());
    match task.handle_ui_event(ScopedUIEvent::OpenInEditor { path: "/a/src/main.rs".to_string(), line: 7 }) {
        DataTaskAction::OpenInEditor { path, line } => {
            assert_eq!(path, "/a/src/main.rs");
            assert_eq!(line, 7);
        }
        _ => panic!("expected the editor"),
    }
}

#[test]
fn timer_waits_for_start_command() {
    let mut task = DataTask::new(DisplaySettings::default());
    assert!(!task.timer_enabled());
    assert!(matches!(task.step(DataTaskEvent::Ctrl(DataTaskCtrl::StartTimer)), DataTaskAction::Nothing));
    assert!(task.timer_enabled());
    assert!(matches!(task.step(DataTaskEvent::Ctrl(DataTaskCtrl::StopTimer)), DataTaskAction::Nothing));
    assert!(!task.timer_enabled());
}

#[test]
fn step_stops_timer_when_writer_dropped() {
    let mut task = DataTask::new(DisplaySettings::default());
    task.step(DataTaskEvent::Ctrl(DataTaskCtrl::StartTimer));
    match task.step(DataTaskEvent::Tick { writer_dropped: false, new_logs: q(vec![event(Level::Info, "x")]) }) {
        DataTaskAction::Publish(d) => assert_eq!(messages(&d), vec!["x"]),
        _ => panic!("tick with a shown event publishes"),
    }
    match task.step(DataTaskEvent::Tick { writer_dropped: true, new_logs: VecDeque::new() }) {
        DataTaskAction::Nothing => {}
        _ => panic!("nothing new"),
    }
    assert!(!task.timer_enabled());
    match task.step(DataTaskEvent::FrontendClosed) {
        DataTaskAction::Exit => {}
        _ => panic!("closed pane ends the task"),
    }
}

#[test]
fn stream_ends_when_both_tasks_finish() {
    let mut tasks = StreamTasks::new();
    assert!(!tasks.task_finished(StreamErrorKind::DataTaskFailed));
    assert!(tasks.task_finished(StreamErrorKind::TcpTaskFailed));
}

#[test]
fn editor_detection_and_command() {
    assert!(editor_is_nvim("nvim"));
    assert!(editor_is_nvim("/usr/bin/nvim"));
    assert!(!editor_is_nvim("vim"));
    assert!(!editor_is_nvim("nvim-qt"));
    assert_eq!(nvim_remote_command("/p/src/lib.rs", 42), "<Cmd>edit /p/src/lib.rs<CR>42G");
}
