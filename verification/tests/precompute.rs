use std::collections::VecDeque;
use std::sync::Arc;

use oculus::data::Level;
use oculus::data_task;
use oculus::egui_app::{LogDisplaySettings, LogLevelFilter, UiEvent};
use oculus::event::DashboardEvent;
use oculus::precompute::{DataPrecomputeTask, DataTaskCtrl, PrecomputeAction, PrecomputeEvent};

fn event(level: Level, message: &str) -> Arc<DashboardEvent> {
    Arc::new(DashboardEvent {
        timestamp: 1,
        level,
        target: String::new(),
        message: message.to_string(),
        span_id: None,
        parent_span_id: None,
        span_meta: None,
        file: None,
        line: None,
        fields: Vec::new(),
    })
}

fn q(v: Vec<Arc<DashboardEvent>>) -> VecDeque<Arc<DashboardEvent>> {
    v.into()
}

fn at(level: LogLevelFilter) -> LogDisplaySettings {
    LogDisplaySettings { level_filter: level, ..LogDisplaySettings::default() }
}

#[test]
fn precompute_publishes_events_at_the_view_level() {
    let mut task = DataPrecomputeTask::new(at(LogLevelFilter::Warn));
    assert!(task.publish_new_logs(q(vec![event(Level::Info, "i")])).is_none());
    let d = task.publish_new_logs(q(vec![event(Level::Error, "e"), event(Level::Debug, "d")])).expect("shown");
    assert_eq!(d.filtered_logs.len(), 1);
    assert_eq!(d.filtered_logs[0].message, "e");
    assert_eq!(d.log_counts.total, 3);
}

#[test]
fn precompute_timer_commands_and_exit() {
    let mut task = DataPrecomputeTask::new(LogDisplaySettings::default());
    assert!(matches!(task.step(PrecomputeEvent::Ctrl(Some(DataTaskCtrl::StopTimer))), PrecomputeAction::Nothing));
    assert!(matches!(task.step(PrecomputeEvent::Ctrl(Some(DataTaskCtrl::StartTimer))), PrecomputeAction::Nothing));
    match task.step(PrecomputeEvent::Tick(q(vec![event(Level::Info, "x")]))) {
        PrecomputeAction::Publish(d) => assert_eq!(d.filtered_logs.len(), 1),
        _ => panic!("tick publishes"),
    }
    match task.step(PrecomputeEvent::FromUi(Some(UiEvent::LogDisplaySettingsChanged(at(LogLevelFilter::Error))))) {
        PrecomputeAction::Publish(d) => {
            assert!(d.filtered_logs.is_empty());
            assert_eq!(d.log_counts.info, 1);
        }
        _ => panic!("settings change publishes"),
    }
    assert!(matches!(task.step(PrecomputeEvent::Ctrl(None)), PrecomputeAction::Exit));
    assert!(matches!(task.step(PrecomputeEvent::FromUi(None)), PrecomputeAction::Exit));
}

#[test]
fn first_data_task_publishes_only_events() {
    let mut task = data_task::DataPrecomputeTask::new(at(LogLevelFilter::Info));
    let shown = task.publish_new_logs(q(vec![event(Level::Trace, "t"), event(Level::Info, "i")])).expect("shown");
    assert_eq!(shown.len(), 1);
    let refreshed = task.handle_ui_event(UiEvent::LogDisplaySettingsChanged(at(LogLevelFilter::Trace)));
    assert_eq!(refreshed.len(), 2);
    assert_eq!(task.settings().level_filter, LogLevelFilter::Trace);
}

#[test]
fn first_data_task_runs_once_started() {
    let mut task = data_task::DataPrecomputeTask::new(at(LogLevelFilter::Info));
    assert!(!task.timer_enabled());
    assert!(matches!(task.step(data_task::DataTaskEvent::Ctrl(data_task::DataTaskCtrl::Start)), data_task::DataTaskAction::Nothing));
    assert!(task.timer_enabled());
    match task.step(data_task::DataTaskEvent::Tick(q(vec![event(Level::Debug, "d"), event(Level::Warn, "w")]))) {
        data_task::DataTaskAction::Publish(v) => {
            assert_eq!(v.len(), 1);
            assert_eq!(v[0].message, "w");
        }
        _ => panic!("a shown event is published"),
    }
    assert!(matches!(task.step(data_task::DataTaskEvent::Tick(VecDeque::new())), data_task::DataTaskAction::Nothing));
    match task.step(data_task::DataTaskEvent::FromUi(Some(UiEvent::LogDisplaySettingsChanged(at(LogLevelFilter::Debug))))) {
        data_task::DataTaskAction::Publish(v) => assert_eq!(v.len(), 2),
        _ => panic!("settings change publishes"),
    }
    assert!(matches!(task.step(data_task::DataTaskEvent::Ctrl(data_task::DataTaskCtrl::Stop)), data_task::DataTaskAction::Nothing));
    assert!(!task.timer_enabled());
    assert!(matches!(task.step(data_task::DataTaskEvent::FromUi(None)), data_task::DataTaskAction::Exit));
}
