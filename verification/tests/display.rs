use std::sync::Arc;

use oculus::backend::LogCounts;
use oculus::data::{DisplaySettings, Level};
use oculus::egui_app::{choose_level_filter, create_layout_job, format_timestamp, LogDisplaySettings, LogLevelFilter, UiEvent};
use oculus::event::{DashboardEvent, SpanMeta};
use oculus::frontend::pane::{
    color_for_log_level, file_cell, filter_buttons, format_fields, format_timestamp_utc, level_cell,
    message_cell, open_in_editor_event, path_parts, select_level_filter, span_cell, target_cell,
    timestamp_cell, total_label, visible_columns, LogColumn, Rgb,
};
use oculus::frontend::ScopedUIEvent;
use oculus::single_view::{self, apply_filter};

fn full_event() -> DashboardEvent {
    DashboardEvent {
        timestamp: 1725029869000,
        level: Level::Warn,
        target: "server::net".to_string(),
        message: "slow request".to_string(),
        span_id: Some(9),
        parent_span_id: Some(3),
        span_meta: Some(SpanMeta { name: "handle".to_string() }),
        file: Some("/home/me/oculus/src/backend/mod.rs".to_string()),
        line: Some(120),
        fields: vec![("ms".to_string(), "250".to_string()), ("path".to_string(), "/x".to_string())],
    }
}

#[test]
fn path_parts_splits_at_last_src() {
    let p = path_parts("/home/me/oculus/src/backend/mod.rs");
    assert_eq!(p.project, "oculus");
    assert_eq!(p.file, "backend/mod.rs");
    let p = path_parts("/a/src/b/src/c.rs");
    assert_eq!(p.project, "b");
    assert_eq!(p.file, "c.rs");
    let p = path_parts("crate/src/lib.rs");
    assert_eq!(p.project, "crate");
    assert_eq!(p.file, "lib.rs");
}

#[test]
fn path_parts_without_src() {
    let p = path_parts("main.rs");
    assert_eq!(p.project, "");
    assert_eq!(p.file, "main.rs");
    let p = path_parts("");
    assert_eq!(p.project, "");
    assert_eq!(p.file, "");
}

#[test]
fn fields_are_formatted_in_order() {
    assert_eq!(format_fields(&Vec::new()), "");
    assert_eq!(format_fields(&vec![("a".to_string(), "1".to_string())]), " {a=1}");
    assert_eq!(
        format_fields(&vec![("a".to_string(), "1".to_string()), ("b".to_string(), "x y".to_string())]),
        " {a=1, b=x y}"
    );
}

#[test]
fn timestamps_in_utc() {
    assert_eq!(format_timestamp_utc(0), "01/01/70 00:00:00");
    assert_eq!(format_timestamp_utc(1725029869000), "30/08/24 14:57:49");
    assert_eq!(format_timestamp_utc(u64::MAX), "31/12/69 23:59:59");
    assert_eq!(format_timestamp_utc(i64::MAX as u64), "01/01/70 00:00:00");
}

#[test]
fn plain_timestamps() {
    assert_eq!(format_timestamp(0), "0");
    assert_eq!(format_timestamp(1725029869000), "1725029869000");
}

#[test]
fn columns_follow_settings() {
    let all = DisplaySettings::default();
    assert_eq!(
        visible_columns(&all),
        vec![LogColumn::Timestamp, LogColumn::Level, LogColumn::Target, LogColumn::SpanInfo, LogColumn::FileInfo, LogColumn::Message]
    );
    let few = DisplaySettings { show_timestamps: false, show_span_info: false, ..DisplaySettings::default() };
    assert_eq!(visible_columns(&few), vec![LogColumn::Level, LogColumn::Target, LogColumn::FileInfo, LogColumn::Message]);
}

#[test]
fn row_cells_of_an_event() {
    let e = full_event();
    let t = timestamp_cell(&e);
    assert_eq!(t.text, "30/08/24 14:57:49");
    assert_eq!(t.size, 12);
    let l = level_cell(&e);
    assert_eq!(l.text, "WARN");
    assert_eq!(l.color, Rgb { r: 255, g: 204, b: 0 });
    assert_eq!(target_cell(&e).text, "server::net");
    assert_eq!(span_cell(&e).expect("in a span").text, "3\u{2192}handle");
    let f = file_cell(&e).expect("has a location");
    assert_eq!(f.project.text, "oculus");
    assert_eq!(f.link.text, "backend/mod.rs:120");
    assert!(f.link.underline);
    match open_in_editor_event(&f) {
        ScopedUIEvent::OpenInEditor { path, line } => {
            assert_eq!(path, "/home/me/oculus/src/backend/mod.rs");
            assert_eq!(line, 120);
        }
        _ => panic!("expected an editor request"),
    }
    let m = message_cell(&e);
    assert_eq!(m.len(), 2);
    assert_eq!(m[0].text, "slow request");
    assert_eq!(m[1].text, " {ms=250, path=/x}");
}

#[test]
fn cells_without_span_or_location() {
    let e = DashboardEvent { span_meta: None, parent_span_id: None, file: None, fields: Vec::new(), ..full_event() };
    assert!(span_cell(&e).is_none());
    assert!(file_cell(&e).is_none());
    assert_eq!(message_cell(&e).len(), 1);
    let e = DashboardEvent { parent_span_id: None, ..full_event() };
    assert_eq!(span_cell(&e).expect("in a span").text, "handle");
}

#[test]
fn level_colors() {
    assert_eq!(color_for_log_level(&Level::Error), Rgb { r: 255, g: 85, b: 85 });
    assert_eq!(color_for_log_level(&Level::Trace), Rgb { r: 189, g: 147, b: 249 });
}

#[test]
fn buttons_show_counts() {
    let counts = LogCounts { total: 10, trace: 1, debug: 2, info: 3, warn: 4, error: 0 };
    let buttons = filter_buttons(&counts, Level::Info);
    let labels: Vec<&str> = buttons.iter().map(|b| b.label.as_str()).collect();
    assert_eq!(labels, vec!["Error: 0", "Warn: 4", "Info: 3", "Debug: 2", "Trace: 1"]);
    let active: Vec<bool> = buttons.iter().map(|b| b.active).collect();
    assert_eq!(active, vec![false, false, true, false, false]);
    assert_eq!(total_label(&counts), "Total: 10");
}

#[test]
fn selecting_a_level_sends_settings_once() {
    let mut s = DisplaySettings::default();
    match select_level_filter(&mut s, Level::Warn) {
        Some(ScopedUIEvent::LogDisplaySettingsChanged(sent)) => assert_eq!(sent.level_filter, Level::Warn),
        _ => panic!("a new level is sent"),
    }
    assert_eq!(s.level_filter, Level::Warn);
    assert!(select_level_filter(&mut s, Level::Warn).is_none());
}

#[test]
fn apply_filter_in_single_view() {
    let mut s = single_view::DisplaySettings::default();
    assert!(apply_filter(&mut s, LogLevelFilter::Trace).is_none());
    match apply_filter(&mut s, LogLevelFilter::Error) {
        Some(single_view::UiEvent::LogDisplaySettingsChanged(sent)) => assert_eq!(sent.level_filter, LogLevelFilter::Error),
        _ => panic!("a new filter is sent"),
    }
}

#[test]
fn layout_job_with_everything_shown() {
    let e = full_event();
    let s = LogDisplaySettings {
        show_timestamps: true,
        show_targets: true,
        show_file_info: true,
        show_span_info: true,
        auto_scroll: true,
        level_filter: LogLevelFilter::Trace,
    };
    let job = create_layout_job(&e, s);
    let texts: Vec<&str> = job.iter().map(|p| p.text.as_str()).collect();
    assert_eq!(
        texts,
        vec![
            "1725029869000 ",
            " WARN ",
            "server::net ",
            "[3\u{2192}9] ",
            "/home/me/oculus/src/backend/mod.rs:120 ",
            "slow request",
            " {ms=250, path=/x}",
        ]
    );
    assert_eq!(job[4].size, 10);
    assert_eq!(job[1].color, Rgb { r: 255, g: 204, b: 0 });
}

#[test]
fn layout_job_default_settings() {
    let e = DashboardEvent { level: Level::Trace, fields: Vec::new(), ..full_event() };
    let job = create_layout_job(&e, LogDisplaySettings::default());
    let texts: Vec<&str> = job.iter().map(|p| p.text.as_str()).collect();
    assert_eq!(texts, vec!["TRACE ", "slow request"]);
    assert_eq!(job[0].color, Rgb { r: 128, g: 128, b: 128 });
}

#[test]
fn level_filter_converts_to_level() {
    assert_eq!(Level::from(LogLevelFilter::Warn), Level::Warn);
    assert_eq!(Level::from(LogLevelFilter::Trace), Level::Trace);
}

#[test]
fn shared_search_default_is_empty() {
    let s = DisplaySettings::default();
    assert_eq!(Arc::strong_count(&s.search_string), 1);
}

#[test]
fn clicking_a_level_button_always_sends() {
    let mut s = LogDisplaySettings::default();
    let current = s.level_filter;
    match choose_level_filter(&mut s, current) {
        UiEvent::LogDisplaySettingsChanged(sent) => assert_eq!(sent.level_filter, current),
    }
    match choose_level_filter(&mut s, LogLevelFilter::Error) {
        UiEvent::LogDisplaySettingsChanged(sent) => assert_eq!(sent.level_filter, LogLevelFilter::Error),
    }
    assert_eq!(s.level_filter, LogLevelFilter::Error);
}

#[test]
fn message_column_clips_only_when_wrapping_changes() {
    assert!(single_view::message_column_clips(true, false));
    assert!(single_view::message_column_clips(false, true));
    assert!(!single_view::message_column_clips(true, true));
    assert!(!single_view::message_column_clips(false, false));
}

#[test]
fn timestamps_at_the_ends_of_chrono_range() {
    assert_eq!(format_timestamp_utc(8_210_266_876_799_999), "31/12/42 23:59:59");
    assert_eq!(format_timestamp_utc(8_210_266_876_800_000), "01/01/70 00:00:00");
    let first = (-8_334_601_228_800_000i64) as u64;
    assert_ne!(format_timestamp_utc(first), "01/01/70 00:00:00");
    assert!(format_timestamp_utc(first).starts_with("01/01/"));
    assert_eq!(format_timestamp_utc(first - 1), "01/01/70 00:00:00");
}

#[test]
fn plain_timestamps_read_back() {
    for t in [0u64, 7, 10, 100, 1725029869000, u64::MAX] {
        let s = format_timestamp(t);
        assert!(!s.is_empty());
        assert!(s.bytes().all(|b| b.is_ascii_digit()));
        assert!(s == "0" || !s.starts_with('0'));
        assert_eq!(s.parse::<u64>(), Ok(t));
    }
}
