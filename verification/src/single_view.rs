//! The single-stream viewer with search, wrapping and clearing: its
//! settings and the events its view sends.
use vstd::prelude::*;

pub use crate::egui_app::LogLevelFilter;
pub use crate::frontend::pane::{format_fields, format_timestamp_utc, path_parts};

verus! {

/// What the view shows: the search string, which columns, whether it
/// follows new events, the lowest level, and whether messages wrap.
#[derive(Debug, Clone)]
pub struct DisplaySettings {
    pub search_string: String,
    pub show_timestamps: bool,
    pub show_targets: bool,
    pub show_file_info: bool,
    pub show_span_info: bool,
    pub auto_scroll: bool,
    pub level_filter: LogLevelFilter,
    pub wrap: bool,
}

impl Default for DisplaySettings {
    fn default() -> (s: DisplaySettings)
        ensures
            s.search_string@.len() == 0,
            !s.show_timestamps && !s.show_targets && !s.show_file_info && !s.show_span_info,
            s.auto_scroll,
            s.level_filter == LogLevelFilter::Trace,
            !s.wrap,
    {
        DisplaySettings {
            search_string: String::new(),
            show_timestamps: false,
            show_targets: false,
            show_file_info: false,
            show_span_info: false,
            auto_scroll: true,
            level_filter: LogLevelFilter::Trace,
            wrap: false,
        }
    }
}

impl DisplaySettings {
    /// A copy of the settings.
    pub fn snapshot(&self) -> (s: DisplaySettings)
        ensures
            s == *self,
    {
        DisplaySettings {
            search_string: self.search_string.clone(),
            show_timestamps: self.show_timestamps,
            show_targets: self.show_targets,
            show_file_info: self.show_file_info,
            show_span_info: self.show_span_info,
            auto_scroll: self.auto_scroll,
            level_filter: self.level_filter,
            wrap: self.wrap,
        }
    }
}

/// What the view sends to the data task.
#[derive(Debug, Clone)]
pub enum UiEvent {
    LogDisplaySettingsChanged(DisplaySettings),
    OpenInEditor { path: String, line: u32 },
    Clear,
}

/// A click on the filter button of `new_filter`: when it is not the
/// current filter it becomes it and the new settings are to be sent;
/// returns whether the filter changed, with the message to send.
pub fn apply_filter(settings: &mut DisplaySettings, new_filter: LogLevelFilter) -> (sent: Option<UiEvent>)
    ensures
        old(settings).level_filter == new_filter ==> sent is None && *final(settings) == *old(settings),
        old(settings).level_filter != new_filter ==> {
            &&& *final(settings) == (DisplaySettings { level_filter: new_filter, ..*old(settings) })
            &&& sent matches Some(UiEvent::LogDisplaySettingsChanged(s)) && s == *final(settings)
        },
{
    if settings.level_filter != new_filter {
        settings.level_filter = new_filter;
        Some(UiEvent::LogDisplaySettingsChanged(settings.snapshot()))
    } else {
        None
    }
}

/// Whether the message column clips its text this frame: it does exactly
/// when wrapping was switched since the last frame, which forces the table
/// to lay the column out again.
pub fn message_column_clips(wrap: bool, previous_wrap: bool) -> (clip: bool)
    ensures
        clip == (wrap != previous_wrap),
{
    wrap != previous_wrap
}

} // verus!
