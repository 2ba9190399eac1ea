//! The tabbed viewer's first settings, borrowing the search string.
use vstd::prelude::*;

use crate::data::Level;

verus! {

/// What a tab shows, with the search string borrowed.
#[derive(Debug, Clone, Copy)]
pub struct DisplaySettings<'a> {
    pub search_string: &'a str,
    pub show_timestamps: bool,
    pub show_targets: bool,
    pub show_file_info: bool,
    pub show_span_info: bool,
    pub auto_scroll: bool,
    pub level_filter: Level,
    pub wrap: bool,
}

impl Default for DisplaySettings<'_> {
    fn default() -> (s: Self)
        ensures
            s.search_string@.len() == 0,
            s.show_timestamps && s.show_targets && s.show_file_info && s.show_span_info,
            s.auto_scroll,
            s.level_filter == Level::Trace,
            !s.wrap,
    {
        proof { reveal_strlit(""); }
        DisplaySettings {
            search_string: "",
            show_timestamps: true,
            show_targets: true,
            show_file_info: true,
            show_span_info: true,
            auto_scroll: true,
            level_filter: Level::Trace,
            wrap: false,
        }
    }
}

} // verus!
