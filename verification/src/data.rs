//! Values shared by the front end and the back end of one log stream.
use std::collections::VecDeque;
use std::sync::Arc;
use vstd::prelude::*;

use crate::backend::{counts_are_zero, LogCounts};
use crate::event::{share, DashboardEvent};

verus! {

/// Severity of a tracing event, from the most verbose to the most severe.
#[derive(Debug, Clone, Copy, PartialEq, Eq, Structural)]
pub enum Level {
    Trace,
    Debug,
    Info,
    Warn,
    Error,
}

/// Position of a level in the severity order: `Trace` is 0, `Error` is 4.
pub open spec fn level_rank(l: Level) -> int {
    match l {
        Level::Trace => 0,
        Level::Debug => 1,
        Level::Info => 2,
        Level::Warn => 3,
        Level::Error => 4,
    }
}

/// `a` is declared after `b` in `Level`, that is, `a` is more severe: the
/// declaration order is Trace, Debug, Info, Warn, Error.
pub open spec fn declared_after(a: Level, b: Level) -> bool {
    match b {
        Level::Trace => a != Level::Trace,
        Level::Debug => a == Level::Info || a == Level::Warn || a == Level::Error,
        Level::Info => a == Level::Warn || a == Level::Error,
        Level::Warn => a == Level::Error,
        Level::Error => false,
    }
}

/// Ranks follow the severity order: each level ranks strictly above the
/// one declared before it, so no two levels share a rank, and one level
/// ranks at least as high as another exactly when it is that level or is
/// declared after it.
pub proof fn lemma_rank_follows_severity()
    ensures
        level_rank(Level::Trace) < level_rank(Level::Debug),
        level_rank(Level::Debug) < level_rank(Level::Info),
        level_rank(Level::Info) < level_rank(Level::Warn),
        level_rank(Level::Warn) < level_rank(Level::Error),
        forall|a: Level, b: Level| #[trigger] level_rank(a) == #[trigger] level_rank(b) ==> a == b,
        forall|a: Level, b: Level| level_rank(a) >= level_rank(b) <==> (a == b || #[trigger] declared_after(a, b)),
{
}

impl Level {
    /// Position of the level in the severity order.
    pub fn rank(&self) -> (r: u8)
        ensures
            r == level_rank(*self),
    {
        match self {
            Level::Trace => 0,
            Level::Debug => 1,
            Level::Info => 2,
            Level::Warn => 3,
            Level::Error => 4,
        }
    }

    /// Whether `self` is at least as severe as `min`.
    pub fn at_least(&self, min: &Level) -> (b: bool)
        ensures
            b == (level_rank(*self) >= level_rank(*min)),
    {
        self.rank() >= min.rank()
    }
}

/// What a stream's view shows: the search string, which columns are
/// visible, whether it follows new events, the lowest level shown, and
/// whether long messages wrap.
#[derive(Debug, Clone)]
pub struct DisplaySettings {
    pub search_string: Arc<String>,
    pub show_timestamps: bool,
    pub show_targets: bool,
    pub show_file_info: bool,
    pub show_span_info: bool,
    pub auto_scroll: bool,
    pub level_filter: Level,
    pub wrap: bool,
}

/// The settings a new stream starts with: no search, every column shown,
/// following new events, every level, no wrapping.
pub open spec fn is_default_display_settings(s: DisplaySettings) -> bool {
    &&& s.search_string@.len() == 0
    &&& s.show_timestamps
    &&& s.show_targets
    &&& s.show_file_info
    &&& s.show_span_info
    &&& s.auto_scroll
    &&& s.level_filter == Level::Trace
    &&& !s.wrap
}

impl Default for DisplaySettings {
    fn default() -> (s: DisplaySettings)
        ensures
            is_default_display_settings(s),
    {
        DisplaySettings {
            search_string: Arc::new(String::new()),
            show_timestamps: true,
            show_targets: true,
            show_file_info: true,
            show_span_info: true,
            auto_scroll: true,
            level_filter: Level::Trace,
            wrap: false,
        }
    }
}

impl DisplaySettings {
    /// A copy of the settings that shares the search string.
    pub fn snapshot(&self) -> (s: DisplaySettings)
        ensures
            s == *self,
    {
        DisplaySettings {
            search_string: share(&self.search_string),
            show_timestamps: self.show_timestamps,
            show_targets: self.show_targets,
            show_file_info: self.show_file_info,
            show_span_info: self.show_span_info,
            auto_scroll: self.auto_scroll,
            level_filter: self.level_filter,
            wrap: self.wrap,
        }
    }
}

/// Ties the front end and the back end of one stream together; the
/// channels themselves are made where the tasks run.
pub struct FrontendBackendComm;

/// What the data side publishes to a stream's view: the events to show, in
/// order, and the counts of all the stream's events.
#[derive(Debug, Clone)]
pub struct StreamData {
    pub filtered_logs: VecDeque<Arc<DashboardEvent>>,
    pub log_counts: LogCounts,
}

impl Default for StreamData {
    fn default() -> (d: StreamData)
        ensures
            d.filtered_logs@.len() == 0,
            counts_are_zero(d.log_counts),
    {
        StreamData { filtered_logs: VecDeque::new(), log_counts: LogCounts::zero() }
    }
}

/// Another handle on each event of `logs`, in the same order.
pub fn share_all(logs: &VecDeque<Arc<DashboardEvent>>) -> (copy: VecDeque<Arc<DashboardEvent>>)
    ensures
        copy@ == logs@,
{
    let mut copy: VecDeque<Arc<DashboardEvent>> = VecDeque::new();
    let n = logs.len();
    let mut i: usize = 0;
    while i < n
        invariant
            n == logs@.len(),
            i <= n,
            copy@ == logs@.take(i as int),
        decreases n - i,
    {
        copy.push_back(share(&logs[i]));
        assert(logs@.take(i + 1) =~= logs@.take(i as int).push(logs@[i as int]));
        i = i + 1;
    }
    assert(logs@.take(n as int) =~= logs@);
    copy
}

} // verus!
