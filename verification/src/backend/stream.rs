//! One stream of logs: a network task that reads events and a data task
//! that filters, counts and publishes them.
use std::collections::VecDeque;
use std::sync::Arc;
use vstd::prelude::*;

use crate::backend::{
    counts_are_zero, counts_match, filter_events, filter_logs, lemma_filter_logs_add, LogCounts,
};
use crate::data::{share_all, DisplaySettings, StreamData};
use crate::event::DashboardEvent;
use crate::frontend::ScopedUIEvent;
use crate::text::{chars_of, decimal, push_decimal, push_str};

verus! {

/// A task of stream `stream_id` failed.
#[derive(Debug)]
pub struct StreamError {
    pub stream_id: usize,
    pub kind: StreamErrorKind,
}

/// Which task of a stream failed.
#[derive(Debug, Clone, Copy, PartialEq, Eq, Structural)]
pub enum StreamErrorKind {
    TcpTaskFailed,
    DataTaskFailed,
}

/// Commands that turn the data task's timer on or off.
#[derive(Debug, Clone, Copy, PartialEq, Eq, Structural)]
pub enum DataTaskCtrl {
    StartTimer,
    StopTimer,
}

/// What the data task of a stream gets: a command from the network task
/// that starts or stops its timer, a message from its pane, the news that
/// the pane has gone, or a tick of its timer together with the events that
/// the network task has appended since the last tick.
pub enum DataTaskEvent {
    Ctrl(DataTaskCtrl),
    FromFrontend(ScopedUIEvent),
    FrontendClosed,
    Tick { writer_dropped: bool, new_logs: VecDeque<Arc<DashboardEvent>> },
}

/// What the data task does next.
pub enum DataTaskAction {
    /// Nothing to tell the pane.
    Nothing,
    /// Publish this data to the pane and ask for a repaint.
    Publish(StreamData),
    /// Open this source location in the editor.
    OpenInEditor { path: String, line: u32 },
    /// The pane has gone: the task ends.
    Exit,
}

/// The state of a stream's data task: every event received, the events
/// shown in the pane, the pane's settings, and whether the timer runs.
pub struct DataTask {
    all_logs: VecDeque<Arc<DashboardEvent>>,
    filtered_logs: VecDeque<Arc<DashboardEvent>>,
    settings: DisplaySettings,
    timer_enabled: bool,
}

/// The data published for `shown` events out of `all` events.
pub open spec fn publishes(d: StreamData, shown: Seq<Arc<DashboardEvent>>, all: Seq<Arc<DashboardEvent>>) -> bool {
    d.filtered_logs@ == shown && counts_match(d.log_counts, all)
}

/// The events of `logs` that `settings` shows.
pub open spec fn shown_under(logs: Seq<Arc<DashboardEvent>>, settings: DisplaySettings) -> Seq<Arc<DashboardEvent>> {
    filter_logs(logs, settings.level_filter, settings.search_string@)
}

/// The shown events are exactly the events that the current settings show
/// out of all events received, in order.
pub open spec fn shown_consistent(t: DataTask) -> bool {
    t.shown() == shown_under(t.all(), t.current_settings())
}

/// The effect of a message from the pane: new settings are kept, the shown
/// events become every event filtered under them, and those are published;
/// a click on a source location is passed on to the editor; clearing
/// forgets every event and publishes empty data. The timer is untouched.
pub open spec fn handles_ui_event(before: DataTask, after: DataTask, event: ScopedUIEvent, action: DataTaskAction) -> bool {
    &&& after.timer_on() == before.timer_on()
    &&& match event {
        ScopedUIEvent::LogDisplaySettingsChanged(s) => {
            &&& after.current_settings() == s
            &&& after.all() == before.all()
            &&& after.shown() == shown_under(before.all(), s)
            &&& action matches DataTaskAction::Publish(d) && publishes(d, shown_under(before.all(), s), before.all())
        },
        ScopedUIEvent::OpenInEditor { path, line } => {
            &&& after.current_settings() == before.current_settings()
            &&& after.all() == before.all()
            &&& after.shown() == before.shown()
            &&& action matches DataTaskAction::OpenInEditor { path: p, line: l } && p == path && l == line
        },
        ScopedUIEvent::Clear => {
            &&& after.current_settings() == before.current_settings()
            &&& after.all() == Seq::<Arc<DashboardEvent>>::empty()
            &&& after.shown() == Seq::<Arc<DashboardEvent>>::empty()
            &&& action matches DataTaskAction::Publish(d) && d.filtered_logs@.len() == 0 && counts_are_zero(d.log_counts)
        },
    }
}

/// One turn of the data task: a command from the network task starts or
/// stops the timer; a message from the pane is acted on; when the pane has
/// gone the task exits; a tick stops the timer if the network side has
/// gone, and takes in the new events.
pub open spec fn data_task_steps(before: DataTask, event: DataTaskEvent, after: DataTask, action: DataTaskAction) -> bool {
    match event {
        DataTaskEvent::Ctrl(c) => {
            &&& action is Nothing
            &&& after.timer_on() == (c == DataTaskCtrl::StartTimer)
            &&& after.all() == before.all()
            &&& after.shown() == before.shown()
            &&& after.current_settings() == before.current_settings()
        },
        DataTaskEvent::FromFrontend(e) => handles_ui_event(before, after, e, action),
        DataTaskEvent::FrontendClosed => {
            &&& action is Exit
            &&& after.all() == before.all()
            &&& after.shown() == before.shown()
            &&& after.current_settings() == before.current_settings()
            &&& after.timer_on() == before.timer_on()
        },
        DataTaskEvent::Tick { writer_dropped, new_logs } => {
            &&& after.timer_on() == !writer_dropped
            &&& after.all() == before.all() + new_logs@
            &&& after.current_settings() == before.current_settings()
            &&& shown_under(new_logs@, before.current_settings()).len() == 0 ==> {
                &&& action is Nothing
                &&& after.shown() == before.shown()
            }
            &&& shown_under(new_logs@, before.current_settings()).len() > 0 ==> {
                &&& after.shown() == before.shown() + shown_under(new_logs@, before.current_settings())
                &&& action matches DataTaskAction::Publish(d) && publishes(d, after.shown(), after.all())
            }
        },
    }
}

impl DataTask {
    /// Every event received, in order.
    pub closed spec fn all(&self) -> Seq<Arc<DashboardEvent>> {
        self.all_logs@
    }

    /// The events shown in the pane, in order.
    pub closed spec fn shown(&self) -> Seq<Arc<DashboardEvent>> {
        self.filtered_logs@
    }

    /// The pane's current settings.
    pub closed spec fn current_settings(&self) -> DisplaySettings {
        self.settings
    }

    /// Whether the timer runs.
    pub closed spec fn timer_on(&self) -> bool {
        self.timer_enabled
    }

    /// Whether the timer runs.
    pub fn timer_enabled(&self) -> (b: bool)
        ensures
            b == self.timer_on(),
    {
        self.timer_enabled
    }

    /// A data task with no events yet and the given settings. Its timer is
    /// off until the network task sends the command to start it.
    pub fn new(settings: DisplaySettings) -> (t: DataTask)
        ensures
            t.all() == Seq::<Arc<DashboardEvent>>::empty(),
            t.shown() == Seq::<Arc<DashboardEvent>>::empty(),
            t.current_settings() == settings,
            !t.timer_on(),
            shown_consistent(t),
    {
        let t = DataTask { all_logs: VecDeque::new(), filtered_logs: VecDeque::new(), settings, timer_enabled: false };
        proof {
            reveal_with_fuel(Seq::filter, 1);
        }
        t
    }

    /// Takes in the events received since the last call. All of them are
    /// kept; those that the settings show are appended to the shown events.
    /// When at least one new event is shown, the shown events and the
    /// counts of all events are returned for publishing; otherwise nothing
    /// is published.
    pub fn publish_new_logs(&mut self, new_logs: VecDeque<Arc<DashboardEvent>>) -> (published: Option<StreamData>)
        ensures
            final(self).all() == old(self).all() + new_logs@,
            final(self).current_settings() == old(self).current_settings(),
            final(self).timer_on() == old(self).timer_on(),
            shown_under(new_logs@, old(self).current_settings()).len() == 0 ==> {
                &&& published is None
                &&& final(self).shown() == old(self).shown()
            },
            shown_under(new_logs@, old(self).current_settings()).len() > 0 ==> {
                &&& final(self).shown() == old(self).shown() + shown_under(new_logs@, old(self).current_settings())
                &&& published matches Some(d) && publishes(d, final(self).shown(), final(self).all())
            },
            shown_consistent(*old(self)) ==> shown_consistent(*final(self)),
    {
        proof {
            lemma_filter_logs_add(self.all_logs@, new_logs@, self.settings.level_filter, self.settings.search_string@);
            if shown_under(new_logs@, self.settings).len() == 0 {
                assert(shown_under(new_logs@, self.settings) =~= Seq::<Arc<DashboardEvent>>::empty());
                assert(self.filtered_logs@ + shown_under(new_logs@, self.settings) =~= self.filtered_logs@);
            }
        }
        let filtered_new_logs = filter_events(
            &new_logs,
            self.settings.level_filter,
            self.settings.search_string.as_str(),
        );
        let mut new_logs = new_logs;
        self.all_logs.append(&mut new_logs);
        if filtered_new_logs.len() == 0 {
            return None;
        }
        let mut filtered_new_logs = filtered_new_logs;
        self.filtered_logs.append(&mut filtered_new_logs);
        Some(StreamData {
            filtered_logs: share_all(&self.filtered_logs),
            log_counts: LogCounts::from_logs(&self.all_logs),
        })
    }

    /// The data for the pane recomputed from every event under the current
    /// settings.
    pub fn filter_and_refresh(&self) -> (d: StreamData)
        ensures
            publishes(d, shown_under(self.all(), self.current_settings()), self.all()),
    {
        let log_counts = LogCounts::from_logs(&self.all_logs);
        let filtered_logs = filter_events(
            &self.all_logs,
            self.settings.level_filter,
            self.settings.search_string.as_str(),
        );
        StreamData { filtered_logs, log_counts }
    }

    /// Acts on a message from the pane. New settings are kept and the shown
    /// events become every event filtered under them, which the pane gets;
    /// a click on a source location is passed on to the editor; clearing
    /// forgets every event and publishes empty data.
    pub fn handle_ui_event(&mut self, event: ScopedUIEvent) -> (action: DataTaskAction)
        ensures
            handles_ui_event(*old(self), *final(self), event, action),
            match event {
                ScopedUIEvent::OpenInEditor { .. } => shown_consistent(*old(self)) ==> shown_consistent(*final(self)),
                _ => shown_consistent(*final(self)),
            },
    {
        match event {
            ScopedUIEvent::LogDisplaySettingsChanged(new_settings) => {
                self.settings = new_settings;
                let d = self.filter_and_refresh();
                self.filtered_logs = share_all(&d.filtered_logs);
                DataTaskAction::Publish(d)
            },
            ScopedUIEvent::OpenInEditor { path, line } => DataTaskAction::OpenInEditor { path, line },
            ScopedUIEvent::Clear => {
                self.all_logs = VecDeque::new();
                self.filtered_logs = VecDeque::new();
                proof {
                    reveal_with_fuel(Seq::filter, 1);
                }
                let mut cleared = StreamData::default();
                cleared.log_counts.reset();
                DataTaskAction::Publish(cleared)
            },
        }
    }

    /// One turn of the data task's loop. A command from the network task
    /// starts or stops the timer; a message from the pane is acted on; when
    /// the pane has gone the task exits; on a tick (which comes only while
    /// the timer runs) the timer stops if the network side has gone, and the
    /// new events are taken in. Every turn keeps the shown events equal to
    /// what the current settings show of all events.
    pub fn step(&mut self, event: DataTaskEvent) -> (action: DataTaskAction)
        requires
            event is Tick ==> old(self).timer_on(),
        ensures
            shown_consistent(*old(self)) ==> shown_consistent(*final(self)),
            data_task_steps(*old(self), event, *final(self), action),
    {
        match event {
            DataTaskEvent::Ctrl(c) => {
                self.timer_enabled = match c {
                    DataTaskCtrl::StartTimer => true,
                    DataTaskCtrl::StopTimer => false,
                };
                DataTaskAction::Nothing
            },
            DataTaskEvent::FromFrontend(ui_event) => self.handle_ui_event(ui_event),
            DataTaskEvent::FrontendClosed => DataTaskAction::Exit,
            DataTaskEvent::Tick { writer_dropped, new_logs } => {
                if writer_dropped {
                    self.timer_enabled = false;
                }
                match self.publish_new_logs(new_logs) {
                    Some(d) => DataTaskAction::Publish(d),
                    None => DataTaskAction::Nothing,
                }
            },
        }
    }
}

/// Taking in new events keeps the shown events equal to the events that
/// the settings show out of all events, where that held before.
pub proof fn lemma_publish_keeps_shown_consistent(
    all: Seq<Arc<DashboardEvent>>,
    shown: Seq<Arc<DashboardEvent>>,
    new_logs: Seq<Arc<DashboardEvent>>,
    settings: DisplaySettings,
)
    requires
        shown == shown_under(all, settings),
    ensures
        shown + shown_under(new_logs, settings) == shown_under(all + new_logs, settings),
{
    lemma_filter_logs_add(all, new_logs, settings.level_filter, settings.search_string@);
}

/// The event turns the data task's timer off: a stop command, or a tick
/// that finds the network side gone.
pub open spec fn stops_timer(e: DataTaskEvent) -> bool {
    ||| e matches DataTaskEvent::Ctrl(DataTaskCtrl::StopTimer)
    ||| e matches DataTaskEvent::Tick { writer_dropped: true, .. }
}

/// After the first `i` events of `events`, the timer has been started: the
/// last event that touched it was a start command (a tick that keeps the
/// network side keeps it running).
pub open spec fn timer_started(events: Seq<DataTaskEvent>, i: int) -> bool
    decreases i,
{
    if i <= 0 {
        false
    } else {
        match events[i - 1] {
            DataTaskEvent::Ctrl(DataTaskCtrl::StartTimer) => true,
            DataTaskEvent::Ctrl(DataTaskCtrl::StopTimer) => false,
            DataTaskEvent::Tick { writer_dropped, .. } => !writer_dropped && timer_started(events, i - 1),
            _ => timer_started(events, i - 1),
        }
    }
}

proof fn lemma_timer_follows_commands(
    states: Seq<DataTask>,
    events: Seq<DataTaskEvent>,
    actions: Seq<DataTaskAction>,
    i: int,
)
    requires
        states.len() == events.len() + 1,
        actions.len() == events.len(),
        !states[0].timer_on(),
        forall|k: int| 0 <= k < events.len() ==> (#[trigger] events[k] is Tick ==> states[k].timer_on()),
        forall|k: int| 0 <= k < events.len() ==> data_task_steps(states[k], #[trigger] events[k], states[k + 1], actions[k]),
        0 <= i <= events.len(),
    ensures
        states[i].timer_on() == timer_started(events, i),
    decreases i,
{
    if i > 0 {
        lemma_timer_follows_commands(states, events, actions, i - 1);
        assert(data_task_steps(states[i - 1], events[i - 1], states[i], actions[i - 1]));
        assert(events[i - 1] is Tick ==> states[i - 1].timer_on());
    }
}

proof fn lemma_started_has_start(events: Seq<DataTaskEvent>, i: int)
    requires
        timer_started(events, i),
    ensures
        exists|j: int|
            0 <= j < i && (#[trigger] events[j] matches DataTaskEvent::Ctrl(DataTaskCtrl::StartTimer))
                && forall|m: int| j < m < i ==> !stops_timer(#[trigger] events[m]),
    decreases i,
{
    if !(events[i - 1] matches DataTaskEvent::Ctrl(DataTaskCtrl::StartTimer)) {
        lemma_started_has_start(events, i - 1);
        let j = choose|j: int|
            0 <= j < i - 1 && (#[trigger] events[j] matches DataTaskEvent::Ctrl(DataTaskCtrl::StartTimer))
                && forall|m: int| j < m < i - 1 ==> !stops_timer(#[trigger] events[m]);
        assert(forall|m: int| j < m < i ==> !stops_timer(#[trigger] events[m]));
    } else {
        assert(forall|m: int| i - 1 < m < i ==> !stops_timer(#[trigger] events[m]));
    }
}

/// The data task takes in new events only once it has been started: over
/// any run of turns from a new task (timer off), the timer runs exactly
/// when the last command that touched it was a start, and every tick, and
/// so every call of `publish_new_logs`, comes after a `StartTimer` with no
/// stop command, and no tick that found the network side gone, in between.
pub proof fn lemma_no_publish_before_start(
    states: Seq<DataTask>,
    events: Seq<DataTaskEvent>,
    actions: Seq<DataTaskAction>,
)
    requires
        states.len() == events.len() + 1,
        actions.len() == events.len(),
        !states[0].timer_on(),
        forall|k: int| 0 <= k < events.len() ==> (#[trigger] events[k] is Tick ==> states[k].timer_on()),
        forall|k: int| 0 <= k < events.len() ==> data_task_steps(states[k], #[trigger] events[k], states[k + 1], actions[k]),
    ensures
        forall|i: int| 0 <= i <= events.len() ==> #[trigger] states[i].timer_on() == timer_started(events, i),
        forall|i: int|
            0 <= i < events.len() && (#[trigger] events[i] is Tick) ==> exists|j: int|
                0 <= j < i && (#[trigger] events[j] matches DataTaskEvent::Ctrl(DataTaskCtrl::StartTimer))
                    && forall|m: int| j < m < i ==> !stops_timer(#[trigger] events[m]),
{
    assert forall|i: int| 0 <= i <= events.len() implies #[trigger] states[i].timer_on() == timer_started(events, i) by {
        lemma_timer_follows_commands(states, events, actions, i);
    }
    assert forall|i: int| 0 <= i < events.len() && (#[trigger] events[i] is Tick) implies exists|j: int|
        0 <= j < i && (#[trigger] events[j] matches DataTaskEvent::Ctrl(DataTaskCtrl::StartTimer))
            && forall|m: int| j < m < i ==> !stops_timer(#[trigger] events[m]) by {
        lemma_timer_follows_commands(states, events, actions, i);
        lemma_started_has_start(events, i);
    }
}

/// Which of a stream's two tasks have finished; the stream ends when both
/// have.
pub struct StreamTasks {
    pub tcp_done: bool,
    pub data_done: bool,
}

impl StreamTasks {
    /// Both tasks running.
    pub fn new() -> (t: StreamTasks)
        ensures
            !t.tcp_done && !t.data_done,
    {
        StreamTasks { tcp_done: false, data_done: false }
    }

    /// Records that the task of the given kind has finished (only a
    /// running task can finish); returns whether the stream is over.
    pub fn task_finished(&mut self, kind: StreamErrorKind) -> (over: bool)
        requires
            kind == StreamErrorKind::TcpTaskFailed ==> !old(self).tcp_done,
            kind == StreamErrorKind::DataTaskFailed ==> !old(self).data_done,
        ensures
            kind == StreamErrorKind::TcpTaskFailed ==> final(self).tcp_done && final(self).data_done == old(self).data_done,
            kind == StreamErrorKind::DataTaskFailed ==> final(self).data_done && final(self).tcp_done == old(self).tcp_done,
            over == (final(self).tcp_done && final(self).data_done),
    {
        match kind {
            StreamErrorKind::TcpTaskFailed => self.tcp_done = true,
            StreamErrorKind::DataTaskFailed => self.data_done = true,
        }
        self.tcp_done && self.data_done
    }
}

/// The editor's name ends with "nvim".
pub open spec fn names_nvim(editor: Seq<char>) -> bool {
    editor.len() >= 4 && editor.subrange(editor.len() - 4, editor.len() as int) == seq!['n', 'v', 'i', 'm']
}

/// The editor is taken for Neovim exactly when its name ends with "nvim":
/// it is some text followed by 'n', 'v', 'i', 'm'. So "vim" or "gvim" at
/// the end is not enough.
pub proof fn lemma_nvim_is_a_suffix(editor: Seq<char>)
    ensures
        names_nvim(editor) <==> exists|p: Seq<char>| editor == p + seq!['n', 'v', 'i', 'm'],
        names_nvim(editor) ==> editor[editor.len() - 4] == 'n',
{
    let nvim = seq!['n', 'v', 'i', 'm'];
    if names_nvim(editor) {
        let p = editor.subrange(0, editor.len() - 4);
        assert(editor =~= p + nvim);
        assert(editor[editor.len() - 4] == editor.subrange(editor.len() - 4, editor.len() as int)[0]);
    }
    if exists|p: Seq<char>| editor == p + nvim {
        let p = choose|p: Seq<char>| editor == p + nvim;
        assert(editor.subrange(editor.len() - 4, editor.len() as int) =~= nvim);
    }
}

/// Whether the configured editor is Neovim: its command ends with "nvim".
pub fn editor_is_nvim(editor: &str) -> (b: bool)
    ensures
        b == names_nvim(editor@),
{
    let cs = chars_of(editor);
    let n = cs.len();
    if n < 4 {
        return false;
    }
    let b = cs[n - 4] == 'n' && cs[n - 3] == 'v' && cs[n - 2] == 'i' && cs[n - 1] == 'm';
    assert(b ==> editor@.subrange(n - 4, n as int) =~= seq!['n', 'v', 'i', 'm']);
    assert(editor@.subrange(n - 4, n as int) =~= seq!['n', 'v', 'i', 'm'] ==> editor@.subrange(n - 4, n as int)[0] == 'n'
        && editor@.subrange(n - 4, n as int)[1] == 'v' && editor@.subrange(n - 4, n as int)[2] == 'i'
        && editor@.subrange(n - 4, n as int)[3] == 'm');
    b
}

/// The keys sent to a running Neovim to open `path` at `line`:
/// "<Cmd>edit PATH<CR>LINEG".
pub open spec fn nvim_keys(path: Seq<char>, line: u32) -> Seq<char> {
    seq!['<', 'C', 'm', 'd', '>', 'e', 'd', 'i', 't', ' '] + path + seq!['<', 'C', 'R', '>'] + decimal(line as nat) + seq!['G']
}

/// The keys that make a running Neovim open `path` at `line`.
pub fn nvim_remote_command(path: &str, line: u32) -> (cmd: String)
    ensures
        cmd@ == nvim_keys(path@, line),
{
    let mut cmd = String::new();
    proof { reveal_strlit("<Cmd>edit "); reveal_strlit("<CR>"); reveal_strlit("G"); }
    push_str(&mut cmd, "<Cmd>edit ");
    push_str(&mut cmd, path);
    push_str(&mut cmd, "<CR>");
    push_decimal(&mut cmd, line as u64);
    push_str(&mut cmd, "G");
    assert(cmd@ =~= nvim_keys(path@, line));
    cmd
}

} // verus!
