//! The first single-stream data task: it publishes only the events at or
//! above the view's level, without counts.
use std::collections::VecDeque;
use std::sync::Arc;
use vstd::prelude::*;

use crate::backend::filter_events;
use crate::data::{share_all, Level};
use crate::egui_app::{filter_level, LogDisplaySettings, UiEvent};
use crate::event::DashboardEvent;
use crate::precompute::at_view_level;

verus! {

/// Commands for the data task from the network task.
#[derive(Debug, Clone, Copy, PartialEq, Eq, Structural)]
pub enum DataTaskCtrl {
    Start,
    Stop,
}

/// What the data task gets: a command from the network task, a message
/// from the view or the end of that channel, or a tick of its timer with
/// the events received since the last one.
pub enum DataTaskEvent {
    Ctrl(DataTaskCtrl),
    FromUi(Option<UiEvent>),
    Tick(VecDeque<Arc<DashboardEvent>>),
}

/// What the data task does next.
pub enum DataTaskAction {
    Nothing,
    /// Publish these events to the view.
    Publish(VecDeque<Arc<DashboardEvent>>),
    /// The view's channel closed: the task ends and hands its settings back.
    Exit,
}

/// The state of the data task: every event received, the events published
/// to the view, the view's settings, and whether the timer runs.
pub struct DataPrecomputeTask {
    all_logs: VecDeque<Arc<DashboardEvent>>,
    filtered_logs: VecDeque<Arc<DashboardEvent>>,
    settings: LogDisplaySettings,
    timer_enabled: bool,
}

/// One turn of the task: `Start` and `Stop` turn the timer on and off; a
/// message from the view is acted on; a closed view channel ends the task;
/// a tick takes in the new events.
pub open spec fn first_task_steps(before: DataPrecomputeTask, event: DataTaskEvent, after: DataPrecomputeTask, action: DataTaskAction) -> bool {
    match event {
        DataTaskEvent::Ctrl(c) => {
            &&& action is Nothing
            &&& after.timer_on() == (c == DataTaskCtrl::Start)
            &&& after.all() == before.all()
            &&& after.shown() == before.shown()
            &&& after.current_settings() == before.current_settings()
        },
        DataTaskEvent::FromUi(None) => {
            &&& action is Exit
            &&& after.timer_on() == before.timer_on()
            &&& after.all() == before.all()
            &&& after.shown() == before.shown()
            &&& after.current_settings() == before.current_settings()
        },
        DataTaskEvent::FromUi(Some(UiEvent::LogDisplaySettingsChanged(s))) => {
            &&& after.current_settings() == s
            &&& after.timer_on() == before.timer_on()
            &&& after.all() == before.all()
            &&& after.shown() == at_view_level(before.all(), s)
            &&& action matches DataTaskAction::Publish(v) && v@ == at_view_level(before.all(), s)
        },
        DataTaskEvent::Tick(new_logs) => {
            &&& after.all() == before.all() + new_logs@
            &&& after.timer_on()
            &&& after.current_settings() == before.current_settings()
            &&& at_view_level(new_logs@, before.current_settings()).len() == 0 ==> {
                &&& action is Nothing
                &&& after.shown() == before.shown()
            }
            &&& at_view_level(new_logs@, before.current_settings()).len() > 0 ==> {
                &&& after.shown() == before.shown() + at_view_level(new_logs@, before.current_settings())
                &&& action matches DataTaskAction::Publish(v) && v@ == after.shown()
            }
        },
    }
}

impl DataPrecomputeTask {
    /// Every event received, in order.
    pub closed spec fn all(&self) -> Seq<Arc<DashboardEvent>> {
        self.all_logs@
    }

    /// The events published to the view, in order.
    pub closed spec fn shown(&self) -> Seq<Arc<DashboardEvent>> {
        self.filtered_logs@
    }

    /// The view's settings.
    pub closed spec fn current_settings(&self) -> LogDisplaySettings {
        self.settings
    }

    /// Whether the timer runs.
    pub closed spec fn timer_on(&self) -> bool {
        self.timer_enabled
    }

    /// Whether the timer runs.
    pub fn timer_enabled(&self) -> (b: bool)
        ensures
            b == self.timer_on(),
    {
        self.timer_enabled
    }

    /// No events and the view's initial settings. The task starts running
    /// (its timer starts) once the network task sends `Start`.
    pub fn new(settings: LogDisplaySettings) -> (t: Self)
        ensures
            t.all() == Seq::<Arc<DashboardEvent>>::empty(),
            t.shown() == Seq::<Arc<DashboardEvent>>::empty(),
            t.current_settings() == settings,
            !t.timer_on(),
    {
        DataPrecomputeTask { all_logs: VecDeque::new(), filtered_logs: VecDeque::new(), settings, timer_enabled: false }
    }

    /// The view's settings, handed back when the task ends.
    pub fn settings(&self) -> (s: LogDisplaySettings)
        ensures
            s == self.current_settings(),
    {
        self.settings
    }

    /// Keeps the new events; when some are at or above the view's level,
    /// appends them to the shown events and returns all shown events for
    /// publishing.
    pub fn publish_new_logs(&mut self, new_logs: VecDeque<Arc<DashboardEvent>>) -> (published: Option<VecDeque<Arc<DashboardEvent>>>)
        ensures
            final(self).all() == old(self).all() + new_logs@,
            final(self).current_settings() == old(self).current_settings(),
            final(self).timer_on() == old(self).timer_on(),
            at_view_level(new_logs@, old(self).current_settings()).len() == 0 ==> published is None && final(self).shown() == old(self).shown(),
            at_view_level(new_logs@, old(self).current_settings()).len() > 0 ==> {
                &&& final(self).shown() == old(self).shown() + at_view_level(new_logs@, old(self).current_settings())
                &&& published matches Some(v) && v@ == final(self).shown()
            },
    {
        let min = Level::from(self.settings.level_filter);
        assert(min == filter_level(self.settings.level_filter));
        let none = "";
        proof { reveal_strlit(""); }
        assert(none@ =~= Seq::<char>::empty());
        let fresh = filter_events(&new_logs, min, none);
        let mut new_logs = new_logs;
        self.all_logs.append(&mut new_logs);
        if fresh.len() == 0 {
            return None;
        }
        let mut fresh = fresh;
        self.filtered_logs.append(&mut fresh);
        Some(share_all(&self.filtered_logs))
    }

    /// New settings from the view are kept, the shown events become every
    /// event at or above the new level, and the view gets them.
    pub fn handle_ui_event(&mut self, event: UiEvent) -> (refreshed: VecDeque<Arc<DashboardEvent>>)
        ensures
            match event {
                UiEvent::LogDisplaySettingsChanged(s) => final(self).current_settings() == s,
            },
            final(self).all() == old(self).all(),
            final(self).timer_on() == old(self).timer_on(),
            final(self).shown() == at_view_level(final(self).all(), final(self).current_settings()),
            refreshed@ == final(self).shown(),
    {
        match event {
            UiEvent::LogDisplaySettingsChanged(new_settings) => {
                self.settings = new_settings;
            },
        }
        let min = Level::from(self.settings.level_filter);
        assert(min == filter_level(self.settings.level_filter));
        let none = "";
        proof { reveal_strlit(""); }
        assert(none@ =~= Seq::<char>::empty());
        let refreshed = filter_events(&self.all_logs, min, none);
        self.filtered_logs = share_all(&refreshed);
        refreshed
    }

    /// One turn of the task's loop: `Start` and `Stop` turn the timer on and
    /// off; a message from the view is acted on and its result published;
    /// when the view's channel closes the task ends; a tick (only while the
    /// timer runs) takes in the new events.
    pub fn step(&mut self, event: DataTaskEvent) -> (action: DataTaskAction)
        requires
            event is Tick ==> old(self).timer_on(),
        ensures
            first_task_steps(*old(self), event, *final(self), action),
    {
        match event {
            DataTaskEvent::Ctrl(c) => {
                self.timer_enabled = match c {
                    DataTaskCtrl::Start => true,
                    DataTaskCtrl::Stop => false,
                };
                DataTaskAction::Nothing
            },
            DataTaskEvent::FromUi(None) => DataTaskAction::Exit,
            DataTaskEvent::FromUi(Some(ui_event)) => DataTaskAction::Publish(self.handle_ui_event(ui_event)),
            DataTaskEvent::Tick(new_logs) => match self.publish_new_logs(new_logs) {
                Some(v) => DataTaskAction::Publish(v),
                None => DataTaskAction::Nothing,
            },
        }
    }
}

/// The event stops the timer.
pub open spec fn stops_timer(e: DataTaskEvent) -> bool {
    e matches DataTaskEvent::Ctrl(DataTaskCtrl::Stop)
}

/// After the first `i` events of `events`, the timer has been started: the
/// last timer command among them was a start.
pub open spec fn timer_started(events: Seq<DataTaskEvent>, i: int) -> bool
    decreases i,
{
    if i <= 0 {
        false
    } else {
        match events[i - 1] {
            DataTaskEvent::Ctrl(DataTaskCtrl::Start) => true,
            DataTaskEvent::Ctrl(DataTaskCtrl::Stop) => false,
            _ => timer_started(events, i - 1),
        }
    }
}

proof fn lemma_timer_follows_commands(
    states: Seq<DataPrecomputeTask>,
    events: Seq<DataTaskEvent>,
    actions: Seq<DataTaskAction>,
    i: int,
)
    requires
        states.len() == events.len() + 1,
        actions.len() == events.len(),
        !states[0].timer_on(),
        forall|k: int| 0 <= k < events.len() ==> (#[trigger] events[k] is Tick ==> states[k].timer_on()),
        forall|k: int| 0 <= k < events.len() ==> first_task_steps(states[k], #[trigger] events[k], states[k + 1], actions[k]),
        0 <= i <= events.len(),
    ensures
        states[i].timer_on() == timer_started(events, i),
    decreases i,
{
    if i > 0 {
        lemma_timer_follows_commands(states, events, actions, i - 1);
        assert(first_task_steps(states[i - 1], events[i - 1], states[i], actions[i - 1]));
        assert(events[i - 1] is Tick ==> states[i - 1].timer_on());
    }
}

proof fn lemma_started_has_start(events: Seq<DataTaskEvent>, i: int)
    requires
        timer_started(events, i),
    ensures
        exists|j: int|
            0 <= j < i && (#[trigger] events[j] matches DataTaskEvent::Ctrl(DataTaskCtrl::Start))
                && forall|m: int| j < m < i ==> !stops_timer(#[trigger] events[m]),
    decreases i,
{
    if !(events[i - 1] matches DataTaskEvent::Ctrl(DataTaskCtrl::Start)) {
        lemma_started_has_start(events, i - 1);
        let j = choose|j: int|
            0 <= j < i - 1 && (#[trigger] events[j] matches DataTaskEvent::Ctrl(DataTaskCtrl::Start))
                && forall|m: int| j < m < i - 1 ==> !stops_timer(#[trigger] events[m]);
        assert(forall|m: int| j < m < i ==> !stops_timer(#[trigger] events[m]));
    } else {
        assert(forall|m: int| i - 1 < m < i ==> !stops_timer(#[trigger] events[m]));
    }
}

/// The task takes in new events only once it has been started: over any
/// run of turns from a new task (timer off), the timer runs exactly when
/// the last timer command was a start, and every tick, and so every call of
/// `publish_new_logs`, comes after a start command from the network task with no stop
/// command in between.
pub proof fn lemma_no_publish_before_start(
    states: Seq<DataPrecomputeTask>,
    events: Seq<DataTaskEvent>,
    actions: Seq<DataTaskAction>,
)
    requires
        states.len() == events.len() + 1,
        actions.len() == events.len(),
        !states[0].timer_on(),
        forall|k: int| 0 <= k < events.len() ==> (#[trigger] events[k] is Tick ==> states[k].timer_on()),
        forall|k: int| 0 <= k < events.len() ==> first_task_steps(states[k], #[trigger] events[k], states[k + 1], actions[k]),
    ensures
        forall|i: int| 0 <= i <= events.len() ==> #[trigger] states[i].timer_on() == timer_started(events, i),
        forall|i: int|
            0 <= i < events.len() && (#[trigger] events[i] is Tick) ==> exists|j: int|
                0 <= j < i && (#[trigger] events[j] matches DataTaskEvent::Ctrl(DataTaskCtrl::Start))
                    && forall|m: int| j < m < i ==> !stops_timer(#[trigger] events[m]),
{
    assert forall|i: int| 0 <= i <= events.len() implies #[trigger] states[i].timer_on() == timer_started(events, i) by {
        lemma_timer_follows_commands(states, events, actions, i);
    }
    assert forall|i: int| 0 <= i < events.len() && (#[trigger] events[i] is Tick) implies exists|j: int|
        0 <= j < i && (#[trigger] events[j] matches DataTaskEvent::Ctrl(DataTaskCtrl::Start))
            && forall|m: int| j < m < i ==> !stops_timer(#[trigger] events[m]) by {
        lemma_timer_follows_commands(states, events, actions, i);
        lemma_started_has_start(events, i);
    }
}

} // verus!
