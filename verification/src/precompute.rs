//! The single-stream data task: it keeps every event received, publishes
//! the events at or above the view's level, and runs its timer only while
//! a connection is open.
use std::collections::VecDeque;
use std::sync::Arc;
use vstd::prelude::*;

use crate::backend::{counts_match, filter_events, filter_logs, lemma_filter_logs_add};
use crate::data::{share_all, StreamData};
use crate::egui_app::{filter_level, LogDisplaySettings, UiEvent};
use crate::data::Level;
use crate::event::DashboardEvent;

pub use crate::backend::stream::DataTaskCtrl;
pub use crate::backend::LogCounts;

verus! {

/// The events of `logs` at or above the view's level, in order.
pub open spec fn at_view_level(logs: Seq<Arc<DashboardEvent>>, settings: LogDisplaySettings) -> Seq<Arc<DashboardEvent>> {
    filter_logs(logs, filter_level(settings.level_filter), Seq::<char>::empty())
}

/// What the task gets: a timer command from the network task or the end of
/// that channel, a message from the view or the end of that channel, or a
/// tick with the events received since the last one.
pub enum PrecomputeEvent {
    Ctrl(Option<DataTaskCtrl>),
    FromUi(Option<UiEvent>),
    Tick(VecDeque<Arc<DashboardEvent>>),
}

/// What the task does next.
pub enum PrecomputeAction {
    Nothing,
    Publish(StreamData),
    /// A channel closed: the task ends and hands its state back.
    Exit,
}

/// The state of the single-stream data task.
pub struct DataPrecomputeTask {
    all_logs: VecDeque<Arc<DashboardEvent>>,
    filtered_logs: VecDeque<Arc<DashboardEvent>>,
    settings: LogDisplaySettings,
    timer_enabled: bool,
}

/// One turn of the task: timer commands turn the timer on or off; a
/// closed channel ends the task; messages from the view are acted on;
/// ticks take in new events.
pub open spec fn precompute_steps(before: DataPrecomputeTask, event: PrecomputeEvent, after: DataPrecomputeTask, action: PrecomputeAction) -> bool {
    &&& (match event {
        PrecomputeEvent::Ctrl(Some(DataTaskCtrl::StopTimer)) => !after.timer_on() && (action is Nothing),
        PrecomputeEvent::Ctrl(Some(DataTaskCtrl::StartTimer)) => after.timer_on() && (action is Nothing),
        PrecomputeEvent::Ctrl(None) => action is Exit && after.timer_on() == before.timer_on(),
        PrecomputeEvent::FromUi(None) => action is Exit && after.timer_on() == before.timer_on(),
        PrecomputeEvent::FromUi(Some(UiEvent::LogDisplaySettingsChanged(s))) => {
            &&& after.current_settings() == s
            &&& after.all() == before.all()
            &&& after.shown() == at_view_level(before.all(), s)
            &&& after.timer_on() == before.timer_on()
            &&& (action matches PrecomputeAction::Publish(d) && d.filtered_logs@ == at_view_level(before.all(), s)
                && counts_match(d.log_counts, before.all()))
        },
        PrecomputeEvent::Tick(new_logs) => {
            &&& after.all() == before.all() + new_logs@
            &&& after.timer_on()
            &&& after.current_settings() == before.current_settings()
            &&& at_view_level(new_logs@, before.current_settings()).len() == 0 ==> (action is Nothing) && after.shown() == before.shown()
            &&& at_view_level(new_logs@, before.current_settings()).len() > 0 ==> after.shown() == before.shown() + at_view_level(new_logs@, before.current_settings())
            &&& at_view_level(new_logs@, before.current_settings()).len() > 0 ==> (action matches PrecomputeAction::Publish(d)
                && d.filtered_logs@ == after.shown() && counts_match(d.log_counts, after.all()))
        },
    })
    &&& (!((event is Tick) || (event matches PrecomputeEvent::FromUi(Some(_)))) ==> {
        &&& after.all() == before.all()
        &&& after.shown() == before.shown()
        &&& after.current_settings() == before.current_settings()
    })
}

impl DataPrecomputeTask {
    /// Every event received, in order.
    pub closed spec fn all(&self) -> Seq<Arc<DashboardEvent>> {
        self.all_logs@
    }

    /// The events published to the view, in order.
    pub closed spec fn shown(&self) -> Seq<Arc<DashboardEvent>> {
        self.filtered_logs@
    }

    /// The view's settings.
    pub closed spec fn current_settings(&self) -> LogDisplaySettings {
        self.settings
    }

    /// Whether the timer runs.
    pub closed spec fn timer_on(&self) -> bool {
        self.timer_enabled
    }

    /// Whether the timer runs.
    pub fn timer_enabled(&self) -> (b: bool)
        ensures
            b == self.timer_on(),
    {
        self.timer_enabled
    }

    /// No events and the given settings. The timer is off until the
    /// network task sends the command to start it.
    pub fn new(settings: LogDisplaySettings) -> (t: Self)
        ensures
            t.all() == Seq::<Arc<DashboardEvent>>::empty(),
            t.shown() == Seq::<Arc<DashboardEvent>>::empty(),
            t.current_settings() == settings,
            !t.timer_on(),
    {
        DataPrecomputeTask { all_logs: VecDeque::new(), filtered_logs: VecDeque::new(), settings, timer_enabled: false }
    }

    /// Keeps the new events; when some are at or above the view's level,
    /// appends them to the shown events and returns those with the counts
    /// of all events for publishing.
    pub fn publish_new_logs(&mut self, new_logs: VecDeque<Arc<DashboardEvent>>) -> (published: Option<StreamData>)
        ensures
            final(self).all() == old(self).all() + new_logs@,
            final(self).current_settings() == old(self).current_settings(),
            final(self).timer_on() == old(self).timer_on(),
            at_view_level(new_logs@, old(self).current_settings()).len() == 0 ==> published is None && final(self).shown() == old(self).shown(),
            at_view_level(new_logs@, old(self).current_settings()).len() > 0 ==> {
                &&& final(self).shown() == old(self).shown() + at_view_level(new_logs@, old(self).current_settings())
                &&& published matches Some(d) && d.filtered_logs@ == final(self).shown() && counts_match(d.log_counts, final(self).all())
            },
    {
        let min = Level::from(self.settings.level_filter);
        assert(min == filter_level(self.settings.level_filter));
        let none = "";
        proof { reveal_strlit(""); }
        assert(none@ =~= Seq::<char>::empty());
        let fresh = filter_events(&new_logs, min, none);
        let mut new_logs = new_logs;
        self.all_logs.append(&mut new_logs);
        if fresh.len() == 0 {
            return None;
        }
        let mut fresh = fresh;
        self.filtered_logs.append(&mut fresh);
        Some(StreamData { filtered_logs: share_all(&self.filtered_logs), log_counts: LogCounts::from_logs(&self.all_logs) })
    }

    /// Every event at or above the view's level, with the counts of all
    /// events.
    pub fn filter_and_refresh(&self) -> (d: StreamData)
        ensures
            d.filtered_logs@ == at_view_level(self.all(), self.current_settings()),
            counts_match(d.log_counts, self.all()),
    {
        let log_counts = LogCounts::from_logs(&self.all_logs);
        let min = Level::from(self.settings.level_filter);
        let none = "";
        proof { reveal_strlit(""); }
        assert(none@ =~= Seq::<char>::empty());
        let filtered_logs = filter_events(&self.all_logs, min, none);
        StreamData { filtered_logs, log_counts }
    }

    /// New settings from the view are kept, the shown events become every
    /// event at or above the new level, and the view gets them.
    pub fn handle_ui_event(&mut self, event: UiEvent) -> (d: StreamData)
        ensures
            match event {
                UiEvent::LogDisplaySettingsChanged(s) => final(self).current_settings() == s,
            },
            final(self).all() == old(self).all(),
            final(self).shown() == at_view_level(final(self).all(), final(self).current_settings()),
            final(self).timer_on() == old(self).timer_on(),
            d.filtered_logs@ == at_view_level(final(self).all(), final(self).current_settings()),
            counts_match(d.log_counts, final(self).all()),
    {
        match event {
            UiEvent::LogDisplaySettingsChanged(new_settings) => {
                self.settings = new_settings;
            },
        }
        let d = self.filter_and_refresh();
        self.filtered_logs = share_all(&d.filtered_logs);
        d
    }

    /// One turn of the task's loop: timer commands turn the timer on or
    /// off; a closed channel ends the task; messages from the view are
    /// acted on; ticks (only while the timer runs) take in new events.
    pub fn step(&mut self, event: PrecomputeEvent) -> (action: PrecomputeAction)
        requires
            event is Tick ==> old(self).timer_on(),
        ensures
            precompute_steps(*old(self), event, *final(self), action),
    {
        match event {
            PrecomputeEvent::Ctrl(Some(DataTaskCtrl::StopTimer)) => {
                self.timer_enabled = false;
                PrecomputeAction::Nothing
            },
            PrecomputeEvent::Ctrl(Some(DataTaskCtrl::StartTimer)) => {
                self.timer_enabled = true;
                PrecomputeAction::Nothing
            },
            PrecomputeEvent::Ctrl(None) => PrecomputeAction::Exit,
            PrecomputeEvent::FromUi(None) => PrecomputeAction::Exit,
            PrecomputeEvent::FromUi(Some(ui_event)) => PrecomputeAction::Publish(self.handle_ui_event(ui_event)),
            PrecomputeEvent::Tick(new_logs) => match self.publish_new_logs(new_logs) {
                Some(d) => PrecomputeAction::Publish(d),
                None => PrecomputeAction::Nothing,
            },
        }
    }
}

/// The event stops the timer.
pub open spec fn stops_timer(e: PrecomputeEvent) -> bool {
    e matches PrecomputeEvent::Ctrl(Some(DataTaskCtrl::StopTimer))
}

/// After the first `i` events of `events`, the timer has been started: the
/// last timer command among them was a start.
pub open spec fn timer_started(events: Seq<PrecomputeEvent>, i: int) -> bool
    decreases i,
{
    if i <= 0 {
        false
    } else {
        match events[i - 1] {
            PrecomputeEvent::Ctrl(Some(DataTaskCtrl::StartTimer)) => true,
            PrecomputeEvent::Ctrl(Some(DataTaskCtrl::StopTimer)) => false,
            _ => timer_started(events, i - 1),
        }
    }
}

proof fn lemma_timer_follows_commands(
    states: Seq<DataPrecomputeTask>,
    events: Seq<PrecomputeEvent>,
    actions: Seq<PrecomputeAction>,
    i: int,
)
    requires
        states.len() == events.len() + 1,
        actions.len() == events.len(),
        !states[0].timer_on(),
        forall|k: int| 0 <= k < events.len() ==> (#[trigger] events[k] is Tick ==> states[k].timer_on()),
        forall|k: int| 0 <= k < events.len() ==> precompute_steps(states[k], #[trigger] events[k], states[k + 1], actions[k]),
        0 <= i <= events.len(),
    ensures
        states[i].timer_on() == timer_started(events, i),
    decreases i,
{
    if i > 0 {
        lemma_timer_follows_commands(states, events, actions, i - 1);
        assert(precompute_steps(states[i - 1], events[i - 1], states[i], actions[i - 1]));
        assert(events[i - 1] is Tick ==> states[i - 1].timer_on());
    }
}

proof fn lemma_started_has_start(events: Seq<PrecomputeEvent>, i: int)
    requires
        timer_started(events, i),
    ensures
        exists|j: int|
            0 <= j < i && (#[trigger] events[j] matches PrecomputeEvent::Ctrl(Some(DataTaskCtrl::StartTimer)))
                && forall|m: int| j < m < i ==> !stops_timer(#[trigger] events[m]),
    decreases i,
{
    if !(events[i - 1] matches PrecomputeEvent::Ctrl(Some(DataTaskCtrl::StartTimer))) {
        lemma_started_has_start(events, i - 1);
        let j = choose|j: int|
            0 <= j < i - 1 && (#[trigger] events[j] matches PrecomputeEvent::Ctrl(Some(DataTaskCtrl::StartTimer)))
                && forall|m: int| j < m < i - 1 ==> !stops_timer(#[trigger] events[m]);
        assert(forall|m: int| j < m < i ==> !stops_timer(#[trigger] events[m]));
    } else {
        assert(forall|m: int| i - 1 < m < i ==> !stops_timer(#[trigger] events[m]));
    }
}

/// The task takes in new events only once it has been started: over any
/// run of turns from a new task (timer off), the timer runs exactly when
/// the last timer command was a start, and every tick, and so every call of
/// `publish_new_logs`, comes after a start command from the network task with no stop
/// command in between.
pub proof fn lemma_no_publish_before_start(
    states: Seq<DataPrecomputeTask>,
    events: Seq<PrecomputeEvent>,
    actions: Seq<PrecomputeAction>,
)
    requires
        states.len() == events.len() + 1,
        actions.len() == events.len(),
        !states[0].timer_on(),
        forall|k: int| 0 <= k < events.len() ==> (#[trigger] events[k] is Tick ==> states[k].timer_on()),
        forall|k: int| 0 <= k < events.len() ==> precompute_steps(states[k], #[trigger] events[k], states[k + 1], actions[k]),
    ensures
        forall|i: int| 0 <= i <= events.len() ==> #[trigger] states[i].timer_on() == timer_started(events, i),
        forall|i: int|
            0 <= i < events.len() && (#[trigger] events[i] is Tick) ==> exists|j: int|
                0 <= j < i && (#[trigger] events[j] matches PrecomputeEvent::Ctrl(Some(DataTaskCtrl::StartTimer)))
                    && forall|m: int| j < m < i ==> !stops_timer(#[trigger] events[m]),
{
    assert forall|i: int| 0 <= i <= events.len() implies #[trigger] states[i].timer_on() == timer_started(events, i) by {
        lemma_timer_follows_commands(states, events, actions, i);
    }
    assert forall|i: int| 0 <= i < events.len() && (#[trigger] events[i] is Tick) implies exists|j: int|
        0 <= j < i && (#[trigger] events[j] matches PrecomputeEvent::Ctrl(Some(DataTaskCtrl::StartTimer)))
            && forall|m: int| j < m < i ==> !stops_timer(#[trigger] events[m]) by {
        lemma_timer_follows_commands(states, events, actions, i);
        lemma_started_has_start(events, i);
    }
}

} // verus!
