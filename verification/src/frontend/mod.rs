//! The front end: the panes that show streams and the events that they
//! send to the back end.
use std::collections::HashMap;
use vstd::prelude::*;

use crate::data::DisplaySettings;

pub mod pane;
pub mod tiles;

verus! {

/// What a stream's pane asks of the data side of its stream.
#[derive(Debug)]
pub enum ScopedUIEvent {
    /// The user changed what the pane shows.
    LogDisplaySettingsChanged(DisplaySettings),
    /// The user clicked on the source location of an event.
    OpenInEditor { path: String, line: u32 },
    /// The user asked to forget every event received so far.
    Clear,
}

/// What the front end asks of the back end. Panes are named by the id of
/// their tile in the layout.
#[derive(Debug, Clone, Copy, PartialEq, Eq, Structural)]
pub enum TopLevelFrontendEvent {
    /// Start pending stream `stream_id` and show it in pane `on_pane_id`.
    OpenStream { stream_id: usize, on_pane_id: u64 },
    /// The pane `on_pane_id` that showed stream `stream_id` was closed.
    CloseStream { stream_id: usize, on_pane_id: u64 },
}

/// What the user did while one frame was drawn, acted on after the frame.
#[derive(Debug, Clone, Copy, PartialEq, Eq, Structural)]
pub struct FrameState {
    /// The user chose to open this pending stream.
    pub open_pending_stream: Option<usize>,
    /// The user closed the pane with this tile id.
    pub pane_has_been_closed: Option<u64>,
}

impl FrameState {
    /// Nothing happened yet.
    pub fn new() -> (f: FrameState)
        ensures
            f.open_pending_stream is None,
            f.pane_has_been_closed is None,
    {
        FrameState { open_pending_stream: None, pane_has_been_closed: None }
    }
}

/// What the front end knows of a stream: its pane once it runs, and whether
/// it still waits to be opened.
#[derive(Debug, Clone, Copy, PartialEq, Eq, Structural)]
pub struct StreamMeta {
    pub pane_id: Option<u64>,
    pub stream_id: usize,
    pub pending: bool,
}

/// A pane of the layout: its number, shown in its tab's title, and the
/// stream it shows.
#[derive(Debug, Clone, Copy, PartialEq, Eq, Structural)]
pub struct PaneInfo {
    pub nr: usize,
    pub associated_stream_id: usize,
}

/// The front end's record of streams and panes.
pub struct FrontendStreams {
    streams: HashMap<usize, StreamMeta>,
    panes: HashMap<u64, PaneInfo>,
    next_panel_id: usize,
}

impl FrontendStreams {
    /// The streams known, by id.
    pub closed spec fn streams(&self) -> Map<usize, StreamMeta> {
        self.streams@
    }

    /// The panes in the layout, by tile id.
    pub closed spec fn panes(&self) -> Map<u64, PaneInfo> {
        self.panes@
    }

    /// The number the next pane gets.
    pub closed spec fn next_panel_id(&self) -> usize {
        self.next_panel_id
    }

    /// No stream and no pane; pane numbers start at 2.
    pub fn new() -> (f: FrontendStreams)
        ensures
            f.streams() == Map::<usize, StreamMeta>::empty(),
            f.panes() == Map::<u64, PaneInfo>::empty(),
            f.next_panel_id() == 2,
    {
        FrontendStreams { streams: HashMap::new(), panes: HashMap::new(), next_panel_id: 2 }
    }

    /// Whether stream `stream_id` is known.
    pub fn has_stream(&self, stream_id: usize) -> (b: bool)
        ensures
            b == self.streams().contains_key(stream_id),
    {
        broadcast use vstd::std_specs::hash::group_hash_axioms;
        self.streams.contains_key(&stream_id)
    }

    /// Whether the layout has a pane with tile id `tile`.
    pub fn has_pane(&self, tile: u64) -> (b: bool)
        ensures
            b == self.panes().contains_key(tile),
    {
        broadcast use vstd::std_specs::hash::group_hash_axioms;
        self.panes.contains_key(&tile)
    }

    /// The back end accepted a connection: stream `stream_id` waits, with
    /// no pane yet.
    pub fn on_new_pending_stream(&mut self, stream_id: usize)
        ensures
            final(self).streams() == old(self).streams().insert(
                stream_id,
                StreamMeta { pane_id: None, stream_id, pending: true },
            ),
            final(self).panes() == old(self).panes(),
            final(self).next_panel_id() == old(self).next_panel_id(),
    {
        broadcast use vstd::std_specs::hash::group_hash_axioms;
        self.streams.insert(stream_id, StreamMeta { pane_id: None, stream_id, pending: true });
    }

    /// The back end started stream `stream_id` in pane `pane_id`: the
    /// stream no longer waits and shows in that pane.
    pub fn on_stream_started(&mut self, stream_id: usize, pane_id: u64)
        requires
            old(self).streams().contains_key(stream_id),
        ensures
            final(self).streams() == old(self).streams().insert(
                stream_id,
                StreamMeta {
                    pane_id: Some(pane_id),
                    stream_id: old(self).streams()[stream_id].stream_id,
                    pending: false,
                },
            ),
            final(self).panes() == old(self).panes(),
            final(self).next_panel_id() == old(self).next_panel_id(),
    {
        broadcast use vstd::std_specs::hash::group_hash_axioms;
        let meta = match self.streams.get(&stream_id) {
            Some(m) => *m,
            None => vstd::pervasive::unreached(),
        };
        self.streams.insert(stream_id, StreamMeta { pane_id: Some(pane_id), stream_id: meta.stream_id, pending: false });
    }

    /// The user opened pending stream `stream_id` and the layout gave the
    /// new pane tile id `new_tile`: the pane is recorded with the next
    /// number (the counter wraps as an atomic counter does), and the back
    /// end is asked to open the stream in it.
    pub fn open_pending_stream(&mut self, stream_id: usize, new_tile: u64) -> (request: TopLevelFrontendEvent)
        ensures
            request == (TopLevelFrontendEvent::OpenStream { stream_id, on_pane_id: new_tile }),
            final(self).panes() == old(self).panes().insert(
                new_tile,
                PaneInfo { nr: old(self).next_panel_id(), associated_stream_id: stream_id },
            ),
            final(self).next_panel_id() == (if old(self).next_panel_id() == usize::MAX { 0 } else { old(self).next_panel_id() + 1 }),
            final(self).streams() == old(self).streams(),
    {
        broadcast use vstd::std_specs::hash::group_hash_axioms;
        let nr = self.next_panel_id;
        self.next_panel_id = if nr == usize::MAX { 0 } else { nr + 1 };
        self.panes.insert(new_tile, PaneInfo { nr, associated_stream_id: stream_id });
        TopLevelFrontendEvent::OpenStream { stream_id, on_pane_id: new_tile }
    }

    /// The pane with tile id `tile` holds.
    pub fn get_pane(&self, tile: u64) -> (pane: PaneInfo)
        requires
            self.panes().contains_key(tile),
        ensures
            pane == self.panes()[tile],
    {
        broadcast use vstd::std_specs::hash::group_hash_axioms;
        match self.panes.get(&tile) {
            Some(p) => *p,
            None => vstd::pervasive::unreached(),
        }
    }

    /// The user closed pane `tile`: the back end is told which stream it
    /// showed.
    pub fn pane_closed(&self, tile: u64) -> (request: TopLevelFrontendEvent)
        requires
            self.panes().contains_key(tile),
        ensures
            request == (TopLevelFrontendEvent::CloseStream {
                stream_id: self.panes()[tile].associated_stream_id,
                on_pane_id: tile,
            }),
    {
        let pane = self.get_pane(tile);
        TopLevelFrontendEvent::CloseStream { stream_id: pane.associated_stream_id, on_pane_id: tile }
    }

    /// Acts on what the user did during a frame: first opening a pending
    /// stream in the new pane `new_tile`, then the closing of a pane. The
    /// requests for the back end come out in that order.
    pub fn process_framestate(&mut self, frame_state: FrameState, new_tile: u64) -> (requests: Vec<TopLevelFrontendEvent>)
        requires
            frame_state.pane_has_been_closed matches Some(t) ==> (old(self).panes().contains_key(t)
                || (frame_state.open_pending_stream is Some && t == new_tile)),
        ensures
            frame_state.open_pending_stream is Some ==> requests@.len() >= 1 && requests@[0] == (TopLevelFrontendEvent::OpenStream {
                stream_id: frame_state.open_pending_stream->0,
                on_pane_id: new_tile,
            }),
            frame_state.open_pending_stream is None ==> final(self).panes() == old(self).panes(),
            frame_state.open_pending_stream is None ==> final(self).next_panel_id() == old(self).next_panel_id(),
            frame_state.open_pending_stream is Some ==> final(self).next_panel_id() == (if old(self).next_panel_id() == usize::MAX { 0 } else { old(self).next_panel_id() + 1 }),
            frame_state.open_pending_stream is Some ==> final(self).panes() == old(self).panes().insert(
                new_tile,
                PaneInfo { nr: old(self).next_panel_id(), associated_stream_id: frame_state.open_pending_stream->0 },
            ),
            final(self).streams() == old(self).streams(),
            requests@.len() == (if frame_state.open_pending_stream is Some { 1int } else { 0int }) + (if frame_state.pane_has_been_closed is Some { 1int } else { 0int }),
            frame_state.pane_has_been_closed matches Some(t) ==> requests@.last() == (TopLevelFrontendEvent::CloseStream {
                stream_id: final(self).panes()[t].associated_stream_id,
                on_pane_id: t,
            }),
    {
        let mut requests: Vec<TopLevelFrontendEvent> = Vec::new();
        if let Some(stream_id) = frame_state.open_pending_stream {
            let r = self.open_pending_stream(stream_id, new_tile);
            requests.push(r);
        }
        if let Some(tile) = frame_state.pane_has_been_closed {
            let r = self.pane_closed(tile);
            requests.push(r);
        }
        requests
    }
}

} // verus!
