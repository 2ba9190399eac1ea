use oculus::backend::{ephemeral_port_message, StreamRegistry};
use oculus::frontend::tiles::{is_tab_closable, tab_title_for_pane};
use oculus::frontend::{FrameState, FrontendStreams, TopLevelFrontendEvent};

#[test]
fn stream_ids_count_up_from_one() {
    let mut reg: StreamRegistry<&str, u32> = StreamRegistry::new();
    assert_eq!(reg.register_pending("a"), 1);
    assert_eq!(reg.register_pending("b"), 2);
    assert_eq!(reg.take_pending(1), "a");
    assert_eq!(reg.register_pending("c"), 3);
    assert_eq!(reg.take_pending(3), "c");
    assert_eq!(reg.take_pending(2), "b");
}

#[test]
fn opened_streams_run_until_closed() {
    let mut reg: StreamRegistry<&str, u32> = StreamRegistry::new();
    let a = reg.register_pending("a");
    let b = reg.register_pending("b");
    assert_eq!(reg.take_pending(a), "a");
    reg.register_running(a, 10);
    assert!(reg.is_running(a));
    assert!(!reg.is_pending(a));
    assert!(reg.is_pending(b));
    assert_eq!(reg.close_stream(a), 10);
    assert!(!reg.is_running(a));
    assert_eq!(reg.take_pending(b), "b");
    reg.register_running(b, 20);
    assert_eq!(reg.stream_failed(b), Some(20));
    assert_eq!(reg.stream_failed(b), None);
}

#[test]
fn many_connections_get_increasing_ids() {
    let mut reg: StreamRegistry<usize, u32> = StreamRegistry::new();
    let ids: Vec<usize> = (0..5).map(|i| reg.register_pending(i)).collect();
    assert_eq!(ids, vec![1, 2, 3, 4, 5]);
    assert_eq!(reg.last_stream_id(), 5);
}

#[test]
fn failed_unknown_stream_is_ignored() {
    let mut reg: StreamRegistry<&str, u32> = StreamRegistry::new();
    reg.register_pending("a");
    assert_eq!(reg.stream_failed(1), None);
    assert_eq!(reg.take_pending(1), "a");
}

#[test]
fn port_message_names_the_port() {
    assert_eq!(ephemeral_port_message(40123), "PORT 40123\n");
    assert_eq!(ephemeral_port_message(0), "PORT 0\n");
}

#[test]
fn frontend_tracks_streams_and_panes() {
    let mut fe = FrontendStreams::new();
    fe.on_new_pending_stream(1);
    let mut frame = FrameState::new();
    frame.open_pending_stream = Some(1);
    let reqs = fe.process_framestate(frame, 77);
    assert_eq!(reqs, vec![TopLevelFrontendEvent::OpenStream { stream_id: 1, on_pane_id: 77 }]);
    let pane = fe.get_pane(77);
    assert_eq!(pane.nr, 2);
    assert_eq!(pane.associated_stream_id, 1);
    fe.on_stream_started(1, 77);
    let mut frame = FrameState::new();
    frame.pane_has_been_closed = Some(77);
    let reqs = fe.process_framestate(frame, 0);
    assert_eq!(reqs, vec![TopLevelFrontendEvent::CloseStream { stream_id: 1, on_pane_id: 77 }]);
}

#[test]
fn pane_numbers_increase() {
    let mut fe = FrontendStreams::new();
    fe.open_pending_stream(4, 10);
    fe.open_pending_stream(5, 11);
    assert_eq!(fe.get_pane(10).nr, 2);
    assert_eq!(fe.get_pane(11).nr, 3);
    assert_eq!(fe.pane_closed(11), TopLevelFrontendEvent::CloseStream { stream_id: 5, on_pane_id: 11 });
}

#[test]
fn empty_frame_sends_nothing() {
    let mut fe = FrontendStreams::new();
    assert!(fe.process_framestate(FrameState::new(), 3).is_empty());
}

#[test]
fn tab_titles_and_closing() {
    assert_eq!(tab_title_for_pane(2), "View 2");
    assert_eq!(tab_title_for_pane(105), "View 105");
    assert!(!is_tab_closable(0));
    assert!(!is_tab_closable(1));
    assert!(is_tab_closable(2));
}
