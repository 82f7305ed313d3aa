use pty_runtime_application::server::{
    ends_socket, history_rows, open_session, route, Command, Opening, Routing, SessionLoop,
    FRAME_INTERVAL_US,
};
use pty_runtime_application::wire::{ClientMessage, ServerMessage, VERSION};

#[test]
fn a_hello_of_this_version_opens_a_session() {
    let hello = ClientMessage::Hello { v: VERSION, cols: 80, rows: 24 };
    assert_eq!(open_session(Some(&hello)), Opening::Start { cols: 80, rows: 24 });
}

#[test]
fn another_version_is_answered_then_closed() {
    let hello = ClientMessage::Hello { v: 2, cols: 80, rows: 24 };
    assert_eq!(open_session(Some(&hello)), Opening::Unsupported { version: 2 });
    let input = ClientMessage::Input { v: 9, data: String::new() };
    assert_eq!(open_session(Some(&input)), Opening::Unsupported { version: 9 });
}

#[test]
fn anything_but_hello_first_closes() {
    let resize = ClientMessage::Resize { v: VERSION, cols: 1, rows: 1 };
    assert_eq!(open_session(Some(&resize)), Opening::Close);
    assert_eq!(open_session(None), Opening::Close);
}

#[test]
fn input_is_decoded_and_other_frames_routed() {
    match route(ClientMessage::Input { v: VERSION, data: "bHMK".to_owned() }) {
        Routing::Forward(Command::Input(bytes)) => assert_eq!(bytes, b"ls\n".to_vec()),
        _ => unreachable!(),
    }
    match route(ClientMessage::Resize { v: VERSION, cols: 100, rows: 30 }) {
        Routing::Forward(Command::Resize { cols, rows }) => assert_eq!((cols, rows), (100, 30)),
        _ => unreachable!(),
    }
    match route(ClientMessage::History { v: VERSION, start: 12, count: 900 }) {
        Routing::Forward(Command::History { start, count }) => assert_eq!((start, count), (12, 900)),
        _ => unreachable!(),
    }
    assert!(matches!(route(ClientMessage::Hello { v: VERSION, cols: 1, rows: 1 }), Routing::Skip));
    assert!(matches!(route(ClientMessage::Resize { v: 7, cols: 1, rows: 1 }), Routing::Stop));
}

#[test]
fn exit_and_error_end_the_socket() {
    assert!(ends_socket(&ServerMessage::Exit { v: VERSION, status: Some(0) }));
    assert!(ends_socket(&ServerMessage::Error { v: VERSION, message: "x".to_owned() }));
    assert!(!ends_socket(&ServerMessage::Styles { v: VERSION, styles: Vec::new() }));
}

#[test]
fn history_requests_are_capped() {
    assert_eq!(history_rows(12), 12);
    assert_eq!(history_rows(500), 500);
    assert_eq!(history_rows(u16::MAX), 500);
}

#[test]
fn queued_input_is_written_whole_and_in_order_one_write_at_a_time() {
    let mut session = SessionLoop::new(0);
    assert_eq!(session.take_write(), None);
    session.queue_input(b"ab".to_vec());
    session.queue_input(b"c".to_vec());
    assert_eq!(session.take_write(), Some(b"abc".to_vec()));
    session.queue_input(b"d".to_vec());
    assert_eq!(session.take_write(), None, "one write at a time");
    assert_eq!(session.outstanding(), (true, false));
    session.write_finished();
    session.queue_input(b"e".to_vec());
    assert_eq!(session.take_write(), Some(b"de".to_vec()));
}

#[test]
fn resize_advances_the_generation_and_owes_a_frame() {
    let mut session = SessionLoop::new(0);
    assert!(session.frame_due(0));
    session.frame_projected();
    assert_eq!(session.begin_resize(), 1);
    assert_eq!(session.begin_resize(), 2);
    assert_eq!(session.outstanding(), (false, true));
    session.resize_finished();
    assert!(session.frame_due(FRAME_INTERVAL_US));
}

#[test]
fn frames_follow_the_cadence_until_the_child_exits() {
    let mut session = SessionLoop::new(1_000);
    assert!(!session.frame_due(999));
    assert!(session.frame_due(1_000));
    session.frame_projected();
    session.output_fed(true);
    assert!(!session.frame_due(1_000 + FRAME_INTERVAL_US - 1));
    assert!(session.frame_due(1_000 + FRAME_INTERVAL_US));
    session.frame_projected();
    session.output_fed(false);
    assert!(!session.frame_due(u64::MAX));
    session.child_exited(Some(3));
    assert!(session.frame_due(0));
    assert_eq!(session.exit_status(), Some(Some(3)));
}

#[test]
fn idle_sleep_is_shorter_while_a_frame_is_pending() {
    let mut session = SessionLoop::new(0);
    assert_eq!(session.idle_sleep_ms(false), Some(1));
    assert_eq!(session.idle_sleep_ms(true), None);
    session.frame_projected();
    assert_eq!(session.idle_sleep_ms(false), Some(4));
    session.queue_input(vec![1]);
    assert_eq!(session.idle_sleep_ms(false), None);
}
