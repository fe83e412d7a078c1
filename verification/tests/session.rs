use roost_engine::osc::{OscAction, OscColorSnapshot, OscEvent, OscReply};
use roost_engine::pty::PtySupervisor;
use roost_engine::session::{Incoming, OutputSource, PtyCommand, TabOutput, TabSession};

fn theme() -> OscColorSnapshot {
    OscColorSnapshot::new((1, 2, 3), (4, 5, 6), (7, 8, 9), [(0, 0, 0); 256])
}

#[test]
fn send_input_preserves_submission_order() {
    let mut session = TabSession::attach_with_receiver_scanned(1, false, None);
    for d in b'0'..=b'9' {
        session.send_input(vec![d]);
    }
    session.send_resize(100, 40);
    let mut seen = String::new();
    for command in &session.queue {
        match command {
            PtyCommand::Input(data) => seen.push(data[0] as char),
            PtyCommand::Resize { cols, rows } => assert_eq!((*cols, *rows), (100, 40)),
        }
    }
    assert_eq!(seen, "0123456789");
    assert_eq!(session.queue.len(), 11);
}

#[test]
fn input_capture_records_send_input_in_order() {
    let mut session = TabSession::attach_with_receiver_scanned(7, true, None);
    session.send_input(b"hello".to_vec());
    session.send_input(b" world".to_vec());
    session.send_input(Vec::new());
    assert_eq!(session.input_capture, Some(b"hello world".to_vec()));
    assert_eq!(session.queue.len(), 2, "an empty payload leaves no trace");
}

#[test]
fn second_attach_falls_back_to_lazy_subscribe() {
    let mut supervisor = PtySupervisor::new();
    assert_eq!(
        TabSession::attach(&mut supervisor, 22),
        Err("no live PTY for tab 22".to_string())
    );
    let spawn = supervisor.spawn(22).unwrap();
    supervisor.promote(22, spawn).unwrap();
    assert_eq!(TabSession::attach(&mut supervisor, 22), Ok(OutputSource::Initial));
    assert_eq!(TabSession::attach(&mut supervisor, 22), Ok(OutputSource::Subscribed));
}

#[test]
fn a_session_that_looks_answers_before_it_forwards() {
    let mut session = TabSession::attach_with_receiver_scanned(1, false, Some(theme()));
    let out = session.forward(Incoming::Bytes {
        data: b"x".to_vec(),
        events: vec![
            OscEvent::Title("t".into()),
            OscEvent::ColorQuery(11),
            OscEvent::MouseShape("text".into()),
        ],
    });
    assert!(!out.stop);
    assert_eq!(out.replies, vec![vec![OscReply::Color { number: 11, color: (4, 5, 6) }]]);
    assert_eq!(
        out.output,
        Some(TabOutput::Scanned {
            data: b"x".to_vec(),
            actions: vec![
                OscAction::Workspace { command: 0, payload: "t".into() },
                OscAction::PointerShape("text".into()),
            ],
        })
    );
}

#[test]
fn a_session_that_does_not_look_passes_bytes_on() {
    let mut session = TabSession::attach_with_receiver_scanned(1, false, None);
    let out = session.forward(Incoming::Bytes {
        data: b"x".to_vec(),
        events: vec![OscEvent::ColorQuery(11)],
    });
    assert_eq!(out.output, Some(TabOutput::Bytes(b"x".to_vec())));
    assert!(out.replies.is_empty());
    let scan = session.scan_osc(vec![OscEvent::ColorQuery(11)]);
    assert!(scan.replies.is_empty() && scan.actions.is_empty());
}

#[test]
fn an_exit_ends_the_forwarding_and_a_loss_is_told() {
    let mut session = TabSession::attach_with_receiver_scanned(1, false, None);
    let lag = session.forward(Incoming::Lagged { missed: 3 });
    assert!(!lag.stop);
    assert_eq!(
        lag.output,
        Some(TabOutput::Error("broadcast lagged: dropped 3 message(s)".to_string()))
    );
    let exit = session.forward(Incoming::Exit { status: 7 });
    assert!(exit.stop);
    assert_eq!(exit.output, Some(TabOutput::Exit { status: 7, reason: String::new() }));
    let closed = session.forward(Incoming::Closed);
    assert!(closed.stop && closed.output.is_none());
}

#[test]
fn a_new_theme_reaches_a_session_that_looks() {
    let mut session = TabSession::attach_with_receiver_scanned(1, false, Some(theme()));
    session.reseed_osc_colors(OscColorSnapshot::new(
        (9, 9, 9),
        (8, 8, 8),
        (7, 7, 7),
        [(0, 0, 0); 256],
    ));
    let scan = session.scan_osc(vec![OscEvent::ColorQuery(11)]);
    assert_eq!(scan.replies, vec![vec![OscReply::Color { number: 11, color: (8, 8, 8) }]]);
}
