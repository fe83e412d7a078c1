use roost_engine::attach::{
    fence_ready, fence_snapshot, fence_tab, gate, handle_client, lagged, Accepted, Attach,
    AttachAction, AttachEvent, ClientAction, ClientEvent, ClientFrame, Ending, Gate, Pump,
    PumpAction, PumpEvent, TeePoll, TeeState, Wake, WriteOutcome, MAX_DATA_FRAME_BYTES,
};
use roost_engine::pty::PtyOutputEvent;
use roost_engine::tab_task::{SnapshotAt, TabCmd, TabError};

fn bytes(seq: u64, data: &[u8]) -> PtyOutputEvent {
    PtyOutputEvent::Bytes { seq, data: data.to_vec() }
}

fn payload(seq: u64, data: &[u8]) -> Vec<u8> {
    let mut out = seq.to_le_bytes().to_vec();
    out.extend_from_slice(data);
    out
}

#[test]
fn a_stream_past_its_fence_has_no_holes() {
    let mut tee = TeeState::new(4);
    assert!(tee.streaming());
    assert_eq!(tee.absorb(bytes(3, b"old")), Ok(()));
    assert_eq!(tee.absorb(bytes(5, b"a")), Ok(()));
    assert_eq!(tee.absorb(bytes(6, b"b")), Ok(()));
    assert_eq!(tee.batch, vec![payload(5, b"a"), payload(6, b"b")]);
    assert_eq!(tee.payload_bytes, 18);
    assert!(tee.absorb(bytes(8, b"d")).is_err());
}

#[test]
fn an_exit_ends_the_stream() {
    let mut tee = TeeState::new(0);
    tee.absorb(bytes(1, b"a")).unwrap();
    tee.absorb(PtyOutputEvent::Exit { seq: 2, code: 7 }).unwrap();
    assert_eq!(tee.exit, Some((2, 7)));
    assert!(!tee.streaming());
}

#[test]
fn client_frames_become_commands_or_end_the_connection() {
    assert_eq!(
        handle_client(ClientEvent::Frame(ClientFrame::Input(b"ls".to_vec()))),
        ClientAction::Send(TabCmd::Input(b"ls".to_vec()))
    );
    let resize = vec![80, 0, 24, 0, 9, 0, 18, 0];
    assert_eq!(
        handle_client(ClientEvent::Frame(ClientFrame::Resize(resize))),
        ClientAction::Send(TabCmd::Resize { cols: 80, rows: 24, cell_w: 9, cell_h: 18, ack: false })
    );
    let wrong = |event, words: &str| match handle_client(event) {
        ClientAction::End(ending) => assert_eq!(
            ending.error_frame(),
            Some(("protocol-error".to_string(), words.to_string()))
        ),
        other => panic!("not an end: {other:?}"),
    };
    wrong(
        ClientEvent::Frame(ClientFrame::Input(Vec::new())),
        "an INPUT frame carried no bytes",
    );
    wrong(
        ClientEvent::Frame(ClientFrame::Resize(vec![1, 2, 3])),
        "a RESIZE frame must carry exactly 8 bytes, got 3",
    );
    wrong(
        ClientEvent::Frame(ClientFrame::Other(0x0f)),
        "unknown client frame type 0x0f",
    );
    wrong(ClientEvent::Fatal("short header".to_string()), "short header");
    assert_eq!(handle_client(ClientEvent::Eof), ClientAction::End(Ending::ClientGone));
}

#[test]
fn only_a_fault_and_a_close_are_told() {
    assert_eq!(Ending::Complete.error_frame(), None);
    assert_eq!(Ending::ClientGone.error_frame(), None);
    assert_eq!(
        Ending::Closed("shutting-down".to_string()).error_frame(),
        Some((
            "shutting-down".to_string(),
            "this data connection was closed: shutting-down".to_string()
        ))
    );
    assert_eq!(
        lagged(3).error_frame(),
        Some((
            "desync".to_string(),
            "this attach fell 3 records behind its tab".to_string()
        ))
    );
}

/// Answers a pump's questions: nothing from the client, what the list holds from the tab, and
/// every write goes through.
fn drive(pump: &mut Pump, tab: Vec<TeePoll>, now: u64) -> Vec<PumpAction> {
    let mut tab = tab.into_iter();
    let mut seen = Vec::new();
    let mut event = PumpEvent::Start;
    loop {
        let action = pump.step(event);
        event = match &action {
            PumpAction::CheckClose => PumpEvent::Close(None),
            PumpAction::PollClient => PumpEvent::Client(None),
            PumpAction::PollTee => PumpEvent::Tee(tab.next().unwrap_or(TeePoll::Empty)),
            PumpAction::ReadClock => PumpEvent::Clock { attach: now, snap: 0 },
            PumpAction::Wait { .. } | PumpAction::Finish(_) => {
                seen.push(action);
                return seen;
            }
            _ => {
                seen.push(action);
                PumpEvent::Wrote(WriteOutcome::Done)
            }
        };
    }
}

#[test]
fn a_snapshot_goes_out_in_order_and_the_exit_last() {
    let mut pump = Pump::new(vec![1, 2, 3, 4], 2, 10).unwrap();
    let seen = drive(
        &mut pump,
        vec![
            TeePoll::Event(bytes(11, b"x")),
            TeePoll::Event(PtyOutputEvent::Exit { seq: 12, code: 7 }),
        ],
        0,
    );
    let mut exit = 12u64.to_le_bytes().to_vec();
    exit.extend_from_slice(&7i32.to_le_bytes());
    assert_eq!(
        seen,
        vec![
            PumpAction::WritePty(vec![payload(11, b"x")]),
            PumpAction::WriteSnap { from: 0, to: 2 },
            PumpAction::WriteSnap { from: 2, to: 4 },
            PumpAction::WriteExit(exit),
            PumpAction::Finish(Ending::Complete),
        ]
    );
}

#[test]
fn a_large_snapshot_is_cut_into_frames() {
    let size = MAX_DATA_FRAME_BYTES + 10;
    let mut pump = Pump::new(vec![0; size], size, 0).unwrap();
    let seen = drive(&mut pump, Vec::new(), 0);
    assert_eq!(
        seen[..2],
        [
            PumpAction::WriteSnap { from: 0, to: MAX_DATA_FRAME_BYTES },
            PumpAction::WriteSnap { from: MAX_DATA_FRAME_BYTES, to: size },
        ]
    );
}

#[test]
fn a_stream_that_ends_without_an_exit_is_a_fault() {
    let mut pump = Pump::new(Vec::new(), 0, 0).unwrap();
    let seen = drive(&mut pump, vec![TeePoll::Closed], 0);
    match seen.last() {
        Some(PumpAction::Finish(ending)) => assert_eq!(
            ending.error_frame(),
            Some((
                "desync".to_string(),
                "the tab's stream ended without an exit".to_string()
            ))
        ),
        other => panic!("not a finish: {other:?}"),
    }
}

#[test]
fn a_snapshot_that_takes_too_long_is_given_up() {
    let mut pump = Pump::new(vec![0; 4], 2, 0).unwrap();
    let seen = drive(&mut pump, Vec::new(), 60_000_000_001);
    assert!(matches!(seen.last(), Some(PumpAction::Finish(Ending::Fault { .. }))));
}

#[test]
fn a_close_comes_before_everything_else() {
    let mut pump = Pump::new(Vec::new(), 0, 0).unwrap();
    assert_eq!(pump.step(PumpEvent::Start), PumpAction::CheckClose);
    assert_eq!(
        pump.step(PumpEvent::Close(Some("shutting-down".to_string()))),
        PumpAction::Finish(Ending::Closed("shutting-down".to_string()))
    );
}

#[test]
fn a_peer_that_does_not_read_is_told_why_it_is_cut() {
    let mut pump = Pump::new(vec![1, 2], 2, 0).unwrap();
    pump.step(PumpEvent::Start);
    pump.step(PumpEvent::Close(None));
    pump.step(PumpEvent::Client(None));
    pump.step(PumpEvent::Tee(TeePoll::Empty));
    assert_eq!(
        pump.step(PumpEvent::Clock { attach: 0, snap: 0 }),
        PumpAction::WriteSnap { from: 0, to: 2 }
    );
    match pump.step(PumpEvent::Wrote(WriteOutcome::Stalled("30s".to_string()))) {
        PumpAction::Finish(ending) => assert_eq!(
            ending.error_frame(),
            Some((
                "overflow".to_string(),
                "the peer did not read a frame within 30s".to_string()
            ))
        ),
        other => panic!("not a finish: {other:?}"),
    }
}

#[test]
fn a_wait_ends_in_a_new_pass() {
    let mut pump = Pump::new(Vec::new(), 0, 0).unwrap();
    let seen = drive(&mut pump, Vec::new(), 0);
    assert_eq!(seen, vec![PumpAction::Wait { tee: true, snapshot: false }]);
    let event = PumpEvent::Woke(Wake::Client(Some(ClientEvent::Frame(ClientFrame::Input(
        b"q".to_vec(),
    )))));
    assert_eq!(pump.step(event), PumpAction::Send(TabCmd::Input(b"q".to_vec())));
    assert_eq!(pump.step(PumpEvent::Sent), PumpAction::CheckClose);
}

#[test]
fn a_client_of_another_protocol_is_turned_away() {
    assert_eq!(gate(true, 1, 1), Gate::Silent);
    assert_eq!(gate(false, 3, 3), Gate::Proceed);
    match gate(false, 2, 3) {
        Gate::Reject(r) => {
            assert_eq!(r.code, "protocol-mismatch");
            assert_eq!(
                r.message,
                "this session speaks session protocol 3; the client offered 2"
            );
        }
        other => panic!("not a rejection: {other:?}"),
    }
}

#[test]
fn a_fence_rests_on_the_tab_that_was_admitted() {
    assert_eq!(fence_tab(true, Some(4), 4), Ok(()));
    assert_eq!(fence_tab(false, Some(4), 4).unwrap_err().code, "not-found");
    assert_eq!(
        fence_tab(true, Some(5), 4).unwrap_err().message,
        "that tab was respawned after the attach token was issued"
    );
    assert_eq!(
        fence_tab(true, None, 4).unwrap_err().message,
        "that tab has no live terminal"
    );
    let at = |generation| SnapshotAt {
        seq: 1,
        server_epoch: 2,
        tab_generation: generation,
        bytes: vec![1, 2, 3],
    };
    assert_eq!(fence_snapshot(Ok(at(4)), 4), Ok(at(4)));
    assert_eq!(fence_snapshot(Ok(at(5)), 4).unwrap_err().code, "not-found");
    let failed = fence_snapshot(Err(TabError::SnapshotFailed("no".into())), 4).unwrap_err();
    assert_eq!((failed.code, failed.message.as_str()), ("snapshot-failed", "no"));
    assert_eq!(fence_snapshot(Err(TabError::Gone), 4).unwrap_err().code, "not-found");
    assert_eq!(fence_ready(Ok(3), &at(4)), Ok(3));
    assert_eq!(
        fence_ready(Err("none".into()), &at(4)).unwrap_err().message,
        "the encoded snapshot has no READY record: none"
    );
}

fn snapshot_of(generation: u64) -> SnapshotAt {
    SnapshotAt { seq: 9, server_epoch: 2, tab_generation: generation, bytes: vec![1, 2, 3] }
}

/// An attach to generation 4 that has been fenced and asks whether it is still open.
fn fenced() -> Attach {
    let (attach, action) =
        Attach::begin(4).step(AttachEvent::Tab { subscribed: true, live: Some(4) });
    assert_eq!(action, AttachAction::TakeSnapshot);
    let (attach, action) = attach.step(AttachEvent::Snapshot(Ok(snapshot_of(4))));
    assert_eq!(action, AttachAction::FindReady);
    let (attach, action) = attach.step(AttachEvent::Ready(Ok(2)));
    assert_eq!(action, AttachAction::CheckClose);
    attach
}

#[test]
fn an_attach_is_fenced_then_accepted_then_pumped() {
    let (attach, action) = fenced().step(AttachEvent::Close(false));
    let accepted = Accepted { seq: 9, server_epoch: 2, tab_generation: 4 };
    assert_eq!(action, AttachAction::Accept(accepted));
    let (attach, action) = attach.step(AttachEvent::Wrote(true));
    assert_eq!(action, AttachAction::WritePreamble);
    let (attach, action) = attach.step(AttachEvent::Wrote(true));
    assert_eq!(action, AttachAction::Pump { snapshot: snapshot_of(4), ready_end: 2 });
    assert_eq!(attach, Attach::Over);
}

#[test]
fn an_attach_that_lost_authority_hears_nothing() {
    assert_eq!(
        fenced().step(AttachEvent::Close(true)),
        (Attach::Over, AttachAction::Hang)
    );
    let (attach, _) = fenced().step(AttachEvent::Close(false));
    assert_eq!(
        attach.step(AttachEvent::Wrote(false)),
        (Attach::Over, AttachAction::Hang)
    );
}

#[test]
fn an_attach_to_a_respawned_tab_is_rejected() {
    let code = |action: AttachAction| match action {
        AttachAction::Reject(r) => r.code,
        other => panic!("not a rejection: {other:?}"),
    };
    let (_, action) = Attach::begin(4).step(AttachEvent::Tab { subscribed: true, live: Some(5) });
    assert_eq!(code(action), "not-found");
    let (attach, _) = Attach::begin(4).step(AttachEvent::Tab { subscribed: true, live: Some(4) });
    let (_, action) = attach.step(AttachEvent::Snapshot(Ok(snapshot_of(5))));
    assert_eq!(code(action), "not-found");
    let (attach, _) = Attach::begin(4).step(AttachEvent::Tab { subscribed: true, live: Some(4) });
    let (attach, _) = attach.step(AttachEvent::Snapshot(Ok(snapshot_of(4))));
    let (_, action) = attach.step(AttachEvent::Ready(Ok(4)));
    assert_eq!(code(action), "snapshot-failed");
}
