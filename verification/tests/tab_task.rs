use roost_engine::pty::{PtyOutputEvent, PtySize, WriterCmd};
use roost_engine::tab_task::{
    await_status, writer_cmd_len, ExitSignal, LoopAction, LoopEvent, RenderedCell,
    ServerVtConfig, ServerVtWorkspace, TabCmd, TabError, TabLoop, TabStep, TabTask, REPLAY_RING_BYTES, REPLY_PENDING_MAX,
};

#[test]
fn output_gets_places_in_order_and_the_exit_is_final() {
    let mut tab = TabTask::new(false, 80, 24);
    assert_eq!(
        tab.ingest(b"a".to_vec()),
        Some(PtyOutputEvent::Bytes { seq: 1, data: b"a".to_vec() })
    );
    assert_eq!(
        tab.ingest(b"b".to_vec()),
        Some(PtyOutputEvent::Bytes { seq: 2, data: b"b".to_vec() })
    );
    assert_eq!(tab.publish_exit(7), Some(PtyOutputEvent::Exit { seq: 3, code: 7 }));
    assert!(tab.wire_closed());
    assert_eq!(tab.ingest(b"late".to_vec()), None);
    assert_eq!(tab.publish_exit(9), None);
}

#[test]
fn a_resume_gives_back_what_was_missed() {
    let mut tab = TabTask::new(false, 80, 24);
    for byte in b"abc" {
        tab.ingest(vec![*byte]);
    }
    tab.publish_exit(0);
    let resumed = tab.resume(2).unwrap();
    assert_eq!(resumed.slice, vec![(2, b"b".to_vec()), (3, b"c".to_vec())]);
    assert_eq!(resumed.last_assigned, 3);
    assert_eq!(resumed.stored_exit, Some((4, 0)));
    assert_eq!(tab.resume(4).unwrap().slice, Vec::new());
    assert_eq!(
        tab.resume(5),
        Err(TabError::RingMiss { from_seq: 5, front: 1, last_assigned: 3 })
    );
    assert_eq!(
        tab.resume(0).unwrap_err().message(),
        "resume from seq 0 is outside the replay ring (front 1, last assigned 3)"
    );
}

#[test]
fn a_full_ring_drops_its_oldest_records() {
    let mut tab = TabTask::new(false, 80, 24);
    let half = vec![0; REPLAY_RING_BYTES / 2];
    for _ in 0..3 {
        tab.ingest(half.clone());
    }
    assert!(tab.resume(1).is_err());
    assert_eq!(tab.resume(2).unwrap().slice.len(), 2);
}

#[test]
fn a_full_queue_drops_its_oldest_input_and_no_resize() {
    let mut tab = TabTask::new(false, 80, 24);
    let size = PtySize { rows: 24, cols: 80, pixel_width: 0, pixel_height: 0 };
    tab.queue_input(vec![b'a'; REPLY_PENDING_MAX]);
    tab.queue_resize(size);
    tab.queue_input(b"new".to_vec());
    assert_eq!(tab.next_write(), Some(WriterCmd::Resize(size)));
    assert_eq!(tab.next_write(), Some(WriterCmd::Input(b"new".to_vec())));
    assert_eq!(tab.next_write(), None);
    assert_eq!(writer_cmd_len(&WriterCmd::Input(b"new".to_vec())), 3);
}

#[test]
fn what_the_writer_had_no_room_for_goes_first_again() {
    let mut tab = TabTask::new(false, 80, 24);
    tab.queue_input(b"one".to_vec());
    tab.queue_input(b"two".to_vec());
    let first = tab.next_write().unwrap();
    tab.put_back(first);
    assert_eq!(tab.next_write(), Some(WriterCmd::Input(b"one".to_vec())));
    tab.writer_closed();
    assert_eq!(tab.next_write(), None);
}

#[test]
fn input_is_recorded_where_a_test_asked() {
    let mut tab = TabTask::new(true, 80, 24);
    assert_eq!(tab.handle(TabCmd::Input(b"ls".to_vec())), TabStep::Queued);
    assert_eq!(
        tab.handle(TabCmd::CaptureInput { drain: false }),
        TabStep::Captured(b"ls".to_vec())
    );
    assert_eq!(
        tab.handle(TabCmd::CaptureInput { drain: true }),
        TabStep::Captured(b"ls".to_vec())
    );
    assert_eq!(
        tab.handle(TabCmd::CaptureInput { drain: true }),
        TabStep::Captured(Vec::new())
    );
}

#[test]
fn commands_come_to_what_is_left_to_do() {
    let mut tab = TabTask::new(false, 80, 24);
    assert_eq!(
        tab.handle(TabCmd::FeedBytes(b"x".to_vec())),
        TabStep::Fed(Some(PtyOutputEvent::Bytes { seq: 1, data: b"x".to_vec() }))
    );
    assert_eq!(tab.handle(TabCmd::Snapshot), TabStep::Encode { seq: 1 });
    assert_eq!(tab.handle(TabCmd::Dump), TabStep::ReadScreen);
    assert_eq!(tab.handle(TabCmd::DumpResolved), TabStep::ReadCells);
    let resize = TabCmd::Resize { cols: 100, rows: 40, cell_w: 9, cell_h: 18, ack: true };
    assert_eq!(
        tab.handle(resize),
        TabStep::ResizeTerminal { cols: 100, rows: 40, cell_w: 9, cell_h: 18, ack: true }
    );
    assert_eq!((tab.cols, tab.rows), (100, 40));
    assert!(matches!(tab.handle(TabCmd::Resume { from_seq: 1 }), TabStep::Resumed(Ok(_))));
}

#[test]
fn a_hidden_cursor_is_left_out_of_a_dump() {
    let tab = TabTask::new(false, 2, 1);
    let shown = tab.dump(Some((0, 1, true)), vec!["ab".to_string()], 5, Vec::new());
    assert_eq!(shown.cursor, Some((0, 1, true)));
    assert_eq!((shown.cols, shown.rows, shown.scrollback_rows), (2, 1, 5));
    let hidden = tab.dump(Some((0, 1, false)), Vec::new(), 0, Vec::new());
    assert_eq!(hidden.cursor, None);
}

#[test]
fn every_cell_of_a_screen_is_told() {
    let tab = TabTask::new(false, 2, 2);
    let cell = RenderedCell {
        col: 1,
        text: "x".to_string(),
        foreground: (1, 2, 3),
        background: (4, 5, 6),
        explicit_background: true,
        bold: true,
        italic: false,
        inverse: false,
    };
    let out = tab.dump_resolved(&vec![vec![cell]], (9, 9, 9), (0, 0, 0));
    assert_eq!(out.cells.len(), 4);
    assert_eq!((out.cells[0].text.as_str(), out.cells[0].fg), (" ", (9, 9, 9)));
    assert_eq!(
        (out.cells[1].text.as_str(), out.cells[1].fg, out.cells[1].bold),
        ("x", (1, 2, 3), true)
    );
    assert_eq!((out.cells[3].row, out.cells[3].col), (1, 1));
}

#[test]
fn the_loop_publishes_the_exit_when_the_output_ends() {
    let mut tab = TabLoop::new();
    assert!(tab.running());
    assert_eq!(
        tab.step(LoopEvent::Exit(Some(ExitSignal::Status(7))), false),
        LoopAction::Nothing
    );
    assert_eq!(tab.step(LoopEvent::Chunk, false), LoopAction::Ingest);
    assert_eq!(tab.step(LoopEvent::ChunksClosed, false), LoopAction::Publish(7));
    assert_eq!(tab.step(LoopEvent::CommandsClosed, true), LoopAction::Nothing);
    assert!(!tab.running());
}

#[test]
fn the_loop_waits_for_a_status_or_takes_the_deadline() {
    let mut tab = TabLoop::new();
    assert_eq!(tab.step(LoopEvent::ChunksClosed, false), LoopAction::AwaitStatus);
    assert_eq!(await_status(Some(ExitSignal::Status(3))), 3);
    assert_eq!(await_status(None), -1);
    let mut tab = TabLoop::new();
    assert_eq!(
        tab.step(LoopEvent::Exit(Some(ExitSignal::Deadline(9))), false),
        LoopAction::DrainThenPublish(9)
    );
    assert_eq!(tab.step(LoopEvent::Command, false), LoopAction::Handle);
}

#[test]
fn tab_errors_in_words() {
    assert_eq!(TabError::Gone.message(), "the tab task is gone");
    assert_eq!(
        TabError::SnapshotFailed("no".into()).message(),
        "snapshot encode failed: no"
    );
    assert_eq!(
        TabError::Render("no".into()).message(),
        "reading the tab's screen failed: no"
    );
}

struct Rows;

impl ServerVtWorkspace for Rows {
    fn apply_osc(&self, _tab_id: i64, _command: u32, _payload: &str) {}

    fn close_row(&self, _tab_id: i64) {}
}

#[test]
fn input_is_recorded_only_where_it_is_asked_for() {
    let config = ServerVtConfig::new(std::sync::Arc::new(Rows));
    assert!(!config.capture_pty_input);
    assert!(config.with_input_capture(true).capture_pty_input);
}
