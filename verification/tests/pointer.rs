use roost_engine::pointer::{DragCellGate, MotionEmitter, PointerAction, PointerButton};

const A: (u32, u32) = (5, 3);
const B: (u32, u32) = (6, 3);

fn pressed_at(cell: (u32, u32)) -> DragCellGate {
    let mut gate = DragCellGate::new();
    gate.commit_dispatched(PointerAction::Press, Some(PointerButton::Left), cell);
    gate
}

#[test]
fn press_is_never_gated() {
    let gate = pressed_at(A);
    assert!(gate.would_dispatch(PointerAction::Press, Some(PointerButton::Left), A));
}

#[test]
fn same_cell_drag_after_press_is_suppressed() {
    let gate = pressed_at(A);
    assert!(!gate.would_dispatch(PointerAction::Motion, Some(PointerButton::Left), A));
}

#[test]
fn declined_press_encode_does_not_arm_the_gate() {
    // The UI commits only when the encoder produced bytes, so a press the
    // terminal declined leaves the guard open for the first motion.
    let gate = DragCellGate::new();
    assert!(gate.would_dispatch(PointerAction::Motion, Some(PointerButton::Left), A));
}

#[test]
fn release_clears_the_memory() {
    let mut gate = pressed_at(A);
    gate.commit_dispatched(PointerAction::Release, Some(PointerButton::Left), A);
    assert!(gate.would_dispatch(PointerAction::Motion, Some(PointerButton::Left), A));
}

#[test]
fn release_is_never_gated() {
    let gate = pressed_at(A);
    assert!(gate.would_dispatch(PointerAction::Release, Some(PointerButton::Left), A));
}

#[test]
fn reset_opens_the_gate() {
    let mut gate = pressed_at(A);
    gate.reset();
    assert!(gate.would_dispatch(PointerAction::Motion, Some(PointerButton::Left), A));
}

#[test]
fn new_press_replaces_stale_state() {
    let mut gate = pressed_at(A);
    gate.commit_dispatched(PointerAction::Press, Some(PointerButton::Left), B);
    assert!(!gate.would_dispatch(PointerAction::Motion, Some(PointerButton::Left), B));
    assert!(gate.would_dispatch(PointerAction::Motion, Some(PointerButton::Left), A));
}

#[test]
fn wheel_pseudo_press_leaves_no_drag_active() {
    let mut gate = DragCellGate::new();
    gate.commit_dispatched(PointerAction::Press, Some(PointerButton::Four), A);
    assert!(gate.would_dispatch(PointerAction::Motion, Some(PointerButton::Four), A));
    assert!(gate.would_dispatch(PointerAction::Motion, Some(PointerButton::Left), A));
}

#[test]
fn wheel_pseudo_press_does_not_disturb_a_live_drag() {
    let mut gate = pressed_at(A);
    gate.commit_dispatched(PointerAction::Press, Some(PointerButton::Five), B);
    assert!(!gate.would_dispatch(PointerAction::Motion, Some(PointerButton::Left), A));
}

#[test]
fn motion_without_a_recorded_press_dispatches() {
    let gate = DragCellGate::new();
    assert!(gate.would_dispatch(PointerAction::Motion, Some(PointerButton::Left), A));
    assert!(gate.would_dispatch(PointerAction::Motion, Some(PointerButton::Right), B));
}

#[test]
fn motion_from_another_button_is_not_gated() {
    let gate = pressed_at(A);
    assert!(gate.would_dispatch(PointerAction::Motion, Some(PointerButton::Right), A));
}

#[test]
fn buttonless_motion_is_left_to_the_motion_emitter() {
    let gate = pressed_at(A);
    assert!(gate.would_dispatch(PointerAction::Motion, None, A));
}

#[test]
fn cross_cell_drag_reports_every_crossing() {
    let mut gate = pressed_at(A);
    for cell in [(6, 3), (7, 3), (8, 3), (8, 4)] {
        assert!(gate.would_dispatch(PointerAction::Motion, Some(PointerButton::Left), cell));
        gate.commit_dispatched(PointerAction::Motion, Some(PointerButton::Left), cell);
        assert!(!gate.would_dispatch(PointerAction::Motion, Some(PointerButton::Left), cell));
    }
}

#[test]
fn return_to_origin_reports_the_second_visit() {
    // press A -> motion A (suppressed) -> motion B -> motion A -> release.
    let mut gate = DragCellGate::new();
    let mut dispatched = Vec::new();
    let script = [
        (PointerAction::Press, A),
        (PointerAction::Motion, A),
        (PointerAction::Motion, B),
        (PointerAction::Motion, A),
        (PointerAction::Release, A),
    ];
    for (action, cell) in script {
        if !gate.would_dispatch(action, Some(PointerButton::Left), cell) {
            continue;
        }
        dispatched.push((action, cell));
        gate.commit_dispatched(action, Some(PointerButton::Left), cell);
    }
    assert_eq!(
        dispatched,
        vec![
            (PointerAction::Press, A),
            (PointerAction::Motion, B),
            (PointerAction::Motion, A),
            (PointerAction::Release, A),
        ]
    );
}

#[test]
fn declined_motion_encode_does_not_advance_state() {
    let mut gate = pressed_at(A);
    assert!(gate.would_dispatch(PointerAction::Motion, Some(PointerButton::Left), B));
    // No commit — the encoder declined; the same crossing still reports.
    assert!(gate.would_dispatch(PointerAction::Motion, Some(PointerButton::Left), B));
    gate.commit_dispatched(PointerAction::Motion, Some(PointerButton::Left), B);
    assert!(!gate.would_dispatch(PointerAction::Motion, Some(PointerButton::Left), B));
}

#[test]
fn a_withheld_report_is_one_that_was_made() {
    let mut gate = DragCellGate::default();
    for button in [PointerButton::Left, PointerButton::Right, PointerButton::Middle] {
        gate.commit_dispatched(PointerAction::Press, Some(button), A);
        assert!(!gate.would_dispatch(PointerAction::Motion, Some(button), A));
        assert!(gate.would_dispatch(PointerAction::Motion, Some(button), B));
    }
}

const MIN_INTERVAL_SECONDS: f64 = 1.0 / 60.0;

/// A motion guard and the time of its last report.
struct Clocked {
    cells: MotionEmitter,
    last_emit: Option<f64>,
}

impl Clocked {
    fn new() -> Clocked {
        Clocked { cells: MotionEmitter::new(), last_emit: None }
    }

    fn would_emit(&self, col: u32, row: u32, now: f64) -> bool {
        let too_soon = self.last_emit.is_some_and(|last| now - last < MIN_INTERVAL_SECONDS);
        self.cells.would_emit(col, row, too_soon)
    }

    fn commit(&mut self, col: u32, row: u32, now: f64) {
        self.cells.commit(col, row);
        self.last_emit = Some(now);
    }
}

#[test]
fn first_motion_emits() {
    assert!(Clocked::new().would_emit(5, 3, 0.0));
}

#[test]
fn same_cell_is_deduplicated_after_interval() {
    let mut emitter = Clocked::new();
    emitter.commit(5, 3, 0.0);
    assert!(!emitter.would_emit(5, 3, 0.100));
}

#[test]
fn different_cell_obeys_sixty_hz_cap() {
    let mut emitter = Clocked::new();
    emitter.commit(5, 3, 0.0);
    assert!(!emitter.would_emit(6, 3, 0.010));
    assert!(emitter.would_emit(6, 3, 0.020));
}

#[test]
fn declined_encode_does_not_advance_state() {
    let emitter = Clocked::new();
    assert!(emitter.would_emit(5, 3, 0.0));
    assert!(emitter.would_emit(5, 3, 0.050));
}

#[test]
fn sustained_motion_is_capped_near_sixty_hz() {
    let mut emitter = Clocked::new();
    let mut emits = 0;
    for ms in 0..1000 {
        let now = f64::from(ms) / 1000.0;
        let col = (ms as u32) % 80;
        if emitter.would_emit(col, 5, now) {
            emitter.commit(col, 5, now);
            emits += 1;
        }
    }
    assert!((55..=70).contains(&emits), "expected ~60 emits, got {emits}");
}
