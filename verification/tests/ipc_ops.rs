use roost_engine::ipc::ops::{
    every_op, is_mutating_op, served_ops, withheld, withheld_from_the_slot, Build, LocalBackendMode,
    Op, OpClass, SlotClasses, SocketKind, Withheld,
};

const UI: &[&str] = &[
    "agent.set_hooks",
    "app.activate",
    "app.active_terminal_focused",
    "app.cursor_shape",
    "app.render_stats",
    "app.screenshot",
    "app.selected_tab_id",
    "app.sidebar_dump",
    "app.window_metrics",
    "clipboard.dump",
    "clipboard.write",
    "host.add",
    "host.connect",
    "host.disconnect",
    "host.list",
    "host.remove",
    "host.status",
    "identify",
    "notification.create",
    "palette.activate",
    "palette.dismiss",
    "palette.open",
    "palette.present",
    "palette.query",
    "palette.state",
    "project.create",
    "project.delete",
    "project.ensure",
    "project.rename",
    "project.reorder",
    "selection.clear",
    "selection.dump",
    "selection.set",
    "tab.agent_report",
    "tab.clear_notification",
    "tab.close",
    "tab.dump",
    "tab.dump_resolved",
    "tab.focus",
    "tab.list",
    "tab.open",
    "tab.reorder",
    "tab.resize",
    "tab.send_file",
    "tab.set_hook_active",
    "tab.set_state",
    "tab.set_title",
    "tab.write",
];

const UI_TEST_SEAMS: &[&str] = &[
    "app.dialog_answer",
    "app.dialog_dump",
    "app.keybind_dispatch",
    "app.set_window_focus",
    "sidebar.set_width",
    "tab.capture_pty_input",
    "tab.dispatch_mouse_event",
    "tab.expand_selection_at",
    "tab.feed_ime",
    "tab.feed_pty_bytes",
    "window.resize",
];

const MACOS_TEST_SEAMS: &[&str] = &[
    "app.dock_badge",
    "app.menu_activate",
    "app.menu_dump",
    "app.notification_status",
    "app.update_check",
    "app.update_status",
];

const SESSION: &[&str] = &[
    "events.subscribe",
    "identify",
    "notification.create",
    "project.create",
    "project.delete",
    "project.ensure",
    "project.rename",
    "project.reorder",
    "session.identify",
    "session.put_file",
    "session.set_agent_hooks",
    "session.stop",
    "tab.agent_report",
    "tab.clear_notification",
    "tab.close",
    "tab.focus",
    "tab.list",
    "tab.open",
    "tab.reorder",
    "tab.resize",
    "tab.set_hook_active",
    "tab.set_state",
    "tab.set_title",
    "tab.write",
];

const SESSION_SERVER_VT: &[&str] = &["session.set_theme", "tab.dump", "tab.dump_resolved"];

const LINUX: Build = Build { server_vt: true, macos: false };
const MACOS: Build = Build { server_vt: true, macos: true };
const BARE: Build = Build { server_vt: false, macos: false };

fn no_classes() -> SlotClasses {
    SlotClasses { unsupported: Vec::new(), forwarded: Vec::new(), rewritten: Vec::new() }
}

fn slot_classes() -> SlotClasses {
    SlotClasses {
        unsupported: vec![Op::EventsSubscribe],
        forwarded: vec![Op::TabOpen, Op::TabList],
        rewritten: vec![Op::TabFocus],
    }
}

fn sorted(parts: &[&[&str]]) -> Vec<String> {
    let mut ops: Vec<String> = parts.concat().into_iter().map(str::to_string).collect();
    ops.sort_unstable();
    ops
}

fn served(socket: SocketKind, test_mode: bool, has_ui: bool, build: Build) -> Vec<String> {
    let classes = slot_classes();
    let mut names: Vec<String> = served_ops(socket, test_mode, has_ui, build, &classes)
        .into_iter()
        .map(|op| op.name().to_string())
        .collect();
    names.sort_unstable();
    names
}

#[test]
fn the_four_configurations_serve_their_checked_in_lists() {
    let in_process = SocketKind::Ui(LocalBackendMode::InProcess);
    assert_eq!(served(in_process, false, true, LINUX), sorted(&[UI]), "UI in-process");
    assert_eq!(
        served(SocketKind::Ui(LocalBackendMode::Session), false, true, LINUX),
        sorted(&[UI]),
        "UI whose tabs live in a session"
    );
    assert_eq!(
        served(SocketKind::Session, false, false, LINUX),
        sorted(&[SESSION, SESSION_SERVER_VT]),
        "a headless session"
    );
    assert_eq!(
        served(SocketKind::Session, false, false, BARE),
        sorted(&[SESSION]),
        "a headless session without terminals of its own"
    );
    assert_eq!(
        served(in_process, true, true, LINUX),
        sorted(&[UI, UI_TEST_SEAMS]),
        "UI in test mode"
    );
    assert_eq!(
        served(in_process, true, true, MACOS),
        sorted(&[UI, UI_TEST_SEAMS, MACOS_TEST_SEAMS]),
        "UI in test mode on macOS"
    );
}

#[test]
fn every_op_has_one_name() {
    let ops = every_op();
    assert_eq!(ops.len(), 71);
    for op in &ops {
        assert_eq!(Op::parse(op.name()), Some(*op));
        assert_eq!(is_mutating_op(op.name()), op.mutating());
    }
    assert_eq!(Op::parse("tab.opened"), None);
    assert_eq!(Op::parse(""), None);
}

#[test]
fn every_dispatcher_arm_is_served_somewhere_or_withheld_by_name() {
    let classes = no_classes();
    for op in every_op() {
        let somewhere = [
            SocketKind::Ui(LocalBackendMode::InProcess),
            SocketKind::Ui(LocalBackendMode::Session),
            SocketKind::Session,
        ]
        .into_iter()
        .any(|socket| served_ops(socket, true, true, MACOS, &classes).contains(&op));
        assert!(somewhere || !withheld(op).is_empty(), "{}", op.name());
    }
    assert_eq!(withheld(Op::TabOpen), Vec::new());
    assert_eq!(
        withheld(Op::AppDockBadge),
        vec![Withheld::NeedsUi, Withheld::TestMode, Withheld::MacosOnly]
    );
}

#[test]
fn what_changes_a_session_is_named() {
    for op in [
        "tab.open",
        "tab.write",
        "project.ensure",
        "notification.create",
        "session.put_file",
        "tab.feed_pty_bytes",
        "host.add",
    ] {
        assert!(is_mutating_op(op), "{op}");
    }
    for op in ["identify", "tab.list", "tab.dump", "session.identify", "session.stop", "no.such"] {
        assert!(!is_mutating_op(op), "{op}");
    }
}

#[test]
fn the_slot_is_reached_through_an_app() {
    let classes = slot_classes();
    assert_eq!(classes.classify(Op::TabOpen), OpClass::Forward);
    assert_eq!(classes.classify(Op::TabFocus), OpClass::Rewrite);
    assert_eq!(classes.classify(Op::Identify), OpClass::Local);
    assert!(withheld_from_the_slot(Op::EventsSubscribe, true, &classes));
    assert!(withheld_from_the_slot(Op::TabOpen, false, &classes));
    assert!(!withheld_from_the_slot(Op::TabOpen, true, &classes));
    let headless = served(SocketKind::Ui(LocalBackendMode::Session), false, false, LINUX);
    assert!(!headless.contains(&"tab.open".to_string()));
    assert!(headless.contains(&"identify".to_string()));
}
