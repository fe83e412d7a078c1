use roost_engine::ipc::admission::{
    admit_attach, attach_geometry, negotiate_kind, no_attach_here, AttachHandshake, Geometry,
    SessionInfo,
};
use roost_engine::ipc::conns::{Connections, Over, SessionState, StopStep};
use roost_engine::ipc::errors::{
    attach_resize_refusal, decode_err, dump_err, map_test_op_err, needs_a_ui, no_live_terminal,
    no_server_vt, palette_err, parse_clipboard_op, pty_err, session_test_mode, tab_err, tab_gone,
    ws_err, AgentHooksError, ClipboardOp, DumpError, HandlerError, HostOpFailure,
};
use roost_engine::ipc::files::{
    logical_bytes, put_file_size_guard, session_put_file, validate_put_file_name, FileStore,
    FILE_STORE_CAP_BYTES,
};
use roost_engine::ipc::resume::{
    events_subscribe, resume_cut, resume_err, subscribed, CutRequest, EventsSubscribeParams,
    ResumeError,
};
use roost_engine::ipc::routes::{
    bare_project, bare_tab, mixed_refs, project_reorder_route, tab_reorder_route, ReorderInstance,
    TabReorderParams, WireProjectRef, WireTabRef,
};
use roost_engine::ipc::theme::{decode_osc_colors, parse_rgb_hex, rgb_hex, OscColorsParams};
use roost_engine::pty::PtyError;
use roost_engine::tab_task::TabError;
use roost_engine::workspace::{WorkspaceError, WorkspaceErrorKind};

fn says(error: &HandlerError) -> (&str, &str) {
    (error.code.as_str(), error.message.as_str())
}

#[test]
fn an_attach_resize_refusal_blames_the_geometry_only_when_the_terminal_refused_it() {
    let child = attach_resize_refusal(
        7,
        80,
        24,
        &TabError::WinsizeFailed("the child did not take the new size within the budget".into()),
    );
    assert_eq!(
        child.code, "internal",
        "a wedged child is not a parameter the caller can fix"
    );
    assert_eq!(
        child.code,
        tab_err(TabError::WinsizeFailed("ioctl".into())).code,
        "and the two paths that answer for this error must agree"
    );
    assert!(
        child.message.contains("tab 7 could not be resized to 80x24"),
        "the message still names what was attempted: {}",
        child.message
    );

    let refused = attach_resize_refusal(7, 0, 24, &TabError::Render("cols must be > 0".into()));
    assert_eq!(
        refused.code, "invalid-param",
        "a grid the terminal itself refused is the caller's to fix"
    );
    assert!(refused.message.contains("cols must be > 0"));
}

#[test]
fn the_size_guard_screens_the_encoded_length_and_defers_the_rest() {
    let cap: u64 = 8 * 1024 * 1024;
    let encoded_cap = cap.div_ceil(3) * 4;
    put_file_size_guard(Some(encoded_cap), cap).expect("the cap's own encoding fits");
    assert_eq!(
        put_file_size_guard(Some(encoded_cap + 1), cap)
            .expect_err("one character more does not")
            .code,
        "too-large"
    );
    put_file_size_guard(None, cap).expect("a missing or mistyped `data` is the decoder's to name");
}

#[test]
fn a_cancelled_spawn_is_not_found_on_the_wire() {
    assert_eq!(pty_err(&PtyError::Cancelled(7)).code, "not-found");
    assert_eq!(pty_err(&PtyError::NotFound(7)).code, "not-found");
    assert_eq!(pty_err(&PtyError::DuplicateTab(7)).code, "invalid-param");
    assert_eq!(pty_err(&PtyError::ShuttingDown(7)).code, "shutting-down");
}

#[test]
fn errors_are_spelled_by_what_they_ask_of_the_client() {
    let error = |kind| {
        ws_err(WorkspaceError { kind, message: "words".to_string() })
    };
    assert_eq!(says(&error(WorkspaceErrorKind::HostNotFound)), ("not-found", "words"));
    assert_eq!(says(&error(WorkspaceErrorKind::HostLabelTaken)), ("invalid-param", "words"));
    assert_eq!(says(&error(WorkspaceErrorKind::Inconsistent)), ("internal", "words"));
    assert_eq!(dump_err(DumpError::NoTab("x".into())).code, "not-found");
    assert_eq!(dump_err(DumpError::Read("x".into())).code, "internal");
    assert_eq!(says(&tab_gone(7)), ("not-found", "tab 7 is gone"));
    assert_eq!(says(&no_live_terminal(7)), ("not-found", "tab 7 has no live terminal"));
    assert_eq!(no_server_vt().code, "unsupported-kind");
    assert_eq!(palette_err("no row".into()).code, "not-found");
    assert_eq!(tab_err(TabError::Gone).code, "not-found");
    assert_eq!(AgentHooksError::InvalidParam("x".into()).refusal().code, "invalid-param");
    assert_eq!(AgentHooksError::Failed("x".into()).refusal().code, "internal");
    let host = HostOpFailure::new("host-unavailable".into(), "gone".into());
    assert_eq!(says(&host.refusal()), ("host-unavailable", "gone"));
    assert_eq!(says(&HandlerError::unknown_op("x.y")).0, "unknown-op");
    assert_eq!(
        says(&needs_a_ui("tab.send_file", "of the files")),
        ("invalid-param", "tab.send_file needs a UI: of the files")
    );
}

#[test]
fn a_decoders_words_are_told_apart() {
    assert_eq!(decode_err("unknown field `a`".into()).code, "unknown-field");
    assert_eq!(decode_err("missing field `a`".into()).code, "missing-param");
    assert_eq!(decode_err("invalid type".into()).code, "invalid-param");
}

#[test]
fn a_uis_words_are_told_apart() {
    let table = [
        ("needs ROOST_TEST_MODE=1", "not-enabled"),
        ("tab 7 has no live terminal", "not-found"),
        ("no word/line span at 3,4", "not-found"),
        ("tab 7 is not the active terminal", "invalid-param"),
        ("no menu item named x", "invalid-param"),
        ("ambiguous menu title", "invalid-param"),
        ("item is disabled", "invalid-param"),
        ("x has no submenu to descend into", "invalid-param"),
        ("path must not be empty", "invalid-param"),
        ("unknown keybind action", "invalid-param"),
        ("not supported on this UI", "not-implemented"),
        ("poisoned", "internal"),
    ];
    for (words, code) in table {
        assert_eq!(says(&map_test_op_err(words.into())), (code, words));
    }
}

#[test]
fn a_clipboard_is_named_or_refused() {
    assert_eq!(parse_clipboard_op("system"), Ok(ClipboardOp::System));
    assert_eq!(parse_clipboard_op("selection"), Ok(ClipboardOp::Selection));
    assert_eq!(
        says(&parse_clipboard_op("pri\"mary").unwrap_err()),
        (
            "invalid-param",
            "clipboard target must be \"system\" or \"selection\" (got \"pri\\\"mary\")"
        )
    );
}

#[test]
fn test_mode_is_asked_for() {
    assert_eq!(session_test_mode(true), Ok(()));
    assert_eq!(session_test_mode(false).unwrap_err().code, "not-enabled");
}

#[test]
fn a_store_counts_what_its_root_already_holds() {
    let mut store = FileStore::with_cap("/cache".into(), 20, &vec![10, 6]);
    assert_eq!((store.used, store.root()), (16, "/cache"));
    let place = store.admission(4, "three").expect("4 more fits exactly");
    store.claim(&place, Ok(())).unwrap();
    let full = store.admission(1, "four").expect_err("and nothing after that");
    assert_eq!(
        says(&full),
        (
            "store-full",
            "the host's file store holds 20 of its 20 byte cap and cannot take 1 more; restart \
             the session to clear it"
        )
    );
    assert!(store.admission(u64::MAX, "d").is_err());
    assert_eq!(logical_bytes(&vec![u64::MAX, 1]), u64::MAX);
    assert_eq!(FileStore::new("/c".into(), &Vec::new()).cap, FILE_STORE_CAP_BYTES);
    assert_eq!(FILE_STORE_CAP_BYTES, 512 * 1024 * 1024);
}

#[test]
fn admission_never_over_admits_under_contention() {
    let mut store = FileStore::with_cap("/cache".into(), 64, &Vec::new());
    let mut admitted = 0;
    for n in 0..4 * 64 {
        let name = format!("{n:016x}");
        if let Ok(place) = store.admission(1, &name) {
            store.claim(&place, Ok(())).unwrap();
            admitted += 1;
        }
    }
    assert_eq!(admitted, 64, "exactly the cap may be admitted");
    assert_eq!(store.used, 64);
}

#[test]
fn a_write_that_fails_leaves_no_directory_and_no_charge() {
    let mut store = FileStore::with_cap("/cache".into(), 1024, &Vec::new());
    let payload = b"payload".len() as u64;
    let place = store.admission(payload, "aa").unwrap();
    assert_eq!(place.dir, "/cache/aa");
    store.claim(&place, Ok(())).unwrap();
    let error = store.settle(&place, "x.txt", "disk".into(), Ok(()));
    assert_eq!(says(&error), ("internal", "could not land /cache/aa/x.txt: disk"));
    assert_eq!(store.used, 0, "and no charge");
    let place = store.admission(payload, "ok").unwrap();
    store.claim(&place, Ok(())).unwrap();
    assert_eq!(store.used, 7);
}

#[test]
fn what_could_not_be_removed_stays_charged() {
    let mut store = FileStore::with_cap("/cache".into(), 100, &Vec::new());
    let place = store.admission(30, "bb").unwrap();
    store.claim(&place, Ok(())).unwrap();
    let error = store.settle(&place, "x.txt", "disk".into(), Err("busy".into()));
    assert_eq!(
        error.message,
        "could not land /cache/bb/x.txt: disk; and could not remove it: busy (its bytes stay \
         charged against the store)"
    );
    assert_eq!(store.used, 30, "bytes that are still there still count");

    let place = store.admission(30, "cc").unwrap();
    let error = store.claim(&place, Err("denied".into())).unwrap_err();
    assert_eq!(
        error.message,
        "could not create the upload directory /cache/cc: denied"
    );
    assert_eq!(store.used, 30);
    let fresh = store.fresh_admission(1).expect("randomness").unwrap();
    assert_eq!(fresh.dir.len(), "/cache/".len() + 16);
    let refused = store.fresh_admission(u64::MAX);
    assert!(matches!(refused, Some(Err(e)) if e.code == "store-full"));
}

#[test]
fn a_files_name_is_taken_or_refused() {
    for name in ["a.txt", "A_b-c.9", ".hidden", "...", &"x".repeat(128)] {
        assert_eq!(validate_put_file_name(name), Ok(()), "{name}");
    }
    let refused = |name: &str, why: &str| {
        assert_eq!(
            says(&validate_put_file_name(name).unwrap_err()),
            ("invalid-param", format!("name {name:?} {why}").as_str())
        );
    };
    refused("", "must not be empty");
    refused(&"x".repeat(129), "is longer than 128 bytes");
    refused(&"é".repeat(65), "is longer than 128 bytes");
    refused(".", "is a directory reference, not a file name");
    refused("..", "is a directory reference, not a file name");
    refused("-rf", "must not start with '-'");
    refused("a/b", "must be a bare basename of [A-Za-z0-9._-]");
    refused("é", "must be a bare basename of [A-Za-z0-9._-]");
    refused(".part~", "must be a bare basename of [A-Za-z0-9._-]");
}

#[test]
fn a_session_takes_a_file_that_fits() {
    assert_eq!(session_put_file(true, "a.txt", 10, 10), Ok(()));
    assert_eq!(session_put_file(false, "a.txt", 10, 10).unwrap_err().code, "not-supported");
    assert_eq!(session_put_file(true, "a/b", 10, 10).unwrap_err().code, "invalid-param");
    assert_eq!(
        says(&session_put_file(true, "a.txt", 11, 10).unwrap_err()),
        ("too-large", "this file is over the 10 byte cap on one upload")
    );
}

fn tab(id: i64) -> WireTabRef {
    WireTabRef::Local(id)
}

fn host_tab(host: u32, tab: i64) -> WireTabRef {
    WireTabRef::Host { host, tab }
}

fn host_project(host: u32, project: i64) -> WireProjectRef {
    WireProjectRef::Host { host, project }
}

#[test]
fn a_new_order_of_tabs_names_one_instance() {
    let params = |project_id, tab_ids| TabReorderParams { project_id, tab_ids };
    let local = params(WireProjectRef::Local(3), vec![tab(1), tab(2)]);
    for is_session in [true, false] {
        let route = tab_reorder_route(is_session, false, &local).unwrap();
        assert_eq!(route.instance, ReorderInstance::Local);
        assert_eq!((route.project_id, route.tab_ids), (3, vec![1, 2]));
    }
    let host = params(host_project(9, 3), vec![host_tab(9, 1)]);
    let route = tab_reorder_route(false, true, &host).unwrap();
    assert_eq!((route.instance, route.tab_ids), (ReorderInstance::Host(9), vec![1]));
    assert_eq!(
        tab_reorder_route(false, false, &host).unwrap_err().message,
        "a host-qualified tab.reorder needs a UI: host connections are client state"
    );
    assert_eq!(
        tab_reorder_route(true, true, &host).unwrap_err().message,
        "host-qualified project refs are a UI-socket form; session project ids are bare"
    );
    for mixed in [
        params(WireProjectRef::Local(3), vec![tab(1), host_tab(9, 2)]),
        params(host_project(9, 3), vec![tab(1)]),
        params(host_project(9, 3), vec![host_tab(8, 1)]),
    ] {
        assert_eq!(
            tab_reorder_route(false, true, &mixed).unwrap_err(),
            mixed_refs("tab.reorder")
        );
    }
    let foreign = params(WireProjectRef::Local(3), vec![host_tab(9, 2)]);
    assert_eq!(
        tab_reorder_route(true, true, &foreign).unwrap_err(),
        bare_tab(host_tab(9, 2)).unwrap_err()
    );
}

#[test]
fn a_new_order_of_projects_names_one_instance() {
    let local = vec![WireProjectRef::Local(1), WireProjectRef::Local(2)];
    assert_eq!(project_reorder_route(false, false, &local).unwrap().project_ids, vec![1, 2]);
    assert_eq!(
        project_reorder_route(false, false, &Vec::new()).unwrap().instance,
        ReorderInstance::Local
    );
    let host = vec![host_project(9, 1), host_project(9, 2)];
    let route = project_reorder_route(false, true, &host).unwrap();
    assert_eq!((route.instance, route.project_ids), (ReorderInstance::Host(9), vec![1, 2]));
    assert!(project_reorder_route(false, false, &host).is_err());
    assert_eq!(
        project_reorder_route(true, true, &host).unwrap_err(),
        bare_project(host_project(9, 1)).unwrap_err()
    );
    let mixed = vec![WireProjectRef::Local(1), host_project(9, 2)];
    assert_eq!(
        project_reorder_route(false, true, &mixed).unwrap_err(),
        mixed_refs("project.reorder")
    );
}

fn nobody() -> Over {
    Over { closed: Vec::new(), ended: Vec::new() }
}

fn state() -> SessionState {
    SessionState { stopping: false, conns: Connections::default() }
}

#[test]
fn a_finished_relay_is_pruned_on_the_next_register() {
    let mut state = state();
    assert!(state.register_subscriber(1, &nobody()));
    let over = Over { closed: Vec::new(), ended: vec![1] };
    assert!(state.register_subscriber(2, &over));
    assert_eq!(state.conns.subscribers, Some(vec![2]));
}

#[test]
fn the_stop_sweep_aborts_live_relays_and_then_refuses() {
    let mut state = state();
    state.register_control(1, &nobody());
    state.register_subscriber(2, &nobody());
    state.register_data_conn(7, 3, &nobody()).unwrap();
    let steps = state.session_stop().unwrap();
    assert_eq!(
        steps,
        vec![
            StopStep::Close(vec![1, 3, 2]),
            StopStep::AbortRelays(vec![2]),
            StopStep::AwaitMutations,
            StopStep::FlushLayout,
            StopStep::ReapChildren,
            StopStep::Reply,
            StopStep::Finalize,
        ]
    );
    assert!(!state.register_subscriber(4, &nobody()));
    state.register_control(5, &nobody());
    assert_eq!(state.conns.controls, Vec::<u64>::new());
    assert_eq!(state.session_stop().unwrap_err().code, "shutting-down");
}

#[test]
fn a_subscribe_that_raced_the_stop_latch_is_refused() {
    let mut state = state();
    state.stopping = true;
    assert!(!state.register_subscriber(1, &nobody()));
    assert_eq!(state.register_data_conn(7, 1, &nobody()).unwrap_err().code, "shutting-down");
    assert_eq!(subscribed(false, 4).unwrap_err().code, "shutting-down");
    assert_eq!(subscribed(true, 4), Ok(4));
}

#[test]
fn a_subscriber_is_pruned_when_its_connection_ends() {
    let mut state = state();
    state.register_subscriber(1, &nobody());
    state.register_control(1, &nobody());
    state.register_control(2, &nobody());
    let over = Over { closed: vec![2], ended: Vec::new() };
    state.conns.forget_connection(1, &over);
    assert_eq!(state.conns.subscribers, Some(Vec::new()));
    assert_eq!(state.conns.controls, Vec::<u64>::new());
}

#[test]
fn data_connections_are_bounded_and_released() {
    let mut conns = Connections::default();
    for id in 0..32 {
        conns.register_data_conn(7, id, false, &nobody()).unwrap();
    }
    assert_eq!(
        says(&conns.register_data_conn(7, 99, false, &nobody()).unwrap_err()),
        (
            "too-many-attaches",
            "this session already serves 32 data connections; detach one before attaching again"
        )
    );
    let over = Over { closed: vec![5], ended: Vec::new() };
    conns.register_data_conn(7, 99, false, &over).unwrap();
    assert_eq!(conns.data_conn_count(), 32);
    conns.release_data_conn(7, 99);
    conns.release_data_conn(8, 1);
    assert_eq!(conns.data_conn_count(), 31);
    conns.register_data_conn(7, 1, false, &nobody()).unwrap();
    assert_eq!(conns.data_conn_count(), 31, "one id has one place per tab");
}

fn info() -> SessionInfo {
    SessionInfo {
        session_id: "s1".into(),
        started_at: "now".into(),
        app_version: "1".into(),
        payload_kinds: vec!["ghostty-snapshot".into(), "vt".into()],
        libghostty_build: "b1".into(),
        default_tab_size: (120, 40),
        test_mode: false,
    }
}

fn handshake() -> AttachHandshake {
    AttachHandshake {
        attach: "7".into(),
        session_id: "s1".into(),
        kinds: vec!["ghostty-snapshot".into(), "vt".into()],
        libghostty_build: "b1".into(),
        cols: 80,
        rows: 24,
        cell_w_px: 9,
        cell_h_px: 18,
        focus: true,
    }
}

#[test]
fn a_kind_is_settled_by_the_clients_preference() {
    let kinds = |list: &[&str]| list.iter().map(|k| k.to_string()).collect::<Vec<_>>();
    let both = kinds(&["ghostty-snapshot", "vt"]);
    assert_eq!(negotiate_kind(&info(), &both, "b1"), Ok("ghostty-snapshot".to_string()));
    assert_eq!(negotiate_kind(&info(), &both, "b2"), Ok("vt".to_string()));
    assert_eq!(
        negotiate_kind(&info(), &kinds(&["new", "vt"]), "b2"),
        Ok("vt".to_string())
    );
    assert_eq!(
        says(&negotiate_kind(&info(), &kinds(&["ghostty-snapshot"]), "b2").unwrap_err()),
        ("build-mismatch", "this session is \"b1\"; the client is \"b2\"")
    );
    assert_eq!(
        says(&negotiate_kind(&info(), &kinds(&["new"]), "b1").unwrap_err()),
        (
            "unsupported-kind",
            "this session serves [\"ghostty-snapshot\", \"vt\"]; the client offered [\"new\"]"
        )
    );
    let mut odd = info();
    odd.payload_kinds = kinds(&["odd"]);
    assert_eq!(
        says(&negotiate_kind(&odd, &kinds(&["odd"]), "b1").unwrap_err()),
        ("internal", "this session advertises \"odd\", which it cannot serve")
    );
}

#[test]
fn an_attach_is_decided_in_order() {
    let tabs = vec![(7, 3)];
    let mut state = state();
    let mut ask = |state: &mut SessionState, handshake: &AttachHandshake| {
        admit_attach(&info(), state, handshake, 1, &tabs, &nobody())
    };
    let admitted = ask(&mut state, &handshake()).unwrap();
    assert_eq!((admitted.tab_id, admitted.tab_generation), (7, 3));
    assert_eq!(admitted.kind, "ghostty-snapshot");
    assert!(admitted.resize_first);
    assert_eq!(admitted.geometry, Geometry { cols: 80, rows: 24, cell_w: 9, cell_h: 18 });
    assert_eq!(state.conns.data_conn_count(), 1);

    let mut other = handshake();
    other.session_id = "s2".into();
    other.attach = "x".into();
    assert_eq!(
        says(&ask(&mut state, &other).unwrap_err()),
        ("session-mismatch", "this session is \"s1\"; the client attached to \"s2\"")
    );
    let mut no_id = handshake();
    no_id.attach = "x".into();
    assert_eq!(
        says(&ask(&mut state, &no_id).unwrap_err()),
        ("invalid-param", "\"x\" is not a tab id")
    );
    let mut missing = handshake();
    missing.attach = "8".into();
    missing.cols = 0;
    assert_eq!(
        says(&ask(&mut state, &missing).unwrap_err()),
        ("not-found", "tab 8 has no live terminal to attach")
    );
    let mut flat = handshake();
    flat.rows = 0;
    assert_eq!(
        says(&ask(&mut state, &flat).unwrap_err()),
        ("invalid-param", "cols and rows must both be non-zero (got 80x0)")
    );
    assert_eq!(state.conns.data_conn_count(), 1, "a refused attach takes no place");
    state.stopping = true;
    assert_eq!(ask(&mut state, &no_id).unwrap_err().code, "shutting-down");
    assert!(attach_geometry(1, 1, 0, 0).is_ok());
    assert_eq!(no_attach_here().code, "not-supported");
}

#[test]
fn colors_are_written_and_read_back() {
    assert_eq!(rgb_hex((0x0a, 0xff, 0x07)), "#0aff07");
    for color in [(0, 0, 0), (255, 255, 255), (0x12, 0xab, 0xf0)] {
        assert_eq!(parse_rgb_hex(&rgb_hex(color)), Some(color));
    }
    assert_eq!(parse_rgb_hex("#ABCDEF"), Some((0xab, 0xcd, 0xef)));
    for wrong in ["", "#abc", "abcdef", "#abcdeg", "#abcdef0", "#+1+1+1", "#éabcd"] {
        assert_eq!(parse_rgb_hex(wrong), None, "{wrong}");
    }
}

#[test]
fn a_theme_is_taken_whole_or_not_at_all() {
    let theme = || OscColorsParams {
        foreground: "#010203".into(),
        background: "#040506".into(),
        cursor: "#070809".into(),
        palette: vec!["#0a0b0c".to_string(); 256],
    };
    let colors = decode_osc_colors(&theme()).unwrap();
    assert_eq!(colors.foreground, (1, 2, 3));
    assert_eq!(colors.palette[255], (10, 11, 12));
    let refused = |p: OscColorsParams, words: &str| {
        assert_eq!(says(&decode_osc_colors(&p).unwrap_err()), ("invalid-param", words));
    };
    let mut short = theme();
    short.palette.pop();
    refused(short, "osc_colors.palette must have exactly 256 entries (got 255)");
    let mut bad = theme();
    bad.palette[17] = "red".into();
    bad.foreground = "blue".into();
    refused(bad, "osc_colors.palette[17] is not a #rrggbb color (got \"red\")");
    let mut bad = theme();
    bad.cursor = "blue".into();
    refused(bad, "osc_colors.cursor is not a #rrggbb color (got \"blue\")");
}

#[test]
fn a_subscription_starts_where_it_may() {
    let params = |session: Option<&str>, from| EventsSubscribeParams {
        tab_id_filter: 0,
        session_id: session.map(str::to_string),
        from_revision: from,
    };
    assert_eq!(resume_cut("s1", &params(None, None)), Ok(CutRequest::Live));
    assert_eq!(resume_cut("s1", &params(Some("s1"), None)), Ok(CutRequest::Live));
    assert_eq!(events_subscribe("s1", &params(Some("s1"), Some(4))), Ok(CutRequest::From(4)));
    assert_eq!(
        resume_cut("s1", &params(Some("s2"), None)).unwrap_err().code,
        "session-mismatch"
    );
    assert_eq!(
        resume_cut("s1", &params(None, Some(4))).unwrap_err().code,
        "invalid-param"
    );
    let mut filtered = params(None, None);
    filtered.tab_id_filter = 9;
    assert!(events_subscribe("s1", &filtered)
        .unwrap_err()
        .message
        .starts_with("tab_id_filter is not implemented (got 9)"));
    let ahead = resume_err(9, ResumeError::Ahead { current: 4 });
    assert_eq!(ahead.code, "revision-ahead");
    assert!(ahead
        .message
        .starts_with("this session never produced revision 9 (current: 4)"));
    let expired = resume_err(1, ResumeError::Expired { oldest_resumable_from: 3, current: 9 });
    assert_eq!(
        says(&expired),
        (
            "replay-expired",
            "revision 1 is outside the replay window (oldest resumable: 3, current: 9); snapshot \
             with tab.list and subscribe afresh"
        )
    );
}
