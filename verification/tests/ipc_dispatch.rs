use roost_engine::facade::TabOpenParams;
use roost_engine::ipc::dispatch::{
    after_barrier, agent_hooks_support, answering, dispatch, dispatch_outcome, dispatch_routed,
    feed_chunks, focus_reply, forward_to_local_session, resolved_cells, rewrite_slot_project, rewrite_slot_request, rewrite_slot_tab,
    screenshot_frame_guard, selection_reply, spawn_err, spell,
    strip_ui_socket_fence, Answering, AppRequest, CheckedRequest, DeskRequest, Failure, HandlerFacts,
    LocalRoute, Outcome, Plan, RawRequest, Request, Spelling, TabQuery, TabRequest, UiRequest, WorkspaceCall,
    WorkspaceRequest,
};
use roost_engine::ipc::errors::{ClipboardOp, DumpError, HandlerError, HostOpFailure};
use roost_engine::ipc::ops::{LocalBackendMode, Op, OpClass};
use roost_engine::ipc::routes::{TabReorderParams, WireProjectRef, WireTabRef};
use roost_engine::ipc::{ResolvedCellData, ResolvedCellsData, SelectionData};
use roost_engine::pointer::{PointerAction, PointerButton};
use roost_engine::pty::PtyError;
use roost_engine::workspace::{ApplicationError, WorkspaceError, WorkspaceErrorKind};

fn ui() -> HandlerFacts {
    HandlerFacts {
        is_session: false,
        has_ui: true,
        server_vt: false,
        test_mode: false,
        default_size: (80, 24),
        home: Some("/home/u".into()),
        max_dump_scrollback: 1000,
    }
}

fn headless() -> HandlerFacts {
    HandlerFacts { has_ui: false, ..ui() }
}

fn session() -> HandlerFacts {
    HandlerFacts {
        is_session: true,
        has_ui: false,
        server_vt: true,
        default_size: (120, 40),
        ..ui()
    }
}

fn refused(facts: &HandlerFacts, request: Request) -> (String, String) {
    let HandlerError { code, message } = dispatch(facts, request).expect_err("a refusal");
    (code, message)
}

fn no(code: &str, message: &str) -> (String, String) {
    (code.to_string(), message.to_string())
}

fn open(cols: u32, rows: u32) -> Request {
    Request::Tab(TabRequest::TabOpen(TabOpenParams {
        project_id: 0,
        cwd: String::new(),
        cwd_from_tab: None,
        title: String::new(),
        argv: Vec::new(),
        cols,
        rows,
    }))
}

fn size_of(plan: Result<Plan, HandlerError>) -> Result<(u16, u16), HandlerError> {
    match plan {
        Ok(Plan::OpenTab { size, .. }) => size,
        other => panic!("not an open: {other:?}"),
    }
}

#[test]
fn a_tab_opens_in_the_size_it_asks_for() {
    assert_eq!(size_of(dispatch(&ui(), open(0, 0))), Ok((80, 24)));
    assert_eq!(size_of(dispatch(&session(), open(0, 50))), Ok((120, 50)));
    assert_eq!(
        size_of(dispatch(&ui(), open(70_000, 0))).unwrap_err().message,
        "cols out of u16 range"
    );
    assert_eq!(
        size_of(dispatch(&ui(), open(1, 70_000))).unwrap_err().message,
        "rows out of u16 range"
    );
    let resize = |cols| Request::Tab(TabRequest::TabResize { tab_id: 1, cols, rows: 24 });
    assert_eq!(
        dispatch(&ui(), resize(80)),
        Ok(Plan::Resize { tab_id: 1, cols: 80, rows: 24 })
    );
    assert_eq!(
        refused(&ui(), resize(65_536)),
        no("invalid-param", "cols out of u16 range")
    );
}

#[test]
fn a_session_reads_its_own_screens_and_a_ui_asks_the_app() {
    let dump = |tab| Request::Tab(TabRequest::TabDump { tab, scrollback: 5000 });
    assert_eq!(
        dispatch(&session(), dump(WireTabRef::Local(7))),
        Ok(Plan::Tab(TabQuery::Dump { tab_id: 7, scrollback: 1000 }))
    );
    let host = WireTabRef::Host { host: 9, tab: 7 };
    assert_eq!(
        refused(&session(), dump(host)),
        no(
            "invalid-param",
            "host-qualified tab refs are a UI-socket form; session tab ids are bare"
        )
    );
    assert_eq!(
        dispatch(&ui(), dump(host)),
        Ok(Plan::Ui(UiRequest::Dump { tab: host, scrollback: 1000 }, Spelling::Dump))
    );
    assert_eq!(
        refused(&headless(), dump(host)),
        no("internal", "no UI attached")
    );
    let resolved = Request::Tab(TabRequest::TabDumpResolved { tab: WireTabRef::Local(7) });
    assert_eq!(
        dispatch(&session(), resolved),
        Ok(Plan::Tab(TabQuery::DumpResolved { tab_id: 7 }))
    );
}

#[test]
fn injected_bytes_need_test_mode_and_come_in_chunks() {
    let feed = || Request::Tab(TabRequest::TabFeedPtyBytes { tab_id: 7, data: vec![1; 5000] });
    assert_eq!(refused(&session(), feed()).0, "not-enabled");
    let testing = HandlerFacts { test_mode: true, ..session() };
    match dispatch(&testing, feed()) {
        Ok(Plan::Tab(TabQuery::Feed { tab_id, chunks })) => {
            assert_eq!(tab_id, 7);
            let sizes: Vec<usize> = chunks.iter().map(Vec::len).collect();
            assert_eq!(sizes, vec![4096, 904]);
        }
        other => panic!("not a feed: {other:?}"),
    }
    assert!(feed_chunks(&Vec::new()).is_empty());
    assert_eq!(feed_chunks(&vec![0; 8192]).len(), 2);
    let capture = |tab| {
        Request::Tab(TabRequest::TabCapturePtyInput { tab, drain: true })
    };
    assert_eq!(refused(&session(), capture(WireTabRef::Local(7))).0, "not-enabled");
    let host = WireTabRef::Host { host: 9, tab: 7 };
    assert_eq!(refused(&session(), capture(host)).0, "invalid-param");
    assert_eq!(
        dispatch(&testing, capture(WireTabRef::Local(7))),
        Ok(Plan::Tab(TabQuery::Capture { tab_id: 7, drain: true }))
    );
}

#[test]
fn a_project_without_a_directory_is_at_home() {
    let create = |cwd: &str| {
        Request::Workspace(WorkspaceRequest::ProjectCreate { name: "p".into(), cwd: cwd.into() })
    };
    let made = |cwd: &str| {
        Ok(Plan::Workspace(WorkspaceCall::CreateProject { name: "p".into(), cwd: cwd.into() }))
    };
    assert_eq!(dispatch(&ui(), create("")), made("/home/u"));
    assert_eq!(dispatch(&ui(), create("/w")), made("/w"));
    let homeless = HandlerFacts { home: None, ..ui() };
    assert_eq!(dispatch(&homeless, create("")), made("/"));
    let ensure = Request::Workspace(WorkspaceRequest::ProjectEnsure { name: "p".into(), cwd: None });
    assert_eq!(
        dispatch(&ui(), ensure),
        Ok(Plan::Workspace(WorkspaceCall::EnsureProject { name: "p".into(), cwd: String::new() }))
    );
}

#[test]
fn the_workspace_answers_for_its_rows() {
    assert_eq!(
        dispatch(&session(), Request::Tab(TabRequest::TabList)),
        Ok(Plan::Workspace(WorkspaceCall::ListTabs { with_revision: true }))
    );
    assert_eq!(
        dispatch(&ui(), Request::Tab(TabRequest::TabList)),
        Ok(Plan::Workspace(WorkspaceCall::ListTabs { with_revision: false }))
    );
    let reorder = Request::Tab(TabRequest::TabReorder(TabReorderParams {
        project_id: WireProjectRef::Local(3),
        tab_ids: vec![WireTabRef::Local(2), WireTabRef::Local(1)],
    }));
    assert_eq!(
        dispatch(&ui(), reorder),
        Ok(Plan::Workspace(WorkspaceCall::ReorderTabs { project_id: 3, tab_ids: vec![2, 1] }))
    );
    let order = Request::Workspace(WorkspaceRequest::ProjectReorder {
        project_ids: vec![WireProjectRef::Host { host: 9, project: 4 }],
    });
    assert_eq!(
        dispatch(&ui(), order),
        Ok(Plan::Ui(
            UiRequest::HostProjectReorder { host: 9, project_ids: vec![4] },
            Spelling::AsIs
        ))
    );
    let report = |fault: Option<&str>| {
        Request::Tab(TabRequest::TabAgentReport {
            report: "{}".into(),
            fault: fault.map(str::to_string),
        })
    };
    assert_eq!(
        dispatch(&ui(), report(None)),
        Ok(Plan::Workspace(WorkspaceCall::ReportAgent { report: "{}".into() }))
    );
    assert_eq!(refused(&ui(), report(Some("empty"))), no("invalid-param", "empty"));
}

#[test]
fn a_tab_on_another_host_takes_an_app() {
    let host = WireTabRef::Host { host: 9, tab: 7 };
    let focus = |tab| Request::Tab(TabRequest::TabFocus { tab });
    assert_eq!(
        dispatch(&ui(), focus(host)),
        Ok(Plan::Ui(UiRequest::HostTabFocus { host: 9, tab_id: 7 }, Spelling::Workspace))
    );
    assert_eq!(
        refused(&headless(), focus(host)),
        no(
            "invalid-param",
            "a host-qualified tab.focus needs a UI: host selection is client state"
        )
    );
    assert_eq!(
        dispatch(&headless(), focus(WireTabRef::Local(7))),
        Ok(Plan::Workspace(WorkspaceCall::FocusTab { tab_id: 7 }))
    );
    let send = |parsed| {
        Request::Tab(TabRequest::TabSendFile {
            tab: "h9.7".into(),
            parsed,
            paths: vec!["/tmp/x".into()],
        })
    };
    assert_eq!(
        refused(&ui(), send(None)),
        no("invalid-param", "invalid tab reference: h9.7")
    );
    assert_eq!(
        refused(&headless(), send(Some(host))),
        no(
            "invalid-param",
            "tab.send_file needs a UI: reading the files and typing the paste are the app's"
        )
    );
    assert_eq!(
        dispatch(&ui(), send(Some(host))),
        Ok(Plan::Ui(
            UiRequest::TabSendFile { tab: host, paths: vec!["/tmp/x".into()] },
            Spelling::AsIs
        ))
    );
    assert_eq!(focus_reply(true, (3, 4)), (0, 0));
    assert_eq!(focus_reply(false, (3, 4)), (3, 4));
}

fn checked(request: CheckedRequest) -> Request {
    Request::Checked(request)
}

#[test]
fn parameters_are_looked_at_before_an_app_is_asked() {
    let shot = |scale| checked(CheckedRequest::Screenshot { scale });
    assert_eq!(
        dispatch(&ui(), shot(2)),
        Ok(Plan::Ui(UiRequest::Screenshot { scale: 2 }, Spelling::Internal))
    );
    assert_eq!(
        refused(&headless(), shot(3)),
        no("invalid-param", "scale must be 1 or 2, got 3")
    );
    let palette = |kind: &str| checked(CheckedRequest::PaletteOpen { kind: kind.into() });
    for kind in ["", "commands", "launcher", "custom", "agents"] {
        assert!(dispatch(&ui(), palette(kind)).is_ok(), "{kind}");
    }
    assert_eq!(
        refused(&ui(), palette("x")),
        no(
            "invalid-param",
            "unknown palette kind \"x\" (want \"commands\", \"launcher\", \"custom\", or \
             \"agents\")"
        )
    );
    assert_eq!(
        refused(
            &ui(),
            checked(CheckedRequest::PalettePresent {
                title: "t".into(),
                placeholder: "p".into(),
                items: Vec::new(),
            })
        ),
        no("invalid-param", "palette.present requires a non-empty items list")
    );
    let expand = |click_count| {
        checked(CheckedRequest::TabExpandSelectionAt { tab_id: 1, col: 2, row: 3, click_count })
    };
    assert_eq!(
        refused(&ui(), expand(1)),
        no("invalid-param", "click_count must be >= 2 (got 1)")
    );
    assert!(dispatch(&ui(), expand(2)).is_ok());
    let answer = |action: &str| checked(CheckedRequest::AppDialogAnswer { action: action.into() });
    for action in ["confirm", "cancel", "toggle:codex"] {
        assert!(dispatch(&ui(), answer(action)).is_ok(), "{action}");
    }
    assert_eq!(
        refused(&ui(), answer("toggle:")),
        no(
            "invalid-param",
            "action must be confirm, cancel or toggle:<agent> (got \"toggle:\")"
        )
    );
    let key = |action: &str| checked(CheckedRequest::AppKeybindDispatch { action: action.into() });
    assert!(dispatch(&ui(), key("paste")).is_ok());
    assert_eq!(
        refused(&ui(), key("copy")),
        no("invalid-param", "action must be \"paste\" (got \"copy\")")
    );
    let width = |positive| {
        checked(CheckedRequest::SidebarSetWidth { width: "-1".into(), positive })
    };
    assert!(dispatch(&ui(), width(true)).is_ok());
    assert_eq!(
        refused(&ui(), width(false)),
        no("invalid-param", "width must be positive and finite (got -1)")
    );
    assert_eq!(
        refused(
            &ui(),
            checked(CheckedRequest::WindowResize {
                width: "NaN".into(),
                height: "3".into(),
                positive: false,
            })
        ),
        no("invalid-param", "width and height must be positive and finite (got NaN x 3)")
    );
}

#[test]
fn an_input_methods_event_has_a_known_name_and_a_range() {
    let feed = |action: &str, start, end| {
        checked(CheckedRequest::TabFeedIme {
            tab_id: 1,
            action: action.into(),
            text: "t".into(),
            cursor_start: start,
            cursor_end: end,
        })
    };
    assert_eq!(
        dispatch(&ui(), feed("preedit", Some(1), Some(2))),
        Ok(Plan::Ui(
            UiRequest::TabFeedIme {
                tab_id: 1,
                action: "preedit".into(),
                text: "t".into(),
                cursor: Some((1, 2)),
            },
            Spelling::TestOp
        ))
    );
    assert!(dispatch(&ui(), feed("clear", None, None)).is_ok());
    assert_eq!(
        refused(&ui(), feed("type", None, None)),
        no(
            "invalid-param",
            "action must be one of preedit/commit/clear (got \"type\")"
        )
    );
    assert_eq!(
        refused(&ui(), feed("commit", Some(2), Some(1))),
        no("invalid-param", "cursor_start must be <= cursor_end (got 2..1)")
    );
    assert_eq!(
        refused(&ui(), feed("commit", Some(2), None)),
        no("invalid-param", "cursor_start and cursor_end must be given together")
    );
}

#[test]
fn a_mouse_event_has_a_kind_and_a_button() {
    let event = |kind: &str, button: &str| {
        checked(CheckedRequest::TabDispatchMouseEvent {
            tab_id: 1,
            kind: kind.into(),
            button: button.into(),
            cell_x: 2,
            cell_y: 3,
            mods: 4,
        })
    };
    let asked = |kind, button| {
        Ok(Plan::Ui(
            UiRequest::TabDispatchMouseEvent {
                tab_id: 1,
                kind,
                button,
                cell_x: 2,
                cell_y: 3,
                mods: 4,
            },
            Spelling::TestOp,
        ))
    };
    let buttons = [
        ("left", Some(PointerButton::Left)),
        ("right", Some(PointerButton::Right)),
        ("middle", Some(PointerButton::Middle)),
        ("wheel_up", Some(PointerButton::Four)),
        ("wheel_down", Some(PointerButton::Five)),
        ("none", None),
    ];
    for (name, button) in buttons {
        assert_eq!(
            dispatch(&ui(), event("press", name)),
            asked(PointerAction::Press, button)
        );
    }
    assert_eq!(
        dispatch(&ui(), event("release", "left")),
        asked(PointerAction::Release, Some(PointerButton::Left))
    );
    assert_eq!(
        dispatch(&ui(), event("motion", "none")),
        asked(PointerAction::Motion, None)
    );
    assert_eq!(
        refused(&ui(), event("drag", "x")),
        no("invalid-param", "kind must be one of press|release|motion (got drag)")
    );
    assert_eq!(
        refused(&ui(), event("press", "x")),
        no(
            "invalid-param",
            "button must be one of left|right|middle|wheel_up|wheel_down|none (got x)"
        )
    );
}

#[test]
fn a_clipboard_takes_text_or_a_picture() {
    let write = |target: &str, text: Option<&str>, image: Option<Vec<u8>>| {
        checked(CheckedRequest::ClipboardWrite {
            target: target.into(),
            text: text.map(str::to_string),
            image_png: image,
        })
    };
    assert_eq!(
        dispatch(&headless(), write("selection", Some("t"), None)),
        Ok(Plan::Notify(UiRequest::ClipboardWrite {
            target: ClipboardOp::Selection,
            text: "t".into(),
        }))
    );
    assert_eq!(
        dispatch(&ui(), write("system", None, Some(vec![1]))),
        Ok(Plan::Ui(UiRequest::ClipboardWriteImage { png: vec![1] }, Spelling::AsIs))
    );
    assert_eq!(
        refused(&ui(), write("system", Some("t"), Some(vec![1]))),
        no("invalid-param", "clipboard.write takes `text` or `image_png`, not both")
    );
    assert_eq!(
        refused(&ui(), write("selection", None, Some(vec![1]))),
        no("invalid-param", "clipboard.write `image_png` requires target \"system\"")
    );
    assert_eq!(
        refused(&ui(), write("system", None, None)),
        no("missing-param", "clipboard.write requires `text`")
    );
    assert_eq!(refused(&ui(), write("x", None, None)).0, "invalid-param");
    let dump = checked(CheckedRequest::ClipboardDump { target: "system".into() });
    assert_eq!(
        dispatch(&ui(), dump),
        Ok(Plan::Ui(
            UiRequest::ClipboardDump { target: ClipboardOp::System },
            Spelling::Internal
        ))
    );
}

#[test]
fn an_app_is_asked_and_its_failures_are_spelled() {
    assert_eq!(
        dispatch(&ui(), Request::App(AppRequest::WindowMetrics)),
        Ok(Plan::Ui(UiRequest::WindowMetrics, Spelling::Internal))
    );
    assert_eq!(
        dispatch(&ui(), Request::Desk(DeskRequest::AppDockBadge)),
        Ok(Plan::Ui(UiRequest::AppDockBadge, Spelling::TestOp))
    );
    assert_eq!(
        refused(&headless(), Request::App(AppRequest::PaletteState)),
        no("internal", "no UI attached")
    );
    assert_eq!(
        dispatch(&headless(), Request::AppActivate),
        Ok(Plan::Notify(UiRequest::Activate))
    );
    assert_eq!(
        refused(&ui(), Request::EventsSubscribe),
        no("not-implemented", "events.subscribe is not yet implemented")
    );
    assert_eq!(dispatch(&ui(), Request::Identify), Ok(Plan::Identify));
    let words = || Failure::Words("has no live terminal".into());
    assert_eq!(spell(Spelling::Internal, words()).code, "internal");
    assert_eq!(spell(Spelling::NotFound, words()).code, "not-found");
    assert_eq!(spell(Spelling::TestOp, words()).code, "not-found");
    let host = HostOpFailure::new("host-unavailable".into(), "gone".into());
    assert_eq!(spell(Spelling::AsIs, Failure::Host(host)).code, "host-unavailable");
    let workspace = WorkspaceError {
        kind: WorkspaceErrorKind::HostLabelReserved,
        message: "x".into(),
    };
    assert_eq!(spell(Spelling::Workspace, Failure::Workspace(workspace)).code, "invalid-param");
    assert_eq!(
        spell(Spelling::Dump, Failure::Dump(DumpError::Read("x".into()))).code,
        "internal"
    );
}

#[test]
fn hosts_are_kept_by_the_app_where_there_is_one() {
    let add = || {
        Request::Workspace(WorkspaceRequest::HostAdd { label: "l".into(), target: "t".into() })
    };
    assert_eq!(
        dispatch(&ui(), add()),
        Ok(Plan::Ui(
            UiRequest::HostAdd { label: "l".into(), target: "t".into() },
            Spelling::Workspace
        ))
    );
    assert_eq!(
        dispatch(&headless(), add()),
        Ok(Plan::Workspace(WorkspaceCall::AddHost { label: "l".into(), target: "t".into() }))
    );
    let remove = Request::Workspace(WorkspaceRequest::HostRemove { id: "h1".into() });
    assert_eq!(
        dispatch(&headless(), remove),
        Ok(Plan::Workspace(WorkspaceCall::RemoveHost { id: "h1".into() }))
    );
}

#[test]
fn a_shell_that_did_not_start_is_spelled() {
    assert_eq!(
        spawn_err(ApplicationError::Pty(PtyError::Cancelled(7))).code,
        "not-found"
    );
    let failed = spawn_err(ApplicationError::Operation("openpty failed".into()));
    assert_eq!(
        (failed.code.as_str(), failed.message.as_str()),
        ("internal", "pty spawn failed: openpty failed")
    );
}

#[test]
fn a_picture_fits_its_frame() {
    assert_eq!(screenshot_frame_guard(0), Ok(()));
    assert_eq!(screenshot_frame_guard(12_582_144), Ok(()));
    let error = screenshot_frame_guard(12_582_145).unwrap_err();
    assert_eq!(
        error.message,
        "screenshot too large: 16776196 base64 bytes exceeds the 16777216 byte IPC frame cap \
         (try --scale 1)"
    );
}

#[test]
fn cells_and_selections_on_the_wire() {
    let cell = ResolvedCellData {
        row: 1,
        col: 2,
        text: "x".into(),
        fg: (1, 2, 255),
        bg: (0, 0, 0),
        has_explicit_bg: true,
        bold: false,
        italic: true,
        inverse: false,
    };
    let cells = resolved_cells(ResolvedCellsData { cols: 3, rows: 2, cells: vec![cell] });
    assert_eq!((cells[0].fg.as_str(), cells[0].bg.as_str()), ("#0102ff", "#000000"));
    assert!(cells[0].italic && cells[0].has_explicit_bg);
    let none = selection_reply(None);
    assert_eq!(none, SelectionData { text: None, anchor_visible: false, cursor_visible: false });
    let some = || SelectionData {
        text: Some("t".into()),
        anchor_visible: true,
        cursor_visible: false,
    };
    assert_eq!(selection_reply(Some(some())), some());
}

#[test]
fn a_forwarded_tab_list_loses_the_sessions_fence() {
    assert!(strip_ui_socket_fence(Op::TabList));
    assert!(!strip_ui_socket_fence(Op::TabDump));
}

#[test]
fn a_reference_that_names_a_host_needs_no_slot() {
    let bare = WireTabRef::Local(7);
    let host = WireTabRef::Host { host: 3, tab: 7 };
    assert_eq!(
        rewrite_slot_tab(bare, Some(9)),
        Some(WireTabRef::Host { host: 9, tab: 7 })
    );
    assert_eq!(rewrite_slot_tab(bare, None), None);
    assert_eq!(rewrite_slot_tab(host, Some(9)), Some(host));
    assert_eq!(rewrite_slot_tab(host, None), Some(host));
    assert_eq!(answering(LocalBackendMode::Session, OpClass::Forward), Answering::Forwarded);
    assert_eq!(answering(LocalBackendMode::Session, OpClass::Rewrite), Answering::Rewritten);
    assert_eq!(answering(LocalBackendMode::InProcess, OpClass::Forward), Answering::Here);
    assert_eq!(answering(LocalBackendMode::Session, OpClass::Local), Answering::Here);
}

#[test]
fn a_session_answers_for_itself_and_stops_changing() {
    assert_eq!(dispatch_outcome(false, true, Op::TabOpen), Outcome::Dispatch);
    for op in [
        Op::SessionIdentify,
        Op::SessionStop,
        Op::SessionSetTheme,
        Op::SessionSetAgentHooks,
        Op::SessionPutFile,
    ] {
        match dispatch_outcome(false, false, op) {
            Outcome::Refuse(error) => {
                assert_eq!(error.code, "unknown-op");
                assert_eq!(error.message, format!("unknown op: {}", op.name()));
            }
            other => panic!("not a refusal: {other:?}"),
        }
    }
    assert_eq!(dispatch_outcome(true, true, Op::SessionIdentify), Outcome::Identify);
    assert_eq!(dispatch_outcome(true, false, Op::SessionStop), Outcome::Stop);
    assert_eq!(dispatch_outcome(true, false, Op::EventsSubscribe), Outcome::Subscribe);
    assert_eq!(dispatch_outcome(true, true, Op::TabList), Outcome::Dispatch);
    assert_eq!(dispatch_outcome(true, false, Op::TabOpen), Outcome::AwaitBarrier);
    let code = |outcome| match outcome {
        Outcome::Refuse(error) => error.code,
        other => panic!("not a refusal: {other:?}"),
    };
    assert_eq!(code(dispatch_outcome(true, true, Op::TabOpen)), "shutting-down");
    assert_eq!(code(dispatch_outcome(true, false, Op::HostAdd)), "unknown-op");
    assert_eq!(code(dispatch_outcome(true, false, Op::AgentSetHooks)), "unknown-op");
    assert_eq!(code(after_barrier(true, Op::TabOpen)), "shutting-down");
    assert_eq!(after_barrier(false, Op::TabOpen), Outcome::Dispatch);
    assert_eq!(after_barrier(false, Op::SessionSetTheme), Outcome::SetTheme);
    assert_eq!(after_barrier(false, Op::SessionSetAgentHooks), Outcome::SetAgentHooks);
    assert_eq!(after_barrier(false, Op::SessionPutFile), Outcome::PutFile);
    assert_eq!(agent_hooks_support(true), Ok(()));
    assert_eq!(agent_hooks_support(false).unwrap_err().code, "not-supported");
}

fn routed_to(slot_host: Option<u32>) -> LocalRoute {
    LocalRoute { mode: LocalBackendMode::Session, slot_host, slot_active: None, switch: None }
}

fn raw(op: Op, params: &str, request: Request) -> RawRequest {
    RawRequest { op, params: params.to_string(), bare: false, decoded: Ok(request) }
}

fn away() -> HandlerError {
    HandlerError::new("away", "the session is away".to_string())
}

fn route(
    facts: &HandlerFacts,
    route: &LocalRoute,
    class: OpClass,
    raw: RawRequest,
) -> Result<Plan, HandlerError> {
    dispatch_routed(facts, route, class, raw, away())
}

fn create(name: &str) -> RawRequest {
    raw(
        Op::ProjectCreate,
        "{\"name\":\"ghost\",\"cwd\":\"/tmp\"}",
        Request::Workspace(WorkspaceRequest::ProjectCreate {
            name: name.to_string(),
            cwd: "/tmp".to_string(),
        }),
    )
}

fn dump(tab: WireTabRef) -> RawRequest {
    raw(
        Op::TabDump,
        "{}",
        Request::Tab(TabRequest::TabDump { tab, scrollback: 0 }),
    )
}

fn host_reorder() -> RawRequest {
    raw(
        Op::TabReorder,
        "{\"project_id\":\"h9.1\",\"tab_ids\":[\"h9.7\"]}",
        Request::Tab(TabRequest::TabReorder(TabReorderParams {
            project_id: WireProjectRef::Host { host: 9, project: 1 },
            tab_ids: vec![WireTabRef::Host { host: 9, tab: 7 }],
        })),
    )
}

#[test]
fn a_bare_tab_open_under_session_never_touches_the_local_workspace() {
    let asked = || raw(Op::TabOpen, "{\"project_id\":\"0\"}", open(0, 0));
    let error = route(&headless(), &routed_to(Some(2)), OpClass::Forward, asked())
        .expect_err("there is no UI to forward to");
    assert_eq!((error.code.as_str(), error.message.as_str()), ("internal", "no UI attached"));
    assert_eq!(
        route(&ui(), &routed_to(Some(2)), OpClass::Forward, asked()),
        Ok(Plan::Ui(
            UiRequest::LocalSessionForward {
                op: Op::TabOpen,
                params: "{\"project_id\":\"0\"}".to_string(),
            },
            Spelling::AsIs
        ))
    );
}

#[test]
fn a_bare_project_create_under_session_never_touches_the_local_workspace() {
    let error = route(&headless(), &routed_to(Some(2)), OpClass::Forward, create("ghost"))
        .expect_err("there is no UI to forward to");
    assert_eq!(error.code, "internal");
    assert_eq!(error.message, "no UI attached");
}

#[test]
fn the_same_request_under_in_process_is_answered_locally() {
    let plan = route(&headless(), &LocalRoute::default(), OpClass::Forward, create("ghost"));
    assert_eq!(
        plan,
        Ok(Plan::Workspace(WorkspaceCall::CreateProject {
            name: "ghost".to_string(),
            cwd: "/tmp".to_string()
        }))
    );
}

#[test]
fn a_bare_project_ensure_under_session_never_touches_the_local_workspace() {
    for name in ["p", "ghost"] {
        let asked = raw(
            Op::ProjectEnsure,
            "{}",
            Request::Workspace(WorkspaceRequest::ProjectEnsure {
                name: name.to_string(),
                cwd: Some("/tmp".to_string()),
            }),
        );
        let error = route(&headless(), &routed_to(Some(2)), OpClass::Forward, asked)
            .expect_err("there is no UI to forward to");
        assert_eq!(error.code, "internal", "{name}: {error:?}");
    }
}

#[test]
fn what_belongs_to_the_session_leaves_unread() {
    let unread = || RawRequest {
        op: Op::TabSetTitle,
        params: "{\"odd\":1}".to_string(),
        bare: false,
        decoded: Err(HandlerError::new("unknown-field", "odd".to_string())),
    };
    assert_eq!(
        route(&ui(), &routed_to(None), OpClass::Forward, unread()),
        forward_to_local_session(&ui(), Op::TabSetTitle, "{\"odd\":1}".to_string())
    );
    for class in [OpClass::Rewrite, OpClass::Local, OpClass::Unsupported] {
        let error = route(&ui(), &routed_to(Some(2)), class, unread()).unwrap_err();
        assert_eq!(error.code, "unknown-field");
    }
}

#[test]
fn a_host_qualified_op_is_not_re_addressed_to_the_slot() {
    let error = route(&headless(), &routed_to(Some(2)), OpClass::Rewrite, host_reorder())
        .expect_err("no UI to route a host-qualified reorder through");
    assert_eq!(error.code, "invalid-param", "{error:?}");
    assert!(error.message.contains("host-qualified tab.reorder"), "{error:?}");
    assert_eq!(
        route(&ui(), &routed_to(Some(2)), OpClass::Rewrite, host_reorder()),
        Ok(Plan::Ui(
            UiRequest::HostTabReorder { host: 9, project_id: 1, tab_ids: vec![7] },
            Spelling::AsIs
        ))
    );
}

#[test]
fn a_rewrite_op_with_no_connected_slot_says_so() {
    let error = route(&headless(), &routed_to(None), OpClass::Rewrite, dump(WireTabRef::Local(7)))
        .expect_err("no slot");
    assert_eq!(error, away());
}

#[test]
fn a_host_qualified_op_does_not_need_a_connected_slot() {
    let nowhere = routed_to(None);
    let bare = route(&headless(), &nowhere, OpClass::Rewrite, dump(WireTabRef::Local(7)))
        .expect_err("a bare id names a slot that is not there");
    assert_eq!(bare, away());
    let named = WireTabRef::Host { host: 9, tab: 7 };
    let qualified = route(&headless(), &nowhere, OpClass::Rewrite, dump(named))
        .expect_err("there is no UI to read host 9's terminal");
    assert_eq!(qualified.code, "internal", "{qualified:?}");
    let reorder =
        route(&headless(), &nowhere, OpClass::Rewrite, host_reorder()).expect_err("no UI");
    assert_eq!(reorder.code, "invalid-param", "{reorder:?}");
    assert!(reorder.message.contains("host-qualified tab.reorder"));
    let send = raw(
        Op::TabSendFile,
        "{\"tab\":\"h9.7\",\"paths\":[\"/tmp/x\"]}",
        Request::Tab(TabRequest::TabSendFile {
            tab: "h9.7".to_string(),
            parsed: Some(named),
            paths: vec!["/tmp/x".to_string()],
        }),
    );
    let send_file = route(&headless(), &nowhere, OpClass::Rewrite, send).expect_err("no UI");
    assert_ne!(send_file, away());
}

#[test]
fn a_bare_reference_is_seen_before_the_rest_is_read() {
    let unread = |bare| RawRequest {
        op: Op::TabDump,
        params: "{\"tab_id\":\"7\",\"odd\":1}".to_string(),
        bare,
        decoded: Err(HandlerError::new("unknown-field", "odd".to_string())),
    };
    let asked = |bare, slot| route(&ui(), &routed_to(slot), OpClass::Rewrite, unread(bare));
    assert_eq!(asked(true, None), Err(away()));
    assert_eq!(asked(true, Some(2)).unwrap_err().code, "unknown-field");
    assert_eq!(asked(false, None).unwrap_err().code, "unknown-field");
    let here = route(&ui(), &LocalRoute::default(), OpClass::Rewrite, unread(true));
    assert_eq!(here.unwrap_err().code, "unknown-field");
}

#[test]
fn a_whole_request_is_taken_for_the_sessions() {
    let bare = WireTabRef::Local(7);
    let ours = WireTabRef::Host { host: 2, tab: 7 };
    let other = WireTabRef::Host { host: 9, tab: 4 };
    let rewritten = |request, slot| rewrite_slot_request(request, slot, away());
    let focus = |tab| Request::Tab(TabRequest::TabFocus { tab });
    assert_eq!(rewritten(focus(bare), Some(2)), Ok(focus(ours)));
    assert_eq!(rewritten(focus(other), None), Ok(focus(other)));
    let reorder = |project_id, tab_ids| {
        Request::Tab(TabRequest::TabReorder(TabReorderParams { project_id, tab_ids }))
    };
    let project = WireProjectRef::Host { host: 2, project: 3 };
    assert_eq!(
        rewritten(reorder(WireProjectRef::Local(3), vec![bare, other]), Some(2)),
        Ok(reorder(project, vec![ours, other]))
    );
    assert_eq!(rewritten(reorder(project, vec![other, bare]), None), Err(away()));
    assert_eq!(rewritten(reorder(WireProjectRef::Local(3), vec![other]), None), Err(away()));
    let projects =
        |project_ids| Request::Workspace(WorkspaceRequest::ProjectReorder { project_ids });
    assert_eq!(
        rewritten(projects(vec![WireProjectRef::Local(3), project]), Some(2)),
        Ok(projects(vec![project, project]))
    );
    assert_eq!(rewritten(projects(vec![WireProjectRef::Local(3)]), None), Err(away()));
    let capture = |tab| Request::Tab(TabRequest::TabCapturePtyInput { tab, drain: true });
    assert_eq!(rewritten(capture(bare), Some(2)), Ok(capture(ours)));
    let resolved = |tab| Request::Tab(TabRequest::TabDumpResolved { tab });
    assert_eq!(rewritten(resolved(bare), None), Err(away()));
    assert_eq!(rewritten(Request::Identify, None), Ok(Request::Identify));
    assert_eq!(rewrite_slot_project(WireProjectRef::Local(3), Some(2)), Some(project));
    assert_eq!(rewrite_slot_project(WireProjectRef::Local(3), None), None);
    let slot = route(&ui(), &routed_to(Some(2)), OpClass::Rewrite, dump(bare));
    assert_eq!(
        slot,
        Ok(Plan::Ui(UiRequest::Dump { tab: ours, scrollback: 0 }, Spelling::Dump))
    );
}
