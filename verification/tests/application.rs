use roost_engine::application::{
    adopt_project, apply_osc, close_tab, inherited_cwd, parse_notification_payload, parse_osc7_path,
    pty_dim, pty_dims, resolve_open_target, spawn_for_row, tab_closed, usable_cwd, usable_cwd_or,
    Candidate, CloseStep, DefaultProject, OscRequest, RowAction, RowEvent,
};
use roost_engine::facade::TabOpenParams;
use roost_engine::pty::{CloseOutcome, PtyError};
use roost_engine::workspace::{ApplicationError, Tab, WorkspaceError, WorkspaceErrorKind};

#[test]
fn osc7_strips_host_prefix() {
    assert_eq!(
        parse_osc7_path("file://host/Users/me"),
        Some("/Users/me".into())
    );
}

#[test]
fn osc7_handles_empty_host() {
    assert_eq!(parse_osc7_path("file:///tmp"), Some("/tmp".into()));
}

#[test]
fn osc7_returns_none_for_host_without_path() {
    // `file://host` has no path after the host, and the host is none.
    assert_eq!(parse_osc7_path("file://host"), None);
}

#[test]
fn osc777_splits_title_and_body() {
    assert_eq!(
        parse_notification_payload(777, "notify;Build;Passed"),
        ("Build".into(), "Passed".into())
    );
}

#[test]
fn osc9_uses_payload_as_title() {
    assert_eq!(
        parse_notification_payload(9, "Hello"),
        ("Hello".into(), String::new())
    );
}

fn dir(path: &str) -> Candidate {
    Candidate { path: path.to_string(), is_dir: true }
}

fn gone(path: &str) -> Candidate {
    Candidate { path: path.to_string(), is_dir: false }
}

#[test]
fn inherited_cwd_prefers_the_childs_own_cwd_to_the_tracked_one() {
    assert_eq!(
        inherited_cwd(Some(dir("/w/old")), Some(dir("/w/new"))),
        Some("/w/new".to_string())
    );
}

#[test]
fn inherited_cwd_falls_back_to_the_tracked_cwd_without_a_child() {
    assert_eq!(inherited_cwd(Some(dir("/w/old")), None), Some("/w/old".to_string()));
}

#[test]
fn inherited_cwd_skips_a_native_cwd_that_is_no_longer_a_directory() {
    assert_eq!(
        inherited_cwd(Some(dir("/w/old")), Some(gone("/w/new (deleted)"))),
        Some("/w/old".to_string())
    );
}

#[test]
fn inherited_cwd_is_none_when_the_tracked_cwd_is_not_a_directory() {
    assert_eq!(inherited_cwd(Some(gone("/w/old")), None), None);
}

#[test]
fn inherited_cwd_is_none_for_an_unknown_tab() {
    assert_eq!(inherited_cwd(None, None), None);
}

#[test]
fn inherited_cwd_is_none_for_a_session_without_a_row() {
    assert_eq!(inherited_cwd(None, Some(dir("/w/new"))), None);
}

#[test]
fn usable_cwd_is_the_requested_directory_else_the_projects_else_home() {
    let home = "/home-as-given";
    assert_eq!(usable_cwd_or(&dir("/requested"), &dir("/project"), home), "/requested");
    for not_a_directory in ["/gone", "/file", ""] {
        assert_eq!(usable_cwd_or(&gone(not_a_directory), &dir("/project"), home), "/project");
        assert_eq!(usable_cwd_or(&gone(not_a_directory), &gone("/gone"), home), home);
    }
    assert_eq!(usable_cwd(&gone("/gone"), &gone("/gone"), Some("/home/u")), "/home/u");
    assert_eq!(usable_cwd(&gone("/gone"), &gone("/gone"), Some("relative")), "/");
}

fn open(project_id: i64, cwd: &str, cwd_from_tab: Option<i64>) -> TabOpenParams {
    TabOpenParams {
        project_id,
        cwd: cwd.to_string(),
        cwd_from_tab,
        title: "t".to_string(),
        argv: vec!["sh".to_string()],
        cols: 80,
        rows: 24,
    }
}

#[test]
fn resolve_open_target_drops_a_cwd_that_is_not_a_directory() {
    for cwd_from_tab in [None, Some(7)] {
        let mut params = open(3, "/gone", cwd_from_tab);
        assert_eq!(resolve_open_target(&mut params, false, None, true), None);
        assert_eq!(params, open(3, "", cwd_from_tab), "{cwd_from_tab:?}");
    }
    let mut params = open(3, "/kept", None);
    assert_eq!(resolve_open_target(&mut params, true, None, true), None);
    assert_eq!(params.cwd, "/kept", "a directory is kept");

    let mut params = open(0, "/gone", None);
    assert_eq!(
        resolve_open_target(&mut params, false, None, true),
        Some(DefaultProject { cwd: String::new(), activate: true }),
        "the default project is not created there"
    );
    adopt_project(&mut params, 5);
    assert_eq!(params, open(5, "", None));
    adopt_project(&mut params, 6);
    assert_eq!(params.project_id, 5, "a project that is named stays");
}

#[test]
fn an_inherited_directory_takes_the_place_of_the_one_asked_for() {
    let mut params = open(0, "/kept", Some(7));
    assert_eq!(
        resolve_open_target(&mut params, true, Some(dir("/from/tab")), false),
        Some(DefaultProject { cwd: "/from/tab".to_string(), activate: false })
    );
    assert_eq!(params, open(0, "/from/tab", Some(7)));
    let mut params = open(3, "/kept", Some(7));
    resolve_open_target(&mut params, true, Some(gone("/from/tab")), true);
    assert_eq!(params.cwd, "");
    let mut params = open(3, "/kept", None);
    resolve_open_target(&mut params, true, Some(dir("/from/tab")), true);
    assert_eq!(params.cwd, "/kept", "no tab was named");
}

fn tab(cwd: &str) -> Tab {
    Tab { id: 7, project_id: 3, title: "t".to_string(), cwd: cwd.to_string() }
}

fn missing() -> WorkspaceError {
    WorkspaceError { kind: WorkspaceErrorKind::TabNotFound, message: "tab 7 not found".to_string() }
}

#[test]
fn spawn_for_row_records_where_the_shell_really_started() {
    let (spawn, action) = spawn_for_row(tab("/gone"), false, &dir("/project"), None);
    assert_eq!(action, RowAction::Move { tab_id: 7, cwd: "/project".to_string() });
    let (spawn, action) = spawn.step(RowEvent::Row(Ok(tab("/project"))));
    assert_eq!(action, RowAction::Spawn { tab_id: 7, cwd: "/project".to_string() });
    assert_eq!(spawn.tab.cwd, "/project", "the caller's copy");
    let (spawn, action) = spawn.step(RowEvent::Spawned(Ok(())));
    assert_eq!(action, RowAction::ReadRow { tab_id: 7 });
    let (spawn, action) = spawn.step(RowEvent::Row(Ok(tab("/project"))));
    assert_eq!(action, RowAction::Finish(Ok(())));
    assert_eq!(spawn.tab.cwd, "/project");
}

#[test]
fn a_row_that_goes_away_cancels_its_spawn() {
    let cancelled = RowAction::Finish(Err(ApplicationError::Pty(PtyError::Cancelled(7))));
    let (spawn, _) = spawn_for_row(tab("/gone"), false, &dir("/project"), None);
    assert_eq!(spawn.step(RowEvent::Row(Err(missing()))).1, cancelled);

    let (spawn, action) = spawn_for_row(tab("/w"), true, &dir("/project"), None);
    assert_eq!(action, RowAction::Spawn { tab_id: 7, cwd: "/w".to_string() });
    let (spawn, _) = spawn.step(RowEvent::Spawned(Ok(())));
    let (spawn, action) = spawn.step(RowEvent::Row(Err(missing())));
    assert_eq!(action, RowAction::CloseSession { tab_id: 7 });
    assert_eq!(spawn.step(RowEvent::Done).1, cancelled);
}

#[test]
fn a_spawn_that_fails_closes_its_row() {
    let failure = || ApplicationError::Operation("openpty failed".to_string());
    let (spawn, _) = spawn_for_row(tab("/w"), true, &dir("/project"), None);
    let (spawn, action) = spawn.step(RowEvent::Spawned(Err(failure())));
    assert_eq!(action, RowAction::CloseRow { tab_id: 7 });
    assert_eq!(spawn.step(RowEvent::Done).1, RowAction::Finish(Err(failure())));

    let (spawn, _) = spawn_for_row(tab("/gone"), false, &dir("/project"), None);
    let io = || WorkspaceError { kind: WorkspaceErrorKind::Io, message: "disk".to_string() };
    assert_eq!(
        spawn.step(RowEvent::Row(Err(io()))).1,
        RowAction::Finish(Err(ApplicationError::Workspace(io())))
    );
}

#[test]
fn the_row_leaves_before_the_session() {
    assert_eq!(
        close_tab(7),
        vec![CloseStep::RemoveRow { tab_id: 7 }, CloseStep::CloseSession { tab_id: 7 }]
    );
    let live = || CloseOutcome { session: Some(1), was_pending: false };
    let none = || CloseOutcome { session: None, was_pending: false };
    assert_eq!(tab_closed(Ok(()), live()), Ok(()));
    assert_eq!(tab_closed(Ok(()), none()), Ok(()));
    assert_eq!(tab_closed(Err(missing()), live()), Err(missing()));
    assert_eq!(tab_closed(Err(missing()), none()), Err(missing()));
}

#[test]
fn control_sequences_go_where_they_belong() {
    assert_eq!(apply_osc(2, "vim"), OscRequest::Title("vim".to_string()));
    assert_eq!(apply_osc(7, "file://h/w"), OscRequest::Cwd("/w".to_string()));
    assert_eq!(apply_osc(7, "/w"), OscRequest::Ignored);
    assert_eq!(
        apply_osc(99, "Done"),
        OscRequest::Attention { title: "Done".to_string(), body: String::new() }
    );
    assert_eq!(apply_osc(133, "C"), OscRequest::ShellMark("C".to_string()));
    assert_eq!(apply_osc(8, "x"), OscRequest::Ignored);
    assert_eq!(
        parse_notification_payload(777, "Build"),
        ("Build".to_string(), String::new())
    );
    assert_eq!(
        parse_notification_payload(777, "notify;a;b;c"),
        ("a".to_string(), "b;c".to_string())
    );
}

#[test]
fn dimensions_are_filled_in_or_refused() {
    assert_eq!(pty_dim(0, 80, "cols"), Ok(80));
    assert_eq!(pty_dim(65535, 80, "cols"), Ok(65535));
    assert_eq!(
        pty_dim(100_000, 80, "cols"),
        Err("cols out of u16 range: 100000".to_string())
    );
    assert_eq!(pty_dims(0, 0), Ok((80, 24)));
    assert_eq!(
        pty_dims(70_000, 80_000),
        Err(ApplicationError::Operation("cols out of u16 range: 70000".to_string()))
    );
    assert_eq!(
        pty_dims(1, 80_000),
        Err(ApplicationError::Operation("rows out of u16 range: 80000".to_string()))
    );
}

#[test]
fn an_error_with_a_type_keeps_it_under_a_context() {
    let named = ApplicationError::Operation("io".to_string()).context("pty spawn failed");
    assert_eq!(named, ApplicationError::Operation("pty spawn failed".to_string()));
    let typed = ApplicationError::Pty(PtyError::Closed(1)).context("pty resize failed");
    assert_eq!(typed, ApplicationError::Pty(PtyError::Closed(1)));
}
