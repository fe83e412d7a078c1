use roost_engine::facade::TabOpenParams;
use roost_engine::ipc::carry::{begin, carry_on, Begun, Carried, CarryStep, Errand, News, Pending};
use roost_engine::ipc::dispatch::{Plan, WorkspaceCall};
use roost_engine::ipc::errors::HandlerError;
use roost_engine::pty::{CloseOutcome, PtyError};
use roost_engine::workspace::{ApplicationError, Tab, WorkspaceError, WorkspaceErrorKind};

fn taken_up(plan: Plan) -> (Errand, Pending) {
    match begin(plan) {
        Begun::Steps(step) => doing(step),
        other => panic!("a single thing: {other:?}"),
    }
}

fn doing(step: CarryStep) -> (Errand, Pending) {
    match step {
        CarryStep::Do(errand, pending) => (errand, pending),
        other => panic!("over: {other:?}"),
    }
}

fn result(step: CarryStep) -> Result<Carried, HandlerError> {
    match step {
        CarryStep::Finish(result) => result,
        other => panic!("not over: {other:?}"),
    }
}

fn missing() -> WorkspaceError {
    WorkspaceError {
        kind: WorkspaceErrorKind::TabNotFound,
        message: "tab 7 not found".to_string(),
    }
}

fn tab() -> Tab {
    Tab { id: 7, project_id: 3, title: "t".to_string(), cwd: "/w".to_string() }
}

fn params(project_id: i64, cwd: &str) -> TabOpenParams {
    TabOpenParams {
        project_id,
        cwd: cwd.to_string(),
        cwd_from_tab: None,
        title: "t".to_string(),
        argv: vec!["sh".to_string()],
        cols: 0,
        rows: 0,
    }
}

#[test]
fn a_tab_is_closed_row_first_and_answers_for_the_row() {
    for removed in [Ok(()), Err(missing())] {
        let failed = removed.is_err();
        let (errand, pending) = taken_up(Plan::Workspace(WorkspaceCall::CloseTab { tab_id: 7 }));
        assert_eq!(errand, Errand::RemoveRow { tab_id: 7 });
        let (errand, pending) = doing(carry_on(pending, News::Row(removed)));
        assert_eq!(errand, Errand::CloseSession { tab_id: 7 });
        let none = CloseOutcome { session: None, was_pending: false };
        let answer = result(carry_on(pending, News::Session(none)));
        if failed {
            let error = answer.unwrap_err();
            assert_eq!((error.code.as_str(), error.message.as_str()), ("not-found", "tab 7 not found"));
        } else {
            assert_eq!(answer, Ok(Carried::Done));
        }
    }
}

#[test]
fn a_projects_sessions_go_once_it_is_gone() {
    let delete = || taken_up(Plan::Workspace(WorkspaceCall::DeleteProject { project_id: 3 }));
    let (errand, pending) = delete();
    assert_eq!(errand, Errand::DeleteProject { project_id: 3 });
    let (errand, pending) = doing(carry_on(pending, News::Deleted(Ok(vec![7, 8]))));
    assert_eq!(errand, Errand::CloseSessions { tab_ids: vec![7, 8] });
    assert_eq!(result(carry_on(pending, News::SessionsClosed)), Ok(Carried::Done));
    let (_, pending) = delete();
    let refused = result(carry_on(pending, News::Deleted(Err(missing()))));
    assert_eq!(refused.unwrap_err().code, "not-found");
}

#[test]
fn a_size_that_is_none_is_refused_once_the_row_is_there() {
    let narrow = || HandlerError::invalid_param("cols out of u16 range".to_string());
    let (errand, pending) =
        taken_up(Plan::OpenTab { params: params(0, "/gone"), size: Err(narrow()) });
    assert_eq!(errand, Errand::Settle { params: params(0, "/gone") });
    let (errand, pending) = doing(carry_on(pending, News::Settled(params(3, ""))));
    assert_eq!(
        errand,
        Errand::OpenRow { project_id: 3, cwd: String::new(), title: "t".to_string() }
    );
    assert_eq!(result(carry_on(pending, News::Opened(Ok(tab())))), Err(narrow()));
}

#[test]
fn a_shell_is_started_for_a_row_that_is_there() {
    let opening = || {
        let (_, pending) =
            taken_up(Plan::OpenTab { params: params(3, "/w"), size: Ok((120, 40)) });
        doing(carry_on(pending, News::Settled(params(3, "/w")))).1
    };
    let error = result(carry_on(opening(), News::Opened(Err(missing())))).unwrap_err();
    assert_eq!(error.code, "not-found");
    let starting = || doing(carry_on(opening(), News::Opened(Ok(tab()))));
    let (errand, pending) = starting();
    assert_eq!(
        errand,
        Errand::StartShell { tab: tab(), argv: vec!["sh".to_string()], cols: 120, rows: 40 }
    );
    assert_eq!(
        result(carry_on(pending, News::Started(Ok(tab())))),
        Ok(Carried::Tab(tab()))
    );
    let cancelled = ApplicationError::Pty(PtyError::Cancelled(7));
    let error = result(carry_on(starting().1, News::Started(Err(cancelled)))).unwrap_err();
    assert_eq!(error.code, "not-found");
    let broken = ApplicationError::Operation("openpty failed".to_string());
    let error = result(carry_on(starting().1, News::Started(Err(broken)))).unwrap_err();
    assert_eq!(
        (error.code.as_str(), error.message.as_str()),
        ("internal", "pty spawn failed: openpty failed")
    );
}

#[test]
fn what_is_one_thing_to_do_stays_one() {
    let focus = || Plan::Workspace(WorkspaceCall::FocusTab { tab_id: 7 });
    assert_eq!(begin(focus()), Begun::Single(focus()));
}
