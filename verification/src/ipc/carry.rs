//! The plans that take several steps: what is done first, and what it comes to.
//!
//! The row of a tab comes before its shell and goes before its session, so that whoever hears of
//! one finds the other as it should be.
use crate::application::tab_closed;
use crate::facade::TabOpenParams;
use crate::ipc::dispatch::{spawn_err, Plan, WorkspaceCall};
use crate::ipc::errors::{ws_err, HandlerError};
use crate::ipc::errors;
use crate::pty::CloseOutcome;
use crate::workspace::{ApplicationError, Tab, WorkspaceError};
use vstd::prelude::*;

verus! {

/// What is to be done next for a plan.
#[allow(inconsistent_fields)]
#[derive(Debug, PartialEq, Eq)]
pub enum Errand {
    RemoveRow { tab_id: i64 },
    CloseSession { tab_id: i64 },
    DeleteProject { project_id: i64 },
    /// Close the sessions of these tabs.
    CloseSessions { tab_ids: Vec<i64> },
    /// Settle where a tab lands.
    Settle { params: TabOpenParams },
    OpenRow { project_id: i64, cwd: String, title: String },
    /// Start a shell for a row that is there.
    StartShell { tab: Tab, argv: Vec<String>, cols: u16, rows: u16 },
}

/// What a plan waits for.
#[allow(inconsistent_fields)]
#[derive(Debug, PartialEq, Eq)]
pub enum Pending {
    RowRemoved { tab_id: i64 },
    SessionClosed { removed: Result<(), WorkspaceError> },
    ProjectDeleted,
    SessionsClosed,
    Settled { size: Result<(u16, u16), HandlerError> },
    RowOpened { argv: Vec<String>, size: Result<(u16, u16), HandlerError> },
    ShellStarted,
}

/// What came of an [`Errand`].
#[derive(Debug, PartialEq, Eq)]
pub enum News {
    Row(Result<(), WorkspaceError>),
    Session(CloseOutcome),
    /// The tabs that went with the project.
    Deleted(Result<Vec<i64>, WorkspaceError>),
    SessionsClosed,
    Settled(TabOpenParams),
    Opened(Result<Tab, WorkspaceError>),
    /// The row as it is once the shell runs.
    Started(Result<Tab, ApplicationError>),
}

/// What a plan came to.
#[derive(Debug, PartialEq, Eq)]
pub enum Carried {
    Done,
    Tab(Tab),
}

/// The next step of a plan.
#[derive(Debug, PartialEq, Eq)]
pub enum CarryStep {
    Do(Errand, Pending),
    Finish(Result<Carried, HandlerError>),
}

/// How a plan is taken up.
#[derive(Debug, PartialEq, Eq)]
pub enum Begun {
    Steps(CarryStep),
    /// The plan is a single thing to do.
    Single(Plan),
}

/// Takes a plan up. Closing a tab begins with its row, deleting a project with the project, and
/// opening a tab with where it lands.
pub fn begin(plan: Plan) -> (out: Begun)
    ensures
        out == (match plan {
            Plan::Workspace(WorkspaceCall::CloseTab { tab_id }) => Begun::Steps(
                CarryStep::Do(Errand::RemoveRow { tab_id }, Pending::RowRemoved { tab_id }),
            ),
            Plan::Workspace(WorkspaceCall::DeleteProject { project_id }) => Begun::Steps(
                CarryStep::Do(Errand::DeleteProject { project_id }, Pending::ProjectDeleted),
            ),
            Plan::OpenTab { params, size } => Begun::Steps(
                CarryStep::Do(Errand::Settle { params }, Pending::Settled { size }),
            ),
            other => Begun::Single(other),
        }),
{
    match plan {
        Plan::Workspace(WorkspaceCall::CloseTab { tab_id }) => Begun::Steps(
            CarryStep::Do(Errand::RemoveRow { tab_id }, Pending::RowRemoved { tab_id }),
        ),
        Plan::Workspace(WorkspaceCall::DeleteProject { project_id }) => Begun::Steps(
            CarryStep::Do(Errand::DeleteProject { project_id }, Pending::ProjectDeleted),
        ),
        Plan::OpenTab { params, size } => Begun::Steps(
            CarryStep::Do(Errand::Settle { params }, Pending::Settled { size }),
        ),
        other => Begun::Single(other),
    }
}

/// Whether news is what a plan waits for.
pub open spec fn awaited(pending: Pending, news: News) -> bool {
    match pending {
        Pending::RowRemoved { .. } => news is Row,
        Pending::SessionClosed { .. } => news is Session,
        Pending::ProjectDeleted => news is Deleted,
        Pending::SessionsClosed => news is SessionsClosed,
        Pending::Settled { .. } => news is Settled,
        Pending::RowOpened { .. } => news is Opened,
        Pending::ShellStarted => news is Started,
    }
}

/// Whether a step is the end of a plan, spelled as a workspace's error is.
pub open spec fn fails_as(step: CarryStep, e: WorkspaceError) -> bool {
    step matches CarryStep::Finish(Err(said)) && said.says(
        errors::workspace_code(e.kind),
        e.message@,
    )
}

/// Whether a step is the end of a plan, spelled as a shell that did not start is.
pub open spec fn fails_to_start(step: CarryStep, e: ApplicationError) -> bool {
    step matches CarryStep::Finish(Err(said)) && (match e {
        ApplicationError::Pty(e) => said.says(errors::pty_code(e), e.text()),
        ApplicationError::Workspace(e) => said.says(
            "internal"@,
            "pty spawn failed: "@ + e.message@,
        ),
        ApplicationError::Operation(why) => said.says("internal"@, "pty spawn failed: "@ + why@),
    })
}

/// What follows from news.
pub open spec fn carries_on(pending: Pending, news: News, step: CarryStep) -> bool {
    match (pending, news) {
        (Pending::RowRemoved { tab_id }, News::Row(removed)) => step == CarryStep::Do(
            Errand::CloseSession { tab_id },
            Pending::SessionClosed { removed },
        ),
        (Pending::SessionClosed { removed }, News::Session(_)) => match removed {
            Ok(_) => step == CarryStep::Finish(Ok(Carried::Done)),
            Err(e) => fails_as(step, e),
        },
        (Pending::ProjectDeleted, News::Deleted(deleted)) => match deleted {
            Ok(tab_ids) => step == CarryStep::Do(
                Errand::CloseSessions { tab_ids },
                Pending::SessionsClosed,
            ),
            Err(e) => fails_as(step, e),
        },
        (Pending::SessionsClosed, News::SessionsClosed) => step == CarryStep::Finish(
            Ok(Carried::Done),
        ),
        (Pending::Settled { size }, News::Settled(params)) => step == CarryStep::Do(
            Errand::OpenRow {
                project_id: params.project_id,
                cwd: params.cwd,
                title: params.title,
            },
            Pending::RowOpened { argv: params.argv, size },
        ),
        (Pending::RowOpened { argv, size }, News::Opened(opened)) => match (opened, size) {
            (Err(e), _) => fails_as(step, e),
            (Ok(_), Err(why)) => step == CarryStep::Finish(Err(why)),
            (Ok(tab), Ok((cols, rows))) => step == CarryStep::Do(
                Errand::StartShell { tab, argv, cols, rows },
                Pending::ShellStarted,
            ),
        },
        (Pending::ShellStarted, News::Started(started)) => match started {
            Ok(tab) => step == CarryStep::Finish(Ok(Carried::Tab(tab))),
            Err(e) => fails_to_start(step, e),
        },
        _ => true,
    }
}

/// Carries a plan on. A tab's session is closed whatever became of its row, and the close
/// answers for the row; a size that is none is refused once the row is there.
pub fn carry_on(pending: Pending, news: News) -> (step: CarryStep)
    requires
        awaited(pending, news),
    ensures
        carries_on(pending, news, step),
{
    match (pending, news) {
        (Pending::RowRemoved { tab_id }, News::Row(removed)) => CarryStep::Do(
            Errand::CloseSession { tab_id },
            Pending::SessionClosed { removed },
        ),
        (Pending::SessionClosed { removed }, News::Session(session)) => match tab_closed(
            removed,
            session,
        ) {
            Ok(_) => CarryStep::Finish(Ok(Carried::Done)),
            Err(e) => CarryStep::Finish(Err(ws_err(e))),
        },
        (Pending::ProjectDeleted, News::Deleted(deleted)) => match deleted {
            Ok(tab_ids) => CarryStep::Do(
                Errand::CloseSessions { tab_ids },
                Pending::SessionsClosed,
            ),
            Err(e) => CarryStep::Finish(Err(ws_err(e))),
        },
        (Pending::Settled { size }, News::Settled(params)) => CarryStep::Do(
            Errand::OpenRow {
                project_id: params.project_id,
                cwd: params.cwd,
                title: params.title,
            },
            Pending::RowOpened { argv: params.argv, size },
        ),
        (Pending::RowOpened { argv, size }, News::Opened(opened)) => match opened {
            Err(e) => CarryStep::Finish(Err(ws_err(e))),
            Ok(tab) => match size {
                Err(why) => CarryStep::Finish(Err(why)),
                Ok((cols, rows)) => CarryStep::Do(
                    Errand::StartShell { tab, argv, cols, rows },
                    Pending::ShellStarted,
                ),
            },
        },
        (Pending::ShellStarted, News::Started(started)) => match started {
            Ok(tab) => CarryStep::Finish(Ok(Carried::Tab(tab))),
            Err(e) => CarryStep::Finish(Err(spawn_err(e))),
        },
        _ => CarryStep::Finish(Ok(Carried::Done)),
    }
}

/// A close takes the row out first and the session second, each once and whatever became of the
/// other, and answers for the row.
pub proof fn law_a_close_answers_for_the_row(
    tab_id: i64,
    removed: Result<(), WorkspaceError>,
    session: CloseOutcome,
    second: CarryStep,
    third: CarryStep,
)
    requires
        carries_on(Pending::RowRemoved { tab_id }, News::Row(removed), second),
        carries_on(Pending::SessionClosed { removed }, News::Session(session), third),
    ensures
        second == CarryStep::Do(
            Errand::CloseSession { tab_id },
            Pending::SessionClosed { removed },
        ),
        removed is Ok ==> third == CarryStep::Finish(Ok(Carried::Done)),
        removed matches Err(e) ==> fails_as(third, e),
{
}

/// No session is closed for a project that could not be deleted, and the session of every tab
/// that went with one that could is.
pub proof fn law_sessions_go_with_their_project(
    deleted: Result<Vec<i64>, WorkspaceError>,
    step: CarryStep,
)
    requires
        carries_on(Pending::ProjectDeleted, News::Deleted(deleted), step),
    ensures
        deleted is Err ==> step is Finish,
        deleted matches Ok(ids) ==> (step matches CarryStep::Do(Errand::CloseSessions { tab_ids }, _)
            && tab_ids == ids),
{
}

/// A shell is started only for a row that is there and in a size that is one; a size that is
/// none is refused with the row already open.
pub proof fn law_the_row_is_there_before_its_shell(
    argv: Vec<String>,
    size: Result<(u16, u16), HandlerError>,
    opened: Result<Tab, WorkspaceError>,
    step: CarryStep,
)
    requires
        carries_on(Pending::RowOpened { argv, size }, News::Opened(opened), step),
    ensures
        step is Do <==> opened is Ok && size is Ok,
        step matches CarryStep::Do(errand, _) ==> (errand matches Errand::StartShell { tab, .. }
            && opened == Ok::<_, WorkspaceError>(tab)),
        opened is Ok && size is Err ==> step == CarryStep::Finish(
            Err::<Carried, _>(size->Err_0),
        ),
{
}

/// What each piece of news leads to: every errand gets the parts it is for, out of the plan and
/// of what was heard, and the last one's result is the plan's.
pub proof fn law_every_errand_gets_its_parts(
    tab_id: i64,
    tab: Tab,
    tab_ids: Vec<i64>,
    params: TabOpenParams,
    argv: Vec<String>,
    size: Result<(u16, u16), HandlerError>,
    dims: (u16, u16),
    step: CarryStep,
)
    ensures
        carries_on(Pending::Settled { size }, News::Settled(params), step) ==> (step matches
            CarryStep::Do(
            Errand::OpenRow { project_id, cwd, title },
            Pending::RowOpened { argv: kept, size: asked },
        ) && project_id == params.project_id && cwd == params.cwd && title == params.title && kept
            == params.argv && asked == size),
        carries_on(Pending::RowOpened { argv, size: Ok(dims) }, News::Opened(Ok(tab)), step) ==> (
        step matches CarryStep::Do(
            Errand::StartShell { tab: of, argv: run, cols, rows },
            Pending::ShellStarted,
        ) && of == tab && run == argv && cols == dims.0 && rows == dims.1),
        carries_on(Pending::ShellStarted, News::Started(Ok(tab)), step) ==> step
            == CarryStep::Finish(Ok(Carried::Tab(tab))),
        carries_on(Pending::ProjectDeleted, News::Deleted(Ok(tab_ids)), step) ==> (step matches
            CarryStep::Do(Errand::CloseSessions { tab_ids: closed }, Pending::SessionsClosed)
            && closed == tab_ids),
        carries_on(Pending::SessionsClosed, News::SessionsClosed, step) ==> step
            == CarryStep::Finish(Ok(Carried::Done)),
{
}

/// What a plan that fails on the way answers: a workspace's failure under its own code and
/// words; a PTY's under its own; any other that keeps a shell from starting as internal.
pub proof fn law_a_failed_errand_ends_its_plan(
    e: WorkspaceError,
    p: crate::pty::PtyError,
    why: String,
    argv: Vec<String>,
    size: Result<(u16, u16), HandlerError>,
    step: CarryStep,
)
    ensures
        carries_on(Pending::ProjectDeleted, News::Deleted(Err(e)), step) || carries_on(
            Pending::RowOpened { argv, size },
            News::Opened(Err(e)),
            step,
        ) ==> (step matches CarryStep::Finish(Err(said)) && said.code@ == errors::workspace_code(
            e.kind,
        ) && said.message@ == e.message@),
        carries_on(Pending::ShellStarted, News::Started(Err(ApplicationError::Pty(p))), step) ==> (
        step matches CarryStep::Finish(Err(said)) && said.code@ == errors::pty_code(p)
            && said.message@ == p.text()),
        carries_on(Pending::ShellStarted, News::Started(Err(ApplicationError::Workspace(e))), step)
            ==> (step matches CarryStep::Finish(Err(said)) && said.code@ == "internal"@
            && said.message@ == "pty spawn failed: "@ + e.message@),
        carries_on(
            Pending::ShellStarted,
            News::Started(Err(ApplicationError::Operation(why))),
            step,
        ) ==> (step matches CarryStep::Finish(Err(said)) && said.code@ == "internal"@
            && said.message@ == "pty spawn failed: "@ + why@),
{
}

} // verus!
