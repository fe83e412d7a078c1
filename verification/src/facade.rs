//! The engine's boundary: commands, results, errors with stable codes, and an event stream
//! that recovers by itself.
use crate::application;
use crate::pty::PtyError;
use crate::text;
use crate::workspace::{
    ApplicationError, Project, Tab, WorkspaceError, WorkspaceErrorKind, WorkspaceEvent,
};
use vstd::prelude::*;

verus! {

/// The version of the shapes that cross the boundary.
pub const SCHEMA_VERSION: u32 = 1;

/// Where and how a tab is opened.
#[derive(Debug, PartialEq, Eq)]
pub struct TabOpenParams {
    pub project_id: i64,
    pub cwd: String,
    /// The tab whose directory the new one starts in.
    pub cwd_from_tab: Option<i64>,
    pub title: String,
    pub argv: Vec<String>,
    pub cols: u32,
    pub rows: u32,
}

/// A command to the engine.
#[derive(Debug, PartialEq, Eq)]
pub enum EngineCommand {
    ProjectCreate { name: String, cwd: String },
    ProjectRename { project_id: i64, name: String },
    ProjectDelete { project_id: i64 },
    ProjectReorder { project_ids: Vec<i64> },
    TabOpen(TabOpenParams),
    TabClose { tab_id: i64 },
    TabFocus { tab_id: i64 },
    TabSetTitle { tab_id: i64, title: String },
    TabSetState { tab_id: i64, state: String },
    TabReorder { project_id: i64, tab_ids: Vec<i64> },
    TabClearNotification { tab_id: i64 },
    /// An agent's report, in its own words.
    TabAgentReport { report: String },
    TabWrite { tab_id: i64, data: Vec<u8> },
    TabResize { tab_id: i64, cols: u32, rows: u32 },
    Shutdown,
}

/// A command's result.
#[derive(Debug, PartialEq, Eq)]
pub enum CommandResult {
    Ack,
    Project(Project),
    Tab(Tab),
    DeletedTabs(Vec<i64>),
    PreviousSelection { previous_project_id: i64, previous_tab_id: i64 },
    AgentReport { accepted: bool, tab: Tab },
}

/// Everything a client needs to start over.
#[derive(Debug, PartialEq, Eq)]
pub struct EngineSnapshot {
    pub schema_version: u32,
    pub revision: u64,
    pub projects: Vec<Project>,
    pub active_project_id: i64,
    pub active_tab_id: i64,
    pub sidebar_collapsed: bool,
}

impl EngineSnapshot {
    /// A snapshot of these parts, under the current version.
    pub fn of(
        revision: u64,
        projects: Vec<Project>,
        active_project_id: i64,
        active_tab_id: i64,
        sidebar_collapsed: bool,
    ) -> (out: EngineSnapshot)
        ensures
            out == (EngineSnapshot {
                schema_version: 1,
                revision,
                projects,
                active_project_id,
                active_tab_id,
                sidebar_collapsed,
            }),
    {
        EngineSnapshot {
            schema_version: SCHEMA_VERSION,
            revision,
            projects,
            active_project_id,
            active_tab_id,
            sidebar_collapsed,
        }
    }
}

/// A change, or everything anew.
#[derive(Debug, PartialEq, Eq)]
pub enum EngineEvent {
    Delta { schema_version: u32, revision: u64, event: WorkspaceEvent },
    Resync(EngineSnapshot),
}

/// What a command can fail with.
#[derive(Debug, PartialEq, Eq)]
pub enum EngineError {
    Workspace(WorkspaceError),
    Pty(PtyError),
    Operation(String),
    InvalidArgument(String),
}

impl EngineError {
    /// The key by which a machine knows the error.
    pub open spec fn key(self) -> Seq<char> {
        match self {
            EngineError::Workspace(e) => match e.kind {
                WorkspaceErrorKind::ProjectNotFound => "project_not_found"@,
                WorkspaceErrorKind::TabNotFound => "tab_not_found"@,
                WorkspaceErrorKind::TabProjectMismatch => "tab_project_mismatch"@,
                WorkspaceErrorKind::Io => "io_error"@,
                WorkspaceErrorKind::Json => "invalid_state"@,
                WorkspaceErrorKind::Inconsistent => "invalid_state"@,
                WorkspaceErrorKind::HostNotFound => "host_not_found"@,
                WorkspaceErrorKind::HostLabelEmpty => "invalid_argument"@,
                WorkspaceErrorKind::HostLabelReserved => "invalid_argument"@,
                WorkspaceErrorKind::HostLabelTaken => "invalid_argument"@,
                WorkspaceErrorKind::ProjectNameBlank => "invalid_argument"@,
                WorkspaceErrorKind::ProjectCwdRequired => "invalid_argument"@,
            },
            EngineError::Pty(e) => match e {
                PtyError::NotFound(_) => "tab_not_found"@,
                PtyError::Closed(_) => "tab_not_found"@,
                PtyError::Cancelled(_) => "cancelled"@,
                PtyError::DuplicateTab(_) => "duplicate_tab"@,
                PtyError::ShuttingDown(_) => "shutting_down"@,
            },
            EngineError::Operation(_) => "operation_failed"@,
            EngineError::InvalidArgument(_) => "invalid_argument"@,
        }
    }

    /// The key by which a machine knows the error.
    pub fn code(&self) -> (out: &'static str)
        ensures
            out@ == self.key(),
    {
        match self {
            EngineError::Workspace(e) => match e.kind {
                WorkspaceErrorKind::ProjectNotFound => "project_not_found",
                WorkspaceErrorKind::TabNotFound => "tab_not_found",
                WorkspaceErrorKind::TabProjectMismatch => "tab_project_mismatch",
                WorkspaceErrorKind::Io => "io_error",
                WorkspaceErrorKind::Json => "invalid_state",
                WorkspaceErrorKind::Inconsistent => "invalid_state",
                WorkspaceErrorKind::HostNotFound => "host_not_found",
                WorkspaceErrorKind::HostLabelEmpty => "invalid_argument",
                WorkspaceErrorKind::HostLabelReserved => "invalid_argument",
                WorkspaceErrorKind::HostLabelTaken => "invalid_argument",
                WorkspaceErrorKind::ProjectNameBlank => "invalid_argument",
                WorkspaceErrorKind::ProjectCwdRequired => "invalid_argument",
            },
            EngineError::Pty(e) => match e {
                PtyError::NotFound(_) => "tab_not_found",
                PtyError::Closed(_) => "tab_not_found",
                PtyError::Cancelled(_) => "cancelled",
                PtyError::DuplicateTab(_) => "duplicate_tab",
                PtyError::ShuttingDown(_) => "shutting_down",
            },
            EngineError::Operation(_) => "operation_failed",
            EngineError::InvalidArgument(_) => "invalid_argument",
        }
    }

    /// The error in words: a workspace's and a PTY's own, or what failed or was wrong.
    pub open spec fn text(self) -> Seq<char> {
        match self {
            EngineError::Workspace(e) => e.message@,
            EngineError::Pty(e) => e.text(),
            EngineError::Operation(why) => "engine operation failed: "@ + why@,
            EngineError::InvalidArgument(why) => "invalid engine command: "@ + why@,
        }
    }

    /// The error in words.
    pub fn message(&self) -> (out: String)
        ensures
            out@ == self.text(),
    {
        match self {
            EngineError::Workspace(e) => e.message.clone(),
            EngineError::Pty(e) => e.message(),
            EngineError::Operation(why) => text::join2("engine operation failed: ", why.as_str()),
            EngineError::InvalidArgument(why) => text::join2(
                "invalid engine command: ",
                why.as_str(),
            ),
        }
    }
}

/// An operation's error as the engine reports it.
pub open spec fn reported(error: ApplicationError) -> EngineError {
    match error {
        ApplicationError::Workspace(e) => EngineError::Workspace(e),
        ApplicationError::Pty(e) => EngineError::Pty(e),
        ApplicationError::Operation(why) => EngineError::Operation(why),
    }
}

/// An operation's error as the engine reports it.
pub fn application_error(error: ApplicationError) -> (out: EngineError)
    ensures
        out == reported(error),
{
    match error {
        ApplicationError::Workspace(e) => EngineError::Workspace(e),
        ApplicationError::Pty(e) => EngineError::Pty(e),
        ApplicationError::Operation(why) => EngineError::Operation(why),
    }
}

/// Refuses a dimension that does not fit. Zero stands for the default and passes.
pub fn validate_dimension(value: u32, field: &str) -> (out: Result<(), EngineError>)
    ensures
        out is Ok <==> value <= u16::MAX,
        out matches Err(e) ==> (e matches EngineError::InvalidArgument(why) && why@
            == application::out_of_range(field@, value)),
{
    if value > 0xffff {
        return Err(EngineError::InvalidArgument(application::out_of_range_text(field, value)));
    }
    Ok(())
}

/// What the outside is asked to do for a command.
#[derive(Debug, PartialEq, Eq)]
pub enum Work {
    CreateProject { name: String, cwd: String },
    RenameProject { project_id: i64, name: String },
    DeleteProject { project_id: i64 },
    ReorderProjects { project_ids: Vec<i64> },
    /// Settle where the tab lands, open its row and start its shell.
    OpenTab { params: TabOpenParams, cols: u16, rows: u16 },
    RemoveRow { tab_id: i64 },
    CloseSession { tab_id: i64 },
    CloseSessions { tab_ids: Vec<i64> },
    FocusTab { tab_id: i64 },
    SetTitle { tab_id: i64, title: String },
    SetState { tab_id: i64, state: String },
    ReorderTabs { project_id: i64, tab_ids: Vec<i64> },
    SetNotification { tab_id: i64, pending: bool },
    ReportAgent { report: String },
    Write { tab_id: i64, data: Vec<u8> },
    Resize { tab_id: i64, cols: u16, rows: u16 },
    Flush,
    ListTabs,
}

/// What came of a piece of work.
#[derive(Debug, PartialEq, Eq)]
pub enum Answer {
    Done(Result<(), ApplicationError>),
    Project(Result<Project, ApplicationError>),
    Deleted(Result<Vec<i64>, ApplicationError>),
    Tab(Result<Tab, ApplicationError>),
    Selection(Result<(i64, i64), ApplicationError>),
    Report(Result<(bool, Tab), ApplicationError>),
    Tabs(Vec<i64>),
}

/// What a command is waiting for.
#[derive(Debug, PartialEq, Eq)]
pub enum Waiting {
    Ack,
    Project,
    Deleted,
    /// The sessions of deleted tabs are being closed.
    Closing(Vec<i64>),
    Tab,
    /// The row of a tab is being removed; its session is next.
    RowRemoved(i64),
    /// The session of a tab is being closed; this is what the row's removal said.
    SessionClosed(Result<(), ApplicationError>),
    Selection,
    Report,
    Flushed,
    Listed,
}

/// What a command does next.
#[derive(Debug, PartialEq, Eq)]
pub enum ExecuteStep {
    Do(Work, Waiting),
    Finish(Result<CommandResult, EngineError>),
}

/// Whether a step refuses a dimension.
pub open spec fn refuses(step: ExecuteStep, field: Seq<char>, value: u32) -> bool {
    step matches ExecuteStep::Finish(Err(EngineError::InvalidArgument(why))) && why@
        == application::out_of_range(field, value)
}

/// A dimension with its default filled in.
pub open spec fn dimension(value: u32, default: u16) -> u16 {
    if value == 0 {
        default
    } else {
        value as u16
    }
}

/// How a command begins. A dimension that does not fit is refused before anything is done.
pub open spec fn begins(command: EngineCommand, step: ExecuteStep) -> bool {
    match command {
        EngineCommand::ProjectCreate { name, cwd } => step == ExecuteStep::Do(
            Work::CreateProject { name, cwd },
            Waiting::Project,
        ),
        EngineCommand::ProjectRename { project_id, name } => step == ExecuteStep::Do(
            Work::RenameProject { project_id, name },
            Waiting::Ack,
        ),
        EngineCommand::ProjectDelete { project_id } => step == ExecuteStep::Do(
            Work::DeleteProject { project_id },
            Waiting::Deleted,
        ),
        EngineCommand::ProjectReorder { project_ids } => step == ExecuteStep::Do(
            Work::ReorderProjects { project_ids },
            Waiting::Ack,
        ),
        EngineCommand::TabOpen(params) => if params.cols > u16::MAX {
            refuses(step, "cols"@, params.cols)
        } else if params.rows > u16::MAX {
            refuses(step, "rows"@, params.rows)
        } else {
            step == ExecuteStep::Do(
                Work::OpenTab {
                    params,
                    cols: dimension(params.cols, 80),
                    rows: dimension(params.rows, 24),
                },
                Waiting::Tab,
            )
        },
        EngineCommand::TabClose { tab_id } => step == ExecuteStep::Do(
            Work::RemoveRow { tab_id },
            Waiting::RowRemoved(tab_id),
        ),
        EngineCommand::TabFocus { tab_id } => step == ExecuteStep::Do(
            Work::FocusTab { tab_id },
            Waiting::Selection,
        ),
        EngineCommand::TabSetTitle { tab_id, title } => step == ExecuteStep::Do(
            Work::SetTitle { tab_id, title },
            Waiting::Ack,
        ),
        EngineCommand::TabSetState { tab_id, state } => step == ExecuteStep::Do(
            Work::SetState { tab_id, state },
            Waiting::Ack,
        ),
        EngineCommand::TabReorder { project_id, tab_ids } => step == ExecuteStep::Do(
            Work::ReorderTabs { project_id, tab_ids },
            Waiting::Ack,
        ),
        EngineCommand::TabClearNotification { tab_id } => step == ExecuteStep::Do(
            Work::SetNotification { tab_id, pending: false },
            Waiting::Ack,
        ),
        EngineCommand::TabAgentReport { report } => step == ExecuteStep::Do(
            Work::ReportAgent { report },
            Waiting::Report,
        ),
        EngineCommand::TabWrite { tab_id, data } => step == ExecuteStep::Do(
            Work::Write { tab_id, data },
            Waiting::Ack,
        ),
        EngineCommand::TabResize { tab_id, cols, rows } => if cols > u16::MAX {
            refuses(step, "cols"@, cols)
        } else if rows > u16::MAX {
            refuses(step, "rows"@, rows)
        } else {
            step == ExecuteStep::Do(
                Work::Resize {
                    tab_id,
                    cols: dimension(cols, 80),
                    rows: dimension(rows, 24),
                },
                Waiting::Ack,
            )
        },
        EngineCommand::Shutdown => step == ExecuteStep::Do(Work::Flush, Waiting::Flushed),
    }
}

fn size(cols: u32, rows: u32) -> (out: Result<(u16, u16), EngineError>)
    ensures
        out is Ok <==> cols <= u16::MAX && rows <= u16::MAX,
        out matches Ok(dims) ==> dims == (dimension(cols, 80), dimension(rows, 24)),
        cols > u16::MAX ==> (out matches Err(EngineError::InvalidArgument(why)) && why@
            == application::out_of_range("cols"@, cols)),
        cols <= u16::MAX && rows > u16::MAX ==> (out matches Err(
            EngineError::InvalidArgument(why),
        ) && why@ == application::out_of_range("rows"@, rows)),
{
    match validate_dimension(cols, "cols") {
        Err(e) => {
            return Err(e);
        },
        Ok(_) => {},
    }
    match validate_dimension(rows, "rows") {
        Err(e) => {
            return Err(e);
        },
        Ok(_) => {},
    }
    let cols: u16 = if cols == 0 {
        80
    } else {
        cols as u16
    };
    let rows: u16 = if rows == 0 {
        24
    } else {
        rows as u16
    };
    Ok((cols, rows))
}

/// Begins a command.
pub fn execute(command: EngineCommand) -> (step: ExecuteStep)
    ensures
        begins(command, step),
{
    match command {
        EngineCommand::ProjectCreate { name, cwd } => ExecuteStep::Do(
            Work::CreateProject { name, cwd },
            Waiting::Project,
        ),
        EngineCommand::ProjectRename { project_id, name } => ExecuteStep::Do(
            Work::RenameProject { project_id, name },
            Waiting::Ack,
        ),
        EngineCommand::ProjectDelete { project_id } => ExecuteStep::Do(
            Work::DeleteProject { project_id },
            Waiting::Deleted,
        ),
        EngineCommand::ProjectReorder { project_ids } => ExecuteStep::Do(
            Work::ReorderProjects { project_ids },
            Waiting::Ack,
        ),
        EngineCommand::TabOpen(params) => match size(params.cols, params.rows) {
            Err(e) => ExecuteStep::Finish(Err(e)),
            Ok((cols, rows)) => ExecuteStep::Do(Work::OpenTab { params, cols, rows }, Waiting::Tab),
        },
        EngineCommand::TabClose { tab_id } => ExecuteStep::Do(
            Work::RemoveRow { tab_id },
            Waiting::RowRemoved(tab_id),
        ),
        EngineCommand::TabFocus { tab_id } => ExecuteStep::Do(
            Work::FocusTab { tab_id },
            Waiting::Selection,
        ),
        EngineCommand::TabSetTitle { tab_id, title } => ExecuteStep::Do(
            Work::SetTitle { tab_id, title },
            Waiting::Ack,
        ),
        EngineCommand::TabSetState { tab_id, state } => ExecuteStep::Do(
            Work::SetState { tab_id, state },
            Waiting::Ack,
        ),
        EngineCommand::TabReorder { project_id, tab_ids } => ExecuteStep::Do(
            Work::ReorderTabs { project_id, tab_ids },
            Waiting::Ack,
        ),
        EngineCommand::TabClearNotification { tab_id } => ExecuteStep::Do(
            Work::SetNotification { tab_id, pending: false },
            Waiting::Ack,
        ),
        EngineCommand::TabAgentReport { report } => ExecuteStep::Do(
            Work::ReportAgent { report },
            Waiting::Report,
        ),
        EngineCommand::TabWrite { tab_id, data } => ExecuteStep::Do(
            Work::Write { tab_id, data },
            Waiting::Ack,
        ),
        EngineCommand::TabResize { tab_id, cols, rows } => match size(cols, rows) {
            Err(e) => ExecuteStep::Finish(Err(e)),
            Ok((cols, rows)) => ExecuteStep::Do(Work::Resize { tab_id, cols, rows }, Waiting::Ack),
        },
        EngineCommand::Shutdown => ExecuteStep::Do(Work::Flush, Waiting::Flushed),
    }
}

/// Whether an answer is one that a command waits for.
pub open spec fn answers(waiting: Waiting, answer: Answer) -> bool {
    match waiting {
        Waiting::Ack => answer is Done,
        Waiting::Project => answer is Project,
        Waiting::Deleted => answer is Deleted,
        Waiting::Closing(_) => answer is Done,
        Waiting::Tab => answer is Tab,
        Waiting::RowRemoved(_) => answer is Done,
        Waiting::SessionClosed(_) => answer is Done,
        Waiting::Selection => answer is Selection,
        Waiting::Report => answer is Report,
        Waiting::Flushed => answer is Done,
        Waiting::Listed => answer is Tabs,
    }
}

/// An acknowledgement, or the error.
pub open spec fn acked(result: Result<(), ApplicationError>) -> ExecuteStep {
    match result {
        Ok(_) => ExecuteStep::Finish(Ok(CommandResult::Ack)),
        Err(e) => ExecuteStep::Finish(Err(reported(e))),
    }
}

/// How a command goes on. Closing sessions cannot fail, and a close says what the removal of
/// the row said.
pub open spec fn resumed(waiting: Waiting, answer: Answer, step: ExecuteStep) -> bool {
    match (waiting, answer) {
        (Waiting::Ack, Answer::Done(result)) => step == acked(result),
        (Waiting::Project, Answer::Project(result)) => step == (match result {
            Ok(project) => ExecuteStep::Finish(Ok(CommandResult::Project(project))),
            Err(e) => ExecuteStep::Finish(Err(reported(e))),
        }),
        (Waiting::Deleted, Answer::Deleted(result)) => match result {
            Ok(ids) => step matches ExecuteStep::Do(
                Work::CloseSessions { tab_ids },
                Waiting::Closing(kept),
            ) && tab_ids@ == ids@ && kept == ids,
            Err(e) => step == ExecuteStep::Finish(Err(reported(e))),
        },
        (Waiting::Closing(ids), Answer::Done(_)) => step == ExecuteStep::Finish(
            Ok(CommandResult::DeletedTabs(ids)),
        ),
        (Waiting::Tab, Answer::Tab(result)) => step == (match result {
            Ok(tab) => ExecuteStep::Finish(Ok(CommandResult::Tab(tab))),
            Err(e) => ExecuteStep::Finish(Err(reported(e))),
        }),
        (Waiting::RowRemoved(tab_id), Answer::Done(result)) => step == ExecuteStep::Do(
            Work::CloseSession { tab_id },
            Waiting::SessionClosed(result),
        ),
        (Waiting::SessionClosed(result), Answer::Done(_)) => step == acked(result),
        (Waiting::Selection, Answer::Selection(result)) => step == (match result {
            Ok((previous_project_id, previous_tab_id)) => ExecuteStep::Finish(
                Ok(CommandResult::PreviousSelection { previous_project_id, previous_tab_id }),
            ),
            Err(e) => ExecuteStep::Finish(Err(reported(e))),
        }),
        (Waiting::Report, Answer::Report(result)) => step == (match result {
            Ok((accepted, tab)) => ExecuteStep::Finish(
                Ok(CommandResult::AgentReport { accepted, tab }),
            ),
            Err(e) => ExecuteStep::Finish(Err(reported(e))),
        }),
        (Waiting::Flushed, Answer::Done(_)) => step == ExecuteStep::Do(
            Work::ListTabs,
            Waiting::Listed,
        ),
        (Waiting::Listed, Answer::Tabs(tab_ids)) => step == ExecuteStep::Do(
            Work::CloseSessions { tab_ids },
            Waiting::SessionClosed(Ok(())),
        ),
        _ => true,
    }
}

fn copy_ids(ids: &Vec<i64>) -> (out: Vec<i64>)
    ensures
        out@ == ids@,
{
    let mut out: Vec<i64> = Vec::new();
    let mut i: usize = 0;
    while i < ids.len()
        invariant
            i <= ids@.len(),
            out@ == ids@.take(i as int),
        decreases ids@.len() - i,
    {
        out.push(ids[i]);
        assert(out@ =~= ids@.take(i + 1));
        i = i + 1;
    }
    assert(ids@.take(i as int) =~= ids@);
    out
}

fn ack(result: Result<(), ApplicationError>) -> (step: ExecuteStep)
    ensures
        step == acked(result),
{
    match result {
        Ok(_) => ExecuteStep::Finish(Ok(CommandResult::Ack)),
        Err(e) => ExecuteStep::Finish(Err(application_error(e))),
    }
}

/// Goes on with a command once its work is answered.
pub fn resume(waiting: Waiting, answer: Answer) -> (step: ExecuteStep)
    requires
        answers(waiting, answer),
    ensures
        resumed(waiting, answer, step),
{
    match (waiting, answer) {
        (Waiting::Ack, Answer::Done(result)) => ack(result),
        (Waiting::Project, Answer::Project(result)) => match result {
            Ok(project) => ExecuteStep::Finish(Ok(CommandResult::Project(project))),
            Err(e) => ExecuteStep::Finish(Err(application_error(e))),
        },
        (Waiting::Deleted, Answer::Deleted(result)) => match result {
            Ok(ids) => {
                let tab_ids = copy_ids(&ids);
                ExecuteStep::Do(Work::CloseSessions { tab_ids }, Waiting::Closing(ids))
            },
            Err(e) => ExecuteStep::Finish(Err(application_error(e))),
        },
        (Waiting::Closing(ids), Answer::Done(_)) => ExecuteStep::Finish(
            Ok(CommandResult::DeletedTabs(ids)),
        ),
        (Waiting::Tab, Answer::Tab(result)) => match result {
            Ok(tab) => ExecuteStep::Finish(Ok(CommandResult::Tab(tab))),
            Err(e) => ExecuteStep::Finish(Err(application_error(e))),
        },
        (Waiting::RowRemoved(tab_id), Answer::Done(result)) => ExecuteStep::Do(
            Work::CloseSession { tab_id },
            Waiting::SessionClosed(result),
        ),
        (Waiting::SessionClosed(result), Answer::Done(_)) => ack(result),
        (Waiting::Selection, Answer::Selection(result)) => match result {
            Ok((previous_project_id, previous_tab_id)) => ExecuteStep::Finish(
                Ok(CommandResult::PreviousSelection { previous_project_id, previous_tab_id }),
            ),
            Err(e) => ExecuteStep::Finish(Err(application_error(e))),
        },
        (Waiting::Report, Answer::Report(result)) => match result {
            Ok((accepted, tab)) => ExecuteStep::Finish(
                Ok(CommandResult::AgentReport { accepted, tab }),
            ),
            Err(e) => ExecuteStep::Finish(Err(application_error(e))),
        },
        (Waiting::Flushed, Answer::Done(_)) => ExecuteStep::Do(Work::ListTabs, Waiting::Listed),
        (Waiting::Listed, Answer::Tabs(tab_ids)) => ExecuteStep::Do(
            Work::CloseSessions { tab_ids },
            Waiting::SessionClosed(Ok(())),
        ),
        _ => ExecuteStep::Finish(Ok(CommandResult::Ack)),
    }
}

/// A closed tab's row is gone before its session is hung up, the session is hung up whatever
/// the row said, and the row's answer is the command's.
pub proof fn law_the_row_leaves_first(
    tab_id: i64,
    row: Result<(), ApplicationError>,
    first: ExecuteStep,
    second: ExecuteStep,
    third: ExecuteStep,
)
    requires
        begins(EngineCommand::TabClose { tab_id }, first),
        resumed(Waiting::RowRemoved(tab_id), Answer::Done(row), second),
        resumed(Waiting::SessionClosed(row), Answer::Done(Ok(())), third),
    ensures
        first == ExecuteStep::Do(Work::RemoveRow { tab_id }, Waiting::RowRemoved(tab_id)),
        second == ExecuteStep::Do(Work::CloseSession { tab_id }, Waiting::SessionClosed(row)),
        third == acked(row),
{
}

/// Every tab that leaves with its project has its session closed, and is named in the result.
pub proof fn law_a_deleted_project_closes_its_sessions(
    ids: Vec<i64>,
    closing: ExecuteStep,
    done: ExecuteStep,
)
    requires
        resumed(Waiting::Deleted, Answer::Deleted(Ok(ids)), closing),
        resumed(Waiting::Closing(ids), Answer::Done(Ok(())), done),
    ensures
        closing matches ExecuteStep::Do(Work::CloseSessions { tab_ids }, _) && tab_ids@ == ids@,
        done == ExecuteStep::Finish(Ok(CommandResult::DeletedTabs(ids))),
{
}

/// The state is written out before any session is closed at a shutdown.
pub proof fn law_a_shutdown_flushes_first(tabs: Vec<i64>, a: ExecuteStep, b: ExecuteStep, c: ExecuteStep)
    requires
        begins(EngineCommand::Shutdown, a),
        resumed(Waiting::Flushed, Answer::Done(Ok(())), b),
        resumed(Waiting::Listed, Answer::Tabs(tabs), c),
    ensures
        a == ExecuteStep::Do(Work::Flush, Waiting::Flushed),
        b == ExecuteStep::Do(Work::ListTabs, Waiting::Listed),
        c == ExecuteStep::Do(
            Work::CloseSessions { tab_ids: tabs },
            Waiting::SessionClosed(Ok(())),
        ),
{
}

/// A stream of changes that starts with everything and recovers with everything.
#[derive(Clone, Copy, Debug, PartialEq, Eq, Structural)]
pub struct EngineEventStream {
    pub initial: bool,
    pub last_revision: u64,
    /// Changes up to this revision are in the last snapshot already.
    pub discard_through: Option<u64>,
}

/// What a stream's source gave.
#[derive(Clone, Copy, Debug, PartialEq, Eq, Structural)]
pub enum Received {
    Item { revision: u64 },
    Lagged,
    Closed,
}

/// What a stream does next.
#[derive(Clone, Copy, Debug, PartialEq, Eq, Structural)]
pub enum StreamStep {
    /// Take a snapshot and hand it on; [`EngineEventStream::resync`] follows.
    Snapshot,
    /// Wait for the source.
    Receive,
    /// Hand on the change just received, under this revision.
    Delta { revision: u64 },
    End,
}

impl EngineEventStream {
    /// Whether a change is in the last snapshot already.
    pub open spec fn stale(self, revision: u64) -> bool {
        self.discard_through matches Some(through) && revision <= through
    }

    /// What a stream makes of what its source gave.
    pub open spec fn take(self, received: Received) -> (EngineEventStream, StreamStep) {
        match received {
            Received::Closed => (self, StreamStep::End),
            Received::Lagged => (self, StreamStep::Snapshot),
            Received::Item { revision } => if self.stale(revision) {
                (self, StreamStep::Receive)
            } else {
                let open = EngineEventStream { discard_through: None, ..self };
                if revision < self.last_revision {
                    (open, StreamStep::Receive)
                } else if revision > self.last_revision + 1 {
                    (open, StreamStep::Snapshot)
                } else {
                    (
                        EngineEventStream { last_revision: revision, ..open },
                        StreamStep::Delta { revision },
                    )
                }
            },
        }
    }

    /// A stream that hands on a snapshot of this revision.
    pub open spec fn resynced(self, revision: u64) -> EngineEventStream {
        EngineEventStream {
            initial: false,
            last_revision: revision,
            discard_through: Some(revision),
        }
    }

    /// A stream that has handed on nothing.
    pub fn new() -> (out: EngineEventStream)
        ensures
            out == (EngineEventStream { initial: true, last_revision: 0, discard_through: None }),
    {
        EngineEventStream { initial: true, last_revision: 0, discard_through: None }
    }

    /// What to do for the next event: a snapshot at first, then whatever the source gives.
    pub fn recv(&self) -> (step: StreamStep)
        ensures
            step == (if self.initial {
                StreamStep::Snapshot
            } else {
                StreamStep::Receive
            }),
    {
        if self.initial {
            StreamStep::Snapshot
        } else {
            StreamStep::Receive
        }
    }

    /// Notes the snapshot that is handed on.
    pub fn resync(&mut self, revision: u64)
        ensures
            *final(self) == old(self).resynced(revision),
    {
        self.initial = false;
        self.last_revision = revision;
        self.discard_through = Some(revision);
    }

    /// Takes what the source gave.
    pub fn received(&mut self, received: Received) -> (step: StreamStep)
        ensures
            (*final(self), step) == old(self).take(received),
    {
        match received {
            Received::Closed => StreamStep::End,
            Received::Lagged => StreamStep::Snapshot,
            Received::Item { revision } => {
                match self.discard_through {
                    Some(through) => {
                        if revision <= through {
                            return StreamStep::Receive;
                        }
                    },
                    None => {},
                }
                self.discard_through = None;
                if revision < self.last_revision {
                    return StreamStep::Receive;
                }
                if revision > self.last_revision.saturating_add(1) {
                    return StreamStep::Snapshot;
                }
                self.last_revision = revision;
                StreamStep::Delta { revision }
            },
        }
    }
}

/// A change never skips a revision and never goes back: it belongs to the revision the
/// client has or to the next one.
pub proof fn law_a_change_follows_what_the_client_has(stream: EngineEventStream, received: Received)
    ensures
        ({
            let (after, step) = stream.take(received);
            step matches StreamStep::Delta { revision } ==> stream.last_revision <= revision
                <= stream.last_revision + 1 && after.last_revision == revision
                && received == (Received::Item { revision })
        }),
{
}

/// What a snapshot holds is not told again: right after a snapshot, changes up to its
/// revision are passed over, and the next one is handed on.
pub proof fn law_a_snapshot_covers_what_came_before(
    stream: EngineEventStream,
    revision: u64,
    seen: u64,
)
    requires
        seen <= revision,
    ensures
        stream.resynced(revision).take(Received::Item { revision: seen }) == (
            stream.resynced(revision),
            StreamStep::Receive,
        ),
        revision < u64::MAX ==> stream.resynced(revision).take(
            Received::Item { revision: (revision + 1) as u64 },
        ).1 == (StreamStep::Delta { revision: (revision + 1) as u64 }),
{
}

/// Only a closed source ends a stream: a lag or a gap brings a snapshot.
pub proof fn law_only_a_closed_source_ends_the_stream(stream: EngineEventStream, received: Received)
    ensures
        stream.take(received).1 == StreamStep::End <==> received == Received::Closed,
        stream.take(Received::Lagged).1 == StreamStep::Snapshot,
{
}

/// What each command asks for: the work of its own name, on the subject it names and with
/// nothing else but what it carries.
pub proof fn law_a_command_asks_for_its_own_work(
    id: i64,
    ids: Vec<i64>,
    words: String,
    place: String,
    data: Vec<u8>,
    step: ExecuteStep,
)
    ensures
        begins(EngineCommand::ProjectCreate { name: words, cwd: place }, step) ==> (step matches
            ExecuteStep::Do(Work::CreateProject { name, cwd }, Waiting::Project) && name == words
            && cwd == place),
        begins(EngineCommand::ProjectRename { project_id: id, name: words }, step) ==> (
        step matches ExecuteStep::Do(Work::RenameProject { project_id, name }, Waiting::Ack)
            && project_id == id && name == words),
        begins(EngineCommand::ProjectDelete { project_id: id }, step) ==> (step matches
            ExecuteStep::Do(Work::DeleteProject { project_id }, Waiting::Deleted) && project_id
            == id),
        begins(EngineCommand::ProjectReorder { project_ids: ids }, step) ==> (step matches
            ExecuteStep::Do(Work::ReorderProjects { project_ids }, Waiting::Ack) && project_ids
            == ids),
        begins(EngineCommand::TabFocus { tab_id: id }, step) ==> (step matches ExecuteStep::Do(
            Work::FocusTab { tab_id },
            Waiting::Selection,
        ) && tab_id == id),
        begins(EngineCommand::TabSetTitle { tab_id: id, title: words }, step) ==> (step matches
            ExecuteStep::Do(Work::SetTitle { tab_id, title }, Waiting::Ack) && tab_id == id
            && title == words),
        begins(EngineCommand::TabSetState { tab_id: id, state: words }, step) ==> (step matches
            ExecuteStep::Do(Work::SetState { tab_id, state }, Waiting::Ack) && tab_id == id
            && state == words),
        begins(EngineCommand::TabReorder { project_id: id, tab_ids: ids }, step) ==> (
        step matches ExecuteStep::Do(Work::ReorderTabs { project_id, tab_ids }, Waiting::Ack)
            && project_id == id && tab_ids == ids),
        begins(EngineCommand::TabClearNotification { tab_id: id }, step) ==> (step matches
            ExecuteStep::Do(Work::SetNotification { tab_id, pending }, Waiting::Ack) && tab_id
            == id && !pending),
        begins(EngineCommand::TabAgentReport { report: words }, step) ==> (step matches
            ExecuteStep::Do(Work::ReportAgent { report }, Waiting::Report) && report == words),
        begins(EngineCommand::TabWrite { tab_id: id, data }, step) ==> (step matches
            ExecuteStep::Do(Work::Write { tab_id, data: written }, Waiting::Ack) && tab_id == id
            && written == data),
{
}

/// What becomes of a size: a dimension past the range is refused by its name, the columns
/// first; of one within it the number itself is asked for, eighty columns and twenty-four rows
/// in the place of zero.
pub proof fn law_a_size_is_asked_for_as_given(
    id: i64,
    params: TabOpenParams,
    cols: u32,
    rows: u32,
    open: ExecuteStep,
    resize: ExecuteStep,
)
    requires
        params.cols == cols,
        params.rows == rows,
        begins(EngineCommand::TabOpen(params), open),
        begins(EngineCommand::TabResize { tab_id: id, cols, rows }, resize),
    ensures
        cols > 65535 ==> refuses(open, "cols"@, cols) && refuses(resize, "cols"@, cols),
        cols <= 65535 && rows > 65535 ==> refuses(open, "rows"@, rows) && refuses(
            resize,
            "rows"@,
            rows,
        ),
        cols <= 65535 && rows <= 65535 ==> (open matches ExecuteStep::Do(
            Work::OpenTab { params: asked, cols: c, rows: r },
            Waiting::Tab,
        ) && asked == params && (cols > 0 ==> c == cols) && (rows > 0 ==> r == rows) && (cols == 0
            ==> c == 80) && (rows == 0 ==> r == 24)),
        cols <= 65535 && rows <= 65535 ==> (resize matches ExecuteStep::Do(
            Work::Resize { tab_id, cols: c, rows: r },
            Waiting::Ack,
        ) && tab_id == id && (cols > 0 ==> c == cols) && (rows > 0 ==> r == rows) && (cols == 0
            ==> c == 80) && (rows == 0 ==> r == 24)),
        forall|step: ExecuteStep, field: Seq<char>, value: u32| #[trigger]
            refuses(step, field, value) ==> (step matches ExecuteStep::Finish(
                Err(EngineError::InvalidArgument(why)),
            ) && why@ == field + " out of u16 range: "@ + text::decimal(value as nat)),
{
}

/// What a command answers: what its work did, as it came; and where the work failed, its error.
pub proof fn law_a_commands_answer_is_its_works(
    project: Project,
    tab: Tab,
    previous: (i64, i64),
    accepted: bool,
    error: ApplicationError,
    step: ExecuteStep,
)
    ensures
        resumed(Waiting::Ack, Answer::Done(Ok(())), step) ==> step == ExecuteStep::Finish(
            Ok(CommandResult::Ack),
        ),
        resumed(Waiting::Project, Answer::Project(Ok(project)), step) ==> step
            == ExecuteStep::Finish(Ok(CommandResult::Project(project))),
        resumed(Waiting::Tab, Answer::Tab(Ok(tab)), step) ==> step == ExecuteStep::Finish(
            Ok(CommandResult::Tab(tab)),
        ),
        resumed(Waiting::Selection, Answer::Selection(Ok(previous)), step) ==> (step matches
            ExecuteStep::Finish(
            Ok(CommandResult::PreviousSelection { previous_project_id, previous_tab_id }),
        ) && previous_project_id == previous.0 && previous_tab_id == previous.1),
        resumed(Waiting::Report, Answer::Report(Ok((accepted, tab))), step) ==> (step matches
            ExecuteStep::Finish(Ok(CommandResult::AgentReport { accepted: taken, tab: of }))
            && taken == accepted && of == tab),
        resumed(Waiting::Ack, Answer::Done(Err(error)), step) || resumed(
            Waiting::Project,
            Answer::Project(Err(error)),
            step,
        ) || resumed(Waiting::Deleted, Answer::Deleted(Err(error)), step) || resumed(
            Waiting::Tab,
            Answer::Tab(Err(error)),
            step,
        ) || resumed(Waiting::Selection, Answer::Selection(Err(error)), step) || resumed(
            Waiting::Report,
            Answer::Report(Err(error)),
            step,
        ) ==> (step matches ExecuteStep::Finish(Err(told)) && (match error {
            ApplicationError::Workspace(e) => told == EngineError::Workspace(e),
            ApplicationError::Pty(e) => told == EngineError::Pty(e),
            ApplicationError::Operation(why) => told == EngineError::Operation(why),
        })),
{
}

/// A closed tab's command answers what the removal of its row said, and a shutdown is
/// acknowledged once its sessions are closed, whatever their closing said.
pub proof fn law_a_close_answers_for_its_row(
    why: ApplicationError,
    closed: Result<(), ApplicationError>,
    step: ExecuteStep,
)
    ensures
        resumed(Waiting::SessionClosed(Ok(())), Answer::Done(closed), step) ==> step
            == ExecuteStep::Finish(Ok(CommandResult::Ack)),
        resumed(Waiting::SessionClosed(Err(why)), Answer::Done(closed), step) ==> step is Finish
            && step->Finish_0 is Err,
        forall|id: i64| #[trigger]
            resumed(Waiting::RowRemoved(id), Answer::Done(closed), step) ==> (step matches
                ExecuteStep::Do(Work::CloseSession { tab_id }, Waiting::SessionClosed(said))
                && tab_id == id && said == closed),
        resumed(Waiting::Flushed, Answer::Done(closed), step) ==> step == ExecuteStep::Do(
            Work::ListTabs,
            Waiting::Listed,
        ),
{
}

/// Which machine key stands for which failure: one that names no tab or no project says so,
/// what the caller got wrong is an invalid argument, and a PTY's failures keep their own.
pub proof fn law_a_key_says_whose_failure_it_is(e: WorkspaceError, id: i64, why: String)
    ensures
        e.kind is ProjectNotFound ==> EngineError::Workspace(e).key() == "project_not_found"@,
        e.kind is TabNotFound ==> EngineError::Workspace(e).key() == "tab_not_found"@,
        e.kind is HostNotFound ==> EngineError::Workspace(e).key() == "host_not_found"@,
        e.kind is TabProjectMismatch ==> EngineError::Workspace(e).key()
            == "tab_project_mismatch"@,
        e.kind is Io ==> EngineError::Workspace(e).key() == "io_error"@,
        e.kind is Json || e.kind is Inconsistent ==> EngineError::Workspace(e).key()
            == "invalid_state"@,
        e.kind is HostLabelEmpty || e.kind is HostLabelReserved || e.kind is HostLabelTaken
            || e.kind is ProjectNameBlank || e.kind is ProjectCwdRequired
            ==> EngineError::Workspace(e).key() == EngineError::InvalidArgument(why).key(),
        EngineError::InvalidArgument(why).key() == "invalid_argument"@,
        EngineError::Operation(why).key() == "operation_failed"@,
        EngineError::Pty(PtyError::NotFound(id)).key() == "tab_not_found"@,
        EngineError::Pty(PtyError::Closed(id)).key() == "tab_not_found"@,
        EngineError::Pty(PtyError::Cancelled(id)).key() == "cancelled"@,
        EngineError::Pty(PtyError::DuplicateTab(id)).key() == "duplicate_tab"@,
        EngineError::Pty(PtyError::ShuttingDown(id)).key() == "shutting_down"@,
        EngineError::Workspace(e).text() == e.message@,
        EngineError::Operation(why).text() == "engine operation failed: "@ + why@,
        EngineError::InvalidArgument(why).text() == "invalid engine command: "@ + why@,
        forall|p: PtyError| EngineError::Pty(p).text() == #[trigger] p.text(),
{
}

/// What a stream makes of a change: one that the last snapshot holds is passed over; of the
/// others, one before what the client has is passed over, the one it has or the next is handed
/// on, and one after a gap brings a snapshot. A lag changes nothing but brings a snapshot.
pub proof fn law_a_change_is_handed_on_where_it_follows(stream: EngineEventStream, revision: u64)
    ensures
        ({
            let (after, step) = stream.take(Received::Item { revision });
            &&& (stream.discard_through matches Some(through) && revision <= through) ==> step
                == StreamStep::Receive && after == stream
            &&& !(stream.discard_through matches Some(through) && revision <= through) ==> {
                &&& after.discard_through is None
                &&& revision < stream.last_revision ==> step == StreamStep::Receive
                    && after.last_revision == stream.last_revision
                &&& stream.last_revision <= revision <= stream.last_revision + 1 ==> step == (
                StreamStep::Delta { revision }) && after.last_revision == revision
                &&& revision > stream.last_revision + 1 ==> step == StreamStep::Snapshot
                    && after.last_revision == stream.last_revision
            }
            &&& after.initial == stream.initial
        }),
        stream.take(Received::Lagged) == (stream, StreamStep::Snapshot),
        stream.take(Received::Closed) == (stream, StreamStep::End),
        !stream.resynced(revision).initial,
        stream.resynced(revision).last_revision == revision,
        stream.resynced(revision).discard_through == Some(revision),
{
}

} // verus!
