//! The rows of a workspace as the engine reads them, and what can go wrong with one.
use crate::pty::PtyError;
use vstd::prelude::*;

verus! {

/// A tab's row.
#[derive(Clone, Debug, PartialEq, Eq)]
pub struct Tab {
    pub id: i64,
    pub project_id: i64,
    pub title: String,
    pub cwd: String,
}

/// A project with its tabs.
#[derive(Clone, Debug, PartialEq, Eq)]
pub struct Project {
    pub id: i64,
    pub name: String,
    pub cwd: String,
    pub tabs: Vec<Tab>,
}

/// What kind of trouble a workspace reports.
#[derive(Clone, Copy, Debug, PartialEq, Eq, Structural)]
pub enum WorkspaceErrorKind {
    ProjectNotFound,
    TabNotFound,
    TabProjectMismatch,
    Io,
    Json,
    Inconsistent,
    HostNotFound,
    HostLabelEmpty,
    HostLabelReserved,
    HostLabelTaken,
    ProjectNameBlank,
    ProjectCwdRequired,
}

/// A workspace's error: its kind, and its own words.
#[derive(Debug, PartialEq, Eq)]
pub struct WorkspaceError {
    pub kind: WorkspaceErrorKind,
    pub message: String,
}

/// What an operation on tabs can fail with.
#[derive(Debug, PartialEq, Eq)]
pub enum ApplicationError {
    Workspace(WorkspaceError),
    Pty(PtyError),
    Operation(String),
}

impl ApplicationError {
    /// The error as a caller names it. An error with a type of its own keeps it; any other
    /// is told by the name of what was tried.
    pub fn context(self, what: &str) -> (out: ApplicationError)
        ensures
            self is Operation ==> (out matches ApplicationError::Operation(t) && t@ == what@),
            self !is Operation ==> out == self,
    {
        match self {
            ApplicationError::Operation(_) => ApplicationError::Operation(what.to_owned()),
            other => other,
        }
    }
}

/// What a tab's agent and shell are doing, with the two conclusions drawn from it.
#[derive(Clone, Debug, PartialEq, Eq)]
pub struct AgentReport {
    pub shell_state: String,
    pub lifecycle: String,
    pub ownership: Option<String>,
    /// The state the tab shows.
    pub state: String,
    /// Whether an agent session is live.
    pub hook_active: bool,
}

/// What a terminal does to the desk it stands on.
#[derive(Clone, Debug, PartialEq, Eq)]
pub enum TabEffectKind {
    Bell,
    ClipboardWrite { text: String, primary: bool },
}

/// One thing that a commit changed.
#[derive(Clone, Debug, PartialEq, Eq)]
pub enum WorkspaceEvent {
    TabOpened(Tab),
    TabClosed { tab_id: i64 },
    TabStateChanged { tab_id: i64, state: String },
    TabTitleChanged { tab_id: i64, title: String },
    TabCwdChanged { tab_id: i64, cwd: String },
    TabNotification { tab_id: i64, has_pending: bool },
    ProjectCreated(Project),
    ProjectRenamed { project_id: i64, name: String },
    ProjectDeleted { project_id: i64 },
    ActiveChanged { project_id: i64, tab_id: i64 },
    HookActiveChanged { tab_id: i64, active: bool },
    AgentChanged { tab_id: i64, agent: AgentReport },
    NotificationFired { tab_id: i64, title: String, body: String },
    TabsReordered { project_id: i64, tab_ids: Vec<i64> },
    TabEffect { tab_id: i64, effect: TabEffectKind },
    ProjectsReordered { project_ids: Vec<i64> },
    /// Everything at once, for a listener in the same process that fell behind.
    Resync(Vec<Project>),
}

/// One commit: everything it changed, under one revision.
#[derive(Clone, Debug, PartialEq, Eq)]
pub struct VersionedWorkspaceEvent {
    pub revision: u64,
    pub events: Vec<WorkspaceEvent>,
}

} // verus!
