//! Opening and closing tabs: where a shell starts, in which order rows and sessions come and
//! go, and what a shell's control sequences mean to the workspace.
use crate::facade::TabOpenParams;
use crate::pty::{CloseOutcome, PtyError};
use crate::text;
use crate::workspace::{ApplicationError, Tab, WorkspaceError, WorkspaceErrorKind};
use vstd::prelude::*;
use vstd::slice::*;

verus! {

/// A path that a shell might start in, and whether it is a directory on this machine.
#[derive(Debug, PartialEq, Eq)]
pub struct Candidate {
    pub path: String,
    pub is_dir: bool,
}

/// The steps that close a tab, in order.
#[derive(Clone, Copy, Debug, PartialEq, Eq, Structural)]
pub enum CloseStep {
    RemoveRow { tab_id: i64 },
    CloseSession { tab_id: i64 },
}

/// How a tab is closed. The row leaves before the session is hung up: the hang-up starts
/// the exit path, which removes the row too, and a close must not report a tab missing that
/// it closed itself. The session is closed whatever became of the row, and [`tab_closed`]
/// says what the close answers.
pub fn close_tab(tab_id: i64) -> (steps: Vec<CloseStep>)
    ensures
        steps@ == seq![CloseStep::RemoveRow { tab_id }, CloseStep::CloseSession { tab_id }],
{
    let mut steps: Vec<CloseStep> = Vec::new();
    steps.push(CloseStep::RemoveRow { tab_id });
    steps.push(CloseStep::CloseSession { tab_id });
    assert(steps@ =~= seq![CloseStep::RemoveRow { tab_id }, CloseStep::CloseSession { tab_id }]);
    steps
}

/// What a close answers once both of its steps are done: what removing the row said. A tab
/// without a row is reported missing, though a session that was left over is hung up; and a
/// row without a session is closed all the same.
pub fn tab_closed(removed: Result<(), WorkspaceError>, _session: CloseOutcome) -> (out: Result<
    (),
    WorkspaceError,
>)
    ensures
        out == removed,
{
    removed
}

/// Where a tab opened from another starts: where the other's shell stands, else where it was
/// last heard to be. Either counts only if it is a directory here.
pub open spec fn inherited(tracked_cwd: Option<Candidate>, native: Option<Candidate>) -> Option<
    Seq<char>,
> {
    if tracked_cwd is None {
        None
    } else if native is Some && native->0.is_dir {
        Some(native->0.path@)
    } else if tracked_cwd->0.is_dir {
        Some(tracked_cwd->0.path@)
    } else {
        None
    }
}

/// Where a tab opened from another starts. A tab without a row has no `tracked_cwd` and
/// hands nothing down, whatever its session says.
pub fn inherited_cwd(tracked_cwd: Option<Candidate>, native: Option<Candidate>) -> (out: Option<
    String,
>)
    ensures
        text::opt_string(out) == inherited(tracked_cwd, native),
{
    match tracked_cwd {
        None => None,
        Some(row) => {
            match native {
                Some(live) => {
                    if live.is_dir {
                        return Some(live.path);
                    }
                },
                None => {},
            }
            if row.is_dir {
                Some(row.path)
            } else {
                None
            }
        },
    }
}

/// Where a shell really starts: where it was asked to, if that is a directory, else in its
/// project's, if that is one, else at home.
pub open spec fn usable(requested: Candidate, project: Candidate, home: Seq<char>) -> Seq<char> {
    if requested.is_dir {
        requested.path@
    } else if project.is_dir {
        project.path@
    } else {
        home
    }
}

/// Where a shell really starts, with home as the environment names it.
pub fn usable_cwd(requested: &Candidate, project_cwd: &Candidate, home: Option<&str>) -> (out:
    String)
    ensures
        out@ == usable(*requested, *project_cwd, crate::home_of(text::opt(home))),
{
    let home = crate::resolve_home(home);
    usable_cwd_or(requested, project_cwd, home.as_str())
}

/// Where a shell really starts, with home stated.
pub fn usable_cwd_or(requested: &Candidate, project_cwd: &Candidate, home: &str) -> (out: String)
    ensures
        out@ == usable(*requested, *project_cwd, home@),
{
    if requested.is_dir {
        return requested.path.clone();
    }
    if project_cwd.is_dir {
        return project_cwd.path.clone();
    }
    home.to_owned()
}

/// The default project, as the workspace is asked for it.
#[derive(Debug, PartialEq, Eq)]
pub struct DefaultProject {
    /// Where it is placed if it has to be made.
    pub cwd: String,
    /// Whether it becomes the one in front.
    pub activate: bool,
}

/// The directory that an open settles on: the inherited one where it names a tab and that tab
/// hands one down, else the one asked for; and none that is no directory.
pub open spec fn settled_cwd(
    params: TabOpenParams,
    cwd_is_dir: bool,
    inherited: Option<Candidate>,
) -> Seq<char> {
    match (params.cwd_from_tab, inherited) {
        (Some(_), Some(from)) => if from.is_dir {
            from.path@
        } else {
            Seq::empty()
        },
        _ => if cwd_is_dir {
            params.cwd@
        } else {
            Seq::empty()
        },
    }
}

/// Settles where an opened tab lands. `inherited` is what the tab that the open names hands
/// down. Where the open names no project, this is what the workspace is asked for one with,
/// and [`adopt_project`] takes its answer.
pub fn resolve_open_target(
    params: &mut TabOpenParams,
    cwd_is_dir: bool,
    inherited: Option<Candidate>,
    activate: bool,
) -> (ask: Option<DefaultProject>)
    ensures
        final(params).cwd@ == settled_cwd(*old(params), cwd_is_dir, inherited),
        *final(params) == (TabOpenParams { cwd: final(params).cwd, ..*old(params) }),
        old(params).project_id != 0 ==> ask is None,
        old(params).project_id == 0 ==> (ask matches Some(project) && project.cwd@
            == final(params).cwd@ && project.activate == activate),
{
    let is_dir: bool = match (params.cwd_from_tab, inherited) {
        (Some(_), Some(from)) => {
            params.cwd = from.path;
            from.is_dir
        },
        _ => cwd_is_dir,
    };
    if !is_dir {
        params.cwd = "".to_owned();
        proof {
            reveal_strlit("");
        }
        assert(params.cwd@ =~= Seq::empty());
    }
    if params.project_id == 0 {
        Some(DefaultProject { cwd: params.cwd.clone(), activate })
    } else {
        None
    }
}

/// Takes the project that the workspace named for an open. One that the open named stays.
pub fn adopt_project(params: &mut TabOpenParams, named: i64)
    ensures
        *final(params) == (TabOpenParams {
            project_id: if old(params).project_id == 0 {
                named
            } else {
                old(params).project_id
            },
            ..*old(params)
        }),
{
    if params.project_id == 0 {
        params.project_id = named;
    }
}

/// What the outside is asked to do for a spawn.
#[derive(Debug, PartialEq, Eq)]
pub enum RowAction {
    /// Record where the shell starts, and read the row back.
    Move { tab_id: i64, cwd: String },
    Spawn { tab_id: i64, cwd: String },
    CloseRow { tab_id: i64 },
    ReadRow { tab_id: i64 },
    CloseSession { tab_id: i64 },
    /// The spawn is over; the row is as [`RowSpawn::tab`] has it.
    Finish(Result<(), ApplicationError>),
}

/// What came of a [`RowAction`].
#[derive(Debug, PartialEq, Eq)]
pub enum RowEvent {
    Row(Result<Tab, WorkspaceError>),
    Spawned(Result<(), ApplicationError>),
    Done,
}

/// How far a spawn has come.
#[derive(Debug, PartialEq, Eq)]
pub enum RowPhase {
    Moving,
    Spawning,
    /// The row of a failed spawn is being closed.
    RollingBack(ApplicationError),
    Checking,
    HangingUp,
    Over,
}

/// A shell being started for a row.
#[derive(Debug, PartialEq, Eq)]
pub struct RowSpawn {
    pub tab: Tab,
    pub phase: RowPhase,
}

/// Whether a row was reported missing.
pub open spec fn missing(row: Result<Tab, WorkspaceError>) -> bool {
    row matches Err(e) && e.kind == WorkspaceErrorKind::TabNotFound
}

/// One step of a spawn: where it stands next, the row it then speaks of, and what to do.
pub open spec fn row_step(tab: Tab, phase: RowPhase, event: RowEvent) -> (
    Tab,
    RowPhase,
    RowAction,
) {
    match (phase, event) {
        (RowPhase::Moving, RowEvent::Row(row)) => match row {
            Ok(row) => (
                row,
                RowPhase::Spawning,
                RowAction::Spawn { tab_id: row.id, cwd: row.cwd },
            ),
            Err(e) => (
                tab,
                RowPhase::Over,
                RowAction::Finish(
                    Err(
                        if e.kind == WorkspaceErrorKind::TabNotFound {
                            ApplicationError::Pty(PtyError::Cancelled(tab.id))
                        } else {
                            ApplicationError::Workspace(e)
                        },
                    ),
                ),
            ),
        },
        (RowPhase::Spawning, RowEvent::Spawned(spawned)) => match spawned {
            Ok(_) => (tab, RowPhase::Checking, RowAction::ReadRow { tab_id: tab.id }),
            Err(e) => (
                tab,
                RowPhase::RollingBack(e),
                RowAction::CloseRow { tab_id: tab.id },
            ),
        },
        (RowPhase::RollingBack(e), RowEvent::Done) => (
            tab,
            RowPhase::Over,
            RowAction::Finish(Err(e)),
        ),
        (RowPhase::Checking, RowEvent::Row(row)) => if missing(row) {
            (tab, RowPhase::HangingUp, RowAction::CloseSession { tab_id: tab.id })
        } else {
            (tab, RowPhase::Over, RowAction::Finish(Ok(())))
        },
        (RowPhase::HangingUp, RowEvent::Done) => (
            tab,
            RowPhase::Over,
            RowAction::Finish(Err(ApplicationError::Pty(PtyError::Cancelled(tab.id)))),
        ),
        _ => (tab, RowPhase::Over, RowAction::Finish(Ok(()))),
    }
}

/// Whether an event is one that a phase waits for.
pub open spec fn row_expects(phase: RowPhase, event: RowEvent) -> bool {
    match phase {
        RowPhase::Moving => event is Row,
        RowPhase::Spawning => event is Spawned,
        RowPhase::RollingBack(_) => event is Done,
        RowPhase::Checking => event is Row,
        RowPhase::HangingUp => event is Done,
        RowPhase::Over => false,
    }
}

/// Whether this is how a shell that starts in `cwd` begins for a row.
pub open spec fn row_begins(tab: Tab, cwd: Seq<char>, phase: RowPhase, action: RowAction) -> bool {
    if cwd == tab.cwd@ {
        phase == RowPhase::Spawning && action == (RowAction::Spawn { tab_id: tab.id, cwd: tab.cwd })
    } else {
        phase == RowPhase::Moving && (action matches RowAction::Move { tab_id, cwd: to } && tab_id
            == tab.id && to@ == cwd)
    }
}

/// Starts a shell for a row. The shell starts in a usable directory, and a row that names
/// another one is moved there first.
pub fn spawn_for_row(tab: Tab, cwd_is_dir: bool, project_cwd: &Candidate, home: Option<&str>) -> (
    out: (RowSpawn, RowAction))
    ensures
        out.0.tab == tab,
        row_begins(
            tab,
            usable(
                Candidate { path: tab.cwd, is_dir: cwd_is_dir },
                *project_cwd,
                crate::home_of(text::opt(home)),
            ),
            out.0.phase,
            out.1,
        ),
        ({
            let cwd = usable(
                Candidate { path: tab.cwd, is_dir: cwd_is_dir },
                *project_cwd,
                crate::home_of(text::opt(home)),
            );
            if cwd == tab.cwd@ {
                out.0.phase == RowPhase::Spawning && out.1 == (RowAction::Spawn {
                    tab_id: tab.id,
                    cwd: tab.cwd,
                })
            } else {
                out.0.phase == RowPhase::Moving && (out.1 matches RowAction::Move {
                    tab_id,
                    cwd: to,
                } && tab_id == tab.id && to@ == cwd)
            }
        }),
{
    let requested = Candidate { path: tab.cwd.clone(), is_dir: cwd_is_dir };
    let cwd = usable_cwd(&requested, project_cwd, home);
    if text::same_text(cwd.as_str(), tab.cwd.as_str()) {
        let action = RowAction::Spawn { tab_id: tab.id, cwd: tab.cwd.clone() };
        (RowSpawn { tab, phase: RowPhase::Spawning }, action)
    } else {
        let action = RowAction::Move { tab_id: tab.id, cwd };
        (RowSpawn { tab, phase: RowPhase::Moving }, action)
    }
}

impl RowSpawn {
    /// Takes the next step.
    pub fn step(self, event: RowEvent) -> (out: (RowSpawn, RowAction))
        requires
            row_expects(self.phase, event),
        ensures
            (out.0.tab, out.0.phase, out.1) == row_step(self.tab, self.phase, event),
    {
        let tab = self.tab;
        let tab_id: i64 = tab.id;
        match (self.phase, event) {
            (RowPhase::Moving, RowEvent::Row(row)) => match row {
                Ok(row) => {
                    let action = RowAction::Spawn { tab_id: row.id, cwd: row.cwd.clone() };
                    (RowSpawn { tab: row, phase: RowPhase::Spawning }, action)
                },
                Err(e) => {
                    let error = match e.kind {
                        WorkspaceErrorKind::TabNotFound => ApplicationError::Pty(
                            PtyError::Cancelled(tab_id),
                        ),
                        _ => ApplicationError::Workspace(e),
                    };
                    (RowSpawn { tab, phase: RowPhase::Over }, RowAction::Finish(Err(error)))
                },
            },
            (RowPhase::Spawning, RowEvent::Spawned(spawned)) => match spawned {
                Ok(_) => (
                    RowSpawn { tab, phase: RowPhase::Checking },
                    RowAction::ReadRow { tab_id },
                ),
                Err(e) => (
                    RowSpawn { tab, phase: RowPhase::RollingBack(e) },
                    RowAction::CloseRow { tab_id },
                ),
            },
            (RowPhase::RollingBack(e), RowEvent::Done) => (
                RowSpawn { tab, phase: RowPhase::Over },
                RowAction::Finish(Err(e)),
            ),
            (RowPhase::Checking, RowEvent::Row(row)) => {
                let gone: bool = match &row {
                    Ok(_) => false,
                    Err(e) => match e.kind {
                        WorkspaceErrorKind::TabNotFound => true,
                        _ => false,
                    },
                };
                if gone {
                    (
                        RowSpawn { tab, phase: RowPhase::HangingUp },
                        RowAction::CloseSession { tab_id },
                    )
                } else {
                    (RowSpawn { tab, phase: RowPhase::Over }, RowAction::Finish(Ok(())))
                }
            },
            (RowPhase::HangingUp, RowEvent::Done) => (
                RowSpawn { tab, phase: RowPhase::Over },
                RowAction::Finish(Err(ApplicationError::Pty(PtyError::Cancelled(tab_id)))),
            ),
            _ => (RowSpawn { tab, phase: RowPhase::Over }, RowAction::Finish(Ok(()))),
        }
    }
}

/// A spawn that fails takes its row with it, and reports its own error.
pub proof fn law_a_failed_spawn_leaves_no_row(tab: Tab, error: ApplicationError)
    ensures
        row_step(tab, RowPhase::Spawning, RowEvent::Spawned(Err(error))) == (
            tab,
            RowPhase::RollingBack(error),
            RowAction::CloseRow { tab_id: tab.id },
        ),
        row_step(tab, RowPhase::RollingBack(error), RowEvent::Done).2 == RowAction::Finish(
            Err(error),
        ),
{
}

/// A spawn ends well only after its row was read again and not found missing: a tab closed
/// while its shell came up is hung up and reported cancelled.
pub proof fn law_no_shell_outlives_its_row(tab: Tab, phase: RowPhase, event: RowEvent)
    requires
        row_expects(phase, event),
    ensures
        row_step(tab, phase, event).2 == RowAction::Finish(Ok(())) ==> phase is Checking && !(
        event matches RowEvent::Row(row) && missing(row)),
        (phase is Checking && (event matches RowEvent::Row(row) && missing(row))) ==> row_step(
            tab,
            phase,
            event,
        ).2 == (RowAction::CloseSession { tab_id: tab.id }) && row_step(
            tab,
            RowPhase::HangingUp,
            RowEvent::Done,
        ).2 == RowAction::Finish(Err(ApplicationError::Pty(PtyError::Cancelled(tab.id)))),
{
}

/// The shell starts where its row says: every spawn hands over the row's own directory.
pub proof fn law_the_row_says_where_the_shell_starts(tab: Tab, phase: RowPhase, event: RowEvent)
    requires
        row_expects(phase, event),
    ensures
        row_step(tab, phase, event).2 matches RowAction::Spawn { tab_id, cwd } ==> tab_id
            == row_step(tab, phase, event).0.id && cwd == row_step(tab, phase, event).0.cwd,
{
}

/// What a shell's control sequence asks of the workspace.
#[derive(Debug, PartialEq, Eq)]
pub enum OscRequest {
    Title(String),
    Cwd(String),
    Attention { title: String, body: String },
    ShellMark(String),
    Ignored,
}

/// An [`OscRequest`] by what it holds.
pub enum OscRequestView {
    Title(Seq<char>),
    Cwd(Seq<char>),
    Attention { title: Seq<char>, body: Seq<char> },
    ShellMark(Seq<char>),
    Ignored,
}

impl View for OscRequest {
    type V = OscRequestView;

    open spec fn view(&self) -> OscRequestView {
        match self {
            OscRequest::Title(t) => OscRequestView::Title(t@),
            OscRequest::Cwd(t) => OscRequestView::Cwd(t@),
            OscRequest::Attention { title, body } => OscRequestView::Attention {
                title: title@,
                body: body@,
            },
            OscRequest::ShellMark(t) => OscRequestView::ShellMark(t@),
            OscRequest::Ignored => OscRequestView::Ignored,
        }
    }
}

/// What a control sequence asks, by its number.
pub open spec fn osc_request(command: u32, payload: Seq<char>) -> OscRequestView {
    if command <= 2 {
        OscRequestView::Title(payload)
    } else if command == 7 {
        match osc7_path(payload) {
            Some(path) => OscRequestView::Cwd(path),
            None => OscRequestView::Ignored,
        }
    } else if command == 9 || command == 99 || command == 777 {
        let (title, body) = notification(command, payload);
        OscRequestView::Attention { title, body }
    } else if command == 133 {
        OscRequestView::ShellMark(payload)
    } else {
        OscRequestView::Ignored
    }
}

/// What a control sequence asks of the workspace.
pub fn apply_osc(command: u32, payload: &str) -> (out: OscRequest)
    ensures
        out@ == osc_request(command, payload@),
{
    if command <= 2 {
        return OscRequest::Title(payload.to_owned());
    }
    if command == 7 {
        return match parse_osc7_path(payload) {
            Some(path) => OscRequest::Cwd(path),
            None => OscRequest::Ignored,
        };
    }
    if command == 9 || command == 99 || command == 777 {
        let (title, body) = parse_notification_payload(command, payload);
        return OscRequest::Attention { title, body };
    }
    if command == 133 {
        return OscRequest::ShellMark(payload.to_owned());
    }
    OscRequest::Ignored
}

/// The path in a `file://host/path` payload: what stands from the first slash after the
/// host. Without such a slash there is none.
pub open spec fn osc7_path(payload: Seq<char>) -> Option<Seq<char>> {
    if !text::begins(payload, "file://"@) {
        None
    } else {
        let rest = payload.skip("file://"@.len() as int);
        if rest.contains('/') {
            Some(rest.skip(text::first_of(rest, '/')))
        } else {
            None
        }
    }
}

/// The path in a `file://host/path` payload.
pub fn parse_osc7_path(payload: &str) -> (out: Option<String>)
    ensures
        text::opt_string(out) == osc7_path(payload@),
{
    match text::strip_prefix(payload, "file://") {
        None => None,
        Some(rest) => {
            let chars = text::chars_of(rest.as_str());
            let at: usize = text::position_of(chars.as_slice(), '/');
            proof {
                text::lemma_first_of(chars@, '/');
            }
            if at == chars.len() {
                return None;
            }
            assert(chars@[at as int] == '/');
            let tail = slice_subrange(chars.as_slice(), at, chars.len());
            assert(tail@ =~= chars@.skip(at as int));
            Some(text::string_of(tail))
        },
    }
}

/// The words for a dimension that does not fit.
pub open spec fn out_of_range(field: Seq<char>, value: u32) -> Seq<char> {
    field + " out of u16 range: "@ + text::decimal(value as nat)
}

/// The words for a dimension that does not fit.
pub fn out_of_range_text(field: &str, value: u32) -> (out: String)
    ensures
        out@ == out_of_range(field@, value),
{
    text::join3(field, " out of u16 range: ", text::decimal_u64(value as u64).as_str())
}

/// A terminal dimension as asked for. Zero means the default, and a value that does not fit
/// is refused rather than cut short.
pub fn pty_dim(value: u32, default: u16, field: &str) -> (out: Result<u16, String>)
    ensures
        value == 0 ==> out == Ok::<_, String>(default),
        0 < value <= u16::MAX ==> out == Ok::<_, String>(value as u16),
        value > u16::MAX ==> (out matches Err(why) && why@ == out_of_range(field@, value)),
{
    if value == 0 {
        return Ok(default);
    }
    if value <= 0xffff {
        Ok(value as u16)
    } else {
        Err(out_of_range_text(field, value))
    }
}

/// Both dimensions of a terminal, the columns looked at first.
pub fn pty_dims(cols: u32, rows: u32) -> (out: Result<(u16, u16), ApplicationError>)
    ensures
        out is Ok <==> cols <= u16::MAX && rows <= u16::MAX,
        out matches Ok(dims) ==> dims.0 == (if cols == 0 {
            80
        } else {
            cols as int
        }) && dims.1 == (if rows == 0 {
            24
        } else {
            rows as int
        }),
        out matches Err(e) ==> (e matches ApplicationError::Operation(why) && why@ == (if cols
            > u16::MAX {
            out_of_range("cols"@, cols)
        } else {
            out_of_range("rows"@, rows)
        })),
{
    let cols: u16 = match pty_dim(cols, 80, "cols") {
        Ok(cols) => cols,
        Err(why) => {
            return Err(ApplicationError::Operation(why));
        },
    };
    let rows: u16 = match pty_dim(rows, 24, "rows") {
        Ok(rows) => rows,
        Err(why) => {
            return Err(ApplicationError::Operation(why));
        },
    };
    Ok((cols, rows))
}

/// A notification's title and body. The long form carries both, after a leading word that is
/// dropped; the short forms carry a title.
pub open spec fn notification(command: u32, payload: Seq<char>) -> (Seq<char>, Seq<char>) {
    if command == 777 {
        let rest = if text::begins(payload, "notify;"@) {
            payload.skip("notify;"@.len() as int)
        } else {
            payload
        };
        let at = text::first_of(rest, ';');
        if rest.contains(';') {
            (rest.take(at), rest.skip(at + 1))
        } else {
            (rest, Seq::empty())
        }
    } else {
        (payload, Seq::empty())
    }
}

/// A notification's title and body.
pub fn parse_notification_payload(command: u32, payload: &str) -> (out: (String, String))
    ensures
        (out.0@, out.1@) == notification(command, payload@),
{
    proof {
        reveal_strlit("");
        assert(""@ =~= Seq::empty());
    }
    if command != 777 {
        return (payload.to_owned(), "".to_owned());
    }
    let rest = match text::strip_prefix(payload, "notify;") {
        Some(rest) => rest,
        None => payload.to_owned(),
    };
    let chars = text::chars_of(rest.as_str());
    let at: usize = text::position_of(chars.as_slice(), ';');
    proof {
        text::lemma_first_of(chars@, ';');
    }
    if at == chars.len() {
        return (rest, "".to_owned());
    }
    assert(chars@[at as int] == ';');
    let title = slice_subrange(chars.as_slice(), 0, at);
    let body = slice_subrange(chars.as_slice(), at + 1, chars.len());
    assert(title@ =~= chars@.take(at as int));
    assert(body@ =~= chars@.skip(at + 1));
    (text::string_of(title), text::string_of(body))
}

/// Where a tab opened from another starts: in the place of the other's shell where that is a
/// directory, else where the other was last heard to be, where that is one. A tab without a row
/// hands nothing down.
pub proof fn law_a_tab_hands_its_directory_down(row: Candidate, live: Candidate, native: Option<Candidate>)
    ensures
        inherited(None, native) is None,
        live.is_dir ==> inherited(Some(row), Some(live)) == Some(live.path@),
        !live.is_dir ==> inherited(Some(row), Some(live)) == inherited(Some(row), None),
        row.is_dir ==> inherited(Some(row), None) == Some(row.path@),
        !row.is_dir ==> inherited(Some(row), None) is None,
{
}

/// A shell starts where it was asked to if it can, else in its project, else at home; so
/// always in a directory, or at home.
pub proof fn law_a_shell_starts_where_it_can(requested: Candidate, project: Candidate, home: Seq<char>)
    ensures
        requested.is_dir ==> usable(requested, project, home) == requested.path@,
        !requested.is_dir && project.is_dir ==> usable(requested, project, home) == project.path@,
        !requested.is_dir && !project.is_dir ==> usable(requested, project, home) == home,
{
}

/// What directory an open settles on: the one handed down where it names a tab that hands one
/// down, else the one asked for; none where that is no directory.
pub proof fn law_an_open_settles_on_a_directory(
    params: TabOpenParams,
    is_dir: bool,
    from: Candidate,
)
    ensures
        params.cwd_from_tab is Some && from.is_dir ==> settled_cwd(params, is_dir, Some(from))
            == from.path@,
        params.cwd_from_tab is Some && !from.is_dir ==> settled_cwd(params, is_dir, Some(from)).len()
            == 0,
        params.cwd_from_tab is None ==> settled_cwd(params, is_dir, Some(from)) == settled_cwd(
            params,
            is_dir,
            None,
        ),
        is_dir ==> settled_cwd(params, is_dir, None) == params.cwd@,
        !is_dir ==> settled_cwd(params, is_dir, None).len() == 0,
{
}

/// A row that was moved is the row that is spawned for; one that cannot be moved ends the spawn
/// with its own error, or as cancelled where it is gone; a shell that came up is checked against
/// its row; and the row that a spawn speaks of changes only by the move.
pub proof fn law_a_spawn_follows_its_row(
    tab: Tab,
    moved: Tab,
    e: WorkspaceError,
    why: ApplicationError,
    phase: RowPhase,
    event: RowEvent,
)
    ensures
        row_step(tab, RowPhase::Moving, RowEvent::Row(Ok(moved))) == (
            moved,
            RowPhase::Spawning,
            RowAction::Spawn { tab_id: moved.id, cwd: moved.cwd },
        ),
        e.kind is TabNotFound ==> row_step(tab, RowPhase::Moving, RowEvent::Row(Err(e))).2
            == RowAction::Finish(Err(ApplicationError::Pty(PtyError::Cancelled(tab.id)))),
        !(e.kind is TabNotFound) ==> row_step(tab, RowPhase::Moving, RowEvent::Row(Err(e))).2
            == RowAction::Finish(Err(ApplicationError::Workspace(e))),
        row_step(tab, RowPhase::Spawning, RowEvent::Spawned(Ok(()))) == (
            tab,
            RowPhase::Checking,
            RowAction::ReadRow { tab_id: tab.id },
        ),
        row_step(tab, RowPhase::Checking, RowEvent::Row(Ok(moved))).2 == RowAction::Finish(
            Ok(()),
        ),
        !(e.kind is TabNotFound) ==> row_step(tab, RowPhase::Checking, RowEvent::Row(Err(e))).2
            == RowAction::Finish(Ok(())),
        e.kind is TabNotFound ==> row_step(tab, RowPhase::Checking, RowEvent::Row(Err(e))) == (
            tab,
            RowPhase::HangingUp,
            RowAction::CloseSession { tab_id: tab.id },
        ),
        !(phase is Moving) ==> row_step(tab, phase, event).0 == tab,
        row_step(tab, phase, event).2 is Finish <==> row_step(tab, phase, event).1 is Over,
{
}

/// Which control sequence asks what: the first three numbers set the title, the seventh a
/// directory, three more raise attention, one marks the shell's progress, and no other asks
/// anything.
pub proof fn law_a_sequence_asks_by_its_number(command: u32, payload: Seq<char>)
    ensures
        command == 0 || command == 1 || command == 2 ==> osc_request(command, payload)
            == OscRequestView::Title(payload),
        command == 133 ==> osc_request(command, payload) == OscRequestView::ShellMark(payload),
        command == 9 || command == 99 ==> (osc_request(command, payload) matches
            OscRequestView::Attention { title, body } && title == payload && body.len() == 0),
        command == 777 ==> (osc_request(command, payload) matches OscRequestView::Attention {
            title,
            body,
        } && (title, body) == notification(777, payload)),
        command == 7 ==> (match osc7_path(payload) {
            Some(path) => osc_request(command, payload) == OscRequestView::Cwd(path),
            None => osc_request(command, payload) == OscRequestView::Ignored,
        }),
        command != 0 && command != 1 && command != 2 && command != 7 && command != 9 && command
            != 99 && command != 133 && command != 777 ==> osc_request(command, payload)
            == OscRequestView::Ignored,
{
}

/// The path of a file address is everything from the slash behind its host, the slash and any
/// other with it; an address without that slash, or of another kind, has none.
pub proof fn law_a_file_address_names_its_path(host: Seq<char>, path: Seq<char>, other: Seq<char>)
    requires
        forall|i: int| 0 <= i < host.len() ==> #[trigger] host[i] != '/',
    ensures
        osc7_path("file://"@ + host + seq!['/'] + path) == Some(seq!['/'] + path),
        osc7_path("file://"@ + host) is None,
        !text::begins(other, "file://"@) ==> osc7_path(other) is None,
{
    let kind = "file://"@;
    let rest = host + seq!['/'] + path;
    let whole = kind + host + seq!['/'] + path;
    assert(whole =~= kind + rest);
    text::law_a_text_stands_where_it_was_put(seq![], kind, rest);
    text::law_a_text_stands_where_it_was_put(seq![], kind, host);
    text::law_the_first_of_a_character(host, '/', path);
    assert(rest[host.len() as int] == '/');
    assert(rest.contains('/'));
    assert(rest.skip(host.len() as int) =~= seq!['/'] + path);
}

/// A long notification's title ends at its first semicolon and its body is all that follows,
/// with or without the word that leads it; without a semicolon there is no body.
pub proof fn law_a_notification_says_both(title: Seq<char>, body: Seq<char>)
    requires
        forall|i: int| 0 <= i < title.len() ==> #[trigger] title[i] != ';',
    ensures
        notification(777, "notify;"@ + title + seq![';'] + body) == (title, body),
        notification(777, "notify;"@ + title) == (title, Seq::<char>::empty()),
        !text::begins(title + seq![';'] + body, "notify;"@) ==> notification(
            777,
            title + seq![';'] + body,
        ) == (title, body),
        notification(777, title) == (title, Seq::<char>::empty()),
{
    let lead = "notify;"@;
    let rest = title + seq![';'] + body;
    assert(lead + title + seq![';'] + body =~= lead + rest);
    text::law_a_text_stands_where_it_was_put(seq![], lead, rest);
    text::law_a_text_stands_where_it_was_put(seq![], lead, title);
    text::law_the_first_of_a_character(title, ';', body);
    assert(rest[title.len() as int] == ';');
    assert(rest.contains(';'));
    assert(rest.take(title.len() as int) =~= title);
    assert(rest.skip(title.len() as int + 1) =~= body);
    reveal_strlit("notify;");
    if text::begins(title, lead) {
        assert(title.take(7)[6] == title[6]);
        assert(lead[6] == ';');
    }
}

/// What a request is seen as is what it holds.
pub proof fn law_a_request_is_seen_as_it_is(a: String, b: String)
    ensures
        OscRequest::Title(a)@ == OscRequestView::Title(a@),
        OscRequest::Cwd(a)@ == OscRequestView::Cwd(a@),
        OscRequest::ShellMark(a)@ == OscRequestView::ShellMark(a@),
        OscRequest::Ignored@ == OscRequestView::Ignored,
        (OscRequest::Attention { title: a, body: b })@ == (OscRequestView::Attention {
            title: a@,
            body: b@,
        }),
{
}

/// How a spawn begins: at once where the row names the directory that the shell can start in;
/// else the row is moved to that directory first. Either way it is about that row.
pub proof fn law_a_row_is_moved_before_its_shell_starts(
    tab: Tab,
    cwd: Seq<char>,
    phase: RowPhase,
    action: RowAction,
)
    requires
        row_begins(tab, cwd, phase, action),
    ensures
        cwd == tab.cwd@ ==> phase is Spawning && (action matches RowAction::Spawn {
            tab_id,
            cwd: at,
        } && tab_id == tab.id && at@ == cwd),
        cwd != tab.cwd@ ==> phase is Moving && (action matches RowAction::Move { tab_id, cwd: at }
            && tab_id == tab.id && at@ == cwd),
{
}

} // verus!
