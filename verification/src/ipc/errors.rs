//! What a socket answers when it refuses, and how the engine's errors are spelled there.
use crate::pty::PtyError;
use crate::tab_task::TabError;
use crate::text;
use crate::workspace::{WorkspaceError, WorkspaceErrorKind};
use vstd::prelude::*;

verus! {

/// A refusal: a code for machines, and words.
#[derive(Debug, PartialEq, Eq)]
pub struct HandlerError {
    pub code: String,
    pub message: String,
}

impl HandlerError {
    /// Whether a refusal says this.
    pub open spec fn says(self, code: Seq<char>, message: Seq<char>) -> bool {
        self.code@ == code && self.message@ == message
    }

    pub fn new(code: &str, message: String) -> (out: HandlerError)
        ensures
            out.says(code@, message@),
    {
        HandlerError { code: code.to_owned(), message }
    }

    /// What was named is not there.
    pub fn not_found(message: String) -> (out: HandlerError)
        ensures
            out.says("not-found"@, message@),
    {
        HandlerError::new("not-found", message)
    }

    /// What was asked is the caller's to fix.
    pub fn invalid_param(message: String) -> (out: HandlerError)
        ensures
            out.says("invalid-param"@, message@),
    {
        HandlerError::new("invalid-param", message)
    }

    /// What was asked for is nothing that this socket does.
    pub fn unknown_op(op: &str) -> (out: HandlerError)
        ensures
            out.says("unknown-op"@, "unknown op: "@ + op@),
    {
        HandlerError::new("unknown-op", text::join2("unknown op: ", op))
    }

    /// Something on this side broke.
    pub fn internal(message: String) -> (out: HandlerError)
        ensures
            out.says("internal"@, message@),
    {
        HandlerError::new("internal", message)
    }
}

/// Why a host did not do what it was asked, in its own words.
#[derive(Debug, PartialEq, Eq)]
pub struct HostOpFailure {
    pub code: String,
    pub message: String,
}

impl HostOpFailure {
    pub fn new(code: String, message: String) -> (out: HostOpFailure)
        ensures
            out.code == code,
            out.message == message,
    {
        HostOpFailure { code, message }
    }

    /// The refusal as this socket passes it on: word for word.
    pub fn refusal(self) -> (out: HandlerError)
        ensures
            out.code == self.code,
            out.message == self.message,
    {
        HandlerError { code: self.code, message: self.message }
    }
}

/// Why a tab's screen could not be read.
#[derive(Debug, PartialEq, Eq)]
pub enum DumpError {
    NoTab(String),
    Read(String),
}

/// How a failed read is spelled: a tab that is not there is the caller's problem, a screen
/// that cannot be read is this side's.
pub fn dump_err(e: DumpError) -> (out: HandlerError)
    ensures
        match e {
            DumpError::NoTab(msg) => out.says("not-found"@, msg@),
            DumpError::Read(msg) => out.says("internal"@, msg@),
        },
{
    match e {
        DumpError::NoTab(msg) => HandlerError::not_found(msg),
        DumpError::Read(msg) => HandlerError::internal(msg),
    }
}

/// The code of a workspace's error.
pub open spec fn workspace_code(kind: WorkspaceErrorKind) -> Seq<char> {
    match kind {
        WorkspaceErrorKind::ProjectNotFound | WorkspaceErrorKind::TabNotFound
        | WorkspaceErrorKind::HostNotFound => "not-found"@,
        WorkspaceErrorKind::Io | WorkspaceErrorKind::Json | WorkspaceErrorKind::Inconsistent =>
        "internal"@,
        WorkspaceErrorKind::TabProjectMismatch | WorkspaceErrorKind::HostLabelEmpty
        | WorkspaceErrorKind::HostLabelReserved | WorkspaceErrorKind::HostLabelTaken
        | WorkspaceErrorKind::ProjectNameBlank | WorkspaceErrorKind::ProjectCwdRequired =>
        "invalid-param"@,
    }
}

/// How a workspace's error is spelled.
pub fn ws_err(e: WorkspaceError) -> (out: HandlerError)
    ensures
        out.says(workspace_code(e.kind), e.message@),
{
    match e.kind {
        WorkspaceErrorKind::ProjectNotFound | WorkspaceErrorKind::TabNotFound
        | WorkspaceErrorKind::HostNotFound => HandlerError::not_found(e.message),
        WorkspaceErrorKind::Io | WorkspaceErrorKind::Json | WorkspaceErrorKind::Inconsistent =>
        HandlerError::internal(e.message),
        WorkspaceErrorKind::TabProjectMismatch | WorkspaceErrorKind::HostLabelEmpty
        | WorkspaceErrorKind::HostLabelReserved | WorkspaceErrorKind::HostLabelTaken
        | WorkspaceErrorKind::ProjectNameBlank | WorkspaceErrorKind::ProjectCwdRequired =>
        HandlerError::invalid_param(e.message),
    }
}

/// The code of a PTY's error.
pub open spec fn pty_code(e: PtyError) -> Seq<char> {
    match e {
        PtyError::NotFound(_) | PtyError::Closed(_) | PtyError::Cancelled(_) => "not-found"@,
        PtyError::DuplicateTab(_) => "invalid-param"@,
        PtyError::ShuttingDown(_) => "shutting-down"@,
    }
}

/// How a PTY's error is spelled.
pub fn pty_err(e: &PtyError) -> (out: HandlerError)
    ensures
        out.says(pty_code(*e), e.text()),
{
    match e {
        PtyError::NotFound(_) | PtyError::Closed(_) | PtyError::Cancelled(_) =>
        HandlerError::not_found(e.message()),
        PtyError::DuplicateTab(_) => HandlerError::invalid_param(e.message()),
        PtyError::ShuttingDown(_) => HandlerError::new("shutting-down", e.message()),
    }
}

/// The code of a tab's error.
pub open spec fn tab_code(e: TabError) -> Seq<char> {
    match e {
        TabError::Gone => "not-found"@,
        TabError::RingMiss { .. } => "not-found"@,
        TabError::SnapshotFailed(_) => "internal"@,
        TabError::Render(_) => "internal"@,
        TabError::WinsizeFailed(_) => "internal"@,
    }
}

/// How a tab's error is spelled.
pub fn tab_err(e: TabError) -> (out: HandlerError)
    ensures
        out.says(tab_code(e), e.text()),
{
    let message = e.message();
    match e {
        TabError::Gone => HandlerError::not_found(message),
        TabError::RingMiss { .. } => HandlerError::not_found(message),
        TabError::SnapshotFailed(_) => HandlerError::internal(message),
        TabError::Render(_) => HandlerError::internal(message),
        TabError::WinsizeFailed(_) => HandlerError::internal(message),
    }
}

/// The words for a tab that could not be given a size.
pub open spec fn resize_refusal(tab_id: i64, cols: u16, rows: u16, why: Seq<char>) -> Seq<char> {
    "tab "@ + text::decimal_int(tab_id as int) + " could not be resized to "@ + text::decimal(
        cols as nat,
    ) + "x"@ + text::decimal(rows as nat) + ": "@ + why
}

/// How a size that an attach could not give its tab is spelled. What the terminal refused is
/// the caller's to fix; what the child did not take is not.
pub fn attach_resize_refusal(tab_id: i64, cols: u16, rows: u16, error: &TabError) -> (out:
    HandlerError)
    ensures
        out.says(
            if *error is WinsizeFailed {
                "internal"@
            } else {
                "invalid-param"@
            },
            resize_refusal(tab_id, cols, rows, error.text()),
        ),
{
    let mut words = text::join3(
        "tab ",
        text::decimal_i64(tab_id).as_str(),
        " could not be resized to ",
    );
    words.append(text::decimal_u64(cols as u64).as_str());
    words.append("x");
    words.append(text::decimal_u64(rows as u64).as_str());
    words.append(": ");
    words.append(error.message().as_str());
    match error {
        TabError::WinsizeFailed(_) => HandlerError::internal(words),
        _ => HandlerError::invalid_param(words),
    }
}

/// A tab that stopped answering.
pub fn tab_gone(tab_id: i64) -> (out: HandlerError)
    ensures
        out.says("not-found"@, "tab "@ + text::decimal_int(tab_id as int) + " is gone"@),
{
    HandlerError::not_found(
        text::join3("tab ", text::decimal_i64(tab_id).as_str(), " is gone"),
    )
}

/// A tab without a terminal of its own.
pub fn no_live_terminal(tab_id: i64) -> (out: HandlerError)
    ensures
        out.says(
            "not-found"@,
            "tab "@ + text::decimal_int(tab_id as int) + " has no live terminal"@,
        ),
{
    HandlerError::not_found(
        text::join3("tab ", text::decimal_i64(tab_id).as_str(), " has no live terminal"),
    )
}

/// A session whose terminals do not run on its side.
pub fn no_server_vt() -> (out: HandlerError)
    ensures
        out.says("unsupported-kind"@, "this session has no server-VT data plane"@),
{
    HandlerError::new("unsupported-kind", "this session has no server-VT data plane".to_owned())
}

/// A session on its way out.
pub fn shutting_down() -> (out: HandlerError)
    ensures
        out.says("shutting-down"@, "session is shutting down"@),
{
    HandlerError::new("shutting-down", "session is shutting down".to_owned())
}

/// Refuses a test's operation outside test mode.
pub fn session_test_mode(test_mode: bool) -> (out: Result<(), HandlerError>)
    ensures
        out is Ok <==> test_mode,
        out matches Err(e) ==> e.says(
            "not-enabled"@,
            "this op requires the session to have been started with ROOST_TEST_MODE=1"@,
        ),
{
    if test_mode {
        return Ok(());
    }
    Err(
        HandlerError::new(
            "not-enabled",
            "this op requires the session to have been started with ROOST_TEST_MODE=1".to_owned(),
        ),
    )
}

/// How words from a decoder are spelled: by what they complain of.
pub fn decode_err(message: String) -> (out: HandlerError)
    ensures
        out.says(
            if text::occurs(message@, "unknown field"@) {
                "unknown-field"@
            } else if text::occurs(message@, "missing field"@) {
                "missing-param"@
            } else {
                "invalid-param"@
            },
            message@,
        ),
{
    if text::contains_text(message.as_str(), "unknown field") {
        HandlerError::new("unknown-field", message)
    } else if text::contains_text(message.as_str(), "missing field") {
        HandlerError::new("missing-param", message)
    } else {
        HandlerError::invalid_param(message)
    }
}

/// Whether words from a UI say that the caller asked for the wrong thing.
pub open spec fn callers_fault(err: Seq<char>) -> bool {
    ||| text::occurs(err, "is not the active terminal"@)
    ||| text::occurs(err, "no menu item"@)
    ||| text::occurs(err, "ambiguous menu"@)
    ||| text::occurs(err, "is disabled"@)
    ||| text::occurs(err, "has no submenu to descend into"@)
    ||| text::occurs(err, "must not be empty"@)
    ||| text::occurs(err, "unknown keybind action"@)
}

/// The code for words from a UI about a test's operation.
pub open spec fn test_op_code(err: Seq<char>) -> Seq<char> {
    if text::occurs(err, "ROOST_TEST_MODE"@) {
        "not-enabled"@
    } else if text::occurs(err, "has no live terminal"@) || text::occurs(
        err,
        "no word/line span"@,
    ) {
        "not-found"@
    } else if callers_fault(err) {
        "invalid-param"@
    } else if text::occurs(err, "not supported on this UI"@) {
        "not-implemented"@
    } else {
        "internal"@
    }
}

/// How words from a UI about a test's operation are spelled.
pub fn map_test_op_err(err: String) -> (out: HandlerError)
    ensures
        out.says(test_op_code(err@), err@),
{
    let e = err.as_str();
    if text::contains_text(e, "ROOST_TEST_MODE") {
        return HandlerError::new("not-enabled", err);
    }
    if text::contains_text(e, "has no live terminal") || text::contains_text(
        e,
        "no word/line span",
    ) {
        return HandlerError::not_found(err);
    }
    let fault: bool = text::contains_text(e, "is not the active terminal") || text::contains_text(
        e,
        "no menu item",
    ) || text::contains_text(e, "ambiguous menu") || text::contains_text(e, "is disabled")
        || text::contains_text(e, "has no submenu to descend into") || text::contains_text(
        e,
        "must not be empty",
    ) || text::contains_text(e, "unknown keybind action");
    if fault {
        return HandlerError::invalid_param(err);
    }
    if text::contains_text(e, "not supported on this UI") {
        return HandlerError::new("not-implemented", err);
    }
    HandlerError::internal(err)
}

/// How words from a palette are spelled: what was acted on is not there.
pub fn palette_err(message: String) -> (out: HandlerError)
    ensures
        out.says("not-found"@, message@),
{
    HandlerError::not_found(message)
}

/// Which clipboard is meant.
#[derive(Clone, Copy, Debug, PartialEq, Eq, Structural)]
pub enum ClipboardOp {
    System,
    Selection,
}

/// The clipboard that goes by a name. A name that is neither is refused rather than taken for
/// the system's.
pub fn parse_clipboard_op(s: &str) -> (out: Result<ClipboardOp, HandlerError>)
    ensures
        s@ == "system"@ ==> out == Ok::<_, HandlerError>(ClipboardOp::System),
        s@ == "selection"@ && s@ != "system"@ ==> out == Ok::<_, HandlerError>(
            ClipboardOp::Selection,
        ),
        s@ != "system"@ && s@ != "selection"@ ==> (out matches Err(e) && e.says(
            "invalid-param"@,
            "clipboard target must be \"system\" or \"selection\" (got "@ + text::debug_text(s@)
                + ")"@,
        )),
{
    if text::same_text(s, "system") {
        return Ok(ClipboardOp::System);
    }
    if text::same_text(s, "selection") {
        return Ok(ClipboardOp::Selection);
    }
    Err(
        HandlerError::invalid_param(
            text::join3(
                "clipboard target must be \"system\" or \"selection\" (got ",
                text::quoted(s).as_str(),
                ")",
            ),
        ),
    )
}

/// What a client asks to have its agents' hooks set to.
#[derive(Debug, PartialEq, Eq)]
pub struct AgentHooksRequest {
    pub agents: Vec<String>,
    /// How the client calls itself.
    pub client: String,
}

/// Why no hooks were set.
#[derive(Debug, PartialEq, Eq)]
pub enum AgentHooksError {
    /// The request is malformed, and nothing was written.
    InvalidParam(String),
    /// The whole run failed.
    Failed(String),
}

impl AgentHooksError {
    /// How the error is spelled.
    pub fn refusal(self) -> (out: HandlerError)
        ensures
            match self {
                AgentHooksError::InvalidParam(message) => out.says("invalid-param"@, message@),
                AgentHooksError::Failed(message) => out.says("internal"@, message@),
            },
    {
        match self {
            AgentHooksError::InvalidParam(message) => HandlerError::invalid_param(message),
            AgentHooksError::Failed(message) => HandlerError::internal(message),
        }
    }
}

/// A request that only an app can serve.
pub open spec fn ui_needed(what: Seq<char>, because: Seq<char>) -> Seq<char> {
    what + " needs a UI: "@ + because
}

/// A request that only an app can serve.
pub fn needs_a_ui(what: &str, because: &str) -> (out: HandlerError)
    ensures
        out.says("invalid-param"@, ui_needed(what@, because@)),
{
    HandlerError::invalid_param(text::join3(what, " needs a UI: ", because))
}

/// Which code answers which failure: what is not there is not found, what the caller got wrong
/// is an invalid parameter, and what went wrong within is internal.
pub proof fn law_a_code_says_whose_fault_it_is(kind: WorkspaceErrorKind, id: i64, e: TabError)
    ensures
        workspace_code(kind) == "not-found"@ <==> kind is ProjectNotFound || kind is TabNotFound
            || kind is HostNotFound,
        workspace_code(kind) == "internal"@ <==> kind is Io || kind is Json || kind is Inconsistent,
        workspace_code(kind) == "invalid-param"@ <==> kind is TabProjectMismatch
            || kind is HostLabelEmpty || kind is HostLabelReserved || kind is HostLabelTaken
            || kind is ProjectNameBlank || kind is ProjectCwdRequired,
        pty_code(PtyError::NotFound(id)) == "not-found"@,
        pty_code(PtyError::Closed(id)) == "not-found"@,
        pty_code(PtyError::Cancelled(id)) == "not-found"@,
        pty_code(PtyError::DuplicateTab(id)) == "invalid-param"@,
        pty_code(PtyError::ShuttingDown(id)) == "shutting-down"@,
        e is Gone || e is RingMiss ==> tab_code(e) == "not-found"@,
        e is SnapshotFailed || e is Render || e is WinsizeFailed ==> tab_code(e) == "internal"@,
{
    reveal_strlit("not-found");
    reveal_strlit("internal");
    reveal_strlit("invalid-param");
    assert("not-found"@.len() == 9);
    assert("internal"@.len() == 8);
    assert("invalid-param"@.len() == 13);
}

/// Which words make a failed test operation the caller's: each of these phrases does, wherever
/// in the message it stands.
pub proof fn law_a_phrase_makes_it_the_callers(before: Seq<char>, behind: Seq<char>)
    ensures
        callers_fault(before + "is not the active terminal"@ + behind),
        callers_fault(before + "no menu item"@ + behind),
        callers_fault(before + "ambiguous menu"@ + behind),
        callers_fault(before + "is disabled"@ + behind),
        callers_fault(before + "has no submenu to descend into"@ + behind),
        callers_fault(before + "must not be empty"@ + behind),
        callers_fault(before + "unknown keybind action"@ + behind),
{
    text::law_a_text_stands_where_it_was_put(before, "is not the active terminal"@, behind);
    text::law_a_text_stands_where_it_was_put(before, "no menu item"@, behind);
    text::law_a_text_stands_where_it_was_put(before, "ambiguous menu"@, behind);
    text::law_a_text_stands_where_it_was_put(before, "is disabled"@, behind);
    text::law_a_text_stands_where_it_was_put(before, "has no submenu to descend into"@, behind);
    text::law_a_text_stands_where_it_was_put(before, "must not be empty"@, behind);
    text::law_a_text_stands_where_it_was_put(before, "unknown keybind action"@, behind);
}

/// How a failed test operation is sorted: by the mode it asks for before anything else, then by
/// what is not there, then by what the caller got wrong, then by what the UI cannot do; the rest
/// is internal.
pub proof fn law_a_test_failure_is_sorted_in_order(before: Seq<char>, behind: Seq<char>, err: Seq<char>)
    ensures
        test_op_code(before + "ROOST_TEST_MODE"@ + behind) == "not-enabled"@,
        !text::occurs(err, "ROOST_TEST_MODE"@) && (text::occurs(err, "has no live terminal"@)
            || text::occurs(err, "no word/line span"@)) ==> test_op_code(err) == "not-found"@,
        !text::occurs(err, "ROOST_TEST_MODE"@) && !text::occurs(err, "has no live terminal"@)
            && !text::occurs(err, "no word/line span"@) ==> {
            &&& callers_fault(err) ==> test_op_code(err) == "invalid-param"@
            &&& !callers_fault(err) && text::occurs(err, "not supported on this UI"@)
                ==> test_op_code(err) == "not-implemented"@
            &&& !callers_fault(err) && !text::occurs(err, "not supported on this UI"@)
                ==> test_op_code(err) == "internal"@
        },
{
    text::law_a_text_stands_where_it_was_put(before, "ROOST_TEST_MODE"@, behind);
}

/// What a refused size and a missing UI are told.
pub proof fn law_a_refusal_names_its_subject(
    tab_id: i64,
    cols: u16,
    rows: u16,
    why: Seq<char>,
    what: Seq<char>,
)
    ensures
        resize_refusal(tab_id, cols, rows, why) == "tab "@ + text::decimal_int(tab_id as int)
            + " could not be resized to "@ + text::decimal(cols as nat) + "x"@ + text::decimal(
            rows as nat,
        ) + ": "@ + why,
        ui_needed(what, why) == what + " needs a UI: "@ + why,
{
}

} // verus!
