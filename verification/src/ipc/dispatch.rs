//! What a socket does with a request that it knows: what it refuses at once, and whom it asks
//! for the rest.
use crate::facade::TabOpenParams;
use crate::ipc::errors::{
    dump_err, map_test_op_err, needs_a_ui, parse_clipboard_op, pty_err, session_test_mode, ws_err,
    ClipboardOp, DumpError, HandlerError, HostOpFailure,
};
use crate::ipc::errors;
use crate::ipc::ops::{LocalBackendMode, Op, OpClass, Withheld};
use crate::ipc::ops;
use crate::ipc::routes::{
    bare_tab, project_reorder_route, tab_reorder_route, ReorderInstance, TabReorderParams,
    WireProjectRef, WireTabRef,
};
use crate::ipc::routes;
use crate::ipc::theme::rgb_hex;
use crate::ipc::theme;
use crate::ipc::{ResolvedCellData, ResolvedCellsData, SelectionData};
use crate::pointer::{PointerAction, PointerButton};
use crate::text;
use crate::workspace::{ApplicationError, WorkspaceError};
use vstd::prelude::*;
use vstd::slice::slice_subrange;

verus! {

/// A request about a tab.
#[allow(inconsistent_fields)]
#[derive(Debug, PartialEq, Eq)]
pub enum TabRequest {
    TabOpen(TabOpenParams),
    TabClose { tab_id: i64 },
    TabList,
    TabWrite { tab_id: i64, data: Vec<u8> },
    TabResize { tab_id: i64, cols: u32, rows: u32 },
    TabDump { tab: WireTabRef, scrollback: u32 },
    TabReorder(TabReorderParams),
    TabFocus { tab: WireTabRef },
    /// `parsed` is what `tab` means, if it means anything.
    TabSendFile { tab: String, parsed: Option<WireTabRef>, paths: Vec<String> },
    TabSetTitle { tab_id: i64, title: String },
    TabSetState { tab_id: i64, state: String },
    TabClearNotification { tab_id: i64, generation: Option<u64> },
    TabSetHookActive { tab_id: i64, active: bool },
    /// `fault` is what is wrong with the report's shape, if anything is.
    TabAgentReport { report: String, fault: Option<String> },
    TabFeedPtyBytes { tab_id: i64, data: Vec<u8> },
    TabCapturePtyInput { tab: WireTabRef, drain: bool },
    TabDumpResolved { tab: WireTabRef },
}

/// A request about projects, notifications or the hosts that are known.
#[allow(inconsistent_fields)]
#[derive(Debug, PartialEq, Eq)]
pub enum WorkspaceRequest {
    ProjectCreate { name: String, cwd: String },
    ProjectEnsure { name: String, cwd: Option<String> },
    ProjectRename { project_id: i64, name: String },
    ProjectDelete { project_id: i64 },
    ProjectReorder { project_ids: Vec<WireProjectRef> },
    NotificationCreate { tab_id: i64, title: String, body: String },
    HostAdd { label: String, target: String },
    HostRemove { id: String },
    HostList,
}

/// A request to an app whose parameters are looked at first.
#[allow(inconsistent_fields)]
#[derive(Debug, PartialEq, Eq)]
pub enum CheckedRequest {
    Screenshot { scale: u32 },
    PaletteOpen { kind: String },
    PalettePresent {
        title: String,
        placeholder: String,
        items: Vec<(String, String, Option<String>)>,
    },
    ClipboardDump { target: String },
    ClipboardWrite { target: String, text: Option<String>, image_png: Option<Vec<u8>> },
    TabExpandSelectionAt { tab_id: i64, col: u16, row: u16, click_count: u8 },
    TabFeedIme {
        tab_id: i64,
        action: String,
        text: String,
        cursor_start: Option<u64>,
        cursor_end: Option<u64>,
    },
    /// The numbers as they were written, and whether both are positive and finite.
    WindowResize { width: String, height: String, positive: bool },
    /// The number as it was written, and whether it is positive and finite.
    SidebarSetWidth { width: String, positive: bool },
    TabDispatchMouseEvent {
        tab_id: i64,
        kind: String,
        button: String,
        cell_x: u32,
        cell_y: u32,
        mods: u32,
    },
    AppDialogAnswer { action: String },
    AppKeybindDispatch { action: String },
}

/// A request to an app about what its window shows.
#[allow(inconsistent_fields)]
#[derive(Debug, PartialEq, Eq)]
pub enum AppRequest {
    WindowMetrics,
    AppRenderStats { reset: bool },
    SidebarDump,
    PaletteState,
    PaletteQuery { query: String },
    PaletteActivate { id: String },
    PaletteDismiss,
    SelectionSet { tab_id: i64, anchor: (u16, u16), cursor: (u16, u16) },
    SelectionClear { tab_id: i64 },
    SelectionDump { tab_id: i64 },
    AppSetWindowFocus { focus: bool },
    AppCursorShape,
    AppActiveTerminalFocused,
}

/// A request to an app about its desk: menus, dialogs, updates, hooks and connections.
#[allow(inconsistent_fields)]
#[derive(Debug, PartialEq, Eq)]
pub enum DeskRequest {
    AppSelectedTabId,
    AppDockBadge,
    AppMenuDump,
    AppMenuActivate { path: Vec<String> },
    AppDialogDump,
    AppUpdateStatus,
    AppUpdateCheck,
    AppNotificationStatus,
    AgentSetHooks { agents: Vec<String> },
    HostConnect { id: String, test_user_origin: bool },
    HostDisconnect { id: String },
    HostStatus { id: Option<String> },
}

/// A request whose parameters were read.
#[derive(Debug, PartialEq, Eq)]
pub enum Request {
    Identify,
    AppActivate,
    EventsSubscribe,
    Tab(TabRequest),
    Workspace(WorkspaceRequest),
    Checked(CheckedRequest),
    App(AppRequest),
    Desk(DeskRequest),
}

/// What an app is asked to do.
#[allow(inconsistent_fields)]
#[derive(Debug, PartialEq, Eq)]
pub enum UiRequest {
    Activate,
    Screenshot { scale: u32 },
    Dump { tab: WireTabRef, scrollback: u32 },
    PaletteOpen { kind: String },
    PaletteState,
    PaletteQuery { query: String },
    PaletteActivate { id: String },
    PaletteDismiss,
    PalettePresent {
        title: String,
        placeholder: String,
        items: Vec<(String, String, Option<String>)>,
    },
    SelectionSet { tab_id: i64, anchor: (u16, u16), cursor: (u16, u16) },
    SelectionClear { tab_id: i64 },
    SelectionDump { tab_id: i64 },
    ClipboardDump { target: ClipboardOp },
    ClipboardWrite { target: ClipboardOp, text: String },
    ClipboardWriteImage { png: Vec<u8> },
    TabFeedPtyBytes { tab_id: i64, data: Vec<u8> },
    TabCapturePtyInput { tab: WireTabRef, drain: bool },
    TabDumpResolved { tab: WireTabRef },
    TabExpandSelectionAt { tab_id: i64, col: u16, row: u16, click_count: u8 },
    TabFeedIme { tab_id: i64, action: String, text: String, cursor: Option<(u64, u64)> },
    WindowMetrics,
    AppRenderStats { reset: bool },
    SidebarDump,
    WindowResize { width: String, height: String },
    SidebarSetWidth { width: String },
    TabDispatchMouseEvent {
        tab_id: i64,
        kind: PointerAction,
        button: Option<PointerButton>,
        cell_x: u32,
        cell_y: u32,
        mods: u32,
    },
    AppSetWindowFocus { focused: bool },
    AppCursorShape,
    AppActiveTerminalFocused,
    AppSelectedTabId,
    AppDockBadge,
    AppMenuDump,
    AppMenuActivate { path: Vec<String> },
    AppDialogDump,
    AppDialogAnswer { action: String },
    AppKeybindDispatch { action: String },
    AppUpdateStatus,
    AppUpdateCheck,
    AppNotificationStatus,
    AgentSetHooks { agents: Vec<String> },
    HostAdd { label: String, target: String },
    HostRemove { id: String },
    HostTabFocus { host: u32, tab_id: i64 },
    TabSendFile { tab: WireTabRef, paths: Vec<String> },
    /// A request for the session that the app's tabs live in, with its parameters as the
    /// client wrote them.
    LocalSessionForward { op: Op, params: String },
    HostTabReorder { host: u32, project_id: i64, tab_ids: Vec<i64> },
    HostProjectReorder { host: u32, project_ids: Vec<i64> },
    HostConnect { id: String, test_user_origin: bool },
    HostDisconnect { id: String },
    HostStatus { id: Option<String> },
}

/// What the workspace is asked to do.
#[derive(Debug, PartialEq, Eq)]
pub enum WorkspaceCall {
    /// Close a tab, in the steps of [`crate::ipc::carry`].
    CloseTab { tab_id: i64 },
    /// The revision goes along where the socket also serves the changes that follow it.
    ListTabs { with_revision: bool },
    CreateProject { name: String, cwd: String },
    EnsureProject { name: String, cwd: String },
    RenameProject { project_id: i64, name: String },
    /// Delete a project, in the steps of [`crate::ipc::carry`].
    DeleteProject { project_id: i64 },
    ReorderTabs { project_id: i64, tab_ids: Vec<i64> },
    ReorderProjects { project_ids: Vec<i64> },
    FocusTab { tab_id: i64 },
    SetTitle { tab_id: i64, title: String },
    SetState { tab_id: i64, state: String },
    ClearNotification { tab_id: i64, generation: Option<u64> },
    SetHookActive { tab_id: i64, active: bool },
    ReportAgent { report: String },
    RaiseAttention { tab_id: i64, title: String, body: String },
    AddHost { label: String, target: String },
    RemoveHost { id: String },
    ListHosts,
}

/// What a session's tab is asked to do.
#[derive(Debug, PartialEq, Eq)]
pub enum TabQuery {
    Dump { tab_id: i64, scrollback: u32 },
    DumpResolved { tab_id: i64 },
    /// Feed these chunks, one after the other.
    Feed { tab_id: i64, chunks: Vec<Vec<u8>> },
    Capture { tab_id: i64, drain: bool },
}

/// How a failure is spelled to the client.
#[derive(Clone, Copy, Debug, PartialEq, Eq, Structural)]
pub enum Spelling {
    Internal,
    NotFound,
    TestOp,
    /// By its own code.
    AsIs,
    Workspace,
    Dump,
}

/// What is done for a request.
#[derive(Debug, PartialEq, Eq)]
pub enum Plan {
    Identify,
    /// Open a tab in this size, in the steps of [`crate::ipc::carry`].
    OpenTab { params: TabOpenParams, size: Result<(u16, u16), HandlerError> },
    Workspace(WorkspaceCall),
    Write { tab_id: i64, data: Vec<u8> },
    Resize { tab_id: i64, cols: u16, rows: u16 },
    /// Ask the app and wait.
    Ui(UiRequest, Spelling),
    /// Tell the app, if there is one, and do not wait.
    Notify(UiRequest),
    Tab(TabQuery),
}

/// What a request's fate depends on besides itself.
#[derive(Debug, PartialEq, Eq)]
pub struct HandlerFacts {
    pub is_session: bool,
    pub has_ui: bool,
    /// Whether a session runs its tabs' terminals itself.
    pub server_vt: bool,
    /// Whether a session is in test mode.
    pub test_mode: bool,
    /// The size of a tab that is opened without one.
    pub default_size: (u16, u16),
    /// Where the environment says that the user's files are.
    pub home: Option<String>,
    /// The most history that a dump carries.
    pub max_dump_scrollback: u32,
}

impl HandlerFacts {
    /// Whether a session answers for its tabs' terminals itself.
    pub open spec fn serves_tabs(self) -> bool {
        self.is_session && self.server_vt
    }
}

/// Whether a request is refused with this code and these words.
pub open spec fn refused(out: Result<Plan, HandlerError>, code: Seq<char>, words: Seq<char>) -> bool {
    out matches Err(e) && e.says(code, words)
}

/// Whether an app is asked, or the lack of one is reported.
pub open spec fn asks_ui(
    facts: HandlerFacts,
    out: Result<Plan, HandlerError>,
    request: UiRequest,
    spelling: Spelling,
) -> bool {
    if facts.has_ui {
        out == Ok::<_, HandlerError>(Plan::Ui(request, spelling))
    } else {
        refused(out, "internal"@, "no UI attached"@)
    }
}

/// Whether the workspace is asked.
pub open spec fn asks_workspace(out: Result<Plan, HandlerError>, call: WorkspaceCall) -> bool {
    out == Ok::<_, HandlerError>(Plan::Workspace(call))
}

fn ask_ui(facts: &HandlerFacts, request: UiRequest, spelling: Spelling) -> (out: Result<
    Plan,
    HandlerError,
>)
    ensures
        asks_ui(*facts, out, request, spelling),
{
    if facts.has_ui {
        Ok(Plan::Ui(request, spelling))
    } else {
        Err(HandlerError::internal("no UI attached".to_owned()))
    }
}

/// Whether a size is what the numbers ask for: zero means the default, and one that does not
/// fit is refused, the columns first.
pub open spec fn size_of(
    size: Result<(u16, u16), HandlerError>,
    cols: u32,
    rows: u32,
    default: (u16, u16),
) -> bool {
    if cols > u16::MAX {
        size matches Err(e) && e.says("invalid-param"@, "cols out of u16 range"@)
    } else if rows > u16::MAX {
        size matches Err(e) && e.says("invalid-param"@, "rows out of u16 range"@)
    } else {
        size == Ok::<_, HandlerError>(
            (
                if cols == 0 {
                    default.0
                } else {
                    cols as u16
                },
                if rows == 0 {
                    default.1
                } else {
                    rows as u16
                },
            ),
        )
    }
}

fn open_size(cols: u32, rows: u32, default: (u16, u16)) -> (size: Result<(u16, u16), HandlerError>)
    ensures
        size_of(size, cols, rows, default),
{
    if cols > 0xffff {
        return Err(HandlerError::invalid_param("cols out of u16 range".to_owned()));
    }
    if rows > 0xffff {
        return Err(HandlerError::invalid_param("rows out of u16 range".to_owned()));
    }
    let cols: u16 = if cols == 0 {
        default.0
    } else {
        cols as u16
    };
    let rows: u16 = if rows == 0 {
        default.1
    } else {
        rows as u16
    };
    Ok((cols, rows))
}

/// The most bytes that a chunk holds, as many as one read from a child brings.
pub const FEED_CHUNK_BYTES: usize = 4096;

/// Bytes cut into chunks, every one but the last full, and none empty.
pub open spec fn chunks(data: Seq<u8>) -> Seq<Seq<u8>>
    decreases data.len(),
{
    if data.len() == 0 {
        seq![]
    } else if data.len() <= 4096 {
        seq![data]
    } else {
        seq![data.take(4096)] + chunks(data.skip(4096))
    }
}

/// Chunks by what they hold.
pub open spec fn chunk_views(list: Seq<Vec<u8>>) -> Seq<Seq<u8>> {
    Seq::new(list.len(), |i: int| list[i]@)
}

fn bytes_of(data: &[u8]) -> (out: Vec<u8>)
    ensures
        out@ == data@,
{
    let mut out: Vec<u8> = Vec::new();
    let mut i: usize = 0;
    while i < data.len()
        invariant
            i <= data@.len(),
            out@ == data@.take(i as int),
        decreases data@.len() - i,
    {
        out.push(data[i]);
        assert(out@ =~= data@.take(i + 1));
        i = i + 1;
    }
    assert(data@.take(i as int) =~= data@);
    out
}

/// Cuts bytes into chunks.
pub fn feed_chunks(data: &Vec<u8>) -> (out: Vec<Vec<u8>>)
    ensures
        chunk_views(out@) == chunks(data@),
{
    let mut out: Vec<Vec<u8>> = Vec::new();
    let mut from: usize = 0;
    let total: usize = data.len();
    assert(data@.skip(0) =~= data@);
    assert(chunk_views(out@) + chunks(data@) =~= chunks(data@));
    while from < total
        invariant
            from <= total,
            total == data@.len(),
            chunk_views(out@) + chunks(data@.skip(from as int)) == chunks(data@),
        decreases total - from,
    {
        let left: usize = total - from;
        let size: usize = if left < FEED_CHUNK_BYTES {
            left
        } else {
            FEED_CHUNK_BYTES
        };
        let piece = bytes_of(slice_subrange(data.as_slice(), from, from + size));
        let ghost before = chunk_views(out@);
        let ghost rest = data@.skip(from as int);
        out.push(piece);
        proof {
            assert(chunk_views(out@) =~= before.push(piece@));
            assert(piece@ =~= rest.take(size as int));
            assert(rest.skip(size as int) =~= data@.skip(from + size));
            if rest.len() <= 4096 {
                assert(piece@ =~= rest);
                assert(data@.skip(from + size) =~= seq![]);
                assert(chunks(rest) =~= seq![rest]);
                assert(before.push(piece@) + chunks(data@.skip(from + size)) =~= before + chunks(
                    rest,
                ));
            } else {
                assert(chunks(rest) =~= seq![piece@] + chunks(data@.skip(from + size)));
                assert(before.push(piece@) + chunks(data@.skip(from + size)) =~= before + chunks(
                    rest,
                ));
            }
        }
        from = from + size;
    }
    assert(data@.skip(from as int) =~= seq![]);
    assert(chunk_views(out@) + seq![] =~= chunk_views(out@));
    out
}

/// The chunks, end to end.
pub open spec fn joined_chunks(list: Seq<Seq<u8>>) -> Seq<u8>
    decreases list.len(),
{
    if list.len() == 0 {
        seq![]
    } else {
        list[0] + joined_chunks(list.drop_first())
    }
}

/// Nothing is lost in the cutting, nothing is empty, and no chunk is larger than a read.
pub proof fn law_chunks_carry_everything(data: Seq<u8>)
    ensures
        joined_chunks(chunks(data)) == data,
        forall|i: int|
            0 <= i < chunks(data).len() ==> 0 < (#[trigger] chunks(data)[i]).len() <= 4096,
    decreases data.len(),
{
    reveal_with_fuel(joined_chunks, 2);
    if data.len() == 0 {
    } else if data.len() <= 4096 {
        assert(seq![data].drop_first() =~= seq![]);
        assert(joined_chunks(seq![data]) =~= data);
    } else {
        law_chunks_carry_everything(data.skip(4096));
        let rest = chunks(data.skip(4096));
        let all = seq![data.take(4096)] + rest;
        assert(all.drop_first() =~= rest);
        assert(data.take(4096) + data.skip(4096) =~= data);
        assert forall|i: int| 0 <= i < all.len() implies 0 < (#[trigger] all[i]).len() <= 4096 by {
            if i > 0 {
                assert(all[i] == rest[i - 1]);
            }
        }
    }
}

/// The mouse action that goes by a name.
pub open spec fn mouse_kind(kind: Seq<char>) -> Option<PointerAction> {
    if kind == "press"@ {
        Some(PointerAction::Press)
    } else if kind == "release"@ {
        Some(PointerAction::Release)
    } else if kind == "motion"@ {
        Some(PointerAction::Motion)
    } else {
        None
    }
}

/// The button that goes by a name: none for the word that means none.
pub open spec fn mouse_button(button: Seq<char>) -> Option<Option<PointerButton>> {
    if button == "left"@ {
        Some(Some(PointerButton::Left))
    } else if button == "right"@ {
        Some(Some(PointerButton::Right))
    } else if button == "middle"@ {
        Some(Some(PointerButton::Middle))
    } else if button == "wheel_up"@ {
        Some(Some(PointerButton::Four))
    } else if button == "wheel_down"@ {
        Some(Some(PointerButton::Five))
    } else if button == "none"@ {
        Some(None)
    } else {
        None
    }
}

fn parse_mouse_kind(kind: &str) -> (out: Option<PointerAction>)
    ensures
        out == mouse_kind(kind@),
{
    if text::same_text(kind, "press") {
        Some(PointerAction::Press)
    } else if text::same_text(kind, "release") {
        Some(PointerAction::Release)
    } else if text::same_text(kind, "motion") {
        Some(PointerAction::Motion)
    } else {
        None
    }
}

fn parse_mouse_button(button: &str) -> (out: Option<Option<PointerButton>>)
    ensures
        out == mouse_button(button@),
{
    if text::same_text(button, "left") {
        Some(Some(PointerButton::Left))
    } else if text::same_text(button, "right") {
        Some(Some(PointerButton::Right))
    } else if text::same_text(button, "middle") {
        Some(Some(PointerButton::Middle))
    } else if text::same_text(button, "wheel_up") {
        Some(Some(PointerButton::Four))
    } else if text::same_text(button, "wheel_down") {
        Some(Some(PointerButton::Five))
    } else if text::same_text(button, "none") {
        Some(None)
    } else {
        None
    }
}

/// Whether a palette goes by a name.
pub open spec fn palette_kind(kind: Seq<char>) -> bool {
    kind == ""@ || kind == "commands"@ || kind == "launcher"@ || kind == "custom"@ || kind
        == "agents"@
}

fn is_palette_kind(kind: &str) -> (yes: bool)
    ensures
        yes == palette_kind(kind@),
{
    text::same_text(kind, "") || text::same_text(kind, "commands") || text::same_text(
        kind,
        "launcher",
    ) || text::same_text(kind, "custom") || text::same_text(kind, "agents")
}

/// Whether a dialog has such an answer. Which agents there are is the dialog's to say.
pub open spec fn dialog_answer(action: Seq<char>) -> bool {
    action == "confirm"@ || action == "cancel"@ || (text::begins(action, "toggle:"@)
        && action.len() > "toggle:"@.len())
}

fn is_dialog_answer(action: &str) -> (yes: bool)
    ensures
        yes == dialog_answer(action@),
{
    if text::same_text(action, "confirm") || text::same_text(action, "cancel") {
        return true;
    }
    match text::strip_prefix(action, "toggle:") {
        Some(agent) => !agent.as_str().is_empty(),
        None => false,
    }
}

/// Whether an input method has such an event.
pub open spec fn ime_action(action: Seq<char>) -> bool {
    action == "preedit"@ || action == "commit"@ || action == "clear"@
}

fn is_ime_action(action: &str) -> (yes: bool)
    ensures
        yes == ime_action(action@),
{
    text::same_text(action, "preedit") || text::same_text(action, "commit") || text::same_text(
        action,
        "clear",
    )
}

/// What is asked for a write to a clipboard: text or a picture, one of them, and a picture
/// only for the system's.
pub open spec fn clipboard_write(
    facts: HandlerFacts,
    target: Seq<char>,
    text: Option<String>,
    image_png: Option<Vec<u8>>,
    out: Result<Plan, HandlerError>,
) -> bool {
    if target != "system"@ && target != "selection"@ {
        refused(
            out,
            "invalid-param"@,
            "clipboard target must be \"system\" or \"selection\" (got "@ + text::debug_text(
                target,
            ) + ")"@,
        )
    } else if text is Some && image_png is Some {
        refused(
            out,
            "invalid-param"@,
            "clipboard.write takes `text` or `image_png`, not both"@,
        )
    } else if image_png is Some {
        if target != "system"@ {
            refused(
                out,
                "invalid-param"@,
                "clipboard.write `image_png` requires target \"system\""@,
            )
        } else {
            asks_ui(
                facts,
                out,
                UiRequest::ClipboardWriteImage { png: image_png->0 },
                Spelling::AsIs,
            )
        }
    } else if text is None {
        refused(out, "missing-param"@, "clipboard.write requires `text`"@)
    } else {
        out == Ok::<_, HandlerError>(
            Plan::Notify(
                UiRequest::ClipboardWrite {
                    target: if target == "system"@ {
                        ClipboardOp::System
                    } else {
                        ClipboardOp::Selection
                    },
                    text: text->0,
                },
            ),
        )
    }
}

fn plan_clipboard_write(
    facts: &HandlerFacts,
    target: String,
    text: Option<String>,
    image_png: Option<Vec<u8>>,
) -> (out: Result<Plan, HandlerError>)
    ensures
        clipboard_write(*facts, target@, text, image_png, out),
{
    let place = match parse_clipboard_op(target.as_str()) {
        Ok(place) => place,
        Err(e) => {
            return Err(e);
        },
    };
    if text.is_some() && image_png.is_some() {
        return Err(
            HandlerError::invalid_param(
                "clipboard.write takes `text` or `image_png`, not both".to_owned(),
            ),
        );
    }
    match image_png {
        Some(png) => {
            match place {
                ClipboardOp::System => {},
                ClipboardOp::Selection => {
                    return Err(
                        HandlerError::invalid_param(
                            "clipboard.write `image_png` requires target \"system\"".to_owned(),
                        ),
                    );
                },
            }
            ask_ui(facts, UiRequest::ClipboardWriteImage { png }, Spelling::AsIs)
        },
        None => match text {
            Some(text) => Ok(Plan::Notify(UiRequest::ClipboardWrite { target: place, text })),
            None => Err(
                HandlerError::new("missing-param", "clipboard.write requires `text`".to_owned()),
            ),
        },
    }
}

/// What is asked for an event of an input method: a known one, whose cursor is a range or
/// not given at all.
pub open spec fn feed_ime(
    facts: HandlerFacts,
    tab_id: i64,
    action: String,
    text: String,
    cursor_start: Option<u64>,
    cursor_end: Option<u64>,
    out: Result<Plan, HandlerError>,
) -> bool {
    if !ime_action(action@) {
        refused(
            out,
            "invalid-param"@,
            "action must be one of preedit/commit/clear (got "@ + text::debug_text(action@) + ")"@,
        )
    } else if cursor_start is Some != cursor_end is Some {
        refused(
            out,
            "invalid-param"@,
            "cursor_start and cursor_end must be given together"@,
        )
    } else if cursor_start is Some && cursor_start->0 > cursor_end->0 {
        refused(
            out,
            "invalid-param"@,
            "cursor_start must be <= cursor_end (got "@ + text::decimal(cursor_start->0 as nat)
                + ".."@ + text::decimal(cursor_end->0 as nat) + ")"@,
        )
    } else {
        asks_ui(
            facts,
            out,
            UiRequest::TabFeedIme {
                tab_id,
                action,
                text,
                cursor: if cursor_start is Some {
                    Some((cursor_start->0, cursor_end->0))
                } else {
                    None
                },
            },
            Spelling::TestOp,
        )
    }
}

fn plan_feed_ime(
    facts: &HandlerFacts,
    tab_id: i64,
    action: String,
    text: String,
    cursor_start: Option<u64>,
    cursor_end: Option<u64>,
) -> (out: Result<Plan, HandlerError>)
    ensures
        feed_ime(*facts, tab_id, action, text, cursor_start, cursor_end, out),
{
    if !is_ime_action(action.as_str()) {
        return Err(
            HandlerError::invalid_param(
                text::join3(
                    "action must be one of preedit/commit/clear (got ",
                    text::quoted(action.as_str()).as_str(),
                    ")",
                ),
            ),
        );
    }
    let cursor: Option<(u64, u64)> = match (cursor_start, cursor_end) {
        (Some(start), Some(end)) => {
            if start > end {
                return Err(
                    HandlerError::invalid_param(
                        text::join5(
                            "cursor_start must be <= cursor_end (got ",
                            text::decimal_u64(start).as_str(),
                            "..",
                            text::decimal_u64(end).as_str(),
                            ")",
                        ),
                    ),
                );
            }
            Some((start, end))
        },
        (None, None) => None,
        _ => {
            return Err(
                HandlerError::invalid_param(
                    "cursor_start and cursor_end must be given together".to_owned(),
                ),
            );
        },
    };
    ask_ui(facts, UiRequest::TabFeedIme { tab_id, action, text, cursor }, Spelling::TestOp)
}

/// What is asked for a mouse event.
pub open spec fn mouse_event(
    facts: HandlerFacts,
    tab_id: i64,
    kind: Seq<char>,
    button: Seq<char>,
    cell_x: u32,
    cell_y: u32,
    mods: u32,
    out: Result<Plan, HandlerError>,
) -> bool {
    if mouse_kind(kind) is None {
        refused(
            out,
            "invalid-param"@,
            "kind must be one of press|release|motion (got "@ + kind + ")"@,
        )
    } else if mouse_button(button) is None {
        refused(
            out,
            "invalid-param"@,
            "button must be one of left|right|middle|wheel_up|wheel_down|none (got "@ + button
                + ")"@,
        )
    } else {
        asks_ui(
            facts,
            out,
            UiRequest::TabDispatchMouseEvent {
                tab_id,
                kind: mouse_kind(kind)->0,
                button: mouse_button(button)->0,
                cell_x,
                cell_y,
                mods,
            },
            Spelling::TestOp,
        )
    }
}

fn plan_mouse_event(
    facts: &HandlerFacts,
    tab_id: i64,
    kind: &str,
    button: &str,
    cell_x: u32,
    cell_y: u32,
    mods: u32,
) -> (out: Result<Plan, HandlerError>)
    ensures
        mouse_event(*facts, tab_id, kind@, button@, cell_x, cell_y, mods, out),
{
    let action = match parse_mouse_kind(kind) {
        Some(action) => action,
        None => {
            return Err(
                HandlerError::invalid_param(
                    text::join3("kind must be one of press|release|motion (got ", kind, ")"),
                ),
            );
        },
    };
    let which = match parse_mouse_button(button) {
        Some(which) => which,
        None => {
            return Err(
                HandlerError::invalid_param(
                    text::join3(
                        "button must be one of left|right|middle|wheel_up|wheel_down|none (got ",
                        button,
                        ")",
                    ),
                ),
            );
        },
    };
    ask_ui(
        facts,
        UiRequest::TabDispatchMouseEvent {
            tab_id,
            kind: action,
            button: which,
            cell_x,
            cell_y,
            mods,
        },
        Spelling::TestOp,
    )
}

/// Whether a request for a new order of tabs goes where it names.
pub open spec fn reorders_tabs(
    facts: HandlerFacts,
    p: TabReorderParams,
    out: Result<Plan, HandlerError>,
) -> bool {
    let instance = routes::instance_of(p.project_id);
    let ids = routes::tab_numbers(p.tab_ids@);
    if facts.is_session && instance != ReorderInstance::Local {
        refused(out, "invalid-param"@, routes::foreign_project())
    } else if facts.is_session && !routes::tabs_on(p.tab_ids@, ReorderInstance::Local) {
        refused(out, "invalid-param"@, routes::foreign_tab())
    } else if !routes::tabs_on(p.tab_ids@, instance) {
        refused(out, "invalid-param"@, routes::mixed("tab.reorder"@))
    } else {
        match instance {
            ReorderInstance::Local => out matches Ok(
                Plan::Workspace(WorkspaceCall::ReorderTabs { project_id, tab_ids }),
            ) && project_id == p.project_id.id() && tab_ids@ == ids,
            ReorderInstance::Host(host) => if facts.has_ui {
                out matches Ok(
                    Plan::Ui(
                        UiRequest::HostTabReorder { host: to, project_id, tab_ids },
                        Spelling::AsIs,
                    ),
                ) && to == host && project_id == p.project_id.id() && tab_ids@ == ids
            } else {
                refused(out, "invalid-param"@, routes::unreachable_host("tab.reorder"@))
            },
        }
    }
}

fn plan_tab_reorder(facts: &HandlerFacts, p: &TabReorderParams) -> (out: Result<Plan, HandlerError>)
    ensures
        reorders_tabs(*facts, *p, out),
{
    match tab_reorder_route(facts.is_session, facts.has_ui, p) {
        Err(e) => Err(e),
        Ok(route) => match route.instance {
            ReorderInstance::Local => Ok(
                Plan::Workspace(
                    WorkspaceCall::ReorderTabs {
                        project_id: route.project_id,
                        tab_ids: route.tab_ids,
                    },
                ),
            ),
            ReorderInstance::Host(host) => Ok(
                Plan::Ui(
                    UiRequest::HostTabReorder {
                        host,
                        project_id: route.project_id,
                        tab_ids: route.tab_ids,
                    },
                    Spelling::AsIs,
                ),
            ),
        },
    }
}

/// Whether a request for a new order of projects goes where it names.
pub open spec fn reorders_projects(
    facts: HandlerFacts,
    projects: Seq<WireProjectRef>,
    out: Result<Plan, HandlerError>,
) -> bool {
    let instance = routes::list_instance(projects);
    let ids = routes::project_numbers(projects);
    if facts.is_session && !routes::projects_on(projects, ReorderInstance::Local) {
        refused(out, "invalid-param"@, routes::foreign_project())
    } else if !routes::projects_on(projects, instance) {
        refused(out, "invalid-param"@, routes::mixed("project.reorder"@))
    } else {
        match instance {
            ReorderInstance::Local => out matches Ok(
                Plan::Workspace(WorkspaceCall::ReorderProjects { project_ids }),
            ) && project_ids@ == ids,
            ReorderInstance::Host(host) => if facts.has_ui {
                out matches Ok(
                    Plan::Ui(
                        UiRequest::HostProjectReorder { host: to, project_ids },
                        Spelling::AsIs,
                    ),
                ) && to == host && project_ids@ == ids
            } else {
                refused(out, "invalid-param"@, routes::unreachable_host("project.reorder"@))
            },
        }
    }
}

fn plan_project_reorder(facts: &HandlerFacts, projects: &Vec<WireProjectRef>) -> (out: Result<
    Plan,
    HandlerError,
>)
    ensures
        reorders_projects(*facts, projects@, out),
{
    proof {
        if routes::projects_on(projects@, ReorderInstance::Local) && projects@.len() > 0 {
            assert(projects@[0].on(ReorderInstance::Local));
        }
    }
    match project_reorder_route(facts.is_session, facts.has_ui, projects) {
        Err(e) => Err(e),
        Ok(route) => match route.instance {
            ReorderInstance::Local => Ok(
                Plan::Workspace(WorkspaceCall::ReorderProjects { project_ids: route.project_ids }),
            ),
            ReorderInstance::Host(host) => Ok(
                Plan::Ui(
                    UiRequest::HostProjectReorder { host, project_ids: route.project_ids },
                    Spelling::AsIs,
                ),
            ),
        },
    }
}

/// Whether a session's own tab is asked, or another host's refused.
pub open spec fn asks_tab(tab: WireTabRef, out: Result<Plan, HandlerError>, query: TabQuery) -> bool {
    if tab is Host {
        refused(out, "invalid-param"@, routes::foreign_tab())
    } else {
        out == Ok::<_, HandlerError>(Plan::Tab(query))
    }
}

/// The words for a test's operation outside test mode.
pub open spec fn not_in_test_mode() -> Seq<char> {
    "this op requires the session to have been started with ROOST_TEST_MODE=1"@
}

/// What is done for a request about a tab.
pub open spec fn tab_dispatched(
    facts: HandlerFacts,
    request: TabRequest,
    out: Result<Plan, HandlerError>,
) -> bool {
    match request {
        TabRequest::TabOpen(params) => out matches Ok(Plan::OpenTab { params: asked, size }) && asked
            == params && size_of(size, params.cols, params.rows, facts.default_size),
        TabRequest::TabList => asks_workspace(
            out,
            WorkspaceCall::ListTabs { with_revision: facts.is_session },
        ),
        TabRequest::TabWrite { tab_id, data } => out == Ok::<_, HandlerError>(
            Plan::Write { tab_id, data },
        ),
        TabRequest::TabResize { tab_id, cols, rows } => if cols > u16::MAX {
            refused(out, "invalid-param"@, "cols out of u16 range"@)
        } else if rows > u16::MAX {
            refused(out, "invalid-param"@, "rows out of u16 range"@)
        } else {
            out == Ok::<_, HandlerError>(
                Plan::Resize { tab_id, cols: cols as u16, rows: rows as u16 },
            )
        },
        TabRequest::TabDump { tab, scrollback } => {
            let most = if scrollback < facts.max_dump_scrollback {
                scrollback
            } else {
                facts.max_dump_scrollback
            };
            if facts.serves_tabs() {
                asks_tab(tab, out, TabQuery::Dump { tab_id: tab.id(), scrollback: most })
            } else {
                asks_ui(facts, out, UiRequest::Dump { tab, scrollback: most }, Spelling::Dump)
            }
        },
        TabRequest::TabReorder(p) => reorders_tabs(facts, p, out),
        TabRequest::TabFocus { tab } => match tab {
            WireTabRef::Local(tab_id) => asks_workspace(out, WorkspaceCall::FocusTab { tab_id }),
            WireTabRef::Host { host, tab } => if facts.has_ui {
                out == Ok::<_, HandlerError>(
                    Plan::Ui(UiRequest::HostTabFocus { host, tab_id: tab }, Spelling::Workspace),
                )
            } else {
                refused(
                    out,
                    "invalid-param"@,
                    errors::ui_needed(
                        "a host-qualified tab.focus"@,
                        "host selection is client state"@,
                    ),
                )
            },
        },
        TabRequest::TabSendFile { tab, parsed, paths } => match parsed {
            None => refused(out, "invalid-param"@, "invalid tab reference: "@ + tab@),
            Some(tab) => if facts.has_ui {
                out == Ok::<_, HandlerError>(
                    Plan::Ui(UiRequest::TabSendFile { tab, paths }, Spelling::AsIs),
                )
            } else {
                refused(
                    out,
                    "invalid-param"@,
                    errors::ui_needed(
                        "tab.send_file"@,
                        "reading the files and typing the paste are the app's"@,
                    ),
                )
            },
        },
        TabRequest::TabAgentReport { report, fault } => match fault {
            Some(why) => refused(out, "invalid-param"@, why@),
            None => asks_workspace(out, WorkspaceCall::ReportAgent { report }),
        },
        TabRequest::TabFeedPtyBytes { tab_id, data } => if facts.serves_tabs() {
            if facts.test_mode {
                out matches Ok(Plan::Tab(TabQuery::Feed { tab_id: to, chunks: list })) && to
                    == tab_id && chunk_views(list@) == chunks(data@)
            } else {
                refused(out, "not-enabled"@, not_in_test_mode())
            }
        } else {
            asks_ui(facts, out, UiRequest::TabFeedPtyBytes { tab_id, data }, Spelling::TestOp)
        },
        TabRequest::TabCapturePtyInput { tab, drain } => if facts.serves_tabs() {
            if tab is Local && !facts.test_mode {
                refused(out, "not-enabled"@, not_in_test_mode())
            } else {
                asks_tab(tab, out, TabQuery::Capture { tab_id: tab.id(), drain })
            }
        } else {
            asks_ui(facts, out, UiRequest::TabCapturePtyInput { tab, drain }, Spelling::TestOp)
        },
        TabRequest::TabDumpResolved { tab } => if facts.serves_tabs() {
            asks_tab(tab, out, TabQuery::DumpResolved { tab_id: tab.id() })
        } else {
            asks_ui(facts, out, UiRequest::TabDumpResolved { tab }, Spelling::NotFound)
        },
        TabRequest::TabClose { tab_id } => asks_workspace(
            out,
            WorkspaceCall::CloseTab { tab_id },
        ),
        TabRequest::TabSetTitle { tab_id, title } => asks_workspace(
            out,
            WorkspaceCall::SetTitle { tab_id, title },
        ),
        TabRequest::TabSetState { tab_id, state } => asks_workspace(
            out,
            WorkspaceCall::SetState { tab_id, state },
        ),
        TabRequest::TabClearNotification { tab_id, generation } => asks_workspace(
            out,
            WorkspaceCall::ClearNotification { tab_id, generation },
        ),
        TabRequest::TabSetHookActive { tab_id, active } => asks_workspace(
            out,
            WorkspaceCall::SetHookActive { tab_id, active },
        ),
    }
}

/// What is done for a request about projects, notifications or hosts.
pub open spec fn workspace_dispatched(
    facts: HandlerFacts,
    request: WorkspaceRequest,
    out: Result<Plan, HandlerError>,
) -> bool {
    match request {
        WorkspaceRequest::ProjectCreate { name, cwd } => out matches Ok(
            Plan::Workspace(WorkspaceCall::CreateProject { name: called, cwd: at }),
        ) && called == name && at@ == (if cwd@.len() == 0 {
            crate::home_of(text::opt_string(facts.home))
        } else {
            cwd@
        }),
        WorkspaceRequest::ProjectEnsure { name, cwd } => out matches Ok(
            Plan::Workspace(WorkspaceCall::EnsureProject { name: called, cwd: at }),
        ) && called == name && at@ == (match cwd {
            Some(cwd) => cwd@,
            None => ""@,
        }),
        WorkspaceRequest::ProjectReorder { project_ids } => reorders_projects(facts, project_ids@, out),
        WorkspaceRequest::HostAdd { label, target } => if facts.has_ui {
            out == Ok::<_, HandlerError>(
                Plan::Ui(UiRequest::HostAdd { label, target }, Spelling::Workspace),
            )
        } else {
            asks_workspace(out, WorkspaceCall::AddHost { label, target })
        },
        WorkspaceRequest::HostRemove { id } => if facts.has_ui {
            out == Ok::<_, HandlerError>(
                Plan::Ui(UiRequest::HostRemove { id }, Spelling::Workspace),
            )
        } else {
            asks_workspace(out, WorkspaceCall::RemoveHost { id })
        },
        WorkspaceRequest::ProjectRename { project_id, name } => asks_workspace(
            out,
            WorkspaceCall::RenameProject { project_id, name },
        ),
        WorkspaceRequest::ProjectDelete { project_id } => asks_workspace(
            out,
            WorkspaceCall::DeleteProject { project_id },
        ),
        WorkspaceRequest::NotificationCreate { tab_id, title, body } => asks_workspace(
            out,
            WorkspaceCall::RaiseAttention { tab_id, title, body },
        ),
        WorkspaceRequest::HostList => asks_workspace(
            out,
            WorkspaceCall::ListHosts,
        ),
    }
}

/// What is done for a request to an app whose parameters are looked at first.
pub open spec fn checked_dispatched(
    facts: HandlerFacts,
    request: CheckedRequest,
    out: Result<Plan, HandlerError>,
) -> bool {
    match request {
        CheckedRequest::Screenshot { scale } => if scale == 1 || scale == 2 {
            asks_ui(facts, out, UiRequest::Screenshot { scale }, Spelling::Internal)
        } else {
            refused(
                out,
                "invalid-param"@,
                "scale must be 1 or 2, got "@ + text::decimal(scale as nat),
            )
        },
        CheckedRequest::PaletteOpen { kind } => if palette_kind(kind@) {
            asks_ui(facts, out, UiRequest::PaletteOpen { kind }, Spelling::NotFound)
        } else {
            refused(
                out,
                "invalid-param"@,
                "unknown palette kind "@ + text::debug_text(kind@)
                    + " (want \"commands\", \"launcher\", \"custom\", or \"agents\")"@,
            )
        },
        CheckedRequest::PalettePresent { title, placeholder, items } => if items@.len() == 0 {
            refused(
                out,
                "invalid-param"@,
                "palette.present requires a non-empty items list"@,
            )
        } else {
            asks_ui(
                facts,
                out,
                UiRequest::PalettePresent { title, placeholder, items },
                Spelling::NotFound,
            )
        },
        CheckedRequest::ClipboardDump { target } => if target@ != "system"@ && target@ != "selection"@ {
            refused(
                out,
                "invalid-param"@,
                "clipboard target must be \"system\" or \"selection\" (got "@ + text::debug_text(
                    target@,
                ) + ")"@,
            )
        } else {
            asks_ui(
                facts,
                out,
                UiRequest::ClipboardDump {
                    target: if target@ == "system"@ {
                        ClipboardOp::System
                    } else {
                        ClipboardOp::Selection
                    },
                },
                Spelling::Internal,
            )
        },
        CheckedRequest::ClipboardWrite { target, text, image_png } => clipboard_write(
            facts,
            target@,
            text,
            image_png,
            out,
        ),
        CheckedRequest::TabExpandSelectionAt { tab_id, col, row, click_count } => if click_count < 2 {
            refused(
                out,
                "invalid-param"@,
                "click_count must be >= 2 (got "@ + text::decimal(click_count as nat) + ")"@,
            )
        } else {
            asks_ui(
                facts,
                out,
                UiRequest::TabExpandSelectionAt { tab_id, col, row, click_count },
                Spelling::TestOp,
            )
        },
        CheckedRequest::TabFeedIme { tab_id, action, text, cursor_start, cursor_end } => feed_ime(
            facts,
            tab_id,
            action,
            text,
            cursor_start,
            cursor_end,
            out,
        ),
        CheckedRequest::WindowResize { width, height, positive } => if positive {
            asks_ui(facts, out, UiRequest::WindowResize { width, height }, Spelling::TestOp)
        } else {
            refused(
                out,
                "invalid-param"@,
                "width and height must be positive and finite (got "@ + width@ + " x "@ + height@
                    + ")"@,
            )
        },
        CheckedRequest::SidebarSetWidth { width, positive } => if positive {
            asks_ui(facts, out, UiRequest::SidebarSetWidth { width }, Spelling::TestOp)
        } else {
            refused(
                out,
                "invalid-param"@,
                "width must be positive and finite (got "@ + width@ + ")"@,
            )
        },
        CheckedRequest::TabDispatchMouseEvent { tab_id, kind, button, cell_x, cell_y, mods } => mouse_event(
            facts,
            tab_id,
            kind@,
            button@,
            cell_x,
            cell_y,
            mods,
            out,
        ),
        CheckedRequest::AppDialogAnswer { action } => if dialog_answer(action@) {
            asks_ui(facts, out, UiRequest::AppDialogAnswer { action }, Spelling::TestOp)
        } else {
            refused(
                out,
                "invalid-param"@,
                "action must be confirm, cancel or toggle:<agent> (got "@ + text::debug_text(
                    action@,
                ) + ")"@,
            )
        },
        CheckedRequest::AppKeybindDispatch { action } => if action@ == "paste"@ {
            asks_ui(facts, out, UiRequest::AppKeybindDispatch { action }, Spelling::TestOp)
        } else {
            refused(
                out,
                "invalid-param"@,
                "action must be \"paste\" (got "@ + text::debug_text(action@) + ")"@,
            )
        },
    }
}

/// What is done for a request to an app about what its window shows.
pub open spec fn app_dispatched(
    facts: HandlerFacts,
    request: AppRequest,
    out: Result<Plan, HandlerError>,
) -> bool {
    match request {
        AppRequest::WindowMetrics => asks_ui(
            facts,
            out,
            UiRequest::WindowMetrics,
            Spelling::Internal,
        ),
        AppRequest::AppRenderStats { reset } => asks_ui(
            facts,
            out,
            UiRequest::AppRenderStats { reset },
            Spelling::Internal,
        ),
        AppRequest::SidebarDump => asks_ui(
            facts,
            out,
            UiRequest::SidebarDump,
            Spelling::Internal,
        ),
        AppRequest::PaletteState => asks_ui(
            facts,
            out,
            UiRequest::PaletteState,
            Spelling::NotFound,
        ),
        AppRequest::PaletteQuery { query } => asks_ui(
            facts,
            out,
            UiRequest::PaletteQuery { query },
            Spelling::NotFound,
        ),
        AppRequest::PaletteActivate { id } => asks_ui(
            facts,
            out,
            UiRequest::PaletteActivate { id },
            Spelling::NotFound,
        ),
        AppRequest::PaletteDismiss => asks_ui(
            facts,
            out,
            UiRequest::PaletteDismiss,
            Spelling::NotFound,
        ),
        AppRequest::SelectionSet { tab_id, anchor, cursor } => asks_ui(
            facts,
            out,
            UiRequest::SelectionSet { tab_id, anchor, cursor },
            Spelling::NotFound,
        ),
        AppRequest::SelectionClear { tab_id } => asks_ui(
            facts,
            out,
            UiRequest::SelectionClear { tab_id },
            Spelling::NotFound,
        ),
        AppRequest::SelectionDump { tab_id } => asks_ui(
            facts,
            out,
            UiRequest::SelectionDump { tab_id },
            Spelling::NotFound,
        ),
        AppRequest::AppSetWindowFocus { focus } => asks_ui(
            facts,
            out,
            UiRequest::AppSetWindowFocus { focused: focus },
            Spelling::TestOp,
        ),
        AppRequest::AppCursorShape => asks_ui(
            facts,
            out,
            UiRequest::AppCursorShape,
            Spelling::Internal,
        ),
        AppRequest::AppActiveTerminalFocused => asks_ui(
            facts,
            out,
            UiRequest::AppActiveTerminalFocused,
            Spelling::Internal,
        ),
    }
}

/// What is done for a request to an app about its desk.
pub open spec fn desk_dispatched(
    facts: HandlerFacts,
    request: DeskRequest,
    out: Result<Plan, HandlerError>,
) -> bool {
    match request {
        DeskRequest::AppSelectedTabId => asks_ui(
            facts,
            out,
            UiRequest::AppSelectedTabId,
            Spelling::Internal,
        ),
        DeskRequest::AppDockBadge => asks_ui(
            facts,
            out,
            UiRequest::AppDockBadge,
            Spelling::TestOp,
        ),
        DeskRequest::AppMenuDump => asks_ui(
            facts,
            out,
            UiRequest::AppMenuDump,
            Spelling::TestOp,
        ),
        DeskRequest::AppMenuActivate { path } => asks_ui(
            facts,
            out,
            UiRequest::AppMenuActivate { path },
            Spelling::TestOp,
        ),
        DeskRequest::AppDialogDump => asks_ui(
            facts,
            out,
            UiRequest::AppDialogDump,
            Spelling::TestOp,
        ),
        DeskRequest::AppUpdateStatus => asks_ui(
            facts,
            out,
            UiRequest::AppUpdateStatus,
            Spelling::TestOp,
        ),
        DeskRequest::AppUpdateCheck => asks_ui(
            facts,
            out,
            UiRequest::AppUpdateCheck,
            Spelling::TestOp,
        ),
        DeskRequest::AppNotificationStatus => asks_ui(
            facts,
            out,
            UiRequest::AppNotificationStatus,
            Spelling::TestOp,
        ),
        DeskRequest::AgentSetHooks { agents } => asks_ui(
            facts,
            out,
            UiRequest::AgentSetHooks { agents },
            Spelling::AsIs,
        ),
        DeskRequest::HostConnect { id, test_user_origin } => asks_ui(
            facts,
            out,
            UiRequest::HostConnect { id, test_user_origin },
            Spelling::Workspace,
        ),
        DeskRequest::HostDisconnect { id } => asks_ui(
            facts,
            out,
            UiRequest::HostDisconnect { id },
            Spelling::Workspace,
        ),
        DeskRequest::HostStatus { id } => asks_ui(
            facts,
            out,
            UiRequest::HostStatus { id },
            Spelling::Workspace,
        ),
    }
}

/// What is done for a request.
pub open spec fn dispatched(
    facts: HandlerFacts,
    request: Request,
    out: Result<Plan, HandlerError>,
) -> bool {
    match request {
        Request::Identify => out == Ok::<_, HandlerError>(Plan::Identify),
        Request::AppActivate => out == Ok::<_, HandlerError>(Plan::Notify(UiRequest::Activate)),
        Request::EventsSubscribe => refused(
            out,
            "not-implemented"@,
            "events.subscribe is not yet implemented"@,
        ),
        Request::Tab(request) => tab_dispatched(facts, request, out),
        Request::Workspace(request) => workspace_dispatched(facts, request, out),
        Request::Checked(request) => checked_dispatched(facts, request, out),
        Request::App(request) => app_dispatched(facts, request, out),
        Request::Desk(request) => desk_dispatched(facts, request, out),
    }
}

fn dispatch_tab(facts: &HandlerFacts, request: TabRequest) -> (out: Result<Plan, HandlerError>)
    ensures
        tab_dispatched(*facts, request, out),
{
    match request {
        TabRequest::TabOpen(params) => {
            let size = open_size(params.cols, params.rows, facts.default_size);
            Ok(Plan::OpenTab { params, size })
        },
        TabRequest::TabList => Ok(
            Plan::Workspace(WorkspaceCall::ListTabs { with_revision: facts.is_session }),
        ),
        TabRequest::TabWrite { tab_id, data } => Ok(Plan::Write { tab_id, data }),
        TabRequest::TabResize { tab_id, cols, rows } => {
            if cols > 0xffff {
                return Err(HandlerError::invalid_param("cols out of u16 range".to_owned()));
            }
            if rows > 0xffff {
                return Err(HandlerError::invalid_param("rows out of u16 range".to_owned()));
            }
            Ok(Plan::Resize { tab_id, cols: cols as u16, rows: rows as u16 })
        },
        TabRequest::TabDump { tab, scrollback } => {
            let most: u32 = if scrollback < facts.max_dump_scrollback {
                scrollback
            } else {
                facts.max_dump_scrollback
            };
            if facts.is_session && facts.server_vt {
                return match bare_tab(tab) {
                    Ok(tab_id) => Ok(Plan::Tab(TabQuery::Dump { tab_id, scrollback: most })),
                    Err(e) => Err(e),
                };
            }
            ask_ui(facts, UiRequest::Dump { tab, scrollback: most }, Spelling::Dump)
        },
        TabRequest::TabReorder(p) => plan_tab_reorder(facts, &p),
        TabRequest::TabFocus { tab } => match tab {
            WireTabRef::Local(tab_id) => Ok(Plan::Workspace(WorkspaceCall::FocusTab { tab_id })),
            WireTabRef::Host { host, tab } => {
                if !facts.has_ui {
                    return Err(
                        needs_a_ui(
                            "a host-qualified tab.focus",
                            "host selection is client state",
                        ),
                    );
                }
                Ok(Plan::Ui(UiRequest::HostTabFocus { host, tab_id: tab }, Spelling::Workspace))
            },
        },
        TabRequest::TabSendFile { tab, parsed, paths } => match parsed {
            None => Err(
                HandlerError::invalid_param(
                    text::join2("invalid tab reference: ", tab.as_str()),
                ),
            ),
            Some(tab) => {
                if !facts.has_ui {
                    return Err(
                        needs_a_ui(
                            "tab.send_file",
                            "reading the files and typing the paste are the app's",
                        ),
                    );
                }
                Ok(Plan::Ui(UiRequest::TabSendFile { tab, paths }, Spelling::AsIs))
            },
        },
        TabRequest::TabAgentReport { report, fault } => match fault {
            Some(why) => Err(HandlerError::invalid_param(why)),
            None => Ok(Plan::Workspace(WorkspaceCall::ReportAgent { report })),
        },
        TabRequest::TabFeedPtyBytes { tab_id, data } => {
            if facts.is_session && facts.server_vt {
                return match session_test_mode(facts.test_mode) {
                    Err(e) => Err(e),
                    Ok(_) => Ok(
                        Plan::Tab(TabQuery::Feed { tab_id, chunks: feed_chunks(&data) }),
                    ),
                };
            }
            ask_ui(facts, UiRequest::TabFeedPtyBytes { tab_id, data }, Spelling::TestOp)
        },
        TabRequest::TabCapturePtyInput { tab, drain } => {
            if facts.is_session && facts.server_vt {
                let tab_id: i64 = match bare_tab(tab) {
                    Ok(tab_id) => tab_id,
                    Err(e) => {
                        return Err(e);
                    },
                };
                return match session_test_mode(facts.test_mode) {
                    Err(e) => Err(e),
                    Ok(_) => Ok(Plan::Tab(TabQuery::Capture { tab_id, drain })),
                };
            }
            ask_ui(facts, UiRequest::TabCapturePtyInput { tab, drain }, Spelling::TestOp)
        },
        TabRequest::TabDumpResolved { tab } => {
            if facts.is_session && facts.server_vt {
                return match bare_tab(tab) {
                    Ok(tab_id) => Ok(Plan::Tab(TabQuery::DumpResolved { tab_id })),
                    Err(e) => Err(e),
                };
            }
            ask_ui(facts, UiRequest::TabDumpResolved { tab }, Spelling::NotFound)
        },
        TabRequest::TabClose { tab_id } => Ok(
            Plan::Workspace(WorkspaceCall::CloseTab { tab_id }),
        ),
        TabRequest::TabSetTitle { tab_id, title } => Ok(
            Plan::Workspace(WorkspaceCall::SetTitle { tab_id, title }),
        ),
        TabRequest::TabSetState { tab_id, state } => Ok(
            Plan::Workspace(WorkspaceCall::SetState { tab_id, state }),
        ),
        TabRequest::TabClearNotification { tab_id, generation } => Ok(
            Plan::Workspace(WorkspaceCall::ClearNotification { tab_id, generation }),
        ),
        TabRequest::TabSetHookActive { tab_id, active } => Ok(
            Plan::Workspace(WorkspaceCall::SetHookActive { tab_id, active }),
        ),
    }
}

fn dispatch_workspace(facts: &HandlerFacts, request: WorkspaceRequest) -> (out: Result<Plan, HandlerError>)
    ensures
        workspace_dispatched(*facts, request, out),
{
    match request {
        WorkspaceRequest::ProjectCreate { name, cwd } => {
            let at = if cwd.as_str().is_empty() {
                match &facts.home {
                    Some(home) => crate::resolve_home(Some(home.as_str())),
                    None => crate::resolve_home(None),
                }
            } else {
                cwd
            };
            Ok(Plan::Workspace(WorkspaceCall::CreateProject { name, cwd: at }))
        },
        WorkspaceRequest::ProjectEnsure { name, cwd } => {
            let at = match cwd {
                Some(cwd) => cwd,
                None => "".to_owned(),
            };
            Ok(Plan::Workspace(WorkspaceCall::EnsureProject { name, cwd: at }))
        },
        WorkspaceRequest::ProjectReorder { project_ids } => plan_project_reorder(facts, &project_ids),
        WorkspaceRequest::HostAdd { label, target } => {
            if facts.has_ui {
                Ok(Plan::Ui(UiRequest::HostAdd { label, target }, Spelling::Workspace))
            } else {
                Ok(Plan::Workspace(WorkspaceCall::AddHost { label, target }))
            }
        },
        WorkspaceRequest::HostRemove { id } => {
            if facts.has_ui {
                Ok(Plan::Ui(UiRequest::HostRemove { id }, Spelling::Workspace))
            } else {
                Ok(Plan::Workspace(WorkspaceCall::RemoveHost { id }))
            }
        },
        WorkspaceRequest::ProjectRename { project_id, name } => Ok(
            Plan::Workspace(WorkspaceCall::RenameProject { project_id, name }),
        ),
        WorkspaceRequest::ProjectDelete { project_id } => Ok(
            Plan::Workspace(WorkspaceCall::DeleteProject { project_id }),
        ),
        WorkspaceRequest::NotificationCreate { tab_id, title, body } => Ok(
            Plan::Workspace(WorkspaceCall::RaiseAttention { tab_id, title, body }),
        ),
        WorkspaceRequest::HostList => Ok(
            Plan::Workspace(WorkspaceCall::ListHosts),
        ),
    }
}

fn dispatch_checked(facts: &HandlerFacts, request: CheckedRequest) -> (out: Result<Plan, HandlerError>)
    ensures
        checked_dispatched(*facts, request, out),
{
    match request {
        CheckedRequest::Screenshot { scale } => {
            if scale != 1 && scale != 2 {
                return Err(
                    HandlerError::invalid_param(
                        text::join2(
                            "scale must be 1 or 2, got ",
                            text::decimal_u64(scale as u64).as_str(),
                        ),
                    ),
                );
            }
            ask_ui(facts, UiRequest::Screenshot { scale }, Spelling::Internal)
        },
        CheckedRequest::PaletteOpen { kind } => {
            if !is_palette_kind(kind.as_str()) {
                return Err(
                    HandlerError::invalid_param(
                        text::join3(
                            "unknown palette kind ",
                            text::quoted(kind.as_str()).as_str(),
                            " (want \"commands\", \"launcher\", \"custom\", or \"agents\")",
                        ),
                    ),
                );
            }
            ask_ui(facts, UiRequest::PaletteOpen { kind }, Spelling::NotFound)
        },
        CheckedRequest::PalettePresent { title, placeholder, items } => {
            if items.len() == 0 {
                return Err(
                    HandlerError::invalid_param(
                        "palette.present requires a non-empty items list".to_owned(),
                    ),
                );
            }
            ask_ui(
                facts,
                UiRequest::PalettePresent { title, placeholder, items },
                Spelling::NotFound,
            )
        },
        CheckedRequest::ClipboardDump { target } => match parse_clipboard_op(target.as_str()) {
            Err(e) => Err(e),
            Ok(target) => ask_ui(facts, UiRequest::ClipboardDump { target }, Spelling::Internal),
        },
        CheckedRequest::ClipboardWrite { target, text, image_png } => plan_clipboard_write(
            facts,
            target,
            text,
            image_png,
        ),
        CheckedRequest::TabExpandSelectionAt { tab_id, col, row, click_count } => {
            if click_count < 2 {
                return Err(
                    HandlerError::invalid_param(
                        text::join3(
                            "click_count must be >= 2 (got ",
                            text::decimal_u64(click_count as u64).as_str(),
                            ")",
                        ),
                    ),
                );
            }
            ask_ui(
                facts,
                UiRequest::TabExpandSelectionAt { tab_id, col, row, click_count },
                Spelling::TestOp,
            )
        },
        CheckedRequest::TabFeedIme { tab_id, action, text, cursor_start, cursor_end } => plan_feed_ime(
            facts,
            tab_id,
            action,
            text,
            cursor_start,
            cursor_end,
        ),
        CheckedRequest::WindowResize { width, height, positive } => {
            if !positive {
                return Err(
                    HandlerError::invalid_param(
                        text::join5(
                            "width and height must be positive and finite (got ",
                            width.as_str(),
                            " x ",
                            height.as_str(),
                            ")",
                        ),
                    ),
                );
            }
            ask_ui(facts, UiRequest::WindowResize { width, height }, Spelling::TestOp)
        },
        CheckedRequest::SidebarSetWidth { width, positive } => {
            if !positive {
                return Err(
                    HandlerError::invalid_param(
                        text::join3(
                            "width must be positive and finite (got ",
                            width.as_str(),
                            ")",
                        ),
                    ),
                );
            }
            ask_ui(facts, UiRequest::SidebarSetWidth { width }, Spelling::TestOp)
        },
        CheckedRequest::TabDispatchMouseEvent { tab_id, kind, button, cell_x, cell_y, mods } => plan_mouse_event(
            facts,
            tab_id,
            kind.as_str(),
            button.as_str(),
            cell_x,
            cell_y,
            mods,
        ),
        CheckedRequest::AppDialogAnswer { action } => {
            if !is_dialog_answer(action.as_str()) {
                return Err(
                    HandlerError::invalid_param(
                        text::join3(
                            "action must be confirm, cancel or toggle:<agent> (got ",
                            text::quoted(action.as_str()).as_str(),
                            ")",
                        ),
                    ),
                );
            }
            ask_ui(facts, UiRequest::AppDialogAnswer { action }, Spelling::TestOp)
        },
        CheckedRequest::AppKeybindDispatch { action } => {
            if !text::same_text(action.as_str(), "paste") {
                return Err(
                    HandlerError::invalid_param(
                        text::join3(
                            "action must be \"paste\" (got ",
                            text::quoted(action.as_str()).as_str(),
                            ")",
                        ),
                    ),
                );
            }
            ask_ui(facts, UiRequest::AppKeybindDispatch { action }, Spelling::TestOp)
        },
    }
}

fn dispatch_app(facts: &HandlerFacts, request: AppRequest) -> (out: Result<Plan, HandlerError>)
    ensures
        app_dispatched(*facts, request, out),
{
    match request {
        AppRequest::WindowMetrics => ask_ui(
            facts,
            UiRequest::WindowMetrics,
            Spelling::Internal,
        ),
        AppRequest::AppRenderStats { reset } => ask_ui(
            facts,
            UiRequest::AppRenderStats { reset },
            Spelling::Internal,
        ),
        AppRequest::SidebarDump => ask_ui(
            facts,
            UiRequest::SidebarDump,
            Spelling::Internal,
        ),
        AppRequest::PaletteState => ask_ui(
            facts,
            UiRequest::PaletteState,
            Spelling::NotFound,
        ),
        AppRequest::PaletteQuery { query } => ask_ui(
            facts,
            UiRequest::PaletteQuery { query },
            Spelling::NotFound,
        ),
        AppRequest::PaletteActivate { id } => ask_ui(
            facts,
            UiRequest::PaletteActivate { id },
            Spelling::NotFound,
        ),
        AppRequest::PaletteDismiss => ask_ui(
            facts,
            UiRequest::PaletteDismiss,
            Spelling::NotFound,
        ),
        AppRequest::SelectionSet { tab_id, anchor, cursor } => ask_ui(
            facts,
            UiRequest::SelectionSet { tab_id, anchor, cursor },
            Spelling::NotFound,
        ),
        AppRequest::SelectionClear { tab_id } => ask_ui(
            facts,
            UiRequest::SelectionClear { tab_id },
            Spelling::NotFound,
        ),
        AppRequest::SelectionDump { tab_id } => ask_ui(
            facts,
            UiRequest::SelectionDump { tab_id },
            Spelling::NotFound,
        ),
        AppRequest::AppSetWindowFocus { focus } => ask_ui(
            facts,
            UiRequest::AppSetWindowFocus { focused: focus },
            Spelling::TestOp,
        ),
        AppRequest::AppCursorShape => ask_ui(
            facts,
            UiRequest::AppCursorShape,
            Spelling::Internal,
        ),
        AppRequest::AppActiveTerminalFocused => ask_ui(
            facts,
            UiRequest::AppActiveTerminalFocused,
            Spelling::Internal,
        ),
    }
}

fn dispatch_desk(facts: &HandlerFacts, request: DeskRequest) -> (out: Result<Plan, HandlerError>)
    ensures
        desk_dispatched(*facts, request, out),
{
    match request {
        DeskRequest::AppSelectedTabId => ask_ui(
            facts,
            UiRequest::AppSelectedTabId,
            Spelling::Internal,
        ),
        DeskRequest::AppDockBadge => ask_ui(
            facts,
            UiRequest::AppDockBadge,
            Spelling::TestOp,
        ),
        DeskRequest::AppMenuDump => ask_ui(
            facts,
            UiRequest::AppMenuDump,
            Spelling::TestOp,
        ),
        DeskRequest::AppMenuActivate { path } => ask_ui(
            facts,
            UiRequest::AppMenuActivate { path },
            Spelling::TestOp,
        ),
        DeskRequest::AppDialogDump => ask_ui(
            facts,
            UiRequest::AppDialogDump,
            Spelling::TestOp,
        ),
        DeskRequest::AppUpdateStatus => ask_ui(
            facts,
            UiRequest::AppUpdateStatus,
            Spelling::TestOp,
        ),
        DeskRequest::AppUpdateCheck => ask_ui(
            facts,
            UiRequest::AppUpdateCheck,
            Spelling::TestOp,
        ),
        DeskRequest::AppNotificationStatus => ask_ui(
            facts,
            UiRequest::AppNotificationStatus,
            Spelling::TestOp,
        ),
        DeskRequest::AgentSetHooks { agents } => ask_ui(
            facts,
            UiRequest::AgentSetHooks { agents },
            Spelling::AsIs,
        ),
        DeskRequest::HostConnect { id, test_user_origin } => ask_ui(
            facts,
            UiRequest::HostConnect { id, test_user_origin },
            Spelling::Workspace,
        ),
        DeskRequest::HostDisconnect { id } => ask_ui(
            facts,
            UiRequest::HostDisconnect { id },
            Spelling::Workspace,
        ),
        DeskRequest::HostStatus { id } => ask_ui(
            facts,
            UiRequest::HostStatus { id },
            Spelling::Workspace,
        ),
    }
}

/// Decides what is done for a request.
pub fn dispatch(facts: &HandlerFacts, request: Request) -> (out: Result<Plan, HandlerError>)
    ensures
        dispatched(*facts, request, out),
{
    match request {
        Request::Identify => Ok(Plan::Identify),
        Request::AppActivate => Ok(Plan::Notify(UiRequest::Activate)),
        Request::EventsSubscribe => Err(
            HandlerError::new(
                "not-implemented",
                "events.subscribe is not yet implemented".to_owned(),
            ),
        ),
        Request::Tab(request) => dispatch_tab(facts, request),
        Request::Workspace(request) => dispatch_workspace(facts, request),
        Request::Checked(request) => dispatch_checked(facts, request),
        Request::App(request) => dispatch_app(facts, request),
        Request::Desk(request) => dispatch_desk(facts, request),
    }
}

/// What can come of a piece of a plan besides what was asked for.
#[derive(Debug, PartialEq, Eq)]
pub enum Failure {
    Words(String),
    Host(HostOpFailure),
    Workspace(WorkspaceError),
    Dump(DumpError),
}

/// Whether a failure is of the sort that a spelling is for.
pub open spec fn sorts(spelling: Spelling, failure: Failure) -> bool {
    match spelling {
        Spelling::Internal | Spelling::NotFound | Spelling::TestOp => failure is Words,
        Spelling::AsIs => failure is Host,
        Spelling::Workspace => failure is Workspace,
        Spelling::Dump => failure is Dump,
    }
}

/// Whether a failure is spelled like this.
pub open spec fn spelled(spelling: Spelling, failure: Failure, out: HandlerError) -> bool {
    match failure {
        Failure::Words(why) => match spelling {
            Spelling::NotFound => out.says("not-found"@, why@),
            Spelling::TestOp => out.says(errors::test_op_code(why@), why@),
            _ => out.says("internal"@, why@),
        },
        Failure::Host(failure) => out.says(failure.code@, failure.message@),
        Failure::Workspace(e) => out.says(errors::workspace_code(e.kind), e.message@),
        Failure::Dump(e) => match e {
            DumpError::NoTab(why) => out.says("not-found"@, why@),
            DumpError::Read(why) => out.says("internal"@, why@),
        },
    }
}

/// Spells an app's failure to the client.
pub fn spell(spelling: Spelling, failure: Failure) -> (out: HandlerError)
    requires
        sorts(spelling, failure),
    ensures
        spelled(spelling, failure, out),
{
    match failure {
        Failure::Words(why) => match spelling {
            Spelling::NotFound => HandlerError::not_found(why),
            Spelling::TestOp => map_test_op_err(why),
            _ => HandlerError::internal(why),
        },
        Failure::Host(failure) => failure.refusal(),
        Failure::Workspace(e) => ws_err(e),
        Failure::Dump(e) => dump_err(e),
    }
}

/// How a shell that did not start is spelled: by its PTY's own error, or as this side's
/// trouble.
pub fn spawn_err(e: ApplicationError) -> (out: HandlerError)
    ensures
        match e {
            ApplicationError::Pty(e) => out.says(errors::pty_code(e), e.text()),
            ApplicationError::Workspace(e) => out.says(
                "internal"@,
                "pty spawn failed: "@ + e.message@,
            ),
            ApplicationError::Operation(why) => out.says("internal"@, "pty spawn failed: "@ + why@),
        },
{
    match e {
        ApplicationError::Pty(e) => pty_err(&e),
        ApplicationError::Workspace(e) => HandlerError::internal(
            text::join2("pty spawn failed: ", e.message.as_str()),
        ),
        ApplicationError::Operation(why) => HandlerError::internal(
            text::join2("pty spawn failed: ", why.as_str()),
        ),
    }
}

/// The largest frame on the wire, in bytes.
pub const MAX_FRAME_BYTES: usize = 16_777_216;

/// Room for what stands around a picture in its frame.
pub const ENVELOPE_MARGIN: usize = 1024;

/// The length of so many bytes on the wire.
pub open spec fn encoded_len(bytes: nat) -> nat {
    (bytes + 2) / 3 * 4
}

/// Refuses a picture whose frame would be too large.
pub fn screenshot_frame_guard(png_len: usize) -> (out: Result<(), HandlerError>)
    requires
        encoded_len(png_len as nat) + ENVELOPE_MARGIN <= usize::MAX,
    ensures
        out is Ok <==> encoded_len(png_len as nat) + ENVELOPE_MARGIN <= MAX_FRAME_BYTES,
        out matches Err(e) ==> e.says(
            "internal"@,
            "screenshot too large: "@ + text::decimal(encoded_len(png_len as nat))
                + " base64 bytes exceeds the 16777216 byte IPC frame cap (try --scale 1)"@,
        ),
{
    let encoded: usize = (png_len + 2) / 3 * 4;
    if encoded + ENVELOPE_MARGIN > MAX_FRAME_BYTES {
        return Err(
            HandlerError::internal(
                text::join3(
                    "screenshot too large: ",
                    text::decimal_u64(encoded as u64).as_str(),
                    " base64 bytes exceeds the 16777216 byte IPC frame cap (try --scale 1)",
                ),
            ),
        );
    }
    Ok(())
}

/// A cell on the wire.
#[derive(Debug, PartialEq, Eq)]
pub struct ResolvedCell {
    pub row: u32,
    pub col: u16,
    pub text: String,
    pub fg: String,
    pub bg: String,
    pub has_explicit_bg: bool,
    pub bold: bool,
    pub italic: bool,
    pub inverse: bool,
}

/// Whether a cell is written as it is, its colors spelled out.
pub open spec fn cell_of(out: ResolvedCell, cell: ResolvedCellData) -> bool {
    &&& out.row == cell.row
    &&& out.col == cell.col
    &&& out.text == cell.text
    &&& out.fg@ == theme::hex_color(cell.fg)
    &&& out.bg@ == theme::hex_color(cell.bg)
    &&& out.has_explicit_bg == cell.has_explicit_bg
    &&& out.bold == cell.bold
    &&& out.italic == cell.italic
    &&& out.inverse == cell.inverse
}

/// The cells of a screen on the wire, in order.
pub fn resolved_cells(dump: ResolvedCellsData) -> (out: Vec<ResolvedCell>)
    ensures
        out@.len() == dump.cells@.len(),
        forall|i: int| 0 <= i < out@.len() ==> cell_of(#[trigger] out@[i], dump.cells@[i]),
{
    let mut out: Vec<ResolvedCell> = Vec::new();
    let ghost all = dump.cells@;
    for cell in it: dump.cells
        invariant
            it.seq() == all,
            out@.len() == it.index(),
            forall|k: int| 0 <= k < out@.len() ==> cell_of(#[trigger] out@[k], all[k]),
    {
        out.push(
            ResolvedCell {
                row: cell.row,
                col: cell.col,
                fg: rgb_hex(cell.fg),
                bg: rgb_hex(cell.bg),
                has_explicit_bg: cell.has_explicit_bg,
                bold: cell.bold,
                italic: cell.italic,
                inverse: cell.inverse,
                text: cell.text,
            },
        );
    }
    out
}

/// A selection on the wire: no selection reads like one without text or ends in view.
pub fn selection_reply(dump: Option<SelectionData>) -> (out: SelectionData)
    ensures
        match dump {
            Some(d) => out == d,
            None => out.text is None && !out.anchor_visible && !out.cursor_visible,
        },
{
    match dump {
        Some(d) => d,
        None => SelectionData { text: None, anchor_visible: false, cursor_visible: false },
    }
}

/// What was selected before a tab was brought to the front. Another host keeps its own, so
/// there is nothing to report of it.
pub fn focus_reply(on_host: bool, previous: (i64, i64)) -> (out: (i64, i64))
    ensures
        out == (if on_host {
            (0i64, 0i64)
        } else {
            previous
        }),
{
    if on_host {
        (0, 0)
    } else {
        previous
    }
}

/// Whether a reply that came from a session loses its revision: a list of tabs does, for the
/// socket that passes it on does not serve the changes that follow it.
pub fn strip_ui_socket_fence(op: Op) -> (yes: bool)
    ensures
        yes == (op == Op::TabList),
{
    match op {
        Op::TabList => true,
        _ => false,
    }
}

/// Where a request is answered.
#[derive(Clone, Copy, Debug, PartialEq, Eq, Structural)]
pub enum Answering {
    /// Here.
    Here,
    /// Here, with bare references taken for the session's.
    Rewritten,
    /// By the session that a UI's tabs live in.
    Forwarded,
}

/// Where a request is answered: by its class, and only where a UI's tabs live in a session.
pub open spec fn answers_at(mode: LocalBackendMode, class: OpClass) -> Answering {
    match (mode, class) {
        (LocalBackendMode::Session, OpClass::Forward) => Answering::Forwarded,
        (LocalBackendMode::Session, OpClass::Rewrite) => Answering::Rewritten,
        _ => Answering::Here,
    }
}

/// Where a request is answered.
pub fn answering(mode: LocalBackendMode, class: OpClass) -> (out: Answering)
    ensures
        out == answers_at(mode, class),
{
    match (mode, class) {
        (LocalBackendMode::Session, OpClass::Forward) => Answering::Forwarded,
        (LocalBackendMode::Session, OpClass::Rewrite) => Answering::Rewritten,
        _ => Answering::Here,
    }
}

/// Where a UI's own tabs live, as it stands now.
#[derive(Clone, Copy, Debug, PartialEq, Eq)]
pub struct LocalRoute {
    pub mode: LocalBackendMode,
    /// The number that the session goes by among the hosts, while it is connected.
    pub slot_host: Option<u32>,
    /// The project and tab in front there.
    pub slot_active: Option<(i64, i64)>,
    /// How far a move of the tabs between the two has come, while one is under way.
    pub switch: Option<&'static str>,
}

impl Default for LocalRoute {
    fn default() -> (out: LocalRoute)
        ensures
            out.mode == LocalBackendMode::InProcess,
            out.slot_host is None,
            out.slot_active is None,
            out.switch is None,
    {
        LocalRoute {
            mode: LocalBackendMode::InProcess,
            slot_host: None,
            slot_active: None,
            switch: None,
        }
    }
}

/// A tab where bare references are the session's. One that names a host stays as it is.
pub open spec fn slot_tab(tab: WireTabRef, slot_host: Option<u32>) -> WireTabRef {
    match (tab, slot_host) {
        (WireTabRef::Local(id), Some(host)) => WireTabRef::Host { host, tab: id },
        _ => tab,
    }
}

/// A project where bare references are the session's. One that names a host stays as it is.
pub open spec fn slot_project(project: WireProjectRef, slot_host: Option<u32>) -> WireProjectRef {
    match (project, slot_host) {
        (WireProjectRef::Local(id), Some(host)) => WireProjectRef::Host { host, project: id },
        _ => project,
    }
}

/// A reference where bare ones are the session's: it names the session's host. One that names
/// a host stays as it is, and needs no session to be there. None where one is needed.
pub fn rewrite_slot_tab(tab: WireTabRef, slot_host: Option<u32>) -> (out: Option<WireTabRef>)
    ensures
        out == (if tab is Local && slot_host is None {
            None
        } else {
            Some(slot_tab(tab, slot_host))
        }),
{
    match (tab, slot_host) {
        (WireTabRef::Host { .. }, _) => Some(tab),
        (WireTabRef::Local(id), Some(host)) => Some(WireTabRef::Host { host, tab: id }),
        (WireTabRef::Local(_), None) => None,
    }
}

/// [`rewrite_slot_tab`] for a project.
pub fn rewrite_slot_project(project: WireProjectRef, slot_host: Option<u32>) -> (out: Option<
    WireProjectRef,
>)
    ensures
        out == (if project is Local && slot_host is None {
            None
        } else {
            Some(slot_project(project, slot_host))
        }),
{
    match (project, slot_host) {
        (WireProjectRef::Host { .. }, _) => Some(project),
        (WireProjectRef::Local(id), Some(host)) => Some(
            WireProjectRef::Host { host, project: id },
        ),
        (WireProjectRef::Local(_), None) => None,
    }
}

/// Whether some tab of a list is named without its host.
pub open spec fn any_bare_tab(tabs: Seq<WireTabRef>) -> bool {
    exists|i: int| 0 <= i < tabs.len() && (#[trigger] tabs[i]) is Local
}

/// Whether some project of a list is named without its host.
pub open spec fn any_bare_project(projects: Seq<WireProjectRef>) -> bool {
    exists|i: int| 0 <= i < projects.len() && (#[trigger] projects[i]) is Local
}

/// A list of tabs where bare references are the session's.
pub open spec fn slot_tabs(tabs: Seq<WireTabRef>, slot_host: Option<u32>) -> Seq<WireTabRef> {
    Seq::new(tabs.len(), |i: int| slot_tab(tabs[i], slot_host))
}

/// A list of projects where bare references are the session's.
pub open spec fn slot_projects(projects: Seq<WireProjectRef>, slot_host: Option<u32>) -> Seq<
    WireProjectRef,
> {
    Seq::new(projects.len(), |i: int| slot_project(projects[i], slot_host))
}

fn rewrite_slot_tabs(tabs: &Vec<WireTabRef>, slot_host: Option<u32>) -> (out: Option<
    Vec<WireTabRef>,
>)
    ensures
        out is None <==> slot_host is None && any_bare_tab(tabs@),
        out matches Some(list) ==> list@ == slot_tabs(tabs@, slot_host),
{
    let mut list: Vec<WireTabRef> = Vec::new();
    let mut i: usize = 0;
    while i < tabs.len()
        invariant
            i <= tabs@.len(),
            list@ == slot_tabs(tabs@, slot_host).take(i as int),
            slot_host is None ==> forall|k: int| 0 <= k < i ==> !((#[trigger] tabs@[k]) is Local),
        decreases tabs@.len() - i,
    {
        match rewrite_slot_tab(tabs[i], slot_host) {
            Some(tab) => {
                list.push(tab);
                assert(list@ =~= slot_tabs(tabs@, slot_host).take(i + 1));
            },
            None => {
                assert(tabs@[i as int] is Local);
                return None;
            },
        }
        i = i + 1;
    }
    assert(slot_tabs(tabs@, slot_host).take(i as int) =~= slot_tabs(tabs@, slot_host));
    Some(list)
}

fn rewrite_slot_projects(projects: &Vec<WireProjectRef>, slot_host: Option<u32>) -> (out: Option<
    Vec<WireProjectRef>,
>)
    ensures
        out is None <==> slot_host is None && any_bare_project(projects@),
        out matches Some(list) ==> list@ == slot_projects(projects@, slot_host),
{
    let mut list: Vec<WireProjectRef> = Vec::new();
    let mut i: usize = 0;
    while i < projects.len()
        invariant
            i <= projects@.len(),
            list@ == slot_projects(projects@, slot_host).take(i as int),
            slot_host is None ==> forall|k: int|
                0 <= k < i ==> !((#[trigger] projects@[k]) is Local),
        decreases projects@.len() - i,
    {
        match rewrite_slot_project(projects[i], slot_host) {
            Some(project) => {
                list.push(project);
                assert(list@ =~= slot_projects(projects@, slot_host).take(i + 1));
            },
            None => {
                assert(projects@[i as int] is Local);
                return None;
            },
        }
        i = i + 1;
    }
    assert(slot_projects(projects@, slot_host).take(i as int) =~= slot_projects(
        projects@,
        slot_host,
    ));
    Some(list)
}

/// Whether some reference in a request is named without its host.
pub open spec fn names_bare(request: Request) -> bool {
    match request {
        Request::Tab(TabRequest::TabDump { tab, .. }) => tab is Local,
        Request::Tab(TabRequest::TabFocus { tab }) => tab is Local,
        Request::Tab(TabRequest::TabCapturePtyInput { tab, .. }) => tab is Local,
        Request::Tab(TabRequest::TabDumpResolved { tab }) => tab is Local,
        Request::Tab(TabRequest::TabSendFile { parsed, .. }) => parsed matches Some(tab) && tab is Local,
        Request::Tab(TabRequest::TabReorder(p)) => p.project_id is Local || any_bare_tab(
            p.tab_ids@,
        ),
        Request::Workspace(WorkspaceRequest::ProjectReorder { project_ids }) => any_bare_project(
            project_ids@,
        ),
        _ => false,
    }
}

/// Whether `out` is a request with its bare references taken for the session's, and otherwise
/// as it was.
pub open spec fn on_slot(request: Request, slot_host: Option<u32>, out: Request) -> bool {
    match request {
        Request::Tab(TabRequest::TabDump { tab, scrollback }) => out == Request::Tab(
            TabRequest::TabDump { tab: slot_tab(tab, slot_host), scrollback },
        ),
        Request::Tab(TabRequest::TabFocus { tab }) => out == Request::Tab(
            TabRequest::TabFocus { tab: slot_tab(tab, slot_host) },
        ),
        Request::Tab(TabRequest::TabCapturePtyInput { tab, drain }) => out == Request::Tab(
            TabRequest::TabCapturePtyInput { tab: slot_tab(tab, slot_host), drain },
        ),
        Request::Tab(TabRequest::TabDumpResolved { tab }) => out == Request::Tab(
            TabRequest::TabDumpResolved { tab: slot_tab(tab, slot_host) },
        ),
        Request::Tab(TabRequest::TabSendFile { tab, parsed, paths }) => out == Request::Tab(
            TabRequest::TabSendFile {
                tab,
                parsed: match parsed {
                    Some(named) => Some(slot_tab(named, slot_host)),
                    None => None,
                },
                paths,
            },
        ),
        Request::Tab(TabRequest::TabReorder(p)) => out matches Request::Tab(
            TabRequest::TabReorder(q),
        ) && q.project_id == slot_project(p.project_id, slot_host) && q.tab_ids@ == slot_tabs(
            p.tab_ids@,
            slot_host,
        ),
        Request::Workspace(WorkspaceRequest::ProjectReorder { project_ids }) => out matches Request::Workspace(
            WorkspaceRequest::ProjectReorder { project_ids: qualified },
        ) && qualified@ == slot_projects(project_ids@, slot_host),
        _ => out == request,
    }
}

fn slot_request(request: Request, slot_host: Option<u32>) -> (out: Option<Request>)
    ensures
        out is None <==> slot_host is None && names_bare(request),
        out matches Some(r) ==> on_slot(request, slot_host, r),
{
    match request {
        Request::Tab(TabRequest::TabDump { tab, scrollback }) => match rewrite_slot_tab(
            tab,
            slot_host,
        ) {
            Some(tab) => Some(Request::Tab(TabRequest::TabDump { tab, scrollback })),
            None => None,
        },
        Request::Tab(TabRequest::TabFocus { tab }) => match rewrite_slot_tab(tab, slot_host) {
            Some(tab) => Some(Request::Tab(TabRequest::TabFocus { tab })),
            None => None,
        },
        Request::Tab(TabRequest::TabCapturePtyInput { tab, drain }) => match rewrite_slot_tab(
            tab,
            slot_host,
        ) {
            Some(tab) => Some(Request::Tab(TabRequest::TabCapturePtyInput { tab, drain })),
            None => None,
        },
        Request::Tab(TabRequest::TabDumpResolved { tab }) => match rewrite_slot_tab(
            tab,
            slot_host,
        ) {
            Some(tab) => Some(Request::Tab(TabRequest::TabDumpResolved { tab })),
            None => None,
        },
        Request::Tab(TabRequest::TabSendFile { tab, parsed, paths }) => match parsed {
            Some(named) => match rewrite_slot_tab(named, slot_host) {
                Some(named) => Some(
                    Request::Tab(TabRequest::TabSendFile { tab, parsed: Some(named), paths }),
                ),
                None => None,
            },
            None => Some(Request::Tab(TabRequest::TabSendFile { tab, parsed: None, paths })),
        },
        Request::Tab(TabRequest::TabReorder(p)) => match (
            rewrite_slot_project(p.project_id, slot_host),
            rewrite_slot_tabs(&p.tab_ids, slot_host),
        ) {
            (Some(project_id), Some(tab_ids)) => Some(
                Request::Tab(TabRequest::TabReorder(TabReorderParams { project_id, tab_ids })),
            ),
            _ => None,
        },
        Request::Workspace(WorkspaceRequest::ProjectReorder { project_ids }) => match rewrite_slot_projects(
            &project_ids,
            slot_host,
        ) {
            Some(project_ids) => Some(
                Request::Workspace(WorkspaceRequest::ProjectReorder { project_ids }),
            ),
            None => None,
        },
        other => Some(other),
    }
}

/// A request with its bare references taken for the session's. One that needs the session
/// while it is away is refused, in the words that the caller has for that; one that names its
/// hosts never is.
pub fn rewrite_slot_request(
    request: Request,
    slot_host: Option<u32>,
    unavailable: HandlerError,
) -> (out: Result<Request, HandlerError>)
    ensures
        slot_host is None && names_bare(request) ==> out == Err::<Request, _>(unavailable),
        slot_host is Some || !names_bare(request) ==> (out matches Ok(r) && on_slot(
            request,
            slot_host,
            r,
        )),
{
    match slot_request(request, slot_host) {
        Some(request) => Ok(request),
        None => Err(unavailable),
    }
}

/// Whether a request was handed to the app whole, for the session that its tabs live in; or
/// the lack of an app reported.
pub open spec fn forwarded(
    facts: HandlerFacts,
    op: Op,
    params: String,
    out: Result<Plan, HandlerError>,
) -> bool {
    asks_ui(facts, out, UiRequest::LocalSessionForward { op, params }, Spelling::AsIs)
}

/// Hands a whole request to the app, for the session that its tabs live in.
pub fn forward_to_local_session(facts: &HandlerFacts, op: Op, params: String) -> (out: Result<
    Plan,
    HandlerError,
>)
    ensures
        forwarded(*facts, op, params, out),
{
    ask_ui(facts, UiRequest::LocalSessionForward { op, params }, Spelling::AsIs)
}

/// A request in both of its forms.
#[derive(Debug, PartialEq, Eq)]
pub struct RawRequest {
    pub op: Op,
    /// The parameters as the client wrote them.
    pub params: String,
    /// Whether they name something without its host, seen before they are read any further.
    pub bare: bool,
    /// The parameters as this socket reads them, or why it cannot.
    pub decoded: Result<Request, HandlerError>,
}

impl RawRequest {
    /// Whether some reference in it is named without its host, be it in a request that cannot
    /// be read otherwise.
    pub open spec fn needs_slot(self) -> bool {
        self.bare || (self.decoded matches Ok(request) && names_bare(request))
    }
}

/// What is done for a request where a UI's tabs may live in a session. A reference that needs
/// the session while it is away is refused before the rest of the request is read.
pub open spec fn routed(
    facts: HandlerFacts,
    route: LocalRoute,
    class: OpClass,
    raw: RawRequest,
    unavailable: HandlerError,
    out: Result<Plan, HandlerError>,
) -> bool {
    match answers_at(route.mode, class) {
        Answering::Forwarded => forwarded(facts, raw.op, raw.params, out),
        Answering::Here => match raw.decoded {
            Ok(request) => dispatched(facts, request, out),
            Err(why) => out == Err::<Plan, _>(why),
        },
        Answering::Rewritten => if route.slot_host is None && raw.needs_slot() {
            out == Err::<Plan, _>(unavailable)
        } else {
            match raw.decoded {
                Ok(request) => exists|r: Request|
                    #[trigger] on_slot(request, route.slot_host, r) && dispatched(facts, r, out),
                Err(why) => out == Err::<Plan, _>(why),
            }
        },
    }
}

/// Decides what is done for a request, with regard to where the tabs live that it is about.
/// What belongs to the session leaves as the client wrote it, whether or not this socket can
/// read it, and nothing of it is done here.
pub fn dispatch_routed(
    facts: &HandlerFacts,
    route: &LocalRoute,
    class: OpClass,
    raw: RawRequest,
    unavailable: HandlerError,
) -> (out: Result<Plan, HandlerError>)
    ensures
        routed(*facts, *route, class, raw, unavailable, out),
{
    let rewrite: bool = match answering(route.mode, class) {
        Answering::Forwarded => {
            return forward_to_local_session(facts, raw.op, raw.params);
        },
        Answering::Rewritten => true,
        Answering::Here => false,
    };
    if rewrite && raw.bare && route.slot_host.is_none() {
        return Err(unavailable);
    }
    let request = match raw.decoded {
        Ok(request) => request,
        Err(why) => {
            return Err(why);
        },
    };
    if !rewrite {
        return dispatch(facts, request);
    }
    match rewrite_slot_request(request, route.slot_host, unavailable) {
        Ok(request) => dispatch(facts, request),
        Err(why) => Err(why),
    }
}

/// A request that belongs to the session never touches the workspace here, with an app to pass
/// it on or without one.
pub proof fn law_a_forwarded_request_leaves_the_workspace_alone(
    facts: HandlerFacts,
    route: LocalRoute,
    raw: RawRequest,
    unavailable: HandlerError,
    out: Result<Plan, HandlerError>,
)
    requires
        route.mode == LocalBackendMode::Session,
        routed(facts, route, OpClass::Forward, raw, unavailable, out),
    ensures
        facts.has_ui ==> out == Ok::<_, HandlerError>(
            Plan::Ui(
                UiRequest::LocalSessionForward { op: raw.op, params: raw.params },
                Spelling::AsIs,
            ),
        ),
        !facts.has_ui ==> refused(out, "internal"@, "no UI attached"@),
        !(out matches Ok(Plan::Workspace(_))),
        !(out matches Ok(Plan::OpenTab { .. })),
{
}

/// A request that names its hosts comes out of the rewriting as it does with no session there.
pub proof fn law_a_named_host_needs_no_slot(request: Request, slot_host: Option<u32>, out: Request)
    requires
        !names_bare(request),
        on_slot(request, slot_host, out),
    ensures
        on_slot(request, None, out),
{
    match request {
        Request::Tab(TabRequest::TabReorder(p)) => {
            assert(slot_tabs(p.tab_ids@, slot_host) =~= slot_tabs(p.tab_ids@, None));
        },
        Request::Workspace(WorkspaceRequest::ProjectReorder { project_ids }) => {
            assert(slot_projects(project_ids@, slot_host) =~= slot_projects(project_ids@, None));
        },
        _ => {},
    }
}

/// How far a request on a session's socket comes.
#[derive(Debug, PartialEq, Eq)]
pub enum Outcome {
    /// The session says who it is.
    Identify,
    /// The session stops.
    Stop,
    /// The connection turns into a stream of events.
    Subscribe,
    /// The request is carried out.
    Dispatch,
    /// The request waits for a stop that is under way, and then [`after_barrier`] decides.
    AwaitBarrier,
    SetTheme,
    SetAgentHooks,
    PutFile,
    Refuse(HandlerError),
}

/// Whether a session leaves an operation to its clients: those about the hosts they know, and
/// about the hooks of their own machine.
pub open spec fn clients_own(op: Op) -> bool {
    match op {
        Op::HostAdd | Op::HostRemove | Op::HostList | Op::HostConnect | Op::HostDisconnect
        | Op::HostStatus | Op::AgentSetHooks => true,
        _ => false,
    }
}

fn is_clients_own(op: Op) -> (yes: bool)
    ensures
        yes == clients_own(op),
{
    match op {
        Op::HostAdd | Op::HostRemove | Op::HostList | Op::HostConnect | Op::HostDisconnect
        | Op::HostStatus | Op::AgentSetHooks => true,
        _ => false,
    }
}

/// Whether only a session has an operation.
pub open spec fn sessions_own(op: Op) -> bool {
    ops::reasons(op).contains(Withheld::SessionOnly)
}

fn is_sessions_own(op: Op) -> (yes: bool)
    ensures
        yes == sessions_own(op),
{
    match op {
        Op::SessionIdentify | Op::SessionStop | Op::SessionSetTheme | Op::SessionSetAgentHooks
        | Op::SessionPutFile => {
            assert(ops::reasons(op)[0] == Withheld::SessionOnly);
            true
        },
        _ => {
            assert(!sessions_own(op));
            false
        },
    }
}

/// How far a request comes at once. On a UI's socket nothing stands before the dispatcher but
/// that it does not know what only a session has. A session answers for itself, leaves to its
/// clients what is theirs, lets reads pass at any time, and changes nothing once it is
/// stopping.
pub open spec fn outcome(is_session: bool, stopping: bool, op: Op, out: Outcome) -> bool {
    if !is_session && sessions_own(op) {
        out matches Outcome::Refuse(e) && e.says("unknown-op"@, "unknown op: "@ + op.wire())
    } else if !is_session {
        out == Outcome::Dispatch
    } else if op == Op::SessionIdentify {
        out == Outcome::Identify
    } else if op == Op::SessionStop {
        out == Outcome::Stop
    } else if op == Op::EventsSubscribe {
        out == Outcome::Subscribe
    } else if clients_own(op) {
        out matches Outcome::Refuse(e) && e.says("unknown-op"@, "unknown op: "@ + op.wire())
    } else if !op.mutates() {
        out == Outcome::Dispatch
    } else if stopping {
        out matches Outcome::Refuse(e) && e.says("shutting-down"@, "session is shutting down"@)
    } else {
        out == Outcome::AwaitBarrier
    }
}

/// How far a request comes at once.
pub fn dispatch_outcome(is_session: bool, stopping: bool, op: Op) -> (out: Outcome)
    ensures
        outcome(is_session, stopping, op, out),
{
    if !is_session {
        if is_sessions_own(op) {
            return Outcome::Refuse(HandlerError::unknown_op(op.name()));
        }
        return Outcome::Dispatch;
    }
    match op {
        Op::SessionIdentify => {
            return Outcome::Identify;
        },
        Op::SessionStop => {
            return Outcome::Stop;
        },
        Op::EventsSubscribe => {
            return Outcome::Subscribe;
        },
        _ => {},
    }
    if is_clients_own(op) {
        return Outcome::Refuse(HandlerError::unknown_op(op.name()));
    }
    if !op.mutating() {
        return Outcome::Dispatch;
    }
    if stopping {
        return Outcome::Refuse(errors::shutting_down());
    }
    Outcome::AwaitBarrier
}

/// What becomes of a request that waited. The session may have begun to stop meanwhile, so
/// that is asked again.
pub open spec fn past_barrier(stopping: bool, op: Op, out: Outcome) -> bool {
    if stopping {
        out matches Outcome::Refuse(e) && e.says("shutting-down"@, "session is shutting down"@)
    } else {
        match op {
            Op::SessionSetTheme => out == Outcome::SetTheme,
            Op::SessionSetAgentHooks => out == Outcome::SetAgentHooks,
            Op::SessionPutFile => out == Outcome::PutFile,
            _ => out == Outcome::Dispatch,
        }
    }
}

/// What becomes of a request that waited.
pub fn after_barrier(stopping: bool, op: Op) -> (out: Outcome)
    ensures
        past_barrier(stopping, op, out),
{
    if stopping {
        return Outcome::Refuse(errors::shutting_down());
    }
    match op {
        Op::SessionSetTheme => Outcome::SetTheme,
        Op::SessionSetAgentHooks => Outcome::SetAgentHooks,
        Op::SessionPutFile => Outcome::PutFile,
        _ => Outcome::Dispatch,
    }
}

/// A UI's socket refuses exactly those operations at the door that it never lists because only
/// a session has them.
pub proof fn law_a_ui_does_not_know_a_sessions_operations(op: Op, stopping: bool, out: Outcome)
    requires
        outcome(false, stopping, op, out),
    ensures
        out is Refuse <==> ops::reasons(op).contains(Withheld::SessionOnly),
        !(out is Refuse) ==> out == Outcome::Dispatch,
{
}

/// Nothing changes a session that is stopping: an operation that mutates is refused before
/// the barrier and behind it.
pub proof fn law_a_stopping_session_changes_nothing(op: Op, before: Outcome, behind: Outcome)
    requires
        op.mutates(),
        outcome(true, true, op, before),
        past_barrier(true, op, behind),
    ensures
        before is Refuse,
        behind is Refuse,
{
}

/// What only reads is answered to the end: no stop turns it away.
pub proof fn law_reads_stay_answerable(op: Op, stopping: bool, out: Outcome)
    requires
        !op.mutates(),
        !clients_own(op),
        op != Op::SessionIdentify,
        op != Op::SessionStop,
        op != Op::EventsSubscribe,
        outcome(true, stopping, op, out),
    ensures
        out == Outcome::Dispatch,
{
}

/// A socket without an app never leaves a client waiting for one.
pub proof fn law_no_request_waits_for_an_app_that_is_not_there(
    facts: HandlerFacts,
    request: Request,
    out: Result<Plan, HandlerError>,
)
    requires
        !facts.has_ui,
        dispatched(facts, request, out),
    ensures
        !(out matches Ok(Plan::Ui(_, _))),
{
}

/// A session never asks an app about a tab's terminal that it runs itself.
pub proof fn law_a_session_answers_for_its_tabs(
    facts: HandlerFacts,
    tab: WireTabRef,
    scrollback: u32,
    out: Result<Plan, HandlerError>,
)
    requires
        facts.serves_tabs(),
        dispatched(facts, Request::Tab(TabRequest::TabDump { tab, scrollback }), out),
    ensures
        out is Ok ==> (out matches Ok(Plan::Tab(TabQuery::Dump { tab_id, .. })) && tab_id
            == tab.id() && tab is Local),
{
}

/// What a session answers for hooks that it was asked to set. One that cannot set any says so.
pub fn agent_hooks_support(has_backend: bool) -> (out: Result<(), HandlerError>)
    ensures
        out is Ok <==> has_backend,
        out matches Err(e) ==> e.says(
            "not-supported"@,
            "this session cannot wire agent hooks: it was built without an install backend"@,
        ),
{
    if has_backend {
        return Ok(());
    }
    Err(
        HandlerError::new(
            "not-supported",
            "this session cannot wire agent hooks: it was built without an install backend".to_owned(),
        ),
    )
}

/// What goes to the app: the request itself where there is one, and a refusal where there is
/// none; what goes to a session's own tab goes by its bare number only.
pub proof fn law_a_request_is_asked_of_its_own(
    facts: HandlerFacts,
    request: UiRequest,
    spelling: Spelling,
    tab: WireTabRef,
    query: TabQuery,
    call: WorkspaceCall,
    out: Result<Plan, HandlerError>,
)
    ensures
        facts.has_ui && asks_ui(facts, out, request, spelling) ==> (out matches Ok(
            Plan::Ui(asked, by),
        ) && asked == request && by == spelling),
        !facts.has_ui && asks_ui(facts, out, request, spelling) ==> (out matches Err(e) && e.code@
            == "internal"@ && e.message@ == "no UI attached"@),
        tab is Local && asks_tab(tab, out, query) ==> (out matches Ok(Plan::Tab(asked)) && asked
            == query),
        tab is Host && asks_tab(tab, out, query) ==> (out matches Err(e) && e.code@
            == "invalid-param"@ && e.message@ == routes::foreign_tab()),
        asks_workspace(out, call) ==> (out matches Ok(Plan::Workspace(asked)) && asked == call),
{
}

/// What a tab's request asks of the workspace: what its name says, of the tab it names, with the
/// words it carries.
pub proof fn law_a_tabs_request_is_about_that_tab(
    facts: HandlerFacts,
    id: i64,
    words: String,
    generation: Option<u64>,
    flag: bool,
    data: Vec<u8>,
    why: String,
    out: Result<Plan, HandlerError>,
)
    ensures
        tab_dispatched(facts, TabRequest::TabClose { tab_id: id }, out) ==> (out matches Ok(
            Plan::Workspace(WorkspaceCall::CloseTab { tab_id }),
        ) && tab_id == id),
        tab_dispatched(facts, TabRequest::TabList, out) ==> (out matches Ok(
            Plan::Workspace(WorkspaceCall::ListTabs { with_revision }),
        ) && with_revision == facts.is_session),
        tab_dispatched(facts, TabRequest::TabWrite { tab_id: id, data }, out) ==> (out matches Ok(
            Plan::Write { tab_id, data: written },
        ) && tab_id == id && written == data),
        tab_dispatched(facts, TabRequest::TabSetTitle { tab_id: id, title: words }, out) ==> (
        out matches Ok(Plan::Workspace(WorkspaceCall::SetTitle { tab_id, title })) && tab_id == id
            && title == words),
        tab_dispatched(facts, TabRequest::TabSetState { tab_id: id, state: words }, out) ==> (
        out matches Ok(Plan::Workspace(WorkspaceCall::SetState { tab_id, state })) && tab_id == id
            && state == words),
        tab_dispatched(
            facts,
            TabRequest::TabClearNotification { tab_id: id, generation },
            out,
        ) ==> (out matches Ok(
            Plan::Workspace(WorkspaceCall::ClearNotification { tab_id, generation: of }),
        ) && tab_id == id && of == generation),
        tab_dispatched(facts, TabRequest::TabSetHookActive { tab_id: id, active: flag }, out) ==> (
        out matches Ok(Plan::Workspace(WorkspaceCall::SetHookActive { tab_id, active })) && tab_id
            == id && active == flag),
        tab_dispatched(facts, TabRequest::TabFocus { tab: WireTabRef::Local(id) }, out) ==> (
        out matches Ok(Plan::Workspace(WorkspaceCall::FocusTab { tab_id })) && tab_id == id),
        tab_dispatched(
            facts,
            TabRequest::TabAgentReport { report: words, fault: None },
            out,
        ) ==> (out matches Ok(Plan::Workspace(WorkspaceCall::ReportAgent { report })) && report
            == words),
        tab_dispatched(
            facts,
            TabRequest::TabAgentReport { report: words, fault: Some(why) },
            out,
        ) ==> (out matches Err(e) && e.code@ == "invalid-param"@ && e.message@ == why@),
{
}

/// What a size comes to: of a new tab the numbers it asks for, with the session's own in the
/// place of a zero; of a resize the numbers as they are; and past the range a refusal, the
/// columns looked at first.
pub proof fn law_a_tab_gets_the_size_it_asks_for(
    facts: HandlerFacts,
    id: i64,
    params: TabOpenParams,
    cols: u32,
    rows: u32,
    open: Result<Plan, HandlerError>,
    resize: Result<Plan, HandlerError>,
)
    requires
        params.cols == cols,
        params.rows == rows,
        tab_dispatched(facts, TabRequest::TabOpen(params), open),
        tab_dispatched(facts, TabRequest::TabResize { tab_id: id, cols, rows }, resize),
    ensures
        open matches Ok(Plan::OpenTab { params: asked, size }) && asked == params && (if cols
            > 65535 {
            size matches Err(e) && e.code@ == "invalid-param"@ && e.message@
                == "cols out of u16 range"@
        } else if rows > 65535 {
            size matches Err(e) && e.code@ == "invalid-param"@ && e.message@
                == "rows out of u16 range"@
        } else {
            size matches Ok((c, r)) && (cols > 0 ==> c == cols) && (cols == 0 ==> c
                == facts.default_size.0) && (rows > 0 ==> r == rows) && (rows == 0 ==> r
                == facts.default_size.1)
        }),
        cols > 65535 ==> (resize matches Err(e) && e.code@ == "invalid-param"@ && e.message@
            == "cols out of u16 range"@),
        cols <= 65535 && rows > 65535 ==> (resize matches Err(e) && e.code@ == "invalid-param"@
            && e.message@ == "rows out of u16 range"@),
        cols <= 65535 && rows <= 65535 ==> (resize matches Ok(
            Plan::Resize { tab_id, cols: c, rows: r },
        ) && tab_id == id && c == cols && r == rows),
{
}

/// Who reads a tab: the session itself where it keeps the terminals, by the bare number; else
/// the app, by the reference as it came. No dump reaches further back than the most there is.
pub proof fn law_a_read_goes_to_who_keeps_the_terminal(
    facts: HandlerFacts,
    id: i64,
    tab: WireTabRef,
    back: u32,
    drain: bool,
    data: Vec<u8>,
    out: Result<Plan, HandlerError>,
)
    requires
        facts.is_session && facts.server_vt || facts.has_ui,
    ensures
        tab_dispatched(
            facts,
            TabRequest::TabDump { tab: WireTabRef::Local(id), scrollback: back },
            out,
        ) && facts.is_session && facts.server_vt ==> (out matches Ok(
            Plan::Tab(TabQuery::Dump { tab_id, scrollback }),
        ) && tab_id == id && scrollback <= back && scrollback <= facts.max_dump_scrollback && (
        scrollback == back || scrollback == facts.max_dump_scrollback)),
        tab_dispatched(facts, TabRequest::TabDump { tab, scrollback: back }, out) && !(
        facts.is_session && facts.server_vt) ==> (out matches Ok(
            Plan::Ui(UiRequest::Dump { tab: of, scrollback }, Spelling::Dump),
        ) && of == tab && scrollback <= back && scrollback <= facts.max_dump_scrollback && (
        scrollback == back || scrollback == facts.max_dump_scrollback)),
        tab_dispatched(
            facts,
            TabRequest::TabDumpResolved { tab: WireTabRef::Local(id) },
            out,
        ) && facts.is_session && facts.server_vt ==> (out matches Ok(
            Plan::Tab(TabQuery::DumpResolved { tab_id }),
        ) && tab_id == id),
        tab_dispatched(facts, TabRequest::TabDumpResolved { tab }, out) && !(facts.is_session
            && facts.server_vt) ==> (out matches Ok(
            Plan::Ui(UiRequest::TabDumpResolved { tab: of }, Spelling::NotFound),
        ) && of == tab),
        tab_dispatched(
            facts,
            TabRequest::TabCapturePtyInput { tab: WireTabRef::Local(id), drain },
            out,
        ) && facts.is_session && facts.server_vt && facts.test_mode ==> (out matches Ok(
            Plan::Tab(TabQuery::Capture { tab_id, drain: emptied }),
        ) && tab_id == id && emptied == drain),
        tab_dispatched(facts, TabRequest::TabCapturePtyInput { tab, drain }, out) && !(
        facts.is_session && facts.server_vt) ==> (out matches Ok(
            Plan::Ui(UiRequest::TabCapturePtyInput { tab: of, drain: emptied }, Spelling::TestOp),
        ) && of == tab && emptied == drain),
        tab_dispatched(facts, TabRequest::TabFeedPtyBytes { tab_id: id, data }, out)
            && facts.is_session && facts.server_vt && facts.test_mode ==> (out matches Ok(
            Plan::Tab(TabQuery::Feed { tab_id, chunks: list }),
        ) && tab_id == id && joined_chunks(chunk_views(list@)) == data@),
        tab_dispatched(facts, TabRequest::TabFeedPtyBytes { tab_id: id, data }, out) && !(
        facts.is_session && facts.server_vt) ==> (out matches Ok(
            Plan::Ui(UiRequest::TabFeedPtyBytes { tab_id, data: fed }, Spelling::TestOp),
        ) && tab_id == id && fed == data),
        facts.is_session && facts.server_vt && !facts.test_mode && (tab_dispatched(
            facts,
            TabRequest::TabFeedPtyBytes { tab_id: id, data },
            out,
        ) || tab_dispatched(
            facts,
            TabRequest::TabCapturePtyInput { tab: WireTabRef::Local(id), drain },
            out,
        )) ==> (out matches Err(e) && e.code@ == "not-enabled"@ && e.message@
            == "this op requires the session to have been started with ROOST_TEST_MODE=1"@),
{
    law_chunks_carry_everything(data@);
}

/// Every chunk of a feed is full but the last, and none is empty.
pub proof fn law_chunks_are_full_but_the_last(data: Seq<u8>, i: int)
    requires
        0 <= i < chunks(data).len(),
    ensures
        0 < chunks(data)[i].len() <= 4096,
        i < chunks(data).len() - 1 ==> chunks(data)[i].len() == 4096,
    decreases data.len(),
{
    if data.len() > 4096 {
        let rest = data.skip(4096);
        if i > 0 {
            law_chunks_are_full_but_the_last(rest, i - 1);
            assert(chunks(data)[i] == chunks(rest)[i - 1]);
        }
    }
}

/// What needs an app: a tab on a host is brought to the front, and files are sent, by the app
/// alone, to where the reference says; a reference that is none is refused first.
pub proof fn law_a_hosts_tab_is_the_apps(
    facts: HandlerFacts,
    host: u32,
    id: i64,
    named: String,
    tab: WireTabRef,
    paths: Vec<String>,
    out: Result<Plan, HandlerError>,
)
    ensures
        tab_dispatched(facts, TabRequest::TabFocus { tab: WireTabRef::Host { host, tab: id } }, out)
            ==> (if facts.has_ui {
            out matches Ok(
                Plan::Ui(UiRequest::HostTabFocus { host: to, tab_id }, Spelling::Workspace),
            ) && to == host && tab_id == id
        } else {
            out matches Err(e) && e.code@ == "invalid-param"@ && e.message@
                == "a host-qualified tab.focus"@ + " needs a UI: "@
                + "host selection is client state"@
        }),
        tab_dispatched(
            facts,
            TabRequest::TabSendFile { tab: named, parsed: Some(tab), paths },
            out,
        ) ==> (if facts.has_ui {
            out matches Ok(
                Plan::Ui(UiRequest::TabSendFile { tab: to, paths: files }, Spelling::AsIs),
            ) && to == tab && files == paths
        } else {
            out matches Err(e) && e.code@ == "invalid-param"@ && e.message@ == "tab.send_file"@
                + " needs a UI: "@ + "reading the files and typing the paste are the app's"@
        }),
        tab_dispatched(facts, TabRequest::TabSendFile { tab: named, parsed: None, paths }, out)
            ==> (out matches Err(e) && e.code@ == "invalid-param"@ && e.message@
            == "invalid tab reference: "@ + named@),
{
}

/// What a project's request asks of the workspace: what its name says, with its own words. A
/// project that is created without a place is placed at home; one that is looked for is not.
pub proof fn law_a_projects_request_is_about_that_project(
    facts: HandlerFacts,
    id: i64,
    words: String,
    place: String,
    out: Result<Plan, HandlerError>,
)
    ensures
        workspace_dispatched(
            facts,
            WorkspaceRequest::ProjectCreate { name: words, cwd: place },
            out,
        ) ==> (out matches Ok(Plan::Workspace(WorkspaceCall::CreateProject { name, cwd })) && name
            == words && (place@.len() > 0 ==> cwd@ == place@) && (place@.len() == 0 ==> cwd@
            == crate::home_of(text::opt_string(facts.home)))),
        workspace_dispatched(
            facts,
            WorkspaceRequest::ProjectEnsure { name: words, cwd: Some(place) },
            out,
        ) ==> (out matches Ok(Plan::Workspace(WorkspaceCall::EnsureProject { name, cwd })) && name
            == words && cwd@ == place@),
        workspace_dispatched(
            facts,
            WorkspaceRequest::ProjectEnsure { name: words, cwd: None },
            out,
        ) ==> (out matches Ok(Plan::Workspace(WorkspaceCall::EnsureProject { name, cwd })) && name
            == words && cwd@ == ""@),
        workspace_dispatched(
            facts,
            WorkspaceRequest::ProjectRename { project_id: id, name: words },
            out,
        ) ==> (out matches Ok(Plan::Workspace(WorkspaceCall::RenameProject { project_id, name }))
            && project_id == id && name == words),
        workspace_dispatched(facts, WorkspaceRequest::ProjectDelete { project_id: id }, out) ==> (
        out matches Ok(Plan::Workspace(WorkspaceCall::DeleteProject { project_id })) && project_id
            == id),
        workspace_dispatched(
            facts,
            WorkspaceRequest::NotificationCreate { tab_id: id, title: words, body: place },
            out,
        ) ==> (out matches Ok(
            Plan::Workspace(WorkspaceCall::RaiseAttention { tab_id, title, body }),
        ) && tab_id == id && title == words && body == place),
        workspace_dispatched(facts, WorkspaceRequest::HostList, out) ==> out == Ok::<
            _,
            HandlerError,
        >(Plan::Workspace(WorkspaceCall::ListHosts)),
        workspace_dispatched(
            facts,
            WorkspaceRequest::HostAdd { label: words, target: place },
            out,
        ) && facts.has_ui ==> (out matches Ok(
            Plan::Ui(UiRequest::HostAdd { label, target }, Spelling::Workspace),
        ) && label == words && target == place),
        workspace_dispatched(
            facts,
            WorkspaceRequest::HostAdd { label: words, target: place },
            out,
        ) && !facts.has_ui ==> (out matches Ok(
            Plan::Workspace(WorkspaceCall::AddHost { label, target }),
        ) && label == words && target == place),
        workspace_dispatched(facts, WorkspaceRequest::HostRemove { id: words }, out)
            && facts.has_ui ==> (out matches Ok(
            Plan::Ui(UiRequest::HostRemove { id: of }, Spelling::Workspace),
        ) && of == words),
        workspace_dispatched(facts, WorkspaceRequest::HostRemove { id: words }, out)
            && !facts.has_ui ==> (out matches Ok(
            Plan::Workspace(WorkspaceCall::RemoveHost { id: of }),
        ) && of == words),
{
}

/// A new order reaches who keeps the rows, as it was given: here the workspace, on a host the
/// app with that host; and a list that names two instances reaches nobody.
pub proof fn law_a_new_order_reaches_its_instance(
    facts: HandlerFacts,
    p: TabReorderParams,
    projects: Seq<WireProjectRef>,
    i: int,
    tabs: Result<Plan, HandlerError>,
    rows: Result<Plan, HandlerError>,
)
    requires
        reorders_tabs(facts, p, tabs),
        reorders_projects(facts, projects, rows),
    ensures
        tabs matches Ok(plan) ==> (match plan {
            Plan::Workspace(WorkspaceCall::ReorderTabs { project_id, tab_ids }) => p.project_id
                == WireProjectRef::Local(project_id) && tab_ids@.len() == p.tab_ids@.len() && (0
                <= i < tab_ids@.len() ==> p.tab_ids@[i] == WireTabRef::Local(tab_ids@[i])),
            Plan::Ui(UiRequest::HostTabReorder { host, project_id, tab_ids }, Spelling::AsIs) =>
            p.project_id == (WireProjectRef::Host { host, project: project_id }) && tab_ids@.len()
                == p.tab_ids@.len() && (0 <= i < tab_ids@.len() ==> p.tab_ids@[i] == (
            WireTabRef::Host { host, tab: tab_ids@[i] })) && facts.has_ui && !facts.is_session,
            _ => false,
        }),
        p.project_id is Local && routes::tabs_on(p.tab_ids@, ReorderInstance::Local) ==> tabs is Ok,
        rows matches Ok(plan) ==> (match plan {
            Plan::Workspace(WorkspaceCall::ReorderProjects { project_ids }) => project_ids@.len()
                == projects.len() && (0 <= i < projects.len() ==> projects[i]
                == WireProjectRef::Local(project_ids@[i])),
            Plan::Ui(UiRequest::HostProjectReorder { host, project_ids }, Spelling::AsIs) =>
            project_ids@.len() == projects.len() && (0 <= i < projects.len() ==> projects[i] == (
            WireProjectRef::Host { host, project: project_ids@[i] })) && facts.has_ui
                && !facts.is_session,
            _ => false,
        }),
        routes::projects_on(projects, ReorderInstance::Local) ==> rows is Ok,
{
    if tabs is Ok && 0 <= i < p.tab_ids@.len() {
        assert(p.tab_ids@[i].on(routes::instance_of(p.project_id)));
    }
    if rows is Ok && 0 <= i < projects.len() {
        assert(projects[i].on(routes::list_instance(projects)));
    }
    if projects.len() > 0 {
        assert(projects[0].on(routes::list_instance(projects)));
        if routes::projects_on(projects, ReorderInstance::Local) {
            assert(projects[0].on(ReorderInstance::Local));
        }
    }
}

/// What the app is asked: what the request's name says, with everything it carries.
pub proof fn law_the_app_is_asked_as_the_request_says(
    facts: HandlerFacts,
    id: i64,
    words: String,
    flag: bool,
    anchor: (u16, u16),
    cursor: (u16, u16),
    out: Result<Plan, HandlerError>,
)
    requires
        facts.has_ui,
    ensures
        app_dispatched(facts, AppRequest::WindowMetrics, out) ==> out == Ok::<_, HandlerError>(
            Plan::Ui(UiRequest::WindowMetrics, Spelling::Internal),
        ),
        app_dispatched(facts, AppRequest::AppRenderStats { reset: flag }, out) ==> out == Ok::<
            _,
            HandlerError,
        >(Plan::Ui(UiRequest::AppRenderStats { reset: flag }, Spelling::Internal)),
        app_dispatched(facts, AppRequest::SidebarDump, out) ==> out == Ok::<_, HandlerError>(
            Plan::Ui(UiRequest::SidebarDump, Spelling::Internal),
        ),
        app_dispatched(facts, AppRequest::PaletteState, out) ==> out == Ok::<_, HandlerError>(
            Plan::Ui(UiRequest::PaletteState, Spelling::NotFound),
        ),
        app_dispatched(facts, AppRequest::PaletteQuery { query: words }, out) ==> out == Ok::<
            _,
            HandlerError,
        >(Plan::Ui(UiRequest::PaletteQuery { query: words }, Spelling::NotFound)),
        app_dispatched(facts, AppRequest::PaletteActivate { id: words }, out) ==> out == Ok::<
            _,
            HandlerError,
        >(Plan::Ui(UiRequest::PaletteActivate { id: words }, Spelling::NotFound)),
        app_dispatched(facts, AppRequest::PaletteDismiss, out) ==> out == Ok::<_, HandlerError>(
            Plan::Ui(UiRequest::PaletteDismiss, Spelling::NotFound),
        ),
        app_dispatched(facts, AppRequest::SelectionSet { tab_id: id, anchor, cursor }, out) ==> out
            == Ok::<_, HandlerError>(
            Plan::Ui(UiRequest::SelectionSet { tab_id: id, anchor, cursor }, Spelling::NotFound),
        ),
        app_dispatched(facts, AppRequest::SelectionClear { tab_id: id }, out) ==> out == Ok::<
            _,
            HandlerError,
        >(Plan::Ui(UiRequest::SelectionClear { tab_id: id }, Spelling::NotFound)),
        app_dispatched(facts, AppRequest::SelectionDump { tab_id: id }, out) ==> out == Ok::<
            _,
            HandlerError,
        >(Plan::Ui(UiRequest::SelectionDump { tab_id: id }, Spelling::NotFound)),
        app_dispatched(facts, AppRequest::AppSetWindowFocus { focus: flag }, out) ==> out == Ok::<
            _,
            HandlerError,
        >(Plan::Ui(UiRequest::AppSetWindowFocus { focused: flag }, Spelling::TestOp)),
        app_dispatched(facts, AppRequest::AppCursorShape, out) ==> out == Ok::<_, HandlerError>(
            Plan::Ui(UiRequest::AppCursorShape, Spelling::Internal),
        ),
        app_dispatched(facts, AppRequest::AppActiveTerminalFocused, out) ==> out == Ok::<
            _,
            HandlerError,
        >(Plan::Ui(UiRequest::AppActiveTerminalFocused, Spelling::Internal)),
{
}

/// What the desktop is asked: what the request's name says, with everything it carries.
pub proof fn law_the_desktop_is_asked_as_the_request_says(
    facts: HandlerFacts,
    words: String,
    list: Vec<String>,
    perhaps: Option<String>,
    flag: bool,
    out: Result<Plan, HandlerError>,
)
    requires
        facts.has_ui,
    ensures
        desk_dispatched(facts, DeskRequest::AppSelectedTabId, out) ==> out == Ok::<
            _,
            HandlerError,
        >(Plan::Ui(UiRequest::AppSelectedTabId, Spelling::Internal)),
        desk_dispatched(facts, DeskRequest::AppDockBadge, out) ==> out == Ok::<_, HandlerError>(
            Plan::Ui(UiRequest::AppDockBadge, Spelling::TestOp),
        ),
        desk_dispatched(facts, DeskRequest::AppMenuDump, out) ==> out == Ok::<_, HandlerError>(
            Plan::Ui(UiRequest::AppMenuDump, Spelling::TestOp),
        ),
        desk_dispatched(facts, DeskRequest::AppMenuActivate { path: list }, out) ==> out == Ok::<
            _,
            HandlerError,
        >(Plan::Ui(UiRequest::AppMenuActivate { path: list }, Spelling::TestOp)),
        desk_dispatched(facts, DeskRequest::AppDialogDump, out) ==> out == Ok::<_, HandlerError>(
            Plan::Ui(UiRequest::AppDialogDump, Spelling::TestOp),
        ),
        desk_dispatched(facts, DeskRequest::AppUpdateStatus, out) ==> out == Ok::<_, HandlerError>(
            Plan::Ui(UiRequest::AppUpdateStatus, Spelling::TestOp),
        ),
        desk_dispatched(facts, DeskRequest::AppUpdateCheck, out) ==> out == Ok::<_, HandlerError>(
            Plan::Ui(UiRequest::AppUpdateCheck, Spelling::TestOp),
        ),
        desk_dispatched(facts, DeskRequest::AppNotificationStatus, out) ==> out == Ok::<
            _,
            HandlerError,
        >(Plan::Ui(UiRequest::AppNotificationStatus, Spelling::TestOp)),
        desk_dispatched(facts, DeskRequest::AgentSetHooks { agents: list }, out) ==> out == Ok::<
            _,
            HandlerError,
        >(Plan::Ui(UiRequest::AgentSetHooks { agents: list }, Spelling::AsIs)),
        desk_dispatched(
            facts,
            DeskRequest::HostConnect { id: words, test_user_origin: flag },
            out,
        ) ==> out == Ok::<_, HandlerError>(
            Plan::Ui(
                UiRequest::HostConnect { id: words, test_user_origin: flag },
                Spelling::Workspace,
            ),
        ),
        desk_dispatched(facts, DeskRequest::HostDisconnect { id: words }, out) ==> out == Ok::<
            _,
            HandlerError,
        >(Plan::Ui(UiRequest::HostDisconnect { id: words }, Spelling::Workspace)),
        desk_dispatched(facts, DeskRequest::HostStatus { id: perhaps }, out) ==> out == Ok::<
            _,
            HandlerError,
        >(Plan::Ui(UiRequest::HostStatus { id: perhaps }, Spelling::Workspace)),
{
}

/// What a checked request must hold to reach the app, and what it is told where it does not;
/// what reaches the app is the request as it came.
pub proof fn law_a_checked_request_reaches_the_app_as_it_came(
    facts: HandlerFacts,
    scale: u32,
    words: String,
    other: String,
    items: Vec<(String, String, Option<String>)>,
    id: i64,
    at: (u16, u16),
    clicks: u8,
    out: Result<Plan, HandlerError>,
)
    requires
        facts.has_ui,
    ensures
        checked_dispatched(facts, CheckedRequest::Screenshot { scale }, out) ==> (if scale == 1
            || scale == 2 {
            out == Ok::<_, HandlerError>(
                Plan::Ui(UiRequest::Screenshot { scale }, Spelling::Internal),
            )
        } else {
            refused(
                out,
                "invalid-param"@,
                "scale must be 1 or 2, got "@ + text::decimal(scale as nat),
            )
        }),
        checked_dispatched(facts, CheckedRequest::PaletteOpen { kind: words }, out) ==> (if words@
            == ""@ || words@ == "commands"@ || words@ == "launcher"@ || words@ == "custom"@
            || words@ == "agents"@ {
            out == Ok::<_, HandlerError>(
                Plan::Ui(UiRequest::PaletteOpen { kind: words }, Spelling::NotFound),
            )
        } else {
            refused(
                out,
                "invalid-param"@,
                "unknown palette kind "@ + text::debug_text(words@)
                    + " (want \"commands\", \"launcher\", \"custom\", or \"agents\")"@,
            )
        }),
        checked_dispatched(
            facts,
            CheckedRequest::PalettePresent { title: words, placeholder: other, items },
            out,
        ) ==> (if items@.len() > 0 {
            out == Ok::<_, HandlerError>(
                Plan::Ui(
                    UiRequest::PalettePresent { title: words, placeholder: other, items },
                    Spelling::NotFound,
                ),
            )
        } else {
            refused(
                out,
                "invalid-param"@,
                "palette.present requires a non-empty items list"@,
            )
        }),
        checked_dispatched(
            facts,
            CheckedRequest::TabExpandSelectionAt {
                tab_id: id,
                col: at.0,
                row: at.1,
                click_count: clicks,
            },
            out,
        ) ==> (if clicks >= 2 {
            out == Ok::<_, HandlerError>(
                Plan::Ui(
                    UiRequest::TabExpandSelectionAt {
                        tab_id: id,
                        col: at.0,
                        row: at.1,
                        click_count: clicks,
                    },
                    Spelling::TestOp,
                ),
            )
        } else {
            refused(
                out,
                "invalid-param"@,
                "click_count must be >= 2 (got "@ + text::decimal(clicks as nat) + ")"@,
            )
        }),
        checked_dispatched(
            facts,
            CheckedRequest::WindowResize { width: words, height: other, positive: true },
            out,
        ) ==> out == Ok::<_, HandlerError>(
            Plan::Ui(UiRequest::WindowResize { width: words, height: other }, Spelling::TestOp),
        ),
        checked_dispatched(
            facts,
            CheckedRequest::WindowResize { width: words, height: other, positive: false },
            out,
        ) ==> refused(
            out,
            "invalid-param"@,
            "width and height must be positive and finite (got "@ + words@ + " x "@ + other@
                + ")"@,
        ),
        checked_dispatched(
            facts,
            CheckedRequest::SidebarSetWidth { width: words, positive: true },
            out,
        ) ==> out == Ok::<_, HandlerError>(
            Plan::Ui(UiRequest::SidebarSetWidth { width: words }, Spelling::TestOp),
        ),
        checked_dispatched(
            facts,
            CheckedRequest::SidebarSetWidth { width: words, positive: false },
            out,
        ) ==> refused(
            out,
            "invalid-param"@,
            "width must be positive and finite (got "@ + words@ + ")"@,
        ),
        checked_dispatched(facts, CheckedRequest::AppKeybindDispatch { action: words }, out) ==> (
        if words@ == "paste"@ {
            out == Ok::<_, HandlerError>(
                Plan::Ui(UiRequest::AppKeybindDispatch { action: words }, Spelling::TestOp),
            )
        } else {
            refused(
                out,
                "invalid-param"@,
                "action must be \"paste\" (got "@ + text::debug_text(words@) + ")"@,
            )
        }),
        checked_dispatched(facts, CheckedRequest::AppDialogAnswer { action: words }, out) ==> (
        if words@ == "confirm"@ || words@ == "cancel"@ || (text::begins(words@, "toggle:"@)
            && words@ != "toggle:"@) {
            out == Ok::<_, HandlerError>(
                Plan::Ui(UiRequest::AppDialogAnswer { action: words }, Spelling::TestOp),
            )
        } else {
            refused(
                out,
                "invalid-param"@,
                "action must be confirm, cancel or toggle:<agent> (got "@ + text::debug_text(
                    words@,
                ) + ")"@,
            )
        }),
{
    if text::begins(words@, "toggle:"@) && words@.len() == "toggle:"@.len() {
        assert(words@.take("toggle:"@.len() as int) =~= words@);
    }
}

/// What a clipboard request comes to: it names one of two clipboards, carries a text or an
/// image and not both, and an image goes to the system's only. A text is handed over without
/// waiting for an answer.
pub proof fn law_a_clipboard_takes_one_thing(
    facts: HandlerFacts,
    target: String,
    words: String,
    png: Vec<u8>,
    out: Result<Plan, HandlerError>,
)
    requires
        facts.has_ui,
    ensures
        target@ != "system"@ && target@ != "selection"@ && (checked_dispatched(
            facts,
            CheckedRequest::ClipboardDump { target },
            out,
        ) || checked_dispatched(
            facts,
            CheckedRequest::ClipboardWrite { target, text: Some(words), image_png: None },
            out,
        ) || checked_dispatched(
            facts,
            CheckedRequest::ClipboardWrite { target, text: None, image_png: Some(png) },
            out,
        )) ==> refused(
            out,
            "invalid-param"@,
            "clipboard target must be \"system\" or \"selection\" (got "@ + text::debug_text(
                target@,
            ) + ")"@,
        ),
        target@ == "system"@ && checked_dispatched(
            facts,
            CheckedRequest::ClipboardDump { target },
            out,
        ) ==> out == Ok::<_, HandlerError>(
            Plan::Ui(UiRequest::ClipboardDump { target: ClipboardOp::System }, Spelling::Internal),
        ),
        target@ == "selection"@ && checked_dispatched(
            facts,
            CheckedRequest::ClipboardDump { target },
            out,
        ) ==> out == Ok::<_, HandlerError>(
            Plan::Ui(
                UiRequest::ClipboardDump { target: ClipboardOp::Selection },
                Spelling::Internal,
            ),
        ),
        target@ == "system"@ && checked_dispatched(
            facts,
            CheckedRequest::ClipboardWrite { target, text: Some(words), image_png: None },
            out,
        ) ==> out == Ok::<_, HandlerError>(
            Plan::Notify(
                UiRequest::ClipboardWrite { target: ClipboardOp::System, text: words },
            ),
        ),
        target@ == "selection"@ && checked_dispatched(
            facts,
            CheckedRequest::ClipboardWrite { target, text: Some(words), image_png: None },
            out,
        ) ==> out == Ok::<_, HandlerError>(
            Plan::Notify(
                UiRequest::ClipboardWrite { target: ClipboardOp::Selection, text: words },
            ),
        ),
        target@ == "system"@ && checked_dispatched(
            facts,
            CheckedRequest::ClipboardWrite { target, text: None, image_png: Some(png) },
            out,
        ) ==> out == Ok::<_, HandlerError>(
            Plan::Ui(UiRequest::ClipboardWriteImage { png }, Spelling::AsIs),
        ),
        target@ == "selection"@ && checked_dispatched(
            facts,
            CheckedRequest::ClipboardWrite { target, text: None, image_png: Some(png) },
            out,
        ) ==> refused(
            out,
            "invalid-param"@,
            "clipboard.write `image_png` requires target \"system\""@,
        ),
        (target@ == "system"@ || target@ == "selection"@) && checked_dispatched(
            facts,
            CheckedRequest::ClipboardWrite { target, text: Some(words), image_png: Some(png) },
            out,
        ) ==> refused(
            out,
            "invalid-param"@,
            "clipboard.write takes `text` or `image_png`, not both"@,
        ),
        (target@ == "system"@ || target@ == "selection"@) && checked_dispatched(
            facts,
            CheckedRequest::ClipboardWrite { target, text: None, image_png: None },
            out,
        ) ==> refused(out, "missing-param"@, "clipboard.write requires `text`"@),
{
    reveal_strlit("system");
    reveal_strlit("selection");
    assert("system"@.len() == 6);
    assert("selection"@.len() == 9);
}

/// What an input method's request comes to: one of three actions, and a cursor that is whole
/// and does not run backwards; the app gets it as it came.
pub proof fn law_an_input_method_reaches_the_app(
    facts: HandlerFacts,
    id: i64,
    action: String,
    words: String,
    start: Option<u64>,
    end: Option<u64>,
    out: Result<Plan, HandlerError>,
)
    requires
        facts.has_ui,
        checked_dispatched(
            facts,
            CheckedRequest::TabFeedIme {
                tab_id: id,
                action,
                text: words,
                cursor_start: start,
                cursor_end: end,
            },
            out,
        ),
    ensures
        ({
            let known = action@ == "preedit"@ || action@ == "commit"@ || action@ == "clear"@;
            &&& !known ==> refused(
                out,
                "invalid-param"@,
                "action must be one of preedit/commit/clear (got "@ + text::debug_text(action@)
                    + ")"@,
            )
            &&& known && (start is Some) != (end is Some) ==> refused(
                out,
                "invalid-param"@,
                "cursor_start and cursor_end must be given together"@,
            )
            &&& known && start is None && end is None ==> out == Ok::<_, HandlerError>(
                Plan::Ui(
                    UiRequest::TabFeedIme { tab_id: id, action, text: words, cursor: None },
                    Spelling::TestOp,
                ),
            )
            &&& known ==> (start matches Some(from) ==> (end matches Some(to) ==> (if from <= to {
                out == Ok::<_, HandlerError>(
                    Plan::Ui(
                        UiRequest::TabFeedIme {
                            tab_id: id,
                            action,
                            text: words,
                            cursor: Some((from, to)),
                        },
                        Spelling::TestOp,
                    ),
                )
            } else {
                refused(
                    out,
                    "invalid-param"@,
                    "cursor_start must be <= cursor_end (got "@ + text::decimal(from as nat)
                        + ".."@ + text::decimal(to as nat) + ")"@,
                )
            })))
        }),
{
}

/// What a mouse request comes to: a kind and a button by their names, the kind looked at first;
/// the app gets the cell and the modifiers as they came.
pub proof fn law_a_mouse_event_reaches_the_app(
    facts: HandlerFacts,
    id: i64,
    kind: String,
    button: String,
    x: u32,
    y: u32,
    held: u32,
    out: Result<Plan, HandlerError>,
)
    requires
        facts.has_ui,
        checked_dispatched(
            facts,
            CheckedRequest::TabDispatchMouseEvent {
                tab_id: id,
                kind,
                button,
                cell_x: x,
                cell_y: y,
                mods: held,
            },
            out,
        ),
    ensures
        mouse_kind(kind@) is None ==> refused(
            out,
            "invalid-param"@,
            "kind must be one of press|release|motion (got "@ + kind@ + ")"@,
        ),
        mouse_kind(kind@) is Some && mouse_button(button@) is None ==> refused(
            out,
            "invalid-param"@,
            "button must be one of left|right|middle|wheel_up|wheel_down|none (got "@ + button@
                + ")"@,
        ),
        mouse_kind(kind@) is Some && mouse_button(button@) is Some ==> (out matches Ok(
            Plan::Ui(
                UiRequest::TabDispatchMouseEvent {
                    tab_id,
                    kind: action,
                    button: which,
                    cell_x,
                    cell_y,
                    mods,
                },
                Spelling::TestOp,
            ),
        ) && tab_id == id && Some(action) == mouse_kind(kind@) && Some(which) == mouse_button(
            button@,
        ) && cell_x == x && cell_y == y && mods == held),
{
}

/// The mouse's words: three kinds and six buttons, the wheel among them, and none for motion
/// without one.
pub proof fn law_the_mouse_goes_by_its_words(word: Seq<char>)
    ensures
        mouse_kind("press"@) == Some(PointerAction::Press),
        mouse_kind("release"@) == Some(PointerAction::Release),
        mouse_kind("motion"@) == Some(PointerAction::Motion),
        mouse_kind(word) is Some ==> word == "press"@ || word == "release"@ || word == "motion"@,
        mouse_button("left"@) == Some(Some(PointerButton::Left)),
        mouse_button("right"@) == Some(Some(PointerButton::Right)),
        mouse_button("middle"@) == Some(Some(PointerButton::Middle)),
        mouse_button("wheel_up"@) == Some(Some(PointerButton::Four)),
        mouse_button("wheel_down"@) == Some(Some(PointerButton::Five)),
        mouse_button("none"@) == Some(None::<PointerButton>),
        mouse_button(word) is Some ==> word == "left"@ || word == "right"@ || word == "middle"@
            || word == "wheel_up"@ || word == "wheel_down"@ || word == "none"@,
{
    reveal_strlit("press");
    reveal_strlit("release");
    reveal_strlit("motion");
    reveal_strlit("left");
    reveal_strlit("right");
    reveal_strlit("middle");
    reveal_strlit("wheel_up");
    reveal_strlit("wheel_down");
    reveal_strlit("none");
    assert("press"@.len() == 5);
    assert("release"@.len() == 7);
    assert("motion"@.len() == 6);
    assert("left"@.len() == 4 && "left"@[0] == 'l');
    assert("right"@.len() == 5);
    assert("middle"@.len() == 6);
    assert("wheel_up"@.len() == 8);
    assert("wheel_down"@.len() == 10);
    assert("none"@.len() == 4 && "none"@[0] == 'n');
}

/// How the app's failures are spelled: in its words under the code of the request, a host's
/// under its own code, a workspace's under the code of its kind, and a dump's by whether there
/// was a tab.
pub proof fn law_a_failure_keeps_its_words(
    spelling: Spelling,
    why: String,
    host: HostOpFailure,
    e: WorkspaceError,
    out: HandlerError,
)
    ensures
        spelled(Spelling::Internal, Failure::Words(why), out) ==> out.code@ == "internal"@
            && out.message@ == why@,
        spelled(Spelling::NotFound, Failure::Words(why), out) ==> out.code@ == "not-found"@
            && out.message@ == why@,
        spelled(Spelling::TestOp, Failure::Words(why), out) ==> out.code@ == errors::test_op_code(
            why@,
        ) && out.message@ == why@,
        spelled(spelling, Failure::Host(host), out) ==> out.code@ == host.code@ && out.message@
            == host.message@,
        spelled(spelling, Failure::Workspace(e), out) ==> out.code@ == errors::workspace_code(
            e.kind,
        ) && out.message@ == e.message@,
        spelled(spelling, Failure::Dump(DumpError::NoTab(why)), out) ==> out.code@ == "not-found"@
            && out.message@ == why@,
        spelled(spelling, Failure::Dump(DumpError::Read(why)), out) ==> out.code@ == "internal"@
            && out.message@ == why@,
{
}

/// What an image takes on the wire: four characters for every three bytes, and four for what is
/// left over.
pub proof fn law_an_image_travels_by_thirds(thirds: nat)
    ensures
        encoded_len(3 * thirds) == 4 * thirds,
        encoded_len(3 * thirds + 1) == 4 * thirds + 4,
        encoded_len(3 * thirds + 2) == 4 * thirds + 4,
{
}

/// A cell goes out as it is: where it stands, what it shows, in which two colors and how.
pub proof fn law_a_cell_goes_out_as_it_is(out: ResolvedCell, cell: ResolvedCellData)
    requires
        cell_of(out, cell),
    ensures
        (out.row, out.col) == (cell.row, cell.col),
        out.text == cell.text,
        theme::color_in(out.fg@) == Some(cell.fg),
        theme::color_in(out.bg@) == Some(cell.bg),
        out.has_explicit_bg == cell.has_explicit_bg,
        out.bold == cell.bold && out.italic == cell.italic && out.inverse == cell.inverse,
{
    theme::law_a_color_reads_back(cell.fg);
    theme::law_a_color_reads_back(cell.bg);
}

/// Where a request is answered: only where a session stands in for the local engine is one
/// forwarded or rewritten, each as its class says.
pub proof fn law_only_a_session_is_asked_in_place(class: OpClass)
    ensures
        answers_at(LocalBackendMode::InProcess, class) == Answering::Here,
        answers_at(LocalBackendMode::Session, OpClass::Forward) == Answering::Forwarded,
        answers_at(LocalBackendMode::Session, OpClass::Rewrite) == Answering::Rewritten,
        answers_at(LocalBackendMode::Session, OpClass::Local) == Answering::Here,
        answers_at(LocalBackendMode::Session, OpClass::Unsupported) == Answering::Here,
{
}

/// What a rewrite does to references: a bare one gets the slot's host and keeps its number, one
/// that names a host stays, and a list is rewritten one by one.
pub proof fn law_a_bare_reference_gets_the_slots_host(
    id: i64,
    host: u32,
    slot: Option<u32>,
    tabs: Seq<WireTabRef>,
    projects: Seq<WireProjectRef>,
    i: int,
)
    ensures
        slot_tab(WireTabRef::Local(id), Some(host)) == (WireTabRef::Host { host, tab: id }),
        slot_tab(WireTabRef::Host { host, tab: id }, slot) == (WireTabRef::Host { host, tab: id }),
        slot_tab(WireTabRef::Local(id), None) == WireTabRef::Local(id),
        slot_project(WireProjectRef::Local(id), Some(host)) == (WireProjectRef::Host {
            host,
            project: id,
        }),
        slot_project(WireProjectRef::Host { host, project: id }, slot) == (WireProjectRef::Host {
            host,
            project: id,
        }),
        slot_project(WireProjectRef::Local(id), None) == WireProjectRef::Local(id),
        slot_tabs(tabs, slot).len() == tabs.len(),
        0 <= i < tabs.len() ==> slot_tabs(tabs, slot)[i] == slot_tab(tabs[i], slot),
        slot_projects(projects, slot).len() == projects.len(),
        0 <= i < projects.len() ==> slot_projects(projects, slot)[i] == slot_project(
            projects[i],
            slot,
        ),
{
}

/// What a rewrite leaves of a request: everything but its references.
pub proof fn law_a_rewrite_touches_only_references(
    slot: Option<u32>,
    tab: WireTabRef,
    back: u32,
    flag: bool,
    words: String,
    paths: Vec<String>,
    p: TabReorderParams,
    projects: Vec<WireProjectRef>,
    request: Request,
    out: Request,
)
    ensures
        on_slot(Request::Tab(TabRequest::TabDump { tab, scrollback: back }), slot, out) ==> out
            == Request::Tab(TabRequest::TabDump { tab: slot_tab(tab, slot), scrollback: back }),
        on_slot(Request::Tab(TabRequest::TabFocus { tab }), slot, out) ==> out == Request::Tab(
            TabRequest::TabFocus { tab: slot_tab(tab, slot) },
        ),
        on_slot(Request::Tab(TabRequest::TabCapturePtyInput { tab, drain: flag }), slot, out)
            ==> out == Request::Tab(
            TabRequest::TabCapturePtyInput { tab: slot_tab(tab, slot), drain: flag },
        ),
        on_slot(Request::Tab(TabRequest::TabDumpResolved { tab }), slot, out) ==> out
            == Request::Tab(TabRequest::TabDumpResolved { tab: slot_tab(tab, slot) }),
        on_slot(
            Request::Tab(TabRequest::TabSendFile { tab: words, parsed: Some(tab), paths }),
            slot,
            out,
        ) ==> out == Request::Tab(
            TabRequest::TabSendFile { tab: words, parsed: Some(slot_tab(tab, slot)), paths },
        ),
        on_slot(Request::Tab(TabRequest::TabReorder(p)), slot, out) ==> (out matches Request::Tab(
            TabRequest::TabReorder(q),
        ) && q.project_id == slot_project(p.project_id, slot) && q.tab_ids@ == slot_tabs(
            p.tab_ids@,
            slot,
        )),
        on_slot(
            Request::Workspace(WorkspaceRequest::ProjectReorder { project_ids: projects }),
            slot,
            out,
        ) ==> (out matches Request::Workspace(WorkspaceRequest::ProjectReorder { project_ids })
            && project_ids@ == slot_projects(projects@, slot)),
        !(request is Tab) && !(request is Workspace) && on_slot(request, slot, out) ==> out
            == request,
        request matches Request::Tab(t) ==> (!(t is TabDump) && !(t is TabFocus) && !(
        t is TabCapturePtyInput) && !(t is TabDumpResolved) && !(t is TabSendFile) && !(
        t is TabReorder) && on_slot(request, slot, out) ==> out == request),
        request matches Request::Workspace(w) ==> (!(w is ProjectReorder) && on_slot(
            request,
            slot,
            out,
        ) ==> out == request),
{
}

/// Which requests need the slot: those that name a tab or a project without its host.
pub proof fn law_a_bare_reference_needs_the_slot(
    id: i64,
    host: u32,
    tabs: Seq<WireTabRef>,
    i: int,
    request: Request,
)
    ensures
        0 <= i < tabs.len() && tabs[i] is Local ==> any_bare_tab(tabs),
        any_bare_tab(tabs) ==> exists|k: int| 0 <= k < tabs.len() && (#[trigger] tabs[k]) is Local,
        request matches Request::Tab(TabRequest::TabDump { tab, .. }) ==> (names_bare(request)
            <==> tab is Local),
        request matches Request::Tab(TabRequest::TabFocus { tab }) ==> (names_bare(request)
            <==> tab is Local),
        request matches Request::Tab(TabRequest::TabCapturePtyInput { tab, .. }) ==> (names_bare(
            request,
        ) <==> tab is Local),
        request matches Request::Tab(TabRequest::TabDumpResolved { tab }) ==> (names_bare(request)
            <==> tab is Local),
        request matches Request::Tab(TabRequest::TabSendFile { parsed, .. }) ==> (names_bare(request)
            <==> parsed is Some && parsed->0 is Local),
        request matches Request::Tab(TabRequest::TabReorder(p)) ==> (names_bare(request)
            <==> p.project_id is Local || any_bare_tab(p.tab_ids@)),
        request matches Request::Workspace(WorkspaceRequest::ProjectReorder { project_ids }) ==> (
        names_bare(request) <==> any_bare_project(project_ids@)),
        !(request is Tab) && !(request is Workspace) ==> !names_bare(request),
{
}

/// What becomes of a request, wherever it is answered: one that is forwarded goes out in its own
/// words; of any other, one that cannot be read is refused with the reason; and one that needs a
/// slot which is not there is refused before that.
pub proof fn law_a_request_goes_one_way(
    facts: HandlerFacts,
    route: LocalRoute,
    class: OpClass,
    raw: RawRequest,
    unavailable: HandlerError,
    out: Result<Plan, HandlerError>,
)
    requires
        routed(facts, route, class, raw, unavailable, out),
    ensures
        route.mode is Session && class is Forward && facts.has_ui ==> (out matches Ok(
            Plan::Ui(UiRequest::LocalSessionForward { op, params }, Spelling::AsIs),
        ) && op == raw.op && params == raw.params),
        route.mode is Session && class is Rewrite && route.slot_host is None && (raw.bare || (
        raw.decoded matches Ok(request) && names_bare(request))) ==> out == Err::<Plan, _>(
            unavailable,
        ),
        raw.decoded matches Err(why) ==> (route.mode is InProcess || class is Local || (class
            is Rewrite && (route.slot_host is Some || !raw.bare)) ==> out == Err::<Plan, _>(why)),
        raw.decoded matches Ok(request) ==> (route.mode is InProcess || class is Local
            ==> dispatched(facts, request, out)),
{
}

/// Which way a request goes within a session: its own operations each their way, a client's own
/// nowhere, a read at once, and a change only behind the barrier and not while it stops. A UI's
/// socket answers all but a session's own at once.
pub proof fn law_an_operation_takes_its_way(op: Op, stopping: bool, out: Outcome)
    ensures
        outcome(true, stopping, Op::SessionIdentify, out) ==> out == Outcome::Identify,
        outcome(true, stopping, Op::SessionStop, out) ==> out == Outcome::Stop,
        outcome(true, stopping, Op::EventsSubscribe, out) ==> out == Outcome::Subscribe,
        outcome(true, stopping, op, out) && (op is HostAdd || op is HostRemove || op is HostList
            || op is HostConnect || op is HostDisconnect || op is HostStatus || op is AgentSetHooks)
            ==> (out matches Outcome::Refuse(e) && e.code@ == "unknown-op"@ && e.message@
            == "unknown op: "@ + op.wire()),
        outcome(true, stopping, op, out) && op.mutates() && !clients_own(op) ==> (if stopping {
            out matches Outcome::Refuse(e) && e.code@ == "shutting-down"@ && e.message@
                == "session is shutting down"@
        } else {
            out == Outcome::AwaitBarrier
        }),
        outcome(true, stopping, op, out) && !op.mutates() && !clients_own(op) && !(
        op is SessionIdentify) && !(op is SessionStop) && !(op is EventsSubscribe) ==> out
            == Outcome::Dispatch,
        outcome(false, stopping, op, out) && (op is SessionIdentify || op is SessionStop
            || op is SessionSetTheme || op is SessionSetAgentHooks || op is SessionPutFile) ==> (
        out matches Outcome::Refuse(e) && e.code@ == "unknown-op"@ && e.message@ == "unknown op: "@
            + op.wire()),
        outcome(false, stopping, op, out) && !(op is SessionIdentify) && !(op is SessionStop) && !(
        op is SessionSetTheme) && !(op is SessionSetAgentHooks) && !(op is SessionPutFile) ==> out
            == Outcome::Dispatch,
        clients_own(op) <==> op is HostAdd || op is HostRemove || op is HostList
            || op is HostConnect || op is HostDisconnect || op is HostStatus || op is AgentSetHooks,
{
    let list = ops::reasons(op);
    if list.len() > 0 {
        assert(list.contains(list[0]));
    }
}

/// What happens behind the barrier: nothing while the session stops; else each of the session's
/// own changes its way, and any other as it is dispatched.
pub proof fn law_behind_the_barrier_each_takes_its_way(op: Op, stopping: bool, out: Outcome)
    requires
        past_barrier(stopping, op, out),
    ensures
        stopping ==> (out matches Outcome::Refuse(e) && e.code@ == "shutting-down"@ && e.message@
            == "session is shutting down"@),
        !stopping && op is SessionSetTheme ==> out == Outcome::SetTheme,
        !stopping && op is SessionSetAgentHooks ==> out == Outcome::SetAgentHooks,
        !stopping && op is SessionPutFile ==> out == Outcome::PutFile,
        !stopping && !(op is SessionSetTheme) && !(op is SessionSetAgentHooks) && !(
        op is SessionPutFile) ==> out == Outcome::Dispatch,
{
}

/// What the few requests outside the groups come to.
pub proof fn law_the_rest_is_answered_at_once(facts: HandlerFacts, out: Result<Plan, HandlerError>)
    ensures
        dispatched(facts, Request::Identify, out) ==> out == Ok::<_, HandlerError>(Plan::Identify),
        dispatched(facts, Request::AppActivate, out) ==> out == Ok::<_, HandlerError>(
            Plan::Notify(UiRequest::Activate),
        ),
        dispatched(facts, Request::EventsSubscribe, out) ==> refused(
            out,
            "not-implemented"@,
            "events.subscribe is not yet implemented"@,
        ),
        forall|r: TabRequest| #[trigger]
            dispatched(facts, Request::Tab(r), out) ==> tab_dispatched(facts, r, out),
        forall|r: WorkspaceRequest| #[trigger]
            dispatched(facts, Request::Workspace(r), out) ==> workspace_dispatched(facts, r, out),
        forall|r: CheckedRequest| #[trigger]
            dispatched(facts, Request::Checked(r), out) ==> checked_dispatched(facts, r, out),
        forall|r: AppRequest| #[trigger]
            dispatched(facts, Request::App(r), out) ==> app_dispatched(facts, r, out),
        forall|r: DeskRequest| #[trigger]
            dispatched(facts, Request::Desk(r), out) ==> desk_dispatched(facts, r, out),
{
}

} // verus!
