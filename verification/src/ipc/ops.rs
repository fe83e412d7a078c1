//! The operations a socket knows, what they are called, and which of them it serves.
use crate::text;
use vstd::prelude::*;

verus! {

/// An operation that a socket can be asked for.
#[derive(Clone, Copy, Debug, PartialEq, Eq, Structural)]
pub enum Op {
    Identify,
    TabOpen,
    TabClose,
    TabList,
    TabWrite,
    TabResize,
    TabDump,
    ProjectCreate,
    ProjectEnsure,
    ProjectRename,
    ProjectDelete,
    TabReorder,
    ProjectReorder,
    TabFocus,
    TabSendFile,
    TabSetTitle,
    TabSetState,
    TabClearNotification,
    TabSetHookActive,
    TabAgentReport,
    NotificationCreate,
    AppActivate,
    Screenshot,
    WindowMetrics,
    AppRenderStats,
    SidebarDump,
    PaletteOpen,
    PaletteState,
    PaletteQuery,
    PaletteActivate,
    PaletteDismiss,
    PalettePresent,
    SelectionSet,
    SelectionClear,
    SelectionDump,
    ClipboardDump,
    ClipboardWrite,
    TabFeedPtyBytes,
    TabCapturePtyInput,
    TabExpandSelectionAt,
    TabFeedIme,
    WindowResize,
    SidebarSetWidth,
    TabDumpResolved,
    TabDispatchMouseEvent,
    AppSetWindowFocus,
    AppCursorShape,
    AppActiveTerminalFocused,
    AppSelectedTabId,
    AppDockBadge,
    AppMenuDump,
    AppMenuActivate,
    AppDialogDump,
    AppDialogAnswer,
    AppKeybindDispatch,
    AppUpdateStatus,
    AppUpdateCheck,
    AppNotificationStatus,
    EventsSubscribe,
    AgentSetHooks,
    HostAdd,
    HostRemove,
    HostConnect,
    HostDisconnect,
    HostList,
    HostStatus,
    SessionIdentify,
    SessionStop,
    SessionSetTheme,
    SessionSetAgentHooks,
    SessionPutFile,
}

/// Every operation, in the order a socket lists them.
pub open spec fn all_ops() -> Seq<Op> {
    seq![
        Op::Identify,
        Op::TabOpen,
        Op::TabClose,
        Op::TabList,
        Op::TabWrite,
        Op::TabResize,
        Op::TabDump,
        Op::ProjectCreate,
        Op::ProjectEnsure,
        Op::ProjectRename,
        Op::ProjectDelete,
        Op::TabReorder,
        Op::ProjectReorder,
        Op::TabFocus,
        Op::TabSendFile,
        Op::TabSetTitle,
        Op::TabSetState,
        Op::TabClearNotification,
        Op::TabSetHookActive,
        Op::TabAgentReport,
        Op::NotificationCreate,
        Op::AppActivate,
        Op::Screenshot,
        Op::WindowMetrics,
        Op::AppRenderStats,
        Op::SidebarDump,
        Op::PaletteOpen,
        Op::PaletteState,
        Op::PaletteQuery,
        Op::PaletteActivate,
        Op::PaletteDismiss,
        Op::PalettePresent,
        Op::SelectionSet,
        Op::SelectionClear,
        Op::SelectionDump,
        Op::ClipboardDump,
        Op::ClipboardWrite,
        Op::TabFeedPtyBytes,
        Op::TabCapturePtyInput,
        Op::TabExpandSelectionAt,
        Op::TabFeedIme,
        Op::WindowResize,
        Op::SidebarSetWidth,
        Op::TabDumpResolved,
        Op::TabDispatchMouseEvent,
        Op::AppSetWindowFocus,
        Op::AppCursorShape,
        Op::AppActiveTerminalFocused,
        Op::AppSelectedTabId,
        Op::AppDockBadge,
        Op::AppMenuDump,
        Op::AppMenuActivate,
        Op::AppDialogDump,
        Op::AppDialogAnswer,
        Op::AppKeybindDispatch,
        Op::AppUpdateStatus,
        Op::AppUpdateCheck,
        Op::AppNotificationStatus,
        Op::EventsSubscribe,
        Op::AgentSetHooks,
        Op::HostAdd,
        Op::HostRemove,
        Op::HostConnect,
        Op::HostDisconnect,
        Op::HostList,
        Op::HostStatus,
        Op::SessionIdentify,
        Op::SessionStop,
        Op::SessionSetTheme,
        Op::SessionSetAgentHooks,
        Op::SessionPutFile,
    ]
}

/// Every operation, in the order a socket lists them.
pub fn every_op() -> (ops: Vec<Op>)
    ensures
        ops@ == all_ops(),
{
    let ops = vec![
        Op::Identify,
        Op::TabOpen,
        Op::TabClose,
        Op::TabList,
        Op::TabWrite,
        Op::TabResize,
        Op::TabDump,
        Op::ProjectCreate,
        Op::ProjectEnsure,
        Op::ProjectRename,
        Op::ProjectDelete,
        Op::TabReorder,
        Op::ProjectReorder,
        Op::TabFocus,
        Op::TabSendFile,
        Op::TabSetTitle,
        Op::TabSetState,
        Op::TabClearNotification,
        Op::TabSetHookActive,
        Op::TabAgentReport,
        Op::NotificationCreate,
        Op::AppActivate,
        Op::Screenshot,
        Op::WindowMetrics,
        Op::AppRenderStats,
        Op::SidebarDump,
        Op::PaletteOpen,
        Op::PaletteState,
        Op::PaletteQuery,
        Op::PaletteActivate,
        Op::PaletteDismiss,
        Op::PalettePresent,
        Op::SelectionSet,
        Op::SelectionClear,
        Op::SelectionDump,
        Op::ClipboardDump,
        Op::ClipboardWrite,
        Op::TabFeedPtyBytes,
        Op::TabCapturePtyInput,
        Op::TabExpandSelectionAt,
        Op::TabFeedIme,
        Op::WindowResize,
        Op::SidebarSetWidth,
        Op::TabDumpResolved,
        Op::TabDispatchMouseEvent,
        Op::AppSetWindowFocus,
        Op::AppCursorShape,
        Op::AppActiveTerminalFocused,
        Op::AppSelectedTabId,
        Op::AppDockBadge,
        Op::AppMenuDump,
        Op::AppMenuActivate,
        Op::AppDialogDump,
        Op::AppDialogAnswer,
        Op::AppKeybindDispatch,
        Op::AppUpdateStatus,
        Op::AppUpdateCheck,
        Op::AppNotificationStatus,
        Op::EventsSubscribe,
        Op::AgentSetHooks,
        Op::HostAdd,
        Op::HostRemove,
        Op::HostConnect,
        Op::HostDisconnect,
        Op::HostList,
        Op::HostStatus,
        Op::SessionIdentify,
        Op::SessionStop,
        Op::SessionSetTheme,
        Op::SessionSetAgentHooks,
        Op::SessionPutFile,
    ];
    assert(ops@ =~= all_ops());
    ops
}

impl Op {
    /// The operation's name on the wire.
    pub open spec fn wire(self) -> Seq<char> {
        match self {
            Op::Identify => "identify"@,
            Op::TabOpen => "tab.open"@,
            Op::TabClose => "tab.close"@,
            Op::TabList => "tab.list"@,
            Op::TabWrite => "tab.write"@,
            Op::TabResize => "tab.resize"@,
            Op::TabDump => "tab.dump"@,
            Op::ProjectCreate => "project.create"@,
            Op::ProjectEnsure => "project.ensure"@,
            Op::ProjectRename => "project.rename"@,
            Op::ProjectDelete => "project.delete"@,
            Op::TabReorder => "tab.reorder"@,
            Op::ProjectReorder => "project.reorder"@,
            Op::TabFocus => "tab.focus"@,
            Op::TabSendFile => "tab.send_file"@,
            Op::TabSetTitle => "tab.set_title"@,
            Op::TabSetState => "tab.set_state"@,
            Op::TabClearNotification => "tab.clear_notification"@,
            Op::TabSetHookActive => "tab.set_hook_active"@,
            Op::TabAgentReport => "tab.agent_report"@,
            Op::NotificationCreate => "notification.create"@,
            Op::AppActivate => "app.activate"@,
            Op::Screenshot => "app.screenshot"@,
            Op::WindowMetrics => "app.window_metrics"@,
            Op::AppRenderStats => "app.render_stats"@,
            Op::SidebarDump => "app.sidebar_dump"@,
            Op::PaletteOpen => "palette.open"@,
            Op::PaletteState => "palette.state"@,
            Op::PaletteQuery => "palette.query"@,
            Op::PaletteActivate => "palette.activate"@,
            Op::PaletteDismiss => "palette.dismiss"@,
            Op::PalettePresent => "palette.present"@,
            Op::SelectionSet => "selection.set"@,
            Op::SelectionClear => "selection.clear"@,
            Op::SelectionDump => "selection.dump"@,
            Op::ClipboardDump => "clipboard.dump"@,
            Op::ClipboardWrite => "clipboard.write"@,
            Op::TabFeedPtyBytes => "tab.feed_pty_bytes"@,
            Op::TabCapturePtyInput => "tab.capture_pty_input"@,
            Op::TabExpandSelectionAt => "tab.expand_selection_at"@,
            Op::TabFeedIme => "tab.feed_ime"@,
            Op::WindowResize => "window.resize"@,
            Op::SidebarSetWidth => "sidebar.set_width"@,
            Op::TabDumpResolved => "tab.dump_resolved"@,
            Op::TabDispatchMouseEvent => "tab.dispatch_mouse_event"@,
            Op::AppSetWindowFocus => "app.set_window_focus"@,
            Op::AppCursorShape => "app.cursor_shape"@,
            Op::AppActiveTerminalFocused => "app.active_terminal_focused"@,
            Op::AppSelectedTabId => "app.selected_tab_id"@,
            Op::AppDockBadge => "app.dock_badge"@,
            Op::AppMenuDump => "app.menu_dump"@,
            Op::AppMenuActivate => "app.menu_activate"@,
            Op::AppDialogDump => "app.dialog_dump"@,
            Op::AppDialogAnswer => "app.dialog_answer"@,
            Op::AppKeybindDispatch => "app.keybind_dispatch"@,
            Op::AppUpdateStatus => "app.update_status"@,
            Op::AppUpdateCheck => "app.update_check"@,
            Op::AppNotificationStatus => "app.notification_status"@,
            Op::EventsSubscribe => "events.subscribe"@,
            Op::AgentSetHooks => "agent.set_hooks"@,
            Op::HostAdd => "host.add"@,
            Op::HostRemove => "host.remove"@,
            Op::HostConnect => "host.connect"@,
            Op::HostDisconnect => "host.disconnect"@,
            Op::HostList => "host.list"@,
            Op::HostStatus => "host.status"@,
            Op::SessionIdentify => "session.identify"@,
            Op::SessionStop => "session.stop"@,
            Op::SessionSetTheme => "session.set_theme"@,
            Op::SessionSetAgentHooks => "session.set_agent_hooks"@,
            Op::SessionPutFile => "session.put_file"@,
        }
    }

    /// The operation's name on the wire.
    pub fn name(self) -> (out: &'static str)
        ensures
            out@ == self.wire(),
    {
        match self {
            Op::Identify => "identify",
            Op::TabOpen => "tab.open",
            Op::TabClose => "tab.close",
            Op::TabList => "tab.list",
            Op::TabWrite => "tab.write",
            Op::TabResize => "tab.resize",
            Op::TabDump => "tab.dump",
            Op::ProjectCreate => "project.create",
            Op::ProjectEnsure => "project.ensure",
            Op::ProjectRename => "project.rename",
            Op::ProjectDelete => "project.delete",
            Op::TabReorder => "tab.reorder",
            Op::ProjectReorder => "project.reorder",
            Op::TabFocus => "tab.focus",
            Op::TabSendFile => "tab.send_file",
            Op::TabSetTitle => "tab.set_title",
            Op::TabSetState => "tab.set_state",
            Op::TabClearNotification => "tab.clear_notification",
            Op::TabSetHookActive => "tab.set_hook_active",
            Op::TabAgentReport => "tab.agent_report",
            Op::NotificationCreate => "notification.create",
            Op::AppActivate => "app.activate",
            Op::Screenshot => "app.screenshot",
            Op::WindowMetrics => "app.window_metrics",
            Op::AppRenderStats => "app.render_stats",
            Op::SidebarDump => "app.sidebar_dump",
            Op::PaletteOpen => "palette.open",
            Op::PaletteState => "palette.state",
            Op::PaletteQuery => "palette.query",
            Op::PaletteActivate => "palette.activate",
            Op::PaletteDismiss => "palette.dismiss",
            Op::PalettePresent => "palette.present",
            Op::SelectionSet => "selection.set",
            Op::SelectionClear => "selection.clear",
            Op::SelectionDump => "selection.dump",
            Op::ClipboardDump => "clipboard.dump",
            Op::ClipboardWrite => "clipboard.write",
            Op::TabFeedPtyBytes => "tab.feed_pty_bytes",
            Op::TabCapturePtyInput => "tab.capture_pty_input",
            Op::TabExpandSelectionAt => "tab.expand_selection_at",
            Op::TabFeedIme => "tab.feed_ime",
            Op::WindowResize => "window.resize",
            Op::SidebarSetWidth => "sidebar.set_width",
            Op::TabDumpResolved => "tab.dump_resolved",
            Op::TabDispatchMouseEvent => "tab.dispatch_mouse_event",
            Op::AppSetWindowFocus => "app.set_window_focus",
            Op::AppCursorShape => "app.cursor_shape",
            Op::AppActiveTerminalFocused => "app.active_terminal_focused",
            Op::AppSelectedTabId => "app.selected_tab_id",
            Op::AppDockBadge => "app.dock_badge",
            Op::AppMenuDump => "app.menu_dump",
            Op::AppMenuActivate => "app.menu_activate",
            Op::AppDialogDump => "app.dialog_dump",
            Op::AppDialogAnswer => "app.dialog_answer",
            Op::AppKeybindDispatch => "app.keybind_dispatch",
            Op::AppUpdateStatus => "app.update_status",
            Op::AppUpdateCheck => "app.update_check",
            Op::AppNotificationStatus => "app.notification_status",
            Op::EventsSubscribe => "events.subscribe",
            Op::AgentSetHooks => "agent.set_hooks",
            Op::HostAdd => "host.add",
            Op::HostRemove => "host.remove",
            Op::HostConnect => "host.connect",
            Op::HostDisconnect => "host.disconnect",
            Op::HostList => "host.list",
            Op::HostStatus => "host.status",
            Op::SessionIdentify => "session.identify",
            Op::SessionStop => "session.stop",
            Op::SessionSetTheme => "session.set_theme",
            Op::SessionSetAgentHooks => "session.set_agent_hooks",
            Op::SessionPutFile => "session.put_file",
        }
    }

    /// The operation that goes by a name, if one does.
    pub fn parse(name: &str) -> (out: Option<Op>)
        ensures
            out matches Some(op) ==> op.wire() == name@,
            out is None ==> forall|op: Op| (#[trigger] op.wire()) != name@,
    {
        if text::same_text(name, "identify") {
            return Some(Op::Identify);
        }
        if text::same_text(name, "tab.open") {
            return Some(Op::TabOpen);
        }
        if text::same_text(name, "tab.close") {
            return Some(Op::TabClose);
        }
        if text::same_text(name, "tab.list") {
            return Some(Op::TabList);
        }
        if text::same_text(name, "tab.write") {
            return Some(Op::TabWrite);
        }
        if text::same_text(name, "tab.resize") {
            return Some(Op::TabResize);
        }
        if text::same_text(name, "tab.dump") {
            return Some(Op::TabDump);
        }
        if text::same_text(name, "project.create") {
            return Some(Op::ProjectCreate);
        }
        if text::same_text(name, "project.ensure") {
            return Some(Op::ProjectEnsure);
        }
        if text::same_text(name, "project.rename") {
            return Some(Op::ProjectRename);
        }
        if text::same_text(name, "project.delete") {
            return Some(Op::ProjectDelete);
        }
        if text::same_text(name, "tab.reorder") {
            return Some(Op::TabReorder);
        }
        if text::same_text(name, "project.reorder") {
            return Some(Op::ProjectReorder);
        }
        if text::same_text(name, "tab.focus") {
            return Some(Op::TabFocus);
        }
        if text::same_text(name, "tab.send_file") {
            return Some(Op::TabSendFile);
        }
        if text::same_text(name, "tab.set_title") {
            return Some(Op::TabSetTitle);
        }
        if text::same_text(name, "tab.set_state") {
            return Some(Op::TabSetState);
        }
        if text::same_text(name, "tab.clear_notification") {
            return Some(Op::TabClearNotification);
        }
        if text::same_text(name, "tab.set_hook_active") {
            return Some(Op::TabSetHookActive);
        }
        if text::same_text(name, "tab.agent_report") {
            return Some(Op::TabAgentReport);
        }
        if text::same_text(name, "notification.create") {
            return Some(Op::NotificationCreate);
        }
        if text::same_text(name, "app.activate") {
            return Some(Op::AppActivate);
        }
        if text::same_text(name, "app.screenshot") {
            return Some(Op::Screenshot);
        }
        if text::same_text(name, "app.window_metrics") {
            return Some(Op::WindowMetrics);
        }
        if text::same_text(name, "app.render_stats") {
            return Some(Op::AppRenderStats);
        }
        if text::same_text(name, "app.sidebar_dump") {
            return Some(Op::SidebarDump);
        }
        if text::same_text(name, "palette.open") {
            return Some(Op::PaletteOpen);
        }
        if text::same_text(name, "palette.state") {
            return Some(Op::PaletteState);
        }
        if text::same_text(name, "palette.query") {
            return Some(Op::PaletteQuery);
        }
        if text::same_text(name, "palette.activate") {
            return Some(Op::PaletteActivate);
        }
        if text::same_text(name, "palette.dismiss") {
            return Some(Op::PaletteDismiss);
        }
        if text::same_text(name, "palette.present") {
            return Some(Op::PalettePresent);
        }
        if text::same_text(name, "selection.set") {
            return Some(Op::SelectionSet);
        }
        if text::same_text(name, "selection.clear") {
            return Some(Op::SelectionClear);
        }
        if text::same_text(name, "selection.dump") {
            return Some(Op::SelectionDump);
        }
        if text::same_text(name, "clipboard.dump") {
            return Some(Op::ClipboardDump);
        }
        if text::same_text(name, "clipboard.write") {
            return Some(Op::ClipboardWrite);
        }
        if text::same_text(name, "tab.feed_pty_bytes") {
            return Some(Op::TabFeedPtyBytes);
        }
        if text::same_text(name, "tab.capture_pty_input") {
            return Some(Op::TabCapturePtyInput);
        }
        if text::same_text(name, "tab.expand_selection_at") {
            return Some(Op::TabExpandSelectionAt);
        }
        if text::same_text(name, "tab.feed_ime") {
            return Some(Op::TabFeedIme);
        }
        if text::same_text(name, "window.resize") {
            return Some(Op::WindowResize);
        }
        if text::same_text(name, "sidebar.set_width") {
            return Some(Op::SidebarSetWidth);
        }
        if text::same_text(name, "tab.dump_resolved") {
            return Some(Op::TabDumpResolved);
        }
        if text::same_text(name, "tab.dispatch_mouse_event") {
            return Some(Op::TabDispatchMouseEvent);
        }
        if text::same_text(name, "app.set_window_focus") {
            return Some(Op::AppSetWindowFocus);
        }
        if text::same_text(name, "app.cursor_shape") {
            return Some(Op::AppCursorShape);
        }
        if text::same_text(name, "app.active_terminal_focused") {
            return Some(Op::AppActiveTerminalFocused);
        }
        if text::same_text(name, "app.selected_tab_id") {
            return Some(Op::AppSelectedTabId);
        }
        if text::same_text(name, "app.dock_badge") {
            return Some(Op::AppDockBadge);
        }
        if text::same_text(name, "app.menu_dump") {
            return Some(Op::AppMenuDump);
        }
        if text::same_text(name, "app.menu_activate") {
            return Some(Op::AppMenuActivate);
        }
        if text::same_text(name, "app.dialog_dump") {
            return Some(Op::AppDialogDump);
        }
        if text::same_text(name, "app.dialog_answer") {
            return Some(Op::AppDialogAnswer);
        }
        if text::same_text(name, "app.keybind_dispatch") {
            return Some(Op::AppKeybindDispatch);
        }
        if text::same_text(name, "app.update_status") {
            return Some(Op::AppUpdateStatus);
        }
        if text::same_text(name, "app.update_check") {
            return Some(Op::AppUpdateCheck);
        }
        if text::same_text(name, "app.notification_status") {
            return Some(Op::AppNotificationStatus);
        }
        if text::same_text(name, "events.subscribe") {
            return Some(Op::EventsSubscribe);
        }
        if text::same_text(name, "agent.set_hooks") {
            return Some(Op::AgentSetHooks);
        }
        if text::same_text(name, "host.add") {
            return Some(Op::HostAdd);
        }
        if text::same_text(name, "host.remove") {
            return Some(Op::HostRemove);
        }
        if text::same_text(name, "host.connect") {
            return Some(Op::HostConnect);
        }
        if text::same_text(name, "host.disconnect") {
            return Some(Op::HostDisconnect);
        }
        if text::same_text(name, "host.list") {
            return Some(Op::HostList);
        }
        if text::same_text(name, "host.status") {
            return Some(Op::HostStatus);
        }
        if text::same_text(name, "session.identify") {
            return Some(Op::SessionIdentify);
        }
        if text::same_text(name, "session.stop") {
            return Some(Op::SessionStop);
        }
        if text::same_text(name, "session.set_theme") {
            return Some(Op::SessionSetTheme);
        }
        if text::same_text(name, "session.set_agent_hooks") {
            return Some(Op::SessionSetAgentHooks);
        }
        if text::same_text(name, "session.put_file") {
            return Some(Op::SessionPutFile);
        }
        None
    }

    /// Whether an operation changes what a session holds, or hands out the means to. Once a
    /// session is stopping none of these runs any more; what only reads still answers.
    pub open spec fn mutates(self) -> bool {
        match self {
            Op::TabOpen | Op::TabClose | Op::TabWrite | Op::TabResize | Op::TabFocus
            | Op::TabSetTitle | Op::TabSetState | Op::TabClearNotification
            | Op::TabSetHookActive | Op::TabAgentReport | Op::TabReorder | Op::ProjectCreate
            | Op::ProjectEnsure | Op::ProjectRename | Op::ProjectDelete | Op::ProjectReorder
            | Op::NotificationCreate | Op::SessionSetTheme | Op::SessionSetAgentHooks
            | Op::SessionPutFile | Op::TabFeedPtyBytes | Op::HostAdd | Op::HostRemove => true,
            _ => false,
        }
    }

    /// Whether an operation changes what a session holds, or hands out the means to.
    pub fn mutating(self) -> (yes: bool)
        ensures
            yes == self.mutates(),
    {
        match self {
            Op::TabOpen | Op::TabClose | Op::TabWrite | Op::TabResize | Op::TabFocus
            | Op::TabSetTitle | Op::TabSetState | Op::TabClearNotification
            | Op::TabSetHookActive | Op::TabAgentReport | Op::TabReorder | Op::ProjectCreate
            | Op::ProjectEnsure | Op::ProjectRename | Op::ProjectDelete | Op::ProjectReorder
            | Op::NotificationCreate | Op::SessionSetTheme | Op::SessionSetAgentHooks
            | Op::SessionPutFile | Op::TabFeedPtyBytes | Op::HostAdd | Op::HostRemove => true,
            _ => false,
        }
    }
}

/// Whether the operation that goes by a name changes what a session holds.
pub fn is_mutating_op(op: &str) -> (yes: bool)
    ensures
        yes == exists|o: Op| (#[trigger] o.wire()) == op@ && o.mutates(),
{
    match Op::parse(op) {
        None => false,
        Some(found) => {
            proof {
                assert forall|o: Op| (#[trigger] o.wire()) == op@ implies o == found by {
                    law_a_name_means_one_op(o, found);
                }
            }
            found.mutating()
        },
    }
}

/// Where a UI's own tabs live.
#[derive(Clone, Copy, Debug, PartialEq, Eq, Structural)]
pub enum LocalBackendMode {
    InProcess,
    Session,
}

/// Which socket is asked.
#[derive(Clone, Copy, Debug, PartialEq, Eq, Structural)]
pub enum SocketKind {
    /// A UI's, whose own tabs live there.
    Ui(LocalBackendMode),
    /// A host session's.
    Session,
}

/// What a build has.
#[derive(Clone, Copy, Debug, PartialEq, Eq, Structural)]
pub struct Build {
    /// Terminals that run on the session's side.
    pub server_vt: bool,
    pub macos: bool,
}

/// How a request for an operation travels where a UI's tabs live in a session.
#[derive(Clone, Copy, Debug, PartialEq, Eq, Structural)]
pub enum OpClass {
    /// The socket answers it itself.
    Local,
    /// The session answers it, through the app.
    Forward,
    /// The socket answers it, with its bare ids taken for the session's.
    Rewrite,
    /// Nobody can.
    Unsupported,
}

/// Why an operation is not served, by what the socket answers instead.
#[derive(Clone, Copy, Debug, PartialEq, Eq, Structural)]
pub enum Withheld {
    /// A host session's own.
    SessionOnly,
    /// About what only a client keeps.
    UiSocketOnly,
    /// Not there where the tabs live in the UI's own process.
    NotImplementedInProcess,
    /// Only an app can answer.
    NeedsUi,
    /// Only an app can answer, or a session with terminals of its own.
    NeedsATerminal,
    TestMode,
    MacosOnly,
    /// Only where terminals run on the session's side.
    ServerVt,
}

impl Withheld {
    /// Whether the reason holds on a socket.
    pub open spec fn holds(
        self,
        socket: SocketKind,
        test_mode: bool,
        has_ui: bool,
        build: Build,
    ) -> bool {
        match self {
            Withheld::SessionOnly => socket is Ui,
            Withheld::UiSocketOnly => socket is Session,
            Withheld::NotImplementedInProcess => socket == SocketKind::Ui(
                LocalBackendMode::InProcess,
            ),
            Withheld::NeedsUi => !has_ui,
            Withheld::NeedsATerminal => !has_ui && !(socket is Session && build.server_vt),
            Withheld::TestMode => !test_mode,
            Withheld::MacosOnly => !build.macos,
            Withheld::ServerVt => !build.server_vt,
        }
    }

    /// Whether the reason holds on a socket.
    pub fn applies(self, socket: SocketKind, test_mode: bool, has_ui: bool, build: Build) -> (yes:
        bool)
        ensures
            yes == self.holds(socket, test_mode, has_ui, build),
    {
        match self {
            Withheld::SessionOnly => match socket {
                SocketKind::Ui(_) => true,
                SocketKind::Session => false,
            },
            Withheld::UiSocketOnly => match socket {
                SocketKind::Ui(_) => false,
                SocketKind::Session => true,
            },
            Withheld::NotImplementedInProcess => match socket {
                SocketKind::Ui(LocalBackendMode::InProcess) => true,
                _ => false,
            },
            Withheld::NeedsUi => !has_ui,
            Withheld::NeedsATerminal => match socket {
                SocketKind::Session => !has_ui && !build.server_vt,
                SocketKind::Ui(_) => !has_ui,
            },
            Withheld::TestMode => !test_mode,
            Withheld::MacosOnly => !build.macos,
            Withheld::ServerVt => !build.server_vt,
        }
    }
}

/// The reasons for which an operation may not be served.
pub open spec fn reasons(op: Op) -> Seq<Withheld> {
    match op {
        Op::TabDump | Op::TabDumpResolved => seq![Withheld::NeedsATerminal],
        Op::TabSendFile | Op::AppActivate | Op::Screenshot | Op::WindowMetrics
        | Op::AppRenderStats | Op::SidebarDump | Op::PaletteOpen | Op::PaletteState
        | Op::PaletteQuery | Op::PaletteActivate | Op::PaletteDismiss
        | Op::PalettePresent | Op::SelectionSet | Op::SelectionClear | Op::SelectionDump
        | Op::ClipboardDump | Op::ClipboardWrite | Op::AppCursorShape
        | Op::AppActiveTerminalFocused | Op::AppSelectedTabId => seq![Withheld::NeedsUi],
        Op::TabFeedPtyBytes | Op::TabCapturePtyInput => seq![Withheld::NeedsATerminal, Withheld::TestMode],
        Op::TabExpandSelectionAt | Op::TabFeedIme | Op::WindowResize
        | Op::SidebarSetWidth | Op::TabDispatchMouseEvent | Op::AppSetWindowFocus
        | Op::AppDialogDump | Op::AppDialogAnswer | Op::AppKeybindDispatch => seq![Withheld::NeedsUi, Withheld::TestMode],
        Op::AppDockBadge | Op::AppMenuDump | Op::AppMenuActivate | Op::AppUpdateStatus
        | Op::AppUpdateCheck | Op::AppNotificationStatus => seq![Withheld::NeedsUi, Withheld::TestMode, Withheld::MacosOnly],
        Op::EventsSubscribe => seq![Withheld::NotImplementedInProcess],
        Op::AgentSetHooks | Op::HostConnect | Op::HostDisconnect | Op::HostStatus => seq![Withheld::UiSocketOnly, Withheld::NeedsUi],
        Op::HostAdd | Op::HostRemove | Op::HostList => seq![Withheld::UiSocketOnly],
        Op::SessionIdentify | Op::SessionStop | Op::SessionSetAgentHooks
        | Op::SessionPutFile => seq![Withheld::SessionOnly],
        Op::SessionSetTheme => seq![Withheld::SessionOnly, Withheld::ServerVt],
        _ => seq![],
    }
}

/// The reasons for which an operation may not be served.
pub fn withheld(op: Op) -> (out: Vec<Withheld>)
    ensures
        out@ == reasons(op),
{
    let out: Vec<Withheld> = match op {
        Op::TabDump | Op::TabDumpResolved => vec![Withheld::NeedsATerminal],
        Op::TabSendFile | Op::AppActivate | Op::Screenshot | Op::WindowMetrics
        | Op::AppRenderStats | Op::SidebarDump | Op::PaletteOpen | Op::PaletteState
        | Op::PaletteQuery | Op::PaletteActivate | Op::PaletteDismiss
        | Op::PalettePresent | Op::SelectionSet | Op::SelectionClear | Op::SelectionDump
        | Op::ClipboardDump | Op::ClipboardWrite | Op::AppCursorShape
        | Op::AppActiveTerminalFocused | Op::AppSelectedTabId => vec![Withheld::NeedsUi],
        Op::TabFeedPtyBytes | Op::TabCapturePtyInput => vec![Withheld::NeedsATerminal, Withheld::TestMode],
        Op::TabExpandSelectionAt | Op::TabFeedIme | Op::WindowResize
        | Op::SidebarSetWidth | Op::TabDispatchMouseEvent | Op::AppSetWindowFocus
        | Op::AppDialogDump | Op::AppDialogAnswer | Op::AppKeybindDispatch => vec![Withheld::NeedsUi, Withheld::TestMode],
        Op::AppDockBadge | Op::AppMenuDump | Op::AppMenuActivate | Op::AppUpdateStatus
        | Op::AppUpdateCheck | Op::AppNotificationStatus => vec![Withheld::NeedsUi, Withheld::TestMode, Withheld::MacosOnly],
        Op::EventsSubscribe => vec![Withheld::NotImplementedInProcess],
        Op::AgentSetHooks | Op::HostConnect | Op::HostDisconnect | Op::HostStatus => vec![Withheld::UiSocketOnly, Withheld::NeedsUi],
        Op::HostAdd | Op::HostRemove | Op::HostList => vec![Withheld::UiSocketOnly],
        Op::SessionIdentify | Op::SessionStop | Op::SessionSetAgentHooks
        | Op::SessionPutFile => vec![Withheld::SessionOnly],
        Op::SessionSetTheme => vec![Withheld::SessionOnly, Withheld::ServerVt],
        _ => Vec::new(),
    };
    assert(out@ =~= reasons(op));
    out
}

/// How each operation travels where a UI's tabs live in a session.
#[derive(Debug, PartialEq, Eq)]
pub struct SlotClasses {
    /// Those that nobody can answer there.
    pub unsupported: Vec<Op>,
    /// Those that the session answers through the app.
    pub forwarded: Vec<Op>,
    /// Those that the socket answers about the session's own ids.
    pub rewritten: Vec<Op>,
}

impl SlotClasses {
    /// An operation's class.
    pub open spec fn class(self, op: Op) -> OpClass {
        if self.unsupported@.contains(op) {
            OpClass::Unsupported
        } else if self.forwarded@.contains(op) {
            OpClass::Forward
        } else if self.rewritten@.contains(op) {
            OpClass::Rewrite
        } else {
            OpClass::Local
        }
    }

    /// An operation's class.
    pub fn classify(&self, op: Op) -> (class: OpClass)
        ensures
            class == self.class(op),
    {
        if listed(&self.unsupported, op) {
            return OpClass::Unsupported;
        }
        if listed(&self.forwarded, op) {
            return OpClass::Forward;
        }
        if listed(&self.rewritten, op) {
            return OpClass::Rewrite;
        }
        OpClass::Local
    }
}

fn listed(list: &Vec<Op>, op: Op) -> (yes: bool)
    ensures
        yes == list@.contains(op),
{
    let mut i: usize = 0;
    while i < list.len()
        invariant
            i <= list@.len(),
            forall|k: int| 0 <= k < i ==> list@[k] != op,
        decreases list@.len() - i,
    {
        if list[i] == op {
            assert(list@.contains(op));
            return true;
        }
        i = i + 1;
    }
    false
}

/// Whether an operation cannot be had where a UI's tabs live in a session: nobody can answer
/// it, or only an app could, and there is none.
pub fn withheld_from_the_slot(op: Op, has_ui: bool, classes: &SlotClasses) -> (yes: bool)
    ensures
        yes == kept_from_the_slot(op, has_ui, *classes),
{
    match classes.classify(op) {
        OpClass::Unsupported => true,
        OpClass::Forward | OpClass::Rewrite => !has_ui,
        OpClass::Local => false,
    }
}

/// Whether an operation cannot be had where a UI's tabs live in a session.
pub open spec fn kept_from_the_slot(op: Op, has_ui: bool, classes: SlotClasses) -> bool {
    match classes.class(op) {
        OpClass::Unsupported => true,
        OpClass::Forward | OpClass::Rewrite => !has_ui,
        OpClass::Local => false,
    }
}

/// Whether a socket would carry an operation out right now.
pub open spec fn serves(
    op: Op,
    socket: SocketKind,
    test_mode: bool,
    has_ui: bool,
    build: Build,
    classes: SlotClasses,
) -> bool {
    &&& forall|i: int|
        0 <= i < reasons(op).len() ==> !(#[trigger] reasons(op)[i]).holds(
            socket,
            test_mode,
            has_ui,
            build,
        )
    &&& !(socket == SocketKind::Ui(LocalBackendMode::Session) && kept_from_the_slot(
        op,
        has_ui,
        classes,
    ))
}

fn is_served(
    op: Op,
    socket: SocketKind,
    test_mode: bool,
    has_ui: bool,
    build: Build,
    classes: &SlotClasses,
) -> (yes: bool)
    ensures
        yes == serves(op, socket, test_mode, has_ui, build, *classes),
{
    let why = withheld(op);
    let mut i: usize = 0;
    while i < why.len()
        invariant
            i <= why@.len(),
            why@ == reasons(op),
            forall|k: int|
                0 <= k < i ==> !(#[trigger] reasons(op)[k]).holds(
                    socket,
                    test_mode,
                    has_ui,
                    build,
                ),
        decreases why@.len() - i,
    {
        if why[i].applies(socket, test_mode, has_ui, build) {
            assert(reasons(op)[i as int].holds(socket, test_mode, has_ui, build));
            return false;
        }
        i = i + 1;
    }
    match socket {
        SocketKind::Ui(LocalBackendMode::Session) => !withheld_from_the_slot(op, has_ui, classes),
        _ => true,
    }
}

/// Those of a list of operations that a socket serves, in order.
pub open spec fn served(
    ops: Seq<Op>,
    socket: SocketKind,
    test_mode: bool,
    has_ui: bool,
    build: Build,
    classes: SlotClasses,
) -> Seq<Op>
    decreases ops.len(),
{
    if ops.len() == 0 {
        seq![]
    } else {
        let before = served(ops.drop_last(), socket, test_mode, has_ui, build, classes);
        if serves(ops.last(), socket, test_mode, has_ui, build, classes) {
            before.push(ops.last())
        } else {
            before
        }
    }
}

/// The operations that a socket would carry out right now. One that could only fail is not
/// among them.
pub fn served_ops(
    socket: SocketKind,
    test_mode: bool,
    has_ui: bool,
    build: Build,
    classes: &SlotClasses,
) -> (out: Vec<Op>)
    ensures
        out@ == served(all_ops(), socket, test_mode, has_ui, build, *classes),
{
    let ops = every_op();
    let mut out: Vec<Op> = Vec::new();
    let mut i: usize = 0;
    assert(ops@.take(0) =~= seq![]);
    while i < ops.len()
        invariant
            i <= ops@.len(),
            out@ == served(ops@.take(i as int), socket, test_mode, has_ui, build, *classes),
        decreases ops@.len() - i,
    {
        let op = ops[i];
        proof {
            assert(ops@.take(i + 1).drop_last() =~= ops@.take(i as int));
            assert(ops@.take(i + 1).last() == op);
        }
        if is_served(op, socket, test_mode, has_ui, build, classes) {
            out.push(op);
        }
        i = i + 1;
    }
    assert(ops@.take(i as int) =~= ops@);
    out
}

proof fn lemma_served(
    ops: Seq<Op>,
    socket: SocketKind,
    test_mode: bool,
    has_ui: bool,
    build: Build,
    classes: SlotClasses,
    op: Op,
)
    ensures
        served(ops, socket, test_mode, has_ui, build, classes).contains(op) <==> ops.contains(op)
            && serves(op, socket, test_mode, has_ui, build, classes),
    decreases ops.len(),
{
    let out = served(ops, socket, test_mode, has_ui, build, classes);
    if ops.len() > 0 {
        let init = ops.drop_last();
        let before = served(init, socket, test_mode, has_ui, build, classes);
        lemma_served(init, socket, test_mode, has_ui, build, classes, op);
        assert(ops =~= init.push(ops.last()));
        if ops.contains(op) {
            let i = choose|i: int| 0 <= i < ops.len() && ops[i] == op;
            if i < init.len() {
                assert(init[i] == op);
            }
        }
        if init.contains(op) {
            let i = choose|i: int| 0 <= i < init.len() && init[i] == op;
            assert(ops[i] == op);
        }
        if before.contains(op) {
            let k = choose|k: int| 0 <= k < before.len() && before[k] == op;
            assert(out[k] == op);
        }
        if out.contains(op) {
            let k = choose|k: int| 0 <= k < out.len() && out[k] == op;
            if k < before.len() {
                assert(before[k] == op);
            }
        }
        if serves(ops.last(), socket, test_mode, has_ui, build, classes) {
            assert(out[before.len() as int] == ops.last());
        }
        assert(ops[ops.len() - 1] == ops.last());
    }
}

/// What a socket lists is what it serves, and every operation is listed exactly where it is
/// served.
pub proof fn law_a_socket_lists_what_it_serves(
    socket: SocketKind,
    test_mode: bool,
    has_ui: bool,
    build: Build,
    classes: SlotClasses,
    op: Op,
)
    ensures
        served(all_ops(), socket, test_mode, has_ui, build, classes).contains(op) <==> serves(
            op,
            socket,
            test_mode,
            has_ui,
            build,
            classes,
        ),
{
    lemma_served(all_ops(), socket, test_mode, has_ui, build, classes, op);
    let at: int = match op {
        Op::Identify => 0,
        Op::TabOpen => 1,
        Op::TabClose => 2,
        Op::TabList => 3,
        Op::TabWrite => 4,
        Op::TabResize => 5,
        Op::TabDump => 6,
        Op::ProjectCreate => 7,
        Op::ProjectEnsure => 8,
        Op::ProjectRename => 9,
        Op::ProjectDelete => 10,
        Op::TabReorder => 11,
        Op::ProjectReorder => 12,
        Op::TabFocus => 13,
        Op::TabSendFile => 14,
        Op::TabSetTitle => 15,
        Op::TabSetState => 16,
        Op::TabClearNotification => 17,
        Op::TabSetHookActive => 18,
        Op::TabAgentReport => 19,
        Op::NotificationCreate => 20,
        Op::AppActivate => 21,
        Op::Screenshot => 22,
        Op::WindowMetrics => 23,
        Op::AppRenderStats => 24,
        Op::SidebarDump => 25,
        Op::PaletteOpen => 26,
        Op::PaletteState => 27,
        Op::PaletteQuery => 28,
        Op::PaletteActivate => 29,
        Op::PaletteDismiss => 30,
        Op::PalettePresent => 31,
        Op::SelectionSet => 32,
        Op::SelectionClear => 33,
        Op::SelectionDump => 34,
        Op::ClipboardDump => 35,
        Op::ClipboardWrite => 36,
        Op::TabFeedPtyBytes => 37,
        Op::TabCapturePtyInput => 38,
        Op::TabExpandSelectionAt => 39,
        Op::TabFeedIme => 40,
        Op::WindowResize => 41,
        Op::SidebarSetWidth => 42,
        Op::TabDumpResolved => 43,
        Op::TabDispatchMouseEvent => 44,
        Op::AppSetWindowFocus => 45,
        Op::AppCursorShape => 46,
        Op::AppActiveTerminalFocused => 47,
        Op::AppSelectedTabId => 48,
        Op::AppDockBadge => 49,
        Op::AppMenuDump => 50,
        Op::AppMenuActivate => 51,
        Op::AppDialogDump => 52,
        Op::AppDialogAnswer => 53,
        Op::AppKeybindDispatch => 54,
        Op::AppUpdateStatus => 55,
        Op::AppUpdateCheck => 56,
        Op::AppNotificationStatus => 57,
        Op::EventsSubscribe => 58,
        Op::AgentSetHooks => 59,
        Op::HostAdd => 60,
        Op::HostRemove => 61,
        Op::HostConnect => 62,
        Op::HostDisconnect => 63,
        Op::HostList => 64,
        Op::HostStatus => 65,
        Op::SessionIdentify => 66,
        Op::SessionStop => 67,
        Op::SessionSetTheme => 68,
        Op::SessionSetAgentHooks => 69,
        Op::SessionPutFile => 70,
    };
    assert(all_ops()[at] == op);
}

/// Test seams are served in test mode alone, a session never serves what only a client keeps,
/// and what needs an app is not served without one.
pub proof fn law_some_ops_are_never_served(
    socket: SocketKind,
    test_mode: bool,
    has_ui: bool,
    build: Build,
    classes: SlotClasses,
    op: Op,
)
    ensures
        reasons(op).contains(Withheld::TestMode) ==> !serves(
            op,
            socket,
            false,
            has_ui,
            build,
            classes,
        ),
        reasons(op).contains(Withheld::UiSocketOnly) ==> !serves(
            op,
            SocketKind::Session,
            test_mode,
            has_ui,
            build,
            classes,
        ),
        reasons(op).contains(Withheld::NeedsUi) ==> !serves(
            op,
            socket,
            test_mode,
            false,
            build,
            classes,
        ),
{
}

/// What tells a name from every other: its length, its fifth character, and its fourth from
/// the end.
spec fn mark(op: Op) -> (int, char, char) {
    match op {
        Op::Identify => (8, 't', 't'),
        Op::TabOpen => (8, 'o', 'o'),
        Op::TabClose => (9, 'c', 'l'),
        Op::TabList => (8, 'l', 'l'),
        Op::TabWrite => (9, 'w', 'r'),
        Op::TabResize => (10, 'r', 's'),
        Op::TabDump => (8, 'd', 'd'),
        Op::ProjectCreate => (14, 'e', 'e'),
        Op::ProjectEnsure => (14, 'e', 's'),
        Op::ProjectRename => (14, 'e', 'n'),
        Op::ProjectDelete => (14, 'e', 'l'),
        Op::TabReorder => (11, 'r', 'r'),
        Op::ProjectReorder => (15, 'e', 'r'),
        Op::TabFocus => (9, 'f', 'o'),
        Op::TabSendFile => (13, 's', 'f'),
        Op::TabSetTitle => (13, 's', 'i'),
        Op::TabSetState => (13, 's', 't'),
        Op::TabClearNotification => (22, 'c', 't'),
        Op::TabSetHookActive => (19, 's', 't'),
        Op::TabAgentReport => (16, 'a', 'p'),
        Op::NotificationCreate => (19, 'f', 'e'),
        Op::AppActivate => (12, 'a', 'v'),
        Op::Screenshot => (14, 's', 's'),
        Op::WindowMetrics => (18, 'w', 'r'),
        Op::AppRenderStats => (16, 'r', 't'),
        Op::SidebarDump => (16, 's', 'd'),
        Op::PaletteOpen => (12, 't', 'o'),
        Op::PaletteState => (13, 't', 't'),
        Op::PaletteQuery => (13, 't', 'u'),
        Op::PaletteActivate => (16, 't', 'v'),
        Op::PaletteDismiss => (15, 't', 'm'),
        Op::PalettePresent => (15, 't', 's'),
        Op::SelectionSet => (13, 'c', '.'),
        Op::SelectionClear => (15, 'c', 'l'),
        Op::SelectionDump => (14, 'c', 'd'),
        Op::ClipboardDump => (14, 'b', 'd'),
        Op::ClipboardWrite => (15, 'b', 'r'),
        Op::TabFeedPtyBytes => (18, 'f', 'y'),
        Op::TabCapturePtyInput => (21, 'c', 'n'),
        Op::TabExpandSelectionAt => (23, 'e', 'n'),
        Op::TabFeedIme => (12, 'f', '_'),
        Op::WindowResize => (13, 'o', 's'),
        Op::SidebarSetWidth => (17, 'b', 'i'),
        Op::TabDumpResolved => (17, 'd', 'l'),
        Op::TabDispatchMouseEvent => (24, 'd', 'v'),
        Op::AppSetWindowFocus => (20, 's', 'o'),
        Op::AppCursorShape => (16, 'c', 'h'),
        Op::AppActiveTerminalFocused => (27, 'a', 'u'),
        Op::AppSelectedTabId => (19, 's', 'b'),
        Op::AppDockBadge => (14, 'd', 'a'),
        Op::AppMenuDump => (13, 'm', 'd'),
        Op::AppMenuActivate => (17, 'm', 'v'),
        Op::AppDialogDump => (15, 'd', 'd'),
        Op::AppDialogAnswer => (17, 'd', 's'),
        Op::AppKeybindDispatch => (20, 'k', 'a'),
        Op::AppUpdateStatus => (17, 'u', 'a'),
        Op::AppUpdateCheck => (16, 'u', 'h'),
        Op::AppNotificationStatus => (23, 'n', 'a'),
        Op::EventsSubscribe => (16, 't', 'r'),
        Op::AgentSetHooks => (15, 't', 'o'),
        Op::HostAdd => (8, '.', '.'),
        Op::HostRemove => (11, '.', 'm'),
        Op::HostConnect => (12, '.', 'n'),
        Op::HostDisconnect => (15, '.', 'n'),
        Op::HostList => (9, '.', 'l'),
        Op::HostStatus => (11, '.', 'a'),
        Op::SessionIdentify => (16, 'i', 't'),
        Op::SessionStop => (12, 'i', 's'),
        Op::SessionSetTheme => (17, 'i', 'h'),
        Op::SessionSetAgentHooks => (23, 'i', 'o'),
        Op::SessionPutFile => (16, 'i', 'f'),
    }
}

proof fn lemma_mark(op: Op)
    ensures
        op.wire().len() == mark(op).0,
        op.wire()[4] == mark(op).1,
        op.wire()[mark(op).0 - 4] == mark(op).2,
{
    match op {
        Op::Identify => {
            reveal_strlit("identify");
        },
        Op::TabOpen => {
            reveal_strlit("tab.open");
        },
        Op::TabClose => {
            reveal_strlit("tab.close");
        },
        Op::TabList => {
            reveal_strlit("tab.list");
        },
        Op::TabWrite => {
            reveal_strlit("tab.write");
        },
        Op::TabResize => {
            reveal_strlit("tab.resize");
        },
        Op::TabDump => {
            reveal_strlit("tab.dump");
        },
        Op::ProjectCreate => {
            reveal_strlit("project.create");
        },
        Op::ProjectEnsure => {
            reveal_strlit("project.ensure");
        },
        Op::ProjectRename => {
            reveal_strlit("project.rename");
        },
        Op::ProjectDelete => {
            reveal_strlit("project.delete");
        },
        Op::TabReorder => {
            reveal_strlit("tab.reorder");
        },
        Op::ProjectReorder => {
            reveal_strlit("project.reorder");
        },
        Op::TabFocus => {
            reveal_strlit("tab.focus");
        },
        Op::TabSendFile => {
            reveal_strlit("tab.send_file");
        },
        Op::TabSetTitle => {
            reveal_strlit("tab.set_title");
        },
        Op::TabSetState => {
            reveal_strlit("tab.set_state");
        },
        Op::TabClearNotification => {
            reveal_strlit("tab.clear_notification");
        },
        Op::TabSetHookActive => {
            reveal_strlit("tab.set_hook_active");
        },
        Op::TabAgentReport => {
            reveal_strlit("tab.agent_report");
        },
        Op::NotificationCreate => {
            reveal_strlit("notification.create");
        },
        Op::AppActivate => {
            reveal_strlit("app.activate");
        },
        Op::Screenshot => {
            reveal_strlit("app.screenshot");
        },
        Op::WindowMetrics => {
            reveal_strlit("app.window_metrics");
        },
        Op::AppRenderStats => {
            reveal_strlit("app.render_stats");
        },
        Op::SidebarDump => {
            reveal_strlit("app.sidebar_dump");
        },
        Op::PaletteOpen => {
            reveal_strlit("palette.open");
        },
        Op::PaletteState => {
            reveal_strlit("palette.state");
        },
        Op::PaletteQuery => {
            reveal_strlit("palette.query");
        },
        Op::PaletteActivate => {
            reveal_strlit("palette.activate");
        },
        Op::PaletteDismiss => {
            reveal_strlit("palette.dismiss");
        },
        Op::PalettePresent => {
            reveal_strlit("palette.present");
        },
        Op::SelectionSet => {
            reveal_strlit("selection.set");
        },
        Op::SelectionClear => {
            reveal_strlit("selection.clear");
        },
        Op::SelectionDump => {
            reveal_strlit("selection.dump");
        },
        Op::ClipboardDump => {
            reveal_strlit("clipboard.dump");
        },
        Op::ClipboardWrite => {
            reveal_strlit("clipboard.write");
        },
        Op::TabFeedPtyBytes => {
            reveal_strlit("tab.feed_pty_bytes");
        },
        Op::TabCapturePtyInput => {
            reveal_strlit("tab.capture_pty_input");
        },
        Op::TabExpandSelectionAt => {
            reveal_strlit("tab.expand_selection_at");
        },
        Op::TabFeedIme => {
            reveal_strlit("tab.feed_ime");
        },
        Op::WindowResize => {
            reveal_strlit("window.resize");
        },
        Op::SidebarSetWidth => {
            reveal_strlit("sidebar.set_width");
        },
        Op::TabDumpResolved => {
            reveal_strlit("tab.dump_resolved");
        },
        Op::TabDispatchMouseEvent => {
            reveal_strlit("tab.dispatch_mouse_event");
        },
        Op::AppSetWindowFocus => {
            reveal_strlit("app.set_window_focus");
        },
        Op::AppCursorShape => {
            reveal_strlit("app.cursor_shape");
        },
        Op::AppActiveTerminalFocused => {
            reveal_strlit("app.active_terminal_focused");
        },
        Op::AppSelectedTabId => {
            reveal_strlit("app.selected_tab_id");
        },
        Op::AppDockBadge => {
            reveal_strlit("app.dock_badge");
        },
        Op::AppMenuDump => {
            reveal_strlit("app.menu_dump");
        },
        Op::AppMenuActivate => {
            reveal_strlit("app.menu_activate");
        },
        Op::AppDialogDump => {
            reveal_strlit("app.dialog_dump");
        },
        Op::AppDialogAnswer => {
            reveal_strlit("app.dialog_answer");
        },
        Op::AppKeybindDispatch => {
            reveal_strlit("app.keybind_dispatch");
        },
        Op::AppUpdateStatus => {
            reveal_strlit("app.update_status");
        },
        Op::AppUpdateCheck => {
            reveal_strlit("app.update_check");
        },
        Op::AppNotificationStatus => {
            reveal_strlit("app.notification_status");
        },
        Op::EventsSubscribe => {
            reveal_strlit("events.subscribe");
        },
        Op::AgentSetHooks => {
            reveal_strlit("agent.set_hooks");
        },
        Op::HostAdd => {
            reveal_strlit("host.add");
        },
        Op::HostRemove => {
            reveal_strlit("host.remove");
        },
        Op::HostConnect => {
            reveal_strlit("host.connect");
        },
        Op::HostDisconnect => {
            reveal_strlit("host.disconnect");
        },
        Op::HostList => {
            reveal_strlit("host.list");
        },
        Op::HostStatus => {
            reveal_strlit("host.status");
        },
        Op::SessionIdentify => {
            reveal_strlit("session.identify");
        },
        Op::SessionStop => {
            reveal_strlit("session.stop");
        },
        Op::SessionSetTheme => {
            reveal_strlit("session.set_theme");
        },
        Op::SessionSetAgentHooks => {
            reveal_strlit("session.set_agent_hooks");
        },
        Op::SessionPutFile => {
            reveal_strlit("session.put_file");
        },
    }
}

/// No two operations share a name, so a name means one operation.
pub proof fn law_a_name_means_one_op(a: Op, b: Op)
    ensures
        a.wire() == b.wire() ==> a == b,
{
    lemma_mark(a);
    lemma_mark(b);
}

/// The names on the wire: each operation's own, its group before the dot.
pub proof fn law_each_operation_goes_by_its_name()
    ensures
        Op::Identify.wire() == "identify"@,
        Op::TabOpen.wire() == "tab.open"@,
        Op::TabClose.wire() == "tab.close"@,
        Op::TabList.wire() == "tab.list"@,
        Op::TabWrite.wire() == "tab.write"@,
        Op::TabResize.wire() == "tab.resize"@,
        Op::TabDump.wire() == "tab.dump"@,
        Op::ProjectCreate.wire() == "project.create"@,
        Op::ProjectEnsure.wire() == "project.ensure"@,
        Op::ProjectRename.wire() == "project.rename"@,
        Op::ProjectDelete.wire() == "project.delete"@,
        Op::TabReorder.wire() == "tab.reorder"@,
        Op::ProjectReorder.wire() == "project.reorder"@,
        Op::TabFocus.wire() == "tab.focus"@,
        Op::TabSendFile.wire() == "tab.send_file"@,
        Op::TabSetTitle.wire() == "tab.set_title"@,
        Op::TabSetState.wire() == "tab.set_state"@,
        Op::TabClearNotification.wire() == "tab.clear_notification"@,
        Op::TabSetHookActive.wire() == "tab.set_hook_active"@,
        Op::TabAgentReport.wire() == "tab.agent_report"@,
        Op::NotificationCreate.wire() == "notification.create"@,
        Op::AppActivate.wire() == "app.activate"@,
        Op::Screenshot.wire() == "app.screenshot"@,
        Op::WindowMetrics.wire() == "app.window_metrics"@,
        Op::AppRenderStats.wire() == "app.render_stats"@,
        Op::SidebarDump.wire() == "app.sidebar_dump"@,
        Op::PaletteOpen.wire() == "palette.open"@,
        Op::PaletteState.wire() == "palette.state"@,
        Op::PaletteQuery.wire() == "palette.query"@,
        Op::PaletteActivate.wire() == "palette.activate"@,
        Op::PaletteDismiss.wire() == "palette.dismiss"@,
        Op::PalettePresent.wire() == "palette.present"@,
        Op::SelectionSet.wire() == "selection.set"@,
        Op::SelectionClear.wire() == "selection.clear"@,
        Op::SelectionDump.wire() == "selection.dump"@,
        Op::ClipboardDump.wire() == "clipboard.dump"@,
        Op::ClipboardWrite.wire() == "clipboard.write"@,
        Op::TabFeedPtyBytes.wire() == "tab.feed_pty_bytes"@,
        Op::TabCapturePtyInput.wire() == "tab.capture_pty_input"@,
        Op::TabExpandSelectionAt.wire() == "tab.expand_selection_at"@,
        Op::TabFeedIme.wire() == "tab.feed_ime"@,
        Op::WindowResize.wire() == "window.resize"@,
        Op::SidebarSetWidth.wire() == "sidebar.set_width"@,
        Op::TabDumpResolved.wire() == "tab.dump_resolved"@,
        Op::TabDispatchMouseEvent.wire() == "tab.dispatch_mouse_event"@,
        Op::AppSetWindowFocus.wire() == "app.set_window_focus"@,
        Op::AppCursorShape.wire() == "app.cursor_shape"@,
        Op::AppActiveTerminalFocused.wire() == "app.active_terminal_focused"@,
        Op::AppSelectedTabId.wire() == "app.selected_tab_id"@,
        Op::AppDockBadge.wire() == "app.dock_badge"@,
        Op::AppMenuDump.wire() == "app.menu_dump"@,
        Op::AppMenuActivate.wire() == "app.menu_activate"@,
        Op::AppDialogDump.wire() == "app.dialog_dump"@,
        Op::AppDialogAnswer.wire() == "app.dialog_answer"@,
        Op::AppKeybindDispatch.wire() == "app.keybind_dispatch"@,
        Op::AppUpdateStatus.wire() == "app.update_status"@,
        Op::AppUpdateCheck.wire() == "app.update_check"@,
        Op::AppNotificationStatus.wire() == "app.notification_status"@,
        Op::EventsSubscribe.wire() == "events.subscribe"@,
        Op::AgentSetHooks.wire() == "agent.set_hooks"@,
        Op::HostAdd.wire() == "host.add"@,
        Op::HostRemove.wire() == "host.remove"@,
        Op::HostConnect.wire() == "host.connect"@,
        Op::HostDisconnect.wire() == "host.disconnect"@,
        Op::HostList.wire() == "host.list"@,
        Op::HostStatus.wire() == "host.status"@,
        Op::SessionIdentify.wire() == "session.identify"@,
        Op::SessionStop.wire() == "session.stop"@,
        Op::SessionSetTheme.wire() == "session.set_theme"@,
        Op::SessionSetAgentHooks.wire() == "session.set_agent_hooks"@,
        Op::SessionPutFile.wire() == "session.put_file"@,
{
}

/// Which operations change something: those that open, close, write to or rename what the engine
/// keeps, and no read.
pub proof fn law_which_operations_change_something(op: Op)
    ensures
        op.mutates() <==> (op is TabOpen || op is TabClose || op is TabWrite || op is TabResize
            || op is TabFocus || op is TabSetTitle || op is TabSetState
            || op is TabClearNotification || op is TabSetHookActive || op is TabAgentReport
            || op is TabReorder || op is ProjectCreate || op is ProjectEnsure || op is ProjectRename
            || op is ProjectDelete || op is ProjectReorder || op is NotificationCreate
            || op is SessionSetTheme || op is SessionSetAgentHooks || op is SessionPutFile
            || op is TabFeedPtyBytes || op is HostAdd || op is HostRemove),
{
}

/// Which class an operation has in a slot: the first list that names it decides, and one that
/// none names is answered here. One that is not supported is kept from the slot, one that goes
/// out to it needs an app to carry it.
pub proof fn law_the_first_list_decides(classes: SlotClasses, op: Op, has_ui: bool)
    ensures
        classes.unsupported@.contains(op) ==> classes.class(op) == OpClass::Unsupported,
        !classes.unsupported@.contains(op) && classes.forwarded@.contains(op) ==> classes.class(op)
            == OpClass::Forward,
        !classes.unsupported@.contains(op) && !classes.forwarded@.contains(op)
            && classes.rewritten@.contains(op) ==> classes.class(op) == OpClass::Rewrite,
        !classes.unsupported@.contains(op) && !classes.forwarded@.contains(op)
            && !classes.rewritten@.contains(op) ==> classes.class(op) == OpClass::Local,
        kept_from_the_slot(op, has_ui, classes) <==> classes.class(op) is Unsupported || (!has_ui
            && !(classes.class(op) is Local)),
{
}

/// Which sockets serve an operation: what needs an app is served where there is one, what reads
/// a terminal also where the session keeps the terminals; a test's operations only in test mode,
/// the desktop's only on its platform; a client's own on no session, a session's own on no
/// client; and everything else everywhere, but for what a slot keeps away.
pub proof fn law_a_socket_serves_by_what_an_operation_needs(
    op: Op,
    socket: SocketKind,
    test_mode: bool,
    has_ui: bool,
    build: Build,
    classes: SlotClasses,
)
    ensures
        ({
            let yes = serves(op, socket, test_mode, has_ui, build, classes);
            let slot = !(socket == SocketKind::Ui(LocalBackendMode::Session) && kept_from_the_slot(
                op,
                has_ui,
                classes,
            ));
            let terminal = has_ui || (socket is Session && build.server_vt);
            &&& (op is TabDump || op is TabDumpResolved) ==> (yes <==> terminal && slot)
            &&& (op is TabFeedPtyBytes || op is TabCapturePtyInput) ==> (yes <==> terminal
                && test_mode && slot)
            &&& (op is TabSendFile || op is AppActivate || op is Screenshot || op is WindowMetrics
                || op is AppRenderStats || op is SidebarDump || op is PaletteOpen
                || op is PaletteState || op is PaletteQuery || op is PaletteActivate
                || op is PaletteDismiss || op is PalettePresent || op is SelectionSet
                || op is SelectionClear || op is SelectionDump || op is ClipboardDump
                || op is ClipboardWrite || op is AppCursorShape || op is AppActiveTerminalFocused
                || op is AppSelectedTabId) ==> (yes <==> has_ui && slot)
            &&& (op is TabExpandSelectionAt || op is TabFeedIme || op is WindowResize
                || op is SidebarSetWidth || op is TabDispatchMouseEvent || op is AppSetWindowFocus
                || op is AppDialogDump || op is AppDialogAnswer || op is AppKeybindDispatch) ==> (
            yes <==> has_ui && test_mode && slot)
            &&& (op is AppDockBadge || op is AppMenuDump || op is AppMenuActivate
                || op is AppUpdateStatus || op is AppUpdateCheck || op is AppNotificationStatus)
                ==> (yes <==> has_ui && test_mode && build.macos && slot)
            &&& (op is AgentSetHooks || op is HostConnect || op is HostDisconnect
                || op is HostStatus) ==> (yes <==> socket is Ui && has_ui && slot)
            &&& (op is HostAdd || op is HostRemove || op is HostList) ==> (yes <==> socket is Ui
                && slot)
            &&& (op is SessionIdentify || op is SessionStop || op is SessionSetAgentHooks
                || op is SessionPutFile) ==> (yes <==> socket is Session)
            &&& op is SessionSetTheme ==> (yes <==> socket is Session && build.server_vt)
            &&& op is EventsSubscribe ==> (yes <==> socket != SocketKind::Ui(
                LocalBackendMode::InProcess,
            ) && slot)
            &&& (op is Identify || op is TabOpen || op is TabClose || op is TabList || op is TabWrite
                || op is TabResize || op is ProjectCreate || op is ProjectEnsure
                || op is ProjectRename || op is ProjectDelete || op is TabReorder
                || op is ProjectReorder || op is TabFocus || op is TabSetTitle || op is TabSetState
                || op is TabClearNotification || op is TabSetHookActive || op is TabAgentReport
                || op is NotificationCreate) ==> (yes <==> slot)
        }),
{
    let list = reasons(op);
    let held = |i: int| list[i].holds(socket, test_mode, has_ui, build);
    if list.len() > 0 {
        assert(held(0) == list[0].holds(socket, test_mode, has_ui, build));
    }
    if list.len() > 1 {
        assert(held(1) == list[1].holds(socket, test_mode, has_ui, build));
    }
    if list.len() > 2 {
        assert(held(2) == list[2].holds(socket, test_mode, has_ui, build));
    }
}

/// A socket lists what it serves in the order of the operations, each as it comes.
pub proof fn law_the_list_keeps_its_order(
    before: Seq<Op>,
    next: Op,
    socket: SocketKind,
    test_mode: bool,
    has_ui: bool,
    build: Build,
    classes: SlotClasses,
)
    ensures
        served(seq![], socket, test_mode, has_ui, build, classes).len() == 0,
        serves(next, socket, test_mode, has_ui, build, classes) ==> served(
            before.push(next),
            socket,
            test_mode,
            has_ui,
            build,
            classes,
        ) == served(before, socket, test_mode, has_ui, build, classes).push(next),
        !serves(next, socket, test_mode, has_ui, build, classes) ==> served(
            before.push(next),
            socket,
            test_mode,
            has_ui,
            build,
            classes,
        ) == served(before, socket, test_mode, has_ui, build, classes),
{
    assert(before.push(next).drop_last() =~= before);
}

} // verus!
