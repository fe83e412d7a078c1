//! How a socket says who it is and what it serves.
use crate::ipc::admission::SessionInfo;
use crate::ipc::dispatch::LocalRoute;
use crate::ipc::ops::{served_ops, Build, LocalBackendMode, Op, SlotClasses, SocketKind};
use crate::ipc::ops;
use crate::text;
use vstd::prelude::*;

verus! {

/// The project and tab in front, as a socket reports them. Where a UI's tabs live in a session,
/// bare ids are the session's, and so are these.
pub fn identify_active(
    mode: LocalBackendMode,
    slot_active: Option<(i64, i64)>,
    workspace_active: (i64, i64),
) -> (out: (i64, i64))
    ensures
        out == (match mode {
            LocalBackendMode::InProcess => workspace_active,
            LocalBackendMode::Session => match slot_active {
                Some(active) => active,
                None => (0i64, 0i64),
            },
        }),
{
    match mode {
        LocalBackendMode::InProcess => workspace_active,
        LocalBackendMode::Session => match slot_active {
            Some(active) => active,
            None => (0, 0),
        },
    }
}

/// Where a client finds the events that a UI does not serve: at the session that its tabs
/// live in, where they do.
pub fn local_session_socket(mode: LocalBackendMode, socket: Option<String>) -> (out: Option<String>)
    ensures
        out == (match mode {
            LocalBackendMode::Session => socket,
            LocalBackendMode::InProcess => None,
        }),
{
    match mode {
        LocalBackendMode::Session => socket,
        LocalBackendMode::InProcess => None,
    }
}

/// The name of a UI's process; a session goes by its own.
pub fn reported_instance(is_session: bool, instance_id: String) -> (out: Option<String>)
    ensures
        out == (if is_session {
            None
        } else {
            Some(instance_id)
        }),
{
    if is_session {
        None
    } else {
        Some(instance_id)
    }
}

/// The names of operations, in order.
pub open spec fn wires(list: Seq<Op>) -> Seq<Seq<char>> {
    Seq::new(list.len(), |i: int| list[i].wire())
}

fn names(list: Vec<Op>) -> (out: Vec<String>)
    ensures
        text::texts(out@) == wires(list@),
{
    let mut out: Vec<String> = Vec::new();
    let mut i: usize = 0;
    assert(text::texts(out@) =~= wires(list@).take(0));
    while i < list.len()
        invariant
            i <= list@.len(),
            text::texts(out@) == wires(list@).take(i as int),
        decreases list@.len() - i,
    {
        let ghost before = out@;
        out.push(list[i].name().to_owned());
        assert(text::texts(out@) =~= text::texts(before).push(list@[i as int].wire()));
        assert(text::texts(out@) =~= wires(list@).take(i + 1));
        i = i + 1;
    }
    assert(wires(list@).take(i as int) =~= wires(list@));
    out
}

fn copied(list: &Vec<String>) -> (out: Vec<String>)
    ensures
        text::texts(out@) == text::texts(list@),
{
    let mut out: Vec<String> = Vec::new();
    let mut i: usize = 0;
    assert(text::texts(out@) =~= text::texts(list@).take(0));
    while i < list.len()
        invariant
            i <= list@.len(),
            text::texts(out@) == text::texts(list@).take(i as int),
        decreases list@.len() - i,
    {
        let ghost before = out@;
        out.push(list[i].clone());
        assert(text::texts(out@) =~= text::texts(before).push(list@[i as int]@));
        assert(text::texts(out@) =~= text::texts(list@).take(i + 1));
        i = i + 1;
    }
    assert(text::texts(list@).take(i as int) =~= text::texts(list@));
    out
}

/// What decides which operations a socket serves, besides what it is.
#[derive(Debug, PartialEq, Eq)]
pub struct Serving {
    /// Whether the app of a UI's socket is in test mode.
    pub test_mode: bool,
    pub has_ui: bool,
    pub build: Build,
    pub classes: SlotClasses,
}

/// The names of the operations that a socket serves. A session goes by its own test mode, and
/// a UI's socket by where its tabs live.
pub open spec fn served_names(
    session: Option<SessionInfo>,
    serving: Serving,
    route: LocalRoute,
) -> Seq<Seq<char>> {
    match session {
        Some(info) => wires(
            ops::served(
                ops::all_ops(),
                SocketKind::Session,
                info.test_mode,
                serving.has_ui,
                serving.build,
                serving.classes,
            ),
        ),
        None => wires(
            ops::served(
                ops::all_ops(),
                SocketKind::Ui(route.mode),
                serving.test_mode,
                serving.has_ui,
                serving.build,
                serving.classes,
            ),
        ),
    }
}

/// A session's description, if there is a session.
pub open spec fn info_of(session: Option<&SessionInfo>) -> Option<SessionInfo> {
    match session {
        Some(info) => Some(*info),
        None => None,
    }
}

/// The names of the operations that a socket serves.
pub fn serves(session: Option<&SessionInfo>, serving: &Serving, route: &LocalRoute) -> (out: Vec<
    String,
>)
    ensures
        text::texts(out@) == served_names(info_of(session), *serving, *route),
{
    let (socket, test_mode): (SocketKind, bool) = match session {
        Some(info) => (SocketKind::Session, info.test_mode),
        None => (SocketKind::Ui(route.mode), serving.test_mode),
    };
    names(served_ops(socket, test_mode, serving.has_ui, serving.build, &serving.classes))
}

/// The process behind a socket.
#[derive(Debug, PartialEq, Eq)]
pub struct Process {
    pub socket_path: String,
    pub pid: i32,
    pub app_label: String,
    pub app_id: String,
    pub ui_version: String,
    pub protocol_version: u32,
    /// The name of this one process.
    pub instance_id: String,
}

/// The reply to a request for who a socket is.
#[derive(Debug, PartialEq, Eq)]
pub struct IdentifyResult {
    pub socket_path: String,
    pub pid: i32,
    pub active_project_id: i64,
    pub active_tab_id: i64,
    pub app_label: String,
    pub app_id: String,
    pub ui_version: String,
    pub protocol_version: u32,
    pub local_backend: LocalBackendMode,
    pub local_session_socket: Option<String>,
    pub local_backend_switch: Option<String>,
    pub persist_error: Option<String>,
    pub ops: Option<Vec<String>>,
    pub instance_id: Option<String>,
}

/// What a workspace says of itself.
#[derive(Debug, PartialEq, Eq)]
pub struct WorkspaceStatus {
    /// The project and tab in front.
    pub active: (i64, i64),
    /// Why the layout could not be saved, while it cannot.
    pub persist_error: Option<String>,
}

/// Whether a reply says of a process what it is, of the route where requests go, and of the
/// workspace what is in front.
pub open spec fn says_who(
    process: Process,
    in_session: bool,
    route: LocalRoute,
    workspace: WorkspaceStatus,
    session_socket: Option<String>,
    out: IdentifyResult,
) -> bool {
    &&& out.socket_path == process.socket_path
    &&& out.pid == process.pid
    &&& out.app_label == process.app_label
    &&& out.app_id == process.app_id
    &&& out.ui_version == process.ui_version
    &&& out.protocol_version == process.protocol_version
    &&& out.local_backend == route.mode
    &&& out.persist_error == workspace.persist_error
    &&& text::opt_string(out.local_backend_switch) == text::opt(route.switch)
    &&& match route.mode {
        LocalBackendMode::InProcess => {
            &&& (out.active_project_id, out.active_tab_id) == workspace.active
            &&& out.local_session_socket is None
        },
        LocalBackendMode::Session => {
            &&& (out.active_project_id, out.active_tab_id) == (match route.slot_active {
                Some(active) => active,
                None => (0i64, 0i64),
            })
            &&& out.local_session_socket == session_socket
        },
    }
    &&& out.instance_id == (if in_session {
        None
    } else {
        Some(process.instance_id)
    })
}

/// Says who a socket is. `session_socket` is where this user's session listens.
pub fn identify(
    process: Process,
    session: Option<&SessionInfo>,
    serving: &Serving,
    route: &LocalRoute,
    workspace: WorkspaceStatus,
    session_socket: Option<String>,
) -> (out: IdentifyResult)
    ensures
        says_who(process, session is Some, *route, workspace, session_socket, out),
        out.socket_path == process.socket_path,
        out.pid == process.pid,
        (out.active_project_id, out.active_tab_id) == (match route.mode {
            LocalBackendMode::InProcess => workspace.active,
            LocalBackendMode::Session => match route.slot_active {
                Some(active) => active,
                None => (0i64, 0i64),
            },
        }),
        out.app_label == process.app_label,
        out.app_id == process.app_id,
        out.ui_version == process.ui_version,
        out.protocol_version == process.protocol_version,
        out.local_backend == route.mode,
        out.local_session_socket == (match route.mode {
            LocalBackendMode::Session => session_socket,
            LocalBackendMode::InProcess => None,
        }),
        text::opt_string(out.local_backend_switch) == text::opt(route.switch),
        out.persist_error == workspace.persist_error,
        out.ops matches Some(list) && text::texts(list@) == served_names(
            info_of(session),
            *serving,
            *route,
        ),
        out.instance_id == (if session is Some {
            None
        } else {
            Some(process.instance_id)
        }),
{
    let active = identify_active(route.mode, route.slot_active, workspace.active);
    let switch: Option<String> = match route.switch {
        Some(phase) => Some(phase.to_owned()),
        None => None,
    };
    let is_session: bool = session.is_some();
    IdentifyResult {
        socket_path: process.socket_path,
        pid: process.pid,
        active_project_id: active.0,
        active_tab_id: active.1,
        app_label: process.app_label,
        app_id: process.app_id,
        ui_version: process.ui_version,
        protocol_version: process.protocol_version,
        local_backend: route.mode,
        local_session_socket: local_session_socket(route.mode, session_socket),
        local_backend_switch: switch,
        persist_error: workspace.persist_error,
        ops: Some(serves(session, serving, route)),
        instance_id: reported_instance(is_session, process.instance_id),
    }
}

/// The reply to a request for who a session is.
#[derive(Debug, PartialEq, Eq)]
pub struct SessionIdentify {
    pub app_version: String,
    pub session_protocol: u32,
    pub payload_kinds: Vec<String>,
    pub libghostty_build: String,
    pub session_id: String,
    pub started_at: String,
    pub persist_error: Option<String>,
    pub ops: Option<Vec<String>>,
}

/// Whether a reply says of a session what it is.
pub open spec fn says_which(
    info: SessionInfo,
    session_protocol: u32,
    persist_error: Option<String>,
    out: SessionIdentify,
) -> bool {
    &&& out.app_version@ == info.app_version@
    &&& out.session_protocol == session_protocol
    &&& text::texts(out.payload_kinds@) == text::texts(info.payload_kinds@)
    &&& out.libghostty_build@ == info.libghostty_build@
    &&& out.session_id@ == info.session_id@
    &&& out.started_at@ == info.started_at@
    &&& out.persist_error == persist_error
}

/// Says who a session is.
pub fn session_identify(
    info: &SessionInfo,
    session_protocol: u32,
    serving: &Serving,
    route: &LocalRoute,
    persist_error: Option<String>,
) -> (out: SessionIdentify)
    ensures
        says_which(*info, session_protocol, persist_error, out),
        out.app_version@ == info.app_version@,
        out.session_protocol == session_protocol,
        text::texts(out.payload_kinds@) == text::texts(info.payload_kinds@),
        out.libghostty_build@ == info.libghostty_build@,
        out.session_id@ == info.session_id@,
        out.started_at@ == info.started_at@,
        out.persist_error == persist_error,
        out.ops matches Some(list) && text::texts(list@) == served_names(
            Some(*info),
            *serving,
            *route,
        ),
{
    SessionIdentify {
        app_version: info.app_version.clone(),
        session_protocol,
        payload_kinds: copied(&info.payload_kinds),
        libghostty_build: info.libghostty_build.clone(),
        session_id: info.session_id.clone(),
        started_at: info.started_at.clone(),
        persist_error,
        ops: Some(serves(Some(info), serving, route)),
    }
}

/// What a socket says of a name is so: the name is listed exactly where the operation that goes
/// by it is served there.
pub proof fn law_a_listed_name_is_served(
    session: Option<SessionInfo>,
    serving: Serving,
    route: LocalRoute,
    op: Op,
)
    ensures
        served_names(session, serving, route).contains(op.wire()) <==> (match session {
            Some(info) => ops::serves(
                op,
                SocketKind::Session,
                info.test_mode,
                serving.has_ui,
                serving.build,
                serving.classes,
            ),
            None => ops::serves(
                op,
                SocketKind::Ui(route.mode),
                serving.test_mode,
                serving.has_ui,
                serving.build,
                serving.classes,
            ),
        }),
{
    let (socket, test_mode) = match session {
        Some(info) => (SocketKind::Session, info.test_mode),
        None => (SocketKind::Ui(route.mode), serving.test_mode),
    };
    let list = ops::served(
        ops::all_ops(),
        socket,
        test_mode,
        serving.has_ui,
        serving.build,
        serving.classes,
    );
    ops::law_a_socket_lists_what_it_serves(
        socket,
        test_mode,
        serving.has_ui,
        serving.build,
        serving.classes,
        op,
    );
    assert(wires(list) == served_names(session, serving, route));
    if list.contains(op) {
        let i = choose|i: int| 0 <= i < list.len() && list[i] == op;
        assert(wires(list)[i] == op.wire());
    }
    if wires(list).contains(op.wire()) {
        let i = choose|i: int| 0 <= i < wires(list).len() && wires(list)[i] == op.wire();
        ops::law_a_name_means_one_op(list[i], op);
        assert(list[i] == op);
    }
}

/// What a process says of itself is what it is: each part under its own name, what is in front
/// where its requests go, and its instance only where it is no session.
pub proof fn law_a_process_says_who_it_is(
    process: Process,
    route: LocalRoute,
    workspace: WorkspaceStatus,
    socket: Option<String>,
    in_session: bool,
    out: IdentifyResult,
)
    requires
        says_who(process, in_session, route, workspace, socket, out),
    ensures
        out.socket_path == process.socket_path && out.pid == process.pid,
        out.app_label == process.app_label && out.app_id == process.app_id,
        out.ui_version == process.ui_version,
        out.protocol_version == process.protocol_version,
        out.persist_error == workspace.persist_error,
        out.local_backend == route.mode,
        route.switch matches Some(switch) ==> (out.local_backend_switch matches Some(said) && said@
            == switch@),
        route.switch is None ==> out.local_backend_switch is None,
        route.mode is InProcess ==> out.active_project_id == workspace.active.0
            && out.active_tab_id == workspace.active.1 && out.local_session_socket is None,
        route.mode is Session ==> out.local_session_socket == socket,
        route.mode is Session ==> (route.slot_active matches Some(active) ==> out.active_project_id
            == active.0 && out.active_tab_id == active.1),
        route.mode is Session && route.slot_active is None ==> out.active_project_id == 0
            && out.active_tab_id == 0,
        in_session ==> out.instance_id is None,
        !in_session ==> out.instance_id == Some(process.instance_id),
{
}

/// What a session says of itself is what it is, each part under its own name.
pub proof fn law_a_session_says_which_it_is(
    info: SessionInfo,
    protocol: u32,
    persist_error: Option<String>,
    out: SessionIdentify,
)
    requires
        says_which(info, protocol, persist_error, out),
    ensures
        out.app_version@ == info.app_version@,
        out.session_protocol == protocol,
        text::texts(out.payload_kinds@) == text::texts(info.payload_kinds@),
        out.libghostty_build@ == info.libghostty_build@,
        out.session_id@ == info.session_id@,
        out.started_at@ == info.started_at@,
        out.persist_error == persist_error,
{
}

/// The names that are listed are those of the operations that are served, one by one and in
/// their order.
pub proof fn law_names_follow_their_operations(list: Seq<Op>, i: int)
    ensures
        wires(list).len() == list.len(),
        0 <= i < list.len() ==> wires(list)[i] == list[i].wire(),
{
}

} // verus!
