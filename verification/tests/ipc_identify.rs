use roost_engine::ipc::admission::SessionInfo;
use roost_engine::ipc::dispatch::LocalRoute;
use roost_engine::ipc::identify::{
    identify, identify_active, local_session_socket, reported_instance, serves, session_identify,
    IdentifyResult, Process, Serving, WorkspaceStatus,
};
use roost_engine::ipc::ops::{Build, LocalBackendMode, SlotClasses};

#[test]
fn identify_follows_where_the_tabs_live() {
    assert_eq!(identify_active(LocalBackendMode::InProcess, Some((1, 2)), (3, 4)), (3, 4));
    assert_eq!(identify_active(LocalBackendMode::Session, Some((1, 2)), (3, 4)), (1, 2));
    assert_eq!(identify_active(LocalBackendMode::Session, None, (3, 4)), (0, 0));
    let socket = || Some("/run/s.sock".to_string());
    assert_eq!(local_session_socket(LocalBackendMode::Session, socket()), socket());
    assert_eq!(local_session_socket(LocalBackendMode::InProcess, socket()), None);
    assert_eq!(reported_instance(false, "ab".into()), Some("ab".to_string()));
    assert_eq!(reported_instance(true, "ab".into()), None);
}

fn serving() -> Serving {
    Serving {
        test_mode: false,
        has_ui: true,
        build: Build { server_vt: true, macos: false },
        classes: SlotClasses {
            unsupported: Vec::new(),
            forwarded: Vec::new(),
            rewritten: Vec::new(),
        },
    }
}

fn session() -> SessionInfo {
    SessionInfo {
        session_id: "test".to_string(),
        started_at: "2026-08-27T14:03:11Z".to_string(),
        app_version: "9.9.9".to_string(),
        payload_kinds: vec!["vt".to_string(), "ghostty-snapshot".to_string()],
        libghostty_build: "abc".to_string(),
        default_tab_size: (120, 40),
        test_mode: false,
    }
}

const ACTIVE: (i64, i64) = (1, 2);

fn identify_of(session: Option<&SessionInfo>, route: &LocalRoute) -> IdentifyResult {
    let process = Process {
        socket_path: "/run/roost.sock".to_string(),
        pid: 77,
        app_label: "Roost-test".to_string(),
        app_id: "ai.stridelabs.Roost.test".to_string(),
        ui_version: "1.2.3".to_string(),
        protocol_version: 4,
        instance_id: "00000000000000ab".to_string(),
    };
    let workspace = WorkspaceStatus { active: ACTIVE, persist_error: Some("disk".to_string()) };
    let socket = Some("/run/session.sock".to_string());
    identify(process, session, &serving(), route, workspace, socket)
}

fn active(id: &IdentifyResult) -> (i64, i64) {
    (id.active_project_id, id.active_tab_id)
}

#[test]
fn identify_reports_the_in_process_backend_when_no_route_is_installed() {
    let id = identify_of(None, &LocalRoute::default());
    assert_eq!(id.local_backend, LocalBackendMode::InProcess);
    assert_eq!(id.local_session_socket, None);
    assert_eq!(active(&id), ACTIVE);
    assert_eq!((id.socket_path.as_str(), id.pid), ("/run/roost.sock", 77));
    assert_eq!(id.app_label, "Roost-test");
    assert_eq!(id.app_id, "ai.stridelabs.Roost.test");
    assert_eq!((id.ui_version.as_str(), id.protocol_version), ("1.2.3", 4));
    assert_eq!(id.persist_error.as_deref(), Some("disk"));
    assert_eq!(id.instance_id.as_deref(), Some("00000000000000ab"));
}

#[test]
fn identify_under_session_follows_the_route_cell() {
    let id = identify_of(
        None,
        &LocalRoute {
            mode: LocalBackendMode::Session,
            slot_host: Some(3),
            slot_active: Some((41, 42)),
            switch: None,
        },
    );
    assert_eq!(id.local_backend, LocalBackendMode::Session);
    assert_eq!(id.local_backend_switch, None, "nothing is switching");
    assert_eq!(active(&id), (41, 42));
    assert_eq!(id.local_session_socket.as_deref(), Some("/run/session.sock"));

    let id = identify_of(
        None,
        &LocalRoute {
            mode: LocalBackendMode::Session,
            slot_host: None,
            slot_active: None,
            switch: Some("replaying"),
        },
    );
    assert_eq!(active(&id), (0, 0));
    assert_eq!(id.local_backend_switch.as_deref(), Some("replaying"));
}

#[test]
fn a_session_sockets_identify_is_unchanged() {
    let id = identify_of(Some(&session()), &LocalRoute::default());
    assert_eq!(id.local_backend, LocalBackendMode::InProcess);
    assert_eq!(id.local_session_socket, None);
    assert_eq!(active(&id), ACTIVE);
    assert_eq!(id.instance_id, None, "a session goes by its own name");
}

#[test]
fn a_session_says_who_it_is() {
    let route = LocalRoute::default();
    let id = session_identify(&session(), 6, &serving(), &route, None);
    assert_eq!((id.app_version.as_str(), id.session_protocol), ("9.9.9", 6));
    assert_eq!(id.payload_kinds, ["vt", "ghostty-snapshot"]);
    assert_eq!((id.libghostty_build.as_str(), id.session_id.as_str()), ("abc", "test"));
    assert_eq!(id.started_at, "2026-08-27T14:03:11Z");
    assert_eq!(id.persist_error, None);
    let ops = id.ops.unwrap();
    assert_eq!(ops, serves(Some(&session()), &serving(), &route));
    assert!(ops.contains(&"session.identify".to_string()));
    assert!(!ops.contains(&"host.add".to_string()));
    assert!(!ops.contains(&"tab.feed_pty_bytes".to_string()), "no test mode");
}

#[test]
fn a_socket_lists_what_it_serves() {
    let ui = serves(None, &serving(), &LocalRoute::default());
    assert_eq!(ui.first().map(String::as_str), Some("identify"));
    assert!(ui.contains(&"host.add".to_string()));
    assert!(!ui.contains(&"session.stop".to_string()));
    assert_eq!(identify_of(None, &LocalRoute::default()).ops, Some(ui));
    let testing = SessionInfo { test_mode: true, ..session() };
    let route = LocalRoute::default();
    assert!(serves(Some(&testing), &serving(), &route).contains(&"tab.feed_pty_bytes".to_string()));
}
