use roost_engine::single_instance::{
    acquire, acquire_locks, pid_line, read_pid, same_file, AcquireError, Held, LocksError, LocksPhase,
    LocksStep, TryLock,
};

fn path() -> String {
    "/run/roost.lock".to_string()
}

#[test]
fn first_acquire_succeeds() {
    assert_eq!(acquire(TryLock::Locked), Ok(()));
    assert_eq!(pid_line(4242), "4242\n");
}

#[test]
fn second_acquire_is_already_held() {
    let held = TryLock::WouldBlock { contents: Some(" 4242\n".to_string()) };
    assert_eq!(acquire(held), Err(AcquireError::AlreadyHeld(4242)));
    let unreadable = TryLock::WouldBlock { contents: None };
    assert_eq!(acquire(unreadable), Err(AcquireError::AlreadyHeld(0)));
    assert_eq!(
        acquire(TryLock::Failed("denied".to_string())),
        Err(AcquireError::Io("denied".to_string()))
    );
    assert_eq!(read_pid(Some("not a pid")), 0);
    assert_eq!(read_pid(Some("99999999999")), 0);
    assert_eq!(read_pid(Some("-3")), -3);
}

#[test]
fn same_state_dir_with_different_runtime_dirs_contends() {
    assert_eq!(acquire_locks(LocksPhase::Socket, Ok(()), path(), false), LocksStep::TryState);
    assert_eq!(
        acquire_locks(LocksPhase::State, Err(AcquireError::AlreadyHeld(9)), path(), false),
        LocksStep::ReleaseAndFail(LocksError::StateHeld { pid: 9, path: path() })
    );
}

#[test]
fn same_socket_with_different_state_dirs_contends() {
    assert_eq!(
        acquire_locks(LocksPhase::Socket, Err(AcquireError::AlreadyHeld(9)), path(), false),
        LocksStep::Fail(LocksError::SocketHeld { pid: 9, path: path() })
    );
    assert_eq!(
        acquire_locks(LocksPhase::Socket, Err(AcquireError::Io("x".into())), path(), false),
        LocksStep::Fail(LocksError::Io { path: path(), source: "x".to_string() })
    );
}

#[test]
fn refusing_on_the_state_lock_releases_the_socket_lock() {
    assert_eq!(
        acquire_locks(LocksPhase::State, Err(AcquireError::Io("x".into())), path(), false),
        LocksStep::ReleaseAndFail(LocksError::Io { path: path(), source: "x".to_string() })
    );
}

#[test]
fn one_shared_path_degrades_to_a_single_acquisition() {
    assert!(same_file("/run/roost.lock", "/run/roost.lock", None, None));
    assert_eq!(
        acquire_locks(LocksPhase::Socket, Ok(()), path(), true),
        LocksStep::Done(Held::Shared)
    );
}

#[test]
fn a_symlinked_state_dir_degrades_to_a_single_acquisition() {
    assert!(same_file("/state/x.lock", "/run/x.lock", Some("/real"), Some("/real")));
    assert!(!same_file("/state/x.lock", "/run/y.lock", Some("/real"), Some("/real")));
    assert!(!same_file("/state/x.lock", "/run/x.lock", None, Some("/real")));
    assert!(same_file("/run//./x.lock/", "/run/x.lock", None, None));
    assert!(!same_file("run/x.lock", "/run/x.lock", None, None));
}

#[test]
fn distinct_paths_take_both_locks() {
    assert_eq!(
        acquire_locks(LocksPhase::State, Ok(()), path(), false),
        LocksStep::Done(Held::Both)
    );
}

#[test]
fn lock_errors_in_words() {
    assert_eq!(
        AcquireError::AlreadyHeld(42).message(),
        "another instance is alive (pid 42)"
    );
    assert_eq!(AcquireError::Io("denied".into()).message(), "io: denied");
    assert_eq!(
        LocksError::SocketHeld { pid: 42, path: path() }.message(),
        "another instance owns the socket (pid 42); lock: /run/roost.lock"
    );
    assert_eq!(
        LocksError::StateHeld { pid: 42, path: path() }.message(),
        "another instance owns this state directory (pid 42); lock: /run/roost.lock"
    );
    assert_eq!(
        LocksError::Io { path: path(), source: "denied".into() }.message(),
        "lock /run/roost.lock: denied"
    );
}
