use roost_engine::facade::{
    application_error, execute, resume, validate_dimension, Answer, CommandResult, EngineCommand,
    EngineError, EngineEventStream, EngineSnapshot, ExecuteStep, Received, StreamStep, TabOpenParams,
    Waiting, Work,
};
use roost_engine::pty::PtyError;
use roost_engine::workspace::{
    ApplicationError, Project, Tab, WorkspaceError, WorkspaceErrorKind,
};

fn workspace(kind: WorkspaceErrorKind, message: &str) -> WorkspaceError {
    WorkspaceError { kind, message: message.to_string() }
}

fn open(cols: u32, rows: u32) -> TabOpenParams {
    TabOpenParams {
        project_id: 3,
        cwd: String::new(),
        cwd_from_tab: None,
        title: String::new(),
        argv: Vec::new(),
        cols,
        rows,
    }
}

#[test]
fn deterministic_error_code_does_not_expose_error_layout() {
    let missing = workspace(WorkspaceErrorKind::TabNotFound, "tab 404 not found");
    let step = resume(
        Waiting::Selection,
        Answer::Selection(Err(ApplicationError::Workspace(missing))),
    );
    let error = match step {
        ExecuteStep::Finish(Err(error)) => error,
        other => panic!("not an error: {other:?}"),
    };
    assert_eq!(error.code(), "tab_not_found");
    assert_eq!(error.message(), "tab 404 not found");

    let project = workspace(WorkspaceErrorKind::ProjectNotFound, "project 999 not found");
    assert_eq!(
        application_error(ApplicationError::Workspace(project)).code(),
        "project_not_found"
    );

    let error = match execute(EngineCommand::TabOpen(open(u32::MAX, 0))) {
        ExecuteStep::Finish(Err(error)) => error,
        other => panic!("not an error: {other:?}"),
    };
    assert_eq!(error.code(), "invalid_argument");
    assert_eq!(
        error.message(),
        "invalid engine command: cols out of u16 range: 4294967295"
    );
}

#[test]
fn every_error_has_its_code() {
    let table = [
        (WorkspaceErrorKind::TabProjectMismatch, "tab_project_mismatch"),
        (WorkspaceErrorKind::Io, "io_error"),
        (WorkspaceErrorKind::Json, "invalid_state"),
    ];
    for (kind, code) in table {
        assert_eq!(EngineError::Workspace(workspace(kind, "x")).code(), code);
    }
    assert_eq!(EngineError::Pty(PtyError::NotFound(1)).code(), "tab_not_found");
    assert_eq!(EngineError::Pty(PtyError::Closed(1)).code(), "tab_not_found");
    assert_eq!(EngineError::Pty(PtyError::Cancelled(1)).code(), "cancelled");
    assert_eq!(EngineError::Pty(PtyError::DuplicateTab(1)).code(), "duplicate_tab");
    let failed = application_error(ApplicationError::Operation("pty spawn failed".to_string()));
    assert_eq!(failed.code(), "operation_failed");
    assert_eq!(failed.message(), "engine operation failed: pty spawn failed");
    assert_eq!(
        EngineError::Pty(PtyError::Closed(1)).message(),
        "pty for tab 1 is closed"
    );
    assert_eq!(validate_dimension(0, "rows"), Ok(()));
    assert_eq!(
        validate_dimension(65536, "rows"),
        Err(EngineError::InvalidArgument("rows out of u16 range: 65536".to_string()))
    );
}

#[test]
fn a_close_removes_the_row_and_then_the_session() {
    assert_eq!(
        execute(EngineCommand::TabClose { tab_id: 7 }),
        ExecuteStep::Do(Work::RemoveRow { tab_id: 7 }, Waiting::RowRemoved(7))
    );
    let missing = || {
        Err(ApplicationError::Workspace(workspace(WorkspaceErrorKind::TabNotFound, "gone")))
    };
    assert_eq!(
        resume(Waiting::RowRemoved(7), Answer::Done(missing())),
        ExecuteStep::Do(Work::CloseSession { tab_id: 7 }, Waiting::SessionClosed(missing()))
    );
    let last = resume(Waiting::SessionClosed(missing()), Answer::Done(Ok(())));
    assert!(matches!(last, ExecuteStep::Finish(Err(EngineError::Workspace(_)))));
    assert_eq!(
        resume(Waiting::SessionClosed(Ok(())), Answer::Done(Ok(()))),
        ExecuteStep::Finish(Ok(CommandResult::Ack))
    );
}

#[test]
fn a_deleted_project_closes_every_session_of_its_tabs() {
    assert_eq!(
        execute(EngineCommand::ProjectDelete { project_id: 3 }),
        ExecuteStep::Do(Work::DeleteProject { project_id: 3 }, Waiting::Deleted)
    );
    assert_eq!(
        resume(Waiting::Deleted, Answer::Deleted(Ok(vec![4, 5]))),
        ExecuteStep::Do(
            Work::CloseSessions { tab_ids: vec![4, 5] },
            Waiting::Closing(vec![4, 5])
        )
    );
    assert_eq!(
        resume(Waiting::Closing(vec![4, 5]), Answer::Done(Ok(()))),
        ExecuteStep::Finish(Ok(CommandResult::DeletedTabs(vec![4, 5])))
    );
}

#[test]
fn a_shutdown_flushes_and_then_closes_everything() {
    assert_eq!(
        execute(EngineCommand::Shutdown),
        ExecuteStep::Do(Work::Flush, Waiting::Flushed)
    );
    assert_eq!(
        resume(Waiting::Flushed, Answer::Done(Ok(()))),
        ExecuteStep::Do(Work::ListTabs, Waiting::Listed)
    );
    assert_eq!(
        resume(Waiting::Listed, Answer::Tabs(vec![1, 2])),
        ExecuteStep::Do(
            Work::CloseSessions { tab_ids: vec![1, 2] },
            Waiting::SessionClosed(Ok(()))
        )
    );
}

#[test]
fn sizes_are_filled_in_before_anything_is_asked() {
    match execute(EngineCommand::TabOpen(open(0, 50))) {
        ExecuteStep::Do(Work::OpenTab { cols, rows, .. }, Waiting::Tab) => {
            assert_eq!((cols, rows), (80, 50));
        }
        other => panic!("not an open: {other:?}"),
    }
    assert_eq!(
        execute(EngineCommand::TabResize { tab_id: 1, cols: 0, rows: 0 }),
        ExecuteStep::Do(Work::Resize { tab_id: 1, cols: 80, rows: 24 }, Waiting::Ack)
    );
    assert!(matches!(
        execute(EngineCommand::TabResize { tab_id: 1, cols: 1, rows: 65536 }),
        ExecuteStep::Finish(Err(EngineError::InvalidArgument(_)))
    ));
}

#[test]
fn results_carry_what_the_workspace_answered() {
    let project = || Project { id: 1, name: "one".into(), cwd: "/tmp".into(), tabs: Vec::new() };
    let tab = || Tab { id: 9, project_id: 1, title: "t".into(), cwd: "/".into() };
    assert_eq!(
        resume(Waiting::Project, Answer::Project(Ok(project()))),
        ExecuteStep::Finish(Ok(CommandResult::Project(project())))
    );
    assert_eq!(
        resume(Waiting::Tab, Answer::Tab(Ok(tab()))),
        ExecuteStep::Finish(Ok(CommandResult::Tab(tab())))
    );
    assert_eq!(
        resume(Waiting::Selection, Answer::Selection(Ok((3, 4)))),
        ExecuteStep::Finish(Ok(CommandResult::PreviousSelection {
            previous_project_id: 3,
            previous_tab_id: 4,
        }))
    );
    assert_eq!(
        resume(Waiting::Report, Answer::Report(Ok((true, tab())))),
        ExecuteStep::Finish(Ok(CommandResult::AgentReport { accepted: true, tab: tab() }))
    );
    assert_eq!(
        execute(EngineCommand::TabClearNotification { tab_id: 9 }),
        ExecuteStep::Do(Work::SetNotification { tab_id: 9, pending: false }, Waiting::Ack)
    );
}

#[test]
fn a_stream_starts_with_everything_and_goes_on_in_order() {
    let mut stream = EngineEventStream::new();
    assert_eq!(stream.recv(), StreamStep::Snapshot);
    stream.resync(5);
    assert_eq!(stream.recv(), StreamStep::Receive);
    assert_eq!(stream.received(Received::Item { revision: 4 }), StreamStep::Receive);
    assert_eq!(stream.received(Received::Item { revision: 5 }), StreamStep::Receive);
    let next = Received::Item { revision: 6 };
    assert_eq!(stream.received(next), StreamStep::Delta { revision: 6 });
    // A second change of the same commit follows.
    assert_eq!(stream.received(next), StreamStep::Delta { revision: 6 });
    // An older one is passed over, and a gap brings everything anew.
    assert_eq!(stream.received(Received::Item { revision: 5 }), StreamStep::Receive);
    assert_eq!(stream.received(Received::Item { revision: 8 }), StreamStep::Snapshot);
}

#[test]
fn slow_consumer_recovers_with_full_resync() {
    let mut stream = EngineEventStream::new();
    stream.resync(0);
    assert_eq!(stream.received(Received::Lagged), StreamStep::Snapshot);
    let snapshot = EngineSnapshot::of(300, Vec::new(), 1, 2, false);
    assert_eq!(snapshot.revision, 300);
    assert_eq!(snapshot.schema_version, 1);
    stream.resync(snapshot.revision);
    assert_eq!(stream.received(Received::Item { revision: 300 }), StreamStep::Receive);
    assert_eq!(stream.received(Received::Closed), StreamStep::End);
}
