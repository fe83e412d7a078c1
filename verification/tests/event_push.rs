use roost_engine::event_push::{
    batch_value, envelope, starts_from, Delivery, EventData, EventName, FullFeed, PushLimits, Relay, DEFAULT_PUSH_STALL,
    RelayAction, RelayEvent,
};
use roost_engine::workspace::{
    AgentReport, Project, Tab, TabEffectKind, VersionedWorkspaceEvent, WorkspaceEvent,
};

fn bell(tab_id: i64) -> WorkspaceEvent {
    WorkspaceEvent::TabEffect { tab_id, effect: TabEffectKind::Bell }
}

fn names(batch: &VersionedWorkspaceEvent, driver: bool) -> Vec<EventName> {
    batch_value(batch, driver)
        .expect("a wire form")
        .events
        .iter()
        .map(|e| e.event)
        .collect()
}

#[test]
fn an_observer_loses_the_effect_and_keeps_the_revision() {
    let commit = VersionedWorkspaceEvent {
        revision: 12,
        events: vec![
            bell(5),
            WorkspaceEvent::NotificationFired { tab_id: 5, title: "t".into(), body: "b".into() },
        ],
    };
    assert_eq!(
        names(&commit, true),
        vec![EventName::TabEffect, EventName::NotificationFired]
    );
    assert_eq!(batch_value(&commit, false).unwrap().revision, 12);
    assert_eq!(names(&commit, false), vec![EventName::NotificationFired]);
}

#[test]
fn a_wholly_filtered_commit_ships_as_an_empty_batch() {
    let commit = VersionedWorkspaceEvent {
        revision: 3,
        events: vec![WorkspaceEvent::TabEffect {
            tab_id: 1,
            effect: TabEffectKind::ClipboardWrite { text: "secret".into(), primary: false },
        }],
    };
    let observer = batch_value(&commit, false).expect("a wire form");
    assert_eq!(observer.revision, 3);
    assert!(observer.events.is_empty());
}

#[test]
fn a_recovery_snapshot_closes_the_stream() {
    let commit = VersionedWorkspaceEvent {
        revision: 4,
        events: vec![WorkspaceEvent::TabClosed { tab_id: 1 }, WorkspaceEvent::Resync(Vec::new())],
    };
    assert_eq!(batch_value(&commit, true), None);
    assert_eq!(FullFeed.deliver(&commit).0, Delivery::End);
    let plain = VersionedWorkspaceEvent {
        revision: 5,
        events: vec![WorkspaceEvent::TabClosed { tab_id: 1 }],
    };
    let (delivery, sent) = FullFeed.deliver(&plain);
    assert_eq!(delivery, Delivery::Delivered);
    assert_eq!(sent.unwrap().revision, 5);
}

#[test]
fn every_event_has_its_name() {
    let agent = AgentReport {
        shell_state: "idle".into(),
        lifecycle: "working".into(),
        ownership: None,
        state: "busy".into(),
        hook_active: true,
    };
    let tab = || Tab { id: 1, project_id: 2, title: "t".into(), cwd: "/".into() };
    let project = || Project { id: 2, name: "p".into(), cwd: "/".into(), tabs: Vec::new() };
    let table = [
        (WorkspaceEvent::TabOpened(tab()), EventName::TabOpened),
        (WorkspaceEvent::TabClosed { tab_id: 1 }, EventName::TabClosed),
        (
            WorkspaceEvent::TabStateChanged { tab_id: 1, state: "s".into() },
            EventName::TabStateChanged,
        ),
        (
            WorkspaceEvent::TabTitleChanged { tab_id: 1, title: "s".into() },
            EventName::TabTitleChanged,
        ),
        (WorkspaceEvent::TabCwdChanged { tab_id: 1, cwd: "/".into() }, EventName::TabCwdChanged),
        (
            WorkspaceEvent::TabNotification { tab_id: 1, has_pending: true },
            EventName::TabNotification,
        ),
        (WorkspaceEvent::ProjectCreated(project()), EventName::ProjectCreated),
        (
            WorkspaceEvent::ProjectRenamed { project_id: 2, name: "q".into() },
            EventName::ProjectRenamed,
        ),
        (WorkspaceEvent::ProjectDeleted { project_id: 2 }, EventName::ProjectDeleted),
        (WorkspaceEvent::ActiveChanged { project_id: 2, tab_id: 1 }, EventName::ActiveChanged),
        (
            WorkspaceEvent::HookActiveChanged { tab_id: 1, active: false },
            EventName::HookActiveChanged,
        ),
        (WorkspaceEvent::AgentChanged { tab_id: 1, agent }, EventName::AgentReportChanged),
        (
            WorkspaceEvent::TabsReordered { project_id: 2, tab_ids: vec![1] },
            EventName::TabsReordered,
        ),
        (bell(1), EventName::TabEffect),
        (
            WorkspaceEvent::ProjectsReordered { project_ids: vec![2] },
            EventName::ProjectsReordered,
        ),
    ];
    for (event, name) in &table {
        assert_eq!(envelope(event).unwrap().event, *name);
    }
    let clip = WorkspaceEvent::TabEffect {
        tab_id: 9,
        effect: TabEffectKind::ClipboardWrite { text: "hi".into(), primary: true },
    };
    match envelope(&clip).unwrap().data {
        EventData::ClipboardWrite { tab_id, text, primary } => {
            assert_eq!((tab_id, text.as_str(), primary), (9, "hi", true));
        }
        other => panic!("not a clipboard write: {other:?}"),
    }
}

#[test]
fn the_fence_drops_its_own_revision_and_keeps_the_next() {
    let (mut relay, first) = Relay::begin(0, 7);
    assert_eq!(first, RelayAction::Wait);
    assert_eq!(relay.step(RelayEvent::Commit { revision: 6 }), RelayAction::Wait);
    assert_eq!(relay.step(RelayEvent::Commit { revision: 7 }), RelayAction::Wait);
    assert_eq!(relay.step(RelayEvent::Commit { revision: 8 }), RelayAction::OfferReceived);
    assert_eq!(relay.step(RelayEvent::Gate(Delivery::Delivered)), RelayAction::Wait);
    assert_eq!(relay.step(RelayEvent::Commit { revision: 9 }), RelayAction::OfferReceived);
    assert_eq!(relay.step(RelayEvent::Gate(Delivery::Delivered)), RelayAction::Wait);
    assert_eq!(relay.step(RelayEvent::Closed), RelayAction::Stop);
}

#[test]
fn a_dropped_receiver_ends_the_relay_without_a_commit() {
    let (mut relay, _) = Relay::begin(0, 0);
    assert_eq!(relay.step(RelayEvent::HungUp), RelayAction::Stop);
}

#[test]
fn a_cut_drains_its_replay_before_its_live_batches() {
    let (mut relay, first) = Relay::begin(2, 9);
    assert_eq!(first, RelayAction::OfferReplayed(0));
    assert_eq!(
        relay.step(RelayEvent::Gate(Delivery::Delivered)),
        RelayAction::OfferReplayed(1)
    );
    assert_eq!(relay.step(RelayEvent::Gate(Delivery::Delivered)), RelayAction::Wait);
    assert_eq!(relay.step(RelayEvent::Commit { revision: 9 }), RelayAction::Wait);
    assert_eq!(relay.step(RelayEvent::Commit { revision: 10 }), RelayAction::OfferReceived);
}

#[test]
fn a_notice_parked_mid_replay_precedes_the_batch_it_reclassifies() {
    let (mut relay, _) = Relay::begin(2, 2);
    assert_eq!(
        relay.step(RelayEvent::Gate(Delivery::Delivered)),
        RelayAction::OfferReplayed(1)
    );
    assert_eq!(
        relay.step(RelayEvent::Gate(Delivery::NoticeSentRetryBatch)),
        RelayAction::OfferReplayed(1),
        "the interrupted commit is offered again"
    );
    assert_eq!(relay.step(RelayEvent::Gate(Delivery::Delivered)), RelayAction::Wait);
    let second = VersionedWorkspaceEvent { revision: 2, events: vec![bell(1)] };
    assert!(batch_value(&second, false).unwrap().events.is_empty());
}

#[test]
fn a_live_lag_during_a_replay_closes_and_the_next_cut_continues() {
    let (mut relay, _) = Relay::begin(1, 3);
    relay.step(RelayEvent::Gate(Delivery::Delivered));
    assert_eq!(relay.step(RelayEvent::Lagged), RelayAction::Stop);
    assert_eq!(starts_from(Some(4), 5), 3, "the ack is what the client has");
    assert_eq!(starts_from(None, 5), 5);
    assert_eq!(starts_from(Some(0), 5), 0);
}

#[test]
fn a_stalled_subscriber_is_dropped() {
    let (mut relay, _) = Relay::begin(1, 3);
    assert_eq!(relay.step(RelayEvent::Stalled), RelayAction::Stop);
    assert_eq!(DEFAULT_PUSH_STALL, 30_000_000_000);
    let limits = PushLimits::stretched(DEFAULT_PUSH_STALL * 2);
    assert_eq!(limits, PushLimits { capacity: 256, stall: 60_000_000_000 });
    assert_eq!(PushLimits { capacity: 0, stall: 1 }.depth(), 1);
    assert_eq!(PushLimits { capacity: 8, stall: 1 }.depth(), 8);
}
