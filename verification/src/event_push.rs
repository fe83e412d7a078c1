//! Pushing commits to subscribers: the wire form of a commit, and the relay that hands
//! commits on in order or closes the stream.
use crate::workspace::{
    Project, Tab, TabEffectKind, VersionedWorkspaceEvent, WorkspaceEvent,
};
use vstd::prelude::*;

verus! {

/// How many commits may wait for one subscriber.
pub const DEFAULT_PUSH_CAPACITY: usize = 256;

/// How long delivery may be stuck before a subscriber is dropped, in nanoseconds.
pub const DEFAULT_PUSH_STALL: u64 = 30_000_000_000;

/// The names of the events on the wire.
#[derive(Clone, Copy, Debug, PartialEq, Eq, Structural)]
pub enum EventName {
    TabOpened,
    TabClosed,
    TabStateChanged,
    TabTitleChanged,
    TabCwdChanged,
    TabNotification,
    ProjectCreated,
    ProjectRenamed,
    ProjectDeleted,
    ActiveChanged,
    HookActiveChanged,
    AgentReportChanged,
    NotificationFired,
    TabsReordered,
    TabEffect,
    ProjectsReordered,
}

/// What an event carries on the wire.
#[derive(Debug, PartialEq, Eq)]
pub enum EventData<'a> {
    Tab { tab: &'a Tab },
    TabId { tab_id: i64 },
    TabState { tab_id: i64, state: &'a String },
    TabTitle { tab_id: i64, title: &'a String },
    TabCwd { tab_id: i64, cwd: &'a String },
    Pending { tab_id: i64, has_pending: bool },
    Project { project: &'a Project },
    ProjectName { project_id: i64, name: &'a String },
    ProjectId { project_id: i64 },
    Selection { project_id: i64, tab_id: i64 },
    HookActive { tab_id: i64, active: bool },
    Agent {
        tab_id: i64,
        shell_state: &'a String,
        agent_lifecycle: &'a String,
        ownership: &'a Option<String>,
        state: &'a String,
        hook_active: bool,
    },
    Notification { tab_id: i64, title: &'a String, body: &'a String },
    TabOrder { project_id: i64, tab_ids: &'a Vec<i64> },
    Bell { tab_id: i64 },
    ClipboardWrite { tab_id: i64, text: &'a String, primary: bool },
    ProjectOrder { project_ids: &'a Vec<i64> },
}

/// One event on the wire.
#[derive(Debug, PartialEq, Eq)]
pub struct EventEnvelope<'a> {
    pub event: EventName,
    pub data: EventData<'a>,
}

/// One commit on the wire.
#[derive(Debug, PartialEq, Eq)]
pub struct EventBatch<'a> {
    pub revision: u64,
    pub events: Vec<EventEnvelope<'a>>,
}

/// The wire form of an event. A recovery snapshot has none: on the wire a closed stream says
/// the same.
pub open spec fn wire<'a>(event: &'a WorkspaceEvent) -> Option<EventEnvelope<'a>> {
    match event {
        WorkspaceEvent::TabOpened(tab) => Some(
            EventEnvelope {
                event: EventName::TabOpened,
                data: EventData::Tab { tab },
            },
        ),
        WorkspaceEvent::TabClosed { tab_id } => Some(
            EventEnvelope {
                event: EventName::TabClosed,
                data: EventData::TabId { tab_id: *tab_id },
            },
        ),
        WorkspaceEvent::TabStateChanged { tab_id, state } => Some(
            EventEnvelope {
                event: EventName::TabStateChanged,
                data: EventData::TabState { tab_id: *tab_id, state },
            },
        ),
        WorkspaceEvent::TabTitleChanged { tab_id, title } => Some(
            EventEnvelope {
                event: EventName::TabTitleChanged,
                data: EventData::TabTitle { tab_id: *tab_id, title },
            },
        ),
        WorkspaceEvent::TabCwdChanged { tab_id, cwd } => Some(
            EventEnvelope {
                event: EventName::TabCwdChanged,
                data: EventData::TabCwd { tab_id: *tab_id, cwd },
            },
        ),
        WorkspaceEvent::TabNotification { tab_id, has_pending } => Some(
            EventEnvelope {
                event: EventName::TabNotification,
                data: EventData::Pending { tab_id: *tab_id, has_pending: *has_pending },
            },
        ),
        WorkspaceEvent::ProjectCreated(project) => Some(
            EventEnvelope {
                event: EventName::ProjectCreated,
                data: EventData::Project { project },
            },
        ),
        WorkspaceEvent::ProjectRenamed { project_id, name } => Some(
            EventEnvelope {
                event: EventName::ProjectRenamed,
                data: EventData::ProjectName { project_id: *project_id, name },
            },
        ),
        WorkspaceEvent::ProjectDeleted { project_id } => Some(
            EventEnvelope {
                event: EventName::ProjectDeleted,
                data: EventData::ProjectId { project_id: *project_id },
            },
        ),
        WorkspaceEvent::ActiveChanged { project_id, tab_id } => Some(
            EventEnvelope {
                event: EventName::ActiveChanged,
                data: EventData::Selection { project_id: *project_id, tab_id: *tab_id },
            },
        ),
        WorkspaceEvent::HookActiveChanged { tab_id, active } => Some(
            EventEnvelope {
                event: EventName::HookActiveChanged,
                data: EventData::HookActive { tab_id: *tab_id, active: *active },
            },
        ),
        WorkspaceEvent::AgentChanged { tab_id, agent } => Some(
            EventEnvelope {
                event: EventName::AgentReportChanged,
                data: EventData::Agent {
                        tab_id: *tab_id,
                        shell_state: &agent.shell_state,
                        agent_lifecycle: &agent.lifecycle,
                        ownership: &agent.ownership,
                        state: &agent.state,
                        hook_active: agent.hook_active,
                },
            },
        ),
        WorkspaceEvent::NotificationFired { tab_id, title, body } => Some(
            EventEnvelope {
                event: EventName::NotificationFired,
                data: EventData::Notification { tab_id: *tab_id, title, body },
            },
        ),
        WorkspaceEvent::TabsReordered { project_id, tab_ids } => Some(
            EventEnvelope {
                event: EventName::TabsReordered,
                data: EventData::TabOrder { project_id: *project_id, tab_ids },
            },
        ),
        WorkspaceEvent::TabEffect { tab_id, effect: TabEffectKind::Bell } => Some(
            EventEnvelope {
                event: EventName::TabEffect,
                data: EventData::Bell { tab_id: *tab_id },
            },
        ),
        WorkspaceEvent::TabEffect { tab_id, effect: TabEffectKind::ClipboardWrite { text, primary } } => Some(
            EventEnvelope {
                event: EventName::TabEffect,
                data: EventData::ClipboardWrite { tab_id: *tab_id, text, primary: *primary },
            },
        ),
        WorkspaceEvent::ProjectsReordered { project_ids } => Some(
            EventEnvelope {
                event: EventName::ProjectsReordered,
                data: EventData::ProjectOrder { project_ids },
            },
        ),
        WorkspaceEvent::Resync(_) => None,
    }
}

/// The wire form of an event, or none where the stream must close.
pub fn envelope<'a>(event: &'a WorkspaceEvent) -> (out: Option<EventEnvelope<'a>>)
    ensures
        out == wire(event),
{
    match event {
        WorkspaceEvent::TabOpened(tab) => Some(
            EventEnvelope {
                event: EventName::TabOpened,
                data: EventData::Tab { tab },
            },
        ),
        WorkspaceEvent::TabClosed { tab_id } => Some(
            EventEnvelope {
                event: EventName::TabClosed,
                data: EventData::TabId { tab_id: *tab_id },
            },
        ),
        WorkspaceEvent::TabStateChanged { tab_id, state } => Some(
            EventEnvelope {
                event: EventName::TabStateChanged,
                data: EventData::TabState { tab_id: *tab_id, state },
            },
        ),
        WorkspaceEvent::TabTitleChanged { tab_id, title } => Some(
            EventEnvelope {
                event: EventName::TabTitleChanged,
                data: EventData::TabTitle { tab_id: *tab_id, title },
            },
        ),
        WorkspaceEvent::TabCwdChanged { tab_id, cwd } => Some(
            EventEnvelope {
                event: EventName::TabCwdChanged,
                data: EventData::TabCwd { tab_id: *tab_id, cwd },
            },
        ),
        WorkspaceEvent::TabNotification { tab_id, has_pending } => Some(
            EventEnvelope {
                event: EventName::TabNotification,
                data: EventData::Pending { tab_id: *tab_id, has_pending: *has_pending },
            },
        ),
        WorkspaceEvent::ProjectCreated(project) => Some(
            EventEnvelope {
                event: EventName::ProjectCreated,
                data: EventData::Project { project },
            },
        ),
        WorkspaceEvent::ProjectRenamed { project_id, name } => Some(
            EventEnvelope {
                event: EventName::ProjectRenamed,
                data: EventData::ProjectName { project_id: *project_id, name },
            },
        ),
        WorkspaceEvent::ProjectDeleted { project_id } => Some(
            EventEnvelope {
                event: EventName::ProjectDeleted,
                data: EventData::ProjectId { project_id: *project_id },
            },
        ),
        WorkspaceEvent::ActiveChanged { project_id, tab_id } => Some(
            EventEnvelope {
                event: EventName::ActiveChanged,
                data: EventData::Selection { project_id: *project_id, tab_id: *tab_id },
            },
        ),
        WorkspaceEvent::HookActiveChanged { tab_id, active } => Some(
            EventEnvelope {
                event: EventName::HookActiveChanged,
                data: EventData::HookActive { tab_id: *tab_id, active: *active },
            },
        ),
        WorkspaceEvent::AgentChanged { tab_id, agent } => Some(
            EventEnvelope {
                event: EventName::AgentReportChanged,
                data: EventData::Agent {
                        tab_id: *tab_id,
                        shell_state: &agent.shell_state,
                        agent_lifecycle: &agent.lifecycle,
                        ownership: &agent.ownership,
                        state: &agent.state,
                        hook_active: agent.hook_active,
                },
            },
        ),
        WorkspaceEvent::NotificationFired { tab_id, title, body } => Some(
            EventEnvelope {
                event: EventName::NotificationFired,
                data: EventData::Notification { tab_id: *tab_id, title, body },
            },
        ),
        WorkspaceEvent::TabsReordered { project_id, tab_ids } => Some(
            EventEnvelope {
                event: EventName::TabsReordered,
                data: EventData::TabOrder { project_id: *project_id, tab_ids },
            },
        ),
        WorkspaceEvent::TabEffect { tab_id, effect: TabEffectKind::Bell } => Some(
            EventEnvelope {
                event: EventName::TabEffect,
                data: EventData::Bell { tab_id: *tab_id },
            },
        ),
        WorkspaceEvent::TabEffect { tab_id, effect: TabEffectKind::ClipboardWrite { text, primary } } => Some(
            EventEnvelope {
                event: EventName::TabEffect,
                data: EventData::ClipboardWrite { tab_id: *tab_id, text, primary: *primary },
            },
        ),
        WorkspaceEvent::ProjectsReordered { project_ids } => Some(
            EventEnvelope {
                event: EventName::ProjectsReordered,
                data: EventData::ProjectOrder { project_ids },
            },
        ),
        WorkspaceEvent::Resync(_) => None,
    }
}

/// Whether a stream is shown an event. Bells and clipboard writes are for the client that
/// drives the session; everything else is for every watcher.
pub open spec fn shown(event: WorkspaceEvent, driver: bool) -> bool {
    driver || !(event is TabEffect)
}

/// The events of a commit that a stream is shown, on the wire; none at all where one of them
/// has no wire form.
pub open spec fn wire_events<'a>(events: Seq<WorkspaceEvent>, driver: bool) -> Option<
    Seq<EventEnvelope<'a>>,
>
    decreases events.len(),
{
    if events.len() == 0 {
        Some(seq![])
    } else {
        match wire_events(events.drop_last(), driver) {
            None => None,
            Some(before) => if !shown(events.last(), driver) {
                Some(before)
            } else {
                match wire(&events.last()) {
                    None => None,
                    Some(envelope) => Some(before.push(envelope)),
                }
            },
        }
    }
}

proof fn lemma_unpushable(events: Seq<WorkspaceEvent>, driver: bool, n: int)
    requires
        0 <= n <= events.len(),
        wire_events(events.take(n), driver) is None,
    ensures
        wire_events(events, driver) is None,
    decreases events.len() - n,
{
    if n < events.len() {
        assert(events.take(n + 1).drop_last() =~= events.take(n));
        lemma_unpushable(events, driver, n + 1);
    } else {
        assert(events.take(n) =~= events);
    }
}

/// A commit's wire form for a stream, or none where the stream must close. A commit of which
/// nothing is shown still has one: it carries the revision, and a client that counts
/// revisions would take its absence for a loss.
pub fn batch_value<'a>(batch: &'a VersionedWorkspaceEvent, driver: bool) -> (out: Option<
    EventBatch<'a>,
>)
    ensures
        match wire_events(batch.events@, driver) {
            None => out is None,
            Some(events) => out is Some && out->0.revision == batch.revision && out->0.events@
                == events,
        },
{
    let mut events: Vec<EventEnvelope<'a>> = Vec::new();
    let mut i: usize = 0;
    assert(batch.events@.take(0) =~= seq![]);
    while i < batch.events.len()
        invariant
            i <= batch.events@.len(),
            wire_events(batch.events@.take(i as int), driver) == Some(events@),
        decreases batch.events@.len() - i,
    {
        let event = &batch.events[i];
        proof {
            assert(batch.events@.take(i + 1).drop_last() =~= batch.events@.take(i as int));
            assert(batch.events@.take(i + 1).last() == *event);
        }
        let hidden: bool = !driver && match event {
            WorkspaceEvent::TabEffect { .. } => true,
            _ => false,
        };
        if !hidden {
            match envelope(event) {
                None => {
                    proof {
                        lemma_unpushable(batch.events@, driver, i + 1);
                    }
                    return None;
                },
                Some(envelope) => {
                    events.push(envelope);
                },
            }
        }
        i = i + 1;
    }
    assert(batch.events@.take(i as int) =~= batch.events@);
    Some(EventBatch { revision: batch.revision, events })
}

/// A commit without its bells and clipboard writes.
pub open spec fn without_effects(events: Seq<WorkspaceEvent>) -> Seq<WorkspaceEvent> {
    events.filter(|event: WorkspaceEvent| !(event is TabEffect))
}

/// A watcher loses bells and clipboard writes and nothing else: it gets of a commit what the
/// driver would get of the same commit without them, in the same order, and never loses a
/// commit that the driver gets.
pub proof fn law_a_watcher_loses_effects_and_nothing_else(events: Seq<WorkspaceEvent>)
    ensures
        wire_events(events, false) == wire_events(without_effects(events), true),
        wire_events(events, true) is Some ==> wire_events(events, false) is Some,
        wire_events(events, false) matches Some(list) ==> forall|i: int|
            0 <= i < list.len() ==> (#[trigger] list[i]).event != EventName::TabEffect,
    decreases events.len(),
{
    reveal(Seq::filter);
    if events.len() > 0 {
        let init = events.drop_last();
        law_a_watcher_loses_effects_and_nothing_else(init);
        if !(events.last() is TabEffect) {
            let kept = without_effects(init).push(events.last());
            assert(without_effects(events) == kept);
            assert(kept.drop_last() =~= without_effects(init));
        }
    }
}

/// What a guard did with the place it was handed in a stream's queue.
#[derive(Clone, Copy, Debug, PartialEq, Eq, Structural)]
pub enum Delivery {
    Delivered,
    /// The place went to a notice; the commit is to be offered again, behind it.
    NoticeSentRetryBatch,
    /// The commit has no wire form: the stream ends.
    End,
}

/// The guard that hides nothing.
pub struct FullFeed;

impl FullFeed {
    /// What is sent for a commit, and what became of it.
    pub fn deliver<'a>(&self, batch: &'a VersionedWorkspaceEvent) -> (out: (
        Delivery,
        Option<EventBatch<'a>>,
    ))
        ensures
            match wire_events(batch.events@, true) {
                None => out.0 == Delivery::End && out.1 is None,
                Some(events) => out.0 == Delivery::Delivered && out.1 is Some
                    && out.1->0.revision == batch.revision && out.1->0.events@ == events,
            },
    {
        match batch_value(batch, true) {
            Some(value) => (Delivery::Delivered, Some(value)),
            None => (Delivery::End, None),
        }
    }
}

/// The bounds on one subscriber's delivery.
#[derive(Clone, Copy, Debug, PartialEq, Eq, Structural)]
pub struct PushLimits {
    /// How many commits may wait.
    pub capacity: usize,
    /// How long delivery may be stuck, in nanoseconds.
    pub stall: u64,
}

impl PushLimits {
    /// The limits that a session serves with. `stall` is [`DEFAULT_PUSH_STALL`] stretched by the
    /// factor that the environment sets for all of its timeouts.
    pub fn stretched(stall: u64) -> (limits: PushLimits)
        ensures
            limits == (PushLimits { capacity: 256, stall }),
    {
        PushLimits { capacity: DEFAULT_PUSH_CAPACITY, stall }
    }

    /// The depth of the queue: what the limits say, and room for one at least.
    pub fn depth(&self) -> (n: usize)
        ensures
            n == (if self.capacity == 0 {
                1
            } else {
                self.capacity as int
            }),
    {
        if self.capacity == 0 {
            1
        } else {
            self.capacity
        }
    }
}

/// The revision a subscription is told it has: one before the first commit it is replayed,
/// or the fence where nothing is.
pub fn starts_from(first_replayed: Option<u64>, fence: u64) -> (revision: u64)
    ensures
        match first_replayed {
            Some(first) => revision == (if first == 0 {
                0
            } else {
                first - 1
            }),
            None => revision == fence,
        },
{
    match first_replayed {
        Some(first) => if first == 0 {
            0
        } else {
            first - 1
        },
        None => fence,
    }
}

/// Where a relay stands.
#[derive(Clone, Copy, Debug, PartialEq, Eq, Structural)]
pub enum RelayPhase {
    /// The replayed commit at this place is being offered.
    Replaying(usize),
    /// The next commit is being waited for.
    Waiting,
    /// A live commit is being offered.
    Offering,
    Over,
}

/// What reaches a relay.
#[derive(Clone, Copy, Debug, PartialEq, Eq, Structural)]
pub enum RelayEvent {
    /// What the guard made of the commit on offer.
    Gate(Delivery),
    /// The subscriber's queue stayed full for too long.
    Stalled,
    /// The subscriber hung up.
    HungUp,
    /// A commit was published.
    Commit { revision: u64 },
    /// Commits were published faster than they were taken.
    Lagged,
    /// Nothing will be published any more.
    Closed,
}

/// What a relay does next.
#[derive(Clone, Copy, Debug, PartialEq, Eq, Structural)]
pub enum RelayAction {
    /// Reserve a place and offer the replayed commit at this index.
    OfferReplayed(usize),
    /// Wait for the next commit, or for the subscriber to hang up.
    Wait,
    /// Reserve a place and offer the commit that was just received.
    OfferReceived,
    /// End the stream.
    Stop,
}

/// A relay from the workspace's commits to one subscriber.
#[derive(Clone, Copy, Debug, PartialEq, Eq, Structural)]
pub struct Relay {
    /// How many commits are replayed.
    pub replayed: usize,
    /// The last revision that the replay covers.
    pub fence: u64,
    pub phase: RelayPhase,
}

/// What a phase waits for.
pub open spec fn relay_expects(phase: RelayPhase, event: RelayEvent) -> bool {
    match phase {
        RelayPhase::Replaying(_) | RelayPhase::Offering => event is Gate || event is Stalled
            || event is HungUp,
        RelayPhase::Waiting => event is Commit || event is Lagged || event is Closed
            || event is HungUp,
        RelayPhase::Over => false,
    }
}

impl Relay {
    /// Whether the place in the replay is one that there is.
    pub open spec fn wf(self) -> bool {
        self.phase matches RelayPhase::Replaying(at) ==> at < self.replayed
    }

    /// The phase a relay is in once `done` commits of the replay are out.
    pub open spec fn past(self, done: int) -> (RelayPhase, RelayAction) {
        if done < self.replayed {
            (RelayPhase::Replaying(done as usize), RelayAction::OfferReplayed(done as usize))
        } else {
            (RelayPhase::Waiting, RelayAction::Wait)
        }
    }

    /// One step. What would put a hole in the stream ends it.
    pub open spec fn next(self, event: RelayEvent) -> (RelayPhase, RelayAction) {
        match (self.phase, event) {
            (RelayPhase::Replaying(at), RelayEvent::Gate(delivery)) => match delivery {
                Delivery::Delivered => self.past(at + 1),
                Delivery::NoticeSentRetryBatch => (self.phase, RelayAction::OfferReplayed(at)),
                Delivery::End => (RelayPhase::Over, RelayAction::Stop),
            },
            (RelayPhase::Offering, RelayEvent::Gate(delivery)) => match delivery {
                Delivery::Delivered => (RelayPhase::Waiting, RelayAction::Wait),
                Delivery::NoticeSentRetryBatch => (self.phase, RelayAction::OfferReceived),
                Delivery::End => (RelayPhase::Over, RelayAction::Stop),
            },
            (RelayPhase::Waiting, RelayEvent::Commit { revision }) => if revision <= self.fence {
                (RelayPhase::Waiting, RelayAction::Wait)
            } else {
                (RelayPhase::Offering, RelayAction::OfferReceived)
            },
            _ => (RelayPhase::Over, RelayAction::Stop),
        }
    }

    /// Begins a relay of a replay and what follows its fence.
    pub fn begin(replayed: usize, fence: u64) -> (out: (Relay, RelayAction))
        ensures
            out.0.wf(),
            out.0.replayed == replayed,
            out.0.fence == fence,
            (out.0.phase, out.1) == out.0.past(0),
    {
        if replayed > 0 {
            (
                Relay { replayed, fence, phase: RelayPhase::Replaying(0) },
                RelayAction::OfferReplayed(0),
            )
        } else {
            (Relay { replayed, fence, phase: RelayPhase::Waiting }, RelayAction::Wait)
        }
    }

    /// Takes the next step.
    pub fn step(&mut self, event: RelayEvent) -> (action: RelayAction)
        requires
            old(self).wf(),
            relay_expects(old(self).phase, event),
        ensures
            final(self).wf(),
            final(self).replayed == old(self).replayed,
            final(self).fence == old(self).fence,
            (final(self).phase, action) == old(self).next(event),
    {
        match (self.phase, event) {
            (RelayPhase::Replaying(at), RelayEvent::Gate(delivery)) => match delivery {
                Delivery::Delivered => {
                    let done: usize = at + 1;
                    if done < self.replayed {
                        self.phase = RelayPhase::Replaying(done);
                        RelayAction::OfferReplayed(done)
                    } else {
                        self.phase = RelayPhase::Waiting;
                        RelayAction::Wait
                    }
                },
                Delivery::NoticeSentRetryBatch => RelayAction::OfferReplayed(at),
                Delivery::End => {
                    self.phase = RelayPhase::Over;
                    RelayAction::Stop
                },
            },
            (RelayPhase::Offering, RelayEvent::Gate(delivery)) => match delivery {
                Delivery::Delivered => {
                    self.phase = RelayPhase::Waiting;
                    RelayAction::Wait
                },
                Delivery::NoticeSentRetryBatch => RelayAction::OfferReceived,
                Delivery::End => {
                    self.phase = RelayPhase::Over;
                    RelayAction::Stop
                },
            },
            (RelayPhase::Waiting, RelayEvent::Commit { revision }) => {
                if revision <= self.fence {
                    RelayAction::Wait
                } else {
                    self.phase = RelayPhase::Offering;
                    RelayAction::OfferReceived
                }
            },
            _ => {
                self.phase = RelayPhase::Over;
                RelayAction::Stop
            },
        }
    }
}

/// The revisions that reach a subscriber who reads on: the replay, then what was published
/// past the fence.
pub open spec fn delivered(replay: Seq<u64>, live: Seq<u64>, fence: u64) -> Seq<u64>
    decreases live.len(),
{
    if live.len() == 0 {
        replay
    } else if live.last() <= fence {
        delivered(replay, live.drop_last(), fence)
    } else {
        delivered(replay, live.drop_last(), fence).push(live.last())
    }
}

/// Whether revisions follow each other without a hole, from `first` on.
pub open spec fn gapless(revisions: Seq<u64>, first: int) -> bool {
    forall|i: int| 0 <= i < revisions.len() ==> #[trigger] revisions[i] == first + i
}

/// No holes: where the replay runs without a gap from what the client has to the fence, and
/// the commits published since are taken without a gap from somewhere at or before the
/// fence's successor, so does what the client gets.
pub proof fn law_a_stream_has_no_holes(replay: Seq<u64>, live: Seq<u64>, has: u64, fence: u64, first: int)
    requires
        gapless(replay, has + 1),
        fence == has + replay.len(),
        gapless(live, first),
        first <= fence + 1,
    ensures
        gapless(delivered(replay, live, fence), has + 1),
        first + live.len() > fence ==> delivered(replay, live, fence).len() == first + live.len()
            - has - 1,
        first + live.len() <= fence + 1 ==> delivered(replay, live, fence) == replay,
    decreases live.len(),
{
    if live.len() > 0 {
        let init = live.drop_last();
        assert(forall|i: int| 0 <= i < init.len() ==> init[i] == live[i]);
        law_a_stream_has_no_holes(replay, init, has, fence, first);
        assert(live.last() == live[live.len() - 1]);
    }
}

/// The published revisions that a relay offers, each delivered before the next one comes.
pub open spec fn offered(relay: Relay, live: Seq<u64>) -> Seq<u64>
    decreases live.len(),
{
    if live.len() == 0 {
        seq![]
    } else {
        let before = offered(relay, live.drop_last());
        if relay.next(RelayEvent::Commit { revision: live.last() }).1
            == RelayAction::OfferReceived {
            before.push(live.last())
        } else {
            before
        }
    }
}

/// A waiting relay offers exactly what lies past its fence, the fence's own revision not
/// among it, and waits again once that is delivered.
pub proof fn law_the_fence_is_inclusive(relay: Relay, replay: Seq<u64>, live: Seq<u64>, revision: u64)
    requires
        relay.phase == RelayPhase::Waiting,
    ensures
        delivered(replay, live, relay.fence) == replay + offered(relay, live),
        relay.next(RelayEvent::Commit { revision }).1 == RelayAction::OfferReceived <==> revision
            > relay.fence,
        ({
            let (phase, action) = relay.next(RelayEvent::Commit { revision });
            let after = Relay { phase, ..relay };
            action == RelayAction::OfferReceived ==> after.next(
                RelayEvent::Gate(Delivery::Delivered),
            ) == (RelayPhase::Waiting, RelayAction::Wait)
        }),
    decreases live.len(),
{
    if live.len() == 0 {
        assert(replay + seq![] =~= replay);
    } else {
        let init = live.drop_last();
        law_the_fence_is_inclusive(relay, replay, init, revision);
        assert((replay + offered(relay, init)).push(live.last()) =~= replay + offered(
            relay,
            init,
        ).push(live.last()));
    }
}

/// Close rather than lie: a lag, a stall, a closed source, a hang-up and a commit without a
/// wire form each end the relay, and an ended relay offers nothing.
pub proof fn law_a_loss_closes_the_stream(relay: Relay, event: RelayEvent)
    requires
        relay_expects(relay.phase, event),
        event is Lagged || event is Stalled || event is Closed || event is HungUp || event
            == RelayEvent::Gate(Delivery::End),
    ensures
        relay.next(event) == (RelayPhase::Over, RelayAction::Stop),
{
}

/// An event goes out under its own name: what opened is told as opened, what was renamed as
/// renamed. Only a recovery snapshot has no wire form.
pub proof fn law_an_event_goes_by_its_name(event: WorkspaceEvent)
    ensures
        wire(&event) is None <==> event is Resync,
        event is TabOpened ==> wire(&event)->0.event == EventName::TabOpened,
        event is TabClosed ==> wire(&event)->0.event == EventName::TabClosed,
        event is TabStateChanged ==> wire(&event)->0.event == EventName::TabStateChanged,
        event is TabTitleChanged ==> wire(&event)->0.event == EventName::TabTitleChanged,
        event is TabCwdChanged ==> wire(&event)->0.event == EventName::TabCwdChanged,
        event is TabNotification ==> wire(&event)->0.event == EventName::TabNotification,
        event is ProjectCreated ==> wire(&event)->0.event == EventName::ProjectCreated,
        event is ProjectRenamed ==> wire(&event)->0.event == EventName::ProjectRenamed,
        event is ProjectDeleted ==> wire(&event)->0.event == EventName::ProjectDeleted,
        event is ActiveChanged ==> wire(&event)->0.event == EventName::ActiveChanged,
        event is HookActiveChanged ==> wire(&event)->0.event == EventName::HookActiveChanged,
        event is AgentChanged ==> wire(&event)->0.event == EventName::AgentReportChanged,
        event is NotificationFired ==> wire(&event)->0.event == EventName::NotificationFired,
        event is TabsReordered ==> wire(&event)->0.event == EventName::TabsReordered,
        event is TabEffect ==> wire(&event)->0.event == EventName::TabEffect,
        event is ProjectsReordered ==> wire(&event)->0.event == EventName::ProjectsReordered,
{
}

/// Of a tab the wire says what the event says: the whole row of one that opened, and of every
/// other event its own tab with its own state, title, directory, pending mark, hook, and its
/// notification's title as the title and body as the body.
pub proof fn law_the_wire_says_what_a_tab_did(event: WorkspaceEvent)
    ensures
        event matches WorkspaceEvent::TabOpened(opened) ==> (wire(&event)->0.data
            matches EventData::Tab { tab } && *tab == opened),
        event matches WorkspaceEvent::TabClosed { tab_id: of } ==> (wire(&event)->0.data
            matches EventData::TabId { tab_id } && tab_id == of),
        event matches WorkspaceEvent::TabStateChanged { tab_id: of, state: now } ==> (wire(
            &event,
        )->0.data matches EventData::TabState { tab_id, state } && tab_id == of && *state == now),
        event matches WorkspaceEvent::TabTitleChanged { tab_id: of, title: now } ==> (wire(
            &event,
        )->0.data matches EventData::TabTitle { tab_id, title } && tab_id == of && *title == now),
        event matches WorkspaceEvent::TabCwdChanged { tab_id: of, cwd: now } ==> (wire(
            &event,
        )->0.data matches EventData::TabCwd { tab_id, cwd } && tab_id == of && *cwd == now),
        event matches WorkspaceEvent::TabNotification { tab_id: of, has_pending: now } ==> (wire(
            &event,
        )->0.data matches EventData::Pending { tab_id, has_pending } && tab_id == of
            && has_pending == now),
        event matches WorkspaceEvent::HookActiveChanged { tab_id: of, active: now } ==> (wire(
            &event,
        )->0.data matches EventData::HookActive { tab_id, active } && tab_id == of && active
            == now),
        event matches WorkspaceEvent::NotificationFired { tab_id: of, title: head, body: words }
            ==> (wire(&event)->0.data matches EventData::Notification { tab_id, title, body }
            && tab_id == of && *title == head && *body == words),
        event matches WorkspaceEvent::AgentChanged { tab_id: of, agent } ==> (wire(&event)->0.data
            matches EventData::Agent {
            tab_id,
            shell_state,
            agent_lifecycle,
            ownership,
            state,
            hook_active,
        } && tab_id == of && *shell_state == agent.shell_state && *agent_lifecycle
            == agent.lifecycle && *ownership == agent.ownership && *state == agent.state
            && hook_active == agent.hook_active),
        event matches WorkspaceEvent::TabEffect { tab_id: of, effect } ==> (match effect {
            TabEffectKind::Bell => wire(&event)->0.data matches EventData::Bell { tab_id }
                && tab_id == of,
            TabEffectKind::ClipboardWrite { text: copied, primary: selection } => wire(
                &event,
            )->0.data matches EventData::ClipboardWrite { tab_id, text, primary } && tab_id == of
                && *text == copied && primary == selection,
        }),
{
}

/// Of a project and of the selection the wire says what the event says: the whole row of one
/// that was made, and of every other event its own project with its own name, order or choice.
pub proof fn law_the_wire_says_what_a_project_did(event: WorkspaceEvent)
    ensures
        event matches WorkspaceEvent::ProjectCreated(made) ==> (wire(&event)->0.data
            matches EventData::Project { project } && *project == made),
        event matches WorkspaceEvent::ProjectRenamed { project_id: of, name: now } ==> (wire(
            &event,
        )->0.data matches EventData::ProjectName { project_id, name } && project_id == of && *name
            == now),
        event matches WorkspaceEvent::ProjectDeleted { project_id: of } ==> (wire(&event)->0.data
            matches EventData::ProjectId { project_id } && project_id == of),
        event matches WorkspaceEvent::ActiveChanged { project_id: of, tab_id: with } ==> (wire(
            &event,
        )->0.data matches EventData::Selection { project_id, tab_id } && project_id == of
            && tab_id == with),
        event matches WorkspaceEvent::TabsReordered { project_id: of, tab_ids: order } ==> (wire(
            &event,
        )->0.data matches EventData::TabOrder { project_id, tab_ids } && project_id == of
            && *tab_ids == order),
        event matches WorkspaceEvent::ProjectsReordered { project_ids: order } ==> (wire(
            &event,
        )->0.data matches EventData::ProjectOrder { project_ids } && *project_ids == order),
{
}

/// A commit reaches the driver whole: each of its events in its wire form, once and in order;
/// and a commit is withheld only where it holds a recovery snapshot.
pub proof fn law_a_commit_goes_out_whole(events: Seq<WorkspaceEvent>)
    ensures
        wire_events(events, true) matches Some(list) ==> list.len() == events.len() && forall|
            i: int,
        |
            0 <= i < events.len() ==> Some(#[trigger] list[i]) == wire(&events[i]),
        wire_events(events, true) is None <==> exists|i: int|
            0 <= i < events.len() && (#[trigger] events[i]) is Resync,
    decreases events.len(),
{
    if events.len() > 0 {
        let init = events.drop_last();
        law_a_commit_goes_out_whole(init);
        assert(events.last() == events[events.len() - 1]);
        law_an_event_goes_by_its_name(events.last());
        if wire_events(init, true) is None {
            let i = choose|i: int| 0 <= i < init.len() && (#[trigger] init[i]) is Resync;
            assert(events[i] is Resync);
        }
        if exists|i: int| 0 <= i < events.len() && (#[trigger] events[i]) is Resync {
            let i = choose|i: int| 0 <= i < events.len() && (#[trigger] events[i]) is Resync;
            if i < init.len() {
                assert(init[i] is Resync);
            }
        }
        if let Some(list) = wire_events(events, true) {
            let before = wire_events(init, true)->0;
            assert forall|i: int| 0 <= i < events.len() implies Some(#[trigger] list[i]) == wire(
                &events[i],
            ) by {
                if i < init.len() {
                    assert(list[i] == before[i]);
                    assert(init[i] == events[i]);
                }
            }
        }
    }
}

/// How a relay goes: it offers the replay from its first commit to its last, the same one again
/// where its place went to a notice; behind the last, or at once where there is none, it waits;
/// and a live commit on offer is offered until it is delivered.
pub proof fn law_a_relay_takes_commits_in_turn(relay: Relay, at: usize, revision: u64)
    requires
        at < relay.replayed,
    ensures
        relay.replayed > 0 ==> relay.past(0) == (
            RelayPhase::Replaying(0),
            RelayAction::OfferReplayed(0),
        ),
        (Relay { replayed: 0, ..relay }).past(0) == (RelayPhase::Waiting, RelayAction::Wait),
        ({
            let replaying = Relay { phase: RelayPhase::Replaying(at), ..relay };
            let offering = Relay { phase: RelayPhase::Offering, ..relay };
            let waiting = Relay { phase: RelayPhase::Waiting, ..relay };
            &&& at + 1 < relay.replayed ==> replaying.next(RelayEvent::Gate(Delivery::Delivered))
                == (
                RelayPhase::Replaying((at + 1) as usize),
                RelayAction::OfferReplayed((at + 1) as usize),
            )
            &&& at + 1 == relay.replayed ==> replaying.next(RelayEvent::Gate(Delivery::Delivered))
                == (RelayPhase::Waiting, RelayAction::Wait)
            &&& replaying.next(RelayEvent::Gate(Delivery::NoticeSentRetryBatch)) == (
                RelayPhase::Replaying(at),
                RelayAction::OfferReplayed(at),
            )
            &&& offering.next(RelayEvent::Gate(Delivery::Delivered)) == (
                RelayPhase::Waiting,
                RelayAction::Wait,
            )
            &&& offering.next(RelayEvent::Gate(Delivery::NoticeSentRetryBatch)) == (
                RelayPhase::Offering,
                RelayAction::OfferReceived,
            )
            &&& waiting.next(RelayEvent::Commit { revision }) == (if revision > relay.fence {
                (RelayPhase::Offering, RelayAction::OfferReceived)
            } else {
                (RelayPhase::Waiting, RelayAction::Wait)
            })
        }),
{
}

} // verus!
