//! The connections of a session: who is closed when it stops, who may still come, and how many
//! data connections it serves.
use crate::ipc::errors::{shutting_down, HandlerError};
use vstd::prelude::*;

verus! {

/// How many live data connections one session serves.
pub const MAX_DATA_CONNS_PER_SESSION: usize = 32;

/// Connections that were seen to be over, by their ids.
#[derive(Debug, PartialEq, Eq)]
pub struct Over {
    /// Those that are closed.
    pub closed: Vec<u64>,
    /// Those whose relay has ended.
    pub ended: Vec<u64>,
}

/// A session's connections.
#[derive(Debug, PartialEq, Eq)]
pub struct Connections {
    /// The control connections.
    pub controls: Vec<u64>,
    /// The data connections, each with the tab it is attached to.
    pub data_conns: Vec<(i64, u64)>,
    /// The subscribers; none any more once a stop has swept them.
    pub subscribers: Option<Vec<u64>>,
}

/// [`Connections`] by what they hold.
#[verifier::ext_equal]
pub struct ConnsView {
    pub controls: Seq<u64>,
    pub data: Seq<(i64, u64)>,
    pub subscribers: Option<Seq<u64>>,
}

/// Those of a list that are not in another.
pub open spec fn without(list: Seq<u64>, gone: Seq<u64>) -> Seq<u64>
    decreases list.len(),
{
    if list.len() == 0 {
        seq![]
    } else if gone.contains(list.last()) {
        without(list.drop_last(), gone)
    } else {
        without(list.drop_last(), gone).push(list.last())
    }
}

/// Those data connections whose id is not in a list.
pub open spec fn data_without(list: Seq<(i64, u64)>, gone: Seq<u64>) -> Seq<(i64, u64)>
    decreases list.len(),
{
    if list.len() == 0 {
        seq![]
    } else if gone.contains(list.last().1) {
        data_without(list.drop_last(), gone)
    } else {
        data_without(list.drop_last(), gone).push(list.last())
    }
}

/// The data connections but for one of a tab.
pub open spec fn data_except(list: Seq<(i64, u64)>, tab_id: i64, conn_id: u64) -> Seq<(i64, u64)>
    decreases list.len(),
{
    if list.len() == 0 {
        seq![]
    } else if list.last() == (tab_id, conn_id) {
        data_except(list.drop_last(), tab_id, conn_id)
    } else {
        data_except(list.drop_last(), tab_id, conn_id).push(list.last())
    }
}

/// The ids of data connections, in order.
pub open spec fn conn_ids(list: Seq<(i64, u64)>) -> Seq<u64> {
    Seq::new(list.len(), |i: int| list[i].1)
}

fn holds(list: &Vec<u64>, id: u64) -> (yes: bool)
    ensures
        yes == list@.contains(id),
{
    let mut i: usize = 0;
    while i < list.len()
        invariant
            i <= list@.len(),
            forall|k: int| 0 <= k < i ==> list@[k] != id,
        decreases list@.len() - i,
    {
        if list[i] == id {
            assert(list@.contains(id));
            return true;
        }
        i = i + 1;
    }
    false
}

fn strip(list: &Vec<u64>, gone: &Vec<u64>) -> (out: Vec<u64>)
    ensures
        out@ == without(list@, gone@),
{
    let mut out: Vec<u64> = Vec::new();
    let mut i: usize = 0;
    assert(list@.take(0) =~= seq![]);
    while i < list.len()
        invariant
            i <= list@.len(),
            out@ == without(list@.take(i as int), gone@),
        decreases list@.len() - i,
    {
        assert(list@.take(i + 1).drop_last() =~= list@.take(i as int));
        if !holds(gone, list[i]) {
            out.push(list[i]);
        }
        i = i + 1;
    }
    assert(list@.take(i as int) =~= list@);
    out
}

fn strip_data(list: &Vec<(i64, u64)>, gone: &Vec<u64>) -> (out: Vec<(i64, u64)>)
    ensures
        out@ == data_without(list@, gone@),
{
    let mut out: Vec<(i64, u64)> = Vec::new();
    let mut i: usize = 0;
    assert(list@.take(0) =~= seq![]);
    while i < list.len()
        invariant
            i <= list@.len(),
            out@ == data_without(list@.take(i as int), gone@),
        decreases list@.len() - i,
    {
        assert(list@.take(i + 1).drop_last() =~= list@.take(i as int));
        if !holds(gone, list[i].1) {
            out.push(list[i]);
        }
        i = i + 1;
    }
    assert(list@.take(i as int) =~= list@);
    out
}

fn except_data(list: &Vec<(i64, u64)>, tab_id: i64, conn_id: u64) -> (out: Vec<(i64, u64)>)
    ensures
        out@ == data_except(list@, tab_id, conn_id),
{
    let mut out: Vec<(i64, u64)> = Vec::new();
    let mut i: usize = 0;
    assert(list@.take(0) =~= seq![]);
    while i < list.len()
        invariant
            i <= list@.len(),
            out@ == data_except(list@.take(i as int), tab_id, conn_id),
        decreases list@.len() - i,
    {
        assert(list@.take(i + 1).drop_last() =~= list@.take(i as int));
        let (tab, conn) = list[i];
        if tab != tab_id || conn != conn_id {
            out.push((tab, conn));
        }
        i = i + 1;
    }
    assert(list@.take(i as int) =~= list@);
    out
}

impl View for Connections {
    type V = ConnsView;

    open spec fn view(&self) -> ConnsView {
        ConnsView {
            controls: self.controls@,
            data: self.data_conns@,
            subscribers: match self.subscribers {
                Some(list) => Some(list@),
                None => None,
            },
        }
    }
}

impl ConnsView {
    /// With a subscriber added; those that are over leave on the way.
    pub open spec fn subscribed(self, conn_id: u64, over: Over) -> ConnsView {
        match self.subscribers {
            None => self,
            Some(list) => ConnsView {
                subscribers: Some(
                    without(without(list, over.ended@), over.closed@).push(conn_id),
                ),
                ..self
            },
        }
    }

    /// With a control connection noted; closed ones leave on the way.
    pub open spec fn controlled(self, conn_id: u64, over: Over) -> ConnsView {
        ConnsView {
            controls: without(without(self.controls, over.closed@), seq![conn_id]).push(conn_id),
            ..self
        }
    }

    /// Without one connection, and without any that is over.
    pub open spec fn forgotten(self, conn_id: u64, over: Over) -> ConnsView {
        ConnsView {
            controls: without(without(self.controls, seq![conn_id]), over.closed@),
            subscribers: match self.subscribers {
                None => None,
                Some(list) => Some(
                    without(
                        without(without(list, seq![conn_id]), over.ended@),
                        over.closed@,
                    ),
                ),
            },
            ..self
        }
    }

    /// Everyone who is owed a reason when the session ends.
    pub open spec fn everyone(self) -> Seq<u64> {
        self.controls + conn_ids(self.data) + (match self.subscribers {
            Some(list) => list,
            None => seq![],
        })
    }

    /// With closed data connections gone.
    pub open spec fn pruned(self, over: Over) -> ConnsView {
        ConnsView { data: data_without(self.data, over.closed@), ..self }
    }

    /// With a data connection registered for a tab, in place of one of the same id.
    pub open spec fn attached(self, tab_id: i64, conn_id: u64) -> ConnsView {
        ConnsView { data: data_except(self.data, tab_id, conn_id).push((tab_id, conn_id)), ..self }
    }
}

/// The words for a session that serves as many data connections as it may.
pub open spec fn too_many() -> Seq<char> {
    "this session already serves 32 data connections; detach one before attaching again"@
}

fn one(id: u64) -> (out: Vec<u64>)
    ensures
        out@ == seq![id],
{
    let mut out: Vec<u64> = Vec::new();
    out.push(id);
    assert(out@ =~= seq![id]);
    out
}

impl Default for Connections {
    fn default() -> (out: Connections)
        ensures
            out@ == (ConnsView { controls: seq![], data: seq![], subscribers: Some(seq![]) }),
    {
        let out = Connections {
            controls: Vec::new(),
            data_conns: Vec::new(),
            subscribers: Some(Vec::new()),
        };
        assert(out@ =~= (ConnsView { controls: seq![], data: seq![], subscribers: Some(seq![]) }));
        out
    }
}

impl Connections {
    /// Registers a subscriber. Refused once a stop has swept them: nobody could end it.
    pub fn register_subscriber(&mut self, conn_id: u64, over: &Over) -> (yes: bool)
        ensures
            yes == (old(self).subscribers is Some),
            final(self)@ == old(self)@.subscribed(conn_id, *over),
    {
        let kept: Option<Vec<u64>> = match &self.subscribers {
            None => None,
            Some(list) => {
                let running = strip(list, &over.ended);
                let mut open = strip(&running, &over.closed);
                open.push(conn_id);
                Some(open)
            },
        };
        match kept {
            None => false,
            Some(list) => {
                self.subscribers = Some(list);
                assert(self@ =~= old(self)@.subscribed(conn_id, *over));
                true
            },
        }
    }

    /// Takes every subscriber, for their relays to be ended, and refuses further ones.
    pub fn abort_subscribers(&mut self) -> (relays: Vec<u64>)
        ensures
            final(self)@ == (ConnsView { subscribers: None, ..old(self)@ }),
            relays@ == (match old(self)@.subscribers {
                Some(list) => list,
                None => seq![],
            }),
    {
        let mut taken: Option<Vec<u64>> = None;
        core::mem::swap(&mut taken, &mut self.subscribers);
        match taken {
            Some(list) => list,
            None => {
                let none: Vec<u64> = Vec::new();
                assert(none@ =~= seq![]);
                none
            },
        }
    }

    /// Notes a control connection.
    pub fn register_control(&mut self, conn_id: u64, over: &Over)
        ensures
            final(self)@ == old(self)@.controlled(conn_id, *over),
    {
        let open = strip(&self.controls, &over.closed);
        let itself = one(conn_id);
        let mut kept = strip(&open, &itself);
        kept.push(conn_id);
        self.controls = kept;
        assert(self@ =~= old(self)@.controlled(conn_id, *over));
    }

    /// Forgets a connection that ended.
    pub fn forget_connection(&mut self, conn_id: u64, over: &Over)
        ensures
            final(self)@ == old(self)@.forgotten(conn_id, *over),
    {
        let itself = one(conn_id);
        let kept: Option<Vec<u64>> = match &self.subscribers {
            None => None,
            Some(list) => {
                let others = strip(list, &itself);
                let running = strip(&others, &over.ended);
                Some(strip(&running, &over.closed))
            },
        };
        self.subscribers = kept;
        let others = strip(&self.controls, &itself);
        self.controls = strip(&others, &over.closed);
        assert(self@ =~= old(self)@.forgotten(conn_id, *over));
    }

    /// Names everyone to be told why they are closed, and stops keeping all but the
    /// subscribers, whose relays are still to be ended.
    pub fn close_all(&mut self) -> (out: Vec<u64>)
        ensures
            out@ == old(self)@.everyone(),
            final(self)@ == (ConnsView { controls: seq![], data: seq![], ..old(self)@ }),
    {
        let mut out: Vec<u64> = Vec::new();
        core::mem::swap(&mut out, &mut self.controls);
        let mut data: Vec<(i64, u64)> = Vec::new();
        core::mem::swap(&mut data, &mut self.data_conns);
        let ghost controls = out@;
        let ghost ids = conn_ids(data@);
        let mut i: usize = 0;
        assert(out@ =~= controls + ids.take(0));
        while i < data.len()
            invariant
                i <= data@.len(),
                ids == conn_ids(data@),
                out@ == controls + ids.take(i as int),
            decreases data@.len() - i,
        {
            out.push(data[i].1);
            assert(out@ =~= controls + ids.take(i + 1));
            i = i + 1;
        }
        assert(ids.take(i as int) =~= ids);
        let ghost before = out@;
        match &self.subscribers {
            None => {
                assert(out@ + seq![] =~= out@);
            },
            Some(list) => {
                let mut k: usize = 0;
                assert(out@ =~= before + list@.take(0));
                while k < list.len()
                    invariant
                        k <= list@.len(),
                        out@ == before + list@.take(k as int),
                    decreases list@.len() - k,
                {
                    out.push(list[k]);
                    assert(out@ =~= before + list@.take(k + 1));
                    k = k + 1;
                }
                assert(list@.take(k as int) =~= list@);
            },
        }
        assert(self@ =~= (ConnsView { controls: seq![], data: seq![], ..old(self)@ }));
        out
    }

    /// Registers a data connection for a tab: refused by a session on its way out, whatever
    /// else holds, and by one that serves as many as it may. Closed ones do not count.
    pub fn register_data_conn(&mut self, tab_id: i64, conn_id: u64, stopping: bool, over: &Over) -> (
        out: Result<(), HandlerError>)
        ensures
            out is Ok <==> !stopping && old(self)@.pruned(*over).data.len() < 32,
            stopping ==> final(self)@ == old(self)@ && (out matches Err(e) && e.says(
                "shutting-down"@,
                "session is shutting down"@,
            )),
            !stopping && out is Err ==> final(self)@ == old(self)@.pruned(*over) && (out matches Err(
                e,
            ) && e.says("too-many-attaches"@, too_many())),
            out is Ok ==> final(self)@ == old(self)@.pruned(*over).attached(tab_id, conn_id),
    {
        if stopping {
            return Err(shutting_down());
        }
        self.data_conns = strip_data(&self.data_conns, &over.closed);
        assert(self@ =~= old(self)@.pruned(*over));
        if self.data_conn_count() >= MAX_DATA_CONNS_PER_SESSION {
            return Err(
                HandlerError::new(
                    "too-many-attaches",
                    "this session already serves 32 data connections; detach one before attaching again".to_owned(),
                ),
            );
        }
        let mut kept = except_data(&self.data_conns, tab_id, conn_id);
        kept.push((tab_id, conn_id));
        self.data_conns = kept;
        assert(self@ =~= old(self)@.pruned(*over).attached(tab_id, conn_id));
        Ok(())
    }

    /// How many data connections are registered.
    pub fn data_conn_count(&self) -> (n: usize)
        ensures
            n == self@.data.len(),
    {
        self.data_conns.len()
    }

    /// Drops a data connection of a tab.
    pub fn release_data_conn(&mut self, tab_id: i64, conn_id: u64)
        ensures
            final(self)@ == (ConnsView {
                data: data_except(old(self)@.data, tab_id, conn_id),
                ..old(self)@
            }),
    {
        self.data_conns = except_data(&self.data_conns, tab_id, conn_id);
        assert(self@ =~= (ConnsView {
            data: data_except(old(self)@.data, tab_id, conn_id),
            ..old(self)@
        }));
    }
}

proof fn lemma_shorter(list: Seq<(i64, u64)>, gone: Seq<u64>, tab_id: i64, conn_id: u64)
    ensures
        data_without(list, gone).len() <= list.len(),
        data_except(list, tab_id, conn_id).len() <= list.len(),
        !data_except(list, tab_id, conn_id).contains((tab_id, conn_id)),
    decreases list.len(),
{
    if list.len() > 0 {
        let init = list.drop_last();
        lemma_shorter(init, gone, tab_id, conn_id);
        let rest = data_except(init, tab_id, conn_id);
        let out = data_except(list, tab_id, conn_id);
        if out.contains((tab_id, conn_id)) {
            let i = choose|i: int| 0 <= i < out.len() && out[i] == (tab_id, conn_id);
            if i < rest.len() {
                assert(rest[i] == (tab_id, conn_id));
            }
        }
    }
}

/// A session never serves more data connections than it may.
pub proof fn law_data_connections_are_bounded(conns: ConnsView, tab_id: i64, conn_id: u64, over: Over)
    requires
        conns.data.len() <= 32,
    ensures
        conns.pruned(over).data.len() <= 32,
        conns.pruned(over).data.len() < 32 ==> conns.pruned(over).attached(
            tab_id,
            conn_id,
        ).data.len() <= 32,
        data_except(conns.data, tab_id, conn_id).len() <= 32,
{
    lemma_shorter(conns.data, over.closed@, tab_id, conn_id);
    lemma_shorter(conns.pruned(over).data, over.closed@, tab_id, conn_id);
}

/// What was registered is released whole: nothing of it is left.
pub proof fn law_a_released_connection_is_gone(conns: ConnsView, tab_id: i64, conn_id: u64)
    ensures
        !data_except(conns.attached(tab_id, conn_id).data, tab_id, conn_id).contains(
            (tab_id, conn_id),
        ),
{
    lemma_shorter(conns.attached(tab_id, conn_id).data, seq![], tab_id, conn_id);
}

/// What a session does when it is told to stop, in order.
#[derive(Debug, PartialEq, Eq)]
pub enum StopStep {
    /// Tell these connections that the session is going, and close them.
    Close(Vec<u64>),
    /// End the relays of these subscribers.
    AbortRelays(Vec<u64>),
    /// Wait for what is still changing things.
    AwaitMutations,
    FlushLayout,
    ReapChildren,
    Reply,
    /// End the process.
    Finalize,
}

/// A session's hold on its connections.
pub struct SessionState {
    /// Set once, and never cleared.
    pub stopping: bool,
    pub conns: Connections,
}

/// Whether these are the steps that stop a session with these connections, in order.
pub open spec fn stops(conns: ConnsView, steps: Seq<StopStep>) -> bool {
    &&& steps.len() == 7
    &&& steps[0] matches StopStep::Close(ids) && ids@ == conns.everyone()
    &&& steps[1] matches StopStep::AbortRelays(relays) && relays@ == (match conns.subscribers {
        Some(list) => list,
        None => seq![],
    })
    &&& steps[2] == StopStep::AwaitMutations
    &&& steps[3] == StopStep::FlushLayout
    &&& steps[4] == StopStep::ReapChildren
    &&& steps[5] == StopStep::Reply
    &&& steps[6] == StopStep::Finalize
}

impl SessionState {
    /// Registers a subscriber, unless the session is stopping.
    pub fn register_subscriber(&mut self, conn_id: u64, over: &Over) -> (yes: bool)
        ensures
            final(self).stopping == old(self).stopping,
            yes == (!old(self).stopping && old(self).conns.subscribers is Some),
            final(self).conns@ == (if old(self).stopping {
                old(self).conns@
            } else {
                old(self).conns@.subscribed(conn_id, *over)
            }),
    {
        if self.stopping {
            return false;
        }
        self.conns.register_subscriber(conn_id, over)
    }

    /// Notes a control connection, unless the session is stopping.
    pub fn register_control(&mut self, conn_id: u64, over: &Over)
        ensures
            final(self).stopping == old(self).stopping,
            final(self).conns@ == (if old(self).stopping {
                old(self).conns@
            } else {
                old(self).conns@.controlled(conn_id, *over)
            }),
    {
        if self.stopping {
            return;
        }
        self.conns.register_control(conn_id, over)
    }

    /// Registers a data connection for a tab.
    pub fn register_data_conn(&mut self, tab_id: i64, conn_id: u64, over: &Over) -> (out: Result<
        (),
        HandlerError,
    >)
        ensures
            final(self).stopping == old(self).stopping,
            out is Ok <==> !old(self).stopping && old(self).conns@.pruned(*over).data.len() < 32,
            old(self).stopping ==> final(self).conns@ == old(self).conns@ && (out matches Err(e)
                && e.says("shutting-down"@, "session is shutting down"@)),
            !old(self).stopping && out is Err ==> final(self).conns@ == old(self).conns@.pruned(
                *over,
            ) && (out matches Err(e) && e.says("too-many-attaches"@, too_many())),
            out is Ok ==> final(self).conns@ == old(self).conns@.pruned(*over).attached(
                tab_id,
                conn_id,
            ),
    {
        let stopping: bool = self.stopping;
        self.conns.register_data_conn(tab_id, conn_id, stopping, over)
    }

    /// Begins a stop: latches it, and says what is to be done. The connections are told why
    /// they are closed before the relays are ended, for a relay that ended first would leave
    /// its subscriber with an end it cannot tell from a crash. A second stop is refused.
    pub fn session_stop(&mut self) -> (out: Result<Vec<StopStep>, HandlerError>)
        ensures
            final(self).stopping,
            !old(self).stopping ==> (out matches Ok(steps) && stops(old(self).conns@, steps@)),
            old(self).stopping ==> final(self).conns == old(self).conns && (out matches Err(e)
                && e.says("shutting-down"@, "session is shutting down"@)),
            !old(self).stopping ==> final(self).conns@ == (ConnsView {
                controls: seq![],
                data: seq![],
                subscribers: None,
            }),
            !old(self).stopping ==> (out matches Ok(steps) && steps@.len() == 7 && (
            steps@[0] matches StopStep::Close(ids) && ids@ == old(self).conns@.everyone()) && (
            steps@[1] matches StopStep::AbortRelays(relays) && relays@ == (match old(self).conns@.subscribers {
                Some(list) => list,
                None => seq![],
            })) && steps@[2] == StopStep::AwaitMutations && steps@[3] == StopStep::FlushLayout
                && steps@[4] == StopStep::ReapChildren && steps@[5] == StopStep::Reply && steps@[6]
                == StopStep::Finalize),
    {
        if self.stopping {
            return Err(shutting_down());
        }
        self.stopping = true;
        let closed = self.conns.close_all();
        let relays = self.conns.abort_subscribers();
        assert(self.conns@ =~= (ConnsView { controls: seq![], data: seq![], subscribers: None }));
        let mut steps: Vec<StopStep> = Vec::new();
        steps.push(StopStep::Close(closed));
        steps.push(StopStep::AbortRelays(relays));
        steps.push(StopStep::AwaitMutations);
        steps.push(StopStep::FlushLayout);
        steps.push(StopStep::ReapChildren);
        steps.push(StopStep::Reply);
        steps.push(StopStep::Finalize);
        Ok(steps)
    }
}

/// What a list keeps: everything that is not gone, in its order, and nothing that is.
pub proof fn law_only_what_is_gone_leaves(
    list: Seq<u64>,
    data: Seq<(i64, u64)>,
    gone: Seq<u64>,
    next: u64,
    tab: i64,
    only: (i64, u64),
)
    ensures
        without(seq![], gone).len() == 0,
        data_without(seq![], gone).len() == 0,
        data_except(seq![], only.0, only.1).len() == 0,
        gone.contains(next) ==> without(list.push(next), gone) == without(list, gone),
        !gone.contains(next) ==> without(list.push(next), gone) == without(list, gone).push(next),
        gone.contains(next) ==> data_without(data.push((tab, next)), gone) == data_without(
            data,
            gone,
        ),
        !gone.contains(next) ==> data_without(data.push((tab, next)), gone) == data_without(
            data,
            gone,
        ).push((tab, next)),
        only == (tab, next) ==> data_except(data.push((tab, next)), only.0, only.1)
            == data_except(data, only.0, only.1),
        only != (tab, next) ==> data_except(data.push((tab, next)), only.0, only.1)
            == data_except(data, only.0, only.1).push((tab, next)),
{
    assert(list.push(next).drop_last() =~= list);
    assert(data.push((tab, next)).drop_last() =~= data);
}

proof fn lemma_without(list: Seq<u64>, gone: Seq<u64>, id: u64)
    ensures
        without(list, gone).contains(id) <==> list.contains(id) && !gone.contains(id),
    decreases list.len(),
{
    if list.len() > 0 {
        let init = list.drop_last();
        lemma_without(init, gone, id);
        let before = without(init, gone);
        let now = without(list, gone);
        if before.contains(id) {
            let i = choose|i: int| 0 <= i < before.len() && before[i] == id;
            assert(now[i] == id);
        }
        if init.contains(id) {
            let i = choose|i: int| 0 <= i < init.len() && init[i] == id;
            assert(list[i] == id);
        }
        if list.last() == id {
            assert(list[list.len() - 1] == id);
            if !gone.contains(id) {
                assert(now[now.len() - 1] == id);
            }
        }
        if list.contains(id) && list.last() != id {
            let i = choose|i: int| 0 <= i < list.len() && list[i] == id;
            assert(init[i] == id);
        }
        if now.contains(id) {
            let i = choose|i: int| 0 <= i < now.len() && now[i] == id;
            if i < before.len() && !gone.contains(list.last()) {
                assert(before[i] == id);
            }
        }
    }
}

/// Who is registered after a change: a connection that subscribes, or is controlled, is in its
/// list and the newest there; one that is forgotten is in neither; and every other one that is
/// not over stays where it was. Data connections are not touched.
pub proof fn law_a_registration_is_for_one_connection(
    conns: ConnsView,
    conn_id: u64,
    other: u64,
    over: Over,
)
    requires
        other != conn_id,
    ensures
        conns.subscribers matches Some(list) ==> (conns.subscribed(conn_id, over).subscribers
            matches Some(after) && after.last() == conn_id && (after.contains(other)
            <==> list.contains(other) && !over.ended@.contains(other) && !over.closed@.contains(
            other,
        ))),
        conns.subscribers is None ==> conns.subscribed(conn_id, over) == conns,
        conns.subscribed(conn_id, over).controls == conns.controls,
        conns.subscribed(conn_id, over).data == conns.data,
        conns.controlled(conn_id, over).controls.last() == conn_id,
        conns.controlled(conn_id, over).controls.contains(other) <==> conns.controls.contains(other)
            && !over.closed@.contains(other),
        conns.controlled(conn_id, over).subscribers == conns.subscribers,
        conns.controlled(conn_id, over).data == conns.data,
        !conns.forgotten(conn_id, over).controls.contains(conn_id),
        conns.forgotten(conn_id, over).controls.contains(other) <==> conns.controls.contains(other)
            && !over.closed@.contains(other),
        conns.subscribers is None ==> conns.forgotten(conn_id, over).subscribers is None,
        conns.subscribers matches Some(list) ==> (conns.forgotten(conn_id, over).subscribers
            matches Some(after) && !after.contains(conn_id) && (after.contains(other)
            <==> list.contains(other) && !over.ended@.contains(other) && !over.closed@.contains(
            other,
        ))),
        conns.forgotten(conn_id, over).data == conns.data,
{
    let me = seq![conn_id];
    assert(me[0] == conn_id);
    assert(me.contains(conn_id));
    assert(!me.contains(other));
    let kept = without(conns.controls, over.closed@);
    lemma_without(conns.controls, over.closed@, other);
    lemma_without(kept, me, other);
    lemma_pushed(without(kept, me), conn_id, other);
    let left = without(conns.controls, me);
    lemma_without(conns.controls, me, other);
    lemma_without(conns.controls, me, conn_id);
    lemma_without(left, over.closed@, other);
    lemma_without(left, over.closed@, conn_id);
    if let Some(list) = conns.subscribers {
        let running = without(list, over.ended@);
        lemma_without(list, over.ended@, other);
        lemma_without(running, over.closed@, other);
        lemma_pushed(without(running, over.closed@), conn_id, other);
        let rest = without(list, me);
        lemma_without(list, me, other);
        lemma_without(list, me, conn_id);
        lemma_without(rest, over.ended@, other);
        lemma_without(rest, over.ended@, conn_id);
        lemma_without(without(rest, over.ended@), over.closed@, other);
        lemma_without(without(rest, over.ended@), over.closed@, conn_id);
    }
}

proof fn lemma_pushed(list: Seq<u64>, last: u64, id: u64)
    requires
        id != last,
    ensures
        list.push(last).contains(id) <==> list.contains(id),
{
    if list.contains(id) {
        let i = choose|i: int| 0 <= i < list.len() && list[i] == id;
        assert(list.push(last)[i] == id);
    }
    if list.push(last).contains(id) {
        let i = choose|i: int| 0 <= i < list.len() + 1 && list.push(last)[i] == id;
        assert(list[i] == id);
    }
}

/// Everyone is everyone: each control, each data connection and each subscriber, in that order.
pub proof fn law_nobody_is_left_connected(conns: ConnsView, i: int)
    ensures
        0 <= i < conns.controls.len() ==> conns.everyone()[i] == conns.controls[i],
        0 <= i < conns.data.len() ==> conns.everyone()[conns.controls.len() + i]
            == conns.data[i].1,
        conns.subscribers matches Some(list) ==> (0 <= i < list.len() ==> conns.everyone()[
        conns.controls.len() + conns.data.len() + i] == list[i]),
        conns.everyone().len() == conns.controls.len() + conns.data.len() + (
        match conns.subscribers {
            Some(list) => list.len(),
            None => 0,
        }),
{
}

/// An attach is the newest data connection, there once; a prune takes the closed ones out of the
/// data connections; neither touches the other lists.
pub proof fn law_an_attach_is_the_newest_data_connection(
    conns: ConnsView,
    tab_id: i64,
    conn_id: u64,
    over: Over,
)
    ensures
        conns.attached(tab_id, conn_id).data.last() == (tab_id, conn_id),
        conns.attached(tab_id, conn_id).data.drop_last() == data_except(
            conns.data,
            tab_id,
            conn_id,
        ),
        conns.attached(tab_id, conn_id).controls == conns.controls,
        conns.attached(tab_id, conn_id).subscribers == conns.subscribers,
        conns.pruned(over).data == data_without(conns.data, over.closed@),
        conns.pruned(over).controls == conns.controls,
        conns.pruned(over).subscribers == conns.subscribers,
{
    let data = data_except(conns.data, tab_id, conn_id);
    assert(data.push((tab_id, conn_id)).drop_last() =~= data);
}

/// What connections are seen as is what they hold; and what an attach too many is told.
pub proof fn law_connections_are_seen_as_they_are(conns: Connections)
    ensures
        conns@.controls == conns.controls@,
        conns@.data == conns.data_conns@,
        conns.subscribers matches Some(list) ==> conns@.subscribers == Some(list@),
        conns.subscribers is None ==> conns@.subscribers is None,
        too_many()
            == "this session already serves 32 data connections; detach one before attaching again"@,
{
}

/// How a session stops: every connection is closed and every relay let go before anything else;
/// changes under way are waited for before the layout is written, the layout is written before
/// the children go, and only then is the client answered.
pub proof fn law_a_session_stops_in_order(conns: ConnsView, steps: Seq<StopStep>, i: int)
    requires
        stops(conns, steps),
    ensures
        steps.len() == 7,
        steps[0] matches StopStep::Close(ids) && (0 <= i < conns.controls.len() ==> ids@.contains(
            conns.controls[i],
        )) && (0 <= i < conns.data.len() ==> ids@.contains(conns.data[i].1)),
        steps[1] matches StopStep::AbortRelays(relays) && (conns.subscribers matches Some(list)
            ==> relays@ == list) && (conns.subscribers is None ==> relays@.len() == 0),
        steps[2] is AwaitMutations && steps[3] is FlushLayout && steps[4] is ReapChildren,
        steps[5] is Reply && steps[6] is Finalize,
{
    let all = conns.everyone();
    if 0 <= i < conns.controls.len() {
        assert(all[i] == conns.controls[i]);
    }
    if 0 <= i < conns.data.len() {
        assert(all[conns.controls.len() + i] == conns.data[i].1);
    }
}

} // verus!
