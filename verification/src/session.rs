//! A tab as one viewer sees it: its output on the way to the screen, and its input on the way
//! to the child, in one order.
use crate::osc;
use crate::osc::{OscAction, OscColorSnapshot, OscColorState, OscEvent, OscReply, OscRouter};
use crate::pty::{PtySupervisor, Session, SlotsView};
use crate::text;
use vstd::prelude::*;

verus! {

/// What a viewer is told of a tab's output.
#[derive(Debug, PartialEq, Eq)]
pub enum TabOutput {
    /// Bytes for the screen; nobody has looked at their control sequences yet.
    Bytes(Vec<u8>),
    /// Bytes for the screen, and what their control sequences ask for. Queries among them
    /// are answered already.
    Scanned { data: Vec<u8>, actions: Vec<OscAction> },
    Exit { status: i32, reason: String },
    Error(String),
}

/// One thing owed to a child, in the order it was asked for.
#[derive(Debug, PartialEq, Eq)]
pub enum PtyCommand {
    Input(Vec<u8>),
    Resize { cols: u16, rows: u16 },
}

/// A [`PtyCommand`] by what it holds.
pub enum CommandView {
    Input(Seq<u8>),
    Resize { cols: u16, rows: u16 },
}

impl View for PtyCommand {
    type V = CommandView;

    open spec fn view(&self) -> CommandView {
        match self {
            PtyCommand::Input(data) => CommandView::Input(data@),
            PtyCommand::Resize { cols, rows } => CommandView::Resize { cols: *cols, rows: *rows },
        }
    }
}

/// A list of commands by what it holds.
pub open spec fn commands(list: Seq<PtyCommand>) -> Seq<CommandView> {
    Seq::new(list.len(), |i: int| list[i]@)
}

/// One viewer's hold on a tab.
#[derive(Debug, PartialEq, Eq)]
pub struct TabSession {
    pub tab_id: i64,
    /// What is owed to the child, the oldest first.
    pub queue: Vec<PtyCommand>,
    /// Everything put in the queue as input, where a test asked for it.
    pub input_capture: Option<Vec<u8>>,
    /// The colors that queries are answered from, where the session looks at control
    /// sequences itself.
    pub osc: Option<OscColorState>,
}

/// A [`TabSession`]'s way to the child.
#[verifier::ext_equal]
pub struct InputView {
    pub queue: Seq<CommandView>,
    pub capture: Option<Seq<u8>>,
}

impl InputView {
    /// After a payload was put in the queue. An empty one leaves no trace.
    pub open spec fn input(self, data: Seq<u8>) -> InputView {
        if data.len() == 0 {
            self
        } else {
            InputView {
                queue: self.queue.push(CommandView::Input(data)),
                capture: match self.capture {
                    Some(seen) => Some(seen + data),
                    None => None,
                },
            }
        }
    }

    /// After payloads were put in the queue, one by one.
    pub open spec fn inputs(self, list: Seq<Seq<u8>>) -> InputView
        decreases list.len(),
    {
        if list.len() == 0 {
            self
        } else {
            self.inputs(list.drop_last()).input(list.last())
        }
    }

    /// After a new size was put in the queue.
    pub open spec fn resize(self, cols: u16, rows: u16) -> InputView {
        InputView { queue: self.queue.push(CommandView::Resize { cols, rows }), ..self }
    }
}

impl View for TabSession {
    type V = InputView;

    open spec fn view(&self) -> InputView {
        InputView {
            queue: commands(self.queue@),
            capture: match self.input_capture {
                Some(bytes) => Some(bytes@),
                None => None,
            },
        }
    }
}

/// The input in a queue, end to end.
pub open spec fn payloads(queue: Seq<CommandView>) -> Seq<u8>
    decreases queue.len(),
{
    if queue.len() == 0 {
        seq![]
    } else {
        match queue.last() {
            CommandView::Input(data) => payloads(queue.drop_last()) + data,
            CommandView::Resize { .. } => payloads(queue.drop_last()),
        }
    }
}

/// What is captured is what is queued: neither input nor a resize parts the two.
pub proof fn law_the_capture_is_the_queue(view: InputView, data: Seq<u8>, cols: u16, rows: u16)
    requires
        view.capture == Some(payloads(view.queue)),
    ensures
        view.input(data).capture == Some(payloads(view.input(data).queue)),
        view.resize(cols, rows).capture == Some(payloads(view.resize(cols, rows).queue)),
{
    let pushed = view.queue.push(CommandView::Input(data));
    assert(pushed.drop_last() =~= view.queue);
    let resized = view.queue.push(CommandView::Resize { cols, rows });
    assert(resized.drop_last() =~= view.queue);
}

/// Payloads reach the child in the order they were put in.
pub proof fn law_input_keeps_its_order(view: InputView, list: Seq<Seq<u8>>)
    requires
        forall|i: int| 0 <= i < list.len() ==> (#[trigger] list[i]).len() > 0,
    ensures
        view.inputs(list).queue == view.queue + Seq::new(
            list.len(),
            |i: int| CommandView::Input(list[i]),
        ),
    decreases list.len(),
{
    let all = Seq::new(list.len(), |i: int| CommandView::Input(list[i]));
    if list.len() > 0 {
        let init = list.drop_last();
        assert(forall|i: int| 0 <= i < init.len() ==> init[i] == list[i]);
        law_input_keeps_its_order(view, init);
        let some = Seq::new(init.len(), |i: int| CommandView::Input(init[i]));
        assert(all =~= some.push(CommandView::Input(list.last())));
        assert(list[list.len() - 1] == list.last());
        assert((view.queue + some).push(CommandView::Input(list.last())) =~= view.queue + all);
    } else {
        assert(view.queue + all =~= view.queue);
    }
}

/// The answers among actions, in order.
pub open spec fn answers_in(actions: Seq<osc::ActionView>) -> Seq<Seq<OscReply>>
    decreases actions.len(),
{
    if actions.len() == 0 {
        seq![]
    } else {
        match actions.last() {
            osc::ActionView::PtyInput(replies) => answers_in(actions.drop_last()).push(replies),
            _ => answers_in(actions.drop_last()),
        }
    }
}

/// The rest of the actions, in order.
pub open spec fn forwarded_in(actions: Seq<osc::ActionView>) -> Seq<osc::ActionView>
    decreases actions.len(),
{
    if actions.len() == 0 {
        seq![]
    } else {
        match actions.last() {
            osc::ActionView::PtyInput(_) => forwarded_in(actions.drop_last()),
            other => forwarded_in(actions.drop_last()).push(other),
        }
    }
}

/// Lists of answers by what they hold.
pub open spec fn reply_lists(list: Seq<Vec<OscReply>>) -> Seq<Seq<OscReply>> {
    Seq::new(list.len(), |i: int| list[i]@)
}

/// What a scan of one chunk came to.
#[derive(Debug, PartialEq, Eq)]
pub struct Scan {
    /// The answers to put in the queue, each as one payload.
    pub replies: Vec<Vec<OscReply>>,
    /// What travels on with the bytes.
    pub actions: Vec<OscAction>,
}

/// Looks at one chunk's control sequences: answers queries from the colors as they were when
/// the chunk came, follows the colors it sets, and parts the answers from the rest.
pub fn scan_and_reply(colors: &mut OscColorState, events: Vec<OscEvent>) -> (scan: Scan)
    ensures
        reply_lists(scan.replies@) == answers_in(osc::actions_of(events@, old(colors)@.current)),
        osc::action_views(scan.actions@) == forwarded_in(
            osc::actions_of(events@, old(colors)@.current),
        ),
        final(colors)@ == old(colors)@.apply_all(events@),
        old(colors)@.ok() ==> final(colors)@.ok(),
{
    let router = OscRouter::new();
    let actions = router.feed_stateful(events, colors);
    let ghost all = actions@;
    let ghost views = osc::action_views(all);
    let mut replies: Vec<Vec<OscReply>> = Vec::new();
    let mut forwarded: Vec<OscAction> = Vec::new();
    assert(views.take(0) =~= seq![]);
    assert(reply_lists(replies@) =~= seq![]);
    assert(osc::action_views(forwarded@) =~= seq![]);
    for action in it: actions
        invariant
            it.seq() == all,
            views == osc::action_views(all),
            reply_lists(replies@) == answers_in(views.take(it.index() as int)),
            osc::action_views(forwarded@) == forwarded_in(views.take(it.index() as int)),
    {
        let ghost n = it.index() as int;
        let ghost before = reply_lists(replies@);
        let ghost passed = osc::action_views(forwarded@);
        proof {
            assert(views.take(n + 1).drop_last() =~= views.take(n));
            assert(views.take(n + 1).last() == action@);
        }
        match action {
            OscAction::PtyInput(reply) => {
                replies.push(reply);
                assert(reply_lists(replies@) =~= before.push(reply@));
            },
            other => {
                forwarded.push(other);
                assert(osc::action_views(forwarded@) =~= passed.push(other@));
            },
        }
    }
    assert(views.take(all.len() as int) =~= views);
    Scan { replies, actions: forwarded }
}

/// Where a viewer's output comes from.
#[derive(Clone, Copy, Debug, PartialEq, Eq, Structural)]
pub enum OutputSource {
    /// What was kept since before the child wrote anything.
    Initial,
    /// What the child writes from now on.
    Subscribed,
}

/// What reaches a viewer's forwarding task. The control sequences in the bytes come with
/// them.
#[derive(Debug, PartialEq, Eq)]
pub enum Incoming {
    Bytes { data: Vec<u8>, events: Vec<OscEvent> },
    Exit { status: i32 },
    Lagged { missed: u64 },
    Closed,
}

/// What the forwarding task does with it.
#[derive(Debug, PartialEq, Eq)]
pub struct Forward {
    pub output: Option<TabOutput>,
    /// Answers to put in the queue first.
    pub replies: Vec<Vec<OscReply>>,
    pub stop: bool,
}

/// The words for output that was lost.
pub open spec fn lag_text(missed: u64) -> Seq<char> {
    "broadcast lagged: dropped "@ + text::decimal(missed as nat) + " message(s)"@
}

/// Whether this is what becomes of one thing on a tab's output, where the session answers from
/// these colors or from none.
pub open spec fn forwards(colors: Option<OscColorState>, incoming: Incoming, out: Forward) -> bool {
    match incoming {
        Incoming::Bytes { data, events } => !out.stop && match colors {
            None => out.replies@.len() == 0 && out.output == Some(TabOutput::Bytes(data)),
            Some(colors) => {
                let actions = osc::actions_of(events@, colors@.current);
                &&& reply_lists(out.replies@) == answers_in(actions)
                &&& out.output matches Some(TabOutput::Scanned { data: passed, actions: rest })
                    && passed == data && osc::action_views(rest@) == forwarded_in(actions)
            },
        },
        Incoming::Exit { status } => out.stop && out.replies@.len() == 0 && (out.output
            matches Some(TabOutput::Exit { status: code, reason }) && code == status && reason@
            == ""@),
        Incoming::Lagged { missed } => !out.stop && out.replies@.len() == 0 && (out.output
            matches Some(TabOutput::Error(why)) && why@ == lag_text(missed)),
        Incoming::Closed => out.stop && out.replies@.len() == 0 && out.output is None,
    }
}

impl TabSession {
    /// A hold on a tab that the supervisor runs. With colors to start from, the session looks
    /// at control sequences itself.
    pub fn attach_with_receiver_scanned(
        tab_id: i64,
        capture: bool,
        osc_seed: Option<OscColorSnapshot>,
    ) -> (out: TabSession)
        ensures
            out.tab_id == tab_id,
            out.queue@.len() == 0,
            out@.capture == (if capture {
                Some(Seq::<u8>::empty())
            } else {
                None
            }),
            out.osc is Some <==> osc_seed is Some,
            osc_seed matches Some(seed) ==> out.osc->0@ == osc::StateView::seeded(seed@),
    {
        let input_capture: Option<Vec<u8>> = if capture {
            Some(Vec::new())
        } else {
            None
        };
        let osc = match osc_seed {
            Some(seed) => Some(OscColorState::new(seed)),
            None => None,
        };
        TabSession { tab_id, queue: Vec::new(), input_capture, osc }
    }

    /// Where a viewer's output comes from: the first one gets what was kept for it, any later
    /// one a fresh subscription. A tab without a session cannot be held.
    pub fn attach(supervisor: &mut PtySupervisor, tab_id: i64) -> (out: Result<
        OutputSource,
        String,
    >)
        ensures
            out is Ok <==> old(supervisor)@.sessions.dom().contains(tab_id),
            out matches Ok(source) ==> source == (if old(supervisor)@.sessions[tab_id].initial {
                OutputSource::Initial
            } else {
                OutputSource::Subscribed
            }),
            out matches Err(why) ==> why@ == "no live PTY for tab "@ + text::decimal_int(
                tab_id as int,
            ),
            final(supervisor)@ == (if out == Ok::<_, String>(OutputSource::Initial) {
                SlotsView {
                    sessions: old(supervisor)@.sessions.insert(
                        tab_id,
                        Session { spawn: old(supervisor)@.sessions[tab_id].spawn, initial: false },
                    ),
                    ..old(supervisor)@
                }
            } else {
                old(supervisor)@
            }),
    {
        if supervisor.take_initial_receiver(tab_id) {
            return Ok(OutputSource::Initial);
        }
        if supervisor.has(tab_id) {
            return Ok(OutputSource::Subscribed);
        }
        Err(text::join2("no live PTY for tab ", text::decimal_i64(tab_id).as_str()))
    }

    /// Puts a payload in the queue, and in the capture first. An empty one is dropped.
    pub fn send_input(&mut self, data: Vec<u8>)
        ensures
            final(self)@ == old(self)@.input(data@),
            final(self).tab_id == old(self).tab_id,
            final(self).osc == old(self).osc,
    {
        if data.len() == 0 {
            return;
        }
        let mut capture: Option<Vec<u8>> = None;
        core::mem::swap(&mut capture, &mut self.input_capture);
        match capture {
            Some(mut seen) => {
                let mut i: usize = 0;
                let ghost before = seen@;
                while i < data.len()
                    invariant
                        i <= data@.len(),
                        seen@ == before + data@.take(i as int),
                    decreases data@.len() - i,
                {
                    seen.push(data[i]);
                    assert(seen@ =~= before + data@.take(i + 1));
                    i = i + 1;
                }
                assert(data@.take(i as int) =~= data@);
                self.input_capture = Some(seen);
            },
            None => {},
        }
        let ghost before = commands(self.queue@);
        self.queue.push(PtyCommand::Input(data));
        assert(commands(self.queue@) =~= before.push(CommandView::Input(data@)));
        assert(self@ =~= old(self)@.input(data@));
    }

    /// Puts a new size in the queue.
    pub fn send_resize(&mut self, cols: u16, rows: u16)
        ensures
            final(self)@ == old(self)@.resize(cols, rows),
            final(self).tab_id == old(self).tab_id,
            final(self).osc == old(self).osc,
    {
        let ghost before = commands(self.queue@);
        self.queue.push(PtyCommand::Resize { cols, rows });
        assert(commands(self.queue@) =~= before.push(CommandView::Resize { cols, rows }));
        assert(self@ =~= old(self)@.resize(cols, rows));
    }

    /// Looks at a chunk that did not come from the child. Without colors to answer from there
    /// is nothing to look with.
    pub fn scan_osc(&mut self, events: Vec<OscEvent>) -> (scan: Scan)
        ensures
            final(self)@ == old(self)@,
            final(self).tab_id == old(self).tab_id,
            final(self).osc is Some <==> old(self).osc is Some,
            match old(self).osc {
                None => scan.replies@.len() == 0 && scan.actions@.len() == 0,
                Some(colors) => reply_lists(scan.replies@) == answers_in(
                    osc::actions_of(events@, colors@.current),
                ) && osc::action_views(scan.actions@) == forwarded_in(
                    osc::actions_of(events@, colors@.current),
                ) && final(self).osc->0@ == colors@.apply_all(events@),
            },
    {
        let mut osc: Option<OscColorState> = None;
        core::mem::swap(&mut osc, &mut self.osc);
        match osc {
            None => Scan { replies: Vec::new(), actions: Vec::new() },
            Some(mut colors) => {
                let scan = scan_and_reply(&mut colors, events);
                self.osc = Some(colors);
                scan
            },
        }
    }

    /// Starts the colors over from a new theme. Without colors there is nothing to do.
    pub fn reseed_osc_colors(&mut self, seed: OscColorSnapshot)
        ensures
            final(self)@ == old(self)@,
            final(self).tab_id == old(self).tab_id,
            final(self).osc is Some <==> old(self).osc is Some,
            old(self).osc matches Some(colors) ==> final(self).osc->0@ == colors@.reseed(seed@),
    {
        let mut osc: Option<OscColorState> = None;
        core::mem::swap(&mut osc, &mut self.osc);
        match osc {
            None => {},
            Some(mut colors) => {
                colors.reseed(seed);
                self.osc = Some(colors);
            },
        }
    }

    /// What becomes of one thing on a tab's output: bytes go to the screen, with what their
    /// control sequences ask for where the session looks at them; an exit and a closed source
    /// end the forwarding; a loss is told.
    pub fn forward(&mut self, incoming: Incoming) -> (out: Forward)
        ensures
            forwards(old(self).osc, incoming, out),
            final(self)@ == old(self)@,
            final(self).tab_id == old(self).tab_id,
            final(self).osc is Some <==> old(self).osc is Some,
            match incoming {
                Incoming::Bytes { data, events } => !out.stop && match old(self).osc {
                    None => out.replies@.len() == 0 && out.output == Some(TabOutput::Bytes(data))
                        && final(self).osc == old(self).osc,
                    Some(colors) => reply_lists(out.replies@) == answers_in(
                        osc::actions_of(events@, colors@.current),
                    ) && (out.output matches Some(TabOutput::Scanned { data: passed, actions })
                        && passed == data && osc::action_views(actions@) == forwarded_in(
                        osc::actions_of(events@, colors@.current),
                    )) && final(self).osc->0@ == colors@.apply_all(events@),
                },
                Incoming::Exit { status } => out.stop && out.replies@.len() == 0 && final(self).osc == old(self).osc && (out.output matches Some(
                    TabOutput::Exit { status: code, reason },
                ) && code == status && reason@ == ""@),
                Incoming::Lagged { missed } => !out.stop && out.replies@.len() == 0 && final(self).osc == old(self).osc && (out.output matches Some(TabOutput::Error(why)) && why@
                    == lag_text(missed)),
                Incoming::Closed => out.stop && out.replies@.len() == 0 && out.output is None
                    && final(self).osc == old(self).osc,
            },
    {
        match incoming {
            Incoming::Bytes { data, events } => {
                if self.osc.is_none() {
                    return Forward {
                        output: Some(TabOutput::Bytes(data)),
                        replies: Vec::new(),
                        stop: false,
                    };
                }
                let scan = self.scan_osc(events);
                Forward {
                    output: Some(TabOutput::Scanned { data, actions: scan.actions }),
                    replies: scan.replies,
                    stop: false,
                }
            },
            Incoming::Exit { status } => Forward {
                output: Some(TabOutput::Exit { status, reason: "".to_owned() }),
                replies: Vec::new(),
                stop: true,
            },
            Incoming::Lagged { missed } => Forward {
                output: Some(
                    TabOutput::Error(
                        text::join3(
                            "broadcast lagged: dropped ",
                            text::decimal_u64(missed).as_str(),
                            " message(s)",
                        ),
                    ),
                ),
                replies: Vec::new(),
                stop: false,
            },
            Incoming::Closed => Forward { output: None, replies: Vec::new(), stop: true },
        }
    }
}

/// What input becomes: a payload of one byte or more is the newest entry, whole, and the end
/// of the capture; an empty one leaves no trace. A size is the newest entry and no input.
pub proof fn law_input_is_queued_and_captured(
    view: InputView,
    data: Seq<u8>,
    cols: u16,
    rows: u16,
)
    ensures
        data.len() > 0 ==> view.input(data).queue == view.queue.push(CommandView::Input(data)),
        data.len() > 0 ==> (view.capture matches Some(seen) ==> view.input(data).capture == Some(
            seen + data,
        )),
        data.len() == 0 ==> view.input(data).queue == view.queue && view.input(data).capture
            == view.capture,
        view.capture is None ==> view.input(data).capture is None,
        view.resize(cols, rows).queue == view.queue.push(CommandView::Resize { cols, rows }),
        view.resize(cols, rows).capture == view.capture,
{
}

/// Where each action of a chunk goes: an answer to the queue, everything else on with the
/// bytes, each once and in its order.
pub proof fn law_each_action_goes_one_way(actions: Seq<osc::ActionView>, next: osc::ActionView)
    ensures
        answers_in(seq![]).len() == 0,
        forwarded_in(seq![]).len() == 0,
        next matches osc::ActionView::PtyInput(replies) ==> answers_in(actions.push(next))
            == answers_in(actions).push(replies) && forwarded_in(actions.push(next))
            == forwarded_in(actions),
        !(next is PtyInput) ==> forwarded_in(actions.push(next)) == forwarded_in(actions).push(
            next,
        ) && answers_in(actions.push(next)) == answers_in(actions),
{
    assert(actions.push(next).drop_last() =~= actions);
}

/// Nothing of a chunk is lost between the two ways.
pub proof fn law_no_action_is_lost(actions: Seq<osc::ActionView>)
    ensures
        answers_in(actions).len() + forwarded_in(actions).len() == actions.len(),
    decreases actions.len(),
{
    if actions.len() > 0 {
        law_no_action_is_lost(actions.drop_last());
    }
}

/// What is queued as input reads end to end as it was put in, whatever sizes stand between.
pub proof fn law_the_queue_holds_its_input(queue: Seq<CommandView>, data: Seq<u8>, cols: u16, rows: u16)
    ensures
        payloads(seq![]).len() == 0,
        payloads(queue.push(CommandView::Input(data))) == payloads(queue) + data,
        payloads(queue.push(CommandView::Resize { cols, rows })) == payloads(queue),
{
    assert(queue.push(CommandView::Input(data)).drop_last() =~= queue);
    assert(queue.push(CommandView::Resize { cols, rows }).drop_last() =~= queue);
}

/// A loss is told with the number of what was lost.
pub proof fn law_a_loss_is_counted(missed: u64)
    ensures
        lag_text(missed) == "broadcast lagged: dropped "@ + text::decimal(missed as nat)
            + " message(s)"@,
{
}

/// What a session's queue and its lists are seen as is what they hold, one by one.
pub proof fn law_a_session_is_seen_as_it_is(
    session: TabSession,
    replies: Seq<Vec<OscReply>>,
    i: int,
)
    ensures
        session@.queue.len() == session.queue@.len(),
        0 <= i < session.queue@.len() ==> (match session.queue@[i] {
            PtyCommand::Input(data) => session@.queue[i] == CommandView::Input(data@),
            PtyCommand::Resize { cols, rows } => session@.queue[i] == (CommandView::Resize {
                cols,
                rows,
            }),
        }),
        session.input_capture matches Some(bytes) ==> session@.capture == Some(bytes@),
        session.input_capture is None ==> session@.capture is None,
        reply_lists(replies).len() == replies.len(),
        0 <= i < replies.len() ==> reply_lists(replies)[i] == replies[i]@,
{
}

/// What a viewer gets of a tab: its bytes whole, whether the session looks at them or not, with
/// the answers apart from the rest; its exit with its status, and a loss with its number. Only an
/// exit and a closed source end the forwarding.
pub proof fn law_a_viewer_gets_what_the_tab_wrote(
    colors: Option<OscColorState>,
    incoming: Incoming,
    out: Forward,
)
    requires
        forwards(colors, incoming, out),
    ensures
        out.stop <==> incoming is Exit || incoming is Closed,
        incoming matches Incoming::Bytes { data, events } ==> (match out.output {
            Some(TabOutput::Bytes(passed)) => colors is None && passed == data
                && out.replies@.len() == 0,
            Some(TabOutput::Scanned { data: passed, actions }) => colors is Some && passed == data
                && actions@.len() + out.replies@.len() == osc::actions_of(
                events@,
                colors->0@.current,
            ).len(),
            _ => false,
        }),
        incoming matches Incoming::Exit { status } ==> (out.output matches Some(
            TabOutput::Exit { status: code, .. },
        ) && code == status),
        incoming matches Incoming::Lagged { missed } ==> (out.output matches Some(
            TabOutput::Error(why),
        ) && why@ == "broadcast lagged: dropped "@ + text::decimal(missed as nat)
            + " message(s)"@),
        incoming is Closed ==> out.output is None,
        !(incoming is Bytes) ==> out.replies@.len() == 0,
{
    if let Incoming::Bytes { data, events } = incoming {
        if let Some(state) = colors {
            let actions = osc::actions_of(events@, state@.current);
            law_no_action_is_lost(actions);
            assert(reply_lists(out.replies@).len() == out.replies@.len());
            if let Some(TabOutput::Scanned { data: passed, actions: rest }) = out.output {
                assert(osc::action_views(rest@).len() == rest@.len());
            }
        }
    }
}

} // verus!
