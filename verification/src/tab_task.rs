//! One tab's authority over its output, input, size, snapshots and exit.
use vstd::prelude::*;
use vstd::string::*;

use std::collections::VecDeque;
use std::sync::Arc;

use crate::ipc::{DumpData, ResolvedCellData, ResolvedCellsData};
use crate::pty::{PtyOutputEvent, PtySize, WriterCmd};
use crate::text;

verus! {

/// A tab's snapshot and the identity and fence it was taken at: the first record a client
/// sees after it carries `seq + 1`.
#[derive(Debug, PartialEq, Eq)]
pub struct SnapshotAt {
    pub seq: u64,
    pub server_epoch: u64,
    pub tab_generation: u64,
    pub bytes: Vec<u8>,
}

/// One command put to a tab. Where a command is answered, the caller holds the other end.
#[derive(Debug, PartialEq, Eq)]
pub enum TabCmd {
    /// Client keystrokes.
    Input(Vec<u8>),
    /// A new size. `ack` says whether somebody waits for both halves to take it.
    Resize { cols: u16, rows: u16, cell_w: u32, cell_h: u32, ack: bool },
    Snapshot,
    Resume { from_seq: u64 },
    Dump,
    DumpResolved,
    /// Bytes put in as if the child had written them.
    FeedBytes(Vec<u8>),
    /// What was queued toward the child; `drain` empties the record.
    CaptureInput { drain: bool },
}

/// Why a tab did not answer a command.
#[derive(Debug, PartialEq, Eq)]
pub enum TabError {
    Gone,
    SnapshotFailed(String),
    Render(String),
    /// The child did not take a new size.
    WinsizeFailed(String),
    /// A resume from outside what the tab still holds.
    RingMiss { from_seq: u64, front: u64, last_assigned: u64 },
}

impl TabError {
    /// The error in words.
    pub open spec fn text(self) -> Seq<char> {
        match self {
            TabError::Gone => "the tab task is gone"@,
            TabError::SnapshotFailed(why) => "snapshot encode failed: "@ + why@,
            TabError::Render(why) => "reading the tab's screen failed: "@ + why@,
            TabError::WinsizeFailed(why) => "the child's window size failed: "@ + why@,
            TabError::RingMiss { from_seq, front, last_assigned } => "resume from seq "@
                + text::decimal(from_seq as nat) + " is outside the replay ring (front "@
                + text::decimal(front as nat) + ", last assigned "@ + text::decimal(
                last_assigned as nat,
            ) + ")"@,
        }
    }

    /// The error in words.
    pub fn message(&self) -> (out: String)
        ensures
            out@ == self.text(),
    {
        match self {
            TabError::Gone => "the tab task is gone".to_owned(),
            TabError::SnapshotFailed(why) => text::join2("snapshot encode failed: ", why.as_str()),
            TabError::Render(why) => text::join2(
                "reading the tab's screen failed: ",
                why.as_str(),
            ),
            TabError::WinsizeFailed(why) => text::join2(
                "the child's window size failed: ",
                why.as_str(),
            ),
            TabError::RingMiss { from_seq, front, last_assigned } => {
                let from: String = text::decimal_u64(*from_seq);
                let first: String = text::decimal_u64(*front);
                let last: String = text::decimal_u64(*last_assigned);
                let mut out: String = text::join4(
                    "resume from seq ",
                    from.as_str(),
                    " is outside the replay ring (front ",
                    first.as_str(),
                );
                out.append(", last assigned ");
                out.append(last.as_str());
                out.append(")");
                out
            },
        }
    }
}

/// Scrollback a tab's terminal keeps.
pub const SERVER_VT_SCROLLBACK: usize = 2000;

/// Byte cap on what a terminal keeps of an unfinished sequence.
pub const SERVER_VT_CONTINUATION_MAX: usize = 1048576;

/// Chunks that may wait between a tab's reader and its task.
pub const TAB_CHANNEL_CHUNKS: usize = 32;

/// Commands that may wait for a tab's task.
pub const TAB_CMD_CAPACITY: usize = 64;

/// Byte cap on a tab's replay ring.
pub const REPLAY_RING_BYTES: usize = 2097152;

/// Byte cap on what is held for the child while it does not read.
pub const REPLY_PENDING_MAX: usize = 65536;

/// Tabs that may encode a snapshot at once.
pub const MAX_CONCURRENT_SNAPSHOTS: usize = 4;

/// Where a tab applies what its output says of the workspace.
pub trait ServerVtWorkspace {
    /// Applies one workspace transition.
    fn apply_osc(&self, tab_id: i64, command: u32, payload: &str);

    /// The tab's process is gone: drop its row.
    fn close_row(&self, tab_id: i64);
}

/// How the tab tasks of a session are set up.
pub struct ServerVtConfig<W: ServerVtWorkspace> {
    pub workspace: Arc<W>,
    pub capture_pty_input: bool,
}

impl<W: ServerVtWorkspace> ServerVtConfig<W> {
    /// A configuration that keeps no record of input.
    pub fn new(workspace: Arc<W>) -> (config: Self)
        ensures
            config.workspace == workspace,
            !config.capture_pty_input,
    {
        ServerVtConfig { workspace, capture_pty_input: false }
    }

    /// Whether every byte queued toward a child is kept for reading back.
    pub fn with_input_capture(self, capture: bool) -> (config: Self)
        ensures
            config.workspace == self.workspace,
            config.capture_pty_input == capture,
    {
        let mut config = self;
        config.capture_pty_input = capture;
        config
    }
}

/// How many bytes a command holds for the child.
pub open spec fn cmd_bytes(cmd: WriterCmd) -> nat {
    match cmd {
        WriterCmd::Input(data) => data@.len(),
        WriterCmd::Resize(_) => 0,
    }
}

/// How many bytes a command holds for the child.
pub fn writer_cmd_len(cmd: &WriterCmd) -> (n: usize)
    ensures
        n == cmd_bytes(*cmd),
{
    match cmd {
        WriterCmd::Input(data) => data.len(),
        WriterCmd::Resize(_) => 0,
    }
}

/// How many bytes a queue holds for the child.
pub open spec fn queue_bytes(queue: Seq<WriterCmd>) -> nat
    decreases queue.len(),
{
    if queue.len() == 0 {
        0
    } else {
        queue_bytes(queue.drop_first()) + cmd_bytes(queue[0])
    }
}

/// The place of the oldest input in a queue, or its length.
pub open spec fn oldest_input(queue: Seq<WriterCmd>) -> int
    decreases queue.len(),
{
    if queue.len() == 0 {
        0
    } else if queue[0] is Input {
        0
    } else {
        1 + oldest_input(queue.drop_first())
    }
}

/// A queue past the cap loses its oldest inputs, but never its newest entry and never a
/// resize.
pub open spec fn trimmed_queue(queue: Seq<WriterCmd>) -> Seq<WriterCmd>
    decreases queue.len(),
{
    let at = oldest_input(queue);
    if queue_bytes(queue) > REPLY_PENDING_MAX && 0 <= at < queue.len() - 1 {
        trimmed_queue(queue.remove(at))
    } else {
        queue
    }
}

/// The resizes of a queue, in order.
pub open spec fn resizes(queue: Seq<WriterCmd>) -> Seq<WriterCmd> {
    queue.filter(|cmd: WriterCmd| cmd is Resize)
}

proof fn lemma_oldest_input(queue: Seq<WriterCmd>)
    ensures
        0 <= oldest_input(queue) <= queue.len(),
        forall|k: int| 0 <= k < oldest_input(queue) ==> !(#[trigger] queue[k] is Input),
        oldest_input(queue) < queue.len() ==> queue[oldest_input(queue)] is Input,
    decreases queue.len(),
{
    if queue.len() > 0 && !(queue[0] is Input) {
        let rest = queue.drop_first();
        lemma_oldest_input(rest);
        assert forall|k: int| 0 <= k < oldest_input(queue) implies !(#[trigger] queue[k]
            is Input) by {
            if k > 0 {
                assert(rest[k - 1] == queue[k]);
            }
        }
    }
}

proof fn lemma_oldest_input_is(queue: Seq<WriterCmd>, at: int)
    requires
        0 <= at <= queue.len(),
        forall|k: int| 0 <= k < at ==> !(#[trigger] queue[k] is Input),
        at < queue.len() ==> queue[at] is Input,
    ensures
        oldest_input(queue) == at,
{
    lemma_oldest_input(queue);
    let f = oldest_input(queue);
    if f < at {
        assert(!(queue[f] is Input));
    }
    if at < f {
        assert(!(queue[at] is Input));
    }
}

proof fn lemma_queue_bytes_remove(queue: Seq<WriterCmd>, at: int)
    requires
        0 <= at < queue.len(),
    ensures
        queue_bytes(queue.remove(at)) + cmd_bytes(queue[at]) == queue_bytes(queue),
    decreases queue.len(),
{
    if at == 0 {
        assert(queue.remove(0) =~= queue.drop_first());
    } else {
        lemma_queue_bytes_remove(queue.drop_first(), at - 1);
        assert(queue.remove(at).drop_first() =~= queue.drop_first().remove(at - 1));
        assert(queue.remove(at)[0] == queue[0]);
    }
}

proof fn lemma_queue_bytes_push(queue: Seq<WriterCmd>, cmd: WriterCmd)
    ensures
        queue_bytes(queue.push(cmd)) == queue_bytes(queue) + cmd_bytes(cmd),
    decreases queue.len(),
{
    if queue.len() > 0 {
        lemma_queue_bytes_push(queue.drop_first(), cmd);
        assert(queue.push(cmd).drop_first() =~= queue.drop_first().push(cmd));
    } else {
        assert(queue.push(cmd).drop_first() =~= queue);
    }
}

proof fn lemma_filter_remove(queue: Seq<WriterCmd>, at: int)
    requires
        0 <= at < queue.len(),
        !(queue[at] is Resize),
    ensures
        resizes(queue.remove(at)) == resizes(queue),
{
    let keep = |cmd: WriterCmd| cmd is Resize;
    let head = queue.take(at);
    let tail = queue.skip(at + 1);
    assert(queue.remove(at) =~= head + tail);
    assert(queue =~= head + (seq![queue[at]] + tail));
    Seq::filter_distributes_over_add(head, tail, keep);
    Seq::filter_distributes_over_add(head, seq![queue[at]] + tail, keep);
    Seq::filter_distributes_over_add(seq![queue[at]], tail, keep);
    assert(seq![queue[at]].filter(keep) =~= seq![]) by {
        reveal_with_fuel(Seq::filter, 2);
        assert(seq![queue[at]].drop_last() =~= seq![]);
    }
    assert(seq![queue[at]].filter(keep) + tail.filter(keep) =~= tail.filter(keep));
}

/// What a queue past its cap gives up: never a resize, never its newest entry, and never
/// more than it must. What is left is within the cap, or holds no input but the newest.
pub proof fn law_a_full_queue_drops_only_old_input(queue: Seq<WriterCmd>)
    requires
        queue.len() > 0,
    ensures
        resizes(trimmed_queue(queue)) == resizes(queue),
        trimmed_queue(queue).len() > 0,
        trimmed_queue(queue).last() == queue.last(),
        queue_bytes(trimmed_queue(queue)) <= queue_bytes(queue),
        queue_bytes(queue) <= REPLY_PENDING_MAX ==> trimmed_queue(queue) == queue,
        queue_bytes(trimmed_queue(queue)) <= REPLY_PENDING_MAX || oldest_input(
            trimmed_queue(queue),
        ) >= trimmed_queue(queue).len() - 1,
    decreases queue.len(),
{
    let at = oldest_input(queue);
    lemma_oldest_input(queue);
    if queue_bytes(queue) > REPLY_PENDING_MAX && 0 <= at < queue.len() - 1 {
        lemma_filter_remove(queue, at);
        lemma_queue_bytes_remove(queue, at);
        law_a_full_queue_drops_only_old_input(queue.remove(at));
    }
}

/// A write that found no room is not lost and keeps its place: taken and put back, it leaves
/// the queue as it was.
pub proof fn law_a_refused_write_keeps_its_place(queue: Seq<WriterCmd>)
    requires
        queue.len() > 0,
    ensures
        seq![queue[0]] + queue.drop_first() == queue,
{
    assert(seq![queue[0]] + queue.drop_first() =~= queue);
}

/// A tab's replay ring: the newest records it published, with their places.
pub type Ring = Seq<(u64, Seq<u8>)>;

/// How many bytes a ring holds.
pub open spec fn ring_total(ring: Ring) -> nat
    decreases ring.len(),
{
    if ring.len() == 0 {
        0
    } else {
        ring_total(ring.drop_first()) + ring[0].1.len()
    }
}

/// A ring past its cap loses its oldest records, but never its newest.
pub open spec fn evicted(ring: Ring) -> Ring
    decreases ring.len(),
{
    if ring_total(ring) > REPLAY_RING_BYTES && ring.len() > 1 {
        evicted(ring.drop_first())
    } else {
        ring
    }
}

proof fn lemma_ring_total_push(ring: Ring, record: (u64, Seq<u8>))
    ensures
        ring_total(ring.push(record)) == ring_total(ring) + record.1.len(),
    decreases ring.len(),
{
    if ring.len() > 0 {
        lemma_ring_total_push(ring.drop_first(), record);
        assert(ring.push(record).drop_first() =~= ring.drop_first().push(record));
    } else {
        assert(ring.push(record).drop_first() =~= ring);
    }
}

/// What a ring past its cap gives up: a prefix, and no more of one than it must; the newest
/// record stays.
pub proof fn law_a_full_ring_drops_only_old_records(ring: Ring)
    requires
        ring.len() > 0,
    ensures
        0 < evicted(ring).len() <= ring.len(),
        evicted(ring) == ring.skip(ring.len() - evicted(ring).len()),
        ring_total(evicted(ring)) <= REPLAY_RING_BYTES || evicted(ring).len() == 1,
        ring_total(ring) <= REPLAY_RING_BYTES ==> evicted(ring) == ring,
    decreases ring.len(),
{
    if ring_total(ring) > REPLAY_RING_BYTES && ring.len() > 1 {
        let rest = ring.drop_first();
        law_a_full_ring_drops_only_old_records(rest);
        let n = evicted(rest).len() as int;
        assert(rest.skip(rest.len() - n) =~= ring.skip(ring.len() - n));
    } else {
        assert(ring.skip(0) =~= ring);
    }
}

/// What a tab still holds from `from` on, with what it has published so far.
#[derive(Debug, PartialEq, Eq)]
pub struct ResumeAt {
    pub slice: Vec<(u64, Vec<u8>)>,
    pub last_assigned: u64,
    /// Set once the tab has exited, so that a late resume still ends in the exit.
    pub stored_exit: Option<(u64, i32)>,
}

/// One tab's stream: the places it hands out, what it can replay, what it owes the child,
/// and its exit.
#[derive(Debug, PartialEq, Eq)]
pub struct TabTask {
    pub writer_gone: bool,
    pub next_seq: u64,
    /// The last place an output record got. The exit takes a place of its own.
    pub last_byte_seq: u64,
    pub ring: VecDeque<(u64, Vec<u8>)>,
    pub ring_bytes: usize,
    pub pending: VecDeque<WriterCmd>,
    pub pending_bytes: usize,
    pub capture: bool,
    pub captured: Vec<u8>,
    /// The exit's place and the child's code, once it is published.
    pub stored_exit: Option<(u64, i32)>,
    pub cols: u16,
    pub rows: u16,
}

/// A [`TabTask`] by what it holds.
#[verifier::ext_equal]
pub struct TabView {
    pub writer_gone: bool,
    pub next_seq: u64,
    pub last_byte_seq: u64,
    pub ring: Ring,
    pub pending: Seq<WriterCmd>,
    pub capture: bool,
    pub captured: Seq<u8>,
    pub stored_exit: Option<(u64, i32)>,
    pub cols: u16,
    pub rows: u16,
}

impl View for TabTask {
    type V = TabView;

    open spec fn view(&self) -> TabView {
        TabView {
            writer_gone: self.writer_gone,
            next_seq: self.next_seq,
            last_byte_seq: self.last_byte_seq,
            ring: self.ring@.map_values(|r: (u64, Vec<u8>)| (r.0, r.1@)),
            pending: self.pending@,
            capture: self.capture,
            captured: self.captured@,
            stored_exit: self.stored_exit,
            cols: self.cols,
            rows: self.rows,
        }
    }
}

impl TabView {
    /// A tab that has published nothing.
    pub open spec fn start(capture: bool, cols: u16, rows: u16) -> TabView {
        TabView {
            writer_gone: false,
            next_seq: 1,
            last_byte_seq: 0,
            ring: seq![],
            pending: seq![],
            capture,
            captured: seq![],
            stored_exit: None,
            cols,
            rows,
        }
    }

    /// What every tab keeps: the ring is the newest stretch of the records published, with
    /// no gap, and the exit, once published, took the place right after the last of them.
    pub open spec fn ok(self) -> bool {
        &&& (self.ring.len() == 0 <==> self.last_byte_seq == 0)
        &&& self.ring.len() <= self.last_byte_seq
        &&& forall|i: int|
            0 <= i < self.ring.len() ==> (#[trigger] self.ring[i]).0 == self.last_byte_seq - (
            self.ring.len() - 1 - i)
        &&& match self.stored_exit {
            None => self.next_seq == self.last_byte_seq + 1,
            Some((seq, _)) => seq == self.last_byte_seq + 1 && self.next_seq == seq + 1,
        }
    }

    /// Once the exit is out nothing more goes on the wire.
    pub open spec fn wire_closed(self) -> bool {
        self.stored_exit is Some
    }

    /// The tab after one more chunk of output.
    pub open spec fn ingest(self, data: Seq<u8>) -> TabView {
        if self.wire_closed() {
            self
        } else {
            TabView {
                next_seq: (self.next_seq + 1) as u64,
                last_byte_seq: self.next_seq,
                ring: evicted(self.ring.push((self.next_seq, data))),
                ..self
            }
        }
    }

    /// The tab after bytes were queued for its child.
    pub open spec fn queue_input(self, bytes: Seq<u8>, cmd: WriterCmd) -> TabView {
        if bytes.len() == 0 {
            self
        } else {
            TabView {
                captured: if self.capture {
                    self.captured + bytes
                } else {
                    self.captured
                },
                pending: trimmed_queue(self.pending.push(cmd)),
                ..self
            }
        }
    }

    /// The tab after its exit was published.
    pub open spec fn publish_exit(self, code: i32) -> TabView {
        if self.wire_closed() {
            self
        } else {
            TabView {
                next_seq: (self.next_seq + 1) as u64,
                stored_exit: Some((self.next_seq, code)),
                ..self
            }
        }
    }

    /// The first place a resume may start from.
    pub open spec fn front(self) -> nat {
        if self.ring.len() > 0 {
            self.ring[0].0 as nat
        } else {
            self.last_byte_seq as nat + 1
        }
    }

    /// Whether a resume from this place misses nothing.
    pub open spec fn resumable(self, from_seq: u64) -> bool {
        from_seq != 0 && self.front() <= from_seq <= self.last_byte_seq + 1
    }

    /// A tab after one command.
    pub open spec fn handled(self, cmd: TabCmd) -> TabView {
        match cmd {
            TabCmd::Input(bytes) => self.queue_input(bytes@, WriterCmd::Input(bytes)),
            TabCmd::Resize { cols, rows, .. } => TabView {
                cols,
                rows,
                pending: self.pending.push(WriterCmd::Resize(window_size(cols, rows))),
                ..self
            },
            TabCmd::FeedBytes(bytes) => self.ingest(bytes@),
            TabCmd::CaptureInput { drain } => if drain {
                TabView { captured: seq![], ..self }
            } else {
                self
            },
            TabCmd::Snapshot | TabCmd::Resume { .. } | TabCmd::Dump | TabCmd::DumpResolved => self,
        }
    }

    /// Whether this is what a tab answers a command with.
    pub open spec fn replies(self, cmd: TabCmd, out: TabStep) -> bool {
        match cmd {
            TabCmd::Input(_) => out is Queued,
            TabCmd::Resize { cols, rows, cell_w, cell_h, ack } => out == (
            TabStep::ResizeTerminal { cols, rows, cell_w, cell_h, ack }),
            TabCmd::Snapshot => out == (TabStep::Encode { seq: self.last_byte_seq }),
            TabCmd::Resume { from_seq } => out matches TabStep::Resumed(r) && (r is Ok
                <==> self.resumable(from_seq)) && (r matches Ok(at) ==> at.slice@.map_values(
                |r: (u64, Vec<u8>)| (r.0, r.1@),
            ) == self.resume(from_seq)),
            TabCmd::Dump => out is ReadScreen,
            TabCmd::DumpResolved => out is ReadCells,
            TabCmd::FeedBytes(bytes) => out matches TabStep::Fed(e) && (if self.wire_closed() {
                e is None
            } else {
                e matches Some(PtyOutputEvent::Bytes { seq, data }) && seq == self.next_seq
                    && data@ == bytes@
            }),
            TabCmd::CaptureInput { .. } => out matches TabStep::Captured(bytes) && bytes@
                == self.captured,
        }
    }

    /// The records a resume from this place is owed.
    pub open spec fn resume(self, from_seq: u64) -> Ring {
        self.ring.filter(|r: (u64, Seq<u8>)| r.0 >= from_seq)
    }
}

/// Publishing keeps a tab lawful: a chunk of output and the exit alike.
pub proof fn law_publishing_keeps_a_tab_lawful(tab: TabView, data: Seq<u8>, code: i32)
    requires
        tab.ok(),
        tab.next_seq < u64::MAX,
    ensures
        tab.ingest(data).ok(),
        tab.publish_exit(code).ok(),
{
    if !tab.wire_closed() {
        let grown = tab.ring.push((tab.next_seq, data));
        law_a_full_ring_drops_only_old_records(grown);
    }
}

/// A resume hands over exactly the records from its place on, in order and with no gap: the
/// first carries `from_seq`, the last the newest place handed out.
pub proof fn law_a_resume_misses_nothing(tab: TabView, from_seq: u64)
    requires
        tab.ok(),
        tab.resumable(from_seq),
    ensures
        tab.resume(from_seq).len() == tab.last_byte_seq + 1 - from_seq,
        forall|i: int|
            0 <= i < tab.resume(from_seq).len() ==> (#[trigger] tab.resume(from_seq)[i]).0
                == from_seq + i,
        tab.resume(from_seq) == tab.ring.skip(tab.ring.len() - (tab.last_byte_seq + 1 - from_seq)),
{
    let keep = |r: (u64, Seq<u8>)| r.0 >= from_seq;
    let n = tab.last_byte_seq + 1 - from_seq;
    let cut = tab.ring.len() - n;
    if tab.ring.len() > 0 {
        assert(tab.ring[0].0 == tab.last_byte_seq - (tab.ring.len() - 1));
    }
    assert(0 <= cut <= tab.ring.len());
    let head = tab.ring.take(cut);
    let tail = tab.ring.skip(cut);
    assert(tab.ring =~= head + tail);
    Seq::filter_distributes_over_add(head, tail, keep);
    lemma_filter_none(head, from_seq);
    lemma_filter_all(tail, from_seq);
    assert(head.filter(keep) + tail.filter(keep) =~= tail);
}

proof fn lemma_filter_none(ring: Ring, from_seq: u64)
    requires
        forall|i: int| 0 <= i < ring.len() ==> (#[trigger] ring[i]).0 < from_seq,
    ensures
        ring.filter(|r: (u64, Seq<u8>)| r.0 >= from_seq) == Seq::<(u64, Seq<u8>)>::empty(),
    decreases ring.len(),
{
    reveal(Seq::filter);
    if ring.len() > 0 {
        lemma_filter_none(ring.drop_last(), from_seq);
    }
}

proof fn lemma_filter_all(ring: Ring, from_seq: u64)
    requires
        forall|i: int| 0 <= i < ring.len() ==> (#[trigger] ring[i]).0 >= from_seq,
    ensures
        ring.filter(|r: (u64, Seq<u8>)| r.0 >= from_seq) == ring,
    decreases ring.len(),
{
    reveal(Seq::filter);
    if ring.len() > 0 {
        lemma_filter_all(ring.drop_last(), from_seq);
        assert(ring.drop_last().push(ring.last()) =~= ring);
    }
}

/// The exit is published once and is the last place handed out: what comes after it changes
/// nothing that a client can see.
pub proof fn law_the_exit_is_final(tab: TabView, code: i32, later: Seq<u8>, other: i32)
    requires
        tab.ok(),
        tab.next_seq < u64::MAX,
    ensures
        tab.publish_exit(code).wire_closed(),
        tab.publish_exit(code).ingest(later) == tab.publish_exit(code),
        tab.publish_exit(code).publish_exit(other) == tab.publish_exit(code),
{
}

impl TabTask {
    /// What every tab keeps: its model is a lawful one, and the counts agree.
    pub open spec fn wf(self) -> bool {
        &&& self@.ok()
        &&& self.ring_bytes == ring_total(self@.ring)
        &&& self.pending_bytes == queue_bytes(self@.pending)
    }

    /// A tab that has published nothing.
    pub fn new(capture: bool, cols: u16, rows: u16) -> (task: TabTask)
        ensures
            task.wf(),
            task@ == TabView::start(capture, cols, rows),
    {
        let task = TabTask {
            writer_gone: false,
            next_seq: 1,
            last_byte_seq: 0,
            ring: VecDeque::new(),
            ring_bytes: 0,
            pending: VecDeque::new(),
            pending_bytes: 0,
            capture,
            captured: Vec::new(),
            stored_exit: None,
            cols,
            rows,
        };
        assert(task@.ring =~= seq![]);
        assert(task@.pending =~= seq![]);
        assert(task@.captured =~= seq![]);
        task
    }

    /// Once the exit is out nothing more goes on the wire.
    pub fn wire_closed(&self) -> (closed: bool)
        ensures
            closed == self@.wire_closed(),
    {
        self.stored_exit.is_some()
    }

    /// Takes one chunk of output: gives it a place, keeps it for replay, and hands back the
    /// record to publish. After the exit the chunk gets no place.
    pub fn ingest(&mut self, data: Vec<u8>) -> (out: Option<PtyOutputEvent>)
        requires
            old(self).wf(),
            old(self).next_seq < u64::MAX,
            old(self).ring_bytes + data@.len() <= usize::MAX,
        ensures
            final(self).wf(),
            final(self)@ == old(self)@.ingest(data@),
            out is Some <==> !old(self)@.wire_closed(),
            out matches Some(e) ==> (e matches PtyOutputEvent::Bytes { seq, data: d } && seq
                == old(self).next_seq && d@ == data@),
    {
        if self.wire_closed() {
            return None;
        }
        let ghost before = self@;
        let seq: u64 = self.next_seq;
        self.next_seq = seq + 1;
        self.last_byte_seq = seq;
        let copy: Vec<u8> = data.clone();
        assert(copy@ =~= data@);
        self.push_ring(seq, data);
        proof {
            law_publishing_keeps_a_tab_lawful(before, data@, 0);
        }
        Some(PtyOutputEvent::Bytes { seq, data: copy })
    }

    fn push_ring(&mut self, seq: u64, data: Vec<u8>)
        requires
            old(self).ring_bytes == ring_total(old(self)@.ring),
            old(self).ring_bytes + data@.len() <= usize::MAX,
        ensures
            final(self).ring_bytes == ring_total(final(self)@.ring),
            final(self)@ == (TabView {
                ring: evicted(old(self)@.ring.push((seq, data@))),
                ..old(self)@
            }),
            final(self).pending_bytes == old(self).pending_bytes,
    {
        let ghost record = (seq, data@);
        let ghost before = self@.ring;
        self.ring_bytes = self.ring_bytes + data.len();
        self.ring.push_back((seq, data));
        let ghost grown = before.push(record);
        proof {
            assert(self@.ring =~= grown);
            lemma_ring_total_push(before, record);
        }
        while self.ring_bytes > REPLAY_RING_BYTES && self.ring.len() > 1
            invariant
                self.ring_bytes == ring_total(self@.ring),
                evicted(self@.ring) == evicted(grown),
                self@ == (TabView { ring: self@.ring, ..old(self)@ }),
                self.pending_bytes == old(self).pending_bytes,
            decreases self.ring@.len(),
        {
            let ghost held = self@.ring;
            match self.ring.pop_front() {
                Some(oldest) => {
                    assert(self@.ring =~= held.drop_first());
                    assert(held[0].1 == oldest.1@);
                    self.ring_bytes = self.ring_bytes - oldest.1.len();
                },
                None => {},
            }
        }
    }

    /// Queues bytes for the child. Past the cap the oldest input goes: a child that has not
    /// read this much has abandoned the answers.
    pub fn queue_input(&mut self, bytes: Vec<u8>)
        requires
            old(self).wf(),
            old(self).pending_bytes + bytes@.len() <= usize::MAX,
        ensures
            final(self).wf(),
            final(self)@ == old(self)@.queue_input(bytes@, WriterCmd::Input(bytes)),
    {
        if bytes.len() == 0 {
            return;
        }
        if self.capture {
            self.captured.extend_from_slice(bytes.as_slice());
            assert(self.captured@ =~= old(self).captured@ + bytes@);
        }
        let ghost before = self.pending@;
        let ghost cmd = WriterCmd::Input(bytes);
        self.pending_bytes = self.pending_bytes + bytes.len();
        self.pending.push_back(WriterCmd::Input(bytes));
        let ghost grown = before.push(cmd);
        proof {
            assert(self.pending@ =~= grown);
            lemma_queue_bytes_push(before, cmd);
        }
        while self.pending_bytes > REPLY_PENDING_MAX
            invariant_except_break
                self.pending_bytes == queue_bytes(self.pending@),
                trimmed_queue(self.pending@) == trimmed_queue(grown),
                self.ring_bytes == ring_total(self@.ring),
                self@ == (TabView {
                    pending: self.pending@,
                    captured: self.captured@,
                    ..old(self)@
                }),
                self.captured@ == (if old(self).capture {
                    old(self).captured@ + bytes@
                } else {
                    old(self).captured@
                }),
            ensures
                self.pending_bytes == queue_bytes(self.pending@),
                self.pending@ == trimmed_queue(grown),
                self.ring_bytes == ring_total(self@.ring),
                self@ == (TabView {
                    pending: self.pending@,
                    captured: self.captured@,
                    ..old(self)@
                }),
                self.captured@ == (if old(self).capture {
                    old(self).captured@ + bytes@
                } else {
                    old(self).captured@
                }),
            decreases self.pending@.len(),
        {
            let at: usize = self.oldest_input();
            let total: usize = self.pending.len();
            if total == 0 || at >= total - 1 {
                break ;
            }
            let ghost held = self.pending@;
            proof {
                lemma_oldest_input(held);
                lemma_queue_bytes_remove(held, at as int);
            }
            if let Some(dropped) = self.pending.remove(at) {
                assert(self.pending@ =~= held.remove(at as int));
                self.pending_bytes = self.pending_bytes - writer_cmd_len(&dropped);
            }
        }
    }

    fn oldest_input(&self) -> (at: usize)
        ensures
            at == oldest_input(self.pending@),
            at <= self.pending@.len(),
    {
        let mut at: usize = 0;
        while at < self.pending.len()
            invariant
                at <= self.pending@.len(),
                forall|k: int| 0 <= k < at ==> !(#[trigger] self.pending@[k] is Input),
            decreases self.pending@.len() - at,
        {
            match self.pending[at] {
                WriterCmd::Input(_) => {
                    proof {
                        lemma_oldest_input_is(self.pending@, at as int);
                    }
                    return at;
                },
                WriterCmd::Resize(_) => {},
            }
            at = at + 1;
        }
        proof {
            lemma_oldest_input_is(self.pending@, at as int);
        }
        at
    }

    /// Queues a new window size for the child.
    pub fn queue_resize(&mut self, size: PtySize)
        requires
            old(self).wf(),
        ensures
            final(self).wf(),
            final(self)@ == (TabView {
                pending: old(self)@.pending.push(WriterCmd::Resize(size)),
                ..old(self)@
            }),
    {
        proof {
            lemma_queue_bytes_push(self.pending@, WriterCmd::Resize(size));
        }
        self.pending.push_back(WriterCmd::Resize(size));
    }

    /// The next command to hand to the child's writer, while there is a writer.
    pub fn next_write(&mut self) -> (out: Option<WriterCmd>)
        requires
            old(self).wf(),
        ensures
            final(self).wf(),
            match out {
                Some(cmd) => !old(self).writer_gone && old(self)@.pending.len() > 0 && cmd
                    == old(self)@.pending[0] && final(self)@ == (TabView {
                    pending: old(self)@.pending.drop_first(),
                    ..old(self)@
                }),
                None => (old(self).writer_gone || old(self)@.pending.len() == 0) && final(self)@
                    == old(self)@,
            },
    {
        if self.writer_gone {
            return None;
        }
        let ghost held = self.pending@;
        match self.pending.pop_front() {
            Some(cmd) => {
                assert(self.pending@ =~= held.drop_first());
                self.pending_bytes = self.pending_bytes - writer_cmd_len(&cmd);
                Some(cmd)
            },
            None => None,
        }
    }

    /// The writer had no room: the command goes back to the head of the queue.
    pub fn put_back(&mut self, cmd: WriterCmd)
        requires
            old(self).wf(),
            old(self).pending_bytes + cmd_bytes(cmd) <= usize::MAX,
        ensures
            final(self).wf(),
            final(self)@ == (TabView {
                pending: seq![cmd] + old(self)@.pending,
                ..old(self)@
            }),
    {
        let ghost held = self.pending@;
        self.pending_bytes = self.pending_bytes + writer_cmd_len(&cmd);
        self.pending.push_front(cmd);
        assert(self.pending@ =~= seq![cmd] + held);
        assert(self.pending@.drop_first() =~= held);
    }

    /// The writer is gone: nothing queued can ever land.
    pub fn writer_closed(&mut self)
        requires
            old(self).wf(),
        ensures
            final(self).wf(),
            final(self)@ == (TabView { writer_gone: true, pending: seq![], ..old(self)@ }),
    {
        self.writer_gone = true;
        self.pending.clear();
        self.pending_bytes = 0;
        assert(self.pending@ =~= seq![]);
    }

    /// Publishes the exit, once.
    pub fn publish_exit(&mut self, code: i32) -> (out: Option<PtyOutputEvent>)
        requires
            old(self).wf(),
            old(self).next_seq < u64::MAX,
        ensures
            final(self).wf(),
            final(self)@ == old(self)@.publish_exit(code),
            out == (if old(self)@.wire_closed() {
                None
            } else {
                Some(PtyOutputEvent::Exit { seq: old(self).next_seq, code })
            }),
    {
        if self.wire_closed() {
            return None;
        }
        let seq: u64 = self.next_seq;
        self.next_seq = seq + 1;
        self.stored_exit = Some((seq, code));
        Some(PtyOutputEvent::Exit { seq, code })
    }

    /// The records a client missed, where the tab still holds all of them.
    pub fn resume(&self, from_seq: u64) -> (out: Result<ResumeAt, TabError>)
        requires
            self.wf(),
            self.last_byte_seq < u64::MAX,
        ensures
            out is Ok <==> self@.resumable(from_seq),
            out matches Ok(r) ==> r.slice@.map_values(|r: (u64, Vec<u8>)| (r.0, r.1@))
                == self@.resume(from_seq) && r.last_assigned == self.last_byte_seq
                && r.stored_exit == self.stored_exit,
            out matches Err(e) ==> e == (TabError::RingMiss {
                from_seq,
                front: self@.front() as u64,
                last_assigned: self.last_byte_seq,
            }),
    {
        let last_assigned: u64 = self.last_byte_seq;
        let front: u64 = if self.ring.len() > 0 {
            assert(self@.ring[0].0 == self.ring@[0].0);
            self.ring[0].0
        } else {
            last_assigned + 1
        };
        if from_seq == 0 || from_seq > last_assigned + 1 || from_seq < front {
            return Err(TabError::RingMiss { from_seq, front, last_assigned });
        }
        let mut slice: Vec<(u64, Vec<u8>)> = Vec::new();
        let ghost keep = |r: (u64, Seq<u8>)| r.0 >= from_seq;
        let ghost ring = self@.ring;
        let mut i: usize = 0;
        proof {
            reveal(Seq::filter);
            assert(ring.take(0) =~= seq![]);
            assert(slice@.map_values(|r: (u64, Vec<u8>)| (r.0, r.1@)) =~= seq![]);
        }
        while i < self.ring.len()
            invariant
                i <= self.ring@.len(),
                ring == self@.ring,
                ring.len() == self.ring@.len(),
                keep == (|r: (u64, Seq<u8>)| r.0 >= from_seq),
                slice@.map_values(|r: (u64, Vec<u8>)| (r.0, r.1@)) == ring.take(i as int).filter(
                    keep,
                ),
            decreases self.ring@.len() - i,
        {
            let ghost held = slice@.map_values(|r: (u64, Vec<u8>)| (r.0, r.1@));
            let seq: u64 = self.ring[i].0;
            proof {
                reveal(Seq::filter);
                assert(ring.take(i + 1).drop_last() =~= ring.take(i as int));
                assert(ring.take(i + 1).last() == ring[i as int]);
                assert(ring[i as int] == (self.ring@[i as int].0, self.ring@[i as int].1@));
            }
            if seq >= from_seq {
                let copy: Vec<u8> = self.ring[i].1.clone();
                assert(copy@ =~= self.ring@[i as int].1@);
                slice.push((seq, copy));
                assert(slice@.map_values(|r: (u64, Vec<u8>)| (r.0, r.1@)) =~= held.push(
                    ring[i as int],
                ));
            }
            i = i + 1;
        }
        assert(ring.take(i as int) =~= ring);
        Ok(ResumeAt { slice, last_assigned, stored_exit: self.stored_exit })
    }

    /// What was queued toward the child so far; `drain` empties the record.
    pub fn capture_input(&mut self, drain: bool) -> (out: Vec<u8>)
        requires
            old(self).wf(),
        ensures
            final(self).wf(),
            out@ == old(self)@.captured,
            final(self)@ == (TabView {
                captured: if drain {
                    seq![]
                } else {
                    old(self)@.captured
                },
                ..old(self)@
            }),
    {
        if drain {
            let mut out: Vec<u8> = Vec::new();
            core::mem::swap(&mut out, &mut self.captured);
            assert(self.captured@ =~= seq![]);
            out
        } else {
            let out: Vec<u8> = self.captured.clone();
            assert(out@ =~= self.captured@);
            out
        }
    }
}

/// What a command comes to: what is left to do outside, or the answer.
#[derive(Debug, PartialEq, Eq)]
pub enum TabStep {
    /// Bytes were queued for the child.
    Queued,
    /// Resize the terminal, queue what it replies, and then answer whoever waits.
    ResizeTerminal { cols: u16, rows: u16, cell_w: u32, cell_h: u32, ack: bool },
    /// Encode a snapshot at this fence.
    Encode { seq: u64 },
    Resumed(Result<ResumeAt, TabError>),
    ReadScreen,
    ReadCells,
    /// The record to publish, where the wire is open.
    Fed(Option<PtyOutputEvent>),
    Captured(Vec<u8>),
}

/// The window size a child is given: pixels are not reported.
pub open spec fn window_size(cols: u16, rows: u16) -> PtySize {
    PtySize { rows, cols, pixel_width: 0, pixel_height: 0 }
}

impl TabTask {
    /// Whether `cmd` stays within what machine numbers can count.
    pub open spec fn room_for(self, cmd: TabCmd) -> bool {
        match cmd {
            TabCmd::Input(bytes) => self.pending_bytes + bytes@.len() <= usize::MAX,
            TabCmd::FeedBytes(bytes) => self.ring_bytes + bytes@.len() <= usize::MAX,
            _ => true,
        }
    }

    /// Takes one command.
    pub fn handle(&mut self, cmd: TabCmd) -> (out: TabStep)
        requires
            old(self).wf(),
            old(self).next_seq < u64::MAX,
            old(self).room_for(cmd),
        ensures
            final(self).wf(),
            final(self)@ == old(self)@.handled(cmd),
            old(self)@.replies(cmd, out),
            match cmd {
                TabCmd::Input(bytes) => out is Queued && final(self)@ == old(self)@.queue_input(
                    bytes@,
                    WriterCmd::Input(bytes),
                ),
                TabCmd::Resize { cols, rows, cell_w, cell_h, ack } => out
                    == (TabStep::ResizeTerminal { cols, rows, cell_w, cell_h, ack })
                    && final(self)@ == (TabView {
                    cols,
                    rows,
                    pending: old(self)@.pending.push(WriterCmd::Resize(window_size(cols, rows))),
                    ..old(self)@
                }),
                TabCmd::Snapshot => out == (TabStep::Encode { seq: old(self).last_byte_seq })
                    && final(self)@ == old(self)@,
                TabCmd::Resume { from_seq } => final(self)@ == old(self)@ && (out
                    matches TabStep::Resumed(r) && (r is Ok <==> old(self)@.resumable(from_seq))
                    && (r matches Ok(at) ==> at.slice@.map_values(
                    |r: (u64, Vec<u8>)| (r.0, r.1@),
                ) == old(self)@.resume(from_seq) && at.last_assigned == old(self).last_byte_seq
                    && at.stored_exit == old(self).stored_exit) && (r matches Err(e) ==> e == (
                TabError::RingMiss {
                    from_seq,
                    front: old(self)@.front() as u64,
                    last_assigned: old(self).last_byte_seq,
                }))),
                TabCmd::Dump => out is ReadScreen && final(self)@ == old(self)@,
                TabCmd::DumpResolved => out is ReadCells && final(self)@ == old(self)@,
                TabCmd::FeedBytes(bytes) => final(self)@ == old(self)@.ingest(bytes@) && (out
                    matches TabStep::Fed(e) && (e is Some <==> !old(self)@.wire_closed()) && (e
                    matches Some(PtyOutputEvent::Bytes { seq, data }) ==> seq
                    == old(self).next_seq && data@ == bytes@) && !(e matches Some(
                    PtyOutputEvent::Exit { .. },
                ))),
                TabCmd::CaptureInput { drain } => (out matches TabStep::Captured(bytes) && bytes@
                    == old(self)@.captured) && final(self)@ == (TabView {
                    captured: if drain {
                        seq![]
                    } else {
                        old(self)@.captured
                    },
                    ..old(self)@
                }),
            },
    {
        match cmd {
            TabCmd::Input(bytes) => {
                self.queue_input(bytes);
                TabStep::Queued
            },
            TabCmd::Resize { cols, rows, cell_w, cell_h, ack } => {
                self.cols = cols;
                self.rows = rows;
                self.queue_resize(PtySize { rows, cols, pixel_width: 0, pixel_height: 0 });
                TabStep::ResizeTerminal { cols, rows, cell_w, cell_h, ack }
            },
            TabCmd::Snapshot => TabStep::Encode { seq: self.last_byte_seq },
            TabCmd::Resume { from_seq } => TabStep::Resumed(self.resume(from_seq)),
            TabCmd::Dump => TabStep::ReadScreen,
            TabCmd::DumpResolved => TabStep::ReadCells,
            TabCmd::FeedBytes(bytes) => TabStep::Fed(self.ingest(bytes)),
            TabCmd::CaptureInput { drain } => TabStep::Captured(self.capture_input(drain)),
        }
    }

    /// The screen as text. A cursor that is not shown is left out.
    pub fn dump(
        &self,
        cursor: Option<(u32, u32, bool)>,
        rows_text: Vec<String>,
        scrollback_rows: u32,
        scrollback_text: Vec<String>,
    ) -> (out: DumpData)
        ensures
            out.cols == self.cols,
            out.rows == self.rows,
            out.cursor == (match cursor {
                Some((row, col, true)) => Some((row, col, true)),
                _ => None,
            }),
            out.rows_text == rows_text,
            out.scrollback_rows == scrollback_rows,
            out.scrollback_text == scrollback_text,
    {
        let shown: Option<(u32, u32, bool)> = match cursor {
            Some((row, col, visible)) => if visible {
                Some((row, col, visible))
            } else {
                None
            },
            None => None,
        };
        DumpData {
            cols: self.cols as u32,
            rows: self.rows as u32,
            cursor: shown,
            rows_text,
            scrollback_rows,
            scrollback_text,
        }
    }

    /// The screen cell by cell: each cell the rows hold, and a blank in the default colors
    /// where they hold none.
    pub fn dump_resolved(
        &self,
        grid: &Vec<Vec<RenderedCell>>,
        foreground: (u8, u8, u8),
        background: (u8, u8, u8),
    ) -> (out: ResolvedCellsData)
        ensures
            out.cols == self.cols,
            out.rows == self.rows,
            out.cells@.len() == self.cols * self.rows,
            forall|row: int, col: int|
                0 <= row < self.rows && 0 <= col < self.cols ==> resolves(
                    #[trigger] out.cells@[row * self.cols + col],
                    row,
                    col,
                    cell_at(row_of(grid@, row), col),
                    foreground,
                    background,
                ),
    {
        let mut cells: Vec<ResolvedCellData> = Vec::new();
        let cols: u16 = self.cols;
        let rows: u16 = self.rows;
        let mut row: u16 = 0;
        while row < rows
            invariant
                row <= rows,
                cells@.len() == row * cols,
                forall|r: int, c: int|
                    0 <= r < row && 0 <= c < cols ==> resolves(
                        #[trigger] cells@[r * cols + c],
                        r,
                        c,
                        cell_at(row_of(grid@, r), c),
                        foreground,
                        background,
                    ),
            decreases rows - row,
        {
            let mut next: usize = 0;
            let mut col: u16 = 0;
            let ghost sparse = row_of(grid@, row as int);
            let width: usize = if (row as usize) < grid.len() {
                grid[row as usize].len()
            } else {
                0
            };
            while col < cols
                invariant
                    col <= cols,
                    row < rows,
                    sparse == row_of(grid@, row as int),
                    width == sparse.len(),
                    width > 0 ==> row < grid@.len(),
                    next <= width,
                    next == taken(sparse, col as int),
                    cells@.len() == row * cols + col,
                    forall|r: int, c: int|
                        0 <= r < row && 0 <= c < cols ==> resolves(
                            #[trigger] cells@[r * cols + c],
                            r,
                            c,
                            cell_at(row_of(grid@, r), c),
                            foreground,
                            background,
                        ),
                    forall|c: int|
                        0 <= c < col ==> resolves(
                            #[trigger] cells@[row * cols + c],
                            row as int,
                            c,
                            cell_at(sparse, c),
                            foreground,
                            background,
                        ),
                decreases cols - col,
            {
                let ghost before = cells@;
                let ghost place = row * cols + col;
                let found: bool = next < width && grid[row as usize][next].col == col;
                if found {
                    let cell = &grid[row as usize][next];
                    cells.push(
                        ResolvedCellData {
                            row: row as u32,
                            col,
                            text: cell.text.clone(),
                            fg: cell.foreground,
                            bg: cell.background,
                            has_explicit_bg: cell.explicit_background,
                            bold: cell.bold,
                            italic: cell.italic,
                            inverse: cell.inverse,
                        },
                    );
                    next = next + 1;
                } else {
                    cells.push(
                        ResolvedCellData {
                            row: row as u32,
                            col,
                            text: " ".to_owned(),
                            fg: foreground,
                            bg: background,
                            has_explicit_bg: false,
                            bold: false,
                            italic: false,
                            inverse: false,
                        },
                    );
                }
                proof {
                    assert forall|r: int, c: int| 0 <= r < row && 0 <= c < cols implies resolves(
                        #[trigger] cells@[r * cols + c],
                        r,
                        c,
                        cell_at(row_of(grid@, r), c),
                        foreground,
                        background,
                    ) by {
                        assert(0 <= r * cols + c < place) by (nonlinear_arith)
                            requires
                                0 <= r < row,
                                0 <= c < cols,
                                place == row * cols + col,
                        ;
                        assert(cells@[r * cols + c] == before[r * cols + c]);
                    }
                    assert forall|c: int| 0 <= c < col + 1 implies resolves(
                        #[trigger] cells@[row * cols + c],
                        row as int,
                        c,
                        cell_at(sparse, c),
                        foreground,
                        background,
                    ) by {
                        if c < col {
                            assert(0 <= row * cols + c) by (nonlinear_arith)
                                requires
                                    0 <= c,
                            ;
                            assert(cells@[row * cols + c] == before[row * cols + c]);
                        } else {
                            assert(cells@[row * cols + c] == cells@.last());
                        }
                    }
                }
                col = col + 1;
            }
            proof {
                assert((row + 1) * cols == row * cols + cols) by (nonlinear_arith);
                assert forall|r: int, c: int| 0 <= r < row + 1 && 0 <= c < cols implies resolves(
                    #[trigger] cells@[r * cols + c],
                    r,
                    c,
                    cell_at(row_of(grid@, r), c),
                    foreground,
                    background,
                ) by {
                    if r == row {
                        assert(cells@[row * cols + c] == cells@[r * cols + c]);
                    }
                }
            }
            row = row + 1;
        }
        proof {
            assert(rows * cols == cols * rows) by (nonlinear_arith);
        }
        ResolvedCellsData { cols, rows, cells }
    }
}

/// One cell of a rendered row. A row holds its cells by ascending column, and need not hold
/// all of them.
#[derive(Debug, PartialEq, Eq)]
pub struct RenderedCell {
    pub col: u16,
    pub text: String,
    pub foreground: (u8, u8, u8),
    pub background: (u8, u8, u8),
    pub explicit_background: bool,
    pub bold: bool,
    pub italic: bool,
    pub inverse: bool,
}

/// The cells of one row of a grid; a row past its end holds none.
pub open spec fn row_of(grid: Seq<Vec<RenderedCell>>, row: int) -> Seq<RenderedCell> {
    if 0 <= row < grid.len() {
        grid[row]@
    } else {
        seq![]
    }
}

/// How many of a row's cells a walk over the columns below `col` has met.
pub open spec fn taken(sparse: Seq<RenderedCell>, col: int) -> int
    decreases col,
{
    if col <= 0 {
        0
    } else {
        let before = taken(sparse, col - 1);
        if 0 <= before < sparse.len() && sparse[before].col == col - 1 {
            before + 1
        } else {
            before
        }
    }
}

/// The cell that a walk over a row meets at `col`.
pub open spec fn cell_at(sparse: Seq<RenderedCell>, col: int) -> Option<RenderedCell> {
    let at = taken(sparse, col);
    if 0 <= at < sparse.len() && sparse[at].col == col {
        Some(sparse[at])
    } else {
        None
    }
}

/// Whether `out` shows `cell` at its place, or a blank in the default colors where there is
/// no cell.
pub open spec fn resolves(
    out: ResolvedCellData,
    row: int,
    col: int,
    cell: Option<RenderedCell>,
    foreground: (u8, u8, u8),
    background: (u8, u8, u8),
) -> bool {
    &&& out.row == row
    &&& out.col == col
    &&& match cell {
        Some(cell) => {
            &&& out.text@ == cell.text@
            &&& out.fg == cell.foreground
            &&& out.bg == cell.background
            &&& out.has_explicit_bg == cell.explicit_background
            &&& out.bold == cell.bold
            &&& out.italic == cell.italic
            &&& out.inverse == cell.inverse
        },
        None => {
            &&& out.text@ == " "@
            &&& out.fg == foreground
            &&& out.bg == background
            &&& !out.has_explicit_bg
            &&& !out.bold
            &&& !out.italic
            &&& !out.inverse
        },
    }
}

/// Whether a row's cells come by ascending column.
pub open spec fn ascending(sparse: Seq<RenderedCell>) -> bool {
    forall|i: int, j: int| 0 <= i < j < sparse.len() ==> sparse[i].col < sparse[j].col
}

proof fn lemma_taken(sparse: Seq<RenderedCell>, col: int)
    requires
        ascending(sparse),
        0 <= col,
    ensures
        0 <= taken(sparse, col) <= sparse.len(),
        forall|i: int| 0 <= i < taken(sparse, col) ==> (#[trigger] sparse[i]).col < col,
        forall|i: int| taken(sparse, col) <= i < sparse.len() ==> (#[trigger] sparse[i]).col >= col,
    decreases col,
{
    if col > 0 {
        lemma_taken(sparse, col - 1);
        let before = taken(sparse, col - 1);
        assert forall|i: int| taken(sparse, col) <= i < sparse.len() implies (
        #[trigger] sparse[i]).col >= col by {
            if i > before && before < sparse.len() {
                assert(sparse[before].col < sparse[i].col);
            }
        }
    }
}

/// Every cell that a row holds is met at its own column, and nothing else is.
pub proof fn law_every_cell_is_met(sparse: Seq<RenderedCell>, i: int, col: int)
    requires
        ascending(sparse),
        0 <= i < sparse.len(),
        0 <= col,
    ensures
        cell_at(sparse, sparse[i].col as int) == Some(sparse[i]),
        cell_at(sparse, col) matches Some(cell) ==> cell.col == col && sparse.contains(cell),
{
    let at = taken(sparse, sparse[i].col as int);
    lemma_taken(sparse, sparse[i].col as int);
    if i < at {
        assert(sparse[i].col < sparse[i].col);
    }
    if at < i {
        assert(sparse[at].col < sparse[i].col);
    }
    lemma_taken(sparse, col);
}

/// What the reaper tells a tab of its child's death.
#[derive(Debug, PartialEq, Eq)]
pub enum ExitSignal {
    /// The child was reaped. Its last bytes may still be on their way.
    Status(i32),
    /// The child's output did not end in time: something else holds it open.
    Deadline(i32),
}

/// What a tab's loop wakes up to.
#[derive(Debug, PartialEq, Eq)]
pub enum LoopEvent {
    /// A signal from the reaper, or `None` once it is gone.
    Exit(Option<ExitSignal>),
    Command,
    CommandsClosed,
    Chunk,
    ChunksClosed,
    /// Time to try again what the child's writer had no room for.
    Tick,
}

/// What a tab's loop does about it.
#[derive(Clone, Copy, Debug, PartialEq, Eq, Structural)]
pub enum LoopAction {
    Nothing,
    Handle,
    Ingest,
    /// Take what is already queued, at most [`TAB_CHANNEL_CHUNKS`] of it, and publish the
    /// exit.
    DrainThenPublish(i32),
    Publish(i32),
    /// The output ended before the child's status came: wait for that.
    AwaitStatus,
}

/// How far a tab's loop has got.
#[derive(Debug, PartialEq, Eq)]
pub struct TabLoop {
    pub exit_code: Option<i32>,
    pub bytes_open: bool,
    pub cmd_open: bool,
    pub exit_open: bool,
}

impl TabLoop {
    pub fn new() -> (out: TabLoop)
        ensures
            out == (TabLoop { exit_code: None, bytes_open: true, cmd_open: true, exit_open: true }),
    {
        TabLoop { exit_code: None, bytes_open: true, cmd_open: true, exit_open: true }
    }

    /// The loop goes on while output or commands can still come: commands ending is not the
    /// end, for the exit is still to be published then.
    pub fn running(&self) -> (yes: bool)
        ensures
            yes == (self.bytes_open || self.cmd_open),
    {
        self.bytes_open || self.cmd_open
    }

    /// Takes one event. The exit is published when the output ends, with the status that
    /// came or once it comes, or when the reaper's deadline passes.
    pub fn step(&mut self, event: LoopEvent, wire_closed: bool) -> (out: LoopAction)
        ensures
            *final(self) == (match event {
                LoopEvent::Exit(Some(ExitSignal::Status(code))) => TabLoop {
                    exit_code: Some(code),
                    ..*old(self)
                },
                LoopEvent::Exit(None) => TabLoop { exit_open: false, ..*old(self) },
                LoopEvent::CommandsClosed => TabLoop { cmd_open: false, ..*old(self) },
                LoopEvent::ChunksClosed => TabLoop { bytes_open: false, ..*old(self) },
                _ => *old(self),
            }),
            out == (match event {
                LoopEvent::Exit(Some(ExitSignal::Deadline(code))) => LoopAction::DrainThenPublish(
                    code,
                ),
                LoopEvent::Command => LoopAction::Handle,
                LoopEvent::Chunk => LoopAction::Ingest,
                LoopEvent::ChunksClosed => if wire_closed {
                    LoopAction::Nothing
                } else {
                    match old(self).exit_code {
                        Some(code) => LoopAction::Publish(code),
                        None => LoopAction::AwaitStatus,
                    }
                },
                _ => LoopAction::Nothing,
            }),
    {
        match event {
            LoopEvent::Exit(Some(ExitSignal::Status(code))) => {
                self.exit_code = Some(code);
                LoopAction::Nothing
            },
            LoopEvent::Exit(Some(ExitSignal::Deadline(code))) => LoopAction::DrainThenPublish(
                code,
            ),
            LoopEvent::Exit(None) => {
                self.exit_open = false;
                LoopAction::Nothing
            },
            LoopEvent::Command => LoopAction::Handle,
            LoopEvent::CommandsClosed => {
                self.cmd_open = false;
                LoopAction::Nothing
            },
            LoopEvent::Chunk => LoopAction::Ingest,
            LoopEvent::ChunksClosed => {
                self.bytes_open = false;
                if wire_closed {
                    LoopAction::Nothing
                } else {
                    match self.exit_code {
                        Some(code) => LoopAction::Publish(code),
                        None => LoopAction::AwaitStatus,
                    }
                }
            },
            LoopEvent::Tick => LoopAction::Nothing,
        }
    }
}

/// The code to report once the reaper was waited for: its own, or `-1` where it is gone
/// without one.
pub fn await_status(signal: Option<ExitSignal>) -> (code: i32)
    ensures
        code == (match signal {
            Some(ExitSignal::Status(code)) => code,
            Some(ExitSignal::Deadline(code)) => code,
            None => -1i32,
        }),
{
    match signal {
        Some(ExitSignal::Status(code)) => code,
        Some(ExitSignal::Deadline(code)) => code,
        None => -1i32,
    }
}

/// The inputs of a queue, in order.
pub open spec fn inputs(queue: Seq<WriterCmd>) -> Seq<WriterCmd> {
    queue.filter(|cmd: WriterCmd| cmd is Input)
}

/// How many bytes a queue holds: none where it is empty, an input's own length more for each
/// input, and nothing for a size.
pub proof fn law_a_queue_holds_its_inputs(queue: Seq<WriterCmd>, bytes: Vec<u8>, size: PtySize)
    ensures
        queue_bytes(seq![]) == 0,
        queue_bytes(queue.push(WriterCmd::Input(bytes))) == queue_bytes(queue) + bytes@.len(),
        queue_bytes(queue.push(WriterCmd::Resize(size))) == queue_bytes(queue),
        cmd_bytes(WriterCmd::Input(bytes)) == bytes@.len(),
        cmd_bytes(WriterCmd::Resize(size)) == 0,
{
    lemma_queue_bytes_push(queue, WriterCmd::Input(bytes));
    lemma_queue_bytes_push(queue, WriterCmd::Resize(size));
}

/// What was typed reaches the child's queue: every input that is not empty becomes the queue's
/// newest entry as it is, and where the bytes held stay within the cap nothing is lost for it.
/// With capture on the record grows by exactly those bytes. Nothing else of the tab moves, and
/// an empty input moves nothing at all.
pub proof fn law_an_input_is_the_newest_entry(tab: TabView, bytes: Vec<u8>)
    ensures
        ({
            let after = tab.queue_input(bytes@, WriterCmd::Input(bytes));
            &&& bytes@.len() == 0 ==> after == tab
            &&& bytes@.len() > 0 ==> after.pending.len() > 0 && after.pending.last()
                == WriterCmd::Input(bytes)
            &&& bytes@.len() > 0 && queue_bytes(tab.pending) + bytes@.len() <= 65536
                ==> after.pending == tab.pending.push(WriterCmd::Input(bytes))
            &&& after.captured == (if tab.capture {
                tab.captured + bytes@
            } else {
                tab.captured
            })
            &&& after.writer_gone == tab.writer_gone
            &&& after.next_seq == tab.next_seq
            &&& after.last_byte_seq == tab.last_byte_seq
            &&& after.ring == tab.ring
            &&& after.capture == tab.capture
            &&& after.stored_exit == tab.stored_exit
            &&& after.cols == tab.cols
            &&& after.rows == tab.rows
        }),
{
    let grown = tab.pending.push(WriterCmd::Input(bytes));
    lemma_queue_bytes_push(tab.pending, WriterCmd::Input(bytes));
    law_a_full_queue_drops_only_old_input(grown);
    assert(tab.captured + seq![] =~= tab.captured);
    if bytes@.len() == 0 {
        assert(bytes@ =~= seq![]);
    }
}

/// What a queue past its cap gives up, told by what is left: the sizes stay, the inputs that
/// stay are the newest of them in their order, so that an input goes only where all older ones
/// go; what stays is within the cap, or holds one input at most and that one newest; and with
/// one input more it would be past the cap.
pub proof fn law_a_full_queue_keeps_its_newest(queue: Seq<WriterCmd>)
    requires
        queue.len() > 0,
    ensures
        ({
            let left = trimmed_queue(queue);
            let n = inputs(queue).len() - inputs(left).len();
            &&& 0 <= n
            &&& inputs(left) == inputs(queue).skip(n)
            &&& resizes(left) == resizes(queue)
            &&& left.last() == queue.last()
            &&& queue_bytes(left) <= 65536 || inputs(left).len() <= 1
            &&& n > 0 ==> queue_bytes(left) + cmd_bytes(inputs(queue)[n - 1]) > 65536
        }),
    decreases queue.len(),
{
    let at = oldest_input(queue);
    lemma_oldest_input(queue);
    law_a_full_queue_drops_only_old_input(queue);
    let left = trimmed_queue(queue);
    if queue_bytes(queue) > REPLY_PENDING_MAX && 0 <= at < queue.len() - 1 {
        let rest = queue.remove(at);
        law_a_full_queue_keeps_its_newest(rest);
        lemma_first_input(queue);
        lemma_queue_bytes_remove(queue, at);
        let m = inputs(rest).len() - inputs(left).len();
        assert(inputs(rest) == inputs(queue).skip(1));
        assert(inputs(queue).skip(1).skip(m) =~= inputs(queue).skip(m + 1));
        if m == 0 {
            assert(inputs(left) == inputs(rest));
            assert(left == rest) by {
                lemma_nothing_dropped(rest);
            }
            assert(inputs(queue)[0] == queue[at]);
        } else {
            assert(inputs(rest)[m - 1] == inputs(queue)[m]);
        }
    } else {
        assert(inputs(queue).skip(0) =~= inputs(queue));
        if queue_bytes(queue) > REPLY_PENDING_MAX {
            lemma_one_input_at_most(queue);
        }
    }
}

/// A queue that lost no input lost nothing.
proof fn lemma_nothing_dropped(queue: Seq<WriterCmd>)
    requires
        inputs(trimmed_queue(queue)).len() == inputs(queue).len(),
    ensures
        trimmed_queue(queue) == queue,
{
    let at = oldest_input(queue);
    if queue_bytes(queue) > REPLY_PENDING_MAX && 0 <= at < queue.len() - 1 {
        lemma_oldest_input(queue);
        lemma_first_input(queue);
        lemma_inputs_shrink(queue.remove(at));
    }
}

proof fn lemma_inputs_shrink(queue: Seq<WriterCmd>)
    ensures
        inputs(trimmed_queue(queue)).len() <= inputs(queue).len(),
    decreases queue.len(),
{
    let at = oldest_input(queue);
    if queue_bytes(queue) > REPLY_PENDING_MAX && 0 <= at < queue.len() - 1 {
        lemma_oldest_input(queue);
        lemma_first_input(queue);
        lemma_inputs_shrink(queue.remove(at));
    }
}

/// The oldest input is the first of the inputs, and the others are those without it.
proof fn lemma_first_input(queue: Seq<WriterCmd>)
    requires
        oldest_input(queue) < queue.len(),
    ensures
        inputs(queue).len() > 0,
        inputs(queue)[0] == queue[oldest_input(queue)],
        inputs(queue.remove(oldest_input(queue))) == inputs(queue).skip(1),
{
    let keep = |cmd: WriterCmd| cmd is Input;
    lemma_oldest_input(queue);
    let at = oldest_input(queue);
    let head = queue.take(at);
    let tail = queue.skip(at + 1);
    let one = seq![queue[at]];
    assert(queue =~= head + (one + tail));
    assert(queue.remove(at) =~= head + tail);
    Seq::filter_distributes_over_add(head, one + tail, keep);
    Seq::filter_distributes_over_add(one, tail, keep);
    Seq::filter_distributes_over_add(head, tail, keep);
    lemma_no_inputs(head);
    assert(one.filter(keep) =~= one) by {
        reveal_with_fuel(Seq::filter, 2);
        assert(one.drop_last() =~= seq![]);
    }
    assert(inputs(queue) =~= one + inputs(tail));
    assert(inputs(queue.remove(at)) =~= inputs(tail));
    assert((one + inputs(tail)).skip(1) =~= inputs(tail));
}

proof fn lemma_no_inputs(queue: Seq<WriterCmd>)
    requires
        forall|k: int| 0 <= k < queue.len() ==> !(#[trigger] queue[k] is Input),
    ensures
        inputs(queue) == Seq::<WriterCmd>::empty(),
    decreases queue.len(),
{
    reveal(Seq::filter);
    if queue.len() > 0 {
        lemma_no_inputs(queue.drop_last());
    }
}

/// A queue whose oldest input is its newest entry, or that has none, has one input at most.
proof fn lemma_one_input_at_most(queue: Seq<WriterCmd>)
    requires
        oldest_input(queue) >= queue.len() - 1,
    ensures
        inputs(queue).len() <= 1,
{
    lemma_oldest_input(queue);
    reveal(Seq::filter);
    if queue.len() > 0 {
        lemma_no_inputs(queue.drop_last());
    }
}

/// How many bytes a ring holds: none where it is empty, and a record's own length more for each.
pub proof fn law_a_ring_holds_its_records(ring: Ring, record: (u64, Seq<u8>))
    ensures
        ring_total(seq![]) == 0,
        ring_total(ring.push(record)) == ring_total(ring) + record.1.len(),
{
    lemma_ring_total_push(ring, record);
}

/// What becomes of output: while the exit is not out, a chunk gets the next place and stands in
/// the ring as its newest record, byte for byte; the ring loses its oldest records alone, none
/// of them while it is within its cap, and no more than it must. After the exit, and to all
/// else of the tab, a chunk does nothing.
pub proof fn law_output_is_numbered_and_kept(tab: TabView, data: Seq<u8>)
    requires
        tab.next_seq < u64::MAX,
    ensures
        ({
            let after = tab.ingest(data);
            let grown = tab.ring.push((tab.next_seq, data));
            let lost = grown.len() - after.ring.len();
            &&& tab.stored_exit is Some ==> after == tab
            &&& tab.stored_exit is None ==> {
                &&& after.next_seq == tab.next_seq + 1
                &&& after.last_byte_seq == tab.next_seq
                &&& after.ring.len() > 0
                &&& after.ring.last() == (tab.next_seq, data)
                &&& 0 <= lost
                &&& after.ring == grown.skip(lost)
                &&& ring_total(grown) <= 2097152 ==> after.ring == grown
                &&& ring_total(after.ring) <= 2097152 || after.ring.len() == 1
                &&& lost > 0 ==> ring_total(grown.skip(lost - 1)) > 2097152
            }
            &&& after.pending == tab.pending
            &&& after.captured == tab.captured
            &&& after.stored_exit == tab.stored_exit
            &&& after.writer_gone == tab.writer_gone
            &&& after.capture == tab.capture
            &&& after.cols == tab.cols
            &&& after.rows == tab.rows
        }),
{
    let grown = tab.ring.push((tab.next_seq, data));
    law_a_full_ring_drops_only_old_records(grown);
    lemma_evicted_least(grown);
    if tab.stored_exit is None {
        let lost = grown.len() - evicted(grown).len();
        assert(grown.skip(lost).last() == grown.last());
        assert(grown.skip(0) =~= grown);
    }
}

/// A ring gives up no record that it could keep.
proof fn lemma_evicted_least(ring: Ring)
    requires
        ring.len() > 0,
    ensures
        ({
            let lost = ring.len() - evicted(ring).len();
            lost > 0 ==> ring_total(ring.skip(lost - 1)) > REPLAY_RING_BYTES
        }),
    decreases ring.len(),
{
    if ring_total(ring) > REPLAY_RING_BYTES && ring.len() > 1 {
        let rest = ring.drop_first();
        law_a_full_ring_drops_only_old_records(rest);
        lemma_evicted_least(rest);
        let lost = rest.len() - evicted(rest).len();
        if lost > 0 {
            assert(rest.skip(lost - 1) =~= ring.skip(lost));
        } else {
            assert(ring.skip(0) =~= ring);
        }
    }
}

/// The exit takes the next place with the child's own code, once, and moves nothing else.
pub proof fn law_the_exit_takes_the_next_place(tab: TabView, code: i32)
    requires
        tab.next_seq < u64::MAX,
    ensures
        ({
            let after = tab.publish_exit(code);
            &&& tab.stored_exit is Some ==> after == tab
            &&& tab.stored_exit is None ==> after.stored_exit == Some((tab.next_seq, code))
                && after.next_seq == tab.next_seq + 1
            &&& after.last_byte_seq == tab.last_byte_seq
            &&& after.ring == tab.ring
            &&& after.pending == tab.pending
            &&& after.captured == tab.captured
            &&& after.writer_gone == tab.writer_gone
            &&& after.capture == tab.capture
            &&& after.cols == tab.cols
            &&& after.rows == tab.rows
        }),
{
}

/// Whether a ring holds the record with this place.
pub open spec fn holds_place(ring: Ring, place: u64) -> bool {
    exists|i: int| 0 <= i < ring.len() && (#[trigger] ring[i]).0 == place
}

/// Which places a resume may start from: those from the first on such that the tab still holds
/// every record from there to its newest, the place behind the newest among them.
pub proof fn law_a_resume_needs_every_record(tab: TabView, from_seq: u64)
    requires
        tab.ok(),
        tab.last_byte_seq < u64::MAX,
    ensures
        tab.resumable(from_seq) <==> 1 <= from_seq <= tab.last_byte_seq + 1 && forall|place: u64|
            from_seq <= place <= tab.last_byte_seq ==> #[trigger] holds_place(tab.ring, place),
{
    let n = tab.ring.len();
    if tab.resumable(from_seq) {
        assert forall|place: u64| from_seq <= place <= tab.last_byte_seq implies
            #[trigger] holds_place(tab.ring, place) by {
            assert(tab.ring[0].0 == tab.last_byte_seq - (n - 1));
            let i = place - tab.ring[0].0;
            assert(tab.ring[i].0 == place);
        }
    } else if 1 <= from_seq <= tab.last_byte_seq + 1 && n > 0 {
        assert(tab.ring[0].0 == tab.last_byte_seq - (n - 1));
        if holds_place(tab.ring, from_seq) {
            let i = choose|i: int| 0 <= i < n && (#[trigger] tab.ring[i]).0 == from_seq;
            assert(tab.ring[i].0 >= tab.ring[0].0);
        }
    }
}

/// A tab begins with nothing published, nothing owed and no exit, and its first record gets the
/// first place.
pub proof fn law_a_tab_begins_empty(capture: bool, cols: u16, rows: u16)
    ensures
        ({
            let tab = TabView::start(capture, cols, rows);
            &&& tab.ok()
            &&& tab.next_seq == 1
            &&& tab.last_byte_seq == 0
            &&& tab.ring.len() == 0
            &&& tab.pending.len() == 0
            &&& tab.captured.len() == 0
            &&& tab.stored_exit is None
            &&& !tab.writer_gone
            &&& tab.capture == capture
            &&& tab.cols == cols
            &&& tab.rows == rows
        }),
{
}

/// The size that a child is told is the one asked for, columns as columns and rows as rows,
/// without pixels.
pub proof fn law_a_child_is_told_its_size(cols: u16, rows: u16)
    ensures
        window_size(cols, rows).cols == cols,
        window_size(cols, rows).rows == rows,
        window_size(cols, rows).pixel_width == 0,
        window_size(cols, rows).pixel_height == 0,
{
}

/// A cell is dumped as it is drawn, in its own colors and style; where a row holds none, a blank
/// in the screen's colors stands.
pub proof fn law_a_cell_is_dumped_as_drawn(
    out: ResolvedCellData,
    row: int,
    col: int,
    cell: RenderedCell,
    foreground: (u8, u8, u8),
    background: (u8, u8, u8),
)
    ensures
        resolves(out, row, col, Some(cell), foreground, background) ==> out.row == row && out.col
            == col && out.text@ == cell.text@ && out.fg == cell.foreground && out.bg
            == cell.background && out.has_explicit_bg == cell.explicit_background && out.bold
            == cell.bold && out.italic == cell.italic && out.inverse == cell.inverse,
        resolves(out, row, col, None, foreground, background) ==> out.row == row && out.col == col
            && out.text@ == " "@ && out.fg == foreground && out.bg == background
            && !out.has_explicit_bg && !out.bold && !out.italic && !out.inverse,
{
}

/// What a tab is seen as is what it holds, part by part; and a row of a grid is its own cells.
pub proof fn law_a_tab_is_seen_as_it_is(task: TabTask, grid: Seq<Vec<RenderedCell>>, i: int)
    ensures
        task@.writer_gone == task.writer_gone,
        task@.next_seq == task.next_seq,
        task@.last_byte_seq == task.last_byte_seq,
        task@.pending == task.pending@,
        task@.capture == task.capture,
        task@.captured == task.captured@,
        task@.stored_exit == task.stored_exit,
        task@.cols == task.cols,
        task@.rows == task.rows,
        task@.ring.len() == task.ring@.len(),
        0 <= i < task.ring@.len() ==> task@.ring[i] == (task.ring@[i].0, task.ring@[i].1@),
        0 <= i < grid.len() ==> row_of(grid, i) == grid[i]@,
        i >= grid.len() ==> row_of(grid, i).len() == 0,
{
}

/// What a command changes and what it does not: a size becomes the tab's and goes to the child
/// behind what is owed to it already; a capture that is drained starts over; output that is fed
/// in is output; input is input; and nothing that only reads changes anything.
pub proof fn law_a_command_changes_its_own_part(tab: TabView, cmd: TabCmd)
    ensures
        ({
            let after = tab.handled(cmd);
            &&& cmd matches TabCmd::Resize { cols, rows, .. } ==> {
                &&& after.cols == cols && after.rows == rows
                &&& after.pending.len() == tab.pending.len() + 1
                &&& after.pending.drop_last() == tab.pending
                &&& (after.pending.last() matches WriterCmd::Resize(size) && size.cols == cols
                    && size.rows == rows && size.pixel_width == 0 && size.pixel_height == 0)
                &&& (after.captured, after.ring, after.next_seq, after.stored_exit) == (
                    tab.captured,
                    tab.ring,
                    tab.next_seq,
                    tab.stored_exit,
                )
            }
            &&& cmd matches TabCmd::CaptureInput { drain } ==> {
                &&& drain ==> after.captured.len() == 0
                &&& !drain ==> after.captured == tab.captured
                &&& (after.pending, after.ring, after.next_seq, after.capture) == (
                    tab.pending,
                    tab.ring,
                    tab.next_seq,
                    tab.capture,
                )
            }
            &&& cmd matches TabCmd::Input(bytes) ==> after == tab.queue_input(
                bytes@,
                WriterCmd::Input(bytes),
            )
            &&& cmd matches TabCmd::FeedBytes(bytes) ==> after == tab.ingest(bytes@)
            &&& cmd is Snapshot || cmd is Resume || cmd is Dump || cmd is DumpResolved ==> after
                == tab
        }),
{
    if let TabCmd::Resize { cols, rows, .. } = cmd {
        assert(tab.handled(cmd).pending.drop_last() =~= tab.pending);
    }
}

/// What a command is answered with: a size with the size, a snapshot's place with that of the
/// last record, a capture with everything that was captured, and fed output with its record as
/// long as the exit is not out.
pub proof fn law_a_command_is_answered_with_its_own(tab: TabView, cmd: TabCmd, out: TabStep)
    requires
        tab.replies(cmd, out),
    ensures
        cmd is Input ==> out is Queued,
        cmd matches TabCmd::Resize { cols, rows, cell_w, cell_h, ack } ==> (out
            matches TabStep::ResizeTerminal { cols: c, rows: r, cell_w: w, cell_h: h, ack: owed }
            && c == cols && r == rows && w == cell_w && h == cell_h && owed == ack),
        cmd is Snapshot ==> (out matches TabStep::Encode { seq } && seq == tab.last_byte_seq),
        cmd matches TabCmd::Resume { from_seq } ==> (out matches TabStep::Resumed(r) && (r is Ok
            <==> tab.resumable(from_seq))),
        cmd is Dump ==> out is ReadScreen,
        cmd is DumpResolved ==> out is ReadCells,
        cmd is CaptureInput ==> (out matches TabStep::Captured(bytes) && bytes@ == tab.captured),
        cmd matches TabCmd::FeedBytes(bytes) ==> (out matches TabStep::Fed(e) && (tab.stored_exit
            is Some ==> e is None) && (tab.stored_exit is None ==> (e
            matches Some(PtyOutputEvent::Bytes { seq, data }) && seq == tab.next_seq && data@
            == bytes@))),
{
}

} // verus!
