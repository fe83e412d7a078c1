//! What a tab's PTY publishes, and how a tab's process is put together.
use crate::path;
use crate::text;
use std::collections::{HashMap, HashSet};
use vstd::prelude::*;

verus! {

broadcast use vstd::std_specs::hash::group_hash_axioms;

/// How many output records a slow subscriber may fall behind.
pub const PTY_OUTPUT_BROADCAST_CAPACITY: usize = 256;

/// How many commands may wait for a tab's writer.
pub const PTY_INPUT_CHANNEL_CAPACITY: usize = 64;

/// The most bytes one read takes from a PTY.
pub const PTY_OUTPUT_CHUNK_SIZE: usize = 4096;

/// How long a child may ignore a hang-up before it is killed, in milliseconds.
pub const KILL_GRACE: u64 = 200;

/// How long each side of an exit waits for the other before it publishes the exit itself, in
/// milliseconds.
pub const EXIT_PUBLISH_GRACE: u64 = 250;

/// One record on a tab's output stream. Every record carries its place in the stream.
#[derive(Clone, Debug, PartialEq, Eq)]
pub enum PtyOutputEvent {
    /// Bytes the child wrote.
    Bytes { seq: u64, data: Vec<u8> },
    /// The child is gone. Nothing follows, except where a descendant that still holds the
    /// terminal writes after the wait for the end of the output was given up.
    Exit { seq: u64, code: i32 },
}

impl PtyOutputEvent {
    /// The record's place in the stream.
    pub open spec fn spec_seq(self) -> u64 {
        match self {
            PtyOutputEvent::Bytes { seq, .. } => seq,
            PtyOutputEvent::Exit { seq, .. } => seq,
        }
    }

    /// The record's place in the stream.
    pub fn seq(&self) -> (seq: u64)
        ensures
            seq == self.spec_seq(),
    {
        match self {
            PtyOutputEvent::Bytes { seq, .. } => *seq,
            PtyOutputEvent::Exit { seq, .. } => *seq,
        }
    }
}

/// The size of a child's window.
#[derive(Clone, Copy, Debug, PartialEq, Eq, Structural)]
pub struct PtySize {
    pub rows: u16,
    pub cols: u16,
    pub pixel_width: u16,
    pub pixel_height: u16,
}

/// One thing owed to a child: bytes to read, or a new window size.
#[derive(Debug, PartialEq, Eq)]
pub enum WriterCmd {
    Input(Vec<u8>),
    Resize(PtySize),
}

/// What the supervisor tells the workspace.
#[derive(Clone, Copy, Debug, PartialEq, Eq, Structural)]
pub enum SupervisorEvent {
    TabExited { tab_id: i64, status: i32 },
}

/// Why a PTY operation failed.
#[derive(Clone, Copy, Debug, PartialEq, Eq, Structural)]
pub enum PtyError {
    NotFound(i64),
    Closed(i64),
    DuplicateTab(i64),
    Cancelled(i64),
    ShuttingDown(i64),
}

impl PtyError {
    /// The error in words.
    pub open spec fn text(self) -> Seq<char> {
        match self {
            PtyError::NotFound(tab) => "pty for tab "@ + text::decimal_int(tab as int)
                + " not found"@,
            PtyError::Closed(tab) => "pty for tab "@ + text::decimal_int(tab as int)
                + " is closed"@,
            PtyError::DuplicateTab(tab) => "tab "@ + text::decimal_int(tab as int)
                + " already has a live pty session"@,
            PtyError::Cancelled(tab) => "spawn for tab "@ + text::decimal_int(tab as int)
                + " cancelled by close()"@,
            PtyError::ShuttingDown(tab) => "spawn for tab "@ + text::decimal_int(tab as int)
                + " refused: the session is shutting down"@,
        }
    }

    /// The error in words.
    pub fn message(&self) -> (out: String)
        ensures
            out@ == self.text(),
    {
        match self {
            PtyError::NotFound(tab) => text::join3(
                "pty for tab ",
                text::decimal_i64(*tab).as_str(),
                " not found",
            ),
            PtyError::Closed(tab) => text::join3(
                "pty for tab ",
                text::decimal_i64(*tab).as_str(),
                " is closed",
            ),
            PtyError::DuplicateTab(tab) => text::join3(
                "tab ",
                text::decimal_i64(*tab).as_str(),
                " already has a live pty session",
            ),
            PtyError::Cancelled(tab) => text::join3(
                "spawn for tab ",
                text::decimal_i64(*tab).as_str(),
                " cancelled by close()",
            ),
            PtyError::ShuttingDown(tab) => text::join3(
                "spawn for tab ",
                text::decimal_i64(*tab).as_str(),
                " refused: the session is shutting down",
            ),
        }
    }
}

/// The numbering of one spawn's output: each record is numbered and handed on in one step.
#[derive(Debug, PartialEq, Eq)]
pub struct OutputPublisher {
    pub next_seq: u64,
    pub exit_published: bool,
}

impl OutputPublisher {
    pub fn new() -> (out: OutputPublisher)
        ensures
            out.next_seq == 1,
            !out.exit_published,
    {
        OutputPublisher { next_seq: 1, exit_published: false }
    }

    /// The record for bytes that were read.
    pub fn send_bytes(&mut self, data: Vec<u8>) -> (event: PtyOutputEvent)
        requires
            old(self).next_seq < u64::MAX,
        ensures
            event == (PtyOutputEvent::Bytes { seq: old(self).next_seq, data }),
            final(self).next_seq == old(self).next_seq + 1,
            final(self).exit_published == old(self).exit_published,
    {
        let seq: u64 = self.next_seq;
        self.next_seq = seq + 1;
        PtyOutputEvent::Bytes { seq, data }
    }

    /// The record for the child's exit.
    pub fn send_exit(&mut self, code: i32) -> (event: PtyOutputEvent)
        requires
            old(self).next_seq < u64::MAX,
        ensures
            event == (PtyOutputEvent::Exit { seq: old(self).next_seq, code }),
            final(self).next_seq == old(self).next_seq + 1,
            final(self).exit_published == old(self).exit_published,
    {
        let seq: u64 = self.next_seq;
        self.next_seq = seq + 1;
        PtyOutputEvent::Exit { seq, code }
    }
}

/// The exit record, for whichever side asks first. Both the reader and the reaper ask; the
/// second one gets nothing.
pub fn publish_exit_once(output: &mut OutputPublisher, status: i32) -> (event: Option<
    PtyOutputEvent,
>)
    requires
        old(output).next_seq < u64::MAX,
    ensures
        final(output).exit_published,
        old(output).exit_published ==> event is None && *final(output) == *old(output),
        !old(output).exit_published ==> event == Some(
            PtyOutputEvent::Exit { seq: old(output).next_seq, code: status },
        ) && final(output).next_seq == old(output).next_seq + 1,
{
    if output.exit_published {
        return None;
    }
    output.exit_published = true;
    Some(output.send_exit(status))
}

/// What one read from a PTY came to.
#[derive(Debug, PartialEq, Eq)]
pub enum ReadOutcome {
    Eof,
    Data(Vec<u8>),
    Interrupted,
    Failed,
}

/// What the reader does next.
#[derive(Debug, PartialEq, Eq)]
pub enum ReaderStep {
    /// Publish this record and read on.
    Publish(PtyOutputEvent),
    Again,
    Stop,
}

/// The reader's answer to one read: bytes are published, an interrupted read is tried again,
/// and the end or an error stops the reader.
pub fn reader_step(output: &mut OutputPublisher, read: ReadOutcome) -> (step: ReaderStep)
    requires
        old(output).next_seq < u64::MAX,
    ensures
        match read {
            ReadOutcome::Data(data) => step == ReaderStep::Publish(
                PtyOutputEvent::Bytes { seq: old(output).next_seq, data },
            ) && final(output).next_seq == old(output).next_seq + 1 && final(output).exit_published == old(output).exit_published,
            ReadOutcome::Interrupted => step == ReaderStep::Again && *final(output) == *old(output),
            ReadOutcome::Eof => step == ReaderStep::Stop && *final(output) == *old(output),
            ReadOutcome::Failed => step == ReaderStep::Stop && *final(output) == *old(output),
        },
{
    match read {
        ReadOutcome::Data(data) => ReaderStep::Publish(output.send_bytes(data)),
        ReadOutcome::Interrupted => ReaderStep::Again,
        ReadOutcome::Eof => ReaderStep::Stop,
        ReadOutcome::Failed => ReaderStep::Stop,
    }
}

/// How far the reader of a child's output has come.
#[derive(Clone, Copy, Debug, PartialEq, Eq, Structural)]
pub enum ReaderPhase {
    Reading,
    /// The output has ended; the child's status is waited for, for a while.
    AwaitingStatus,
    Over,
}

/// How far the task that waits for a child has come.
#[derive(Clone, Copy, Debug, PartialEq, Eq, Structural)]
pub enum ReaperPhase {
    AwaitingChild,
    /// The status was handed to the reader, which is waited for, for a while.
    AwaitingReader,
    Over,
}

/// The two sides of one child's exit. The reader publishes the exit behind the last bytes it
/// read; where it cannot, the reaper does.
#[derive(Debug, PartialEq, Eq)]
pub struct ExitWatch {
    pub output: OutputPublisher,
    pub reader: ReaderPhase,
    pub reaper: ReaperPhase,
    /// The child's status, once it was waited for.
    pub status: Option<i32>,
}

/// What happens to one of the two sides.
#[derive(Debug, PartialEq, Eq)]
pub enum WatchEvent {
    /// The reader came back from a read.
    Read(ReadOutcome),
    /// The reader has the status.
    StatusCame,
    /// The reader waited for the status long enough.
    StatusLate,
    /// The child was waited for.
    Reaped(i32),
    /// The reaper saw the reader end.
    ReaderGone,
    /// The reaper waited for the reader long enough.
    Deadline,
}

impl ExitWatch {
    /// Both sides at their start.
    pub open spec fn started() -> ExitWatch {
        ExitWatch {
            output: OutputPublisher { next_seq: 1, exit_published: false },
            reader: ReaderPhase::Reading,
            reaper: ReaperPhase::AwaitingChild,
            status: None,
        }
    }

    /// Whether this can happen now.
    pub open spec fn expects(self, event: WatchEvent) -> bool {
        match event {
            WatchEvent::Read(_) => self.reader is Reading,
            WatchEvent::StatusCame => self.reader is AwaitingStatus && self.status is Some,
            WatchEvent::StatusLate => self.reader is AwaitingStatus,
            WatchEvent::Reaped(_) => self.reaper is AwaitingChild && self.status is None,
            WatchEvent::ReaderGone => self.reaper is AwaitingReader && self.status is Some
                && self.reader is Over,
            WatchEvent::Deadline => self.reaper is AwaitingReader && self.status is Some,
        }
    }

    /// The publisher once the exit is out.
    pub open spec fn exited(self) -> OutputPublisher {
        if self.output.exit_published {
            self.output
        } else {
            OutputPublisher {
                next_seq: (self.output.next_seq + 1) as u64,
                exit_published: true,
            }
        }
    }

    /// The exit's record, unless it is out already.
    pub open spec fn exit_record(self) -> Option<PtyOutputEvent> {
        if self.output.exit_published || self.status is None {
            None
        } else {
            Some(PtyOutputEvent::Exit { seq: self.output.next_seq, code: self.status->0 })
        }
    }

    /// What follows from an event: where the two sides stand, and the record to publish.
    pub open spec fn after(self, event: WatchEvent) -> (ExitWatch, Option<PtyOutputEvent>) {
        match event {
            WatchEvent::Read(ReadOutcome::Data(data)) => (
                ExitWatch {
                    output: OutputPublisher {
                        next_seq: (self.output.next_seq + 1) as u64,
                        ..self.output
                    },
                    ..self
                },
                Some(PtyOutputEvent::Bytes { seq: self.output.next_seq, data }),
            ),
            WatchEvent::Read(ReadOutcome::Interrupted) => (self, None),
            WatchEvent::Read(_) => (
                ExitWatch { reader: ReaderPhase::AwaitingStatus, ..self },
                None,
            ),
            WatchEvent::StatusCame => (
                ExitWatch { output: self.exited(), reader: ReaderPhase::Over, ..self },
                self.exit_record(),
            ),
            WatchEvent::StatusLate => (ExitWatch { reader: ReaderPhase::Over, ..self }, None),
            WatchEvent::Reaped(status) => (
                ExitWatch { reaper: ReaperPhase::AwaitingReader, status: Some(status), ..self },
                None,
            ),
            WatchEvent::ReaderGone | WatchEvent::Deadline => (
                ExitWatch { output: self.exited(), reaper: ReaperPhase::Over, ..self },
                self.exit_record(),
            ),
        }
    }

    /// Where the two sides stand after a run of events, and what was published.
    pub open spec fn run(self, events: Seq<WatchEvent>) -> (ExitWatch, Seq<PtyOutputEvent>)
        decreases events.len(),
    {
        if events.len() == 0 {
            (self, seq![])
        } else {
            let before = self.run(events.drop_last());
            let after = before.0.after(events.last());
            (
                after.0,
                match after.1 {
                    Some(record) => before.1.push(record),
                    None => before.1,
                },
            )
        }
    }

    /// Whether a run of events can happen, each where it stands, with numbers left to count by.
    pub open spec fn can_run(self, events: Seq<WatchEvent>) -> bool
        decreases events.len(),
    {
        events.len() == 0 || {
            let before = self.run(events.drop_last()).0;
            &&& self.can_run(events.drop_last())
            &&& before.expects(events.last())
            &&& before.output.next_seq < u64::MAX
        }
    }

    /// Whether the reaper gave up on a reader that was still reading.
    pub open spec fn overtaken(self, events: Seq<WatchEvent>) -> bool
        decreases events.len(),
    {
        events.len() > 0 && (self.overtaken(events.drop_last()) || (events.last() is Deadline
            && self.run(events.drop_last()).0.reader is Reading))
    }

    pub fn new() -> (out: ExitWatch)
        ensures
            out == ExitWatch::started(),
    {
        ExitWatch {
            output: OutputPublisher::new(),
            reader: ReaderPhase::Reading,
            reaper: ReaperPhase::AwaitingChild,
            status: None,
        }
    }

    /// Whether this can happen now.
    pub fn accepts(&self, event: &WatchEvent) -> (yes: bool)
        ensures
            yes == self.expects(*event),
    {
        match event {
            WatchEvent::Read(_) => self.reader == ReaderPhase::Reading,
            WatchEvent::StatusCame => self.reader == ReaderPhase::AwaitingStatus
                && self.status.is_some(),
            WatchEvent::StatusLate => self.reader == ReaderPhase::AwaitingStatus,
            WatchEvent::Reaped(_) => self.reaper == ReaperPhase::AwaitingChild
                && self.status.is_none(),
            WatchEvent::ReaderGone => self.reaper == ReaperPhase::AwaitingReader
                && self.status.is_some() && self.reader == ReaderPhase::Over,
            WatchEvent::Deadline => self.reaper == ReaperPhase::AwaitingReader
                && self.status.is_some(),
        }
    }

    /// Takes an event. What comes back is to be published before the next event is taken.
    pub fn step(&mut self, event: WatchEvent) -> (record: Option<PtyOutputEvent>)
        requires
            old(self).expects(event),
            old(self).output.next_seq < u64::MAX,
        ensures
            (*final(self), record) == old(self).after(event),
    {
        match event {
            WatchEvent::Read(read) => match reader_step(&mut self.output, read) {
                ReaderStep::Publish(record) => Some(record),
                ReaderStep::Again => None,
                ReaderStep::Stop => {
                    self.reader = ReaderPhase::AwaitingStatus;
                    None
                },
            },
            WatchEvent::StatusCame => {
                self.reader = ReaderPhase::Over;
                self.publish_exit()
            },
            WatchEvent::StatusLate => {
                self.reader = ReaderPhase::Over;
                None
            },
            WatchEvent::Reaped(status) => {
                self.status = Some(status);
                self.reaper = ReaperPhase::AwaitingReader;
                None
            },
            WatchEvent::ReaderGone => {
                self.reaper = ReaperPhase::Over;
                self.publish_exit()
            },
            WatchEvent::Deadline => {
                self.reaper = ReaperPhase::Over;
                self.publish_exit()
            },
        }
    }

    fn publish_exit(&mut self) -> (record: Option<PtyOutputEvent>)
        requires
            old(self).status is Some,
            old(self).output.next_seq < u64::MAX,
        ensures
            *final(self) == (ExitWatch { output: old(self).exited(), ..*old(self) }),
            record == old(self).exit_record(),
    {
        match self.status {
            Some(status) => publish_exit_once(&mut self.output, status),
            None => None,
        }
    }
}

/// What holds of every run from the start.
proof fn lemma_watch(events: Seq<WatchEvent>)
    requires
        ExitWatch::started().can_run(events),
    ensures
        ({
            let (watch, records) = ExitWatch::started().run(events);
            &&& watch.output.next_seq == records.len() + 1
            &&& forall|i: int|
                0 <= i < records.len() ==> (#[trigger] records[i]).spec_seq() == i + 1
            &&& forall|i: int|
                0 <= i < records.len() && #[trigger] records[i] is Exit ==> watch.status == Some(
                    records[i]->code,
                ) && watch.output.exit_published
            &&& forall|i: int, j: int|
                0 <= i < j < records.len() ==> !(#[trigger] records[i] is Exit
                    && #[trigger] records[j] is Exit)
            &&& watch.output.exit_published ==> exists|i: int|
                0 <= i < records.len() && #[trigger] records[i] is Exit
            &&& watch.reaper is AwaitingChild <==> watch.status is None
            &&& watch.reaper is Over ==> watch.output.exit_published
            &&& watch.output.exit_published && !ExitWatch::started().overtaken(events) ==> {
                &&& !(watch.reader is Reading)
                &&& records.last() is Exit
            }
        }),
    decreases events.len(),
{
    if events.len() > 0 {
        let init = events.drop_last();
        lemma_watch(init);
        let (before, earlier) = ExitWatch::started().run(init);
        let (watch, records) = ExitWatch::started().run(events);
        match before.after(events.last()).1 {
            Some(record) => {
                assert(records == earlier.push(record));
                assert(records.last() == record);
                if before.output.exit_published {
                    let i = choose|i: int|
                        0 <= i < earlier.len() && #[trigger] earlier[i] is Exit;
                    assert(records[i] is Exit);
                }
                if record is Exit {
                    assert(records[earlier.len() as int] is Exit);
                }
            },
            None => {},
        }
    }
}

/// Every byte, and then the exit: unless the reaper gives up on a reader that is still
/// reading, the exit is the last record that a child's output has.
pub proof fn law_the_exit_follows_the_last_bytes(events: Seq<WatchEvent>, i: int)
    requires
        ExitWatch::started().can_run(events),
        !ExitWatch::started().overtaken(events),
        0 <= i < ExitWatch::started().run(events).1.len(),
        ExitWatch::started().run(events).1[i] is Exit,
    ensures
        i == ExitWatch::started().run(events).1.len() - 1,
{
    lemma_watch(events);
    let records = ExitWatch::started().run(events).1;
    assert(records[records.len() - 1] == records.last());
}

/// A child has one exit, whichever side publishes it, with the status that it was waited for
/// with; and once the reaper is through, that exit is out, whatever the reader does.
pub proof fn law_an_exit_is_published_once(events: Seq<WatchEvent>, i: int, j: int)
    requires
        ExitWatch::started().can_run(events),
    ensures
        ({
            let (watch, records) = ExitWatch::started().run(events);
            &&& 0 <= i < records.len() && 0 <= j < records.len() && records[i] is Exit
                && records[j] is Exit ==> i == j
            &&& 0 <= i < records.len() && records[i] is Exit ==> watch.status == Some(
                records[i]->code,
            )
            &&& watch.reaper is Over ==> exists|k: int|
                0 <= k < records.len() && #[trigger] records[k] is Exit
        }),
{
    lemma_watch(events);
}

/// The records of a child's output are numbered from one, without a gap, the exit among them.
pub proof fn law_records_are_numbered_in_order(events: Seq<WatchEvent>, i: int)
    requires
        ExitWatch::started().can_run(events),
        0 <= i < ExitWatch::started().run(events).1.len(),
    ensures
        ExitWatch::started().run(events).1[i].spec_seq() == i + 1,
{
    lemma_watch(events);
}

/// Whether a tab's writer goes on after a command. A failed write ends it; a failed resize
/// does not.
pub fn writer_goes_on(cmd: &WriterCmd, applied: bool) -> (yes: bool)
    ensures
        yes == (applied || cmd is Resize),
{
    match cmd {
        WriterCmd::Input(_) => applied,
        WriterCmd::Resize(_) => true,
    }
}

/// The status a child is reported with: its exit code, or minus one where waiting for it
/// failed.
pub open spec fn status_of(waited: Option<u32>) -> i32 {
    match waited {
        None => -1i32,
        Some(code) => if code <= i32::MAX {
            code as i32
        } else {
            (code - 0x1_0000_0000) as i32
        },
    }
}

/// The status a child is reported with.
pub fn exit_status(waited: Option<u32>) -> (status: i32)
    ensures
        status == status_of(waited),
{
    match waited {
        None => -1,
        Some(code) => {
            if code <= 0x7fff_ffff {
                code as i32
            } else {
                (code as i64 - 0x1_0000_0000) as i32
            }
        },
    }
}

/// Whether a failed hang-up means that the child was gone already.
pub fn already_gone(not_found: bool, os_error: Option<i32>) -> (yes: bool)
    ensures
        yes == (not_found || os_error == Some(3i32)),
{
    if not_found {
        return true;
    }
    match os_error {
        Some(code) => code == 3,
        None => false,
    }
}

/// Whom to kill once the grace after a hang-up is over: the child, if its pid is known and
/// nobody reaped it meanwhile.
pub fn kill_target(pid: Option<u32>, reaped: bool) -> (target: Option<u32>)
    ensures
        target == (if reaped {
            None
        } else {
            pid
        }),
{
    if reaped {
        None
    } else {
        pid
    }
}

/// A live session. `spawn` tells it apart from every other session of the same tab.
#[derive(Clone, Copy, Debug, PartialEq, Eq, Structural)]
pub struct Session {
    pub spawn: u64,
    /// Whether the receiver that was there before the reader started is still to be had.
    pub initial: bool,
}

/// Which tabs have a live session, and which have one in the making.
pub struct PtySupervisor {
    pub sessions: HashMap<i64, Session>,
    pub pending: HashSet<i64>,
    pub next_spawn: u64,
}

/// A [`PtySupervisor`] by what it holds.
#[verifier::ext_equal]
pub struct SlotsView {
    pub sessions: Map<i64, Session>,
    pub pending: Set<i64>,
    pub next_spawn: int,
}

/// What closing a tab found.
#[derive(Clone, Copy, Debug, PartialEq, Eq, Structural)]
pub struct CloseOutcome {
    /// The spawn whose child is to be hung up.
    pub session: Option<u64>,
    /// Whether a spawn in the making was called off.
    pub was_pending: bool,
}

impl SlotsView {
    /// No two sessions come from one spawn, and none from a spawn that has not begun.
    pub open spec fn lawful(self) -> bool {
        &&& forall|t: i64|
            self.sessions.dom().contains(t) ==> (#[trigger] self.sessions[t]).spawn
                < self.next_spawn
        &&& forall|t: i64, u: i64|
            self.sessions.dom().contains(t) && self.sessions.dom().contains(u) && t != u ==> (
            #[trigger] self.sessions[t]).spawn != (#[trigger] self.sessions[u]).spawn
    }

    /// Whether a tab is live or about to be.
    pub open spec fn taken(self, tab: i64) -> bool {
        self.sessions.dom().contains(tab) || self.pending.contains(tab)
    }

    /// A slot set aside for a spawn.
    pub open spec fn reserved(self, tab: i64) -> SlotsView {
        SlotsView {
            pending: self.pending.insert(tab),
            next_spawn: self.next_spawn + 1,
            ..self
        }
    }

    /// A spawn that came to nothing.
    pub open spec fn abandoned(self, tab: i64) -> SlotsView {
        SlotsView { pending: self.pending.remove(tab), ..self }
    }

    /// A built session moved into its slot, if the slot is still set aside.
    pub open spec fn promoted(self, tab: i64, spawn: u64) -> SlotsView {
        if self.pending.contains(tab) {
            SlotsView {
                sessions: self.sessions.insert(tab, Session { spawn, initial: true }),
                pending: self.pending.remove(tab),
                ..self
            }
        } else {
            self
        }
    }

    /// A child of `spawn` reaped: its session leaves, and no other.
    pub open spec fn reaped(self, tab: i64, spawn: u64) -> SlotsView {
        if self.sessions.dom().contains(tab) && self.sessions[tab].spawn == spawn {
            SlotsView { sessions: self.sessions.remove(tab), ..self }
        } else {
            self
        }
    }

    /// A closed tab.
    pub open spec fn closed(self, tab: i64) -> SlotsView {
        SlotsView {
            sessions: self.sessions.remove(tab),
            pending: self.pending.remove(tab),
            ..self
        }
    }

    /// Whether a tab's session still has its first receiver.
    pub open spec fn keeps_receiver(self, tab: i64) -> bool {
        self.sessions.dom().contains(tab) && self.sessions[tab].initial
    }

    /// After a tab's first receiver was asked for.
    pub open spec fn handed_out(self, tab: i64) -> SlotsView {
        if self.keeps_receiver(tab) {
            SlotsView {
                sessions: self.sessions.insert(
                    tab,
                    Session { spawn: self.sessions[tab].spawn, initial: false },
                ),
                ..self
            }
        } else {
            self
        }
    }
}

impl View for PtySupervisor {
    type V = SlotsView;

    open spec fn view(&self) -> SlotsView {
        SlotsView {
            sessions: self.sessions@,
            pending: self.pending@,
            next_spawn: self.next_spawn as int,
        }
    }
}

impl Default for PtySupervisor {
    fn default() -> (out: PtySupervisor)
        ensures
            out@.sessions == Map::<i64, Session>::empty(),
            out@.pending == Set::<i64>::empty(),
            out@.next_spawn == 0,
    {
        PtySupervisor::new()
    }
}

impl PtySupervisor {
    pub fn new() -> (out: PtySupervisor)
        ensures
            out@.sessions == Map::<i64, Session>::empty(),
            out@.pending == Set::<i64>::empty(),
            out@.next_spawn == 0,
    {
        PtySupervisor { sessions: HashMap::new(), pending: HashSet::new(), next_spawn: 0 }
    }

    /// Whether a tab has a live session.
    pub fn has(&self, tab_id: i64) -> (yes: bool)
        ensures
            yes == self@.sessions.dom().contains(tab_id),
    {
        self.sessions.contains_key(&tab_id)
    }

    /// Begins a spawn: sets the tab's slot aside and names the spawn. A tab that is live, or
    /// about to be, is refused.
    pub fn spawn(&mut self, tab_id: i64) -> (out: Result<u64, PtyError>)
        requires
            old(self).next_spawn < u64::MAX,
        ensures
            old(self)@.taken(tab_id) ==> out == Err::<u64, _>(PtyError::DuplicateTab(tab_id))
                && final(self)@ == old(self)@,
            !old(self)@.taken(tab_id) ==> out == Ok::<_, PtyError>(old(self).next_spawn) && final(self)@ == old(self)@.reserved(tab_id),
    {
        if self.sessions.contains_key(&tab_id) || self.pending.contains(&tab_id) {
            return Err(PtyError::DuplicateTab(tab_id));
        }
        let _fresh: bool = self.pending.insert(tab_id);
        let spawn: u64 = self.next_spawn;
        self.next_spawn = spawn + 1;
        assert(self@ =~= old(self)@.reserved(tab_id));
        Ok(spawn)
    }

    /// Gives a slot back after a spawn that failed.
    pub fn abandon(&mut self, tab_id: i64)
        ensures
            final(self)@ == old(self)@.abandoned(tab_id),
    {
        let _held: bool = self.pending.remove(&tab_id);
        assert(self@ =~= old(self)@.abandoned(tab_id));
    }

    /// Installs the session of a spawn whose child runs. A slot that was closed meanwhile
    /// calls the spawn off: the child is to be hung up.
    pub fn promote(&mut self, tab_id: i64, spawn: u64) -> (out: Result<(), PtyError>)
        ensures
            out == (if old(self)@.pending.contains(tab_id) {
                Ok(())
            } else {
                Err(PtyError::Cancelled(tab_id))
            }),
            final(self)@ == old(self)@.promoted(tab_id, spawn),
    {
        if self.pending.remove(&tab_id) {
            let _none: Option<Session> = self.sessions.insert(
                tab_id,
                Session { spawn, initial: true },
            );
            assert(self@ =~= old(self)@.promoted(tab_id, spawn));
            Ok(())
        } else {
            assert(self@ =~= old(self)@.promoted(tab_id, spawn));
            Err(PtyError::Cancelled(tab_id))
        }
    }

    /// Takes the session of a reaped child out, unless the slot belongs to another spawn by
    /// now.
    pub fn reap(&mut self, tab_id: i64, spawn: u64)
        ensures
            final(self)@ == old(self)@.reaped(tab_id, spawn),
    {
        let owns: bool = match self.sessions.get(&tab_id) {
            Some(session) => session.spawn == spawn,
            None => false,
        };
        if owns {
            let _gone: Option<Session> = self.sessions.remove(&tab_id);
        }
        assert(self@ =~= old(self)@.reaped(tab_id, spawn));
    }

    /// Takes a tab out, its live session and its spawn in the making alike.
    pub fn close(&mut self, tab_id: i64) -> (out: CloseOutcome)
        ensures
            final(self)@ == old(self)@.closed(tab_id),
            out.session == (if old(self)@.sessions.dom().contains(tab_id) {
                Some(old(self)@.sessions[tab_id].spawn)
            } else {
                None
            }),
            out.was_pending == old(self)@.pending.contains(tab_id),
    {
        let session: Option<u64> = match self.sessions.remove(&tab_id) {
            Some(session) => Some(session.spawn),
            None => None,
        };
        let was_pending: bool = self.pending.remove(&tab_id);
        assert(self@ =~= old(self)@.closed(tab_id));
        CloseOutcome { session, was_pending }
    }

    /// Whether the receiver from before the reader started is handed out now. Each session
    /// has one, for its first attach.
    pub fn take_initial_receiver(&mut self, tab_id: i64) -> (yes: bool)
        ensures
            yes == old(self)@.keeps_receiver(tab_id),
            final(self)@ == old(self)@.handed_out(tab_id),
            yes == (old(self)@.sessions.dom().contains(tab_id)
                && old(self)@.sessions[tab_id].initial),
            final(self)@ == (if yes {
                SlotsView {
                    sessions: old(self)@.sessions.insert(
                        tab_id,
                        Session { spawn: old(self)@.sessions[tab_id].spawn, initial: false },
                    ),
                    ..old(self)@
                }
            } else {
                old(self)@
            }),
    {
        let found: Option<u64> = match self.sessions.get(&tab_id) {
            Some(session) => if session.initial {
                Some(session.spawn)
            } else {
                None
            },
            None => None,
        };
        match found {
            Some(spawn) => {
                let _before: Option<Session> = self.sessions.insert(
                    tab_id,
                    Session { spawn, initial: false },
                );
                assert(self@ =~= SlotsView {
                    sessions: old(self)@.sessions.insert(tab_id, Session { spawn, initial: false }),
                    ..old(self)@
                });
                true
            },
            None => false,
        }
    }

    /// The answer to input for a tab. `accepted` is what the writer of the tab's live
    /// session made of it.
    pub fn write(&self, tab_id: i64, accepted: bool) -> (out: Result<(), PtyError>)
        ensures
            out == (if !self@.sessions.dom().contains(tab_id) {
                Err(PtyError::NotFound(tab_id))
            } else if accepted {
                Ok(())
            } else {
                Err(PtyError::Closed(tab_id))
            }),
    {
        if !self.sessions.contains_key(&tab_id) {
            return Err(PtyError::NotFound(tab_id));
        }
        if accepted {
            Ok(())
        } else {
            Err(PtyError::Closed(tab_id))
        }
    }

    /// The command that a resize hands to a tab's writer.
    pub fn resize(&self, tab_id: i64, cols: u16, rows: u16) -> (out: Result<WriterCmd, PtyError>)
        ensures
            out == (if self@.sessions.dom().contains(tab_id) {
                Ok(
                    WriterCmd::Resize(
                        PtySize { rows, cols, pixel_width: 0, pixel_height: 0 },
                    ),
                )
            } else {
                Err(PtyError::NotFound(tab_id))
            }),
    {
        if !self.sessions.contains_key(&tab_id) {
            return Err(PtyError::NotFound(tab_id));
        }
        Ok(WriterCmd::Resize(PtySize { rows, cols, pixel_width: 0, pixel_height: 0 }))
    }
}

/// Reports a child that was waited for: its session leaves before anybody hears of the exit.
pub fn reaped(slots: &mut PtySupervisor, tab_id: i64, spawn: u64, waited: Option<u32>) -> (event:
    SupervisorEvent)
    ensures
        final(slots)@ == old(slots)@.reaped(tab_id, spawn),
        event == (SupervisorEvent::TabExited { tab_id, status: status_of(waited) }),
{
    let status: i32 = exit_status(waited);
    slots.reap(tab_id, spawn);
    SupervisorEvent::TabExited { tab_id, status }
}

/// What the outside is asked to do for a spawn.
#[derive(Clone, Copy, Debug, PartialEq, Eq, Structural)]
pub enum SpawnAction {
    OpenPty,
    TakeReader,
    TakeWriter,
    StartChild,
    /// Start the tasks that read from the child and write to it.
    StartPumps,
    /// Start the task that waits for the child.
    StartReaper,
    HangUp,
    Ready,
    Cancelled,
    Failed(SpawnStage),
}

/// The stages of a spawn that can fail.
#[derive(Clone, Copy, Debug, PartialEq, Eq, Structural)]
pub enum SpawnStage {
    Pty,
    Reader,
    Writer,
    Child,
}

impl SpawnStage {
    /// What was tried.
    pub open spec fn text(self) -> Seq<char> {
        match self {
            SpawnStage::Pty => "openpty failed"@,
            SpawnStage::Reader => "master.try_clone_reader"@,
            SpawnStage::Writer => "master.take_writer"@,
            SpawnStage::Child => "spawn shell"@,
        }
    }

    /// What was tried.
    pub fn message(&self) -> (out: String)
        ensures
            out@ == self.text(),
    {
        match self {
            SpawnStage::Pty => "openpty failed".to_owned(),
            SpawnStage::Reader => "master.try_clone_reader".to_owned(),
            SpawnStage::Writer => "master.take_writer".to_owned(),
            SpawnStage::Child => "spawn shell".to_owned(),
        }
    }
}

/// How far a spawn has come.
#[derive(Clone, Copy, Debug, PartialEq, Eq, Structural)]
pub enum SpawnPhase {
    /// A stage is under way that can fail.
    Building(SpawnStage),
    Pumping,
    Reaping { cancelled: bool },
    HangingUp,
    Over,
}

/// A session in the making.
#[derive(Clone, Copy, Debug, PartialEq, Eq, Structural)]
pub struct SpawnFlow {
    pub tab_id: i64,
    pub spawn: u64,
    pub phase: SpawnPhase,
}

/// One step of a spawn: the phase and the slots after it, and what to do. The reader and
/// the writer are taken before there is a child to lose, the slot is filled before the
/// reaper runs, and a child whose slot was closed is hung up only once it has a reaper.
pub open spec fn spawn_step(slots: SlotsView, flow: SpawnFlow, ok: bool) -> (
    SlotsView,
    SpawnPhase,
    SpawnAction,
) {
    match flow.phase {
        SpawnPhase::Building(stage) => if !ok {
            (slots.abandoned(flow.tab_id), SpawnPhase::Over, SpawnAction::Failed(stage))
        } else {
            match stage {
                SpawnStage::Pty => (
                    slots,
                    SpawnPhase::Building(SpawnStage::Reader),
                    SpawnAction::TakeReader,
                ),
                SpawnStage::Reader => (
                    slots,
                    SpawnPhase::Building(SpawnStage::Writer),
                    SpawnAction::TakeWriter,
                ),
                SpawnStage::Writer => (
                    slots,
                    SpawnPhase::Building(SpawnStage::Child),
                    SpawnAction::StartChild,
                ),
                SpawnStage::Child => (slots, SpawnPhase::Pumping, SpawnAction::StartPumps),
            }
        },
        SpawnPhase::Pumping => (
            slots.promoted(flow.tab_id, flow.spawn),
            SpawnPhase::Reaping { cancelled: !slots.pending.contains(flow.tab_id) },
            SpawnAction::StartReaper,
        ),
        SpawnPhase::Reaping { cancelled } => if cancelled {
            (slots, SpawnPhase::HangingUp, SpawnAction::HangUp)
        } else {
            (slots, SpawnPhase::Over, SpawnAction::Ready)
        },
        SpawnPhase::HangingUp => (slots, SpawnPhase::Over, SpawnAction::Cancelled),
        SpawnPhase::Over => (slots, SpawnPhase::Over, SpawnAction::Ready),
    }
}

impl SpawnFlow {
    /// Begins a spawn: sets the slot aside and asks for a PTY.
    pub fn begin(slots: &mut PtySupervisor, tab_id: i64) -> (out: Result<
        (SpawnFlow, SpawnAction),
        PtyError,
    >)
        requires
            old(slots).next_spawn < u64::MAX,
        ensures
            old(slots)@.taken(tab_id) ==> out == Err::<(SpawnFlow, SpawnAction), _>(
                PtyError::DuplicateTab(tab_id),
            ) && final(slots)@ == old(slots)@,
            !old(slots)@.taken(tab_id) ==> out == Ok::<_, PtyError>(
                (
                    SpawnFlow {
                        tab_id,
                        spawn: old(slots).next_spawn,
                        phase: SpawnPhase::Building(SpawnStage::Pty),
                    },
                    SpawnAction::OpenPty,
                ),
            ) && final(slots)@ == old(slots)@.reserved(tab_id),
    {
        match slots.spawn(tab_id) {
            Err(e) => Err(e),
            Ok(spawn) => Ok(
                (
                    SpawnFlow { tab_id, spawn, phase: SpawnPhase::Building(SpawnStage::Pty) },
                    SpawnAction::OpenPty,
                ),
            ),
        }
    }

    /// Takes the next step. `ok` says how the last action went.
    pub fn step(&mut self, slots: &mut PtySupervisor, ok: bool) -> (action: SpawnAction)
        requires
            old(self).phase != SpawnPhase::Over,
        ensures
            final(self).tab_id == old(self).tab_id,
            final(self).spawn == old(self).spawn,
            (final(slots)@, final(self).phase, action) == spawn_step(old(slots)@, *old(self), ok),
    {
        match self.phase {
            SpawnPhase::Building(stage) => {
                if !ok {
                    slots.abandon(self.tab_id);
                    self.phase = SpawnPhase::Over;
                    return SpawnAction::Failed(stage);
                }
                match stage {
                    SpawnStage::Pty => {
                        self.phase = SpawnPhase::Building(SpawnStage::Reader);
                        SpawnAction::TakeReader
                    },
                    SpawnStage::Reader => {
                        self.phase = SpawnPhase::Building(SpawnStage::Writer);
                        SpawnAction::TakeWriter
                    },
                    SpawnStage::Writer => {
                        self.phase = SpawnPhase::Building(SpawnStage::Child);
                        SpawnAction::StartChild
                    },
                    SpawnStage::Child => {
                        self.phase = SpawnPhase::Pumping;
                        SpawnAction::StartPumps
                    },
                }
            },
            SpawnPhase::Pumping => {
                let cancelled: bool = slots.promote(self.tab_id, self.spawn).is_err();
                self.phase = SpawnPhase::Reaping { cancelled };
                SpawnAction::StartReaper
            },
            SpawnPhase::Reaping { cancelled } => {
                if cancelled {
                    self.phase = SpawnPhase::HangingUp;
                    SpawnAction::HangUp
                } else {
                    self.phase = SpawnPhase::Over;
                    SpawnAction::Ready
                }
            },
            SpawnPhase::HangingUp => {
                self.phase = SpawnPhase::Over;
                SpawnAction::Cancelled
            },
            SpawnPhase::Over => SpawnAction::Ready,
        }
    }
}

/// A stage that fails gives the slot back, so that the tab can be spawned again.
pub proof fn law_a_failed_spawn_frees_its_slot(slots: SlotsView, flow: SpawnFlow)
    requires
        flow.phase is Building,
        !slots.sessions.dom().contains(flow.tab_id),
    ensures
        !spawn_step(slots, flow, false).0.taken(flow.tab_id),
        spawn_step(slots, flow, false).1 == SpawnPhase::Over,
{
}

/// A spawn is ready exactly when its session was installed: a child whose slot was closed
/// ends cancelled, with nothing installed.
pub proof fn law_a_ready_spawn_was_installed(slots: SlotsView, flow: SpawnFlow)
    requires
        flow.phase == SpawnPhase::Pumping,
        !slots.sessions.dom().contains(flow.tab_id),
    ensures
        ({
            let (after, phase, action) = spawn_step(slots, flow, true);
            let next = SpawnFlow { phase, ..flow };
            let last = spawn_step(after, next, true);
            &&& action == SpawnAction::StartReaper
            &&& last.2 == SpawnAction::Ready <==> after.sessions.dom().contains(flow.tab_id)
            &&& last.2 == SpawnAction::Ready ==> after.sessions[flow.tab_id].spawn == flow.spawn
            &&& last.2 != SpawnAction::Ready ==> after == slots && last.2 == SpawnAction::HangUp
                && spawn_step(last.0, SpawnFlow { phase: last.1, ..flow }, true).2
                == SpawnAction::Cancelled
        }),
{
}

/// No operation mixes up two spawns: a fresh spawn's name is new, and every step keeps the
/// sessions apart.
pub proof fn law_sessions_stay_apart(slots: SlotsView, tab: i64, spawn: u64)
    requires
        slots.lawful(),
        spawn < slots.next_spawn,
        forall|t: i64|
            slots.sessions.dom().contains(t) ==> (#[trigger] slots.sessions[t]).spawn != spawn,
    ensures
        slots.reserved(tab).lawful(),
        slots.abandoned(tab).lawful(),
        slots.promoted(tab, spawn).lawful(),
        slots.closed(tab).lawful(),
        forall|s: u64| (#[trigger] slots.reaped(tab, s)).lawful(),
{
}

/// A tab has one spawn at a time: while one is in the making or its session lives, a second
/// is refused.
pub proof fn law_one_spawn_at_a_time(slots: SlotsView, tab: i64, spawn: u64)
    ensures
        slots.reserved(tab).taken(tab),
        slots.reserved(tab).promoted(tab, spawn).taken(tab),
        !slots.abandoned(tab).closed(tab).taken(tab),
{
}

/// A close that lands while a spawn is in the making calls it off: nothing is installed.
pub proof fn law_a_close_calls_a_spawn_off(slots: SlotsView, tab: i64, spawn: u64)
    ensures
        slots.reserved(tab).closed(tab).promoted(tab, spawn) == slots.reserved(tab).closed(tab),
        !slots.reserved(tab).closed(tab).promoted(tab, spawn).taken(tab),
{
}

/// A late reaper leaves a newer session of the same tab alone, and a reaped child leaves no
/// session behind.
pub proof fn law_a_reaper_takes_only_its_own(slots: SlotsView, tab: i64, old: u64, new: u64)
    requires
        old != new,
        slots.pending.contains(tab),
    ensures
        slots.promoted(tab, new).reaped(tab, old) == slots.promoted(tab, new),
        !slots.promoted(tab, new).reaped(tab, new).sessions.dom().contains(tab),
{
}

/// The command line of a tab: what was asked for, or the user's shell, as a login shell
/// where the platform expects one.
pub open spec fn argv_of(argv: Seq<Seq<char>>, shell: Seq<char>, is_macos: bool) -> Seq<
    Seq<char>,
> {
    if argv.len() > 0 {
        argv
    } else if is_macos {
        seq![shell, "-l"@]
    } else {
        seq![shell]
    }
}

/// The command line of a tab.
pub fn resolve_argv(argv: &Vec<String>, shell: &str, is_macos: bool) -> (out: Vec<String>)
    ensures
        text::texts(out@) == argv_of(text::texts(argv@), shell@, is_macos),
{
    let mut out: Vec<String> = Vec::new();
    if argv.len() == 0 {
        out.push(shell.to_owned());
        if is_macos {
            out.push("-l".to_owned());
        }
        assert(text::texts(out@) =~= argv_of(text::texts(argv@), shell@, is_macos));
        return out;
    }
    let mut i: usize = 0;
    while i < argv.len()
        invariant
            i <= argv@.len(),
            text::texts(out@) =~= text::texts(argv@).take(i as int),
        decreases argv@.len() - i,
    {
        let ghost before = text::texts(out@);
        out.push(argv[i].clone());
        assert(text::texts(out@) =~= before.push(argv@[i as int]@));
        i = i + 1;
    }
    assert(text::texts(argv@).take(i as int) =~= text::texts(argv@));
    out
}

/// Whether a command line is a plain interactive bash that can be taught to load its
/// integration by itself.
pub open spec fn boots_bash(argv: Seq<Seq<char>>, is_macos: bool) -> bool {
    &&& argv.len() > 0
    &&& path::name_of(argv[0]) == Some("bash"@)
    &&& !(is_macos && argv[0] == "/bin/bash"@)
    &&& forall|i: int| 0 < i < argv.len() ==> #[trigger] argv[i] == "-l"@ || argv[i] == "-i"@
}

/// Whether a command line is a plain interactive bash.
pub fn bash_autobootstrap(resolved: &Vec<String>, is_macos: bool) -> (yes: bool)
    ensures
        yes == boots_bash(text::texts(resolved@), is_macos),
{
    if resolved.len() == 0 {
        return false;
    }
    let ghost argv = text::texts(resolved@);
    assert(argv[0] == resolved@[0]@);
    if !path::is_named(resolved[0].as_str(), "bash") {
        return false;
    }
    if is_macos && text::same_text(resolved[0].as_str(), "/bin/bash") {
        return false;
    }
    let mut i: usize = 1;
    while i < resolved.len()
        invariant
            1 <= i <= resolved@.len(),
            argv == text::texts(resolved@),
            forall|k: int|
                0 < k < i ==> #[trigger] argv[k] == "-l"@ || argv[k] == "-i"@,
        decreases resolved@.len() - i,
    {
        let arg = resolved[i].as_str();
        if !text::same_text(arg, "-l") && !text::same_text(arg, "-i") {
            assert(argv[i as int] == arg@);
            return false;
        }
        i = i + 1;
    }
    true
}

/// A bash command line in POSIX mode: the long option goes first, before the short ones.
pub fn with_bash_posix(resolved: Vec<String>, apply: bool) -> (out: Vec<String>)
    requires
        apply ==> resolved@.len() > 0,
    ensures
        text::texts(out@) == (if apply {
            text::texts(resolved@).insert(1, "--posix"@)
        } else {
            text::texts(resolved@)
        }),
{
    let mut out = resolved;
    if apply {
        out.insert(1, "--posix".to_owned());
        assert(text::texts(out@) =~= text::texts(resolved@).insert(1, "--posix"@));
    }
    out
}

/// A list of variables by what it holds.
pub open spec fn pairs(list: Seq<(String, String)>) -> Seq<(Seq<char>, Seq<char>)> {
    Seq::new(list.len(), |i: int| (list[i].0@, list[i].1@))
}

fn push_pair(out: &mut Vec<(String, String)>, key: &str, value: &str)
    ensures
        pairs(final(out)@) == pairs(old(out)@).push((key@, value@)),
{
    out.push((key.to_owned(), value.to_owned()));
    assert(pairs(out@) =~= pairs(old(out)@).push((key@, value@)));
}

/// What bash is started with so that it loads its integration: an earlier `ENV` is kept
/// aside, and the history file is pinned only where none was named.
pub open spec fn bash_env(
    resources_dir: Seq<char>,
    existing_env: Option<Seq<char>>,
    existing_histfile: Option<Seq<char>>,
    home: Option<Seq<char>>,
) -> Seq<(Seq<char>, Seq<char>)> {
    let kept = if existing_env is Some && existing_env->0.len() > 0 {
        seq![("ROOST_BASH_ENV"@, existing_env->0)]
    } else {
        seq![]
    };
    let script = path::joined(path::joined(resources_dir, "shell-integration"@), "roost.bash"@);
    let hooks = seq![("ENV"@, script), ("ROOST_BASH_INJECT"@, "1"@)];
    let history = if existing_histfile is None && home is Some && home->0.len() > 0 {
        seq![
            ("HISTFILE"@, home->0 + "/.bash_history"@),
            ("ROOST_BASH_UNEXPORT_HISTFILE"@, "1"@),
        ]
    } else {
        seq![]
    };
    kept + hooks + history
}

/// What bash is started with so that it loads its integration.
pub fn bash_bootstrap_env(
    resources_dir: &str,
    existing_env: Option<&str>,
    existing_histfile: Option<&str>,
    home: Option<&str>,
) -> (out: Vec<(String, String)>)
    ensures
        pairs(out@) == bash_env(
            resources_dir@,
            text::opt(existing_env),
            text::opt(existing_histfile),
            text::opt(home),
        ),
{
    let mut out: Vec<(String, String)> = Vec::new();
    assert(pairs(out@) =~= seq![]);
    match existing_env {
        Some(prev) => {
            if !prev.is_empty() {
                push_pair(&mut out, "ROOST_BASH_ENV", prev);
            }
        },
        None => {},
    }
    let dir = path::join(resources_dir, "shell-integration");
    let script = path::join(dir.as_str(), "roost.bash");
    push_pair(&mut out, "ENV", script.as_str());
    push_pair(&mut out, "ROOST_BASH_INJECT", "1");
    if existing_histfile.is_none() {
        match home {
            Some(home) => {
                if !home.is_empty() {
                    push_pair(&mut out, "HISTFILE", text::join2(home, "/.bash_history").as_str());
                    push_pair(&mut out, "ROOST_BASH_UNEXPORT_HISTFILE", "1");
                }
            },
            None => {},
        }
    }
    assert(pairs(out@) =~= bash_env(
        resources_dir@,
        text::opt(existing_env),
        text::opt(existing_histfile),
        text::opt(home),
    ));
    out
}

/// One change to a child's environment.
#[derive(Debug, PartialEq, Eq)]
pub enum EnvChange {
    Assign(String, String),
    Remove(String),
}

/// An [`EnvChange`] by what it holds.
pub enum EnvView {
    Assign(Seq<char>, Seq<char>),
    Remove(Seq<char>),
}

impl View for EnvChange {
    type V = EnvView;

    open spec fn view(&self) -> EnvView {
        match self {
            EnvChange::Assign(k, v) => EnvView::Assign(k@, v@),
            EnvChange::Remove(k) => EnvView::Remove(k@),
        }
    }
}

/// A list of changes by what it holds.
pub open spec fn changes(list: Seq<EnvChange>) -> Seq<EnvView> {
    Seq::new(list.len(), |i: int| list[i]@)
}

fn push_set(out: &mut Vec<EnvChange>, key: &str, value: &str)
    ensures
        changes(final(out)@) == changes(old(out)@).push(EnvView::Assign(key@, value@)),
{
    out.push(EnvChange::Assign(key.to_owned(), value.to_owned()));
    assert(changes(out@) =~= changes(old(out)@).push(EnvView::Assign(key@, value@)));
}

/// What a child's command depends on besides what was asked for.
#[derive(Debug, PartialEq, Eq)]
pub struct ShellContext {
    /// The user's shell, if the environment names one.
    pub shell: Option<String>,
    pub is_macos: bool,
    /// Where the integration scripts lie, if they could be written.
    pub resources_dir: Option<String>,
    pub version: String,
    /// Whether the environment names the integration's features already.
    pub has_features: bool,
    pub zdotdir: Option<String>,
    pub env: Option<String>,
    pub histfile: Option<String>,
    pub home: Option<String>,
}

/// A child's command: what to run, where, and what to change in its environment.
#[derive(Debug, PartialEq, Eq)]
pub struct CommandPlan {
    pub argv: Vec<String>,
    pub cwd: Option<String>,
    pub env: Vec<EnvChange>,
}

/// The command line before a bash is put in POSIX mode.
pub open spec fn plain_argv(argv: Seq<Seq<char>>, context: ShellContext) -> Seq<Seq<char>> {
    let shell = match context.shell {
        Some(shell) => shell@,
        None => "/bin/sh"@,
    };
    argv_of(argv, shell, context.is_macos)
}

/// Whether bash is taught to load its integration. POSIX mode and the variables go
/// together, so both wait for the scripts.
pub open spec fn boots(argv: Seq<Seq<char>>, context: ShellContext) -> bool {
    context.resources_dir is Some && boots_bash(plain_argv(argv, context), context.is_macos)
}

/// The command line of a child.
pub open spec fn command_argv(argv: Seq<Seq<char>>, context: ShellContext) -> Seq<Seq<char>> {
    if boots(argv, context) {
        plain_argv(argv, context).insert(1, "--posix"@)
    } else {
        plain_argv(argv, context)
    }
}

/// The changes that every child's environment gets.
pub open spec fn base_env(tab_id: i64, socket_path: Seq<char>, context: ShellContext) -> Seq<
    EnvView,
> {
    let fixed = seq![
        EnvView::Assign("TERM"@, "xterm-256color"@),
        EnvView::Assign("COLORTERM"@, "truecolor"@),
        EnvView::Remove("TERMINFO"@),
        EnvView::Assign("FORCE_HYPERLINK"@, "1"@),
        EnvView::Assign("ROOST_TAB_ID"@, text::decimal_int(tab_id as int)),
        EnvView::Assign("ROOST_SOCKET"@, socket_path),
        EnvView::Assign("TERM_PROGRAM"@, "Roost"@),
        EnvView::Assign("TERM_PROGRAM_VERSION"@, context.version@),
        EnvView::Assign("ROOST_SHELL_INTEGRATION"@, "1"@),
    ];
    if context.has_features {
        fixed
    } else {
        fixed.push(EnvView::Assign("ROOST_SHELL_FEATURES"@, "cwd,title,marks,prompt,ssh-env"@))
    }
}

/// Variables as changes.
pub open spec fn sets(list: Seq<(Seq<char>, Seq<char>)>) -> Seq<EnvView> {
    Seq::new(list.len(), |i: int| EnvView::Assign(list[i].0, list[i].1))
}

/// What a shell's integration adds to its environment.
pub open spec fn integration_env(argv: Seq<Seq<char>>, context: ShellContext) -> Seq<EnvView> {
    match context.resources_dir {
        None => seq![],
        Some(dir) => {
            let head = seq![EnvView::Assign("ROOST_RESOURCES_DIR"@, dir@)];
            if path::name_of(command_argv(argv, context)[0]) == Some("zsh"@) {
                let kept = match context.zdotdir {
                    Some(z) => seq![EnvView::Assign("ROOST_ZSH_ZDOTDIR"@, z@)],
                    None => seq![],
                };
                head + kept + seq![
                    EnvView::Assign(
                        "ZDOTDIR"@,
                        path::joined(path::joined(dir@, "shell-integration"@), "zsh"@),
                    ),
                ]
            } else if boots(argv, context) {
                head + sets(
                    bash_env(
                        dir@,
                        text::opt_string(context.env),
                        text::opt_string(context.histfile),
                        text::opt_string(context.home),
                    ),
                )
            } else {
                head
            }
        },
    }
}

fn as_text(value: &Option<String>) -> (out: Option<&str>)
    ensures
        text::opt(out) == text::opt_string(*value),
{
    match value {
        Some(v) => Some(v.as_str()),
        None => None,
    }
}

fn fixed_env(tab_id: i64, socket_path: &str, context: &ShellContext) -> (out: Vec<EnvChange>)
    ensures
        changes(out@) == base_env(tab_id, socket_path@, *context),
{
    let mut out: Vec<EnvChange> = Vec::new();
    assert(changes(out@) =~= seq![]);
    push_set(&mut out, "TERM", "xterm-256color");
    push_set(&mut out, "COLORTERM", "truecolor");
    let ghost before = changes(out@);
    out.push(EnvChange::Remove("TERMINFO".to_owned()));
    assert(changes(out@) =~= before.push(EnvView::Remove("TERMINFO"@)));
    push_set(&mut out, "FORCE_HYPERLINK", "1");
    push_set(&mut out, "ROOST_TAB_ID", text::decimal_i64(tab_id).as_str());
    push_set(&mut out, "ROOST_SOCKET", socket_path);
    push_set(&mut out, "TERM_PROGRAM", "Roost");
    push_set(&mut out, "TERM_PROGRAM_VERSION", context.version.as_str());
    push_set(&mut out, "ROOST_SHELL_INTEGRATION", "1");
    if !context.has_features {
        push_set(&mut out, "ROOST_SHELL_FEATURES", "cwd,title,marks,prompt,ssh-env");
    }
    assert(changes(out@) =~= base_env(tab_id, socket_path@, *context));
    out
}

fn push_bash_env(out: &mut Vec<EnvChange>, dir: &str, context: &ShellContext)
    ensures
        changes(final(out)@) == changes(old(out)@) + sets(
            bash_env(
                dir@,
                text::opt_string(context.env),
                text::opt_string(context.histfile),
                text::opt_string(context.home),
            ),
        ),
{
    let vars = bash_bootstrap_env(
        dir,
        as_text(&context.env),
        as_text(&context.histfile),
        as_text(&context.home),
    );
    let ghost wanted = sets(pairs(vars@));
    let ghost start = changes(out@);
    let mut i: usize = 0;
    assert(start + wanted.take(0) =~= start);
    while i < vars.len()
        invariant
            i <= vars@.len(),
            wanted == sets(pairs(vars@)),
            changes(out@) == start + wanted.take(i as int),
        decreases vars@.len() - i,
    {
        assert(wanted[i as int] == EnvView::Assign(vars@[i as int].0@, vars@[i as int].1@));
        assert(wanted.take(i + 1) =~= wanted.take(i as int).push(wanted[i as int]));
        assert((start + wanted.take(i as int)).push(wanted[i as int]) =~= start + wanted.take(
            i + 1,
        ));
        push_set(out, vars[i].0.as_str(), vars[i].1.as_str());
        i = i + 1;
    }
    assert(wanted.take(i as int) =~= wanted);
}

/// A child's command. The arguments are never parsed by a shell.
pub fn build_command(
    cwd: &str,
    argv: &Vec<String>,
    tab_id: i64,
    socket_path: &str,
    context: &ShellContext,
) -> (plan: CommandPlan)
    ensures
        text::texts(plan.argv@) == command_argv(text::texts(argv@), *context),
        text::opt_string(plan.cwd) == (if cwd@.len() == 0 {
            None
        } else {
            Some(cwd@)
        }),
        changes(plan.env@) == base_env(tab_id, socket_path@, *context) + integration_env(
            text::texts(argv@),
            *context,
        ),
{
    let ghost asked = text::texts(argv@);
    let resolved = match &context.shell {
        Some(shell) => resolve_argv(argv, shell.as_str(), context.is_macos),
        None => resolve_argv(argv, "/bin/sh", context.is_macos),
    };
    assert(text::texts(resolved@) == plain_argv(asked, *context));
    assert(text::texts(resolved@).len() == resolved@.len());
    let boot = context.resources_dir.is_some() && bash_autobootstrap(&resolved, context.is_macos);
    let command = with_bash_posix(resolved, boot);
    assert(text::texts(command@).len() == command@.len());
    let mut env = fixed_env(tab_id, socket_path, context);
    match &context.resources_dir {
        None => {},
        Some(dir) => {
            push_set(&mut env, "ROOST_RESOURCES_DIR", dir.as_str());
            assert(text::texts(command@)[0] == command@[0]@);
            if path::is_named(command[0].as_str(), "zsh") {
                match &context.zdotdir {
                    Some(z) => {
                        push_set(&mut env, "ROOST_ZSH_ZDOTDIR", z.as_str());
                    },
                    None => {},
                }
                let scripts = path::join(dir.as_str(), "shell-integration");
                push_set(&mut env, "ZDOTDIR", path::join(scripts.as_str(), "zsh").as_str());
            } else if boot {
                push_bash_env(&mut env, dir.as_str(), context);
            }
        },
    }
    assert(changes(env@) =~= base_env(tab_id, socket_path@, *context) + integration_env(
        asked,
        *context,
    ));
    CommandPlan {
        argv: command,
        cwd: if cwd.is_empty() {
            None
        } else {
            Some(cwd.to_owned())
        },
        env,
    }
}

/// POSIX mode never comes without the script that ends it: where a child's command line gains
/// the option, its environment names the script and tells it to load.
pub proof fn law_posix_mode_comes_with_its_script(argv: Seq<Seq<char>>, context: ShellContext)
    requires
        boots(argv, context),
    ensures
        command_argv(argv, context)[1] == "--posix"@,
        context.resources_dir is Some,
        integration_env(argv, context).contains(
            EnvView::Assign(
                "ENV"@,
                path::joined(
                    path::joined(context.resources_dir->0@, "shell-integration"@),
                    "roost.bash"@,
                ),
            ),
        ),
        integration_env(argv, context).contains(EnvView::Assign("ROOST_BASH_INJECT"@, "1"@)),
{
    reveal_strlit("bash");
    reveal_strlit("zsh");
    let dir = context.resources_dir->0;
    let plain = plain_argv(argv, context);
    assert(command_argv(argv, context)[0] == plain[0]);
    assert("bash"@ != "zsh"@) by {
        assert("bash"@.len() == 4);
        assert("zsh"@.len() == 3);
    }
    let vars = bash_env(
        dir@,
        text::opt_string(context.env),
        text::opt_string(context.histfile),
        text::opt_string(context.home),
    );
    let at = if context.env is Some && context.env->0@.len() > 0 {
        1int
    } else {
        0int
    };
    let script = path::joined(path::joined(dir@, "shell-integration"@), "roost.bash"@);
    assert(vars[at] == ("ENV"@, script));
    assert(vars[at + 1] == ("ROOST_BASH_INJECT"@, "1"@));
    assert(integration_env(argv, context)[at + 1] == EnvView::Assign("ENV"@, script));
    assert(integration_env(argv, context)[at + 2] == EnvView::Assign("ROOST_BASH_INJECT"@, "1"@));
}

/// Where the integration scripts go: under the user's cache directory. A cache directory
/// that does not start at the root counts for nothing.
pub open spec fn resources_root(cache: Option<Seq<char>>, home: Option<Seq<char>>) -> Option<
    Seq<char>,
> {
    if cache is Some && path::absolute(cache->0) {
        Some(path::joined(cache->0, "roost"@))
    } else if home is Some {
        Some(path::joined(path::joined(home->0, ".cache"@), "roost"@))
    } else {
        None
    }
}

/// Where the integration scripts go.
pub fn roost_resources_dir(cache: Option<&str>, home: Option<&str>) -> (out: Option<String>)
    ensures
        text::opt_string(out) == resources_root(text::opt(cache), text::opt(home)),
{
    match cache {
        Some(cache) => {
            if path::is_absolute(cache) {
                return Some(path::join(cache, "roost"));
            }
        },
        None => {},
    }
    match home {
        Some(home) => {
            let base = path::join(home, ".cache");
            Some(path::join(base.as_str(), "roost"))
        },
        None => None,
    }
}

/// What was read of a child's output, chunk by chunk.
pub open spec fn chunks_read(events: Seq<WatchEvent>) -> Seq<Vec<u8>>
    decreases events.len(),
{
    if events.len() == 0 {
        seq![]
    } else {
        match events.last() {
            WatchEvent::Read(ReadOutcome::Data(data)) => chunks_read(events.drop_last()).push(data),
            _ => chunks_read(events.drop_last()),
        }
    }
}

/// What records publish of a child's output, chunk by chunk.
pub open spec fn chunks_published(records: Seq<PtyOutputEvent>) -> Seq<Vec<u8>>
    decreases records.len(),
{
    if records.len() == 0 {
        seq![]
    } else {
        match records.last() {
            PtyOutputEvent::Bytes { data, .. } => chunks_published(records.drop_last()).push(data),
            PtyOutputEvent::Exit { .. } => chunks_published(records.drop_last()),
        }
    }
}

/// Whatever a child writes is published: over any run, the records carry every chunk that was
/// read, whole, once and in its order.
pub proof fn law_every_chunk_is_published(watch: ExitWatch, events: Seq<WatchEvent>)
    ensures
        chunks_published(watch.run(events).1) == chunks_read(events),
    decreases events.len(),
{
    if events.len() > 0 {
        let init = events.drop_last();
        law_every_chunk_is_published(watch, init);
        let (before, earlier) = watch.run(init);
        if let Some(record) = before.after(events.last()).1 {
            assert(earlier.push(record).drop_last() =~= earlier);
        }
    }
}

/// The status that a child's exit is published with is the one it was reaped with.
pub proof fn law_the_status_is_the_reaped_one(events: Seq<WatchEvent>, i: int)
    requires
        ExitWatch::started().can_run(events),
    ensures
        ({
            let (watch, records) = ExitWatch::started().run(events);
            &&& watch.status matches Some(status) ==> events.contains(WatchEvent::Reaped(status))
            &&& 0 <= i < events.len() ==> (events[i] matches WatchEvent::Reaped(status)
                ==> watch.status == Some(status))
        }),
    decreases events.len(),
{
    if events.len() > 0 {
        let init = events.drop_last();
        law_the_status_is_the_reaped_one(init, i);
        let before = ExitWatch::started().run(init).0;
        if let Some(status) = before.status {
            let k = choose|k: int| 0 <= k < init.len() && init[k] == WatchEvent::Reaped(status);
            assert(events[k] == WatchEvent::Reaped(status));
        }
        if let WatchEvent::Reaped(status) = events.last() {
            assert(events[events.len() - 1] == WatchEvent::Reaped(status));
        }
        if 0 <= i < init.len() {
            assert(init[i] == events[i]);
        }
    }
}

/// What each side of a child's end does: the reader goes on through an interruption and stops
/// at an end or a failure, waits for the status and publishes the exit where it came in time;
/// the reaper holds the status, waits for the reader and publishes where nobody did.
pub proof fn law_each_side_of_an_end_does_its_part(watch: ExitWatch, status: i32)
    ensures
        watch.after(WatchEvent::Read(ReadOutcome::Interrupted)) == (
            watch,
            None::<PtyOutputEvent>,
        ),
        watch.after(WatchEvent::Read(ReadOutcome::Eof)).0.reader is AwaitingStatus,
        watch.after(WatchEvent::Read(ReadOutcome::Failed)).0.reader is AwaitingStatus,
        watch.after(WatchEvent::StatusCame).0.reader is Over,
        watch.after(WatchEvent::StatusLate).0.reader is Over,
        watch.after(WatchEvent::StatusLate).1 is None,
        watch.after(WatchEvent::StatusLate).0.output == watch.output,
        watch.after(WatchEvent::Reaped(status)).0.reaper is AwaitingReader,
        watch.after(WatchEvent::Reaped(status)).0.status == Some(status),
        watch.after(WatchEvent::Reaped(status)).1 is None,
        watch.after(WatchEvent::ReaderGone).0.reaper is Over,
        watch.after(WatchEvent::Deadline).0.reaper is Over,
        watch.after(WatchEvent::Deadline).0.reader == watch.reader,
        watch.status matches Some(code) ==> (!watch.output.exit_published ==> {
            let record = Some(PtyOutputEvent::Exit { seq: watch.output.next_seq, code });
            &&& watch.after(WatchEvent::StatusCame).1 == record
            &&& watch.after(WatchEvent::ReaderGone).1 == record
            &&& watch.after(WatchEvent::Deadline).1 == record
        }),
        watch.output.exit_published ==> {
            &&& watch.after(WatchEvent::StatusCame).1 is None
            &&& watch.after(WatchEvent::ReaderGone).1 is None
            &&& watch.after(WatchEvent::Deadline).1 is None
        },
{
}

/// What each change to the slots does: it moves the tab it names and no other, and only a fresh
/// spawn takes a number.
pub proof fn law_a_slot_is_its_tabs(slots: SlotsView, tab: i64, other: i64, spawn: u64)
    requires
        other != tab,
    ensures
        slots.reserved(tab).pending.contains(tab),
        slots.reserved(tab).sessions == slots.sessions,
        slots.reserved(tab).next_spawn == slots.next_spawn + 1,
        !slots.abandoned(tab).pending.contains(tab),
        slots.abandoned(tab).sessions == slots.sessions,
        slots.pending.contains(tab) ==> {
            let after = slots.promoted(tab, spawn);
            &&& after.sessions.dom().contains(tab)
            &&& after.sessions[tab].spawn == spawn
            &&& after.sessions[tab].initial
            &&& !after.pending.contains(tab)
        },
        !slots.pending.contains(tab) ==> slots.promoted(tab, spawn) == slots,
        slots.sessions.dom().contains(tab) && slots.sessions[tab].spawn == spawn
            ==> !slots.reaped(tab, spawn).sessions.dom().contains(tab),
        !(slots.sessions.dom().contains(tab) && slots.sessions[tab].spawn == spawn)
            ==> slots.reaped(tab, spawn) == slots,
        slots.reaped(tab, spawn).pending == slots.pending,
        !slots.closed(tab).sessions.dom().contains(tab),
        !slots.closed(tab).pending.contains(tab),
        same_slot(slots, slots.reserved(tab), other),
        same_slot(slots, slots.abandoned(tab), other),
        same_slot(slots, slots.promoted(tab, spawn), other),
        same_slot(slots, slots.reaped(tab, spawn), other),
        same_slot(slots, slots.closed(tab), other),
        slots.abandoned(tab).next_spawn == slots.next_spawn,
        slots.promoted(tab, spawn).next_spawn == slots.next_spawn,
        slots.reaped(tab, spawn).next_spawn == slots.next_spawn,
        slots.closed(tab).next_spawn == slots.next_spawn,
{
}

/// Whether a tab stands in two states of the slots alike.
pub open spec fn same_slot(a: SlotsView, b: SlotsView, tab: i64) -> bool {
    &&& a.sessions.dom().contains(tab) == b.sessions.dom().contains(tab)
    &&& a.sessions.dom().contains(tab) ==> a.sessions[tab] == b.sessions[tab]
    &&& a.pending.contains(tab) == b.pending.contains(tab)
}

/// How a spawn that goes well comes up: the PTY, its reader, its writer, the child, the pumps,
/// and then the reaper; the slots change only when the pumps run. A stage that fails is the one
/// that is reported.
pub proof fn law_a_spawn_comes_up_in_order(slots: SlotsView, flow: SpawnFlow)
    ensures
        ({
            let at = |stage: SpawnStage|
                spawn_step(slots, SpawnFlow { phase: SpawnPhase::Building(stage), ..flow }, true);
            &&& at(SpawnStage::Pty) == (
                slots,
                SpawnPhase::Building(SpawnStage::Reader),
                SpawnAction::TakeReader,
            )
            &&& at(SpawnStage::Reader) == (
                slots,
                SpawnPhase::Building(SpawnStage::Writer),
                SpawnAction::TakeWriter,
            )
            &&& at(SpawnStage::Writer) == (
                slots,
                SpawnPhase::Building(SpawnStage::Child),
                SpawnAction::StartChild,
            )
            &&& at(SpawnStage::Child) == (slots, SpawnPhase::Pumping, SpawnAction::StartPumps)
        }),
        flow.phase matches SpawnPhase::Building(stage) ==> spawn_step(slots, flow, false).2
            == SpawnAction::Failed(stage) && same_slot_but(
            slots,
            spawn_step(slots, flow, false).0,
            flow.tab_id,
        ),
        flow.phase is Pumping ==> {
            let (after, phase, action) = spawn_step(slots, flow, true);
            &&& action == SpawnAction::StartReaper
            &&& phase == (SpawnPhase::Reaping {
                cancelled: !slots.pending.contains(flow.tab_id),
            })
            &&& same_slot_but(slots, after, flow.tab_id)
        },
{
}

/// Whether two states of the slots differ at most in a tab.
pub open spec fn same_slot_but(a: SlotsView, b: SlotsView, tab: i64) -> bool {
    forall|other: i64| other != tab ==> #[trigger] same_slot(a, b, other)
}

/// A child's status is the number it was waited for with, as a signed one; a child that could
/// not be waited for has minus one.
pub proof fn law_a_status_keeps_its_bits(code: u32)
    ensures
        status_of(None) == -1,
        code < 0x8000_0000 ==> status_of(Some(code)) == code,
        code >= 0x8000_0000 ==> status_of(Some(code)) == code - 0x1_0000_0000,
{
}

/// What a tab runs: the command it was given, word for word, else the shell, as a login shell
/// on the platform that expects one. Bash alone, where its script is at hand, gains one word
/// behind its own.
pub proof fn law_a_tab_runs_what_it_was_given(
    argv: Seq<Seq<char>>,
    shell: Seq<char>,
    context: ShellContext,
)
    ensures
        argv.len() > 0 ==> argv_of(argv, shell, true) == argv && argv_of(argv, shell, false)
            == argv,
        argv.len() == 0 ==> argv_of(argv, shell, true) == seq![shell, "-l"@],
        argv.len() == 0 ==> argv_of(argv, shell, false) == seq![shell],
        argv.len() > 0 && !boots(argv, context) ==> command_argv(argv, context) == argv,
        argv.len() == 0 && !boots(argv, context) && context.shell is Some ==> command_argv(
            argv,
            context,
        )[0] == context.shell->0@,
        argv.len() == 0 && context.shell is None ==> plain_argv(argv, context)[0] == "/bin/sh"@,
        boots(argv, context) ==> {
            let plain = plain_argv(argv, context);
            let full = command_argv(argv, context);
            &&& full.len() == plain.len() + 1
            &&& full[0] == plain[0]
            &&& full[1] == "--posix"@
            &&& forall|i: int| 1 <= i < plain.len() ==> full[i + 1] == #[trigger] plain[i]
        },
{
    if boots(argv, context) {
        let plain = plain_argv(argv, context);
        let full = command_argv(argv, context);
        assert(full == plain.insert(1, "--posix"@));
        assert forall|i: int| 1 <= i < plain.len() implies full[i + 1] == #[trigger] plain[i] by {}
    }
}

/// What every tab's child is told: what kind of terminal it has, which tab it is, where the
/// engine listens and which version it is, and which parts of the integration are on unless the
/// user said so.
pub proof fn law_a_child_is_told_its_tab(tab_id: i64, socket_path: Seq<char>, context: ShellContext)
    ensures
        ({
            let env = base_env(tab_id, socket_path, context);
            &&& env.contains(EnvView::Assign("TERM"@, "xterm-256color"@))
            &&& env.contains(EnvView::Assign("COLORTERM"@, "truecolor"@))
            &&& env.contains(EnvView::Remove("TERMINFO"@))
            &&& env.contains(EnvView::Assign("FORCE_HYPERLINK"@, "1"@))
            &&& env.contains(EnvView::Assign("ROOST_TAB_ID"@, text::decimal_int(tab_id as int)))
            &&& env.contains(EnvView::Assign("ROOST_SOCKET"@, socket_path))
            &&& env.contains(EnvView::Assign("TERM_PROGRAM"@, "Roost"@))
            &&& env.contains(EnvView::Assign("TERM_PROGRAM_VERSION"@, context.version@))
            &&& env.contains(EnvView::Assign("ROOST_SHELL_INTEGRATION"@, "1"@))
            &&& context.has_features ==> env.len() == 9
            &&& !context.has_features ==> env.len() == 10 && env.contains(
                EnvView::Assign("ROOST_SHELL_FEATURES"@, "cwd,title,marks,prompt,ssh-env"@),
            )
        }),
{
    let env = base_env(tab_id, socket_path, context);
    assert(env[0] == EnvView::Assign("TERM"@, "xterm-256color"@));
    assert(env[1] == EnvView::Assign("COLORTERM"@, "truecolor"@));
    assert(env[2] == EnvView::Remove("TERMINFO"@));
    assert(env[3] == EnvView::Assign("FORCE_HYPERLINK"@, "1"@));
    assert(env[4] == EnvView::Assign("ROOST_TAB_ID"@, text::decimal_int(tab_id as int)));
    assert(env[5] == EnvView::Assign("ROOST_SOCKET"@, socket_path));
    assert(env[6] == EnvView::Assign("TERM_PROGRAM"@, "Roost"@));
    assert(env[7] == EnvView::Assign("TERM_PROGRAM_VERSION"@, context.version@));
    assert(env[8] == EnvView::Assign("ROOST_SHELL_INTEGRATION"@, "1"@));
    if !context.has_features {
        assert(env[9] == EnvView::Assign(
            "ROOST_SHELL_FEATURES"@,
            "cwd,title,marks,prompt,ssh-env"@,
        ));
    }
}

/// What bash is told besides: where its script lies and that it was injected; what it would
/// have loaded, where the user had something; and where its history goes, where nobody said and
/// there is a home.
pub proof fn law_bash_keeps_what_the_user_had(
    dir: Seq<char>,
    env: Option<Seq<char>>,
    histfile: Option<Seq<char>>,
    home: Option<Seq<char>>,
)
    ensures
        ({
            let vars = bash_env(dir, env, histfile, home);
            let script = path::joined(path::joined(dir, "shell-integration"@), "roost.bash"@);
            let kept: int = if env is Some && env->0.len() > 0 {
                1
            } else {
                0
            };
            let history: int = if histfile is None && home is Some && home->0.len() > 0 {
                2
            } else {
                0
            };
            &&& vars.len() == kept + 2 + history
            &&& vars.contains(("ENV"@, script))
            &&& vars.contains(("ROOST_BASH_INJECT"@, "1"@))
            &&& kept == 1 ==> vars.contains(("ROOST_BASH_ENV"@, env->0))
            &&& history == 2 ==> vars.contains(("HISTFILE"@, home->0 + "/.bash_history"@))
                && vars.contains(("ROOST_BASH_UNEXPORT_HISTFILE"@, "1"@))
        }),
{
    let vars = bash_env(dir, env, histfile, home);
    let kept: int = if env is Some && env->0.len() > 0 {
        1
    } else {
        0
    };
    let script = path::joined(path::joined(dir, "shell-integration"@), "roost.bash"@);
    assert(vars[kept] == ("ENV"@, script));
    assert(vars[kept + 1] == ("ROOST_BASH_INJECT"@, "1"@));
    if kept == 1 {
        assert(vars[0] == ("ROOST_BASH_ENV"@, env->0));
    }
    if histfile is None && home is Some && home->0.len() > 0 {
        assert(vars[kept + 2] == ("HISTFILE"@, home->0 + "/.bash_history"@));
        assert(vars[kept + 3] == ("ROOST_BASH_UNEXPORT_HISTFILE"@, "1"@));
    }
}

/// What the integration says: nothing where its scripts are missing; else where they lie, and
/// to zsh its directory, with the one the user had kept beside it.
pub proof fn law_zsh_keeps_what_the_user_had(argv: Seq<Seq<char>>, context: ShellContext)
    ensures
        context.resources_dir is None ==> integration_env(argv, context).len() == 0,
        context.resources_dir matches Some(dir) ==> {
            let env = integration_env(argv, context);
            let zsh = path::name_of(command_argv(argv, context)[0]) == Some("zsh"@);
            &&& env[0] == EnvView::Assign("ROOST_RESOURCES_DIR"@, dir@)
            &&& zsh ==> env.last() == EnvView::Assign(
                "ZDOTDIR"@,
                path::joined(path::joined(dir@, "shell-integration"@), "zsh"@),
            )
            &&& zsh && context.zdotdir is None ==> env.len() == 2
            &&& zsh && context.zdotdir is Some ==> env.len() == 3 && env[1] == EnvView::Assign(
                "ROOST_ZSH_ZDOTDIR"@,
                context.zdotdir->0@,
            )
            &&& !zsh && !boots(argv, context) ==> env.len() == 1
        },
{
}

/// Where the scripts go: below the cache directory where it is named from the root, else below
/// the home's own, else nowhere.
pub proof fn law_the_scripts_go_to_the_cache(cache: Seq<char>, home: Seq<char>, any: Option<Seq<char>>)
    ensures
        cache.len() > 0 && cache[0] == '/' ==> resources_root(Some(cache), any) == Some(
            path::joined(cache, "roost"@),
        ),
        !(cache.len() > 0 && cache[0] == '/') ==> resources_root(Some(cache), any)
            == resources_root(None, any),
        resources_root(None, Some(home)) == Some(
            path::joined(path::joined(home, ".cache"@), "roost"@),
        ),
        resources_root(None, None) is None,
{
}

/// What a PTY's failure says: which tab it is about and what is wrong with it.
pub proof fn law_a_pty_failure_names_its_tab(tab: i64)
    ensures
        PtyError::NotFound(tab).text() == "pty for tab "@ + text::decimal_int(tab as int)
            + " not found"@,
        PtyError::Closed(tab).text() == "pty for tab "@ + text::decimal_int(tab as int)
            + " is closed"@,
        PtyError::DuplicateTab(tab).text() == "tab "@ + text::decimal_int(tab as int)
            + " already has a live pty session"@,
        PtyError::Cancelled(tab).text() == "spawn for tab "@ + text::decimal_int(tab as int)
            + " cancelled by close()"@,
        PtyError::ShuttingDown(tab).text() == "spawn for tab "@ + text::decimal_int(tab as int)
            + " refused: the session is shutting down"@,
{
}

/// Which command lines start bash with its script: bash by whatever path, with nothing but login
/// and interactive options; on the platform whose own bash is too old, not that one.
pub proof fn law_a_plain_bash_gets_its_script(bash: Seq<char>, argv: Seq<Seq<char>>, word: Seq<char>)
    ensures
        !boots_bash(seq![], true) && !boots_bash(seq![], false),
        boots_bash(seq![bash], false) <==> path::name_of(bash) == Some("bash"@),
        boots_bash(seq![bash], true) <==> path::name_of(bash) == Some("bash"@) && bash
            != "/bin/bash"@,
        argv.len() > 0 ==> (boots_bash(argv.push(word), true) <==> boots_bash(argv, true) && (word
            == "-l"@ || word == "-i"@)),
        argv.len() > 0 ==> (boots_bash(argv.push(word), false) <==> boots_bash(argv, false) && (word
            == "-l"@ || word == "-i"@)),
{
    let longer = argv.push(word);
    if argv.len() > 0 {
        assert(longer[0] == argv[0]);
        assert(longer[longer.len() - 1] == word);
        assert(forall|i: int| 0 < i < argv.len() ==> #[trigger] longer[i] == argv[i]);
        assert(forall|i: int| 0 < i < argv.len() ==> longer[i] == #[trigger] argv[i]);
    }
}

/// What slots and an environment are seen as is what they hold, part by part.
pub proof fn law_slots_are_seen_as_they_are(
    slots: PtySupervisor,
    list: Seq<(String, String)>,
    env: Seq<EnvChange>,
    i: int,
)
    ensures
        slots@.sessions == slots.sessions@,
        slots@.pending == slots.pending@,
        slots@.next_spawn == slots.next_spawn,
        pairs(list).len() == list.len(),
        0 <= i < list.len() ==> pairs(list)[i] == (list[i].0@, list[i].1@),
        changes(env).len() == env.len(),
        0 <= i < env.len() ==> (match env[i] {
            EnvChange::Assign(key, value) => changes(env)[i] == EnvView::Assign(key@, value@),
            EnvChange::Remove(key) => changes(env)[i] == EnvView::Remove(key@),
        }),
        sets(pairs(list)).len() == list.len(),
        0 <= i < list.len() ==> sets(pairs(list))[i] == EnvView::Assign(list[i].0@, list[i].1@),
{
}

/// A session's first receiver is handed out once: to whoever asks first, and to nobody after;
/// the session stays the one it was, and so does every other.
pub proof fn law_a_first_receiver_is_handed_out_once(slots: SlotsView, tab: i64, other: i64, spawn: u64)
    requires
        other != tab,
    ensures
        !slots.handed_out(tab).keeps_receiver(tab),
        slots.handed_out(tab).sessions.dom().contains(tab) == slots.sessions.dom().contains(tab),
        slots.sessions.dom().contains(tab) ==> slots.handed_out(tab).sessions[tab].spawn
            == slots.sessions[tab].spawn,
        same_slot(slots, slots.handed_out(tab), other),
        slots.handed_out(tab).pending == slots.pending,
        slots.handed_out(tab).next_spawn == slots.next_spawn,
        slots.pending.contains(tab) ==> slots.promoted(tab, spawn).keeps_receiver(tab),
        !slots.sessions.dom().contains(tab) ==> !slots.keeps_receiver(tab),
        slots.keeps_receiver(other) == slots.handed_out(tab).keeps_receiver(other),
{
}

} // verus!
