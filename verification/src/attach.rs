//! One live attach: a tab's snapshot and its live stream, scheduled against each other
//! frame by frame.
//!
//! The snapshot's sequence number is the fence. Every record at or below it is already
//! inside the snapshot and is dropped; from there the stream must be contiguous, and a gap
//! ends the connection. Live output leads, but the snapshot is owed progress after
//! [`PTY_BURST_BYTES`] of output or [`SNAP_PROGRESS_INTERVAL`], and the exit is the last
//! frame of all.
use vstd::bytes::*;
use vstd::prelude::*;
use vstd::string::*;

use crate::pty::PtyOutputEvent;
use crate::tab_task::{SnapshotAt, TabCmd, TabError};
use crate::text;

verus! {

/// Output payload that may go out between two snapshot frames before the snapshot is owed
/// a turn.
pub const PTY_BURST_BYTES: usize = 262144;

/// Longest a snapshot frame may be held back by output, in nanoseconds.
pub const SNAP_PROGRESS_INTERVAL: u64 = 50_000_000;

/// Cap on output read off the stream but not yet written.
pub const FORWARDER_QUEUE_BYTES: usize = 8388608;

/// Cap on what one attach carries before its snapshot finishes: the snapshot and the
/// output written alongside it.
pub const ATTACH_BYTE_BUDGET: usize = 536870912;

/// Cap on how long the snapshot half of an attach may take, in nanoseconds.
pub const ATTACH_TIME_BUDGET: u64 = 60_000_000_000;

/// Client frames taken in one pass.
pub const CLIENT_FRAME_CAPACITY: usize = 64;

/// The most payload one frame carries.
pub const MAX_DATA_FRAME_BYTES: usize = 1048576;

/// How an attach finished. Only a fault and a deliberate close put a final error frame on
/// the wire: a client that hung up is not there to be told.
#[derive(Debug, PartialEq, Eq)]
pub enum Ending {
    /// The exit was written.
    Complete,
    ClientGone,
    /// A protocol or stream failure the peer is told about.
    Fault { code: &'static str, message: String },
    /// The server closed this connection deliberately, for the reason with this code.
    Closed(String),
}

/// An [`Ending`] by the text it carries.
pub enum EndingView {
    Complete,
    ClientGone,
    Fault { code: Seq<char>, message: Seq<char> },
    Closed(Seq<char>),
}

impl View for Ending {
    type V = EndingView;

    open spec fn view(&self) -> EndingView {
        match *self {
            Ending::Complete => EndingView::Complete,
            Ending::ClientGone => EndingView::ClientGone,
            Ending::Fault { code, message } => EndingView::Fault {
                code: code@,
                message: message@,
            },
            Ending::Closed(reason) => EndingView::Closed(reason@),
        }
    }
}

/// A stream failure: the client's terminal would diverge from the tab's.
pub open spec fn desync(message: Seq<char>) -> EndingView {
    EndingView::Fault { code: "desync"@, message }
}

/// A failure of the client to keep to the protocol.
pub open spec fn protocol_error(message: Seq<char>) -> EndingView {
    EndingView::Fault { code: "protocol-error"@, message }
}

fn fault(code: &'static str, message: String) -> (e: Ending)
    ensures
        e@ == (EndingView::Fault { code: code@, message: message@ }),
{
    Ending::Fault { code, message }
}

/// The code and message of the final error frame, where one is owed.
pub open spec fn error_frame(e: EndingView) -> Option<(Seq<char>, Seq<char>)> {
    match e {
        EndingView::Complete => None,
        EndingView::ClientGone => None,
        EndingView::Fault { code, message } => Some((code, message)),
        EndingView::Closed(reason) => Some(
            (reason, "this data connection was closed: "@ + reason),
        ),
    }
}

impl Ending {
    /// The code and message of the final error frame, where one is owed.
    pub fn error_frame(&self) -> (out: Option<(String, String)>)
        ensures
            out is Some <==> error_frame(self@) is Some,
            out matches Some(f) ==> error_frame(self@) == Some((f.0@, f.1@)),
    {
        match self {
            Ending::Complete => None,
            Ending::ClientGone => None,
            Ending::Fault { code, message } => Some(((*code).to_owned(), message.clone())),
            Ending::Closed(reason) => Some(
                (
                    reason.clone(),
                    text::join2("this data connection was closed: ", reason.as_str()),
                ),
            ),
        }
    }
}

/// A record is missing between this attach and its tab.
pub fn lagged(missed: u64) -> (e: Ending)
    ensures
        e@ == lagged_by(missed),
{
    let n: String = text::decimal_u64(missed);
    fault("desync", text::join3("this attach fell ", n.as_str(), " records behind its tab"))
}

/// What an attach that fell `missed` records behind ends with.
pub open spec fn lagged_by(missed: u64) -> EndingView {
    desync("this attach fell "@ + text::decimal(missed as nat) + " records behind its tab"@)
}

/// The payload of one output frame: the record's place, then its bytes.
pub open spec fn pty_payload(seq: u64, data: Seq<u8>) -> Seq<u8> {
    spec_u64_to_le_bytes(seq) + data
}

/// The stream side of one attach: how far the walk past the fence has got, and the
/// payloads it holds that are not yet written.
#[derive(Debug, PartialEq, Eq)]
pub struct TeeState {
    pub fence: u64,
    pub next_seq: u64,
    pub open: bool,
    pub exit: Option<(u64, i32)>,
    /// Payloads of the output frames to write as one batch.
    pub batch: Vec<Vec<u8>>,
    /// Payload bytes sitting in `batch`.
    pub payload_bytes: usize,
}

/// A [`TeeState`] by what it holds.
#[verifier::ext_equal]
pub struct TeeView {
    pub fence: u64,
    pub next_seq: u64,
    pub open: bool,
    pub exit: Option<(u64, i32)>,
    pub batch: Seq<Seq<u8>>,
}

/// How many bytes a batch holds.
pub open spec fn batch_bytes(batch: Seq<Seq<u8>>) -> nat
    decreases batch.len(),
{
    if batch.len() == 0 {
        0
    } else {
        batch_bytes(batch.drop_last()) + batch.last().len()
    }
}

impl TeeView {
    /// An attach that starts at `fence`.
    pub open spec fn start(fence: u64) -> TeeView {
        TeeView {
            fence,
            next_seq: (fence + 1) as u64,
            open: true,
            exit: None,
            batch: seq![],
        }
    }

    /// Whether reading the stream again can still produce anything.
    pub open spec fn streaming(self) -> bool {
        self.open && self.exit is None
    }

    /// The fence and the contiguity rule, applied to one record.
    pub open spec fn absorb(self, event: PtyOutputEvent) -> (TeeView, Option<EndingView>) {
        let seq = event.spec_seq();
        if seq <= self.fence {
            (self, None)
        } else if seq != self.next_seq {
            (
                self,
                Some(
                    desync(
                        "expected seq "@ + text::decimal(self.next_seq as nat) + " on this tab, got "@
                            + text::decimal(seq as nat),
                    ),
                ),
            )
        } else {
            let moved = TeeView { next_seq: (self.next_seq + 1) as u64, ..self };
            match event {
                PtyOutputEvent::Bytes { seq, data } => if 8 + data@.len() > MAX_DATA_FRAME_BYTES {
                    (moved, Some(desync("a PTY record exceeded the frame cap"@)))
                } else {
                    (TeeView { batch: self.batch.push(pty_payload(seq, data@)), ..moved }, None)
                },
                PtyOutputEvent::Exit { seq, code } => (
                    TeeView { exit: Some((seq, code)), open: false, ..moved },
                    None,
                ),
            }
        }
    }
}

impl View for TeeState {
    type V = TeeView;

    open spec fn view(&self) -> TeeView {
        TeeView {
            fence: self.fence,
            next_seq: self.next_seq,
            open: self.open,
            exit: self.exit,
            batch: self.batch@.map_values(|p: Vec<u8>| p@),
        }
    }
}

impl TeeState {
    /// The count of payload bytes is what the batch holds.
    pub open spec fn wf(self) -> bool {
        self.payload_bytes == batch_bytes(self@.batch)
    }

    /// An attach that starts at `fence`.
    pub fn new(fence: u64) -> (tee: TeeState)
        requires
            fence < u64::MAX,
        ensures
            tee.wf(),
            tee@ == TeeView::start(fence),
    {
        let tee = TeeState {
            fence,
            next_seq: fence + 1,
            open: true,
            exit: None,
            batch: Vec::new(),
            payload_bytes: 0,
        };
        assert(tee@.batch =~= seq![]);
        tee
    }

    /// Whether reading the stream again can still produce anything: the exit is the last
    /// record a tab publishes.
    pub fn streaming(&self) -> (yes: bool)
        ensures
            yes == self@.streaming(),
    {
        self.open && self.exit.is_none()
    }

    /// Applies the fence and the contiguity rule to one record, keeping what survives in
    /// the batch.
    pub fn absorb(&mut self, event: PtyOutputEvent) -> (out: Result<(), Ending>)
        requires
            old(self).wf(),
            event.spec_seq() < u64::MAX,
            old(self).payload_bytes + MAX_DATA_FRAME_BYTES <= usize::MAX,
        ensures
            final(self).wf(),
            final(self)@ == old(self)@.absorb(event).0,
            out is Ok <==> old(self)@.absorb(event).1 is None,
            out matches Err(e) ==> old(self)@.absorb(event).1 == Some(e@),
            final(self).payload_bytes <= old(self).payload_bytes + MAX_DATA_FRAME_BYTES,
    {
        let seq: u64 = event.seq();
        if seq <= self.fence {
            return Ok(());
        }
        if seq != self.next_seq {
            let expected: String = text::decimal_u64(self.next_seq);
            let got: String = text::decimal_u64(seq);
            return Err(
                fault(
                    "desync",
                    text::join4(
                        "expected seq ",
                        expected.as_str(),
                        " on this tab, got ",
                        got.as_str(),
                    ),
                ),
            );
        }
        self.next_seq = self.next_seq + 1;
        match event {
            PtyOutputEvent::Bytes { seq, data } => {
                if data.len() > MAX_DATA_FRAME_BYTES - 8 {
                    return Err(
                        fault("desync", "a PTY record exceeded the frame cap".to_owned()),
                    );
                }
                let mut payload: Vec<u8> = u64_to_le_bytes(seq);
                let mut data = data;
                payload.append(&mut data);
                let ghost held = self@.batch;
                self.payload_bytes = self.payload_bytes + payload.len();
                self.batch.push(payload);
                proof {
                    assert(self@.batch =~= held.push(payload@));
                    assert(self@.batch.drop_last() =~= held);
                }
            },
            PtyOutputEvent::Exit { seq, code } => {
                self.exit = Some((seq, code));
                self.open = false;
            },
        }
        Ok(())
    }
}

/// One frame from the client, told apart by its type.
#[derive(Debug, PartialEq, Eq)]
pub enum ClientFrame {
    Input(Vec<u8>),
    Resize(Vec<u8>),
    /// A type no client may send.
    Other(u8),
}

/// One frame's worth of news from the client's half of the socket.
#[derive(Debug, PartialEq, Eq)]
pub enum ClientEvent {
    Frame(ClientFrame),
    /// The framing itself failed.
    Fatal(String),
    Eof,
}

/// What a client frame comes to.
#[derive(Debug, PartialEq, Eq)]
pub enum ClientAction {
    Send(TabCmd),
    End(Ending),
}

/// A sixteen-bit number, low byte first.
pub open spec fn le16(bytes: Seq<u8>, at: int) -> u16 {
    (bytes[at] + 256 * bytes[at + 1]) as u16
}

/// What one client event asks of the tab, where it is a lawful one.
pub open spec fn client_command(event: ClientEvent) -> Option<TabCmd> {
    match event {
        ClientEvent::Frame(ClientFrame::Input(payload)) => if payload@.len() > 0 {
            Some(TabCmd::Input(payload))
        } else {
            None
        },
        ClientEvent::Frame(ClientFrame::Resize(payload)) => if payload@.len() == 8 {
            Some(
                TabCmd::Resize {
                    cols: le16(payload@, 0),
                    rows: le16(payload@, 2),
                    cell_w: le16(payload@, 4) as u32,
                    cell_h: le16(payload@, 6) as u32,
                    ack: false,
                },
            )
        } else {
            None
        },
        _ => None,
    }
}

/// How one client event ends the connection, where it is not a lawful command.
pub open spec fn client_ending(event: ClientEvent) -> EndingView {
    match event {
        ClientEvent::Frame(ClientFrame::Input(payload)) => protocol_error(
            "an INPUT frame carried no bytes"@,
        ),
        ClientEvent::Frame(ClientFrame::Resize(payload)) => protocol_error(
            "a RESIZE frame must carry exactly 8 bytes, got "@ + text::decimal(payload@.len()),
        ),
        ClientEvent::Frame(ClientFrame::Other(kind)) => protocol_error(
            "unknown client frame type 0x"@ + text::hex_padded(kind as nat, 2),
        ),
        ClientEvent::Fatal(message) => protocol_error(message@),
        ClientEvent::Eof => EndingView::ClientGone,
    }
}

fn read16(bytes: &Vec<u8>, at: usize) -> (n: u16)
    requires
        at < 7,
        bytes@.len() == 8,
    ensures
        n == le16(bytes@, at as int),
{
    bytes[at] as u16 + 256 * (bytes[at + 1] as u16)
}

/// Routes one client event: a command for the tab, or the end of the connection.
pub fn handle_client(event: ClientEvent) -> (out: ClientAction)
    ensures
        match out {
            ClientAction::Send(cmd) => client_command(event) == Some(cmd),
            ClientAction::End(e) => client_command(event) is None && e@ == client_ending(event),
        },
{
    match event {
        ClientEvent::Frame(ClientFrame::Input(payload)) => {
            if payload.len() == 0 {
                return ClientAction::End(
                    fault("protocol-error", "an INPUT frame carried no bytes".to_owned()),
                );
            }
            ClientAction::Send(TabCmd::Input(payload))
        },
        ClientEvent::Frame(ClientFrame::Resize(payload)) => {
            if payload.len() != 8 {
                let n: String = text::decimal_u64(payload.len() as u64);
                return ClientAction::End(
                    fault(
                        "protocol-error",
                        text::join2(
                            "a RESIZE frame must carry exactly 8 bytes, got ",
                            n.as_str(),
                        ),
                    ),
                );
            }
            ClientAction::Send(
                TabCmd::Resize {
                    cols: read16(&payload, 0),
                    rows: read16(&payload, 2),
                    cell_w: read16(&payload, 4) as u32,
                    cell_h: read16(&payload, 6) as u32,
                    ack: false,
                },
            )
        },
        ClientEvent::Frame(ClientFrame::Other(kind)) => {
            let hex: String = text::hex_padded_u64(kind as u64, 2);
            ClientAction::End(
                fault(
                    "protocol-error",
                    text::join2("unknown client frame type 0x", hex.as_str()),
                ),
            )
        },
        ClientEvent::Fatal(message) => ClientAction::End(fault("protocol-error", message)),
        ClientEvent::Eof => ClientAction::End(Ending::ClientGone),
    }
}

/// What one look at the tab's stream found.
#[derive(Debug, PartialEq, Eq)]
pub enum TeePoll {
    Event(PtyOutputEvent),
    Empty,
    Closed,
    Lagged(u64),
}

/// How one write to the peer went. A stalled one names the deadline it missed.
#[derive(Debug, PartialEq, Eq)]
pub enum WriteOutcome {
    Done,
    Failed,
    Stalled(String),
}

/// What ended a wait.
#[derive(Debug, PartialEq, Eq)]
pub enum Wake {
    Closed(String),
    /// A client event, or `None` once the client's half is gone.
    Client(Option<ClientEvent>),
    Tee(TeePoll),
    SnapDue,
}

/// The answer to the action a [`Pump`] asked for last.
#[derive(Debug, PartialEq, Eq)]
pub enum PumpEvent {
    Start,
    /// The reason this connection was closed, if it was.
    Close(Option<String>),
    /// The next client event already in hand, if there is one.
    Client(Option<ClientEvent>),
    Sent,
    Tee(TeePoll),
    Wrote(WriteOutcome),
    /// Nanoseconds since the attach began and since the last snapshot frame.
    Clock { attach: u64, snap: u64 },
    Woke(Wake),
}

/// What a [`Pump`] asks for next.
#[derive(Debug, PartialEq, Eq)]
pub enum PumpAction {
    CheckClose,
    PollClient,
    Send(TabCmd),
    PollTee,
    /// Write one output frame per payload, as one batch.
    WritePty(Vec<Vec<u8>>),
    ReadClock,
    /// Write one snapshot frame with the bytes of this range.
    WriteSnap { from: usize, to: usize },
    /// Write the exit frame with this payload.
    WriteExit(Vec<u8>),
    /// Wait for a close, a client event, the stream where it can still produce, or the
    /// snapshot's turn where there is more of it.
    Wait { tee: bool, snapshot: bool },
    Finish(Ending),
}

/// A [`PumpAction`] by what it carries.
pub enum ActionView {
    CheckClose,
    PollClient,
    Send(TabCmd),
    PollTee,
    WritePty(Seq<Seq<u8>>),
    ReadClock,
    WriteSnap { from: int, to: int },
    WriteExit(Seq<u8>),
    Wait { tee: bool, snapshot: bool },
    Finish(EndingView),
}

impl View for PumpAction {
    type V = ActionView;

    open spec fn view(&self) -> ActionView {
        match *self {
            PumpAction::CheckClose => ActionView::CheckClose,
            PumpAction::PollClient => ActionView::PollClient,
            PumpAction::Send(cmd) => ActionView::Send(cmd),
            PumpAction::PollTee => ActionView::PollTee,
            PumpAction::WritePty(batch) => ActionView::WritePty(
                batch@.map_values(|p: Vec<u8>| p@),
            ),
            PumpAction::ReadClock => ActionView::ReadClock,
            PumpAction::WriteSnap { from, to } => ActionView::WriteSnap {
                from: from as int,
                to: to as int,
            },
            PumpAction::WriteExit(payload) => ActionView::WriteExit(payload@),
            PumpAction::Wait { tee, snapshot } => ActionView::Wait { tee, snapshot },
            PumpAction::Finish(e) => ActionView::Finish(e@),
        }
    }
}

/// Which answer a [`Pump`] is waiting for.
#[derive(Clone, Copy, Debug, PartialEq, Eq)]
pub enum PumpPhase {
    Fresh,
    Close,
    /// Client frames, with this many more to take in the pass.
    Client { left: usize },
    /// A command on its way to the tab, with this many more frames to take.
    ClientSend { left: usize },
    Tee,
    PtyWrite,
    Clock,
    SnapWrite { to: usize },
    ExitWrite,
    Wait,
    WaitSend,
    Ended,
}

/// Whether `event` answers what a pump in this phase asked for.
pub open spec fn answers(phase: PumpPhase, event: PumpEvent) -> bool {
    match event {
        PumpEvent::Start => phase is Fresh,
        PumpEvent::Close(_) => phase is Close,
        PumpEvent::Client(_) => phase is Client,
        PumpEvent::Sent => phase is ClientSend || phase is WaitSend,
        PumpEvent::Tee(_) => phase is Tee,
        PumpEvent::Wrote(_) => phase is PtyWrite || phase is SnapWrite || phase is ExitWrite,
        PumpEvent::Clock { .. } => phase is Clock,
        PumpEvent::Woke(_) => phase is Wait,
    }
}

/// The record that `event` carries, if it carries one, has a place below the last.
pub open spec fn countable(event: PumpEvent) -> bool {
    match event {
        PumpEvent::Tee(TeePoll::Event(e)) => e.spec_seq() < u64::MAX,
        PumpEvent::Woke(Wake::Tee(TeePoll::Event(e))) => e.spec_seq() < u64::MAX,
        _ => true,
    }
}

/// Everything one live attach has decided so far.
#[derive(Debug, PartialEq, Eq)]
pub struct Pump {
    pub snapshot: Vec<u8>,
    pub ready_end: usize,
    pub sent: usize,
    /// Output written since the last snapshot frame.
    pub pty_since_snap: usize,
    /// Output written while the snapshot was still going out.
    pub pty_before_snap: usize,
    pub tee: TeeState,
    /// Whether this pass read anything off the stream.
    pub drained_any: bool,
    pub phase: PumpPhase,
}

/// A [`Pump`] by what it holds. `total` is the snapshot's length.
#[verifier::ext_equal]
pub struct PumpView {
    pub total: nat,
    pub ready_end: nat,
    pub sent: nat,
    pub pty_since_snap: nat,
    pub pty_before_snap: nat,
    pub tee: TeeView,
    pub drained_any: bool,
    pub phase: PumpPhase,
}

impl View for Pump {
    type V = PumpView;

    open spec fn view(&self) -> PumpView {
        PumpView {
            total: self.snapshot@.len(),
            ready_end: self.ready_end as nat,
            sent: self.sent as nat,
            pty_since_snap: self.pty_since_snap as nat,
            pty_before_snap: self.pty_before_snap as nat,
            tee: self.tee@,
            drained_any: self.drained_any,
            phase: self.phase,
        }
    }
}

/// `a + b`, held at the largest machine number.
pub open spec fn held_add(a: nat, b: nat) -> nat {
    if a + b > usize::MAX {
        usize::MAX as nat
    } else {
        a + b
    }
}

/// The smaller of two numbers.
pub open spec fn least(a: nat, b: nat) -> nat {
    if a <= b {
        a
    } else {
        b
    }
}

/// How a write that did not go through ends the connection.
pub open spec fn write_ending(outcome: WriteOutcome) -> EndingView {
    match outcome {
        WriteOutcome::Stalled(deadline) => EndingView::Fault {
            code: "overflow"@,
            message: "the peer did not read a frame within "@ + deadline@,
        },
        _ => EndingView::ClientGone,
    }
}

impl PumpView {
    /// Where a pump may be: the snapshot is within its budget, what went out is a part of
    /// it that no frame carried across the ready boundary, and what is held fits one pass.
    pub open spec fn ok(self) -> bool {
        &&& self.total <= ATTACH_BYTE_BUDGET
        &&& self.ready_end <= self.total
        &&& self.sent <= self.total
        &&& batch_bytes(self.tee.batch) <= PTY_BURST_BYTES + MAX_DATA_FRAME_BYTES
        &&& (self.phase is Tee ==> batch_bytes(self.tee.batch) < PTY_BURST_BYTES
            && self.tee.streaming())
        &&& (self.tee.exit is Some ==> !self.tee.open)
        &&& (!(self.phase is Tee || self.phase is Fresh || self.phase is Close
            || self.phase is Client || self.phase is ClientSend || self.phase is Ended)
            ==> self.tee.batch.len() == 0)
        &&& (self.phase matches PumpPhase::SnapWrite { to } ==> self.sent < to <= self.total && (
        self.sent < self.ready_end ==> to <= self.ready_end) && to - self.sent
            <= MAX_DATA_FRAME_BYTES)
        &&& (self.phase is Clock ==> self.sent < self.total)
        &&& (self.phase is ExitWrite ==> self.sent == self.total && self.tee.exit is Some)
        &&& (self.phase is Wait || self.phase is WaitSend || self.phase is Clock || self.phase
            is SnapWrite ==> self.tee.open || self.tee.exit is Some)
        &&& (self.phase matches PumpPhase::Client { left } ==> 0 < left <= CLIENT_FRAME_CAPACITY)
        &&& (self.phase matches PumpPhase::ClientSend { left } ==> left < CLIENT_FRAME_CAPACITY)
    }

    pub open spec fn at(self, phase: PumpPhase) -> PumpView {
        PumpView { phase, ..self }
    }

    pub open spec fn finish(self, e: EndingView) -> (PumpView, ActionView) {
        (self.at(PumpPhase::Ended), ActionView::Finish(e))
    }

    /// The top of a pass: whether this connection still has authority comes before
    /// everything else.
    pub open spec fn pass(self) -> (PumpView, ActionView) {
        (self.at(PumpPhase::Close), ActionView::CheckClose)
    }

    /// Client frames in hand, up to the pass's share of them.
    pub open spec fn client(self, left: usize) -> (PumpView, ActionView) {
        if left > 0 {
            (self.at(PumpPhase::Client { left }), ActionView::PollClient)
        } else {
            PumpView { drained_any: false, ..self }.drain()
        }
    }

    /// What the stream has right now, up to one burst.
    pub open spec fn drain(self) -> (PumpView, ActionView) {
        if self.tee.streaming() && batch_bytes(self.tee.batch) < PTY_BURST_BYTES {
            (self.at(PumpPhase::Tee), ActionView::PollTee)
        } else {
            self.flush()
        }
    }

    /// What the stream gave goes out ahead of the snapshot.
    pub open spec fn flush(self) -> (PumpView, ActionView) {
        if self.tee.batch.len() == 0 {
            self.exit()
        } else {
            let held = batch_bytes(self.tee.batch);
            (
                PumpView {
                    pty_since_snap: held_add(self.pty_since_snap, held),
                    pty_before_snap: if self.sent < self.total {
                        held_add(self.pty_before_snap, held)
                    } else {
                        self.pty_before_snap
                    },
                    tee: TeeView { batch: seq![], ..self.tee },
                    ..self
                }.at(PumpPhase::PtyWrite),
                ActionView::WritePty(self.tee.batch),
            )
        }
    }

    /// The exit goes out once everything before it has.
    pub open spec fn exit(self) -> (PumpView, ActionView) {
        match self.tee.exit {
            Some((seq, code)) => if self.sent >= self.total {
                (
                    self.at(PumpPhase::ExitWrite),
                    ActionView::WriteExit(
                        spec_u64_to_le_bytes(seq) + spec_u32_to_le_bytes(code as u32),
                    ),
                )
            } else {
                (self.at(PumpPhase::Clock), ActionView::ReadClock)
            },
            None => if !self.tee.open {
                self.finish(desync("the tab's stream ended without an exit"@))
            } else if self.sent < self.total {
                (self.at(PumpPhase::Clock), ActionView::ReadClock)
            } else {
                self.wait()
            },
        }
    }

    pub open spec fn wait(self) -> (PumpView, ActionView) {
        (
            self.at(PumpPhase::Wait),
            ActionView::Wait { tee: self.tee.streaming(), snapshot: self.sent < self.total },
        )
    }

    /// What this attach has carried, or will have once its snapshot is out.
    pub open spec fn carried(self) -> nat {
        held_add(self.total, self.pty_before_snap)
    }

    /// Whether the snapshot's next frame goes now: the part the client renders from goes at
    /// full speed, the rest when output leaves room or has had its share.
    pub open spec fn snap_due(self, snap: u64) -> bool {
        self.sent < self.ready_end || !self.drained_any || self.pty_since_snap >= PTY_BURST_BYTES
            || snap >= SNAP_PROGRESS_INTERVAL
    }

    /// Where the snapshot's next frame ends.
    pub open spec fn snap_end(self) -> nat {
        least(
            if self.sent < self.ready_end {
                self.ready_end
            } else {
                self.total
            },
            self.sent + MAX_DATA_FRAME_BYTES as nat,
        )
    }

    /// The snapshot's progress, within the attach's budgets of time and bytes.
    pub open spec fn progress(self, attach: u64, snap: u64) -> (PumpView, ActionView) {
        if attach > ATTACH_TIME_BUDGET {
            self.finish(desync("the snapshot did not finish within 60s"@))
        } else if self.carried() > ATTACH_BYTE_BUDGET {
            self.finish(
                desync(
                    "this attach carried "@ + text::decimal(self.carried())
                        + " bytes before its snapshot finished, past the 536870912-byte attach budget"@,
                ),
            )
        } else if self.snap_due(snap) {
            (
                self.at(PumpPhase::SnapWrite { to: self.snap_end() as usize }),
                ActionView::WriteSnap { from: self.sent as int, to: self.snap_end() as int },
            )
        } else {
            self.wait()
        }
    }

    /// One record off the stream, taken during the drain.
    pub open spec fn drained(self, event: PtyOutputEvent) -> (PumpView, ActionView) {
        let (tee, failure) = self.tee.absorb(event);
        let next = PumpView { tee, drained_any: true, ..self };
        match failure {
            Some(e) => next.finish(e),
            None => if batch_bytes(tee.batch) > FORWARDER_QUEUE_BYTES {
                next.finish(
                    EndingView::Fault {
                        code: "overflow"@,
                        message: text::decimal(batch_bytes(tee.batch))
                            + " bytes are queued for a peer that is not reading"@,
                    },
                )
            } else {
                next.drain()
            },
        }
    }

    /// The pump after one event, and what it asks for next.
    pub open spec fn step(self, event: PumpEvent) -> (PumpView, ActionView) {
        match event {
            PumpEvent::Start => self.pass(),
            PumpEvent::Close(Some(reason)) => self.finish(EndingView::Closed(reason@)),
            PumpEvent::Close(None) => self.client(CLIENT_FRAME_CAPACITY),
            PumpEvent::Client(None) => self.client(0),
            PumpEvent::Client(Some(e)) => match (client_command(e), self.phase) {
                (Some(cmd), PumpPhase::Client { left }) => (
                    self.at(PumpPhase::ClientSend { left: (left - 1) as usize }),
                    ActionView::Send(cmd),
                ),
                _ => self.finish(client_ending(e)),
            },
            PumpEvent::Sent => match self.phase {
                PumpPhase::ClientSend { left } => self.client(left),
                _ => self.pass(),
            },
            PumpEvent::Tee(TeePoll::Event(e)) => self.drained(e),
            PumpEvent::Tee(TeePoll::Empty) => self.flush(),
            PumpEvent::Tee(TeePoll::Closed) => PumpView {
                tee: TeeView { open: false, ..self.tee },
                ..self
            }.flush(),
            PumpEvent::Tee(TeePoll::Lagged(missed)) => self.finish(lagged_by(missed)),
            PumpEvent::Wrote(WriteOutcome::Done) => match self.phase {
                PumpPhase::PtyWrite => self.exit(),
                PumpPhase::SnapWrite { to } => PumpView {
                    sent: to as nat,
                    pty_since_snap: 0,
                    ..self
                }.pass(),
                _ => self.finish(EndingView::Complete),
            },
            PumpEvent::Wrote(outcome) => self.finish(write_ending(outcome)),
            PumpEvent::Clock { attach, snap } => self.progress(attach, snap),
            PumpEvent::Woke(Wake::Closed(reason)) => self.finish(EndingView::Closed(reason@)),
            PumpEvent::Woke(Wake::Client(None)) => self.finish(EndingView::ClientGone),
            PumpEvent::Woke(Wake::Client(Some(e))) => match client_command(e) {
                Some(cmd) => (self.at(PumpPhase::WaitSend), ActionView::Send(cmd)),
                None => self.finish(client_ending(e)),
            },
            PumpEvent::Woke(Wake::Tee(TeePoll::Event(e))) => {
                let (tee, failure) = self.tee.absorb(e);
                let next = PumpView { tee, ..self };
                match failure {
                    Some(ending) => next.finish(ending),
                    None => next.pass(),
                }
            },
            PumpEvent::Woke(Wake::Tee(TeePoll::Closed)) => PumpView {
                tee: TeeView { open: false, ..self.tee },
                ..self
            }.pass(),
            PumpEvent::Woke(Wake::Tee(TeePoll::Lagged(missed))) => self.finish(lagged_by(missed)),
            PumpEvent::Woke(Wake::Tee(TeePoll::Empty)) => self.pass(),
            PumpEvent::Woke(Wake::SnapDue) => self.pass(),
        }
    }
}

impl Pump {
    /// What a pump keeps: its model is a lawful one, and the counts agree.
    pub open spec fn wf(self) -> bool {
        self@.ok() && self.tee.wf()
    }

    /// An attach over `snapshot`, whose ready record ends at `ready_end`, fenced at
    /// `fence`. A snapshot past the attach budget is not started.
    pub fn new(snapshot: Vec<u8>, ready_end: usize, fence: u64) -> (out: Result<Pump, Ending>)
        requires
            fence < u64::MAX,
            ready_end <= snapshot@.len(),
        ensures
            out is Ok <==> snapshot@.len() <= ATTACH_BYTE_BUDGET,
            out matches Ok(pump) ==> pump.wf() && pump.snapshot == snapshot && pump@ == (PumpView {
                total: snapshot@.len(),
                ready_end: ready_end as nat,
                sent: 0,
                pty_since_snap: 0,
                pty_before_snap: 0,
                tee: TeeView::start(fence),
                drained_any: false,
                phase: PumpPhase::Fresh,
            }),
            out matches Err(e) ==> e@ == desync(
                "the snapshot is "@ + text::decimal(snapshot@.len())
                    + " bytes, past the 536870912-byte attach budget"@,
            ),
    {
        if snapshot.len() > ATTACH_BYTE_BUDGET {
            let n: String = text::decimal_u64(snapshot.len() as u64);
            return Err(
                fault(
                    "desync",
                    text::join3(
                        "the snapshot is ",
                        n.as_str(),
                        " bytes, past the 536870912-byte attach budget",
                    ),
                ),
            );
        }
        Ok(
            Pump {
                snapshot,
                ready_end,
                sent: 0,
                pty_since_snap: 0,
                pty_before_snap: 0,
                tee: TeeState::new(fence),
                drained_any: false,
                phase: PumpPhase::Fresh,
            },
        )
    }

    fn finish(&mut self, e: Ending) -> (out: PumpAction)
        requires
            old(self).tee.wf(),
            old(self)@.at(PumpPhase::Ended).ok(),
        ensures
            final(self).wf(),
            final(self)@ == old(self)@.finish(e@).0,
            out@ == old(self)@.finish(e@).1,
            final(self).snapshot == old(self).snapshot,
    {
        self.phase = PumpPhase::Ended;
        PumpAction::Finish(e)
    }

    fn client(&mut self, left: usize) -> (out: PumpAction)
        requires
            left <= CLIENT_FRAME_CAPACITY,
            old(self).tee.wf(),
            old(self)@.at(PumpPhase::Close).ok(),
        ensures
            final(self).wf(),
            final(self)@ == old(self)@.client(left).0,
            out@ == old(self)@.client(left).1,
            final(self).snapshot == old(self).snapshot,
    {
        if left > 0 {
            self.phase = PumpPhase::Client { left };
            PumpAction::PollClient
        } else {
            self.drained_any = false;
            self.drain()
        }
    }

    fn drain(&mut self) -> (out: PumpAction)
        requires
            old(self).tee.wf(),
            old(self)@.at(PumpPhase::Close).ok(),
        ensures
            final(self).wf(),
            final(self)@ == old(self)@.drain().0,
            out@ == old(self)@.drain().1,
            final(self).snapshot == old(self).snapshot,
    {
        if self.tee.streaming() && self.tee.payload_bytes < PTY_BURST_BYTES {
            self.phase = PumpPhase::Tee;
            PumpAction::PollTee
        } else {
            self.flush()
        }
    }

    fn flush(&mut self) -> (out: PumpAction)
        requires
            old(self).tee.wf(),
            old(self)@.at(PumpPhase::Close).ok(),
        ensures
            final(self).wf(),
            final(self)@ == old(self)@.flush().0,
            out@ == old(self)@.flush().1,
            final(self).snapshot == old(self).snapshot,
    {
        if self.tee.batch.len() == 0 {
            assert(self.tee@.batch =~= seq![]);
            self.exit()
        } else {
            let held: usize = self.tee.payload_bytes;
            self.pty_since_snap = self.pty_since_snap.saturating_add(held);
            if self.sent < self.snapshot.len() {
                self.pty_before_snap = self.pty_before_snap.saturating_add(held);
            }
            let mut batch: Vec<Vec<u8>> = Vec::new();
            core::mem::swap(&mut batch, &mut self.tee.batch);
            self.tee.payload_bytes = 0;
            self.phase = PumpPhase::PtyWrite;
            assert(self.tee@.batch =~= seq![]);
            PumpAction::WritePty(batch)
        }
    }

    fn exit(&mut self) -> (out: PumpAction)
        requires
            old(self).tee.wf(),
            old(self)@.at(PumpPhase::Close).ok(),
            old(self)@.tee.batch.len() == 0,
        ensures
            final(self).wf(),
            final(self)@ == old(self)@.exit().0,
            out@ == old(self)@.exit().1,
            final(self).snapshot == old(self).snapshot,
    {
        match self.tee.exit {
            Some((seq, code)) => {
                if self.sent >= self.snapshot.len() {
                    let mut payload: Vec<u8> = u64_to_le_bytes(seq);
                    let mut tail: Vec<u8> = u32_to_le_bytes(
                        #[verifier::truncate]
                        (code as u32),
                    );
                    payload.append(&mut tail);
                    self.phase = PumpPhase::ExitWrite;
                    PumpAction::WriteExit(payload)
                } else {
                    self.phase = PumpPhase::Clock;
                    PumpAction::ReadClock
                }
            },
            None => {
                if !self.tee.open {
                    self.finish(
                        fault("desync", "the tab's stream ended without an exit".to_owned()),
                    )
                } else if self.sent < self.snapshot.len() {
                    self.phase = PumpPhase::Clock;
                    PumpAction::ReadClock
                } else {
                    self.wait()
                }
            },
        }
    }

    fn wait(&mut self) -> (out: PumpAction)
        requires
            old(self).tee.wf(),
            old(self)@.at(PumpPhase::Wait).ok(),
        ensures
            final(self).wf(),
            final(self)@ == old(self)@.wait().0,
            out@ == old(self)@.wait().1,
            final(self).snapshot == old(self).snapshot,
    {
        self.phase = PumpPhase::Wait;
        PumpAction::Wait { tee: self.tee.streaming(), snapshot: self.sent < self.snapshot.len() }
    }

    fn progress(&mut self, attach: u64, snap: u64) -> (out: PumpAction)
        requires
            old(self).wf(),
            old(self).phase is Clock,
        ensures
            final(self).wf(),
            final(self)@ == old(self)@.progress(attach, snap).0,
            out@ == old(self)@.progress(attach, snap).1,
            final(self).snapshot == old(self).snapshot,
    {
        if attach > ATTACH_TIME_BUDGET {
            return self.finish(
                fault("desync", "the snapshot did not finish within 60s".to_owned()),
            );
        }
        let total: usize = self.snapshot.len();
        let carried: usize = total.saturating_add(self.pty_before_snap);
        if carried > ATTACH_BYTE_BUDGET {
            let n: String = text::decimal_u64(carried as u64);
            return self.finish(
                fault(
                    "desync",
                    text::join3(
                        "this attach carried ",
                        n.as_str(),
                        " bytes before its snapshot finished, past the 536870912-byte attach budget",
                    ),
                ),
            );
        }
        let head: bool = self.sent < self.ready_end;
        let due: bool = !self.drained_any || self.pty_since_snap >= PTY_BURST_BYTES || snap
            >= SNAP_PROGRESS_INTERVAL;
        if head || due {
            let limit: usize = if head {
                self.ready_end
            } else {
                total
            };
            let reach: usize = self.sent + MAX_DATA_FRAME_BYTES;
            let end: usize = if limit <= reach {
                limit
            } else {
                reach
            };
            let from: usize = self.sent;
            self.phase = PumpPhase::SnapWrite { to: end };
            PumpAction::WriteSnap { from, to: end }
        } else {
            self.wait()
        }
    }

    fn drained(&mut self, event: PtyOutputEvent) -> (out: PumpAction)
        requires
            old(self).wf(),
            old(self).phase is Tee,
            event.spec_seq() < u64::MAX,
        ensures
            final(self).wf(),
            final(self)@ == old(self)@.drained(event).0,
            out@ == old(self)@.drained(event).1,
            final(self).snapshot == old(self).snapshot,
    {
        self.drained_any = true;
        match self.tee.absorb(event) {
            Err(e) => self.finish(e),
            Ok(()) => {
                if self.tee.payload_bytes > FORWARDER_QUEUE_BYTES {
                    let n: String = text::decimal_u64(self.tee.payload_bytes as u64);
                    self.finish(
                        fault(
                            "overflow",
                            text::join2(
                                n.as_str(),
                                " bytes are queued for a peer that is not reading",
                            ),
                        ),
                    )
                } else {
                    self.drain()
                }
            },
        }
    }

    fn pass(&mut self) -> (out: PumpAction)
        requires
            old(self).tee.wf(),
            old(self)@.at(PumpPhase::Close).ok(),
        ensures
            final(self).wf(),
            final(self)@ == old(self)@.pass().0,
            out@ == old(self)@.pass().1,
            final(self).snapshot == old(self).snapshot,
    {
        self.phase = PumpPhase::Close;
        PumpAction::CheckClose
    }

    /// Takes the answer to the last action and says what to do next.
    pub fn step(&mut self, event: PumpEvent) -> (out: PumpAction)
        requires
            old(self).wf(),
            answers(old(self).phase, event),
            countable(event),
        ensures
            final(self).wf(),
            final(self)@ == old(self)@.step(event).0,
            out@ == old(self)@.step(event).1,
            final(self).snapshot == old(self).snapshot,
    {
        match event {
            PumpEvent::Start => self.pass(),
            PumpEvent::Close(Some(reason)) => self.finish(Ending::Closed(reason)),
            PumpEvent::Close(None) => self.client(CLIENT_FRAME_CAPACITY),
            PumpEvent::Client(None) => self.client(0),
            PumpEvent::Client(Some(e)) => {
                match handle_client(e) {
                    ClientAction::Send(cmd) => {
                        if let PumpPhase::Client { left } = self.phase {
                            self.phase = PumpPhase::ClientSend { left: left - 1 };
                        }
                        PumpAction::Send(cmd)
                    },
                    ClientAction::End(ending) => self.finish(ending),
                }
            },
            PumpEvent::Sent => {
                if let PumpPhase::ClientSend { left } = self.phase {
                    self.client(left)
                } else {
                    self.pass()
                }
            },
            PumpEvent::Tee(TeePoll::Event(e)) => self.drained(e),
            PumpEvent::Tee(TeePoll::Empty) => self.flush(),
            PumpEvent::Tee(TeePoll::Closed) => {
                self.tee.open = false;
                self.flush()
            },
            PumpEvent::Tee(TeePoll::Lagged(missed)) => self.finish(lagged(missed)),
            PumpEvent::Wrote(outcome) => {
                match outcome {
                    WriteOutcome::Done => {
                        match self.phase {
                            PumpPhase::PtyWrite => self.exit(),
                            PumpPhase::SnapWrite { to } => {
                                self.sent = to;
                                self.pty_since_snap = 0;
                                self.pass()
                            },
                            _ => self.finish(Ending::Complete),
                        }
                    },
                    WriteOutcome::Failed => self.finish(Ending::ClientGone),
                    WriteOutcome::Stalled(deadline) => self.finish(
                        fault(
                            "overflow",
                            text::join2(
                                "the peer did not read a frame within ",
                                deadline.as_str(),
                            ),
                        ),
                    ),
                }
            },
            PumpEvent::Clock { attach, snap } => self.progress(attach, snap),
            PumpEvent::Woke(Wake::Closed(reason)) => self.finish(Ending::Closed(reason)),
            PumpEvent::Woke(Wake::Client(None)) => self.finish(Ending::ClientGone),
            PumpEvent::Woke(Wake::Client(Some(e))) => {
                match handle_client(e) {
                    ClientAction::Send(cmd) => {
                        self.phase = PumpPhase::WaitSend;
                        PumpAction::Send(cmd)
                    },
                    ClientAction::End(ending) => self.finish(ending),
                }
            },
            PumpEvent::Woke(Wake::Tee(TeePoll::Event(e))) => {
                match self.tee.absorb(e) {
                    Err(ending) => self.finish(ending),
                    Ok(()) => self.pass(),
                }
            },
            PumpEvent::Woke(Wake::Tee(TeePoll::Closed)) => {
                self.tee.open = false;
                self.pass()
            },
            PumpEvent::Woke(Wake::Tee(TeePoll::Lagged(missed))) => self.finish(lagged(missed)),
            PumpEvent::Woke(Wake::Tee(TeePoll::Empty)) => self.pass(),
            PumpEvent::Woke(Wake::SnapDue) => self.pass(),
        }
    }
}

/// A lawful pump stays lawful, whatever answers it gets.
pub proof fn law_pump_stays_lawful(s: PumpView, event: PumpEvent)
    requires
        s.ok(),
        answers(s.phase, event),
    ensures
        s.step(event).0.ok(),
        s.step(event).0.total == s.total,
        s.step(event).0.ready_end == s.ready_end,
        s.step(event).0.tee.fence == s.tee.fence,
{
    lemma_absorb_bytes(s.tee, event);
}

/// Absorbing one record adds at most one frame's payload.
proof fn lemma_absorb_bytes(tee: TeeView, event: PumpEvent)
    ensures
        forall|e: PtyOutputEvent|
            batch_bytes(#[trigger] tee.absorb(e).0.batch) <= batch_bytes(tee.batch)
                + MAX_DATA_FRAME_BYTES,
{
    assert forall|e: PtyOutputEvent|
        batch_bytes(#[trigger] tee.absorb(e).0.batch) <= batch_bytes(tee.batch)
            + MAX_DATA_FRAME_BYTES by {
        if let PtyOutputEvent::Bytes { seq, data } = e {
            let longer = tee.batch.push(pty_payload(seq, data@));
            assert(longer.drop_last() =~= tee.batch);
            lemma_le_width(seq);
        }
    }
}

/// A place in the stream is spelled in eight bytes.
proof fn lemma_le_width(seq: u64)
    ensures
        spec_u64_to_le_bytes(seq).len() == 8,
{
    lemma_auto_spec_u64_to_from_le_bytes();
}

/// The exit is the last frame: it goes out only when the whole snapshot has and no output
/// is held, and whatever comes of writing it, the connection ends there.
pub proof fn law_exit_is_last(s: PumpView, event: PumpEvent)
    requires
        s.ok(),
        answers(s.phase, event),
    ensures
        s.step(event).1 is WriteExit ==> s.step(event).0.sent == s.total && s.step(
            event,
        ).0.tee.batch.len() == 0 && s.step(event).0.phase is ExitWrite,
        s.phase is ExitWrite ==> s.step(event).1 is Finish && s.step(event).0.phase is Ended,
        !(s.phase is Ended),
{
    law_pump_stays_lawful(s, event);
}

/// The snapshot goes out in order and whole: a frame starts where the last one that was
/// written ended, holds at most one frame's payload, never runs past the snapshot, and
/// never straddles the ready boundary; what was sent moves only when a frame was written.
pub proof fn law_snapshot_goes_out_in_order(s: PumpView, event: PumpEvent)
    requires
        s.ok(),
        answers(s.phase, event),
    ensures
        s.step(event).1 matches ActionView::WriteSnap { from, to } ==> {
            &&& from == s.sent
            &&& from < to <= s.total
            &&& to - from <= MAX_DATA_FRAME_BYTES
            &&& from < s.ready_end ==> to <= s.ready_end
            &&& s.step(event).0.phase == (PumpPhase::SnapWrite { to: to as usize })
        },
        s.step(event).0.sent == (match (s.phase, event) {
            (
                PumpPhase::SnapWrite { to },
                PumpEvent::Wrote(WriteOutcome::Done),
            ) => to as nat,
            _ => s.sent,
        }),
{
}

/// A closed connection gets nothing more: a reason, seen at the top of a pass or while
/// waiting, ends it at once. Every pass starts with that look, and after each snapshot
/// frame and each wait a new pass starts.
pub proof fn law_authority_is_checked_first(s: PumpView, event: PumpEvent)
    requires
        s.ok(),
        answers(s.phase, event),
    ensures
        event matches PumpEvent::Close(Some(reason)) ==> s.step(event).1 == ActionView::Finish(
            EndingView::Closed(reason@),
        ),
        event matches PumpEvent::Woke(Wake::Closed(reason)) ==> s.step(event).1
            == ActionView::Finish(EndingView::Closed(reason@)),
        s.phase is Fresh || s.phase is SnapWrite || s.phase is WaitSend ==> s.step(event).1
            is CheckClose || s.step(event).1 is Finish,
        s.phase is Wait ==> s.step(event).1 is CheckClose || s.step(event).1 is Send || s.step(
            event,
        ).1 is Finish,
{
}

/// The snapshot is owed progress: within the attach's budgets its next frame goes out as
/// soon as one burst of output or the interval has passed since the last one, as soon as
/// the stream has nothing, and at once while the ready record is not yet out.
pub proof fn law_snapshot_is_owed_progress(s: PumpView, attach: u64, snap: u64)
    requires
        s.ok(),
        s.phase is Clock,
        attach <= ATTACH_TIME_BUDGET,
        s.carried() <= ATTACH_BYTE_BUDGET,
        s.pty_since_snap >= PTY_BURST_BYTES || snap >= SNAP_PROGRESS_INTERVAL || !s.drained_any
            || s.sent < s.ready_end,
    ensures
        s.step(PumpEvent::Clock { attach, snap }).1 is WriteSnap,
{
}

/// One pass writes at most one burst of output and the record that crossed it.
pub proof fn law_one_burst_a_pass(s: PumpView, event: PumpEvent)
    requires
        s.ok(),
        answers(s.phase, event),
    ensures
        s.step(event).1 matches ActionView::WritePty(batch) ==> batch_bytes(batch)
            <= PTY_BURST_BYTES + MAX_DATA_FRAME_BYTES,
{
    lemma_absorb_bytes(s.tee, event);
}

/// The records past the fence, in the order they came.
pub open spec fn past(fence: u64, events: Seq<PtyOutputEvent>) -> Seq<PtyOutputEvent>
    decreases events.len(),
{
    if events.len() == 0 {
        seq![]
    } else if events.last().spec_seq() > fence {
        past(fence, events.drop_last()).push(events.last())
    } else {
        past(fence, events.drop_last())
    }
}

/// A run of records, absorbed one after the other; `None` once one of them faults.
pub open spec fn absorb_all(tee: TeeView, events: Seq<PtyOutputEvent>) -> Option<TeeView>
    decreases events.len(),
{
    if events.len() == 0 {
        Some(tee)
    } else {
        match absorb_all(tee, events.drop_last()) {
            None => None,
            Some(t) => match t.absorb(events.last()) {
                (next, None) => Some(next),
                _ => None,
            },
        }
    }
}

/// A stream without a fault has no gap and no duplicate past the fence: the records kept
/// are those above it, and the first of them carries the number after the fence, the next
/// the one after that.
pub proof fn law_the_stream_is_contiguous(fence: u64, events: Seq<PtyOutputEvent>)
    requires
        fence < u64::MAX,
        forall|i: int| 0 <= i < events.len() ==> (#[trigger] events[i]).spec_seq() < u64::MAX,
        absorb_all(TeeView::start(fence), events) is Some,
    ensures
        forall|k: int|
            0 <= k < past(fence, events).len() ==> (#[trigger] past(fence, events)[k]).spec_seq()
                == fence + 1 + k,
        absorb_all(TeeView::start(fence), events)->0.next_seq == fence + 1 + past(
            fence,
            events,
        ).len(),
        absorb_all(TeeView::start(fence), events)->0.fence == fence,
    decreases events.len(),
{
    if events.len() > 0 {
        law_the_stream_is_contiguous(fence, events.drop_last());
    }
}

/// Why a client is turned away before any terminal goes out.
#[derive(Debug, PartialEq, Eq)]
pub struct Rejection {
    pub code: &'static str,
    pub message: String,
}

/// What a data connection gets before its tab is looked at.
#[derive(Debug, PartialEq, Eq)]
pub enum Gate {
    /// The server already closed it: nothing is written.
    Silent,
    Reject(Rejection),
    Proceed,
}

/// A closed connection gets no answer at all, and a client that speaks another protocol is
/// told so before anything else is looked at.
pub fn gate(closed: bool, client_protocol: u32, session_protocol: u32) -> (out: Gate)
    ensures
        out is Silent <==> closed,
        out is Proceed <==> !closed && client_protocol == session_protocol,
        out matches Gate::Reject(r) ==> r.code@ == "protocol-mismatch"@ && r.message@
            == "this session speaks session protocol "@ + text::decimal(session_protocol as nat)
            + "; the client offered "@ + text::decimal(client_protocol as nat),
{
    if closed {
        return Gate::Silent;
    }
    if client_protocol != session_protocol {
        let ours: String = text::decimal_u64(session_protocol as u64);
        let theirs: String = text::decimal_u64(client_protocol as u64);
        return Gate::Reject(
            Rejection {
                code: "protocol-mismatch",
                message: text::join4(
                    "this session speaks session protocol ",
                    ours.as_str(),
                    "; the client offered ",
                    theirs.as_str(),
                ),
            },
        );
    }
    Gate::Proceed
}

/// Why a tab cannot be fenced, before its snapshot is asked for: it must be live, and still
/// be the one the admission named.
pub open spec fn tab_refusal(subscribed: bool, live: Option<u64>, admitted: u64) -> Option<
    (Seq<char>, Seq<char>),
> {
    if !subscribed || live is None {
        Some(("not-found"@, "that tab has no live terminal"@))
    } else if live != Some(admitted) {
        Some(("not-found"@, "that tab was respawned after the attach token was issued"@))
    } else {
        None
    }
}

/// Why a snapshot cannot be the fence: a failed encode may be retried, a tab that is gone or
/// was respawned meanwhile is not the one that was admitted.
pub open spec fn snapshot_refusal(taken: Result<SnapshotAt, TabError>, admitted: u64) -> Option<
    (Seq<char>, Seq<char>),
> {
    match taken {
        Ok(s) => if s.tab_generation == admitted {
            None
        } else {
            Some(("not-found"@, "that tab was respawned after the attach token was issued"@))
        },
        Err(TabError::SnapshotFailed(why)) => Some(("snapshot-failed"@, why@)),
        Err(other) => Some(("not-found"@, other.text())),
    }
}

/// Why a snapshot of `len` bytes has no usable ready record.
pub open spec fn ready_refusal(ready: Result<usize, String>, len: nat) -> Option<
    (Seq<char>, Seq<char>),
> {
    match ready {
        Ok(end) => if end <= len {
            None
        } else {
            Some(
                (
                    "snapshot-failed"@,
                    "the encoded snapshot has no READY record: "@
                        + "the record ends past the snapshot"@,
                ),
            )
        },
        Err(why) => Some(
            ("snapshot-failed"@, "the encoded snapshot has no READY record: "@ + why@),
        ),
    }
}

impl Rejection {
    /// The code and the message.
    pub open spec fn says(self) -> (Seq<char>, Seq<char>) {
        (self.code@, self.message@)
    }
}

/// The tab an admission named must be live, and still be the one it named: the stream is
/// subscribed first, then the tab's generation is read.
pub fn fence_tab(subscribed: bool, live: Option<u64>, admitted: u64) -> (out: Result<
    (),
    Rejection,
>)
    ensures
        out is Ok <==> tab_refusal(subscribed, live, admitted) is None,
        out matches Err(r) ==> tab_refusal(subscribed, live, admitted) == Some(r.says()),
{
    if !subscribed {
        return Err(
            Rejection { code: "not-found", message: "that tab has no live terminal".to_owned() },
        );
    }
    match live {
        None => Err(
            Rejection { code: "not-found", message: "that tab has no live terminal".to_owned() },
        ),
        Some(generation) => if generation == admitted {
            Ok(())
        } else {
            Err(
                Rejection {
                    code: "not-found",
                    message: "that tab was respawned after the attach token was issued".to_owned(),
                },
            )
        },
    }
}

/// The snapshot a fence rests on, where it is one of the tab that was admitted.
pub fn fence_snapshot(taken: Result<SnapshotAt, TabError>, admitted: u64) -> (out: Result<
    SnapshotAt,
    Rejection,
>)
    ensures
        out is Ok <==> snapshot_refusal(taken, admitted) is None,
        out matches Ok(s) ==> taken == Ok::<SnapshotAt, TabError>(s),
        out matches Err(r) ==> snapshot_refusal(taken, admitted) == Some(r.says()),
{
    match taken {
        Ok(snapshot) => if snapshot.tab_generation == admitted {
            Ok(snapshot)
        } else {
            Err(
                Rejection {
                    code: "not-found",
                    message: "that tab was respawned after the attach token was issued".to_owned(),
                },
            )
        },
        Err(TabError::SnapshotFailed(why)) => Err(
            Rejection { code: "snapshot-failed", message: why },
        ),
        Err(other) => Err(Rejection { code: "not-found", message: other.message() }),
    }
}

/// Where the snapshot's ready record ends, or the failure that it has none.
pub fn fence_ready(ready: Result<usize, String>, snapshot: &SnapshotAt) -> (out: Result<
    usize,
    Rejection,
>)
    ensures
        out is Ok <==> ready_refusal(ready, snapshot.bytes@.len()) is None,
        out matches Ok(end) ==> ready == Ok::<usize, String>(end),
        out matches Err(r) ==> ready_refusal(ready, snapshot.bytes@.len()) == Some(r.says()),
{
    match ready {
        Ok(end) => if end <= snapshot.bytes.len() {
            Ok(end)
        } else {
            Err(
                Rejection {
                    code: "snapshot-failed",
                    message: text::join2(
                        "the encoded snapshot has no READY record: ",
                        "the record ends past the snapshot",
                    ),
                },
            )
        },
        Err(why) => Err(
            Rejection {
                code: "snapshot-failed",
                message: text::join2(
                    "the encoded snapshot has no READY record: ",
                    why.as_str(),
                ),
            },
        ),
    }
}

/// What an accepted client is told before the first frame: where the snapshot it gets was
/// taken. A client that asked to resume is answered with a whole snapshot as well.
#[derive(Debug, PartialEq, Eq)]
pub struct Accepted {
    pub seq: u64,
    pub server_epoch: u64,
    pub tab_generation: u64,
}

/// One attach on its way from admission to its first frame.
#[derive(Debug, PartialEq, Eq)]
pub enum Attach {
    /// Waiting for the tab's stream and its task.
    Tab { admitted: u64 },
    /// Waiting for the snapshot.
    Snapshot { admitted: u64 },
    /// Waiting for the end of the ready record.
    Ready { snapshot: SnapshotAt },
    /// Waiting to hear whether the connection was closed meanwhile.
    Close { snapshot: SnapshotAt, ready_end: usize },
    /// Waiting for the reply to be written.
    Reply { snapshot: SnapshotAt, ready_end: usize },
    /// Waiting for the preamble of the binary half to be written.
    Preamble { snapshot: SnapshotAt, ready_end: usize },
    Over,
}

/// The answer to the action an [`Attach`] asked for last.
#[derive(Debug, PartialEq, Eq)]
pub enum AttachEvent {
    /// Whether the tab's stream could be subscribed to, and the generation of its task read
    /// after that.
    Tab { subscribed: bool, live: Option<u64> },
    Snapshot(Result<SnapshotAt, TabError>),
    Ready(Result<usize, String>),
    /// Whether the server has closed this connection.
    Close(bool),
    /// Whether a write went through.
    Wrote(bool),
}

/// What an [`Attach`] asks for next.
#[derive(Debug, PartialEq, Eq)]
pub enum AttachAction {
    TakeSnapshot,
    FindReady,
    CheckClose,
    Accept(Accepted),
    WritePreamble,
    /// Pump this snapshot and the stream behind its fence.
    Pump { snapshot: SnapshotAt, ready_end: usize },
    Reject(Rejection),
    /// Close without another word.
    Hang,
}

impl Attach {
    /// An attach keeps a ready record that lies within its snapshot.
    pub open spec fn wf(self) -> bool {
        match self {
            Attach::Close { snapshot, ready_end } => ready_end <= snapshot.bytes@.len(),
            Attach::Reply { snapshot, ready_end } => ready_end <= snapshot.bytes@.len(),
            Attach::Preamble { snapshot, ready_end } => ready_end <= snapshot.bytes@.len(),
            _ => true,
        }
    }

    /// Whether `event` answers what this attach asked for.
    pub open spec fn expects(self, event: AttachEvent) -> bool {
        match self {
            Attach::Tab { .. } => event is Tab,
            Attach::Snapshot { .. } => event is Snapshot,
            Attach::Ready { .. } => event is Ready,
            Attach::Close { .. } => event is Close,
            Attach::Reply { .. } => event is Wrote,
            Attach::Preamble { .. } => event is Wrote,
            Attach::Over => false,
        }
    }

    /// What turns the client away after `event`, where something does.
    pub open spec fn refusal(self, event: AttachEvent) -> Option<(Seq<char>, Seq<char>)> {
        match (self, event) {
            (Attach::Tab { admitted }, AttachEvent::Tab { subscribed, live }) => tab_refusal(
                subscribed,
                live,
                admitted,
            ),
            (Attach::Snapshot { admitted }, AttachEvent::Snapshot(taken)) => snapshot_refusal(
                taken,
                admitted,
            ),
            (Attach::Ready { snapshot }, AttachEvent::Ready(ready)) => ready_refusal(
                ready,
                snapshot.bytes@.len(),
            ),
            _ => None,
        }
    }

    /// The attach after an event that turns nobody away, and what it asks for next.
    pub open spec fn onward(self, event: AttachEvent) -> (Attach, AttachAction) {
        match (self, event) {
            (Attach::Tab { admitted }, _) => (
                Attach::Snapshot { admitted },
                AttachAction::TakeSnapshot,
            ),
            (Attach::Snapshot { .. }, AttachEvent::Snapshot(Ok(snapshot))) => (
                Attach::Ready { snapshot },
                AttachAction::FindReady,
            ),
            (Attach::Ready { snapshot }, AttachEvent::Ready(Ok(ready_end))) => (
                Attach::Close { snapshot, ready_end },
                AttachAction::CheckClose,
            ),
            (Attach::Close { snapshot, ready_end }, AttachEvent::Close(false)) => (
                Attach::Reply { snapshot, ready_end },
                AttachAction::Accept(
                    Accepted {
                        seq: snapshot.seq,
                        server_epoch: snapshot.server_epoch,
                        tab_generation: snapshot.tab_generation,
                    },
                ),
            ),
            (Attach::Reply { snapshot, ready_end }, AttachEvent::Wrote(true)) => (
                Attach::Preamble { snapshot, ready_end },
                AttachAction::WritePreamble,
            ),
            (Attach::Preamble { snapshot, ready_end }, AttachEvent::Wrote(true)) => (
                Attach::Over,
                AttachAction::Pump { snapshot, ready_end },
            ),
            _ => (Attach::Over, AttachAction::Hang),
        }
    }

    /// An attach to the tab that was admitted at this generation. What it asks for first is
    /// the tab's stream and its task.
    pub fn begin(admitted: u64) -> (out: Attach)
        ensures
            out == (Attach::Tab { admitted }),
            out.wf(),
    {
        Attach::Tab { admitted }
    }

    /// Takes the answer to the last action and says what to do next.
    pub fn step(self, event: AttachEvent) -> (out: (Attach, AttachAction))
        requires
            self.wf(),
            self.expects(event),
        ensures
            out.0.wf(),
            match self.refusal(event) {
                Some(says) => out.0 is Over && (out.1 matches AttachAction::Reject(r) && r.says()
                    == says),
                None => out == self.onward(event),
            },
    {
        match (self, event) {
            (Attach::Tab { admitted }, AttachEvent::Tab { subscribed, live }) => match fence_tab(
                subscribed,
                live,
                admitted,
            ) {
                Ok(()) => (Attach::Snapshot { admitted }, AttachAction::TakeSnapshot),
                Err(r) => (Attach::Over, AttachAction::Reject(r)),
            },
            (Attach::Snapshot { admitted }, AttachEvent::Snapshot(taken)) => match fence_snapshot(
                taken,
                admitted,
            ) {
                Ok(snapshot) => (Attach::Ready { snapshot }, AttachAction::FindReady),
                Err(r) => (Attach::Over, AttachAction::Reject(r)),
            },
            (Attach::Ready { snapshot }, AttachEvent::Ready(ready)) => match fence_ready(
                ready,
                &snapshot,
            ) {
                Ok(ready_end) => (
                    Attach::Close { snapshot, ready_end },
                    AttachAction::CheckClose,
                ),
                Err(r) => (Attach::Over, AttachAction::Reject(r)),
            },
            (Attach::Close { snapshot, ready_end }, AttachEvent::Close(false)) => {
                let accepted = Accepted {
                    seq: snapshot.seq,
                    server_epoch: snapshot.server_epoch,
                    tab_generation: snapshot.tab_generation,
                };
                (Attach::Reply { snapshot, ready_end }, AttachAction::Accept(accepted))
            },
            (Attach::Reply { snapshot, ready_end }, AttachEvent::Wrote(true)) => (
                Attach::Preamble { snapshot, ready_end },
                AttachAction::WritePreamble,
            ),
            (Attach::Preamble { snapshot, ready_end }, AttachEvent::Wrote(true)) => (
                Attach::Over,
                AttachAction::Pump { snapshot, ready_end },
            ),
            _ => (Attach::Over, AttachAction::Hang),
        }
    }
}

/// A client is accepted once, and only into the terminal it was admitted to: the tab was
/// live at the admitted generation when its stream was subscribed to, the snapshot is one of
/// that generation, its ready record lies within it, and the connection was still open after
/// all of that. The frames that follow are measured against the snapshot the reply names.
pub proof fn law_a_client_gets_the_terminal_it_was_admitted_to(
    admitted: u64,
    tab: AttachEvent,
    taken: AttachEvent,
    ready: AttachEvent,
    close: AttachEvent,
    reply: AttachEvent,
    preamble: AttachEvent,
)
    requires
        tab is Tab,
        taken is Snapshot,
        ready is Ready,
        close is Close,
        reply is Wrote,
        preamble is Wrote,
    ensures
        ({
            let a0 = Attach::Tab { admitted };
            let a1 = a0.onward(tab).0;
            let a2 = a1.onward(taken).0;
            let a3 = a2.onward(ready).0;
            let a4 = a3.onward(close).0;
            let a5 = a4.onward(reply).0;
            a0.refusal(tab) is None && a1.refusal(taken) is None && a2.refusal(ready) is None
                ==> {
                &&& tab == (AttachEvent::Tab { subscribed: true, live: Some(admitted) })
                &&& taken matches AttachEvent::Snapshot(Ok(snapshot))
                &&& ready matches AttachEvent::Ready(Ok(ready_end))
                &&& snapshot.tab_generation == admitted
                &&& ready_end <= snapshot.bytes@.len()
                &&& a3.onward(close).1 == (if close == AttachEvent::Close(false) {
                    AttachAction::Accept(
                        Accepted {
                            seq: snapshot.seq,
                            server_epoch: snapshot.server_epoch,
                            tab_generation: admitted,
                        },
                    )
                } else {
                    AttachAction::Hang
                })
                &&& close == AttachEvent::Close(false) && reply == AttachEvent::Wrote(true)
                    && preamble == AttachEvent::Wrote(true) ==> a5.onward(preamble).1 == (
                AttachAction::Pump { snapshot, ready_end })
            }
        }),
{
}

/// The record that an event brings off the tab's stream, by a poll or by a wake.
pub open spec fn record_in(event: PumpEvent) -> Option<PtyOutputEvent> {
    match event {
        PumpEvent::Tee(TeePoll::Event(e)) => Some(e),
        PumpEvent::Woke(Wake::Tee(TeePoll::Event(e))) => Some(e),
        _ => None,
    }
}

/// The records that a run of events brings, in order.
pub open spec fn records_in(events: Seq<PumpEvent>) -> Seq<PtyOutputEvent>
    decreases events.len(),
{
    if events.len() == 0 {
        seq![]
    } else {
        match record_in(events.last()) {
            Some(e) => records_in(events.drop_last()).push(e),
            None => records_in(events.drop_last()),
        }
    }
}

/// The output among records that lie past a fence: each record's place and its bytes.
pub open spec fn output_past(fence: u64, records: Seq<PtyOutputEvent>) -> Seq<(u64, Seq<u8>)>
    decreases records.len(),
{
    if records.len() == 0 {
        seq![]
    } else {
        let before = output_past(fence, records.drop_last());
        match records.last() {
            PtyOutputEvent::Bytes { seq, data } => if seq > fence {
                before.push((seq, data@))
            } else {
                before
            },
            PtyOutputEvent::Exit { .. } => before,
        }
    }
}

/// The exit among records that lie past a fence, the last where there are more.
pub open spec fn exit_past(fence: u64, records: Seq<PtyOutputEvent>) -> Option<(u64, i32)>
    decreases records.len(),
{
    if records.len() == 0 {
        None
    } else {
        match records.last() {
            PtyOutputEvent::Exit { seq, code } => if seq > fence {
                Some((seq, code))
            } else {
                exit_past(fence, records.drop_last())
            },
            PtyOutputEvent::Bytes { .. } => exit_past(fence, records.drop_last()),
        }
    }
}

/// The output frames among actions, in order.
pub open spec fn frames_in(actions: Seq<ActionView>) -> Seq<Seq<u8>>
    decreases actions.len(),
{
    if actions.len() == 0 {
        seq![]
    } else {
        match actions.last() {
            ActionView::WritePty(batch) => frames_in(actions.drop_last()) + batch,
            _ => frames_in(actions.drop_last()),
        }
    }
}

/// The snapshot's ranges among actions, in order.
pub open spec fn ranges_in(actions: Seq<ActionView>) -> Seq<(int, int)>
    decreases actions.len(),
{
    if actions.len() == 0 {
        seq![]
    } else {
        match actions.last() {
            ActionView::WriteSnap { from, to } => ranges_in(actions.drop_last()).push((from, to)),
            _ => ranges_in(actions.drop_last()),
        }
    }
}

/// Whether a frame carries a record: its place in the first eight bytes, low byte first, and
/// its bytes behind them.
pub open spec fn carries(frame: Seq<u8>, record: (u64, Seq<u8>)) -> bool {
    &&& frame.len() == 8 + record.1.len()
    &&& spec_u64_from_le_bytes(frame.take(8)) == record.0
    &&& frame.skip(8) == record.1
}

/// Whether frames carry records, one each and in order.
pub open spec fn all_carried(frames: Seq<Seq<u8>>, records: Seq<(u64, Seq<u8>)>) -> bool {
    &&& frames.len() == records.len()
    &&& forall|i: int| 0 <= i < frames.len() ==> carries(#[trigger] frames[i], records[i])
}

impl PumpView {
    /// A pump that has not been asked anything yet.
    pub open spec fn fresh(total: nat, ready_end: nat, fence: u64) -> PumpView {
        PumpView {
            total,
            ready_end,
            sent: 0,
            pty_since_snap: 0,
            pty_before_snap: 0,
            tee: TeeView {
                fence,
                next_seq: (fence + 1) as u64,
                open: true,
                exit: None,
                batch: seq![],
            },
            drained_any: false,
            phase: PumpPhase::Fresh,
        }
    }

    /// A pump after a run of events, and everything it asked for.
    pub open spec fn run(self, events: Seq<PumpEvent>) -> (PumpView, Seq<ActionView>)
        decreases events.len(),
    {
        if events.len() == 0 {
            (self, seq![])
        } else {
            let before = self.run(events.drop_last());
            let after = before.0.step(events.last());
            (after.0, before.1.push(after.1))
        }
    }

    /// Whether each event of a run answers what was asked for last. A wait that does not ask
    /// for the stream is not woken by it.
    pub open spec fn can_run(self, events: Seq<PumpEvent>) -> bool
        decreases events.len(),
    {
        events.len() == 0 || {
            &&& self.can_run(events.drop_last())
            &&& answers(self.run(events.drop_last()).0.phase, events.last())
            &&& countable(events.last())
            &&& events.last() matches PumpEvent::Woke(Wake::Tee(_)) ==> (self.run(
                events.drop_last(),
            ).1.last() matches ActionView::Wait { tee, .. } && tee)
        }
    }

    /// Whether nothing in a run ended the connection.
    pub open spec fn goes_on(self, events: Seq<PumpEvent>) -> bool {
        forall|i: int|
            0 <= i < self.run(events).1.len() ==> !(#[trigger] self.run(events).1[i] is Finish)
    }
}

proof fn lemma_payload(seq: u64, data: Seq<u8>)
    ensures
        carries(pty_payload(seq, data), (seq, data)),
{
    lemma_auto_spec_u64_to_from_le_bytes();
    assert(pty_payload(seq, data).take(8) =~= spec_u64_to_le_bytes(seq));
    assert(pty_payload(seq, data).skip(8) =~= data);
}

#[verifier::rlimit(60)]
#[verifier::spinoff_prover]
proof fn lemma_run(total: nat, ready_end: nat, fence: u64, events: Seq<PumpEvent>)
    requires
        total <= 536870912,
        ready_end <= total,
        fence < u64::MAX,
        PumpView::fresh(total, ready_end, fence).can_run(events),
        PumpView::fresh(total, ready_end, fence).goes_on(events),
    ensures
        ({
            let start = PumpView::fresh(total, ready_end, fence);
            let (s, actions) = start.run(events);
            let records = records_in(events);
            &&& s.ok()
            &&& s.total == total
            &&& s.ready_end == ready_end
            &&& s.tee.fence == fence
            &&& actions.len() == events.len()
            &&& all_carried(frames_in(actions) + s.tee.batch, output_past(fence, records))
            &&& s.tee.exit == exit_past(fence, records)
            &&& s.phase is Wait ==> actions.len() > 0 && (actions.last() matches ActionView::Wait {
                tee,
                snapshot,
            } && tee == s.tee.streaming())
            &&& s.tee.exit is None ==> s.tee.next_seq == fence + 1 + output_past(
                fence,
                records,
            ).len()
            &&& forall|k: int|
                0 <= k < output_past(fence, records).len() ==> (#[trigger] output_past(
                    fence,
                    records,
                )[k]).0 == fence + 1 + k
        }),
    decreases events.len(),
{
    let start = PumpView::fresh(total, ready_end, fence);
    let (s, actions) = start.run(events);
    if events.len() == 0 {
        assert(frames_in(actions) + s.tee.batch =~= seq![]);
    } else {
        let init = events.drop_last();
        let event = events.last();
        let (before, earlier) = start.run(init);
        assert(actions == earlier.push(before.step(event).1));
        assert(actions.drop_last() =~= earlier);
        assert(actions.last() == before.step(event).1);
        assert(start.goes_on(init)) by {
            assert forall|i: int| 0 <= i < earlier.len() implies !(#[trigger] earlier[i]
                is Finish) by {
                assert(actions[i] == earlier[i]);
            }
        }
        lemma_run(total, ready_end, fence, init);
        law_pump_stays_lawful(before, event);
        assert(!(actions[actions.len() - 1] is Finish));
        let held = frames_in(earlier) + before.tee.batch;
        match record_in(event) {
            Some(e) => {
                let records = records_in(events);
                assert(records.drop_last() =~= records_in(init));
                assert(records.last() == e);
                let now = frames_in(actions) + s.tee.batch;
                match e {
                    PtyOutputEvent::Bytes { seq, data } => {
                        if seq > fence {
                            lemma_payload(seq, data@);
                            assert(now =~= held.push(pty_payload(seq, data@)));
                        } else {
                            assert(now =~= held);
                        }
                    },
                    PtyOutputEvent::Exit { seq, code } => {
                        assert(now =~= held);
                    },
                }
            },
            None => {
                assert(frames_in(actions) + s.tee.batch =~= held);
            },
        }
    }
}

/// What a client gets of its tab's output: over any run that goes on, the output frames
/// written so far and those still held carry every output record past the fence that the
/// stream brought, by a poll or by a wake, once each and in order; and whenever the pump turns
/// to anything but output, to the snapshot, to the exit or to a wait, all of it is written.
/// Past the fence the records are numbered without a hole.
pub proof fn law_every_record_reaches_the_client(
    total: nat,
    ready_end: nat,
    fence: u64,
    events: Seq<PumpEvent>,
)
    requires
        total <= 536870912,
        ready_end <= total,
        fence < u64::MAX,
        PumpView::fresh(total, ready_end, fence).can_run(events),
        PumpView::fresh(total, ready_end, fence).goes_on(events),
    ensures
        ({
            let (s, actions) = PumpView::fresh(total, ready_end, fence).run(events);
            let output = output_past(fence, records_in(events));
            &&& all_carried(frames_in(actions) + s.tee.batch, output)
            &&& forall|k: int|
                0 <= k < output.len() ==> (#[trigger] output[k]).0 == fence + 1 + k
            &&& actions.len() > 0 && (actions.last() is ReadClock || actions.last() is WriteSnap
                || actions.last() is WriteExit || actions.last() is Wait) ==> all_carried(
                frames_in(actions),
                output,
            )
        }),
{
    lemma_run(total, ready_end, fence, events);
    let start = PumpView::fresh(total, ready_end, fence);
    let (s, actions) = start.run(events);
    if actions.len() > 0 {
        let before = start.run(events.drop_last()).0;
        assert(actions.last() == before.step(events.last()).1);
        if actions.last() is ReadClock || actions.last() is WriteSnap || actions.last() is WriteExit
            || actions.last() is Wait {
            assert(s.phase is Clock || s.phase is SnapWrite || s.phase is ExitWrite || s.phase
                is Wait);
            assert(frames_in(actions) + s.tee.batch =~= frames_in(actions));
        }
    }
}

/// The exit that is written is the one that the stream brought: its place and the child's code,
/// behind every record before it and behind the whole snapshot.
pub proof fn law_the_written_exit_is_the_tabs(
    total: nat,
    ready_end: nat,
    fence: u64,
    events: Seq<PumpEvent>,
    payload: Seq<u8>,
)
    requires
        total <= 536870912,
        ready_end <= total,
        fence < u64::MAX,
        PumpView::fresh(total, ready_end, fence).can_run(events),
        PumpView::fresh(total, ready_end, fence).goes_on(events),
        PumpView::fresh(total, ready_end, fence).run(events).1.contains(
            ActionView::WriteExit(payload),
        ),
    ensures
        PumpView::fresh(total, ready_end, fence).run(events).1.last() == ActionView::WriteExit(
            payload,
        ),
        payload.len() == 12,
        exit_past(fence, records_in(events)) matches Some((seq, code))
            && spec_u64_from_le_bytes(payload.take(8)) == seq
            && spec_u32_from_le_bytes(payload.skip(8)) == code as u32,
        all_carried(
            frames_in(PumpView::fresh(total, ready_end, fence).run(events).1),
            output_past(fence, records_in(events)),
        ),
        PumpView::fresh(total, ready_end, fence).run(events).0.sent == total,
    decreases events.len(),
{
    let start = PumpView::fresh(total, ready_end, fence);
    let (s, actions) = start.run(events);
    lemma_run(total, ready_end, fence, events);
    law_every_record_reaches_the_client(total, ready_end, fence, events);
    lemma_exit_ends_a_run(start, events);
    let init = events.drop_last();
    let before = start.run(init).0;
    let i = choose|i: int| 0 <= i < actions.len() && actions[i] == ActionView::WriteExit(payload);
    assert(actions[i] is WriteExit);
    assert(i == actions.len() - 1);
    assert(start.goes_on(init)) by {
        assert forall|k: int| 0 <= k < start.run(init).1.len() implies !(
        #[trigger] start.run(init).1[k] is Finish) by {
            assert(actions[k] == start.run(init).1[k]);
        }
    }
    lemma_run(total, ready_end, fence, init);
    law_exit_is_last(before, events.last());
    lemma_auto_spec_u64_to_from_le_bytes();
    lemma_auto_spec_u32_to_from_le_bytes();
    let (seq, code) = s.tee.exit->0;
    assert(payload.take(8) =~= spec_u64_to_le_bytes(seq));
    assert(payload.skip(8) =~= spec_u32_to_le_bytes(code as u32));
}

/// Nothing is asked for behind an exit but the end.
proof fn lemma_exit_ends_a_run(start: PumpView, events: Seq<PumpEvent>)
    requires
        start.ok(),
        start.phase is Fresh,
        start.can_run(events),
        start.goes_on(events),
    ensures
        start.run(events).0.ok(),
        start.run(events).1.len() == events.len(),
        forall|i: int|
            0 <= i < events.len() - 1 ==> !(#[trigger] start.run(events).1[i] is WriteExit),
        events.len() > 0 && start.run(events).1.last() is WriteExit <==> start.run(events).0.phase
            is ExitWrite,
    decreases events.len(),
{
    if events.len() > 0 {
        let init = events.drop_last();
        let (before, earlier) = start.run(init);
        let actions = start.run(events).1;
        assert(start.goes_on(init)) by {
            assert forall|k: int| 0 <= k < earlier.len() implies !(#[trigger] earlier[k]
                is Finish) by {
                assert(actions[k] == earlier[k]);
            }
        }
        lemma_exit_ends_a_run(start, init);
        law_pump_stays_lawful(before, events.last());
        assert(!(actions[actions.len() - 1] is Finish));
        assert forall|i: int| 0 <= i < events.len() - 1 implies !(#[trigger] actions[i]
            is WriteExit) by {
            assert(actions[i] == earlier[i]);
            if i == init.len() - 1 && earlier[i] is WriteExit {
                assert(before.phase is ExitWrite);
                assert(before.step(events.last()).1 is Finish);
            }
        }
    }
}

/// The snapshot goes out whole, in order and once: over any run that goes on, each range begins
/// where the one before it ended, the first at the beginning; no range is empty, longer than
/// one frame, past the end or across the end of the ready record; and when the exit goes out or
/// a wait expects no more of the snapshot, the last range ended where the snapshot does.
pub proof fn law_the_snapshot_reaches_the_client(
    total: nat,
    ready_end: nat,
    fence: u64,
    events: Seq<PumpEvent>,
)
    requires
        total <= 536870912,
        ready_end <= total,
        fence < u64::MAX,
        PumpView::fresh(total, ready_end, fence).can_run(events),
        PumpView::fresh(total, ready_end, fence).goes_on(events),
    ensures
        ({
            let actions = PumpView::fresh(total, ready_end, fence).run(events).1;
            let ranges = ranges_in(actions);
            &&& forall|k: int|
                0 <= k < ranges.len() ==> (#[trigger] ranges[k]).0 == (if k == 0 {
                    0
                } else {
                    ranges[k - 1].1
                }) && ranges[k].0 < ranges[k].1 <= total && ranges[k].1 - ranges[k].0 <= 1048576
                    && (ranges[k].0 < ready_end ==> ranges[k].1 <= ready_end)
            &&& actions.len() > 0 && (actions.last() is WriteExit || actions.last() == (
            ActionView::Wait { tee: true, snapshot: false })) ==> (if ranges.len() == 0 {
                total == 0
            } else {
                ranges.last().1 == total
            })
        }),
    decreases events.len(),
{
    let start = PumpView::fresh(total, ready_end, fence);
    lemma_ranges(total, ready_end, fence, events);
    lemma_run(total, ready_end, fence, events);
    if events.len() > 0 {
        let (s, actions) = start.run(events);
        let before = start.run(events.drop_last()).0;
        assert(actions.last() == before.step(events.last()).1);
        assert(start.goes_on(events.drop_last())) by {
            let earlier = start.run(events.drop_last()).1;
            assert forall|k: int| 0 <= k < earlier.len() implies !(#[trigger] earlier[k]
                is Finish) by {
                assert(actions[k] == earlier[k]);
            }
        }
        lemma_run(total, ready_end, fence, events.drop_last());
    }
}

/// Where a pump's snapshot stands after one event.
proof fn lemma_range_step(s: PumpView, event: PumpEvent)
    requires
        s.ok(),
        answers(s.phase, event),
        !(s.step(event).1 is Finish),
    ensures
        s.step(event).1 matches ActionView::WriteSnap { from, to } ==> s.step(event).0.phase == (
        PumpPhase::SnapWrite { to: to as usize }) && s.step(event).0.sent == from && from
            == s.sent && !(s.phase is SnapWrite) && 0 <= from < to <= s.total && to - from <= 1048576
            && (from < s.ready_end ==> to <= s.ready_end),
        !(s.step(event).1 is WriteSnap) ==> !(s.step(event).0.phase is SnapWrite),
        !(s.step(event).1 is WriteSnap) ==> s.step(event).0.sent == (match s.phase {
            PumpPhase::SnapWrite { to } => to as nat,
            _ => s.sent,
        }),
{
    law_snapshot_goes_out_in_order(s, event);
}

#[verifier::rlimit(60)]
#[verifier::spinoff_prover]
proof fn lemma_ranges(total: nat, ready_end: nat, fence: u64, events: Seq<PumpEvent>)
    requires
        total <= 536870912,
        ready_end <= total,
        fence < u64::MAX,
        PumpView::fresh(total, ready_end, fence).can_run(events),
        PumpView::fresh(total, ready_end, fence).goes_on(events),
    ensures
        ({
            let (s, actions) = PumpView::fresh(total, ready_end, fence).run(events);
            let ranges = ranges_in(actions);
            &&& forall|k: int|
                0 <= k < ranges.len() ==> (#[trigger] ranges[k]).0 == (if k == 0 {
                    0
                } else {
                    ranges[k - 1].1
                }) && ranges[k].0 < ranges[k].1 <= total && ranges[k].1 - ranges[k].0 <= 1048576
                    && (ranges[k].0 < ready_end ==> ranges[k].1 <= ready_end)
            &&& (match s.phase {
                PumpPhase::SnapWrite { to } => ranges.len() > 0 && ranges.last() == (
                    s.sent as int,
                    to as int,
                ),
                _ => s.sent == (if ranges.len() == 0 {
                    0
                } else {
                    ranges.last().1
                }),
            })
        }),
    decreases events.len(),
{
    let start = PumpView::fresh(total, ready_end, fence);
    if events.len() > 0 {
        let init = events.drop_last();
        let event = events.last();
        let (before, earlier) = start.run(init);
        let (s, actions) = start.run(events);
        assert(actions == earlier.push(before.step(event).1));
        assert(actions.drop_last() =~= earlier);
        assert(start.goes_on(init)) by {
            assert forall|k: int| 0 <= k < earlier.len() implies !(#[trigger] earlier[k]
                is Finish) by {
                assert(actions[k] == earlier[k]);
            }
        }
        lemma_ranges(total, ready_end, fence, init);
        lemma_run(total, ready_end, fence, init);
        assert(!(actions[actions.len() - 1] is Finish));
        assert(actions.last() == before.step(event).1);
        lemma_range_step(before, event);
        let ranges = ranges_in(actions);
        let was = ranges_in(earlier);
        assert forall|k: int| 0 <= k < ranges.len() implies (#[trigger] ranges[k]).0 == (if k
            == 0 {
            0
        } else {
            ranges[k - 1].1
        }) && ranges[k].0 < ranges[k].1 <= total && ranges[k].1 - ranges[k].0 <= 1048576 && (
        ranges[k].0 < ready_end ==> ranges[k].1 <= ready_end) by {
            if k < was.len() {
                assert(ranges[k] == was[k]);
                if k > 0 {
                    assert(ranges[k - 1] == was[k - 1]);
                }
            }
        }
    }
}

/// A record that keeps to the stream does not end the connection, and one that does not ends it
/// with a desync: one at or below the fence is passed over, the next one in order is taken as
/// long as it fits a frame, and a hole or a record too large is told to the client.
pub proof fn law_only_a_broken_stream_is_a_desync(s: PumpView, event: PumpEvent)
    requires
        s.ok(),
        answers(s.phase, event),
        record_in(event) is Some,
        s.phase is Wait ==> s.tee.streaming(),
    ensures
        ({
            let e = record_in(event)->0;
            let (after, action) = s.step(event);
            &&& e.spec_seq() <= s.tee.fence ==> !(action is Finish)
            &&& e.spec_seq() > s.tee.fence && e.spec_seq() != s.tee.next_seq ==> (action
                matches ActionView::Finish(EndingView::Fault { code, .. }) && code == "desync"@)
            &&& e.spec_seq() > s.tee.fence && e.spec_seq() == s.tee.next_seq ==> (e matches PtyOutputEvent::Bytes {
                data,
                ..
            } ==> (if data@.len() <= 1048568 {
                !(action is Finish)
            } else {
                action matches ActionView::Finish(EndingView::Fault { code, .. }) && code
                    == "desync"@
            }))
            &&& e.spec_seq() > s.tee.fence && e.spec_seq() == s.tee.next_seq && e is Exit ==> !(
            action is Finish)
        }),
{
    lemma_absorb_bytes(s.tee, event);
    law_pump_stays_lawful(s, event);
}

/// A stream that lost records, or ended without an exit, ends the connection; a peer that is
/// gone is told nothing, one that stalls is told so, and an exit that was written completes the
/// attach.
pub proof fn law_every_failure_ends_the_attach(s: PumpView, event: PumpEvent)
    requires
        s.ok(),
        answers(s.phase, event),
    ensures
        event matches PumpEvent::Tee(TeePoll::Lagged(missed)) ==> (s.step(event).1
            matches ActionView::Finish(EndingView::Fault { code, message }) && code == "desync"@
            && message == "this attach fell "@ + text::decimal(missed as nat)
            + " records behind its tab"@),
        event matches PumpEvent::Woke(Wake::Tee(TeePoll::Lagged(missed))) ==> (s.step(event).1
            matches ActionView::Finish(EndingView::Fault { code, message }) && code == "desync"@
            && message == "this attach fell "@ + text::decimal(missed as nat)
            + " records behind its tab"@),
        event == PumpEvent::Tee(TeePoll::Closed) && s.tee.batch.len() == 0 ==> (s.step(event).1
            matches ActionView::Finish(EndingView::Fault { code, .. }) && code == "desync"@),
        event == PumpEvent::Wrote(WriteOutcome::Failed) ==> s.step(event).1
            == ActionView::Finish(EndingView::ClientGone),
        event matches PumpEvent::Wrote(WriteOutcome::Stalled(deadline)) ==> (s.step(event).1
            matches ActionView::Finish(EndingView::Fault { code, message }) && code
            == "overflow"@ && message == "the peer did not read a frame within "@ + deadline@),
        event == PumpEvent::Wrote(WriteOutcome::Done) ==> (s.step(event).1 == ActionView::Finish(
            EndingView::Complete,
        ) <==> s.phase is ExitWrite),
        event == PumpEvent::Woke(Wake::Client(None)) ==> s.step(event).1 == ActionView::Finish(
            EndingView::ClientGone,
        ),
{
}

/// What a client sends reaches its tab as it was sent: its input byte for byte, and its sizes
/// read low byte first, two bytes each. Anything else it may send ends the connection.
pub proof fn law_client_frames_reach_the_tab(s: PumpView, event: PumpEvent, sent: ClientEvent)
    requires
        s.ok(),
        answers(s.phase, event),
        event == PumpEvent::Client(Some(sent)) || event == PumpEvent::Woke(
            Wake::Client(Some(sent)),
        ),
    ensures
        sent matches ClientEvent::Frame(ClientFrame::Input(bytes)) ==> (if bytes@.len() > 0 {
            s.step(event).1 == ActionView::Send(TabCmd::Input(bytes))
        } else {
            s.step(event).1 matches ActionView::Finish(EndingView::Fault { code, .. }) && code
                == "protocol-error"@
        }),
        sent matches ClientEvent::Frame(ClientFrame::Resize(bytes)) ==> (if bytes@.len() == 8 {
            s.step(event).1 matches ActionView::Send(
                TabCmd::Resize { cols, rows, cell_w, cell_h, ack },
            ) && cols == bytes@[0] + 256 * bytes@[1] && rows == bytes@[2] + 256 * bytes@[3]
                && cell_w == bytes@[4] + 256 * bytes@[5] && cell_h == bytes@[6] + 256 * bytes@[7]
                && !ack
        } else {
            s.step(event).1 matches ActionView::Finish(EndingView::Fault { code, .. }) && code
                == "protocol-error"@
        }),
        sent matches ClientEvent::Frame(ClientFrame::Other(_)) ==> (s.step(event).1
            matches ActionView::Finish(EndingView::Fault { code, .. }) && code
            == "protocol-error"@),
        sent matches ClientEvent::Fatal(why) ==> (s.step(event).1 matches ActionView::Finish(
            EndingView::Fault { code, message },
        ) && code == "protocol-error"@ && message == why@),
        sent is Eof ==> s.step(event).1 == ActionView::Finish(EndingView::ClientGone),
{
}

/// When the snapshot's next frame goes out, and when it does not: not past the attach's time or
/// its bytes; otherwise at once while the ready record is not out, while the stream has nothing,
/// after one burst of output or after the interval; and else the pump waits.
pub proof fn law_when_the_snapshot_moves(s: PumpView, attach: u64, snap: u64)
    requires
        s.ok(),
        s.phase is Clock,
    ensures
        ({
            let action = s.step(PumpEvent::Clock { attach, snap }).1;
            let limit = if s.sent < s.ready_end {
                s.ready_end
            } else {
                s.total
            };
            if attach > 60_000_000_000 || s.total + s.pty_before_snap > 536870912 {
                action matches ActionView::Finish(EndingView::Fault { code, .. }) && code
                    == "desync"@
            } else if s.sent < s.ready_end || !s.drained_any || s.pty_since_snap >= 262144 || snap
                >= 50_000_000 {
                action matches ActionView::WriteSnap { from, to } && from == s.sent && to <= limit
                    && to <= s.sent + 1048576 && (to == limit || to == s.sent + 1048576)
            } else {
                action matches ActionView::Wait { snapshot, .. } && snapshot
            }
        }),
{
}

/// Only an attach that failed, or that the server closed, says why; a completed one and a
/// client that is gone are told nothing.
pub proof fn law_the_last_word_is_the_reason(code: Seq<char>, message: Seq<char>)
    ensures
        error_frame(EndingView::Complete) is None,
        error_frame(EndingView::ClientGone) is None,
        error_frame(EndingView::Fault { code, message }) == Some((code, message)),
        error_frame(EndingView::Closed(code)) matches Some((said, why)) && said == code && why
            == "this data connection was closed: "@ + code,
{
}

/// Who is turned away before the first frame, and who is not: a tab must be subscribed to and
/// live at the admitted generation, a snapshot must be one of that generation, and its ready
/// record must end within it. Nothing else turns a client away.
pub proof fn law_who_is_turned_away(
    admitted: u64,
    subscribed: bool,
    live: Option<u64>,
    taken: Result<SnapshotAt, TabError>,
    ready: Result<usize, String>,
    snapshot: SnapshotAt,
)
    ensures
        (Attach::Tab { admitted }).refusal(AttachEvent::Tab { subscribed, live }) is None
            <==> subscribed && live == Some(admitted),
        (Attach::Tab { admitted }).refusal(AttachEvent::Tab { subscribed, live }) matches Some(why)
            ==> why.0 == "not-found"@,
        (Attach::Snapshot { admitted }).refusal(AttachEvent::Snapshot(taken)) is None <==> (taken
            matches Ok(s) && s.tab_generation == admitted),
        taken matches Err(TabError::SnapshotFailed(why)) ==> (Attach::Snapshot { admitted }).refusal(AttachEvent::Snapshot(taken)) == Some(("snapshot-failed"@, why@)),
        taken matches Ok(s) && s.tab_generation != admitted ==> ((Attach::Snapshot { admitted }).refusal(AttachEvent::Snapshot(taken)) matches Some(why) && why.0 == "not-found"@),
        taken == Err::<SnapshotAt, _>(TabError::Gone) ==> ((Attach::Snapshot { admitted }).refusal(
            AttachEvent::Snapshot(taken),
        ) matches Some(why) && why.0 == "not-found"@),
        (Attach::Ready { snapshot }).refusal(AttachEvent::Ready(ready)) is None <==> (ready
            matches Ok(end) && end <= snapshot.bytes@.len()),
        (Attach::Ready { snapshot }).refusal(AttachEvent::Ready(ready)) matches Some(why) ==> why.0
            == "snapshot-failed"@,
{
}

/// How many bytes frames hold: none where there are none, and each frame its own length more.
pub proof fn law_held_output_is_its_frames(batch: Seq<Seq<u8>>, frame: Seq<u8>)
    ensures
        batch_bytes(seq![]) == 0,
        batch_bytes(batch.push(frame)) == batch_bytes(batch) + frame.len(),
{
    assert(batch.push(frame).drop_last() =~= batch);
}

/// What the snapshot's turn is counted by: output that is written counts by its bytes, toward
/// the burst and, while the snapshot is not out, toward the attach's bytes; a snapshot frame
/// that went out starts the burst anew; nothing else moves either count. A pass that took
/// something off the stream knows it.
pub proof fn law_written_output_counts(s: PumpView, event: PumpEvent)
    requires
        s.ok(),
        answers(s.phase, event),
        s.pty_since_snap < 1_000_000_000,
        s.pty_before_snap < 1_000_000_000,
    ensures
        ({
            let (after, action) = s.step(event);
            match action {
                ActionView::WritePty(batch) => after.pty_since_snap == s.pty_since_snap
                    + batch_bytes(batch) && after.pty_before_snap == s.pty_before_snap + (if s.sent
                    < s.total {
                    batch_bytes(batch)
                } else {
                    0
                }),
                _ => after.pty_before_snap == s.pty_before_snap && after.pty_since_snap == (if s.phase
                    is SnapWrite && event == PumpEvent::Wrote(WriteOutcome::Done) {
                    0
                } else {
                    s.pty_since_snap
                }),
            }
        }),
        event matches PumpEvent::Tee(TeePoll::Event(_)) ==> s.step(event).0.drained_any,
        s.phase is Client && !(s.step(event).0.phase is ClientSend) && !(s.step(event).1 is Finish)
            ==> !s.step(event).0.drained_any,
{
    lemma_absorb_bytes(s.tee, event);
}

/// How a pass goes round: the close is looked at first, then the client as long as it has frames
/// and turns left, then the stream as long as it has records and the burst has room; what was
/// taken is written; then the exit, where the snapshot is out; else the snapshot's turn; else the
/// pump waits for whatever can still come.
pub proof fn law_a_pass_takes_its_turns(s: PumpView, event: PumpEvent)
    requires
        s.ok(),
        answers(s.phase, event),
    ensures
        ({
            let (after, action) = s.step(event);
            let ready = s.tee.open && s.tee.exit is None;
            let held = s.tee.batch.len() > 0;
            let resting = |a: ActionView| match s.tee.exit {
                Some((seq, code)) => if s.sent == s.total {
                    a == ActionView::WriteExit(
                        spec_u64_to_le_bytes(seq) + spec_u32_to_le_bytes(code as u32),
                    )
                } else {
                    a == ActionView::ReadClock
                },
                None => if s.sent < s.total {
                    a == ActionView::ReadClock
                } else {
                    a == ActionView::Wait { tee: true, snapshot: false }
                },
            };
            &&& event == PumpEvent::Start ==> action == ActionView::CheckClose
            &&& event == PumpEvent::Close(None) ==> action == ActionView::PollClient
                && after.phase == (PumpPhase::Client { left: 64 })
            &&& event == PumpEvent::Sent ==> (match s.phase {
                PumpPhase::ClientSend { left } => left > 0 ==> action == ActionView::PollClient
                    && after.phase == (PumpPhase::Client { left }),
                _ => action == ActionView::CheckClose,
            })
            &&& event == PumpEvent::Client(None) && ready && batch_bytes(s.tee.batch) < 262144
                ==> action == ActionView::PollTee
            &&& (event == PumpEvent::Client(None) && !(ready && batch_bytes(s.tee.batch) < 262144)
                || event == PumpEvent::Tee(TeePoll::Empty)) && held ==> action
                == ActionView::WritePty(s.tee.batch) && after.tee.batch.len() == 0
            &&& event == PumpEvent::Tee(TeePoll::Empty) && !held ==> resting(action)
            &&& event == PumpEvent::Wrote(WriteOutcome::Done) && s.phase is PtyWrite && (s.tee.open
                || s.tee.exit is Some) ==> resting(action)
            &&& event == PumpEvent::Wrote(WriteOutcome::Done) && s.phase is PtyWrite && !s.tee.open
                && s.tee.exit is None ==> action == ActionView::Finish(
                EndingView::Fault {
                    code: "desync"@,
                    message: "the tab's stream ended without an exit"@,
                },
            )
            &&& event == PumpEvent::Wrote(WriteOutcome::Done) && s.phase is SnapWrite ==> action
                == ActionView::CheckClose
            &&& event == PumpEvent::Woke(Wake::SnapDue) || event == PumpEvent::Woke(
                Wake::Tee(TeePoll::Empty),
            ) || event == PumpEvent::Woke(Wake::Tee(TeePoll::Closed)) ==> action
                == ActionView::CheckClose
            &&& event == PumpEvent::Woke(Wake::Tee(TeePoll::Closed)) || event == PumpEvent::Tee(
                TeePoll::Closed,
            ) ==> !after.tee.open && after.tee.exit == s.tee.exit
            &&& action matches ActionView::Wait { tee, snapshot } ==> tee == (after.tee.open
                && after.tee.exit is None) && snapshot == (after.sent < after.total)
        }),
{
}

/// While the stream has records and the burst has room, the next one is asked for; a burst that
/// is full is written, and so is what is held when the exit comes.
pub proof fn law_a_burst_is_filled_before_it_is_written(s: PumpView, e: PtyOutputEvent)
    requires
        s.ok(),
        s.phase is Tee,
        e.spec_seq() < u64::MAX,
    ensures
        ({
            let (after, action) = s.step(PumpEvent::Tee(TeePoll::Event(e)));
            let grown = s.tee.batch.push(spec_u64_to_le_bytes(e.spec_seq()) + e->data@);
            &&& e.spec_seq() <= s.tee.fence ==> action == ActionView::PollTee && after.tee == s.tee
            &&& e is Bytes && e.spec_seq() > s.tee.fence && e.spec_seq() == s.tee.next_seq
                && e->data@.len() <= 1048568 ==> (if batch_bytes(grown) < 262144 {
                action == ActionView::PollTee && after.tee.batch == grown
            } else {
                action == ActionView::WritePty(grown) && after.tee.batch.len() == 0
            })
            &&& e is Exit && e.spec_seq() > s.tee.fence && e.spec_seq() == s.tee.next_seq ==> {
                &&& after.tee.exit == Some((e.spec_seq(), e->code))
                &&& s.tee.batch.len() > 0 ==> action == ActionView::WritePty(s.tee.batch)
            }
        }),
{
    lemma_absorb_bytes(s.tee, PumpEvent::Tee(TeePoll::Event(e)));
}

/// What a client that is turned away is told.
pub proof fn law_a_turned_away_client_is_told_why(
    admitted: u64,
    live: u64,
    snapshot: SnapshotAt,
    other: TabError,
    end: usize,
    why: String,
)
    ensures
        (Attach::Tab { admitted }).refusal(AttachEvent::Tab { subscribed: true, live: None })
            == Some(("not-found"@, "that tab has no live terminal"@)),
        (Attach::Tab { admitted }).refusal(
            AttachEvent::Tab { subscribed: false, live: Some(live) },
        ) == Some(("not-found"@, "that tab has no live terminal"@)),
        live != admitted ==> (Attach::Tab { admitted }).refusal(
            AttachEvent::Tab { subscribed: true, live: Some(live) },
        ) == Some(
            ("not-found"@, "that tab was respawned after the attach token was issued"@),
        ),
        snapshot.tab_generation != admitted ==> (Attach::Snapshot { admitted }).refusal(
            AttachEvent::Snapshot(Ok(snapshot)),
        ) == Some(
            ("not-found"@, "that tab was respawned after the attach token was issued"@),
        ),
        !(other is SnapshotFailed) ==> (Attach::Snapshot { admitted }).refusal(
            AttachEvent::Snapshot(Err(other)),
        ) == Some(("not-found"@, other.text())),
        end > snapshot.bytes@.len() ==> (Attach::Ready { snapshot }).refusal(
            AttachEvent::Ready(Ok(end)),
        ) == Some(
            (
                "snapshot-failed"@,
                "the encoded snapshot has no READY record: "@
                    + "the record ends past the snapshot"@,
            ),
        ),
        (Attach::Ready { snapshot }).refusal(AttachEvent::Ready(Err(why))) == Some(
            ("snapshot-failed"@, "the encoded snapshot has no READY record: "@ + why@),
        ),
{
}

/// How an attach goes on: the snapshot that was taken is the one that is looked through, told to
/// the client by its place, its epoch and its generation, and pumped, with the ready record that
/// was found; a close, or a write that failed, hangs up.
pub proof fn law_an_attach_goes_step_by_step(
    admitted: u64,
    subscribed: bool,
    live: Option<u64>,
    snapshot: SnapshotAt,
    ready_end: usize,
)
    ensures
        (Attach::Tab { admitted }).onward(AttachEvent::Tab { subscribed, live }) == (
            Attach::Snapshot { admitted },
            AttachAction::TakeSnapshot,
        ),
        (Attach::Snapshot { admitted }).onward(AttachEvent::Snapshot(Ok(snapshot))) == (
            Attach::Ready { snapshot },
            AttachAction::FindReady,
        ),
        (Attach::Ready { snapshot }).onward(AttachEvent::Ready(Ok(ready_end))) == (
            Attach::Close { snapshot, ready_end },
            AttachAction::CheckClose,
        ),
        (Attach::Close { snapshot, ready_end }).onward(AttachEvent::Close(false)).0 == (
        Attach::Reply { snapshot, ready_end }),
        (Attach::Close { snapshot, ready_end }).onward(AttachEvent::Close(false)).1
            matches AttachAction::Accept(told) && told.seq == snapshot.seq && told.server_epoch
            == snapshot.server_epoch && told.tab_generation == snapshot.tab_generation,
        (Attach::Reply { snapshot, ready_end }).onward(AttachEvent::Wrote(true)) == (
            Attach::Preamble { snapshot, ready_end },
            AttachAction::WritePreamble,
        ),
        (Attach::Preamble { snapshot, ready_end }).onward(AttachEvent::Wrote(true)) == (
            Attach::Over,
            AttachAction::Pump { snapshot, ready_end },
        ),
        (Attach::Close { snapshot, ready_end }).onward(AttachEvent::Close(true)) == (
            Attach::Over,
            AttachAction::Hang,
        ),
        (Attach::Reply { snapshot, ready_end }).onward(AttachEvent::Wrote(false)) == (
            Attach::Over,
            AttachAction::Hang,
        ),
        (Attach::Preamble { snapshot, ready_end }).onward(AttachEvent::Wrote(false)) == (
            Attach::Over,
            AttachAction::Hang,
        ),
{
}

/// What an action, an ending and a pump are seen as is what they hold, part by part.
pub proof fn law_the_pump_is_seen_as_it_is(
    pump: Pump,
    cmd: TabCmd,
    batch: Vec<Vec<u8>>,
    bytes: Vec<u8>,
    from: usize,
    to: usize,
    tee: bool,
    snapshot: bool,
    e: Ending,
    why: String,
    i: int,
)
    ensures
        PumpAction::CheckClose@ == ActionView::CheckClose,
        PumpAction::PollClient@ == ActionView::PollClient,
        PumpAction::Send(cmd)@ == ActionView::Send(cmd),
        PumpAction::PollTee@ == ActionView::PollTee,
        PumpAction::ReadClock@ == ActionView::ReadClock,
        PumpAction::WritePty(batch)@ matches ActionView::WritePty(frames) && frames.len()
            == batch@.len() && (0 <= i < batch@.len() ==> frames[i] == batch@[i]@),
        (PumpAction::WriteSnap { from, to })@ == (ActionView::WriteSnap {
            from: from as int,
            to: to as int,
        }),
        PumpAction::WriteExit(bytes)@ == ActionView::WriteExit(bytes@),
        (PumpAction::Wait { tee, snapshot })@ == (ActionView::Wait { tee, snapshot }),
        PumpAction::Finish(e)@ == ActionView::Finish(e@),
        Ending::Complete@ == EndingView::Complete,
        Ending::ClientGone@ == EndingView::ClientGone,
        Ending::Closed(why)@ == EndingView::Closed(why@),
        e matches Ending::Fault { code, message } ==> e@ == (EndingView::Fault {
            code: code@,
            message: message@,
        }),
        pump@.total == pump.snapshot@.len(),
        pump@.ready_end == pump.ready_end,
        pump@.sent == pump.sent,
        pump@.pty_since_snap == pump.pty_since_snap,
        pump@.pty_before_snap == pump.pty_before_snap,
        pump@.drained_any == pump.drained_any,
        pump@.phase == pump.phase,
        pump@.tee.fence == pump.tee.fence,
        pump@.tee.next_seq == pump.tee.next_seq,
        pump@.tee.open == pump.tee.open,
        pump@.tee.exit == pump.tee.exit,
        pump@.tee.batch.len() == pump.tee.batch@.len(),
        0 <= i < pump.tee.batch@.len() ==> pump@.tee.batch[i] == pump.tee.batch@[i]@,
{
}

} // verus!
