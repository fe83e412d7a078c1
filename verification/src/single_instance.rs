//! One engine per socket and per state directory: which locks are taken, in which order, and
//! what a held one means.
use crate::path;
use crate::text;
use vstd::prelude::*;

verus! {

/// Why one lock was not taken.
#[derive(Debug, PartialEq, Eq)]
pub enum AcquireError {
    /// Another process holds it; its pid, or zero where that could not be read.
    AlreadyHeld(i32),
    Io(String),
}

impl AcquireError {
    /// The error in words.
    pub open spec fn text(self) -> Seq<char> {
        match self {
            AcquireError::AlreadyHeld(pid) => "another instance is alive (pid "@
                + text::decimal_int(pid as int) + ")"@,
            AcquireError::Io(source) => "io: "@ + source@,
        }
    }

    /// The error in words.
    pub fn message(&self) -> (out: String)
        ensures
            out@ == self.text(),
    {
        match self {
            AcquireError::AlreadyHeld(pid) => text::join3(
                "another instance is alive (pid ",
                text::decimal_i64(*pid as i64).as_str(),
                ")",
            ),
            AcquireError::Io(source) => text::join2("io: ", source.as_str()),
        }
    }
}

/// Why the engine may not start.
#[derive(Debug, PartialEq, Eq)]
pub enum LocksError {
    /// Another engine serves the socket: it is the one to talk to.
    SocketHeld { pid: i32, path: String },
    /// Nobody serves the socket, but another engine writes this state.
    StateHeld { pid: i32, path: String },
    Io { path: String, source: String },
}

impl LocksError {
    /// The error in words.
    pub open spec fn text(self) -> Seq<char> {
        match self {
            LocksError::SocketHeld { pid, path } => "another instance owns the socket (pid "@
                + text::decimal_int(pid as int) + "); lock: "@ + path@,
            LocksError::StateHeld { pid, path } =>
            "another instance owns this state directory (pid "@ + text::decimal_int(pid as int)
                + "); lock: "@ + path@,
            LocksError::Io { path, source } => "lock "@ + path@ + ": "@ + source@,
        }
    }

    /// The error in words.
    pub fn message(&self) -> (out: String)
        ensures
            out@ == self.text(),
    {
        match self {
            LocksError::SocketHeld { pid, path } => text::join4(
                "another instance owns the socket (pid ",
                text::decimal_i64(*pid as i64).as_str(),
                "); lock: ",
                path.as_str(),
            ),
            LocksError::StateHeld { pid, path } => text::join4(
                "another instance owns this state directory (pid ",
                text::decimal_i64(*pid as i64).as_str(),
                "); lock: ",
                path.as_str(),
            ),
            LocksError::Io { path, source } => text::join4(
                "lock ",
                path.as_str(),
                ": ",
                source.as_str(),
            ),
        }
    }
}

/// The pid in a lock file.
pub open spec fn pid_in(contents: Option<Seq<char>>) -> i32 {
    match contents {
        Some(t) => match text::reads_int(text::trimmed(t), i32::MIN as int, i32::MAX as int) {
            Some(pid) => pid as i32,
            None => 0i32,
        },
        None => 0i32,
    }
}

/// The pid in a lock file, or zero where none can be read.
pub fn read_pid(contents: Option<&str>) -> (pid: i32)
    ensures
        pid == pid_in(text::opt(contents)),
{
    match contents {
        Some(t) => {
            let chars = text::chars_of(t);
            match text::parse_i32(text::trim(chars.as_slice())) {
                Some(pid) => pid,
                None => 0,
            }
        },
        None => 0,
    }
}

/// What the holder of a lock writes into its file.
pub fn pid_line(pid: u32) -> (out: String)
    ensures
        out@ == text::decimal(pid as nat) + "\n"@,
{
    text::join2(text::decimal_u64(pid as u64).as_str(), "\n")
}

/// What came of trying a lock.
#[derive(Debug, PartialEq, Eq)]
pub enum TryLock {
    Locked,
    /// Somebody holds it; this is what its file says, if it can be read.
    WouldBlock { contents: Option<String> },
    Failed(String),
}

/// One lock, tried.
pub fn acquire(tried: TryLock) -> (out: Result<(), AcquireError>)
    ensures
        out == (match tried {
            TryLock::Locked => Ok(()),
            TryLock::WouldBlock { contents } => Err(
                AcquireError::AlreadyHeld(pid_in(text::opt_string(contents))),
            ),
            TryLock::Failed(source) => Err(AcquireError::Io(source)),
        }),
{
    match tried {
        TryLock::Locked => Ok(()),
        TryLock::WouldBlock { contents } => {
            let pid: i32 = match &contents {
                Some(t) => read_pid(Some(t.as_str())),
                None => read_pid(None),
            };
            Err(AcquireError::AlreadyHeld(pid))
        },
        TryLock::Failed(source) => Err(AcquireError::Io(source)),
    }
}

/// A path with its directory as the file system spells it, where that is known.
pub open spec fn settled(path: Seq<char>, canonical_parent: Option<Seq<char>>) -> Seq<char> {
    match (path::name_of(path), canonical_parent) {
        (Some(name), Some(parent)) => path::joined(parent, name),
        _ => path,
    }
}

fn with_canonical_parent(path: &str, canonical_parent: Option<&str>) -> (out: String)
    ensures
        out@ == settled(path@, text::opt(canonical_parent)),
{
    match (path::file_name(path), canonical_parent) {
        (Some(name), Some(parent)) => path::join(parent, name.as_str()),
        _ => path.to_owned(),
    }
}

/// Whether two paths name one file: they are spelled alike, or they are once their directories
/// are spelled as the file system does.
pub open spec fn one_file(
    a: Seq<char>,
    b: Seq<char>,
    a_canonical_parent: Option<Seq<char>>,
    b_canonical_parent: Option<Seq<char>>,
) -> bool {
    path::alike(a, b) || path::alike(settled(a, a_canonical_parent), settled(b, b_canonical_parent))
}

/// Whether two paths name one file.
pub fn same_file(
    a: &str,
    b: &str,
    a_canonical_parent: Option<&str>,
    b_canonical_parent: Option<&str>,
) -> (yes: bool)
    ensures
        yes == one_file(a@, b@, text::opt(a_canonical_parent), text::opt(b_canonical_parent)),
{
    if path::same_path(a, b) {
        return true;
    }
    let x = with_canonical_parent(a, a_canonical_parent);
    let y = with_canonical_parent(b, b_canonical_parent);
    path::same_path(x.as_str(), y.as_str())
}

/// Which locks an engine holds.
#[derive(Clone, Copy, Debug, PartialEq, Eq, Structural)]
pub enum Held {
    /// One file stands for both, and is locked once.
    Shared,
    Both,
}

/// What is done about the locks next.
#[derive(Debug, PartialEq, Eq)]
pub enum LocksStep {
    /// Try the lock of the state directory.
    TryState,
    Done(Held),
    /// Give the socket's lock back, then fail.
    ReleaseAndFail(LocksError),
    Fail(LocksError),
}

/// How far the taking of the locks has come.
#[derive(Clone, Copy, Debug, PartialEq, Eq, Structural)]
pub enum LocksPhase {
    Socket,
    State,
}

/// What follows once a lock was tried. The socket's lock comes first. Where both paths name
/// one file a second lock would find the first one held, so one is enough. A state that
/// somebody else writes is no reason to sit on the socket.
pub open spec fn locks_step(
    phase: LocksPhase,
    result: Result<(), AcquireError>,
    path: String,
    one_file: bool,
) -> LocksStep {
    match (phase, result) {
        (LocksPhase::Socket, Ok(_)) => if one_file {
            LocksStep::Done(Held::Shared)
        } else {
            LocksStep::TryState
        },
        (LocksPhase::Socket, Err(AcquireError::AlreadyHeld(pid))) => LocksStep::Fail(
            LocksError::SocketHeld { pid, path },
        ),
        (LocksPhase::Socket, Err(AcquireError::Io(source))) => LocksStep::Fail(
            LocksError::Io { path, source },
        ),
        (LocksPhase::State, Ok(_)) => LocksStep::Done(Held::Both),
        (LocksPhase::State, Err(AcquireError::AlreadyHeld(pid))) => LocksStep::ReleaseAndFail(
            LocksError::StateHeld { pid, path },
        ),
        (LocksPhase::State, Err(AcquireError::Io(source))) => LocksStep::ReleaseAndFail(
            LocksError::Io { path, source },
        ),
    }
}

/// What follows once a lock was tried. `path` is the lock's own, and `one_file` says whether
/// both locks are one file.
pub fn acquire_locks(
    phase: LocksPhase,
    result: Result<(), AcquireError>,
    path: String,
    one_file: bool,
) -> (step: LocksStep)
    ensures
        step == locks_step(phase, result, path, one_file),
{
    match (phase, result) {
        (LocksPhase::Socket, Ok(_)) => if one_file {
            LocksStep::Done(Held::Shared)
        } else {
            LocksStep::TryState
        },
        (LocksPhase::Socket, Err(AcquireError::AlreadyHeld(pid))) => LocksStep::Fail(
            LocksError::SocketHeld { pid, path },
        ),
        (LocksPhase::Socket, Err(AcquireError::Io(source))) => LocksStep::Fail(
            LocksError::Io { path, source },
        ),
        (LocksPhase::State, Ok(_)) => LocksStep::Done(Held::Both),
        (LocksPhase::State, Err(AcquireError::AlreadyHeld(pid))) => LocksStep::ReleaseAndFail(
            LocksError::StateHeld { pid, path },
        ),
        (LocksPhase::State, Err(AcquireError::Io(source))) => LocksStep::ReleaseAndFail(
            LocksError::Io { path, source },
        ),
    }
}

/// An engine that may not start holds nothing: before the socket's lock it has none to give
/// back, after it that one is given back.
pub proof fn law_a_refused_engine_holds_nothing(
    phase: LocksPhase,
    error: AcquireError,
    path: String,
    one_file: bool,
)
    ensures
        phase == LocksPhase::Socket ==> locks_step(phase, Err(error), path, one_file) is Fail,
        phase == LocksPhase::State ==> locks_step(
            phase,
            Err(error),
            path,
            one_file,
        ) is ReleaseAndFail,
{
}

/// A path names the same file as itself, and the answer does not hang on the order.
pub proof fn law_same_file_is_symmetric(
    a: Seq<char>,
    b: Seq<char>,
    a_parent: Option<Seq<char>>,
    b_parent: Option<Seq<char>>,
)
    ensures
        one_file(a, a, a_parent, b_parent),
        one_file(a, b, a_parent, b_parent) == one_file(b, a, b_parent, a_parent),
{
}

/// What each lock's answer leads to: the socket's first, then the state's where that is another
/// file; a lock that is held names its holder and its own path, one that fails its path and why;
/// and a socket lock that was taken is let go before a failure over the state's.
pub proof fn law_each_lock_answers_for_itself(path: String, pid: i32, why: String, shared: bool)
    ensures
        locks_step(LocksPhase::Socket, Ok(()), path, true) == LocksStep::Done(Held::Shared),
        locks_step(LocksPhase::Socket, Ok(()), path, false) == LocksStep::TryState,
        locks_step(LocksPhase::State, Ok(()), path, shared) == LocksStep::Done(Held::Both),
        locks_step(LocksPhase::Socket, Err(AcquireError::AlreadyHeld(pid)), path, shared)
            == LocksStep::Fail(LocksError::SocketHeld { pid, path }),
        locks_step(LocksPhase::State, Err(AcquireError::AlreadyHeld(pid)), path, shared)
            == LocksStep::ReleaseAndFail(LocksError::StateHeld { pid, path }),
        locks_step(LocksPhase::Socket, Err(AcquireError::Io(why)), path, shared)
            == LocksStep::Fail(LocksError::Io { path, source: why }),
        locks_step(LocksPhase::State, Err(AcquireError::Io(why)), path, shared)
            == LocksStep::ReleaseAndFail(LocksError::Io { path, source: why }),
{
}

/// A lock file names the process that wrote it, whatever white space stands round the number;
/// one that holds no number, or cannot be read, names none.
pub proof fn law_a_lock_file_names_its_writer(pid: u32, before: Seq<char>, behind: Seq<char>, odd: Seq<char>)
    requires
        pid <= 0x7fff_ffff,
        forall|i: int| 0 <= i < before.len() ==> text::is_white(#[trigger] before[i]),
        forall|i: int| 0 <= i < behind.len() ==> text::is_white(#[trigger] behind[i]),
    ensures
        pid_in(Some(before + text::decimal(pid as nat) + behind)) == pid,
        pid_in(Some(text::decimal(pid as nat) + "\n"@)) == pid,
        pid_in(None) == 0,
        text::reads_int(text::trimmed(odd), i32::MIN as int, i32::MAX as int) is None ==> pid_in(
            Some(odd),
        ) == 0,
{
    let written = text::decimal(pid as nat);
    text::law_a_decimal_reads_back(pid as nat);
    assert(text::is_digit(written[0]));
    assert(text::is_digit(written[written.len() - 1]));
    text::law_a_trim_takes_what_surrounds(before, written, behind);
    reveal_strlit("\n");
    let end = "\n"@;
    assert(end =~= seq!['\n']);
    assert(forall|i: int| 0 <= i < end.len() ==> text::is_white(#[trigger] end[i]));
    text::law_a_trim_takes_what_surrounds(seq![], written, end);
    assert(Seq::<char>::empty() + written + end =~= written + end);
}

/// What each refusal says.
pub proof fn law_a_refusal_says_who_holds_what(pid: i32, path: String, why: String)
    ensures
        AcquireError::AlreadyHeld(pid).text() == "another instance is alive (pid "@
            + text::decimal_int(pid as int) + ")"@,
        AcquireError::Io(why).text() == "io: "@ + why@,
        (LocksError::SocketHeld { pid, path }).text()
            == "another instance owns the socket (pid "@ + text::decimal_int(pid as int)
            + "); lock: "@ + path@,
        (LocksError::StateHeld { pid, path }).text()
            == "another instance owns this state directory (pid "@ + text::decimal_int(
            pid as int,
        ) + "); lock: "@ + path@,
        (LocksError::Io { path, source: why }).text() == "lock "@ + path@ + ": "@ + why@,
{
}

/// Two paths are one file where they are spelled alike, or where the same name lies in the same
/// actual directory.
pub proof fn law_a_file_is_where_its_directory_is(
    a: Seq<char>,
    b: Seq<char>,
    actual: Seq<char>,
    name: Seq<char>,
    other: Option<Seq<char>>,
)
    requires
        path::plain_name(name),
        actual.len() > 0,
        actual.last() != '/',
    ensures
        path::alike(a, b) ==> one_file(a, b, other, other),
        one_file(a + seq!['/'] + name, b + seq!['/'] + name, Some(actual), Some(actual)),
        settled(a + seq!['/'] + name, Some(actual)) == actual + seq!['/'] + name,
        settled(a, None) == a,
        path::name_of(a) is None ==> settled(a, other) == a,
{
    path::law_a_joined_path_lies_in_its_directory(a, name);
    path::law_a_joined_path_lies_in_its_directory(b, name);
    assert(name[0] != '/');
    path::law_a_join_separates_once(actual, name);
}

} // verus!
