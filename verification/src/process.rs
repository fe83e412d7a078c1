//! Running a helper program: its command, what its end means, and where the engine's own
//! helper is looked for.
use crate::path;
use crate::text;
use vstd::prelude::*;

verus! {

/// What to run.
#[derive(Clone, Debug, PartialEq, Eq)]
pub struct ProcessRequest {
    pub argv: Vec<String>,
    pub env: Vec<(String, String)>,
    pub env_remove: Vec<String>,
    pub stdin: Vec<u8>,
    pub cwd: Option<String>,
    /// In nanoseconds.
    pub timeout: u64,
}

/// What a program that ended well wrote.
#[derive(Clone, Debug, PartialEq, Eq)]
pub struct ProcessOutput {
    pub stdout: String,
}

/// Why there is no output.
#[derive(Debug, PartialEq, Eq)]
pub enum ProcessError {
    EmptyArgv,
    Spawn(String),
    Stdin(String),
    /// After so many nanoseconds.
    Timeout(u64),
    Io(String),
    Exit { code: i32 },
    ExitWithStderr { code: i32, stderr_tail: String },
}

/// How a span of so many nanoseconds is written.
pub uninterp spec fn span_text(nanos: u64) -> Seq<char>;

/// Writes a span of time as `core::time::Duration`'s `Debug` does.
/// Trusted: the text depends on the span alone.
#[verifier::external_body]
fn debug_span(nanos: u64) -> (out: String)
    ensures
        out@ == span_text(nanos),
{
    format!("{:?}", core::time::Duration::from_nanos(nanos))
}

impl ProcessError {
    /// The error in words.
    pub open spec fn text(self) -> Seq<char> {
        match self {
            ProcessError::EmptyArgv => "process argv is empty"@,
            ProcessError::Spawn(source) => "spawn process: "@ + source@,
            ProcessError::Stdin(source) => "write process stdin: "@ + source@,
            ProcessError::Timeout(span) => "process timed out after "@ + span_text(span),
            ProcessError::Io(source) => "process io error: "@ + source@,
            ProcessError::Exit { code } => "process exited with status "@ + text::decimal_int(
                code as int,
            ),
            ProcessError::ExitWithStderr { code, stderr_tail } => "process exited "@
                + text::decimal_int(code as int) + ": "@ + stderr_tail@,
        }
    }

    /// The error in words.
    pub fn message(&self) -> (out: String)
        ensures
            out@ == self.text(),
    {
        match self {
            ProcessError::EmptyArgv => "process argv is empty".to_owned(),
            ProcessError::Spawn(source) => text::join2("spawn process: ", source.as_str()),
            ProcessError::Stdin(source) => text::join2("write process stdin: ", source.as_str()),
            ProcessError::Timeout(span) => text::join2(
                "process timed out after ",
                debug_span(*span).as_str(),
            ),
            ProcessError::Io(source) => text::join2("process io error: ", source.as_str()),
            ProcessError::Exit { code } => text::join2(
                "process exited with status ",
                text::decimal_i64(*code as i64).as_str(),
            ),
            ProcessError::ExitWithStderr { code, stderr_tail } => text::join4(
                "process exited ",
                text::decimal_i64(*code as i64).as_str(),
                ": ",
                stderr_tail.as_str(),
            ),
        }
    }
}

/// A request that can be carried out: there is a program, and the directory is one.
#[derive(Debug, PartialEq, Eq)]
pub struct ProcessPlan {
    /// The program and its arguments.
    pub argv: Vec<String>,
    /// Variables to remove, before any is set.
    pub env_remove: Vec<String>,
    pub env: Vec<(String, String)>,
    pub cwd: Option<String>,
    pub stdin: Vec<u8>,
    pub timeout: u64,
}

/// Whether a plan is what a request asks for, in its directory where that is one.
pub open spec fn plans(request: ProcessRequest, cwd_is_dir: bool, plan: ProcessPlan) -> bool {
    &&& plan.argv == request.argv
    &&& plan.env == request.env
    &&& plan.env_remove == request.env_remove
    &&& plan.stdin == request.stdin
    &&& plan.timeout == request.timeout
    &&& cwd_is_dir ==> plan.cwd == request.cwd
    &&& !cwd_is_dir ==> plan.cwd is None
}

/// Plans a request. A directory that is none is passed over, and the program runs where the
/// engine does.
pub fn run(request: ProcessRequest, cwd_is_dir: bool) -> (out: Result<ProcessPlan, ProcessError>)
    ensures
        out matches Ok(plan) ==> plans(request, cwd_is_dir, plan),
        request.argv@.len() == 0 ==> out == Err::<ProcessPlan, _>(ProcessError::EmptyArgv),
        request.argv@.len() > 0 ==> out == Ok::<_, ProcessError>(
            ProcessPlan {
                argv: request.argv,
                env_remove: request.env_remove,
                env: request.env,
                cwd: if cwd_is_dir {
                    request.cwd
                } else {
                    None
                },
                stdin: request.stdin,
                timeout: request.timeout,
            },
        ),
{
    if request.argv.len() == 0 {
        return Err(ProcessError::EmptyArgv);
    }
    let cwd = if cwd_is_dir {
        request.cwd
    } else {
        None
    };
    Ok(
        ProcessPlan {
            argv: request.argv,
            env_remove: request.env_remove,
            env: request.env,
            cwd,
            stdin: request.stdin,
            timeout: request.timeout,
        },
    )
}

/// What a failed write to a program's input means. A program may close its input unread;
/// that is no failure.
pub fn stdin_failure(broken_pipe: bool, source: String) -> (out: Result<(), ProcessError>)
    ensures
        out == (if broken_pipe {
            Ok(())
        } else {
            Err(ProcessError::Stdin(source))
        }),
{
    if broken_pipe {
        Ok(())
    } else {
        Err(ProcessError::Stdin(source))
    }
}

/// How a program ended.
#[derive(Debug, PartialEq, Eq)]
pub struct Ended {
    pub success: bool,
    /// Its exit code, unless a signal ended it.
    pub code: Option<i32>,
    pub stdout: Vec<u8>,
    pub stderr: Vec<u8>,
}

/// The last line of what a program complained, without the space around it.
pub open spec fn complaint(stderr: Seq<u8>) -> Seq<char> {
    let lines = text::lines(text::lossy_text(stderr));
    if lines.len() == 0 {
        text::trimmed(""@)
    } else {
        text::trimmed(lines.last())
    }
}

/// What a decoded complaint ends in: its last line, without the space around it.
pub fn stderr_tail(stderr: &str) -> (out: String)
    ensures
        out@ == (if text::lines(stderr@).len() == 0 {
            text::trimmed(""@)
        } else {
            text::trimmed(text::lines(stderr@).last())
        }),
{
    let chars = text::chars_of(stderr);
    let lines = text::lines_of(chars.as_slice());
    assert(text::texts(lines@).len() == lines@.len());
    let last = if lines.len() == 0 {
        "".to_owned()
    } else {
        assert(text::texts(lines@).last() == lines@[lines@.len() - 1]@);
        lines[lines.len() - 1].clone()
    };
    let line = text::chars_of(last.as_str());
    text::string_of(text::trim(line.as_slice()))
}

/// Whether a program's end comes to this: what it wrote, or its code with what it complained.
/// A program that a signal ended has no code, and goes by minus one.
pub open spec fn finished(ended: Ended, out: Result<ProcessOutput, ProcessError>) -> bool {
    let code = match ended.code {
        Some(code) => code,
        None => -1i32,
    };
    if ended.success {
        out matches Ok(o) && o.stdout@ == text::lossy_text(ended.stdout@)
    } else if complaint(ended.stderr@).len() == 0 {
        out == Err::<ProcessOutput, _>(ProcessError::Exit { code })
    } else {
        out matches Err(ProcessError::ExitWithStderr { code: told, stderr_tail })
            && stderr_tail@ == complaint(ended.stderr@) && told == code
    }
}

/// What a program's end comes to: what it wrote, or its code with what it complained.
pub fn finish(ended: Ended) -> (out: Result<ProcessOutput, ProcessError>)
    ensures
        finished(ended, out),
{
    if ended.success {
        return Ok(ProcessOutput { stdout: text::utf8_lossy(ended.stdout.as_slice()) });
    }
    let code: i32 = match ended.code {
        Some(code) => code,
        None => -1,
    };
    let stderr = text::utf8_lossy(ended.stderr.as_slice());
    let tail = stderr_tail(stderr.as_str());
    if tail.as_str().is_empty() {
        Err(ProcessError::Exit { code })
    } else {
        Err(ProcessError::ExitWithStderr { code, stderr_tail: tail })
    }
}

/// How a program's run came to its close.
#[derive(Debug, PartialEq, Eq)]
pub enum RunEnd {
    /// It ended within its time.
    Ended(Ended),
    /// Its time ran out first.
    TimedOut,
    /// It could not be talked to or waited for.
    Failed(ProcessError),
}

/// Whether this is what a run that came to this end answers.
pub open spec fn settles(
    timeout: u64,
    end: RunEnd,
    out: Result<ProcessOutput, ProcessError>,
) -> bool {
    match end {
        RunEnd::Ended(ended) => finished(ended, out),
        RunEnd::TimedOut => out == Err::<ProcessOutput, _>(ProcessError::Timeout(timeout)),
        RunEnd::Failed(why) => out == Err::<ProcessOutput, _>(why),
    }
}

/// What a planned run comes to. One whose time ran out is reported with the time that its
/// request gave it, whatever it had written by then.
pub fn settle(plan: &ProcessPlan, end: RunEnd) -> (out: Result<ProcessOutput, ProcessError>)
    ensures
        settles(plan.timeout, end, out),
        end is TimedOut ==> out == Err::<ProcessOutput, _>(ProcessError::Timeout(plan.timeout)),
        end matches RunEnd::Ended(ended) ==> finished(ended, out),
        end matches RunEnd::Failed(why) ==> out == Err::<ProcessOutput, _>(why),
{
    match end {
        RunEnd::Ended(ended) => finish(ended),
        RunEnd::TimedOut => Err(ProcessError::Timeout(plan.timeout)),
        RunEnd::Failed(why) => Err(why),
    }
}

/// The engine's own helper.
pub const ROOSTCTL: &'static str = "roostctl";

/// Where a program shipped beside this one lies.
pub fn sibling_executable_from(executable: &str, name: &str) -> (out: Option<String>)
    ensures
        text::opt_string(out) == beside(executable@, name@),
{
    match path::parent(executable) {
        Some(dir) => Some(path::join(dir.as_str(), name)),
        None => None,
    }
}

/// Where a program shipped beside this one lies.
pub open spec fn beside(executable: Seq<char>, name: Seq<char>) -> Option<Seq<char>> {
    match path::parent_of(executable) {
        Some(dir) => Some(path::joined(dir, name)),
        None => None,
    }
}

/// Where the helper lies in an application bundle.
pub open spec fn bundled(executable: Seq<char>) -> Option<Seq<char>> {
    match path::parent_of(executable) {
        Some(dir) => match path::parent_of(dir) {
            Some(contents) => Some(
                path::joined(
                    path::joined(path::joined(contents, "Resources"@), "bin"@),
                    "roostctl"@,
                ),
            ),
            None => None,
        },
        None => None,
    }
}

/// Where the helper lies in an application bundle.
pub fn bundled_roostctl(executable: &str) -> (out: Option<String>)
    ensures
        text::opt_string(out) == bundled(executable@),
{
    match path::parent(executable) {
        Some(dir) => match path::parent(dir.as_str()) {
            Some(contents) => {
                let resources = path::join(contents.as_str(), "Resources");
                let bin = path::join(resources.as_str(), "bin");
                Some(path::join(bin.as_str(), ROOSTCTL))
            },
            None => None,
        },
        None => None,
    }
}

/// Where a name may lie along a list of directories. Those that do not start at the root mean
/// something else to every process, and are passed over.
pub open spec fn along(dirs: Seq<Seq<char>>, name: Seq<char>) -> Seq<Seq<char>>
    decreases dirs.len(),
{
    if dirs.len() == 0 {
        seq![]
    } else {
        let before = along(dirs.drop_last(), name);
        if path::absolute(dirs.last()) {
            before.push(path::joined(dirs.last(), name))
        } else {
            before
        }
    }
}

/// Where a name may lie along `PATH`, in order.
pub fn lookup_on_path(path_var: &str, name: &str) -> (out: Vec<String>)
    ensures
        text::texts(out@) == along(text::pieces(path_var@, ':'), name@),
{
    let chars = text::chars_of(path_var);
    let dirs = text::split_at_each(chars.as_slice(), ':');
    let ghost all = text::texts(dirs@);
    let mut out: Vec<String> = Vec::new();
    let mut i: usize = 0;
    assert(all.take(0) =~= seq![]);
    assert(text::texts(out@) =~= seq![]);
    while i < dirs.len()
        invariant
            i <= dirs@.len(),
            all == text::texts(dirs@),
            text::texts(out@) == along(all.take(i as int), name@),
        decreases dirs@.len() - i,
    {
        let dir = &dirs[i];
        proof {
            assert(all.take(i + 1).drop_last() =~= all.take(i as int));
            assert(all.take(i + 1).last() == dir@);
        }
        if path::is_absolute(dir.as_str()) {
            let ghost before = text::texts(out@);
            let place = path::join(dir.as_str(), name);
            out.push(place);
            assert(text::texts(out@) =~= before.push(place@));
        }
        i = i + 1;
    }
    assert(all.take(i as int) =~= all);
    out
}

/// A text, as a list of none or one.
pub open spec fn perhaps(place: Option<Seq<char>>) -> Seq<Seq<char>> {
    match place {
        Some(p) => seq![p],
        None => seq![],
    }
}

/// Where the helper is looked for, the best place first: beside the engine, in its bundle,
/// then along `PATH`.
pub open spec fn ladder(executable: Option<Seq<char>>, path_var: Option<Seq<char>>) -> Seq<
    Seq<char>,
> {
    let own = if executable is Some && path::absolute(executable->0) {
        perhaps(beside(executable->0, "roostctl"@)) + perhaps(bundled(executable->0))
    } else {
        seq![]
    };
    match path_var {
        Some(dirs) => own + along(text::pieces(dirs, ':'), "roostctl"@),
        None => own,
    }
}

fn push_place(out: &mut Vec<String>, place: Option<String>)
    ensures
        text::texts(final(out)@) == text::texts(old(out)@) + perhaps(text::opt_string(place)),
{
    match place {
        Some(p) => {
            out.push(p);
            assert(text::texts(out@) =~= text::texts(old(out)@) + seq![p@]);
        },
        None => {
            assert(text::texts(out@) =~= text::texts(old(out)@) + seq![]);
        },
    }
}

/// Where the helper is looked for, the best place first. An engine whose own path does not
/// start at the root has no place of its own.
pub fn resolve_roostctl(executable: Option<&str>, path_var: Option<&str>) -> (out: Vec<String>)
    ensures
        text::texts(out@) == ladder(text::opt(executable), text::opt(path_var)),
{
    let mut out: Vec<String> = Vec::new();
    assert(text::texts(out@) =~= seq![]);
    match executable {
        Some(exe) => {
            if path::is_absolute(exe) {
                push_place(&mut out, sibling_executable_from(exe, ROOSTCTL));
                push_place(&mut out, bundled_roostctl(exe));
            }
        },
        None => {},
    }
    let ghost own = text::texts(out@);
    match path_var {
        Some(dirs) => {
            let mut places = lookup_on_path(dirs, ROOSTCTL);
            let ghost more = text::texts(places@);
            out.append(&mut places);
            assert(text::texts(out@) =~= own + more);
        },
        None => {},
    }
    assert(text::texts(out@) =~= ladder(text::opt(executable), text::opt(path_var)));
    out
}

/// A place that holds a program, as the file system spells it: a file, at a path from the
/// root, that this user may run.
pub fn executable_file(canonical: Option<String>, is_file: bool, may_run: bool) -> (out: Option<
    String,
>)
    ensures
        out == (if canonical is Some && path::absolute(canonical->0@) && is_file && may_run {
            canonical
        } else {
            None
        }),
{
    match canonical {
        Some(place) => if path::is_absolute(place.as_str()) && is_file && may_run {
            Some(place)
        } else {
            None
        },
        None => None,
    }
}

/// The first place of a ladder that held something.
pub open spec fn first_found(found: Seq<Option<String>>) -> Option<String>
    decreases found.len(),
{
    if found.len() == 0 {
        None
    } else if found[0] is Some {
        found[0]
    } else {
        first_found(found.drop_first())
    }
}

/// The helper, from what each place of the ladder held. Every caller hands it to processes
/// that stand somewhere else, so a path that does not start at the root is no answer.
pub fn roostctl_path(found: &Vec<Option<String>>) -> (out: Option<String>)
    ensures
        ({
            let first = first_found(found@);
            text::opt_string(out) == (if first is Some && path::absolute(first->0@) {
                Some(first->0@)
            } else {
                None
            })
        }),
{
    let mut i: usize = 0;
    assert(found@.skip(0) =~= found@);
    while i < found.len()
        invariant
            i <= found@.len(),
            first_found(found@.skip(i as int)) == first_found(found@),
        decreases found@.len() - i,
    {
        assert(found@.skip(i as int)[0] == found@[i as int]);
        assert(found@.skip(i as int).drop_first() =~= found@.skip(i + 1));
        match &found[i] {
            Some(place) => {
                return if path::is_absolute(place.as_str()) {
                    Some(place.clone())
                } else {
                    None
                };
            },
            None => {},
        }
        i = i + 1;
    }
    None
}

/// The program that a tab's hooks call, settled once.
#[derive(Debug, PartialEq, Eq)]
pub struct HookBinary {
    /// What was settled, which may be that there is none.
    pub pinned: Option<Option<String>>,
}

/// Settles the program, if nothing did before. True where this call did.
pub fn set_agent_hook_binary(cell: &mut HookBinary, path: Option<String>) -> (first: bool)
    ensures
        first == (old(cell).pinned is None),
        final(cell).pinned == (if first {
            Some(path)
        } else {
            old(cell).pinned
        }),
{
    if cell.pinned.is_some() {
        return false;
    }
    cell.pinned = Some(path);
    true
}

/// The program that a tab's hooks call. Where nothing settled it yet, `found` does.
pub fn agent_hook_binary(cell: &mut HookBinary, found: Option<String>) -> (out: Option<String>)
    ensures
        final(cell).pinned == (if old(cell).pinned is None {
            Some(found)
        } else {
            old(cell).pinned
        }),
        final(cell).pinned is Some,
        text::opt_string(out) == text::opt_string(final(cell).pinned->0),
{
    let _first: bool = set_agent_hook_binary(cell, found);
    match &cell.pinned {
        Some(Some(path)) => Some(path.clone()),
        _ => None,
    }
}

/// The best place wins: what a later place holds counts only where no earlier one held
/// anything.
pub proof fn law_the_first_rung_wins(found: Seq<Option<String>>, at: int)
    requires
        0 <= at < found.len(),
        found[at] is Some,
        forall|k: int| 0 <= k < at ==> (#[trigger] found[k]) is None,
    ensures
        first_found(found) == found[at],
    decreases at,
{
    if at > 0 {
        assert(found[0] is None);
        let rest = found.drop_first();
        assert(forall|k: int| 0 <= k < rest.len() ==> rest[k] == found[k + 1]);
        law_the_first_rung_wins(rest, at - 1);
    }
}

proof fn lemma_along_absolute(dirs: Seq<Seq<char>>, name: Seq<char>)
    ensures
        forall|i: int|
            0 <= i < along(dirs, name).len() ==> path::absolute(#[trigger] along(dirs, name)[i]),
    decreases dirs.len(),
{
    if dirs.len() > 0 {
        lemma_along_absolute(dirs.drop_last(), name);
        let before = along(dirs.drop_last(), name);
        assert forall|i: int| 0 <= i < along(dirs, name).len() implies path::absolute(
            #[trigger] along(dirs, name)[i],
        ) by {
            if i < before.len() {
                assert(along(dirs, name)[i] == before[i]);
            } else {
                path::lemma_joined_absolute(dirs.last(), name);
            }
        }
    }
}

/// Nothing relative is ever looked at: every place of the ladder starts at the root, wherever
/// the engine says it lies and whatever `PATH` holds.
pub proof fn law_every_rung_starts_at_the_root(
    executable: Option<Seq<char>>,
    path_var: Option<Seq<char>>,
    i: int,
)
    requires
        0 <= i < ladder(executable, path_var).len(),
    ensures
        path::absolute(ladder(executable, path_var)[i]),
{
    if executable is Some && path::absolute(executable->0) {
        let exe = executable->0;
        path::lemma_parent_absolute(exe);
        if let Some(dir) = path::parent_of(exe) {
            path::lemma_joined_absolute(dir, "roostctl"@);
            path::lemma_parent_absolute(dir);
            if let Some(contents) = path::parent_of(dir) {
                let resources = path::joined(contents, "Resources"@);
                path::lemma_joined_absolute(contents, "Resources"@);
                path::lemma_joined_absolute(resources, "bin"@);
                path::lemma_joined_absolute(path::joined(resources, "bin"@), "roostctl"@);
            }
        }
    }
    if let Some(dirs) = path_var {
        lemma_along_absolute(text::pieces(dirs, ':'), "roostctl"@);
    }
}

/// What a run that ended answers: what it wrote where it succeeded; else its code, minus one
/// where it has none, with its complaint where it made one.
pub proof fn law_an_ended_run_says_how(ended: Ended, out: Result<ProcessOutput, ProcessError>)
    requires
        finished(ended, out),
    ensures
        out is Ok <==> ended.success,
        out matches Ok(o) ==> o.stdout@ == text::lossy_text(ended.stdout@),
        out matches Err(e) ==> (match e {
            ProcessError::Exit { code } => complaint(ended.stderr@).len() == 0 && (match ended.code {
                Some(c) => code == c,
                None => code == -1,
            }),
            ProcessError::ExitWithStderr { code, stderr_tail } => stderr_tail@ == complaint(
                ended.stderr@,
            ) && stderr_tail@.len() > 0 && (match ended.code {
                Some(c) => code == c,
                None => code == -1,
            }),
            _ => false,
        }),
{
}

/// A complaint is the last line of what was written to the error stream, without the white
/// space round it; where nothing was written, there is none.
pub proof fn law_a_complaint_is_the_last_line(stderr: Seq<u8>)
    ensures
        ({
            let lines = text::lines(text::lossy_text(stderr));
            &&& lines.len() > 0 ==> complaint(stderr) == text::trimmed(lines[lines.len() - 1])
            &&& lines.len() == 0 ==> complaint(stderr).len() == 0
        }),
{
    reveal_strlit("");
    assert(""@ =~= seq![]);
    assert(text::trimmed_start(""@) == ""@);
}

/// What each failure says.
pub proof fn law_a_failure_says_what_failed(why: String, code: i32, span: u64)
    ensures
        ProcessError::EmptyArgv.text() == "process argv is empty"@,
        ProcessError::Spawn(why).text() == "spawn process: "@ + why@,
        ProcessError::Stdin(why).text() == "write process stdin: "@ + why@,
        ProcessError::Io(why).text() == "process io error: "@ + why@,
        ProcessError::Timeout(span).text() == "process timed out after "@ + span_text(span),
        (ProcessError::Exit { code }).text() == "process exited with status "@
            + text::decimal_int(code as int),
        (ProcessError::ExitWithStderr { code, stderr_tail: why }).text() == "process exited "@
            + text::decimal_int(code as int) + ": "@ + why@,
{
}

/// Each directory of a search path is one more place to look, in its order; one that does not
/// start at the root is passed over.
pub proof fn law_each_directory_is_one_rung(dirs: Seq<Seq<char>>, dir: Seq<char>, name: Seq<char>)
    ensures
        along(seq![], name).len() == 0,
        dir.len() > 0 && dir[0] == '/' ==> along(dirs.push(dir), name) == along(dirs, name).push(
            path::joined(dir, name),
        ),
        !(dir.len() > 0 && dir[0] == '/') ==> along(dirs.push(dir), name) == along(dirs, name),
{
    assert(dirs.push(dir).drop_last() =~= dirs);
}

/// The ladder's order: beside the engine, then in its bundle, then along the search path. An
/// engine that does not say where it lies from the root has no rung of its own.
pub proof fn law_the_ladder_starts_at_the_engine(dir: Seq<char>, engine: Seq<char>, dirs: Seq<char>)
    requires
        path::absolute(dir),
        path::untrailed(dir) == dir,
        dir.len() > 1,
        path::plain_name(engine),
    ensures
        ladder(Some(dir + seq!['/'] + engine), Some(dirs)) == seq![
            path::joined(dir, "roostctl"@),
        ] + perhaps(bundled(dir + seq!['/'] + engine)) + along(
            text::pieces(dirs, ':'),
            "roostctl"@,
        ),
        path::parent_of(dir) matches Some(contents) ==> bundled(dir + seq!['/'] + engine) == Some(
            path::joined(
                path::joined(path::joined(contents, "Resources"@), "bin"@),
                "roostctl"@,
            ),
        ),
        ladder(Some(engine), Some(dirs)) == ladder(None, Some(dirs)),
        ladder(None, Some(dirs)) == along(text::pieces(dirs, ':'), "roostctl"@),
        ladder(None, None).len() == 0,
{
    path::law_a_joined_path_lies_in_its_directory(dir, engine);
    let whole = dir + seq!['/'] + engine;
    assert(whole[0] == dir[0]);
    assert(engine[0] != '/');
    assert(Seq::<Seq<char>>::empty() + along(text::pieces(dirs, ':'), "roostctl"@) =~= along(
        text::pieces(dirs, ':'),
        "roostctl"@,
    ));
}

/// What is run is what was asked for: the same words, the same environment, the same input and
/// the same time; the directory only where it is one.
pub proof fn law_a_plan_is_its_request(request: ProcessRequest, cwd_is_dir: bool, plan: ProcessPlan)
    requires
        plans(request, cwd_is_dir, plan),
    ensures
        plan.argv == request.argv,
        plan.env == request.env && plan.env_remove == request.env_remove,
        plan.stdin == request.stdin,
        plan.timeout == request.timeout,
        plan.cwd == (if cwd_is_dir {
            request.cwd
        } else {
            None
        }),
{
}

/// What a run answers is how it ended: a timeout with its time, a failure as it was, and any
/// other end as the process left it, whatever it was given to do.
pub proof fn law_a_run_answers_how_it_ended(
    timeout: u64,
    ended: Ended,
    why: ProcessError,
    out: Result<ProcessOutput, ProcessError>,
)
    ensures
        settles(timeout, RunEnd::TimedOut, out) ==> (out matches Err(ProcessError::Timeout(span))
            && span == timeout),
        settles(timeout, RunEnd::Failed(why), out) ==> (out matches Err(e) && e == why),
        settles(timeout, RunEnd::Ended(ended), out) ==> (out is Ok <==> ended.success),
{
}

} // verus!
