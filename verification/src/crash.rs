//! What a crash report says, and which file it goes to.
use crate::path;
use crate::text;
use vstd::prelude::*;

verus! {

/// How many other names are tried where a report's own is taken.
pub const MAX_COLLISION_RETRIES: u32 = 9;

/// What is known of a panic.
#[derive(Debug, PartialEq, Eq)]
pub struct PanicFacts<'a> {
    pub app_label: &'a str,
    pub version: &'a str,
    pub os: &'a str,
    pub arch: &'a str,
    pub thread: Option<&'a str>,
    pub location: Option<&'a str>,
    /// What the panic said, if it said it in words.
    pub payload: Option<&'a str>,
    pub backtrace: &'a str,
}

/// A text, or what stands in for it.
pub open spec fn or_else(value: Option<Seq<char>>, fallback: Seq<char>) -> Seq<char> {
    match value {
        Some(v) => v,
        None => fallback,
    }
}

/// What a panic said.
pub fn panic_payload(payload: Option<&str>) -> (out: String)
    ensures
        out@ == or_else(text::opt(payload), "<non-string payload>"@),
{
    match payload {
        Some(p) => p.to_owned(),
        None => "<non-string payload>".to_owned(),
    }
}

/// Where a panic arose.
pub fn panic_location(location: Option<&str>) -> (out: String)
    ensures
        out@ == or_else(text::opt(location), "unknown"@),
{
    match location {
        Some(p) => p.to_owned(),
        None => "unknown".to_owned(),
    }
}

/// A whole report: one line for each fact, and the backtrace last.
pub open spec fn report(facts: PanicFacts) -> Seq<char> {
    "app: "@ + facts.app_label@ + "\nversion: "@ + facts.version@ + "\nos: "@ + facts.os@
        + "\narch: "@ + facts.arch@ + "\nthread: "@ + or_else(
        text::opt(facts.thread),
        "<unnamed>"@,
    ) + "\nlocation: "@ + or_else(text::opt(facts.location), "unknown"@) + "\npanic: "@ + or_else(
        text::opt(facts.payload),
        "<non-string payload>"@,
    ) + "\n\nbacktrace:\n"@ + facts.backtrace@ + "\n"@
}

/// A whole report.
pub fn format_report(facts: &PanicFacts) -> (out: String)
    ensures
        out@ == report(*facts),
{
    let thread = match facts.thread {
        Some(name) => name.to_owned(),
        None => "<unnamed>".to_owned(),
    };
    let location = panic_location(facts.location);
    let payload = panic_payload(facts.payload);
    let mut out = "app: ".to_owned();
    out.append(facts.app_label);
    out.append("\nversion: ");
    out.append(facts.version);
    out.append("\nos: ");
    out.append(facts.os);
    out.append("\narch: ");
    out.append(facts.arch);
    out.append("\nthread: ");
    out.append(thread.as_str());
    out.append("\nlocation: ");
    out.append(location.as_str());
    out.append("\npanic: ");
    out.append(payload.as_str());
    out.append("\n\nbacktrace:\n");
    out.append(facts.backtrace);
    out.append("\n");
    out
}

/// The first line of what a panic said.
pub fn first_line(payload: &str) -> (out: String)
    ensures
        out@ == (if text::lines(payload@).len() > 0 {
            text::lines(payload@)[0]
        } else {
            ""@
        }),
{
    let chars = text::chars_of(payload);
    let lines = text::lines_of(chars.as_slice());
    assert(text::texts(lines@).len() == lines@.len());
    if lines.len() == 0 {
        return "".to_owned();
    }
    assert(text::texts(lines@)[0] == lines@[0]@);
    lines[0].clone()
}

/// The file a report goes to: named by the second and the process, and by a number from the
/// second try on.
pub open spec fn crash_file(log_dir: Seq<char>, now_secs: u64, pid: u32, attempt: u32) -> Seq<char> {
    let base = "crash-"@ + text::decimal(now_secs as nat) + "-"@ + text::decimal(pid as nat);
    path::joined(
        log_dir,
        if attempt == 0 {
            base + ".txt"@
        } else {
            base + "-"@ + text::decimal(attempt as nat) + ".txt"@
        },
    )
}

/// The file a report goes to.
pub fn crash_file_path(log_dir: &str, now_secs: u64, pid: u32, attempt: u32) -> (out: String)
    ensures
        out@ == crash_file(log_dir@, now_secs, pid, attempt),
{
    let mut name = text::join4(
        "crash-",
        text::decimal_u64(now_secs).as_str(),
        "-",
        text::decimal_u64(pid as u64).as_str(),
    );
    if attempt > 0 {
        name.append("-");
        name.append(text::decimal_u64(attempt as u64).as_str());
    }
    name.append(".txt");
    path::join(log_dir, name.as_str())
}

/// What came of opening a new file for a report.
#[derive(Clone, Copy, Debug, PartialEq, Eq, Structural)]
pub enum OpenOutcome {
    /// The file is new; `written` says whether all of the report is in it.
    Created { written: bool },
    AlreadyExists,
    Failed,
}

/// What to do about a report's file next.
#[derive(Clone, Copy, Debug, PartialEq, Eq, Structural)]
pub enum CrashStep {
    /// Try the file with this number.
    Try { attempt: u32 },
    Written,
    /// Remove the file again: half a report is none.
    RemoveAndGiveUp,
    GiveUp,
}

/// What to do once the file with this number was tried.
pub fn write_crash_file(attempt: u32, outcome: OpenOutcome) -> (step: CrashStep)
    requires
        attempt <= MAX_COLLISION_RETRIES,
    ensures
        step == (match outcome {
            OpenOutcome::Created { written } => if written {
                CrashStep::Written
            } else {
                CrashStep::RemoveAndGiveUp
            },
            OpenOutcome::AlreadyExists => if attempt < 9 {
                CrashStep::Try { attempt: (attempt + 1) as u32 }
            } else {
                CrashStep::GiveUp
            },
            OpenOutcome::Failed => CrashStep::GiveUp,
        }),
{
    match outcome {
        OpenOutcome::Created { written } => if written {
            CrashStep::Written
        } else {
            CrashStep::RemoveAndGiveUp
        },
        OpenOutcome::AlreadyExists => {
            let next: u32 = attempt + 1;
            if next > MAX_COLLISION_RETRIES {
                CrashStep::GiveUp
            } else {
                CrashStep::Try { attempt: next }
            }
        },
        OpenOutcome::Failed => CrashStep::GiveUp,
    }
}

/// What a report says: every fact behind its own label, in one order; where the panic gave no
/// thread, place or words, what stands in their place.
pub proof fn law_a_report_says_every_fact(facts: PanicFacts)
    ensures
        facts.thread matches Some(thread) ==> (facts.location matches Some(location) ==> (
        facts.payload matches Some(payload) ==> report(facts) == "app: "@ + facts.app_label@
            + "\nversion: "@ + facts.version@ + "\nos: "@ + facts.os@ + "\narch: "@ + facts.arch@
            + "\nthread: "@ + thread@ + "\nlocation: "@ + location@ + "\npanic: "@ + payload@
            + "\n\nbacktrace:\n"@ + facts.backtrace@ + "\n"@)),
        facts.thread is None ==> report(facts) == report(
            PanicFacts { thread: Some("<unnamed>"), ..facts },
        ),
        facts.location is None ==> report(facts) == report(
            PanicFacts { location: Some("unknown"), ..facts },
        ),
        facts.payload is None ==> report(facts) == report(
            PanicFacts { payload: Some("<non-string payload>"), ..facts },
        ),
{
}

/// Where a report goes: into the log directory, under the second and the process it happened
/// in, and under the number of the try where the name was taken.
pub proof fn law_a_report_goes_by_its_time_and_process(
    dir: Seq<char>,
    secs: u64,
    pid: u32,
    attempt: u32,
)
    ensures
        crash_file(dir, secs, pid, 0) == path::joined(
            dir,
            "crash-"@ + text::decimal(secs as nat) + "-"@ + text::decimal(pid as nat) + ".txt"@,
        ),
        attempt > 0 ==> crash_file(dir, secs, pid, attempt) == path::joined(
            dir,
            "crash-"@ + text::decimal(secs as nat) + "-"@ + text::decimal(pid as nat) + "-"@
                + text::decimal(attempt as nat) + ".txt"@,
        ),
{
}

} // verus!
