//! What a repository looks like right now: files touched, lines added, lines deleted.
use vstd::prelude::*;
use vstd::slice::slice_subrange;
use vstd::string::*;

use crate::text;
use crate::text_map::{TextMap, TextSet};

verus! {

/// Shown where there are no metrics, and where a repository is clean.
pub const UNKNOWN: &'static str = "—";

/// What one worktree looks like against its last commit.
#[derive(Debug, Clone, Copy, PartialEq, Eq, Structural)]
pub struct GitMetrics {
    /// Known files changed and untracked files.
    pub files: u64,
    pub adds: u64,
    pub dels: u64,
}

impl Default for GitMetrics {
    fn default() -> (m: GitMetrics)
        ensures
            m == clean(),
    {
        GitMetrics { files: 0, adds: 0, dels: 0 }
    }
}

/// A worktree without a change.
pub open spec fn clean() -> GitMetrics {
    GitMetrics { files: 0, adds: 0, dels: 0 }
}

impl GitMetrics {
    /// Whether nothing changed.
    pub fn is_clean(&self) -> (yes: bool)
        ensures
            yes == (*self == clean()),
    {
        self.files == 0 && self.adds == 0 && self.dels == 0
    }

    /// The metrics as they are shown.
    pub open spec fn shown(self) -> Seq<char> {
        if self == clean() {
            UNKNOWN@
        } else {
            text::decimal(self.files as nat) + "f +"@ + text::decimal(self.adds as nat) + " -"@
                + text::decimal(self.dels as nat)
        }
    }

    /// The metrics as they are shown.
    pub fn text(&self) -> (out: String)
        ensures
            out@ == self.shown(),
    {
        if self.is_clean() {
            return UNKNOWN.to_owned();
        }
        let files: String = text::decimal_u64(self.files);
        let adds: String = text::decimal_u64(self.adds);
        let dels: String = text::decimal_u64(self.dels);
        text::join5(files.as_str(), "f +", adds.as_str(), " -", dels.as_str())
    }
}

/// The most output that a command may have. Past it a count cannot be trusted.
pub const MAX_OUTPUT_BYTES: usize = 65536;

/// What git is asked.
#[derive(Debug, Clone, Copy, PartialEq, Eq, Structural)]
pub enum GitCommand {
    /// Where the repository around a directory begins.
    Root,
    /// What changed against the last commit, in one line.
    Summary,
    /// Which files git does not know, each ended by a zero byte.
    Untracked,
}

impl GitCommand {
    /// The words of a command. None of them takes a lock that a user's own git may wait for,
    /// and none runs a program that a repository names.
    pub open spec fn words(self) -> Seq<Seq<char>> {
        match self {
            GitCommand::Root => seq![
                "git"@,
                "--no-optional-locks"@,
                "rev-parse"@,
                "--show-toplevel"@,
            ],
            GitCommand::Summary => seq![
                "git"@,
                "--no-optional-locks"@,
                "diff"@,
                "--no-ext-diff"@,
                "--no-textconv"@,
                "--shortstat"@,
                "HEAD"@,
                "--"@,
            ],
            GitCommand::Untracked => seq![
                "git"@,
                "--no-optional-locks"@,
                "ls-files"@,
                "--others"@,
                "--exclude-standard"@,
                "-z"@,
            ],
        }
    }

    /// The words of a command, its program first.
    pub fn argv(self) -> (out: Vec<String>)
        ensures
            text::texts(out@) == self.words(),
    {
        let mut out: Vec<String> = vec!["git".to_owned(), "--no-optional-locks".to_owned()];
        match self {
            GitCommand::Root => {
                out.push("rev-parse".to_owned());
                out.push("--show-toplevel".to_owned());
            },
            GitCommand::Summary => {
                out.push("diff".to_owned());
                out.push("--no-ext-diff".to_owned());
                out.push("--no-textconv".to_owned());
                out.push("--shortstat".to_owned());
                out.push("HEAD".to_owned());
                out.push("--".to_owned());
            },
            GitCommand::Untracked => {
                out.push("ls-files".to_owned());
                out.push("--others".to_owned());
                out.push("--exclude-standard".to_owned());
                out.push("-z".to_owned());
            },
        }
        assert(text::texts(out@) =~= self.words());
        out
    }
}

/// Output that is short enough to be believed.
pub fn bounded_output(program: &str, stdout: Vec<u8>) -> (out: Result<Vec<u8>, String>)
    ensures
        stdout@.len() <= MAX_OUTPUT_BYTES ==> out == Ok::<_, String>(stdout),
        stdout@.len() > MAX_OUTPUT_BYTES ==> (out matches Err(e) && e@ == program@
            + " output exceeded "@ + text::decimal(MAX_OUTPUT_BYTES as nat) + " bytes"@),
{
    if stdout.len() > MAX_OUTPUT_BYTES {
        return Err(
            text::join4(
                program,
                " output exceeded ",
                text::decimal_u64(MAX_OUTPUT_BYTES as u64).as_str(),
                " bytes",
            ),
        );
    }
    Ok(stdout)
}

/// What a command reports back.
#[derive(Debug, PartialEq, Eq)]
pub struct CommandOutput {
    pub ok: bool,
    pub stdout: Vec<u8>,
}

/// One directory's result, and the repository root it is cached under. A directory outside
/// any repository has none.
#[derive(Debug, PartialEq, Eq)]
pub struct ProbeOutcome {
    pub cwd: String,
    pub root: Option<String>,
    pub value: ProbeValue,
}

/// Where a row's metrics came from.
#[derive(Debug, PartialEq, Eq)]
pub enum ProbeValue {
    /// A measurement, or the reason there is none.
    Measured(Result<GitMetrics, String>),
    /// The root was measured before; its text carries over.
    Reused(String),
}

/// `text` without one line terminator at its end.
pub open spec fn without_eol(s: Seq<char>) -> Seq<char> {
    let cut = if s.len() > 0 && s.last() == '\n' {
        s.drop_last()
    } else {
        s
    };
    if cut.len() > 0 && cut.last() == '\r' {
        cut.drop_last()
    } else {
        cut
    }
}

/// Takes off the one line terminator that a one-line answer ends in. White space that
/// belongs to the answer stays.
pub fn strip_eol(line: &str) -> (out: String)
    ensures
        out@ == without_eol(line@),
{
    let chars: Vec<char> = text::chars_of(line);
    let mut end: usize = chars.len();
    if end > 0 && chars[end - 1] == '\n' {
        end = end - 1;
    }
    if end > 0 && chars[end - 1] == '\r' {
        end = end - 1;
    }
    let body = slice_subrange(chars.as_slice(), 0, end);
    assert(body@ =~= without_eol(line@));
    text::string_of(body)
}

/// One clause of a summary line.
#[derive(Debug, PartialEq, Eq)]
pub enum Clause {
    Files(u64),
    Insertions(u64),
    Deletions(u64),
}

/// The clause that a piece of a summary line spells.
pub open spec fn clause(piece: Seq<char>) -> Option<Clause> {
    let body = text::trimmed(piece);
    let at = text::first_of(body, ' ');
    if !(0 <= at < body.len()) {
        None
    } else {
        let rest = body.skip(at + 1);
        match text::reads_u64(body.take(at)) {
            None => None,
            Some(n) => if text::begins(rest, "file"@) {
                Some(Clause::Files(n))
            } else if text::begins(rest, "insertion"@) {
                Some(Clause::Insertions(n))
            } else if text::begins(rest, "deletion"@) {
                Some(Clause::Deletions(n))
            } else {
                None
            },
        }
    }
}

fn parse_clause(piece: &str) -> (out: Option<Clause>)
    ensures
        out == clause(piece@),
{
    let chars: Vec<char> = text::chars_of(piece);
    let body = text::trim(chars.as_slice());
    let at: usize = text::position_of(body, ' ');
    if at >= body.len() {
        return None;
    }
    let count = slice_subrange(body, 0, at);
    let rest = slice_subrange(body, at + 1, body.len());
    assert(count@ =~= body@.take(at as int));
    assert(rest@ =~= body@.skip(at + 1));
    let n: u64 = match text::parse_u64(count) {
        Some(n) => n,
        None => {
            return None;
        },
    };
    let file: Vec<char> = text::chars_of("file");
    let insertion: Vec<char> = text::chars_of("insertion");
    let deletion: Vec<char> = text::chars_of("deletion");
    if text::begins_with(rest, file.as_slice()) {
        Some(Clause::Files(n))
    } else if text::begins_with(rest, insertion.as_slice()) {
        Some(Clause::Insertions(n))
    } else if text::begins_with(rest, deletion.as_slice()) {
        Some(Clause::Deletions(n))
    } else {
        None
    }
}

/// What the clauses of a line add up to, and whether one of them counts files. A piece that
/// is no clause spoils the line.
pub open spec fn tally(pieces: Seq<Seq<char>>) -> Option<(GitMetrics, bool)>
    decreases pieces.len(),
{
    if pieces.len() == 0 {
        Some((clean(), false))
    } else {
        match (tally(pieces.drop_last()), clause(pieces.last())) {
            (Some((m, saw)), Some(c)) => Some(
                match c {
                    Clause::Files(n) => (GitMetrics { files: n, ..m }, true),
                    Clause::Insertions(n) => (GitMetrics { adds: n, ..m }, saw),
                    Clause::Deletions(n) => (GitMetrics { dels: n, ..m }, saw),
                },
            ),
            _ => None,
        }
    }
}

/// The metrics that a summary line spells: clauses between commas, one of them on files.
pub open spec fn summary(line: Seq<char>) -> Option<GitMetrics> {
    match tally(text::pieces(line, ',')) {
        Some((m, true)) => Some(m),
        _ => None,
    }
}

/// A line whose first pieces are spoiled is spoiled.
proof fn lemma_tally_spoiled(pieces: Seq<Seq<char>>, n: int)
    requires
        0 <= n <= pieces.len(),
        tally(pieces.take(n)) is None,
    ensures
        tally(pieces) is None,
    decreases pieces.len() - n,
{
    if n < pieces.len() {
        assert(pieces.take(n + 1).drop_last() =~= pieces.take(n));
        lemma_tally_spoiled(pieces, n + 1);
    } else {
        assert(pieces.take(n) =~= pieces);
    }
}

/// Reads one summary line.
pub fn parse_shortstat_line(line: &str) -> (out: Option<GitMetrics>)
    ensures
        out == summary(line@),
{
    let chars: Vec<char> = text::chars_of(line);
    let pieces: Vec<String> = text::split_at_each(chars.as_slice(), ',');
    let ghost all = text::texts(pieces@);
    let mut metrics = GitMetrics { files: 0, adds: 0, dels: 0 };
    let mut saw_files: bool = false;
    let mut i: usize = 0;
    assert(all.take(0) =~= seq![]);
    while i < pieces.len()
        invariant
            i <= pieces@.len(),
            all == text::texts(pieces@),
            all == text::pieces(line@, ','),
            tally(all.take(i as int)) == Some((metrics, saw_files)),
        decreases pieces@.len() - i,
    {
        proof {
            assert(all.take(i + 1).drop_last() =~= all.take(i as int));
            assert(all.take(i + 1).last() == pieces@[i as int]@);
        }
        match parse_clause(pieces[i].as_str()) {
            Some(Clause::Files(n)) => {
                metrics.files = n;
                saw_files = true;
            },
            Some(Clause::Insertions(n)) => {
                metrics.adds = n;
            },
            Some(Clause::Deletions(n)) => {
                metrics.dels = n;
            },
            None => {
                proof {
                    lemma_tally_spoiled(all, i + 1);
                }
                return None;
            },
        }
        i = i + 1;
    }
    assert(all.take(i as int) =~= all);
    if saw_files {
        Some(metrics)
    } else {
        None
    }
}

/// The metrics of the last line that is a summary.
pub open spec fn last_summary(lines: Seq<Seq<char>>) -> Option<GitMetrics>
    decreases lines.len(),
{
    if lines.len() == 0 {
        None
    } else {
        match summary(lines.last()) {
            Some(m) => Some(m),
            None => last_summary(lines.drop_last()),
        }
    }
}

/// The metrics that a summary's output spells: none changed where it is blank, else those of
/// its last summary line.
pub open spec fn shortstat(out: Seq<char>) -> Option<GitMetrics> {
    if text::trimmed(out).len() == 0 {
        Some(clean())
    } else {
        last_summary(text::lines(out))
    }
}

/// Reads the output of a diff summary. Blank output is a clean worktree.
pub fn parse_shortstat(stdout: &str) -> (out: Result<GitMetrics, String>)
    ensures
        out is Ok <==> shortstat(stdout@) is Some,
        out matches Ok(m) ==> shortstat(stdout@) == Some(m),
        out matches Err(e) ==> e@ == "unparseable shortstat: "@ + text::debug_text(
            text::trimmed(stdout@),
        ),
{
    let chars: Vec<char> = text::chars_of(stdout);
    let body = text::trim(chars.as_slice());
    if body.len() == 0 {
        return Ok(GitMetrics { files: 0, adds: 0, dels: 0 });
    }
    let lines: Vec<String> = text::lines_of(chars.as_slice());
    let ghost all = text::texts(lines@);
    let mut n: usize = lines.len();
    assert(all.take(n as int) =~= all);
    while n > 0
        invariant
            n <= lines@.len(),
            all == text::texts(lines@),
            all == text::lines(stdout@),
            shortstat(stdout@) == last_summary(all),
            last_summary(all.take(n as int)) == last_summary(all),
        decreases n,
    {
        proof {
            assert(all.take(n as int).last() == lines@[n - 1]@);
            assert(all.take(n as int).drop_last() =~= all.take(n - 1));
        }
        match parse_shortstat_line(lines[n - 1].as_str()) {
            Some(m) => {
                return Ok(m);
            },
            None => {},
        }
        n = n - 1;
    }
    assert(all.take(0) =~= seq![]);
    let shown: String = text::string_of(body);
    let quoted: String = text::quoted(shown.as_str());
    Err(text::join2("unparseable shortstat: ", quoted.as_str()))
}

/// How many entries there are between zero bytes, empty ones not counted: one for each byte
/// that is not zero and follows none such.
pub open spec fn entries(bytes: Seq<u8>) -> nat
    decreases bytes.len(),
{
    if bytes.len() == 0 {
        0
    } else {
        let n = bytes.len() as int;
        entries(bytes.drop_last()) + (if bytes[n - 1] != 0 && (n == 1 || bytes[n - 2] == 0) {
            1nat
        } else {
            0nat
        })
    }
}

/// Counts the entries of a list that zero bytes separate.
pub fn count_untracked(stdout: &[u8]) -> (n: u64)
    ensures
        n == entries(stdout@),
        n <= stdout@.len(),
{
    let mut n: u64 = 0;
    let mut inside: bool = false;
    let mut i: usize = 0;
    assert(stdout@.take(0) =~= seq![]);
    while i < stdout.len()
        invariant
            i <= stdout@.len(),
            n == entries(stdout@.take(i as int)),
            n <= i,
            inside == (i > 0 && stdout@[i - 1] != 0),
        decreases stdout@.len() - i,
    {
        proof {
            let next = stdout@.take(i + 1);
            assert(next.drop_last() =~= stdout@.take(i as int));
            assert(next[i as int] == stdout@[i as int]);
            if i > 0 {
                assert(next[i - 1] == stdout@[i - 1]);
            }
        }
        let b: u8 = stdout[i];
        if b != 0 && !inside {
            n = n + 1;
        }
        inside = b != 0;
        i = i + 1;
    }
    assert(stdout@.take(i as int) =~= stdout@);
    n
}

/// The root that a repository query's answer names.
pub fn root_from(cwd: &str, answer: &str) -> (out: Result<String, String>)
    ensures
        out is Ok <==> without_eol(answer@).len() > 0,
        out matches Ok(root) ==> root@ == without_eol(answer@),
        out matches Err(e) ==> e@ == "empty repository root for "@ + cwd@,
{
    let root: String = strip_eol(answer);
    if root.as_str().is_empty() {
        Err(text::join2("empty repository root for ", cwd))
    } else {
        Ok(root)
    }
}

/// The repository that contains `cwd`, from what the query for it came to. A tab without a
/// directory has none, whatever was asked.
pub fn resolve_root(cwd: &str, ran: Result<CommandOutput, String>) -> (out: Result<
    String,
    String,
>)
    ensures
        cwd@.len() == 0 ==> (out matches Err(e) && e@ == "tab has no cwd"@),
        cwd@.len() > 0 ==> match ran {
            Err(e) => out == Err::<String, String>(e),
            Ok(o) => if !o.ok {
                out matches Err(e) && e@ == "not a git repository: "@ + cwd@
            } else {
                let root = without_eol(text::lossy_text(o.stdout@));
                match out {
                    Ok(r) => root.len() > 0 && r@ == root,
                    Err(e) => root.len() == 0 && e@ == "empty repository root for "@ + cwd@,
                }
            },
        },
{
    if cwd.is_empty() {
        return Err("tab has no cwd".to_owned());
    }
    match ran {
        Err(e) => Err(e),
        Ok(o) => {
            if !o.ok {
                return Err(text::join2("not a git repository: ", cwd));
            }
            let answer: String = text::utf8_lossy(o.stdout.as_slice());
            root_from(cwd, answer.as_str())
        },
    }
}

/// Changes to known files and untracked files together.
pub open spec fn combined(changed: GitMetrics, untracked: nat) -> Option<GitMetrics> {
    if changed.files + untracked <= u64::MAX {
        Some(GitMetrics { files: (changed.files + untracked) as u64, ..changed })
    } else {
        None
    }
}

/// The metrics of a root, from the text of its diff summary and the list of its untracked
/// files, where both commands succeeded.
pub fn measure(root: &str, summary: &str, untracked: &[u8]) -> (out: Result<GitMetrics, String>)
    ensures
        match shortstat(summary@) {
            None => out matches Err(e) && e@ == "unparseable shortstat: "@ + text::debug_text(
                text::trimmed(summary@),
            ),
            Some(changed) => match combined(changed, entries(untracked@)) {
                Some(m) => out == Ok::<GitMetrics, String>(m),
                None => out matches Err(e) && e@ == "implausible file count in "@ + root@,
            },
        },
        out matches Ok(m) ==> (shortstat(summary@) matches Some(changed) && m.files
            == changed.files + entries(untracked@) && m.adds == changed.adds && m.dels
            == changed.dels),
{
    let changed: GitMetrics = match parse_shortstat(summary) {
        Ok(m) => m,
        Err(e) => {
            return Err(e);
        },
    };
    let extra: u64 = count_untracked(untracked);
    match changed.files.checked_add(extra) {
        Some(files) => Ok(GitMetrics { files, adds: changed.adds, dels: changed.dels }),
        None => Err(text::join2("implausible file count in ", root)),
    }
}

/// The metrics of a root, from what the two commands came to. The diff's failure is told
/// before the other's.
pub fn metrics_for_root(
    root: &str,
    diff: Result<CommandOutput, String>,
    untracked: Result<CommandOutput, String>,
) -> (out: Result<GitMetrics, String>)
    ensures
        match diff {
            Err(e) => out == Err::<GitMetrics, String>(e),
            Ok(d) => if !d.ok {
                out matches Err(e) && e@ == "git diff HEAD failed in "@ + root@
            } else {
                let summary = text::lossy_text(d.stdout@);
                match shortstat(summary) {
                    None => out matches Err(e) && e@ == "unparseable shortstat: "@
                        + text::debug_text(text::trimmed(summary)),
                    Some(changed) => match untracked {
                        Err(e) => out == Err::<GitMetrics, String>(e),
                        Ok(u) => if !u.ok {
                            out matches Err(e) && e@ == "git ls-files failed in "@ + root@
                        } else {
                            match combined(changed, entries(u.stdout@)) {
                                Some(m) => out == Ok::<GitMetrics, String>(m),
                                None => out matches Err(e) && e@ == "implausible file count in "@
                                    + root@,
                            }
                        },
                    },
                }
            },
        },
        out matches Ok(m) ==> (untracked matches Ok(u) && m.files >= entries(u.stdout@)),
{
    let diff: CommandOutput = match diff {
        Ok(d) => d,
        Err(e) => {
            return Err(e);
        },
    };
    if !diff.ok {
        return Err(text::join2("git diff HEAD failed in ", root));
    }
    let summary: String = text::utf8_lossy(diff.stdout.as_slice());
    match parse_shortstat(summary.as_str()) {
        Err(e) => Err(e),
        Ok(_) => match untracked {
            Err(e) => Err(e),
            Ok(u) => if !u.ok {
                Err(text::join2("git ls-files failed in ", root))
            } else {
                measure(root, summary.as_str(), u.stdout.as_slice())
            },
        },
    }
}

/// The first of each text in a list, in order.
pub open spec fn firsts(list: Seq<Seq<char>>) -> Seq<Seq<char>>
    decreases list.len(),
{
    if list.len() == 0 {
        seq![]
    } else if list.drop_last().contains(list.last()) {
        firsts(list.drop_last())
    } else {
        firsts(list.drop_last()).push(list.last())
    }
}

proof fn lemma_firsts(list: Seq<Seq<char>>)
    ensures
        forall|x: Seq<char>| #[trigger] firsts(list).contains(x) <==> list.contains(x),
        forall|i: int, j: int|
            0 <= i < j < firsts(list).len() ==> #[trigger] firsts(list)[i]
                != #[trigger] firsts(list)[j],
    decreases list.len(),
{
    if list.len() > 0 {
        let init = list.drop_last();
        lemma_firsts(init);
        assert(list =~= init.push(list.last()));
        assert forall|x: Seq<char>| #[trigger] firsts(list).contains(x) <==> list.contains(x) by {
            if list.contains(x) {
                let i = choose|i: int| 0 <= i < list.len() && list[i] == x;
                if i < init.len() {
                    assert(init[i] == x);
                    assert(firsts(init).contains(x));
                    let k = choose|k: int| 0 <= k < firsts(init).len() && firsts(init)[k] == x;
                    assert(firsts(list)[k] == x);
                } else if init.contains(x) {
                    assert(firsts(init).contains(x));
                } else {
                    assert(firsts(list).last() == x);
                }
            }
            if firsts(list).contains(x) {
                let k = choose|k: int| 0 <= k < firsts(list).len() && firsts(list)[k] == x;
                if k < firsts(init).len() {
                    assert(firsts(init)[k] == x);
                    assert(firsts(init).contains(x));
                    assert(init.contains(x));
                    let i = choose|i: int| 0 <= i < init.len() && init[i] == x;
                    assert(list[i] == x);
                } else {
                    assert(list[list.len() - 1] == x);
                }
            }
        }
        assert forall|i: int, j: int| 0 <= i < j < firsts(list).len() implies #[trigger] firsts(
            list,
        )[i] != #[trigger] firsts(list)[j] by {
            if j == firsts(init).len() {
                assert(firsts(init).contains(firsts(list)[i]));
            } else {
                assert(firsts(init)[i] != firsts(init)[j]);
            }
        }
    }
}

/// Each directory is asked about once, and each root measured once: what comes out of a list
/// holds every text of it, and none twice.
pub proof fn law_nothing_is_probed_twice(list: Seq<Seq<char>>, x: Seq<char>, i: int, j: int)
    ensures
        firsts(list).contains(x) <==> list.contains(x),
        0 <= i < j < firsts(list).len() ==> firsts(list)[i] != firsts(list)[j],
{
    lemma_firsts(list);
}

fn push_first(out: &mut Vec<String>, item: &String)
    ensures
        text::texts(final(out)@) == (if text::texts(old(out)@).contains(item@) {
            text::texts(old(out)@)
        } else {
            text::texts(old(out)@).push(item@)
        }),
{
    let ghost before = text::texts(out@);
    let mut i: usize = 0;
    while i < out.len()
        invariant
            i <= out@.len(),
            out@ == old(out)@,
            before == text::texts(out@),
            forall|k: int| 0 <= k < i ==> (#[trigger] out@[k])@ != item@,
        decreases out@.len() - i,
    {
        if text::same_text(out[i].as_str(), item.as_str()) {
            assert(before[i as int] == item@);
            return;
        }
        i = i + 1;
    }
    proof {
        if before.contains(item@) {
            let k = choose|k: int| 0 <= k < before.len() && before[k] == item@;
            assert(out@[k]@ != item@);
        }
    }
    out.push(item.clone());
    assert(text::texts(out@) =~= before.push(item@));
}

/// The directories to ask about: each once, in the order they came.
pub fn unique_cwds(cwds: &Vec<String>) -> (out: Vec<String>)
    ensures
        text::texts(out@) == firsts(text::texts(cwds@)),
{
    let mut out: Vec<String> = Vec::new();
    let ghost all = text::texts(cwds@);
    let mut i: usize = 0;
    assert(all.take(0) =~= seq![]);
    assert(text::texts(out@) =~= seq![]);
    while i < cwds.len()
        invariant
            i <= cwds@.len(),
            all == text::texts(cwds@),
            text::texts(out@) == firsts(all.take(i as int)),
        decreases cwds@.len() - i,
    {
        proof {
            assert(all.take(i + 1).drop_last() =~= all.take(i as int));
            assert(all.take(i + 1).last() == cwds@[i as int]@);
            lemma_firsts(all.take(i as int));
        }
        push_first(&mut out, &cwds[i]);
        i = i + 1;
    }
    assert(all.take(i as int) =~= all);
    out
}

/// The roots that were found and not measured before, in the order they came.
pub open spec fn unmeasured(
    roots: Seq<Result<String, String>>,
    known: Map<Seq<char>, Seq<char>>,
) -> Seq<Seq<char>>
    decreases roots.len(),
{
    if roots.len() == 0 {
        seq![]
    } else {
        let before = unmeasured(roots.drop_last(), known);
        match roots.last() {
            Ok(root) => if known.dom().contains(root@) {
                before
            } else {
                before.push(root@)
            },
            Err(_) => before,
        }
    }
}

/// The roots to measure: each that was found and is not known, once.
pub fn wanted_roots(roots: &Vec<Result<String, String>>, known: &TextMap) -> (out: Vec<String>)
    requires
        known.wf(),
    ensures
        text::texts(out@) == firsts(unmeasured(roots@, known@)),
{
    let mut out: Vec<String> = Vec::new();
    let mut i: usize = 0;
    assert(roots@.take(0) =~= seq![]);
    assert(text::texts(out@) =~= seq![]);
    while i < roots.len()
        invariant
            i <= roots@.len(),
            known.wf(),
            text::texts(out@) == firsts(unmeasured(roots@.take(i as int), known@)),
        decreases roots@.len() - i,
    {
        proof {
            assert(roots@.take(i + 1).drop_last() =~= roots@.take(i as int));
            assert(roots@.take(i + 1).last() == roots@[i as int]);
            lemma_firsts(unmeasured(roots@.take(i as int), known@));
        }
        match &roots[i] {
            Ok(root) => {
                if !known.contains(root.as_str()) {
                    proof {
                        let before = unmeasured(roots@.take(i as int), known@);
                        assert(before.push(root@).drop_last() =~= before);
                    }
                    push_first(&mut out, root);
                }
            },
            Err(_) => {},
        }
        i = i + 1;
    }
    assert(roots@.take(i as int) =~= roots@);
    out
}

/// Whether `out` is what a directory's root came to: a known root's text, a measurement, or
/// the reason there is none.
pub open spec fn outcome_of(
    out: ProbeOutcome,
    cwd: Seq<char>,
    root: Result<String, String>,
    known: Map<Seq<char>, Seq<char>>,
    wanted: Seq<Seq<char>>,
    measured: Seq<Result<GitMetrics, String>>,
) -> bool {
    &&& out.cwd@ == cwd
    &&& match root {
        Err(e) => out.root is None && (out.value matches ProbeValue::Measured(Err(why)) && why@
            == e@),
        Ok(r) => {
            &&& out.root is Some
            &&& out.root->0@ == r@
            &&& if known.dom().contains(r@) {
                out.value matches ProbeValue::Reused(shown) && shown@ == known[r@]
            } else if wanted.contains(r@) {
                exists|k: int|
                    0 <= k < wanted.len() && #[trigger] wanted[k] == r@ && same_result(
                        out.value,
                        measured[k],
                    )
            } else {
                out.value matches ProbeValue::Measured(Err(why)) && why@
                    == "no probe result for "@ + r@
            }
        },
    }
}

/// Whether a value carries this measurement.
pub open spec fn same_result(value: ProbeValue, result: Result<GitMetrics, String>) -> bool {
    match (value, result) {
        (ProbeValue::Measured(Ok(a)), Ok(b)) => a == b,
        (ProbeValue::Measured(Err(a)), Err(b)) => a@ == b@,
        _ => false,
    }
}

fn outcome(
    cwd: &String,
    found: &Result<String, String>,
    known: &TextMap,
    wanted: &Vec<String>,
    measured: &Vec<Result<GitMetrics, String>>,
) -> (out: ProbeOutcome)
    requires
        known.wf(),
        wanted@.len() == measured@.len(),
    ensures
        outcome_of(out, cwd@, *found, known@, text::texts(wanted@), measured@),
{
    match found {
        Err(e) => ProbeOutcome {
            cwd: cwd.clone(),
            root: None,
            value: ProbeValue::Measured(Err(e.clone())),
        },
        Ok(root) => {
            match known.get(root.as_str()) {
                Some(shown) => ProbeOutcome {
                    cwd: cwd.clone(),
                    root: Some(root.clone()),
                    value: ProbeValue::Reused(shown.clone()),
                },
                None => {
                    let ghost names = text::texts(wanted@);
                    let mut k: usize = 0;
                    while k < wanted.len()
                        invariant
                            k <= wanted@.len(),
                            wanted@.len() == measured@.len(),
                            names == text::texts(wanted@),
                            *found matches Ok(r) && r@ == root@,
                            !known@.dom().contains(root@),
                            forall|j: int| 0 <= j < k ==> (#[trigger] wanted@[j])@ != root@,
                        decreases wanted@.len() - k,
                    {
                        if text::same_text(wanted[k].as_str(), root.as_str()) {
                            assert(names[k as int] == root@);
                            assert(names.contains(root@));
                            let value = match &measured[k] {
                                Ok(m) => ProbeValue::Measured(Ok(*m)),
                                Err(e) => ProbeValue::Measured(Err(e.clone())),
                            };
                            return ProbeOutcome {
                                cwd: cwd.clone(),
                                root: Some(root.clone()),
                                value,
                            };
                        }
                        k = k + 1;
                    }
                    proof {
                        if names.contains(root@) {
                            let j = choose|j: int| 0 <= j < names.len() && names[j] == root@;
                            assert(wanted@[j]@ != root@);
                        }
                    }
                    ProbeOutcome {
                        cwd: cwd.clone(),
                        root: Some(root.clone()),
                        value: ProbeValue::Measured(
                            Err(text::join2("no probe result for ", root.as_str())),
                        ),
                    }
                },
            }
        },
    }
}

/// One outcome per directory asked about, in order.
pub fn probe_batch(
    unique: &Vec<String>,
    roots: &Vec<Result<String, String>>,
    known: &TextMap,
    wanted: &Vec<String>,
    measured: &Vec<Result<GitMetrics, String>>,
) -> (out: Vec<ProbeOutcome>)
    requires
        known.wf(),
        unique@.len() == roots@.len(),
        wanted@.len() == measured@.len(),
    ensures
        out@.len() == unique@.len(),
        forall|i: int|
            0 <= i < out@.len() ==> outcome_of(
                #[trigger] out@[i],
                unique@[i]@,
                roots@[i],
                known@,
                text::texts(wanted@),
                measured@,
            ),
{
    let mut out: Vec<ProbeOutcome> = Vec::new();
    let mut i: usize = 0;
    while i < unique.len()
        invariant
            i <= unique@.len(),
            known.wf(),
            unique@.len() == roots@.len(),
            wanted@.len() == measured@.len(),
            out@.len() == i,
            forall|k: int|
                0 <= k < i ==> outcome_of(
                    #[trigger] out@[k],
                    unique@[k]@,
                    roots@[k],
                    known@,
                    text::texts(wanted@),
                    measured@,
                ),
        decreases unique@.len() - i,
    {
        out.push(outcome(&unique[i], &roots[i], known, wanted, measured));
        i = i + 1;
    }
    out
}

proof fn lemma_unmeasured(
    roots: Seq<Result<String, String>>,
    known: Map<Seq<char>, Seq<char>>,
    i: int,
)
    requires
        0 <= i < roots.len(),
        roots[i] is Ok,
        !known.dom().contains(roots[i]->Ok_0@),
    ensures
        unmeasured(roots, known).contains(roots[i]->Ok_0@),
    decreases roots.len(),
{
    let x = roots[i]->Ok_0@;
    let init = roots.drop_last();
    let before = unmeasured(init, known);
    if i < init.len() {
        assert(init[i] == roots[i]);
        lemma_unmeasured(init, known, i);
        let k = choose|k: int| 0 <= k < before.len() && before[k] == x;
        assert(unmeasured(roots, known)[k] == x);
    } else {
        assert(unmeasured(roots, known).last() == x);
    }
}

/// A root that was found is either known or measured in the same batch: no row is left
/// without its result.
pub proof fn law_every_found_root_has_a_result(
    roots: Seq<Result<String, String>>,
    known: Map<Seq<char>, Seq<char>>,
    i: int,
)
    requires
        0 <= i < roots.len(),
        roots[i] is Ok,
    ensures
        known.dom().contains(roots[i]->Ok_0@) || firsts(unmeasured(roots, known)).contains(
            roots[i]->Ok_0@,
        ),
{
    if !known.dom().contains(roots[i]->Ok_0@) {
        lemma_unmeasured(roots, known, i);
        lemma_firsts(unmeasured(roots, known));
    }
}

/// Whether `out` is a directory's outcome, told from what git answers alone: `root_of` gives
/// each directory's root, and `metrics_of` each root's measurement.
pub open spec fn answered(
    out: ProbeOutcome,
    cwd: Seq<char>,
    known: Map<Seq<char>, Seq<char>>,
    root_of: spec_fn(Seq<char>) -> Result<String, String>,
    metrics_of: spec_fn(Seq<char>) -> Result<GitMetrics, String>,
) -> bool {
    &&& out.cwd@ == cwd
    &&& match root_of(cwd) {
        Err(e) => out.root is None && (out.value matches ProbeValue::Measured(Err(why)) && why@
            == e@),
        Ok(root) => {
            &&& out.root is Some
            &&& out.root->0@ == root@
            &&& if known.dom().contains(root@) {
                out.value matches ProbeValue::Reused(shown) && shown@ == known[root@]
            } else {
                same_result(out.value, metrics_of(root@))
            }
        },
    }
}

/// A batch, from the directories to its outcomes. Where git is asked for the root of every
/// directory that [`unique_cwds`] names and measures every root that [`wanted_roots`] names,
/// [`probe_batch`] gives each distinct directory, in the order they came, its own root's known
/// text or that root's measurement.
pub proof fn law_a_batch_is_its_answers(
    cwds: Seq<String>,
    unique: Seq<String>,
    roots: Seq<Result<String, String>>,
    known: Map<Seq<char>, Seq<char>>,
    wanted: Seq<String>,
    measured: Seq<Result<GitMetrics, String>>,
    out: Seq<ProbeOutcome>,
    root_of: spec_fn(Seq<char>) -> Result<String, String>,
    metrics_of: spec_fn(Seq<char>) -> Result<GitMetrics, String>,
)
    requires
        text::texts(unique) == firsts(text::texts(cwds)),
        roots.len() == unique.len(),
        forall|i: int| 0 <= i < unique.len() ==> #[trigger] roots[i] == root_of(unique[i]@),
        text::texts(wanted) == firsts(unmeasured(roots, known)),
        measured.len() == wanted.len(),
        forall|k: int| 0 <= k < wanted.len() ==> #[trigger] measured[k] == metrics_of(wanted[k]@),
        out.len() == unique.len(),
        forall|i: int|
            0 <= i < out.len() ==> outcome_of(
                #[trigger] out[i],
                unique[i]@,
                roots[i],
                known,
                text::texts(wanted),
                measured,
            ),
    ensures
        out.len() == firsts(text::texts(cwds)).len(),
        forall|i: int|
            0 <= i < out.len() ==> answered(
                #[trigger] out[i],
                firsts(text::texts(cwds))[i],
                known,
                root_of,
                metrics_of,
            ),
{
    assert(text::texts(unique).len() == unique.len());
    assert forall|i: int| 0 <= i < out.len() implies answered(
        #[trigger] out[i],
        firsts(text::texts(cwds))[i],
        known,
        root_of,
        metrics_of,
    ) by {
        let cwd = unique[i]@;
        assert(text::texts(unique)[i] == cwd);
        assert(roots[i] == root_of(cwd));
        assert(outcome_of(out[i], cwd, roots[i], known, text::texts(wanted), measured));
        if roots[i] is Ok && !known.dom().contains(roots[i]->Ok_0@) {
            let names = text::texts(wanted);
            let root = roots[i]->Ok_0@;
            law_every_found_root_has_a_result(roots, known, i);
            assert(names.contains(root));
            let k = choose|k: int|
                0 <= k < names.len() && #[trigger] names[k] == root && same_result(
                    out[i].value,
                    measured[k],
                );
            assert(names[k] == wanted[k]@);
            assert(measured[k] == metrics_of(wanted[k]@));
        }
    }
}

/// A known root is never measured again, so a failing second look cannot take the place of a
/// good first one.
pub proof fn law_a_known_root_is_not_measured_again(
    roots: Seq<Result<String, String>>,
    known: Map<Seq<char>, Seq<char>>,
    root: Seq<char>,
)
    requires
        known.dom().contains(root),
    ensures
        !firsts(unmeasured(roots, known)).contains(root),
    decreases roots.len(),
{
    lemma_firsts(unmeasured(roots, known));
    if roots.len() > 0 {
        let init = roots.drop_last();
        law_a_known_root_is_not_measured_again(init, known, root);
        lemma_firsts(unmeasured(init, known));
        let now = unmeasured(roots, known);
        if now.contains(root) {
            let k = choose|k: int| 0 <= k < now.len() && now[k] == root;
            if k < unmeasured(init, known).len() {
                assert(unmeasured(init, known)[k] == root);
            }
        }
    }
}

/// What one session of rows has learned: keyed by root, so that two directories of one
/// repository share a value. Everything is dropped when the session changes.
#[derive(Debug, PartialEq, Eq)]
pub struct MetricsCache {
    pub session: u64,
    pub root_of: TextMap,
    /// Text by root. Only a real root stands here.
    pub text_of: TextMap,
    /// Directories that belong to no repository.
    pub unresolved: TextSet,
    pub pending: TextSet,
}

/// A [`MetricsCache`] by what it holds.
#[verifier::ext_equal]
pub struct CacheView {
    pub session: u64,
    pub root_of: Map<Seq<char>, Seq<char>>,
    pub text_of: Map<Seq<char>, Seq<char>>,
    pub unresolved: Set<Seq<char>>,
    pub pending: Set<Seq<char>>,
}

impl CacheView {
    /// A cache that has learned nothing.
    pub open spec fn empty(session: u64) -> CacheView {
        CacheView {
            session,
            root_of: Map::empty(),
            text_of: Map::empty(),
            unresolved: Set::empty(),
            pending: Set::empty(),
        }
    }

    /// The text of a directory's row, once it is known.
    pub open spec fn text_for(self, cwd: Seq<char>) -> Option<Seq<char>> {
        if self.unresolved.contains(cwd) {
            Some(UNKNOWN@)
        } else if self.root_of.dom().contains(cwd) && self.text_of.dom().contains(
            self.root_of[cwd],
        ) {
            Some(self.text_of[self.root_of[cwd]])
        } else {
            None
        }
    }

    /// Whether a directory still needs a probe.
    pub open spec fn unprobed(self, cwd: Seq<char>) -> bool {
        self.text_for(cwd) is None && !self.pending.contains(cwd)
    }

    /// The cache after these directories were offered.
    pub open spec fn claim(self, cwds: Seq<Seq<char>>) -> CacheView
        decreases cwds.len(),
    {
        if cwds.len() == 0 {
            self
        } else {
            let before = self.claim(cwds.drop_last());
            if before.unprobed(cwds.last()) {
                CacheView { pending: before.pending.insert(cwds.last()), ..before }
            } else {
                before
            }
        }
    }

    /// Those of the directories offered that a probe is now owed for.
    pub open spec fn claimed(self, cwds: Seq<Seq<char>>) -> Seq<Seq<char>>
        decreases cwds.len(),
    {
        if cwds.len() == 0 {
            seq![]
        } else {
            let before = self.claimed(cwds.drop_last());
            if self.claim(cwds.drop_last()).unprobed(cwds.last()) {
                before.push(cwds.last())
            } else {
                before
            }
        }
    }

    /// The cache after a probe found a root.
    pub open spec fn store_root(
        self,
        cwd: Seq<char>,
        root: Seq<char>,
        shown: Seq<char>,
    ) -> CacheView {
        CacheView {
            pending: self.pending.remove(cwd),
            root_of: self.root_of.insert(cwd, root),
            text_of: if self.text_of.dom().contains(root) {
                self.text_of
            } else {
                self.text_of.insert(root, shown)
            },
            ..self
        }
    }

    /// The cache after a probe found no repository.
    pub open spec fn store_unresolved(self, cwd: Seq<char>) -> CacheView {
        CacheView {
            pending: self.pending.remove(cwd),
            unresolved: self.unresolved.insert(cwd),
            ..self
        }
    }
}

impl View for MetricsCache {
    type V = CacheView;

    open spec fn view(&self) -> CacheView {
        CacheView {
            session: self.session,
            root_of: self.root_of@,
            text_of: self.text_of@,
            unresolved: self.unresolved@,
            pending: self.pending@,
        }
    }
}

impl Default for MetricsCache {
    fn default() -> (cache: MetricsCache)
        ensures
            cache.wf(),
            cache@ == CacheView::empty(0),
    {
        MetricsCache {
            session: 0,
            root_of: TextMap::new(),
            text_of: TextMap::new(),
            unresolved: TextSet::new(),
            pending: TextSet::new(),
        }
    }
}

impl MetricsCache {
    pub open spec fn wf(self) -> bool {
        self.root_of.wf() && self.text_of.wf() && self.unresolved.wf() && self.pending.wf()
    }

    /// Binds the cache to a session; a session other than its own finds it empty.
    pub fn begin_session(&mut self, session: u64)
        requires
            old(self).wf(),
        ensures
            final(self).wf(),
            final(self)@ == (if old(self).session == session {
                old(self)@
            } else {
                CacheView::empty(session)
            }),
    {
        if self.session == session {
            return;
        }
        self.session = session;
        self.root_of = TextMap::new();
        self.text_of = TextMap::new();
        self.unresolved = TextSet::new();
        self.pending = TextSet::new();
    }

    pub fn session(&self) -> (session: u64)
        ensures
            session == self.session,
    {
        self.session
    }

    /// The text of a directory's row as of `session`, once it is known. Any other session
    /// is told nothing.
    pub fn text_for_session(&self, session: u64, cwd: &str) -> (out: Option<&str>)
        requires
            self.wf(),
        ensures
            out is Some <==> session == self.session && self@.text_for(cwd@) is Some,
            out matches Some(shown) ==> self@.text_for(cwd@) == Some(shown@),
    {
        if self.session != session {
            return None;
        }
        self.text_for(cwd)
    }

    fn text_for(&self, cwd: &str) -> (out: Option<&str>)
        requires
            self.wf(),
        ensures
            out is Some <==> self@.text_for(cwd@) is Some,
            out matches Some(shown) ==> self@.text_for(cwd@) == Some(shown@),
    {
        if self.unresolved.contains(cwd) {
            return Some(UNKNOWN);
        }
        match self.root_of.get(cwd) {
            None => None,
            Some(root) => match self.text_of.get(root.as_str()) {
                None => None,
                Some(shown) => Some(shown.as_str()),
            },
        }
    }

    /// The roots measured in this session, with their texts.
    pub fn known_roots(&self) -> (out: TextMap)
        requires
            self.wf(),
        ensures
            out.wf(),
            out@ == self@.text_of,
    {
        self.text_of.copy()
    }

    /// The directories that still need a probe, each once, marked as in flight.
    pub fn claim_unprobed(&mut self, cwds: Vec<String>) -> (out: Vec<String>)
        requires
            old(self).wf(),
        ensures
            final(self).wf(),
            final(self)@ == old(self)@.claim(text::texts(cwds@)),
            text::texts(out@) == old(self)@.claimed(text::texts(cwds@)),
    {
        let mut out: Vec<String> = Vec::new();
        let ghost all = text::texts(cwds@);
        let mut i: usize = 0;
        assert(all.take(0) =~= seq![]);
        assert(text::texts(out@) =~= seq![]);
        while i < cwds.len()
            invariant
                i <= cwds@.len(),
                all == text::texts(cwds@),
                self.wf(),
                self@ == old(self)@.claim(all.take(i as int)),
                text::texts(out@) == old(self)@.claimed(all.take(i as int)),
            decreases cwds@.len() - i,
        {
            let cwd = &cwds[i];
            let ghost before = text::texts(out@);
            proof {
                assert(all.take(i + 1).drop_last() =~= all.take(i as int));
                assert(all.take(i + 1).last() == cwd@);
            }
            if self.text_for(cwd.as_str()).is_none() && !self.pending.contains(cwd.as_str()) {
                self.pending.insert(cwd.clone());
                out.push(cwd.clone());
                assert(text::texts(out@) =~= before.push(cwd@));
            }
            i = i + 1;
        }
        assert(all.take(i as int) =~= all);
        out
    }

    /// Records a probe that found a root. The first text of a root stays.
    pub fn store_root(&mut self, cwd: &str, root: &str, shown: String)
        requires
            old(self).wf(),
        ensures
            final(self).wf(),
            final(self)@ == old(self)@.store_root(cwd@, root@, shown@),
    {
        self.pending.remove(cwd);
        self.root_of.insert(cwd.to_owned(), root.to_owned());
        self.text_of.insert_if_absent(root.to_owned(), shown);
    }

    /// Records a directory that belongs to no repository.
    pub fn store_unresolved(&mut self, cwd: &str)
        requires
            old(self).wf(),
        ensures
            final(self).wf(),
            final(self)@ == old(self)@.store_unresolved(cwd@),
    {
        self.pending.remove(cwd);
        self.unresolved.insert(cwd.to_owned());
    }
}

/// The first text of a root stays: a later result for it changes neither what it shows nor
/// what any other directory of the repository shows.
pub proof fn law_the_first_text_of_a_root_stays(
    cache: CacheView,
    first: Seq<char>,
    second: Seq<char>,
    root: Seq<char>,
    shown: Seq<char>,
    later: Seq<char>,
)
    requires
        !cache.text_of.dom().contains(root),
        !cache.unresolved.contains(first),
        !cache.unresolved.contains(second),
    ensures
        cache.store_root(first, root, shown).text_for(first) == Some(shown),
        cache.store_root(first, root, shown).store_root(second, root, later).text_for(first)
            == Some(shown),
        cache.store_root(first, root, shown).store_root(second, root, later).text_for(second)
            == Some(shown),
{
}

/// A directory is handed out once: right after it was claimed, and once its result is in,
/// offering it again claims nothing.
pub proof fn law_a_directory_is_claimed_once(
    cache: CacheView,
    cwd: Seq<char>,
    root: Seq<char>,
    shown: Seq<char>,
)
    ensures
        cache.claim(seq![cwd]).claimed(seq![cwd]) == Seq::<Seq<char>>::empty(),
        cache.store_root(cwd, root, shown).claimed(seq![cwd]) == Seq::<Seq<char>>::empty(),
        cache.store_unresolved(cwd).claimed(seq![cwd]) == Seq::<Seq<char>>::empty(),
        cache.unprobed(cwd) ==> cache.claimed(seq![cwd]) == seq![cwd],
{
    reveal_with_fuel(CacheView::claim, 2);
    reveal_with_fuel(CacheView::claimed, 2);
    assert(seq![cwd].drop_last() =~= seq![]);
    assert(seq![cwd].last() == cwd);
    if cache.unprobed(cwd) {
        assert(cache.claimed(seq![cwd]) =~= seq![cwd]);
    }
}

/// One offer claims no directory twice, and none that was known or in flight; every directory
/// it claims is in flight afterwards.
pub proof fn law_an_offer_claims_no_directory_twice(cache: CacheView, cwds: Seq<Seq<char>>)
    ensures
        forall|i: int, j: int|
            0 <= i < j < cache.claimed(cwds).len() ==> #[trigger] cache.claimed(cwds)[i]
                != #[trigger] cache.claimed(cwds)[j],
        forall|i: int|
            0 <= i < cache.claimed(cwds).len() ==> cache.unprobed(
                #[trigger] cache.claimed(cwds)[i],
            ) && cache.claim(cwds).pending.contains(cache.claimed(cwds)[i]),
        cache.pending.subset_of(cache.claim(cwds).pending),
        cache.claim(cwds) == (CacheView { pending: cache.claim(cwds).pending, ..cache }),
    decreases cwds.len(),
{
    if cwds.len() > 0 {
        let init = cwds.drop_last();
        law_an_offer_claims_no_directory_twice(cache, init);
        let before = cache.claim(init);
        let fresh = cwds.last();
        assert(before.text_for(fresh) == cache.text_for(fresh));
        if before.unprobed(fresh) {
            let held = cache.claimed(init);
            assert(cache.claimed(cwds) == held.push(fresh));
            assert forall|i: int, j: int| 0 <= i < j < cache.claimed(cwds).len() implies
                #[trigger] cache.claimed(cwds)[i] != #[trigger] cache.claimed(cwds)[j] by {
                assert(before.pending.contains(held[i]));
                if j < held.len() {
                    assert(held[i] != held[j]);
                }
            }
            assert forall|i: int| 0 <= i < cache.claimed(cwds).len() implies cache.unprobed(
                #[trigger] cache.claimed(cwds)[i],
            ) && cache.claim(cwds).pending.contains(cache.claimed(cwds)[i]) by {
                if i < held.len() {
                    assert(cache.unprobed(held[i]));
                }
            }
        }
    }
}

/// A directory without a repository shows the dash and takes no root for itself.
pub proof fn law_no_repository_claims_no_root(cache: CacheView, cwd: Seq<char>)
    ensures
        cache.store_unresolved(cwd).text_for(cwd) == Some(UNKNOWN@),
        cache.store_unresolved(cwd).text_of == cache.text_of,
        !cache.store_unresolved(cwd).pending.contains(cwd),
{
}

/// What a measurement counts: its files are the summary's files and every untracked one beside
/// them, and its lines are the summary's. So a worktree with an untracked file is never measured
/// clean, and one without is measured as its summary says. Only a count that no number holds is
/// no measurement.
pub proof fn law_untracked_files_count_as_touched(changed: GitMetrics, untracked: nat)
    ensures
        combined(changed, untracked) is Some <==> changed.files + untracked <= u64::MAX,
        combined(changed, untracked) matches Some(m) ==> m.files == changed.files + untracked
            && m.adds == changed.adds && m.dels == changed.dels,
        combined(changed, untracked) matches Some(m) ==> (untracked > 0 ==> m != clean()),
        combined(changed, 0) == Some(changed),
{
}

/// What the list of untracked files counts: an entry is a run of bytes up to the next zero byte,
/// each counts once, an empty one not at all, and the last need not be ended.
pub proof fn law_each_entry_counts_once(entry: Seq<u8>, rest: Seq<u8>)
    requires
        entry.len() > 0,
        forall|i: int| 0 <= i < entry.len() ==> #[trigger] entry[i] != 0,
    ensures
        entries(seq![]) == 0,
        entries(entry) == 1,
        entries(entry + seq![0u8] + rest) == 1 + entries(rest),
        entries(seq![0u8] + rest) == entries(rest),
{
    lemma_one_entry(entry);
    let ended = entry + seq![0u8];
    assert(ended.drop_last() =~= entry);
    assert(entries(ended) == 1);
    lemma_entries_behind_zero(ended, rest);
    let zero = seq![0u8];
    assert(zero.drop_last() =~= seq![]);
    assert(entries(zero) == 0) by {
        reveal_with_fuel(entries, 2);
    }
    lemma_entries_behind_zero(zero, rest);
}

proof fn lemma_one_entry(entry: Seq<u8>)
    requires
        entry.len() > 0,
        forall|i: int| 0 <= i < entry.len() ==> #[trigger] entry[i] != 0,
    ensures
        entries(entry) == 1,
    decreases entry.len(),
{
    let init = entry.drop_last();
    let n = entry.len() as int;
    assert(entry[n - 1] != 0);
    if n > 1 {
        assert(entry[n - 2] != 0);
        lemma_one_entry(init);
    } else {
        assert(init =~= seq![]);
        assert(entries(init) == 0);
    }
}

proof fn lemma_entries_behind_zero(head: Seq<u8>, rest: Seq<u8>)
    requires
        head.len() > 0,
        head.last() == 0,
    ensures
        entries(head + rest) == entries(head) + entries(rest),
    decreases rest.len(),
{
    if rest.len() == 0 {
        assert(head + rest =~= head);
    } else {
        let init = rest.drop_last();
        lemma_entries_behind_zero(head, init);
        let all = head + rest;
        let n = all.len() as int;
        assert(all.drop_last() =~= head + init);
        assert(all[n - 1] == rest[rest.len() - 1]);
        if rest.len() > 1 {
            assert(all[n - 2] == rest[rest.len() - 2]);
        } else {
            assert(all[n - 2] == head.last());
        }
    }
}

/// What a clause says: its count is the number before its first space, and the word behind it
/// tells files, insertions and deletions apart. Without a space, a number or one of the words it
/// is none.
pub proof fn law_a_clause_counts_by_its_word(piece: Seq<char>, count: Seq<char>, rest: Seq<char>)
    requires
        text::trimmed(piece) == count + seq![' '] + rest,
        forall|i: int| 0 <= i < count.len() ==> #[trigger] count[i] != ' ',
    ensures
        text::reads_u64(count) is None ==> clause(piece) is None,
        text::reads_u64(count) matches Some(n) ==> {
            &&& text::begins(rest, "file"@) ==> clause(piece) == Some(Clause::Files(n))
            &&& text::begins(rest, "insertion"@) ==> clause(piece) == Some(Clause::Insertions(n))
            &&& text::begins(rest, "deletion"@) ==> clause(piece) == Some(Clause::Deletions(n))
            &&& !text::begins(rest, "file"@) && !text::begins(rest, "insertion"@)
                && !text::begins(rest, "deletion"@) ==> clause(piece) is None
        },
{
    let body = text::trimmed(piece);
    text::law_the_first_of_a_character(count, ' ', rest);
    let at = text::first_of(body, ' ');
    assert(body.take(at) =~= count);
    assert(body.skip(at + 1) =~= rest);
    reveal_strlit("file");
    reveal_strlit("insertion");
    reveal_strlit("deletion");
    if text::begins(rest, "insertion"@) && rest.len() > 0 {
        assert(rest.take("insertion"@.len() as int)[0] == rest[0]);
    }
    if text::begins(rest, "deletion"@) && rest.len() > 0 {
        assert(rest.take("deletion"@.len() as int)[0] == rest[0]);
    }
    if text::begins(rest, "file"@) && rest.len() > 0 {
        assert(rest.take("file"@.len() as int)[0] == rest[0]);
    }
}

/// What a summary line adds up to: each count is that of the last clause of its kind and zero
/// where there is none; a line is a summary exactly where every piece is a clause and one of
/// them counts files.
pub proof fn law_a_summary_takes_each_clause(pieces: Seq<Seq<char>>, k: int)
    ensures
        tally(pieces) is Some <==> forall|i: int|
            0 <= i < pieces.len() ==> clause(#[trigger] pieces[i]) is Some,
        tally(pieces) matches Some((m, saw)) ==> {
            &&& saw <==> exists|i: int|
                0 <= i < pieces.len() && (clause(#[trigger] pieces[i]) matches Some(
                    Clause::Files(_),
                ))
            &&& 0 <= k < pieces.len() && (forall|j: int|
                k < j < pieces.len() ==> !(clause(#[trigger] pieces[j]) matches Some(
                    Clause::Files(_),
                ))) ==> (clause(pieces[k]) matches Some(Clause::Files(n)) ==> m.files == n)
            &&& 0 <= k < pieces.len() && (forall|j: int|
                k < j < pieces.len() ==> !(clause(#[trigger] pieces[j]) matches Some(
                    Clause::Insertions(_),
                ))) ==> (clause(pieces[k]) matches Some(Clause::Insertions(n)) ==> m.adds == n)
            &&& 0 <= k < pieces.len() && (forall|j: int|
                k < j < pieces.len() ==> !(clause(#[trigger] pieces[j]) matches Some(
                    Clause::Deletions(_),
                ))) ==> (clause(pieces[k]) matches Some(Clause::Deletions(n)) ==> m.dels == n)
            &&& (forall|j: int|
                0 <= j < pieces.len() ==> !(clause(#[trigger] pieces[j]) matches Some(
                    Clause::Files(_),
                ))) ==> m.files == 0
            &&& (forall|j: int|
                0 <= j < pieces.len() ==> !(clause(#[trigger] pieces[j]) matches Some(
                    Clause::Insertions(_),
                ))) ==> m.adds == 0
            &&& (forall|j: int|
                0 <= j < pieces.len() ==> !(clause(#[trigger] pieces[j]) matches Some(
                    Clause::Deletions(_),
                ))) ==> m.dels == 0
        },
    decreases pieces.len(),
{
    if pieces.len() > 0 {
        let init = pieces.drop_last();
        law_a_summary_takes_each_clause(init, k);
        assert(pieces[pieces.len() - 1] == pieces.last());
        assert(forall|i: int| 0 <= i < init.len() ==> #[trigger] init[i] == pieces[i]);
        assert(forall|i: int| 0 <= i < init.len() ==> init[i] == #[trigger] pieces[i]);
        if tally(pieces) is None && (forall|i: int|
            0 <= i < pieces.len() ==> clause(#[trigger] pieces[i]) is Some) {
            assert(forall|i: int| 0 <= i < init.len() ==> clause(#[trigger] init[i]) is Some);
        }
        if let Some((m, saw)) = tally(init) {
            if saw {
                let i = choose|i: int|
                    0 <= i < init.len() && (clause(#[trigger] init[i]) matches Some(
                        Clause::Files(_),
                    ));
                assert(clause(pieces[i]) matches Some(Clause::Files(_)));
            }
        }
    }
}

/// A line is a summary where its clauses between commas are and one counts files, and reads as
/// they add up; of an output's lines the last summary is taken, and a blank output is a clean
/// worktree.
pub proof fn law_the_last_summary_is_read(lines: Seq<Seq<char>>, k: int, out: Seq<char>)
    ensures
        0 <= k < lines.len() && summary(lines[k]) is Some && (forall|j: int|
            k < j < lines.len() ==> summary(#[trigger] lines[j]) is None) ==> last_summary(lines)
            == summary(lines[k]),
        (forall|j: int| 0 <= j < lines.len() ==> summary(#[trigger] lines[j]) is None)
            ==> last_summary(lines) is None,
        text::trimmed(out).len() == 0 ==> shortstat(out) == Some(
            GitMetrics { files: 0, adds: 0, dels: 0 },
        ),
        text::trimmed(out).len() > 0 ==> shortstat(out) == last_summary(text::lines(out)),
    decreases lines.len(),
{
    if lines.len() > 0 {
        let init = lines.drop_last();
        law_the_last_summary_is_read(init, k, out);
        assert(lines.last() == lines[lines.len() - 1]);
        assert(forall|j: int| 0 <= j < init.len() ==> #[trigger] init[j] == lines[j]);
        if 0 <= k < init.len() {
            assert(init[k] == lines[k]);
        }
    }
}

/// A one-line answer loses its line end and nothing else: neither a line end within it nor white
/// space at its end.
pub proof fn law_an_answer_loses_its_line_end(answer: Seq<char>)
    requires
        answer.len() > 0 ==> answer.last() != '\n' && answer.last() != '\r',
    ensures
        without_eol(answer) == answer,
        without_eol(answer + seq!['\n']) == answer,
        without_eol(answer + seq!['\r', '\n']) == answer,
        without_eol(answer + seq!['\n', '\n']) == answer + seq!['\n'],
{
    assert((answer + seq!['\n']).drop_last() =~= answer);
    assert((answer + seq!['\r', '\n']).drop_last() =~= answer + seq!['\r']);
    assert((answer + seq!['\r']).drop_last() =~= answer);
    assert((answer + seq!['\n', '\n']).drop_last() =~= answer + seq!['\n']);
}

/// Directories are asked about in the order they came: one more at the end of a list comes last,
/// or not at all where it came before.
pub proof fn law_first_come_first_asked(list: Seq<Seq<char>>, next: Seq<char>)
    ensures
        firsts(seq![]).len() == 0,
        list.contains(next) ==> firsts(list.push(next)) == firsts(list),
        !list.contains(next) ==> firsts(list.push(next)) == firsts(list).push(next),
{
    assert(list.push(next).drop_last() =~= list);
}

/// The roots to measure are those that were found and are not known, in the order they came.
pub proof fn law_unknown_roots_are_wanted(
    roots: Seq<Result<String, String>>,
    known: Map<Seq<char>, Seq<char>>,
    next: Result<String, String>,
)
    ensures
        unmeasured(seq![], known).len() == 0,
        next is Err ==> unmeasured(roots.push(next), known) == unmeasured(roots, known),
        next matches Ok(root) ==> unmeasured(roots.push(next), known) == (if known.dom().contains(
            root@,
        ) {
            unmeasured(roots, known)
        } else {
            unmeasured(roots, known).push(root@)
        }),
{
    assert(roots.push(next).drop_last() =~= roots);
}

/// A value carries a measurement where it is that measurement: the same numbers, or the same
/// reason that there are none.
pub proof fn law_a_value_is_its_measurement(a: GitMetrics, b: GitMetrics, why: String, other: String)
    ensures
        same_result(ProbeValue::Measured(Ok(a)), Ok(b)) <==> a == b,
        same_result(ProbeValue::Measured(Err(why)), Err(other)) <==> why@ == other@,
        !same_result(ProbeValue::Measured(Ok(a)), Err(other)),
        !same_result(ProbeValue::Measured(Err(why)), Ok(b)),
        !same_result(ProbeValue::Reused(why), Ok(b)),
        !same_result(ProbeValue::Reused(why), Err(other)),
{
}

/// What a result changes: the directory it is for shows its root's text, the dash where it has
/// no root, and is no longer in flight; every directory that showed something before still
/// shows the same, and no other is taken out of flight.
pub proof fn law_a_result_is_its_directorys(
    cache: CacheView,
    cwd: Seq<char>,
    root: Seq<char>,
    shown: Seq<char>,
    other: Seq<char>,
)
    requires
        other != cwd,
    ensures
        !cache.unresolved.contains(cwd) ==> cache.store_root(cwd, root, shown).text_for(cwd)
            == Some(
            if cache.text_of.dom().contains(root) {
                cache.text_of[root]
            } else {
                shown
            },
        ),
        cache.store_unresolved(cwd).text_for(cwd) == Some(UNKNOWN@),
        !cache.store_root(cwd, root, shown).pending.contains(cwd),
        !cache.store_unresolved(cwd).pending.contains(cwd),
        cache.text_for(other) is Some ==> cache.store_root(cwd, root, shown).text_for(other)
            == cache.text_for(other),
        cache.store_unresolved(cwd).text_for(other) == cache.text_for(other),
        cache.store_root(cwd, root, shown).pending.contains(other) == cache.pending.contains(
            other,
        ),
        cache.store_unresolved(cwd).pending.contains(other) == cache.pending.contains(other),
        cache.store_root(cwd, root, shown).session == cache.session,
        cache.store_unresolved(cwd).session == cache.session,
        cache.store_root(cwd, root, shown).unresolved == cache.unresolved,
        cache.store_unresolved(cwd).root_of == cache.root_of,
{
}

/// Every directory that still needs a probe and is offered is claimed; a new session knows
/// nothing and has nothing in flight.
pub proof fn law_every_unprobed_directory_is_claimed(
    cache: CacheView,
    cwds: Seq<Seq<char>>,
    cwd: Seq<char>,
    session: u64,
)
    ensures
        cwds.contains(cwd) && cache.text_for(cwd) is None && !cache.pending.contains(cwd)
            ==> cache.claimed(cwds).contains(cwd),
        cache.claimed(cwds).contains(cwd) ==> cwds.contains(cwd),
        CacheView::empty(session).text_for(cwd) is None,
        !CacheView::empty(session).pending.contains(cwd),
        CacheView::empty(session).session == session,
    decreases cwds.len(),
{
    if cwds.len() > 0 {
        let init = cwds.drop_last();
        law_every_unprobed_directory_is_claimed(cache, init, cwd, session);
        law_an_offer_claims_no_directory_twice(cache, init);
        lemma_in_flight_is_claimed(cache, init, cwd);
        let was = cache.claimed(init);
        let now = cache.claimed(cwds);
        let before = cache.claim(init);
        assert(before.text_for(cwd) == cache.text_for(cwd));
        if was.contains(cwd) {
            let i = choose|i: int| 0 <= i < was.len() && was[i] == cwd;
            assert(now[i] == cwd);
        }
        if cwds.contains(cwd) {
            let i = choose|i: int| 0 <= i < cwds.len() && cwds[i] == cwd;
            if i < init.len() {
                assert(init[i] == cwd);
            } else if before.unprobed(cwd) {
                assert(now.last() == cwd);
            }
        }
        if now.contains(cwd) {
            let i = choose|i: int| 0 <= i < now.len() && now[i] == cwd;
            if i < was.len() {
                assert(was[i] == cwd);
                let j = choose|j: int| 0 <= j < init.len() && init[j] == cwd;
                assert(cwds[j] == cwd);
            } else {
                assert(cwds[cwds.len() - 1] == cwd);
            }
        }
    }
}

/// What an offer put in flight, it claimed.
proof fn lemma_in_flight_is_claimed(cache: CacheView, cwds: Seq<Seq<char>>, cwd: Seq<char>)
    ensures
        cache.claim(cwds).pending.contains(cwd) && !cache.pending.contains(cwd) ==> cache.claimed(
            cwds,
        ).contains(cwd),
    decreases cwds.len(),
{
    if cwds.len() > 0 {
        let init = cwds.drop_last();
        lemma_in_flight_is_claimed(cache, init, cwd);
        let was = cache.claimed(init);
        let now = cache.claimed(cwds);
        if was.contains(cwd) {
            let i = choose|i: int| 0 <= i < was.len() && was[i] == cwd;
            assert(now[i] == cwd);
        }
        if cache.claim(init).unprobed(cwds.last()) {
            assert(now[now.len() - 1] == cwds.last());
        }
    }
}

/// How metrics are shown: a clean worktree as the dash, any other by its files, its additions
/// and its deletions, in that order.
pub proof fn law_metrics_are_shown_in_order(m: GitMetrics)
    ensures
        m.files == 0 && m.adds == 0 && m.dels == 0 ==> m.shown() == UNKNOWN@,
        m.files > 0 || m.adds > 0 || m.dels > 0 ==> m.shown() == text::decimal(m.files as nat)
            + "f +"@ + text::decimal(m.adds as nat) + " -"@ + text::decimal(m.dels as nat),
{
}

/// What git is asked: never with a lock that a user's own git may wait for, never with a program
/// that a repository names; and each question with the options that its answer is read by.
pub proof fn law_git_is_asked_without_side_effects(command: GitCommand)
    ensures
        command.words()[0] == "git"@,
        command.words()[1] == "--no-optional-locks"@,
        GitCommand::Root.words() == seq![
            "git"@,
            "--no-optional-locks"@,
            "rev-parse"@,
            "--show-toplevel"@,
        ],
        GitCommand::Summary.words().contains("--shortstat"@),
        GitCommand::Summary.words().contains("--no-ext-diff"@),
        GitCommand::Summary.words().contains("--no-textconv"@),
        GitCommand::Summary.words()[2] == "diff"@,
        GitCommand::Summary.words()[6] == "HEAD"@,
        GitCommand::Summary.words().last() == "--"@,
        GitCommand::Summary.words().len() == 8,
        GitCommand::Untracked.words()[2] == "ls-files"@,
        GitCommand::Untracked.words().contains("--others"@),
        GitCommand::Untracked.words().contains("--exclude-standard"@),
        GitCommand::Untracked.words().contains("-z"@),
        GitCommand::Untracked.words().len() == 6,
{
    let summary = GitCommand::Summary.words();
    assert(summary[3] == "--no-ext-diff"@);
    assert(summary[4] == "--no-textconv"@);
    assert(summary[5] == "--shortstat"@);
    let untracked = GitCommand::Untracked.words();
    assert(untracked[3] == "--others"@);
    assert(untracked[4] == "--exclude-standard"@);
    assert(untracked[5] == "-z"@);
}

/// A line is a summary where every piece between its commas is a clause and one of them counts
/// files; its numbers are theirs.
pub proof fn law_a_summary_counts_files(line: Seq<char>)
    ensures
        tally(text::pieces(line, ',')) matches Some((m, saw)) ==> (if saw {
            summary(line) == Some(m)
        } else {
            summary(line) is None
        }),
        tally(text::pieces(line, ',')) is None ==> summary(line) is None,
{
}

/// Whether words can follow the count of a clause.
pub open spec fn clause_words(words: Seq<char>, first: Seq<char>) -> bool {
    &&& text::begins(words, first)
    &&& words.len() > 0
    &&& !text::is_white(words.last())
    &&& forall|i: int| 0 <= i < words.len() ==> #[trigger] words[i] != ','
}

/// A count and its words, as a clause of a summary stands between commas.
pub open spec fn clause_text(n: u64, words: Seq<char>) -> Seq<char> {
    seq![' '] + (text::decimal(n as nat) + seq![' '] + words)
}

proof fn lemma_clause_text(n: u64, words: Seq<char>, first: Seq<char>)
    requires
        clause_words(words, first),
    ensures
        text::trimmed(clause_text(n, words)) == text::decimal(n as nat) + seq![' '] + words,
        forall|i: int| 0 <= i < text::decimal(n as nat).len() ==> #[trigger] text::decimal(
            n as nat,
        )[i] != ' ',
        text::reads_u64(text::decimal(n as nat)) == Some(n),
        forall|i: int|
            0 <= i < clause_text(n, words).len() ==> #[trigger] clause_text(n, words)[i] != ',',
{
    let count = text::decimal(n as nat);
    text::law_a_decimal_reads_back(n as nat);
    let body = count + seq![' '] + words;
    assert(text::is_digit(count[0]));
    assert(body[0] == count[0]);
    assert(body.last() == words.last());
    let before = seq![' '];
    text::law_a_trim_takes_what_surrounds(before, body, seq![]);
    assert(before + body + Seq::<char>::empty() =~= before + body);
    assert forall|i: int| 0 <= i < count.len() implies #[trigger] count[i] != ' ' by {
        assert(text::is_digit(count[i]));
    }
    let all = clause_text(n, words);
    assert forall|i: int| 0 <= i < all.len() implies #[trigger] all[i] != ',' by {
        if i == 0 {
        } else if i <= count.len() {
            assert(all[i] == count[i - 1]);
            assert(text::is_digit(count[i - 1]));
        } else if i > count.len() + 1 {
            assert(all[i] == words[i - count.len() - 2]);
        }
    }
}

/// What git says of a diff reads back: its files, its insertions and its deletions each as the
/// number it gave, and nothing where it gave none.
pub proof fn law_gits_own_words_read_back(
    files: u64,
    adds: u64,
    dels: u64,
    file_words: Seq<char>,
    add_words: Seq<char>,
    del_words: Seq<char>,
)
    requires
        clause_words(file_words, "file"@),
        clause_words(add_words, "insertion"@),
        clause_words(del_words, "deletion"@),
    ensures
        ({
            let f = clause_text(files, file_words);
            let a = clause_text(adds, add_words);
            let d = clause_text(dels, del_words);
            &&& summary(f) == Some(GitMetrics { files, adds: 0, dels: 0 })
            &&& summary(f + seq![','] + a) == Some(GitMetrics { files, adds, dels: 0 })
            &&& summary(f + seq![','] + d) == Some(GitMetrics { files, adds: 0, dels })
            &&& summary(f + seq![','] + a + seq![','] + d) == Some(
                GitMetrics { files, adds, dels },
            )
            &&& summary(a) is None
            &&& summary(d) is None
        }),
{
    let f = clause_text(files, file_words);
    let a = clause_text(adds, add_words);
    let d = clause_text(dels, del_words);
    lemma_clause_text(files, file_words, "file"@);
    lemma_clause_text(adds, add_words, "insertion"@);
    lemma_clause_text(dels, del_words, "deletion"@);
    law_a_clause_counts_by_its_word(f, text::decimal(files as nat), file_words);
    law_a_clause_counts_by_its_word(a, text::decimal(adds as nat), add_words);
    law_a_clause_counts_by_its_word(d, text::decimal(dels as nat), del_words);
    let none = Seq::<Seq<char>>::empty();
    text::law_a_cut_ends_a_piece(f, ',', seq![]);
    text::law_a_cut_ends_a_piece(a, ',', seq![]);
    text::law_a_cut_ends_a_piece(d, ',', seq![]);
    text::law_the_last_piece_follows_the_last_cut(f, ',', a);
    text::law_the_last_piece_follows_the_last_cut(f, ',', d);
    text::law_the_last_piece_follows_the_last_cut(f + seq![','] + a, ',', d);
    lemma_tally_push(none, f);
    lemma_tally_push(none, a);
    lemma_tally_push(none, d);
    assert(none.push(f) =~= seq![f]);
    assert(none.push(a) =~= seq![a]);
    assert(none.push(d) =~= seq![d]);
    lemma_tally_push(seq![f], a);
    lemma_tally_push(seq![f], d);
    lemma_tally_push(seq![f].push(a), d);
}

proof fn lemma_tally_push(pieces: Seq<Seq<char>>, next: Seq<char>)
    ensures
        tally(Seq::<Seq<char>>::empty()) == Some((GitMetrics { files: 0, adds: 0, dels: 0 }, false)),
        tally(pieces) matches Some((m, saw)) ==> (match clause(next) {
            Some(Clause::Files(n)) => tally(pieces.push(next)) == Some(
                (GitMetrics { files: n, ..m }, true),
            ),
            Some(Clause::Insertions(n)) => tally(pieces.push(next)) == Some(
                (GitMetrics { adds: n, ..m }, saw),
            ),
            Some(Clause::Deletions(n)) => tally(pieces.push(next)) == Some(
                (GitMetrics { dels: n, ..m }, saw),
            ),
            None => tally(pieces.push(next)) is None,
        }),
{
    assert(pieces.push(next).drop_last() =~= pieces);
}

/// What a cache is seen as is what it holds, part by part.
pub proof fn law_a_cache_is_seen_as_it_is(cache: MetricsCache)
    ensures
        cache@.session == cache.session,
        cache@.root_of == cache.root_of@,
        cache@.text_of == cache.text_of@,
        cache@.unresolved == cache.unresolved@,
        cache@.pending == cache.pending@,
{
}

} // verus!
