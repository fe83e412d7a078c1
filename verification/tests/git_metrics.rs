use roost_engine::git_metrics::{
    bounded_output, count_untracked, metrics_for_root, parse_shortstat, parse_shortstat_line, probe_batch, resolve_root,
    root_from, strip_eol, unique_cwds, wanted_roots, CommandOutput, GitCommand, GitMetrics, MetricsCache, ProbeOutcome,
    ProbeValue, UNKNOWN,
};
use roost_engine::text_map::TextMap;

#[test]
fn clean_metrics_render_as_the_unknown_dash() {
    assert_eq!(GitMetrics::default().text(), UNKNOWN);
    assert_eq!(
        GitMetrics {
            files: 0,
            adds: 0,
            dels: 0
        }
        .text(),
        "—"
    );
}

#[test]
fn dirty_metrics_render_files_adds_dels_with_an_ascii_minus() {
    let text = GitMetrics {
        files: 4,
        adds: 86,
        dels: 12,
    }
    .text();
    assert_eq!(text, "4f +86 -12");
    assert!(text.contains('-'), "the minus must be ASCII, not U+2212");
    assert!(!text.contains('−'));
    // A file touched with no line delta (a binary edit, a mode
    // change) is still not clean.
    assert_eq!(
        GitMetrics {
            files: 1,
            adds: 0,
            dels: 0
        }
        .text(),
        "1f +0 -0"
    );
}

// ----- shortstat parser -----------------------------------------

#[test]
fn parses_the_singular_form() {
    let m = parse_shortstat(" 1 file changed, 1 insertion(+)\n").unwrap();
    assert_eq!(
        m,
        GitMetrics {
            files: 1,
            adds: 1,
            dels: 0
        }
    );
}

#[test]
fn parses_the_plural_form() {
    let m = parse_shortstat(" 3 files changed, 12 insertions(+), 4 deletions(-)\n").unwrap();
    assert_eq!(
        m,
        GitMetrics {
            files: 3,
            adds: 12,
            dels: 4
        }
    );
}

#[test]
fn parses_deletion_only_and_insertion_only_lines() {
    // git omits the zero clause entirely.
    let dels = parse_shortstat(" 2 files changed, 9 deletions(-)\n").unwrap();
    assert_eq!(
        dels,
        GitMetrics {
            files: 2,
            adds: 0,
            dels: 9
        }
    );
    let adds = parse_shortstat(" 2 files changed, 9 insertions(+)\n").unwrap();
    assert_eq!(
        adds,
        GitMetrics {
            files: 2,
            adds: 9,
            dels: 0
        }
    );
}

#[test]
fn empty_output_is_a_clean_worktree_not_an_error() {
    assert_eq!(parse_shortstat("").unwrap(), GitMetrics::default());
    assert_eq!(parse_shortstat("\n \n").unwrap(), GitMetrics::default());
    assert_eq!(parse_shortstat("").unwrap().text(), UNKNOWN);
}

#[test]
fn rename_lines_do_not_break_the_summary_totals() {
    let out = " rename src/{old => new}/mod.rs (98%)\n 2 files changed, 3 insertions(+), 1 deletion(-)\n";
    assert_eq!(
        parse_shortstat(out).unwrap(),
        GitMetrics {
            files: 2,
            adds: 3,
            dels: 1
        }
    );
}

#[test]
fn binary_file_lines_do_not_break_the_summary_totals() {
    let out = " assets/logo.png | Bin 0 -> 15340 bytes\n 1 file changed, 0 insertions(+), 0 deletions(-)\n";
    assert_eq!(
        parse_shortstat(out).unwrap(),
        GitMetrics {
            files: 1,
            adds: 0,
            dels: 0
        }
    );
}

#[test]
fn staged_changes_parse_identically_to_unstaged_ones() {
    // `diff HEAD` folds the index and the worktree together, so the
    // same edit staged or not produces one summary line.
    let staged = parse_shortstat(" 1 file changed, 5 insertions(+), 2 deletions(-)\n").unwrap();
    let unstaged =
        parse_shortstat(" 1 file changed, 5 insertions(+), 2 deletions(-)\n").unwrap();
    assert_eq!(staged, unstaged);
}

#[test]
fn unparseable_output_is_an_error() {
    for out in [
        "fatal: not a git repository\n",
        "garbage\n",
        " 12 insertions(+)\n", // no files clause
        " x files changed, 1 insertion(+)\n",
    ] {
        assert!(
            parse_shortstat(out).is_err(),
            "{out:?} must not parse as a shortstat"
        );
    }
}

// ----- untracked counter ----------------------------------------

#[test]
fn counts_nul_separated_untracked_entries() {
    assert_eq!(count_untracked(b""), 0);
    assert_eq!(count_untracked(b"a.txt\0"), 1);
    // A new directory is listed as its individual files, which is
    // exactly why we use ls-files instead of status --porcelain.
    assert_eq!(count_untracked(b"new/a\0new/b\0new/c\0"), 3);
    // Trailing/duplicate separators and newline-bearing paths.
    assert_eq!(count_untracked(b"a\0\0b\0"), 2);
    assert_eq!(count_untracked(b"weird\nname\0b\0"), 2);
}

// ----- the injectable runner ------------------------------------


fn owned(cwds: &[&str]) -> Vec<String> {
    cwds.iter().map(|c| c.to_string()).collect()
}

#[test]
fn cache_hands_out_each_cwd_once_while_a_probe_is_in_flight() {
    let mut cache = MetricsCache::default();
    cache.begin_session(1);
    let claimed = cache.claim_unprobed(owned(&["/w/a", "/w/a", "/w/b"]));
    assert_eq!(claimed, owned(&["/w/a", "/w/b"]));
    // A live-refresh rebuild must not re-spawn the in-flight probes.
    assert!(cache.claim_unprobed(owned(&["/w/a", "/w/b"])).is_empty());
    assert_eq!(cache.text_for_session(1, "/w/a"), None);
}

#[test]
fn resolved_values_are_reused_and_shared_by_root() {
    let mut cache = MetricsCache::default();
    cache.begin_session(7);
    cache.claim_unprobed(owned(&["/w/roost"]));
    cache.store_root("/w/roost", "/w/roost", "3f +5 -0".to_string());
    assert_eq!(cache.text_for_session(7, "/w/roost"), Some("3f +5 -0"));
    // Resolved → never re-probed.
    assert!(cache.claim_unprobed(owned(&["/w/roost"])).is_empty());
    // A second tab in the same repo reads the root's one value.
    cache.store_root("/w/roost/crates", "/w/roost", "3f +5 -0".to_string());
    assert_eq!(
        cache.text_for_session(7, "/w/roost/crates"),
        Some("3f +5 -0")
    );
    // A new root in a rebuild is still claimable.
    assert_eq!(
        cache.claim_unprobed(owned(&["/w/other"])),
        owned(&["/w/other"])
    );
    // Only real roots are advertised as measured, so a non-repo cwd
    // can never suppress a later repo's measurement.
    cache.store_unresolved("/tmp/plain");
    assert_eq!(cache.known_roots().len(), 1);
    assert_eq!(
        cache.known_roots().get("/w/roost").map(String::as_str),
        Some("3f +5 -0")
    );
}

#[test]
fn a_later_probe_cannot_clobber_a_roots_stored_value() {
    // Two batches can race the same root (a live refresh spawned
    // while the first was still in flight). First write wins, so a
    // redundant probe that failed can't turn a good number into `—`.
    let mut cache = MetricsCache::default();
    cache.begin_session(3);
    cache.store_root("/w/roost", "/w/roost", "4f +9 -2".to_string());
    cache.store_root("/w/roost/crates", "/w/roost", UNKNOWN.to_string());
    assert_eq!(cache.text_for_session(3, "/w/roost"), Some("4f +9 -2"));
    assert_eq!(
        cache.text_for_session(3, "/w/roost/crates"),
        Some("4f +9 -2")
    );
}

#[test]
fn a_non_repo_caches_its_dash_without_claiming_a_root() {
    let mut cache = MetricsCache::default();
    cache.begin_session(1);
    cache.claim_unprobed(owned(&["/tmp/plain"]));
    cache.store_unresolved("/tmp/plain");
    assert_eq!(cache.text_for_session(1, "/tmp/plain"), Some(UNKNOWN));
    assert!(cache.claim_unprobed(owned(&["/tmp/plain"])).is_empty());
    assert!(cache.known_roots().is_empty());
}

#[test]
fn a_dead_probe_task_releases_its_claims_as_unknown() {
    // The `rt.spawn` JoinError path: without this, every claimed cwd
    // stays `pending` and its row is stuck pending for the session.
    let mut cache = MetricsCache::default();
    cache.begin_session(4);
    let claimed = cache.claim_unprobed(owned(&["/w/a", "/w/b"]));
    for cwd in &claimed {
        cache.store_unresolved(cwd);
    }
    assert_eq!(cache.text_for_session(4, "/w/a"), Some(UNKNOWN));
    assert_eq!(cache.text_for_session(4, "/w/b"), Some(UNKNOWN));
    assert!(cache.claim_unprobed(claimed).is_empty());
}

#[test]
fn a_stale_session_never_reads_the_previous_sessions_numbers() {
    // The frame for a reopened palette is built *before* the new
    // session's `begin_session` clears the cache, so the read has to
    // be session-scoped or the row flashes the old repo's numbers.
    let mut cache = MetricsCache::default();
    cache.begin_session(1);
    cache.store_root("/w/roost", "/w/roost", "3f +5 -0".to_string());
    assert_eq!(cache.text_for_session(1, "/w/roost"), Some("3f +5 -0"));
    assert_eq!(cache.text_for_session(2, "/w/roost"), None);
    // …and once the new session is bound, it's pending as expected.
    cache.begin_session(2);
    assert_eq!(cache.text_for_session(2, "/w/roost"), None);
}

#[test]
fn a_new_palette_session_discards_everything() {
    let mut cache = MetricsCache::default();
    cache.begin_session(1);
    cache.claim_unprobed(owned(&["/w/a", "/w/b"]));
    cache.store_root("/w/a", "/w/a", "1f +1 -0".to_string());
    // Same session: values and in-flight marks survive.
    cache.begin_session(1);
    assert_eq!(cache.text_for_session(1, "/w/a"), Some("1f +1 -0"));
    assert!(cache.claim_unprobed(owned(&["/w/b"])).is_empty());
    // Reopened palette: nothing carries over, so both re-probe.
    cache.begin_session(2);
    assert_eq!(cache.session(), 2);
    assert_eq!(cache.text_for_session(2, "/w/a"), None);
    assert!(cache.known_roots().is_empty());
    assert_eq!(
        cache.claim_unprobed(owned(&["/w/a", "/w/b"])),
        owned(&["/w/a", "/w/b"])
    );
}

#[test]
fn the_summary_line_alone_is_read() {
    assert_eq!(
        parse_shortstat_line(" 2 files changed, 3 insertions(+), 1 deletion(-)"),
        Some(GitMetrics { files: 2, adds: 3, dels: 1 })
    );
    assert_eq!(parse_shortstat_line(" rename a => b (98%)"), None);
    assert!(GitMetrics::default().is_clean());
    assert!(!GitMetrics { files: 0, adds: 1, dels: 0 }.is_clean());
}

fn ok(stdout: &[u8]) -> Result<CommandOutput, String> {
    Ok(CommandOutput { ok: true, stdout: stdout.to_vec() })
}

#[test]
fn combines_tracked_changes_with_untracked_files() {
    let metrics = metrics_for_root(
        "/w/roost",
        ok(b" 2 files changed, 5 insertions(+)\n"),
        ok(b"new.txt\0"),
    )
    .unwrap();
    assert_eq!(metrics.text(), "3f +5 -0");
}

#[test]
fn a_clean_repo_resolves_to_the_dash() {
    let metrics = metrics_for_root("/w/roost", ok(b""), ok(b"")).unwrap();
    assert_eq!(metrics.text(), UNKNOWN);
}

#[test]
fn a_root_ending_in_whitespace_survives_resolution() {
    assert_eq!(resolve_root("/w/trailing ", ok(b"/w/trailing \n")), Ok("/w/trailing ".to_string()));
    assert_eq!(strip_eol("/w/trailing \r\n"), "/w/trailing ");
    assert_eq!(strip_eol("/w/a\n\n"), "/w/a\n");
}

#[test]
fn an_overflowing_file_count_errors_instead_of_wrapping() {
    let diff = format!(" {} files changed, 1 insertion(+)\n", u64::MAX);
    assert!(metrics_for_root("/w/roost", ok(diff.as_bytes()), ok(b"a\0")).is_err());
}

#[test]
fn unparseable_shortstat_errors() {
    assert!(metrics_for_root("/w/roost", ok(b"garbage\n"), ok(b"")).is_err());
}

#[test]
fn a_root_that_is_empty_is_none() {
    assert!(root_from("/w/a", "").is_err());
    assert!(resolve_root("/w/a", Err("git is not there".to_string())).is_err());
    assert!(resolve_root("/w/a", Ok(CommandOutput { ok: false, stdout: Vec::new() })).is_err());
}

#[test]
fn identical_cwds_are_probed_once() {
    assert_eq!(unique_cwds(&owned(&["/w/a", "/w/b", "/w/a"])), owned(&["/w/a", "/w/b"]));
}

#[test]
fn distinct_cwds_in_one_repo_share_the_expensive_half() {
    let unique = owned(&["/w/roost", "/w/roost/crates", "/tmp/plain"]);
    let roots = vec![
        Ok("/w/roost".to_string()),
        Ok("/w/roost".to_string()),
        Err("not a repository".to_string()),
    ];
    let known = TextMap::new();
    let wanted = wanted_roots(&roots, &known);
    assert_eq!(wanted, owned(&["/w/roost"]));
    let measured = vec![Ok(GitMetrics { files: 1, adds: 2, dels: 3 })];
    let outcomes = probe_batch(&unique, &roots, &known, &wanted, &measured);
    let metrics = GitMetrics { files: 1, adds: 2, dels: 3 };
    assert_eq!(
        outcomes,
        vec![
            ProbeOutcome {
                cwd: "/w/roost".to_string(),
                root: Some("/w/roost".to_string()),
                value: ProbeValue::Measured(Ok(metrics)),
            },
            ProbeOutcome {
                cwd: "/w/roost/crates".to_string(),
                root: Some("/w/roost".to_string()),
                value: ProbeValue::Measured(Ok(metrics)),
            },
            ProbeOutcome {
                cwd: "/tmp/plain".to_string(),
                root: None,
                value: ProbeValue::Measured(Err("not a repository".to_string())),
            },
        ]
    );
}

#[test]
fn a_cwd_in_an_already_measured_root_reuses_its_text() {
    let unique = owned(&["/w/roost/docs", "/w/other"]);
    let roots = vec![Ok("/w/roost".to_string()), Ok("/w/other".to_string())];
    let mut known = TextMap::new();
    known.insert("/w/roost".to_string(), "4f +9 -2".to_string());
    let wanted = wanted_roots(&roots, &known);
    assert_eq!(wanted, owned(&["/w/other"]));
    let measured = vec![Err("stalled".to_string())];
    let outcomes = probe_batch(&unique, &roots, &known, &wanted, &measured);
    assert_eq!(outcomes[0].value, ProbeValue::Reused("4f +9 -2".to_string()));
    assert_eq!(outcomes[1].value, ProbeValue::Measured(Err("stalled".to_string())));
    // A root that nobody measured says so.
    let none = probe_batch(&unique, &roots, &TextMap::new(), &Vec::new(), &Vec::new());
    assert_eq!(
        none[0].value,
        ProbeValue::Measured(Err("no probe result for /w/roost".to_string()))
    );
}

#[test]
fn every_command_leaves_the_repositorys_locks_alone() {
    for command in [GitCommand::Root, GitCommand::Summary, GitCommand::Untracked] {
        let argv = command.argv();
        assert_eq!(argv[0], "git");
        assert_eq!(argv[1], "--no-optional-locks");
    }
    assert_eq!(
        GitCommand::Root.argv(),
        ["git", "--no-optional-locks", "rev-parse", "--show-toplevel"]
    );
    assert_eq!(
        GitCommand::Summary.argv(),
        [
            "git",
            "--no-optional-locks",
            "diff",
            "--no-ext-diff",
            "--no-textconv",
            "--shortstat",
            "HEAD",
            "--"
        ]
    );
    assert_eq!(
        GitCommand::Untracked.argv(),
        [
            "git",
            "--no-optional-locks",
            "ls-files",
            "--others",
            "--exclude-standard",
            "-z"
        ]
    );
}

#[test]
fn output_is_believed_up_to_its_limit() {
    assert_eq!(bounded_output("git", vec![b'x'; 65536]), Ok(vec![b'x'; 65536]));
    assert_eq!(
        bounded_output("git", vec![b'x'; 65537]),
        Err("git output exceeded 65536 bytes".to_string())
    );
}

/// A repository as git would answer for it.
struct Repo {
    cwd: &'static str,
    root: &'static str,
    summary: &'static str,
    untracked: &'static [u8],
    unborn: bool,
}

fn repo(
    cwd: &'static str,
    root: &'static str,
    summary: &'static str,
    untracked: &'static [u8],
) -> Repo {
    Repo { cwd, root, summary, untracked, unborn: false }
}

/// What a batch came to, and what git was asked for it.
struct Batch {
    outcomes: Vec<ProbeOutcome>,
    /// The directories whose root was asked for.
    asked: Vec<String>,
    /// The roots that were measured.
    measured: Vec<String>,
}

fn run_batch(repos: &[Repo], cwds: &[&str], known: TextMap) -> Batch {
    let says = |ok: bool, stdout: &[u8]| Ok(CommandOutput { ok, stdout: stdout.to_vec() });
    let unique = unique_cwds(&owned(cwds));
    let mut asked = Vec::new();
    let mut roots = Vec::new();
    for cwd in &unique {
        let ran = if cwd.is_empty() {
            Err(String::new())
        } else {
            asked.push(cwd.clone());
            match repos.iter().find(|repo| repo.cwd == cwd) {
                Some(repo) => says(true, format!("{}\n", repo.root).as_bytes()),
                None => says(false, b""),
            }
        };
        roots.push(resolve_root(cwd, ran));
    }
    let wanted = wanted_roots(&roots, &known);
    let metrics: Vec<_> = wanted
        .iter()
        .map(|root| {
            let repo = repos.iter().find(|repo| repo.root == root).unwrap();
            let diff = says(!repo.unborn, repo.summary.as_bytes());
            metrics_for_root(root, diff, says(true, repo.untracked))
        })
        .collect();
    let outcomes = probe_batch(&unique, &roots, &known, &wanted, &metrics);
    Batch { outcomes, asked, measured: wanted }
}

fn measured_of(outcome: &ProbeOutcome) -> &Result<GitMetrics, String> {
    match &outcome.value {
        ProbeValue::Measured(result) => result,
        ProbeValue::Reused(text) => panic!("reused: {text}"),
    }
}

#[test]
fn a_non_repo_errors_without_running_the_expensive_half() {
    let batch = run_batch(&[], &["/tmp/plain"], TextMap::new());
    assert!(measured_of(&batch.outcomes[0]).is_err());
    assert_eq!(batch.outcomes[0].root, None);
    assert_eq!(batch.asked.len(), 1);
    assert!(batch.measured.is_empty());
}

#[test]
fn an_empty_cwd_resolves_to_the_dash_without_execing_anything() {
    let batch = run_batch(&[], &[""], TextMap::new());
    assert!(measured_of(&batch.outcomes[0]).is_err());
    assert_eq!(batch.outcomes[0].root, None);
    assert!(batch.asked.is_empty() && batch.measured.is_empty());

    let mut cache = MetricsCache::default();
    cache.begin_session(1);
    assert_eq!(cache.claim_unprobed(vec![String::new()]), vec![String::new()]);
    cache.store_unresolved("");
    assert_eq!(cache.text_for_session(1, ""), Some(UNKNOWN));
}

#[test]
fn an_unborn_head_errors() {
    let fresh = Repo { unborn: true, ..repo("/w/fresh", "/w/fresh", "", b"a\0") };
    let batch = run_batch(&[fresh], &["/w/fresh"], TextMap::new());
    let err = measured_of(&batch.outcomes[0]).as_ref().unwrap_err();
    assert!(err.contains("git diff HEAD failed"), "{err}");
}

#[test]
fn separate_repos_are_probed_separately() {
    let repos = [
        repo("/w/a", "/w/a", " 1 file changed, 1 insertion(+)\n", b""),
        repo("/w/b", "/w/b", " 2 files changed, 2 deletions(-)\n", b""),
    ];
    let batch = run_batch(&repos, &["/w/a", "/w/b"], TextMap::new());
    assert_eq!(batch.measured.len(), 2);
    assert_eq!(measured_of(&batch.outcomes[0]).as_ref().unwrap().text(), "1f +1 -0");
    assert_eq!(measured_of(&batch.outcomes[1]).as_ref().unwrap().text(), "2f +0 -2");
}

#[test]
fn a_failing_redundant_probe_cannot_clobber_a_known_root() {
    let failing = Repo { unborn: true, ..repo("/w/roost/sub", "/w/roost", "", b"") };
    let mut cache = MetricsCache::default();
    cache.begin_session(1);
    cache.store_root("/w/roost", "/w/roost", "4f +9 -2".to_string());
    let batch = run_batch(&[failing], &["/w/roost/sub"], cache.known_roots());
    let ProbeValue::Reused(text) = &batch.outcomes[0].value else {
        panic!("a known root must not be re-measured");
    };
    assert_eq!(text, "4f +9 -2");
    cache.store_root("/w/roost/sub", "/w/roost", text.clone());
    assert_eq!(cache.text_for_session(1, "/w/roost/sub"), Some("4f +9 -2"));
    assert_eq!(cache.text_for_session(1, "/w/roost"), Some("4f +9 -2"));
    assert!(batch.measured.is_empty());
}
