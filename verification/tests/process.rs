use roost_engine::process::{
    agent_hook_binary, bundled_roostctl, executable_file, finish, lookup_on_path, resolve_roostctl,
    roostctl_path, run, set_agent_hook_binary, settle, sibling_executable_from, stderr_tail, stdin_failure,
    Ended, HookBinary, ProcessError, ProcessOutput, ProcessRequest,
    RunEnd,
};

fn request(argv: &[&str]) -> ProcessRequest {
    ProcessRequest {
        argv: argv.iter().map(|a| a.to_string()).collect(),
        env: vec![("ROOST_VALUE".to_string(), "environment".to_string())],
        env_remove: vec!["TERM".to_string()],
        stdin: b"input\n".to_vec(),
        cwd: Some("/w".to_string()),
        timeout: 2_000_000_000,
    }
}

fn ended(success: bool, code: Option<i32>, stdout: &[u8], stderr: &[u8]) -> Ended {
    Ended { success, code, stdout: stdout.to_vec(), stderr: stderr.to_vec() }
}

#[test]
fn carries_stdin_environment_and_cwd() {
    let plan = run(request(&["/bin/sh", "-c", "x"]), true).unwrap();
    assert_eq!(plan.argv.len(), 3);
    assert_eq!(plan.stdin, b"input\n".to_vec());
    assert_eq!(plan.env, vec![("ROOST_VALUE".to_string(), "environment".to_string())]);
    assert_eq!(plan.env_remove, vec!["TERM".to_string()]);
    assert_eq!(plan.cwd, Some("/w".to_string()));
    assert_eq!(run(request(&["/bin/sh"]), false).unwrap().cwd, None);
}

#[test]
fn empty_argv_and_nonzero_exit_are_explicit() {
    assert_eq!(run(request(&[]), true), Err(ProcessError::EmptyArgv));
    assert_eq!(
        finish(ended(false, Some(7), b"", b"first\nlast detail\n")),
        Err(ProcessError::ExitWithStderr { code: 7, stderr_tail: "last detail".to_string() })
    );
    assert_eq!(
        finish(ended(false, None, b"", b" \n")),
        Err(ProcessError::Exit { code: -1 })
    );
    assert_eq!(
        finish(ended(true, Some(0), b"done", b"noise")),
        Ok(ProcessOutput { stdout: "done".to_string() })
    );
}

#[test]
fn bytes_that_are_no_text_are_replaced() {
    assert_eq!(
        finish(ended(true, Some(0), b"a\xffb", b"")),
        Ok(ProcessOutput { stdout: "a\u{fffd}b".to_string() })
    );
}

#[test]
fn child_may_decline_stdin_without_losing_its_result() {
    assert_eq!(stdin_failure(true, "broken pipe".to_string()), Ok(()));
    assert_eq!(
        stdin_failure(false, "disk".to_string()),
        Err(ProcessError::Stdin("disk".to_string()))
    );
}

#[test]
fn process_errors_in_words() {
    assert_eq!(ProcessError::EmptyArgv.message(), "process argv is empty");
    assert_eq!(ProcessError::Spawn("no".into()).message(), "spawn process: no");
    assert_eq!(ProcessError::Stdin("no".into()).message(), "write process stdin: no");
    assert_eq!(
        ProcessError::Timeout(25_000_000).message(),
        "process timed out after 25ms"
    );
    assert_eq!(
        ProcessError::Timeout(1_500_000_000).message(),
        "process timed out after 1.5s"
    );
    assert_eq!(ProcessError::Io("no".into()).message(), "process io error: no");
    assert_eq!(
        ProcessError::Exit { code: -1 }.message(),
        "process exited with status -1"
    );
    let tail = ProcessError::ExitWithStderr { code: 7, stderr_tail: "x".into() };
    assert_eq!(tail.message(), "process exited 7: x");
    assert_eq!(stderr_tail(""), "");
    assert_eq!(stderr_tail("a\n  b  \n"), "b");
}

#[test]
fn sibling_requires_an_executable_file() {
    assert_eq!(
        sibling_executable_from("/opt/roost/roost", "roostctl"),
        Some("/opt/roost/roostctl".to_string())
    );
    let place = || Some("/opt/roost/roostctl".to_string());
    assert_eq!(executable_file(place(), true, false), None);
    assert_eq!(executable_file(place(), false, true), None);
    assert_eq!(executable_file(place(), true, true), place());
    assert_eq!(executable_file(Some("roostctl".to_string()), true, true), None);
    assert_eq!(executable_file(None, true, true), None);
}

#[test]
fn the_ladder_prefers_a_sibling() {
    let places = resolve_roostctl(Some("/a/Contents/MacOS/Roost-Iced"), None);
    assert_eq!(
        places,
        vec![
            "/a/Contents/MacOS/roostctl".to_string(),
            "/a/Contents/Resources/bin/roostctl".to_string(),
        ]
    );
    let found: Vec<Option<String>> = places.into_iter().map(Some).collect();
    assert_eq!(roostctl_path(&found), Some("/a/Contents/MacOS/roostctl".to_string()));
}

#[test]
fn the_ladder_finds_the_bundles_resources_copy() {
    assert_eq!(
        bundled_roostctl("/a/Contents/MacOS/Roost-Iced"),
        Some("/a/Contents/Resources/bin/roostctl".to_string())
    );
    assert_eq!(bundled_roostctl("/roost"), None);
    let found = vec![None, Some("/a/Contents/Resources/bin/roostctl".to_string())];
    assert_eq!(
        roostctl_path(&found),
        Some("/a/Contents/Resources/bin/roostctl".to_string())
    );
}

#[test]
fn the_ladder_falls_through_to_path() {
    // An empty entry means the current directory, which is never an answer.
    let places = resolve_roostctl(Some("/r/bin/roost-iced"), Some(":/r/elsewhere"));
    assert_eq!(places.last(), Some(&"/r/elsewhere/roostctl".to_string()));
    assert_eq!(places.len(), 3);
    assert_eq!(
        resolve_roostctl(None, Some(":/r/elsewhere")),
        vec!["/r/elsewhere/roostctl".to_string()]
    );
}

#[test]
fn the_ladder_refuses_a_relative_path_entry() {
    assert_eq!(lookup_on_path("bin:./x:../y", "roostctl"), Vec::<String>::new());
    assert_eq!(
        lookup_on_path("bin:/abs", "roostctl"),
        vec!["/abs/roostctl".to_string()]
    );
    assert_eq!(resolve_roostctl(Some("target/roost"), None), Vec::<String>::new());
    assert_eq!(roostctl_path(&vec![Some("bin/roostctl".to_string())]), None);
}

#[test]
fn the_ladder_answers_nothing_when_no_rung_holds() {
    assert_eq!(roostctl_path(&vec![None, None, None]), None);
    assert_eq!(resolve_roostctl(None, None), Vec::<String>::new());
    assert_eq!(roostctl_path(&Vec::new()), None);
}

#[test]
fn the_hook_binary_is_settled_once() {
    let mut cell = HookBinary { pinned: None };
    assert!(set_agent_hook_binary(&mut cell, Some("/a".to_string())));
    assert!(!set_agent_hook_binary(&mut cell, Some("/b".to_string())));
    assert_eq!(agent_hook_binary(&mut cell, Some("/c".to_string())), Some("/a".to_string()));
    let mut lazy = HookBinary { pinned: None };
    assert_eq!(agent_hook_binary(&mut lazy, None), None);
    assert!(!set_agent_hook_binary(&mut lazy, Some("/b".to_string())));
}

#[test]
fn timeout_is_bounded() {
    let mut asked = request(&["sh", "-c", "sleep 2"]);
    asked.timeout = 25_000_000;
    let plan = run(asked, false).unwrap();
    let error = settle(&plan, RunEnd::TimedOut).unwrap_err();
    assert_eq!(error, ProcessError::Timeout(25_000_000));
    assert_eq!(error.message(), "process timed out after 25ms");
}

#[test]
fn a_run_that_ends_in_time_is_settled_by_its_end() {
    let plan = run(request(&["sh"]), true).unwrap();
    assert_eq!(
        settle(&plan, RunEnd::Ended(ended(true, Some(0), b"done", b"noise"))),
        Ok(ProcessOutput { stdout: "done".to_string() })
    );
    assert_eq!(
        settle(&plan, RunEnd::Ended(ended(false, None, b"", b""))),
        Err(ProcessError::Exit { code: -1 })
    );
    assert_eq!(
        settle(&plan, RunEnd::Failed(ProcessError::Io("gone".to_string()))),
        Err(ProcessError::Io("gone".to_string()))
    );
}
