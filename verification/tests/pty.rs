use roost_engine::pty::{
    already_gone, bash_autobootstrap, bash_bootstrap_env, build_command, exit_status, kill_target,
    publish_exit_once, reader_step, reaped, resolve_argv, roost_resources_dir, with_bash_posix,
    writer_goes_on, CloseOutcome, EnvChange, ExitWatch, OutputPublisher, PtyError, PtyOutputEvent,
    PtySize, PtySupervisor, ReadOutcome, ReaderPhase, ReaderStep, ReaperPhase, ShellContext,
    SpawnAction, SpawnFlow, SpawnStage, SupervisorEvent, WatchEvent, WriterCmd,
};

#[test]
fn empty_argv_becomes_default_shell() {
    // The default shell differs by platform: a login
    // shell (`-l`) on macOS so profile files load, a non-login
    // interactive shell on Linux so `~/.bashrc` loads (a stray
    // `.bash_profile` would otherwise shadow it). See `resolve_argv`.
    let empty: Vec<String> = Vec::new();
    assert_eq!(
        resolve_argv(&empty, "/bin/zsh", true),
        vec!["/bin/zsh".to_string(), "-l".to_string()]
    );
    assert_eq!(resolve_argv(&empty, "/bin/zsh", false), vec!["/bin/zsh".to_string()]);
}

#[test]
fn explicit_argv_passes_through_unchanged() {
    // Launcher commands keep their argv — never force `-l`.
    let argv = vec![
        "/bin/bash".to_string(),
        "-c".to_string(),
        "echo hi".to_string(),
    ];
    assert_eq!(resolve_argv(&argv, "/bin/zsh", false), argv);
    assert_eq!(resolve_argv(&argv, "/bin/zsh", true), argv);
}

fn sv(parts: &[&str]) -> Vec<String> {
    parts.iter().map(|s| s.to_string()).collect()
}

#[test]
fn bash_autobootstrap_applies_to_simple_bash() {
    // Default-shell case (`[$SHELL, -l]`) and an explicit simple login
    // bash both auto-bootstrap.
    assert!(bash_autobootstrap(
        &sv(&["/opt/homebrew/bin/bash", "-l"]),
        true
    ));
    assert!(bash_autobootstrap(&sv(&["/usr/bin/bash", "-l"]), true));
    assert!(bash_autobootstrap(&sv(&["/usr/bin/bash"]), true));
    assert!(bash_autobootstrap(&sv(&["bash", "-i"]), true));
    assert!(bash_autobootstrap(&sv(&["bash", "-l", "-i"]), true));
}

#[test]
fn bash_autobootstrap_skips_apple_32() {
    // /bin/bash on macOS is Apple's 3.2 (no ENV+POSIX) — skip it; on
    // Linux /bin/bash is modern, so it applies.
    assert!(!bash_autobootstrap(&sv(&["/bin/bash", "-l"]), true));
    assert!(bash_autobootstrap(&sv(&["/bin/bash", "-l"]), false));
}

#[test]
fn bash_autobootstrap_skips_launcher_and_non_bash() {
    // Launcher / non-simple invocations pass through untouched.
    assert!(!bash_autobootstrap(
        &sv(&["/bin/bash", "-c", "echo hi"]),
        true
    ));
    assert!(!bash_autobootstrap(
        &sv(&["/usr/bin/bash", "--norc", "--noprofile"]),
        false
    ));
    assert!(!bash_autobootstrap(
        &sv(&["/usr/bin/bash", "--rcfile", "x"]),
        false
    ));
    assert!(!bash_autobootstrap(
        &sv(&["/usr/bin/bash", "--posix"]),
        false
    ));
    assert!(!bash_autobootstrap(&sv(&["/bin/zsh", "-l"]), true));
    assert!(!bash_autobootstrap(&Vec::new(), true));
}

#[test]
fn with_bash_posix_inserts_long_option_first() {
    // bash needs `--posix` before the short `-l` (a long option after a
    // short one errors), so it goes right after argv[0].
    assert_eq!(
        with_bash_posix(sv(&["/usr/bin/bash", "-l"]), true),
        sv(&["/usr/bin/bash", "--posix", "-l"])
    );
    assert_eq!(
        with_bash_posix(sv(&["/usr/bin/bash"]), true),
        sv(&["/usr/bin/bash", "--posix"])
    );
    // Not applied → untouched.
    assert_eq!(
        with_bash_posix(sv(&["/bin/bash", "-l"]), false),
        sv(&["/bin/bash", "-l"])
    );
}

#[test]
fn bash_bootstrap_env_sets_env_and_inject() {
    let env = bash_bootstrap_env("/res", None, None, Some("/home/u"));
    assert!(env.contains(&(
        "ENV".to_string(),
        "/res/shell-integration/roost.bash".to_string()
    )));
    assert!(env.contains(&("ROOST_BASH_INJECT".to_string(), "1".to_string())));
    assert!(!env.iter().any(|(k, _)| k == "ROOST_BASH_ENV"));
}

#[test]
fn bash_bootstrap_env_pins_histfile_when_unset() {
    let env = bash_bootstrap_env("/res", None, None, Some("/home/u"));
    assert!(env.contains(&("HISTFILE".to_string(), "/home/u/.bash_history".to_string())));
    assert!(env.contains(&("ROOST_BASH_UNEXPORT_HISTFILE".to_string(), "1".to_string())));
}

#[test]
fn bash_bootstrap_env_keeps_existing_histfile_and_env() {
    // A user's HISTFILE wins (no pin, no un-export); a prior ENV is
    // preserved so the shim can restore it.
    let env = bash_bootstrap_env(
        "/res",
        Some("/u/env.sh"),
        Some("/u/.myhist"),
        Some("/home/u"),
    );
    assert!(!env.iter().any(|(k, _)| k == "HISTFILE"));
    assert!(!env.iter().any(|(k, _)| k == "ROOST_BASH_UNEXPORT_HISTFILE"));
    assert!(env.contains(&("ROOST_BASH_ENV".to_string(), "/u/env.sh".to_string())));
}

#[test]
fn bash_bootstrap_env_respects_empty_histfile() {
    // An empty HISTFILE disables history on purpose — don't re-enable
    // it by pinning ~/.bash_history (only a fully-unset HISTFILE pins).
    let env = bash_bootstrap_env(
        "/res",
        None,
        Some(""),
        Some("/home/u"),
    );
    assert!(!env.iter().any(|(k, _)| k == "HISTFILE"));
    assert!(!env.iter().any(|(k, _)| k == "ROOST_BASH_UNEXPORT_HISTFILE"));
}

#[test]
fn output_is_numbered_from_one_and_the_exit_comes_once() {
    let mut output = OutputPublisher::new();
    let first = reader_step(&mut output, ReadOutcome::Data(b"hi".to_vec()));
    assert_eq!(
        first,
        ReaderStep::Publish(PtyOutputEvent::Bytes { seq: 1, data: b"hi".to_vec() })
    );
    assert_eq!(reader_step(&mut output, ReadOutcome::Interrupted), ReaderStep::Again);
    assert_eq!(reader_step(&mut output, ReadOutcome::Failed), ReaderStep::Stop);
    assert_eq!(reader_step(&mut output, ReadOutcome::Eof), ReaderStep::Stop);
    let exit = publish_exit_once(&mut output, 7);
    assert_eq!(exit, Some(PtyOutputEvent::Exit { seq: 2, code: 7 }));
    assert_eq!(exit.unwrap().seq(), 2);
    assert_eq!(publish_exit_once(&mut output, 9), None);
}

#[test]
fn a_failed_write_ends_the_writer_and_a_failed_resize_does_not() {
    let input = WriterCmd::Input(b"x".to_vec());
    let size = PtySize { rows: 24, cols: 80, pixel_width: 0, pixel_height: 0 };
    assert!(writer_goes_on(&input, true));
    assert!(!writer_goes_on(&input, false));
    assert!(writer_goes_on(&WriterCmd::Resize(size), false));
}

#[test]
fn an_exit_status_is_the_code_or_minus_one() {
    assert_eq!(exit_status(Some(0)), 0);
    assert_eq!(exit_status(Some(130)), 130);
    assert_eq!(exit_status(Some(u32::MAX)), -1);
    assert_eq!(exit_status(Some(0x8000_0000)), i32::MIN);
    assert_eq!(exit_status(None), -1);
}

#[test]
fn a_child_that_is_gone_is_no_failure_and_is_not_killed() {
    assert!(already_gone(true, None));
    assert!(already_gone(false, Some(3)));
    assert!(!already_gone(false, Some(1)));
    assert_eq!(kill_target(Some(42), false), Some(42));
    assert_eq!(kill_target(Some(42), true), None);
    assert_eq!(kill_target(None, false), None);
}

fn run(slots: &mut PtySupervisor, flow: &mut SpawnFlow, first: SpawnAction) -> Vec<SpawnAction> {
    let mut seen = vec![first];
    loop {
        let action = flow.step(slots, true);
        seen.push(action);
        match action {
            SpawnAction::Ready | SpawnAction::Cancelled | SpawnAction::Failed(_) => return seen,
            _ => {}
        }
    }
}

#[test]
fn a_spawn_takes_its_steps_in_order() {
    let mut slots = PtySupervisor::new();
    let (mut flow, first) = SpawnFlow::begin(&mut slots, 7).unwrap();
    assert_eq!(
        SpawnFlow::begin(&mut slots, 7),
        Err(PtyError::DuplicateTab(7))
    );
    assert!(!slots.has(7));
    let seen = run(&mut slots, &mut flow, first);
    assert_eq!(
        seen,
        vec![
            SpawnAction::OpenPty,
            SpawnAction::TakeReader,
            SpawnAction::TakeWriter,
            SpawnAction::StartChild,
            SpawnAction::StartPumps,
            SpawnAction::StartReaper,
            SpawnAction::Ready,
        ]
    );
    assert!(slots.has(7));
    assert_eq!(
        SpawnFlow::begin(&mut slots, 7),
        Err(PtyError::DuplicateTab(7))
    );
}

#[test]
fn a_close_during_a_spawn_hangs_the_child_up() {
    let mut slots = PtySupervisor::default();
    let (mut flow, first) = SpawnFlow::begin(&mut slots, 7).unwrap();
    assert_eq!(
        slots.close(7),
        CloseOutcome { session: None, was_pending: true }
    );
    let seen = run(&mut slots, &mut flow, first);
    assert_eq!(
        seen[5..].to_vec(),
        vec![SpawnAction::StartReaper, SpawnAction::HangUp, SpawnAction::Cancelled]
    );
    assert!(!slots.has(7));
}

#[test]
fn a_failed_stage_frees_the_slot() {
    let mut slots = PtySupervisor::new();
    let (mut flow, _) = SpawnFlow::begin(&mut slots, 7).unwrap();
    assert_eq!(flow.step(&mut slots, false), SpawnAction::Failed(SpawnStage::Pty));
    assert!(SpawnFlow::begin(&mut slots, 7).is_ok());
    assert_eq!(SpawnStage::Pty.message(), "openpty failed");
    assert_eq!(SpawnStage::Reader.message(), "master.try_clone_reader");
    assert_eq!(SpawnStage::Writer.message(), "master.take_writer");
    assert_eq!(SpawnStage::Child.message(), "spawn shell");
}

#[test]
fn a_stale_reaper_leaves_the_newer_session_alone() {
    let mut slots = PtySupervisor::new();
    let old = slots.spawn(7).unwrap();
    slots.promote(7, old).unwrap();
    assert_eq!(slots.close(7).session, Some(old));
    let new = slots.spawn(7).unwrap();
    slots.promote(7, new).unwrap();
    let event = reaped(&mut slots, 7, old, Some(0));
    assert_eq!(event, SupervisorEvent::TabExited { tab_id: 7, status: 0 });
    assert!(slots.has(7));
    reaped(&mut slots, 7, new, None);
    assert!(!slots.has(7));
}

#[test]
fn the_initial_receiver_is_handed_out_once() {
    let mut slots = PtySupervisor::new();
    assert!(!slots.take_initial_receiver(22));
    let spawn = slots.spawn(22).unwrap();
    slots.promote(22, spawn).unwrap();
    assert!(slots.take_initial_receiver(22));
    assert!(!slots.take_initial_receiver(22));
    slots.abandon(22);
    assert!(slots.has(22));
}

#[test]
fn input_and_resizes_need_a_live_session() {
    let mut slots = PtySupervisor::new();
    assert_eq!(slots.write(1, true), Err(PtyError::NotFound(1)));
    assert_eq!(slots.resize(1, 80, 24), Err(PtyError::NotFound(1)));
    let spawn = slots.spawn(1).unwrap();
    slots.promote(1, spawn).unwrap();
    assert_eq!(slots.write(1, true), Ok(()));
    assert_eq!(slots.write(1, false), Err(PtyError::Closed(1)));
    let size = PtySize { rows: 24, cols: 80, pixel_width: 0, pixel_height: 0 };
    assert_eq!(slots.resize(1, 80, 24), Ok(WriterCmd::Resize(size)));
}

#[test]
fn pty_errors_in_words() {
    assert_eq!(PtyError::NotFound(7).message(), "pty for tab 7 not found");
    assert_eq!(PtyError::Closed(7).message(), "pty for tab 7 is closed");
    assert_eq!(PtyError::DuplicateTab(7).message(), "tab 7 already has a live pty session");
    assert_eq!(PtyError::Cancelled(-7).message(), "spawn for tab -7 cancelled by close()");
}

fn context() -> ShellContext {
    ShellContext {
        shell: Some("/usr/bin/bash".to_string()),
        is_macos: false,
        resources_dir: Some("/res".to_string()),
        version: "1.2.3".to_string(),
        has_features: false,
        zdotdir: None,
        env: None,
        histfile: None,
        home: Some("/home/u".to_string()),
    }
}

fn set(key: &str, value: &str) -> EnvChange {
    EnvChange::Assign(key.to_string(), value.to_string())
}

#[test]
fn a_plain_bash_gets_posix_mode_and_its_script() {
    let plan = build_command("/w", &Vec::new(), 7, "/run/roost.sock", &context());
    assert_eq!(plan.argv, sv(&["/usr/bin/bash", "--posix"]));
    assert_eq!(plan.cwd, Some("/w".to_string()));
    assert_eq!(
        plan.env,
        vec![
            set("TERM", "xterm-256color"),
            set("COLORTERM", "truecolor"),
            EnvChange::Remove("TERMINFO".to_string()),
            set("FORCE_HYPERLINK", "1"),
            set("ROOST_TAB_ID", "7"),
            set("ROOST_SOCKET", "/run/roost.sock"),
            set("TERM_PROGRAM", "Roost"),
            set("TERM_PROGRAM_VERSION", "1.2.3"),
            set("ROOST_SHELL_INTEGRATION", "1"),
            set("ROOST_SHELL_FEATURES", "cwd,title,marks,prompt,ssh-env"),
            set("ROOST_RESOURCES_DIR", "/res"),
            set("ENV", "/res/shell-integration/roost.bash"),
            set("ROOST_BASH_INJECT", "1"),
            set("HISTFILE", "/home/u/.bash_history"),
            set("ROOST_BASH_UNEXPORT_HISTFILE", "1"),
        ]
    );
}

#[test]
fn without_scripts_a_bash_is_left_alone() {
    let mut bare = context();
    bare.resources_dir = None;
    bare.has_features = true;
    let plan = build_command("", &Vec::new(), 7, "/s", &bare);
    assert_eq!(plan.argv, sv(&["/usr/bin/bash"]));
    assert_eq!(plan.cwd, None);
    assert_eq!(plan.env.len(), 9);
}

#[test]
fn a_zsh_gets_its_own_startup_directory() {
    let mut zsh = context();
    zsh.shell = None;
    zsh.zdotdir = Some("/home/u/.zsh".to_string());
    let plan = build_command("", &sv(&["/bin/zsh", "-l"]), 7, "/s", &zsh);
    assert_eq!(plan.argv, sv(&["/bin/zsh", "-l"]));
    assert_eq!(
        plan.env.into_iter().skip(10).collect::<Vec<_>>(),
        vec![
            set("ROOST_RESOURCES_DIR", "/res"),
            set("ROOST_ZSH_ZDOTDIR", "/home/u/.zsh"),
            set("ZDOTDIR", "/res/shell-integration/zsh"),
        ]
    );
    let plain = build_command("", &Vec::new(), 7, "/s", &zsh);
    assert_eq!(plain.argv, sv(&["/bin/sh"]));
}

#[test]
fn scripts_go_under_an_absolute_cache_directory() {
    assert_eq!(
        roost_resources_dir(Some("/c"), Some("/home/u")),
        Some("/c/roost".to_string())
    );
    assert_eq!(
        roost_resources_dir(Some("c"), Some("/home/u")),
        Some("/home/u/.cache/roost".to_string())
    );
    assert_eq!(roost_resources_dir(None, None), None);
}

fn published(events: Vec<WatchEvent>) -> (ExitWatch, Vec<PtyOutputEvent>) {
    let mut watch = ExitWatch::new();
    let mut records = Vec::new();
    for event in events {
        assert!(watch.accepts(&event), "{event:?}");
        records.extend(watch.step(event));
    }
    (watch, records)
}

fn read(data: &[u8]) -> WatchEvent {
    WatchEvent::Read(ReadOutcome::Data(data.to_vec()))
}

fn bytes(seq: u64, data: &[u8]) -> PtyOutputEvent {
    PtyOutputEvent::Bytes { seq, data: data.to_vec() }
}

#[test]
fn the_exit_follows_the_last_bytes() {
    // The status is there when the output ends, or comes soon after.
    for early in [true, false] {
        let mut events = vec![read(b"a")];
        if early {
            events.push(WatchEvent::Reaped(7));
        }
        events.extend([
            read(b"b"),
            WatchEvent::Read(ReadOutcome::Interrupted),
            WatchEvent::Read(ReadOutcome::Eof),
        ]);
        if !early {
            events.push(WatchEvent::Reaped(7));
        }
        events.extend([WatchEvent::StatusCame, WatchEvent::ReaderGone]);
        let (watch, records) = published(events);
        assert_eq!(
            records,
            vec![bytes(1, b"a"), bytes(2, b"b"), PtyOutputEvent::Exit { seq: 3, code: 7 }]
        );
        assert_eq!((watch.reader, watch.reaper), (ReaderPhase::Over, ReaperPhase::Over));
    }
    // The reader does not wait for ever; the exit still follows what it read.
    let (_, records) = published(vec![
        read(b"a"),
        WatchEvent::Read(ReadOutcome::Failed),
        WatchEvent::StatusLate,
        WatchEvent::Reaped(-1),
        WatchEvent::ReaderGone,
    ]);
    assert_eq!(records, vec![bytes(1, b"a"), PtyOutputEvent::Exit { seq: 2, code: -1 }]);
}

#[test]
fn a_reader_that_never_ends_does_not_hold_the_exit_back() {
    let (watch, records) = published(vec![
        read(b"a"),
        WatchEvent::Reaped(0),
        WatchEvent::Deadline,
        read(b"late"),
        WatchEvent::Read(ReadOutcome::Eof),
        WatchEvent::StatusCame,
    ]);
    assert_eq!(
        records,
        vec![bytes(1, b"a"), PtyOutputEvent::Exit { seq: 2, code: 0 }, bytes(3, b"late")]
    );
    assert!(!watch.accepts(&WatchEvent::Deadline) && !watch.accepts(&WatchEvent::Reaped(0)));
}

#[test]
fn nothing_happens_out_of_turn() {
    let watch = ExitWatch::new();
    for event in [
        WatchEvent::StatusCame,
        WatchEvent::StatusLate,
        WatchEvent::ReaderGone,
        WatchEvent::Deadline,
    ] {
        assert!(!watch.accepts(&event), "{event:?}");
    }
    let (watch, _) = published(vec![WatchEvent::Reaped(0)]);
    assert!(!watch.accepts(&WatchEvent::ReaderGone), "the reader still reads");
    assert!(watch.accepts(&WatchEvent::Deadline));
}
