use roost_engine::osc::{
    apply_action, map_events, ClipboardTarget, OscAction, OscColorSnapshot, OscColorState, OscEvent,
    OscReply, OscRouter, TabEffect,
};

fn colors() -> OscColorSnapshot {
    let mut palette = [(0, 0, 0); 256];
    palette[5] = (0xde, 0xad, 0xbe);
    OscColorSnapshot::new(
        (0xaa, 0xbb, 0xcc),
        (0x00, 0x11, 0x22),
        (0x98, 0x98, 0x9d),
        palette,
    )
}

/// A second theme, distinct from [`colors`] in every channel and in two palette entries.
fn theme_b() -> OscColorSnapshot {
    let mut palette = [(0, 0, 0); 256];
    palette[5] = (0x0a, 0x0b, 0x0c);
    palette[6] = (0x0d, 0x0e, 0x0f);
    OscColorSnapshot::new(
        (0x11, 0x11, 0x11),
        (0x22, 0x22, 0x22),
        (0x33, 0x33, 0x33),
        palette,
    )
}

fn query(number: u32) -> OscEvent {
    OscEvent::ColorQuery(number)
}

fn entry(index: u8) -> OscEvent {
    OscEvent::PaletteQuery(vec![index])
}

fn set_color(number: u32, color: (u8, u8, u8)) -> OscEvent {
    OscEvent::ColorSet { number, color }
}

fn reply_color(action: &OscAction) -> String {
    match action {
        OscAction::PtyInput(replies) => replies[0].color_spec(),
        other => panic!("expected a PTY reply, got {other:?}"),
    }
}

#[test]
fn actions_preserve_wire_order_and_separate_ui_ports() {
    let router = OscRouter::new();
    let events = vec![
        OscEvent::Title("build".into()),
        OscEvent::CommandMark("C".into()),
        OscEvent::MouseShape("pointer".into()),
    ];
    assert_eq!(
        router.feed(events, &colors()),
        vec![
            OscAction::Workspace { command: 0, payload: "build".into() },
            OscAction::Workspace { command: 133, payload: "C".into() },
            OscAction::PointerShape("pointer".into()),
        ]
    );
}

#[test]
fn color_and_palette_queries_use_supplied_live_snapshot() {
    let router = OscRouter::new();
    let actions = router.feed(vec![query(11), entry(5)], &colors());
    assert_eq!(actions.len(), 2);
    assert!(reply_color(&actions[0]).contains("0000/1111/2222"));
    assert!(reply_color(&actions[1]).contains("dede/adad/bebe"));
}

#[test]
fn caller_snapshot_feed_ignores_sets_and_resets() {
    let router = OscRouter::new();
    let events = vec![
        set_color(11, (0x00, 0x11, 0x22)),
        OscEvent::PaletteSet(vec![(5, (0x11, 0x22, 0x33))]),
        OscEvent::ColorReset(111),
        OscEvent::PaletteReset(vec![]),
    ];
    assert_eq!(router.feed(events, &colors()), Vec::<OscAction>::new());
}

#[test]
fn stateful_feed_answers_a_cross_chunk_set_with_the_new_color() {
    let router = OscRouter::new();
    let mut state = OscColorState::new(colors());
    assert!(router
        .feed_stateful(vec![set_color(11, (0xaa, 0xaa, 0xaa))], &mut state)
        .is_empty());
    let actions = router.feed_stateful(vec![query(11)], &mut state);
    assert_eq!(actions.len(), 1);
    assert!(reply_color(&actions[0]).contains("aaaa/aaaa/aaaa"));
}

#[test]
fn stateful_feed_answers_a_same_chunk_set_with_the_pre_chunk_color() {
    let router = OscRouter::new();
    let mut state = OscColorState::new(colors());
    let actions =
        router.feed_stateful(vec![set_color(11, (0xaa, 0xaa, 0xaa)), query(11)], &mut state);
    assert_eq!(actions.len(), 1);
    let reply = reply_color(&actions[0]);
    assert!(reply.contains("0000/1111/2222"), "{reply}");
    assert!(!reply.contains("aaaa/aaaa/aaaa"), "{reply}");

    // The chunk after it sees the new color.
    let actions = router.feed_stateful(vec![query(11)], &mut state);
    assert!(reply_color(&actions[0]).contains("aaaa/aaaa/aaaa"));
}

#[test]
fn stateful_feed_tracks_the_palette_and_its_resets() {
    let router = OscRouter::new();
    let mut state = OscColorState::new(colors());
    router.feed_stateful(vec![OscEvent::PaletteSet(vec![(5, (0x11, 0x22, 0x33))])], &mut state);
    let actions = router.feed_stateful(vec![entry(5)], &mut state);
    assert!(reply_color(&actions[0]).contains("1111/2222/3333"));

    router.feed_stateful(vec![OscEvent::PaletteReset(vec![5])], &mut state);
    let actions = router.feed_stateful(vec![entry(5)], &mut state);
    assert!(
        reply_color(&actions[0]).contains("dede/adad/bebe"),
        "a reset must restore the seeded palette entry"
    );
}

#[test]
fn stateful_feed_resets_each_color_channel_to_the_seed() {
    let router = OscRouter::new();
    let mut state = OscColorState::new(colors());
    router.feed_stateful(
        vec![
            set_color(10, (0x01, 0x02, 0x03)),
            set_color(11, (0x04, 0x05, 0x06)),
            set_color(12, (0x07, 0x08, 0x09)),
        ],
        &mut state,
    );
    router.feed_stateful(
        vec![OscEvent::ColorReset(110), OscEvent::ColorReset(111), OscEvent::ColorReset(112)],
        &mut state,
    );
    let actions = router.feed_stateful(vec![query(10), query(11), query(12)], &mut state);
    assert_eq!(actions.len(), 3);
    assert!(reply_color(&actions[0]).contains("aaaa/bbbb/cccc"));
    assert!(reply_color(&actions[1]).contains("0000/1111/2222"));
    assert!(reply_color(&actions[2]).contains("9898/9898/9d9d"));
}

#[test]
fn reseeding_moves_every_channel_the_program_has_not_claimed() {
    let router = OscRouter::new();
    let mut state = OscColorState::new(colors());
    state.reseed(theme_b());

    let actions =
        router.feed_stateful(vec![query(10), query(11), query(12), entry(5)], &mut state);
    assert!(reply_color(&actions[0]).contains("1111/1111/1111"));
    assert!(reply_color(&actions[1]).contains("2222/2222/2222"));
    assert!(reply_color(&actions[2]).contains("3333/3333/3333"));
    assert!(reply_color(&actions[3]).contains("0a0a/0b0b/0c0c"));
}

#[test]
fn a_program_set_color_outlives_a_reseed_in_either_order() {
    let router = OscRouter::new();
    let mut state = OscColorState::new(colors());
    router.feed_stateful(vec![set_color(11, (0xab, 0xcd, 0xef))], &mut state);
    state.reseed(theme_b());
    let actions = router.feed_stateful(vec![query(11)], &mut state);
    assert!(
        reply_color(&actions[0]).contains("abab/cdcd/efef"),
        "the theme must not clobber a color the program set"
    );

    let mut state = OscColorState::new(colors());
    state.reseed(theme_b());
    router.feed_stateful(vec![set_color(11, (0xab, 0xcd, 0xef))], &mut state);
    let actions = router.feed_stateful(vec![query(11)], &mut state);
    assert!(reply_color(&actions[0]).contains("abab/cdcd/efef"));
}

#[test]
fn a_reset_hands_the_channel_back_to_the_theme() {
    let router = OscRouter::new();
    let mut state = OscColorState::new(colors());
    router.feed_stateful(
        vec![set_color(11, (0xab, 0xcd, 0xef)), OscEvent::ColorReset(111)],
        &mut state,
    );
    let actions = router.feed_stateful(vec![query(11)], &mut state);
    assert!(reply_color(&actions[0]).contains("0000/1111/2222"));
    state.reseed(theme_b());
    let actions = router.feed_stateful(vec![query(11)], &mut state);
    assert!(
        reply_color(&actions[0]).contains("2222/2222/2222"),
        "the reset cleared the program's claim, so the reseed applies"
    );
}

#[test]
fn a_program_set_palette_entry_outlives_a_reseed_until_it_is_reset() {
    let router = OscRouter::new();
    let mut state = OscColorState::new(colors());
    router.feed_stateful(vec![OscEvent::PaletteSet(vec![(5, (0xab, 0xcd, 0xef))])], &mut state);
    state.reseed(theme_b());

    let actions = router.feed_stateful(vec![entry(5), entry(6)], &mut state);
    assert!(
        reply_color(&actions[0]).contains("abab/cdcd/efef"),
        "entry 5 was claimed by the program"
    );
    assert!(
        reply_color(&actions[1]).contains("0d0d/0e0e/0f0f"),
        "entry 6 was not, so the new theme owns it"
    );

    router.feed_stateful(vec![OscEvent::PaletteReset(vec![5])], &mut state);
    let actions = router.feed_stateful(vec![entry(5)], &mut state);
    assert!(reply_color(&actions[0]).contains("0a0a/0b0b/0c0c"));

    let mut third = theme_b();
    third.palette[5] = (0x77, 0x77, 0x77);
    state.reseed(third);
    let actions = router.feed_stateful(vec![entry(5)], &mut state);
    assert!(reply_color(&actions[0]).contains("7777/7777/7777"));
}

#[test]
fn a_bare_osc_104_releases_every_palette_claim() {
    let router = OscRouter::new();
    let mut state = OscColorState::new(colors());
    router.feed_stateful(
        vec![OscEvent::PaletteSet(vec![(5, (0xab, 0xcd, 0xef)), (6, (0x12, 0x34, 0x56))])],
        &mut state,
    );
    router.feed_stateful(vec![OscEvent::PaletteReset(vec![])], &mut state);
    state.reseed(theme_b());

    let actions = router.feed_stateful(vec![entry(5), entry(6)], &mut state);
    assert!(reply_color(&actions[0]).contains("0a0a/0b0b/0c0c"));
    assert!(reply_color(&actions[1]).contains("0d0d/0e0e/0f0f"));
}

#[test]
fn notification_and_clipboard_payloads_are_explicit_actions() {
    let router = OscRouter::new();
    let actions = router.feed(
        vec![
            OscEvent::Notification { title: "Build".into(), body: "Passed".into() },
            OscEvent::Clipboard { target: ClipboardTarget::System, text: "hello".into() },
        ],
        &colors(),
    );
    assert_eq!(
        actions,
        vec![
            OscAction::Workspace { command: 777, payload: "notify;Build;Passed".into() },
            OscAction::ClipboardWrite { target: ClipboardTarget::System, text: "hello".into() },
        ]
    );
}

#[test]
fn a_directory_and_a_bare_title_keep_their_numbers() {
    let actions = map_events(
        vec![
            OscEvent::Pwd("/Users/me".into()),
            OscEvent::Notification { title: "Hello".into(), body: String::new() },
            OscEvent::PaletteQuery(vec![]),
            OscEvent::ColorQuery(13),
        ],
        &colors(),
    );
    assert_eq!(
        actions,
        vec![
            OscAction::Workspace { command: 7, payload: "file:///Users/me".into() },
            OscAction::Workspace { command: 9, payload: "Hello".into() },
        ]
    );
}

#[test]
fn a_color_is_spelled_with_each_byte_twice() {
    let reply = OscReply::Color { number: 10, color: (0x0a, 0xff, 0x07) };
    assert_eq!(reply.color_spec(), "rgb:0a0a/ffff/0707");
}

#[test]
fn an_action_becomes_what_a_tab_does() {
    let reply = OscReply::Palette { index: 1, color: (1, 2, 3) };
    assert_eq!(
        apply_action(OscAction::PtyInput(vec![reply])),
        TabEffect::Reply(vec![reply])
    );
}
