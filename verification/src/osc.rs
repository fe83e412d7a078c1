//! What a terminal's control sequences come to: color state, query replies and effects.
use vstd::prelude::*;
use vstd::string::*;

use crate::text;

verus! {

/// An 8-bit color.
pub type OscRgb = (u8, u8, u8);

/// Colors in effect right before a chunk of output is applied.
#[derive(Debug, PartialEq, Eq)]
pub struct OscColorSnapshot {
    pub foreground: OscRgb,
    pub background: OscRgb,
    pub cursor: OscRgb,
    pub palette: [OscRgb; 256],
}

/// An [`OscColorSnapshot`] by its colors.
#[verifier::ext_equal]
pub struct Colors {
    pub foreground: OscRgb,
    pub background: OscRgb,
    pub cursor: OscRgb,
    pub palette: Seq<OscRgb>,
}

impl View for OscColorSnapshot {
    type V = Colors;

    open spec fn view(&self) -> Colors {
        Colors {
            foreground: self.foreground,
            background: self.background,
            cursor: self.cursor,
            palette: self.palette@,
        }
    }
}

impl OscColorSnapshot {
    pub fn new(
        foreground: OscRgb,
        background: OscRgb,
        cursor: OscRgb,
        palette: [OscRgb; 256],
    ) -> (out: OscColorSnapshot)
        ensures
            out@ == (Colors { foreground, background, cursor, palette: palette@ }),
    {
        OscColorSnapshot { foreground, background, cursor, palette }
    }

    /// Another snapshot with the same colors.
    pub fn copy(&self) -> (out: OscColorSnapshot)
        ensures
            out@ == self@,
    {
        OscColorSnapshot {
            foreground: self.foreground,
            background: self.background,
            cursor: self.cursor,
            palette: self.palette,
        }
    }
}

/// Where copied text goes.
#[derive(Debug, Clone, Copy, PartialEq, Eq, Structural)]
pub enum ClipboardTarget {
    System,
    Selection,
}

/// One control sequence, as a scanner reads it off a terminal's output.
#[derive(Debug, PartialEq, Eq)]
pub enum OscEvent {
    Title(String),
    Pwd(String),
    Notification { title: String, body: String },
    CommandMark(String),
    ColorQuery(u32),
    PaletteQuery(Vec<u8>),
    Clipboard { target: ClipboardTarget, text: String },
    MouseShape(String),
    ColorSet { number: u32, color: OscRgb },
    ColorReset(u32),
    PaletteSet(Vec<(u8, OscRgb)>),
    /// The named entries, or every entry where none is named.
    PaletteReset(Vec<u8>),
}

/// What one query is answered with.
#[derive(Debug, Clone, Copy, PartialEq, Eq)]
pub enum OscReply {
    Color { number: u32, color: OscRgb },
    Palette { index: u8, color: OscRgb },
}

/// A color channel as a reply spells it: each byte's two digits, twice over.
pub open spec fn wide_hex(byte: u8) -> Seq<char> {
    text::hex_padded(byte as nat, 2) + text::hex_padded(byte as nat, 2)
}

/// A color as a reply spells it.
pub open spec fn color_text(color: OscRgb) -> Seq<char> {
    "rgb:"@ + wide_hex(color.0) + "/"@ + wide_hex(color.1) + "/"@ + wide_hex(color.2)
}

fn push_wide(out: &mut String, byte: u8)
    ensures
        final(out)@ == old(out)@ + wide_hex(byte),
{
    let pair: String = text::hex_padded_u64(byte as u64, 2);
    out.append(pair.as_str());
    out.append(pair.as_str());
    assert(out@ =~= old(out)@ + wide_hex(byte));
}

impl OscReply {
    /// The color a reply names.
    pub open spec fn color(self) -> OscRgb {
        match self {
            OscReply::Color { color, .. } => color,
            OscReply::Palette { color, .. } => color,
        }
    }

    /// The color as the reply spells it.
    pub fn color_spec(&self) -> (out: String)
        ensures
            out@ == color_text(self.color()),
    {
        let color: OscRgb = match self {
            OscReply::Color { color, .. } => *color,
            OscReply::Palette { color, .. } => *color,
        };
        let mut out: String = "rgb:".to_owned();
        push_wide(&mut out, color.0);
        out.append("/");
        push_wide(&mut out, color.1);
        out.append("/");
        push_wide(&mut out, color.2);
        out
    }
}

/// An effect that a control sequence asks for.
#[derive(Debug, PartialEq, Eq)]
pub enum OscAction {
    /// Apply a transition to the workspace.
    Workspace { command: u32, payload: String },
    /// Answer queries on the child's input.
    PtyInput(Vec<OscReply>),
    /// Write text to a clipboard.
    ClipboardWrite { target: ClipboardTarget, text: String },
    /// Show a named pointer.
    PointerShape(String),
}

/// An [`OscAction`] by what it carries.
pub enum ActionView {
    Workspace { command: u32, payload: Seq<char> },
    PtyInput(Seq<OscReply>),
    ClipboardWrite { target: ClipboardTarget, text: Seq<char> },
    PointerShape(Seq<char>),
}

impl View for OscAction {
    type V = ActionView;

    open spec fn view(&self) -> ActionView {
        match *self {
            OscAction::Workspace { command, payload } => ActionView::Workspace {
                command,
                payload: payload@,
            },
            OscAction::PtyInput(replies) => ActionView::PtyInput(replies@),
            OscAction::ClipboardWrite { target, text } => ActionView::ClipboardWrite {
                target,
                text: text@,
            },
            OscAction::PointerShape(name) => ActionView::PointerShape(name@),
        }
    }
}

/// The color a query of channel `number` is answered with.
pub open spec fn channel(colors: Colors, number: u32) -> Option<OscRgb> {
    if number == 10 {
        Some(colors.foreground)
    } else if number == 11 {
        Some(colors.background)
    } else if number == 12 {
        Some(colors.cursor)
    } else {
        None
    }
}

/// The replies to a query of palette entries.
pub open spec fn palette_replies(colors: Colors, indices: Seq<u8>) -> Seq<OscReply> {
    indices.map_values(
        |index: u8| OscReply::Palette { index, color: colors.palette[index as int] },
    )
}

/// The effect of one event, answered from `colors`. Setting and resetting colors has none.
pub open spec fn action_of(event: OscEvent, colors: Colors) -> Option<ActionView> {
    match event {
        OscEvent::Title(title) => Some(ActionView::Workspace { command: 0, payload: title@ }),
        OscEvent::Pwd(path) => Some(
            ActionView::Workspace { command: 7, payload: "file://"@ + path@ },
        ),
        OscEvent::Notification { title, body } => Some(
            if body@.len() == 0 {
                ActionView::Workspace { command: 9, payload: title@ }
            } else {
                ActionView::Workspace {
                    command: 777,
                    payload: "notify;"@ + title@ + ";"@ + body@,
                }
            },
        ),
        OscEvent::CommandMark(payload) => Some(
            ActionView::Workspace { command: 133, payload: payload@ },
        ),
        OscEvent::ColorQuery(number) => match channel(colors, number) {
            Some(color) => Some(ActionView::PtyInput(seq![OscReply::Color { number, color }])),
            None => None,
        },
        OscEvent::PaletteQuery(indices) => if indices@.len() > 0 {
            Some(ActionView::PtyInput(palette_replies(colors, indices@)))
        } else {
            None
        },
        OscEvent::Clipboard { target, text } => Some(
            ActionView::ClipboardWrite { target, text: text@ },
        ),
        OscEvent::MouseShape(name) => Some(ActionView::PointerShape(name@)),
        _ => None,
    }
}

/// The effects of a chunk's events, in the order they came.
pub open spec fn actions_of(events: Seq<OscEvent>, colors: Colors) -> Seq<ActionView>
    decreases events.len(),
{
    if events.len() == 0 {
        seq![]
    } else {
        let before = actions_of(events.drop_last(), colors);
        match action_of(events.last(), colors) {
            Some(action) => before.push(action),
            None => before,
        }
    }
}

/// The views of a list of actions.
pub open spec fn action_views(actions: Seq<OscAction>) -> Seq<ActionView> {
    actions.map_values(|a: OscAction| a@)
}

fn map_event(event: OscEvent, colors: &OscColorSnapshot) -> (out: Option<OscAction>)
    ensures
        out is Some <==> action_of(event, colors@) is Some,
        out matches Some(a) ==> action_of(event, colors@) == Some(a@),
{
    match event {
        OscEvent::Title(title) => Some(OscAction::Workspace { command: 0, payload: title }),
        OscEvent::Pwd(path) => Some(
            OscAction::Workspace { command: 7, payload: text::join2("file://", path.as_str()) },
        ),
        OscEvent::Notification { title, body } => {
            if body.as_str().is_empty() {
                Some(OscAction::Workspace { command: 9, payload: title })
            } else {
                Some(
                    OscAction::Workspace {
                        command: 777,
                        payload: text::join4("notify;", title.as_str(), ";", body.as_str()),
                    },
                )
            }
        },
        OscEvent::CommandMark(payload) => Some(OscAction::Workspace { command: 133, payload }),
        OscEvent::ColorQuery(number) => {
            let color: Option<OscRgb> = if number == 10 {
                Some(colors.foreground)
            } else if number == 11 {
                Some(colors.background)
            } else if number == 12 {
                Some(colors.cursor)
            } else {
                None
            };
            match color {
                Some(color) => {
                    let mut replies: Vec<OscReply> = Vec::new();
                    replies.push(OscReply::Color { number, color });
                    assert(replies@ =~= seq![OscReply::Color { number, color }]);
                    Some(OscAction::PtyInput(replies))
                },
                None => None,
            }
        },
        OscEvent::PaletteQuery(indices) => {
            let mut replies: Vec<OscReply> = Vec::new();
            let mut i: usize = 0;
            while i < indices.len()
                invariant
                    i <= indices@.len(),
                    replies@ == palette_replies(colors@, indices@.take(i as int)),
                decreases indices@.len() - i,
            {
                let index: u8 = indices[i];
                replies.push(OscReply::Palette { index, color: colors.palette[index as usize] });
                assert(replies@ =~= palette_replies(colors@, indices@.take(i + 1)));
                i = i + 1;
            }
            assert(indices@.take(i as int) =~= indices@);
            if replies.len() == 0 {
                None
            } else {
                Some(OscAction::PtyInput(replies))
            }
        },
        OscEvent::Clipboard { target, text } => Some(OscAction::ClipboardWrite { target, text }),
        OscEvent::MouseShape(name) => Some(OscAction::PointerShape(name)),
        _ => None,
    }
}

/// The effects of a chunk's events, in the order they came, with every query answered from
/// `colors`.
pub fn map_events(events: Vec<OscEvent>, colors: &OscColorSnapshot) -> (out: Vec<OscAction>)
    ensures
        action_views(out@) == actions_of(events@, colors@),
{
    let mut out: Vec<OscAction> = Vec::new();
    assert(action_views(out@) =~= seq![]);
    let ghost all = events@;
    for event in it: events
        invariant
            it.seq() == all,
            action_views(out@) == actions_of(it.seq().take(it.index() as int), colors@),
    {
        let ghost before = action_views(out@);
        let ghost n = it.index() as int;
        assert(it.seq().take(n + 1).drop_last() =~= it.seq().take(n));
        match map_event(event, colors) {
            Some(action) => {
                out.push(action);
                assert(action_views(out@) =~= before.push(action@));
            },
            None => {},
        }
    }
    assert(all.take(all.len() as int) =~= all);
    out
}

/// Which colors a program has taken for itself.
#[verifier::ext_equal]
pub struct Claims {
    pub foreground: bool,
    pub background: bool,
    pub cursor: bool,
    pub palette: Seq<bool>,
}

/// A color state by its colors.
#[verifier::ext_equal]
pub struct StateView {
    pub current: Colors,
    pub defaults: Colors,
    pub claimed: Claims,
}

/// The palette with each pair set, one after the other.
pub open spec fn set_entries(palette: Seq<OscRgb>, pairs: Seq<(u8, OscRgb)>) -> Seq<OscRgb>
    decreases pairs.len(),
{
    if pairs.len() == 0 {
        palette
    } else {
        set_entries(palette, pairs.drop_last()).update(pairs.last().0 as int, pairs.last().1)
    }
}

/// The flags with each named one put to `flag`.
pub open spec fn mark_entries(flags: Seq<bool>, indices: Seq<u8>, flag: bool) -> Seq<bool>
    decreases indices.len(),
{
    if indices.len() == 0 {
        flags
    } else {
        mark_entries(flags, indices.drop_last(), flag).update(indices.last() as int, flag)
    }
}

/// The palette with each named entry taken from `from`.
pub open spec fn restore_entries(
    palette: Seq<OscRgb>,
    from: Seq<OscRgb>,
    indices: Seq<u8>,
) -> Seq<OscRgb>
    decreases indices.len(),
{
    if indices.len() == 0 {
        palette
    } else {
        restore_entries(palette, from, indices.drop_last()).update(
            indices.last() as int,
            from[indices.last() as int],
        )
    }
}

/// The entries that pairs name.
pub open spec fn named(pairs: Seq<(u8, OscRgb)>) -> Seq<u8> {
    pairs.map_values(|p: (u8, OscRgb)| p.0)
}

impl StateView {
    /// What every state keeps: a color that no program has taken is the theme's.
    pub open spec fn ok(self) -> bool {
        &&& self.current.palette.len() == 256
        &&& self.defaults.palette.len() == 256
        &&& self.claimed.palette.len() == 256
        &&& (!self.claimed.foreground ==> self.current.foreground == self.defaults.foreground)
        &&& (!self.claimed.background ==> self.current.background == self.defaults.background)
        &&& (!self.claimed.cursor ==> self.current.cursor == self.defaults.cursor)
        &&& forall|i: int|
            0 <= i < 256 && !(#[trigger] self.claimed.palette[i]) ==> self.current.palette[i]
                == self.defaults.palette[i]
    }

    /// A state that shows a theme and nothing else.
    pub open spec fn seeded(seed: Colors) -> StateView {
        StateView {
            current: seed,
            defaults: seed,
            claimed: Claims {
                foreground: false,
                background: false,
                cursor: false,
                palette: Seq::new(256, |i: int| false),
            },
        }
    }

    /// The state under a new theme: what no program has taken moves to it.
    pub open spec fn reseed(self, seed: Colors) -> StateView {
        StateView {
            current: Colors {
                foreground: if self.claimed.foreground {
                    self.current.foreground
                } else {
                    seed.foreground
                },
                background: if self.claimed.background {
                    self.current.background
                } else {
                    seed.background
                },
                cursor: if self.claimed.cursor {
                    self.current.cursor
                } else {
                    seed.cursor
                },
                palette: Seq::new(
                    256,
                    |i: int|
                        if self.claimed.palette[i] {
                            self.current.palette[i]
                        } else {
                            seed.palette[i]
                        },
                ),
            },
            defaults: seed,
            claimed: self.claimed,
        }
    }

    /// The state after one event. A set takes the color, a reset gives it back to the
    /// theme, and every other event leaves it alone.
    pub open spec fn apply(self, event: OscEvent) -> StateView {
        match event {
            OscEvent::ColorSet { number, color } => if number == 10 {
                StateView {
                    current: Colors { foreground: color, ..self.current },
                    claimed: Claims { foreground: true, ..self.claimed },
                    ..self
                }
            } else if number == 11 {
                StateView {
                    current: Colors { background: color, ..self.current },
                    claimed: Claims { background: true, ..self.claimed },
                    ..self
                }
            } else if number == 12 {
                StateView {
                    current: Colors { cursor: color, ..self.current },
                    claimed: Claims { cursor: true, ..self.claimed },
                    ..self
                }
            } else {
                self
            },
            OscEvent::ColorReset(number) => if number == 110 {
                StateView {
                    current: Colors { foreground: self.defaults.foreground, ..self.current },
                    claimed: Claims { foreground: false, ..self.claimed },
                    ..self
                }
            } else if number == 111 {
                StateView {
                    current: Colors { background: self.defaults.background, ..self.current },
                    claimed: Claims { background: false, ..self.claimed },
                    ..self
                }
            } else if number == 112 {
                StateView {
                    current: Colors { cursor: self.defaults.cursor, ..self.current },
                    claimed: Claims { cursor: false, ..self.claimed },
                    ..self
                }
            } else {
                self
            },
            OscEvent::PaletteSet(pairs) => StateView {
                current: Colors {
                    palette: set_entries(self.current.palette, pairs@),
                    ..self.current
                },
                claimed: Claims {
                    palette: mark_entries(self.claimed.palette, named(pairs@), true),
                    ..self.claimed
                },
                ..self
            },
            OscEvent::PaletteReset(indices) => if indices@.len() == 0 {
                StateView {
                    current: Colors { palette: self.defaults.palette, ..self.current },
                    claimed: Claims {
                        palette: Seq::new(256, |i: int| false),
                        ..self.claimed
                    },
                    ..self
                }
            } else {
                StateView {
                    current: Colors {
                        palette: restore_entries(
                            self.current.palette,
                            self.defaults.palette,
                            indices@,
                        ),
                        ..self.current
                    },
                    claimed: Claims {
                        palette: mark_entries(self.claimed.palette, indices@, false),
                        ..self.claimed
                    },
                    ..self
                }
            },
            _ => self,
        }
    }

    /// The state after a chunk's events, one after the other.
    pub open spec fn apply_all(self, events: Seq<OscEvent>) -> StateView
        decreases events.len(),
    {
        if events.len() == 0 {
            self
        } else {
            self.apply_all(events.drop_last()).apply(events.last())
        }
    }
}

/// Whether an event moves the colors at all.
pub open spec fn moves(event: OscEvent) -> bool {
    event is ColorSet || event is ColorReset || event is PaletteSet || event is PaletteReset
}

/// Whether an event moves the colors at all.
fn moves_color_state(event: &OscEvent) -> (yes: bool)
    ensures
        yes == moves(*event),
{
    match event {
        OscEvent::ColorSet { .. } => true,
        OscEvent::ColorReset(_) => true,
        OscEvent::PaletteSet(_) => true,
        OscEvent::PaletteReset(_) => true,
        _ => false,
    }
}

/// What moves no color leaves the state as it is.
pub proof fn law_only_color_events_move_the_state(s: StateView, events: Seq<OscEvent>)
    requires
        forall|i: int| 0 <= i < events.len() ==> !moves(#[trigger] events[i]),
    ensures
        s.apply_all(events) == s,
    decreases events.len(),
{
    if events.len() > 0 {
        law_only_color_events_move_the_state(s, events.drop_last());
    }
}

proof fn lemma_mark(flags: Seq<bool>, indices: Seq<u8>, flag: bool)
    requires
        flags.len() == 256,
    ensures
        mark_entries(flags, indices, flag).len() == 256,
        forall|i: int|
            0 <= i < 256 ==> (#[trigger] mark_entries(flags, indices, flag)[i]) == (if exists|
                k: int,
            |
                0 <= k < indices.len() && indices[k] as int == i {
                flag
            } else {
                flags[i]
            }),
    decreases indices.len(),
{
    if indices.len() > 0 {
        lemma_mark(flags, indices.drop_last(), flag);
        assert forall|i: int| 0 <= i < 256 implies (#[trigger] mark_entries(
            flags,
            indices,
            flag,
        )[i]) == (if exists|k: int| 0 <= k < indices.len() && indices[k] as int == i {
            flag
        } else {
            flags[i]
        }) by {
            if indices.last() as int == i {
                assert(indices[indices.len() - 1] as int == i);
            } else {
                if exists|k: int| 0 <= k < indices.len() && indices[k] as int == i {
                    let k = choose|k: int| 0 <= k < indices.len() && indices[k] as int == i;
                    assert(indices.drop_last()[k] as int == i);
                }
                if exists|k: int|
                    0 <= k < indices.drop_last().len() && indices.drop_last()[k] as int == i {
                    let k = choose|k: int|
                        0 <= k < indices.drop_last().len() && indices.drop_last()[k] as int == i;
                    assert(indices[k] as int == i);
                }
            }
        }
    }
}

proof fn lemma_set(palette: Seq<OscRgb>, pairs: Seq<(u8, OscRgb)>)
    requires
        palette.len() == 256,
    ensures
        set_entries(palette, pairs).len() == 256,
        forall|i: int|
            0 <= i < 256 && (forall|k: int| 0 <= k < pairs.len() ==> pairs[k].0 as int != i)
                ==> #[trigger] set_entries(palette, pairs)[i] == palette[i],
    decreases pairs.len(),
{
    if pairs.len() > 0 {
        let init = pairs.drop_last();
        lemma_set(palette, init);
        assert forall|i: int|
            0 <= i < 256 && (forall|k: int|
                0 <= k < pairs.len() ==> pairs[k].0 as int
                    != i) implies #[trigger] set_entries(palette, pairs)[i] == palette[i] by {
            assert(pairs[pairs.len() - 1].0 as int != i);
            assert forall|k: int| 0 <= k < init.len() implies init[k].0 as int != i by {
                assert(pairs[k].0 as int != i);
            }
            assert(set_entries(palette, init)[i] == palette[i]);
        }
    }
}

proof fn lemma_restore(palette: Seq<OscRgb>, from: Seq<OscRgb>, indices: Seq<u8>)
    requires
        palette.len() == 256,
    ensures
        restore_entries(palette, from, indices).len() == 256,
        forall|i: int|
            0 <= i < 256 ==> (#[trigger] restore_entries(palette, from, indices)[i])
                == palette[i] || restore_entries(palette, from, indices)[i] == from[i],
        forall|i: int, k: int|
            #![trigger restore_entries(palette, from, indices)[i], indices[k]]
            0 <= i < 256 && 0 <= k < indices.len() && indices[k] as int == i ==> restore_entries(
                palette,
                from,
                indices,
            )[i] == from[i],
    decreases indices.len(),
{
    if indices.len() > 0 {
        let init = indices.drop_last();
        lemma_restore(palette, from, init);
        assert forall|i: int| 0 <= i < 256 implies (#[trigger] restore_entries(
            palette,
            from,
            indices,
        )[i]) == palette[i] || restore_entries(palette, from, indices)[i] == from[i] by {
            assert(restore_entries(palette, from, init)[i] == palette[i] || restore_entries(
                palette,
                from,
                init,
            )[i] == from[i]);
        }
        assert forall|i: int, k: int|
            #![trigger restore_entries(palette, from, indices)[i], indices[k]]
            0 <= i < 256 && 0 <= k < indices.len() && indices[k] as int
                == i implies restore_entries(palette, from, indices)[i] == from[i] by {
            if indices.last() as int != i {
                assert(init[k] as int == i);
                assert(restore_entries(palette, from, init)[i] == from[i]);
            }
        }
    }
}

/// Whatever a program sets or resets and whatever theme lands, a color that no program has
/// taken is the theme's.
pub proof fn law_unclaimed_colors_are_the_themes(s: StateView, event: OscEvent, seed: Colors)
    requires
        s.ok(),
        seed.palette.len() == 256,
    ensures
        s.apply(event).ok(),
        s.reseed(seed).ok(),
        StateView::seeded(seed).ok(),
{
    match event {
        OscEvent::PaletteSet(pairs) => {
            lemma_mark(s.claimed.palette, named(pairs@), true);
            lemma_set(s.current.palette, pairs@);
            let t = s.apply(event);
            assert forall|i: int| 0 <= i < 256 && !(#[trigger] t.claimed.palette[i]) implies
                t.current.palette[i] == t.defaults.palette[i] by {
                assert forall|k: int| 0 <= k < pairs@.len() implies pairs@[k].0 as int != i by {
                    if pairs@[k].0 as int == i {
                        assert(named(pairs@)[k] as int == i);
                    }
                }
                assert(t.current.palette[i] == s.current.palette[i]);
                assert(!s.claimed.palette[i]);
            }
        },
        OscEvent::PaletteReset(indices) => {
            if indices@.len() > 0 {
                lemma_mark(s.claimed.palette, indices@, false);
                lemma_restore(s.current.palette, s.defaults.palette, indices@);
                let t = s.apply(event);
                assert forall|i: int| 0 <= i < 256 && !(
                #[trigger] t.claimed.palette[i]) implies t.current.palette[i]
                    == t.defaults.palette[i] by {
                    if exists|k: int| 0 <= k < indices@.len() && indices@[k] as int == i {
                        let k = choose|k: int|
                            0 <= k < indices@.len() && indices@[k] as int == i;
                        assert(t.current.palette[i] == s.defaults.palette[i]);
                    } else {
                        assert(!s.claimed.palette[i]);
                        assert(t.current.palette[i] == s.current.palette[i]
                            || t.current.palette[i] == s.defaults.palette[i]);
                    }
                }
            }
        },
        _ => {},
    }
}

/// A color that a program set outlives a theme, in whichever order the two land.
pub proof fn law_a_set_color_outlives_a_theme(
    s: StateView,
    number: u32,
    color: OscRgb,
    seed: Colors,
)
    requires
        s.ok(),
        number == 10 || number == 11 || number == 12,
    ensures
        channel(s.apply(OscEvent::ColorSet { number, color }).reseed(seed).current, number)
            == Some(color),
        channel(s.reseed(seed).apply(OscEvent::ColorSet { number, color }).current, number)
            == Some(color),
{
}

/// A reset hands a color back: it shows the theme at once, and every later theme after that.
pub proof fn law_a_reset_hands_the_color_back(s: StateView, number: u32, seed: Colors)
    requires
        s.ok(),
        number == 10 || number == 11 || number == 12,
    ensures
        channel(s.apply(OscEvent::ColorReset((number + 100) as u32)).current, number) == channel(
            s.defaults,
            number,
        ),
        channel(
            s.apply(OscEvent::ColorReset((number + 100) as u32)).reseed(seed).current,
            number,
        ) == channel(seed, number),
{
}

/// A palette entry that a program set outlives a theme, until it is reset.
pub proof fn law_a_set_entry_outlives_a_theme(
    s: StateView,
    pairs: Vec<(u8, OscRgb)>,
    indices: Vec<u8>,
    i: int,
    seed: Colors,
)
    requires
        s.ok(),
        seed.palette.len() == 256,
        0 <= i < 256,
    ensures
        named(pairs@).contains(i as u8) ==> s.apply(OscEvent::PaletteSet(pairs)).reseed(
            seed,
        ).current.palette[i] == s.apply(OscEvent::PaletteSet(pairs)).current.palette[i],
        indices@.contains(i as u8) ==> s.apply(OscEvent::PaletteReset(indices)).reseed(
            seed,
        ).current.palette[i] == seed.palette[i],
{
    lemma_mark(s.claimed.palette, named(pairs@), true);
    lemma_mark(s.claimed.palette, indices@, false);
    if named(pairs@).contains(i as u8) {
        let k = choose|k: int| 0 <= k < named(pairs@).len() && named(pairs@)[k] == i as u8;
        assert(named(pairs@)[k] as int == i);
        assert(s.apply(OscEvent::PaletteSet(pairs)).claimed.palette[i]);
    }
    if indices@.contains(i as u8) {
        let k = choose|k: int| 0 <= k < indices@.len() && indices@[k] == i as u8;
        assert(indices@[k] as int == i);
        assert(!s.apply(OscEvent::PaletteReset(indices)).claimed.palette[i]);
    }
}

/// A reset that names no entry releases every claim on the palette: it shows the theme, and
/// every later theme after that.
pub proof fn law_a_bare_reset_releases_the_palette(
    s: StateView,
    indices: Vec<u8>,
    seed: Colors,
    i: int,
)
    requires
        s.ok(),
        indices@.len() == 0,
        0 <= i < 256,
    ensures
        s.apply(OscEvent::PaletteReset(indices)).current.palette == s.defaults.palette,
        s.apply(OscEvent::PaletteReset(indices)).reseed(seed).current.palette[i]
            == seed.palette[i],
{
}

/// Color state of a scanner that answers queries ahead of the terminal.
#[derive(Debug, PartialEq, Eq)]
pub struct OscColorState {
    pub current: OscColorSnapshot,
    /// The last theme: what a color shows that no program has taken.
    pub defaults: OscColorSnapshot,
    pub foreground_set: bool,
    pub background_set: bool,
    pub cursor_set: bool,
    pub palette_set: [bool; 256],
}

impl View for OscColorState {
    type V = StateView;

    open spec fn view(&self) -> StateView {
        StateView {
            current: self.current@,
            defaults: self.defaults@,
            claimed: Claims {
                foreground: self.foreground_set,
                background: self.background_set,
                cursor: self.cursor_set,
                palette: self.palette_set@,
            },
        }
    }
}

impl OscColorState {
    /// A state that shows a theme and nothing else.
    pub fn new(seed: OscColorSnapshot) -> (out: OscColorState)
        ensures
            out@ == StateView::seeded(seed@),
            out@.ok(),
    {
        let current: OscColorSnapshot = seed.copy();
        let out = OscColorState {
            current,
            defaults: seed,
            foreground_set: false,
            background_set: false,
            cursor_set: false,
            palette_set: [false; 256],
        };
        assert(out@.claimed.palette =~= Seq::new(256, |i: int| false));
        out
    }

    /// Adopts a theme: every color that no program has taken moves to it.
    pub fn reseed(&mut self, seed: OscColorSnapshot)
        ensures
            final(self)@ == old(self)@.reseed(seed@),
            old(self)@.ok() ==> final(self)@.ok(),
    {
        if !self.foreground_set {
            self.current.foreground = seed.foreground;
        }
        if !self.background_set {
            self.current.background = seed.background;
        }
        if !self.cursor_set {
            self.current.cursor = seed.cursor;
        }
        let mut i: usize = 0;
        while i < 256
            invariant
                i <= 256,
                self.palette_set == old(self).palette_set,
                self.foreground_set == old(self).foreground_set,
                self.background_set == old(self).background_set,
                self.cursor_set == old(self).cursor_set,
                self.current.foreground == old(self)@.reseed(seed@).current.foreground,
                self.current.background == old(self)@.reseed(seed@).current.background,
                self.current.cursor == old(self)@.reseed(seed@).current.cursor,
                forall|k: int|
                    0 <= k < 256 ==> (#[trigger] self.current.palette@[k]) == (if k < i {
                        old(self)@.reseed(seed@).current.palette[k]
                    } else {
                        old(self).current.palette@[k]
                    }),
            decreases 256 - i,
        {
            if !self.palette_set[i] {
                self.current.palette[i] = seed.palette[i];
            }
            i = i + 1;
        }
        self.defaults = seed;
        assert(self@.current.palette =~= old(self)@.reseed(seed@).current.palette);
        proof {
            if old(self)@.ok() {
                law_unclaimed_colors_are_the_themes(
                    old(self)@,
                    OscEvent::ColorReset(0),
                    seed@,
                );
            }
        }
    }

    /// The colors a query is answered from.
    pub fn snapshot(&self) -> (out: &OscColorSnapshot)
        ensures
            out@ == self@.current,
    {
        &self.current
    }

    fn set_foreground(&mut self, color: OscRgb)
        ensures
            final(self)@ == old(self)@.apply(OscEvent::ColorSet { number: 10, color }),
    {
        self.current.foreground = color;
        self.foreground_set = true;
    }

    fn set_background(&mut self, color: OscRgb)
        ensures
            final(self)@ == old(self)@.apply(OscEvent::ColorSet { number: 11, color }),
    {
        self.current.background = color;
        self.background_set = true;
    }

    fn set_cursor(&mut self, color: OscRgb)
        ensures
            final(self)@ == old(self)@.apply(OscEvent::ColorSet { number: 12, color }),
    {
        self.current.cursor = color;
        self.cursor_set = true;
    }

    /// Applies one event.
    pub fn apply(&mut self, event: &OscEvent)
        ensures
            final(self)@ == old(self)@.apply(*event),
            old(self)@.ok() ==> final(self)@.ok(),
    {
        proof {
            if old(self)@.ok() {
                law_unclaimed_colors_are_the_themes(old(self)@, *event, old(self)@.defaults);
            }
        }
        match event {
            OscEvent::ColorSet { number, color } => {
                if *number == 10 {
                    self.set_foreground(*color);
                } else if *number == 11 {
                    self.set_background(*color);
                } else if *number == 12 {
                    self.set_cursor(*color);
                }
            },
            OscEvent::ColorReset(number) => {
                if *number == 110 {
                    self.current.foreground = self.defaults.foreground;
                    self.foreground_set = false;
                } else if *number == 111 {
                    self.current.background = self.defaults.background;
                    self.background_set = false;
                } else if *number == 112 {
                    self.current.cursor = self.defaults.cursor;
                    self.cursor_set = false;
                }
            },
            OscEvent::PaletteSet(pairs) => {
                let mut i: usize = 0;
                assert(pairs@.take(0) =~= seq![]);
                assert(named(pairs@.take(0)) =~= seq![]);
                while i < pairs.len()
                    invariant
                        i <= pairs@.len(),
                        self@ == (StateView {
                            current: Colors {
                                palette: set_entries(
                                    old(self)@.current.palette,
                                    pairs@.take(i as int),
                                ),
                                ..old(self)@.current
                            },
                            claimed: Claims {
                                palette: mark_entries(
                                    old(self)@.claimed.palette,
                                    named(pairs@.take(i as int)),
                                    true,
                                ),
                                ..old(self)@.claimed
                            },
                            ..old(self)@
                        }),
                    decreases pairs@.len() - i,
                {
                    let (index, color) = pairs[i];
                    self.current.palette[index as usize] = color;
                    self.palette_set[index as usize] = true;
                    proof {
                        let next = pairs@.take(i + 1);
                        assert(next.drop_last() =~= pairs@.take(i as int));
                        assert(named(next).drop_last() =~= named(pairs@.take(i as int)));
                        assert(named(next).last() == index);
                        assert(next.last() == (index, color));
                    }
                    i = i + 1;
                }
                assert(pairs@.take(i as int) =~= pairs@);
            },
            OscEvent::PaletteReset(indices) => {
                if indices.len() == 0 {
                    self.current.palette = self.defaults.palette;
                    self.palette_set = [false; 256];
                    assert(self@.claimed.palette =~= Seq::new(256, |i: int| false));
                } else {
                    let mut i: usize = 0;
                    assert(indices@.take(0) =~= seq![]);
                    while i < indices.len()
                        invariant
                            i <= indices@.len(),
                            self@ == (StateView {
                                current: Colors {
                                    palette: restore_entries(
                                        old(self)@.current.palette,
                                        old(self)@.defaults.palette,
                                        indices@.take(i as int),
                                    ),
                                    ..old(self)@.current
                                },
                                claimed: Claims {
                                    palette: mark_entries(
                                        old(self)@.claimed.palette,
                                        indices@.take(i as int),
                                        false,
                                    ),
                                    ..old(self)@.claimed
                                },
                                ..old(self)@
                            }),
                        decreases indices@.len() - i,
                    {
                        let index: usize = indices[i] as usize;
                        self.current.palette[index] = self.defaults.palette[index];
                        self.palette_set[index] = false;
                        proof {
                            let next = indices@.take(i + 1);
                            assert(next.drop_last() =~= indices@.take(i as int));
                            assert(next.last() as int == index);
                        }
                        i = i + 1;
                    }
                    assert(indices@.take(i as int) =~= indices@);
                }
            },
            _ => {},
        }
    }
}

/// Turns a scanner's events into effects. It holds nothing: what a chunk's queries are
/// answered from is handed in.
#[derive(Clone, Copy)]
pub struct OscRouter {}

impl OscRouter {
    pub fn new() -> OscRouter {
        OscRouter {  }
    }

    /// The effects of one chunk, with every query answered from the caller's colors. Sets
    /// and resets have none.
    pub fn feed(&self, events: Vec<OscEvent>, colors: &OscColorSnapshot) -> (out: Vec<OscAction>)
        ensures
            action_views(out@) == actions_of(events@, colors@),
    {
        map_events(events, colors)
    }

    /// The effects of one chunk against `state`: every query is answered from the colors at
    /// the chunk's start, and the chunk's sets and resets are in effect for what follows.
    pub fn feed_stateful(&self, events: Vec<OscEvent>, state: &mut OscColorState) -> (out: Vec<
        OscAction,
    >)
        ensures
            action_views(out@) == actions_of(events@, old(state)@.current),
            final(state)@ == old(state)@.apply_all(events@),
            old(state)@.ok() ==> final(state)@.ok(),
    {
        let mut any: bool = false;
        let mut i: usize = 0;
        while i < events.len() && !any
            invariant
                i <= events@.len(),
                !any ==> forall|k: int| 0 <= k < i ==> !moves(#[trigger] events@[k]),
            decreases events@.len() - i,
        {
            any = moves_color_state(&events[i]);
            i = i + 1;
        }
        if !any {
            proof {
                law_only_color_events_move_the_state(state@, events@);
            }
            return map_events(events, state.snapshot());
        }
        let pre_chunk: OscColorSnapshot = state.snapshot().copy();
        let mut i: usize = 0;
        assert(events@.take(0) =~= seq![]);
        while i < events.len()
            invariant
                i <= events@.len(),
                state@ == old(state)@.apply_all(events@.take(i as int)),
                old(state)@.ok() ==> state@.ok(),
            decreases events@.len() - i,
        {
            state.apply(&events[i]);
            assert(events@.take(i + 1).drop_last() =~= events@.take(i as int));
            i = i + 1;
        }
        assert(events@.take(i as int) =~= events@);
        map_events(events, &pre_chunk)
    }
}

/// Queries and sets of one chunk do not see each other: what a chunk's later events are
/// answered with is what they would be answered with had nothing come before them.
pub proof fn law_a_chunk_answers_from_its_start(
    colors: Colors,
    earlier: Seq<OscEvent>,
    later: Seq<OscEvent>,
)
    ensures
        actions_of(earlier + later, colors) == actions_of(earlier, colors) + actions_of(
            later,
            colors,
        ),
    decreases later.len(),
{
    if later.len() == 0 {
        assert(earlier + later =~= earlier);
        assert(actions_of(earlier, colors) + seq![] =~= actions_of(earlier, colors));
    } else {
        let init = later.drop_last();
        law_a_chunk_answers_from_its_start(colors, earlier, init);
        assert((earlier + later).drop_last() =~= earlier + init);
        assert((earlier + later).last() == later.last());
        if let Some(action) = action_of(later.last(), colors) {
            assert((actions_of(earlier, colors) + actions_of(init, colors)).push(action)
                =~= actions_of(earlier, colors) + actions_of(init, colors).push(action));
        }
    }
}

/// How a stream is cut into chunks does not matter to the colors it leaves.
pub proof fn law_the_cut_does_not_matter_to_the_state(
    s: StateView,
    earlier: Seq<OscEvent>,
    later: Seq<OscEvent>,
)
    ensures
        s.apply_all(earlier + later) == s.apply_all(earlier).apply_all(later),
    decreases later.len(),
{
    if later.len() == 0 {
        assert(earlier + later =~= earlier);
    } else {
        law_the_cut_does_not_matter_to_the_state(s, earlier, later.drop_last());
        assert((earlier + later).drop_last() =~= earlier + later.drop_last());
        assert((earlier + later).last() == later.last());
    }
}

/// What a tab's task, which has no view of its own, does with an action.
#[derive(Debug, PartialEq, Eq)]
pub enum TabEffect {
    /// Apply this to the workspace.
    Workspace { command: u32, payload: String },
    /// Queue these answers for the child.
    Reply(Vec<OscReply>),
    /// An effect on a view that a session does not have.
    Dropped,
}

/// What a tab's task, which has no view of its own, does with an action.
pub fn apply_action(action: OscAction) -> (out: TabEffect)
    ensures
        out == (match action {
            OscAction::Workspace { command, payload } => TabEffect::Workspace { command, payload },
            OscAction::PtyInput(replies) => TabEffect::Reply(replies),
            _ => TabEffect::Dropped,
        }),
{
    match action {
        OscAction::Workspace { command, payload } => TabEffect::Workspace { command, payload },
        OscAction::PtyInput(replies) => TabEffect::Reply(replies),
        OscAction::ClipboardWrite { .. } => TabEffect::Dropped,
        OscAction::PointerShape(_) => TabEffect::Dropped,
    }
}

/// Whether a later pair of a list names the same entry as the pair at `k`.
pub open spec fn named_again(pairs: Seq<(u8, OscRgb)>, k: int) -> bool {
    exists|j: int| k < j < pairs.len() && (#[trigger] pairs[j]).0 == pairs[k].0
}

/// What a palette set shows: each entry that a pair names shows the color of the last pair that
/// names it, and is the program's from then on; every other entry, and every other color, stays
/// as it was.
pub proof fn law_a_palette_set_shows_each_pair(s: StateView, pairs: Vec<(u8, OscRgb)>, k: int, i: int)
    requires
        s.ok(),
    ensures
        ({
            let t = s.apply(OscEvent::PaletteSet(pairs));
            &&& 0 <= k < pairs@.len() && !named_again(pairs@, k)
                ==> t.current.palette[pairs@[k].0 as int] == pairs@[k].1
                && t.claimed.palette[pairs@[k].0 as int]
            &&& 0 <= i < 256 && (forall|j: int| 0 <= j < pairs@.len() ==> (#[trigger] pairs@[j]).0
                != i) ==> t.current.palette[i] == s.current.palette[i] && t.claimed.palette[i]
                == s.claimed.palette[i]
            &&& t.current.foreground == s.current.foreground
            &&& t.current.background == s.current.background
            &&& t.current.cursor == s.current.cursor
            &&& t.defaults == s.defaults
            &&& t.claimed.foreground == s.claimed.foreground
            &&& t.claimed.background == s.claimed.background
            &&& t.claimed.cursor == s.claimed.cursor
        }),
{
    let list = pairs@;
    lemma_set(s.current.palette, list);
    lemma_mark(s.claimed.palette, named(list), true);
    if 0 <= k < list.len() {
        assert(named(list)[k] as int == list[k].0 as int);
        if !named_again(list, k) {
            lemma_set_last(s.current.palette, list, k);
        }
    }
    if 0 <= i < 256 && (forall|j: int| 0 <= j < list.len() ==> (#[trigger] list[j]).0 != i) {
        assert forall|j: int| 0 <= j < list.len() implies list[j].0 as int != i by {
            assert(list[j].0 != i);
        }
        assert forall|j: int| 0 <= j < named(list).len() implies named(list)[j] as int != i by {
            assert(list[j].0 != i);
        }
    }
}

proof fn lemma_set_last(palette: Seq<OscRgb>, pairs: Seq<(u8, OscRgb)>, k: int)
    requires
        palette.len() == 256,
        0 <= k < pairs.len(),
        !named_again(pairs, k),
    ensures
        set_entries(palette, pairs)[pairs[k].0 as int] == pairs[k].1,
    decreases pairs.len(),
{
    let init = pairs.drop_last();
    lemma_set(palette, init);
    if k < init.len() {
        assert(pairs[pairs.len() - 1].0 != pairs[k].0);
        assert(!named_again(init, k)) by {
            if named_again(init, k) {
                let j = choose|j: int| k < j < init.len() && (#[trigger] init[j]).0 == init[k].0;
                assert(pairs[j].0 == pairs[k].0);
            }
        }
        lemma_set_last(palette, init, k);
    }
}

/// What a palette reset shows: each entry that it names shows the theme's color and is the
/// theme's again, all of them where it names none; every other entry, and every other color,
/// stays as it was.
pub proof fn law_a_palette_reset_shows_the_theme(s: StateView, indices: Vec<u8>, i: int)
    requires
        s.ok(),
        0 <= i < 256,
    ensures
        ({
            let t = s.apply(OscEvent::PaletteReset(indices));
            let hit = indices@.len() == 0 || exists|j: int|
                0 <= j < indices@.len() && #[trigger] indices@[j] == i;
            &&& hit ==> t.current.palette[i] == s.defaults.palette[i] && !t.claimed.palette[i]
            &&& !hit ==> t.current.palette[i] == s.current.palette[i] && t.claimed.palette[i]
                == s.claimed.palette[i]
            &&& t.current.foreground == s.current.foreground
            &&& t.current.background == s.current.background
            &&& t.current.cursor == s.current.cursor
            &&& t.defaults == s.defaults
            &&& t.claimed.foreground == s.claimed.foreground
            &&& t.claimed.background == s.claimed.background
            &&& t.claimed.cursor == s.claimed.cursor
        }),
{
    let list = indices@;
    if list.len() > 0 {
        lemma_mark(s.claimed.palette, list, false);
        lemma_restore(s.current.palette, s.defaults.palette, list);
        if exists|j: int| 0 <= j < list.len() && #[trigger] list[j] == i {
            let j = choose|j: int| 0 <= j < list.len() && #[trigger] list[j] == i;
            assert(list[j] as int == i);
        } else {
            lemma_restore_others(s.current.palette, s.defaults.palette, list, i);
            assert forall|j: int| 0 <= j < list.len() implies list[j] as int != i by {
                assert(list[j] != i);
            }
        }
    }
}

proof fn lemma_restore_others(palette: Seq<OscRgb>, from: Seq<OscRgb>, indices: Seq<u8>, i: int)
    requires
        palette.len() == 256,
        0 <= i < 256,
        forall|j: int| 0 <= j < indices.len() ==> #[trigger] indices[j] != i,
    ensures
        restore_entries(palette, from, indices)[i] == palette[i],
    decreases indices.len(),
{
    if indices.len() > 0 {
        let init = indices.drop_last();
        assert(indices[indices.len() - 1] != i);
        assert forall|j: int| 0 <= j < init.len() implies #[trigger] init[j] != i by {
            assert(indices[j] != i);
        }
        lemma_restore(palette, from, init);
        lemma_restore_others(palette, from, init, i);
    }
}

/// What a color set shows: ten is the text's, eleven the background's and twelve the cursor's,
/// each alone; any other number, and a reset of one, shows nothing new.
pub proof fn law_a_color_set_shows_its_color(s: StateView, number: u32, color: OscRgb)
    ensures
        ({
            let t = s.apply(OscEvent::ColorSet { number, color });
            &&& t.current.foreground == (if number == 10 {
                color
            } else {
                s.current.foreground
            })
            &&& t.current.background == (if number == 11 {
                color
            } else {
                s.current.background
            })
            &&& t.current.cursor == (if number == 12 {
                color
            } else {
                s.current.cursor
            })
            &&& t.current.palette == s.current.palette
            &&& t.defaults == s.defaults
            &&& t.claimed.foreground == (number == 10 || s.claimed.foreground)
            &&& t.claimed.background == (number == 11 || s.claimed.background)
            &&& t.claimed.cursor == (number == 12 || s.claimed.cursor)
            &&& t.claimed.palette == s.claimed.palette
        }),
        ({
            let t = s.apply(OscEvent::ColorReset(number));
            &&& t.current.foreground == (if number == 110 {
                s.defaults.foreground
            } else {
                s.current.foreground
            })
            &&& t.current.background == (if number == 111 {
                s.defaults.background
            } else {
                s.current.background
            })
            &&& t.current.cursor == (if number == 112 {
                s.defaults.cursor
            } else {
                s.current.cursor
            })
            &&& t.current.palette == s.current.palette
            &&& t.defaults == s.defaults
            &&& t.claimed.foreground == (number != 110 && s.claimed.foreground)
            &&& t.claimed.background == (number != 111 && s.claimed.background)
            &&& t.claimed.cursor == (number != 112 && s.claimed.cursor)
            &&& t.claimed.palette == s.claimed.palette
        }),
{
}

/// What a theme shows: every color that a program has taken stays, every other one is the
/// theme's, the theme becomes what a reset goes back to, and nobody's claim is touched. A state
/// begins as its theme with no claims.
pub proof fn law_a_theme_shows_where_no_program_does(s: StateView, seed: Colors, i: int)
    requires
        s.ok(),
        seed.palette.len() == 256,
        0 <= i < 256,
    ensures
        ({
            let t = s.reseed(seed);
            &&& t.current.foreground == (if s.claimed.foreground {
                s.current.foreground
            } else {
                seed.foreground
            })
            &&& t.current.background == (if s.claimed.background {
                s.current.background
            } else {
                seed.background
            })
            &&& t.current.cursor == (if s.claimed.cursor {
                s.current.cursor
            } else {
                seed.cursor
            })
            &&& t.current.palette[i] == (if s.claimed.palette[i] {
                s.current.palette[i]
            } else {
                seed.palette[i]
            })
            &&& t.defaults == seed
            &&& t.claimed == s.claimed
        }),
        StateView::seeded(seed).current == seed,
        StateView::seeded(seed).defaults == seed,
        !StateView::seeded(seed).claimed.foreground,
        !StateView::seeded(seed).claimed.background,
        !StateView::seeded(seed).claimed.cursor,
        !StateView::seeded(seed).claimed.palette[i],
{
}

/// What is passed on: a title under number zero, a directory under seven as a file address, a
/// notification under nine with its title alone or under 777 with its title and then its body,
/// a command mark under 133, copied text to its own clipboard, and a pointer by its name. What
/// sets and resets colors is passed on to nobody.
pub proof fn law_what_a_sequence_is_passed_on_as(event: OscEvent, colors: Colors)
    ensures
        event matches OscEvent::Title(title) ==> (action_of(event, colors) matches Some(
            ActionView::Workspace { command, payload },
        ) && command == 0 && payload == title@),
        event matches OscEvent::Pwd(path) ==> (action_of(event, colors) matches Some(
            ActionView::Workspace { command, payload },
        ) && command == 7 && payload == "file://"@ + path@),
        event matches OscEvent::Notification { title, body } ==> (action_of(event, colors)
            matches Some(ActionView::Workspace { command, payload }) && (if body@.len() == 0 {
            command == 9 && payload == title@
        } else {
            command == 777 && payload == "notify;"@ + title@ + ";"@ + body@
        })),
        event matches OscEvent::CommandMark(mark) ==> (action_of(event, colors) matches Some(
            ActionView::Workspace { command, payload },
        ) && command == 133 && payload == mark@),
        event matches OscEvent::Clipboard { target: to, text: copied } ==> (action_of(event, colors)
            matches Some(ActionView::ClipboardWrite { target, text }) && target == to && text
            == copied@),
        event matches OscEvent::MouseShape(shape) ==> (action_of(event, colors) matches Some(
            ActionView::PointerShape(name),
        ) && name == shape@),
        event is ColorSet || event is ColorReset || event is PaletteSet || event is PaletteReset
            ==> action_of(event, colors) is None,
{
}

/// How queries are answered: one of the three colors with that color under its own number, one
/// of palette entries with each entry's color under its own index, in the order asked; any
/// other query is not answered.
pub proof fn law_a_query_is_answered_with_what_shows(event: OscEvent, colors: Colors, k: int)
    ensures
        event == OscEvent::ColorQuery(10) ==> action_of(event, colors) == Some(
            ActionView::PtyInput(seq![OscReply::Color { number: 10, color: colors.foreground }]),
        ),
        event == OscEvent::ColorQuery(11) ==> action_of(event, colors) == Some(
            ActionView::PtyInput(seq![OscReply::Color { number: 11, color: colors.background }]),
        ),
        event == OscEvent::ColorQuery(12) ==> action_of(event, colors) == Some(
            ActionView::PtyInput(seq![OscReply::Color { number: 12, color: colors.cursor }]),
        ),
        event matches OscEvent::ColorQuery(number) ==> (number < 10 || number > 12 ==> action_of(
            event,
            colors,
        ) is None),
        event matches OscEvent::PaletteQuery(indices) ==> (if indices@.len() == 0 {
            action_of(event, colors) is None
        } else {
            action_of(event, colors) matches Some(ActionView::PtyInput(replies)) && replies.len()
                == indices@.len() && (0 <= k < replies.len() ==> (replies[k]
                matches OscReply::Palette { index, color } && index == indices@[k] && color
                == colors.palette[indices@[k] as int]))
        }),
{
}

/// The effects of a chunk are those of its events, in order: the first event's, if it has one,
/// and then the others'.
pub proof fn law_effects_come_in_order(first: OscEvent, rest: Seq<OscEvent>, colors: Colors)
    ensures
        actions_of(seq![first] + rest, colors) == (match action_of(first, colors) {
            Some(action) => seq![action] + actions_of(rest, colors),
            None => actions_of(rest, colors),
        }),
{
    law_a_chunk_answers_from_its_start(colors, seq![first], rest);
    reveal_with_fuel(actions_of, 2);
    assert(seq![first].drop_last() =~= seq![]);
    assert(seq![first].last() == first);
    if let Some(action) = action_of(first, colors) {
        assert(actions_of(seq![first], colors) =~= seq![action]);
    } else {
        assert(actions_of(seq![first], colors) + actions_of(rest, colors) =~= actions_of(
            rest,
            colors,
        ));
    }
}

/// The state behind a chunk is each of its events applied in turn.
pub proof fn law_events_apply_in_order(s: StateView, first: OscEvent, rest: Seq<OscEvent>)
    ensures
        s.apply_all(seq![]) == s,
        s.apply_all(seq![first] + rest) == s.apply(first).apply_all(rest),
{
    law_the_cut_does_not_matter_to_the_state(s, seq![first], rest);
    reveal_with_fuel(StateView::apply_all, 2);
    assert(seq![first].drop_last() =~= seq![]);
    assert(seq![first].last() == first);
}

/// A reply names the color that it carries, red, green and blue in that order and each channel's
/// two digits twice over.
pub proof fn law_a_reply_spells_its_color(number: u32, index: u8, color: OscRgb)
    ensures
        (OscReply::Color { number, color }).color() == color,
        (OscReply::Palette { index, color }).color() == color,
        color_text(color) == "rgb:"@ + text::hex_padded(color.0 as nat, 2) + text::hex_padded(
            color.0 as nat,
            2,
        ) + "/"@ + text::hex_padded(color.1 as nat, 2) + text::hex_padded(color.1 as nat, 2) + "/"@
            + text::hex_padded(color.2 as nat, 2) + text::hex_padded(color.2 as nat, 2),
{
    assert(color_text(color) =~= "rgb:"@ + text::hex_padded(color.0 as nat, 2) + text::hex_padded(
        color.0 as nat,
        2,
    ) + "/"@ + text::hex_padded(color.1 as nat, 2) + text::hex_padded(color.1 as nat, 2) + "/"@
        + text::hex_padded(color.2 as nat, 2) + text::hex_padded(color.2 as nat, 2));
}

/// What colors, their state and an action are seen as is what they hold, part by part.
pub proof fn law_colors_are_seen_as_they_are(
    colors: OscColorSnapshot,
    state: OscColorState,
    actions: Seq<OscAction>,
    i: int,
)
    ensures
        colors@.foreground == colors.foreground,
        colors@.background == colors.background,
        colors@.cursor == colors.cursor,
        colors@.palette == colors.palette@,
        state@.current == state.current@,
        state@.defaults == state.defaults@,
        state@.claimed.foreground == state.foreground_set,
        state@.claimed.background == state.background_set,
        state@.claimed.cursor == state.cursor_set,
        state@.claimed.palette == state.palette_set@,
        action_views(actions).len() == actions.len(),
        0 <= i < actions.len() ==> (match actions[i] {
            OscAction::Workspace { command, payload } => action_views(actions)[i] == (
            ActionView::Workspace { command, payload: payload@ }),
            OscAction::PtyInput(replies) => action_views(actions)[i] == ActionView::PtyInput(
                replies@,
            ),
            OscAction::ClipboardWrite { target, text } => action_views(actions)[i] == (
            ActionView::ClipboardWrite { target, text: text@ }),
            OscAction::PointerShape(name) => action_views(actions)[i] == ActionView::PointerShape(
                name@,
            ),
        }),
{
}

} // verus!
