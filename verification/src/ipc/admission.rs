//! Who may attach to a tab, and on which terms.
use crate::ipc::conns::{Over, SessionState};
use crate::ipc::conns;
use crate::ipc::errors::{shutting_down, HandlerError};
use crate::text;
use vstd::prelude::*;

verus! {

/// What a session says of itself.
#[derive(Debug, PartialEq, Eq)]
pub struct SessionInfo {
    pub session_id: String,
    pub started_at: String,
    pub app_version: String,
    /// What it can send a tab's screen as.
    pub payload_kinds: Vec<String>,
    /// The build of its terminals.
    pub libghostty_build: String,
    /// The size of a tab that is opened without one.
    pub default_tab_size: (u16, u16),
    pub test_mode: bool,
}

/// A screen as the terminal's own state. Both ends must be of one build.
pub const GHOSTTY_SNAPSHOT: &'static str = "ghostty-snapshot";

/// A screen as bytes that any terminal understands.
pub const VT: &'static str = "vt";

/// The quoted texts of a list, between commas.
pub open spec fn quoted_items(list: Seq<Seq<char>>) -> Seq<char>
    decreases list.len(),
{
    if list.len() == 0 {
        ""@
    } else if list.len() == 1 {
        text::debug_text(list[0])
    } else {
        quoted_items(list.drop_last()) + ", "@ + text::debug_text(list.last())
    }
}

/// A list of texts, written out.
pub open spec fn list_text(list: Seq<Seq<char>>) -> Seq<char> {
    "["@ + quoted_items(list) + "]"@
}

fn quoted_list(list: &Vec<String>) -> (out: String)
    ensures
        out@ == list_text(text::texts(list@)),
{
    let ghost all = text::texts(list@);
    let mut items = "".to_owned();
    let mut i: usize = 0;
    assert(all.take(0) =~= seq![]);
    while i < list.len()
        invariant
            i <= list@.len(),
            all == text::texts(list@),
            items@ == quoted_items(all.take(i as int)),
        decreases list@.len() - i,
    {
        let item = text::quoted(list[i].as_str());
        proof {
            assert(all.take(i + 1).drop_last() =~= all.take(i as int));
            assert(all.take(i + 1).last() == list@[i as int]@);
            assert(all.take(i + 1)[0] == all[0]);
        }
        if i == 0 {
            items = item;
        } else {
            items.append(", ");
            items.append(item.as_str());
        }
        i = i + 1;
    }
    assert(all.take(i as int) =~= all);
    text::join3("[", items.as_str(), "]")
}

/// Those of a client's kinds that a session said it serves, in the client's order.
pub open spec fn servable(kinds: Seq<Seq<char>>, served: Seq<Seq<char>>) -> Seq<Seq<char>>
    decreases kinds.len(),
{
    if kinds.len() == 0 {
        seq![]
    } else if served.contains(kinds.last()) {
        servable(kinds.drop_last(), served).push(kinds.last())
    } else {
        servable(kinds.drop_last(), served)
    }
}

/// What a list of kinds settles on.
pub enum Settled {
    Kind(Seq<char>),
    /// A kind that the session offers and cannot serve.
    Unknown(Seq<char>),
    /// No kind is left: the builds differ.
    Mismatch,
}

/// What the kinds settle on: the first whose terms are met.
pub open spec fn settles_on(kinds: Seq<Seq<char>>, builds_match: bool) -> Settled
    decreases kinds.len(),
{
    if kinds.len() == 0 {
        Settled::Mismatch
    } else if kinds[0] == "ghostty-snapshot"@ {
        if builds_match {
            Settled::Kind(kinds[0])
        } else {
            settles_on(kinds.drop_first(), builds_match)
        }
    } else if kinds[0] == "vt"@ {
        Settled::Kind(kinds[0])
    } else {
        Settled::Unknown(kinds[0])
    }
}

fn in_list(list: &Vec<String>, item: &str) -> (yes: bool)
    ensures
        yes == text::texts(list@).contains(item@),
{
    let ghost all = text::texts(list@);
    let mut i: usize = 0;
    while i < list.len()
        invariant
            i <= list@.len(),
            all == text::texts(list@),
            forall|k: int| 0 <= k < i ==> all[k] != item@,
        decreases list@.len() - i,
    {
        if text::same_text(list[i].as_str(), item) {
            assert(all[i as int] == item@);
            return true;
        }
        i = i + 1;
    }
    false
}

fn servable_kinds(kinds: &Vec<String>, served: &Vec<String>) -> (out: Vec<String>)
    ensures
        text::texts(out@) == servable(text::texts(kinds@), text::texts(served@)),
{
    let ghost all = text::texts(kinds@);
    let mut out: Vec<String> = Vec::new();
    let mut i: usize = 0;
    assert(all.take(0) =~= seq![]);
    assert(text::texts(out@) =~= seq![]);
    while i < kinds.len()
        invariant
            i <= kinds@.len(),
            all == text::texts(kinds@),
            text::texts(out@) == servable(all.take(i as int), text::texts(served@)),
        decreases kinds@.len() - i,
    {
        proof {
            assert(all.take(i + 1).drop_last() =~= all.take(i as int));
            assert(all.take(i + 1).last() == kinds@[i as int]@);
        }
        if in_list(served, kinds[i].as_str()) {
            let ghost before = text::texts(out@);
            out.push(kinds[i].clone());
            assert(text::texts(out@) =~= before.push(kinds@[i as int]@));
        }
        i = i + 1;
    }
    assert(all.take(i as int) =~= all);
    out
}

/// Why no kind was settled on, as a code and words; or none.
pub open spec fn kind_fault(
    served: Seq<Seq<char>>,
    build: Seq<char>,
    kinds: Seq<Seq<char>>,
    client_build: Seq<char>,
) -> Option<(Seq<char>, Seq<char>)> {
    let can = servable(kinds, served);
    if can.len() == 0 {
        Some(
            (
                "unsupported-kind"@,
                "this session serves "@ + list_text(served) + "; the client offered "@
                    + list_text(kinds),
            ),
        )
    } else {
        match settles_on(can, build == client_build) {
            Settled::Kind(_) => None,
            Settled::Unknown(kind) => Some(
                (
                    "internal"@,
                    "this session advertises "@ + text::debug_text(kind)
                        + ", which it cannot serve"@,
                ),
            ),
            Settled::Mismatch => Some(
                (
                    "build-mismatch"@,
                    "this session is "@ + text::debug_text(build) + "; the client is "@
                        + text::debug_text(client_build),
                ),
            ),
        }
    }
}

/// The kind that a client's order of preference settles on. A kind counts only if the session
/// said it serves it; that nothing is served and that the builds differ are two answers, for
/// they ask two things of the client.
pub fn negotiate_kind(info: &SessionInfo, kinds: &Vec<String>, libghostty_build: &str) -> (out:
    Result<String, HandlerError>)
    ensures
        ({
            let served = text::texts(info.payload_kinds@);
            let offered = text::texts(kinds@);
            match kind_fault(served, info.libghostty_build@, offered, libghostty_build@) {
                Some((code, words)) => out matches Err(e) && e.says(code, words),
                None => out matches Ok(kind) && settles_on(
                    servable(offered, served),
                    info.libghostty_build@ == libghostty_build@,
                ) == Settled::Kind(kind@),
            }
        }),
{
    let can = servable_kinds(kinds, &info.payload_kinds);
    let ghost all = text::texts(can@);
    assert(all.len() == can@.len());
    if can.len() == 0 {
        let mut words = text::join2(
            "this session serves ",
            quoted_list(&info.payload_kinds).as_str(),
        );
        words.append("; the client offered ");
        words.append(quoted_list(kinds).as_str());
        return Err(HandlerError::new("unsupported-kind", words));
    }
    let builds_match: bool = text::same_text(info.libghostty_build.as_str(), libghostty_build);
    let mut i: usize = 0;
    assert(all.skip(0) =~= all);
    while i < can.len()
        invariant
            i <= can@.len(),
            all == text::texts(can@),
            all == servable(text::texts(kinds@), text::texts(info.payload_kinds@)),
            all.len() > 0,
            builds_match == (info.libghostty_build@ == libghostty_build@),
            settles_on(all.skip(i as int), builds_match) == settles_on(all, builds_match),
        decreases can@.len() - i,
    {
        let kind = &can[i];
        assert(all.skip(i as int)[0] == kind@);
        assert(all.skip(i as int).drop_first() =~= all.skip(i + 1));
        if text::same_text(kind.as_str(), GHOSTTY_SNAPSHOT) {
            if builds_match {
                return Ok(kind.clone());
            }
        } else if text::same_text(kind.as_str(), VT) {
            return Ok(kind.clone());
        } else {
            return Err(
                HandlerError::internal(
                    text::join3(
                        "this session advertises ",
                        text::quoted(kind.as_str()).as_str(),
                        ", which it cannot serve",
                    ),
                ),
            );
        }
        i = i + 1;
    }
    assert(all.skip(i as int) =~= seq![]);
    Err(
        HandlerError::new(
            "build-mismatch",
            text::join4(
                "this session is ",
                text::quoted(info.libghostty_build.as_str()).as_str(),
                "; the client is ",
                text::quoted(libghostty_build).as_str(),
            ),
        ),
    )
}

/// Of the two kinds that a session can send, a client that also takes the one that any
/// terminal understands is never turned away for its build: it gets that one.
pub proof fn law_a_skewed_client_lands_on_vt(kinds: Seq<Seq<char>>)
    requires
        kinds.contains("vt"@),
        forall|i: int|
            0 <= i < kinds.len() ==> #[trigger] kinds[i] == "vt"@ || kinds[i]
                == "ghostty-snapshot"@,
    ensures
        settles_on(kinds, false) == Settled::Kind("vt"@),
    decreases kinds.len(),
{
    reveal_strlit("vt");
    reveal_strlit("ghostty-snapshot");
    assert("vt"@ != "ghostty-snapshot"@) by {
        assert("vt"@.len() == 2);
        assert("ghostty-snapshot"@.len() == 16);
    }
    if kinds[0] != "vt"@ {
        let rest = kinds.drop_first();
        let k = choose|k: int| 0 <= k < kinds.len() && kinds[k] == "vt"@;
        assert(rest[k - 1] == "vt"@);
        assert(forall|i: int| 0 <= i < rest.len() ==> rest[i] == kinds[i + 1]);
        law_a_skewed_client_lands_on_vt(rest);
    }
}

/// The grid that a client shows a tab in.
#[derive(Clone, Copy, Debug, PartialEq, Eq, Structural)]
pub struct Geometry {
    pub cols: u16,
    pub rows: u16,
    pub cell_w: u32,
    pub cell_h: u32,
}

/// The words for a grid that is none.
pub open spec fn no_grid(cols: u16, rows: u16) -> Seq<char> {
    "cols and rows must both be non-zero (got "@ + text::decimal(cols as nat) + "x"@
        + text::decimal(rows as nat) + ")"@
}

/// The grid that a client declares. A grid of no cells is none; cells of no size are fine.
pub fn attach_geometry(cols: u16, rows: u16, cell_w_px: u16, cell_h_px: u16) -> (out: Result<
    Geometry,
    HandlerError,
>)
    ensures
        cols > 0 && rows > 0 ==> out == Ok::<_, HandlerError>(
            Geometry { cols, rows, cell_w: cell_w_px as u32, cell_h: cell_h_px as u32 },
        ),
        cols == 0 || rows == 0 ==> (out matches Err(e) && e.says(
            "invalid-param"@,
            no_grid(cols, rows),
        )),
{
    if cols == 0 || rows == 0 {
        let mut words = text::join4(
            "cols and rows must both be non-zero (got ",
            text::decimal_u64(cols as u64).as_str(),
            "x",
            text::decimal_u64(rows as u64).as_str(),
        );
        words.append(")");
        return Err(HandlerError::invalid_param(words));
    }
    Ok(Geometry { cols, rows, cell_w: cell_w_px as u32, cell_h: cell_h_px as u32 })
}

/// What a client asks for when it attaches.
#[derive(Debug, PartialEq, Eq)]
pub struct AttachHandshake {
    /// The tab, as text.
    pub attach: String,
    pub session_id: String,
    /// The kinds it can take, the best one first.
    pub kinds: Vec<String>,
    pub libghostty_build: String,
    pub cols: u16,
    pub rows: u16,
    pub cell_w_px: u16,
    pub cell_h_px: u16,
    /// Whether the client has the tab in front, and the tab takes its size.
    pub focus: bool,
}

/// An attach that may go on.
#[derive(Debug, PartialEq, Eq)]
pub struct AdmittedAttach {
    pub tab_id: i64,
    pub tab_generation: u64,
    pub kind: String,
    pub geometry: Geometry,
    pub resize_first: bool,
}

/// The generation of a tab's terminal, among those that live.
pub open spec fn generation_of(tabs: Seq<(i64, u64)>, tab_id: i64) -> Option<u64>
    decreases tabs.len(),
{
    if tabs.len() == 0 {
        None
    } else if tabs[0].0 == tab_id {
        Some(tabs[0].1)
    } else {
        generation_of(tabs.drop_first(), tab_id)
    }
}

fn find_generation(tabs: &Vec<(i64, u64)>, tab_id: i64) -> (out: Option<u64>)
    ensures
        out == generation_of(tabs@, tab_id),
{
    let mut i: usize = 0;
    assert(tabs@.skip(0) =~= tabs@);
    while i < tabs.len()
        invariant
            i <= tabs@.len(),
            generation_of(tabs@.skip(i as int), tab_id) == generation_of(tabs@, tab_id),
        decreases tabs@.len() - i,
    {
        assert(tabs@.skip(i as int)[0] == tabs@[i as int]);
        assert(tabs@.skip(i as int).drop_first() =~= tabs@.skip(i + 1));
        if tabs[i].0 == tab_id {
            return Some(tabs[i].1);
        }
        i = i + 1;
    }
    None
}

/// Why an attach is turned away before it takes a place, as a code and words; or none. Each
/// reason asks something else of the client, so an earlier one is never hidden by a later.
pub open spec fn attach_fault(
    info: SessionInfo,
    stopping: bool,
    handshake: AttachHandshake,
    tabs: Seq<(i64, u64)>,
) -> Option<(Seq<char>, Seq<char>)> {
    let tab = text::reads_int(handshake.attach@, i64::MIN as int, i64::MAX as int);
    if handshake.session_id@ != info.session_id@ {
        Some(
            (
                "session-mismatch"@,
                "this session is "@ + text::debug_text(info.session_id@)
                    + "; the client attached to "@ + text::debug_text(handshake.session_id@),
            ),
        )
    } else if stopping {
        Some(("shutting-down"@, "session is shutting down"@))
    } else if tab is None {
        Some(("invalid-param"@, text::debug_text(handshake.attach@) + " is not a tab id"@))
    } else if generation_of(tabs, tab->0 as i64) is None {
        Some(
            (
                "not-found"@,
                "tab "@ + text::decimal_int(tab->0) + " has no live terminal to attach"@,
            ),
        )
    } else {
        let fault = kind_fault(
            text::texts(info.payload_kinds@),
            info.libghostty_build@,
            text::texts(handshake.kinds@),
            handshake.libghostty_build@,
        );
        if fault is Some {
            fault
        } else if handshake.cols == 0 || handshake.rows == 0 {
            Some(("invalid-param"@, no_grid(handshake.cols, handshake.rows)))
        } else {
            None
        }
    }
}

/// Whether an attach is let in as its handshake asks.
pub open spec fn admits(
    info: SessionInfo,
    handshake: AttachHandshake,
    tabs: Seq<(i64, u64)>,
    attach: AdmittedAttach,
) -> bool {
    &&& text::reads_int(handshake.attach@, i64::MIN as int, i64::MAX as int) == Some(
        attach.tab_id as int,
    )
    &&& generation_of(tabs, attach.tab_id) == Some(attach.tab_generation)
    &&& settles_on(
        servable(text::texts(handshake.kinds@), text::texts(info.payload_kinds@)),
        info.libghostty_build@ == handshake.libghostty_build@,
    ) == Settled::Kind(attach.kind@)
    &&& attach.geometry.cols == handshake.cols
    &&& attach.geometry.rows == handshake.rows
    &&& attach.geometry.cell_w == handshake.cell_w_px
    &&& attach.geometry.cell_h == handshake.cell_h_px
    &&& attach.resize_first == handshake.focus
}

/// Decides an attach, and takes its place in the session where it may go on. `tabs` are the
/// terminals that live, with their generations.
pub fn admit_attach(
    info: &SessionInfo,
    state: &mut SessionState,
    handshake: &AttachHandshake,
    conn_id: u64,
    tabs: &Vec<(i64, u64)>,
    over: &Over,
) -> (out: Result<AdmittedAttach, HandlerError>)
    ensures
        final(state).stopping == old(state).stopping,
        out matches Ok(attach) ==> admits(*info, *handshake, tabs@, attach),
        match attach_fault(*info, old(state).stopping, *handshake, tabs@) {
            Some((code, words)) => final(state).conns@ == old(state).conns@ && (out matches Err(e)
                && e.says(code, words)),
            None => {
                let tab_id = text::reads_int(
                    handshake.attach@,
                    i64::MIN as int,
                    i64::MAX as int,
                )->0 as i64;
                let pruned = old(state).conns@.pruned(*over);
                if pruned.data.len() >= 32 {
                    final(state).conns@ == pruned && (out matches Err(e) && e.says(
                        "too-many-attaches"@,
                        conns::too_many(),
                    ))
                } else {
                    final(state).conns@ == pruned.attached(tab_id, conn_id) && (out matches Ok(a)
                        && a.tab_id == tab_id && generation_of(tabs@, tab_id) == Some(
                        a.tab_generation,
                    ) && settles_on(
                        servable(text::texts(handshake.kinds@), text::texts(info.payload_kinds@)),
                        info.libghostty_build@ == handshake.libghostty_build@,
                    ) == Settled::Kind(a.kind@) && a.geometry == (Geometry {
                        cols: handshake.cols,
                        rows: handshake.rows,
                        cell_w: handshake.cell_w_px as u32,
                        cell_h: handshake.cell_h_px as u32,
                    }) && a.resize_first == handshake.focus)
                }
            },
        },
{
    if !text::same_text(handshake.session_id.as_str(), info.session_id.as_str()) {
        return Err(
            HandlerError::new(
                "session-mismatch",
                text::join4(
                    "this session is ",
                    text::quoted(info.session_id.as_str()).as_str(),
                    "; the client attached to ",
                    text::quoted(handshake.session_id.as_str()).as_str(),
                ),
            ),
        );
    }
    if state.stopping {
        return Err(shutting_down());
    }
    let chars = text::chars_of(handshake.attach.as_str());
    let tab_id: i64 = match text::parse_i64(chars.as_slice()) {
        Some(id) => id,
        None => {
            return Err(
                HandlerError::invalid_param(
                    text::join2(
                        text::quoted(handshake.attach.as_str()).as_str(),
                        " is not a tab id",
                    ),
                ),
            );
        },
    };
    let tab_generation: u64 = match find_generation(tabs, tab_id) {
        Some(generation) => generation,
        None => {
            return Err(
                HandlerError::not_found(
                    text::join3(
                        "tab ",
                        text::decimal_i64(tab_id).as_str(),
                        " has no live terminal to attach",
                    ),
                ),
            );
        },
    };
    let kind = match negotiate_kind(info, &handshake.kinds, handshake.libghostty_build.as_str()) {
        Ok(kind) => kind,
        Err(e) => {
            return Err(e);
        },
    };
    let geometry = match attach_geometry(
        handshake.cols,
        handshake.rows,
        handshake.cell_w_px,
        handshake.cell_h_px,
    ) {
        Ok(geometry) => geometry,
        Err(e) => {
            return Err(e);
        },
    };
    match state.register_data_conn(tab_id, conn_id, over) {
        Err(e) => Err(e),
        Ok(_) => Ok(
            AdmittedAttach { tab_id, tab_generation, kind, geometry, resize_first: handshake.focus },
        ),
    }
}

/// A socket that is no session's attaches nobody.
pub fn no_attach_here() -> (out: HandlerError)
    ensures
        out.says("not-supported"@, "this socket does not serve attach data connections"@),
{
    HandlerError::new(
        "not-supported",
        "this socket does not serve attach data connections".to_owned(),
    )
}

/// What a client and a session have in common: the client's kinds that the session serves, in
/// the client's order.
pub proof fn law_the_clients_order_counts(
    kinds: Seq<Seq<char>>,
    served: Seq<Seq<char>>,
    next: Seq<char>,
)
    ensures
        servable(seq![], served).len() == 0,
        served.contains(next) ==> servable(kinds.push(next), served) == servable(
            kinds,
            served,
        ).push(next),
        !served.contains(next) ==> servable(kinds.push(next), served) == servable(kinds, served),
{
    assert(kinds.push(next).drop_last() =~= kinds);
}

/// Which kind is settled on: the first one, except that a snapshot is passed over between
/// different builds; where nothing is left the builds do not match.
pub proof fn law_the_first_usable_kind_is_settled_on(rest: Seq<Seq<char>>, kind: Seq<char>, same: bool)
    ensures
        settles_on(seq!["vt"@] + rest, same) == Settled::Kind("vt"@),
        settles_on(seq!["ghostty-snapshot"@] + rest, true) == Settled::Kind("ghostty-snapshot"@),
        settles_on(seq!["ghostty-snapshot"@] + rest, false) == settles_on(rest, false),
        kind != "vt"@ && kind != "ghostty-snapshot"@ ==> settles_on(seq![kind] + rest, same)
            == Settled::Unknown(kind),
        settles_on(seq![], same) == Settled::Mismatch,
{
    reveal_strlit("vt");
    reveal_strlit("ghostty-snapshot");
    assert("vt"@.len() != "ghostty-snapshot"@.len());
    let snapshot = seq!["ghostty-snapshot"@] + rest;
    assert(snapshot.drop_first() =~= rest);
    assert(snapshot[0] == "ghostty-snapshot"@);
    assert((seq!["vt"@] + rest)[0] == "vt"@);
    assert((seq![kind] + rest)[0] == kind);
}

/// When a client is told that no kind will do: where it shares none, where the first one left
/// is not one of the two, and where only a snapshot is left between different builds.
pub proof fn law_a_kind_is_refused_for_its_reason(
    served: Seq<Seq<char>>,
    build: Seq<char>,
    kinds: Seq<Seq<char>>,
    client: Seq<char>,
)
    ensures
        ({
            let fault = kind_fault(served, build, kinds, client);
            let can = servable(kinds, served);
            let settled = settles_on(can, build == client);
            &&& can.len() == 0 ==> fault == Some(
                (
                    "unsupported-kind"@,
                    "this session serves "@ + list_text(served) + "; the client offered "@
                        + list_text(kinds),
                ),
            )
            &&& can.len() > 0 && settled is Mismatch ==> fault == Some(
                (
                    "build-mismatch"@,
                    "this session is "@ + text::debug_text(build) + "; the client is "@
                        + text::debug_text(client),
                ),
            )
            &&& can.len() > 0 ==> (settled matches Settled::Unknown(kind) ==> fault == Some(
                (
                    "internal"@,
                    "this session advertises "@ + text::debug_text(kind)
                        + ", which it cannot serve"@,
                ),
            ))
            &&& fault is None <==> settled is Kind
        }),
{
}

/// A list is shown item by item, in order.
pub proof fn law_a_list_is_shown_in_order(list: Seq<Seq<char>>, next: Seq<char>)
    requires
        list.len() > 0,
    ensures
        quoted_items(seq![]) == ""@,
        quoted_items(seq![next]) == text::debug_text(next),
        quoted_items(list.push(next)) == quoted_items(list) + ", "@ + text::debug_text(next),
        list_text(list) == "["@ + quoted_items(list) + "]"@,
{
    assert(list.push(next).drop_last() =~= list);
}

/// A tab's generation is that of the first entry that names it; a tab that no entry names has
/// none.
pub proof fn law_a_tabs_generation_is_its_own(tabs: Seq<(i64, u64)>, tab_id: i64, at: int)
    ensures
        0 <= at < tabs.len() && tabs[at].0 == tab_id && (forall|k: int|
            0 <= k < at ==> (#[trigger] tabs[k]).0 != tab_id) ==> generation_of(tabs, tab_id)
            == Some(tabs[at].1),
        generation_of(tabs, tab_id) is None <==> forall|k: int|
            0 <= k < tabs.len() ==> (#[trigger] tabs[k]).0 != tab_id,
    decreases tabs.len(),
{
    if tabs.len() > 0 {
        let rest = tabs.drop_first();
        law_a_tabs_generation_is_its_own(rest, tab_id, at - 1);
        assert(forall|k: int| 0 <= k < rest.len() ==> #[trigger] rest[k] == tabs[k + 1]);
        assert(forall|k: int| 1 <= k < tabs.len() ==> rest[k - 1] == #[trigger] tabs[k]);
        if at > 0 {
            assert(0 <= at < tabs.len() && (forall|k: int|
                0 <= k < at ==> (#[trigger] tabs[k]).0 != tab_id) ==> tabs[0].0 != tab_id);
        }
    }
}

/// What turns an attach away, and in which order it is looked at: another session, a session
/// that stops, a tab that is no number, one that is not there, a kind that cannot be settled on,
/// and a terminal without a cell. Whatever none of these turns away is let in.
pub proof fn law_an_attach_is_refused_for_its_first_fault(
    info: SessionInfo,
    stopping: bool,
    handshake: AttachHandshake,
    tabs: Seq<(i64, u64)>,
)
    ensures
        ({
            let fault = attach_fault(info, stopping, handshake, tabs);
            let mine = handshake.session_id@ == info.session_id@;
            let tab = text::reads_int(handshake.attach@, i64::MIN as int, i64::MAX as int);
            let live = tab is Some && generation_of(tabs, tab->0 as i64) is Some;
            let kinds = kind_fault(
                text::texts(info.payload_kinds@),
                info.libghostty_build@,
                text::texts(handshake.kinds@),
                handshake.libghostty_build@,
            );
            &&& fault is None <==> mine && !stopping && live && kinds is None && handshake.cols > 0
                && handshake.rows > 0
            &&& !mine ==> fault == Some(
                (
                    "session-mismatch"@,
                    "this session is "@ + text::debug_text(info.session_id@)
                        + "; the client attached to "@ + text::debug_text(handshake.session_id@),
                ),
            )
            &&& mine && stopping ==> fault == Some(
                ("shutting-down"@, "session is shutting down"@),
            )
            &&& mine && !stopping && tab is None ==> fault == Some(
                ("invalid-param"@, text::debug_text(handshake.attach@) + " is not a tab id"@),
            )
            &&& mine && !stopping && tab is Some && !live ==> fault == Some(
                (
                    "not-found"@,
                    "tab "@ + text::decimal_int(tab->0) + " has no live terminal to attach"@,
                ),
            )
            &&& mine && !stopping && live && kinds is Some ==> fault == kinds
            &&& mine && !stopping && live && kinds is None && (handshake.cols == 0
                || handshake.rows == 0) ==> fault == Some(
                (
                    "invalid-param"@,
                    "cols and rows must both be non-zero (got "@ + text::decimal(
                        handshake.cols as nat,
                    ) + "x"@ + text::decimal(handshake.rows as nat) + ")"@,
                ),
            )
        }),
{
}

/// What an attach is let in with: the tab it names, at the generation that tab has, in the size
/// and the cells it gives, and in a kind that both sides know. It is resized first exactly where
/// it has the focus.
pub proof fn law_an_attach_is_let_in_as_it_asks(
    info: SessionInfo,
    handshake: AttachHandshake,
    tabs: Seq<(i64, u64)>,
    attach: AdmittedAttach,
)
    requires
        admits(info, handshake, tabs, attach),
    ensures
        text::reads_int(handshake.attach@, i64::MIN as int, i64::MAX as int) == Some(
            attach.tab_id as int,
        ),
        generation_of(tabs, attach.tab_id) == Some(attach.tab_generation),
        (attach.geometry.cols, attach.geometry.rows) == (handshake.cols, handshake.rows),
        (attach.geometry.cell_w, attach.geometry.cell_h) == (
            handshake.cell_w_px as u32,
            handshake.cell_h_px as u32,
        ),
        attach.resize_first <==> handshake.focus,
        text::texts(handshake.kinds@).contains(attach.kind@),
        text::texts(info.payload_kinds@).contains(attach.kind@),
        attach.kind@ == "ghostty-snapshot"@ ==> info.libghostty_build@
            == handshake.libghostty_build@,
{
    reveal_strlit("vt");
    reveal_strlit("ghostty-snapshot");
    assert("vt"@.len() != "ghostty-snapshot"@.len());
    let offered = text::texts(handshake.kinds@);
    let served = text::texts(info.payload_kinds@);
    let can = servable(offered, served);
    lemma_settled_is_listed(can, info.libghostty_build@ == handshake.libghostty_build@, attach.kind@);
    lemma_servable_is_shared(offered, served, attach.kind@);
}

proof fn lemma_settled_is_listed(kinds: Seq<Seq<char>>, same: bool, kind: Seq<char>)
    requires
        settles_on(kinds, same) == Settled::Kind(kind),
    ensures
        kinds.contains(kind),
        kind == "ghostty-snapshot"@ ==> same || "vt"@ == "ghostty-snapshot"@,
    decreases kinds.len(),
{
    if kinds.len() > 0 {
        if kinds[0] == "ghostty-snapshot"@ && !same {
            let rest = kinds.drop_first();
            lemma_settled_is_listed(rest, same, kind);
            let i = choose|i: int| 0 <= i < rest.len() && rest[i] == kind;
            assert(kinds[i + 1] == kind);
        } else {
            assert(kinds[0] == kind);
        }
    }
}

proof fn lemma_servable_is_shared(kinds: Seq<Seq<char>>, served: Seq<Seq<char>>, kind: Seq<char>)
    requires
        servable(kinds, served).contains(kind),
    ensures
        kinds.contains(kind),
        served.contains(kind),
    decreases kinds.len(),
{
    if kinds.len() > 0 {
        let init = kinds.drop_last();
        let before = servable(init, served);
        let now = servable(kinds, served);
        let i = choose|i: int| 0 <= i < now.len() && now[i] == kind;
        if i < before.len() {
            assert(before[i] == kind);
            lemma_servable_is_shared(init, served, kind);
            let k = choose|k: int| 0 <= k < init.len() && init[k] == kind;
            assert(kinds[k] == kind);
        } else {
            assert(kinds[kinds.len() - 1] == kind);
        }
    }
}

} // verus!
