//! Subscriptions: where one starts, and why it may not.
use crate::ipc::errors::{shutting_down, HandlerError};
use crate::text;
use vstd::prelude::*;

verus! {

/// What a subscriber asks for.
#[derive(Debug, PartialEq, Eq)]
pub struct EventsSubscribeParams {
    pub tab_id_filter: i64,
    /// The session that the revision is one of.
    pub session_id: Option<String>,
    /// The last revision that the client has.
    pub from_revision: Option<u64>,
}

/// Where a subscription starts.
#[derive(Clone, Copy, Debug, PartialEq, Eq, Structural)]
pub enum CutRequest {
    /// With what is published from now on.
    Live,
    /// With what followed this revision.
    From(u64),
}

/// Why a workspace cannot go back to a revision.
#[derive(Clone, Copy, Debug, PartialEq, Eq, Structural)]
pub enum ResumeError {
    Ahead { current: u64 },
    Expired { oldest_resumable_from: u64, current: u64 },
}

/// The words for another session's revision.
pub open spec fn other_session(session_id: Seq<char>, named: Seq<char>) -> Seq<char> {
    "this is session "@ + session_id + ", not "@ + named
        + ": revisions restart with the process, so a fence from another incarnation cannot be resumed; snapshot with tab.list and subscribe afresh"@
}

/// The words for a revision without its session.
pub open spec fn nameless() -> Seq<char> {
    "a resume names the session it fenced against: from_revision requires session_id, which session.identify reports"@
}

/// Where a subscription starts that names this session and this revision, or why it cannot.
pub open spec fn cut_of(session_id: Seq<char>, named: Option<Seq<char>>, from: Option<u64>) -> Result<
    CutRequest,
    (Seq<char>, Seq<char>),
> {
    match (named, from) {
        (Some(other), _) if other != session_id => Err(
            ("session-mismatch"@, other_session(session_id, other)),
        ),
        (_, None) => Ok(CutRequest::Live),
        (None, Some(_)) => Err(("invalid-param"@, nameless())),
        (Some(_), Some(revision)) => Ok(CutRequest::From(revision)),
    }
}

/// Whether an answer is this cut, or this refusal.
pub open spec fn cuts(
    cut: Result<CutRequest, (Seq<char>, Seq<char>)>,
    out: Result<CutRequest, HandlerError>,
) -> bool {
    match cut {
        Ok(at) => out matches Ok(given) && given == at,
        Err((code, words)) => out matches Err(e) && e.says(code, words),
    }
}

/// Where a subscription starts. A client that names another session must start over, and one
/// that names a revision must name its session.
pub fn resume_cut(session_id: &str, params: &EventsSubscribeParams) -> (out: Result<
    CutRequest,
    HandlerError,
>)
    ensures
        cuts(
            cut_of(session_id@, text::opt_string(params.session_id), params.from_revision),
            out,
        ),
        ({
            let named = text::opt_string(params.session_id);
            if named is Some && named->0 != session_id@ {
                out matches Err(e) && e.says(
                    "session-mismatch"@,
                    other_session(session_id@, named->0),
                )
            } else {
                match params.from_revision {
                    None => out == Ok::<_, HandlerError>(CutRequest::Live),
                    Some(from) => if named is None {
                        out matches Err(e) && e.says("invalid-param"@, nameless())
                    } else {
                        out == Ok::<_, HandlerError>(CutRequest::From(from))
                    },
                }
            }
        }),
{
    match &params.session_id {
        Some(named) => {
            if !text::same_text(named.as_str(), session_id) {
                let mut words = text::join4(
                    "this is session ",
                    session_id,
                    ", not ",
                    named.as_str(),
                );
                words.append(
                    ": revisions restart with the process, so a fence from another incarnation cannot be resumed; snapshot with tab.list and subscribe afresh",
                );
                return Err(HandlerError::new("session-mismatch", words));
            }
        },
        None => {},
    }
    match params.from_revision {
        None => Ok(CutRequest::Live),
        Some(from) => {
            if params.session_id.is_none() {
                return Err(
                    HandlerError::invalid_param(
                        "a resume names the session it fenced against: from_revision requires session_id, which session.identify reports".to_owned(),
                    ),
                );
            }
            Ok(CutRequest::From(from))
        },
    }
}

/// The code and words for a revision that cannot be gone back to.
pub open spec fn resume_fault(from_revision: u64, error: ResumeError) -> (Seq<char>, Seq<char>) {
    match error {
        ResumeError::Ahead { current } => (
            "revision-ahead"@,
            "this session never produced revision "@ + text::decimal(from_revision as nat)
                + " (current: "@ + text::decimal(current as nat)
                + "): a different incarnation, or a client bug; compare session.identify.session_id, then snapshot"@,
        ),
        ResumeError::Expired { oldest_resumable_from, current } => (
            "replay-expired"@,
            "revision "@ + text::decimal(from_revision as nat)
                + " is outside the replay window (oldest resumable: "@ + text::decimal(
                oldest_resumable_from as nat,
            ) + ", current: "@ + text::decimal(current as nat)
                + "); snapshot with tab.list and subscribe afresh"@,
        ),
    }
}

/// How a revision that cannot be gone back to is refused.
pub fn resume_err(from_revision: u64, error: ResumeError) -> (out: HandlerError)
    ensures
        out.says(resume_fault(from_revision, error).0, resume_fault(from_revision, error).1),
{
    match error {
        ResumeError::Ahead { current } => {
            let mut words = text::join4(
                "this session never produced revision ",
                text::decimal_u64(from_revision).as_str(),
                " (current: ",
                text::decimal_u64(current).as_str(),
            );
            words.append(
                "): a different incarnation, or a client bug; compare session.identify.session_id, then snapshot",
            );
            HandlerError::new("revision-ahead", words)
        },
        ResumeError::Expired { oldest_resumable_from, current } => {
            let mut words = text::join4(
                "revision ",
                text::decimal_u64(from_revision).as_str(),
                " is outside the replay window (oldest resumable: ",
                text::decimal_u64(oldest_resumable_from).as_str(),
            );
            words.append(", current: ");
            words.append(text::decimal_u64(current).as_str());
            words.append("); snapshot with tab.list and subscribe afresh");
            HandlerError::new("replay-expired", words)
        },
    }
}

/// The words for a filter that does not exist.
pub open spec fn no_filter(tab_id_filter: i64) -> Seq<char> {
    "tab_id_filter is not implemented (got "@ + text::decimal_int(tab_id_filter as int)
        + "); subscribe unfiltered and filter client-side until HS-2 adds it"@
}

/// Where a subscription starts, once nothing about its request is wrong. All of that is
/// settled before anything is started, so that a refused client can simply ask again.
pub fn events_subscribe(session_id: &str, params: &EventsSubscribeParams) -> (out: Result<
    CutRequest,
    HandlerError,
>)
    ensures
        params.tab_id_filter == 0 ==> cuts(
            cut_of(session_id@, text::opt_string(params.session_id), params.from_revision),
            out,
        ),
        params.tab_id_filter != 0 ==> (out matches Err(e) && e.says(
            "invalid-param"@,
            no_filter(params.tab_id_filter),
        )),
        params.tab_id_filter == 0 ==> ({
            let named = text::opt_string(params.session_id);
            if named is Some && named->0 != session_id@ {
                out matches Err(e) && e.says(
                    "session-mismatch"@,
                    other_session(session_id@, named->0),
                )
            } else {
                match params.from_revision {
                    None => out == Ok::<_, HandlerError>(CutRequest::Live),
                    Some(from) => if named is None {
                        out matches Err(e) && e.says("invalid-param"@, nameless())
                    } else {
                        out == Ok::<_, HandlerError>(CutRequest::From(from))
                    },
                }
            }
        }),
{
    if params.tab_id_filter != 0 {
        return Err(
            HandlerError::invalid_param(
                text::join3(
                    "tab_id_filter is not implemented (got ",
                    text::decimal_i64(params.tab_id_filter).as_str(),
                    "); subscribe unfiltered and filter client-side until HS-2 adds it",
                ),
            ),
        );
    }
    resume_cut(session_id, params)
}

/// What a subscription whose relay runs is answered: its first revision, or that the session
/// is going, in which case the relay is ended again.
pub fn subscribed(registered: bool, revision: u64) -> (out: Result<u64, HandlerError>)
    ensures
        registered ==> out == Ok::<_, HandlerError>(revision),
        !registered ==> (out matches Err(e) && e.says(
            "shutting-down"@,
            "session is shutting down"@,
        )),
{
    if registered {
        Ok(revision)
    } else {
        Err(shutting_down())
    }
}

/// What a refused resume is told: that its revision lies ahead, with the one the session has; or
/// that it has left the window, with where the window starts and ends.
pub proof fn law_a_refused_resume_is_told_the_window(from: u64, oldest: u64, current: u64)
    ensures
        resume_fault(from, ResumeError::Ahead { current }) == (
            "revision-ahead"@,
            "this session never produced revision "@ + text::decimal(from as nat) + " (current: "@
                + text::decimal(current as nat)
                + "): a different incarnation, or a client bug; compare session.identify.session_id, then snapshot"@,
        ),
        resume_fault(from, ResumeError::Expired { oldest_resumable_from: oldest, current }) == (
            "replay-expired"@,
            "revision "@ + text::decimal(from as nat)
                + " is outside the replay window (oldest resumable: "@ + text::decimal(
                oldest as nat,
            ) + ", current: "@ + text::decimal(current as nat)
                + "); snapshot with tab.list and subscribe afresh"@,
        ),
{
}

/// What a subscription that cannot be made is told: which session this is and which was named,
/// that a resume must name one, and which filter was asked for.
pub proof fn law_a_refused_subscription_is_told_why(id: Seq<char>, named: Seq<char>, filter: i64)
    ensures
        other_session(id, named) == "this is session "@ + id + ", not "@ + named
            + ": revisions restart with the process, so a fence from another incarnation cannot be resumed; snapshot with tab.list and subscribe afresh"@,
        nameless()
            == "a resume names the session it fenced against: from_revision requires session_id, which session.identify reports"@,
        no_filter(filter) == "tab_id_filter is not implemented (got "@ + text::decimal_int(
            filter as int,
        ) + "); subscribe unfiltered and filter client-side until HS-2 adds it"@,
{
}

/// Where a subscription starts: live where it names no revision, else at the very revision it
/// names; and only where the session it names, if it names one, is this one, which it must where
/// it names a revision.
pub proof fn law_a_resume_starts_where_it_says(
    session_id: Seq<char>,
    other: Seq<char>,
    from: Option<u64>,
    revision: u64,
    out: Result<CutRequest, HandlerError>,
)
    ensures
        cut_of(session_id, None, None) == Ok::<_, (Seq<char>, Seq<char>)>(CutRequest::Live),
        cut_of(session_id, Some(session_id), None) == Ok::<_, (Seq<char>, Seq<char>)>(
            CutRequest::Live,
        ),
        cut_of(session_id, Some(session_id), Some(revision)) == Ok::<_, (Seq<char>, Seq<char>)>(
            CutRequest::From(revision),
        ),
        cut_of(session_id, None, Some(revision)) matches Err((code, words)) && code
            == "invalid-param"@ && words == nameless(),
        other != session_id ==> (cut_of(session_id, Some(other), from) matches Err((code, words))
            && code == "session-mismatch"@ && words == other_session(session_id, other)),
        cuts(Ok(CutRequest::From(revision)), out) ==> out == Ok::<_, HandlerError>(
            CutRequest::From(revision),
        ),
        cuts(Ok(CutRequest::Live), out) ==> out == Ok::<_, HandlerError>(CutRequest::Live),
        cuts(Err((session_id, other)), out) ==> (out matches Err(e) && e.code@ == session_id
            && e.message@ == other),
{
}

} // verus!
