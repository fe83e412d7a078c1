//! The engine's decisions: what a terminal session accepts, keeps, answers and forwards.
use vstd::prelude::*;

pub mod application;
pub mod attach;
pub mod crash;
pub mod entropy;
pub mod event_push;
pub mod facade;
pub mod git_metrics;
pub mod ipc;
pub mod osc;
pub mod path;
pub mod pointer;
pub mod process;
pub mod pty;
pub mod session;
pub mod single_instance;
pub mod tab_task;
pub mod text;
pub mod text_map;
pub mod workspace;

verus! {

/// Where a user's files are: where the environment says, if that starts at the root, else the
/// root itself.
pub open spec fn home_of(raw: Option<Seq<char>>) -> Seq<char> {
    if raw is Some && path::absolute(raw->0) {
        raw->0
    } else {
        "/"@
    }
}

/// Where a user's files are, by what the environment says.
pub fn resolve_home(raw: Option<&str>) -> (home: String)
    ensures
        home@ == home_of(text::opt(raw)),
        path::absolute(home@),
{
    match raw {
        Some(home) => {
            if path::is_absolute(home) {
                return home.to_owned();
            }
        },
        None => {},
    }
    proof {
        reveal_strlit("/");
    }
    "/".to_owned()
}

/// Home is where the environment says, where that starts at the root; else it is the root.
pub proof fn law_home_starts_at_the_root(raw: Seq<char>)
    ensures
        raw.len() > 0 && raw[0] == '/' ==> home_of(Some(raw)) == raw,
        !(raw.len() > 0 && raw[0] == '/') ==> home_of(Some(raw)) == "/"@,
        home_of(None) == "/"@,
{
}

} // verus!
