//! References to tabs and projects on the wire, and which instance a request names with them.
use crate::ipc::errors::{needs_a_ui, HandlerError};
use crate::ipc::errors;
use crate::text;
use vstd::prelude::*;

verus! {

/// A tab: one of this socket's own, or one on a host that an app is connected to.
#[derive(Clone, Copy, Debug, PartialEq, Eq, Structural)]
pub enum WireTabRef {
    Local(i64),
    Host { host: u32, tab: i64 },
}

/// A project: one of this socket's own, or one on a host that an app is connected to.
#[derive(Clone, Copy, Debug, PartialEq, Eq, Structural)]
pub enum WireProjectRef {
    Local(i64),
    Host { host: u32, project: i64 },
}

/// The words for a tab that a session cannot know.
pub open spec fn foreign_tab() -> Seq<char> {
    "host-qualified tab refs are a UI-socket form; session tab ids are bare"@
}

/// The words for a project that a session cannot know.
pub open spec fn foreign_project() -> Seq<char> {
    "host-qualified project refs are a UI-socket form; session project ids are bare"@
}

/// A session's tab. Another host's is refused, not taken for some tab of the same number.
pub fn bare_tab(tab: WireTabRef) -> (out: Result<i64, HandlerError>)
    ensures
        tab matches WireTabRef::Local(id) ==> out == Ok::<_, HandlerError>(id),
        tab is Host ==> (out matches Err(e) && e.says("invalid-param"@, foreign_tab())),
{
    match tab {
        WireTabRef::Local(id) => Ok(id),
        WireTabRef::Host { .. } => Err(
            HandlerError::invalid_param(
                "host-qualified tab refs are a UI-socket form; session tab ids are bare".to_owned(),
            ),
        ),
    }
}

/// A session's project.
pub fn bare_project(project: WireProjectRef) -> (out: Result<i64, HandlerError>)
    ensures
        project matches WireProjectRef::Local(id) ==> out == Ok::<_, HandlerError>(id),
        project is Host ==> (out matches Err(e) && e.says("invalid-param"@, foreign_project())),
{
    match project {
        WireProjectRef::Local(id) => Ok(id),
        WireProjectRef::Host { .. } => Err(
            HandlerError::invalid_param(
                "host-qualified project refs are a UI-socket form; session project ids are bare".to_owned(),
            ),
        ),
    }
}

/// Which instance a reorder is for. Its ids are that instance's own.
#[derive(Clone, Copy, Debug, PartialEq, Eq, Structural)]
pub enum ReorderInstance {
    Local,
    Host(u32),
}

impl WireTabRef {
    /// Whether a tab is one of an instance's.
    pub open spec fn on(self, instance: ReorderInstance) -> bool {
        match (self, instance) {
            (WireTabRef::Local(_), ReorderInstance::Local) => true,
            (WireTabRef::Host { host, .. }, ReorderInstance::Host(named)) => host == named,
            _ => false,
        }
    }

    /// A tab's number on its instance.
    pub open spec fn id(self) -> i64 {
        match self {
            WireTabRef::Local(id) => id,
            WireTabRef::Host { tab, .. } => tab,
        }
    }
}

impl WireProjectRef {
    /// Whether a project is one of an instance's.
    pub open spec fn on(self, instance: ReorderInstance) -> bool {
        match (self, instance) {
            (WireProjectRef::Local(_), ReorderInstance::Local) => true,
            (WireProjectRef::Host { host, .. }, ReorderInstance::Host(named)) => host == named,
            _ => false,
        }
    }

    /// A project's number on its instance.
    pub open spec fn id(self) -> i64 {
        match self {
            WireProjectRef::Local(id) => id,
            WireProjectRef::Host { project, .. } => project,
        }
    }
}

/// Whether every tab is one of an instance's.
pub open spec fn tabs_on(tabs: Seq<WireTabRef>, instance: ReorderInstance) -> bool {
    forall|i: int| 0 <= i < tabs.len() ==> (#[trigger] tabs[i]).on(instance)
}

/// Whether every project is one of an instance's.
pub open spec fn projects_on(projects: Seq<WireProjectRef>, instance: ReorderInstance) -> bool {
    forall|i: int| 0 <= i < projects.len() ==> (#[trigger] projects[i]).on(instance)
}

/// The tabs' numbers.
pub open spec fn tab_numbers(tabs: Seq<WireTabRef>) -> Seq<i64> {
    Seq::new(tabs.len(), |i: int| tabs[i].id())
}

/// The projects' numbers.
pub open spec fn project_numbers(projects: Seq<WireProjectRef>) -> Seq<i64> {
    Seq::new(projects.len(), |i: int| projects[i].id())
}

fn tab_ids_on(tabs: &Vec<WireTabRef>, instance: ReorderInstance) -> (out: Option<Vec<i64>>)
    ensures
        out is Some <==> tabs_on(tabs@, instance),
        out matches Some(ids) ==> ids@ == tab_numbers(tabs@),
{
    let mut ids: Vec<i64> = Vec::new();
    let mut i: usize = 0;
    while i < tabs.len()
        invariant
            i <= tabs@.len(),
            ids@ == tab_numbers(tabs@).take(i as int),
            forall|k: int| 0 <= k < i ==> (#[trigger] tabs@[k]).on(instance),
        decreases tabs@.len() - i,
    {
        let id: i64 = match (tabs[i], instance) {
            (WireTabRef::Local(id), ReorderInstance::Local) => id,
            (WireTabRef::Host { host, tab }, ReorderInstance::Host(named)) => {
                if host != named {
                    assert(!tabs@[i as int].on(instance));
                    return None;
                }
                tab
            },
            _ => {
                assert(!tabs@[i as int].on(instance));
                return None;
            },
        };
        ids.push(id);
        assert(ids@ =~= tab_numbers(tabs@).take(i + 1));
        i = i + 1;
    }
    assert(tab_numbers(tabs@).take(i as int) =~= tab_numbers(tabs@));
    Some(ids)
}

fn project_ids_on(projects: &Vec<WireProjectRef>, instance: ReorderInstance) -> (out: Option<
    Vec<i64>,
>)
    ensures
        out is Some <==> projects_on(projects@, instance),
        out matches Some(ids) ==> ids@ == project_numbers(projects@),
{
    let mut ids: Vec<i64> = Vec::new();
    let mut i: usize = 0;
    while i < projects.len()
        invariant
            i <= projects@.len(),
            ids@ == project_numbers(projects@).take(i as int),
            forall|k: int| 0 <= k < i ==> (#[trigger] projects@[k]).on(instance),
        decreases projects@.len() - i,
    {
        let id: i64 = match (projects[i], instance) {
            (WireProjectRef::Local(id), ReorderInstance::Local) => id,
            (WireProjectRef::Host { host, project }, ReorderInstance::Host(named)) => {
                if host != named {
                    assert(!projects@[i as int].on(instance));
                    return None;
                }
                project
            },
            _ => {
                assert(!projects@[i as int].on(instance));
                return None;
            },
        };
        ids.push(id);
        assert(ids@ =~= project_numbers(projects@).take(i + 1));
        i = i + 1;
    }
    assert(project_numbers(projects@).take(i as int) =~= project_numbers(projects@));
    Some(ids)
}

/// The words for a request that names two instances at once.
pub open spec fn mixed(op: Seq<char>) -> Seq<char> {
    op + ": every ref in one request must name the same instance — either all bare (local) or all `h<host>.<id>` on one host"@
}

/// A request that names two instances at once.
pub fn mixed_refs(op: &str) -> (out: HandlerError)
    ensures
        out.says("invalid-param"@, mixed(op@)),
{
    HandlerError::invalid_param(
        text::join2(
            op,
            ": every ref in one request must name the same instance — either all bare (local) or all `h<host>.<id>` on one host",
        ),
    )
}

/// The words for a host's order that no app is there to pass on.
pub open spec fn unreachable_host(op: Seq<char>) -> Seq<char> {
    errors::ui_needed("a host-qualified "@ + op, "host connections are client state"@)
}

fn host_needs_a_ui(op: &str) -> (out: HandlerError)
    ensures
        out.says("invalid-param"@, unreachable_host(op@)),
{
    let what = text::join2("a host-qualified ", op);
    needs_a_ui(what.as_str(), "host connections are client state")
}

/// A new order of a project's tabs.
#[derive(Debug, PartialEq, Eq)]
pub struct TabReorderParams {
    pub project_id: WireProjectRef,
    pub tab_ids: Vec<WireTabRef>,
}

/// A new order of tabs, as the instance it is for knows them.
#[derive(Debug, PartialEq, Eq)]
pub struct TabRoute {
    pub instance: ReorderInstance,
    pub project_id: i64,
    pub tab_ids: Vec<i64>,
}

/// The instance that a project names.
pub open spec fn instance_of(project: WireProjectRef) -> ReorderInstance {
    match project {
        WireProjectRef::Local(_) => ReorderInstance::Local,
        WireProjectRef::Host { host, .. } => ReorderInstance::Host(host),
    }
}

/// Which instance a new order of tabs is for. Every reference in it names that one instance;
/// a session knows only its own, and another host's takes an app to reach.
pub fn tab_reorder_route(is_session: bool, has_ui: bool, p: &TabReorderParams) -> (out: Result<
    TabRoute,
    HandlerError,
>)
    ensures
        ({
            let instance = instance_of(p.project_id);
            if is_session {
                if instance != ReorderInstance::Local {
                    out matches Err(e) && e.says("invalid-param"@, foreign_project())
                } else if !tabs_on(p.tab_ids@, ReorderInstance::Local) {
                    out matches Err(e) && e.says("invalid-param"@, foreign_tab())
                } else {
                    out is Ok
                }
            } else if !tabs_on(p.tab_ids@, instance) {
                out matches Err(e) && e.says("invalid-param"@, mixed("tab.reorder"@))
            } else if instance != ReorderInstance::Local && !has_ui {
                out matches Err(e) && e.says("invalid-param"@, unreachable_host("tab.reorder"@))
            } else {
                out is Ok
            }
        }),
        out matches Ok(route) ==> route.instance == instance_of(p.project_id) && route.project_id
            == p.project_id.id() && route.tab_ids@ == tab_numbers(p.tab_ids@),
{
    if is_session {
        let project_id: i64 = match bare_project(p.project_id) {
            Ok(id) => id,
            Err(e) => {
                return Err(e);
            },
        };
        return match tab_ids_on(&p.tab_ids, ReorderInstance::Local) {
            Some(tab_ids) => Ok(
                TabRoute { instance: ReorderInstance::Local, project_id, tab_ids },
            ),
            None => Err(
                HandlerError::invalid_param(
                    "host-qualified tab refs are a UI-socket form; session tab ids are bare".to_owned(),
                ),
            ),
        };
    }
    let (instance, project_id): (ReorderInstance, i64) = match p.project_id {
        WireProjectRef::Local(id) => (ReorderInstance::Local, id),
        WireProjectRef::Host { host, project } => (ReorderInstance::Host(host), project),
    };
    match tab_ids_on(&p.tab_ids, instance) {
        None => Err(mixed_refs("tab.reorder")),
        Some(tab_ids) => {
            match instance {
                ReorderInstance::Host(_) => {
                    if !has_ui {
                        return Err(host_needs_a_ui("tab.reorder"));
                    }
                },
                ReorderInstance::Local => {},
            }
            Ok(TabRoute { instance, project_id, tab_ids })
        },
    }
}

/// A new order of projects, as the instance it is for knows them.
#[derive(Debug, PartialEq, Eq)]
pub struct ProjectRoute {
    pub instance: ReorderInstance,
    pub project_ids: Vec<i64>,
}

/// The instance that a list of projects names: its first one's. An empty list names none and
/// stays here.
pub open spec fn list_instance(projects: Seq<WireProjectRef>) -> ReorderInstance {
    if projects.len() == 0 {
        ReorderInstance::Local
    } else {
        instance_of(projects[0])
    }
}

/// Which instance a new order of projects is for.
pub fn project_reorder_route(
    is_session: bool,
    has_ui: bool,
    projects: &Vec<WireProjectRef>,
) -> (out: Result<ProjectRoute, HandlerError>)
    ensures
        ({
            let instance = list_instance(projects@);
            if is_session {
                if !projects_on(projects@, ReorderInstance::Local) {
                    out matches Err(e) && e.says("invalid-param"@, foreign_project())
                } else {
                    out is Ok
                }
            } else if !projects_on(projects@, instance) {
                out matches Err(e) && e.says("invalid-param"@, mixed("project.reorder"@))
            } else if instance != ReorderInstance::Local && !has_ui {
                out matches Err(e) && e.says(
                    "invalid-param"@,
                    unreachable_host("project.reorder"@),
                )
            } else {
                out is Ok
            }
        }),
        out matches Ok(route) ==> route.instance == list_instance(projects@)
            && route.project_ids@ == project_numbers(projects@),
{
    if is_session {
        return match project_ids_on(projects, ReorderInstance::Local) {
            Some(project_ids) => {
                assert(projects@.len() > 0 ==> projects@[0].on(ReorderInstance::Local));
                Ok(ProjectRoute { instance: ReorderInstance::Local, project_ids })
            },
            None => Err(
                HandlerError::invalid_param(
                    "host-qualified project refs are a UI-socket form; session project ids are bare".to_owned(),
                ),
            ),
        };
    }
    let instance: ReorderInstance = if projects.len() == 0 {
        ReorderInstance::Local
    } else {
        match projects[0] {
            WireProjectRef::Local(_) => ReorderInstance::Local,
            WireProjectRef::Host { host, .. } => ReorderInstance::Host(host),
        }
    };
    match project_ids_on(projects, instance) {
        None => Err(mixed_refs("project.reorder")),
        Some(project_ids) => {
            match instance {
                ReorderInstance::Host(_) => {
                    if !has_ui {
                        return Err(host_needs_a_ui("project.reorder"));
                    }
                },
                ReorderInstance::Local => {},
            }
            Ok(ProjectRoute { instance, project_ids })
        },
    }
}

/// A list of tabs that all lie on one instance lies on no other.
pub proof fn law_one_instance_per_request(tabs: Seq<WireTabRef>, a: ReorderInstance, b: ReorderInstance)
    requires
        tabs.len() > 0,
        tabs_on(tabs, a),
        tabs_on(tabs, b),
    ensures
        a == b,
{
    assert(tabs[0].on(a) && tabs[0].on(b));
}

/// Where a reference leads: a bare one to this instance, one that names a host to that host and
/// no other, each to the number it carries.
pub proof fn law_a_reference_leads_where_it_says(id: i64, host: u32, other: u32)
    ensures
        WireTabRef::Local(id).on(ReorderInstance::Local),
        !WireTabRef::Local(id).on(ReorderInstance::Host(host)),
        !(WireTabRef::Host { host, tab: id }).on(ReorderInstance::Local),
        (WireTabRef::Host { host, tab: id }).on(ReorderInstance::Host(other)) <==> host == other,
        WireTabRef::Local(id).id() == id,
        (WireTabRef::Host { host, tab: id }).id() == id,
        WireProjectRef::Local(id).on(ReorderInstance::Local),
        !WireProjectRef::Local(id).on(ReorderInstance::Host(host)),
        !(WireProjectRef::Host { host, project: id }).on(ReorderInstance::Local),
        (WireProjectRef::Host { host, project: id }).on(ReorderInstance::Host(other)) <==> host
            == other,
        WireProjectRef::Local(id).id() == id,
        (WireProjectRef::Host { host, project: id }).id() == id,
        instance_of(WireProjectRef::Local(id)) == ReorderInstance::Local,
        instance_of(WireProjectRef::Host { host, project: id }) == ReorderInstance::Host(host),
{
}

/// A list keeps its order on the way, and leads where its first reference does; an empty one
/// stays here. It is on an instance where every one of its references is.
pub proof fn law_a_list_keeps_its_order(
    tabs: Seq<WireTabRef>,
    projects: Seq<WireProjectRef>,
    instance: ReorderInstance,
    i: int,
)
    ensures
        tab_numbers(tabs).len() == tabs.len(),
        0 <= i < tabs.len() ==> tab_numbers(tabs)[i] == tabs[i].id(),
        project_numbers(projects).len() == projects.len(),
        0 <= i < projects.len() ==> project_numbers(projects)[i] == projects[i].id(),
        projects.len() == 0 ==> list_instance(projects) == ReorderInstance::Local,
        projects.len() > 0 ==> projects[0].on(list_instance(projects)),
        tabs_on(tabs, instance) && 0 <= i < tabs.len() ==> tabs[i].on(instance),
        0 <= i < tabs.len() && !tabs[i].on(instance) ==> !tabs_on(tabs, instance),
        projects_on(projects, instance) && 0 <= i < projects.len() ==> projects[i].on(instance),
        tabs.len() == 0 ==> tabs_on(tabs, instance),
        projects.len() == 0 ==> projects_on(projects, instance),
{
}

/// What is wrong with references is said of the operation they were for.
pub proof fn law_a_refused_reference_says_why(op: Seq<char>)
    ensures
        text::begins(mixed(op), op),
        unreachable_host(op) == "a host-qualified "@ + op + " needs a UI: "@
            + "host connections are client state"@,
        foreign_tab() == "host-qualified tab refs are a UI-socket form; session tab ids are bare"@,
        foreign_project()
            == "host-qualified project refs are a UI-socket form; session project ids are bare"@,
{
    let rest =
        ": every ref in one request must name the same instance — either all bare (local) or all `h<host>.<id>` on one host"@;
    text::law_a_text_stands_where_it_was_put(seq![], op, rest);
}

} // verus!
