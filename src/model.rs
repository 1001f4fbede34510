//! The records that the client exchanges with the service, and the shaping
//! of the service's answers into them.

use vstd::prelude::*;
use vstd::string::StringExecFns;
use crate::error::{ReqError, is_no_stop_watch};

verus! {

/// The signed-in user.
#[derive(Clone, Debug, PartialEq, Eq)]
pub struct User {
    pub id: u32,
    pub email: String,
    /// Family name, a space, then the given name.
    pub name: String,
}

/// The user as the service's page header describes it.
#[derive(Clone, Debug, PartialEq, Eq)]
pub struct ServerUser {
    pub user_id: u32,
    pub email: String,
    pub first_name: String,
    pub family_name: String,
}

#[derive(Clone, Debug, PartialEq, Eq)]
pub struct Project {
    pub id: u32,
    pub name: String,
}

#[derive(Clone, Debug, PartialEq, Eq)]
pub struct Process {
    pub id: u32,
    pub name: String,
}

/// The task that time is recorded against; either part may be unassigned.
#[derive(Clone, Debug, PartialEq, Eq)]
pub struct WorkContent {
    pub project: Option<Project>,
    pub process: Option<Process>,
}

/// The state of the service's stop watch.
#[derive(Clone, Copy, Debug, PartialEq, Eq, Structural)]
pub enum StopWatchStatus {
    /// A timer runs.
    Started,
    /// A timer was stopped and its time not yet applied to a timesheet.
    NeedToApply,
    /// No timer runs; one can be started.
    Clean,
}

/// The service's one stop watch of the user.
#[derive(Clone, Debug, PartialEq, Eq)]
pub struct StopWatch {
    pub id: u32,
    /// When the running timer started, as `YYYY-MM-DD HH:MM:SS`.
    pub start_at: String,
    pub status: StopWatchStatus,
    pub work_content: WorkContent,
}

/// An entry of the history or of the saved patterns.
#[derive(Clone, Debug, PartialEq, Eq)]
pub struct WorkContentResponse {
    pub work_content: WorkContent,
}

/// What the client loads when it opens.
#[derive(Clone, Debug, PartialEq, Eq)]
pub struct InitialData {
    pub user: User,
    pub stop_watch: StopWatch,
    pub history: Vec<WorkContent>,
    pub projects: Vec<Project>,
}

/// A user's display name: family name, a space, given name.
pub open spec fn full_name(family_name: Seq<char>, first_name: Seq<char>) -> Seq<char> {
    family_name + seq![' '] + first_name
}

/// The work contents of a list of entries, in order.
pub open spec fn work_contents_of(entries: Seq<WorkContentResponse>) -> Seq<WorkContent> {
    entries.map_values(|e: WorkContentResponse| e.work_content)
}

impl User {
    /// Flattens the page header's description of the user.
    pub fn from_server(user: ServerUser) -> (r: User)
        ensures
            r.id == user.user_id,
            r.email == user.email,
            r.name@ == full_name(user.family_name@, user.first_name@),
    {
        let ServerUser { user_id, email, first_name, family_name } = user;
        let mut name = family_name;
        proof { reveal_strlit(" "); }
        name.append(" ");
        name.append(first_name.as_str());
        assert(name@ =~= full_name(family_name@, first_name@));
        User { id: user_id, email, name }
    }
}

/// The user's stop watch: the first of the service's list, which holds one
/// per user. An empty list is an error.
pub fn first_stop_watch(stop_watches: Vec<StopWatch>) -> (r: Result<StopWatch, ReqError>)
    ensures
        stop_watches@.len() == 0 ==> (r matches Err(e) && is_no_stop_watch(e)),
        stop_watches@.len() > 0 ==> r == Ok::<StopWatch, ReqError>(stop_watches@[0]),
{
    if stop_watches.len() == 0 {
        Err(ReqError::no_stop_watch())
    } else {
        let mut stop_watches = stop_watches;
        Ok(stop_watches.swap_remove(0))
    }
}

/// The work contents of the history's or the patterns' entries, in order.
pub fn flatten_work_contents(entries: Vec<WorkContentResponse>) -> (r: Vec<WorkContent>)
    ensures
        r@ == work_contents_of(entries@),
{
    let ghost all = entries@;
    let mut out: Vec<WorkContent> = Vec::new();
    for entry in it: entries
        invariant
            it.seq() == all,
            out@ == work_contents_of(all.take(it.index() as int)),
    {
        out.push(entry.work_content);
        assert(all.take(it.index() as int + 1) =~= all.take(it.index() as int).push(all[it.index() as int]));
        assert(out@ =~= work_contents_of(all.take(it.index() as int + 1)));
    }
    assert(all.take(all.len() as int) =~= all);
    out
}

impl InitialData {
    pub fn new(user: User, stop_watch: StopWatch, history: Vec<WorkContent>, projects: Vec<Project>) -> (r: InitialData)
        ensures
            r.user == user,
            r.stop_watch == stop_watch,
            r.history == history,
            r.projects == projects,
    {
        InitialData { user, stop_watch, history, projects }
    }
}

} // verus!
