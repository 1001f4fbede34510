//! The addresses of the service's endpoints.

use vstd::prelude::*;
use vstd::string::StringExecFns;
use crate::text::{decimal, push_decimal};

verus! {

/// The service's base address.
pub const BASE_PATH: &'static str = "https://app.crowdlog.jp";

/// An endpoint of the service, with the values its address carries. Dates
/// are `YYYY-MM-DD`.
#[derive(Clone, Debug, PartialEq, Eq)]
pub enum Endpoint {
    /// The login form.
    Login,
    /// The page header, which describes the user.
    PageHeader,
    /// The user's stop watches.
    StopWatches,
    /// The active history of work contents on a date.
    History(String),
    /// The active saved patterns on a date.
    MyPatterns(String),
    /// A user's active projects on a date.
    Projects(u32, String),
    /// The first-level processes of a user's project.
    Processes(u32, u32),
    /// A stop watch, whose work content is set there.
    StopWatch(u32),
    /// The history of work contents, which takes new entries.
    HistoryWorkContents,
    /// Starts a stop watch.
    StartTimer(u32),
    /// Stops a stop watch.
    StopTimer(u32),
    /// Applies the stopped stop watch to the timesheet.
    ApplyTimer,
    /// Resets a stop watch.
    ResetTimer(u32),
}

/// The path of an endpoint, after the base address and a slash.
pub open spec fn path_of(e: Endpoint) -> Seq<char> {
    match e {
        Endpoint::Login => "login.cgi"@,
        Endpoint::PageHeader => "data/page-header"@,
        Endpoint::StopWatches => "apis/my/stop_watches"@,
        Endpoint::History(date) => "apis/my/histories/work_contents?date="@ + date@ + "&active=true"@,
        Endpoint::MyPatterns(date) => "apis/my/my_patterns/?date="@ + date@ + "&active=true"@,
        Endpoint::Projects(user_id, date) => "apis/users/"@ + decimal(user_id as nat)
            + "/projects?date="@ + date@ + "&active=true"@,
        Endpoint::Processes(user_id, project_id) => "apis/users/"@ + decimal(user_id as nat)
            + "/projects/"@ + decimal(project_id as nat)
            + "/processes/level/1/?active=true&per_page=100"@,
        Endpoint::StopWatch(id) => "apis/my/stop_watches/"@ + decimal(id as nat) + "/"@,
        Endpoint::HistoryWorkContents => "apis/my/histories/work_contents/"@,
        Endpoint::StartTimer(id) => "apis/my/stop_watches/"@ + decimal(id as nat) + "/start/"@,
        Endpoint::StopTimer(id) => "apis/my/stop_watches/"@ + decimal(id as nat) + "/stop/"@,
        Endpoint::ApplyTimer => "apis/my/timesheets/stop_watch_apply/"@,
        Endpoint::ResetTimer(id) => "apis/my/stop_watches/"@ + decimal(id as nat) + "/reset/"@,
    }
}

/// The full address of an endpoint.
pub open spec fn url_of(e: Endpoint) -> Seq<char> {
    BASE_PATH@ + "/"@ + path_of(e)
}

impl Endpoint {
    /// The full address of this endpoint.
    pub fn url(&self) -> (r: String)
        ensures
            r@ == url_of(*self),
    {
        let mut out = String::from_str(BASE_PATH);
        out.append("/");
        let ghost base = out@;
        match self {
            Endpoint::Login => out.append("login.cgi"),
            Endpoint::PageHeader => out.append("data/page-header"),
            Endpoint::StopWatches => out.append("apis/my/stop_watches"),
            Endpoint::History(date) => {
                out.append("apis/my/histories/work_contents?date=");
                out.append(date.as_str());
                out.append("&active=true");
            },
            Endpoint::MyPatterns(date) => {
                out.append("apis/my/my_patterns/?date=");
                out.append(date.as_str());
                out.append("&active=true");
            },
            Endpoint::Projects(user_id, date) => {
                out.append("apis/users/");
                push_decimal(&mut out, *user_id as u128);
                out.append("/projects?date=");
                out.append(date.as_str());
                out.append("&active=true");
            },
            Endpoint::Processes(user_id, project_id) => {
                out.append("apis/users/");
                push_decimal(&mut out, *user_id as u128);
                out.append("/projects/");
                push_decimal(&mut out, *project_id as u128);
                out.append("/processes/level/1/?active=true&per_page=100");
            },
            Endpoint::StopWatch(id) => {
                out.append("apis/my/stop_watches/");
                push_decimal(&mut out, *id as u128);
                out.append("/");
            },
            Endpoint::HistoryWorkContents => out.append("apis/my/histories/work_contents/"),
            Endpoint::StartTimer(id) => {
                out.append("apis/my/stop_watches/");
                push_decimal(&mut out, *id as u128);
                out.append("/start/");
            },
            Endpoint::StopTimer(id) => {
                out.append("apis/my/stop_watches/");
                push_decimal(&mut out, *id as u128);
                out.append("/stop/");
            },
            Endpoint::ApplyTimer => out.append("apis/my/timesheets/stop_watch_apply/"),
            Endpoint::ResetTimer(id) => {
                out.append("apis/my/stop_watches/");
                push_decimal(&mut out, *id as u128);
                out.append("/reset/");
            },
        }
        assert(out@ =~= base + path_of(*self));
        out
    }
}

} // verus!
