use crowdlog::endpoint::Endpoint;
use crowdlog::error::{check_response, classify_login, log_if_error, ErrorKind, ReqError};
use crowdlog::model::{
    first_stop_watch, flatten_work_contents, InitialData, Process, Project, ServerUser, StopWatch,
    StopWatchStatus, User, WorkContent, WorkContentResponse,
};

fn content(project: u32, process: u32) -> WorkContent {
    WorkContent {
        project: Some(Project { id: project, name: format!("project {project}") }),
        process: Some(Process { id: process, name: format!("process {process}") }),
    }
}

fn watch(id: u32) -> StopWatch {
    StopWatch {
        id,
        start_at: "2024-01-01 00:00:00".to_string(),
        status: StopWatchStatus::Started,
        work_content: WorkContent { project: None, process: None },
    }
}

fn builder_error() -> reqwest::Error {
    reqwest::Client::new().get("not a url").build().unwrap_err()
}

#[test]
fn endpoint_addresses() {
    let base = "https://app.crowdlog.jp/";
    let cases = vec![
        (Endpoint::Login, "login.cgi".to_string()),
        (Endpoint::PageHeader, "data/page-header".to_string()),
        (Endpoint::StopWatches, "apis/my/stop_watches".to_string()),
        (
            Endpoint::History("2024-05-06".to_string()),
            "apis/my/histories/work_contents?date=2024-05-06&active=true".to_string(),
        ),
        (
            Endpoint::MyPatterns("2024-05-06".to_string()),
            "apis/my/my_patterns/?date=2024-05-06&active=true".to_string(),
        ),
        (
            Endpoint::Projects(42, "2024-05-06".to_string()),
            "apis/users/42/projects?date=2024-05-06&active=true".to_string(),
        ),
        (
            Endpoint::Processes(42, 1007),
            "apis/users/42/projects/1007/processes/level/1/?active=true&per_page=100".to_string(),
        ),
        (Endpoint::StopWatch(7), "apis/my/stop_watches/7/".to_string()),
        (Endpoint::HistoryWorkContents, "apis/my/histories/work_contents/".to_string()),
        (Endpoint::StartTimer(7), "apis/my/stop_watches/7/start/".to_string()),
        (Endpoint::StopTimer(7), "apis/my/stop_watches/7/stop/".to_string()),
        (Endpoint::ApplyTimer, "apis/my/timesheets/stop_watch_apply/".to_string()),
        (Endpoint::ResetTimer(4294967295), "apis/my/stop_watches/4294967295/reset/".to_string()),
    ];
    for (endpoint, path) in cases {
        assert_eq!(endpoint.url(), format!("{base}{path}"));
    }
}

#[test]
fn user_name_is_family_then_given() {
    let user = User::from_server(ServerUser {
        user_id: 12,
        email: "taro@example.jp".to_string(),
        first_name: "Taro".to_string(),
        family_name: "Yamada".to_string(),
    });
    assert_eq!(user, User { id: 12, email: "taro@example.jp".to_string(), name: "Yamada Taro".to_string() });
}

#[test]
fn first_stop_watch_takes_the_first() {
    assert_eq!(first_stop_watch(vec![watch(3), watch(4)]), Ok(watch(3)));
    assert_eq!(first_stop_watch(vec![watch(5)]), Ok(watch(5)));
}

#[test]
fn empty_stop_watch_list_is_an_error() {
    let e = first_stop_watch(vec![]).unwrap_err();
    assert_eq!(e.kind, ErrorKind::EmptyResource);
    assert_eq!(e, ReqError::no_stop_watch());
}

#[test]
fn work_contents_keep_their_order() {
    let entries = vec![
        WorkContentResponse { work_content: content(1, 10) },
        WorkContentResponse { work_content: WorkContent { project: None, process: None } },
        WorkContentResponse { work_content: content(2, 20) },
    ];
    assert_eq!(
        flatten_work_contents(entries),
        vec![content(1, 10), WorkContent { project: None, process: None }, content(2, 20)]
    );
    assert_eq!(flatten_work_contents(vec![]), vec![]);
}

#[test]
fn initial_data_holds_its_parts() {
    let user = User { id: 1, email: "e".to_string(), name: "n".to_string() };
    let projects = vec![Project { id: 3, name: "p".to_string() }];
    let data = InitialData::new(user.clone(), watch(2), vec![content(3, 4)], projects.clone());
    assert_eq!(data.user, user);
    assert_eq!(data.stop_watch, watch(2));
    assert_eq!(data.history, vec![content(3, 4)]);
    assert_eq!(data.projects, projects);
}

#[test]
fn error_parts_default_to_server_error() {
    let e = ReqError::from_parts(None, false, "boom".to_string(), Some("cause".to_string()));
    assert_eq!(e.kind, ErrorKind::RequestFailed);
    assert_eq!(e.status, 500);
    assert_eq!(e.message, "boom");
    assert_eq!(e.source, Some("cause".to_string()));
    let d = ReqError::from_parts(Some(200), true, "bad body".to_string(), None);
    assert_eq!(d.kind, ErrorKind::DecodeFailed);
    assert_eq!(d.status, 200);
}

#[test]
fn client_failure_becomes_request_failed() {
    let e = ReqError::from(&builder_error());
    assert_eq!(e.kind, ErrorKind::RequestFailed);
    assert_eq!(e.status, 500);
    assert!(!e.message.is_empty());
    assert_eq!(e.message, builder_error().to_string());
}

#[test]
fn log_if_error_passes_values_through() {
    assert_eq!(log_if_error::<u32>(Ok(5)), Ok(5));
    let e = log_if_error::<u32>(Err(builder_error())).unwrap_err();
    assert_eq!(e.kind, ErrorKind::RequestFailed);
    assert!(check_response(Err(builder_error())).is_err());
}

#[test]
fn rejected_login_is_unauthorized() {
    let r = classify_login(Some("result=invalid".to_string()), Ok(()));
    let e = r.unwrap_err();
    assert_eq!(e.kind, ErrorKind::Unauthorized);
    assert_eq!(e.status, 400);
    assert_eq!(e.message, "Invalid email or password");
    assert_eq!(e, ReqError::unauthorized());
}

#[test]
fn other_login_outcomes_pass_through() {
    assert_eq!(classify_login(None, Ok(())), Ok(()));
    assert_eq!(classify_login(Some("result=ok".to_string()), Ok(())), Ok(()));
    let failed = ReqError::from_parts(Some(502), false, "bad gateway".to_string(), None);
    assert_eq!(classify_login(None, Err(failed.clone())), Err(failed));
}

fn response(status: u16) -> reqwest::Response {
    reqwest::Response::from(http::Response::builder().status(status).body("").unwrap())
}

#[test]
fn error_status_becomes_request_failed_with_that_status() {
    let e = check_response(Ok(response(404))).unwrap_err();
    assert_eq!(e.kind, ErrorKind::RequestFailed);
    assert_eq!(e.status, 404);
    let e = check_response(Ok(response(503))).unwrap_err();
    assert_eq!(e.status, 503);
}

#[test]
fn success_status_passes_the_response_through() {
    let r = check_response(Ok(response(200))).unwrap();
    assert_eq!(r.status().as_u16(), 200);
    assert!(check_response(Ok(response(302))).is_ok());
}

#[test]
fn login_outcome_follows_the_response() {
    assert_eq!(crowdlog::error::login_result(Ok(response(200))), Ok(()));
    let e = crowdlog::error::login_result(Ok(response(500))).unwrap_err();
    assert_eq!(e.kind, ErrorKind::RequestFailed);
    assert_eq!(e.status, 500);
    let e = crowdlog::error::login_result(Err(builder_error())).unwrap_err();
    assert_eq!(e.kind, ErrorKind::RequestFailed);
}
