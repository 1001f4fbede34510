use crowdlog::cancel::cancellation_token;
use crowdlog::error::{ErrorKind, ReqError};
use crowdlog::model::{InitialData, Project, StopWatch, StopWatchStatus, User, WorkContent};
use crowdlog::timer::{Answer, CommandFlow, LoadFlow, LoadStage, RemoteCall, Stage, Step, TickLoop, TimerHandle};

fn watch(id: u32, status: StopWatchStatus, start_at: &str) -> StopWatch {
    StopWatch {
        id,
        start_at: start_at.to_string(),
        status,
        work_content: WorkContent { project: None, process: None },
    }
}

fn failure(message: &str) -> ReqError {
    ReqError::from_parts(Some(503), false, message.to_string(), None)
}

const NEW_YEAR_2024: i64 = 1704067200;

#[test]
fn start_of_running_timer_makes_no_call() {
    let sw = watch(3, StopWatchStatus::Started, "2024-01-01 00:00:00");
    let (flow, step) = CommandFlow::start(sw.clone());
    assert_eq!(flow.stage, Stage::Finished);
    assert_eq!(step, Step::Finish(Ok(Answer::Watch(sw))));
}

#[test]
fn start_of_timer_needing_apply_is_refused_without_call() {
    let sw = watch(4, StopWatchStatus::NeedToApply, "");
    let (flow, step) = CommandFlow::start(sw);
    assert_eq!(flow.stage, Stage::Finished);
    match step {
        Step::Finish(Err(e)) => {
            assert_eq!(e.kind, ErrorKind::IllegalTimerState);
            assert_eq!(e.status, 400);
            assert_eq!(e, ReqError::illegal_timer_state());
        }
        other => panic!("expected a refusal, got {:?}", other),
    }
}

#[test]
fn stop_calls_stop_apply_reset_in_order() {
    let (mut flow, step) = CommandFlow::stop(9);
    assert_eq!(step, Step::Call(RemoteCall::StopTimer(9)));
    let after_stop = flow.resume(Ok(Answer::Watch(watch(9, StopWatchStatus::NeedToApply, ""))));
    assert_eq!(after_stop, Step::Call(RemoteCall::ApplyTimer(9)));
    let after_apply = flow.resume(Ok(Answer::Done));
    assert_eq!(after_apply, Step::Call(RemoteCall::ResetTimer(9)));
    let reset = watch(9, StopWatchStatus::Clean, "");
    let end = flow.resume(Ok(Answer::Watch(reset.clone())));
    assert_eq!(end, Step::Finish(Ok(Answer::Watch(reset))));
    assert_eq!(flow.stage, Stage::Finished);
}

#[test]
fn stop_does_not_reset_after_failed_apply() {
    let (mut flow, _) = CommandFlow::stop(9);
    flow.resume(Ok(Answer::Watch(watch(9, StopWatchStatus::NeedToApply, ""))));
    let end = flow.resume(Err(failure("apply failed")));
    assert_eq!(end, Step::Finish(Err(failure("apply failed"))));
    assert_eq!(flow.stage, Stage::Finished);
}

#[test]
fn stop_ends_at_failed_stop() {
    let (mut flow, _) = CommandFlow::stop(2);
    let end = flow.resume(Err(failure("stop failed")));
    assert_eq!(end, Step::Finish(Err(failure("stop failed"))));
}

#[test]
fn cancel_only_resets() {
    let (mut flow, step) = CommandFlow::cancel(5);
    assert_eq!(step, Step::Call(RemoteCall::ResetTimer(5)));
    let reset = watch(5, StopWatchStatus::Clean, "");
    let end = flow.resume(Ok(Answer::Watch(reset.clone())));
    assert_eq!(end, Step::Finish(Ok(Answer::Watch(reset))));
}

#[test]
fn cancel_passes_reset_failure_on() {
    let (mut flow, _) = CommandFlow::cancel(5);
    assert_eq!(flow.resume(Err(failure("reset failed"))), Step::Finish(Err(failure("reset failed"))));
}

#[test]
fn assign_records_history_before_setting() {
    let (mut flow, step) = CommandFlow::assign(1, 20, 300);
    assert_eq!(step, Step::Call(RemoteCall::AddToHistory(20, 300)));
    let next = flow.resume(Ok(Answer::Done));
    assert_eq!(next, Step::Call(RemoteCall::SetWorkContent(1, 20, 300)));
    let content = WorkContent { project: None, process: None };
    let end = flow.resume(Ok(Answer::Content(content.clone())));
    assert_eq!(end, Step::Finish(Ok(Answer::Content(content))));
}

#[test]
fn assign_does_not_set_after_failed_history() {
    let (mut flow, _) = CommandFlow::assign(1, 20, 300);
    assert_eq!(flow.resume(Err(failure("history"))), Step::Finish(Err(failure("history"))));
}

#[test]
fn second_start_does_not_register_second_loop() {
    let mut handle = TimerHandle::new();
    assert!(!handle.is_registered());
    let sw = watch(1, StopWatchStatus::Started, "2024-01-01 00:00:00");
    let (first, tick_loop) = handle.start_ticking(sw.clone()).unwrap();
    assert_eq!(first, sw);
    assert!(tick_loop.is_some());
    assert!(handle.is_registered());
    let other = watch(2, StopWatchStatus::Started, "2024-02-01 00:00:00");
    let (again, none) = handle.start_ticking(other.clone()).unwrap();
    assert_eq!(again, other);
    assert!(none.is_none());
    assert!(handle.is_registered());
}

#[test]
fn bad_start_time_registers_nothing() {
    let mut handle = TimerHandle::new();
    let sw = watch(1, StopWatchStatus::Started, "yesterday");
    let e = handle.start_ticking(sw).unwrap_err();
    assert_eq!(e.kind, ErrorKind::DecodeFailed);
    assert_eq!(e, ReqError::bad_start_at());
    assert!(!handle.is_registered());
}

#[test]
fn release_cancels_the_registered_loop() {
    let mut handle = TimerHandle::new();
    let sw = watch(1, StopWatchStatus::Started, "2024-01-01 00:00:00");
    let (_, tick_loop) = handle.start_ticking(sw).unwrap();
    let tick_loop = tick_loop.unwrap();
    assert!(!tick_loop.token.should_cancel());
    handle.release();
    assert!(!handle.is_registered());
    assert!(tick_loop.token.should_cancel());
    handle.release();
    assert!(!handle.is_registered());
}

#[test]
fn cancellation_is_shared_and_stays_set() {
    let (canceller, token) = cancellation_token();
    let copy = token.clone();
    assert!(!token.should_cancel());
    canceller.cancel();
    assert!(token.should_cancel());
    assert!(copy.should_cancel());
    canceller.cancel();
    assert!(token.should_cancel());
}

#[test]
fn no_tick_after_cancel_is_seen() {
    let (_, token) = cancellation_token();
    let mut tick_loop = TickLoop { start_at: 100, token, stopped: false };
    assert_eq!(tick_loop.tick_at(101, false), Some("00:00:01".to_string()));
    assert!(!tick_loop.is_finished());
    assert_eq!(tick_loop.tick_at(102, true), Some("00:00:02".to_string()));
    assert!(tick_loop.is_finished());
    assert_eq!(tick_loop.tick_at(103, false), None);
    assert_eq!(tick_loop.tick_at(104, true), None);
}

#[test]
fn live_tick_stops_once_cancelled() {
    let mut handle = TimerHandle::new();
    let sw = watch(1, StopWatchStatus::Started, "2024-01-01 00:00:00");
    let (_, tick_loop) = handle.start_ticking(sw).unwrap();
    let mut tick_loop = tick_loop.unwrap();
    assert!(tick_loop.tick().is_some());
    assert!(!tick_loop.is_finished());
    handle.release();
    assert!(tick_loop.tick().is_some());
    assert!(tick_loop.is_finished());
    assert_eq!(tick_loop.tick(), None);
}

#[test]
fn clean_stop_watch_starts_on_service_then_ticks() {
    let sw = watch(7, StopWatchStatus::Clean, "");
    let (mut flow, step) = CommandFlow::start(sw);
    assert_eq!(step, Step::Call(RemoteCall::StartTimer(7)));
    let started = watch(7, StopWatchStatus::Started, "2024-01-01 00:00:00");
    let end = flow.resume(Ok(Answer::Watch(started.clone())));
    assert_eq!(end, Step::Finish(Ok(Answer::Watch(started.clone()))));
    let mut handle = TimerHandle::new();
    let (sw, tick_loop) = handle.start_ticking(started.clone()).unwrap();
    assert_eq!(sw, started);
    assert!(handle.is_registered());
    let mut tick_loop = tick_loop.unwrap();
    assert_eq!(tick_loop.start_at, NEW_YEAR_2024);
    assert_eq!(tick_loop.tick_at(NEW_YEAR_2024 + 1, false), Some("00:00:01".to_string()));
}

#[test]
fn running_stop_watch_shows_time_since_its_start() {
    let sw = watch(8, StopWatchStatus::Started, "2024-01-01 00:00:00");
    let (_, step) = CommandFlow::start(sw.clone());
    assert_eq!(step, Step::Finish(Ok(Answer::Watch(sw.clone()))));
    let mut handle = TimerHandle::new();
    let (_, tick_loop) = handle.start_ticking(sw).unwrap();
    let mut tick_loop = tick_loop.unwrap();
    // 2024-01-01 01:02:03
    let now = NEW_YEAR_2024 + 3600 + 2 * 60 + 3;
    assert_eq!(tick_loop.tick_at(now, false), Some("01:02:03".to_string()));
}


fn user(id: u32) -> User {
    User { id, email: "u@example.jp".to_string(), name: "Yamada Taro".to_string() }
}

#[test]
fn load_fetches_user_watch_history_then_projects() {
    let (mut flow, step) = LoadFlow::load();
    assert_eq!(step, Step::Call(RemoteCall::GetUser));
    assert_eq!(flow.resume(Ok(Answer::User(user(42)))), Step::Call(RemoteCall::GetStopWatch));
    let sw = watch(3, StopWatchStatus::Clean, "");
    assert_eq!(flow.resume(Ok(Answer::Watch(sw.clone()))), Step::Call(RemoteCall::GetHistory));
    let history = vec![WorkContent { project: None, process: None }];
    assert_eq!(flow.resume(Ok(Answer::History(history.clone()))), Step::Call(RemoteCall::GetProjects(42)));
    let projects = vec![Project { id: 5, name: "p".to_string() }];
    let end = flow.resume(Ok(Answer::Projects(projects.clone())));
    assert_eq!(
        end,
        Step::Finish(Ok(Answer::Initial(InitialData { user: user(42), stop_watch: sw, history, projects })))
    );
    assert_eq!(flow.stage, LoadStage::Finished);
}

#[test]
fn load_ends_at_first_failure() {
    let (mut flow, _) = LoadFlow::load();
    flow.resume(Ok(Answer::User(user(42))));
    assert_eq!(flow.resume(Err(failure("no watch"))), Step::Finish(Err(failure("no watch"))));
    assert_eq!(flow.stage, LoadStage::Finished);
}

#[test]
fn load_refuses_answer_that_does_not_fit() {
    let (mut flow, _) = LoadFlow::load();
    assert_eq!(flow.resume(Ok(Answer::Done)), Step::Finish(Err(ReqError::unexpected_answer())));
    assert_eq!(flow.stage, LoadStage::Finished);
}
