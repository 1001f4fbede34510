//! The timer engine. Commands on the service's stop watch run as flows that
//! name each remote call to make and decide, from what it returned, what
//! comes next; loading what the client shows when it opens runs the same
//! way. A handle holds the one tick loop that may run, and the loop
//! turns the time elapsed since the stop watch started into clock texts
//! until it sees that it was cancelled.

use vstd::prelude::*;
use crate::cancel::{Canceller, CancellationToken, cancellation_token};
use crate::clock::{START_AT_FORMAT, clock_text, naive_timestamp, parse_start_at, to_clock_str, local_wall_seconds};
use crate::error::{ReqError, is_bad_start_at, is_illegal_timer_state, is_unexpected_answer};
use crate::model::{InitialData, Project, StopWatch, StopWatchStatus, User, WorkContent};

verus! {

/// A call on the service.
#[derive(Clone, Copy, Debug, PartialEq, Eq, Structural)]
pub enum RemoteCall {
    /// Starts the stop watch with this id.
    StartTimer(u32),
    /// Stops the stop watch with this id.
    StopTimer(u32),
    /// Applies the stopped stop watch with this id to the timesheet.
    ApplyTimer(u32),
    /// Resets the stop watch with this id.
    ResetTimer(u32),
    /// Adds a project and a process to the history.
    AddToHistory(u32, u32),
    /// Sets a project and a process on the stop watch with this id.
    SetWorkContent(u32, u32, u32),
    /// Fetches the signed-in user.
    GetUser,
    /// Fetches the user's stop watch.
    GetStopWatch,
    /// Fetches today's history of work contents.
    GetHistory,
    /// Fetches the active projects of the user with this id.
    GetProjects(u32),
}

/// What a call returned when it succeeded.
#[derive(Clone, Debug, PartialEq, Eq)]
pub enum Answer {
    /// The stop watch as the call left it.
    Watch(StopWatch),
    /// The work content as the call left it.
    Content(WorkContent),
    /// Nothing beyond success.
    Done,
    /// The signed-in user.
    User(User),
    /// The history of work contents.
    History(Vec<WorkContent>),
    /// The user's projects.
    Projects(Vec<Project>),
    /// Everything the client loads when it opens.
    Initial(InitialData),
}

/// What a command does next: make a call, or end with a result.
#[derive(Debug, PartialEq, Eq)]
pub enum Step {
    Call(RemoteCall),
    Finish(Result<Answer, ReqError>),
}

/// The call that a flow waits on.
#[derive(Clone, Copy, Debug, PartialEq, Eq, Structural)]
pub enum Stage {
    Starting,
    Stopping,
    Applying,
    Resetting,
    Recording,
    Assigning,
    Finished,
}

/// The course of one command on the stop watch.
#[derive(Clone, Copy, Debug, PartialEq, Eq, Structural)]
pub struct CommandFlow {
    pub stage: Stage,
    pub stop_watch_id: u32,
    pub project_id: u32,
    pub process_id: u32,
}

impl CommandFlow {
    /// This flow moved to `stage`.
    pub open spec fn at(self, stage: Stage) -> CommandFlow {
        CommandFlow { stage, ..self }
    }

    /// The flow and the step after the call it waits on returned `reply`:
    /// a failure ends the command with that failure; a success leads to
    /// the next call, or ends the command with what the last call returned.
    pub open spec fn next(self, reply: Result<Answer, ReqError>) -> (CommandFlow, Step) {
        match reply {
            Err(e) => (self.at(Stage::Finished), Step::Finish(Err(e))),
            Ok(answer) => match self.stage {
                Stage::Stopping => (
                    self.at(Stage::Applying),
                    Step::Call(RemoteCall::ApplyTimer(self.stop_watch_id)),
                ),
                Stage::Applying => (
                    self.at(Stage::Resetting),
                    Step::Call(RemoteCall::ResetTimer(self.stop_watch_id)),
                ),
                Stage::Recording => (
                    self.at(Stage::Assigning),
                    Step::Call(
                        RemoteCall::SetWorkContent(
                            self.stop_watch_id,
                            self.project_id,
                            self.process_id,
                        ),
                    ),
                ),
                _ => (self.at(Stage::Finished), Step::Finish(Ok(answer))),
            },
        }
    }

    /// Stopping the stop watch `id`: stop it, apply it, reset it.
    pub open spec fn stop_spec(id: u32) -> (CommandFlow, Step) {
        (
            CommandFlow { stage: Stage::Stopping, stop_watch_id: id, project_id: 0, process_id: 0 },
            Step::Call(RemoteCall::StopTimer(id)),
        )
    }

    /// Cancelling the stop watch `id`: only reset it.
    pub open spec fn cancel_spec(id: u32) -> (CommandFlow, Step) {
        (
            CommandFlow { stage: Stage::Resetting, stop_watch_id: id, project_id: 0, process_id: 0 },
            Step::Call(RemoteCall::ResetTimer(id)),
        )
    }

    /// Assigning a project and a process to the stop watch `id`: record
    /// them in the history first, then set them on the stop watch.
    pub open spec fn assign_spec(id: u32, project_id: u32, process_id: u32) -> (CommandFlow, Step) {
        (
            CommandFlow { stage: Stage::Recording, stop_watch_id: id, project_id, process_id },
            Step::Call(RemoteCall::AddToHistory(project_id, process_id)),
        )
    }

    /// Starting a timer on `stop_watch`: a running one is taken as it is, a
    /// clean one is started on the service, and one that waits to be
    /// applied is refused without any call.
    pub fn start(stop_watch: StopWatch) -> (r: (CommandFlow, Step))
        ensures
            r.0.stop_watch_id == stop_watch.id,
            stop_watch.status == StopWatchStatus::Started ==> r.0.stage == Stage::Finished
                && r.1 == Step::Finish(Ok(Answer::Watch(stop_watch))),
            stop_watch.status == StopWatchStatus::Clean ==> r.0.stage == Stage::Starting && r.1
                == Step::Call(RemoteCall::StartTimer(stop_watch.id)),
            stop_watch.status == StopWatchStatus::NeedToApply ==> r.0.stage == Stage::Finished && (
            r.1 matches Step::Finish(Err(e)) && is_illegal_timer_state(e)),
    {
        let id = stop_watch.id;
        match stop_watch.status {
            StopWatchStatus::Started => (
                CommandFlow { stage: Stage::Finished, stop_watch_id: id, project_id: 0, process_id: 0 },
                Step::Finish(Ok(Answer::Watch(stop_watch))),
            ),
            StopWatchStatus::Clean => (
                CommandFlow { stage: Stage::Starting, stop_watch_id: id, project_id: 0, process_id: 0 },
                Step::Call(RemoteCall::StartTimer(id)),
            ),
            StopWatchStatus::NeedToApply => (
                CommandFlow { stage: Stage::Finished, stop_watch_id: id, project_id: 0, process_id: 0 },
                Step::Finish(Err(ReqError::illegal_timer_state())),
            ),
        }
    }

    /// Stopping the stop watch `id`.
    pub fn stop(id: u32) -> (r: (CommandFlow, Step))
        ensures
            r == CommandFlow::stop_spec(id),
    {
        (
            CommandFlow { stage: Stage::Stopping, stop_watch_id: id, project_id: 0, process_id: 0 },
            Step::Call(RemoteCall::StopTimer(id)),
        )
    }

    /// Cancelling the stop watch `id`.
    pub fn cancel(id: u32) -> (r: (CommandFlow, Step))
        ensures
            r == CommandFlow::cancel_spec(id),
    {
        (
            CommandFlow { stage: Stage::Resetting, stop_watch_id: id, project_id: 0, process_id: 0 },
            Step::Call(RemoteCall::ResetTimer(id)),
        )
    }

    /// Assigning a project and a process to the stop watch `id`.
    pub fn assign(id: u32, project_id: u32, process_id: u32) -> (r: (CommandFlow, Step))
        ensures
            r == CommandFlow::assign_spec(id, project_id, process_id),
    {
        (
            CommandFlow { stage: Stage::Recording, stop_watch_id: id, project_id, process_id },
            Step::Call(RemoteCall::AddToHistory(project_id, process_id)),
        )
    }

    /// Goes on after the call that this flow waits on returned `reply`.
    pub fn resume(&mut self, reply: Result<Answer, ReqError>) -> (r: Step)
        requires
            old(self).stage != Stage::Finished,
        ensures
            (*final(self), r) == old(self).next(reply),
    {
        match reply {
            Err(e) => {
                self.stage = Stage::Finished;
                Step::Finish(Err(e))
            },
            Ok(answer) => match self.stage {
                Stage::Stopping => {
                    self.stage = Stage::Applying;
                    Step::Call(RemoteCall::ApplyTimer(self.stop_watch_id))
                },
                Stage::Applying => {
                    self.stage = Stage::Resetting;
                    Step::Call(RemoteCall::ResetTimer(self.stop_watch_id))
                },
                Stage::Recording => {
                    self.stage = Stage::Assigning;
                    Step::Call(
                        RemoteCall::SetWorkContent(
                            self.stop_watch_id,
                            self.project_id,
                            self.process_id,
                        ),
                    )
                },
                _ => {
                    self.stage = Stage::Finished;
                    Step::Finish(Ok(answer))
                },
            },
        }
    }
}

/// The calls that a command makes from `step` on, when those calls return
/// `replies` in turn.
pub open spec fn calls_made(flow: CommandFlow, step: Step, replies: Seq<Result<Answer, ReqError>>) -> Seq<
    RemoteCall,
>
    decreases replies.len(),
{
    match step {
        Step::Finish(_) => seq![],
        Step::Call(call) => if replies.len() == 0 {
            seq![call]
        } else {
            seq![call] + calls_made(
                flow.next(replies[0]).0,
                flow.next(replies[0]).1,
                replies.drop_first(),
            )
        },
    }
}

/// How many calls of a fixed sequence a command makes when each goes ahead
/// only after the one before it succeeded.
pub open spec fn calls_reached(replies: Seq<Result<Answer, ReqError>>, planned: nat) -> nat
    decreases planned,
{
    if planned <= 1 || replies.len() == 0 || replies[0] is Err {
        if planned == 0 { 0 } else { 1 }
    } else {
        1 + calls_reached(replies.drop_first(), (planned - 1) as nat)
    }
}

/// What a command ends with from `step` on, when its calls return
/// `replies` in turn; `None` where it still waits on a call.
pub open spec fn command_result(flow: CommandFlow, step: Step, replies: Seq<Result<Answer, ReqError>>) -> Option<
    Result<Answer, ReqError>,
>
    decreases replies.len(),
{
    match step {
        Step::Finish(result) => Some(result),
        Step::Call(_) => if replies.len() == 0 {
            None
        } else {
            command_result(
                flow.next(replies[0]).0,
                flow.next(replies[0]).1,
                replies.drop_first(),
            )
        },
    }
}

/// Stopping calls stop, apply and reset, in this order, each only after
/// the one before it succeeded: a failed apply is never followed by a reset.
/// The command ends with the first failure, or with what the reset returned.
pub proof fn lemma_stop_calls_in_order(id: u32, replies: Seq<Result<Answer, ReqError>>)
    ensures
        calls_made(CommandFlow::stop_spec(id).0, CommandFlow::stop_spec(id).1, replies) == seq![
            RemoteCall::StopTimer(id),
            RemoteCall::ApplyTimer(id),
            RemoteCall::ResetTimer(id),
        ].take(calls_reached(replies, 3) as int),
        replies.len() >= 1 && replies[0] is Err ==> command_result(
            CommandFlow::stop_spec(id).0,
            CommandFlow::stop_spec(id).1,
            replies,
        ) == Some(replies[0]),
        replies.len() >= 2 && replies[0] is Ok && replies[1] is Err ==> command_result(
            CommandFlow::stop_spec(id).0,
            CommandFlow::stop_spec(id).1,
            replies,
        ) == Some(replies[1]),
        replies.len() >= 3 && replies[0] is Ok && replies[1] is Ok ==> command_result(
            CommandFlow::stop_spec(id).0,
            CommandFlow::stop_spec(id).1,
            replies,
        ) == Some(replies[2]),
{
    let (f0, s0) = CommandFlow::stop_spec(id);
    let planned = seq![
        RemoteCall::StopTimer(id),
        RemoteCall::ApplyTimer(id),
        RemoteCall::ResetTimer(id),
    ];
    if replies.len() == 0 || replies[0] is Err {
        if replies.len() > 0 {
            let (f1, s1) = f0.next(replies[0]);
            assert(calls_made(f1, s1, replies.drop_first()) == Seq::<RemoteCall>::empty());
            assert(command_result(f1, s1, replies.drop_first()) == Some(replies[0]));
            assert(command_result(f0, s0, replies) == Some(replies[0]));
        }
        assert(calls_reached(replies, 3) == 1);
        assert(calls_made(f0, s0, replies) =~= planned.take(1));
    } else {
        let (f1, s1) = f0.next(replies[0]);
        let r1 = replies.drop_first();
        if r1.len() == 0 || r1[0] is Err {
            if r1.len() > 0 {
                let (f2, s2) = f1.next(r1[0]);
                assert(calls_made(f2, s2, r1.drop_first()) == Seq::<RemoteCall>::empty());
                assert(command_result(f2, s2, r1.drop_first()) == Some(r1[0]));
                assert(command_result(f1, s1, r1) == Some(r1[0]));
                assert(command_result(f0, s0, replies) == Some(replies[1]));
            }
            assert(calls_made(f1, s1, r1) =~= seq![RemoteCall::ApplyTimer(id)]);
            assert(calls_reached(r1, 2) == 1);
            assert(calls_reached(replies, 3) == 2);
            assert(calls_made(f0, s0, replies) =~= planned.take(2));
        } else {
            let (f2, s2) = f1.next(r1[0]);
            let r2 = r1.drop_first();
            if r2.len() > 0 {
                let (f3, s3) = f2.next(r2[0]);
                assert(calls_made(f3, s3, r2.drop_first()) == Seq::<RemoteCall>::empty());
            }
            assert(calls_made(f2, s2, r2) =~= seq![RemoteCall::ResetTimer(id)]);
            assert(calls_made(f1, s1, r1) =~= seq![RemoteCall::ApplyTimer(id), RemoteCall::ResetTimer(id)]);
            if r2.len() > 0 {
                let (f3, s3) = f2.next(r2[0]);
                assert(command_result(f3, s3, r2.drop_first()) == Some(r2[0]));
                assert(command_result(f2, s2, r2) == Some(r2[0]));
                assert(command_result(f1, s1, r1) == Some(r2[0]));
                assert(command_result(f0, s0, replies) == Some(replies[2]));
            }
            assert(calls_reached(r2, 1) == 1);
            assert(calls_reached(r1, 2) == 2);
            assert(calls_reached(replies, 3) == 3);
            assert(calls_made(f0, s0, replies) =~= planned.take(3));
        }
    }
}

/// Cancelling makes one call, a reset, whatever it returns: never a stop or
/// an apply. It ends with what the reset returned.
pub proof fn lemma_cancel_only_resets(id: u32, replies: Seq<Result<Answer, ReqError>>)
    ensures
        calls_made(CommandFlow::cancel_spec(id).0, CommandFlow::cancel_spec(id).1, replies) == seq![
            RemoteCall::ResetTimer(id),
        ],
        replies.len() >= 1 ==> command_result(
            CommandFlow::cancel_spec(id).0,
            CommandFlow::cancel_spec(id).1,
            replies,
        ) == Some(replies[0]),
{
    let (f0, s0) = CommandFlow::cancel_spec(id);
    if replies.len() > 0 {
        let (f1, s1) = f0.next(replies[0]);
        assert(calls_made(f1, s1, replies.drop_first()) == Seq::<RemoteCall>::empty());
        assert(command_result(f1, s1, replies.drop_first()) == Some(replies[0]));
    }
    assert(calls_made(f0, s0, replies) =~= seq![RemoteCall::ResetTimer(id)]);
}

/// Assigning work content records it in the history before it sets it on
/// the stop watch, and sets it only after the history took it.
pub proof fn lemma_assign_records_history_first(
    id: u32,
    project_id: u32,
    process_id: u32,
    replies: Seq<Result<Answer, ReqError>>,
)
    ensures
        calls_made(
            CommandFlow::assign_spec(id, project_id, process_id).0,
            CommandFlow::assign_spec(id, project_id, process_id).1,
            replies,
        ) == seq![
            RemoteCall::AddToHistory(project_id, process_id),
            RemoteCall::SetWorkContent(id, project_id, process_id),
        ].take(calls_reached(replies, 2) as int),
{
    let (f0, s0) = CommandFlow::assign_spec(id, project_id, process_id);
    let planned = seq![
        RemoteCall::AddToHistory(project_id, process_id),
        RemoteCall::SetWorkContent(id, project_id, process_id),
    ];
    if replies.len() == 0 || replies[0] is Err {
        if replies.len() > 0 {
            let (f1, s1) = f0.next(replies[0]);
            assert(calls_made(f1, s1, replies.drop_first()) == Seq::<RemoteCall>::empty());
        }
        assert(calls_reached(replies, 2) == 1);
        assert(calls_made(f0, s0, replies) =~= planned.take(1));
    } else {
        let (f1, s1) = f0.next(replies[0]);
        let r1 = replies.drop_first();
        if r1.len() > 0 {
            let (f2, s2) = f1.next(r1[0]);
            assert(calls_made(f2, s2, r1.drop_first()) == Seq::<RemoteCall>::empty());
        }
        assert(calls_made(f1, s1, r1) =~= seq![RemoteCall::SetWorkContent(id, project_id, process_id)]);
        assert(calls_reached(r1, 1) == 1);
        assert(calls_reached(replies, 2) == 2);
        assert(calls_made(f0, s0, replies) =~= planned.take(2));
    }
}

/// A running tick loop: when its stop watch started (a local wall-clock
/// reading, in seconds as `parse_start_at` counts them), the flag it polls,
/// and whether it saw that flag set.
#[derive(Debug)]
pub struct TickLoop {
    pub start_at: i64,
    pub token: CancellationToken,
    pub stopped: bool,
}

/// The loop after a tick that read the flag as `cancelled`, with the text
/// that the tick emits at `now`, if any. A stopped loop emits nothing; a
/// running one emits the time elapsed since its start and stops once it
/// read the flag set.
pub open spec fn tick_spec(tl: TickLoop, now: i64, cancelled: bool) -> (TickLoop, Option<Seq<char>>) {
    if tl.stopped {
        (tl, None)
    } else {
        (
            TickLoop { stopped: cancelled, ..tl },
            Some(clock_text(now - tl.start_at)),
        )
    }
}

/// What a loop emits over successive ticks, each at a time and with the
/// flag as that tick read it.
pub open spec fn ticks_emitted(tl: TickLoop, wakes: Seq<(i64, bool)>) -> Seq<Option<Seq<char>>>
    decreases wakes.len(),
{
    if wakes.len() == 0 {
        seq![]
    } else {
        let (after, out) = tick_spec(tl, wakes[0].0, wakes[0].1);
        seq![out] + ticks_emitted(after, wakes.drop_first())
    }
}

impl TickLoop {
    /// One tick at `now`, with `cancelled` the flag as read at this tick.
    pub fn tick_at(&mut self, now: i64, cancelled: bool) -> (r: Option<String>)
        ensures
            *final(self) == tick_spec(*old(self), now, cancelled).0,
            tick_spec(*old(self), now, cancelled).1 matches Some(t) ==> (r matches Some(s) && s@ == t),
            tick_spec(*old(self), now, cancelled).1 is None ==> r is None,
    {
        if self.stopped {
            None
        } else {
            let text = to_clock_str(now as i128 - self.start_at as i128);
            self.stopped = cancelled;
            Some(text)
        }
    }

    /// One tick now: reads the local wall clock and the flag, then ticks.
    pub fn tick(&mut self) -> (r: Option<String>)
        ensures
            exists|now: i64, cancelled: bool|
                *final(self) == tick_spec(*old(self), now, cancelled).0 && (match tick_spec(
                    *old(self),
                    now,
                    cancelled,
                ).1 {
                    Some(t) => r matches Some(s) && s@ == t,
                    None => r is None,
                }),
    {
        let now = local_wall_seconds();
        let cancelled = self.token.should_cancel();
        self.tick_at(now, cancelled)
    }

    /// Whether the loop saw the flag set and ends.
    pub fn is_finished(&self) -> (r: bool)
        ensures
            r == self.stopped,
    {
        self.stopped
    }
}

/// Once a tick read the flag set, no later tick emits anything; until then
/// each tick of a running loop emits one text. With one tick per interval,
/// ticks end at most one interval after the flag is first seen set.
pub proof fn lemma_no_tick_after_cancel(tl: TickLoop, wakes: Seq<(i64, bool)>)
    ensures
        ticks_emitted(tl, wakes).len() == wakes.len(),
        forall|i: int, j: int|
            0 <= i < j < wakes.len() && #[trigger] wakes[i].1 ==> (#[trigger] ticks_emitted(tl, wakes)[j]) is None,
        forall|j: int|
            0 <= j < wakes.len() && !tl.stopped && (forall|i: int| 0 <= i < j ==> !(#[trigger] wakes[i].1))
                ==> (#[trigger] ticks_emitted(tl, wakes)[j]) is Some,
    decreases wakes.len(),
{
    if wakes.len() > 0 {
        let (after, out) = tick_spec(tl, wakes[0].0, wakes[0].1);
        let rest = wakes.drop_first();
        lemma_no_tick_after_cancel(after, rest);
        let all = ticks_emitted(tl, wakes);
        assert(all == seq![out] + ticks_emitted(after, rest));
        if wakes[0].1 || tl.stopped {
            lemma_stopped_emits_nothing(after, rest);
        }
        assert forall|i: int, j: int|
            0 <= i < j < wakes.len() && #[trigger] wakes[i].1 implies (#[trigger] ticks_emitted(tl, wakes)[j]) is None by {
            assert(all[j] == ticks_emitted(after, rest)[j - 1]);
            if i > 0 {
                assert(rest[i - 1] == wakes[i]);
            }
        }
        assert forall|j: int|
            0 <= j < wakes.len() && !tl.stopped && (forall|i: int| 0 <= i < j ==> !(#[trigger] wakes[i].1))
            implies (#[trigger] ticks_emitted(tl, wakes)[j]) is Some by {
            if j > 0 {
                assert(!wakes[0].1);
                assert(all[j] == ticks_emitted(after, rest)[j - 1]);
                assert forall|i: int| 0 <= i < j - 1 implies !(#[trigger] rest[i].1) by {
                    assert(rest[i] == wakes[i + 1]);
                }
            }
        }
    }
}

/// A stopped loop emits nothing, however often it ticks.
proof fn lemma_stopped_emits_nothing(tl: TickLoop, wakes: Seq<(i64, bool)>)
    requires
        tl.stopped,
    ensures
        ticks_emitted(tl, wakes).len() == wakes.len(),
        forall|j: int| 0 <= j < wakes.len() ==> (#[trigger] ticks_emitted(tl, wakes)[j]) is None,
    decreases wakes.len(),
{
    if wakes.len() > 0 {
        lemma_stopped_emits_nothing(tl, wakes.drop_first());
        let all = ticks_emitted(tl, wakes);
        assert forall|j: int| 0 <= j < wakes.len() implies (#[trigger] all[j]) is None by {
            if j > 0 {
                assert(all[j] == ticks_emitted(tl, wakes.drop_first())[j - 1]);
            }
        }
    }
}

/// The one tick loop that may run, held by its canceller while it runs.
#[derive(Debug)]
pub struct TimerHandle {
    canceller: Option<Canceller>,
}

impl TimerHandle {
    /// A tick loop is registered.
    pub closed spec fn is_running(&self) -> bool {
        self.canceller is Some
    }

    /// The registered loop is `tl`: its canceller shares `tl`'s flag.
    pub closed spec fn runs(&self, tl: &TickLoop) -> bool {
        self.canceller matches Some(c) && c.pairs_with(&tl.token)
    }

    /// A handle with no loop.
    pub fn new() -> (r: TimerHandle)
        ensures
            !r.is_running(),
    {
        TimerHandle { canceller: None }
    }

    /// Whether a loop is registered.
    pub fn is_registered(&self) -> (r: bool)
        ensures
            r == self.is_running(),
    {
        self.canceller.is_some()
    }

    /// Registers a tick loop for `stop_watch`, whose timer runs, and hands
    /// the stop watch back with the loop to run. Where a loop is already
    /// registered nothing changes and no second loop is made. A start time
    /// that does not read as a timestamp is an error, and registers nothing.
    pub fn start_ticking(&mut self, stop_watch: StopWatch) -> (r: Result<(StopWatch, Option<TickLoop>), ReqError>)
        ensures
            old(self).is_running() ==> *final(self) == *old(self) && (r matches Ok((sw, None)) && sw
                == stop_watch),
            !old(self).is_running() ==> match naive_timestamp(stop_watch.start_at@, START_AT_FORMAT@) {
                None => !final(self).is_running() && (r matches Err(e) && is_bad_start_at(e)),
                Some(t) => r matches Ok((sw, Some(tl))) && sw == stop_watch && tl.start_at == t
                    && !tl.stopped && final(self).runs(&tl) && final(self).is_running(),
            },
    {
        if self.canceller.is_some() {
            return Ok((stop_watch, None));
        }
        match parse_start_at(stop_watch.start_at.as_str()) {
            None => Err(ReqError::bad_start_at()),
            Some(start_at) => {
                let (canceller, token) = cancellation_token();
                self.canceller = Some(canceller);
                Ok((stop_watch, Some(TickLoop { start_at, token, stopped: false })))
            },
        }
    }

    /// Takes the registered loop's canceller, if any, and cancels the loop.
    pub fn release(&mut self)
        ensures
            !final(self).is_running(),
    {
        if let Some(canceller) = self.canceller.take() {
            canceller.cancel();
        }
    }
}

/// The call that loading waits on.
#[derive(Clone, Copy, Debug, PartialEq, Eq, Structural)]
pub enum LoadStage {
    User,
    StopWatch,
    History,
    Projects,
    Finished,
}

/// The course of loading what the client shows when it opens: the user,
/// the stop watch, today's history, then the user's projects, with what
/// came back so far.
#[derive(Debug)]
pub struct LoadFlow {
    pub stage: LoadStage,
    pub user: Option<User>,
    pub stop_watch: Option<StopWatch>,
    pub history: Option<Vec<WorkContent>>,
}

impl LoadFlow {
    /// A flow that ended, holding nothing.
    pub open spec fn finished() -> LoadFlow {
        LoadFlow { stage: LoadStage::Finished, user: None, stop_watch: None, history: None }
    }

    /// Loading before its first call.
    pub open spec fn load_spec() -> (LoadFlow, Step) {
        (
            LoadFlow { stage: LoadStage::User, user: None, stop_watch: None, history: None },
            Step::Call(RemoteCall::GetUser),
        )
    }

    /// The flow and the step after the call it waits on returned `reply`:
    /// a failure ends loading with that failure; an answer of the kind the
    /// call gives is kept and leads to the next call, and the projects end
    /// loading with all four parts. `None` where the answer does not fit
    /// the call.
    pub open spec fn next(self, reply: Result<Answer, ReqError>) -> Option<(LoadFlow, Step)> {
        match reply {
            Err(e) => Some((LoadFlow::finished(), Step::Finish(Err(e)))),
            Ok(answer) => match self.stage {
                LoadStage::User => match answer {
                    Answer::User(u) => Some((
                        LoadFlow { stage: LoadStage::StopWatch, user: Some(u), ..self },
                        Step::Call(RemoteCall::GetStopWatch),
                    )),
                    _ => None,
                },
                LoadStage::StopWatch => match answer {
                    Answer::Watch(sw) => Some((
                        LoadFlow { stage: LoadStage::History, stop_watch: Some(sw), ..self },
                        Step::Call(RemoteCall::GetHistory),
                    )),
                    _ => None,
                },
                LoadStage::History => match (answer, self.user) {
                    (Answer::History(h), Some(u)) => Some((
                        LoadFlow { stage: LoadStage::Projects, history: Some(h), ..self },
                        Step::Call(RemoteCall::GetProjects(u.id)),
                    )),
                    _ => None,
                },
                LoadStage::Projects => match (answer, self.user, self.stop_watch, self.history) {
                    (Answer::Projects(p), Some(u), Some(sw), Some(h)) => Some((
                        LoadFlow::finished(),
                        Step::Finish(
                            Ok(
                                Answer::Initial(
                                    InitialData { user: u, stop_watch: sw, history: h, projects: p },
                                ),
                            ),
                        ),
                    )),
                    _ => None,
                },
                LoadStage::Finished => None,
            },
        }
    }

    /// Loading: first the user.
    pub fn load() -> (r: (LoadFlow, Step))
        ensures
            r == LoadFlow::load_spec(),
    {
        (
            LoadFlow { stage: LoadStage::User, user: None, stop_watch: None, history: None },
            Step::Call(RemoteCall::GetUser),
        )
    }

    fn fail(&mut self) -> (r: Step)
        ensures
            *final(self) == LoadFlow::finished(),
            r matches Step::Finish(Err(e)) && is_unexpected_answer(e),
    {
        self.stage = LoadStage::Finished;
        self.user = None;
        self.stop_watch = None;
        self.history = None;
        Step::Finish(Err(ReqError::unexpected_answer()))
    }

    /// Goes on after the call that this flow waits on returned `reply`. An
    /// answer that does not fit the call ends loading with an error.
    pub fn resume(&mut self, reply: Result<Answer, ReqError>) -> (r: Step)
        requires
            old(self).stage != LoadStage::Finished,
        ensures
            match old(self).next(reply) {
                Some(p) => (*final(self), r) == p,
                None => *final(self) == LoadFlow::finished() && (r matches Step::Finish(Err(e))
                    && is_unexpected_answer(e)),
            },
    {
        let answer = match reply {
            Err(e) => {
                self.stage = LoadStage::Finished;
                self.user = None;
                self.stop_watch = None;
                self.history = None;
                return Step::Finish(Err(e));
            },
            Ok(answer) => answer,
        };
        match self.stage {
            LoadStage::User => match answer {
                Answer::User(u) => {
                    self.stage = LoadStage::StopWatch;
                    self.user = Some(u);
                    Step::Call(RemoteCall::GetStopWatch)
                },
                _ => self.fail(),
            },
            LoadStage::StopWatch => match answer {
                Answer::Watch(sw) => {
                    self.stage = LoadStage::History;
                    self.stop_watch = Some(sw);
                    Step::Call(RemoteCall::GetHistory)
                },
                _ => self.fail(),
            },
            LoadStage::History => {
                let user_id = match &self.user {
                    Some(u) => u.id,
                    None => return self.fail(),
                };
                match answer {
                    Answer::History(h) => {
                        self.stage = LoadStage::Projects;
                        self.history = Some(h);
                        Step::Call(RemoteCall::GetProjects(user_id))
                    },
                    _ => self.fail(),
                }
            },
            LoadStage::Projects => {
                let user = self.user.take();
                let stop_watch = self.stop_watch.take();
                let history = self.history.take();
                match (answer, user, stop_watch, history) {
                    (Answer::Projects(projects), Some(user), Some(stop_watch), Some(history)) => {
                        self.stage = LoadStage::Finished;
                        Step::Finish(Ok(Answer::Initial(InitialData { user, stop_watch, history, projects })))
                    },
                    _ => self.fail(),
                }
            },
            LoadStage::Finished => self.fail(),
        }
    }
}

/// The calls that loading makes from `step` on, when those calls return
/// `replies` in turn; an answer that does not fit ends it.
pub open spec fn load_calls(flow: LoadFlow, step: Step, replies: Seq<Result<Answer, ReqError>>) -> Seq<RemoteCall>
    decreases replies.len(),
{
    match step {
        Step::Finish(_) => seq![],
        Step::Call(call) => if replies.len() == 0 {
            seq![call]
        } else {
            match flow.next(replies[0]) {
                Some(p) => seq![call] + load_calls(p.0, p.1, replies.drop_first()),
                None => seq![call],
            }
        },
    }
}

/// What loading ends with from `step` on, when its calls return `replies`
/// in turn; `None` where it still waits on a call or got an answer that
/// does not fit.
pub open spec fn load_result(flow: LoadFlow, step: Step, replies: Seq<Result<Answer, ReqError>>) -> Option<
    Result<Answer, ReqError>,
>
    decreases replies.len(),
{
    match step {
        Step::Finish(result) => Some(result),
        Step::Call(_) => if replies.len() == 0 {
            None
        } else {
            match flow.next(replies[0]) {
                Some(p) => load_result(p.0, p.1, replies.drop_first()),
                None => None,
            }
        },
    }
}

/// The replies of the four loading calls, as their answers.
pub open spec fn load_replies(
    user: Result<User, ReqError>,
    stop_watch: Result<StopWatch, ReqError>,
    history: Result<Vec<WorkContent>, ReqError>,
    projects: Result<Vec<Project>, ReqError>,
) -> Seq<Result<Answer, ReqError>> {
    seq![
        match user { Ok(u) => Ok(Answer::User(u)), Err(e) => Err(e) },
        match stop_watch { Ok(s) => Ok(Answer::Watch(s)), Err(e) => Err(e) },
        match history { Ok(h) => Ok(Answer::History(h)), Err(e) => Err(e) },
        match projects { Ok(p) => Ok(Answer::Projects(p)), Err(e) => Err(e) },
    ]
}

/// Loading fetches the user, the stop watch, the history and the user's
/// projects, in this order, each only after the one before it succeeded;
/// it ends with the first failure, or with the four parts together.
pub proof fn lemma_load_order(
    user: Result<User, ReqError>,
    stop_watch: Result<StopWatch, ReqError>,
    history: Result<Vec<WorkContent>, ReqError>,
    projects: Result<Vec<Project>, ReqError>,
)
    ensures
        ({
            let replies = load_replies(user, stop_watch, history, projects);
            let user_id = match user { Ok(u) => u.id, Err(_) => 0 };
            load_calls(LoadFlow::load_spec().0, LoadFlow::load_spec().1, replies) == seq![
                RemoteCall::GetUser,
                RemoteCall::GetStopWatch,
                RemoteCall::GetHistory,
                RemoteCall::GetProjects(user_id),
            ].take(calls_reached(replies, 4) as int)
        }),
        ({
            let r = load_result(LoadFlow::load_spec().0, LoadFlow::load_spec().1,
                load_replies(user, stop_watch, history, projects));
            &&& user is Err ==> r == Some(Err::<Answer, ReqError>(user->Err_0))
            &&& (user is Ok && stop_watch is Err) ==> r == Some(Err::<Answer, ReqError>(stop_watch->Err_0))
            &&& (user is Ok && stop_watch is Ok && history is Err) ==> r == Some(
                Err::<Answer, ReqError>(history->Err_0),
            )
            &&& (user is Ok && stop_watch is Ok && history is Ok && projects is Err) ==> r == Some(
                Err::<Answer, ReqError>(projects->Err_0),
            )
            &&& (user is Ok && stop_watch is Ok && history is Ok && projects is Ok) ==> r == Some(
                Ok::<Answer, ReqError>(
                    Answer::Initial(
                        InitialData {
                            user: user->Ok_0,
                            stop_watch: stop_watch->Ok_0,
                            history: history->Ok_0,
                            projects: projects->Ok_0,
                        },
                    ),
                ),
            )
        }),
{
    let replies = load_replies(user, stop_watch, history, projects);
    let user_id = match user { Ok(u) => u.id, Err(_) => 0 };
    let planned = seq![
        RemoteCall::GetUser,
        RemoteCall::GetStopWatch,
        RemoteCall::GetHistory,
        RemoteCall::GetProjects(user_id),
    ];
    let (f0, s0) = LoadFlow::load_spec();
    let r1 = replies.drop_first();
    let r2 = r1.drop_first();
    let r3 = r2.drop_first();
    let r4 = r3.drop_first();
    assert(r4.len() == 0);
    let (f1, s1) = f0.next(replies[0]).unwrap();
    if user is Err {
        assert(load_calls(f1, s1, r1) == Seq::<RemoteCall>::empty());
        assert(calls_reached(replies, 4) == 1);
        assert(load_calls(f0, s0, replies) =~= planned.take(1));
        assert(load_result(f0, s0, replies) == load_result(f1, s1, r1));
        return;
    }
    let (f2, s2) = f1.next(r1[0]).unwrap();
    if stop_watch is Err {
        assert(load_calls(f2, s2, r2) == Seq::<RemoteCall>::empty());
        assert(load_calls(f1, s1, r1) =~= seq![RemoteCall::GetStopWatch]);
        assert(calls_reached(r1, 3) == 1);
        assert(calls_reached(replies, 4) == 2);
        assert(load_calls(f0, s0, replies) =~= planned.take(2));
        assert(load_result(f1, s1, r1) == load_result(f2, s2, r2));
        assert(load_result(f0, s0, replies) == load_result(f1, s1, r1));
        return;
    }
    let (f3, s3) = f2.next(r2[0]).unwrap();
    if history is Err {
        assert(load_calls(f3, s3, r3) == Seq::<RemoteCall>::empty());
        assert(load_calls(f2, s2, r2) =~= seq![RemoteCall::GetHistory]);
        assert(load_calls(f1, s1, r1) =~= seq![RemoteCall::GetStopWatch, RemoteCall::GetHistory]);
        assert(calls_reached(r2, 2) == 1);
        assert(calls_reached(r1, 3) == 2);
        assert(calls_reached(replies, 4) == 3);
        assert(load_calls(f0, s0, replies) =~= planned.take(3));
        assert(load_result(f2, s2, r2) == load_result(f3, s3, r3));
        assert(load_result(f1, s1, r1) == load_result(f2, s2, r2));
        assert(load_result(f0, s0, replies) == load_result(f1, s1, r1));
        return;
    }
    assert(s3 == Step::Call(RemoteCall::GetProjects(user_id)));
    let (f4, s4) = f3.next(r3[0]).unwrap();
    assert(load_calls(f4, s4, r4) == Seq::<RemoteCall>::empty());
    assert(load_calls(f3, s3, r3) =~= seq![RemoteCall::GetProjects(user_id)]);
    assert(load_calls(f2, s2, r2) =~= seq![RemoteCall::GetHistory, RemoteCall::GetProjects(user_id)]);
    assert(load_calls(f1, s1, r1) =~= seq![
        RemoteCall::GetStopWatch,
        RemoteCall::GetHistory,
        RemoteCall::GetProjects(user_id),
    ]);
    assert(calls_reached(r3, 1) == 1);
    assert(calls_reached(r2, 2) == 2);
    assert(calls_reached(r1, 3) == 3);
    assert(calls_reached(replies, 4) == 4);
    assert(load_calls(f0, s0, replies) =~= planned.take(4));
    assert(load_result(f3, s3, r3) == load_result(f4, s4, r4));
    assert(load_result(f2, s2, r2) == load_result(f3, s3, r3));
    assert(load_result(f1, s1, r1) == load_result(f2, s2, r2));
    assert(load_result(f0, s0, replies) == load_result(f1, s1, r1));
}

} // verus!
