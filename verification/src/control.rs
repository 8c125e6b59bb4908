//! How the service is stopped, started, restarted and cleared, call by call.
//!
//! [`Control`] names the next call, is told how it went, and decides what follows
//! until the work is done or has failed.

use vstd::prelude::*;
use crate::clock;
use crate::clock::{time_between, Nanos};
use crate::queue::ClearReport;
use crate::spooler;
use crate::spooler::{
    map_open_error, map_scm_error, poll_interval, progress_window, restart_shares, ServiceState,
    SpoolerStatus,
};
use crate::win32::WinError;

verus! {

/// The right to query the status of a service.
pub const SERVICE_QUERY_STATUS: u32 = 4;

/// The rights to start a service and to query its status.
pub const SERVICE_START_QUERY: u32 = 20;

/// The rights to stop a service and to query its status.
pub const SERVICE_STOP_QUERY: u32 = 36;

/// What is to be done.
#[derive(Debug, Clone, Copy, PartialEq, Eq, Structural)]
pub enum Goal {
    /// Say in what state the service is.
    Query,
    Stop,
    Start,
    /// Stop, then start.
    Restart,
    /// Stop, delete the queue files, and leave the service stopped.
    Clear,
    /// Stop, delete the queue files, and start.
    Fix,
}

/// The part of the work that is under way.
#[derive(Debug, Clone, Copy, PartialEq, Eq, Structural)]
pub enum Stage {
    Query,
    Stop,
    Start,
}

/// What is being waited for.
#[derive(Debug, Clone, Copy, PartialEq, Eq, Structural)]
pub enum Phase {
    /// The Service Control Manager is being opened.
    Manager,
    /// The service is being opened.
    Service,
    /// The first status of this stage is being read.
    Check,
    /// The service is being told to stop or to start.
    Send,
    /// The first status since then is being read.
    WaitFirst,
    /// The pause before the next look.
    Pause,
    /// The next status is being read.
    WaitAgain,
    /// The queue files are being deleted.
    Clearing,
    /// Nothing: the work is done or has failed.
    Over,
}

/// The state of the work, without the name of the target.
#[derive(Debug, Clone, Copy, PartialEq, Eq, Structural)]
pub struct Plan {
    pub goal: Goal,
    pub stage: Stage,
    pub phase: Phase,
    /// The time that the whole work was given.
    pub timeout: Nanos,
    /// The time that the wait of this stage may take.
    pub limit: Nanos,
    /// When the wait of this stage began.
    pub since: Nanos,
    /// The last check point that was seen.
    pub check_point: u32,
    /// When it was seen.
    pub progress_since: Nanos,
    /// How long it may take for a new one to come.
    pub progress_window: Nanos,
}

/// The next call.
#[derive(Debug, PartialEq, Eq)]
pub enum Act {
    OpenManager,
    /// Open the service with these rights.
    OpenService(u32),
    Query,
    SendStop,
    SendStart,
    Sleep(Nanos),
    /// Delete the queue files.
    ClearQueue,
    /// No call: the work is done, and this is the last status.
    Done(SpoolerStatus),
    /// No call: the work has failed.
    Failed(String),
}

/// How a call went.
#[derive(Debug, PartialEq, Eq)]
pub enum Event {
    /// The manager or the service is open, the service was told to stop or start,
    /// or the pause is over.
    Ready,
    /// The queue files were gone through.
    Cleared(ClearReport),
    Status(SpoolerStatus),
    Failed(WinError),
    ClearFailed(String),
}

/// An [`Act`] as a value of its own.
pub enum ActView {
    OpenManager,
    OpenService(u32),
    Query,
    SendStop,
    SendStart,
    Sleep(int),
    ClearQueue,
    Done(SpoolerStatus),
    Failed(Seq<char>),
}

/// An [`Event`] as a value of its own.
pub enum EventView {
    Ready,
    Cleared(ClearReport),
    Status(SpoolerStatus),
    Failed(i32, Seq<char>),
    ClearFailed(Seq<char>),
}

impl View for Act {
    type V = ActView;

    open spec fn view(&self) -> ActView {
        match self {
            Act::OpenManager => ActView::OpenManager,
            Act::OpenService(a) => ActView::OpenService(*a),
            Act::Query => ActView::Query,
            Act::SendStop => ActView::SendStop,
            Act::SendStart => ActView::SendStart,
            Act::Sleep(d) => ActView::Sleep(*d as int),
            Act::ClearQueue => ActView::ClearQueue,
            Act::Done(s) => ActView::Done(*s),
            Act::Failed(e) => ActView::Failed(e@),
        }
    }
}

impl View for Event {
    type V = EventView;

    open spec fn view(&self) -> EventView {
        match self {
            Event::Ready => EventView::Ready,
            Event::Cleared(r) => EventView::Cleared(*r),
            Event::Status(s) => EventView::Status(*s),
            Event::Failed(e) => EventView::Failed(e.code, e.text@),
            Event::ClearFailed(e) => EventView::ClearFailed(e@),
        }
    }
}

/// The rights that a stage needs.
pub open spec fn rights(stage: Stage) -> u32 {
    match stage {
        Stage::Query => SERVICE_QUERY_STATUS,
        Stage::Stop => SERVICE_STOP_QUERY,
        Stage::Start => SERVICE_START_QUERY,
    }
}

/// The state that a stage ends in.
pub open spec fn target(stage: Stage) -> ServiceState {
    match stage {
        Stage::Stop => ServiceState::Stopped,
        _ => ServiceState::Running,
    }
}

/// The stage that a goal begins with.
pub open spec fn first_stage(goal: Goal) -> Stage {
    match goal {
        Goal::Query => Stage::Query,
        Goal::Start => Stage::Start,
        _ => Stage::Stop,
    }
}

/// The time that a stage of the work may take.
pub open spec fn stage_limit(goal: Goal, stage: Stage, timeout: Nanos) -> Nanos {
    if goal is Restart {
        if stage is Stop {
            spooler::stop_share(timeout) as Nanos
        } else {
            spooler::start_share(timeout) as Nanos
        }
    } else {
        timeout
    }
}

/// The work at the beginning of a stage.
pub open spec fn enter(p: Plan, stage: Stage) -> (Plan, ActView) {
    (
        Plan { stage, phase: Phase::Manager, limit: stage_limit(p.goal, stage, p.timeout), ..p },
        ActView::OpenManager,
    )
}

/// The work at its very beginning.
pub open spec fn begun(goal: Goal, timeout: Nanos) -> (Plan, ActView) {
    let stage = first_stage(goal);
    (
        Plan {
            goal,
            stage,
            phase: Phase::Manager,
            timeout,
            limit: stage_limit(goal, stage, timeout),
            since: 0,
            check_point: 0,
            progress_since: 0,
            progress_window: 0,
        },
        ActView::OpenManager,
    )
}

/// The end of the work.
pub open spec fn over(p: Plan, act: ActView) -> (Plan, ActView) {
    (Plan { phase: Phase::Over, ..p }, act)
}

/// Why the work does not go on when the service is not stopped after all.
pub open spec fn not_stopped(goal: Goal, label: Seq<char>, s: ServiceState) -> Seq<char> {
    if goal is Restart {
        "После остановки ожидалось «остановлена», получено «"@ + spooler::state_ru(s) + "»."@
    } else {
        "Spooler не остановлен (сейчас: «"@ + spooler::state_ru(s) + "», "@ + label
            + "). Очистка отменена."@
    }
}

/// What follows when the stage has ended with the status `s`.
pub open spec fn stage_done(p: Plan, label: Seq<char>, s: SpoolerStatus) -> (Plan, ActView) {
    if p.stage is Stop && (p.goal is Restart || p.goal is Clear || p.goal is Fix) {
        if !(s.state is Stopped) {
            over(p, ActView::Failed(not_stopped(p.goal, label, s.state)))
        } else if p.goal is Restart {
            enter(p, Stage::Start)
        } else {
            (Plan { phase: Phase::Clearing, ..p }, ActView::ClearQueue)
        }
    } else if p.stage is Query && p.goal is Fix {
        enter(p, Stage::Start)
    } else {
        over(p, ActView::Done(s))
    }
}

/// The wait for the target state begins.
pub open spec fn wait_begins(p: Plan, now: Nanos) -> (Plan, ActView) {
    (Plan { phase: Phase::WaitFirst, since: now, ..p }, ActView::Query)
}

/// What follows the first status of a stage.
pub open spec fn checked(p: Plan, label: Seq<char>, now: Nanos, s: SpoolerStatus) -> (
    Plan,
    ActView,
) {
    match p.stage {
        Stage::Query => stage_done(p, label, s),
        Stage::Stop => if s.state is Stopped {
            stage_done(p, label, s)
        } else {
            (Plan { phase: Phase::Send, ..p }, ActView::SendStop)
        },
        Stage::Start => if s.state is Running {
            stage_done(p, label, s)
        } else if s.state is StartPending {
            wait_begins(p, now)
        } else if !(s.state is Stopped) && !(s.state is Paused) {
            over(
                p,
                ActView::Failed(
                    "Нельзя запустить Spooler из состояния «"@ + spooler::state_ru(s.state) + "»."@,
                ),
            )
        } else {
            (Plan { phase: Phase::Send, ..p }, ActView::SendStart)
        },
    }
}

/// The pause before the next look, if there is time left.
pub open spec fn pause(p: Plan, now: Nanos, s: SpoolerStatus) -> (Plan, ActView) {
    if clock::elapsed(now, p.since) >= p.limit {
        over(
            p,
            ActView::Failed(
                "Таймаут ожидания состояния «"@ + spooler::state_ru(target(p.stage))
                    + "» (сейчас: «"@ + spooler::state_ru(s.state) + "»)."@,
            ),
        )
    } else {
        (
            Plan { phase: Phase::Pause, ..p },
            ActView::Sleep(spooler::pause_for(s.wait_hint)),
        )
    }
}

/// A new check point was seen.
pub open spec fn progressed(p: Plan, now: Nanos, s: SpoolerStatus) -> Plan {
    Plan {
        check_point: s.check_point,
        progress_since: now,
        progress_window: spooler::window_for(s.wait_hint) as Nanos,
        ..p
    }
}

/// What follows a status that was read while waiting.
pub open spec fn looked(p: Plan, label: Seq<char>, now: Nanos, s: SpoolerStatus) -> (
    Plan,
    ActView,
) {
    if s.state == target(p.stage) {
        stage_done(p, label, s)
    } else if p.phase is WaitFirst || s.check_point > p.check_point {
        pause(progressed(p, now, s), now, s)
    } else if clock::elapsed(now, p.progress_since) >= p.progress_window {
        over(
            p,
            ActView::Failed(
                "Spooler не продвигается к состоянию «"@ + spooler::state_ru(target(p.stage))
                    + "» (сейчас: «"@ + spooler::state_ru(s.state) + "»)."@,
            ),
        )
    } else {
        pause(p, now, s)
    }
}

/// Why the call that was under way failed.
pub open spec fn failure(p: Plan, code: i32, detail: Seq<char>) -> Seq<char> {
    match p.phase {
        Phase::Manager => spooler::scm_error(
            "Не удалось открыть Service Control Manager"@,
            code,
            detail,
        ),
        Phase::Service => spooler::open_error(code, detail),
        Phase::Send => if p.stage is Stop {
            spooler::scm_error("Не удалось остановить Spooler"@, code, detail)
        } else {
            spooler::scm_error("Не удалось запустить Spooler"@, code, detail)
        },
        _ => spooler::scm_error("Не удалось прочитать статус Spooler"@, code, detail),
    }
}

/// The event answers the call that is under way.
pub open spec fn answers(p: Plan, e: EventView) -> bool {
    match e {
        EventView::Ready => p.phase is Manager || p.phase is Service || p.phase is Send
            || p.phase is Pause,
        EventView::Cleared(_) => p.phase is Clearing,
        EventView::Status(_) => p.phase is Check || p.phase is WaitFirst || p.phase is WaitAgain,
        EventView::Failed(_, _) => p.phase is Manager || p.phase is Service || p.phase is Check
            || p.phase is Send || p.phase is WaitFirst || p.phase is WaitAgain,
        EventView::ClearFailed(_) => p.phase is Clearing,
    }
}

/// What follows an event that answers the call under way.
pub open spec fn next(p: Plan, label: Seq<char>, now: Nanos, e: EventView) -> (Plan, ActView) {
    match e {
        EventView::Ready => match p.phase {
            Phase::Manager => (
                Plan { phase: Phase::Service, ..p },
                ActView::OpenService(rights(p.stage)),
            ),
            Phase::Service => (Plan { phase: Phase::Check, ..p }, ActView::Query),
            Phase::Send => wait_begins(p, now),
            _ => (Plan { phase: Phase::WaitAgain, ..p }, ActView::Query),
        },
        EventView::Cleared(_) => enter(p, Stage::Query),
        EventView::Status(s) => if p.phase is Check {
            checked(p, label, now, s)
        } else {
            looked(p, label, now, s)
        },
        EventView::Failed(code, detail) => over(p, ActView::Failed(failure(p, code, detail))),
        EventView::ClearFailed(error) => over(p, ActView::Failed(error)),
    }
}

/// Work on the service of one target.
#[derive(Debug)]
pub struct Control {
    plan: Plan,
    label: String,
    report: Option<ClearReport>,
}

impl Control {
    /// The state of the work.
    pub closed spec fn plan(&self) -> Plan {
        self.plan
    }

    /// What the target is called.
    pub closed spec fn label(&self) -> Seq<char> {
        self.label@
    }

    /// What deleting the queue files came to, once that was done.
    pub closed spec fn report(&self) -> Option<ClearReport> {
        self.report
    }

    /// Begins the work: `label` is what the target is called, and `timeout` how long
    /// the work may wait.
    pub fn begin(goal: Goal, label: &str, timeout: Nanos) -> (r: (Self, Act))
        ensures
            r.0.label() == label@,
            r.0.report() is None,
            (r.0.plan(), r.1@) == begun(goal, timeout),
    {
        let stage = match goal {
            Goal::Query => Stage::Query,
            Goal::Start => Stage::Start,
            _ => Stage::Stop,
        };
        let plan = Plan {
            goal,
            stage,
            phase: Phase::Manager,
            timeout,
            limit: Self::limit_of(goal, stage, timeout),
            since: 0,
            check_point: 0,
            progress_since: 0,
            progress_window: 0,
        };
        (Control { plan, label: label.to_owned(), report: None }, Act::OpenManager)
    }

    fn limit_of(goal: Goal, stage: Stage, timeout: Nanos) -> (r: Nanos)
        ensures
            r == stage_limit(goal, stage, timeout),
    {
        match goal {
            Goal::Restart => {
                let (stop, start) = restart_shares(timeout);
                match stage {
                    Stage::Stop => stop,
                    _ => start,
                }
            },
            _ => timeout,
        }
    }

    fn enter_stage(&mut self, stage: Stage) -> (r: Act)
        ensures
            final(self).label() == old(self).label(),
            final(self).report() == old(self).report(),
            (final(self).plan(), r@) == enter(old(self).plan(), stage),
    {
        self.plan.limit = Self::limit_of(self.plan.goal, stage, self.plan.timeout);
        self.plan.stage = stage;
        self.plan.phase = Phase::Manager;
        Act::OpenManager
    }

    fn end_stage(&mut self, s: SpoolerStatus) -> (r: Act)
        ensures
            final(self).label() == old(self).label(),
            final(self).report() == old(self).report(),
            (final(self).plan(), r@) == stage_done(old(self).plan(), old(self).label(), s),
    {
        match (self.plan.stage, self.plan.goal) {
            (Stage::Stop, Goal::Restart) => {
                if s.state != ServiceState::Stopped {
                    self.plan.phase = Phase::Over;
                    let mut m = "После остановки ожидалось «остановлена», получено «".to_owned();
                    m.append(s.state.as_ru_str());
                    m.append("».");
                    return Act::Failed(m);
                }
                self.enter_stage(Stage::Start)
            },
            (Stage::Stop, Goal::Clear) | (Stage::Stop, Goal::Fix) => {
                if s.state != ServiceState::Stopped {
                    self.plan.phase = Phase::Over;
                    let mut m = "Spooler не остановлен (сейчас: «".to_owned();
                    m.append(s.state.as_ru_str());
                    m.append("», ");
                    m.append(self.label.as_str());
                    m.append("). Очистка отменена.");
                    return Act::Failed(m);
                }
                self.plan.phase = Phase::Clearing;
                Act::ClearQueue
            },
            (Stage::Query, Goal::Fix) => self.enter_stage(Stage::Start),
            _ => {
                self.plan.phase = Phase::Over;
                Act::Done(s)
            },
        }
    }

    fn begin_wait(&mut self, now: Nanos) -> (r: Act)
        ensures
            final(self).label() == old(self).label(),
            final(self).report() == old(self).report(),
            (final(self).plan(), r@) == wait_begins(old(self).plan(), now),
    {
        self.plan.phase = Phase::WaitFirst;
        self.plan.since = now;
        Act::Query
    }

    fn check(&mut self, now: Nanos, s: SpoolerStatus) -> (r: Act)
        ensures
            final(self).label() == old(self).label(),
            final(self).report() == old(self).report(),
            (final(self).plan(), r@) == checked(old(self).plan(), old(self).label(), now, s),
    {
        match self.plan.stage {
            Stage::Query => self.end_stage(s),
            Stage::Stop => {
                if s.state == ServiceState::Stopped {
                    return self.end_stage(s);
                }
                self.plan.phase = Phase::Send;
                Act::SendStop
            },
            Stage::Start => {
                if s.state == ServiceState::Running {
                    return self.end_stage(s);
                }
                if s.state == ServiceState::StartPending {
                    return self.begin_wait(now);
                }
                if s.state != ServiceState::Stopped && s.state != ServiceState::Paused {
                    self.plan.phase = Phase::Over;
                    let mut m = "Нельзя запустить Spooler из состояния «".to_owned();
                    m.append(s.state.as_ru_str());
                    m.append("».");
                    return Act::Failed(m);
                }
                self.plan.phase = Phase::Send;
                Act::SendStart
            },
        }
    }

    fn target_state(&self) -> (r: ServiceState)
        ensures
            r == target(self.plan().stage),
    {
        match self.plan.stage {
            Stage::Stop => ServiceState::Stopped,
            _ => ServiceState::Running,
        }
    }

    fn rest(&mut self, now: Nanos, s: SpoolerStatus) -> (r: Act)
        ensures
            final(self).label() == old(self).label(),
            final(self).report() == old(self).report(),
            (final(self).plan(), r@) == pause(old(self).plan(), now, s),
    {
        if time_between(now, self.plan.since) >= self.plan.limit {
            let mut m = "Таймаут ожидания состояния «".to_owned();
            m.append(self.target_state().as_ru_str());
            m.append("» (сейчас: «");
            m.append(s.state.as_ru_str());
            m.append("»).");
            self.plan.phase = Phase::Over;
            return Act::Failed(m);
        }
        self.plan.phase = Phase::Pause;
        Act::Sleep(poll_interval(s.wait_hint))
    }

    fn look(&mut self, now: Nanos, s: SpoolerStatus) -> (r: Act)
        ensures
            final(self).label() == old(self).label(),
            final(self).report() == old(self).report(),
            (final(self).plan(), r@) == looked(old(self).plan(), old(self).label(), now, s),
    {
        if s.state == self.target_state() {
            return self.end_stage(s);
        }
        if self.plan.phase == Phase::WaitFirst || s.check_point > self.plan.check_point {
            self.plan.check_point = s.check_point;
            self.plan.progress_since = now;
            self.plan.progress_window = progress_window(s.wait_hint);
        } else if time_between(now, self.plan.progress_since) >= self.plan.progress_window {
            let mut m = "Spooler не продвигается к состоянию «".to_owned();
            m.append(self.target_state().as_ru_str());
            m.append("» (сейчас: «");
            m.append(s.state.as_ru_str());
            m.append("»).");
            self.plan.phase = Phase::Over;
            return Act::Failed(m);
        }
        self.rest(now, s)
    }

    fn fail(&mut self, err: &WinError) -> (r: Act)
        ensures
            final(self).label() == old(self).label(),
            final(self).report() == old(self).report(),
            (final(self).plan(), r@) == over(
                old(self).plan(),
                ActView::Failed(failure(old(self).plan(), err.code, err.text@)),
            ),
    {
        let m = match self.plan.phase {
            Phase::Manager => map_scm_error("Не удалось открыть Service Control Manager", err),
            Phase::Service => map_open_error(err),
            Phase::Send => match self.plan.stage {
                Stage::Stop => map_scm_error("Не удалось остановить Spooler", err),
                _ => map_scm_error("Не удалось запустить Spooler", err),
            },
            _ => map_scm_error("Не удалось прочитать статус Spooler", err),
        };
        self.plan.phase = Phase::Over;
        Act::Failed(m)
    }

    /// Whether the event answers the call that is under way.
    pub fn awaits(&self, event: &Event) -> (r: bool)
        ensures
            r == answers(self.plan(), event@),
    {
        match (event, self.plan.phase) {
            (Event::Ready, Phase::Manager) | (Event::Ready, Phase::Service) | (
                Event::Ready,
                Phase::Send,
            ) | (Event::Ready, Phase::Pause) => true,
            (Event::Cleared(_), Phase::Clearing) => true,
            (Event::Status(_), Phase::Check) | (Event::Status(_), Phase::WaitFirst) | (
                Event::Status(_),
                Phase::WaitAgain,
            ) => true,
            (Event::Failed(_), Phase::Manager) | (Event::Failed(_), Phase::Service) | (
                Event::Failed(_),
                Phase::Check,
            ) | (Event::Failed(_), Phase::Send) | (Event::Failed(_), Phase::WaitFirst) | (
                Event::Failed(_),
                Phase::WaitAgain,
            ) => true,
            (Event::ClearFailed(_), Phase::Clearing) => true,
            _ => false,
        }
    }

    /// Takes the answer to the call under way, which came at `now`, and names the
    /// next call.
    pub fn step(&mut self, now: Nanos, event: Event) -> (r: Act)
        requires
            answers(old(self).plan(), event@),
        ensures
            final(self).label() == old(self).label(),
            final(self).report() == match event {
                Event::Cleared(report) => Some(report),
                _ => old(self).report(),
            },
            (final(self).plan(), r@) == next(old(self).plan(), old(self).label(), now, event@),
    {
        match event {
            Event::Ready => match self.plan.phase {
                Phase::Manager => {
                    self.plan.phase = Phase::Service;
                    Act::OpenService(
                        match self.plan.stage {
                            Stage::Query => SERVICE_QUERY_STATUS,
                            Stage::Stop => SERVICE_STOP_QUERY,
                            Stage::Start => SERVICE_START_QUERY,
                        },
                    )
                },
                Phase::Service => {
                    self.plan.phase = Phase::Check;
                    Act::Query
                },
                Phase::Send => self.begin_wait(now),
                _ => {
                    self.plan.phase = Phase::WaitAgain;
                    Act::Query
                },
            },
            Event::Cleared(report) => {
                self.report = Some(report);
                self.enter_stage(Stage::Query)
            },
            Event::Status(s) => {
                if self.plan.phase == Phase::Check {
                    self.check(now, s)
                } else {
                    self.look(now, s)
                }
            },
            Event::Failed(err) => self.fail(&err),
            Event::ClearFailed(error) => {
                self.plan.phase = Phase::Over;
                Act::Failed(error)
            },
        }
    }

    /// What deleting the queue files came to, once that was done.
    pub fn into_report(self) -> (r: Option<ClearReport>)
        ensures
            r == self.report(),
    {
        self.report
    }
}

// ---------------------------------------------------------------------------
// What holds of all work

/// The stage belongs to the goal, and the time that it has is its own.
pub open spec fn sound(p: Plan) -> bool {
    &&& match p.goal {
        Goal::Query => p.stage is Query,
        Goal::Stop => p.stage is Stop,
        Goal::Start => p.stage is Start,
        Goal::Restart => p.stage is Stop || p.stage is Start,
        Goal::Clear => p.stage is Stop || p.stage is Query,
        Goal::Fix => true,
    }
    &&& p.limit == stage_limit(p.goal, p.stage, p.timeout)
    &&& p.phase is Clearing ==> p.stage is Stop && (p.goal is Clear || p.goal is Fix)
    &&& p.stage is Query ==> p.phase is Manager || p.phase is Service || p.phase is Check
        || p.phase is Over
}

/// The stage belongs to the goal from the first call to the last.
pub proof fn law_work_stays_sound(p: Plan, label: Seq<char>, now: Nanos, e: EventView)
    requires
        sound(p),
        answers(p, e),
    ensures
        sound(next(p, label, now, e).0),
        next(p, label, now, e).0.goal == p.goal,
        next(p, label, now, e).0.timeout == p.timeout,
        forall|g: Goal, t: Nanos| sound(#[trigger] begun(g, t).0),
{
}

/// Queue files are deleted in no other moment than right after the service was
/// seen stopped, and for no other goal than one that asks for it.
pub proof fn law_queue_is_cleared_only_while_stopped(
    p: Plan,
    label: Seq<char>,
    now: Nanos,
    e: EventView,
)
    requires
        sound(p),
        answers(p, e),
        next(p, label, now, e).1 is ClearQueue,
    ensures
        e is Status && e->Status_0.state is Stopped,
        p.goal is Clear || p.goal is Fix,
{
}

/// Work that is done has reached its goal: a stop ends with the service stopped; a
/// start, a restart and a repair end with the service running. The status that
/// comes out is the last one that was read.
pub proof fn law_done_means_reached(p: Plan, label: Seq<char>, now: Nanos, e: EventView)
    requires
        sound(p),
        answers(p, e),
        next(p, label, now, e).1 is Done,
    ensures
        e == EventView::Status(next(p, label, now, e).1->Done_0),
        p.goal is Stop ==> next(p, label, now, e).1->Done_0.state is Stopped,
        p.goal is Start || p.goal is Restart || p.goal is Fix ==> next(
            p,
            label,
            now,
            e,
        ).1->Done_0.state is Running,
        next(p, label, now, e).0.phase is Over,
{
}

/// The service is told to stop only when it is not stopped, and told to start only
/// when it is stopped or paused.
pub proof fn law_service_is_told_only_what_it_can_do(
    p: Plan,
    label: Seq<char>,
    now: Nanos,
    e: EventView,
)
    requires
        sound(p),
        answers(p, e),
    ensures
        next(p, label, now, e).1 is SendStop ==> e is Status && !(e->Status_0.state is Stopped),
        next(p, label, now, e).1 is SendStart ==> e is Status && (e->Status_0.state is Stopped
            || e->Status_0.state is Paused),
{
}

/// Between two looks at the service lie at least one second and at most ten, and
/// no pause begins once the time of the stage is over.
pub proof fn law_waiting_keeps_to_its_time(p: Plan, label: Seq<char>, now: Nanos, e: EventView)
    requires
        sound(p),
        answers(p, e),
        next(p, label, now, e).1 is Sleep,
    ensures
        1_000_000_000 <= next(p, label, now, e).1->Sleep_0 <= 10_000_000_000,
        clock::elapsed(now, p.since) < stage_limit(p.goal, p.stage, p.timeout),
{
}

/// A service that is still not where it should be when the time of the stage is
/// over ends the work.
pub proof fn law_time_over_is_failure(p: Plan, label: Seq<char>, now: Nanos, s: SpoolerStatus)
    requires
        sound(p),
        p.phase is WaitFirst || p.phase is WaitAgain,
        s.state != target(p.stage),
        clock::elapsed(now, p.since) >= stage_limit(p.goal, p.stage, p.timeout),
    ensures
        next(p, label, now, EventView::Status(s)).1 is Failed,
        next(p, label, now, EventView::Status(s)).0.phase is Over,
{
}

/// What deleting the queue files came to is known wherever they were deleted.
pub open spec fn reported(p: Plan, known: bool) -> bool {
    (p.goal is Clear || p.goal is Fix) && !(p.stage is Stop) ==> known
}

/// Work that clears the queue is not done before the queue files were gone through,
/// and what that came to is known by then: `known` says whether it is.
pub proof fn law_cleared_queue_is_reported(
    p: Plan,
    label: Seq<char>,
    now: Nanos,
    e: EventView,
    known: bool,
)
    requires
        sound(p),
        answers(p, e),
        reported(p, known),
    ensures
        forall|g: Goal, t: Nanos| reported(#[trigger] begun(g, t).0, false),
        reported(next(p, label, now, e).0, known || e is Cleared),
        (p.goal is Clear || p.goal is Fix) && next(p, label, now, e).1 is Done ==> known,
{
}

/// Every failure of a call ends the work.
pub proof fn law_failed_call_ends_the_work(p: Plan, label: Seq<char>, now: Nanos, e: EventView)
    requires
        answers(p, e),
        e is Failed || e is ClearFailed,
    ensures
        next(p, label, now, e).1 is Failed,
        next(p, label, now, e).0.phase is Over,
{
}

/// A service that is to stop, for whatever goal, and is not stopped when it is first
/// looked at, is told to stop, and nothing else happens.
pub proof fn law_service_that_is_not_stopped_is_told_to_stop(
    p: Plan,
    label: Seq<char>,
    now: Nanos,
    s: SpoolerStatus,
)
    requires
        p.phase is Check,
        p.stage is Stop,
        s.state != ServiceState::Stopped,
    ensures
        next(p, label, now, EventView::Status(s)).1 == ActView::SendStop,
        next(p, label, now, EventView::Status(s)).0 == (Plan { phase: Phase::Send, ..p }),
{
}

/// Once the service is stopped, at the first look or after waiting, a stop is done, a
/// restart goes on to the start, and clearing and repairing go on to the queue files.
pub proof fn law_stopped_service_moves_the_work_on(
    p: Plan,
    label: Seq<char>,
    now: Nanos,
    s: SpoolerStatus,
)
    requires
        p.phase is Check || p.phase is WaitFirst || p.phase is WaitAgain,
        p.stage is Stop,
        s.state == ServiceState::Stopped,
    ensures
        p.goal is Stop ==> next(p, label, now, EventView::Status(s)) == (
            Plan { phase: Phase::Over, ..p },
            ActView::Done(s),
        ),
        p.goal is Restart ==> next(p, label, now, EventView::Status(s)).1
            == ActView::OpenManager,
        p.goal is Restart ==> next(p, label, now, EventView::Status(s)).0 == (Plan {
            stage: Stage::Start,
            phase: Phase::Manager,
            limit: next(p, label, now, EventView::Status(s)).0.limit,
            ..p
        }),
        p.goal is Clear || p.goal is Fix ==> next(p, label, now, EventView::Status(s)) == (
            Plan { phase: Phase::Clearing, ..p },
            ActView::ClearQueue,
        ),
{
}

/// A service that is to start is told so where it is stopped or paused; one that is
/// starting is waited for; one that runs is where it should be; and from any other
/// state it cannot be started.
pub proof fn law_start_depends_on_the_state(
    p: Plan,
    label: Seq<char>,
    now: Nanos,
    s: SpoolerStatus,
)
    requires
        p.phase is Check,
        p.stage is Start,
    ensures
        s.state == ServiceState::Stopped || s.state == ServiceState::Paused ==> next(
            p,
            label,
            now,
            EventView::Status(s),
        ) == (Plan { phase: Phase::Send, ..p }, ActView::SendStart),
        s.state == ServiceState::StartPending ==> next(p, label, now, EventView::Status(s)) == (
            Plan { phase: Phase::WaitFirst, since: now, ..p },
            ActView::Query,
        ),
        s.state == ServiceState::Running ==> next(p, label, now, EventView::Status(s)) == (
            Plan { phase: Phase::Over, ..p },
            ActView::Done(s),
        ),
        s.state == ServiceState::StopPending || s.state == ServiceState::ContinuePending || s.state
            == ServiceState::PausePending || s.state is Other ==> next(
            p,
            label,
            now,
            EventView::Status(s),
        ) == (
            Plan { phase: Phase::Over, ..p },
            ActView::Failed(
                "Нельзя запустить Spooler из состояния «"@ + spooler::state_ru(s.state) + "»."@,
            ),
        ),
{
}

/// A service that runs when its start was waited for ends the work.
pub proof fn law_started_service_ends_the_work(
    p: Plan,
    label: Seq<char>,
    now: Nanos,
    s: SpoolerStatus,
)
    requires
        p.phase is WaitFirst || p.phase is WaitAgain,
        p.stage is Start,
        s.state == ServiceState::Running,
    ensures
        next(p, label, now, EventView::Status(s)) == (
            Plan { phase: Phase::Over, ..p },
            ActView::Done(s),
        ),
{
}

/// Waiting goes on while there is time: a service that is not yet where it should be
/// is given a pause and looked at again, as long as the time of the stage is not over
/// and the check point is a new one, or the first, or not too old. The pause is a
/// tenth of what the service asks for, between one second and ten.
pub proof fn law_waiting_goes_on_while_there_is_time(
    p: Plan,
    label: Seq<char>,
    now: Nanos,
    s: SpoolerStatus,
)
    requires
        p.phase is WaitFirst || p.phase is WaitAgain,
        p.stage is Stop ==> s.state != ServiceState::Stopped,
        p.stage is Start ==> s.state != ServiceState::Running,
        !(p.stage is Query),
        now < p.since + p.limit,
        p.limit > 0,
        p.phase is WaitFirst || s.check_point > p.check_point || (now < p.progress_since
            + p.progress_window && p.progress_window > 0),
    ensures
        next(p, label, now, EventView::Status(s)).1 is Sleep,
        next(p, label, now, EventView::Status(s)).0.phase is Pause,
        s.wait_hint < 10_000_000_000 ==> next(p, label, now, EventView::Status(s)).1->Sleep_0
            == 1_000_000_000,
        10_000_000_000 <= s.wait_hint <= 100_000_000_000 ==> next(
            p,
            label,
            now,
            EventView::Status(s),
        ).1->Sleep_0 == s.wait_hint as int / 10,
        s.wait_hint > 100_000_000_000 ==> next(p, label, now, EventView::Status(s)).1->Sleep_0
            == 10_000_000_000,
        p.phase is WaitFirst || s.check_point > p.check_point ==> {
            let q = next(p, label, now, EventView::Status(s)).0;
            &&& q.check_point == s.check_point
            &&& q.progress_since == now
            &&& s.wait_hint >= 1_000_000_000 ==> q.progress_window == s.wait_hint
            &&& s.wait_hint < 1_000_000_000 ==> q.progress_window == 1_000_000_000
            &&& q == (Plan {
                phase: Phase::Pause,
                check_point: q.check_point,
                progress_since: q.progress_since,
                progress_window: q.progress_window,
                ..p
            })
        },
        !(p.phase is WaitFirst) && s.check_point <= p.check_point ==> next(
            p,
            label,
            now,
            EventView::Status(s),
        ).0 == (Plan { phase: Phase::Pause, ..p }),
{
}

/// A wait fails for no other reason than that the time of the stage is over, or that
/// the last new check point is too old; and it does fail then, and says so.
pub proof fn law_waiting_fails_when_time_is_over(
    p: Plan,
    label: Seq<char>,
    now: Nanos,
    s: SpoolerStatus,
)
    requires
        p.phase is WaitFirst || p.phase is WaitAgain,
        p.stage is Stop || p.stage is Start,
        s.state != (if p.stage is Stop {
            ServiceState::Stopped
        } else {
            ServiceState::Running
        }),
    ensures
        ({
            let stale = p.phase is WaitAgain && s.check_point <= p.check_point && (now
                >= p.progress_since + p.progress_window || p.progress_window == 0);
            let late = now >= p.since + p.limit || p.limit == 0;
            let to = if p.stage is Stop {
                "остановлена"@
            } else {
                "работает"@
            };
            let r = next(p, label, now, EventView::Status(s));
            &&& r.1 is Failed <==> stale || late
            &&& stale || late ==> r.0.phase is Over
            &&& stale ==> r.1 == ActView::Failed(
                "Spooler не продвигается к состоянию «"@ + to + "» (сейчас: «"@
                    + spooler::state_ru(s.state) + "»)."@,
            )
            &&& late && !stale ==> r.1 == ActView::Failed(
                "Таймаут ожидания состояния «"@ + to + "» (сейчас: «"@ + spooler::state_ru(
                    s.state,
                ) + "»)."@,
            )
        }),
{
}

/// A call that went well is followed by the next one: the service is opened with the
/// rights that the stage needs, looked at, told, and looked at again after every
/// pause; the time of a wait runs from when the service was told.
pub proof fn law_calls_follow_each_other(p: Plan, label: Seq<char>, now: Nanos)
    ensures
        p.phase is Manager ==> next(p, label, now, EventView::Ready) == (
            Plan { phase: Phase::Service, ..p },
            ActView::OpenService(
                match p.stage {
                    Stage::Query => 4u32,
                    Stage::Stop => 36u32,
                    Stage::Start => 20u32,
                },
            ),
        ),
        p.phase is Service ==> next(p, label, now, EventView::Ready) == (
            Plan { phase: Phase::Check, ..p },
            ActView::Query,
        ),
        p.phase is Send ==> next(p, label, now, EventView::Ready) == (
            Plan { phase: Phase::WaitFirst, since: now, ..p },
            ActView::Query,
        ),
        p.phase is Pause ==> next(p, label, now, EventView::Ready) == (
            Plan { phase: Phase::WaitAgain, ..p },
            ActView::Query,
        ),
{
}

/// After the queue files were gone through the service is looked at once more. That
/// look ends the clearing, whatever it shows; a repair goes on to the start.
pub proof fn law_work_goes_on_after_clearing(
    p: Plan,
    label: Seq<char>,
    now: Nanos,
    report: ClearReport,
    s: SpoolerStatus,
)
    ensures
        p.phase is Clearing ==> next(p, label, now, EventView::Cleared(report)).1
            == ActView::OpenManager,
        p.phase is Clearing ==> next(p, label, now, EventView::Cleared(report)).0.stage is Query
            && next(p, label, now, EventView::Cleared(report)).0.phase is Manager && next(
            p,
            label,
            now,
            EventView::Cleared(report),
        ).0.goal == p.goal,
        p.phase is Check && p.stage is Query && p.goal is Fix ==> next(
            p,
            label,
            now,
            EventView::Status(s),
        ).1 == ActView::OpenManager && next(p, label, now, EventView::Status(s)).0.stage is Start
            && next(p, label, now, EventView::Status(s)).0.phase is Manager && next(
            p,
            label,
            now,
            EventView::Status(s),
        ).0.goal is Fix,
        p.phase is Check && p.stage is Query && !(p.goal is Fix) ==> next(
            p,
            label,
            now,
            EventView::Status(s),
        ) == (Plan { phase: Phase::Over, ..p }, ActView::Done(s)),
{
}

/// Every goal begins with opening the manager, for the stage that it needs first: a
/// query looks, a start starts, and all others stop. Each wait has the whole time,
/// but those of a restart share it: half for the stop, and for the start the rest, or
/// one second where less is left.
pub proof fn law_work_begins_with_its_first_stage(
    goal: Goal,
    timeout: Nanos,
    p: Plan,
    label: Seq<char>,
    now: Nanos,
    e: EventView,
)
    ensures
        begun(goal, timeout).1 == ActView::OpenManager,
        begun(goal, timeout).0.goal == goal,
        begun(goal, timeout).0.phase is Manager,
        goal is Query ==> begun(goal, timeout).0.stage is Query,
        goal is Start ==> begun(goal, timeout).0.stage is Start,
        goal is Stop || goal is Restart || goal is Clear || goal is Fix ==> begun(
            goal,
            timeout,
        ).0.stage is Stop,
        !(goal is Restart) ==> begun(goal, timeout).0.limit == timeout,
        goal is Restart && timeout >= 2 ==> begun(goal, timeout).0.limit == timeout as int / 2,
        goal is Restart && timeout < 2 ==> begun(goal, timeout).0.limit == timeout,
        begun(goal, timeout).0.timeout == timeout,
        answers(p, e) && next(p, label, now, e).1 is OpenManager && p.goal is Fix ==> next(
            p,
            label,
            now,
            e,
        ).0.limit == p.timeout,
        answers(p, e) && next(p, label, now, e).1 is OpenManager && p.goal is Restart && next(
            p,
            label,
            now,
            e,
        ).0.stage is Start ==> {
            let rest = if p.timeout < 2 {
                0
            } else {
                p.timeout - p.timeout as int / 2
            };
            next(p, label, now, e).0.limit == if rest < 1_000_000_000 {
                1_000_000_000
            } else {
                rest
            }
        },
{
}

/// The work waits for the answer to the call that it asked for, and for no other:
/// every call can go well or fail, but a pause only ends. Work that is done or has
/// failed waits for nothing.
pub proof fn law_every_call_is_answered(
    p: Plan,
    s: SpoolerStatus,
    report: ClearReport,
    code: i32,
    text: Seq<char>,
)
    ensures
        answers(p, EventView::Ready) <==> p.phase is Manager || p.phase is Service || p.phase is Send
            || p.phase is Pause,
        answers(p, EventView::Status(s)) <==> p.phase is Check || p.phase is WaitFirst
            || p.phase is WaitAgain,
        answers(p, EventView::Cleared(report)) <==> p.phase is Clearing,
        answers(p, EventView::ClearFailed(text)) <==> p.phase is Clearing,
        answers(p, EventView::Failed(code, text)) <==> !(p.phase is Over) && !(p.phase is Pause)
            && !(p.phase is Clearing),
{
}

/// A call that fails ends the work, and the words say which call it was, and why. A
/// call that was denied says that an administrator is needed, and a service that is
/// not there is said to be missing.
pub proof fn law_failures_say_what_failed(
    p: Plan,
    label: Seq<char>,
    now: Nanos,
    code: i32,
    detail: Seq<char>,
)
    requires
        answers(p, EventView::Failed(code, detail)),
    ensures
        ({
            let what = match p.phase {
                Phase::Manager => "Не удалось открыть Service Control Manager"@,
                Phase::Service => "Не удалось открыть службу Spooler"@,
                Phase::Send => if p.stage is Stop {
                    "Не удалось остановить Spooler"@
                } else {
                    "Не удалось запустить Spooler"@
                },
                _ => "Не удалось прочитать статус Spooler"@,
            };
            let r = next(p, label, now, EventView::Failed(code, detail));
            &&& r.0 == (Plan { phase: Phase::Over, ..p })
            &&& p.phase is Service && code == 1060 ==> r.1 == ActView::Failed(
                "Служба печати Spooler не найдена на этой системе."@,
            )
            &&& !(p.phase is Service && code == 1060) && code == 5 ==> r.1 == ActView::Failed(
                what + ": отказано в доступе. Запустите от имени администратора."@,
            )
            &&& !(p.phase is Service && code == 1060) && code != 5 ==> r.1 == ActView::Failed(
                what + ": "@ + detail,
            )
        }),
        forall|error: Seq<char>| p.phase is Clearing ==> #[trigger] next(
            p,
            label,
            now,
            EventView::ClearFailed(error),
        ) == (Plan { phase: Phase::Over, ..p }, ActView::Failed(error)),
{
}

/// The calls that follow these events, each at its time, up to one that answers no
/// call.
pub open spec fn run(p: Plan, label: Seq<char>, events: Seq<(Nanos, EventView)>) -> Seq<ActView>
    decreases events.len(),
{
    if events.len() == 0 || !answers(p, events[0].1) {
        seq![]
    } else {
        let r = next(p, label, events[0].0, events[0].1);
        seq![r.1] + run(r.0, label, events.skip(1))
    }
}

proof fn lemma_run(p: Plan, label: Seq<char>, events: Seq<(Nanos, EventView)>, i: int)
    requires
        0 <= i < events.len(),
        answers(p, events[i].1),
    ensures
        run(p, label, events.skip(i)) == seq![next(p, label, events[i].0, events[i].1).1] + run(
            next(p, label, events[i].0, events[i].1).0,
            label,
            events.skip(i + 1),
        ),
{
    assert(events.skip(i)[0] == events[i]);
    assert(events.skip(i).skip(1) =~= events.skip(i + 1));
}

/// Repairing a service that is not stopped stops it, deletes the queue files, starts
/// it again, and ends with the service running, whenever every call goes well.
#[verifier::rlimit(40)]
pub proof fn law_repair_stops_clears_and_starts(
    label: Seq<char>,
    timeout: Nanos,
    times: Seq<Nanos>,
    before: SpoolerStatus,
    stopped: SpoolerStatus,
    report: ClearReport,
    cleared: SpoolerStatus,
    down: SpoolerStatus,
    up: SpoolerStatus,
)
    requires
        before.state != ServiceState::Stopped,
        stopped.state == ServiceState::Stopped,
        down.state == ServiceState::Stopped,
        up.state == ServiceState::Running,
    ensures
        run(
            begun(Goal::Fix, timeout).0,
            label,
            seq![
                (times[0], EventView::Ready),
                (times[1], EventView::Ready),
                (times[2], EventView::Status(before)),
                (times[3], EventView::Ready),
                (times[4], EventView::Status(stopped)),
                (times[5], EventView::Cleared(report)),
                (times[6], EventView::Ready),
                (times[7], EventView::Ready),
                (times[8], EventView::Status(cleared)),
                (times[9], EventView::Ready),
                (times[10], EventView::Ready),
                (times[11], EventView::Status(down)),
                (times[12], EventView::Ready),
                (times[13], EventView::Status(up)),
            ],
        ) == seq![
            ActView::OpenService(36),
            ActView::Query,
            ActView::SendStop,
            ActView::Query,
            ActView::ClearQueue,
            ActView::OpenManager,
            ActView::OpenService(4),
            ActView::Query,
            ActView::OpenManager,
            ActView::OpenService(20),
            ActView::Query,
            ActView::SendStart,
            ActView::Query,
            ActView::Done(up),
        ],
{
    let es = seq![
        (times[0], EventView::Ready),
        (times[1], EventView::Ready),
        (times[2], EventView::Status(before)),
        (times[3], EventView::Ready),
        (times[4], EventView::Status(stopped)),
        (times[5], EventView::Cleared(report)),
        (times[6], EventView::Ready),
        (times[7], EventView::Ready),
        (times[8], EventView::Status(cleared)),
        (times[9], EventView::Ready),
        (times[10], EventView::Ready),
        (times[11], EventView::Status(down)),
        (times[12], EventView::Ready),
        (times[13], EventView::Status(up)),
    ];
    assert(es.skip(0) =~= es);
    let p0 = begun(Goal::Fix, timeout).0;
    let p1 = next(p0, label, es[0].0, es[0].1).0;
    let p2 = next(p1, label, es[1].0, es[1].1).0;
    let p3 = next(p2, label, es[2].0, es[2].1).0;
    let p4 = next(p3, label, es[3].0, es[3].1).0;
    let p5 = next(p4, label, es[4].0, es[4].1).0;
    let p6 = next(p5, label, es[5].0, es[5].1).0;
    let p7 = next(p6, label, es[6].0, es[6].1).0;
    let p8 = next(p7, label, es[7].0, es[7].1).0;
    let p9 = next(p8, label, es[8].0, es[8].1).0;
    let p10 = next(p9, label, es[9].0, es[9].1).0;
    let p11 = next(p10, label, es[10].0, es[10].1).0;
    let p12 = next(p11, label, es[11].0, es[11].1).0;
    let p13 = next(p12, label, es[12].0, es[12].1).0;
    let p14 = next(p13, label, es[13].0, es[13].1).0;
    lemma_run(p0, label, es, 0);
    lemma_run(p1, label, es, 1);
    lemma_run(p2, label, es, 2);
    lemma_run(p3, label, es, 3);
    lemma_run(p4, label, es, 4);
    lemma_run(p5, label, es, 5);
    lemma_run(p6, label, es, 6);
    lemma_run(p7, label, es, 7);
    lemma_run(p8, label, es, 8);
    lemma_run(p9, label, es, 9);
    lemma_run(p10, label, es, 10);
    lemma_run(p11, label, es, 11);
    lemma_run(p12, label, es, 12);
    lemma_run(p13, label, es, 13);
    assert(run(p14, label, es.skip(14)) =~= seq![]);
    let a14 = run(p13, label, es.skip(13));
    assert(a14 =~= seq![ActView::Done(up)]);
    let a9 = run(p8, label, es.skip(8));
    assert(a9 =~= seq![
        ActView::OpenManager,
        ActView::OpenService(20),
        ActView::Query,
        ActView::SendStart,
        ActView::Query,
        ActView::Done(up),
    ]);
    assert(run(p0, label, es) =~= seq![
        ActView::OpenService(36),
        ActView::Query,
        ActView::SendStop,
        ActView::Query,
        ActView::ClearQueue,
        ActView::OpenManager,
        ActView::OpenService(4),
        ActView::Query,
    ] + a9);
}

/// Clearing the queue of a service that is not stopped stops it, deletes the queue
/// files, and ends with a last look, whenever every call goes well; it never starts
/// the service.
#[verifier::rlimit(30)]
pub proof fn law_clearing_stops_and_clears(
    label: Seq<char>,
    timeout: Nanos,
    times: Seq<Nanos>,
    before: SpoolerStatus,
    stopped: SpoolerStatus,
    report: ClearReport,
    cleared: SpoolerStatus,
)
    requires
        before.state != ServiceState::Stopped,
        stopped.state == ServiceState::Stopped,
    ensures
        run(
            begun(Goal::Clear, timeout).0,
            label,
            seq![
                (times[0], EventView::Ready),
                (times[1], EventView::Ready),
                (times[2], EventView::Status(before)),
                (times[3], EventView::Ready),
                (times[4], EventView::Status(stopped)),
                (times[5], EventView::Cleared(report)),
                (times[6], EventView::Ready),
                (times[7], EventView::Ready),
                (times[8], EventView::Status(cleared)),
            ],
        ) == seq![
            ActView::OpenService(36),
            ActView::Query,
            ActView::SendStop,
            ActView::Query,
            ActView::ClearQueue,
            ActView::OpenManager,
            ActView::OpenService(4),
            ActView::Query,
            ActView::Done(cleared),
        ],
{
    let es = seq![
        (times[0], EventView::Ready),
        (times[1], EventView::Ready),
        (times[2], EventView::Status(before)),
        (times[3], EventView::Ready),
        (times[4], EventView::Status(stopped)),
        (times[5], EventView::Cleared(report)),
        (times[6], EventView::Ready),
        (times[7], EventView::Ready),
        (times[8], EventView::Status(cleared)),
    ];
    assert(es.skip(0) =~= es);
    let p0 = begun(Goal::Clear, timeout).0;
    let p1 = next(p0, label, es[0].0, es[0].1).0;
    let p2 = next(p1, label, es[1].0, es[1].1).0;
    let p3 = next(p2, label, es[2].0, es[2].1).0;
    let p4 = next(p3, label, es[3].0, es[3].1).0;
    let p5 = next(p4, label, es[4].0, es[4].1).0;
    let p6 = next(p5, label, es[5].0, es[5].1).0;
    let p7 = next(p6, label, es[6].0, es[6].1).0;
    let p8 = next(p7, label, es[7].0, es[7].1).0;
    let p9 = next(p8, label, es[8].0, es[8].1).0;
    lemma_run(p0, label, es, 0);
    lemma_run(p1, label, es, 1);
    lemma_run(p2, label, es, 2);
    lemma_run(p3, label, es, 3);
    lemma_run(p4, label, es, 4);
    lemma_run(p5, label, es, 5);
    lemma_run(p6, label, es, 6);
    lemma_run(p7, label, es, 7);
    lemma_run(p8, label, es, 8);
    assert(run(p9, label, es.skip(9)) =~= seq![]);
    assert(run(p0, label, es) =~= seq![
        ActView::OpenService(36),
        ActView::Query,
        ActView::SendStop,
        ActView::Query,
        ActView::ClearQueue,
        ActView::OpenManager,
        ActView::OpenService(4),
        ActView::Query,
        ActView::Done(cleared),
    ]);
}

/// Restarting a service that is not stopped stops it and starts it again, and ends
/// with the service running, whenever every call goes well.
#[verifier::rlimit(30)]
pub proof fn law_restart_stops_and_starts(
    label: Seq<char>,
    timeout: Nanos,
    times: Seq<Nanos>,
    before: SpoolerStatus,
    stopped: SpoolerStatus,
    down: SpoolerStatus,
    up: SpoolerStatus,
)
    requires
        before.state != ServiceState::Stopped,
        stopped.state == ServiceState::Stopped,
        down.state == ServiceState::Stopped,
        up.state == ServiceState::Running,
    ensures
        run(
            begun(Goal::Restart, timeout).0,
            label,
            seq![
                (times[0], EventView::Ready),
                (times[1], EventView::Ready),
                (times[2], EventView::Status(before)),
                (times[3], EventView::Ready),
                (times[4], EventView::Status(stopped)),
                (times[5], EventView::Ready),
                (times[6], EventView::Ready),
                (times[7], EventView::Status(down)),
                (times[8], EventView::Ready),
                (times[9], EventView::Status(up)),
            ],
        ) == seq![
            ActView::OpenService(36),
            ActView::Query,
            ActView::SendStop,
            ActView::Query,
            ActView::OpenManager,
            ActView::OpenService(20),
            ActView::Query,
            ActView::SendStart,
            ActView::Query,
            ActView::Done(up),
        ],
{
    let es = seq![
        (times[0], EventView::Ready),
        (times[1], EventView::Ready),
        (times[2], EventView::Status(before)),
        (times[3], EventView::Ready),
        (times[4], EventView::Status(stopped)),
        (times[5], EventView::Ready),
        (times[6], EventView::Ready),
        (times[7], EventView::Status(down)),
        (times[8], EventView::Ready),
        (times[9], EventView::Status(up)),
    ];
    assert(es.skip(0) =~= es);
    let p0 = begun(Goal::Restart, timeout).0;
    let p1 = next(p0, label, es[0].0, es[0].1).0;
    let p2 = next(p1, label, es[1].0, es[1].1).0;
    let p3 = next(p2, label, es[2].0, es[2].1).0;
    let p4 = next(p3, label, es[3].0, es[3].1).0;
    let p5 = next(p4, label, es[4].0, es[4].1).0;
    let p6 = next(p5, label, es[5].0, es[5].1).0;
    let p7 = next(p6, label, es[6].0, es[6].1).0;
    let p8 = next(p7, label, es[7].0, es[7].1).0;
    let p9 = next(p8, label, es[8].0, es[8].1).0;
    let p10 = next(p9, label, es[9].0, es[9].1).0;
    lemma_run(p0, label, es, 0);
    lemma_run(p1, label, es, 1);
    lemma_run(p2, label, es, 2);
    lemma_run(p3, label, es, 3);
    lemma_run(p4, label, es, 4);
    lemma_run(p5, label, es, 5);
    lemma_run(p6, label, es, 6);
    lemma_run(p7, label, es, 7);
    lemma_run(p8, label, es, 8);
    lemma_run(p9, label, es, 9);
    assert(run(p10, label, es.skip(10)) =~= seq![]);
    assert(run(p0, label, es) =~= seq![
        ActView::OpenService(36),
        ActView::Query,
        ActView::SendStop,
        ActView::Query,
        ActView::OpenManager,
        ActView::OpenService(20),
        ActView::Query,
        ActView::SendStart,
        ActView::Query,
        ActView::Done(up),
    ]);
}

// ---------------------------------------------------------------------------
// The work by its name

/// Says in what state the service is.
pub fn query_spooler_status(label: &str) -> (r: (Control, Act))
    ensures
        r.0.label() == label@,
        r.0.report() is None,
        (r.0.plan(), r.1@) == begun(Goal::Query, 0),
{
    Control::begin(Goal::Query, label, 0)
}

/// Stops the service and waits until it is stopped.
pub fn stop_spooler(label: &str, timeout: Nanos) -> (r: (Control, Act))
    ensures
        r.0.label() == label@,
        r.0.report() is None,
        (r.0.plan(), r.1@) == begun(Goal::Stop, timeout),
{
    Control::begin(Goal::Stop, label, timeout)
}

/// Starts the service and waits until it is running.
pub fn start_spooler(label: &str, timeout: Nanos) -> (r: (Control, Act))
    ensures
        r.0.label() == label@,
        r.0.report() is None,
        (r.0.plan(), r.1@) == begun(Goal::Start, timeout),
{
    Control::begin(Goal::Start, label, timeout)
}

/// Stops the service, then starts it.
pub fn restart_spooler(label: &str, timeout: Nanos) -> (r: (Control, Act))
    ensures
        r.0.label() == label@,
        r.0.report() is None,
        (r.0.plan(), r.1@) == begun(Goal::Restart, timeout),
{
    Control::begin(Goal::Restart, label, timeout)
}

// ---------------------------------------------------------------------------
// Values as they are seen

/// A call is seen as what it is, and so is how it went.
pub proof fn law_acts_are_seen_as_they_are(
    n: u32,
    d: Nanos,
    s: SpoolerStatus,
    r: ClearReport,
    e: WinError,
    t: String,
)
    ensures
        Act::OpenManager@ == ActView::OpenManager,
        Act::OpenService(n)@ == ActView::OpenService(n),
        Act::Query@ == ActView::Query,
        Act::SendStop@ == ActView::SendStop,
        Act::SendStart@ == ActView::SendStart,
        Act::Sleep(d)@ == ActView::Sleep(d as int),
        Act::ClearQueue@ == ActView::ClearQueue,
        Act::Done(s)@ == ActView::Done(s),
        Act::Failed(t)@ == ActView::Failed(t@),
        Event::Ready@ == EventView::Ready,
        Event::Cleared(r)@ == EventView::Cleared(r),
        Event::Status(s)@ == EventView::Status(s),
        Event::Failed(e)@ == EventView::Failed(e.code, e.text@),
        Event::ClearFailed(t)@ == EventView::ClearFailed(t@),
{
}

} // verus!
