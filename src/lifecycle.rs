//! The worker loop's decisions: from the current state and what just happened
//! to the next state and the action to perform. The caller performs each
//! action (network calls, directory creation, process control, sleeping) and
//! hands back what came of it as the next event.
use vstd::prelude::*;
use crate::naming::{exit_message, exit_message_spec, run_id_for, run_id_spec};

verus! {

/// Granularity, in milliseconds, of the checks made while a job runs.
pub const TICK_MS: u64 = 500;

/// Exit code reported when a job could not be set up or started.
pub const SETUP_FAILURE_CODE: i32 = 1;

/// Timing parameters of the loop.
#[derive(Clone, Copy, Debug, PartialEq, Eq, Structural)]
pub struct LoopConfig {
    pub poll_interval_ms: u64,
    pub heartbeat_interval_ms: u64,
    pub lease_seconds: u64,
}

/// Where the loop stands.
#[derive(Clone, Copy, Debug, PartialEq, Eq, Structural)]
pub enum Phase {
    Polling,
    Claimed,
    Starting,
    Running,
    Renewing,
    Terminating,
    Reporting,
    Stopped,
}

/// The loop's state: its phase and, while a job is held, that job's bookkeeping.
#[derive(Clone, Copy, Debug, PartialEq, Eq, Structural)]
pub struct LoopState {
    pub phase: Phase,
    pub job_id: i64,
    pub cancel_requested: bool,
    /// The start of the current heartbeat interval: when the job started,
    /// advanced by one whole interval at each renewal, so that renewals keep
    /// pace with the clock however late the check that issues them comes.
    pub last_heartbeat_ms: u64,
}

/// What came of the last action.
#[derive(Clone, Debug)]
pub enum Event {
    /// A sleep ended (or the loop begins); `shutdown` is the shutdown flag now.
    Wake { shutdown: bool },
    /// The claim request failed in transport.
    ClaimFailed,
    /// The claim succeeded with no job available.
    NoJob,
    /// A job was claimed.
    GotJob { job_id: i64 },
    /// The run directory and its artifacts subdirectory exist.
    RunDirReady,
    /// The run directory could not be created.
    RunDirFailed { message: String },
    /// The job's process was started at `now_ms`.
    Started { now_ms: u64 },
    /// The job's process could not be started.
    StartFailed { message: String },
    /// A non-blocking check of the process: its exit code if it ended, the
    /// shutdown flag, and the time of the check.
    Polled { exited: Option<i32>, shutdown: bool, now_ms: u64 },
    /// A lease renewal came back: the cancellation flag it carried, or
    /// nothing when it failed.
    Renewed { cancel_requested: Option<bool> },
    /// The process was killed and ended with this code.
    Killed { code: i32 },
    /// The completion report was sent (or failed); the shutdown flag now.
    Reported { shutdown: bool },
}

/// What the caller is to do next.
#[derive(Clone, Debug)]
pub enum Action {
    Claim { lease_seconds: u64 },
    Sleep { ms: u64 },
    PrepareRun { job_id: i64, run_id: String },
    Start,
    CheckExit,
    Renew { job_id: i64, lease_seconds: u64 },
    Kill,
    Complete { job_id: i64, exit_code: i32, run_id: String, error_message: Option<String> },
    Stop,
}

/// The mathematical form of an event.
pub ghost enum EventSpec {
    Wake { shutdown: bool },
    ClaimFailed,
    NoJob,
    GotJob { job_id: i64 },
    RunDirReady,
    RunDirFailed { message: Seq<char> },
    Started { now_ms: u64 },
    StartFailed { message: Seq<char> },
    Polled { exited: Option<i32>, shutdown: bool, now_ms: u64 },
    Renewed { cancel_requested: Option<bool> },
    Killed { code: i32 },
    Reported { shutdown: bool },
}

/// The mathematical form of an action.
pub ghost enum ActionSpec {
    Claim { lease_seconds: u64 },
    Sleep { ms: u64 },
    PrepareRun { job_id: i64, run_id: Seq<char> },
    Start,
    CheckExit,
    Renew { job_id: i64, lease_seconds: u64 },
    Kill,
    Complete { job_id: i64, exit_code: i32, run_id: Seq<char>, error_message: Option<Seq<char>> },
    Stop,
}

impl View for Event {
    type V = EventSpec;

    open spec fn view(&self) -> EventSpec {
        match *self {
            Event::Wake { shutdown } => EventSpec::Wake { shutdown },
            Event::ClaimFailed => EventSpec::ClaimFailed,
            Event::NoJob => EventSpec::NoJob,
            Event::GotJob { job_id } => EventSpec::GotJob { job_id },
            Event::RunDirReady => EventSpec::RunDirReady,
            Event::RunDirFailed { message } => EventSpec::RunDirFailed { message: message@ },
            Event::Started { now_ms } => EventSpec::Started { now_ms },
            Event::StartFailed { message } => EventSpec::StartFailed { message: message@ },
            Event::Polled { exited, shutdown, now_ms } => EventSpec::Polled { exited, shutdown, now_ms },
            Event::Renewed { cancel_requested } => EventSpec::Renewed { cancel_requested },
            Event::Killed { code } => EventSpec::Killed { code },
            Event::Reported { shutdown } => EventSpec::Reported { shutdown },
        }
    }
}

pub open spec fn opt_view(m: Option<String>) -> Option<Seq<char>> {
    match m {
        Some(s) => Some(s@),
        None => None,
    }
}

impl View for Action {
    type V = ActionSpec;

    open spec fn view(&self) -> ActionSpec {
        match *self {
            Action::Claim { lease_seconds } => ActionSpec::Claim { lease_seconds },
            Action::Sleep { ms } => ActionSpec::Sleep { ms },
            Action::PrepareRun { job_id, run_id } => ActionSpec::PrepareRun { job_id, run_id: run_id@ },
            Action::Start => ActionSpec::Start,
            Action::CheckExit => ActionSpec::CheckExit,
            Action::Renew { job_id, lease_seconds } => ActionSpec::Renew { job_id, lease_seconds },
            Action::Kill => ActionSpec::Kill,
            Action::Complete { job_id, exit_code, run_id, error_message } => ActionSpec::Complete {
                job_id,
                exit_code,
                run_id: run_id@,
                error_message: opt_view(error_message),
            },
            Action::Stop => ActionSpec::Stop,
        }
    }
}

/// Which events a phase expects: those that the action it last issued can produce.
pub open spec fn expects(phase: Phase, e: EventSpec) -> bool {
    match phase {
        Phase::Polling => e is Wake || e is ClaimFailed || e is NoJob || e is GotJob,
        Phase::Claimed => e is RunDirReady || e is RunDirFailed,
        Phase::Starting => e is Started || e is StartFailed,
        Phase::Running => e is Wake || e is Polled,
        Phase::Renewing => e is Renewed,
        Phase::Terminating => e is Killed,
        Phase::Reporting => e is Reported,
        Phase::Stopped => false,
    }
}

/// Milliseconds from `from` to `to`, zero if the clock went back.
pub open spec fn elapsed(from: u64, to: u64) -> int {
    if to >= from { to - from } else { 0 }
}

/// The state with a new phase and everything else kept.
pub open spec fn with_phase(s: LoopState, p: Phase) -> LoopState {
    LoopState { phase: p, ..s }
}

/// The completion report for the held job with the given code and message.
pub open spec fn complete_spec(s: LoopState, code: i32, message: Option<Seq<char>>) -> ActionSpec {
    ActionSpec::Complete {
        job_id: s.job_id,
        exit_code: code,
        run_id: run_id_spec(s.job_id as int),
        error_message: message,
    }
}

/// The loop's transition function.
pub open spec fn next(cfg: LoopConfig, s: LoopState, e: EventSpec) -> (LoopState, ActionSpec) {
    match e {
        EventSpec::Wake { shutdown } => {
            if s.phase == Phase::Running {
                (s, ActionSpec::CheckExit)
            } else if shutdown {
                (with_phase(s, Phase::Stopped), ActionSpec::Stop)
            } else {
                (s, ActionSpec::Claim { lease_seconds: cfg.lease_seconds })
            }
        },
        EventSpec::ClaimFailed => (s, ActionSpec::Sleep { ms: cfg.poll_interval_ms }),
        EventSpec::NoJob => (s, ActionSpec::Sleep { ms: cfg.poll_interval_ms }),
        EventSpec::GotJob { job_id } => (
            LoopState { phase: Phase::Claimed, job_id, cancel_requested: false, last_heartbeat_ms: s.last_heartbeat_ms },
            ActionSpec::PrepareRun { job_id, run_id: run_id_spec(job_id as int) },
        ),
        EventSpec::RunDirReady => (with_phase(s, Phase::Starting), ActionSpec::Start),
        EventSpec::RunDirFailed { message } => (
            with_phase(s, Phase::Reporting),
            complete_spec(s, SETUP_FAILURE_CODE, Some(message)),
        ),
        EventSpec::Started { now_ms } => (
            LoopState { phase: Phase::Running, cancel_requested: false, last_heartbeat_ms: now_ms, ..s },
            ActionSpec::CheckExit,
        ),
        EventSpec::StartFailed { message } => (
            with_phase(s, Phase::Reporting),
            complete_spec(s, SETUP_FAILURE_CODE, Some(message)),
        ),
        EventSpec::Polled { exited, shutdown, now_ms } => {
            match exited {
                Some(code) => (
                    with_phase(s, Phase::Reporting),
                    complete_spec(s, code, exit_message_spec(code as int)),
                ),
                None => {
                    if shutdown || s.cancel_requested {
                        (with_phase(s, Phase::Terminating), ActionSpec::Kill)
                    } else if elapsed(s.last_heartbeat_ms, now_ms) >= cfg.heartbeat_interval_ms {
                        (
                            LoopState {
                                phase: Phase::Renewing,
                                last_heartbeat_ms: (s.last_heartbeat_ms + cfg.heartbeat_interval_ms) as u64,
                                ..s
                            },
                            ActionSpec::Renew { job_id: s.job_id, lease_seconds: cfg.lease_seconds },
                        )
                    } else {
                        (s, ActionSpec::Sleep { ms: TICK_MS })
                    }
                },
            }
        },
        EventSpec::Renewed { cancel_requested } => (
            LoopState {
                phase: Phase::Running,
                cancel_requested: s.cancel_requested || cancel_requested == Some(true),
                ..s
            },
            ActionSpec::Sleep { ms: TICK_MS },
        ),
        EventSpec::Killed { code } => (
            with_phase(s, Phase::Reporting),
            complete_spec(s, code, exit_message_spec(code as int)),
        ),
        EventSpec::Reported { shutdown } => {
            if shutdown {
                (with_phase(s, Phase::Stopped), ActionSpec::Stop)
            } else {
                (with_phase(s, Phase::Polling), ActionSpec::Claim { lease_seconds: cfg.lease_seconds })
            }
        },
    }
}

impl LoopState {
    /// The state in which the loop begins: polling, holding no job.
    pub fn initial() -> (r: LoopState)
        ensures
            r == (LoopState { phase: Phase::Polling, job_id: 0, cancel_requested: false, last_heartbeat_ms: 0 }),
    {
        LoopState { phase: Phase::Polling, job_id: 0, cancel_requested: false, last_heartbeat_ms: 0 }
    }

    /// Whether the loop in this state expects the event.
    pub fn accepts(&self, e: &Event) -> (r: bool)
        ensures
            r == expects(self.phase, e@),
    {
        match self.phase {
            Phase::Polling => matches!(e, Event::Wake { .. } | Event::ClaimFailed | Event::NoJob | Event::GotJob { .. }),
            Phase::Claimed => matches!(e, Event::RunDirReady | Event::RunDirFailed { .. }),
            Phase::Starting => matches!(e, Event::Started { .. } | Event::StartFailed { .. }),
            Phase::Running => matches!(e, Event::Wake { .. } | Event::Polled { .. }),
            Phase::Renewing => matches!(e, Event::Renewed { .. }),
            Phase::Terminating => matches!(e, Event::Killed { .. }),
            Phase::Reporting => matches!(e, Event::Reported { .. }),
            Phase::Stopped => false,
        }
    }

    fn complete(&self, code: i32, message: Option<String>) -> (r: Action)
        ensures
            r@ == complete_spec(*self, code, opt_view(message)),
    {
        Action::Complete { job_id: self.job_id, exit_code: code, run_id: run_id_for(self.job_id), error_message: message }
    }

    /// Takes one step of the loop: the next state and the action to perform.
    pub fn step(&self, cfg: &LoopConfig, e: Event) -> (r: (LoopState, Action))
        requires
            expects(self.phase, e@),
        ensures
            (r.0, r.1@) == next(*cfg, *self, e@),
    {
        let s = *self;
        match e {
            Event::Wake { shutdown } => {
                if s.phase == Phase::Running {
                    (s, Action::CheckExit)
                } else if shutdown {
                    (LoopState { phase: Phase::Stopped, ..s }, Action::Stop)
                } else {
                    (s, Action::Claim { lease_seconds: cfg.lease_seconds })
                }
            },
            Event::ClaimFailed => (s, Action::Sleep { ms: cfg.poll_interval_ms }),
            Event::NoJob => (s, Action::Sleep { ms: cfg.poll_interval_ms }),
            Event::GotJob { job_id } => (
                LoopState { phase: Phase::Claimed, job_id, cancel_requested: false, last_heartbeat_ms: s.last_heartbeat_ms },
                Action::PrepareRun { job_id, run_id: run_id_for(job_id) },
            ),
            Event::RunDirReady => (LoopState { phase: Phase::Starting, ..s }, Action::Start),
            Event::RunDirFailed { message } => (
                LoopState { phase: Phase::Reporting, ..s },
                s.complete(SETUP_FAILURE_CODE, Some(message)),
            ),
            Event::Started { now_ms } => (
                LoopState { phase: Phase::Running, cancel_requested: false, last_heartbeat_ms: now_ms, ..s },
                Action::CheckExit,
            ),
            Event::StartFailed { message } => (
                LoopState { phase: Phase::Reporting, ..s },
                s.complete(SETUP_FAILURE_CODE, Some(message)),
            ),
            Event::Polled { exited, shutdown, now_ms } => {
                match exited {
                    Some(code) => (LoopState { phase: Phase::Reporting, ..s }, s.complete(code, exit_message(code))),
                    None => {
                        let since: u64 = if now_ms >= s.last_heartbeat_ms { now_ms - s.last_heartbeat_ms } else { 0 };
                        if shutdown || s.cancel_requested {
                            (LoopState { phase: Phase::Terminating, ..s }, Action::Kill)
                        } else if since >= cfg.heartbeat_interval_ms {
                            (
                                LoopState {
                                    phase: Phase::Renewing,
                                    last_heartbeat_ms: s.last_heartbeat_ms + cfg.heartbeat_interval_ms,
                                    ..s
                                },
                                Action::Renew { job_id: s.job_id, lease_seconds: cfg.lease_seconds },
                            )
                        } else {
                            (s, Action::Sleep { ms: TICK_MS })
                        }
                    },
                }
            },
            Event::Renewed { cancel_requested } => {
                let cancel = s.cancel_requested || matches!(cancel_requested, Some(true));
                (
                    LoopState { phase: Phase::Running, cancel_requested: cancel, ..s },
                    Action::Sleep { ms: TICK_MS },
                )
            },
            Event::Killed { code } => (LoopState { phase: Phase::Reporting, ..s }, s.complete(code, exit_message(code))),
            Event::Reported { shutdown } => {
                if shutdown {
                    (LoopState { phase: Phase::Stopped, ..s }, Action::Stop)
                } else {
                    (LoopState { phase: Phase::Polling, ..s }, Action::Claim { lease_seconds: cfg.lease_seconds })
                }
            },
        }
    }
}

} // verus!
