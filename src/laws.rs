//! Properties of the worker loop and the process runner, proved over their
//! transition functions.
use vstd::prelude::*;
use crate::lifecycle::{ActionSpec, EventSpec, LoopConfig, LoopState, Phase, complete_spec, next};
use crate::naming::exit_message_spec;
use vstd::arithmetic::div_mod::{lemma_fundamental_div_mod, lemma_mod_pos_bound};
use crate::process::{GRACE_SECS, KillAction, KillEvent, exit_code_spec, kill_next};

verus! {

/// A claim that brings no job, or fails, leaves the loop's state as it was
/// and only asks for a sleep of the poll interval: no run is prepared.
pub proof fn lemma_no_job_keeps_state(cfg: LoopConfig, s: LoopState)
    requires
        s.phase == Phase::Polling,
    ensures
        next(cfg, s, EventSpec::NoJob) == (s, ActionSpec::Sleep { ms: cfg.poll_interval_ms }),
        next(cfg, s, EventSpec::ClaimFailed) == (s, ActionSpec::Sleep { ms: cfg.poll_interval_ms }),
{
}

/// A process that ends by itself with code `code` is reported complete with
/// that very code, whatever the flags say at that moment.
pub proof fn lemma_natural_exit_reported(cfg: LoopConfig, s: LoopState, code: i32, shutdown: bool, now_ms: u64)
    requires
        s.phase == Phase::Running,
    ensures
        exit_code_spec(Some(code)) == code,
        next(cfg, s, EventSpec::Polled { exited: Some(code), shutdown, now_ms }).0.phase == Phase::Reporting,
        next(cfg, s, EventSpec::Polled { exited: Some(code), shutdown, now_ms }).1
            == complete_spec(s, code, exit_message_spec(code as int)),
{
}

/// Killing a process tracked by its group ends within three steps, and
/// never while a member of the group may be alive: the group gets the
/// terminate signal and the grace period; when both the direct child and
/// every other member have ended by then, the child's code is given; when
/// anything of the group is left, the whole group gets the kill signal and
/// the child is waited for. Only a kill that sent the group the kill signal,
/// or found it gone, is ever done.
pub proof fn lemma_kill_escalates(
    g: i32,
    has_child: bool,
    after_grace: Option<Option<i32>>,
    group_alive: bool,
    reaped: Option<i32>,
)
    ensures
        kill_next(Some(g), has_child, KillEvent::Begin) == (KillAction::TerminateGroup { pgid: g, grace_secs: GRACE_SECS }),
        group_alive || after_grace is None ==> kill_next(
            Some(g),
            has_child,
            KillEvent::GraceOver { status: after_grace, group_alive },
        ) == (KillAction::ForceGroupThenReap { pgid: g }),
        (kill_next(Some(g), has_child, KillEvent::GraceOver { status: after_grace, group_alive }) is Done)
            <==> (!group_alive && after_grace is Some),
        after_grace matches Some(c) ==> (!group_alive ==> kill_next(
            Some(g),
            has_child,
            KillEvent::GraceOver { status: after_grace, group_alive },
        ) == (KillAction::Done { code: exit_code_spec(c) })),
        kill_next(Some(g), has_child, KillEvent::Reaped { status: reaped }) == (KillAction::Done { code: exit_code_spec(reaped) }),
{
}

/// Cancellation requested by the server, or shutdown, makes the loop kill a
/// job that has not ended, and the code that the kill produces is the one
/// reported.
pub proof fn lemma_cancel_kills(cfg: LoopConfig, s: LoopState, shutdown: bool, now_ms: u64, code: i32)
    requires
        s.phase == Phase::Running,
        s.cancel_requested || shutdown,
    ensures
        next(cfg, s, EventSpec::Polled { exited: None, shutdown, now_ms }).1 == ActionSpec::Kill,
        ({
            let t = next(cfg, s, EventSpec::Polled { exited: None, shutdown, now_ms }).0;
            next(cfg, t, EventSpec::Killed { code }).1 == complete_spec(s, code, exit_message_spec(code as int))
        }),
{
}

/// The loop run through checks of a job that keeps running, at the given
/// times, with every renewal answered without cancellation: the final state
/// and the number of renewals issued.
pub open spec fn run_checks(cfg: LoopConfig, s: LoopState, times: Seq<u64>) -> (LoopState, nat)
    decreases times.len(),
{
    if times.len() == 0 {
        (s, 0)
    } else {
        let (s1, a) = next(cfg, s, EventSpec::Polled { exited: None, shutdown: false, now_ms: times[0] });
        if a is Renew {
            let s2 = next(cfg, s1, EventSpec::Renewed { cancel_requested: Some(false) }).0;
            let (s3, n) = run_checks(cfg, s2, times.drop_first());
            (s3, n + 1)
        } else {
            run_checks(cfg, s1, times.drop_first())
        }
    }
}

proof fn lemma_run_checks_pace(cfg: LoopConfig, s: LoopState, start: int, c: int, prev: int, times: Seq<u64>)
    requires
        s.phase == Phase::Running,
        !s.cancel_requested,
        cfg.heartbeat_interval_ms > 0,
        c >= 0,
        s.last_heartbeat_ms == start + c * cfg.heartbeat_interval_ms,
        prev - s.last_heartbeat_ms < cfg.heartbeat_interval_ms,
        times.len() > 0 ==> times[0] - prev < cfg.heartbeat_interval_ms,
        forall|i: int| 0 < i < times.len() ==> #[trigger] times[i] - times[i - 1] < cfg.heartbeat_interval_ms,
    ensures
        ({
            let (t, n) = run_checks(cfg, s, times);
            &&& t.last_heartbeat_ms == start + (c + n) * cfg.heartbeat_interval_ms
            &&& times.len() > 0 ==> times.last() - t.last_heartbeat_ms < cfg.heartbeat_interval_ms
        }),
    decreases times.len(),
{
    if times.len() > 0 {
        let h = cfg.heartbeat_interval_ms as int;
        let rest = times.drop_first();
        let (s1, a) = next(cfg, s, EventSpec::Polled { exited: None, shutdown: false, now_ms: times[0] });
        assert forall|i: int| 0 < i < rest.len() implies #[trigger] rest[i] - rest[i - 1] < h by {
            assert(rest[i] == times[i + 1] && rest[i - 1] == times[i]);
        }
        if a is Renew {
            let s2 = next(cfg, s1, EventSpec::Renewed { cancel_requested: Some(false) }).0;
            assert(s2.last_heartbeat_ms == start + (c + 1) * h) by (nonlinear_arith)
                requires s2.last_heartbeat_ms == s.last_heartbeat_ms + h, s.last_heartbeat_ms == start + c * h;
            lemma_run_checks_pace(cfg, s2, start, c + 1, times[0] as int, rest);
            let (t, n) = run_checks(cfg, s2, rest);
            assert(start + (c + 1 + n) * h == start + (c + (n + 1)) * h);
            if rest.len() == 0 {
                assert(times.last() == times[0]);
            } else {
                assert(times.last() == rest.last());
            }
        } else {
            assert(s1 == s);
            lemma_run_checks_pace(cfg, s, start, c, times[0] as int, rest);
            if rest.len() == 0 {
                assert(times.last() == times[0]);
            } else {
                assert(times.last() == rest.last());
            }
        }
    }
}

/// A job that keeps running gets at least `floor((T - start) / heartbeat_interval)`
/// renewals by the check at time `T`, counted from its start or last
/// heartbeat, whenever no two checks (nor the start and the first check) lie
/// a whole interval apart: no loop can renew between two checks. Each
/// renewal carries the job's id and the configured lease length.
pub proof fn lemma_heartbeat_count(cfg: LoopConfig, s: LoopState, times: Seq<u64>)
    requires
        s.phase == Phase::Running,
        !s.cancel_requested,
        cfg.heartbeat_interval_ms > 0,
        times.len() > 0,
        s.last_heartbeat_ms <= times[0],
        times[0] - s.last_heartbeat_ms < cfg.heartbeat_interval_ms,
        forall|i: int| 0 < i < times.len() ==> times[i - 1] <= #[trigger] times[i],
        forall|i: int| 0 < i < times.len() ==> #[trigger] times[i] - times[i - 1] < cfg.heartbeat_interval_ms,
    ensures
        run_checks(cfg, s, times).1 as int >= (times.last() - s.last_heartbeat_ms) / (cfg.heartbeat_interval_ms as int),
        forall|now_ms: u64| #![auto]
            next(cfg, s, EventSpec::Polled { exited: None, shutdown: false, now_ms }).1 is Renew ==>
            next(cfg, s, EventSpec::Polled { exited: None, shutdown: false, now_ms }).1
                == (ActionSpec::Renew { job_id: s.job_id, lease_seconds: cfg.lease_seconds }),
{
    let h = cfg.heartbeat_interval_ms as int;
    let start = s.last_heartbeat_ms as int;
    lemma_run_checks_pace(cfg, s, start, 0, start, times);
    let n = run_checks(cfg, s, times).1 as int;
    let x = times.last() - start;
    lemma_nondecreasing_from_first(times, times.len() - 1);
    assert(x < (n + 1) * h) by (nonlinear_arith)
        requires times.last() - (start + (0 + n) * h) < h, x == times.last() - start;
    lemma_fundamental_div_mod(x, h);
    lemma_mod_pos_bound(x, h);
    let q = x / h;
    assert(q <= n) by (nonlinear_arith)
        requires x == h * q + x % h, 0 <= x % h, x < (n + 1) * h, h > 0;
}

proof fn lemma_nondecreasing_from_first(times: Seq<u64>, j: int)
    requires
        0 <= j < times.len(),
        forall|i: int| 0 < i < times.len() ==> times[i - 1] <= #[trigger] times[i],
    ensures
        times[j] >= times[0],
    decreases j,
{
    if j > 0 {
        lemma_nondecreasing_from_first(times, j - 1);
    }
}

} // verus!
