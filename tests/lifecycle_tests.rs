use whirr_worker::lifecycle::{Action, Event, LoopConfig, LoopState, Phase, TICK_MS};
use whirr_worker::process::on_interrupt;
use whirr_worker::process::InterruptAction;

fn cfg() -> LoopConfig {
    LoopConfig { poll_interval_ms: 5000, heartbeat_interval_ms: 30000, lease_seconds: 60 }
}

fn feed(s: &mut LoopState, e: Event) -> Action {
    assert!(s.accepts(&e));
    let (n, a) = s.step(&cfg(), e);
    *s = n;
    a
}

/// Brings a fresh loop to a running job with the given id, started at `t0`.
fn running(job_id: i64, t0: u64) -> LoopState {
    let mut s = LoopState::initial();
    assert!(matches!(feed(&mut s, Event::Wake { shutdown: false }), Action::Claim { lease_seconds: 60 }));
    match feed(&mut s, Event::GotJob { job_id }) {
        Action::PrepareRun { job_id: j, run_id } => {
            assert_eq!(j, job_id);
            assert_eq!(run_id, format!("job-{}", job_id));
        }
        other => panic!("unexpected {:?}", other),
    }
    assert!(matches!(feed(&mut s, Event::RunDirReady), Action::Start));
    assert!(matches!(feed(&mut s, Event::Started { now_ms: t0 }), Action::CheckExit));
    assert_eq!(s.phase, Phase::Running);
    s
}

#[test]
fn claim_without_job_keeps_state() {
    let mut s = LoopState::initial();
    let before = s;
    assert!(matches!(feed(&mut s, Event::Wake { shutdown: false }), Action::Claim { .. }));
    assert!(matches!(feed(&mut s, Event::NoJob), Action::Sleep { ms: 5000 }));
    assert_eq!(s, before);
    assert!(matches!(feed(&mut s, Event::ClaimFailed), Action::Sleep { ms: 5000 }));
    assert_eq!(s, before);
}

#[test]
fn shutdown_while_polling_stops() {
    let mut s = LoopState::initial();
    assert!(matches!(feed(&mut s, Event::Wake { shutdown: true }), Action::Stop));
    assert_eq!(s.phase, Phase::Stopped);
    assert!(!s.accepts(&Event::Wake { shutdown: false }));
}

#[test]
fn natural_exit_code_is_reported() {
    let mut s = running(5, 1000);
    match feed(&mut s, Event::Polled { exited: Some(7), shutdown: false, now_ms: 1500 }) {
        Action::Complete { job_id, exit_code, run_id, error_message } => {
            assert_eq!(job_id, 5);
            assert_eq!(exit_code, 7);
            assert_eq!(run_id, "job-5");
            assert_eq!(error_message, Some("Exit code: 7".to_string()));
        }
        other => panic!("unexpected {:?}", other),
    }
    assert!(matches!(feed(&mut s, Event::Reported { shutdown: false }), Action::Claim { lease_seconds: 60 }));
    assert_eq!(s.phase, Phase::Polling);
}

#[test]
fn quick_success_makes_no_renewal() {
    let mut s = running(11, 0);
    let mut renews = 0;
    let mut completes = 0;
    let mut now = 0;
    let mut exited = None;
    loop {
        now += TICK_MS;
        if now >= 10000 {
            exited = Some(0);
        }
        let a = feed(&mut s, Event::Polled { exited, shutdown: false, now_ms: now });
        match a {
            Action::Sleep { ms } => {
                assert_eq!(ms, TICK_MS);
                assert!(matches!(feed(&mut s, Event::Wake { shutdown: false }), Action::CheckExit));
            }
            Action::Renew { .. } => renews += 1,
            Action::Complete { exit_code, error_message, .. } => {
                completes += 1;
                assert_eq!(exit_code, 0);
                assert_eq!(error_message, None);
                break;
            }
            other => panic!("unexpected {:?}", other),
        }
    }
    assert_eq!(renews, 0);
    assert_eq!(completes, 1);
}

#[test]
fn renewals_follow_heartbeat_interval() {
    let mut s = running(3, 0);
    let mut renews = 0;
    let mut now: u64 = 0;
    while now < 95000 {
        now += TICK_MS;
        match feed(&mut s, Event::Polled { exited: None, shutdown: false, now_ms: now }) {
            Action::Renew { job_id, lease_seconds } => {
                assert_eq!(job_id, 3);
                assert_eq!(lease_seconds, 60);
                renews += 1;
                assert!(matches!(feed(&mut s, Event::Renewed { cancel_requested: Some(false) }), Action::Sleep { .. }));
            }
            Action::Sleep { .. } => {}
            other => panic!("unexpected {:?}", other),
        }
        assert!(matches!(feed(&mut s, Event::Wake { shutdown: false }), Action::CheckExit));
    }
    assert!(renews >= 95000 / 30000);
    assert_eq!(renews, 3);
}

#[test]
fn failed_renewal_keeps_running() {
    let mut s = running(3, 0);
    assert!(matches!(feed(&mut s, Event::Polled { exited: None, shutdown: false, now_ms: 30000 }), Action::Renew { .. }));
    assert!(matches!(feed(&mut s, Event::Renewed { cancel_requested: None }), Action::Sleep { .. }));
    assert!(!s.cancel_requested);
    assert_eq!(s.last_heartbeat_ms, 30000);
    assert_eq!(s.phase, Phase::Running);
}

#[test]
fn slow_renewal_does_not_delay_the_next() {
    let mut s = running(3, 0);
    assert!(matches!(feed(&mut s, Event::Polled { exited: None, shutdown: false, now_ms: 30000 }), Action::Renew { .. }));
    // the renewal takes twenty seconds to come back
    assert!(matches!(feed(&mut s, Event::Renewed { cancel_requested: Some(false) }), Action::Sleep { .. }));
    assert!(matches!(feed(&mut s, Event::Wake { shutdown: false }), Action::CheckExit));
    assert!(matches!(feed(&mut s, Event::Polled { exited: None, shutdown: false, now_ms: 50000 }), Action::Sleep { .. }));
    assert!(matches!(feed(&mut s, Event::Wake { shutdown: false }), Action::CheckExit));
    assert!(matches!(feed(&mut s, Event::Polled { exited: None, shutdown: false, now_ms: 60000 }), Action::Renew { job_id: 3, lease_seconds: 60 }));
}

#[test]
fn cancellation_kills_and_reports_kill_code() {
    let mut s = running(8, 0);
    assert!(matches!(feed(&mut s, Event::Polled { exited: None, shutdown: false, now_ms: 30000 }), Action::Renew { .. }));
    assert!(matches!(feed(&mut s, Event::Renewed { cancel_requested: Some(true) }), Action::Sleep { .. }));
    assert!(matches!(feed(&mut s, Event::Wake { shutdown: false }), Action::CheckExit));
    assert!(matches!(feed(&mut s, Event::Polled { exited: None, shutdown: false, now_ms: 30500 }), Action::Kill));
    match feed(&mut s, Event::Killed { code: -1 }) {
        Action::Complete { job_id, exit_code, run_id, error_message } => {
            assert_eq!(job_id, 8);
            assert_eq!(exit_code, -1);
            assert_eq!(run_id, "job-8");
            assert_eq!(error_message, Some("Exit code: -1".to_string()));
        }
        other => panic!("unexpected {:?}", other),
    }
    assert!(matches!(feed(&mut s, Event::Reported { shutdown: false }), Action::Claim { .. }));
}

#[test]
fn two_interrupts_during_job() {
    let mut s = running(4, 0);
    let mut flag = false;
    assert_eq!(on_interrupt(flag), InterruptAction::RequestShutdown);
    flag = true;
    assert!(matches!(feed(&mut s, Event::Polled { exited: None, shutdown: flag, now_ms: 200 }), Action::Kill));
    match feed(&mut s, Event::Killed { code: 143 }) {
        Action::Complete { exit_code, .. } => assert_eq!(exit_code, 143),
        other => panic!("unexpected {:?}", other),
    }
    assert_eq!(on_interrupt(flag), InterruptAction::ForceExit);
    assert!(matches!(feed(&mut s, Event::Reported { shutdown: flag }), Action::Stop));
    assert_eq!(s.phase, Phase::Stopped);
}

#[test]
fn setup_failures_report_code_one() {
    let mut s = LoopState::initial();
    feed(&mut s, Event::GotJob { job_id: 2 });
    match feed(&mut s, Event::RunDirFailed { message: "permission denied".to_string() }) {
        Action::Complete { exit_code, error_message, run_id, .. } => {
            assert_eq!(exit_code, 1);
            assert_eq!(run_id, "job-2");
            assert_eq!(error_message, Some("permission denied".to_string()));
        }
        other => panic!("unexpected {:?}", other),
    }
    assert!(matches!(feed(&mut s, Event::Reported { shutdown: false }), Action::Claim { .. }));
    feed(&mut s, Event::GotJob { job_id: 6 });
    feed(&mut s, Event::RunDirReady);
    match feed(&mut s, Event::StartFailed { message: "Empty command".to_string() }) {
        Action::Complete { exit_code, error_message, job_id, .. } => {
            assert_eq!(job_id, 6);
            assert_eq!(exit_code, 1);
            assert_eq!(error_message, Some("Empty command".to_string()));
        }
        other => panic!("unexpected {:?}", other),
    }
}

#[test]
fn late_checks_do_not_lose_renewals() {
    let cfg = LoopConfig { poll_interval_ms: 5000, heartbeat_interval_ms: 1000, lease_seconds: 10 };
    let mut s = running(21, 0);
    let mut renews = Vec::new();
    for now in [750u64, 1500, 2250, 3000] {
        let e = Event::Polled { exited: None, shutdown: false, now_ms: now };
        assert!(s.accepts(&e));
        let (n, a) = s.step(&cfg, e);
        s = n;
        if let Action::Renew { job_id, lease_seconds } = a {
            assert_eq!((job_id, lease_seconds), (21, 10));
            renews.push(now);
            let (n, a) = s.step(&cfg, Event::Renewed { cancel_requested: Some(false) });
            s = n;
            assert!(matches!(a, Action::Sleep { .. }));
        }
        let (n, a) = s.step(&cfg, Event::Wake { shutdown: false });
        s = n;
        assert!(matches!(a, Action::CheckExit));
    }
    assert_eq!(renews, vec![1500, 2250, 3000]);
    assert_eq!(s.last_heartbeat_ms, 3000);
}
