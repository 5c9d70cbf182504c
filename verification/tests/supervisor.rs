use service_supervisor::status::ServiceStatus;
use service_supervisor::supervisor::{
    StartDecision, StopDecision, Supervisor, SupervisorError,
};

fn started(sup: &mut Supervisor, pid: u32) -> ServiceStatus {
    assert!(matches!(sup.begin_start(), StartDecision::Spawn));
    sup.finish_start(Ok(pid)).expect("spawn outcome was Ok")
}

#[test]
fn fresh_supervisor_is_stopped() {
    let mut sup = Supervisor::new();
    assert!(sup.is_stopped());
    let st = sup.report_status(true);
    assert_eq!(st, ServiceStatus { running: false, pid: None });
    assert_eq!(sup.probe_target(), None);
    assert_eq!(sup.shutdown_pid(), None);
}

#[test]
fn start_status_stop_status_round_trip() {
    let mut sup = Supervisor::new();

    let st = started(&mut sup, 4321);
    assert!(st.running);
    assert_eq!(st.pid, Some(4321));
    assert!(st.pid.unwrap() > 0);

    assert_eq!(sup.probe_target(), Some(4321));
    let st2 = sup.report_status(true);
    assert_eq!(st2, st);

    assert_eq!(sup.begin_stop(), StopDecision::Terminate(4321));
    sup.finish_stop();
    assert!(sup.is_stopped());

    let st3 = sup.report_status(true);
    assert_eq!(st3, ServiceStatus { running: false, pid: None });
}

#[test]
fn every_reported_snapshot_is_consistent() {
    let mut sup = Supervisor::new();
    let mut seen: Vec<ServiceStatus> = Vec::new();

    seen.push(sup.report_status(true));
    assert!(matches!(sup.begin_start(), StartDecision::Spawn));
    seen.push(sup.report_status(true));
    seen.push(sup.finish_start(Ok(11)).unwrap());
    seen.push(sup.report_status(true));
    assert!(matches!(sup.begin_stop(), StopDecision::Terminate(11)));
    seen.push(sup.report_status(true));
    sup.finish_stop();
    seen.push(sup.report_status(false));

    for st in seen {
        assert_eq!(st.running, st.pid.is_some());
        if let Some(p) = st.pid {
            assert!(p > 0);
        }
    }
}

#[test]
fn start_when_running_returns_existing_pid_unchanged() {
    let mut sup = Supervisor::new();
    let st = started(&mut sup, 900);

    match sup.begin_start() {
        StartDecision::AlreadyRunning(again) => assert_eq!(again, st),
        other => panic!("expected AlreadyRunning, got {:?}", other),
    }
    // No second spawn was ordered and nothing changed.
    assert_eq!(sup.probe_target(), Some(900));
    assert_eq!(sup.report_status(true), st);
}

#[test]
fn stop_when_stopped_succeeds_without_side_effects() {
    let mut sup = Supervisor::new();
    assert_eq!(sup.begin_stop(), StopDecision::AlreadyStopped);
    assert!(sup.is_stopped());
    assert_eq!(sup.report_status(true), ServiceStatus { running: false, pid: None });
}

#[test]
fn status_after_stop_reports_not_running() {
    let mut sup = Supervisor::new();
    started(&mut sup, 77);
    assert_eq!(sup.begin_stop(), StopDecision::Terminate(77));
    sup.finish_stop();

    // Whatever a liveness check might have answered, the worker is reported
    // gone on every later poll.
    for live in [true, false] {
        let st = sup.report_status(live);
        assert_eq!(st, ServiceStatus { running: false, pid: None });
    }
}

#[test]
fn self_exit_observed_by_next_status_poll() {
    let mut sup = Supervisor::new();
    started(&mut sup, 55);

    // The worker exited on its own: the liveness check answers false.
    let st = sup.report_status(false);
    assert_eq!(st, ServiceStatus { running: false, pid: None });
    assert!(sup.is_stopped());

    // The supervisor is back in its initial state: a new start is accepted.
    assert!(matches!(sup.begin_start(), StartDecision::Spawn));
}

#[test]
fn racing_starts_spawn_exactly_once() {
    let mut sup = Supervisor::new();

    // Two start requests race; the serialization point admits them one at a
    // time. The first is ordered to spawn ...
    assert!(matches!(sup.begin_start(), StartDecision::Spawn));
    // ... and the loser, admitted while that spawn is in flight, is refused.
    assert!(matches!(sup.begin_start(), StartDecision::Conflict));

    // The one ordered spawn resolves; exactly one worker exists.
    let st = sup.finish_start(Ok(8)).unwrap();
    assert_eq!(st.pid, Some(8));
    assert_eq!(sup.probe_target(), Some(8));
}

#[test]
fn stop_conflicts_while_start_in_flight() {
    let mut sup = Supervisor::new();
    assert!(matches!(sup.begin_start(), StartDecision::Spawn));
    assert_eq!(sup.begin_stop(), StopDecision::Conflict);
    // The refusal changed nothing: the spawn still resolves normally.
    let st = sup.finish_start(Ok(3)).unwrap();
    assert_eq!(st.pid, Some(3));
}

#[test]
fn start_conflicts_while_stop_in_flight() {
    let mut sup = Supervisor::new();
    started(&mut sup, 12);
    assert_eq!(sup.begin_stop(), StopDecision::Terminate(12));
    assert!(matches!(sup.begin_start(), StartDecision::Conflict));
    assert_eq!(sup.begin_stop(), StopDecision::Conflict);
    sup.finish_stop();
    assert!(sup.is_stopped());
}

#[test]
fn spawn_failure_surfaces_detail_and_returns_to_stopped() {
    let mut sup = Supervisor::new();
    assert!(matches!(sup.begin_start(), StartDecision::Spawn));

    // The spawn of a deliberately invalid executable failed with an OS
    // detail; it is surfaced verbatim.
    let detail = String::from("No such file or directory (os error 2)");
    let r = sup.finish_start(Err(detail.clone()));
    match r {
        Err(SupervisorError::SpawnError(d)) => assert_eq!(d, detail),
        other => panic!("expected SpawnError, got {:?}", other),
    }

    // The supervisor fell back to Stopped and reports accordingly.
    assert!(sup.is_stopped());
    assert_eq!(sup.report_status(true), ServiceStatus { running: false, pid: None });
    // It is usable again.
    assert!(matches!(sup.begin_start(), StartDecision::Spawn));
}

#[test]
fn status_during_starting_reports_last_known_stopped() {
    let mut sup = Supervisor::new();
    assert!(matches!(sup.begin_start(), StartDecision::Spawn));
    // The transition is in flight; the poll does not block on it and hands
    // out the last settled observation.
    let st = sup.report_status(true);
    assert_eq!(st, ServiceStatus { running: false, pid: None });
    assert_eq!(sup.probe_target(), None);
}

#[test]
fn status_during_stopping_reports_last_known_running() {
    let mut sup = Supervisor::new();
    started(&mut sup, 64);
    assert_eq!(sup.begin_stop(), StopDecision::Terminate(64));
    // Exit is not yet confirmed: the worker is still reported, but no
    // liveness probe is ordered for it.
    let st = sup.report_status(true);
    assert_eq!(st, ServiceStatus { running: true, pid: Some(64) });
    assert_eq!(sup.probe_target(), None);
}

#[test]
fn shutdown_pid_follows_worker_existence() {
    let mut sup = Supervisor::new();
    assert_eq!(sup.shutdown_pid(), None);

    assert!(matches!(sup.begin_start(), StartDecision::Spawn));
    assert_eq!(sup.shutdown_pid(), None);

    sup.finish_start(Ok(31)).unwrap();
    assert_eq!(sup.shutdown_pid(), Some(31));

    assert_eq!(sup.begin_stop(), StopDecision::Terminate(31));
    // Not yet confirmed gone: teardown would still have to force-kill it.
    assert_eq!(sup.shutdown_pid(), Some(31));

    sup.finish_stop();
    assert_eq!(sup.shutdown_pid(), None);
}

#[test]
fn status_snapshot_constructors() {
    let st = ServiceStatus::stopped();
    assert_eq!(st, ServiceStatus { running: false, pid: None });
    let st = ServiceStatus::running_as(5);
    assert_eq!(st, ServiceStatus { running: true, pid: Some(5) });
}

#[test]
fn conflicting_operation_is_its_own_error() {
    assert_ne!(
        SupervisorError::ConflictingOperation,
        SupervisorError::SpawnError(String::from("boom"))
    );
}
