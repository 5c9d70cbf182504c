use vstd::prelude::*;

use crate::status::ServiceStatus;
use crate::supervisor::{StartDecision, StopDecision, SupervisorState};

verus! {

/// Every snapshot the supervisor can report carries a pid exactly when it
/// reports the worker running — in every state, and so after every sequence
/// of calls.
pub proof fn lemma_snapshot_consistent(s: SupervisorState)
    ensures
        s.snapshot().consistent(),
{
}

/// A start issued while the worker is already running changes nothing and
/// hands back the existing pid unchanged: no second worker is spawned.
pub proof fn lemma_start_when_running_is_idempotent(pid: u32)
    ensures
        (SupervisorState::Running { pid }).after_start_request() == (SupervisorState::Running {
            pid,
        }),
        (SupervisorState::Running { pid }).start_response() == StartDecision::AlreadyRunning(
            ServiceStatus { running: true, pid: Some(pid) },
        ),
{
}

/// A stop issued while already stopped succeeds with no side effect.
pub proof fn lemma_stop_when_stopped_is_noop()
    ensures
        SupervisorState::Stopped.after_stop_request() == SupervisorState::Stopped,
        SupervisorState::Stopped.stop_response() == StopDecision::AlreadyStopped,
{
}

/// Once a stop has completed — the state is back to `Stopped` — every later
/// status poll reports the worker not running and without a pid, whatever
/// the liveness check would have said.
pub proof fn lemma_status_after_stop(s: SupervisorState, live: bool)
    requires
        s is Stopped,
    ensures
        s.after_status_poll(live) == s,
        !s.after_status_poll(live).snapshot().running,
        s.after_status_poll(live).snapshot().pid is None,
{
}

/// A worker that exited on its own is observed by the next status poll: the
/// snapshot reports it not running and the supervisor is left in `Stopped`.
pub proof fn lemma_crash_observed_on_next_poll(pid: u32)
    ensures
        (SupervisorState::Running { pid }).after_status_poll(false) == SupervisorState::Stopped,
        (SupervisorState::Running { pid }).after_status_poll(false).snapshot() == (ServiceStatus {
            running: false,
            pid: None,
        }),
{
}

/// Of two start requests racing from `Stopped`, the one serialized first is
/// ordered to spawn and the second is refused with no further state change:
/// exactly one worker is ever spawned.
pub proof fn lemma_racing_starts_spawn_once()
    ensures
        SupervisorState::Stopped.start_response() == StartDecision::Spawn,
        SupervisorState::Stopped.after_start_request() == SupervisorState::Starting,
        SupervisorState::Starting.start_response() == StartDecision::Conflict,
        SupervisorState::Starting.after_start_request() == SupervisorState::Starting,
{
}

/// One entry in a history of supervisor calls, together with the outside
/// outcome it carried: the spawn result a completed start reported, or the
/// liveness answer a status poll obtained.
pub enum Call {
    StartRequest,
    SpawnResolved(Result<u32, String>),
    StopRequest,
    StopConfirmed,
    StatusPoll(bool),
}

/// The state transition each call performs. A confirmation that arrives
/// with no matching transition in flight changes nothing.
pub open spec fn call_step(s: SupervisorState, c: Call) -> SupervisorState {
    match c {
        Call::StartRequest => s.after_start_request(),
        Call::SpawnResolved(r) => s.after_spawn(r),
        Call::StopRequest => s.after_stop_request(),
        Call::StopConfirmed => if s is Stopping {
            SupervisorState::Stopped
        } else {
            s
        },
        Call::StatusPoll(live) => s.after_status_poll(live),
    }
}

/// The state a whole history of calls leads to.
pub open spec fn run_calls(s: SupervisorState, cs: Seq<Call>) -> SupervisorState
    decreases cs.len(),
{
    if cs.len() == 0 {
        s
    } else {
        run_calls(call_step(s, cs[0]), cs.drop_first())
    }
}

/// A call reports only real OS pids: a resolved spawn carries a nonzero pid.
pub open spec fn call_reports_real_pid(c: Call) -> bool {
    match c {
        Call::SpawnResolved(r) => r matches Ok(pid) ==> pid > 0,
        _ => true,
    }
}

/// One call preserves well-formedness: a supervisor that holds only real
/// pids still does after any single request, confirmation or poll.
pub proof fn lemma_step_preserves_wf(s: SupervisorState, c: Call)
    requires
        s.wf(),
        call_reports_real_pid(c),
    ensures
        call_step(s, c).wf(),
{
}

/// Well-formedness survives every history: whatever sequence of start, stop
/// and status calls is made, the supervisor only ever holds real pids, so
/// every pid it reports is a real one.
pub proof fn lemma_history_preserves_wf(s: SupervisorState, cs: Seq<Call>)
    requires
        s.wf(),
        forall|i: int| 0 <= i < cs.len() ==> call_reports_real_pid(#[trigger] cs[i]),
    ensures
        run_calls(s, cs).wf(),
    decreases cs.len(),
{
    if cs.len() > 0 {
        lemma_step_preserves_wf(s, cs[0]);
        assert forall|i: int| 0 <= i < cs.drop_first().len() implies call_reports_real_pid(
            #[trigger] cs.drop_first()[i],
        ) by {
            assert(cs.drop_first()[i] == cs[i + 1]);
        }
        lemma_history_preserves_wf(call_step(s, cs[0]), cs.drop_first());
    }
}

/// A well-formed supervisor that reports the worker running always reports
/// a real (nonzero) pid with it.
pub proof fn lemma_running_snapshot_has_real_pid(s: SupervisorState)
    requires
        s.wf(),
    ensures
        s.snapshot().running ==> (s.snapshot().pid matches Some(pid) && pid > 0),
{
}

} // verus!
