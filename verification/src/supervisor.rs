use vstd::prelude::*;

use crate::status::ServiceStatus;

verus! {

/// The lifecycle of the one background worker a supervisor may own.
///
/// `Stopped` is both the initial state and the state every failure path
/// returns to. A pid is held exactly in `Running` and `Stopping`, the two
/// states in which an OS process exists (or existed until its exit is
/// confirmed).
#[derive(Clone, Copy, Debug, PartialEq, Eq)]
pub enum SupervisorState {
    Stopped,
    Starting,
    Running { pid: u32 },
    Stopping { pid: u32 },
}

/// What a `start` request decides: hand back the existing worker's snapshot,
/// spawn the one new worker, or refuse because another lifecycle transition
/// is already in flight.
#[derive(Clone, Copy, Debug, PartialEq, Eq)]
pub enum StartDecision {
    AlreadyRunning(ServiceStatus),
    Spawn,
    Conflict,
}

/// What a `stop` request decides: nothing to do, terminate the worker with
/// the given pid and confirm its exit, or refuse because another lifecycle
/// transition is already in flight.
#[derive(Clone, Copy, Debug, PartialEq, Eq)]
pub enum StopDecision {
    AlreadyStopped,
    Terminate(u32),
    Conflict,
}

/// The failures a lifecycle request can surface. `SpawnError` carries the OS
/// error detail verbatim; `ConflictingOperation` reports that a transition
/// was requested while another was in flight, with no state change.
#[derive(Debug, PartialEq, Eq)]
pub enum SupervisorError {
    SpawnError(String),
    ConflictingOperation,
}

impl SupervisorState {
    /// A held pid is a real OS pid: nonzero.
    pub open spec fn wf(self) -> bool {
        &&& self matches SupervisorState::Running { pid } ==> pid > 0
        &&& self matches SupervisorState::Stopping { pid } ==> pid > 0
    }

    /// The snapshot each state answers to a status query. A transition in
    /// flight reports the last settled observation: nothing ran before
    /// `Starting`, and the worker is not yet confirmed gone in `Stopping`.
    pub open spec fn snapshot(self) -> ServiceStatus {
        match self {
            SupervisorState::Stopped => ServiceStatus { running: false, pid: None },
            SupervisorState::Starting => ServiceStatus { running: false, pid: None },
            SupervisorState::Running { pid } => ServiceStatus { running: true, pid: Some(pid) },
            SupervisorState::Stopping { pid } => ServiceStatus { running: true, pid: Some(pid) },
        }
    }

    /// The state after a start request is admitted: only `Stopped` moves, to
    /// `Starting`; every other state is left as it is.
    pub open spec fn after_start_request(self) -> SupervisorState {
        match self {
            SupervisorState::Stopped => SupervisorState::Starting,
            _ => self,
        }
    }

    /// The answer to a start request: spawn from `Stopped`, report the
    /// existing worker from `Running`, refuse while a transition is in
    /// flight.
    pub open spec fn start_response(self) -> StartDecision {
        match self {
            SupervisorState::Stopped => StartDecision::Spawn,
            SupervisorState::Running { pid } => StartDecision::AlreadyRunning(
                ServiceStatus { running: true, pid: Some(pid) },
            ),
            SupervisorState::Starting => StartDecision::Conflict,
            SupervisorState::Stopping { .. } => StartDecision::Conflict,
        }
    }

    /// The state after the one spawn attempt resolves: from `Starting`, a
    /// spawned worker is adopted and a failure falls back to `Stopped`; any
    /// other state is left as it is (no attempt was in flight).
    pub open spec fn after_spawn(self, spawn: Result<u32, String>) -> SupervisorState {
        if self is Starting {
            match spawn {
                Ok(pid) => SupervisorState::Running { pid },
                Err(_) => SupervisorState::Stopped,
            }
        } else {
            self
        }
    }

    /// The answer a resolved spawn attempt earns: the fresh snapshot on
    /// success, the OS detail wrapped as `SpawnError` on failure.
    pub open spec fn spawn_response(self, spawn: Result<u32, String>) -> Result<
        ServiceStatus,
        SupervisorError,
    >
        recommends
            self is Starting,
    {
        match spawn {
            Ok(pid) => Ok(ServiceStatus { running: true, pid: Some(pid) }),
            Err(detail) => Err(SupervisorError::SpawnError(detail)),
        }
    }

    /// The state after a stop request is admitted: only `Running` moves, to
    /// `Stopping`, keeping the pid until the exit is confirmed.
    pub open spec fn after_stop_request(self) -> SupervisorState {
        match self {
            SupervisorState::Running { pid } => SupervisorState::Stopping { pid },
            _ => self,
        }
    }

    /// The answer to a stop request: a no-op from `Stopped`, an order to
    /// terminate the held worker from `Running`, a refusal while a
    /// transition is in flight.
    pub open spec fn stop_response(self) -> StopDecision {
        match self {
            SupervisorState::Stopped => StopDecision::AlreadyStopped,
            SupervisorState::Running { pid } => StopDecision::Terminate(pid),
            SupervisorState::Starting => StopDecision::Conflict,
            SupervisorState::Stopping { .. } => StopDecision::Conflict,
        }
    }

    /// The state after a status poll whose liveness check answered `live`:
    /// a `Running` worker found dead is released at once, `Running` to
    /// `Stopped`; every other state is left as it is (the check only
    /// concerns a held, supposedly live worker).
    pub open spec fn after_status_poll(self, live: bool) -> SupervisorState {
        if self is Running && !live {
            SupervisorState::Stopped
        } else {
            self
        }
    }
}

/// Owns the lifecycle of at most one background worker and answers
/// lifecycle queries.
///
/// The supervisor is the decision half of the design: the embedding program
/// serializes calls (one lifecycle transition in flight at a time), performs
/// the OS work a decision orders, and reports each outcome back through the
/// `finish_*` and `report_status` calls. The worker's pid is held here and
/// handed out only inside plain snapshots; the OS handle itself never enters
/// the supervisor.
pub struct Supervisor {
    state: SupervisorState,
}

impl View for Supervisor {
    type V = SupervisorState;

    closed spec fn view(&self) -> SupervisorState {
        self.state
    }
}

impl Supervisor {
    /// A held pid is a real OS pid; constructors establish this and every
    /// method preserves it.
    pub open spec fn wf(self) -> bool {
        self@.wf()
    }

    /// A fresh supervisor owns no worker.
    pub fn new() -> (s: Supervisor)
        ensures
            s@ == SupervisorState::Stopped,
            s.wf(),
    {
        Supervisor { state: SupervisorState::Stopped }
    }

    /// First half of `start`: decide what the request does. From `Stopped`
    /// the supervisor commits to `Starting` and orders the one spawn; from
    /// `Running` it hands back the existing worker's snapshot unchanged; a
    /// transition already in flight is refused with no state change.
    pub fn begin_start(&mut self) -> (d: StartDecision)
        requires
            old(self).wf(),
        ensures
            final(self).wf(),
            final(self)@ == old(self)@.after_start_request(),
            d == old(self)@.start_response(),
            d is Spawn <==> old(self)@ is Stopped,
            d matches StartDecision::AlreadyRunning(st) ==> {
                &&& final(self)@ == old(self)@
                &&& old(self)@ matches SupervisorState::Running { pid } && st == (ServiceStatus {
                    running: true,
                    pid: Some(pid),
                })
            },
            d is Conflict ==> final(self)@ == old(self)@,
            d is Conflict <==> (old(self)@ is Starting || old(self)@ is Stopping),
    {
        match self.state {
            SupervisorState::Stopped => {
                self.state = SupervisorState::Starting;
                StartDecision::Spawn
            },
            SupervisorState::Running { pid } => StartDecision::AlreadyRunning(
                ServiceStatus::running_as(pid),
            ),
            SupervisorState::Starting => StartDecision::Conflict,
            SupervisorState::Stopping { .. } => StartDecision::Conflict,
        }
    }

    /// Second half of `start`: record how the one ordered spawn attempt
    /// resolved. `spawn` carries the new worker's OS pid (nonzero, as the OS
    /// guarantees of a spawned process) or the OS error detail. Success
    /// adopts the worker; failure returns to `Stopped` and surfaces the
    /// detail verbatim as `SpawnError`.
    pub fn finish_start(&mut self, spawn: Result<u32, String>) -> (r: Result<
        ServiceStatus,
        SupervisorError,
    >)
        requires
            old(self)@ is Starting,
            spawn matches Ok(pid) ==> pid > 0,
        ensures
            final(self).wf(),
            final(self)@ == old(self)@.after_spawn(spawn),
            r == old(self)@.spawn_response(spawn),
            spawn matches Ok(pid) ==> final(self)@ == (SupervisorState::Running { pid }),
            spawn is Err ==> final(self)@ is Stopped,
            r matches Ok(st) ==> st.consistent() && st.running,
    {
        match spawn {
            Ok(pid) => {
                self.state = SupervisorState::Running { pid };
                Ok(ServiceStatus::running_as(pid))
            },
            Err(detail) => {
                self.state = SupervisorState::Stopped;
                Err(SupervisorError::SpawnError(detail))
            },
        }
    }

    /// First half of `stop`: decide what the request does. From `Stopped` it
    /// is a no-op success with no side effect; from `Running` the supervisor
    /// commits to `Stopping` and orders the worker's termination; a
    /// transition already in flight is refused with no state change.
    pub fn begin_stop(&mut self) -> (d: StopDecision)
        requires
            old(self).wf(),
        ensures
            final(self).wf(),
            final(self)@ == old(self)@.after_stop_request(),
            d == old(self)@.stop_response(),
            d is AlreadyStopped <==> old(self)@ is Stopped,
            d is AlreadyStopped ==> final(self)@ == old(self)@,
            d matches StopDecision::Terminate(pid) ==> {
                &&& old(self)@ == (SupervisorState::Running { pid })
                &&& final(self)@ == (SupervisorState::Stopping { pid })
                &&& pid > 0
            },
            d is Conflict ==> final(self)@ == old(self)@,
            d is Conflict <==> (old(self)@ is Starting || old(self)@ is Stopping),
    {
        match self.state {
            SupervisorState::Stopped => StopDecision::AlreadyStopped,
            SupervisorState::Running { pid } => {
                self.state = SupervisorState::Stopping { pid };
                StopDecision::Terminate(pid)
            },
            SupervisorState::Starting => StopDecision::Conflict,
            SupervisorState::Stopping { .. } => StopDecision::Conflict,
        }
    }

    /// Second half of `stop`: called once the ordered termination has
    /// confirmed the worker's exit, graceful or forced. Only now is the pid
    /// released; a stop thus never completes while the worker may still be
    /// alive.
    pub fn finish_stop(&mut self)
        requires
            old(self)@ is Stopping,
        ensures
            final(self)@ is Stopped,
            final(self).wf(),
    {
        self.state = SupervisorState::Stopped;
    }

    /// The pid a status query must liveness-check first: present exactly
    /// when a worker is held as `Running`.
    pub fn probe_target(&self) -> (p: Option<u32>)
        ensures
            self@ matches SupervisorState::Running { pid } ==> p == Some(pid),
            !(self@ is Running) ==> p is None,
    {
        match self.state {
            SupervisorState::Running { pid } => Some(pid),
            _ => None,
        }
    }

    /// Answer a status query, given what the non-blocking liveness check
    /// said of the held worker (`live` is read only in `Running`). A worker
    /// found to have exited on its own is released here: the state moves to
    /// `Stopped` and the snapshot already reports it gone. Every snapshot is
    /// produced fresh from the state it reports.
    pub fn report_status(&mut self, live: bool) -> (st: ServiceStatus)
        requires
            old(self).wf(),
        ensures
            final(self).wf(),
            final(self)@ == old(self)@.after_status_poll(live),
            st == final(self)@.snapshot(),
            st.consistent(),
            old(self)@ is Running && !live ==> final(self)@ is Stopped && st == (ServiceStatus {
                running: false,
                pid: None,
            }),
            old(self)@ is Running && live ==> final(self)@ == old(self)@,
            !(old(self)@ is Running) ==> final(self)@ == old(self)@,
    {
        match self.state {
            SupervisorState::Running { pid } => {
                if live {
                    ServiceStatus::running_as(pid)
                } else {
                    self.state = SupervisorState::Stopped;
                    ServiceStatus::stopped()
                }
            },
            SupervisorState::Stopping { pid } => ServiceStatus::running_as(pid),
            SupervisorState::Stopped => ServiceStatus::stopped(),
            SupervisorState::Starting => ServiceStatus::stopped(),
        }
    }

    /// Whether the supervisor currently owns no worker at all.
    pub fn is_stopped(&self) -> (b: bool)
        ensures
            b == (self@ is Stopped),
    {
        matches!(self.state, SupervisorState::Stopped)
    }

    /// Teardown support: the pid of a worker that may still be alive and
    /// must be force-killed before the application exits. Present exactly
    /// when a worker exists, held as `Running` or not yet confirmed gone in
    /// `Stopping`.
    pub fn shutdown_pid(&self) -> (p: Option<u32>)
        ensures
            self@ matches SupervisorState::Running { pid } ==> p == Some(pid),
            self@ matches SupervisorState::Stopping { pid } ==> p == Some(pid),
            (self@ is Stopped || self@ is Starting) ==> p is None,
    {
        match self.state {
            SupervisorState::Running { pid } => Some(pid),
            SupervisorState::Stopping { pid } => Some(pid),
            _ => None,
        }
    }
}

} // verus!
