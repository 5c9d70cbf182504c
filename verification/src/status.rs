use vstd::prelude::*;

verus! {

/// A snapshot of the supervised worker's lifecycle, as handed to callers.
///
/// A snapshot is produced fresh on every query and is a plain copy: it never
/// grants access to the worker itself.
#[derive(Clone, Copy, Debug, PartialEq, Eq)]
pub struct ServiceStatus {
    pub running: bool,
    pub pid: Option<u32>,
}

impl ServiceStatus {
    /// The shape every reported snapshot keeps: a pid is present exactly
    /// when the worker is reported running.
    pub open spec fn consistent(self) -> bool {
        self.running <==> self.pid is Some
    }

    /// The snapshot of a supervisor that holds no worker.
    pub fn stopped() -> (s: ServiceStatus)
        ensures
            s == (ServiceStatus { running: false, pid: None }),
    {
        ServiceStatus { running: false, pid: None }
    }

    /// The snapshot of a supervisor whose worker runs under `pid`.
    pub fn running_as(pid: u32) -> (s: ServiceStatus)
        ensures
            s == (ServiceStatus { running: true, pid: Some(pid) }),
    {
        ServiceStatus { running: true, pid: Some(pid) }
    }
}

} // verus!
