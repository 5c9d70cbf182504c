//! Supervisor for one long-lived background worker process.
//!
//! The library is the decision core of a service supervisor: it owns the
//! lifecycle state of at most one background worker, answers `start`, `stop`
//! and `status` requests, and guarantees that at most one worker is ever
//! associated with it. The OS-level work (spawning, signalling, waiting) is
//! performed by the embedding program, which reports each outcome back; every
//! state transition and every reported snapshot is decided here, under a
//! verified contract.

pub mod laws;
pub mod status;
pub mod supervisor;
