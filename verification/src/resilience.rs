//! The process-wide failure policy.
//!
//! Any unrecoverable condition — missing startup configuration, a failed
//! initial connection, a poisoned connection lock, or a backend that reports
//! the connection lost mid-query — must end the process with a non-zero
//! status, so that an external supervisor restarts it with a fresh
//! connection. The binary performs the exit; this module fixes which
//! conditions are fatal and which status they exit with.

use vstd::prelude::*;

verus! {

/// An unrecoverable condition: the process must stop serving and exit.
#[derive(Clone, Copy, Debug, PartialEq, Eq)]
pub enum FatalError {
    /// A required configuration value was absent at startup.
    MissingConfig,
    /// The first connection to the backend could not be established.
    ConnectFailed,
    /// The connection lock was poisoned by a holder that ended abnormally.
    LockPoisoned,
    /// The backend reported the connection lost while a query ran.
    ConnectionLost,
}

/// The process exit status for a fatal condition: always 1, never the
/// graceful status 0.
pub fn fatal_exit_code(_e: &FatalError) -> (r: i32)
    ensures
        r == 1,
{
    1
}

/// A log-ready description of the fatal condition.
pub fn fatal_message(e: &FatalError) -> (r: String)
    ensures
        *e is MissingConfig ==> r@ == "missing required configuration"@,
        *e is ConnectFailed ==> r@ == "initial connection failed"@,
        *e is LockPoisoned ==> r@ == "connection lock poisoned"@,
        *e is ConnectionLost ==> r@ == "connection lost"@,
{
    match e {
        FatalError::MissingConfig => "missing required configuration".to_owned(),
        FatalError::ConnectFailed => "initial connection failed".to_owned(),
        FatalError::LockPoisoned => "connection lock poisoned".to_owned(),
        FatalError::ConnectionLost => "connection lost".to_owned(),
    }
}

} // verus!
