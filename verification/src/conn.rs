//! The connection manager's lifecycle policy.
//!
//! The process owns exactly one backend connection, created lazily on first
//! use under a mutual-exclusion lock and held for the process lifetime. The
//! binary owns the lock and the driver; this module fixes the decisions:
//! which configuration is complete, what a lock acquisition must lead to,
//! and what a connection attempt's result means for the process.

use vstd::prelude::*;

use crate::resilience::FatalError;

verus! {

/// The three credentials a backend connection is built from.
#[derive(Debug, PartialEq)]
pub struct DbConfig {
    pub address: String,
    pub username: String,
    pub password: String,
}

/// The connection's two-state lifecycle.
#[derive(Clone, Copy, Debug, PartialEq, Eq)]
pub enum ConnState {
    /// No connection has been built yet.
    Uninitialized,
    /// The one connection of this process is live.
    Active,
}

/// What taking the connection lock reported.
#[derive(Clone, Copy, Debug, PartialEq, Eq)]
pub enum LockOutcome {
    /// The lock was taken cleanly.
    Acquired,
    /// A prior holder ended abnormally while holding the lock.
    Poisoned,
}

/// What the lock holder must do next.
#[derive(Clone, Copy, Debug, PartialEq, Eq)]
pub enum AcquireStep {
    /// Build the connection now: this is the first use.
    Connect,
    /// Use the connection that already exists.
    Reuse,
}

/// Validate the startup configuration: all three credentials must be
/// present, and any absence is fatal.
pub fn check_config(
    address: Option<String>,
    username: Option<String>,
    password: Option<String>,
) -> (r: Result<DbConfig, FatalError>)
    ensures
        match r {
            Ok(c) => {
                &&& address matches Some(a) && c.address == a
                &&& username matches Some(u) && c.username == u
                &&& password matches Some(p) && c.password == p
            },
            Err(e) => e == FatalError::MissingConfig && (address is None || username is None
                || password is None),
        },
{
    match (address, username, password) {
        (Some(address), Some(username), Some(password)) => Ok(
            DbConfig { address, username, password },
        ),
        _ => Err(FatalError::MissingConfig),
    }
}

/// Decide what acquiring the connection lock leads to: a poisoned lock is
/// fatal; otherwise the first acquisition builds the connection and every
/// later one reuses it.
pub fn plan_acquire(state: &ConnState, lock: &LockOutcome) -> (r: Result<AcquireStep, FatalError>)
    ensures
        *lock is Poisoned ==> (r matches Err(e) && e == FatalError::LockPoisoned),
        *lock is Acquired && *state is Uninitialized ==> (r matches Ok(step) && step
            is Connect),
        *lock is Acquired && *state is Active ==> (r matches Ok(step) && step is Reuse),
{
    match lock {
        LockOutcome::Poisoned => Err(FatalError::LockPoisoned),
        LockOutcome::Acquired => match state {
            ConnState::Uninitialized => Ok(AcquireStep::Connect),
            ConnState::Active => Ok(AcquireStep::Reuse),
        },
    }
}

/// Interpret the first connection attempt: success makes the connection
/// active for the process lifetime; failure at startup is fatal.
pub fn after_connect(connected: bool) -> (r: Result<ConnState, FatalError>)
    ensures
        connected ==> (r matches Ok(state) && state is Active),
        !connected ==> (r matches Err(e) && e == FatalError::ConnectFailed),
{
    if connected {
        Ok(ConnState::Active)
    } else {
        Err(FatalError::ConnectFailed)
    }
}

} // verus!
