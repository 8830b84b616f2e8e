//! The session supervisor's decision rules: connection retry policy,
//! keepalive cadence, and the two-stage shutdown protocol.
//!
//! The first shutdown signal asks each session to terminate gracefully
//! by placing a terminate request on the observer's queue; the second
//! signal, arriving before the first completes, aborts outright; a
//! further signal forces the process to exit with a distinguishing
//! status.

use vstd::prelude::*;
use crate::observer::ObserverReactionModel;
use crate::observer::PrivateMessageRequest;
use crate::observer::PrivateMessageRequestModel;
use crate::observer::spec_on_private_request;

verus! {

/// How many connection attempts a session makes in patient (service)
/// mode before giving up.
pub const SYSTEMD_MODE_RETRIES_TIMES: u32 = 3;

/// Seconds to wait between connection attempts in patient mode.
pub const CONNECT_RETRY_DELAY_SECS: u64 = 10;

/// Seconds between keepalive requests on the private-message queue.
pub const KEEPALIVE_INTERVAL_SECS: u64 = 30;

/// The process exit status of a forced termination.
pub const FORCE_EXIT_CODE: i32 = 137;

/// How many connection attempts a session may make: several in patient
/// mode, exactly one otherwise.
pub fn connection_retries(systemd_mode: bool) -> (r: u32)
    ensures
        systemd_mode ==> r == SYSTEMD_MODE_RETRIES_TIMES,
        !systemd_mode ==> r == 1,
        r >= 1,
{
    if systemd_mode {
        SYSTEMD_MODE_RETRIES_TIMES
    } else {
        1
    }
}

/// Whether a failed connection attempt is retried: only in patient
/// mode, and only while attempts remain.
pub fn should_retry_connect(systemd_mode: bool, attempts_made: u32) -> (r: bool)
    ensures
        r == (systemd_mode && attempts_made < SYSTEMD_MODE_RETRIES_TIMES),
{
    systemd_mode && attempts_made < SYSTEMD_MODE_RETRIES_TIMES
}

/// Where the shutdown protocol stands.
#[derive(Copy, Clone, Debug, PartialEq, Eq, Structural)]
pub enum ShutdownStage {
    /// No signal seen; sessions run.
    Running,
    /// One signal seen; graceful termination requested.
    Graceful,
    /// A second signal seen; the process must end now.
    Forced,
}

/// What a shutdown signal triggers.
#[derive(Copy, Clone, Debug, PartialEq, Eq, Structural)]
pub enum ShutdownAction {
    /// Put a terminate request on every session's observer queue.
    EmitTerminate,
    /// Abort: exit the process with the forced status.
    ForceExit,
}

/// The escalation rule: the first signal requests graceful
/// termination, every further signal forces an exit.
pub open spec fn spec_on_shutdown_signal(s: ShutdownStage) -> (ShutdownStage, ShutdownAction) {
    match s {
        ShutdownStage::Running => (ShutdownStage::Graceful, ShutdownAction::EmitTerminate),
        ShutdownStage::Graceful => (ShutdownStage::Forced, ShutdownAction::ForceExit),
        ShutdownStage::Forced => (ShutdownStage::Forced, ShutdownAction::ForceExit),
    }
}

/// Advances the shutdown protocol by one signal.
pub fn on_shutdown_signal(stage: ShutdownStage) -> (r: (ShutdownStage, ShutdownAction))
    ensures
        r == spec_on_shutdown_signal(stage),
{
    match stage {
        ShutdownStage::Running => (ShutdownStage::Graceful, ShutdownAction::EmitTerminate),
        ShutdownStage::Graceful => (ShutdownStage::Forced, ShutdownAction::ForceExit),
        ShutdownStage::Forced => (ShutdownStage::Forced, ShutdownAction::ForceExit),
    }
}

/// The request the graceful stage places on each observer queue.
pub fn terminate_request() -> (r: PrivateMessageRequest)
    ensures
        r@ == PrivateMessageRequestModel::Terminate,
{
    PrivateMessageRequest::Terminate
}

/// The request the keepalive timer places on each observer queue.
pub fn keepalive_request() -> (r: PrivateMessageRequest)
    ensures
        r@ == PrivateMessageRequestModel::KeepAlive,
{
    PrivateMessageRequest::KeepAlive
}

/// Shutdown escalation: one signal turns into a terminate request on
/// the observer queue, which the observer answers by logging out and
/// leaving its loop; a second signal, sent before the first completes,
/// forces an exit, never a hang.
pub proof fn lemma_shutdown_escalation()
    ensures
        spec_on_shutdown_signal(ShutdownStage::Running) == (
            ShutdownStage::Graceful,
            ShutdownAction::EmitTerminate,
        ),
        spec_on_private_request(PrivateMessageRequestModel::Terminate)
            == ObserverReactionModel::Shutdown,
        spec_on_shutdown_signal(ShutdownStage::Graceful).1 == ShutdownAction::ForceExit,
{
}

} // verus!
