//! Readiness status: how the two per-tick liveness booleans are combined,
//! which HTTP status codes count as a live service, and the message shown
//! while a service is still pending.

use vstd::prelude::*;

verus! {

/// The readiness of the two services on one polling tick, derived fresh each
/// tick from the two probe booleans and nothing else.
#[derive(Clone, Copy, PartialEq, Eq, Structural, Debug)]
pub enum ReadinessStatus {
    /// Neither service answered its probe.
    BothPending,
    /// Only the backend answered its probe.
    BackendOnly,
    /// Only the frontend answered its probe.
    FrontendOnly,
    /// Both services answered their probes.
    BothReady,
}

/// The status that a pair of probe outcomes denotes.
pub open spec fn spec_status(backend_ready: bool, frontend_ready: bool) -> ReadinessStatus {
    if backend_ready && frontend_ready {
        ReadinessStatus::BothReady
    } else if backend_ready {
        ReadinessStatus::BackendOnly
    } else if frontend_ready {
        ReadinessStatus::FrontendOnly
    } else {
        ReadinessStatus::BothPending
    }
}

/// Combine the two probe outcomes of one tick into a `ReadinessStatus`.
///
/// The result is a function of the two booleans alone: no earlier tick and no
/// attempt count enters into it.
pub fn readiness_status(backend_ready: bool, frontend_ready: bool) -> (r: ReadinessStatus)
    ensures
        r == spec_status(backend_ready, frontend_ready),
{
    if backend_ready && frontend_ready {
        ReadinessStatus::BothReady
    } else if backend_ready {
        ReadinessStatus::BackendOnly
    } else if frontend_ready {
        ReadinessStatus::FrontendOnly
    } else {
        ReadinessStatus::BothPending
    }
}

/// Whether an HTTP status code reports a live service: any successful or
/// redirection class response (200 through 399) counts, anything else does
/// not. Connection errors and timeouts never reach this point; the probe
/// folds them into `false` before any code is seen.
pub fn is_probe_success(code: u16) -> (r: bool)
    ensures
        r == (200 <= code && code < 400),
{
    200 <= code && code < 400
}

/// The message shown to the consumer while at least one service is pending.
/// `BothReady` carries no pending message: the readiness gate emits `Ready` instead.
pub fn status_message(status: ReadinessStatus) -> (r: Option<&'static str>)
    ensures
        r is None <==> status is BothReady,
        status is BackendOnly ==> (r matches Some(m) && m@ == "Waiting for frontend..."@),
        status is FrontendOnly ==> (r matches Some(m) && m@ == "Waiting for backend..."@),
        status is BothPending ==> (r matches Some(m) && m@ == "Starting services..."@),
{
    match status {
        ReadinessStatus::BothReady => None,
        ReadinessStatus::BackendOnly => Some("Waiting for frontend..."),
        ReadinessStatus::FrontendOnly => Some("Waiting for backend..."),
        ReadinessStatus::BothPending => Some("Starting services..."),
    }
}

} // verus!
