//! Per-profile routing view: backend health summary and circuit-breaker badges.

use vstd::prelude::*;

use crate::text::str_eq;

verus! {

/// What the routing view reads of one backend.
pub struct BackendStatus {
    pub healthy: bool,
    pub circuit_state: String,
    pub consecutive_failures: u64,
}

/// Header figures of the routing view.
#[derive(Clone, Copy, PartialEq, Eq, Debug)]
pub struct RoutingSummary {
    /// Backends that pass their health check.
    pub healthy: usize,
    /// All backends.
    pub total: usize,
    /// Backends whose circuit breaker is open.
    pub open: usize,
}

/// Healthy backends.
pub open spec fn healthy_backends(b: Seq<BackendStatus>) -> Seq<BackendStatus> {
    b.filter(|x: BackendStatus| x.healthy)
}

/// Backends with an open circuit.
pub open spec fn open_backends(b: Seq<BackendStatus>) -> Seq<BackendStatus> {
    b.filter(|x: BackendStatus| x.circuit_state@ == "open"@)
}

/// Counts healthy, all and open-circuit backends.
pub fn routing_summary(backends: &[BackendStatus]) -> (s: RoutingSummary)
    ensures
        s.healthy == healthy_backends(backends@).len(),
        s.total == backends@.len(),
        s.open == open_backends(backends@).len(),
{
    let mut healthy: usize = 0;
    let mut open: usize = 0;
    let mut i: usize = 0;
    assert(backends@.take(0) =~= Seq::<BackendStatus>::empty());
    while i < backends.len()
        invariant
            i <= backends.len(),
            healthy == healthy_backends(backends@.take(i as int)).len(),
            open == open_backends(backends@.take(i as int)).len(),
            healthy <= i,
            open <= i,
        decreases backends.len() - i,
    {
        let b = &backends[i];
        proof {
            assert(backends@.take(i + 1) =~= backends@.take(i as int).push(backends@[i as int]));
            backends@.take(i as int).lemma_filter_push(
                backends@[i as int],
                |x: BackendStatus| x.healthy,
            );
            backends@.take(i as int).lemma_filter_push(
                backends@[i as int],
                |x: BackendStatus| x.circuit_state@ == "open"@,
            );
        }
        if b.healthy {
            healthy = healthy + 1;
        }
        if str_eq(b.circuit_state.as_str(), "open") {
            open = open + 1;
        }
        i = i + 1;
    }
    assert(backends@.take(backends.len() as int) =~= backends@);
    RoutingSummary { healthy, total: backends.len(), open }
}

/// CSS class of the healthy/total figure: success only when every backend (of at least
/// one) is healthy.
pub fn summary_class(s: RoutingSummary) -> (c: &'static str)
    ensures
        c@ == if s.healthy == s.total && s.total > 0 { "text-success"@ } else { "text-warning"@ },
{
    if s.healthy == s.total && s.total > 0 {
        "text-success"
    } else {
        "text-warning"
    }
}

/// Badge shown for a circuit-breaker state.
#[derive(Clone, Copy, PartialEq, Eq, Debug)]
pub enum CircuitBadge {
    Closed,
    Open,
    HalfOpen,
    /// Any other state, shown as its raw text.
    Other,
}

/// The badge of a circuit-breaker state (`half_open` and `halfopen` are both half-open).
pub fn circuit_badge(state: &str) -> (b: CircuitBadge)
    ensures
        b == if state@ == "closed"@ {
            CircuitBadge::Closed
        } else if state@ == "open"@ {
            CircuitBadge::Open
        } else if state@ == "half_open"@ || state@ == "halfopen"@ {
            CircuitBadge::HalfOpen
        } else {
            CircuitBadge::Other
        },
{
    if str_eq(state, "closed") {
        CircuitBadge::Closed
    } else if str_eq(state, "open") {
        CircuitBadge::Open
    } else if str_eq(state, "half_open") || str_eq(state, "halfopen") {
        CircuitBadge::HalfOpen
    } else {
        CircuitBadge::Other
    }
}

/// CSS class of the consecutive-failures cell: highlighted when the circuit is not
/// closed and there are failures.
pub fn failure_class(b: &BackendStatus) -> (c: &'static str)
    ensures
        c@ == if b.circuit_state@ != "closed"@ && b.consecutive_failures > 0 {
            "text-error font-medium"@
        } else {
            "text-theme-muted"@
        },
{
    if !str_eq(b.circuit_state.as_str(), "closed") && b.consecutive_failures > 0 {
        "text-error font-medium"
    } else {
        "text-theme-muted"
    }
}

} // verus!
