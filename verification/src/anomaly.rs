//! Frontend anomaly detection over successive overview snapshots, with per-alert cooldowns.

use vstd::prelude::*;

verus! {

/// Minimum time between two alerts of the same kind, in ms.
pub const COOLDOWN_MS: u64 = 60_000;

/// Visual kind of a toast notification.
#[derive(Clone, Copy, PartialEq, Eq, Debug)]
pub enum ToastKind {
    Success,
    Error,
    Warning,
    Info,
}

impl ToastKind {
    /// CSS classes of a toast of this kind.
    pub fn as_class(self) -> (c: &'static str)
        ensures
            c@ == match self {
                ToastKind::Success => "toast toast-success"@,
                ToastKind::Error => "toast toast-error"@,
                ToastKind::Warning => "toast toast-warning"@,
                ToastKind::Info => "toast toast-info"@,
            },
    {
        match self {
            ToastKind::Success => "toast toast-success",
            ToastKind::Error => "toast toast-error",
            ToastKind::Warning => "toast toast-warning",
            ToastKind::Info => "toast toast-info",
        }
    }
}

/// An anomaly found by comparing the current snapshot with the previous one.
#[derive(Clone, Copy, PartialEq, Eq, Debug)]
pub enum AnomalyKind {
    /// The 5-minute hit rate fell by more than 15 percentage points.
    HitRateDrop,
    /// The 5-minute QPS more than tripled.
    QpsSpike,
    /// The gateway went from healthy to unhealthy.
    HealthLost,
    /// The gateway went from unhealthy to healthy.
    HealthRecovered,
    /// Upstream latency is above 5 s.
    LatencySpike,
}

impl AnomalyKind {
    /// The toast kind an anomaly is shown with.
    pub fn toast_kind(self) -> (k: ToastKind)
        ensures
            k == match self {
                AnomalyKind::HitRateDrop => ToastKind::Warning,
                AnomalyKind::QpsSpike => ToastKind::Warning,
                AnomalyKind::HealthLost => ToastKind::Error,
                AnomalyKind::HealthRecovered => ToastKind::Info,
                AnomalyKind::LatencySpike => ToastKind::Error,
            },
    {
        match self {
            AnomalyKind::HitRateDrop => ToastKind::Warning,
            AnomalyKind::QpsSpike => ToastKind::Warning,
            AnomalyKind::HealthLost => ToastKind::Error,
            AnomalyKind::HealthRecovered => ToastKind::Info,
            AnomalyKind::LatencySpike => ToastKind::Error,
        }
    }
}

/// What a new snapshot shows against the previous one (threshold tests on the metrics).
#[derive(Clone, Copy)]
pub struct MetricChanges {
    /// Previous hit rate above 10% and the drop above 15 points.
    pub hit_rate_dropped: bool,
    /// Previous QPS above 0.5 and the current one above three times it.
    pub qps_spiked: bool,
    /// Current upstream latency above 5000 ms (needs no previous snapshot).
    pub latency_spiked: bool,
}

/// One overview snapshot: the gateway's health plus the compared metrics.
pub struct Snapshot<M> {
    pub metrics: M,
    pub healthy: bool,
}

/// Tracks the previous snapshot and when each kind of alert last fired.
pub struct AnomalyDetector<M> {
    pub prev: Option<Snapshot<M>>,
    pub last_hit_rate_alert: u64,
    pub last_qps_alert: u64,
    pub last_latency_alert: u64,
    pub last_health_alert: u64,
}

/// More than the cooldown has passed since `last` (never when the clock went back).
pub open spec fn cooled_down(now: u64, last: u64) -> bool {
    now >= last && now - last > COOLDOWN_MS
}

/// A hit-rate alert fires: there is a previous snapshot, the drop was seen and its
/// cooldown has passed.
pub open spec fn fires_hit_rate<M>(d: AnomalyDetector<M>, changes: MetricChanges, now: u64) -> bool {
    d.prev is Some && changes.hit_rate_dropped && cooled_down(now, d.last_hit_rate_alert)
}

/// A QPS alert fires.
pub open spec fn fires_qps<M>(d: AnomalyDetector<M>, changes: MetricChanges, now: u64) -> bool {
    d.prev is Some && changes.qps_spiked && cooled_down(now, d.last_qps_alert)
}

/// A health-lost alert fires: healthy before, unhealthy now, health cooldown passed.
pub open spec fn fires_health_lost<M>(d: AnomalyDetector<M>, healthy: bool, now: u64) -> bool {
    d.prev is Some && d.prev->0.healthy && !healthy && cooled_down(now, d.last_health_alert)
}

/// A recovery alert fires: unhealthy before, healthy now, health cooldown passed.
pub open spec fn fires_health_recovered<M>(d: AnomalyDetector<M>, healthy: bool, now: u64) -> bool {
    d.prev is Some && !d.prev->0.healthy && healthy && cooled_down(now, d.last_health_alert)
}

/// A latency alert fires (no previous snapshot needed).
pub open spec fn fires_latency<M>(d: AnomalyDetector<M>, changes: MetricChanges, now: u64) -> bool {
    changes.latency_spiked && cooled_down(now, d.last_latency_alert)
}

/// The anomalies that a check reports, in reporting order.
pub open spec fn reported<M>(
    d: AnomalyDetector<M>,
    healthy: bool,
    changes: MetricChanges,
    now: u64,
) -> Seq<AnomalyKind> {
    let s0 = seq![];
    let s1 = if fires_hit_rate(d, changes, now) { s0.push(AnomalyKind::HitRateDrop) } else { s0 };
    let s2 = if fires_qps(d, changes, now) { s1.push(AnomalyKind::QpsSpike) } else { s1 };
    let s3 = if fires_health_lost(d, healthy, now) {
        s2.push(AnomalyKind::HealthLost)
    } else if fires_health_recovered(d, healthy, now) {
        s2.push(AnomalyKind::HealthRecovered)
    } else {
        s2
    };
    if fires_latency(d, changes, now) {
        s3.push(AnomalyKind::LatencySpike)
    } else {
        s3
    }
}

/// The detector after a check: `curr` becomes the previous snapshot, and each kind that
/// fired restarts its cooldown at `now` (both health alerts share one cooldown).
pub open spec fn after_check<M>(
    d: AnomalyDetector<M>,
    curr: Snapshot<M>,
    changes: MetricChanges,
    now: u64,
) -> AnomalyDetector<M> {
    AnomalyDetector {
        last_hit_rate_alert: if fires_hit_rate(d, changes, now) {
            now
        } else {
            d.last_hit_rate_alert
        },
        last_qps_alert: if fires_qps(d, changes, now) {
            now
        } else {
            d.last_qps_alert
        },
        last_health_alert: if fires_health_lost(d, curr.healthy, now) || fires_health_recovered(
            d,
            curr.healthy,
            now,
        ) {
            now
        } else {
            d.last_health_alert
        },
        last_latency_alert: if fires_latency(d, changes, now) {
            now
        } else {
            d.last_latency_alert
        },
        prev: Some(curr),
    }
}

impl<M> AnomalyDetector<M> {
    pub fn new() -> (d: Self)
        ensures
            d.prev is None,
            d.last_hit_rate_alert == 0,
            d.last_qps_alert == 0,
            d.last_latency_alert == 0,
            d.last_health_alert == 0,
    {
        AnomalyDetector {
            prev: None,
            last_hit_rate_alert: 0,
            last_qps_alert: 0,
            last_latency_alert: 0,
            last_health_alert: 0,
        }
    }

    /// The previous snapshot, to compare the next one against.
    pub fn previous(&self) -> (p: Option<&Snapshot<M>>)
        ensures
            p is Some <==> self.prev is Some,
            p is Some ==> *p->0 == self.prev->0,
    {
        match &self.prev {
            Some(s) => Some(s),
            None => None,
        }
    }

    /// Checks `curr` (at time `now_ms`) against the previous snapshot, returns the
    /// anomalies to report, restarts the cooldown of each reported kind and keeps
    /// `curr` as the previous snapshot.
    pub fn check(&mut self, curr: Snapshot<M>, changes: MetricChanges, now_ms: u64) -> (out: Vec<
        AnomalyKind,
    >)
        ensures
            out@ == reported(*old(self), curr.healthy, changes, now_ms),
            *final(self) == after_check(*old(self), curr, changes, now_ms),
    {
        let ghost d0 = *self;
        let mut out: Vec<AnomalyKind> = Vec::new();
        let mut hit = false;
        let mut qps = false;
        let mut health = false;
        let mut latency = false;
        if let Some(prev) = &self.prev {
            if changes.hit_rate_dropped && now_ms >= self.last_hit_rate_alert && now_ms
                - self.last_hit_rate_alert > COOLDOWN_MS {
                hit = true;
                out.push(AnomalyKind::HitRateDrop);
            }
            if changes.qps_spiked && now_ms >= self.last_qps_alert && now_ms - self.last_qps_alert
                > COOLDOWN_MS {
                qps = true;
                out.push(AnomalyKind::QpsSpike);
            }
            let cooled = now_ms >= self.last_health_alert && now_ms - self.last_health_alert
                > COOLDOWN_MS;
            if prev.healthy && !curr.healthy && cooled {
                health = true;
                out.push(AnomalyKind::HealthLost);
            } else if !prev.healthy && curr.healthy && cooled {
                health = true;
                out.push(AnomalyKind::HealthRecovered);
            }
        }
        if changes.latency_spiked && now_ms >= self.last_latency_alert && now_ms
            - self.last_latency_alert > COOLDOWN_MS {
            latency = true;
            out.push(AnomalyKind::LatencySpike);
        }
        assert(out@ =~= reported(d0, curr.healthy, changes, now_ms));
        if hit {
            self.last_hit_rate_alert = now_ms;
        }
        if qps {
            self.last_qps_alert = now_ms;
        }
        if health {
            self.last_health_alert = now_ms;
        }
        if latency {
            self.last_latency_alert = now_ms;
        }
        self.prev = Some(curr);
        out
    }
}

} // verus!
