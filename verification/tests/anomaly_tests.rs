use crab_dashboard::anomaly::{
    AnomalyDetector, AnomalyKind, MetricChanges, Snapshot, ToastKind, COOLDOWN_MS,
};

fn snap(healthy: bool) -> Snapshot<u32> {
    Snapshot { metrics: 0, healthy }
}

fn changes(hit: bool, qps: bool, latency: bool) -> MetricChanges {
    MetricChanges { hit_rate_dropped: hit, qps_spiked: qps, latency_spiked: latency }
}

#[test]
fn first_check_only_reports_latency() {
    let mut d: AnomalyDetector<u32> = AnomalyDetector::new();
    let out = d.check(snap(false), changes(true, true, true), 1_000_000);
    assert_eq!(out, vec![AnomalyKind::LatencySpike]);
    assert!(d.previous().is_some());
}

#[test]
fn anomalies_are_reported_in_order_and_cooled_down() {
    let mut d: AnomalyDetector<u32> = AnomalyDetector::new();
    let t0 = 10_000_000u64;
    d.check(snap(true), changes(false, false, false), t0);
    let out = d.check(snap(false), changes(true, true, true), t0 + 1);
    assert_eq!(
        out,
        vec![
            AnomalyKind::HitRateDrop,
            AnomalyKind::QpsSpike,
            AnomalyKind::HealthLost,
            AnomalyKind::LatencySpike
        ]
    );
    // Within the cooldown nothing repeats, recovery included (shared health cooldown).
    let out = d.check(snap(true), changes(true, true, true), t0 + 1 + COOLDOWN_MS);
    assert_eq!(out, Vec::<AnomalyKind>::new());
    // Once the cooldown has passed, alerts fire again.
    let out = d.check(snap(false), changes(true, false, false), t0 + 2 + COOLDOWN_MS);
    assert_eq!(out, vec![AnomalyKind::HitRateDrop, AnomalyKind::HealthLost]);
}

#[test]
fn recovery_is_reported() {
    let mut d: AnomalyDetector<u32> = AnomalyDetector::new();
    d.check(snap(false), changes(false, false, false), 5_000_000);
    let out = d.check(snap(true), changes(false, false, false), 5_000_010);
    assert_eq!(out, vec![AnomalyKind::HealthRecovered]);
}

#[test]
fn toast_kinds_and_classes() {
    assert_eq!(AnomalyKind::HitRateDrop.toast_kind(), ToastKind::Warning);
    assert_eq!(AnomalyKind::QpsSpike.toast_kind(), ToastKind::Warning);
    assert_eq!(AnomalyKind::HealthLost.toast_kind(), ToastKind::Error);
    assert_eq!(AnomalyKind::HealthRecovered.toast_kind(), ToastKind::Info);
    assert_eq!(AnomalyKind::LatencySpike.toast_kind(), ToastKind::Error);
    assert_eq!(ToastKind::Success.as_class(), "toast toast-success");
    assert_eq!(ToastKind::Info.as_class(), "toast toast-info");
}
