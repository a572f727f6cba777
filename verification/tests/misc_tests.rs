use crab_dashboard::clipboard::{copy_text, CopyAction};
use crab_dashboard::gpu::GpuLineRenderer;
use crab_dashboard::heatmap::{build_matrix, find_bucket_for_cell, matrix_max, PeakHourRow};
use crab_dashboard::locale::{Locale, Translations};
use crab_dashboard::oauth::{
    device_poll_interval, device_poll_step, pkce_confirm, pkce_exchange_outcome, pkce_poll_step, pkce_started_status,
    poll_loop_step, poll_request_failed, FlowStatus, LoopStep, PollStep,
};
use crab_dashboard::particles::{lcg_bits, lcg_next, sampled_crab_indices};
use crab_dashboard::routing::{
    circuit_badge, failure_class, routing_summary, summary_class, BackendStatus, CircuitBadge,
    RoutingSummary,
};
use crab_dashboard::theme::{
    get_color_str, palette_for, resolve_series_color, ChartPalette, Rgb, Theme,
};

fn backend(healthy: bool, state: &str, failures: u64) -> BackendStatus {
    BackendStatus { healthy, circuit_state: state.to_string(), consecutive_failures: failures }
}

#[test]
fn routing_summary_counts() {
    let b = vec![backend(true, "closed", 0), backend(false, "open", 3), backend(true, "half_open", 1)];
    let s = routing_summary(&b);
    assert_eq!(s, RoutingSummary { healthy: 2, total: 3, open: 1 });
    assert_eq!(summary_class(s), "text-warning");
    assert_eq!(summary_class(RoutingSummary { healthy: 2, total: 2, open: 0 }), "text-success");
    assert_eq!(summary_class(RoutingSummary { healthy: 0, total: 0, open: 0 }), "text-warning");
    assert_eq!(failure_class(&b[1]), "text-error font-medium");
    assert_eq!(failure_class(&b[0]), "text-theme-muted");
    assert_eq!(failure_class(&backend(true, "open", 0)), "text-theme-muted");
}

#[test]
fn circuit_badges() {
    assert_eq!(circuit_badge("closed"), CircuitBadge::Closed);
    assert_eq!(circuit_badge("open"), CircuitBadge::Open);
    assert_eq!(circuit_badge("half_open"), CircuitBadge::HalfOpen);
    assert_eq!(circuit_badge("halfopen"), CircuitBadge::HalfOpen);
    assert_eq!(circuit_badge("Open"), CircuitBadge::Other);
}

#[test]
fn device_code_poll_steps() {
    assert!(matches!(device_poll_step("pending", None, 5), PollStep::Wait(5000)));
    assert!(matches!(device_poll_step("completed", None, 5), PollStep::Complete));
    match device_poll_step("failed", Some("denied".to_string()), 5) {
        PollStep::Finish(FlowStatus::Failed, Some(e)) => assert_eq!(e, "denied"),
        _ => panic!("expected failure"),
    }
    assert!(matches!(device_poll_step("expired", None, 5), PollStep::Finish(FlowStatus::Expired, None)));
    match device_poll_step("weird", None, 5) {
        PollStep::Finish(FlowStatus::Failed, Some(e)) => assert_eq!(e, "Unknown status: weird"),
        _ => panic!("expected failure"),
    }
}

#[test]
fn device_poll_interval_is_at_least_three_seconds() {
    assert_eq!(device_poll_interval(0), 3);
    assert_eq!(device_poll_interval(3), 3);
    assert_eq!(device_poll_interval(10), 10);
}

#[test]
fn pkce_flow_steps() {
    assert!(matches!(pkce_poll_step("pending", None), PollStep::Wait(3000)));
    assert!(matches!(pkce_poll_step("completed", None), PollStep::Complete));
    match pkce_poll_step("failed", None) {
        PollStep::Finish(FlowStatus::Failed, Some(e)) => assert_eq!(e, "Login failed"),
        _ => panic!("expected failure"),
    }
    match pkce_poll_step("expired", Some("too late".to_string())) {
        PollStep::Finish(FlowStatus::Expired, Some(e)) => assert_eq!(e, "too late"),
        _ => panic!("expected expiry"),
    }
    assert_eq!(pkce_started_status("auto"), FlowStatus::Polling);
    assert_eq!(pkce_started_status("manual"), FlowStatus::WaitingPaste);
    assert_eq!(pkce_confirm(""), Err("Please paste the callback URL".to_string()));
    assert_eq!(pkce_confirm("http://localhost/cb?code=1"), Ok(FlowStatus::Exchanging));
    assert_eq!(pkce_exchange_outcome("completed", None), Ok(()));
    assert_eq!(pkce_exchange_outcome("failed", None), Err("Exchange failed".to_string()));
    assert_eq!(pkce_exchange_outcome("failed", Some("bad code".to_string())), Err("bad code".to_string()));
    assert_eq!(poll_loop_step(FlowStatus::Polling, true), LoopStep::Poll);
    assert_eq!(poll_loop_step(FlowStatus::Polling, false), LoopStep::Idle);
    assert_eq!(poll_loop_step(FlowStatus::Completed, true), LoopStep::Idle);
    assert_eq!(FlowStatus::WaitingPaste.as_str(), "waiting_paste");
    match poll_request_failed("Network error: offline".to_string()) {
        PollStep::Finish(FlowStatus::Failed, Some(e)) => assert_eq!(e, "Network error: offline"),
        _ => panic!("expected failure"),
    }
}

#[test]
fn copy_strategy() {
    assert_eq!(copy_text("", None, None), CopyAction::Report(false));
    assert_eq!(copy_text("", Some(true), Some(true)), CopyAction::Report(false));
    assert_eq!(copy_text("x", None, None), CopyAction::ExecCommand);
    assert_eq!(copy_text("x", Some(true), None), CopyAction::Report(true));
    assert_eq!(copy_text("x", Some(false), None), CopyAction::Navigator);
    assert_eq!(copy_text("x", Some(false), Some(true)), CopyAction::Report(true));
    assert_eq!(copy_text("x", Some(false), Some(false)), CopyAction::Report(false));
}

#[test]
fn gpu_renderer_readiness() {
    let mut r = GpuLineRenderer::new();
    assert!(!r.ready);
    assert_eq!(r.render_line(0, 3), Err("empty line draw request".to_string()));
    assert!(!r.ready);
    assert_eq!(r.render_line(5, 1), Ok(()));
    assert!(r.ready);
    assert!(!GpuLineRenderer::default().ready);
}

#[test]
fn crab_sampling_and_generator() {
    assert_eq!(sampled_crab_indices(7), vec![0, 2, 4, 5, 6]);
    assert_eq!(sampled_crab_indices(1), vec![0]);
    assert_eq!(sampled_crab_indices(0), Vec::<usize>::new());
    assert_eq!(lcg_next(42), 42u32.wrapping_mul(1664525).wrapping_add(1013904223));
    assert_eq!(lcg_next(0), 1013904223);
    assert_eq!(lcg_bits(0xABCD_EF12), 0x00AB_CDEF);
}

#[test]
fn theme_palettes_and_series_colors() {
    let dark = ChartPalette::for_theme(Theme::Dark, Theme::Light);
    assert_eq!(dark.bg, Rgb(0x16, 0x1b, 0x22));
    assert_eq!(ChartPalette::for_theme(Theme::System, Theme::Dark), dark);
    let light = ChartPalette::for_theme(Theme::Light, Theme::Dark);
    assert_eq!(resolve_series_color("var(--cc-info)", &light), light.info);
    assert_eq!(resolve_series_color("var(--tier-miss)", &light), light.tier_miss);
    assert_eq!(resolve_series_color("#123456", &light), light.accent);
    let p = palette_for(Theme::Ocean);
    assert_eq!(p.primary, "rgba(61, 184, 201, 1.0)");
    assert_eq!(get_color_str(0, &p), p.primary);
    assert_eq!(get_color_str(5, &p), "rgba(61, 184, 201, 0.45)");
    assert_eq!(palette_for(Theme::Sand).clear, palette_for(Theme::Light).clear);
}

fn peak(model: &str, bucket: i64, count: u64, day: usize, hour: usize) -> PeakHourRow {
    PeakHourRow { model: model.to_string(), hour_bucket: bucket, request_count: count, day, hour }
}

#[test]
fn heatmap_matrix_sums_cells_of_the_model() {
    let rows = vec![
        peak("m", 100, 5, 0, 3),
        peak("m", 200, 2, 0, 3),
        peak("x", 300, 100, 0, 3),
        peak("m", 400, 1, 6, 23),
    ];
    let m = build_matrix(&rows, "m");
    assert_eq!(m[0][3], 7);
    assert_eq!(m[6][23], 1);
    assert_eq!(m[1][1], 0);
    assert_eq!(matrix_max(&m), 7);
    assert_eq!(matrix_max(&[[0u64; 24]; 7]), 1);
    assert_eq!(find_bucket_for_cell(&rows, "m", 0, 3), vec![100, 200]);
    assert_eq!(find_bucket_for_cell(&rows, "m", 2, 2), Vec::<i64>::new());
}

#[test]
fn locale_strings_and_toggle() {
    let zh = Translations { locale: Locale::ZhCN };
    let en = Translations { locale: Locale::EnUS };
    assert_eq!(zh.sidebar_overview(), "概览");
    assert_eq!(en.sidebar_overview(), "Overview");
    assert_eq!(en.keys_col_rpm(), "RPM");
    assert_eq!(Translations::sidebar_brand(), "CrabCache");
    assert_eq!(en.routing_key_pool_summary(3, 5), "Key Pool: 3/5 available");
    assert_eq!(zh.routing_key_pool_summary(3, 5), "Key 池: 3/5 可用");
    assert_eq!(zh.routing_last_check(12), "12s 前");
    assert_eq!(en.routing_latency_ms(250), "250ms");
    assert_eq!(
        en.overview_history_meta(120, 3600),
        "Metrics ring: 120 samples, oldest ~3600s ago (persisted via SQLite)"
    );
    assert_eq!(Locale::ZhCN.next(), Locale::EnUS);
    assert_eq!(Locale::EnUS.next().next(), Locale::EnUS);
    assert_eq!(Locale::ZhCN.label(), "中文");
}
