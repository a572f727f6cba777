use crab_dashboard::chart::{
    hover_after_key, hover_key, hover_on_focus, phase_label, trend_points, x_tick_indices, HoverKey,
};

#[test]
fn x_tick_indices_includes_last() {
    let idx = x_tick_indices(24, 8);
    assert_eq!(*idx.last().unwrap(), 23);
}

#[test]
fn x_tick_indices_exact_values() {
    assert_eq!(x_tick_indices(24, 8), vec![0, 3, 6, 9, 12, 15, 18, 21, 23]);
    assert_eq!(x_tick_indices(5, 8), vec![0, 1, 2, 3, 4]);
    assert_eq!(x_tick_indices(0, 8), Vec::<usize>::new());
    assert_eq!(x_tick_indices(10, 3), vec![0, 3, 6, 9]);
    assert_eq!(x_tick_indices(11, 3), vec![0, 3, 6, 9, 10]);
}

#[test]
fn phase_label_known_and_fallback() {
    assert_eq!(phase_label("body_read_done"), "Body Read");
    assert_eq!(phase_label("upstream_headers_sent"), "TLS Handshake");
    assert_eq!(phase_label("ttft"), "TTFT");
    assert_eq!(phase_label("auth_check_done"), "AuthCheck");
    assert_eq!(phase_label("route_start"), "Route");
    assert_eq!(phase_label("queue_wait"), "QueueWait");
}

#[test]
fn trend_points_prefers_daily() {
    let daily = vec![1, 2];
    let hourly = vec![3];
    assert_eq!(trend_points(&daily, &hourly), &[1, 2]);
    let empty: Vec<i32> = vec![];
    assert_eq!(trend_points(&empty, &hourly), &[3]);
}

#[test]
fn hover_keyboard_navigation() {
    assert_eq!(hover_after_key(Some(3), 5, HoverKey::ArrowLeft), Some(2));
    assert_eq!(hover_after_key(Some(0), 5, HoverKey::ArrowLeft), Some(0));
    assert_eq!(hover_after_key(None, 5, HoverKey::ArrowLeft), Some(4));
    assert_eq!(hover_after_key(Some(3), 5, HoverKey::ArrowRight), Some(4));
    assert_eq!(hover_after_key(Some(4), 5, HoverKey::ArrowRight), Some(4));
    assert_eq!(hover_after_key(None, 5, HoverKey::ArrowRight), Some(0));
    assert_eq!(hover_after_key(Some(2), 5, HoverKey::Escape), None);
    assert_eq!(hover_after_key(Some(2), 5, HoverKey::Other), Some(2));
    assert_eq!(hover_after_key(Some(2), 0, HoverKey::Escape), Some(2));
    assert_eq!(hover_after_key(None, 0, HoverKey::ArrowLeft), None);
    assert_eq!(hover_key("ArrowLeft"), HoverKey::ArrowLeft);
    assert_eq!(hover_key("ArrowRight"), HoverKey::ArrowRight);
    assert_eq!(hover_key("Escape"), HoverKey::Escape);
    assert_eq!(hover_key("Enter"), HoverKey::Other);
    assert_eq!(hover_on_focus(None, true), Some(0));
    assert_eq!(hover_on_focus(Some(3), true), Some(3));
    assert_eq!(hover_on_focus(None, false), None);
}
