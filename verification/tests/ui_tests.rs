use crab_dashboard::ui::{
    alert_class, boot_shell_step, format_uptime, minute_bucket_label, plan_badge_class,
    key_test_view, short_account_id, tab_from_query, BootShellStep, KeyTestOutcome, KeyTestView,
};

const TABS: [(&str, usize); 3] = [("overview", 0), ("keys", 1), ("logs", 2)];

#[test]
fn tab_is_read_from_the_query_string() {
    assert_eq!(tab_from_query("?tab=keys", &TABS), Some(1));
    assert_eq!(tab_from_query("?foo=1&tab=logs&tab=keys", &TABS), Some(2));
    assert_eq!(tab_from_query("tab=overview", &TABS), Some(0));
    assert_eq!(tab_from_query("??tab=keys", &TABS), Some(1));
    assert_eq!(tab_from_query("?tab=unknown", &TABS), None);
    assert_eq!(tab_from_query("", &TABS), None);
    assert_eq!(tab_from_query("?tabs=keys", &TABS), None);
}

#[test]
fn alert_classes() {
    assert_eq!(alert_class("success"), "alert alert-success");
    assert_eq!(alert_class("warning"), "alert alert-warning");
    assert_eq!(alert_class("error"), "alert alert-error");
    assert_eq!(alert_class("whatever"), "alert alert-info");
}

#[test]
fn uptime_in_largest_unit() {
    assert_eq!(format_uptime(0), "0s");
    assert_eq!(format_uptime(59), "59s");
    assert_eq!(format_uptime(60), "1m");
    assert_eq!(format_uptime(3_599), "59m");
    assert_eq!(format_uptime(3_600), "1h");
    assert_eq!(format_uptime(86_399), "23h");
    assert_eq!(format_uptime(3 * 86_400 + 5), "3d");
}

#[test]
fn minute_labels() {
    assert_eq!(minute_bucket_label(0), "t+0m");
    assert_eq!(minute_bucket_label(59_999), "t+0m");
    assert_eq!(minute_bucket_label(600_000), "t+10m");
}

#[test]
fn account_ids_are_shortened() {
    assert_eq!(short_account_id("  "), "default");
    assert_eq!(short_account_id("default"), "default");
    assert_eq!(short_account_id(" acct-123 "), "acct-123");
    assert_eq!(short_account_id("abcdefghijkl"), "abcdefghijkl");
    assert_eq!(short_account_id("abcdefghijklmnop"), "abcdefgh\u{2026}mnop");
}

#[test]
fn plan_badges_ignore_case() {
    assert_eq!(plan_badge_class("Plus"), "badge badge-accent");
    assert_eq!(plan_badge_class("PRO"), "badge badge-accent");
    assert_eq!(plan_badge_class("team"), "badge badge-accent");
    assert_eq!(plan_badge_class("Free"), "badge");
    assert_eq!(plan_badge_class("enterprise"), "badge badge-muted");
}

#[test]
fn boot_shell_steps() {
    assert_eq!(boot_shell_step(true, 5), BootShellStep::Remove);
    assert_eq!(boot_shell_step(false, 0), BootShellStep::Retry(1));
    assert_eq!(boot_shell_step(false, 299), BootShellStep::Retry(300));
    assert_eq!(boot_shell_step(false, 300), BootShellStep::GiveUp);
}

fn outcome(ok: bool, error: Option<&str>, model_count: Option<u64>) -> Option<KeyTestOutcome> {
    Some(KeyTestOutcome { ok, error: error.map(|e| e.to_string()), latency_ms: 120, model_count })
}

#[test]
fn key_test_lines() {
    assert!(matches!(key_test_view(true, outcome(true, None, None), true), KeyTestView::Testing));
    match key_test_view(false, outcome(true, Some("401 Unauthorized"), None), true) {
        KeyTestView::Error(e) => assert_eq!(e, "401 Unauthorized"),
        _ => panic!("expected an error line"),
    }
    match key_test_view(false, outcome(true, None, Some(12)), false) {
        KeyTestView::Passed { latency_ms, detail } => {
            assert_eq!(latency_ms, 120);
            assert_eq!(detail, " \u{b7} 12 models");
        }
        _ => panic!("expected a pass"),
    }
    match key_test_view(false, outcome(true, None, None), true) {
        KeyTestView::Passed { detail, .. } => assert_eq!(detail, ""),
        _ => panic!("expected a pass"),
    }
    assert!(matches!(key_test_view(false, outcome(false, None, None), true), KeyTestView::Failed));
    assert!(matches!(key_test_view(false, None, false), KeyTestView::Disabled));
    assert!(matches!(key_test_view(false, None, true), KeyTestView::Hidden));
}
