use crab_dashboard::api::{
    admin_key_check, capture_list_url, capture_stats_url, composition_debug_url,
    composition_summary_url, delete_domain_policy, detect_models_url, events_url,
    http_error_from_parts, http_error_message, if_none_match, infra_timeseries_url,
    live_consumers_url, live_metrics_url, logs_url, models_url, overview_core_step,
    overview_timeseries_url, speed_test_upload_url, trace_analysis_url, upsert_domain_policy,
    CoreResponseStep, DomainPolicy, LogsFilterQuery,
};
use crab_dashboard::url::percent_encode_query;

#[test]
fn percent_encoding_keeps_unreserved_and_escapes_the_rest() {
    assert_eq!(percent_encode_query("abc-XYZ_0.9~"), "abc-XYZ_0.9~");
    assert_eq!(percent_encode_query("a b&c=d"), "a%20b%26c%3Dd");
    assert_eq!(percent_encode_query("é"), "%C3%A9");
    assert_eq!(percent_encode_query("/?#"), "%2F%3F%23");
    assert_eq!(percent_encode_query(""), "");
}

#[test]
fn live_and_overview_urls() {
    assert_eq!(
        live_metrics_url("team a", 300),
        "/api/admin/live-metrics?consumer=team%20a&window_secs=300&bucket_secs=5"
    );
    assert_eq!(live_consumers_url(60), "/api/admin/live-metrics/consumers?window_secs=60");
    assert_eq!(overview_timeseries_url("24h"), "/api/admin/overview/timeseries?window=24h");
    assert!(trace_analysis_url(6).ends_with("?hours=6"));
    assert_eq!(capture_stats_url(12), "/api/admin/capture/stats?hours=12");
}

#[test]
fn optional_query_parameters_are_skipped_when_empty() {
    assert_eq!(
        composition_summary_url(24, Some("p 1"), Some("")),
        "/api/admin/composition/summary?hours=24&project_id=p%201"
    );
    assert_eq!(
        composition_summary_url(1, None, Some("c")),
        "/api/admin/composition/summary?hours=1&consumer=c"
    );
    assert_eq!(
        composition_debug_url(2, Some(50), Some("h#1"), None),
        "/api/admin/composition/debug?hours=2&request_hash=h%231&limit=50"
    );
    assert_eq!(
        capture_list_url(3, Some(10), Some("c"), None, Some("rh")),
        "/api/admin/capture/list?hours=3&limit=10&consumer=c&request_hash=rh"
    );
    assert_eq!(capture_list_url(3, None, None, None, None), "/api/admin/capture/list?hours=3");
    assert_eq!(
        infra_timeseries_url("1h", Some("abc/def")),
        "/api/admin/infra/timeseries?window=1h&container_id=abc%2Fdef"
    );
    assert_eq!(infra_timeseries_url("1h", Some("")), "/api/admin/infra/timeseries?window=1h");
}

#[test]
fn encoded_identifier_urls() {
    assert_eq!(
        speed_test_upload_url("job 1", "t+k"),
        "/api/admin/infra/speed-test/upload?job_id=job%201&token=t%2Bk"
    );
    assert_eq!(detect_models_url("my profile"), "/api/admin/models/detect?profile_id=my%20profile");
    assert_eq!(models_url(Some("a/b")), "/api/admin/models?profile_id=a%2Fb");
    assert_eq!(models_url(None), "/api/admin/models");
    assert_eq!(events_url("k=1&2"), "/api/admin/events?key=k%3D1%262");
    assert_eq!(events_url(""), "/api/admin/events?key=");
}

fn empty_query() -> LogsFilterQuery {
    LogsFilterQuery {
        limit: None,
        cursor: None,
        model: None,
        consumer: None,
        cache_tier: None,
        request_hash: None,
        latency_min: None,
        latency_max: None,
        token_min: None,
        token_max: None,
    }
}

#[test]
fn logs_url_without_filters_has_no_query() {
    assert_eq!(logs_url(&empty_query()), "/api/admin/logs");
}

#[test]
fn logs_url_with_filters_in_fixed_order() {
    let mut q = empty_query();
    q.limit = Some(50);
    q.model = Some("deepseek v4".to_string());
    q.consumer = Some(String::new());
    q.latency_min = Some(100);
    q.token_max = Some(9000);
    assert_eq!(
        logs_url(&q),
        "/api/admin/logs?limit=50&model=deepseek%20v4&latency_min=100&token_max=9000"
    );
}

#[test]
fn http_error_texts() {
    assert_eq!(http_error_from_parts(401, "{\"error\":\"x\"}", Some("x".to_string())), "unauthorized");
    assert_eq!(http_error_from_parts(500, "raw", Some("boom".to_string())), "boom");
    assert_eq!(http_error_from_parts(500, "raw body", None), "raw body");
    assert_eq!(http_error_from_parts(503, "", None), "HTTP 503");
}

#[test]
fn http_error_message_reads_the_json_error_member() {
    assert_eq!(http_error_message(401, "anything"), "unauthorized");
    assert_eq!(http_error_message(400, "{\"error\":\"bad window\"}"), "bad window");
    assert_eq!(http_error_message(400, "{\"error\":42}"), "{\"error\":42}");
    assert_eq!(http_error_message(500, "not json"), "not json");
    assert_eq!(http_error_message(404, ""), "HTTP 404");
}

#[test]
fn admin_key_check_outcomes() {
    assert_eq!(admin_key_check(401), Err("invalid_admin_key".to_string()));
    assert_eq!(admin_key_check(304), Ok(()));
    assert_eq!(admin_key_check(200), Ok(()));
    assert_eq!(admin_key_check(204), Ok(()));
    assert_eq!(admin_key_check(500), Err("HTTP 500".to_string()));
    assert_eq!(admin_key_check(302), Err("HTTP 302".to_string()));
}

#[test]
fn overview_core_status_steps() {
    assert!(matches!(overview_core_step(304), CoreResponseStep::NotModified));
    assert!(matches!(overview_core_step(200), CoreResponseStep::Parse));
    assert!(matches!(overview_core_step(500), CoreResponseStep::Failed));
    assert_eq!(if_none_match(""), None);
    assert_eq!(if_none_match("W/\"abc\""), Some("W/\"abc\""));
}

fn policy(domain: &str, settings: u32) -> DomainPolicy<u32> {
    DomainPolicy { domain: domain.to_string(), settings }
}

fn pairs(list: &[DomainPolicy<u32>]) -> Vec<(String, u32)> {
    list.iter().map(|p| (p.domain.clone(), p.settings)).collect()
}

#[test]
fn upsert_replaces_first_match_or_appends() {
    let list = vec![policy("a.com", 1), policy("b.com", 2), policy("a.com", 3)];
    let out = upsert_domain_policy(list, policy("a.com", 9));
    assert_eq!(
        pairs(&out),
        vec![("a.com".to_string(), 9), ("b.com".to_string(), 2), ("a.com".to_string(), 3)]
    );
    let out = upsert_domain_policy(out, policy("c.com", 4));
    assert_eq!(pairs(&out).last().unwrap(), &("c.com".to_string(), 4));
    assert_eq!(out.len(), 4);
}

#[test]
fn delete_removes_every_policy_of_the_domain() {
    let list = vec![policy("a.com", 1), policy("b.com", 2), policy("a.com", 3)];
    let out = delete_domain_policy(list, "a.com");
    assert_eq!(pairs(&out), vec![("b.com".to_string(), 2)]);
    let out = delete_domain_policy(out, "zzz");
    assert_eq!(pairs(&out), vec![("b.com".to_string(), 2)]);
}

#[test]
fn delete_after_upsert_equals_delete() {
    let list = vec![policy("a.com", 1), policy("b.com", 2)];
    let direct = delete_domain_policy(
        vec![policy("a.com", 1), policy("b.com", 2)],
        "a.com",
    );
    let after = delete_domain_policy(upsert_domain_policy(list, policy("a.com", 7)), "a.com");
    assert_eq!(pairs(&direct), pairs(&after));
}

fn decode(s: &str) -> Vec<u8> {
    let b = s.as_bytes();
    let mut out = Vec::new();
    let mut i = 0;
    while i < b.len() {
        if b[i] == b'%' {
            out.push(u8::from_str_radix(&s[i + 1..i + 3], 16).unwrap());
            i += 3;
        } else {
            out.push(b[i]);
            i += 1;
        }
    }
    out
}

#[test]
fn percent_encoding_round_trips() {
    assert_eq!(percent_encode_query("a b&c=\u{fc}~"), "a%20b%26c%3D%C3%BC~");
    for s in ["a b&c=\u{fc}~", "", "%%", "中文/?#", "plain-._~"] {
        let e = percent_encode_query(s);
        assert_eq!(decode(&e), s.as_bytes());
        assert!(e.chars().all(|c| c.is_ascii_alphanumeric() || "-_.~%".contains(c)));
    }
}
