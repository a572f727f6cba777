//! Admin API: request URLs, response-status decisions and error messages.

use vstd::prelude::*;
use vstd::string::StringExecFns;

use crate::text::{decimal, push_char, push_decimal, push_str};
use crate::url::{percent_encoded, push_percent_encoded, url_encode};

verus! {

/// Prefix of every admin API route.
pub open spec fn api_base() -> Seq<char> {
    "/api/admin"@
}

/// Percent-encoding of the UTF-8 bytes of `s`.
pub open spec fn enc(s: Seq<char>) -> Seq<char> {
    percent_encoded(vstd::utf8::encode_utf8(s))
}

/// `&name=<encoded value>` when the value is present and not empty, nothing otherwise.
pub open spec fn optional_param(name: Seq<char>, value: Option<&str>) -> Seq<char> {
    if value is Some && value->0@.len() > 0 {
        seq!['&'] + name + seq!['='] + enc(value->0@)
    } else {
        seq![]
    }
}

/// `&name=<decimal>` when the number is present, nothing otherwise.
pub open spec fn optional_number_param(name: Seq<char>, value: Option<usize>) -> Seq<char> {
    if value is Some {
        seq!['&'] + name + seq!['='] + decimal(value->0 as nat)
    } else {
        seq![]
    }
}

fn push_api_base(out: &mut String)
    ensures
        final(out)@ == old(out)@ + api_base(),
{
    push_str(out, "/api/admin");
}

fn push_encoded(out: &mut String, s: &str)
    ensures
        final(out)@ == old(out)@ + enc(s@),
{
    push_percent_encoded(out, s.as_bytes());
}

fn push_optional_param(out: &mut String, name: &str, value: Option<&str>)
    ensures
        final(out)@ == old(out)@ + optional_param(name@, value),
{
    if let Some(v) = value {
        if !v.is_empty() {
            push_char(out, '&');
            push_str(out, name);
            push_char(out, '=');
            push_encoded(out, v);
        }
    }
    assert(final(out)@ =~= old(out)@ + optional_param(name@, value)) by {
        if value is Some && value->0@.len() > 0 {
        }
    }
}

fn push_optional_number_param(out: &mut String, name: &str, value: Option<usize>)
    ensures
        final(out)@ == old(out)@ + optional_number_param(name@, value),
{
    if let Some(v) = value {
        push_char(out, '&');
        push_str(out, name);
        push_char(out, '=');
        push_decimal(out, v as u64);
    }
    assert(final(out)@ =~= old(out)@ + optional_number_param(name@, value));
}

/// `/api/admin/live-metrics?consumer=..&window_secs=..&bucket_secs=5`.
pub fn live_metrics_url(consumer: &str, window_secs: u32) -> (url: String)
    ensures
        url@ == api_base() + "/live-metrics?consumer="@ + enc(consumer@) + "&window_secs="@
            + decimal(window_secs as nat) + "&bucket_secs=5"@,
{
    let mut url = String::new();
    push_api_base(&mut url);
    push_str(&mut url, "/live-metrics?consumer=");
    push_encoded(&mut url, consumer);
    push_str(&mut url, "&window_secs=");
    push_decimal(&mut url, window_secs as u64);
    push_str(&mut url, "&bucket_secs=5");
    assert(url@ =~= api_base() + "/live-metrics?consumer="@ + enc(consumer@) + "&window_secs="@
        + decimal(window_secs as nat) + "&bucket_secs=5"@);
    url
}

/// `/api/admin/live-metrics/consumers?window_secs=..`.
pub fn live_consumers_url(window_secs: u32) -> (url: String)
    ensures
        url@ == api_base() + "/live-metrics/consumers?window_secs="@ + decimal(window_secs as nat),
{
    let mut url = String::new();
    push_api_base(&mut url);
    push_str(&mut url, "/live-metrics/consumers?window_secs=");
    push_decimal(&mut url, window_secs as u64);
    assert(url@ =~= api_base() + "/live-metrics/consumers?window_secs="@ + decimal(
        window_secs as nat,
    ));
    url
}

/// `/api/admin/overview/timeseries?window=..` (the window is passed as given).
pub fn overview_timeseries_url(window: &str) -> (url: String)
    ensures
        url@ == api_base() + "/overview/timeseries?window="@ + window@,
{
    let mut url = String::new();
    push_api_base(&mut url);
    push_str(&mut url, "/overview/timeseries?window=");
    push_str(&mut url, window);
    assert(url@ =~= api_base() + "/overview/timeseries?window="@ + window@);
    url
}

/// `/api/admin/trace/analysis?hours=..`.
pub fn trace_analysis_url(hours: u32) -> (url: String)
    ensures
        url@ == api_base() + "/trace/analysis?hours="@ + decimal(hours as nat),
{
    let mut url = String::new();
    push_api_base(&mut url);
    push_str(&mut url, "/trace/analysis?hours=");
    push_decimal(&mut url, hours as u64);
    assert(url@ =~= api_base() + "/trace/analysis?hours="@ + decimal(hours as nat));
    url
}

/// `/api/admin/capture/stats?hours=..`.
pub fn capture_stats_url(hours: u32) -> (url: String)
    ensures
        url@ == api_base() + "/capture/stats?hours="@ + decimal(hours as nat),
{
    let mut url = String::new();
    push_api_base(&mut url);
    push_str(&mut url, "/capture/stats?hours=");
    push_decimal(&mut url, hours as u64);
    assert(url@ =~= api_base() + "/capture/stats?hours="@ + decimal(hours as nat));
    url
}

/// `/api/admin/composition/summary?hours=..[&project_id=..][&consumer=..]`.
pub fn composition_summary_url(hours: u32, project_id: Option<&str>, consumer: Option<&str>) -> (url: String)
    ensures
        url@ == api_base() + "/composition/summary?hours="@ + decimal(hours as nat)
            + optional_param("project_id"@, project_id) + optional_param("consumer"@, consumer),
{
    let mut url = String::new();
    push_api_base(&mut url);
    push_str(&mut url, "/composition/summary?hours=");
    push_decimal(&mut url, hours as u64);
    push_optional_param(&mut url, "project_id", project_id);
    push_optional_param(&mut url, "consumer", consumer);
    assert(url@ =~= api_base() + "/composition/summary?hours="@ + decimal(hours as nat)
        + optional_param("project_id"@, project_id) + optional_param("consumer"@, consumer));
    url
}

/// `/api/admin/composition/debug?hours=..[&request_hash=..][&consumer=..][&limit=..]`.
pub fn composition_debug_url(
    hours: u32,
    limit: Option<usize>,
    request_hash: Option<&str>,
    consumer: Option<&str>,
) -> (url: String)
    ensures
        url@ == api_base() + "/composition/debug?hours="@ + decimal(hours as nat)
            + optional_param("request_hash"@, request_hash) + optional_param("consumer"@, consumer)
            + optional_number_param("limit"@, limit),
{
    let mut url = String::new();
    push_api_base(&mut url);
    push_str(&mut url, "/composition/debug?hours=");
    push_decimal(&mut url, hours as u64);
    push_optional_param(&mut url, "request_hash", request_hash);
    push_optional_param(&mut url, "consumer", consumer);
    push_optional_number_param(&mut url, "limit", limit);
    assert(url@ =~= api_base() + "/composition/debug?hours="@ + decimal(hours as nat)
        + optional_param("request_hash"@, request_hash) + optional_param("consumer"@, consumer)
        + optional_number_param("limit"@, limit));
    url
}

/// `/api/admin/capture/list?hours=..[&limit=..][&consumer=..][&project_id=..][&request_hash=..]`.
pub fn capture_list_url(
    hours: u32,
    limit: Option<usize>,
    consumer: Option<&str>,
    project_id: Option<&str>,
    request_hash: Option<&str>,
) -> (url: String)
    ensures
        url@ == api_base() + "/capture/list?hours="@ + decimal(hours as nat)
            + optional_number_param("limit"@, limit) + optional_param("consumer"@, consumer)
            + optional_param("project_id"@, project_id) + optional_param(
            "request_hash"@,
            request_hash,
        ),
{
    let mut url = String::new();
    push_api_base(&mut url);
    push_str(&mut url, "/capture/list?hours=");
    push_decimal(&mut url, hours as u64);
    push_optional_number_param(&mut url, "limit", limit);
    push_optional_param(&mut url, "consumer", consumer);
    push_optional_param(&mut url, "project_id", project_id);
    push_optional_param(&mut url, "request_hash", request_hash);
    assert(url@ =~= api_base() + "/capture/list?hours="@ + decimal(hours as nat)
        + optional_number_param("limit"@, limit) + optional_param("consumer"@, consumer)
        + optional_param("project_id"@, project_id) + optional_param(
        "request_hash"@,
        request_hash,
    ));
    url
}

/// `/api/admin/infra/timeseries?window=..[&container_id=..]`.
pub fn infra_timeseries_url(window: &str, container_id: Option<&str>) -> (url: String)
    ensures
        url@ == api_base() + "/infra/timeseries?window="@ + window@ + optional_param(
            "container_id"@,
            container_id,
        ),
{
    let mut url = String::new();
    push_api_base(&mut url);
    push_str(&mut url, "/infra/timeseries?window=");
    push_str(&mut url, window);
    push_optional_param(&mut url, "container_id", container_id);
    assert(url@ =~= api_base() + "/infra/timeseries?window="@ + window@ + optional_param(
        "container_id"@,
        container_id,
    ));
    url
}

/// `/api/admin/infra/speed-test/upload?job_id=..&token=..`.
pub fn speed_test_upload_url(job_id: &str, token: &str) -> (url: String)
    ensures
        url@ == api_base() + "/infra/speed-test/upload?job_id="@ + enc(job_id@) + "&token="@ + enc(
            token@,
        ),
{
    let mut url = String::new();
    push_api_base(&mut url);
    push_str(&mut url, "/infra/speed-test/upload?job_id=");
    push_encoded(&mut url, job_id);
    push_str(&mut url, "&token=");
    push_encoded(&mut url, token);
    assert(url@ =~= api_base() + "/infra/speed-test/upload?job_id="@ + enc(job_id@) + "&token="@
        + enc(token@));
    url
}

/// `/api/admin/models/detect?profile_id=..` (encoded with the `urlencoding` crate).
pub fn detect_models_url(profile_id: &str) -> (url: String)
    ensures
        url@ == api_base() + "/models/detect?profile_id="@ + enc(profile_id@),
{
    let mut url = String::new();
    push_api_base(&mut url);
    push_str(&mut url, "/models/detect?profile_id=");
    let e = url_encode(profile_id);
    push_str(&mut url, e.as_str());
    assert(url@ =~= api_base() + "/models/detect?profile_id="@ + enc(profile_id@));
    url
}

/// `/api/admin/models?profile_id=..` for one upstream profile, `/api/admin/models` otherwise.
pub fn models_url(profile_id: Option<&str>) -> (url: String)
    ensures
        url@ == match profile_id {
            Some(id) => api_base() + "/models?profile_id="@ + enc(id@),
            None => api_base() + "/models"@,
        },
{
    let mut url = String::new();
    push_api_base(&mut url);
    match profile_id {
        Some(id) => {
            push_str(&mut url, "/models?profile_id=");
            let e = url_encode(id);
            push_str(&mut url, e.as_str());
            assert(url@ =~= api_base() + "/models?profile_id="@ + enc(id@));
        },
        None => {
            push_str(&mut url, "/models");
            assert(url@ =~= api_base() + "/models"@);
        },
    }
    url
}

/// `/api/admin/events?key=..`: the admin key travels in the query string because
/// an event stream cannot carry custom headers.
pub fn events_url(key: &str) -> (url: String)
    ensures
        url@ == api_base() + "/events?key="@ + enc(key@),
{
    let mut url = String::new();
    push_api_base(&mut url);
    push_str(&mut url, "/events?key=");
    let e = url_encode(key);
    push_str(&mut url, e.as_str());
    assert(url@ =~= api_base() + "/events?key="@ + enc(key@));
    url
}


/// Filters of the request-log listing.
pub struct LogsFilterQuery {
    pub limit: Option<u64>,
    pub cursor: Option<String>,
    pub model: Option<String>,
    pub consumer: Option<String>,
    pub cache_tier: Option<String>,
    pub request_hash: Option<String>,
    pub latency_min: Option<u64>,
    pub latency_max: Option<u64>,
    pub token_min: Option<u64>,
    pub token_max: Option<u64>,
}

/// Adds `name=<encoded value>` for a present, non-empty text filter.
pub open spec fn with_text_param(
    params: Seq<Seq<char>>,
    name: Seq<char>,
    value: Option<String>,
) -> Seq<Seq<char>> {
    if value is Some && value->0@.len() > 0 {
        params.push(name + seq!['='] + enc(value->0@))
    } else {
        params
    }
}

/// Adds `name=<decimal>` for a present numeric filter.
pub open spec fn with_number_param(
    params: Seq<Seq<char>>,
    name: Seq<char>,
    value: Option<u64>,
) -> Seq<Seq<char>> {
    if value is Some {
        params.push(name + seq!['='] + decimal(value->0 as nat))
    } else {
        params
    }
}

/// The query parameters of a log listing, in request order.
pub open spec fn logs_params(q: LogsFilterQuery) -> Seq<Seq<char>> {
    let p = with_number_param(seq![], "limit"@, q.limit);
    let p = with_text_param(p, "cursor"@, q.cursor);
    let p = with_text_param(p, "model"@, q.model);
    let p = with_text_param(p, "consumer"@, q.consumer);
    let p = with_text_param(p, "cache_tier"@, q.cache_tier);
    let p = with_text_param(p, "request_hash"@, q.request_hash);
    let p = with_number_param(p, "latency_min"@, q.latency_min);
    let p = with_number_param(p, "latency_max"@, q.latency_max);
    let p = with_number_param(p, "token_min"@, q.token_min);
    with_number_param(p, "token_max"@, q.token_max)
}

/// The parameters joined by `&`.
pub open spec fn join_params(params: Seq<Seq<char>>) -> Seq<char>
    decreases params.len(),
{
    if params.len() == 0 {
        seq![]
    } else if params.len() == 1 {
        params[0]
    } else {
        join_params(params.drop_last()) + seq!['&'] + params.last()
    }
}

/// `?` and the joined parameters, or nothing when there are none.
pub open spec fn query_string(params: Seq<Seq<char>>) -> Seq<char> {
    if params.len() == 0 {
        seq![]
    } else {
        seq!['?'] + join_params(params)
    }
}

fn text_param(params: &mut Vec<String>, name: &str, value: &Option<String>)
    ensures
        final(params)@.map_values(|p: String| p@) == with_text_param(
            old(params)@.map_values(|p: String| p@),
            name@,
            *value,
        ),
{
    if let Some(v) = value {
        if !v.as_str().is_empty() {
            let mut p = String::new();
            push_str(&mut p, name);
            push_char(&mut p, '=');
            push_encoded(&mut p, v.as_str());
            assert(p@ =~= name@ + seq!['='] + enc(v@));
            let ghost before = params@;
            params.push(p);
            assert(params@.map_values(|p: String| p@) =~= before.map_values(|p: String| p@).push(
                name@ + seq!['='] + enc(v@),
            ));
        }
    }
    assert(params@.map_values(|p: String| p@) =~= with_text_param(
        old(params)@.map_values(|p: String| p@),
        name@,
        *value,
    ));
}

fn number_param(params: &mut Vec<String>, name: &str, value: Option<u64>)
    ensures
        final(params)@.map_values(|p: String| p@) == with_number_param(
            old(params)@.map_values(|p: String| p@),
            name@,
            value,
        ),
{
    if let Some(v) = value {
        let mut p = String::new();
        push_str(&mut p, name);
        push_char(&mut p, '=');
        push_decimal(&mut p, v);
        assert(p@ =~= name@ + seq!['='] + decimal(v as nat));
        let ghost before = params@;
        params.push(p);
        assert(params@.map_values(|p: String| p@) =~= before.map_values(|p: String| p@).push(
            name@ + seq!['='] + decimal(v as nat),
        ));
    }
    assert(params@.map_values(|p: String| p@) =~= with_number_param(
        old(params)@.map_values(|p: String| p@),
        name@,
        value,
    ));
}

/// Appends the query string of the given parameters.
fn push_query(out: &mut String, params: &Vec<String>)
    ensures
        final(out)@ == old(out)@ + query_string(params@.map_values(|p: String| p@)),
{
    let ghost ps = params@.map_values(|p: String| p@);
    let ghost start = out@;
    let mut i: usize = 0;
    while i < params.len()
        invariant
            i <= params.len(),
            ps == params@.map_values(|p: String| p@),
            i == 0 ==> out@ == start,
            i > 0 ==> out@ == start + seq!['?'] + join_params(ps.take(i as int)),
        decreases params.len() - i,
    {
        if i == 0 {
            push_char(out, '?');
        } else {
            push_char(out, '&');
        }
        push_str(out, params[i].as_str());
        assert(ps.take(i + 1).drop_last() =~= ps.take(i as int));
        i = i + 1;
        assert(out@ =~= start + seq!['?'] + join_params(ps.take(i as int)));
    }
    assert(ps.take(params.len() as int) =~= ps);
    assert(out@ =~= start + query_string(ps));
}

/// `/api/admin/logs` followed by the query string of the filters that are set.
pub fn logs_url(query: &LogsFilterQuery) -> (url: String)
    ensures
        url@ == api_base() + "/logs"@ + query_string(logs_params(*query)),
{
    let mut params: Vec<String> = Vec::new();
    assert(params@.map_values(|p: String| p@) =~= Seq::<Seq<char>>::empty());
    number_param(&mut params, "limit", query.limit);
    text_param(&mut params, "cursor", &query.cursor);
    text_param(&mut params, "model", &query.model);
    text_param(&mut params, "consumer", &query.consumer);
    text_param(&mut params, "cache_tier", &query.cache_tier);
    text_param(&mut params, "request_hash", &query.request_hash);
    number_param(&mut params, "latency_min", query.latency_min);
    number_param(&mut params, "latency_max", query.latency_max);
    number_param(&mut params, "token_min", query.token_min);
    number_param(&mut params, "token_max", query.token_max);
    let mut url = String::new();
    push_api_base(&mut url);
    push_str(&mut url, "/logs");
    assert(params@.map_values(|p: String| p@) == logs_params(*query));
    push_query(&mut url, &params);
    assert(url@ =~= api_base() + "/logs"@ + query_string(logs_params(*query)));
    url
}


/// What `serde_json` finds under the member `key` of a response body: the string there
/// when the body parses as a JSON value and that member is a string.
pub uninterp spec fn json_member_string(body: Seq<char>, key: Seq<char>) -> Option<Seq<char>>;

/// Trusted: parses `body` with `serde_json::from_str` as a `serde_json::Value` and picks
/// the member `key` when it is a string (`Value::get`, `Value::as_str`).
#[verifier::external_body]
fn json_string_member(body: &str, key: &str) -> (r: Option<String>)
    ensures
        r is Some <==> json_member_string(body@, key@) is Some,
        r is Some ==> json_member_string(body@, key@) == Some(r->0@),
{
    match serde_json::from_str::<serde_json::Value>(body) {
        Ok(value) => value.get(key).and_then(|v| v.as_str()).map(|m| m.to_string()),
        Err(_) => None,
    }
}

/// The server's error message in a response body: the `"error"` member when it is a string.
pub open spec fn json_error_message(body: Seq<char>) -> Option<Seq<char>> {
    json_member_string(body, "error"@)
}

/// A response status in `200..=299`.
pub open spec fn is_success_status(status: u16) -> bool {
    200 <= status <= 299
}

/// The error text shown for a failed admin API response.
pub open spec fn http_error_text(status: u16, body: Seq<char>, json_error: Option<Seq<char>>) -> Seq<
    char,
> {
    if status == 401 {
        "unauthorized"@
    } else if json_error is Some {
        json_error->0
    } else if body.len() > 0 {
        body
    } else {
        "HTTP "@ + decimal(status as nat)
    }
}

/// Error text of a failed response given its status, its body and the `"error"`
/// string that the body holds as JSON, if any.
pub fn http_error_from_parts(status: u16, body: &str, json_error: Option<String>) -> (msg: String)
    ensures
        msg@ == http_error_text(
            status,
            body@,
            match json_error {
                Some(m) => Some(m@),
                None => None,
            },
        ),
{
    if status == 401 {
        return String::from_str("unauthorized");
    }
    if let Some(m) = json_error {
        return m;
    }
    if !body.is_empty() {
        return String::from_str(body);
    }
    let mut msg = String::from_str("HTTP ");
    push_decimal(&mut msg, status as u64);
    msg
}

/// Error text of a failed admin API response (the body is consulted unless the
/// status is 401).
pub fn http_error_message(status: u16, body: &str) -> (msg: String)
    ensures
        msg@ == http_error_text(status, body@, json_error_message(body@)),
{
    if status == 401 {
        return http_error_from_parts(status, body, None);
    }
    let json_error = json_string_member(body, "error");
    http_error_from_parts(status, body, json_error)
}

/// Outcome of checking an admin key against `overview/core`: accepted on 304 and on
/// success statuses, refused with `invalid_admin_key` on 401, `HTTP <status>` otherwise.
pub fn admin_key_check(status: u16) -> (r: Result<(), String>)
    ensures
        status == 401 ==> r is Err && r->Err_0@ == "invalid_admin_key"@,
        status != 401 && (status == 304 || is_success_status(status)) ==> r is Ok,
        status != 401 && status != 304 && !is_success_status(status) ==> r is Err && r->Err_0@
            == "HTTP "@ + decimal(status as nat),
{
    if status == 401 {
        Err(String::from_str("invalid_admin_key"))
    } else if status == 304 {
        Ok(())
    } else if !(200 <= status && status <= 299) {
        let mut msg = String::from_str("HTTP ");
        push_decimal(&mut msg, status as u64);
        Err(msg)
    } else {
        Ok(())
    }
}

/// Result of an ETag-aware overview/core fetch; `core` is `None` when the server
/// answered 304 and the previous data stays current.
pub struct OverviewCoreResult<C> {
    pub core: Option<C>,
    pub etag: String,
}

/// What to do with an overview/core response.
pub enum CoreResponseStep {
    /// 304: keep the current data, adopt the returned ETag.
    NotModified,
    /// Not a success status: report the error.
    Failed,
    /// Success: parse the body.
    Parse,
}

/// Classifies an overview/core response status.
pub fn overview_core_step(status: u16) -> (step: CoreResponseStep)
    ensures
        status == 304 ==> step is NotModified,
        status != 304 && !is_success_status(status) ==> step is Failed,
        status != 304 && is_success_status(status) ==> step is Parse,
{
    if status == 304 {
        CoreResponseStep::NotModified
    } else if !(200 <= status && status <= 299) {
        CoreResponseStep::Failed
    } else {
        CoreResponseStep::Parse
    }
}

/// The `If-None-Match` value to send: the current ETag unless it is empty.
pub fn if_none_match(current_etag: &str) -> (h: Option<&str>)
    ensures
        current_etag@.len() == 0 ==> h is None,
        current_etag@.len() > 0 ==> h == Some(current_etag),
{
    if current_etag.is_empty() {
        None
    } else {
        Some(current_etag)
    }
}

/// A per-domain routing policy; `settings` holds the rest of the record.
pub struct DomainPolicy<S> {
    pub domain: String,
    pub settings: S,
}

/// Index of the first policy for `domain`, or the length when there is none.
pub open spec fn first_policy_index<S>(policies: Seq<DomainPolicy<S>>, domain: Seq<char>) -> int
    decreases policies.len(),
{
    if policies.len() == 0 {
        0
    } else if policies[0].domain@ == domain {
        0
    } else {
        1 + first_policy_index(policies.drop_first(), domain)
    }
}

/// The first policy index is in range, no earlier policy is for the domain, and the
/// policy there, if any, is for it.
pub proof fn lemma_first_policy_index<S>(policies: Seq<DomainPolicy<S>>, domain: Seq<char>)
    ensures
        0 <= first_policy_index(policies, domain) <= policies.len(),
        forall|j: int|
            0 <= j < first_policy_index(policies, domain) ==> policies[j].domain@ != domain,
        first_policy_index(policies, domain) < policies.len() ==> policies[first_policy_index(
            policies,
            domain,
        )].domain@ == domain,
    decreases policies.len(),
{
    if policies.len() > 0 && policies[0].domain@ != domain {
        lemma_first_policy_index(policies.drop_first(), domain);
        assert forall|j: int| 0 <= j < first_policy_index(policies, domain) implies policies[j].domain@
            != domain by {
            if j > 0 {
                assert(policies[j] == policies.drop_first()[j - 1]);
            }
        }
    }
}

/// The policy list after inserting `policy`: it replaces the first policy for the same
/// domain, or is appended when there is none.
pub open spec fn upserted<S>(policies: Seq<DomainPolicy<S>>, policy: DomainPolicy<S>) -> Seq<
    DomainPolicy<S>,
> {
    let i = first_policy_index(policies, policy.domain@);
    if i < policies.len() {
        policies.update(i, policy)
    } else {
        policies.push(policy)
    }
}

/// Inserts or replaces the policy for `policy.domain`.
pub fn upsert_domain_policy<S>(policies: Vec<DomainPolicy<S>>, policy: DomainPolicy<S>) -> (r: Vec<
    DomainPolicy<S>,
>)
    ensures
        r@ == upserted(policies@, policy),
{
    let mut list = policies;
    let ghost orig = list@;
    proof {
        lemma_first_policy_index(orig, policy.domain@);
    }
    let mut i: usize = 0;
    while i < list.len()
        invariant
            i <= list.len(),
            list@ == orig,
            orig == policies@,
            forall|j: int| 0 <= j < i ==> orig[j].domain@ != policy.domain@,
            0 <= first_policy_index(orig, policy.domain@) <= orig.len(),
            forall|j: int|
                0 <= j < first_policy_index(orig, policy.domain@) ==> orig[j].domain@
                    != policy.domain@,
            first_policy_index(orig, policy.domain@) < orig.len() ==> orig[first_policy_index(
                orig,
                policy.domain@,
            )].domain@ == policy.domain@,
        decreases list.len() - i,
    {
        if crate::text::str_eq(list[i].domain.as_str(), policy.domain.as_str()) {
            assert(first_policy_index(orig, policy.domain@) == i);
            list.set(i, policy);
            assert(list@ == upserted(orig, policy));
            return list;
        }
        i = i + 1;
    }
    assert(first_policy_index(orig, policy.domain@) == orig.len());
    list.push(policy);
    list
}

/// Whether a policy is for a domain other than `domain`.
pub open spec fn not_for_domain<S>(domain: Seq<char>) -> spec_fn(DomainPolicy<S>) -> bool {
    |p: DomainPolicy<S>| p.domain@ != domain
}

/// Removes every policy for `domain`, keeping the others in order.
pub fn delete_domain_policy<S>(policies: Vec<DomainPolicy<S>>, domain: &str) -> (r: Vec<
    DomainPolicy<S>,
>)
    ensures
        r@ == policies@.filter(not_for_domain::<S>(domain@)),
{
    let mut kept: Vec<DomainPolicy<S>> = Vec::new();
    let mut rest = policies;
    let ghost orig = rest@;
    let ghost mut i: int = 0;
    assert(orig.skip(0) =~= orig);
    while rest.len() > 0
        invariant
            0 <= i <= orig.len(),
            i + rest@.len() == orig.len(),
            rest@ == orig.skip(i),
            orig == policies@,
            kept@ == orig.take(i).filter(not_for_domain::<S>(domain@)),
        decreases rest.len(),
    {
        let p = rest.remove(0);
        assert(p == orig[i]);
        assert(orig.take(i + 1).drop_last() =~= orig.take(i));
        if !crate::text::str_eq(p.domain.as_str(), domain) {
            kept.push(p);
        }
        proof {
            assert(orig.take(i + 1) =~= orig.take(i).push(orig[i]));
            orig.take(i).lemma_filter_push(orig[i], not_for_domain::<S>(domain@));
            i = i + 1;
        }
        assert(rest@ =~= orig.skip(i));
    }
    assert(orig.take(orig.len() as int) =~= orig);
    kept
}

} // verus!
