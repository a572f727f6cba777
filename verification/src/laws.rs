//! Properties of the dashboard logic that hold across inputs and across calls.

use vstd::prelude::*;

use crate::anomaly::{
    after_check, fires_health_lost, fires_health_recovered, fires_hit_rate, fires_latency,
    fires_qps, reported, AnomalyDetector, AnomalyKind, MetricChanges, Snapshot, COOLDOWN_MS,
};
use crate::api::{
    enc, logs_params, with_number_param, with_text_param, LogsFilterQuery,
    first_policy_index, lemma_first_policy_index, not_for_domain, upserted, DomainPolicy,
};
use crate::auth::{next_epoch, unauthorized_clears};
use crate::chart::{known_phase_label, phase_label_text, hover_after, HoverKey, lemma_run_len_positive, run_len, runs_from, stepped_indices, tick_indices};
use crate::datetime::{
    beijing_day,
    date_of, days_before_month, days_before_year, days_in_month, is_date_of_day, lemma_date_unique,
    beijing_clock_text, beijing_date_text, beijing_datetime_text, beijing_hms,
    beijing_hour_label_text,
};
use crate::heatmap::{cell_total, row_in_cell, PeakHourRow};
use crate::particles::sampled_indices;
use crate::url::{encode_byte, hex_digit, hex_value, is_unreserved, percent_decode, percent_encoded};
use crate::locale::{next_locale, Locale};
use crate::session::{
    is_timeline, label_count, lemma_lex_irreflexive, minute_label,
    insert_position, lemma_insert_position, lemma_stable_order_shape, stable_order,
};
use crate::text::{decimal, digit_char, zero_padded};

verus! {

proof fn lemma_stepped_shape(start: int, end: int, step: int)
    requires
        step > 0,
        0 <= start,
        end <= usize::MAX + 1,
    ensures
        forall|i: int|
            0 <= i < stepped_indices(start, end, step).len() ==> start <= #[trigger] stepped_indices(
                start,
                end,
                step,
            )[i] < end,
        forall|i: int, j: int|
            0 <= i < j < stepped_indices(start, end, step).len() ==> stepped_indices(
                start,
                end,
                step,
            )[i] < stepped_indices(start, end, step)[j],
        start < end ==> stepped_indices(start, end, step).len() > 0 && stepped_indices(
            start,
            end,
            step,
        )[0] == start,
        step == 1 ==> stepped_indices(start, end, step).len() == (if start < end {
            end - start
        } else {
            0
        }),
        step == 1 ==> forall|i: int|
            0 <= i < stepped_indices(start, end, step).len() ==> #[trigger] stepped_indices(
                start,
                end,
                step,
            )[i] == start + i,
    decreases (if start < end { end - start } else { 0 }),
{
    if start < end {
        let rest = stepped_indices(start + step, end, step);
        lemma_stepped_shape(start + step, end, step);
        let s = stepped_indices(start, end, step);
        assert(s == seq![start as usize] + rest);
        assert forall|i: int| 0 <= i < s.len() implies start <= #[trigger] s[i] < end by {
            if i > 0 {
                assert(s[i] == rest[i - 1]);
            }
        }
        assert forall|i: int, j: int| 0 <= i < j < s.len() implies s[i] < s[j] by {
            assert(s[j] == rest[j - 1]);
            if i > 0 {
                assert(s[i] == rest[i - 1]);
            } else {
                assert(start + step <= rest[j - 1]);
            }
        }
        if step == 1 {
            assert forall|i: int| 0 <= i < s.len() implies #[trigger] s[i] == start + i by {
                if i > 0 {
                    assert(s[i] == rest[i - 1]);
                }
            }
        }
    }
}

/// X-axis thinning: for a non-empty chart the labels start at the first bucket, end at
/// the last one, are strictly increasing and name existing buckets; when all buckets fit
/// in `max_ticks`, every bucket is labelled.
pub proof fn law_tick_indices(count: usize, max_ticks: usize)
    requires
        count > 0,
        max_ticks > 0,
    ensures
        ({
            let t = tick_indices(count as nat, max_ticks as nat);
            &&& t.len() > 0
            &&& t[0] == 0
            &&& t.last() == count - 1
            &&& forall|i: int| 0 <= i < t.len() ==> #[trigger] t[i] < count
            &&& forall|i: int, j: int| 0 <= i < j < t.len() ==> t[i] < t[j]
            &&& count <= max_ticks ==> t.len() == count && forall|i: int|
                0 <= i < count ==> #[trigger] t[i] == i
        }),
{
    let t = tick_indices(count as nat, max_ticks as nat);
    if count <= max_ticks {
        lemma_stepped_shape(0, count as int, 1);
    } else {
        let step: int = if count / max_ticks >= 1 { (count / max_ticks) as int } else { 1 };
        let base = stepped_indices(0, count as int, step);
        lemma_stepped_shape(0, count as int, step);
        if !(base.len() > 0 && base.last() == (count - 1) as usize) {
            let b2 = base.push((count - 1) as usize);
            assert(t == b2);
            assert forall|i: int| 0 <= i < b2.len() implies #[trigger] b2[i] < count by {
                if i < base.len() {
                    assert(b2[i] == base[i]);
                }
            }
            assert forall|i: int, j: int| 0 <= i < j < b2.len() implies b2[i] < b2[j] by {
                assert(b2[i] == base[i]);
                if j < base.len() {
                    assert(b2[j] == base[j]);
                } else {
                    assert(base[i] < count);
                    assert(base[i] <= base.last());
                    if i < base.len() - 1 {
                        assert(base[i] < base[base.len() - 1]);
                    }
                }
            }
        }
    }
}

/// An ASCII decimal digit.
pub open spec fn is_ascii_digit(c: char) -> bool {
    '0' <= c <= '9'
}

proof fn lemma_decimal_digits(n: nat)
    ensures
        forall|i: int| 0 <= i < decimal(n).len() ==> is_ascii_digit(#[trigger] decimal(n)[i]),
        decimal(n).len() >= 1,
        n < 10 ==> decimal(n).len() == 1,
        10 <= n < 100 ==> decimal(n).len() == 2,
    decreases n,
{
    if n >= 10 {
        lemma_decimal_digits(n / 10);
        let d = decimal(n);
        assert forall|i: int| 0 <= i < d.len() implies is_ascii_digit(#[trigger] d[i]) by {
            if i < d.len() - 1 {
                assert(d[i] == decimal(n / 10)[i]);
            } else {
                assert(d[i] == digit_char(n % 10));
            }
        }
    }
}

proof fn lemma_zero_padded_digits(n: nat, width: nat)
    ensures
        forall|i: int|
            0 <= i < zero_padded(n, width).len() ==> is_ascii_digit(#[trigger] zero_padded(n, width)[i]),
        n < 100 && width == 2 ==> zero_padded(n, width).len() == 2,
{
    lemma_decimal_digits(n);
    let d = decimal(n);
    let z = zero_padded(n, width);
    if d.len() < width {
        let pad = Seq::new((width - d.len()) as nat, |i: int| '0');
        assert(z == pad + d);
        assert forall|i: int| 0 <= i < z.len() implies is_ascii_digit(#[trigger] z[i]) by {
            if i < pad.len() {
                assert(z[i] == pad[i]);
            } else {
                assert(z[i] == d[i - pad.len()]);
            }
        }
    }
}

/// Beijing timestamps: the full text is the date, one space and the clock; the date holds
/// only digits and `-`, the clock only digits and `:`, so the clock is exactly the second
/// whitespace-separated field of the full text. With seconds, the text extends the one
/// without them by `:SS`; the clock is `HH:MM` or `HH:MM:SS`, and the hour label is the
/// clock's hour followed by `:00`.
pub proof fn law_beijing_text(ms: nat, with_seconds: bool)
    ensures
        beijing_datetime_text(ms, with_seconds) == beijing_date_text(ms) + seq![' ']
            + beijing_clock_text(ms, with_seconds),
        forall|i: int|
            0 <= i < beijing_date_text(ms).len() ==> is_ascii_digit(
                #[trigger] beijing_date_text(ms)[i],
            ) || beijing_date_text(ms)[i] == '-',
        forall|i: int|
            0 <= i < beijing_clock_text(ms, with_seconds).len() ==> is_ascii_digit(
                #[trigger] beijing_clock_text(ms, with_seconds)[i],
            ) || beijing_clock_text(ms, with_seconds)[i] == ':',
        beijing_clock_text(ms, with_seconds).len() == if with_seconds { 8int } else { 5int },
        beijing_datetime_text(ms, true) == beijing_datetime_text(ms, false) + seq![':']
            + zero_padded(beijing_hms(ms).2, 2),
        beijing_hour_label_text(ms) == beijing_clock_text(ms, false).take(2) + seq![':', '0', '0'],
{
    let hms = beijing_hms(ms);
    lemma_zero_padded_digits(hms.0, 2);
    lemma_zero_padded_digits(hms.1, 2);
    lemma_zero_padded_digits(hms.2, 2);
    let h = zero_padded(hms.0, 2);
    let m = zero_padded(hms.1, 2);
    let s = zero_padded(hms.2, 2);
    let hm = h + seq![':'] + m;
    let clock = beijing_clock_text(ms, with_seconds);
    assert forall|i: int| 0 <= i < clock.len() implies is_ascii_digit(#[trigger] clock[i])
        || clock[i] == ':' by {
        if i < 2 {
            assert(clock[i] == h[i]);
        } else if i == 2 {
        } else if i < 5 {
            assert(clock[i] == m[i - 3]);
        } else if i == 5 {
        } else {
            assert(clock[i] == s[i - 6]);
        }
    }
    let t = crate::datetime::date_of(crate::datetime::beijing_day(ms) as int);
    lemma_zero_padded_digits(t.0 as nat, 4);
    lemma_zero_padded_digits(t.1 as nat, 2);
    lemma_zero_padded_digits(t.2 as nat, 2);
    let y = zero_padded(t.0 as nat, 4);
    let mo = zero_padded(t.1 as nat, 2);
    let d = zero_padded(t.2 as nat, 2);
    let date = beijing_date_text(ms);
    assert(date == y + seq!['-'] + mo + seq!['-'] + d);
    assert forall|i: int| 0 <= i < date.len() implies is_ascii_digit(#[trigger] date[i])
        || date[i] == '-' by {
        let a = y.len() as int;
        if i < a {
            assert(date[i] == y[i]);
        } else if i == a {
        } else if i < a + 1 + mo.len() {
            assert(date[i] == mo[i - a - 1]);
        } else if i == a + 1 + mo.len() {
        } else {
            assert(date[i] == d[i - a - 2 - mo.len()]);
        }
    }
    assert(beijing_clock_text(ms, false).take(2) =~= h);
    assert(beijing_datetime_text(ms, true) =~= beijing_datetime_text(ms, false) + seq![':'] + s);
}

proof fn lemma_reported_members<M>(
    d: AnomalyDetector<M>,
    healthy: bool,
    changes: MetricChanges,
    now: u64,
)
    ensures
        ({
            let r = reported(d, healthy, changes, now);
            &&& r.contains(AnomalyKind::HitRateDrop) <==> fires_hit_rate(d, changes, now)
            &&& r.contains(AnomalyKind::QpsSpike) <==> fires_qps(d, changes, now)
            &&& r.contains(AnomalyKind::HealthLost) <==> fires_health_lost(d, healthy, now)
            &&& r.contains(AnomalyKind::HealthRecovered) <==> fires_health_recovered(
                d,
                healthy,
                now,
            ) && !fires_health_lost(d, healthy, now)
            &&& r.contains(AnomalyKind::LatencySpike) <==> fires_latency(d, changes, now)
        }),
{
    let r = reported(d, healthy, changes, now);
    let hit = fires_hit_rate(d, changes, now);
    let qps = fires_qps(d, changes, now);
    let lost = fires_health_lost(d, healthy, now);
    let rec = fires_health_recovered(d, healthy, now);
    let lat = fires_latency(d, changes, now);
    let s0: Seq<AnomalyKind> = seq![];
    let s1 = if hit { s0.push(AnomalyKind::HitRateDrop) } else { s0 };
    let s2 = if qps { s1.push(AnomalyKind::QpsSpike) } else { s1 };
    let s3 = if lost {
        s2.push(AnomalyKind::HealthLost)
    } else if rec {
        s2.push(AnomalyKind::HealthRecovered)
    } else {
        s2
    };
    let s4 = if lat { s3.push(AnomalyKind::LatencySpike) } else { s3 };
    assert(r == s4);
    assert forall|k: AnomalyKind| #[trigger] s4.contains(k) <==> (k == AnomalyKind::HitRateDrop
        && hit || k == AnomalyKind::QpsSpike && qps || k == AnomalyKind::HealthLost && lost
        || k == AnomalyKind::HealthRecovered && rec && !lost || k == AnomalyKind::LatencySpike
        && lat) by {
        if s4.contains(k) {
            let i = choose|i: int| 0 <= i < s4.len() && s4[i] == k;
            if lat && i == s4.len() - 1 {
            } else {
                assert(s3[i] == k);
                if (lost || rec) && i == s3.len() - 1 {
                } else {
                    assert(s2[i] == k);
                    if qps && i == s2.len() - 1 {
                    } else {
                        assert(s1[i] == k);
                    }
                }
            }
        }
        if k == AnomalyKind::HitRateDrop && hit {
            assert(s4[0] == k);
        }
        if k == AnomalyKind::QpsSpike && qps {
            assert(s4[s1.len() as int] == k);
        }
        if k == AnomalyKind::HealthLost && lost || k == AnomalyKind::HealthRecovered && rec
            && !lost {
            assert(s4[s2.len() as int] == k);
        }
        if k == AnomalyKind::LatencySpike && lat {
            assert(s4[s3.len() as int] == k);
        }
    }
}

/// Alert cooldowns: an anomaly kind reported by a check at `now` is not reported again by
/// the next check at any time up to `COOLDOWN_MS` later (or earlier, should the clock go
/// back), whatever that check sees; the two health alerts share one cooldown.
pub proof fn law_alert_cooldown<M>(
    d: AnomalyDetector<M>,
    curr: Snapshot<M>,
    changes: MetricChanges,
    now: u64,
    healthy_next: bool,
    changes_next: MetricChanges,
    now_next: u64,
)
    requires
        now_next <= now + COOLDOWN_MS,
    ensures
        ({
            let first = reported(d, curr.healthy, changes, now);
            let next = reported(
                after_check(d, curr, changes, now),
                healthy_next,
                changes_next,
                now_next,
            );
            &&& first.contains(AnomalyKind::HitRateDrop) ==> !next.contains(
                AnomalyKind::HitRateDrop,
            )
            &&& first.contains(AnomalyKind::QpsSpike) ==> !next.contains(AnomalyKind::QpsSpike)
            &&& first.contains(AnomalyKind::LatencySpike) ==> !next.contains(
                AnomalyKind::LatencySpike,
            )
            &&& (first.contains(AnomalyKind::HealthLost) || first.contains(
                AnomalyKind::HealthRecovered,
            )) ==> !next.contains(AnomalyKind::HealthLost) && !next.contains(
                AnomalyKind::HealthRecovered,
            )
        }),
{
    lemma_reported_members(d, curr.healthy, changes, now);
    lemma_reported_members(after_check(d, curr, changes, now), healthy_next, changes_next, now_next);
}

/// The first check of a fresh detector has no previous snapshot, so the only anomaly it
/// can report is a latency spike.
pub proof fn law_first_check_reports_only_latency<M>(
    d: AnomalyDetector<M>,
    healthy: bool,
    changes: MetricChanges,
    now: u64,
)
    requires
        d.prev is None,
    ensures
        forall|i: int|
            0 <= i < reported(d, healthy, changes, now).len() ==> #[trigger] reported(
                d,
                healthy,
                changes,
                now,
            )[i] == AnomalyKind::LatencySpike,
{
    lemma_reported_members(d, healthy, changes, now);
    let r = reported(d, healthy, changes, now);
    assert forall|i: int| 0 <= i < r.len() implies #[trigger] r[i] == AnomalyKind::LatencySpike by {
        assert(r.contains(r[i]));
    }
}

/// Session generations: the counter never goes back, and once a login, logout or
/// accepted 401 has moved it on, a 401 answering a request of any earlier generation no
/// longer ends the session, while one of the current generation does (until the counter
/// saturates at `u64::MAX`).
pub proof fn law_stale_unauthorized_ignored(current: u64, request_epoch: u64)
    requires
        request_epoch <= current < u64::MAX,
    ensures
        next_epoch(current) > current,
        !unauthorized_clears(next_epoch(current), request_epoch),
        unauthorized_clears(current, current),
{
}

/// The counter never decreases, at `u64::MAX` included.
pub proof fn law_epoch_monotone(current: u64)
    ensures
        next_epoch(current) >= current,
{
}

/// Domain policies: after an upsert, the first policy for the domain is the one written;
/// every policy for another domain keeps its place; the list grows by at most one entry.
pub proof fn law_upsert_then_lookup<S>(policies: Seq<DomainPolicy<S>>, policy: DomainPolicy<S>)
    ensures
        ({
            let r = upserted(policies, policy);
            let i = first_policy_index(r, policy.domain@);
            &&& 0 <= i < r.len()
            &&& r[i] == policy
            &&& r.len() == policies.len() || r.len() == policies.len() + 1
            &&& forall|j: int|
                0 <= j < policies.len() && policies[j].domain@ != policy.domain@ ==> #[trigger] r[j]
                    == policies[j]
        }),
{
    let r = upserted(policies, policy);
    let d = policy.domain@;
    lemma_first_policy_index(policies, d);
    lemma_first_policy_index(r, d);
    let k = first_policy_index(policies, d);
    let i = first_policy_index(r, d);
    assert(r[k] == policy);
    if i < k {
        assert(r[i] == policies[i]);
    }
    assert(i == k);
}

proof fn lemma_filter_singleton_dropped<A>(x: A, pred: spec_fn(A) -> bool)
    requires
        !pred(x),
    ensures
        seq![x].filter(pred) == Seq::<A>::empty(),
{
    Seq::<A>::empty().lemma_filter_push(x, pred);
    assert(Seq::<A>::empty().push(x) =~= seq![x]);
    assert(Seq::<A>::empty().filter(pred) =~= Seq::<A>::empty()) by {
        reveal(Seq::filter);
    }
}

/// Domain policies: deleting a domain after an upsert for it leaves the same list as
/// deleting it from the list before the upsert.
pub proof fn law_upsert_then_delete<S>(policies: Seq<DomainPolicy<S>>, policy: DomainPolicy<S>)
    ensures
        upserted(policies, policy).filter(not_for_domain::<S>(policy.domain@)) == policies.filter(
            not_for_domain::<S>(policy.domain@),
        ),
{
    let d = policy.domain@;
    let pred = not_for_domain::<S>(d);
    lemma_first_policy_index(policies, d);
    let k = first_policy_index(policies, d);
    if k < policies.len() {
        let a = policies.take(k);
        let b = policies.skip(k + 1);
        assert(policies =~= a + seq![policies[k]] + b);
        assert(upserted(policies, policy) =~= a + seq![policy] + b);
        lemma_filter_singleton_dropped(policies[k], pred);
        lemma_filter_singleton_dropped(policy, pred);
        Seq::filter_distributes_over_add(a + seq![policies[k]], b, pred);
        Seq::filter_distributes_over_add(a, seq![policies[k]], pred);
        Seq::filter_distributes_over_add(a + seq![policy], b, pred);
        Seq::filter_distributes_over_add(a, seq![policy], pred);
        assert(a.filter(pred) + Seq::<DomainPolicy<S>>::empty() =~= a.filter(pred));
    } else {
        policies.lemma_filter_push(policy, pred);
    }
}

/// Domain policies: after a delete no policy for the domain is left, and every policy
/// for another domain is still there.
pub proof fn law_delete_removes_domain<S>(policies: Seq<DomainPolicy<S>>, domain: Seq<char>)
    ensures
        forall|j: int|
            0 <= j < policies.filter(not_for_domain::<S>(domain)).len() ==> (#[trigger] policies.filter(
                not_for_domain::<S>(domain),
            )[j]).domain@ != domain,
        forall|j: int|
            0 <= j < policies.len() && policies[j].domain@ != domain ==> policies.filter(
                not_for_domain::<S>(domain),
            ).contains(#[trigger] policies[j]),
{
    let pred = not_for_domain::<S>(domain);
    assert forall|j: int| 0 <= j < policies.filter(pred).len() implies (#[trigger] policies.filter(
        pred,
    )[j]).domain@ != domain by {
        policies.lemma_filter_pred(pred, j);
    }
    assert forall|j: int| 0 <= j < policies.len() && policies[j].domain@ != domain implies policies.filter(
        pred,
    ).contains(#[trigger] policies[j]) by {
        policies.lemma_filter_contains(pred, j);
    }
}

/// Backend distribution order: the first `n` row indices, each exactly once, sorted by
/// ascending key, rows with equal keys keeping their input order.
pub proof fn law_stable_order(keys: Seq<u64>, n: nat)
    requires
        n <= keys.len(),
        n <= usize::MAX + 1,
    ensures
        ({
            let o = stable_order(keys, n);
            &&& o.len() == n
            &&& forall|i: int| 0 <= i < n ==> (#[trigger] o[i] as int) < n
            &&& forall|i: int, j: int| 0 <= i < j < n ==> o[i] != o[j]
            &&& forall|i: int, j: int|
                0 <= i < j < n ==> keys[o[i] as int] <= keys[o[j] as int]
            &&& forall|i: int, j: int|
                0 <= i < j < n && keys[o[i] as int] == keys[o[j] as int] ==> o[i] < o[j]
        }),
    decreases n,
{
    lemma_stable_order_shape(keys, n);
    if n > 0 {
        let m = (n - 1) as nat;
        law_stable_order(keys, m);
        lemma_stable_order_shape(keys, m);
        let s = stable_order(keys, m);
        let k = keys[m as int];
        lemma_insert_position(s, keys, k);
        let p = insert_position(s, keys, k);
        let o = s.insert(p, m as usize);
        assert(o == stable_order(keys, n));
        assert forall|i: int| 0 <= i < o.len() implies #[trigger] o[i] == (if i < p {
            s[i]
        } else if i == p {
            m as usize
        } else {
            s[i - 1]
        }) by {}
        assert forall|j: int| p <= j < s.len() implies keys[s[j] as int] > k by {
            if j > p {
                assert(keys[s[p] as int] <= keys[s[j] as int]);
            }
        }
        assert forall|i: int, j: int| 0 <= i < j < n implies o[i] != o[j] by {
            if i == p {
                assert(o[j] == s[j - 1]);
            } else if j == p {
                assert(o[i] == s[i]);
            }
        }
        assert forall|i: int, j: int| 0 <= i < j < n implies keys[o[i] as int] <= keys[o[j] as int] by {
            if i < p && j > p {
                assert(o[i] == s[i] && o[j] == s[j - 1]);
            }
        }
        assert forall|i: int, j: int| 0 <= i < j < n && keys[o[i] as int] == keys[o[j] as int] implies o[i]
            < o[j] by {
            if j == p {
                assert(o[i] == s[i]);
            } else if i == p {
                assert(o[j] == s[j - 1]);
                assert(keys[s[j - 1] as int] > k);
            }
        }
    }
}

/// Switching the language twice returns to the first one, and a switch always changes it.
pub proof fn law_locale_toggle(l: Locale)
    ensures
        next_locale(next_locale(l)) == l,
        next_locale(l) != l,
{
}

proof fn lemma_run_len_kept(keep: Seq<bool>, i: int)
    requires
        0 <= i,
    ensures
        i + run_len(keep, i) <= keep.len() || run_len(keep, i) == 0,
        forall|k: int| i <= k < i + run_len(keep, i) ==> #[trigger] keep[k],
        i + run_len(keep, i) < keep.len() ==> !keep[i + run_len(keep, i)],
    decreases keep.len() - i,
{
    if 0 <= i < keep.len() && keep[i] {
        lemma_run_len_kept(keep, i + 1);
        lemma_run_len_positive(keep, i);
    }
}

proof fn lemma_runs_from(keep: Seq<bool>, i: int)
    requires
        0 <= i,
        i == 0 || i >= keep.len() || !keep[i - 1] || !keep[i],
    ensures
        ({
            let r = runs_from(keep, i);
            &&& forall|j: int|
                0 <= j < r.len() ==> {
                    let (s, l) = #[trigger] r[j];
                    &&& i <= s
                    &&& l >= 1
                    &&& s + l <= keep.len()
                    &&& forall|k: int| s <= k < s + l ==> #[trigger] keep[k]
                    &&& s == 0 || !keep[s - 1]
                    &&& s + l == keep.len() || !keep[s + l]
                }
            &&& forall|j: int| 0 <= j < r.len() - 1 ==> #[trigger] r[j].0 + r[j].1 < r[j + 1].0
            &&& forall|k: int|
                i <= k < keep.len() && #[trigger] keep[k] ==> exists|j: int|
                    0 <= j < r.len() && (#[trigger] r[j]).0 <= k < r[j].0 + r[j].1
        }),
    decreases keep.len() - i,
{
    if i < keep.len() {
        if !keep[i] {
            lemma_runs_from(keep, i + 1);
            assert(runs_from(keep, i) == runs_from(keep, i + 1));
        } else {
            lemma_run_len_positive(keep, i);
            lemma_run_len_kept(keep, i);
            let l = run_len(keep, i);
            let rest = runs_from(keep, i + l);
            if i + l < keep.len() {
                lemma_runs_from(keep, i + l);
            }
            let r = runs_from(keep, i);
            assert(r == seq![(i, l)] + rest);
            assert forall|j: int| 0 <= j < r.len() - 1 implies #[trigger] r[j].0 + r[j].1 < r[j + 1].0 by {
                if j == 0 {
                    assert(r[1] == rest[0]);
                } else {
                    assert(r[j] == rest[j - 1]);
                    assert(r[j + 1] == rest[j]);
                }
            }
            assert forall|k: int| i <= k < keep.len() && #[trigger] keep[k] implies exists|j: int|
                0 <= j < r.len() && (#[trigger] r[j]).0 <= k < r[j].0 + r[j].1 by {
                if k < i + l {
                    assert(r[0] == (i, l));
                } else {
                    let j = choose|j: int| 0 <= j < rest.len() && (#[trigger] rest[j]).0 <= k < rest[j].0 + rest[j].1;
                    assert(r[j + 1] == rest[j]);
                }
            }
            assert forall|j: int| 0 <= j < r.len() implies {
                let (s, l2) = #[trigger] r[j];
                &&& i <= s
                &&& l2 >= 1
                &&& s + l2 <= keep.len()
                &&& forall|k: int| s <= k < s + l2 ==> #[trigger] keep[k]
                &&& s == 0 || !keep[s - 1]
                &&& s + l2 == keep.len() || !keep[s + l2]
            } by {
                if j > 0 {
                    assert(r[j] == rest[j - 1]);
                } else {
                    assert(r[0] == (i, l));
                }
            }
        }
    }
}

/// Line segments: the runs are non-empty, hold only kept points, are maximal (a point
/// that is not kept, or the end of the series, on each side), come left to right with a
/// gap between two of them, and every kept point lies in one of them.
pub proof fn law_value_segments(keep: Seq<bool>)
    ensures
        ({
            let r = runs_from(keep, 0);
            &&& forall|j: int|
                0 <= j < r.len() ==> {
                    let (s, l) = #[trigger] r[j];
                    &&& l >= 1
                    &&& 0 <= s
                    &&& s + l <= keep.len()
                    &&& forall|k: int| s <= k < s + l ==> #[trigger] keep[k]
                    &&& s == 0 || !keep[s - 1]
                    &&& s + l == keep.len() || !keep[s + l]
                }
            &&& forall|j: int| 0 <= j < r.len() - 1 ==> #[trigger] r[j].0 + r[j].1 < r[j + 1].0
            &&& forall|k: int|
                0 <= k < keep.len() && #[trigger] keep[k] ==> exists|j: int|
                    0 <= j < r.len() && (#[trigger] r[j]).0 <= k < r[j].0 + r[j].1
        }),
{
    lemma_runs_from(keep, 0);
}

/// Crab sampling keeps both eyes: with at least two outline points the samples are
/// every other body point (even indices below the eyes), in increasing order, followed
/// by the two eye points.
pub proof fn law_sampled_crab_keeps_eyes(point_count: usize)
    requires
        point_count >= 2,
    ensures
        ({
            let s = sampled_indices(point_count as nat);
            let n = s.len();
            &&& n >= 2
            &&& s[n - 2] == point_count - 2
            &&& s[n - 1] == point_count - 1
            &&& forall|i: int|
                0 <= i < n - 2 ==> #[trigger] s[i] < point_count - 2 && s[i] % 2 == 0
            &&& forall|i: int, j: int| 0 <= i < j < n ==> s[i] < s[j]
        }),
{
    let e = point_count - 2;
    let body = stepped_indices(0, e as int, 2);
    let eyes = stepped_indices(e as int, point_count as int, 1);
    lemma_stepped_shape(0, e as int, 2);
    lemma_stepped_shape(e as int, point_count as int, 1);
    lemma_stepped_even(0, e as int);
    let s = sampled_indices(point_count as nat);
    assert(s == body + eyes);
    assert(eyes.len() == 2);
    assert(s[s.len() - 2] == eyes[0]);
    assert(s[s.len() - 1] == eyes[1]);
    assert forall|i: int| 0 <= i < s.len() - 2 implies #[trigger] s[i] < point_count - 2 && s[i] % 2
        == 0 by {
        assert(s[i] == body[i]);
    }
    assert forall|i: int, j: int| 0 <= i < j < s.len() implies s[i] < s[j] by {
        if j < body.len() {
            assert(s[i] == body[i] && s[j] == body[j]);
        } else if i < body.len() {
            assert(s[i] == body[i] && s[j] == eyes[j - body.len()]);
        } else {
            assert(s[i] == eyes[i - body.len()] && s[j] == eyes[j - body.len()]);
        }
    }
}

proof fn lemma_stepped_even(start: int, end: int)
    requires
        0 <= start,
        start % 2 == 0,
        end <= usize::MAX + 1,
    ensures
        forall|i: int|
            0 <= i < stepped_indices(start, end, 2).len() ==> #[trigger] stepped_indices(
                start,
                end,
                2,
            )[i] % 2 == 0,
    decreases (if start < end { end - start } else { 0 }),
{
    if start < end {
        lemma_stepped_even(start + 2, end);
        let s = stepped_indices(start, end, 2);
        let rest = stepped_indices(start + 2, end, 2);
        assert(s == seq![start as usize] + rest);
        assert forall|i: int| 0 <= i < s.len() implies #[trigger] s[i] % 2 == 0 by {
            if i > 0 {
                assert(s[i] == rest[i - 1]);
            }
        }
    }
}

/// Heatmap drill-down: every cell with requests has at least one bucket to open, namely
/// a row of the model in that weekday and hour.
pub proof fn law_nonempty_cell_has_bucket(rows: Seq<PeakHourRow>, model: Seq<char>, d: int, h: int)
    requires
        cell_total(rows, model, d, h) > 0,
    ensures
        rows.filter(|r: PeakHourRow| row_in_cell(r, model, d, h)).len() > 0,
    decreases rows.len(),
{
    let pred = |r: PeakHourRow| row_in_cell(r, model, d, h);
    assert(rows.len() > 0);
    let init = rows.drop_last();
    assert(init.push(rows.last()) =~= rows);
    init.lemma_filter_push(rows.last(), pred);
    if !row_in_cell(rows.last(), model, d, h) {
        law_nonempty_cell_has_bucket(init, model, d, h);
    }
}

/// Sum of a sequence of counts.
pub open spec fn total(counts: Seq<u64>) -> int
    decreases counts.len(),
{
    if counts.len() == 0 {
        0
    } else {
        total(counts.drop_last()) + counts.last()
    }
}

spec fn label_total(events: Seq<u64>, labels: Seq<Seq<char>>) -> int
    decreases labels.len(),
{
    if labels.len() == 0 {
        0
    } else {
        label_total(events, labels.drop_last()) + label_count(events, labels.last())
    }
}

spec fn occurrences(labels: Seq<Seq<char>>, l: Seq<char>) -> int
    decreases labels.len(),
{
    if labels.len() == 0 {
        0
    } else {
        occurrences(labels.drop_last(), l) + if labels.last() == l {
            1int
        } else {
            0int
        }
    }
}

proof fn lemma_label_total_push(events: Seq<u64>, e: u64, labels: Seq<Seq<char>>)
    ensures
        label_total(events.push(e), labels) == label_total(events, labels) + occurrences(
            labels,
            minute_label(e),
        ),
    decreases labels.len(),
{
    if labels.len() > 0 {
        lemma_label_total_push(events, e, labels.drop_last());
        assert(events.push(e).drop_last() =~= events);
    }
}

proof fn lemma_occurrences_distinct(labels: Seq<Seq<char>>, l: Seq<char>)
    requires
        forall|i: int, j: int| 0 <= i < j < labels.len() ==> labels[i] != labels[j],
    ensures
        occurrences(labels, l) == if labels.contains(l) { 1int } else { 0int },
    decreases labels.len(),
{
    if labels.len() > 0 {
        let init = labels.drop_last();
        lemma_occurrences_distinct(init, l);
        if labels.last() == l {
            assert(labels.contains(l));
            if init.contains(l) {
                let k = choose|k: int| 0 <= k < init.len() && init[k] == l;
                assert(labels[k] == labels[labels.len() - 1]);
            }
        } else if labels.contains(l) {
            let k = choose|k: int| 0 <= k < labels.len() && labels[k] == l;
            assert(init[k] == l);
        } else {
            if init.contains(l) {
                let k = choose|k: int| 0 <= k < init.len() && init[k] == l;
                assert(labels[k] == l);
            }
        }
    }
}

proof fn lemma_label_total_covers(events: Seq<u64>, labels: Seq<Seq<char>>)
    requires
        forall|i: int, j: int| 0 <= i < j < labels.len() ==> labels[i] != labels[j],
        forall|k: int| 0 <= k < events.len() ==> labels.contains(#[trigger] minute_label(events[k])),
    ensures
        label_total(events, labels) == events.len(),
    decreases events.len(),
{
    if events.len() == 0 {
        lemma_label_total_empty(events, labels);
    } else {
        let init = events.drop_last();
        let e = events.last();
        assert forall|k: int| 0 <= k < init.len() implies labels.contains(
            #[trigger] minute_label(init[k]),
        ) by {
            assert(init[k] == events[k]);
        }
        lemma_label_total_covers(init, labels);
        assert(init.push(e) =~= events);
        lemma_label_total_push(init, e, labels);
        assert(labels.contains(minute_label(events[events.len() - 1])));
        lemma_occurrences_distinct(labels, minute_label(e));
    }
}

proof fn lemma_label_total_empty(events: Seq<u64>, labels: Seq<Seq<char>>)
    requires
        events.len() == 0,
    ensures
        label_total(events, labels) == 0,
    decreases labels.len(),
{
    if labels.len() > 0 {
        lemma_label_total_empty(events, labels.drop_last());
    }
}

proof fn lemma_total_matches(events: Seq<u64>, labels: Seq<Seq<char>>, counts: Seq<u64>)
    requires
        labels.len() == counts.len(),
        forall|i: int| 0 <= i < labels.len() ==> counts[i] == label_count(events, labels[i]),
    ensures
        total(counts) == label_total(events, labels),
    decreases labels.len(),
{
    if labels.len() > 0 {
        let l2 = labels.drop_last();
        let c2 = counts.drop_last();
        assert forall|i: int| 0 <= i < l2.len() implies c2[i] == label_count(events, l2[i]) by {
            assert(c2[i] == counts[i] && l2[i] == labels[i]);
        }
        lemma_total_matches(events, l2, c2);
    }
}

/// Session timeline: the bucket counts add up to the number of events, so every event is
/// counted in exactly one bucket.
pub proof fn law_timeline_counts_every_event(
    events: Seq<u64>,
    labels: Seq<Seq<char>>,
    counts: Seq<u64>,
)
    requires
        is_timeline(events, labels, counts),
    ensures
        total(counts) == events.len(),
{
    assert forall|i: int, j: int| 0 <= i < j < labels.len() implies labels[i] != labels[j] by {
        if labels[i] == labels[j] {
            lemma_lex_irreflexive(labels[i]);
        }
    }
    assert forall|k: int| 0 <= k < events.len() implies labels.contains(
        #[trigger] minute_label(events[k]),
    ) by {
        let i = choose|i: int| 0 <= i < labels.len() && labels[i] == minute_label(events[k]);
        assert(labels[i] == minute_label(events[k]));
    }
    lemma_label_total_covers(events, labels);
    lemma_total_matches(events, labels, counts);
}

proof fn lemma_date_exists(day: nat)
    ensures
        exists|t: (int, int, int)| is_date_of_day(day as int, t.0, t.1, t.2),
    decreases day,
{
    if day == 0 {
        let w = (1970int, 1int, 1int);
        assert(is_date_of_day(0, w.0, w.1, w.2));
    } else {
        let prev = (day - 1) as nat;
        lemma_date_exists(prev);
        let t = choose|t: (int, int, int)| is_date_of_day(prev as int, t.0, t.1, t.2);
        let (y, m, d) = t;
        if d < days_in_month(y, m) {
            let w = (y, m, d + 1);
            assert(is_date_of_day(day as int, w.0, w.1, w.2));
        } else if m < 12 {
            assert(days_before_month(y, m + 1) == days_before_month(y, m) + days_in_month(y, m));
            let w = (y, m + 1, 1int);
            assert(is_date_of_day(day as int, w.0, w.1, w.2));
        } else {
            assert(days_before_year(y + 1) == days_before_year(y) + crate::datetime::days_in_year(y));
            reveal_with_fuel(days_before_month, 13);
            let w = (y + 1, 1int, 1int);
            assert(is_date_of_day(day as int, w.0, w.1, w.2));
        }
    }
}

/// Calendar dates: every day since 1970-01-01 has exactly one calendar date, the one that
/// `date_of` names (and that the Beijing date text writes out).
pub proof fn law_date_of_day(day: nat, y: int, m: int, d: int)
    ensures
        is_date_of_day(day as int, date_of(day as int).0, date_of(day as int).1, date_of(
            day as int,
        ).2),
        is_date_of_day(day as int, y, m, d) ==> (y, m, d) == date_of(day as int),
{
    lemma_date_exists(day);
    let t = date_of(day as int);
    if is_date_of_day(day as int, y, m, d) {
        lemma_date_unique(day as int, y, m, d, t.0, t.1, t.2);
    }
}

/// A character that may appear in an encoded query component: an unreserved ASCII
/// character, `%`, or an upper-case hex digit.
pub open spec fn is_encoded_char(c: char) -> bool {
    ||| c == '%'
    ||| ((c as u32) < 128 && is_unreserved((c as u32) as u8))
}

proof fn lemma_hex_roundtrip(d: nat)
    requires
        d < 16,
    ensures
        hex_value(hex_digit(d)) == Some(d),
        hex_digit(d) != '%',
        is_encoded_char(hex_digit(d)),
        48 <= hex_digit(d) as u32 <= 57 || 65 <= hex_digit(d) as u32 <= 70,
{
}

proof fn lemma_encode_byte(b: u8, t: Seq<char>)
    ensures
        encode_byte(b).len() == 1 || encode_byte(b).len() == 3,
        forall|i: int| 0 <= i < encode_byte(b).len() ==> is_encoded_char(#[trigger] encode_byte(b)[i]),
        percent_decode(t) is Some ==> percent_decode(encode_byte(b) + t) == Some(
            seq![b] + percent_decode(t)->0,
        ),
{
    let e = encode_byte(b);
    let s = e + t;
    if is_unreserved(b) {
        assert(s[0] == b as char);
        assert((b as char) as u32 == b);
        assert(s.skip(1) =~= t);
    } else {
        lemma_hex_roundtrip((b / 16) as nat);
        lemma_hex_roundtrip((b % 16) as nat);
        assert(s[0] == '%');
        assert(s[1] == hex_digit((b / 16) as nat));
        assert(s[2] == hex_digit((b % 16) as nat));
        assert(s.skip(3) =~= t);
        assert((16 * (b / 16) + b % 16) as u8 == b);
    }
}

/// An upper-case hexadecimal digit.
pub open spec fn is_upper_hex(c: char) -> bool {
    48 <= c as u32 <= 57 || 65 <= c as u32 <= 70
}

/// Percent-encoding of query components: the text holds only unreserved characters,
/// `%` and hex digits, every `%` starts a `%XX` triple with upper-case hex, unreserved
/// bytes stand for themselves, and decoding it gives back exactly the encoded bytes (so two
/// different byte strings never encode alike).
pub proof fn law_percent_encoding_roundtrip(bytes: Seq<u8>)
    ensures
        percent_decode(percent_encoded(bytes)) == Some(bytes),
        forall|i: int|
            0 <= i < percent_encoded(bytes).len() ==> is_encoded_char(#[trigger] percent_encoded(bytes)[i]),
        forall|i: int|
            0 <= i < percent_encoded(bytes).len() && #[trigger] percent_encoded(bytes)[i] == '%'
                ==> i + 2 < percent_encoded(bytes).len() && is_upper_hex(percent_encoded(bytes)[i + 1])
                && is_upper_hex(percent_encoded(bytes)[i + 2]),
        forall|b: u8| is_unreserved(b) ==> #[trigger] encode_byte(b) == seq![b as char],
    decreases bytes.len(),
{
    if bytes.len() > 0 {
        let rest = bytes.drop_first();
        law_percent_encoding_roundtrip(rest);
        lemma_encode_byte(bytes[0], percent_encoded(rest));
        let e = encode_byte(bytes[0]);
        let s = percent_encoded(bytes);
        assert(s == e + percent_encoded(rest));
        assert(seq![bytes[0]] + rest =~= bytes);
        assert forall|i: int| 0 <= i < s.len() implies is_encoded_char(#[trigger] s[i]) by {
            if i < e.len() {
                assert(s[i] == e[i]);
            } else {
                assert(s[i] == percent_encoded(rest)[i - e.len()]);
            }
        }
        assert forall|i: int| 0 <= i < s.len() && #[trigger] s[i] == '%' implies i + 2 < s.len()
            && is_upper_hex(s[i + 1]) && is_upper_hex(s[i + 2]) by {
            let r = percent_encoded(rest);
            if i < e.len() {
                assert(s[i] == e[i]);
                if is_unreserved(bytes[0]) {
                    assert((bytes[0] as char) as u32 == bytes[0]);
                } else {
                    lemma_hex_roundtrip((bytes[0] / 16) as nat);
                    lemma_hex_roundtrip((bytes[0] % 16) as nat);
                    if i > 0 {
                        assert(e[i] == hex_digit((bytes[0] / 16) as nat) || e[i] == hex_digit(
                            (bytes[0] % 16) as nat,
                        ));
                    }
                    assert(s[i + 1] == e[i + 1]);
                    assert(s[i + 2] == e[i + 2]);
                }
            } else {
                let j = i - e.len();
                assert(s[i] == r[j]);
                assert(s[i + 1] == r[j + 1]);
                assert(s[i + 2] == r[j + 2]);
            }
        }
    }
}

/// Chart keyboard hover: starting from no hover or a bucket of the chart, every key
/// leaves no hover or a bucket of the chart; an arrow always lands on a bucket, and
/// moving left then right (or right then left) away from the ends comes back.
pub proof fn law_hover_stays_in_chart(current: Option<usize>, n: usize, key: HoverKey)
    requires
        current is None || current->0 < n,
    ensures
        hover_after(current, n as nat, key) is None || hover_after(current, n as nat, key)->0 < n,
        n > 0 && (key == HoverKey::ArrowLeft || key == HoverKey::ArrowRight) ==> hover_after(
            current,
            n as nat,
            key,
        ) is Some,
        current is Some && 0 < current->0 < n - 1 ==> hover_after(
            hover_after(current, n as nat, HoverKey::ArrowLeft),
            n as nat,
            HoverKey::ArrowRight,
        ) == current && hover_after(
            hover_after(current, n as nat, HoverKey::ArrowRight),
            n as nat,
            HoverKey::ArrowLeft,
        ) == current,
{
}

/// Days before the first of month `m` (1..=13) in a common year, as the calendar tables
/// list them: 0, 31, 59, 90, 120, 151, 181, 212, 243, 273, 304, 334, 365.
pub open spec fn common_year_month_start(m: int) -> int {
    seq![0int, 31, 59, 90, 120, 151, 181, 212, 243, 273, 304, 334, 365][m - 1]
}

/// The Gregorian calendar: month `m` of year `y` starts on day
/// `common_year_month_start(m)` of the year, one day later from March on in a leap year
/// (a year divisible by 4 but not by 100, or by 400); so months 4, 6, 9 and 11 have 30
/// days, February 28 or 29, the others 31, and the year 365 or 366 days. For example
/// day 19997 after 1970-01-01 is 2024-10-01 and day 19993 is 2024-09-27.
pub proof fn law_gregorian_months(y: int, m: int)
    requires
        1 <= m <= 13,
    ensures
        days_before_month(y, m) == common_year_month_start(m) + if m > 2 && (y % 4 == 0 && (y
            % 100 != 0 || y % 400 == 0)) {
            1int
        } else {
            0int
        },
        m <= 12 ==> days_in_month(y, m) == days_before_month(y, m + 1) - days_before_month(y, m),
{
    reveal_with_fuel(days_before_month, 13);
}

/// Calendar dates around the end of September 2024: day 19993 after 1970-01-01 is
/// 2024-09-27, day 19996 is 2024-09-30 and day 19997 is 2024-10-01 (September has 30 days).
pub proof fn law_calendar_end_of_september()
    ensures
        date_of(19993) == (2024int, 9int, 27int),
        date_of(19996) == (2024int, 9int, 30int),
        date_of(19997) == (2024int, 10int, 1int),
{
    assert(common_year_month_start(10) == 273);
    assert(common_year_month_start(9) == 243);
    lemma_date_in_2024(19997, 10, 1);
    lemma_date_in_2024(19993, 9, 27);
    lemma_date_in_2024(19996, 9, 30);
}

proof fn lemma_date_in_2024(day: nat, m: int, d: int)
    requires
        1 <= m <= 12,
        1 <= d <= days_in_month(2024, m),
        day == 19723 + common_year_month_start(m) + (if m > 2 { 1int } else { 0int }) + d - 1,
    ensures
        date_of(day as int) == (2024int, m, d),
{
    assert(days_before_year(2024) == 19723) by {
        reveal_with_fuel(days_before_year, 60);
    }
    law_gregorian_months(2024, m);
    assert(is_date_of_day(day as int, 2024, m, d));
    law_date_of_day(day, 2024, m, d);
}

/// Each check compares against the snapshot of the check just before it: after a check
/// the previous snapshot is the one just checked, so a gateway seen unhealthy and then
/// healthy (or healthy and then unhealthy) by two consecutive checks, past the health
/// cooldown, gets a recovery (or a health-lost) alert, whatever the earlier history.
pub proof fn law_consecutive_health_change<M>(
    d: AnomalyDetector<M>,
    first: Snapshot<M>,
    changes: MetricChanges,
    now: u64,
    second_healthy: bool,
    changes_next: MetricChanges,
    now_next: u64,
)
    requires
        first.healthy != second_healthy,
        now <= now_next,
        now_next - now > COOLDOWN_MS,
        d.last_health_alert <= now_next,
        now_next - d.last_health_alert > COOLDOWN_MS,
    ensures
        after_check(d, first, changes, now).prev == Some(first),
        ({
            let next = reported(after_check(d, first, changes, now), second_healthy, changes_next, now_next);
            &&& second_healthy ==> next.contains(AnomalyKind::HealthRecovered)
            &&& !second_healthy ==> next.contains(AnomalyKind::HealthLost)
        }),
{
    lemma_reported_members(after_check(d, first, changes, now), second_healthy, changes_next, now_next);
}

/// The number written by a string of decimal digits (most significant first).
pub open spec fn digits_value(s: Seq<char>) -> int
    decreases s.len(),
{
    if s.len() == 0 {
        0
    } else {
        digits_value(s.drop_last()) * 10 + (s.last() as int - 48)
    }
}

proof fn lemma_decimal_value(n: nat)
    ensures
        digits_value(decimal(n)) == n,
    decreases n,
{
    let d = decimal(n);
    if n < 10 {
        assert(d.drop_last() =~= Seq::<char>::empty());
        assert(digits_value(Seq::<char>::empty()) == 0);
        assert(d.last() == digit_char(n));
        assert(digit_char(n) as int == 48 + n);
    } else {
        lemma_decimal_value(n / 10);
        assert(d.drop_last() =~= decimal(n / 10));
        assert(d.last() == digit_char(n % 10));
        assert(digit_char(n % 10) as int == 48 + n % 10);
    }
}

/// Session timeline labels: the label of an event `ts` ms into the session is `t+`, the
/// decimal digits of the whole minutes elapsed (`ts / 60000`, with no wrap-around) and
/// `m`; so reading the digits back gives the minute, and events in different minutes
/// get different labels while events in the same minute share one.
pub proof fn law_minute_label(ts: u64, other: u64)
    ensures
        ({
            let l = minute_label(ts);
            &&& l.len() >= 4
            &&& l[0] == 't' && l[1] == '+' && l.last() == 'm'
            &&& forall|i: int| 2 <= i < l.len() - 1 ==> is_ascii_digit(#[trigger] l[i])
            &&& digits_value(l.subrange(2, l.len() - 1)) == ts / 60000
        }),
        (ts / 60000 == other / 60000) <==> (minute_label(ts) == minute_label(other)),
{
    let m = (ts / 1000 / 60) as nat;
    assert(ts / 1000 / 60 == ts / 60000);
    lemma_decimal_value(m);
    lemma_decimal_digits(m);
    let l = minute_label(ts);
    reveal_strlit("t+");
    reveal_strlit("m");
    assert(l.subrange(2, l.len() - 1) =~= decimal(m));
    assert forall|i: int| 2 <= i < l.len() - 1 implies is_ascii_digit(#[trigger] l[i]) by {
        assert(l[i] == decimal(m)[i - 2]);
    }
    let mo = (other / 1000 / 60) as nat;
    assert(other / 1000 / 60 == other / 60000);
    lemma_decimal_value(mo);
    lemma_decimal_digits(mo);
    let lo = minute_label(other);
    assert(lo.subrange(2, lo.len() - 1) =~= decimal(mo));
    if minute_label(ts) == minute_label(other) {
        assert(decimal(m) == decimal(mo));
    }
}

/// Whether a text filter is set to a non-empty value.
pub open spec fn text_set(v: Option<String>) -> bool {
    v is Some && v->0@.len() > 0
}

/// `name=<encoded value>` of a text filter.
pub open spec fn text_pair(name: Seq<char>, v: Option<String>) -> Seq<char> {
    name + seq!['='] + enc(v->0@)
}

/// `name=<decimal>` of a numeric filter.
pub open spec fn number_pair(name: Seq<char>, v: Option<u64>) -> Seq<char> {
    name + seq!['='] + decimal(v->0 as nat)
}

/// How many of the ten log filters are set (text filters only when non-empty).
pub open spec fn filters_set(q: LogsFilterQuery) -> int {
    (if q.limit is Some { 1int } else { 0 }) + (if text_set(q.cursor) { 1int } else { 0 }) + (
    if text_set(q.model) { 1int } else { 0 }) + (if text_set(q.consumer) { 1int } else { 0 }) + (
    if text_set(q.cache_tier) { 1int } else { 0 }) + (if text_set(q.request_hash) { 1int } else {
        0
    }) + (if q.latency_min is Some { 1int } else { 0 }) + (if q.latency_max is Some { 1int } else {
        0
    }) + (if q.token_min is Some { 1int } else { 0 }) + (if q.token_max is Some { 1int } else { 0 })
}

proof fn lemma_text_step(p: Seq<Seq<char>>, name: Seq<char>, v: Option<String>)
    ensures
        forall|x: Seq<char>| p.contains(x) ==> #[trigger] with_text_param(p, name, v).contains(x),
        text_set(v) ==> with_text_param(p, name, v).contains(text_pair(name, v)),
        with_text_param(p, name, v).len() == p.len() + if text_set(v) { 1int } else { 0 },
        text_set(v) ==> with_text_param(p, name, v)[p.len() as int] == text_pair(name, v),
{
    let r = with_text_param(p, name, v);
    assert forall|x: Seq<char>| p.contains(x) implies #[trigger] r.contains(x) by {
        let i = choose|i: int| 0 <= i < p.len() && p[i] == x;
        assert(r[i] == x);
    }
    if text_set(v) {
        assert(r[p.len() as int] == text_pair(name, v));
    }
}

proof fn lemma_number_step(p: Seq<Seq<char>>, name: Seq<char>, v: Option<u64>)
    ensures
        forall|x: Seq<char>| p.contains(x) ==> #[trigger] with_number_param(p, name, v).contains(x),
        v is Some ==> with_number_param(p, name, v).contains(number_pair(name, v)),
        with_number_param(p, name, v).len() == p.len() + if v is Some { 1int } else { 0 },
        v is Some ==> with_number_param(p, name, v)[p.len() as int] == number_pair(name, v),
{
    let r = with_number_param(p, name, v);
    assert forall|x: Seq<char>| p.contains(x) implies #[trigger] r.contains(x) by {
        let i = choose|i: int| 0 <= i < p.len() && p[i] == x;
        assert(r[i] == x);
    }
    if v is Some {
        assert(r[p.len() as int] == number_pair(name, v));
    }
}

/// Log listing URLs: every filter that is set (a text filter only when non-empty) is sent
/// as its `name=value` parameter, the limit first and the pagination cursor right after
/// it, and there is one parameter per set filter and no other.
pub proof fn law_logs_params(q: LogsFilterQuery)
    ensures
        ({
            let ps = logs_params(q);
            &&& ps.len() == filters_set(q)
            &&& q.limit is Some ==> ps[0] == number_pair("limit"@, q.limit)
            &&& text_set(q.cursor) ==> ps[if q.limit is Some { 1int } else { 0int }]
                == text_pair("cursor"@, q.cursor)
            &&& text_set(q.cursor) ==> ps.contains(text_pair("cursor"@, q.cursor))
            &&& text_set(q.model) ==> ps.contains(text_pair("model"@, q.model))
            &&& text_set(q.consumer) ==> ps.contains(text_pair("consumer"@, q.consumer))
            &&& text_set(q.cache_tier) ==> ps.contains(text_pair("cache_tier"@, q.cache_tier))
            &&& text_set(q.request_hash) ==> ps.contains(text_pair("request_hash"@, q.request_hash))
            &&& q.latency_min is Some ==> ps.contains(number_pair("latency_min"@, q.latency_min))
            &&& q.latency_max is Some ==> ps.contains(number_pair("latency_max"@, q.latency_max))
            &&& q.token_min is Some ==> ps.contains(number_pair("token_min"@, q.token_min))
            &&& q.token_max is Some ==> ps.contains(number_pair("token_max"@, q.token_max))
        }),
{
    let p0: Seq<Seq<char>> = seq![];
    let p1 = with_number_param(p0, "limit"@, q.limit);
    lemma_number_step(p0, "limit"@, q.limit);
    let p2 = with_text_param(p1, "cursor"@, q.cursor);
    lemma_text_step(p1, "cursor"@, q.cursor);
    let p3 = with_text_param(p2, "model"@, q.model);
    lemma_text_step(p2, "model"@, q.model);
    let p4 = with_text_param(p3, "consumer"@, q.consumer);
    lemma_text_step(p3, "consumer"@, q.consumer);
    let p5 = with_text_param(p4, "cache_tier"@, q.cache_tier);
    lemma_text_step(p4, "cache_tier"@, q.cache_tier);
    let p6 = with_text_param(p5, "request_hash"@, q.request_hash);
    lemma_text_step(p5, "request_hash"@, q.request_hash);
    let p7 = with_number_param(p6, "latency_min"@, q.latency_min);
    lemma_number_step(p6, "latency_min"@, q.latency_min);
    let p8 = with_number_param(p7, "latency_max"@, q.latency_max);
    lemma_number_step(p7, "latency_max"@, q.latency_max);
    let p9 = with_number_param(p8, "token_min"@, q.token_min);
    lemma_number_step(p8, "token_min"@, q.token_min);
    let p10 = with_number_param(p9, "token_max"@, q.token_max);
    lemma_number_step(p9, "token_max"@, q.token_max);
    assert(logs_params(q) == p10);
    if q.limit is Some {
        assert(p2[0] == p1[0]);
        assert(p3[0] == p2[0]);
        assert(p4[0] == p3[0]);
        assert(p5[0] == p4[0]);
        assert(p6[0] == p5[0]);
        assert(p7[0] == p6[0]);
        assert(p8[0] == p7[0]);
        assert(p9[0] == p8[0]);
        assert(p10[0] == p9[0]);
    }
    if text_set(q.cursor) {
        let k = if q.limit is Some { 1int } else { 0int };
        assert(p3[k] == p2[k]);
        assert(p4[k] == p3[k]);
        assert(p5[k] == p4[k]);
        assert(p6[k] == p5[k]);
        assert(p7[k] == p6[k]);
        assert(p8[k] == p7[k]);
        assert(p9[k] == p8[k]);
        assert(p10[k] == p9[k]);
    }
}

/// The request-phase checkpoints with a fixed waterfall label, and their labels.
pub open spec fn phase_checkpoints() -> Seq<(Seq<char>, Seq<char>)> {
    seq![("body_read_done"@, "Body Read"@), ("json_parse_done"@, "Parse JSON"@), ("pipeline_select_done"@, "Route Select"@), ("cache_lookup_done"@, "Cache Lookup"@), ("upstream_connect_done"@, "Upstream Connect"@), ("upstream_headers_sent"@, "TLS Handshake"@), ("upstream_body_sent"@, "Send Request"@), ("upstream_response_headers"@, "Wait First Byte"@), ("ttft"@, "TTFT"@), ("prefill_done"@, "Prefill"@), ("upstream_body_done"@, "Response Body"@), ("cache_write_done"@, "Cache Write"@), ("logging_done"@, "Logging"@)]
}

proof fn lemma_checkpoint(i: int)
    requires
        0 <= i < phase_checkpoints().len(),
    ensures
        known_phase_label(phase_checkpoints()[i].0) == Some(phase_checkpoints()[i].1),
        phase_checkpoints()[i].1.len() == seq![9nat, 10, 12, 12, 16, 13, 12, 15, 4, 7, 13, 11, 7][i],
        phase_checkpoints()[i].1[0] == seq!['B', 'P', 'R', 'C', 'U', 'T', 'S', 'W', 'T', 'P', 'R', 'C', 'L'][i],
{
    let t = phase_checkpoints();
    reveal_strlit("body_read_done");
    reveal_strlit("json_parse_done");
    reveal_strlit("pipeline_select_done");
    reveal_strlit("cache_lookup_done");
    reveal_strlit("upstream_connect_done");
    reveal_strlit("upstream_headers_sent");
    reveal_strlit("upstream_body_sent");
    reveal_strlit("upstream_response_headers");
    reveal_strlit("ttft");
    reveal_strlit("prefill_done");
    reveal_strlit("upstream_body_done");
    reveal_strlit("cache_write_done");
    reveal_strlit("logging_done");
    if i == 0 {
        reveal_strlit("body_read_done");
        reveal_strlit("Body Read");
        assert(t[i] == ("body_read_done"@, "Body Read"@));
    } else if i == 1 {
        reveal_strlit("json_parse_done");
        reveal_strlit("Parse JSON");
        assert("json_parse_done"@.len() != "body_read_done"@.len());
        assert(t[i] == ("json_parse_done"@, "Parse JSON"@));
    } else if i == 2 {
        reveal_strlit("pipeline_select_done");
        reveal_strlit("Route Select");
        assert("pipeline_select_done"@.len() != "body_read_done"@.len());
        assert("pipeline_select_done"@.len() != "json_parse_done"@.len());
        assert(t[i] == ("pipeline_select_done"@, "Route Select"@));
    } else if i == 3 {
        reveal_strlit("cache_lookup_done");
        reveal_strlit("Cache Lookup");
        assert("cache_lookup_done"@.len() != "body_read_done"@.len());
        assert("cache_lookup_done"@.len() != "json_parse_done"@.len());
        assert("cache_lookup_done"@.len() != "pipeline_select_done"@.len());
        assert(t[i] == ("cache_lookup_done"@, "Cache Lookup"@));
    } else if i == 4 {
        reveal_strlit("upstream_connect_done");
        reveal_strlit("Upstream Connect");
        assert("upstream_connect_done"@.len() != "body_read_done"@.len());
        assert("upstream_connect_done"@.len() != "json_parse_done"@.len());
        assert("upstream_connect_done"@.len() != "pipeline_select_done"@.len());
        assert("upstream_connect_done"@.len() != "cache_lookup_done"@.len());
        assert(t[i] == ("upstream_connect_done"@, "Upstream Connect"@));
    } else if i == 5 {
        reveal_strlit("upstream_headers_sent");
        reveal_strlit("TLS Handshake");
        assert("upstream_headers_sent"@.len() != "body_read_done"@.len());
        assert("upstream_headers_sent"@.len() != "json_parse_done"@.len());
        assert("upstream_headers_sent"@.len() != "pipeline_select_done"@.len());
        assert("upstream_headers_sent"@.len() != "cache_lookup_done"@.len());
        assert("upstream_headers_sent"@[9] != "upstream_connect_done"@[9]);
        assert(t[i] == ("upstream_headers_sent"@, "TLS Handshake"@));
    } else if i == 6 {
        reveal_strlit("upstream_body_sent");
        reveal_strlit("Send Request");
        assert("upstream_body_sent"@.len() != "body_read_done"@.len());
        assert("upstream_body_sent"@.len() != "json_parse_done"@.len());
        assert("upstream_body_sent"@.len() != "pipeline_select_done"@.len());
        assert("upstream_body_sent"@.len() != "cache_lookup_done"@.len());
        assert("upstream_body_sent"@.len() != "upstream_connect_done"@.len());
        assert("upstream_body_sent"@.len() != "upstream_headers_sent"@.len());
        assert(t[i] == ("upstream_body_sent"@, "Send Request"@));
    } else if i == 7 {
        reveal_strlit("upstream_response_headers");
        reveal_strlit("Wait First Byte");
        assert("upstream_response_headers"@.len() != "body_read_done"@.len());
        assert("upstream_response_headers"@.len() != "json_parse_done"@.len());
        assert("upstream_response_headers"@.len() != "pipeline_select_done"@.len());
        assert("upstream_response_headers"@.len() != "cache_lookup_done"@.len());
        assert("upstream_response_headers"@.len() != "upstream_connect_done"@.len());
        assert("upstream_response_headers"@.len() != "upstream_headers_sent"@.len());
        assert("upstream_response_headers"@.len() != "upstream_body_sent"@.len());
        assert(t[i] == ("upstream_response_headers"@, "Wait First Byte"@));
    } else if i == 8 {
        reveal_strlit("ttft");
        reveal_strlit("TTFT");
        assert("ttft"@.len() != "body_read_done"@.len());
        assert("ttft"@.len() != "json_parse_done"@.len());
        assert("ttft"@.len() != "pipeline_select_done"@.len());
        assert("ttft"@.len() != "cache_lookup_done"@.len());
        assert("ttft"@.len() != "upstream_connect_done"@.len());
        assert("ttft"@.len() != "upstream_headers_sent"@.len());
        assert("ttft"@.len() != "upstream_body_sent"@.len());
        assert("ttft"@.len() != "upstream_response_headers"@.len());
        assert(t[i] == ("ttft"@, "TTFT"@));
    } else if i == 9 {
        reveal_strlit("prefill_done");
        reveal_strlit("Prefill");
        assert("prefill_done"@.len() != "body_read_done"@.len());
        assert("prefill_done"@.len() != "json_parse_done"@.len());
        assert("prefill_done"@.len() != "pipeline_select_done"@.len());
        assert("prefill_done"@.len() != "cache_lookup_done"@.len());
        assert("prefill_done"@.len() != "upstream_connect_done"@.len());
        assert("prefill_done"@.len() != "upstream_headers_sent"@.len());
        assert("prefill_done"@.len() != "upstream_body_sent"@.len());
        assert("prefill_done"@.len() != "upstream_response_headers"@.len());
        assert("prefill_done"@.len() != "ttft"@.len());
        assert(t[i] == ("prefill_done"@, "Prefill"@));
    } else if i == 10 {
        reveal_strlit("upstream_body_done");
        reveal_strlit("Response Body");
        assert("upstream_body_done"@.len() != "body_read_done"@.len());
        assert("upstream_body_done"@.len() != "json_parse_done"@.len());
        assert("upstream_body_done"@.len() != "pipeline_select_done"@.len());
        assert("upstream_body_done"@.len() != "cache_lookup_done"@.len());
        assert("upstream_body_done"@.len() != "upstream_connect_done"@.len());
        assert("upstream_body_done"@.len() != "upstream_headers_sent"@.len());
        assert("upstream_body_done"@[14] != "upstream_body_sent"@[14]);
        assert("upstream_body_done"@.len() != "upstream_response_headers"@.len());
        assert("upstream_body_done"@.len() != "ttft"@.len());
        assert("upstream_body_done"@.len() != "prefill_done"@.len());
        assert(t[i] == ("upstream_body_done"@, "Response Body"@));
    } else if i == 11 {
        reveal_strlit("cache_write_done");
        reveal_strlit("Cache Write");
        assert("cache_write_done"@.len() != "body_read_done"@.len());
        assert("cache_write_done"@.len() != "json_parse_done"@.len());
        assert("cache_write_done"@.len() != "pipeline_select_done"@.len());
        assert("cache_write_done"@.len() != "cache_lookup_done"@.len());
        assert("cache_write_done"@.len() != "upstream_connect_done"@.len());
        assert("cache_write_done"@.len() != "upstream_headers_sent"@.len());
        assert("cache_write_done"@.len() != "upstream_body_sent"@.len());
        assert("cache_write_done"@.len() != "upstream_response_headers"@.len());
        assert("cache_write_done"@.len() != "ttft"@.len());
        assert("cache_write_done"@.len() != "prefill_done"@.len());
        assert("cache_write_done"@.len() != "upstream_body_done"@.len());
        assert(t[i] == ("cache_write_done"@, "Cache Write"@));
    } else if i == 12 {
        reveal_strlit("logging_done");
        reveal_strlit("Logging");
        assert("logging_done"@.len() != "body_read_done"@.len());
        assert("logging_done"@.len() != "json_parse_done"@.len());
        assert("logging_done"@.len() != "pipeline_select_done"@.len());
        assert("logging_done"@.len() != "cache_lookup_done"@.len());
        assert("logging_done"@.len() != "upstream_connect_done"@.len());
        assert("logging_done"@.len() != "upstream_headers_sent"@.len());
        assert("logging_done"@.len() != "upstream_body_sent"@.len());
        assert("logging_done"@.len() != "upstream_response_headers"@.len());
        assert("logging_done"@.len() != "ttft"@.len());
        assert("logging_done"@[0] != "prefill_done"@[0]);
        assert("logging_done"@.len() != "upstream_body_done"@.len());
        assert("logging_done"@.len() != "cache_write_done"@.len());
        assert(t[i] == ("logging_done"@, "Logging"@));
    }
}

/// Waterfall phase labels: each known checkpoint shows its own label, and no two
/// checkpoints share a label (a cache lookup never reads as a cache write).
pub proof fn law_phase_labels(i: int, j: int)
    requires
        0 <= i < phase_checkpoints().len(),
        0 <= j < phase_checkpoints().len(),
    ensures
        known_phase_label(phase_checkpoints()[i].0) == Some(phase_checkpoints()[i].1),
        phase_label_text(phase_checkpoints()[i].0) == phase_checkpoints()[i].1,
        i != j ==> phase_label_text(phase_checkpoints()[i].0) != phase_label_text(
            phase_checkpoints()[j].0,
        ),
{
    lemma_checkpoint(i);
    lemma_checkpoint(j);
    let lens = seq![9nat, 10, 12, 12, 16, 13, 12, 15, 4, 7, 13, 11, 7];
    let firsts = seq!['B', 'P', 'R', 'C', 'U', 'T', 'S', 'W', 'T', 'P', 'R', 'C', 'L'];
    assert(i != j ==> lens[i] != lens[j] || firsts[i] != firsts[j]);
}

/// Beijing time is UTC+8: its hour is the UTC hour plus 8 (mod 24), its minute and second
/// are the UTC ones, and its calendar day is the UTC day, one later from 16:00 UTC on.
pub proof fn law_beijing_is_utc_plus_8(ms: nat)
    ensures
        beijing_hms(ms).0 == ((ms / 3_600_000) % 24 + 8) % 24,
        beijing_hms(ms).1 == (ms / 60_000) % 60,
        beijing_hms(ms).2 == (ms / 1000) % 60,
        beijing_day(ms) == ms / 86_400_000 + if (ms / 3_600_000) % 24 >= 16 { 1int } else { 0int },
{
    let s = ms / 1000;
    vstd::arithmetic::div_mod::lemma_div_denominator(ms as int, 1000, 3600);
    vstd::arithmetic::div_mod::lemma_div_denominator(ms as int, 1000, 60);
    vstd::arithmetic::div_mod::lemma_div_denominator(ms as int, 1000, 86400);
    let b = s + 28800;
    assert(((b % 86400) / 3600) == ((s / 3600) % 24 + 8) % 24) by (nonlinear_arith)
        requires b == s + 28800, s >= 0;
    assert(((b % 86400) % 3600) / 60 == (s / 60) % 60) by (nonlinear_arith)
        requires b == s + 28800, s >= 0;
    assert((b % 86400) % 60 == s % 60) by (nonlinear_arith)
        requires b == s + 28800, s >= 0;
    assert(b / 86400 == s / 86400 + if (s / 3600) % 24 >= 16 { 1int } else { 0int })
        by (nonlinear_arith)
        requires b == s + 28800, s >= 0;
}

} // verus!
