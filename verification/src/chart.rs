//! Chart helpers: axis tick thinning, trend source selection and request-phase labels.

use vstd::prelude::*;
use vstd::string::StringExecFns;

use crate::text::{
    ascii_upper, chars_of, ends_with, prefix_of, str_eq, string_of, strip_suffix, to_ascii_upper,
};

verus! {

/// Indices `start, start + step, ...` strictly below `end`.
pub open spec fn stepped_indices(start: int, end: int, step: int) -> Seq<usize>
    decreases (if start < end { end - start } else { 0 }),
{
    if step <= 0 || start >= end {
        seq![]
    } else {
        seq![start as usize] + stepped_indices(start + step, end, step)
    }
}

/// The X label indices that a chart with `count` buckets shows for at most
/// `max_ticks` labels: all of them when they fit, otherwise every
/// `count / max_ticks`-th one, always ending with the last bucket.
pub open spec fn tick_indices(count: nat, max_ticks: nat) -> Seq<usize> {
    if count == 0 {
        seq![]
    } else if count <= max_ticks {
        stepped_indices(0, count as int, 1)
    } else {
        let step = if count / max_ticks >= 1 { count / max_ticks } else { 1 };
        let base = stepped_indices(0, count as int, step as int);
        if base.len() > 0 && base.last() == (count - 1) as usize {
            base
        } else {
            base.push((count - 1) as usize)
        }
    }
}

/// Pick ~max_ticks X label indices (plotters-style mesh thinning).
pub fn x_tick_indices(count: usize, max_ticks: usize) -> (out: Vec<usize>)
    requires
        count == 0 || max_ticks > 0,
    ensures
        out@ == tick_indices(count as nat, max_ticks as nat),
{
    let mut out: Vec<usize> = Vec::new();
    if count == 0 {
        return out;
    }
    let step: usize = if count <= max_ticks {
        1
    } else if count / max_ticks >= 1 {
        count / max_ticks
    } else {
        1
    };
    let ghost whole = stepped_indices(0, count as int, step as int);
    let mut i: usize = 0;
    loop
        invariant_except_break
            step >= 1,
            i < count,
            out@ + stepped_indices(i as int, count as int, step as int) == whole,
        ensures
            out@ == whole,
            out@.len() > 0,
        decreases count - i,
    {
        let ghost prev = out@;
        out.push(i);
        assert(out@ + stepped_indices(i + step, count as int, step as int) =~= whole) by {
            assert(stepped_indices(i as int, count as int, step as int) == seq![i as usize]
                + stepped_indices(i + step, count as int, step as int));
        }
        if step >= count - i {
            assert(stepped_indices(i + step, count as int, step as int) == Seq::<usize>::empty());
            assert(out@ =~= whole);
            break;
        }
        i = i + step;
    }
    if count > max_ticks {
        if out[out.len() - 1] != count - 1 {
            out.push(count - 1);
        }
    }
    out
}

/// The points that mini trend lines use: the daily buckets when there are any,
/// the hourly ones otherwise.
pub fn trend_points<'a, T>(daily_stats: &'a [T], hourly_stats: &'a [T]) -> (r: &'a [T])
    ensures
        r@ == if daily_stats@.len() > 0 { daily_stats@ } else { hourly_stats@ },
{
    if daily_stats.len() > 0 {
        daily_stats
    } else {
        hourly_stats
    }
}

/// The display label of a known request-phase checkpoint.
pub open spec fn known_phase_label(name: Seq<char>) -> Option<Seq<char>> {
    if name == "body_read_done"@ {
        Some("Body Read"@)
    } else if name == "json_parse_done"@ {
        Some("Parse JSON"@)
    } else if name == "pipeline_select_done"@ {
        Some("Route Select"@)
    } else if name == "cache_lookup_done"@ {
        Some("Cache Lookup"@)
    } else if name == "upstream_connect_done"@ {
        Some("Upstream Connect"@)
    } else if name == "upstream_headers_sent"@ {
        Some("TLS Handshake"@)
    } else if name == "upstream_body_sent"@ {
        Some("Send Request"@)
    } else if name == "upstream_response_headers"@ {
        Some("Wait First Byte"@)
    } else if name == "ttft"@ {
        Some("TTFT"@)
    } else if name == "prefill_done"@ {
        Some("Prefill"@)
    } else if name == "upstream_body_done"@ {
        Some("Response Body"@)
    } else if name == "cache_write_done"@ {
        Some("Cache Write"@)
    } else if name == "logging_done"@ {
        Some("Logging"@)
    } else {
        None
    }
}

/// A checkpoint name without its `_done`, `_start` or `_sent` suffix (the first that applies).
pub open spec fn phase_stem(name: Seq<char>) -> Seq<char> {
    match strip_suffix(name, "_done"@) {
        Some(s) => s,
        None => match strip_suffix(name, "_start"@) {
            Some(s) => s,
            None => match strip_suffix(name, "_sent"@) {
                Some(s) => s,
                None => name,
            },
        },
    }
}

/// snake_case to Title Case: `_` is dropped and the next character is upper-cased
/// (ASCII), as is the first character.
pub open spec fn title_case_from(s: Seq<char>, capitalize: bool) -> Seq<char>
    decreases s.len(),
{
    if s.len() == 0 {
        seq![]
    } else if s[0] == '_' {
        title_case_from(s.drop_first(), true)
    } else if capitalize {
        seq![ascii_upper(s[0])] + title_case_from(s.drop_first(), false)
    } else {
        seq![s[0]] + title_case_from(s.drop_first(), false)
    }
}

/// The human-readable label of a request-phase checkpoint name.
pub open spec fn phase_label_text(name: Seq<char>) -> Seq<char> {
    match known_phase_label(name) {
        Some(label) => label,
        None => title_case_from(phase_stem(name), true),
    }
}

fn stem_of(name: &str) -> (r: Vec<char>)
    ensures
        r@ == phase_stem(name@),
{
    let v = chars_of(name);
    let done = chars_of("_done");
    if ends_with(&v, &done) {
        return prefix_of(&v, v.len() - done.len());
    }
    let start = chars_of("_start");
    if ends_with(&v, &start) {
        return prefix_of(&v, v.len() - start.len());
    }
    let sent = chars_of("_sent");
    if ends_with(&v, &sent) {
        return prefix_of(&v, v.len() - sent.len());
    }
    v
}

fn title_case(s: &Vec<char>) -> (r: Vec<char>)
    ensures
        r@ == title_case_from(s@, true),
{
    let mut out: Vec<char> = Vec::new();
    let mut capitalize = true;
    let mut i: usize = 0;
    assert(s@.skip(0) =~= s@);
    assert(out@ + s@ =~= s@);
    while i < s.len()
        invariant
            i <= s.len(),
            out@ + title_case_from(s@.skip(i as int), capitalize) == title_case_from(s@, true),
        decreases s.len() - i,
    {
        let ghost rest = s@.skip(i as int);
        assert(rest.drop_first() =~= s@.skip(i + 1));
        let ch = s[i];
        if ch == '_' {
            capitalize = true;
        } else if capitalize {
            out.push(to_ascii_upper(ch));
            capitalize = false;
        } else {
            out.push(ch);
        }
        i = i + 1;
        assert(out@ + title_case_from(s@.skip(i as int), capitalize) =~= title_case_from(s@, true));
    }
    assert(s@.skip(s.len() as int) =~= Seq::<char>::empty());
    assert(out@ =~= title_case_from(s@, true));
    out
}

/// Map internal phase checkpoint names to human-readable labels.
pub fn phase_label(name: &str) -> (label: String)
    ensures
        label@ == phase_label_text(name@),
{
    if str_eq(name, "body_read_done") {
        return String::from_str("Body Read");
    }
    if str_eq(name, "json_parse_done") {
        return String::from_str("Parse JSON");
    }
    if str_eq(name, "pipeline_select_done") {
        return String::from_str("Route Select");
    }
    if str_eq(name, "cache_lookup_done") {
        return String::from_str("Cache Lookup");
    }
    if str_eq(name, "upstream_connect_done") {
        return String::from_str("Upstream Connect");
    }
    if str_eq(name, "upstream_headers_sent") {
        return String::from_str("TLS Handshake");
    }
    if str_eq(name, "upstream_body_sent") {
        return String::from_str("Send Request");
    }
    if str_eq(name, "upstream_response_headers") {
        return String::from_str("Wait First Byte");
    }
    if str_eq(name, "ttft") {
        return String::from_str("TTFT");
    }
    if str_eq(name, "prefill_done") {
        return String::from_str("Prefill");
    }
    if str_eq(name, "upstream_body_done") {
        return String::from_str("Response Body");
    }
    if str_eq(name, "cache_write_done") {
        return String::from_str("Cache Write");
    }
    if str_eq(name, "logging_done") {
        return String::from_str("Logging");
    }
    let stem = stem_of(name);
    string_of(&title_case(&stem))
}


/// Length of the run of kept points that starts at `i`.
pub open spec fn run_len(keep: Seq<bool>, i: int) -> nat
    decreases keep.len() - i,
{
    if 0 <= i < keep.len() && keep[i] {
        1 + run_len(keep, i + 1)
    } else {
        0
    }
}

/// The maximal runs of kept points from `i` on, left to right, as `(start, length)`.
pub open spec fn runs_from(keep: Seq<bool>, i: int) -> Seq<(int, nat)>
    decreases keep.len() - i, 1nat,
{
    if i < 0 || i >= keep.len() {
        seq![]
    } else if !keep[i] {
        runs_from(keep, i + 1)
    } else {
        proof {
            lemma_run_len_positive(keep, i);
        }
        seq![(i, run_len(keep, i))] + runs_from(keep, i + run_len(keep, i))
    }
}

/// A run that starts at a kept point has at least that point and ends inside the series.
pub proof fn lemma_run_len_positive(keep: Seq<bool>, i: int)
    requires
        0 <= i < keep.len(),
        keep[i],
    ensures
        1 <= run_len(keep, i) <= keep.len() - i,
    decreases keep.len() - i,
{
    if i + 1 < keep.len() && keep[i + 1] {
        lemma_run_len_positive(keep, i + 1);
    } else {
        assert(run_len(keep, i + 1) == 0);
    }
}

/// The segments a line chart draws: each maximal run of kept points (a value that is
/// finite and positive) with the index where it starts and its values.
pub open spec fn value_segments_spec<T>(values: Seq<T>, keep: Seq<bool>) -> Seq<(usize, Seq<T>)> {
    runs_from(keep, 0).map_values(
        |r: (int, nat)| (r.0 as usize, values.subrange(r.0, r.0 + r.1)),
    )
}

/// Splits a series into its drawable segments: the maximal runs of points marked in
/// `keep`, each with its start index and values, left to right.
pub fn value_segments_indexed<T: Copy>(values: &[T], keep: &[bool]) -> (out: Vec<(usize, Vec<T>)>)
    requires
        values@.len() == keep@.len(),
    ensures
        out@.len() == value_segments_spec(values@, keep@).len(),
        forall|j: int|
            0 <= j < out@.len() ==> (#[trigger] out@[j]).0 == value_segments_spec(values@, keep@)[j].0
                && out@[j].1@ == value_segments_spec(values@, keep@)[j].1,
{
    let n = keep.len();
    let ghost all = runs_from(keep@, 0);
    let mut out: Vec<(usize, Vec<T>)> = Vec::new();
    let mut i: usize = 0;
    while i < n
        invariant
            n == keep@.len() == values@.len(),
            i <= n,
            out@.len() + runs_from(keep@, i as int).len() == all.len(),
            forall|j: int|
                0 <= j < out@.len() ==> (#[trigger] out@[j]).0 == all[j].0 && out@[j].1@
                    == values@.subrange(all[j].0, all[j].0 + all[j].1),
            forall|j: int|
                0 <= j < runs_from(keep@, i as int).len() ==> #[trigger] runs_from(keep@, i as int)[j]
                    == all[out@.len() + j],
        decreases n - i,
    {
        if !keep[i] {
            i = i + 1;
        } else {
            let start = i;
            proof {
                lemma_run_len_positive(keep@, start as int);
            }
            let ghost rest = runs_from(keep@, start as int);
            assert(rest[0] == (start as int, run_len(keep@, start as int)));
            let mut seg: Vec<T> = Vec::new();
            while i < n && keep[i]
                invariant
                    n == keep@.len() == values@.len(),
                    start <= i <= n,
                    run_len(keep@, start as int) == (i - start) + run_len(keep@, i as int),
                    seg@ == values@.subrange(start as int, i as int),
                decreases n - i,
            {
                seg.push(values[i]);
                i = i + 1;
                assert(seg@ =~= values@.subrange(start as int, i as int));
            }
            assert(run_len(keep@, i as int) == 0);
            let ghost k = out@.len();
            out.push((start, seg));
            assert forall|j: int| 0 <= j < runs_from(keep@, i as int).len() implies #[trigger] runs_from(
                keep@,
                i as int,
            )[j] == all[out@.len() + j] by {
                assert(rest[j + 1] == runs_from(keep@, i as int)[j]);
            }
        }
    }
    assert(value_segments_spec(values@, keep@).len() == all.len());
    out
}


/// A key pressed on a focused chart.
#[derive(Clone, Copy, PartialEq, Eq, Debug)]
pub enum HoverKey {
    ArrowLeft,
    ArrowRight,
    Escape,
    /// Any other key: the chart ignores it.
    Other,
}

/// The hover key named by a `KeyboardEvent.key` value.
pub fn hover_key(key: &str) -> (k: HoverKey)
    ensures
        k == if key@ == "ArrowLeft"@ {
            HoverKey::ArrowLeft
        } else if key@ == "ArrowRight"@ {
            HoverKey::ArrowRight
        } else if key@ == "Escape"@ {
            HoverKey::Escape
        } else {
            HoverKey::Other
        },
{
    if str_eq(key, "ArrowLeft") {
        HoverKey::ArrowLeft
    } else if str_eq(key, "ArrowRight") {
        HoverKey::ArrowRight
    } else if str_eq(key, "Escape") {
        HoverKey::Escape
    } else {
        HoverKey::Other
    }
}

/// The hovered bucket after a key press on a chart with `n` buckets: the arrows move
/// one bucket (entering from the far end when nothing is hovered and stopping at the
/// ends), Escape clears the hover; other keys, and a chart without buckets, leave it.
pub open spec fn hover_after(current: Option<usize>, n: nat, key: HoverKey) -> Option<usize> {
    if n == 0 {
        current
    } else {
        match key {
            HoverKey::ArrowLeft => match current {
                Some(i) => if i > 0 { Some((i - 1) as usize) } else { current },
                None => Some((n - 1) as usize),
            },
            HoverKey::ArrowRight => match current {
                Some(i) => if i < n - 1 { Some((i + 1) as usize) } else { current },
                None => Some(0),
            },
            HoverKey::Escape => None,
            HoverKey::Other => current,
        }
    }
}

/// Keyboard navigation of a chart's hovered bucket.
pub fn hover_after_key(current: Option<usize>, n: usize, key: HoverKey) -> (next: Option<usize>)
    ensures
        next == hover_after(current, n as nat, key),
{
    if n == 0 {
        return current;
    }
    match key {
        HoverKey::ArrowLeft => match current {
            Some(i) => if i > 0 { Some(i - 1) } else { current },
            None => Some(n - 1),
        },
        HoverKey::ArrowRight => match current {
            Some(i) => if i < n - 1 { Some(i + 1) } else { current },
            None => Some(0),
        },
        HoverKey::Escape => None,
        HoverKey::Other => current,
    }
}

/// Focusing a chart that has something to show hovers its first bucket when nothing is
/// hovered yet; otherwise the hover stays.
pub fn hover_on_focus(current: Option<usize>, has_buckets: bool) -> (next: Option<usize>)
    ensures
        next == if has_buckets && current is None { Some(0usize) } else { current },
{
    if has_buckets && current.is_none() {
        Some(0)
    } else {
        current
    }
}

} // verus!

