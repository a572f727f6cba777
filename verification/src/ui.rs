//! Small presentation rules: tab selection from the query string, CSS classes and labels.

use vstd::prelude::*;

use crate::text::{
    ascii_lower, chars_match, chars_of, decimal, find_char, first_index_of,
    lemma_encode_utf8_concat, lemma_first_index_of, lemma_first_index_unique, lowercase_ascii,
    push_decimal, push_str, slice_chars, str_eq, string_of, trim_ws, trimmed_chars,
};

verus! {

/// `s` without its leading run of `c`.
pub open spec fn skip_leading(s: Seq<char>, c: char) -> Seq<char>
    decreases s.len(),
{
    if s.len() > 0 && s[0] == c {
        skip_leading(s.drop_first(), c)
    } else {
        s
    }
}

/// The `&`-separated pieces of a query string (an empty query is one empty piece).
pub open spec fn query_pieces(s: Seq<char>) -> Seq<Seq<char>>
    decreases s.len(),
{
    let i = first_index_of(s, '&');
    if i >= s.len() {
        seq![s]
    } else {
        proof {
            lemma_first_index_of(s, '&');
        }
        seq![s.take(i)] + query_pieces(s.skip(i + 1))
    }
}

/// The value of a `key=value` piece for `key` (split at the first `=`).
pub open spec fn param_value(piece: Seq<char>, key: Seq<char>) -> Option<Seq<char>> {
    let i = first_index_of(piece, '=');
    if i < piece.len() && piece.take(i) == key {
        Some(piece.skip(i + 1))
    } else {
        None
    }
}

/// The value of the first piece that is a `key=value` pair for `key`.
pub open spec fn first_param_value(pieces: Seq<Seq<char>>, key: Seq<char>) -> Option<Seq<char>>
    decreases pieces.len(),
{
    if pieces.len() == 0 {
        None
    } else if param_value(pieces[0], key) is Some {
        param_value(pieces[0], key)
    } else {
        first_param_value(pieces.drop_first(), key)
    }
}

/// The index paired with the first tab named `value`.
pub open spec fn tab_index_for(tabs: Seq<(&str, usize)>, value: Seq<char>) -> Option<usize>
    decreases tabs.len(),
{
    if tabs.len() == 0 {
        None
    } else if tabs[0].0@ == value {
        Some(tabs[0].1)
    } else {
        tab_index_for(tabs.drop_first(), value)
    }
}

/// The tab that a location search string (`?tab=...&...`) selects, if any.
pub open spec fn selected_tab(search: Seq<char>, tabs: Seq<(&str, usize)>) -> Option<usize> {
    match first_param_value(query_pieces(skip_leading(search, '?')), "tab"@) {
        Some(v) => tab_index_for(tabs, v),
        None => None,
    }
}

fn tab_lookup(tabs: &[(&str, usize)], value: &str) -> (r: Option<usize>)
    ensures
        r == tab_index_for(tabs@, value@),
{
    let mut i: usize = 0;
    assert(tabs@.skip(0) =~= tabs@);
    while i < tabs.len()
        invariant
            i <= tabs.len(),
            tab_index_for(tabs@, value@) == tab_index_for(tabs@.skip(i as int), value@),
        decreases tabs.len() - i,
    {
        assert(tabs@.skip(i as int).drop_first() =~= tabs@.skip(i + 1));
        let (name, index) = tabs[i];
        if str_eq(name, value) {
            return Some(index);
        }
        i = i + 1;
    }
    assert(tabs@.skip(i as int) =~= Seq::<(&str, usize)>::empty());
    None
}

/// The tab index that `?tab=<name>` selects among `(name, index)` pairs, if any.
pub fn tab_from_query(search: &str, tabs: &[(&str, usize)]) -> (r: Option<usize>)
    ensures
        r == selected_tab(search@, tabs@),
{
    let v = chars_of(search);
    let mut start: usize = 0;
    assert(v@.skip(0) =~= v@);
    while start < v.len() && v[start] == '?'
        invariant
            start <= v.len(),
            skip_leading(v@, '?') == skip_leading(v@.skip(start as int), '?'),
        decreases v.len() - start,
    {
        assert(v@.skip(start as int).drop_first() =~= v@.skip(start + 1));
        start = start + 1;
    }
    assert(skip_leading(v@.skip(start as int), '?') == v@.skip(start as int));
    let ghost key = "tab"@;
    let ghost target = first_param_value(query_pieces(v@.skip(start as int)), key);
    let mut pos = start;
    loop
        invariant
            start <= pos <= v.len(),
            v@ == search@,
            target == first_param_value(query_pieces(v@.skip(start as int)), key),
            key == "tab"@,
            skip_leading(search@, '?') == v@.skip(start as int),
            target == first_param_value(query_pieces(v@.skip(pos as int)), key),
        decreases v.len() - pos,
    {
        let ghost rest = v@.skip(pos as int);
        let end = find_char(&v, pos, '&');
        let eq = find_char(&v, pos, '=');
        let ghost piece = v@.subrange(pos as int, end as int);
        proof {
            lemma_first_index_of(rest, '&');
            assert(end - pos == first_index_of(rest, '&'));
            assert(piece =~= rest.take(end - pos));
            if end < v.len() {
                assert(rest.skip(end - pos + 1) =~= v@.skip(end + 1));
                assert(query_pieces(rest) == seq![rest.take(end - pos)] + query_pieces(
                    rest.skip(end - pos + 1),
                ));
            } else {
                assert(rest.take(end - pos) =~= rest);
                assert(query_pieces(rest) == seq![rest]);
            }
            lemma_first_index_of(rest, '=');
            if eq < end {
                assert forall|j: int| 0 <= j < eq - pos implies piece[j] != '=' by {
                    assert(piece[j] == rest[j]);
                }
                assert(piece[eq - pos] == rest[eq - pos]);
                lemma_first_index_unique(piece, '=', eq - pos);
                assert(piece.take(eq - pos) =~= v@.subrange(pos as int, eq as int));
                assert(piece.skip(eq - pos + 1) =~= v@.subrange(eq + 1, end as int));
            } else {
                assert forall|j: int| 0 <= j < piece.len() implies piece[j] != '=' by {
                    assert(piece[j] == rest[j]);
                }
                lemma_first_index_unique(piece, '=', piece.len() as int);
            }
        }
        let is_tab = eq < end && chars_match(&v, pos, eq, "tab");
        proof {
            assert(query_pieces(rest)[0] == piece);
            if is_tab {
                assert(param_value(piece, key) == Some(v@.subrange(eq + 1, end as int)));
            } else {
                assert(param_value(piece, key) is None);
                assert(query_pieces(rest).drop_first() == query_pieces(v@.skip(end + 1)) || end
                    >= v.len());
            }
        }
        if is_tab {
            let value = string_of(&slice_chars(&v, eq + 1, end));
            return tab_lookup(tabs, value.as_str());
        }
        if end >= v.len() {
            assert(query_pieces(rest).drop_first() =~= Seq::<Seq<char>>::empty());
            assert(first_param_value(query_pieces(rest).drop_first(), key) is None);
            assert(target is None);
            return None;
        }
        assert(query_pieces(rest).drop_first() =~= query_pieces(v@.skip(end + 1)));
        pos = end + 1;
    }
}

/// CSS classes of an alert banner of the given variant.
pub fn alert_class(variant: &str) -> (c: &'static str)
    ensures
        c@ == if variant@ == "success"@ {
            "alert alert-success"@
        } else if variant@ == "warning"@ {
            "alert alert-warning"@
        } else if variant@ == "error"@ {
            "alert alert-error"@
        } else {
            "alert alert-info"@
        },
{
    if str_eq(variant, "success") {
        "alert alert-success"
    } else if str_eq(variant, "warning") {
        "alert alert-warning"
    } else if str_eq(variant, "error") {
        "alert alert-error"
    } else {
        "alert alert-info"
    }
}


/// Gateway uptime in its largest whole unit: `3d`, `5h`, `12m` or `40s`.
pub fn format_uptime(secs: u64) -> (s: String)
    ensures
        s@ == if secs >= 86_400 {
            decimal((secs / 86_400) as nat) + "d"@
        } else if secs >= 3_600 {
            decimal((secs / 3_600) as nat) + "h"@
        } else if secs >= 60 {
            decimal((secs / 60) as nat) + "m"@
        } else {
            decimal(secs as nat) + "s"@
        },
{
    let mut s = String::new();
    if secs >= 86_400 {
        push_decimal(&mut s, secs / 86_400);
        push_str(&mut s, "d");
    } else if secs >= 3_600 {
        push_decimal(&mut s, secs / 3_600);
        push_str(&mut s, "h");
    } else if secs >= 60 {
        push_decimal(&mut s, secs / 60);
        push_str(&mut s, "m");
    } else {
        push_decimal(&mut s, secs);
        push_str(&mut s, "s");
    }
    s
}

/// Session-timeline bucket label `t+<minutes>m` for a time offset in ms.
pub fn minute_bucket_label(ts_ms: u64) -> (s: String)
    ensures
        s@ == "t+"@ + decimal((ts_ms / 1000 / 60) as nat) + "m"@,
{
    let mut s = String::new();
    push_str(&mut s, "t+");
    push_decimal(&mut s, (ts_ms / 1000) / 60);
    push_str(&mut s, "m");
    s
}

/// An upstream account id shortened for display: `default` for a blank or default id,
/// the trimmed id when it has at most 12 bytes, otherwise its first 8 and last 4 bytes
/// around an ellipsis.
pub fn short_account_id(account_id: &str) -> (s: String)
    requires
        ({
            let t = trim_ws(account_id@);
            let tb = vstd::utf8::encode_utf8(t);
            tb.len() > 12 ==> vstd::utf8::is_char_boundary(tb, 8)
                && vstd::utf8::is_char_boundary(tb, tb.len() - 4)
        }),
    ensures
        ({
            let t = trim_ws(account_id@);
            let tb = vstd::utf8::encode_utf8(t);
            if t.len() == 0 || t == "default"@ {
                s@ == "default"@
            } else if tb.len() <= 12 {
                s@ == t
            } else {
                vstd::utf8::encode_utf8(s@) == tb.subrange(0, 8) + vstd::utf8::encode_utf8(
                    "\u{2026}"@,
                ) + tb.subrange(tb.len() - 4, tb.len() as int)
            }
        }),
{
    let t = string_of(&trimmed_chars(account_id));
    let ts = t.as_str();
    if ts.is_empty() || str_eq(ts, "default") {
        return String::from_str("default");
    }
    let n = ts.as_bytes().len();
    if n <= 12 {
        return t;
    }
    let (head, _) = ts.split_at(8);
    let (_, tail) = ts.split_at(n - 4);
    let mut s = String::from_str(head);
    push_str(&mut s, "\u{2026}");
    push_str(&mut s, tail);
    proof {
        lemma_encode_utf8_concat(head@, "\u{2026}"@);
        lemma_encode_utf8_concat(head@ + "\u{2026}"@, tail@);
    }
    s
}

/// CSS classes of a subscription-plan badge (the plan name is compared ignoring ASCII case).
pub fn plan_badge_class(plan: &str) -> (c: &'static str)
    ensures
        ({
            let p = plan@.map_values(|ch: char| ascii_lower(ch));
            c@ == if p == "plus"@ || p == "pro"@ || p == "team"@ {
                "badge badge-accent"@
            } else if p == "free"@ {
                "badge"@
            } else {
                "badge badge-muted"@
            }
        }),
{
    let p = lowercase_ascii(&chars_of(plan));
    let n = p.len();
    if chars_match(&p, 0, n, "plus") || chars_match(&p, 0, n, "pro") || chars_match(&p, 0, n, "team") {
        assert(p@.subrange(0, n as int) =~= p@);
        "badge badge-accent"
    } else if chars_match(&p, 0, n, "free") {
        assert(p@.subrange(0, n as int) =~= p@);
        "badge"
    } else {
        assert(p@.subrange(0, n as int) =~= p@);
        "badge badge-muted"
    }
}


/// What to do with the static boot shell while the app mounts.
#[derive(Clone, Copy, PartialEq, Eq, Debug)]
pub enum BootShellStep {
    /// The app has rendered: remove the shell.
    Remove,
    /// Still empty after 300 retries: leave it.
    GiveUp,
    /// Check again in 16 ms, as attempt number `n`.
    Retry(u32),
}

/// Decides the boot-shell step for a check numbered `attempt`.
pub fn boot_shell_step(app_has_content: bool, attempt: u32) -> (s: BootShellStep)
    ensures
        s == if app_has_content {
            BootShellStep::Remove
        } else if attempt >= 300 {
            BootShellStep::GiveUp
        } else {
            BootShellStep::Retry((attempt + 1) as u32)
        },
{
    if app_has_content {
        BootShellStep::Remove
    } else if attempt >= 300 {
        BootShellStep::GiveUp
    } else {
        BootShellStep::Retry(attempt + 1)
    }
}


/// The last connection test of an upstream key.
pub struct KeyTestOutcome {
    pub ok: bool,
    pub error: Option<String>,
    pub latency_ms: u64,
    pub model_count: Option<u64>,
}

/// What the key card shows under a key about its connection test.
pub enum KeyTestView {
    /// A test is running.
    Testing,
    /// The test failed with this message.
    Error(String),
    /// The test passed in `latency_ms`; `detail` is ` · <n> models` when the model count
    /// is known, empty otherwise.
    Passed { latency_ms: u64, detail: String },
    /// The test failed without a message.
    Failed,
    /// No test result and the key is disabled: show the disabled hint.
    Disabled,
    /// Nothing to show.
    Hidden,
}

/// The suffix that names the number of models a passed test found.
pub open spec fn models_detail(model_count: Option<u64>) -> Seq<char> {
    match model_count {
        Some(n) => " \u{b7} "@ + decimal(n as nat) + " models"@,
        None => seq![],
    }
}

/// Decides the test line of a key card: a running test first, then the last result
/// (its error, a pass, or a failure), then the disabled hint.
pub fn key_test_view(testing: bool, result: Option<KeyTestOutcome>, enabled: bool) -> (v: KeyTestView)
    ensures
        testing ==> v is Testing,
        !testing && result is Some && result->0.error is Some ==> v is Error && v->Error_0@
            == result->0.error->0@,
        !testing && result is Some && result->0.error is None && result->0.ok ==> v is Passed
            && v->latency_ms == result->0.latency_ms && v->detail@ == models_detail(
            result->0.model_count,
        ),
        !testing && result is Some && result->0.error is None && !result->0.ok ==> v is Failed,
        !testing && result is None && !enabled ==> v is Disabled,
        !testing && result is None && enabled ==> v is Hidden,
{
    if testing {
        return KeyTestView::Testing;
    }
    match result {
        Some(r) => {
            if let Some(e) = r.error {
                return KeyTestView::Error(e);
            }
            if r.ok {
                let mut detail = String::new();
                if let Some(n) = r.model_count {
                    push_str(&mut detail, " \u{b7} ");
                    push_decimal(&mut detail, n);
                    push_str(&mut detail, " models");
                }
                assert(detail@ =~= models_detail(r.model_count));
                KeyTestView::Passed { latency_ms: r.latency_ms, detail }
            } else {
                KeyTestView::Failed
            }
        },
        None => {
            if !enabled {
                KeyTestView::Disabled
            } else {
                KeyTestView::Hidden
            }
        },
    }
}

} // verus!
