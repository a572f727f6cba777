//! Session drill-down: backend request distribution and the per-minute request timeline.

use vstd::prelude::*;

use crate::text::{decimal, push_decimal, push_str, string_of};

verus! {

/// Requests that one backend served for the selected key.
pub struct BackendCount {
    pub backend_name: String,
    pub request_count: u64,
}

/// The request counts of the rows, in order.
pub open spec fn request_counts(rows: Seq<BackendCount>) -> Seq<u64> {
    rows.map_values(|b: BackendCount| b.request_count)
}

/// Where a key `k` goes in `order` (a list of indices into `keys`): after every entry
/// whose key is at most `k`, before the first larger one.
pub open spec fn insert_position(order: Seq<usize>, keys: Seq<u64>, k: u64) -> int
    decreases order.len(),
{
    if order.len() == 0 {
        0
    } else if keys[order[0] as int] > k {
        0
    } else {
        1 + insert_position(order.drop_first(), keys, k)
    }
}

/// Indices `0..n` of `keys` stably sorted by key (insertion sort: equal keys keep their
/// input order).
pub open spec fn stable_order(keys: Seq<u64>, n: nat) -> Seq<usize>
    decreases n,
{
    if n == 0 {
        seq![]
    } else {
        let s = stable_order(keys, (n - 1) as nat);
        s.insert(insert_position(s, keys, keys[n - 1]), (n - 1) as usize)
    }
}

/// Every entry before the insert position has a key of at most `k`; the one at it, if
/// any, a larger key.
pub proof fn lemma_insert_position(order: Seq<usize>, keys: Seq<u64>, k: u64)
    ensures
        0 <= insert_position(order, keys, k) <= order.len(),
        forall|j: int|
            0 <= j < insert_position(order, keys, k) ==> keys[order[j] as int] <= k,
        insert_position(order, keys, k) < order.len() ==> keys[order[insert_position(
            order,
            keys,
            k,
        )] as int] > k,
    decreases order.len(),
{
    if order.len() > 0 && keys[order[0] as int] <= k {
        lemma_insert_position(order.drop_first(), keys, k);
        assert forall|j: int| 0 <= j < insert_position(order, keys, k) implies keys[order[j] as int]
            <= k by {
            if j > 0 {
                assert(order[j] == order.drop_first()[j - 1]);
            }
        }
    }
}

/// The stable order lists `n` indices, each below `n`.
pub proof fn lemma_stable_order_shape(keys: Seq<u64>, n: nat)
    requires
        n <= keys.len(),
        n <= usize::MAX + 1,
    ensures
        stable_order(keys, n).len() == n,
        forall|j: int| 0 <= j < n ==> (stable_order(keys, n)[j] as int) < n,
    decreases n,
{
    if n > 0 {
        let s = stable_order(keys, (n - 1) as nat);
        lemma_stable_order_shape(keys, (n - 1) as nat);
        lemma_insert_position(s, keys, keys[n - 1]);
        let p = insert_position(s, keys, keys[n - 1]);
        let t = s.insert(p, (n - 1) as usize);
        assert forall|j: int| 0 <= j < n implies (t[j] as int) < n by {
            if j < p {
                assert(t[j] == s[j]);
            } else if j > p {
                assert(t[j] == s[j - 1]);
            }
        }
    }
}

/// Backend names and request counts, ordered by ascending count (ties keep input order).
pub fn build_backend_distribution(rows: &[BackendCount]) -> (r: (Vec<String>, Vec<u64>))
    ensures
        ({
            let keys = request_counts(rows@);
            let order = stable_order(keys, rows@.len());
            &&& r.0@.len() == rows@.len()
            &&& r.1@.len() == rows@.len()
            &&& forall|i: int|
                0 <= i < rows@.len() ==> #[trigger] r.0@[i]@ == rows@[order[i] as int].backend_name@
                    && r.1@[i] == rows@[order[i] as int].request_count
        }),
{
    let ghost keys = request_counts(rows@);
    let n = rows.len();
    let mut order: Vec<usize> = Vec::new();
    let mut i: usize = 0;
    while i < n
        invariant
            i <= n == rows@.len(),
            keys == request_counts(rows@),
            order@ == stable_order(keys, i as nat),
        decreases n - i,
    {
        proof {
            lemma_stable_order_shape(keys, i as nat);
            lemma_insert_position(order@, keys, keys[i as int]);
        }
        let k = rows[i].request_count;
        let mut j: usize = 0;
        assert(order@.skip(0) =~= order@);
        while j < order.len() && rows[order[j]].request_count <= k
            invariant
                i < n == rows@.len(),
                keys == request_counts(rows@),
                k == keys[i as int],
                order@ == stable_order(keys, i as nat),
                order@.len() == i,
                forall|t: int| 0 <= t < i ==> (order@[t] as int) < i,
                j <= order.len(),
                insert_position(order@, keys, k) == j + insert_position(order@.skip(j as int), keys, k),
            decreases order.len() - j,
        {
            assert(order@.skip(j as int).drop_first() =~= order@.skip(j + 1));
            j = j + 1;
        }
        proof {
            if j < order.len() {
                assert(order@.skip(j as int)[0] == order@[j as int]);
            } else {
                assert(order@.skip(j as int) =~= Seq::<usize>::empty());
            }
        }
        order.insert(j, i);
        i = i + 1;
    }
    proof {
        lemma_stable_order_shape(keys, n as nat);
    }
    let mut labels: Vec<String> = Vec::new();
    let mut counts: Vec<u64> = Vec::new();
    let mut t: usize = 0;
    while t < n
        invariant
            t <= n == rows@.len(),
            order@ == stable_order(keys, n as nat),
            order@.len() == n,
            forall|q: int| 0 <= q < n ==> (order@[q] as int) < n,
            labels@.len() == t,
            counts@.len() == t,
            forall|q: int|
                0 <= q < t ==> #[trigger] labels@[q]@ == rows@[order@[q] as int].backend_name@
                    && counts@[q] == rows@[order@[q] as int].request_count,
        decreases n - t,
    {
        let row = &rows[order[t]];
        labels.push(row.backend_name.clone());
        counts.push(row.request_count);
        t = t + 1;
    }
    (labels, counts)
}


/// Lexicographic order on character sequences (by code point; for the ASCII labels used
/// here this is the byte order of `String`).
pub open spec fn lex_lt(a: Seq<char>, b: Seq<char>) -> bool
    decreases a.len(),
{
    if a.len() == 0 {
        b.len() > 0
    } else if b.len() == 0 {
        false
    } else if a[0] != b[0] {
        (a[0] as u32) < (b[0] as u32)
    } else {
        lex_lt(a.drop_first(), b.drop_first())
    }
}

/// No label is before itself.
pub proof fn lemma_lex_irreflexive(a: Seq<char>)
    ensures
        !lex_lt(a, a),
    decreases a.len(),
{
    if a.len() > 0 {
        lemma_lex_irreflexive(a.drop_first());
    }
}

/// The label order is transitive.
pub proof fn lemma_lex_transitive(a: Seq<char>, b: Seq<char>, c: Seq<char>)
    requires
        lex_lt(a, b),
        lex_lt(b, c),
    ensures
        lex_lt(a, c),
    decreases a.len(),
{
    if a.len() > 0 && b.len() > 0 && c.len() > 0 && a[0] == b[0] && b[0] == c[0] {
        lemma_lex_transitive(a.drop_first(), b.drop_first(), c.drop_first());
    }
}

/// Of two different labels one is before the other.
pub proof fn lemma_lex_total(a: Seq<char>, b: Seq<char>)
    requires
        a != b,
    ensures
        lex_lt(a, b) || lex_lt(b, a),
    decreases a.len(),
{
    if a.len() > 0 && b.len() > 0 && a[0] == b[0] {
        if a.drop_first() == b.drop_first() {
            assert(a =~= seq![a[0]] + a.drop_first());
            assert(b =~= seq![b[0]] + b.drop_first());
        }
        lemma_lex_total(a.drop_first(), b.drop_first());
    } else if a.len() > 0 && b.len() > 0 {
        let x = a[0] as u32;
        let y = b[0] as u32;
        assert(x != y) by {
            vstd::utf8::char_u32_cast(a[0], x);
            vstd::utf8::char_u32_cast(b[0], y);
        }
    } else if a.len() == 0 && b.len() == 0 {
        assert(a =~= b);
    }
}

/// Timeline label of an event at offset `ts` ms: `t+<minutes>m`.
pub open spec fn minute_label(ts: u64) -> Seq<char> {
    "t+"@ + decimal((ts / 1000 / 60) as nat) + "m"@
}

/// How many of the events carry the label `l`.
pub open spec fn label_count(events: Seq<u64>, l: Seq<char>) -> nat
    decreases events.len(),
{
    if events.len() == 0 {
        0
    } else {
        label_count(events.drop_last(), l) + if minute_label(events.last()) == l {
            1nat
        } else {
            0nat
        }
    }
}

proof fn lemma_label_count_absent(events: Seq<u64>, l: Seq<char>)
    requires
        forall|k: int| 0 <= k < events.len() ==> minute_label(events[k]) != l,
    ensures
        label_count(events, l) == 0,
    decreases events.len(),
{
    if events.len() > 0 {
        lemma_label_count_absent(events.drop_last(), l);
    }
}

fn lex_less(a: &Vec<char>, b: &Vec<char>) -> (r: bool)
    ensures
        r == lex_lt(a@, b@),
{
    let mut i: usize = 0;
    assert(a@.skip(0) =~= a@ && b@.skip(0) =~= b@);
    while i < a.len() && i < b.len() && a[i] == b[i]
        invariant
            i <= a.len() && i <= b.len(),
            lex_lt(a@, b@) == lex_lt(a@.skip(i as int), b@.skip(i as int)),
        decreases a.len() - i,
    {
        assert(a@.skip(i as int).drop_first() =~= a@.skip(i + 1));
        assert(b@.skip(i as int).drop_first() =~= b@.skip(i + 1));
        i = i + 1;
    }
    if i == a.len() {
        i < b.len()
    } else if i == b.len() {
        false
    } else {
        (a[i] as u32) < (b[i] as u32)
    }
}

fn chars_equal(a: &Vec<char>, b: &Vec<char>) -> (r: bool)
    ensures
        r == (a@ == b@),
{
    if a.len() != b.len() {
        return false;
    }
    let mut i: usize = 0;
    while i < a.len()
        invariant
            a.len() == b.len(),
            i <= a.len(),
            forall|j: int| 0 <= j < i ==> a@[j] == b@[j],
        decreases a.len() - i,
    {
        if a[i] != b[i] {
            return false;
        }
        i = i + 1;
    }
    assert(a@ =~= b@);
    true
}

fn label_chars(ts: u64) -> (v: Vec<char>)
    ensures
        v@ == minute_label(ts),
{
    let mut s = String::new();
    push_str(&mut s, "t+");
    push_decimal(&mut s, (ts / 1000) / 60);
    push_str(&mut s, "m");
    crate::text::chars_of(s.as_str())
}

/// The timeline of a session: one bucket per distinct minute label, ordered as strings
/// (lexicographically), each with the number of events that carry it.
pub open spec fn is_timeline(events: Seq<u64>, labels: Seq<Seq<char>>, counts: Seq<u64>) -> bool {
    &&& labels.len() == counts.len()
    &&& forall|i: int, j: int| 0 <= i < j < labels.len() ==> lex_lt(labels[i], labels[j])
    &&& forall|i: int| 0 <= i < labels.len() ==> counts[i] == label_count(events, labels[i])
        && counts[i] >= 1
    &&& forall|k: int|
        0 <= k < events.len() ==> exists|i: int|
            0 <= i < labels.len() && labels[i] == #[trigger] minute_label(events[k])
}

/// Per-minute request counts of a session's events, keyed and ordered by their
/// `t+<minutes>m` labels.
pub fn build_timeline_buckets(timestamps_ms: &[u64]) -> (r: (Vec<String>, Vec<u64>))
    ensures
        is_timeline(timestamps_ms@, r.0@.map_values(|s: String| s@), r.1@),
{
    let ghost ev = timestamps_ms@;
    let mut labels: Vec<Vec<char>> = Vec::new();
    let mut counts: Vec<u64> = Vec::new();
    let mut k: usize = 0;
    while k < timestamps_ms.len()
        invariant
            k <= timestamps_ms.len(),
            ev == timestamps_ms@,
            is_timeline(ev.take(k as int), labels@.map_values(|v: Vec<char>| v@), counts@),
            forall|i: int| 0 <= i < counts@.len() ==> counts@[i] <= k,
        decreases timestamps_ms.len() - k,
    {
        let ghost ls = labels@.map_values(|v: Vec<char>| v@);
        let ghost pre = ev.take(k as int);
        let ghost post = ev.take(k + 1);
        assert(post.drop_last() =~= pre);
        let l = label_chars(timestamps_ms[k]);
        // existing label?
        let mut i: usize = 0;
        while i < labels.len() && !chars_equal(&labels[i], &l)
            invariant
                i <= labels.len(),
                forall|j: int| 0 <= j < i ==> labels@[j]@ != l@,
            decreases labels.len() - i,
        {
            i = i + 1;
        }
        if i < labels.len() {
            let c = counts[i];
            counts.set(i, c + 1);
            proof {
                let ls2 = labels@.map_values(|v: Vec<char>| v@);
                assert(ls2 == ls);
                assert forall|q: int| 0 <= q < ls.len() implies counts@[q] == label_count(
                    post,
                    ls[q],
                ) && counts@[q] >= 1 by {
                    if q != i {
                        assert(ls[q] != ls[i as int]) by {
                            if q < i {
                                lemma_lex_irreflexive(ls[q]);
                            } else {
                                lemma_lex_irreflexive(ls[i as int]);
                            }
                        }
                    }
                }
                assert forall|t: int| 0 <= t < post.len() implies exists|q: int|
                    0 <= q < ls.len() && ls[q] == #[trigger] minute_label(post[t]) by {
                    if t < pre.len() {
                        assert(pre[t] == post[t]);
                    } else {
                        assert(ls[i as int] == minute_label(post[t]));
                    }
                }
            }
        } else {
            // insert keeping the labels sorted
            let mut p: usize = 0;
            while p < labels.len() && !lex_less(&l, &labels[p])
                invariant
                    p <= labels.len(),
                    forall|j: int| 0 <= j < p ==> !lex_lt(l@, #[trigger] labels@[j]@),
                decreases labels.len() - p,
            {
                p = p + 1;
            }
            proof {
                assert forall|t: int| 0 <= t < pre.len() implies minute_label(pre[t]) != l@ by {
                    let q = choose|q: int| 0 <= q < ls.len() && ls[q] == minute_label(pre[t]);
                    assert(labels@[q]@ == ls[q]);
                }
                lemma_label_count_absent(pre, l@);
            }
            labels.insert(p, l);
            counts.insert(p, 1);
            proof {
                let ls2 = labels@.map_values(|v: Vec<char>| v@);
                assert(ls2 =~= ls.insert(p as int, minute_label(ev[k as int])));
                assert forall|a: int, b: int| 0 <= a < b < ls2.len() implies lex_lt(
                    ls2[a],
                    ls2[b],
                ) by {
                    let x = minute_label(ev[k as int]);
                    if a < p && b == p {
                        assert(ls2[a] == ls[a]);
                        assert(!lex_lt(x, ls[a]));
                        assert(ls[a] != x);
                        lemma_lex_total(ls[a], x);
                    } else if a == p && b > p {
                        assert(ls2[b] == ls[b - 1]);
                        if b - 1 == p {
                            assert(lex_lt(x, ls[p as int]));
                        } else {
                            assert(lex_lt(x, ls[p as int]));
                            lemma_lex_transitive(x, ls[p as int], ls[b - 1]);
                        }
                    } else if a < p && b > p {
                        assert(ls2[a] == ls[a]);
                        assert(ls2[b] == ls[b - 1]);
                    } else if b < p {
                    } else {
                        assert(ls2[a] == ls[a - 1]);
                        assert(ls2[b] == ls[b - 1]);
                    }
                }
                assert forall|q: int| 0 <= q < ls2.len() implies counts@[q] == label_count(
                    post,
                    ls2[q],
                ) && counts@[q] >= 1 by {
                    if q < p {
                        assert(ls2[q] == ls[q]);
                        assert(ls[q] != l@);
                    } else if q > p {
                        assert(ls2[q] == ls[q - 1]);
                        assert(ls[q - 1] != l@);
                    }
                }
                assert forall|t: int| 0 <= t < post.len() implies exists|q: int|
                    0 <= q < ls2.len() && ls2[q] == #[trigger] minute_label(post[t]) by {
                    if t < pre.len() {
                        assert(pre[t] == post[t]);
                        let q = choose|q: int| 0 <= q < ls.len() && ls[q] == minute_label(pre[t]);
                        if q < p {
                            assert(ls2[q] == ls[q]);
                        } else {
                            assert(ls2[q + 1] == ls[q]);
                        }
                    } else {
                        assert(ls2[p as int] == minute_label(post[t]));
                    }
                }
            }
        }
        k = k + 1;
    }
    assert(ev.take(timestamps_ms.len() as int) =~= ev);
    let mut out_labels: Vec<String> = Vec::new();
    let mut t: usize = 0;
    while t < labels.len()
        invariant
            t <= labels.len(),
            out_labels@.len() == t,
            forall|q: int| 0 <= q < t ==> #[trigger] out_labels@[q]@ == labels@[q]@,
        decreases labels.len() - t,
    {
        out_labels.push(string_of(&labels[t]));
        t = t + 1;
    }
    assert(out_labels@.map_values(|s: String| s@) =~= labels@.map_values(|v: Vec<char>| v@));
    (out_labels, counts)
}

} // verus!
