//! Router statistics panel: the hot capabilities of the three routers merged
//! by capability id, and the top-k of them by hits.
use vstd::prelude::*;
use crate::input::{KeyCode, KeyEvent};
use crate::text::{dec, push_str, push_u64, string_of, views};
use crate::types::{PanelId, TuiCommand};

verus! {

/// How many hot capabilities the panel lists.
pub const TOP_K_CAPABILITIES: usize = 10;

/// A `(capability id, hits)` list by view.
pub open spec fn cap_views(v: Seq<(String, u64)>) -> Seq<(Seq<char>, u64)> {
    v.map_values(|e: (String, u64)| (e.0@, e.1))
}

/// Index of the first entry keyed `key`, or -1.
pub open spec fn key_index(m: Seq<(Seq<char>, int)>, key: Seq<char>) -> int
    decreases m.len(),
{
    if m.len() == 0 {
        -1
    } else {
        let j = key_index(m.drop_last(), key);
        if j >= 0 {
            j
        } else if m.last().0 == key {
            m.len() - 1
        } else {
            -1
        }
    }
}

/// Folds a hit list into one entry per capability id, in order of first
/// occurrence, summing the hits of repeated ids.
pub open spec fn merge_spec(l: Seq<(Seq<char>, u64)>) -> Seq<(Seq<char>, int)>
    decreases l.len(),
{
    if l.len() == 0 {
        Seq::empty()
    } else {
        let m = merge_spec(l.drop_last());
        let x = l.last();
        let j = key_index(m, x.0);
        if j >= 0 {
            m.update(j, (x.0, m[j].1 + x.1))
        } else {
            m.push((x.0, x.1 as int))
        }
    }
}

/// `r` holds exactly the entries of `m`.
pub open spec fn holds_merged(r: Seq<(String, u64)>, m: Seq<(Seq<char>, int)>) -> bool {
    &&& r.len() == m.len()
    &&& forall|i: int| 0 <= i < r.len() ==> (#[trigger] r[i]).0@ == m[i].0 && r[i].1 == m[i].1
}

/// Every merged total fits in a `u64`.
pub open spec fn totals_fit(m: Seq<(Seq<char>, int)>) -> bool {
    forall|i: int| 0 <= i < m.len() ==> (#[trigger] m[i]).1 <= u64::MAX
}

/// The concatenated hit lists of the three routers.
pub open spec fn chained(
    kvbsr: Seq<(String, u64)>,
    sesa: Seq<(String, u64)>,
    faae: Seq<(String, u64)>,
) -> Seq<(Seq<char>, u64)> {
    cap_views(kvbsr) + cap_views(sesa) + cap_views(faae)
}

/// Sum of the hits of a list.
pub open spec fn sum_hits(l: Seq<(Seq<char>, u64)>) -> int
    decreases l.len(),
{
    if l.len() == 0 {
        0
    } else {
        sum_hits(l.drop_last()) + l.last().1
    }
}

/// Sum of the totals of a merged list.
pub open spec fn sum_totals(m: Seq<(Seq<char>, int)>) -> int
    decreases m.len(),
{
    if m.len() == 0 {
        0
    } else {
        sum_totals(m.drop_last()) + m.last().1
    }
}

/// Whether the keys of `m` are pairwise distinct.
pub open spec fn keys_distinct(m: Seq<(Seq<char>, int)>) -> bool {
    forall|i: int, j: int| 0 <= i < j < m.len() ==> (#[trigger] m[i]).0 != (#[trigger] m[j]).0
}

proof fn lemma_key_index(m: Seq<(Seq<char>, int)>, key: Seq<char>)
    ensures
        -1 <= key_index(m, key) < m.len(),
        key_index(m, key) >= 0 ==> m[key_index(m, key)].0 == key,
        key_index(m, key) < 0 ==> forall|i: int| 0 <= i < m.len() ==> (#[trigger] m[i]).0 != key,
        key_index(m, key) >= 0 ==> forall|i: int| 0 <= i < key_index(m, key) ==> (#[trigger] m[i]).0 != key,
    decreases m.len(),
{
    if m.len() > 0 {
        lemma_key_index(m.drop_last(), key);
        assert forall|i: int| 0 <= i < m.drop_last().len() implies m.drop_last()[i] == m[i] by {}
    }
}

/// One fold step keeps the keys already present, in place, with no smaller totals.
proof fn lemma_merge_step(l: Seq<(Seq<char>, u64)>)
    requires
        l.len() > 0,
    ensures
        merge_spec(l.drop_last()).len() <= merge_spec(l).len(),
        forall|i: int|
            0 <= i < merge_spec(l.drop_last()).len() ==> (#[trigger] merge_spec(l)[i]).0
                == merge_spec(l.drop_last())[i].0 && merge_spec(l)[i].1 >= merge_spec(
                l.drop_last(),
            )[i].1,
{
    lemma_key_index(merge_spec(l.drop_last()), l.last().0);
}

/// The fold of a prefix is a prefix of the fold, key for key, with no larger totals.
proof fn lemma_merge_prefix(l: Seq<(Seq<char>, u64)>, n: int)
    requires
        0 <= n <= l.len(),
    ensures
        merge_spec(l.take(n)).len() <= merge_spec(l).len(),
        forall|i: int|
            0 <= i < merge_spec(l.take(n)).len() ==> (#[trigger] merge_spec(l)[i]).0 == merge_spec(
                l.take(n),
            )[i].0 && merge_spec(l)[i].1 >= merge_spec(l.take(n))[i].1,
    decreases l.len(),
{
    if n == l.len() {
        assert(l.take(n) =~= l);
    } else {
        let d = l.drop_last();
        lemma_merge_prefix(d, n);
        assert(d.take(n) =~= l.take(n));
        lemma_merge_step(l);
    }
}

/// Folding keeps the capability ids pairwise distinct.
pub proof fn lemma_merge_keys_distinct(l: Seq<(Seq<char>, u64)>)
    ensures
        keys_distinct(merge_spec(l)),
    decreases l.len(),
{
    if l.len() > 0 {
        lemma_merge_keys_distinct(l.drop_last());
        lemma_key_index(merge_spec(l.drop_last()), l.last().0);
    }
}

proof fn lemma_sum_update(m: Seq<(Seq<char>, int)>, j: int, e: (Seq<char>, int))
    requires
        0 <= j < m.len(),
    ensures
        sum_totals(m.update(j, e)) == sum_totals(m) - m[j].1 + e.1,
    decreases m.len(),
{
    if j < m.len() - 1 {
        lemma_sum_update(m.drop_last(), j, e);
        assert(m.update(j, e).drop_last() =~= m.drop_last().update(j, e));
    } else {
        assert(m.update(j, e).drop_last() =~= m.drop_last());
    }
}

/// Folding neither creates nor loses hits: the totals sum to the hits of the list.
pub proof fn lemma_merge_preserves_hits(l: Seq<(Seq<char>, u64)>)
    ensures
        sum_totals(merge_spec(l)) == sum_hits(l),
    decreases l.len(),
{
    if l.len() > 0 {
        lemma_merge_preserves_hits(l.drop_last());
        let m = merge_spec(l.drop_last());
        let x = l.last();
        lemma_key_index(m, x.0);
        let j = key_index(m, x.0);
        if j >= 0 {
            lemma_sum_update(m, j, (x.0, m[j].1 + x.1));
        } else {
            assert(m.push((x.0, x.1 as int)).drop_last() =~= m);
        }
    }
}

/// Position of the entry keyed `key` in `merged`.
fn find_key(merged: &Vec<(String, u64)>, key: &String) -> (r: Option<usize>)
    ensures
        match r {
            Some(j) => j < merged@.len() && merged@[j as int].0@ == key@ && forall|i: int|
                0 <= i < j ==> (#[trigger] merged@[i]).0@ != key@,
            None => forall|i: int| 0 <= i < merged@.len() ==> (#[trigger] merged@[i]).0@ != key@,
        },
{
    let mut j: usize = 0;
    while j < merged.len()
        invariant
            j <= merged@.len(),
            forall|i: int| 0 <= i < j ==> (#[trigger] merged@[i]).0@ != key@,
        decreases merged@.len() - j,
    {
        if merged[j].0 == *key {
            return Some(j);
        }
        j = j + 1;
    }
    None
}

/// Folds `src` into `merged`, where `merged` holds the fold of `prior` and
/// `prior ++ src` is a prefix of `whole`.
fn merge_list(
    merged: &mut Vec<(String, u64)>,
    src: &Vec<(String, u64)>,
    Ghost(prior): Ghost<Seq<(Seq<char>, u64)>>,
    Ghost(whole): Ghost<Seq<(Seq<char>, u64)>>,
)
    requires
        holds_merged(old(merged)@, merge_spec(prior)),
        (prior + cap_views(src@)).len() <= whole.len(),
        whole.take((prior + cap_views(src@)).len() as int) == prior + cap_views(src@),
        totals_fit(merge_spec(whole)),
    ensures
        holds_merged(final(merged)@, merge_spec(prior + cap_views(src@))),
{
    let ghost all = prior + cap_views(src@);
    proof {
        assert(all.take(prior.len() as int) =~= prior);
    }
    let mut i: usize = 0;
    while i < src.len()
        invariant
            i <= src@.len(),
            all == prior + cap_views(src@),
            all.len() <= whole.len(),
            whole.take(all.len() as int) == all,
            totals_fit(merge_spec(whole)),
            holds_merged(merged@, merge_spec(all.take(prior.len() + i))),
        decreases src@.len() - i,
    {
        let ghost pre = all.take(prior.len() + i);
        let ghost next = all.take(prior.len() + i + 1);
        proof {
            assert(next.drop_last() =~= pre);
            assert(all[prior.len() + i] == cap_views(src@)[i as int]);
            assert(next.last() == (src@[i as int].0@, src@[i as int].1));
            assert(whole.take(prior.len() + i + 1) =~= next);
            lemma_merge_prefix(whole, prior.len() + i + 1);
            lemma_key_index(merge_spec(pre), next.last().0);
        }
        let found = find_key(merged, &src[i].0);
        match found {
            Some(j) => {
                proof {
                    let ki = key_index(merge_spec(pre), next.last().0);
                    assert(merged@[j as int].0@ == merge_spec(pre)[j as int].0);
                    if ki >= 0 && ki < j {
                        assert(merged@[ki].0@ == merge_spec(pre)[ki].0);
                    }
                    assert(key_index(merge_spec(pre), next.last().0) == j as int);
                    assert(merge_spec(next)[j as int].1 <= merge_spec(whole)[j as int].1);
                }
                let total = merged[j].1 + src[i].1;
                let key = merged[j].0.clone();
                let ghost prev = merged@;
                merged.set(j, (key, total));
                proof {
                    let m = merge_spec(pre);
                    assert(merge_spec(next) == m.update(j as int, (next.last().0, m[j as int].1 + next.last().1)));
                    assert forall|t: int| 0 <= t < merged@.len() implies (#[trigger] merged@[t]).0@ == merge_spec(next)[t].0 && merged@[t].1 == merge_spec(next)[t].1 by {
                        if t != j {
                            assert(merged@[t] == prev[t]);
                        }
                    }
                }
            },
            None => {
                let ghost prev = merged@;
                merged.push((src[i].0.clone(), src[i].1));
                proof {
                    let m = merge_spec(pre);
                    let ki = key_index(m, next.last().0);
                    if ki >= 0 {
                        assert(prev[ki].0@ == m[ki].0);
                    }
                    assert(key_index(m, next.last().0) < 0);
                    assert(merge_spec(next) == m.push((next.last().0, next.last().1 as int)));
                    assert forall|t: int| 0 <= t < merged@.len() implies (#[trigger] merged@[t]).0@ == merge_spec(next)[t].0 && merged@[t].1 == merge_spec(next)[t].1 by {
                        if t < prev.len() {
                            assert(merged@[t] == prev[t]);
                        }
                    }
                }
            },
        }
        i = i + 1;
    }
    proof {
        assert(all.take((prior.len() + src@.len()) as int) =~= all);
    }
}

/// Merges the hot capabilities of the three routers: one entry per capability
/// id, in order of first occurrence, with the hits of repeated ids summed.
/// Every per-id total must fit in a `u64`.
pub fn merge_hot_capabilities(
    kvbsr: &Vec<(String, u64)>,
    sesa: &Vec<(String, u64)>,
    faae: &Vec<(String, u64)>,
) -> (r: Vec<(String, u64)>)
    requires
        totals_fit(merge_spec(chained(kvbsr@, sesa@, faae@))),
    ensures
        holds_merged(r@, merge_spec(chained(kvbsr@, sesa@, faae@))),
{
    let ghost whole = chained(kvbsr@, sesa@, faae@);
    let mut merged: Vec<(String, u64)> = Vec::new();
    proof {
        assert(whole.take(cap_views(kvbsr@).len() as int) =~= Seq::<(Seq<char>, u64)>::empty()
            + cap_views(kvbsr@));
        assert(holds_merged(merged@, merge_spec(Seq::<(Seq<char>, u64)>::empty())));
    }
    merge_list(&mut merged, kvbsr, Ghost(Seq::empty()), Ghost(whole));
    proof {
        assert(Seq::<(Seq<char>, u64)>::empty() + cap_views(kvbsr@) =~= cap_views(kvbsr@));
        assert(whole.take((cap_views(kvbsr@) + cap_views(sesa@)).len() as int) =~= cap_views(kvbsr@)
            + cap_views(sesa@));
    }
    merge_list(&mut merged, sesa, Ghost(cap_views(kvbsr@)), Ghost(whole));
    proof {
        assert(whole.take(whole.len() as int) =~= whole);
    }
    merge_list(&mut merged, faae, Ghost(cap_views(kvbsr@) + cap_views(sesa@)), Ghost(whole));
    merged
}

/// `r` is a top-`k` selection of `caps` by hits: `min(k, |caps|)` entries taken
/// from distinct positions of `caps`, hits descending, and no entry left out
/// has more hits than the last one taken.
pub open spec fn is_top_k(caps: Seq<(Seq<char>, u64)>, k: int, r: Seq<(Seq<char>, u64)>) -> bool {
    &&& r.len() == (if k < caps.len() { k } else { caps.len() as int })
    &&& forall|i: int, j: int| 0 <= i < j < r.len() ==> (#[trigger] r[i]).1 >= (#[trigger] r[j]).1
    &&& exists|idx: Seq<int>| #[trigger] selects(caps, r, idx)
}

/// `idx` gives the distinct positions in `caps` of the entries of `r`, and every
/// position not taken holds no more hits than the last entry of `r`.
pub open spec fn selects(
    caps: Seq<(Seq<char>, u64)>,
    r: Seq<(Seq<char>, u64)>,
    idx: Seq<int>,
) -> bool {
    &&& idx.len() == r.len()
    &&& forall|i: int| 0 <= i < r.len() ==> 0 <= #[trigger] idx[i] < caps.len() && caps[idx[i]] == r[i]
    &&& forall|i: int, j: int| 0 <= i < j < r.len() ==> (#[trigger] idx[i]) != (#[trigger] idx[j])
    &&& forall|p: int|
        0 <= p < caps.len() && !idx.contains(p) && r.len() > 0 ==> (#[trigger] caps[p]).1
            <= r.last().1
}

/// Whether some rank of `order` holds position `p`.
pub open spec fn hit_by(order: Seq<usize>, p: int) -> bool {
    exists|u: int| 0 <= u < order.len() && #[trigger] order[u] == p
}

/// The `k` entries with the most hits, hits descending; empty when `k` is 0.
pub fn top_k_capabilities(caps: &[(String, u64)], k: usize) -> (r: Vec<(String, u64)>)
    ensures
        is_top_k(cap_views(caps@), k as int, cap_views(r@)),
{
    let n = caps.len();
    let kk = if k < n { k } else { n };
    let ghost cv = cap_views(caps@);
    // order[t] is the position in `caps` of the entry at rank t
    let mut order: Vec<usize> = Vec::new();
    let mut t: usize = 0;
    while t < n
        invariant
            t <= n,
            n == caps@.len(),
            order@.len() == t,
            forall|u: int| 0 <= u < t ==> order@[u] == u,
        decreases n - t,
    {
        order.push(t);
        t = t + 1;
    }
    proof {
        assert forall|p: int| 0 <= p < n implies #[trigger] hit_by(order@, p) by {
            assert(order@[p] == p);
        }
    }
    let mut i: usize = 0;
    while i < kk
        invariant
            kk <= n,
            n == caps@.len(),
            cv == cap_views(caps@),
            i <= kk,
            order@.len() == n,
            forall|u: int| 0 <= u < n ==> (#[trigger] order@[u]) < n,
            forall|u: int, w: int| 0 <= u < w < n ==> (#[trigger] order@[u]) != (#[trigger] order@[w]),
            forall|p: int| 0 <= p < n ==> #[trigger] hit_by(order@, p),
            forall|a: int, b: int|
                0 <= a < b < n && a < i ==> (#[trigger] cv[order@[a] as int]).1 >= (#[trigger] cv[order@[b] as int]).1,
        decreases kk - i,
    {
        let mut best: usize = i;
        let mut j: usize = i + 1;
        while j < n
            invariant
                i < kk <= n,
                n == caps@.len(),
                cv == cap_views(caps@),
                order@.len() == n,
                forall|u: int| 0 <= u < n ==> (#[trigger] order@[u]) < n,
                i <= best < j <= n,
                forall|u: int| i <= u < j ==> (#[trigger] cv[order@[u] as int]).1 <= cv[order@[best as int] as int].1,
            decreases n - j,
        {
            if caps[order[j]].1 > caps[order[best]].1 {
                best = j;
            }
            j = j + 1;
        }
        let a = order[i];
        let b = order[best];
        let ghost before = order@;
        order.set(i, b);
        order.set(best, a);
        proof {
            assert(order@ =~= before.update(i as int, b).update(best as int, a));
            assert forall|p: int| 0 <= p < n implies #[trigger] hit_by(order@, p) by {
                assert(hit_by(before, p));
                let u0 = choose|u: int| 0 <= u < before.len() && #[trigger] before[u] == p;
                if u0 == i {
                    assert(order@[best as int] == p);
                } else if u0 == best {
                    assert(order@[i as int] == p);
                } else {
                    assert(order@[u0] == p);
                }
            }
            assert forall|a2: int, b2: int|
                0 <= a2 < b2 < n && a2 < i + 1 implies (#[trigger] cv[order@[a2] as int]).1 >= (#[trigger] cv[order@[b2] as int]).1 by {
                if a2 < i {
                    if b2 == i {
                        assert(cv[before[a2] as int].1 >= cv[before[best as int] as int].1);
                    } else if b2 == best {
                        assert(cv[before[a2] as int].1 >= cv[before[i as int] as int].1);
                    }
                } else {
                    if b2 == best {
                        assert(cv[before[i as int] as int].1 <= cv[before[best as int] as int].1);
                    } else {
                        assert(cv[before[b2] as int].1 <= cv[before[best as int] as int].1);
                    }
                }
            }
        }
        i = i + 1;
    }
    let mut r: Vec<(String, u64)> = Vec::new();
    let mut u: usize = 0;
    while u < kk
        invariant
            kk <= n,
            n == caps@.len(),
            cv == cap_views(caps@),
            u <= kk,
            order@.len() == n,
            forall|w: int| 0 <= w < n ==> (#[trigger] order@[w]) < n,
            r@.len() == u,
            forall|w: int| 0 <= w < u ==> (#[trigger] cap_views(r@)[w]) == cv[order@[w] as int],
            forall|u1: int, w: int| 0 <= u1 < w < n ==> (#[trigger] order@[u1]) != (#[trigger] order@[w]),
            forall|p: int| 0 <= p < n ==> #[trigger] hit_by(order@, p),
            forall|a: int, b: int|
                0 <= a < b < n && a < kk ==> (#[trigger] cv[order@[a] as int]).1 >= (#[trigger] cv[order@[b] as int]).1,
        decreases kk - u,
    {
        let p = order[u];
        let ghost prev = r@;
        r.push((caps[p].0.clone(), caps[p].1));
        proof {
            assert forall|w: int| 0 <= w < u + 1 implies (#[trigger] cap_views(r@)[w]) == cv[order@[w] as int] by {
                if w < u {
                    assert(r@[w] == prev[w]);
                    assert(cap_views(prev)[w] == cv[order@[w] as int]);
                }
            }
        }
        u = u + 1;
    }
    proof {
        let idx = Seq::new(kk as nat, |w: int| order@[w] as int);
        let rv = cap_views(r@);
        assert forall|p: int| 0 <= p < n && !idx.contains(p) && rv.len() > 0 implies (#[trigger] cv[p]).1 <= rv.last().1 by {
            assert(hit_by(order@, p));
            let w = choose|w: int| 0 <= w < order@.len() && #[trigger] order@[w] == p;
            if w < kk {
                assert(idx[w] == p);
            } else {
                assert(cv[order@[kk - 1] as int].1 >= cv[order@[w] as int].1);
            }
        }
        assert forall|a: int, b: int| 0 <= a < b < rv.len() implies (#[trigger] rv[a]).1 >= (#[trigger] rv[b]).1 by {
            assert(cv[order@[a] as int].1 >= cv[order@[b] as int].1);
        }
        assert(selects(cv, rv, idx));
    }
    r
}

/// Router statistics panel; it has no state of its own.
#[derive(Debug, Default, Clone, Copy, PartialEq, Eq)]
pub struct RouterPanel;

impl RouterPanel {
    /// A router panel.
    pub fn new() -> (r: Self)
        ensures
            r == RouterPanel,
    {
        RouterPanel
    }

    /// This panel's identity.
    pub fn id(&self) -> (r: PanelId)
        ensures
            r == PanelId::Router,
    {
        PanelId::Router
    }

    /// `?` asks for the help overlay; every other key is ignored.
    pub fn handle_key(&mut self, key: KeyEvent) -> (r: Option<TuiCommand>)
        ensures
            r == (if key.code == KeyCode::Char('?') {
                Some(TuiCommand::ShowHelp)
            } else {
                None
            }),
    {
        match key.code {
            KeyCode::Char('?') => Some(TuiCommand::ShowHelp),
            _ => None,
        }
    }
}

/// The hot capabilities section: its heading, then one numbered line per
/// capability with its hits, or a no-capabilities line.
pub open spec fn hot_lines_spec(top: Seq<(Seq<char>, u64)>) -> Seq<Seq<char>> {
    seq!["Hot Capabilities (Top-"@ + dec(TOP_K_CAPABILITIES as nat) + "):"@] + if top.len() == 0 {
        seq!["  (no hot capabilities)"@]
    } else {
        Seq::new(
            top.len(),
            |i: int| "  "@ + dec((i + 1) as nat) + ". "@ + top[i].0 + " ("@ + dec(top[i].1 as nat) + " hits)"@,
        )
    }
}

/// The hot capabilities section for the ranked list `top`.
pub fn hot_capability_lines(top: &Vec<(String, u64)>) -> (r: Vec<String>)
    ensures
        views(r@) == hot_lines_spec(cap_views(top@)),
{
    let mut lines: Vec<String> = Vec::new();
    let mut h = string_of("Hot Capabilities (Top-");
    push_u64(&mut h, TOP_K_CAPABILITIES as u64);
    push_str(&mut h, "):");
    lines.push(h);
    let ghost head = views(lines@);
    if top.len() == 0 {
        lines.push(string_of("  (no hot capabilities)"));
        proof {
            assert(views(lines@) =~= hot_lines_spec(cap_views(top@)));
        }
        return lines;
    }
    let ghost tv = cap_views(top@);
    let ghost rows = Seq::new(
        tv.len(),
        |i: int| "  "@ + dec((i + 1) as nat) + ". "@ + tv[i].0 + " ("@ + dec(tv[i].1 as nat) + " hits)"@,
    );
    let mut i: usize = 0;
    while i < top.len()
        invariant
            i <= top@.len(),
            tv == cap_views(top@),
            rows == Seq::new(
                tv.len(),
                |i: int| "  "@ + dec((i + 1) as nat) + ". "@ + tv[i].0 + " ("@ + dec(tv[i].1 as nat) + " hits)"@,
            ),
            views(lines@) == head + rows.take(i as int),
        decreases top@.len() - i,
    {
        let mut l = string_of("  ");
        push_u64(&mut l, i as u64 + 1);
        push_str(&mut l, ". ");
        push_str(&mut l, top[i].0.as_str());
        push_str(&mut l, " (");
        push_u64(&mut l, top[i].1);
        push_str(&mut l, " hits)");
        let ghost before = lines@;
        lines.push(l);
        proof {
            assert(rows[i as int] == l@);
            assert(rows.take(i + 1) =~= rows.take(i as int).push(l@));
            assert(views(lines@) =~= views(before).push(l@));
        }
        i = i + 1;
    }
    proof {
        assert(rows.take(tv.len() as int) =~= rows);
        assert(views(lines@) =~= hot_lines_spec(cap_views(top@)));
    }
    lines
}

} // verus!
