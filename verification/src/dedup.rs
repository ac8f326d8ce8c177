//! Structural deduplication of findings.
//!
//! Findings are grouped by (file, CWE); within a group they are ordered by
//! line and chained into clusters: consecutive lines at most 2 apart stay in
//! one cluster.  Each cluster of two or more findings keeps only its best
//! finding (most sources, then highest confidence, then earliest in cluster
//! order), which receives the sources of the whole cluster without
//! duplicates.  The kept findings stay in their original order.

use vstd::prelude::*;
use crate::finding::{
    line_of, opt_str_eq, opt_view, same_except_sources, strings_view, VulnerabilityFinding,
};

verus! {

/// Findings `a` and `b` share the file and the CWE.
pub open spec fn same_group(a: VulnerabilityFinding, b: VulnerabilityFinding) -> bool {
    a.file_path@ == b.file_path@ && opt_view(a.cwe_id) == opt_view(b.cwe_id)
}

/// Index of the first finding at or after `j` (and not after `i`) in the
/// group of finding `i`.
pub open spec fn first_in_group(fs: Seq<VulnerabilityFinding>, i: int, j: int) -> int
    decreases i - j,
{
    if j >= i {
        i
    } else if same_group(fs[j], fs[i]) {
        j
    } else {
        first_in_group(fs, i, j + 1)
    }
}

/// Group number of finding `i`: the index of the first finding of its group.
pub open spec fn group_id(fs: Seq<VulnerabilityFinding>, i: int) -> int {
    first_in_group(fs, i, 0)
}

/// Finding `a` comes before finding `b` in cluster order: by group, then
/// by line, then by index.
pub open spec fn key_lt(fs: Seq<VulnerabilityFinding>, a: int, b: int) -> bool {
    ||| group_id(fs, a) < group_id(fs, b)
    ||| group_id(fs, a) == group_id(fs, b) && line_of(fs[a]) < line_of(fs[b])
    ||| group_id(fs, a) == group_id(fs, b) && line_of(fs[a]) == line_of(fs[b]) && a < b
}

/// Index `i` occurs in `ord`.
pub open spec fn listed(ord: Seq<usize>, i: int) -> bool {
    exists|p: int| 0 <= p < ord.len() && ord[p] == i
}

/// `ord` lists every finding index once, in cluster order.
pub open spec fn is_cluster_order(fs: Seq<VulnerabilityFinding>, ord: Seq<usize>) -> bool {
    &&& ord.len() == fs.len()
    &&& forall|p: int| 0 <= p < ord.len() ==> #[trigger] ord[p] < fs.len()
    &&& forall|i: int| 0 <= i < fs.len() ==> #[trigger] listed(ord, i)
    &&& forall|p: int, q: int|
        0 <= p < q < ord.len() ==> key_lt(fs, #[trigger] ord[p] as int, #[trigger] ord[q] as int)
}

/// Position `p` of the cluster order begins a new cluster: it changes group,
/// or its line is more than 2 past the previous one.
pub open spec fn starts_cluster(fs: Seq<VulnerabilityFinding>, ord: Seq<usize>, p: int) -> bool {
    ||| p <= 0
    ||| group_id(fs, ord[p] as int) != group_id(fs, ord[p - 1] as int)
    ||| line_of(fs[ord[p] as int]) - line_of(fs[ord[p - 1] as int]) > 2
}

/// First position of the cluster holding position `p`.
pub open spec fn cluster_start(fs: Seq<VulnerabilityFinding>, ord: Seq<usize>, p: int) -> int
    decreases p,
{
    if p <= 0 || starts_cluster(fs, ord, p) {
        p
    } else {
        cluster_start(fs, ord, p - 1)
    }
}

/// One past the last position of the cluster holding position `p`.
pub open spec fn cluster_end(fs: Seq<VulnerabilityFinding>, ord: Seq<usize>, p: int) -> int
    decreases ord.len() - p,
{
    if p + 1 >= ord.len() || starts_cluster(fs, ord, p + 1) {
        p + 1
    } else {
        cluster_end(fs, ord, p + 1)
    }
}

/// The finding indices of the cluster holding position `p`, in cluster order.
pub open spec fn cluster_of(fs: Seq<VulnerabilityFinding>, ord: Seq<usize>, p: int) -> Seq<usize> {
    ord.subrange(cluster_start(fs, ord, p), cluster_end(fs, ord, p))
}

/// `x` beats `y`: more sources, or as many and a higher confidence.
pub open spec fn better(x: VulnerabilityFinding, y: VulnerabilityFinding) -> bool {
    x.sources.len() > y.sources.len()
        || (x.sources.len() == y.sources.len() && x.confidence_bp > y.confidence_bp)
}

/// Position within `s` of its best finding; the earliest one wins a tie.
pub open spec fn best_pos(fs: Seq<VulnerabilityFinding>, s: Seq<usize>) -> int
    decreases s.len(),
{
    if s.len() <= 1 {
        0
    } else {
        let r = best_pos(fs, s.drop_last());
        if better(fs[s.last() as int], fs[s[r] as int]) {
            s.len() - 1
        } else {
            r
        }
    }
}

/// `acc` extended by the items of `xs` that it does not hold yet, in order.
pub open spec fn add_new(acc: Seq<Seq<char>>, xs: Seq<Seq<char>>) -> Seq<Seq<char>>
    decreases xs.len(),
{
    if xs.len() == 0 {
        acc
    } else {
        let a = add_new(acc, xs.drop_last());
        if a.contains(xs.last()) {
            a
        } else {
            a.push(xs.last())
        }
    }
}

/// The sources of the findings of `s`, first occurrences only, in order.
pub open spec fn merged_sources(fs: Seq<VulnerabilityFinding>, s: Seq<usize>) -> Seq<Seq<char>>
    decreases s.len(),
{
    if s.len() == 0 {
        Seq::empty()
    } else {
        add_new(merged_sources(fs, s.drop_last()), strings_view(fs[s.last() as int].sources@))
    }
}

/// The position of finding `i` in the cluster order.
pub open spec fn pos_of(ord: Seq<usize>, i: int) -> int {
    choose|p: int| 0 <= p < ord.len() && ord[p] == i
}

/// Finding `i` survives: its cluster is a single finding, or it is the
/// best of its cluster.
pub open spec fn is_kept(fs: Seq<VulnerabilityFinding>, ord: Seq<usize>, i: int) -> bool {
    let p = pos_of(ord, i);
    let c = cluster_of(fs, ord, p);
    c.len() == 1 || cluster_start(fs, ord, p) + best_pos(fs, c) == p
}

/// Sources of finding `i` after deduplication: unchanged for a single
/// finding, the merged sources of the cluster otherwise.
pub open spec fn kept_sources(fs: Seq<VulnerabilityFinding>, ord: Seq<usize>, i: int) -> Seq<Seq<char>> {
    let c = cluster_of(fs, ord, pos_of(ord, i));
    if c.len() == 1 {
        strings_view(fs[i].sources@)
    } else {
        merged_sources(fs, c)
    }
}

/// Indices below `k` of the surviving findings, ascending.
pub open spec fn kept_prefix(fs: Seq<VulnerabilityFinding>, ord: Seq<usize>, k: int) -> Seq<int>
    decreases k,
{
    if k <= 0 {
        Seq::empty()
    } else if is_kept(fs, ord, k - 1) {
        kept_prefix(fs, ord, k - 1).push(k - 1)
    } else {
        kept_prefix(fs, ord, k - 1)
    }
}

/// `out` is the deduplication of `fs` under cluster order `ord`.
pub open spec fn dedup_result(
    fs: Seq<VulnerabilityFinding>,
    ord: Seq<usize>,
    out: Seq<VulnerabilityFinding>,
) -> bool {
    let m = kept_prefix(fs, ord, fs.len() as int);
    &&& out.len() == m.len()
    &&& forall|r: int| 0 <= r < out.len() ==> {
        &&& same_except_sources(#[trigger] out[r], fs[m[r]])
        &&& strings_view(out[r].sources@) == kept_sources(fs, ord, m[r])
    }
}

// ---------------------------------------------------------------------------
// Lemmas
// ---------------------------------------------------------------------------

proof fn lemma_first_in_group_skip(fs: Seq<VulnerabilityFinding>, i: int, j: int, k: int)
    requires
        0 <= j <= k <= i < fs.len(),
        forall|t: int| j <= t < k ==> !same_group(fs[t], fs[i]),
    ensures
        first_in_group(fs, i, j) == first_in_group(fs, i, k),
    decreases k - j,
{
    if j < k {
        lemma_first_in_group_skip(fs, i, j + 1, k);
    }
}

proof fn lemma_key_lt_irreflexive(fs: Seq<VulnerabilityFinding>, a: int)
    ensures
        !key_lt(fs, a, a),
{
}

proof fn lemma_order_distinct(fs: Seq<VulnerabilityFinding>, ord: Seq<usize>, p: int, q: int)
    requires
        is_cluster_order(fs, ord),
        0 <= p < ord.len(),
        0 <= q < ord.len(),
        p != q,
    ensures
        ord[p] != ord[q],
{
    if p < q {
        assert(key_lt(fs, ord[p] as int, ord[q] as int));
    } else {
        assert(key_lt(fs, ord[q] as int, ord[p] as int));
    }
}

proof fn lemma_pos_of(fs: Seq<VulnerabilityFinding>, ord: Seq<usize>, p: int)
    requires
        is_cluster_order(fs, ord),
        0 <= p < ord.len(),
    ensures
        pos_of(ord, ord[p] as int) == p,
{
    let i = ord[p] as int;
    assert(listed(ord, i));
    let q = pos_of(ord, i);
    if q != p {
        lemma_order_distinct(fs, ord, p, q);
    }
}

proof fn lemma_cluster_start(fs: Seq<VulnerabilityFinding>, ord: Seq<usize>, p: int, r: int)
    requires
        0 <= p <= r < ord.len(),
        starts_cluster(fs, ord, p),
        forall|k: int| p < k <= r ==> !starts_cluster(fs, ord, k),
    ensures
        cluster_start(fs, ord, r) == p,
    decreases r - p,
{
    if r > p {
        lemma_cluster_start(fs, ord, p, r - 1);
    }
}

proof fn lemma_cluster_end(fs: Seq<VulnerabilityFinding>, ord: Seq<usize>, r: int, q: int)
    requires
        0 <= r < q <= ord.len(),
        q == ord.len() || starts_cluster(fs, ord, q),
        forall|k: int| r < k < q ==> !starts_cluster(fs, ord, k),
    ensures
        cluster_end(fs, ord, r) == q,
    decreases q - r,
{
    if r + 1 < q {
        lemma_cluster_end(fs, ord, r + 1, q);
    }
}

/// The cluster order of a list of findings is unique: any two orders that
/// list every finding once, sorted by group, line and index, are equal.
pub proof fn law_cluster_order_unique(
    fs: Seq<VulnerabilityFinding>,
    o1: Seq<usize>,
    o2: Seq<usize>,
)
    requires
        is_cluster_order(fs, o1),
        is_cluster_order(fs, o2),
    ensures
        o1 == o2,
{
    assert forall|p: int| 0 <= p < o1.len() implies o1[p] == o2[p] by {
        lemma_order_agree(fs, o1, o2, p);
    }
    assert(o1 =~= o2);
}

proof fn lemma_order_agree(fs: Seq<VulnerabilityFinding>, o1: Seq<usize>, o2: Seq<usize>, p: int)
    requires
        is_cluster_order(fs, o1),
        is_cluster_order(fs, o2),
        0 <= p < o1.len(),
    ensures
        o1[p] == o2[p],
    decreases p,
{
    if p > 0 {
        lemma_order_agree(fs, o1, o2, p - 1);
    }
    // every earlier position agrees
    assert forall|t: int| 0 <= t < p implies o1[t] == o2[t] by {
        lemma_order_agree(fs, o1, o2, t);
    }
    let a = o1[p] as int;
    let b = o2[p] as int;
    if a != b {
        assert(listed(o2, a));
        let qa = choose|q: int| 0 <= q < o2.len() && o2[q] == a;
        assert(listed(o1, b));
        let qb = choose|q: int| 0 <= q < o1.len() && o1[q] == b;
        if qa < p {
            lemma_order_distinct(fs, o1, qa, p);
        }
        if qb < p {
            lemma_order_distinct(fs, o2, qb, p);
        }
        if qa > p && qb > p {
            assert(key_lt(fs, b, a));
            assert(key_lt(fs, a, b));
        }
    }
}

// ---------------------------------------------------------------------------
// Executable parts
// ---------------------------------------------------------------------------

/// Whether two findings share file and CWE.
fn same_group_exec(a: &VulnerabilityFinding, b: &VulnerabilityFinding) -> (r: bool)
    ensures
        r == same_group(*a, *b),
{
    crate::text::str_eq(a.file_path.as_str(), b.file_path.as_str()) && opt_str_eq(&a.cwe_id, &b.cwe_id)
}

/// Group number of every finding.
fn group_ids(fs: &Vec<VulnerabilityFinding>) -> (g: Vec<usize>)
    ensures
        g@.len() == fs@.len(),
        forall|i: int| 0 <= i < fs@.len() ==> #[trigger] g@[i] == group_id(fs@, i),
{
    let mut g: Vec<usize> = Vec::new();
    let mut i: usize = 0;
    while i < fs.len()
        invariant
            i <= fs@.len(),
            g@.len() == i,
            forall|k: int| 0 <= k < i ==> #[trigger] g@[k] == group_id(fs@, k),
        decreases fs@.len() - i,
    {
        let mut j: usize = 0;
        while j < i && !same_group_exec(&fs[j], &fs[i])
            invariant
                i < fs@.len(),
                j <= i,
                forall|t: int| 0 <= t < j ==> !same_group(fs@[t], fs@[i as int]),
            decreases i - j,
        {
            j = j + 1;
        }
        proof {
            lemma_first_in_group_skip(fs@, i as int, 0, j as int);
        }
        g.push(j);
        i = i + 1;
    }
    g
}

/// Cluster-order comparison on finding indices.
fn key_lt_exec(fs: &Vec<VulnerabilityFinding>, g: &Vec<usize>, a: usize, b: usize) -> (r: bool)
    requires
        g@.len() == fs@.len(),
        forall|i: int| 0 <= i < fs@.len() ==> #[trigger] g@[i] == group_id(fs@, i),
        a < fs@.len(),
        b < fs@.len(),
    ensures
        r == key_lt(fs@, a as int, b as int),
{
    let ga = g[a];
    let gb = g[b];
    let la = fs[a].line_or_zero();
    let lb = fs[b].line_or_zero();
    ga < gb || (ga == gb && la < lb) || (ga == gb && la == lb && a < b)
}

/// The cluster order of `fs`.
fn cluster_order(fs: &Vec<VulnerabilityFinding>, g: &Vec<usize>) -> (ord: Vec<usize>)
    requires
        g@.len() == fs@.len(),
        forall|i: int| 0 <= i < fs@.len() ==> #[trigger] g@[i] == group_id(fs@, i),
    ensures
        is_cluster_order(fs@, ord@),
{
    let n = fs.len();
    let mut ord: Vec<usize> = Vec::new();
    let mut i: usize = 0;
    while i < n
        invariant
            n == fs@.len(),
            i <= n,
            ord@.len() == i,
            forall|k: int| 0 <= k < i ==> #[trigger] ord@[k] == k,
        decreases n - i,
    {
        ord.push(i);
        i = i + 1;
    }
    assert forall|x: int| 0 <= x < n implies #[trigger] listed(ord@, x) by {
        assert(ord@[x] == x);
    }
    let mut k: usize = 0;
    while k < n
        invariant
            n == fs@.len(),
            g@.len() == fs@.len(),
            forall|i: int| 0 <= i < fs@.len() ==> #[trigger] g@[i] == group_id(fs@, i),
            k <= n,
            ord@.len() == n,
            forall|p: int| 0 <= p < n ==> #[trigger] ord@[p] < n,
            forall|x: int| 0 <= x < n ==> #[trigger] listed(ord@, x),
            forall|p: int, q: int| 0 <= p < q < n ==> ord@[p] != ord@[q],
            forall|p: int, q: int|
                0 <= p < q < k ==> key_lt(fs@, #[trigger] ord@[p] as int, #[trigger] ord@[q] as int),
            forall|p: int, q: int|
                0 <= p < k <= q < n ==> key_lt(fs@, #[trigger] ord@[p] as int, #[trigger] ord@[q] as int),
        decreases n - k,
    {
        let mut m: usize = k;
        let mut j: usize = k + 1;
        while j < n
            invariant
                n == fs@.len(),
                g@.len() == fs@.len(),
                forall|i: int| 0 <= i < fs@.len() ==> #[trigger] g@[i] == group_id(fs@, i),
                ord@.len() == n,
                forall|p: int| 0 <= p < n ==> #[trigger] ord@[p] < n,
                k <= m < j <= n,
                forall|b: int| k <= b < j ==> !key_lt(fs@, #[trigger] ord@[b] as int, ord@[m as int] as int),
            decreases n - j,
        {
            if key_lt_exec(fs, g, ord[j], ord[m]) {
                m = j;
            }
            j = j + 1;
        }
        let ghost before = ord@;
        let x = ord[k];
        let y = ord[m];
        ord.set(k, y);
        ord.set(m, x);
        proof {
            assert forall|p: int, q: int| 0 <= p < q < n implies ord@[p] != ord@[q] by {
                let pp = if p == k { m as int } else if p == m { k as int } else { p };
                let qq = if q == k { m as int } else if q == m { k as int } else { q };
                assert(ord@[p] == before[pp]);
                assert(ord@[q] == before[qq]);
                if pp < qq {
                    assert(before[pp] != before[qq]);
                } else {
                    assert(before[qq] != before[pp]);
                }
            }
            assert forall|xx: int| 0 <= xx < n implies #[trigger] listed(ord@, xx) by {
                assert(listed(before, xx));
                let p0 = choose|p: int| 0 <= p < before.len() && before[p] == xx;
                let p1 = if p0 == k { m as int } else if p0 == m { k as int } else { p0 };
                assert(ord@[p1] == xx);
            }
            assert forall|b: int| k < b < n implies key_lt(fs@, ord@[k as int] as int, #[trigger] ord@[b] as int) by {
                let bb = if b == m { k as int } else { b };
                assert(ord@[b] == before[bb]);
                assert(!key_lt(fs@, before[bb] as int, before[m as int] as int));
                assert(before[bb] != before[m as int]);
            }
            assert forall|p: int, q: int|
                0 <= p < q < k + 1 implies key_lt(fs@, #[trigger] ord@[p] as int, #[trigger] ord@[q] as int) by {
                if q == k {
                    assert(ord@[p] == before[p]);
                    assert(key_lt(fs@, before[p] as int, before[m as int] as int));
                } else {
                    assert(ord@[p] == before[p]);
                    assert(ord@[q] == before[q]);
                }
            }
            assert forall|p: int, q: int|
                0 <= p < k + 1 <= q < n implies key_lt(fs@, #[trigger] ord@[p] as int, #[trigger] ord@[q] as int) by {
                if p < k {
                    let qq = if q == m { k as int } else { q };
                    assert(ord@[q] == before[qq]);
                    assert(ord@[p] == before[p]);
                }
            }
        }
        k = k + 1;
    }
    ord
}


/// Position `r` survives: a single-finding cluster, or its cluster's best.
pub open spec fn kept_at(fs: Seq<VulnerabilityFinding>, ord: Seq<usize>, r: int) -> bool {
    let c = cluster_of(fs, ord, r);
    c.len() == 1 || cluster_start(fs, ord, r) + best_pos(fs, c) == r
}

/// What the walk over clusters records for position `r`: the merged
/// sources for the best finding of a cluster of two or more, nothing else.
pub open spec fn recorded_ok(
    fs: Seq<VulnerabilityFinding>,
    ord: Seq<usize>,
    r: int,
    o: Option<Vec<String>>,
) -> bool {
    match o {
        Some(v) => kept_at(fs, ord, r) && cluster_of(fs, ord, r).len() > 1
            && strings_view(v@) == merged_sources(fs, cluster_of(fs, ord, r)),
        None => !(kept_at(fs, ord, r) && cluster_of(fs, ord, r).len() > 1),
    }
}

proof fn lemma_cluster_bounds(fs: Seq<VulnerabilityFinding>, ord: Seq<usize>, p: int)
    requires
        0 <= p < ord.len(),
    ensures
        0 <= cluster_start(fs, ord, p) <= p,
        p < cluster_end(fs, ord, p) <= ord.len(),
    decreases ord.len() - p,
{
    lemma_cluster_start_bound(fs, ord, p);
    if !(p + 1 >= ord.len() || starts_cluster(fs, ord, p + 1)) {
        lemma_cluster_bounds(fs, ord, p + 1);
    }
}

proof fn lemma_cluster_start_bound(fs: Seq<VulnerabilityFinding>, ord: Seq<usize>, p: int)
    requires
        0 <= p,
    ensures
        0 <= cluster_start(fs, ord, p) <= p,
    decreases p,
{
    if !(p <= 0 || starts_cluster(fs, ord, p)) {
        lemma_cluster_start_bound(fs, ord, p - 1);
    }
}

proof fn lemma_best_pos_bound(fs: Seq<VulnerabilityFinding>, s: Seq<usize>)
    requires
        s.len() >= 1,
    ensures
        0 <= best_pos(fs, s) < s.len(),
    decreases s.len(),
{
    if s.len() > 1 {
        lemma_best_pos_bound(fs, s.drop_last());
    }
}

/// The finding a cluster keeps is never beaten by another member of the
/// cluster: no member has more sources, and no member with as many sources
/// has a higher confidence; every member before it has fewer sources, or
/// as many and a lower confidence (the first of equals is kept).
pub proof fn law_kept_finding_is_best(fs: Seq<VulnerabilityFinding>, s: Seq<usize>)
    requires
        s.len() >= 1,
    ensures
        0 <= best_pos(fs, s) < s.len(),
        forall|k: int| 0 <= k < s.len() ==>
            !better(fs[#[trigger] s[k] as int], fs[s[best_pos(fs, s)] as int]),
        forall|k: int| 0 <= k < s.len() ==>
            fs[#[trigger] s[k] as int].sources.len() <= fs[s[best_pos(fs, s)] as int].sources.len()
            && (fs[s[k] as int].sources.len() == fs[s[best_pos(fs, s)] as int].sources.len()
                ==> fs[s[k] as int].confidence_bp <= fs[s[best_pos(fs, s)] as int].confidence_bp),
        forall|k: int| 0 <= k < best_pos(fs, s) ==>
            fs[#[trigger] s[k] as int].sources.len() < fs[s[best_pos(fs, s)] as int].sources.len()
            || (fs[s[k] as int].sources.len() == fs[s[best_pos(fs, s)] as int].sources.len()
                && fs[s[k] as int].confidence_bp < fs[s[best_pos(fs, s)] as int].confidence_bp),
    decreases s.len(),
{
    lemma_best_pos_bound(fs, s);
    if s.len() > 1 {
        let t = s.drop_last();
        law_kept_finding_is_best(fs, t);
        assert forall|k: int| 0 <= k < s.len() implies
            !better(fs[#[trigger] s[k] as int], fs[s[best_pos(fs, s)] as int]) by {
            if k < s.len() - 1 {
                assert(s[k] == t[k]);
            }
        }
        let r = best_pos(fs, t);
        assert forall|k: int| 0 <= k < best_pos(fs, s) implies
            fs[#[trigger] s[k] as int].sources.len() < fs[s[best_pos(fs, s)] as int].sources.len()
            || (fs[s[k] as int].sources.len() == fs[s[best_pos(fs, s)] as int].sources.len()
                && fs[s[k] as int].confidence_bp < fs[s[best_pos(fs, s)] as int].confidence_bp) by {
            assert(s[k] == t[k]);
            if best_pos(fs, s) != r {
                assert(!better(fs[t[k] as int], fs[t[r] as int]));
                assert(s[r] == t[r]);
            }
        }
    }
}

/// Finding `i` has, among the members of its cluster, the most sources,
/// and among those with as many sources the highest confidence.
pub open spec fn best_of_its_cluster(fs: Seq<VulnerabilityFinding>, ord: Seq<usize>, i: int) -> bool {
    let p = pos_of(ord, i);
    forall|q: int| cluster_start(fs, ord, p) <= q < cluster_end(fs, ord, p) ==>
        fs[#[trigger] ord[q] as int].sources.len() <= fs[i].sources.len()
        && (fs[ord[q] as int].sources.len() == fs[i].sources.len() ==> fs[ord[q] as int].confidence_bp <= fs[i].confidence_bp)
}

/// `f` is, but for its sources, a finding of `fs` that is the best of its
/// cluster.
pub open spec fn kept_as_best(fs: Seq<VulnerabilityFinding>, ord: Seq<usize>, f: VulnerabilityFinding) -> bool {
    exists|i: int| 0 <= i < fs.len() && same_except_sources(f, fs[i]) && #[trigger] best_of_its_cluster(fs, ord, i)
}

/// Each finding left by deduplication is, but for its merged sources, a
/// finding of the input that has the most sources in its cluster, and
/// among those the highest confidence.
pub proof fn law_dedup_keeps_best(fs: Seq<VulnerabilityFinding>, ord: Seq<usize>, out: Seq<VulnerabilityFinding>)
    requires
        is_cluster_order(fs, ord),
        dedup_result(fs, ord, out),
    ensures
        forall|r: int| 0 <= r < out.len() ==> kept_as_best(fs, ord, #[trigger] out[r]),
{
    let m = kept_prefix(fs, ord, fs.len() as int);
    lemma_kept_prefix(fs, ord, fs.len() as int);
    assert forall|r: int| 0 <= r < out.len() implies kept_as_best(fs, ord, #[trigger] out[r]) by {
        let i = m[r];
        assert(same_except_sources(out[r], fs[i]));
        assert(is_kept(fs, ord, i));
        lemma_kept_is_best(fs, ord, i);
    }
}

/// A finding that survives is the best of its cluster.
proof fn lemma_kept_is_best(fs: Seq<VulnerabilityFinding>, ord: Seq<usize>, i: int)
    requires
        is_cluster_order(fs, ord),
        0 <= i < fs.len(),
        is_kept(fs, ord, i),
    ensures
        best_of_its_cluster(fs, ord, i),
{
    assert(listed(ord, i));
    let p = pos_of(ord, i);
    assert(ord[p] == i);
    lemma_cluster_bounds(fs, ord, p);
    let st = cluster_start(fs, ord, p);
    let en = cluster_end(fs, ord, p);
    let c = cluster_of(fs, ord, p);
    assert(c.len() == en - st);
    if c.len() == 1 {
        assert forall|q: int| st <= q < en implies
            fs[#[trigger] ord[q] as int].sources.len() <= fs[i].sources.len()
            && (fs[ord[q] as int].sources.len() == fs[i].sources.len() ==> fs[ord[q] as int].confidence_bp <= fs[i].confidence_bp) by {
            assert(q == p);
        }
    } else {
        law_kept_finding_is_best(fs, c);
        let b = best_pos(fs, c);
        assert(st + b == p);
        assert(c[b] == ord[p]);
        assert forall|q: int| st <= q < en implies
            fs[#[trigger] ord[q] as int].sources.len() <= fs[i].sources.len()
            && (fs[ord[q] as int].sources.len() == fs[i].sources.len() ==> fs[ord[q] as int].confidence_bp <= fs[i].confidence_bp) by {
            assert(c[q - st] == ord[q]);
        }
    }
}

/// Whether `acc` holds a string with the text of `s`.
fn contains_string(acc: &Vec<String>, s: &String) -> (r: bool)
    ensures
        r == strings_view(acc@).contains(s@),
{
    let mut i: usize = 0;
    while i < acc.len()
        invariant
            i <= acc@.len(),
            forall|k: int| 0 <= k < i ==> acc@[k]@ != s@,
        decreases acc@.len() - i,
    {
        if acc[i] == *s {
            assert(strings_view(acc@)[i as int] == s@);
            return true;
        }
        i = i + 1;
    }
    proof {
        if strings_view(acc@).contains(s@) {
            let k = choose|k: int| 0 <= k < strings_view(acc@).len() && strings_view(acc@)[k] == s@;
            assert(acc@[k]@ == s@);
        }
    }
    false
}

/// Appends to `acc` the strings of `xs` whose text it does not hold yet.
fn add_new_strings(acc: &mut Vec<String>, xs: &Vec<String>)
    ensures
        strings_view(final(acc)@) == add_new(strings_view(old(acc)@), strings_view(xs@)),
{
    let ghost start = strings_view(acc@);
    let mut j: usize = 0;
    assert(strings_view(xs@).subrange(0, 0) =~= Seq::<Seq<char>>::empty());
    while j < xs.len()
        invariant
            j <= xs@.len(),
            strings_view(acc@) == add_new(start, strings_view(xs@).subrange(0, j as int)),
        decreases xs@.len() - j,
    {
        let ghost prev = strings_view(xs@).subrange(0, j as int);
        let ghost next = strings_view(xs@).subrange(0, j + 1);
        assert(next.drop_last() =~= prev);
        assert(next.last() == xs@[j as int]@);
        if !contains_string(acc, &xs[j]) {
            acc.push(xs[j].clone());
            assert(strings_view(acc@) =~= add_new(start, prev).push(xs@[j as int]@));
        }
        j = j + 1;
    }
    assert(strings_view(xs@).subrange(0, xs@.len() as int) =~= strings_view(xs@));
}

/// `x` beats `y`.
fn better_exec(x: &VulnerabilityFinding, y: &VulnerabilityFinding) -> (r: bool)
    ensures
        r == better(*x, *y),
{
    x.sources.len() > y.sources.len()
        || (x.sources.len() == y.sources.len() && x.confidence_bp > y.confidence_bp)
}

/// Whether position `q >= 1` of the order begins a new cluster.
fn starts_cluster_exec(
    fs: &Vec<VulnerabilityFinding>,
    g: &Vec<usize>,
    ord: &Vec<usize>,
    q: usize,
) -> (r: bool)
    requires
        g@.len() == fs@.len(),
        forall|i: int| 0 <= i < fs@.len() ==> #[trigger] g@[i] == group_id(fs@, i),
        is_cluster_order(fs@, ord@),
        1 <= q < ord@.len(),
    ensures
        r == starts_cluster(fs@, ord@, q as int),
{
    let a = ord[q - 1];
    let b = ord[q];
    let la = fs[a].line_or_zero();
    let lb = fs[b].line_or_zero();
    g[b] != g[a] || (lb > la && lb - la > 2)
}

/// Structural deduplication: groups findings by (file, CWE), chains each
/// group by line into clusters (consecutive lines at most 2 apart), keeps
/// the best finding of each cluster with the sources of the whole cluster,
/// and preserves the original order of the kept findings.  Returns how
/// many findings were merged away.
#[verifier::rlimit(40)]
#[verifier::spinoff_prover]
pub fn structural_dedup(findings: &mut Vec<VulnerabilityFinding>) -> (merged: usize)
    ensures
        exists|ord: Seq<usize>| is_cluster_order(old(findings)@, ord)
            && dedup_result(old(findings)@, ord, final(findings)@),
        merged == old(findings)@.len() - final(findings)@.len(),
{
    let n = findings.len();
    let g = group_ids(findings);
    let ord = cluster_order(findings, &g);
    let ghost fs = findings@;

    let mut kept: Vec<bool> = Vec::new();
    let mut new_src: Vec<Option<Vec<String>>> = Vec::new();
    let mut i: usize = 0;
    while i < n
        invariant
            i <= n,
            kept@.len() == i,
            new_src@.len() == i,
            forall|k: int| 0 <= k < i ==> !(#[trigger] kept@[k]),
            forall|k: int| 0 <= k < i ==> (#[trigger] new_src@[k]) is None,
        decreases n - i,
    {
        kept.push(false);
        new_src.push(None);
        i = i + 1;
    }

    let mut p: usize = 0;
    while p < n
        invariant
            n == fs.len(),
            fs == findings@,
            g@.len() == fs.len(),
            forall|i: int| 0 <= i < fs.len() ==> #[trigger] g@[i] == group_id(fs, i),
            is_cluster_order(fs, ord@),
            p <= n,
            p < n ==> starts_cluster(fs, ord@, p as int),
            kept@.len() == n,
            new_src@.len() == n,
            forall|r: int| 0 <= r < p ==> #[trigger] kept@[ord@[r] as int] == kept_at(fs, ord@, r),
            forall|r: int| 0 <= r < p ==> recorded_ok(fs, ord@, r, #[trigger] new_src@[ord@[r] as int]),
            forall|r: int| p <= r < n ==> !(#[trigger] kept@[ord@[r] as int]),
            forall|r: int| p <= r < n ==> (#[trigger] new_src@[ord@[r] as int]) is None,
        decreases n - p,
    {
        let mut q: usize = p + 1;
        while q < n && !starts_cluster_exec(findings, &g, &ord, q)
            invariant
                n == fs.len(),
                fs == findings@,
                g@.len() == fs.len(),
                forall|i: int| 0 <= i < fs.len() ==> #[trigger] g@[i] == group_id(fs, i),
                is_cluster_order(fs, ord@),
                p < q <= n,
                forall|k: int| p < k < q ==> !starts_cluster(fs, ord@, k),
            decreases n - q,
        {
            q = q + 1;
        }
        let ghost c = ord@.subrange(p as int, q as int);
        proof {
            assert forall|r: int| p <= r < q implies cluster_of(fs, ord@, r) == c by {
                lemma_cluster_start(fs, ord@, p as int, r);
                lemma_cluster_end(fs, ord@, r, q as int);
            }
        }
        let len = q - p;
        if len == 1 {
            let ghost before_k = kept@;
            kept.set(ord[p], true);
            proof {
                assert forall|r: int| 0 <= r < n && r != p implies
                    kept@[ord@[r] as int] == before_k[ord@[r] as int] by {
                    lemma_order_distinct(fs, ord@, r, p as int);
                }
                assert(kept_at(fs, ord@, p as int));
                assert(recorded_ok(fs, ord@, p as int, new_src@[ord@[p as int] as int]));
            }
        } else {
            let mut best: usize = 0;
            let mut k: usize = 1;
            while k < len
                invariant
                    n == fs.len(),
                    fs == findings@,
                    is_cluster_order(fs, ord@),
                    p < q <= n,
                    len == q - p,
                    c == ord@.subrange(p as int, q as int),
                    1 <= k <= len,
                    best < k,
                    best == best_pos(fs, c.subrange(0, k as int)),
                decreases len - k,
            {
                let ghost s = c.subrange(0, k + 1);
                assert(s.drop_last() =~= c.subrange(0, k as int));
                if better_exec(&findings[ord[p + k]], &findings[ord[p + best]]) {
                    best = k;
                }
                k = k + 1;
            }
            assert(c.subrange(0, len as int) =~= c);
            let mut merged: Vec<String> = Vec::new();
            let mut k2: usize = 0;
            assert(c.subrange(0, 0) =~= Seq::<usize>::empty());
            while k2 < len
                invariant
                    n == fs.len(),
                    fs == findings@,
                    is_cluster_order(fs, ord@),
                    p < q <= n,
                    len == q - p,
                    c == ord@.subrange(p as int, q as int),
                    k2 <= len,
                    strings_view(merged@) == merged_sources(fs, c.subrange(0, k2 as int)),
                decreases len - k2,
            {
                let ghost s = c.subrange(0, k2 + 1);
                assert(s.drop_last() =~= c.subrange(0, k2 as int));
                add_new_strings(&mut merged, &findings[ord[p + k2]].sources);
                k2 = k2 + 1;
            }
            let target = ord[p + best];
            let ghost before_k = kept@;
            let ghost before_n = new_src@;
            kept.set(target, true);
            new_src.set(target, Some(merged));
            proof {
                assert forall|r: int| 0 <= r < n && r != p + best implies
                    kept@[ord@[r] as int] == before_k[ord@[r] as int]
                    && new_src@[ord@[r] as int] == before_n[ord@[r] as int] by {
                    lemma_order_distinct(fs, ord@, r, (p + best) as int);
                }
                assert forall|r: int| p <= r < q implies
                    #[trigger] kept@[ord@[r] as int] == kept_at(fs, ord@, r)
                    && recorded_ok(fs, ord@, r, new_src@[ord@[r] as int]) by {
                    lemma_cluster_start(fs, ord@, p as int, r);
                }
            }
        }
        p = q;
    }

    // Rebuild in original order.
    let ghost old_fs = findings@;
    let mut rev: Vec<VulnerabilityFinding> = Vec::new();
    while findings.len() > 0
        invariant
            old_fs.len() == n,
            findings@ == old_fs.subrange(0, findings@.len() as int),
            rev@.len() + findings@.len() == n,
            forall|k: int| 0 <= k < rev@.len() ==> #[trigger] rev@[k] == old_fs[n - 1 - k],
        decreases findings@.len(),
    {
        let f = findings.pop().unwrap();
        rev.push(f);
    }
    let mut out: Vec<VulnerabilityFinding> = Vec::new();
    let mut idx: usize = 0;
    while idx < n
        invariant
            old_fs.len() == n,
            old_fs == fs,
            is_cluster_order(fs, ord@),
            kept@.len() == n,
            new_src@.len() == n,
            forall|r: int| 0 <= r < n ==> #[trigger] kept@[ord@[r] as int] == kept_at(fs, ord@, r),
            forall|r: int| 0 <= r < n ==> recorded_ok(fs, ord@, r, #[trigger] new_src@[ord@[r] as int]),
            idx <= n,
            out@.len() <= idx,
            rev@.len() == n - idx,
            forall|k: int| 0 <= k < rev@.len() ==> #[trigger] rev@[k] == old_fs[n - 1 - k],
            ({
                let m = kept_prefix(fs, ord@, idx as int);
                &&& out@.len() == m.len()
                &&& forall|r: int| 0 <= r < out@.len() ==> {
                    &&& same_except_sources(#[trigger] out@[r], fs[m[r]])
                    &&& strings_view(out@[r].sources@) == kept_sources(fs, ord@, m[r])
                }
            }),
        decreases n - idx,
    {
        let mut f = rev.pop().unwrap();
        let ghost m = kept_prefix(fs, ord@, idx as int);
        let ghost pp = pos_of(ord@, idx as int);
        proof {
            assert(f == old_fs[idx as int]);
            assert(listed(ord@, idx as int));
            lemma_pos_of(fs, ord@, pp);
            assert(ord@[pp] == idx);
            assert(kept@[idx as int] == kept_at(fs, ord@, pp));
            assert(recorded_ok(fs, ord@, pp, new_src@[idx as int]));
        }
        if kept[idx] {
            proof { lemma_cluster_bounds(fs, ord@, pp); }
            match &new_src[idx] {
                Some(v) => {
                    f.sources = crate::finding::copy_strings(v);
                    assert(strings_view(f.sources@) == kept_sources(fs, ord@, idx as int));
                }
                None => {
                    assert(cluster_of(fs, ord@, pp).len() == 1);
                    assert(strings_view(f.sources@) == kept_sources(fs, ord@, idx as int));
                }
            }
            assert(same_except_sources(f, fs[idx as int]));
            out.push(f);
            proof {
                assert(kept_prefix(fs, ord@, idx + 1) == m.push(idx as int));
                let m2 = m.push(idx as int);
                assert forall|r: int| 0 <= r < out@.len() implies {
                    &&& same_except_sources(#[trigger] out@[r], fs[m2[r]])
                    &&& strings_view(out@[r].sources@) == kept_sources(fs, ord@, m2[r])
                } by {
                    if r < out@.len() - 1 {
                        assert(m2[r] == m[r]);
                    }
                }
            }
        } else {
            assert(kept_prefix(fs, ord@, idx + 1) == m);
        }
        idx = idx + 1;
    }
    let count = n - out.len();
    *findings = out;
    count
}

// ---------------------------------------------------------------------------
// A second deduplication changes nothing
// ---------------------------------------------------------------------------

/// Within each group, the lines of any two findings are more than 2 apart.
pub open spec fn clusters_apart(fs: Seq<VulnerabilityFinding>) -> bool {
    forall|a: int, b: int| 0 <= a < b < fs.len() && #[trigger] same_group(fs[a], fs[b]) ==>
        line_of(fs[b]) - line_of(fs[a]) > 2 || line_of(fs[a]) - line_of(fs[b]) > 2
}

proof fn lemma_first_in_group_char(fs: Seq<VulnerabilityFinding>, i: int, j: int)
    requires
        0 <= j <= i < fs.len(),
    ensures
        j <= first_in_group(fs, i, j) <= i,
        same_group(fs[first_in_group(fs, i, j)], fs[i]),
        forall|l: int| j <= l < first_in_group(fs, i, j) ==> !same_group(fs[l], fs[i]),
    decreases i - j,
{
    if j < i && !same_group(fs[j], fs[i]) {
        lemma_first_in_group_char(fs, i, j + 1);
    }
}

proof fn lemma_same_group_same_id(fs: Seq<VulnerabilityFinding>, a: int, b: int)
    requires
        0 <= a < fs.len(),
        0 <= b < fs.len(),
        same_group(fs[a], fs[b]),
    ensures
        group_id(fs, a) == group_id(fs, b),
{
    lemma_first_in_group_char(fs, a, 0);
    lemma_first_in_group_char(fs, b, 0);
    let ka = group_id(fs, a);
    let kb = group_id(fs, b);
    if ka < kb {
        assert(same_group(fs[ka], fs[b]));
    } else if kb < ka {
        assert(same_group(fs[kb], fs[a]));
    }
}

proof fn lemma_same_id_same_group(fs: Seq<VulnerabilityFinding>, a: int, b: int)
    requires
        0 <= a < fs.len(),
        0 <= b < fs.len(),
        group_id(fs, a) == group_id(fs, b),
    ensures
        same_group(fs[a], fs[b]),
{
    lemma_first_in_group_char(fs, a, 0);
    lemma_first_in_group_char(fs, b, 0);
}

proof fn lemma_cluster_start_char(fs: Seq<VulnerabilityFinding>, ord: Seq<usize>, p: int)
    requires
        0 <= p < ord.len(),
    ensures
        starts_cluster(fs, ord, cluster_start(fs, ord, p)),
        forall|k: int| cluster_start(fs, ord, p) < k <= p ==> !starts_cluster(fs, ord, k),
    decreases p,
{
    if !(p <= 0 || starts_cluster(fs, ord, p)) {
        lemma_cluster_start_char(fs, ord, p - 1);
    }
}

proof fn lemma_cluster_end_char(fs: Seq<VulnerabilityFinding>, ord: Seq<usize>, p: int)
    requires
        0 <= p < ord.len(),
    ensures
        cluster_end(fs, ord, p) == ord.len() || starts_cluster(fs, ord, cluster_end(fs, ord, p)),
        forall|k: int| p < k < cluster_end(fs, ord, p) ==> !starts_cluster(fs, ord, k),
    decreases ord.len() - p,
{
    if !(p + 1 >= ord.len() || starts_cluster(fs, ord, p + 1)) {
        lemma_cluster_end_char(fs, ord, p + 1);
    }
}

/// Two kept positions lie in different clusters.
proof fn lemma_kept_apart(fs: Seq<VulnerabilityFinding>, ord: Seq<usize>, p1: int, p2: int)
    requires
        0 <= p1 < p2 < ord.len(),
        kept_at(fs, ord, p1),
        kept_at(fs, ord, p2),
    ensures
        cluster_end(fs, ord, p1) <= p2,
{
    lemma_cluster_bounds(fs, ord, p1);
    lemma_cluster_start_char(fs, ord, p1);
    lemma_cluster_end_char(fs, ord, p1);
    let s1 = cluster_start(fs, ord, p1);
    let e = cluster_end(fs, ord, p1);
    if e > p2 {
        lemma_cluster_start(fs, ord, s1, p2);
        lemma_cluster_end(fs, ord, p2, e);
        assert(cluster_of(fs, ord, p2) == cluster_of(fs, ord, p1));
        assert(cluster_of(fs, ord, p1).len() == e - s1);
    }
}

/// Kept findings of one group have lines more than 2 apart.
proof fn lemma_kept_lines_apart(fs: Seq<VulnerabilityFinding>, ord: Seq<usize>, p1: int, p2: int)
    requires
        is_cluster_order(fs, ord),
        0 <= p1 < p2 < ord.len(),
        kept_at(fs, ord, p1),
        kept_at(fs, ord, p2),
        same_group(fs[ord[p1] as int], fs[ord[p2] as int]),
    ensures
        line_of(fs[ord[p2] as int]) - line_of(fs[ord[p1] as int]) > 2,
{
    lemma_kept_apart(fs, ord, p1, p2);
    lemma_cluster_bounds(fs, ord, p1);
    lemma_cluster_end_char(fs, ord, p1);
    let s = cluster_end(fs, ord, p1);
    let a = ord[p1] as int;
    let b = ord[p2] as int;
    let x = ord[s - 1] as int;
    let y = ord[s] as int;
    lemma_same_group_same_id(fs, a, b);
    if s - 1 > p1 {
        assert(key_lt(fs, a, x));
    }
    assert(key_lt(fs, x, y));
    if s < p2 {
        assert(key_lt(fs, y, b));
    }
    assert(group_id(fs, x) == group_id(fs, y));
    assert(starts_cluster(fs, ord, s));
}

/// Every position of a kept prefix is kept, and the prefix ascends.
proof fn lemma_kept_prefix(fs: Seq<VulnerabilityFinding>, ord: Seq<usize>, k: int)
    requires
        0 <= k,
    ensures
        forall|r: int| 0 <= r < kept_prefix(fs, ord, k).len() ==> 0 <= #[trigger] kept_prefix(fs, ord, k)[r] < k
            && is_kept(fs, ord, kept_prefix(fs, ord, k)[r]),
        forall|r1: int, r2: int| 0 <= r1 < r2 < kept_prefix(fs, ord, k).len() ==>
            #[trigger] kept_prefix(fs, ord, k)[r1] < #[trigger] kept_prefix(fs, ord, k)[r2],
    decreases k,
{
    if k > 0 {
        lemma_kept_prefix(fs, ord, k - 1);
        let prev = kept_prefix(fs, ord, k - 1);
        let cur = kept_prefix(fs, ord, k);
        if is_kept(fs, ord, k - 1) {
            assert(cur == prev.push(k - 1));
            assert forall|r: int| 0 <= r < cur.len() implies 0 <= #[trigger] cur[r] < k && is_kept(fs, ord, cur[r]) by {
                if r < prev.len() {
                    assert(cur[r] == prev[r]);
                }
            }
            assert forall|r1: int, r2: int| 0 <= r1 < r2 < cur.len() implies #[trigger] cur[r1] < #[trigger] cur[r2] by {
                assert(cur[r1] == prev[r1]);
                if r2 < prev.len() {
                    assert(cur[r2] == prev[r2]);
                }
            }
        }
    }
}

/// What a deduplication keeps is apart within each group.
proof fn lemma_result_apart(fs: Seq<VulnerabilityFinding>, ord: Seq<usize>, out: Seq<VulnerabilityFinding>)
    requires
        is_cluster_order(fs, ord),
        dedup_result(fs, ord, out),
    ensures
        clusters_apart(out),
{
    let m = kept_prefix(fs, ord, fs.len() as int);
    lemma_kept_prefix(fs, ord, fs.len() as int);
    assert forall|r1: int, r2: int| 0 <= r1 < r2 < out.len() && #[trigger] same_group(out[r1], out[r2]) implies
        line_of(out[r2]) - line_of(out[r1]) > 2 || line_of(out[r1]) - line_of(out[r2]) > 2 by {
        let i1 = m[r1];
        let i2 = m[r2];
        assert(same_except_sources(out[r1], fs[i1]));
        assert(same_except_sources(out[r2], fs[i2]));
        assert(listed(ord, i1));
        assert(listed(ord, i2));
        let p1 = pos_of(ord, i1);
        let p2 = pos_of(ord, i2);
        assert(ord[p1] == i1);
        assert(ord[p2] == i2);
        assert(is_kept(fs, ord, i1));
        assert(is_kept(fs, ord, i2));
        assert(same_group(fs[i1], fs[i2]));
        if p1 < p2 {
            lemma_kept_lines_apart(fs, ord, p1, p2);
        } else {
            assert(p1 != p2);
            lemma_kept_lines_apart(fs, ord, p2, p1);
        }
    }
}

/// Every position of an order over findings that are apart starts a
/// cluster of its own.
proof fn lemma_apart_singletons(fs: Seq<VulnerabilityFinding>, ord: Seq<usize>, p: int)
    requires
        clusters_apart(fs),
        is_cluster_order(fs, ord),
        0 <= p < ord.len(),
    ensures
        starts_cluster(fs, ord, p),
{
    if p > 0 {
        let a = ord[p - 1] as int;
        let b = ord[p] as int;
        assert(key_lt(fs, a, b));
        if group_id(fs, a) == group_id(fs, b) {
            lemma_order_distinct(fs, ord, p - 1, p);
            lemma_same_id_same_group(fs, a, b);
            if a < b {
                assert(same_group(fs[a], fs[b]));
            } else {
                assert(same_group(fs[b], fs[a]));
            }
        }
    }
}

/// Deduplicating findings that are apart keeps them all, unchanged.
proof fn lemma_dedup_apart(fs: Seq<VulnerabilityFinding>, ord: Seq<usize>, out: Seq<VulnerabilityFinding>)
    requires
        clusters_apart(fs),
        is_cluster_order(fs, ord),
        dedup_result(fs, ord, out),
    ensures
        out.len() == fs.len(),
        forall|r: int| 0 <= r < out.len() ==> same_except_sources(#[trigger] out[r], fs[r])
            && strings_view(out[r].sources@) == strings_view(fs[r].sources@),
{
    assert forall|p: int| 0 <= p < ord.len() implies cluster_of(fs, ord, p).len() == 1 by {
        lemma_apart_singletons(fs, ord, p);
        if p + 1 < ord.len() {
            lemma_apart_singletons(fs, ord, p + 1);
        }
    }
    assert forall|i: int| 0 <= i < fs.len() implies #[trigger] is_kept(fs, ord, i)
        && kept_sources(fs, ord, i) == strings_view(fs[i].sources@) by {
        assert(listed(ord, i));
        let p = pos_of(ord, i);
        assert(ord[p] == i);
        assert(cluster_of(fs, ord, p).len() == 1);
    }
    lemma_kept_prefix_all(fs, ord, fs.len() as int);
    let m = kept_prefix(fs, ord, fs.len() as int);
    assert forall|r: int| 0 <= r < out.len() implies same_except_sources(#[trigger] out[r], fs[r])
        && strings_view(out[r].sources@) == strings_view(fs[r].sources@) by {
        assert(m[r] == r);
        assert(is_kept(fs, ord, r));
        assert(same_except_sources(out[r], fs[m[r]]));
        assert(strings_view(out[r].sources@) == kept_sources(fs, ord, m[r]));
    }
}

proof fn lemma_kept_prefix_all(fs: Seq<VulnerabilityFinding>, ord: Seq<usize>, k: int)
    requires
        0 <= k <= fs.len(),
        forall|i: int| 0 <= i < fs.len() ==> #[trigger] is_kept(fs, ord, i),
    ensures
        kept_prefix(fs, ord, k).len() == k,
        forall|r: int| 0 <= r < k ==> #[trigger] kept_prefix(fs, ord, k)[r] == r,
    decreases k,
{
    if k > 0 {
        lemma_kept_prefix_all(fs, ord, k - 1);
        assert(is_kept(fs, ord, k - 1));
    }
}

/// After deduplication, any two kept findings of one file and CWE have
/// lines more than 2 apart.
pub proof fn law_kept_findings_apart(fs: Seq<VulnerabilityFinding>, ord: Seq<usize>, out: Seq<VulnerabilityFinding>)
    requires
        is_cluster_order(fs, ord),
        dedup_result(fs, ord, out),
    ensures
        clusters_apart(out),
{
    lemma_result_apart(fs, ord, out);
}

/// Deduplicating twice is deduplicating once: the second pass over what
/// the first kept (under its own cluster order) keeps every finding, with
/// its fields and sources unchanged, so it merges nothing.
pub proof fn law_dedup_idempotent(
    fs: Seq<VulnerabilityFinding>,
    ord: Seq<usize>,
    out: Seq<VulnerabilityFinding>,
    ord2: Seq<usize>,
    out2: Seq<VulnerabilityFinding>,
)
    requires
        is_cluster_order(fs, ord),
        dedup_result(fs, ord, out),
        is_cluster_order(out, ord2),
        dedup_result(out, ord2, out2),
    ensures
        out2.len() == out.len(),
        forall|r: int| 0 <= r < out2.len() ==> same_except_sources(#[trigger] out2[r], out[r])
            && strings_view(out2[r].sources@) == strings_view(out[r].sources@),
{
    lemma_result_apart(fs, ord, out);
    lemma_dedup_apart(out, ord2, out2);
}

} // verus!
