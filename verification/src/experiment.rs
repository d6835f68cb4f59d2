//! The runs of a benchmark experiment: every workload with every seed and tick count (42
//! and 10 when none are given), each with every combination of the swept parameters'
//! values.
use vstd::prelude::*;
use crate::bench::WorkloadKind;

verus! {

/// `prefixes`, each extended by each of `values` in turn: for each prefix in order, the
/// prefix followed by the first value, then by the second, and so on.
pub open spec fn extend_all<T>(prefixes: Seq<Seq<T>>, values: Seq<T>) -> Seq<Seq<T>>
    decreases prefixes.len(),
{
    if prefixes.len() == 0 {
        Seq::empty()
    } else {
        extend_all(prefixes.drop_last(), values) + values.map_values(|v: T| prefixes.last().push(v))
    }
}

/// The combinations of one value from each of `lists`, in order, the last list varying
/// fastest; one empty combination when there are no lists.
pub open spec fn combinations<T>(lists: Seq<Seq<T>>) -> Seq<Seq<T>>
    decreases lists.len(),
{
    if lists.len() == 0 {
        seq![Seq::empty()]
    } else {
        extend_all(combinations(lists.drop_last()), lists.last())
    }
}

/// The contents of `v`'s vectors.
pub open spec fn vec_views<T>(v: Seq<Vec<T>>) -> Seq<Seq<T>> {
    v.map_values(|x: Vec<T>| x@)
}

/// A copy of `v`, element by element.
fn copy_of<T: Copy>(v: &Vec<T>) -> (r: Vec<T>)
    ensures
        r@ == v@,
{
    let mut r: Vec<T> = Vec::new();
    let mut i: usize = 0;
    while i < v.len()
        invariant
            i <= v@.len(),
            r@ == v@.subrange(0, i as int),
        decreases v.len() - i,
    {
        r.push(v[i]);
        i = i + 1;
        assert(r@ =~= v@.subrange(0, i as int));
    }
    assert(v@.subrange(0, i as int) =~= v@);
    r
}

/// Every combination of one value from each of `lists` (see `combinations`).
pub fn cartesian_product<T: Copy>(lists: &[Vec<T>]) -> (r: Vec<Vec<T>>)
    ensures
        vec_views(r@) == combinations(vec_views(lists@)),
{
    let mut result: Vec<Vec<T>> = Vec::new();
    result.push(Vec::new());
    proof {
        assert(vec_views(result@) =~= seq![Seq::<T>::empty()]);
        assert(vec_views(lists@.subrange(0, 0)) =~= Seq::<Seq<T>>::empty());
    }
    let mut k: usize = 0;
    while k < lists.len()
        invariant
            k <= lists@.len(),
            vec_views(result@) == combinations(vec_views(lists@.subrange(0, k as int))),
        decreases lists.len() - k,
    {
        let list = &lists[k];
        let mut next: Vec<Vec<T>> = Vec::new();
        let mut p: usize = 0;
        while p < result.len()
            invariant
                p <= result@.len(),
                vec_views(next@) == extend_all(vec_views(result@).subrange(0, p as int), list@),
            decreases result.len() - p,
        {
            let mut q: usize = 0;
            let ghost base = vec_views(next@);
            let ghost prefix = result@[p as int]@;
            while q < list.len()
                invariant
                    q <= list@.len(),
                    prefix == result@[p as int]@,
                    p < result@.len(),
                    vec_views(next@) == base + list@.subrange(0, q as int).map_values(|v: T| prefix.push(v)),
                decreases list.len() - q,
            {
                let mut combined = copy_of(&result[p]);
                combined.push(list[q]);
                let ghost before = next@;
                next.push(combined);
                proof {
                    assert(vec_views(next@) =~= vec_views(before).push(prefix.push(list@[q as int])));
                    assert(list@.subrange(0, q + 1).map_values(|v: T| prefix.push(v))
                        =~= list@.subrange(0, q as int).map_values(|v: T| prefix.push(v)).push(prefix.push(list@[q as int])));
                }
                q = q + 1;
            }
            proof {
                assert(list@.subrange(0, q as int) =~= list@);
                let done = vec_views(result@).subrange(0, p + 1);
                assert(done.drop_last() =~= vec_views(result@).subrange(0, p as int));
                assert(done.last() == prefix);
            }
            p = p + 1;
        }
        proof {
            assert(vec_views(result@).subrange(0, p as int) =~= vec_views(result@));
            let ls = vec_views(lists@.subrange(0, k + 1));
            assert(ls.drop_last() =~= vec_views(lists@.subrange(0, k as int)));
            assert(ls.last() == list@);
        }
        result = next;
        k = k + 1;
    }
    proof {
        assert(lists@.subrange(0, k as int) =~= lists@);
    }
    result
}

/// The given values, or `default` alone when none are given.
pub open spec fn or_default(v: Seq<u64>, default: u64) -> Seq<u64> {
    if v.len() == 0 { seq![default] } else { v }
}

/// The `(workload, seed, tick count)` of each run of an experiment over `workloads`,
/// `seeds` and `tick_counts` (defaults: seed 42, 10 ticks), in order: by workload, then
/// seed, then tick count. Each stands for one run per combination of swept values.
pub open spec fn experiment_runs(workloads: Seq<WorkloadKind>, seeds: Seq<u64>, tick_counts: Seq<u64>) -> Seq<(WorkloadKind, u64, u64)> {
    let s = or_default(seeds, 42);
    let t = or_default(tick_counts, 10);
    Seq::new(workloads.len() * s.len() * t.len(), |i: int| (
        workloads[i / (s.len() * t.len()) as int],
        s[(i / t.len() as int) % s.len() as int],
        t[i % t.len() as int],
    ))
}

fn values_or(v: &[u64], default: u64) -> (r: Vec<u64>)
    ensures
        r@ == or_default(v@, default),
{
    if v.len() == 0 {
        let mut r: Vec<u64> = Vec::new();
        r.push(default);
        assert(r@ =~= seq![default]);
        r
    } else {
        let mut r: Vec<u64> = Vec::new();
        let mut i: usize = 0;
        while i < v.len()
            invariant
                i <= v@.len(),
                r@ == v@.subrange(0, i as int),
            decreases v.len() - i,
        {
            r.push(v[i]);
            i = i + 1;
            assert(r@ =~= v@.subrange(0, i as int));
        }
        assert(v@.subrange(0, i as int) =~= v@);
        r
    }
}

/// The runs of an experiment (see `experiment_runs`). The number of runs fits in memory.
pub fn plan_runs(workloads: &[WorkloadKind], seeds: &[u64], tick_counts: &[u64]) -> (r: Vec<(WorkloadKind, u64, u64)>)
    requires
        workloads@.len() * or_default(seeds@, 42).len() * or_default(tick_counts@, 10).len() <= usize::MAX,
    ensures
        r@ == experiment_runs(workloads@, seeds@, tick_counts@),
{
    let s = values_or(seeds, 42);
    let t = values_or(tick_counts, 10);
    let ns = s.len();
    let nt = t.len();
    let ghost want = experiment_runs(workloads@, seeds@, tick_counts@);
    let mut r: Vec<(WorkloadKind, u64, u64)> = Vec::new();
    let mut w: usize = 0;
    proof {
        assert(0 < ns && 0 < nt);
        assert(workloads@.len() * ns * nt <= usize::MAX);
        assert(0 * ns * nt == 0) by (nonlinear_arith);
    }
    while w < workloads.len()
        invariant
            s@ == or_default(seeds@, 42),
            t@ == or_default(tick_counts@, 10),
            ns == s@.len(),
            nt == t@.len(),
            0 < ns,
            0 < nt,
            workloads@.len() * ns * nt <= usize::MAX,
            want == experiment_runs(workloads@, seeds@, tick_counts@),
            w <= workloads@.len(),
            r@.len() == w * ns * nt,
            forall|i: int| 0 <= i < r@.len() ==> #[trigger] r@[i] == want[i],
        decreases workloads.len() - w,
    {
        let mut a: usize = 0;
        while a < ns
            invariant
                s@ == or_default(seeds@, 42),
                t@ == or_default(tick_counts@, 10),
                ns == s@.len(),
                nt == t@.len(),
                0 < ns,
                0 < nt,
                workloads@.len() * ns * nt <= usize::MAX,
                want == experiment_runs(workloads@, seeds@, tick_counts@),
                w < workloads@.len(),
                a <= ns,
                r@.len() == w * ns * nt + a * nt,
                forall|i: int| 0 <= i < r@.len() ==> #[trigger] r@[i] == want[i],
            decreases ns - a,
        {
            let mut b: usize = 0;
            while b < nt
                invariant
                    s@ == or_default(seeds@, 42),
                    t@ == or_default(tick_counts@, 10),
                    ns == s@.len(),
                    nt == t@.len(),
                    0 < ns,
                    0 < nt,
                    workloads@.len() * ns * nt <= usize::MAX,
                    want == experiment_runs(workloads@, seeds@, tick_counts@),
                    w < workloads@.len(),
                    a < ns,
                    b <= nt,
                    r@.len() == w * ns * nt + a * nt + b,
                    forall|i: int| 0 <= i < r@.len() ==> #[trigger] r@[i] == want[i],
                decreases nt - b,
            {
                let ghost i = r@.len() as int;
                proof {
                    lemma_run_index(w as int, a as int, b as int, ns as int, nt as int, workloads@.len() as int);
                }
                r.push((workloads[w], s[a], t[b]));
                b = b + 1;
            }
            a = a + 1;
            proof {
                assert(r@.len() == w * ns * nt + a * nt) by (nonlinear_arith)
                    requires
                        r@.len() == w * ns * nt + (a - 1) * nt + nt;
            }
        }
        w = w + 1;
        proof {
            assert(r@.len() == w * ns * nt) by (nonlinear_arith)
                requires
                    r@.len() == (w - 1) * ns * nt + ns * nt;
        }
    }
    proof {
        assert(r@ =~= want);
    }
    r
}

/// Position `i = (w·ns + a)·nt + b` of the runs is workload `w`, seed `a`, tick count `b`.
proof fn lemma_run_index(w: int, a: int, b: int, ns: int, nt: int, nw: int)
    requires
        0 <= w < nw,
        0 <= a < ns,
        0 <= b < nt,
    ensures
        ({
            let i = w * ns * nt + a * nt + b;
            &&& 0 <= i < nw * ns * nt
            &&& i / (ns * nt) == w
            &&& (i / nt) % ns == a
            &&& i % nt == b
        }),
{
    let i = w * ns * nt + a * nt + b;
    let m = ns * nt;
    assert(0 <= a * nt + b < m) by (nonlinear_arith)
        requires
            0 <= a < ns,
            0 <= b < nt,
            m == ns * nt;
    assert(w * ns * nt == w * m) by (nonlinear_arith)
        requires
            m == ns * nt;
    assert(i == (w * ns + a) * nt + b) by (nonlinear_arith)
        requires
            i == w * ns * nt + a * nt + b;
    assert(i / m == w) by (nonlinear_arith)
        requires
            i == w * m + (a * nt + b),
            0 <= a * nt + b < m;
    assert(i / nt == w * ns + a) by (nonlinear_arith)
        requires
            i == (w * ns + a) * nt + b,
            0 <= b < nt;
    assert((w * ns + a) % ns == a) by (nonlinear_arith)
        requires
            0 <= a < ns,
            0 <= w;
    assert(i % nt == b) by (nonlinear_arith)
        requires
            i == (w * ns + a) * nt + b,
            0 <= b < nt;
    assert((w + 1) * m <= nw * m) by (nonlinear_arith)
        requires
            w + 1 <= nw,
            0 <= m;
    assert(nw * ns * nt == nw * m) by (nonlinear_arith)
        requires
            m == ns * nt;
    assert(i < nw * ns * nt) by (nonlinear_arith)
        requires
            i == w * m + (a * nt + b),
            a * nt + b < m,
            (w + 1) * m <= nw * m,
            nw * ns * nt == nw * m;
}

/// The product of the lengths of `lists`.
pub open spec fn length_product<T>(lists: Seq<Seq<T>>) -> nat
    decreases lists.len(),
{
    if lists.len() == 0 { 1 } else { length_product(lists.drop_last()) * lists.last().len() }
}

proof fn lemma_extend_all_len<T>(prefixes: Seq<Seq<T>>, values: Seq<T>)
    ensures
        extend_all(prefixes, values).len() == prefixes.len() * values.len(),
    decreases prefixes.len(),
{
    if prefixes.len() > 0 {
        lemma_extend_all_len(prefixes.drop_last(), values);
        assert((prefixes.len() - 1) * values.len() + values.len() == prefixes.len() * values.len()) by (nonlinear_arith);
    }
}

/// There are as many combinations as the product of the lists' lengths: one per choice
/// of a value from each list.
pub proof fn lemma_combinations_len<T>(lists: Seq<Seq<T>>)
    ensures
        combinations(lists).len() == length_product(lists),
    decreases lists.len(),
{
    if lists.len() > 0 {
        lemma_combinations_len(lists.drop_last());
        lemma_extend_all_len(combinations(lists.drop_last()), lists.last());
    }
}

} // verus!
