//! The bootstrap orchestrator.
//!
//! `bootstrap` evaluates a statistic on `nresamples` fresh pairs of
//! resamples of two input samples and accumulates the results, field by
//! field, into distributions. Rather than drawing a fresh pair for every
//! evaluation, the engine draws `ceil(sqrt(n))` a-resamples and reuses each
//! for up to `ceil(sqrt(n))` b-resamples, cutting the last group short so
//! that exactly `n` evaluations happen. When several workers are available
//! and the resample count is large, the evaluations are partitioned into
//! per-worker shards that each run the same decomposition; the shard
//! results are merged in worker order.

use vstd::prelude::*;
use crate::resamples::{is_resample_of, Resamples};
use crate::rng::Prng;
use crate::sample::Sample;
use crate::sys::{available_workers, random_seed};
use crate::tuple::{TupledDistributions, TupledDistributionsBuilder};

verus! {

/// Holds when `statistic` may be applied to every pair of resamples of `a`
/// and `b`.
pub open spec fn accepts_resamples<A, B, T, S: Fn(&Sample<A>, &Sample<B>) -> Vec<T>>(
    statistic: S,
    a: Seq<A>,
    b: Seq<B>,
) -> bool {
    forall|x: Sample<A>, y: Sample<B>|
        is_resample_of(x@, a) && is_resample_of(y@, b) ==> call_requires(statistic, (&x, &y))
}

/// Holds when every result of `statistic` has exactly `arity` fields.
pub open spec fn statistic_arity<A, B, T, S: Fn(&Sample<A>, &Sample<B>) -> Vec<T>>(
    statistic: S,
    arity: nat,
) -> bool {
    forall|x: Sample<A>, y: Sample<B>, r: Vec<T>|
        #[trigger] call_ensures(statistic, (&x, &y), r) ==> r@.len() == arity
}

/// Holds when position `j` of the field sequences `d` carries, field by
/// field, the fields of one result of `statistic` on one pair of resamples
/// of `a` and `b`.
pub open spec fn from_one_evaluation<A, B, T, S: Fn(&Sample<A>, &Sample<B>) -> Vec<T>>(
    statistic: S,
    a: Seq<A>,
    b: Seq<B>,
    d: Seq<Seq<T>>,
    j: int,
) -> bool {
    exists|x: Sample<A>, y: Sample<B>, r: Vec<T>|
        is_resample_of(x@, a) && is_resample_of(y@, b) && #[trigger] call_ensures(
            statistic,
            (&x, &y),
            r,
        ) && forall|f: int| 0 <= f < d.len() ==> d[f][j] == r@[f]
}

/// Holds when `d` consists of `arity` fields of `n` entries each, and every
/// index holds, field-aligned, the fields of one statistic evaluation on a
/// pair of resamples of `a` and `b`.
pub open spec fn distributions_from<A, B, T, S: Fn(&Sample<A>, &Sample<B>) -> Vec<T>>(
    statistic: S,
    a: Seq<A>,
    b: Seq<B>,
    d: Seq<Seq<T>>,
    arity: nat,
    n: nat,
) -> bool {
    &&& d.len() == arity
    &&& forall|f: int| 0 <= f < d.len() ==> (#[trigger] d[f]).len() == n
    &&& forall|j: int| 0 <= j < n ==> from_one_evaluation(statistic, a, b, d, j)
}

/// The sequential and the parallel strategy promise the same shape: any two
/// distribution results for the same statistic, inputs, arity and resample
/// count have the same number of fields, and every field has the same
/// length in both, even though the drawn values differ.
pub proof fn lemma_paths_share_shape<A, B, T, S: Fn(&Sample<A>, &Sample<B>) -> Vec<T>>(
    statistic: S,
    a: Seq<A>,
    b: Seq<B>,
    d1: Seq<Seq<T>>,
    d2: Seq<Seq<T>>,
    arity: nat,
    n: nat,
)
    requires
        distributions_from(statistic, a, b, d1, arity, n),
        distributions_from(statistic, a, b, d2, arity, n),
    ensures
        d1.len() == d2.len(),
        forall|f: int| 0 <= f < d1.len() ==> (#[trigger] d1[f]).len() == d2[f].len(),
{
}

/// An entry of one evaluation stays one when the field sequences grow
/// without disturbing position `j`.
proof fn lemma_entry_preserved<A, B, T, S: Fn(&Sample<A>, &Sample<B>) -> Vec<T>>(
    statistic: S,
    a: Seq<A>,
    b: Seq<B>,
    d1: Seq<Seq<T>>,
    d2: Seq<Seq<T>>,
    j: int,
)
    requires
        from_one_evaluation(statistic, a, b, d1, j),
        d2.len() == d1.len(),
        forall|f: int| 0 <= f < d1.len() ==> d2[f][j] == d1[f][j],
    ensures
        from_one_evaluation(statistic, a, b, d2, j),
{
    let (x, y, r) = choose|x: Sample<A>, y: Sample<B>, r: Vec<T>|
        is_resample_of(x@, a) && is_resample_of(y@, b) && #[trigger] call_ensures(
            statistic,
            (&x, &y),
            r,
        ) && forall|f: int| 0 <= f < d1.len() ==> d1[f][j] == r@[f];
    assert(call_ensures(statistic, (&x, &y), r));
    assert(forall|f: int| 0 <= f < d2.len() ==> d2[f][j] == r@[f]);
}

/// An entry of one evaluation at position `j` of `right` is one at position
/// `shift + j` of the field-wise concatenation of `left` and `right`.
proof fn lemma_entry_shifted<A, B, T, S: Fn(&Sample<A>, &Sample<B>) -> Vec<T>>(
    statistic: S,
    a: Seq<A>,
    b: Seq<B>,
    left: Seq<Seq<T>>,
    right: Seq<Seq<T>>,
    merged: Seq<Seq<T>>,
    j: int,
    shift: int,
)
    requires
        from_one_evaluation(statistic, a, b, right, j),
        merged.len() == right.len(),
        left.len() == right.len(),
        forall|f: int| 0 <= f < merged.len() ==> merged[f] == left[f] + right[f],
        forall|f: int| 0 <= f < left.len() ==> (#[trigger] left[f]).len() == shift,
        forall|f: int| 0 <= f < right.len() ==> 0 <= j < (#[trigger] right[f]).len(),
    ensures
        from_one_evaluation(statistic, a, b, merged, shift + j),
{
    let (x, y, r) = choose|x: Sample<A>, y: Sample<B>, r: Vec<T>|
        is_resample_of(x@, a) && is_resample_of(y@, b) && #[trigger] call_ensures(
            statistic,
            (&x, &y),
            r,
        ) && forall|f: int| 0 <= f < right.len() ==> right[f][j] == r@[f];
    assert(call_ensures(statistic, (&x, &y), r));
    assert(forall|f: int| 0 <= f < merged.len() ==> merged[f][shift + j] == r@[f]) by {
        assert(forall|f: int| 0 <= f < merged.len()
            ==> (#[trigger] merged[f])[shift + j] == right[f][j]);
    }
}

/// The least `s` with `s * s >= n`.
pub fn ceil_sqrt(n: usize) -> (s: usize)
    ensures
        s * s >= n,
        n > 0 ==> (s - 1) * (s - 1) < n,
        s <= n,
        n > 0 ==> s >= 1,
        n == 0 ==> s == 0,
{
    if n == 0 {
        return 0;
    }
    let m: u64 = n as u64;
    let mut f: u64 = 1;
    while f + 1 <= m / (f + 1)
        invariant
            m == n,
            1 <= f <= m,
            m >= 1,
            f * f <= m,
            f <= 0x1_0000_0000,
        decreases m - f,
    {
        proof {
            assert((f + 1) * (f + 1) <= m) by (nonlinear_arith)
                requires
                    f + 1 <= m as int / (f as int + 1),
                    f >= 1,
                    m >= 1,
            ;
            assert(f + 1 <= m) by (nonlinear_arith)
                requires
                    (f + 1) * (f + 1) <= m,
                    f >= 1,
            ;
            assert(f + 1 <= 0x1_0000_0000) by (nonlinear_arith)
                requires
                    (f + 1) * (f + 1) <= m,
                    m <= 0xFFFF_FFFF_FFFF_FFFF,
            ;
        }
        f = f + 1;
    }
    proof {
        assert(m < (f + 1) * (f + 1)) by (nonlinear_arith)
            requires
                f + 1 > m as int / (f as int + 1),
                f >= 1,
                m >= 1,
        ;
        assert(f * f < m ==> f + 1 <= m) by (nonlinear_arith)
            requires
                f >= 1,
        ;
        assert((f - 1) * (f - 1) < f * f) by (nonlinear_arith)
            requires
                f >= 1,
        ;
    }
    if f * f >= n as u64 {
        f as usize
    } else {
        (f + 1) as usize
    }
}

/// The seed of worker `i`, derived from the run's base seed so that workers
/// draw from distinct streams.
fn worker_seed(seed: u64, i: usize) -> u64 {
    let mut p = Prng::new(seed.wrapping_add((i as u64).wrapping_mul(0xA24BAED4963EE407)));
    p.next_u64()
}

/// Evaluates `statistic` on `count` fresh pairs of resamples of `a` and `b`
/// and pushes each result into a new builder of `arity` fields, in
/// evaluation order. One a-resample is reused for up to `block` b-resamples
/// (the sqrt-decomposition); the last group is cut short so that exactly
/// `count` evaluations happen.
pub fn bootstrap_chunk<A: Copy, B: Copy, T: Copy, S: Fn(&Sample<A>, &Sample<B>) -> Vec<T>>(
    a: &Sample<A>,
    b: &Sample<B>,
    count: usize,
    block: usize,
    arity: usize,
    capacity: usize,
    seed: u64,
    statistic: &S,
) -> (r: TupledDistributionsBuilder<T>)
    requires
        a@.len() > 0,
        b@.len() > 0,
        count > 0 ==> block > 0,
        accepts_resamples(*statistic, a@, b@),
        statistic_arity(*statistic, arity as nat),
    ensures
        r.aligned(),
        distributions_from(*statistic, a@, b@, r@, arity as nat, count as nat),
{
    let mut a_resamples = Resamples::new(a, seed);
    let mut b_resamples = Resamples::new(b, worker_seed(seed, 1));
    let mut sub = TupledDistributionsBuilder::<T>::new(arity, capacity);
    let mut i: usize = 0;
    while i < count
        invariant
            a@.len() > 0,
            b@.len() > 0,
            count > 0 ==> block > 0,
            accepts_resamples(*statistic, a@, b@),
            statistic_arity(*statistic, arity as nat),
            a_resamples.source@ == a@,
            b_resamples.source@ == b@,
            i <= count,
            sub@.len() == arity,
            sub.aligned(),
            forall|f: int| 0 <= f < arity ==> (#[trigger] sub@[f]).len() == i,
            forall|j: int| 0 <= j < i ==> from_one_evaluation(*statistic, a@, b@, sub@, j),
        decreases count - i,
    {
        a_resamples.next();
        let ghost i0: int = i as int;
        let mut j: usize = 0;
        while j < block && i < count
            invariant
                a@.len() > 0,
                b@.len() > 0,
                block > 0,
                accepts_resamples(*statistic, a@, b@),
                statistic_arity(*statistic, arity as nat),
                a_resamples.source@ == a@,
                b_resamples.source@ == b@,
                is_resample_of(a_resamples.current@, a@),
                j <= block,
                i <= count,
                i == i0 + j,
                sub@.len() == arity,
                sub.aligned(),
                forall|f: int| 0 <= f < arity ==> (#[trigger] sub@[f]).len() == i,
                forall|jj: int| 0 <= jj < i ==> from_one_evaluation(*statistic, a@, b@, sub@, jj),
            decreases block - j,
        {
            b_resamples.next();
            let value = statistic(&a_resamples.current, &b_resamples.current);
            proof {
                assert(call_ensures(
                    *statistic,
                    (&a_resamples.current, &b_resamples.current),
                    value,
                ));
                assert(value@.len() == arity);
            }
            let ghost pre = sub@;
            sub.push(&value);
            proof {
                assert forall|jj: int| 0 <= jj < i implies from_one_evaluation(
                    *statistic,
                    a@,
                    b@,
                    sub@,
                    jj,
                ) by {
                    lemma_entry_preserved(*statistic, a@, b@, pre, sub@, jj);
                }
                assert(forall|f: int| 0 <= f < arity ==> (#[trigger] sub@[f])[i as int]
                    == value@[f]);
                assert(from_one_evaluation(*statistic, a@, b@, sub@, i as int));
            }
            i += 1;
            j += 1;
        }
    }
    sub
}

/// Runs the full bootstrap with an explicit worker count and seed: the
/// evaluations are split into up to `workers` shards when the parallel gate
/// holds (`workers > 1` and more resamples than input observations),
/// otherwise they run as one shard. Either way the result holds exactly
/// `nresamples` field-aligned evaluations.
pub fn bootstrap_with<A: Copy, B: Copy, T: Copy, S: Fn(&Sample<A>, &Sample<B>) -> Vec<T>>(
    a: &Sample<A>,
    b: &Sample<B>,
    nresamples: usize,
    arity: usize,
    workers: usize,
    seed: u64,
    statistic: S,
) -> (r: TupledDistributions<T>)
    requires
        a@.len() > 0,
        b@.len() > 0,
        a@.len() + b@.len() <= usize::MAX,
        workers >= 1,
        accepts_resamples(statistic, a@, b@),
        statistic_arity(statistic, arity as nat),
    ensures
        distributions_from(statistic, a@, b@, r@, arity as nat, nresamples as nat),
{
    if workers > 1 && nresamples > a.len() + b.len() {
        proof {
            assert(nresamples / workers < usize::MAX) by (nonlinear_arith)
                requires
                    workers >= 2,
                    nresamples <= usize::MAX,
            ;
        }
        let granularity: usize = nresamples / workers + 1;
        let block: usize = ceil_sqrt(granularity);
        let mut builder = TupledDistributionsBuilder::<T>::new(arity, nresamples);
        let mut offset: usize = 0;
        let mut w: usize = 0;
        while w < workers
            invariant
                a@.len() > 0,
                b@.len() > 0,
                workers >= 2,
                accepts_resamples(statistic, a@, b@),
                statistic_arity(statistic, arity as nat),
                granularity >= 1,
                block >= 1,
                block * block >= granularity,
                w <= workers,
                offset <= nresamples,
                offset as int == vstd::math::min(
                    nresamples as int,
                    w as int * granularity as int,
                ),
                builder@.len() == arity,
                builder.aligned(),
                forall|f: int| 0 <= f < arity ==> (#[trigger] builder@[f]).len() == offset,
                forall|j: int| 0 <= j < offset ==> from_one_evaluation(
                    statistic,
                    a@,
                    b@,
                    builder@,
                    j,
                ),
            decreases workers - w,
        {
            let remaining: usize = nresamples - offset;
            let cnt: usize = if granularity < remaining {
                granularity
            } else {
                remaining
            };
            let mut chunk = bootstrap_chunk(
                a,
                b,
                cnt,
                block,
                arity,
                cnt,
                worker_seed(seed, w),
                &statistic,
            );
            let ghost pre = builder@;
            let ghost chunk_view = chunk@;
            builder.extend(&mut chunk);
            proof {
                assert forall|j: int| 0 <= j < offset implies from_one_evaluation(
                    statistic,
                    a@,
                    b@,
                    builder@,
                    j,
                ) by {
                    lemma_entry_preserved(statistic, a@, b@, pre, builder@, j);
                }
                assert forall|j: int| offset <= j < offset + cnt implies from_one_evaluation(
                    statistic,
                    a@,
                    b@,
                    builder@,
                    j,
                ) by {
                    lemma_entry_shifted(
                        statistic,
                        a@,
                        b@,
                        pre,
                        chunk_view,
                        builder@,
                        j - offset,
                        offset as int,
                    );
                }
            }
            offset = offset + cnt;
            w += 1;
            proof {
                assert(w as int * granularity as int == (w as int - 1) * granularity as int
                    + granularity as int) by (nonlinear_arith);
            }
        }
        proof {
            broadcast use vstd::arithmetic::div_mod::lemma_fundamental_div_mod;

            assert(workers as int * granularity as int > nresamples as int) by (nonlinear_arith)
                requires
                    granularity as int == nresamples as int / workers as int + 1,
                    workers >= 2,
            ;
        }
        builder.complete()
    } else {
        let block = ceil_sqrt(nresamples);
        let chunk = bootstrap_chunk(a, b, nresamples, block, arity, nresamples, seed, &statistic);
        chunk.complete()
    }
}

/// Performs a two-sample bootstrap: `nresamples` evaluations of `statistic`
/// on independently drawn pairs of resamples of `a` and `b`, accumulated
/// field-aligned into one distribution per field. The worker count comes
/// from the machine, the seed from a run-specific random source.
pub fn bootstrap<A: Copy, B: Copy, T: Copy, S: Fn(&Sample<A>, &Sample<B>) -> Vec<T>>(
    a: &Sample<A>,
    b: &Sample<B>,
    nresamples: usize,
    arity: usize,
    statistic: S,
) -> (r: TupledDistributions<T>)
    requires
        a@.len() > 0,
        b@.len() > 0,
        a@.len() + b@.len() <= usize::MAX,
        accepts_resamples(statistic, a@, b@),
        statistic_arity(statistic, arity as nat),
    ensures
        distributions_from(statistic, a@, b@, r@, arity as nat, nresamples as nat),
{
    let workers = available_workers();
    let seed = random_seed();
    bootstrap_with(a, b, nresamples, arity, workers, seed, statistic)
}

} // verus!
