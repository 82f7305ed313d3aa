//! Properties of the measurements that span several operations.
use crate::diagnostics::counters::{retained_after, sat_sub};
use crate::diagnostics::histogram::{
    bucket_of, bucket_upper_us, is_rank_bucket, micros_of, percentile_rank,
    recorded, seq_sum, LatencySnapshot, BUCKETS,
};
use vstd::prelude::*;

verus! {

/// A failed or abandoned operation never changes the success samples or any bucket.
pub proof fn failures_never_enter_samples(before: LatencySnapshot, elapsed_nanos: u128)
    ensures
        recorded(before, elapsed_nanos, false).buckets == before.buckets,
        recorded(before, elapsed_nanos, false).spec_samples() == before.spec_samples(),
        recorded(before, elapsed_nanos, false).maximum_us == before.maximum_us,
{
}

proof fn lemma_seq_sum_update(s: Seq<u64>, i: int, v: u64)
    requires
        0 <= i < s.len(),
    ensures
        seq_sum(s.update(i, v)) == seq_sum(s) - s[i] + v,
    decreases s.len(),
{
    if i == s.len() - 1 {
        assert(s.update(i, v).drop_last() =~= s.drop_last());
    } else {
        lemma_seq_sum_update(s.drop_last(), i, v);
        assert(s.update(i, v).drop_last() =~= s.drop_last().update(i, v));
    }
}

/// A successful operation adds exactly one sample, in the bucket of its rounded-up
/// microseconds, unless a count is already saturated.
pub proof fn success_adds_one_sample(before: LatencySnapshot, elapsed_nanos: u128)
    requires
        seq_sum(before.buckets@) < u64::MAX,
    ensures
        recorded(before, elapsed_nanos, true).spec_samples() == before.spec_samples() + 1,
        recorded(before, elapsed_nanos, true).buckets@[bucket_of(micros_of(elapsed_nanos))]
            == before.buckets@[bucket_of(micros_of(elapsed_nanos))] + 1,
        recorded(before, elapsed_nanos, true).maximum_us >= micros_of(elapsed_nanos),
{
    let b = bucket_of(micros_of(elapsed_nanos));
    let after = recorded(before, elapsed_nanos, true);
    assert(0 <= b < BUCKETS);
    crate::diagnostics::histogram::lemma_seq_sum_nonneg(before.buckets@);
    lemma_seq_sum_single(before.buckets@, b);
    lemma_seq_sum_update(before.buckets@, b, (before.buckets@[b] + 1) as u64);
}

proof fn lemma_seq_sum_single(s: Seq<u64>, i: int)
    requires
        0 <= i < s.len(),
    ensures
        s[i] <= seq_sum(s),
    decreases s.len(),
{
    crate::diagnostics::histogram::lemma_seq_sum_nonneg(s.drop_last());
    if i < s.len() - 1 {
        lemma_seq_sum_single(s.drop_last(), i);
    }
}

/// A reported percentile never exceeds the observed maximum.
pub proof fn percentile_bounded_by_maximum(index: int, maximum_us: u64)
    requires
        0 <= index < BUCKETS,
    ensures
        bucket_upper_us(index, maximum_us) <= maximum_us,
{
}

/// Percentiles are monotone: a higher percentile never reports a smaller bound.
pub proof fn percentile_is_monotone(
    snapshot: LatencySnapshot,
    lower: u8,
    higher: u8,
    lower_index: int,
    higher_index: int,
)
    requires
        0 < lower <= higher <= 100,
        is_rank_bucket(
            snapshot.buckets@,
            percentile_rank(snapshot.spec_samples(), lower),
            lower_index,
        ),
        is_rank_bucket(
            snapshot.buckets@,
            percentile_rank(snapshot.spec_samples(), higher),
            higher_index,
        ),
    ensures
        lower_index <= higher_index,
        bucket_upper_us(lower_index, snapshot.maximum_us) <= bucket_upper_us(
            higher_index,
            snapshot.maximum_us,
        ),
{
    let s = snapshot.spec_samples();
    assert(s * lower <= s * higher) by (nonlinear_arith)
        requires
            lower <= higher,
            s >= 0,
    ;
    let r1 = percentile_rank(s, lower);
    let r2 = percentile_rank(s, higher);
    assert(r1 <= r2) by (nonlinear_arith)
        requires
            r1 == (s * lower + 99) / 100,
            r2 == (s * higher + 99) / 100,
            s * lower <= s * higher,
    ;
    if higher_index < lower_index {
        assert(seq_sum(snapshot.buckets@.take(higher_index + 1)) < r1);
        assert(false);
    }
}

/// Releasing a reader allocation undoes recording it, unless a gauge saturated.
pub proof fn reader_release_restores_gauges(live_readers: u64, scratch_bytes: u64, bytes: usize)
    requires
        live_readers < u64::MAX,
        scratch_bytes + bytes <= u64::MAX,
    ensures
        sat_sub(live_readers.saturating_add(1), 1) == live_readers,
        sat_sub(scratch_bytes.saturating_add(bytes as u64), bytes as u64) == scratch_bytes,
{
}

/// Retention that grows and then shrinks back by the same amount returns to
/// where it started, unless the gauge saturated.
pub proof fn replay_retention_round_trip(retained: u64, before: usize, after: usize)
    requires
        after >= before,
        retained + (after - before) <= u64::MAX,
    ensures
        retained_after(retained_after(retained, before, after), after, before) == retained,
{
}

} // verus!
