//! Fixed-width latency histogram with an overflow bucket, an explicit failure
//! count and an exact maximum.
use vstd::prelude::*;

verus! {

/// Number of buckets: 1024 fixed-width buckets plus one overflow bucket.
pub const BUCKETS: usize = 1025;

/// Width of one bucket in microseconds.
pub const WIDTH_US: u64 = 100;

/// Sum of a sequence of counters, as a mathematical integer.
pub open spec fn seq_sum(s: Seq<u64>) -> int
    decreases s.len(),
{
    if s.len() == 0 {
        0
    } else {
        seq_sum(s.drop_last()) + s.last()
    }
}

/// An integer clamped into `u64`, as saturating arithmetic reports it.
pub open spec fn clamp_u64(x: int) -> u64 {
    if x > u64::MAX {
        u64::MAX
    } else if x < 0 {
        0
    } else {
        x as u64
    }
}

/// Whole microseconds covering `nanos`, rounded up and saturated to `u64`.
pub open spec fn micros_of(nanos: u128) -> u64 {
    clamp_u64(nanos / 1000 + if nanos % 1000 == 0 { 0int } else { 1int })
}

/// The bucket that holds a successful sample of `micros` microseconds.
/// Bucket `i < 1024` holds `(i * 100, (i + 1) * 100]`; zero is in bucket 0.
pub open spec fn bucket_of(micros: u64) -> int {
    let below = if micros == 0 { 0int } else { micros - 1 };
    if below / (WIDTH_US as int) >= (BUCKETS - 1) as int {
        (BUCKETS - 1) as int
    } else {
        below / (WIDTH_US as int)
    }
}

/// Conservative upper bound reported for bucket `index`.
pub open spec fn bucket_upper_us(index: int, maximum_us: u64) -> u64 {
    if index == BUCKETS - 1 {
        maximum_us
    } else if (index + 1) * WIDTH_US <= maximum_us {
        ((index + 1) * WIDTH_US) as u64
    } else {
        maximum_us
    }
}

/// The rank a percentile asks for: `ceil(samples * percentile / 100)`.
pub open spec fn percentile_rank(samples: u64, percentile: u8) -> int {
    (samples * percentile + 99) / 100
}

/// `index` is the first bucket at which the cumulative count reaches `rank`.
pub open spec fn is_rank_bucket(buckets: Seq<u64>, rank: int, index: int) -> bool {
    &&& 0 <= index < buckets.len()
    &&& seq_sum(buckets.take(index + 1)) >= rank
    &&& forall|j: int| 0 <= j < index ==> #[trigger] seq_sum(buckets.take(j + 1)) < rank
}

pub proof fn lemma_take_step(s: Seq<u64>, i: int)
    requires
        0 <= i < s.len(),
    ensures
        seq_sum(s.take(i + 1)) == seq_sum(s.take(i)) + s[i],
{
    assert(s.take(i + 1).drop_last() =~= s.take(i));
}

pub proof fn lemma_seq_sum_nonneg(s: Seq<u64>)
    ensures
        seq_sum(s) >= 0,
    decreases s.len(),
{
    if s.len() > 0 {
        lemma_seq_sum_nonneg(s.drop_last());
    }
}

/// Bounded success histogram and explicit failure count. Bucket upper bounds are
/// conservative; overflow percentiles return the observed exact maximum.
#[derive(Debug, Clone, Copy)]
pub struct LatencySnapshot {
    /// Successes distributed across fixed 100us buckets and one overflow bucket.
    pub buckets: [u64; BUCKETS],
    /// Failed or abandoned operations; never silently included as successful samples.
    pub failures: u64,
    /// Requested boundaries not observed by an injected adapter.
    pub unavailable: u64,
    /// Maximum successful elapsed time, rounded up to microseconds.
    pub maximum_us: u64,
}

impl LatencySnapshot {
    /// Success sample count as saturating addition over the buckets reports it.
    pub open spec fn spec_samples(&self) -> u64 {
        clamp_u64(seq_sum(self.buckets@))
    }

    /// A snapshot with every count and the maximum at zero.
    pub open spec fn is_zero(&self) -> bool {
        &&& forall|i: int| 0 <= i < BUCKETS ==> #[trigger] self.buckets@[i] == 0
        &&& self.failures == 0
        &&& self.unavailable == 0
        &&& self.maximum_us == 0
    }

    /// Success sample count; saturation is reported as u64::MAX.
    pub fn samples(&self) -> (total: u64)
        ensures
            total == self.spec_samples(),
    {
        let mut total: u64 = 0;
        let mut index: usize = 0;
        while index < BUCKETS
            invariant
                index <= BUCKETS,
                self.buckets@.len() == BUCKETS,
                total == clamp_u64(seq_sum(self.buckets@.take(index as int))),
            decreases BUCKETS - index,
        {
            proof {
                lemma_take_step(self.buckets@, index as int);
                lemma_seq_sum_nonneg(self.buckets@.take(index as int));
            }
            total = total.saturating_add(self.buckets[index]);
            index += 1;
        }
        assert(self.buckets@.take(BUCKETS as int) =~= self.buckets@);
        total
    }

    /// Conservative percentile in microseconds; None for no samples or an invalid percentile.
    pub fn percentile_upper_us(&self, percentile: u8) -> (result: Option<u64>)
        ensures
            (self.spec_samples() == 0 || percentile == 0 || percentile > 100) ==> result is None,
            !(self.spec_samples() == 0 || percentile == 0 || percentile > 100) ==> {
                let rank = percentile_rank(self.spec_samples(), percentile);
                &&& result matches Some(v) ==> exists|i: int|
                    is_rank_bucket(self.buckets@, rank, i) && v == bucket_upper_us(
                        i,
                        self.maximum_us,
                    )
                &&& result is None <==> forall|i: int|
                    0 <= i < BUCKETS ==> #[trigger] seq_sum(self.buckets@.take(i + 1)) < rank
            },
    {
        let samples = self.samples();
        if samples == 0 || percentile == 0 || percentile > 100 {
            return None;
        }
        assert(samples as u128 * percentile as u128 + 99 <= u128::MAX) by (nonlinear_arith)
            requires
                samples <= u64::MAX,
                percentile <= 100,
        ;
        let rank: u128 = (samples as u128 * percentile as u128 + 99) / 100;
        let ghost buckets = self.buckets@;
        let mut total: u128 = 0;
        let mut index: usize = 0;
        while index < BUCKETS
            invariant
                index <= BUCKETS,
                buckets == self.buckets@,
                buckets.len() == BUCKETS,
                rank == percentile_rank(samples, percentile),
                samples == self.spec_samples(),
                samples > 0,
                0 < percentile <= 100,
                total == seq_sum(buckets.take(index as int)),
                total <= index * (u64::MAX as int),
                forall|j: int| 0 <= j < index ==> #[trigger] seq_sum(buckets.take(j + 1)) < rank,
            decreases BUCKETS - index,
        {
            proof {
                lemma_take_step(buckets, index as int);
            }
            total = total + self.buckets[index] as u128;
            if total >= rank {
                let upper = if index == BUCKETS - 1 {
                    self.maximum_us
                } else {
                    let width = (index as u64 + 1) * WIDTH_US;
                    if width <= self.maximum_us {
                        width
                    } else {
                        self.maximum_us
                    }
                };
                assert(is_rank_bucket(buckets, rank as int, index as int));
                assert(upper == bucket_upper_us(index as int, self.maximum_us));
                assert(seq_sum(self.buckets@.take(index + 1)) >= rank);
                return Some(upper);
            }
            index += 1;
        }
        None
    }
}

/// The snapshot after recording one outcome of `elapsed_nanos` into `before`:
/// a failure only counts; a success adds one (saturating) to the bucket of its
/// rounded-up microseconds and raises the maximum to it.
pub open spec fn recorded(before: LatencySnapshot, elapsed_nanos: u128, success: bool) -> LatencySnapshot {
    if !success {
        LatencySnapshot { failures: before.failures.saturating_add(1), ..before }
    } else {
        let micros = micros_of(elapsed_nanos);
        let bucket = bucket_of(micros);
        LatencySnapshot {
            buckets: vstd::array::spec_array_update(
                before.buckets,
                bucket,
                before.buckets@[bucket].saturating_add(1),
            ),
            maximum_us: if micros > before.maximum_us {
                micros
            } else {
                before.maximum_us
            },
            ..before
        }
    }
}

/// Live latency histogram. Counters saturate instead of wrapping.
pub struct Histogram {
    buckets: [u64; BUCKETS],
    failures: u64,
    unavailable: u64,
    maximum_us: u64,
}

impl View for Histogram {
    type V = LatencySnapshot;

    closed spec fn view(&self) -> LatencySnapshot {
        LatencySnapshot {
            buckets: self.buckets,
            failures: self.failures,
            unavailable: self.unavailable,
            maximum_us: self.maximum_us,
        }
    }
}

impl Histogram {
    /// An empty histogram.
    pub fn new() -> (histogram: Self)
        ensures
            histogram@.is_zero(),
    {
        Self { buckets: [0u64; BUCKETS], failures: 0, unavailable: 0, maximum_us: 0 }
    }

    /// Begin a new measurement interval: every count and the maximum return to zero.
    pub fn reset_quiescent(&mut self)
        ensures
            final(self)@.is_zero(),
    {
        self.buckets = [0u64; BUCKETS];
        self.failures = 0;
        self.unavailable = 0;
        self.maximum_us = 0;
    }

    /// Count one requested boundary that the adapter did not observe.
    pub fn unavailable(&mut self)
        ensures
            final(self)@.unavailable == old(self)@.unavailable.saturating_add(1),
            final(self)@.buckets == old(self)@.buckets,
            final(self)@.failures == old(self)@.failures,
            final(self)@.maximum_us == old(self)@.maximum_us,
    {
        self.unavailable = self.unavailable.saturating_add(1);
    }

    /// Record one outcome. A failure only counts; a success lands in exactly one
    /// bucket and may raise the maximum.
    pub fn record(&mut self, elapsed_nanos: u128, success: bool)
        ensures
            final(self)@ == recorded(old(self)@, elapsed_nanos, success),
    {
        if !success {
            self.failures = self.failures.saturating_add(1);
            return;
        }
        let whole = elapsed_nanos / 1000;
        let ceil: u128 = if elapsed_nanos % 1000 == 0 {
            whole
        } else {
            whole + 1
        };
        let micros: u64 = if ceil > u64::MAX as u128 {
            u64::MAX
        } else {
            ceil as u64
        };
        assert(micros == micros_of(elapsed_nanos));
        if micros > self.maximum_us {
            self.maximum_us = micros;
        }
        let below = micros.saturating_sub(1) / WIDTH_US;
        let bucket: usize = if below >= (BUCKETS - 1) as u64 {
            BUCKETS - 1
        } else {
            below as usize
        };
        assert(bucket == bucket_of(micros));
        self.buckets[bucket] = self.buckets[bucket].saturating_add(1);
        assert(self@.buckets =~= recorded(old(self)@, elapsed_nanos, success).buckets);
    }

    /// Copy the current counts.
    pub fn snapshot(&self) -> (snapshot: LatencySnapshot)
        ensures
            snapshot == self@,
    {
        LatencySnapshot {
            buckets: self.buckets,
            failures: self.failures,
            unavailable: self.unavailable,
            maximum_us: self.maximum_us,
        }
    }
}

/// A reported percentile bound never exceeds the maximum: a fixed bucket
/// reports the smaller of its upper edge and the maximum, the overflow bucket
/// the maximum itself.
pub proof fn percentile_bounds_are_capped_by_the_maximum(index: int, maximum_us: u64)
    requires
        0 <= index < BUCKETS,
    ensures
        bucket_upper_us(index, maximum_us) <= maximum_us,
        index == BUCKETS - 1 ==> bucket_upper_us(index, maximum_us) == maximum_us,
        index < BUCKETS - 1 ==> bucket_upper_us(index, maximum_us) == if (index + 1) * 100
            <= maximum_us {
            (index + 1) * 100
        } else {
            maximum_us as int
        },
{
}

/// The rank a percentile asks for is the smallest count covering that share
/// of the samples: `rank * 100 >= samples * percentile`, and one fewer would
/// not.
pub proof fn percentile_rank_rounds_up(samples: u64, percentile: u8)
    ensures
        percentile_rank(samples, percentile) * 100 >= samples * percentile,
        (percentile_rank(samples, percentile) - 1) * 100 < samples * percentile,
{
    assert(samples * percentile >= 0) by (nonlinear_arith)
        requires
            samples >= 0,
            percentile >= 0,
    ;
}

/// Microseconds round up: `micros_of(nanos)` is the least whole number of
/// microseconds covering `nanos`, or `u64::MAX` when that does not fit.
pub proof fn micros_round_up(nanos: u128)
    ensures
        nanos <= 1000 * (u64::MAX as int) ==> {
            &&& nanos <= 1000 * (micros_of(nanos) as int)
            &&& 1000 * (micros_of(nanos) as int) < nanos + 1000
        },
        nanos > 1000 * (u64::MAX as int) ==> micros_of(nanos) == u64::MAX,
{
}

/// A success of `micros` microseconds lands in the bucket whose 100us range
/// covers it, or in the overflow bucket past the last fixed one.
pub proof fn buckets_cover_their_range(micros: u64)
    ensures
        0 <= bucket_of(micros) < BUCKETS,
        bucket_of(micros) < BUCKETS - 1 ==> micros <= (bucket_of(micros) + 1) * 100,
        bucket_of(micros) < BUCKETS - 1 && micros > 0 ==> bucket_of(micros) * 100 < micros,
        bucket_of(micros) == BUCKETS - 1 <==> micros > (BUCKETS - 1) * 100,
{
}

/// One recording: a success raises the maximum to its microseconds if they
/// exceed it, so the maximum afterwards is the larger of the two, and counts
/// one more in its bucket alone; a failure counts one more failure and leaves
/// the buckets and the maximum alone. Nothing touches `unavailable`.
pub proof fn recording_keeps_the_largest_success(before: LatencySnapshot, elapsed_nanos: u128, success: bool)
    ensures
        ({
            let after = recorded(before, elapsed_nanos, success);
            let micros = micros_of(elapsed_nanos);
            &&& after.unavailable == before.unavailable
            &&& after.maximum_us >= before.maximum_us
            &&& success ==> {
                &&& after.maximum_us >= micros
                &&& (after.maximum_us == before.maximum_us || after.maximum_us == micros)
                &&& after.failures == before.failures
                &&& after.buckets@[bucket_of(micros)] == before.buckets@[bucket_of(micros)].saturating_add(1)
                &&& forall|i: int| 0 <= i < BUCKETS && i != bucket_of(micros) ==> #[trigger] after.buckets@[i]
                    == before.buckets@[i]
            }
            &&& !success ==> {
                &&& after.maximum_us == before.maximum_us
                &&& after.buckets == before.buckets
                &&& after.failures == before.failures.saturating_add(1)
            }
        }),
{
}

/// Recording a run of outcomes, in order.
pub open spec fn recorded_run(before: LatencySnapshot, samples: Seq<(u128, bool)>) -> LatencySnapshot
    decreases samples.len(),
{
    if samples.len() == 0 {
        before
    } else {
        let last = samples.last();
        recorded(recorded_run(before, samples.drop_last()), last.0, last.1)
    }
}

/// After any run of recordings the maximum is the largest of the maximum
/// before and the microseconds of every success in the run: it is at least
/// each of them and equal to one of them.
pub proof fn maximum_is_the_largest_success(before: LatencySnapshot, samples: Seq<(u128, bool)>)
    ensures
        ({
            let after = recorded_run(before, samples);
            &&& after.maximum_us >= before.maximum_us
            &&& forall|k: int| 0 <= k < samples.len() && (#[trigger] samples[k]).1 ==> after.maximum_us
                >= micros_of(samples[k].0)
            &&& after.maximum_us == before.maximum_us || exists|k: int|
                0 <= k < samples.len() && (#[trigger] samples[k]).1 && after.maximum_us == micros_of(
                    samples[k].0,
                )
        }),
    decreases samples.len(),
{
    if samples.len() > 0 {
        let prefix = samples.drop_last();
        maximum_is_the_largest_success(before, prefix);
        let mid = recorded_run(before, prefix);
        let last = samples.last();
        recording_keeps_the_largest_success(mid, last.0, last.1);
        let after = recorded_run(before, samples);
        assert forall|k: int| 0 <= k < samples.len() && (#[trigger] samples[k]).1 implies after.maximum_us
            >= micros_of(samples[k].0) by {
            if k < prefix.len() {
                assert(samples[k] == prefix[k]);
            }
        }
        if after.maximum_us != before.maximum_us {
            if after.maximum_us == mid.maximum_us {
                let k = choose|k: int|
                    0 <= k < prefix.len() && (#[trigger] prefix[k]).1 && mid.maximum_us == micros_of(
                        prefix[k].0,
                    );
                assert(samples[k] == prefix[k]);
            } else {
                assert(samples[samples.len() - 1] == last);
            }
        }
    }
}

} // verus!
