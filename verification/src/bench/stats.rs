//! What a benchmark counts, times in microseconds.
use vstd::prelude::*;
use vstd::relations;

use crate::video::settings::FrameStats;

verus! {

/// `a` is not above `b`.
pub open spec fn not_above() -> spec_fn(u64, u64) -> bool {
    |a: u64, b: u64| a <= b
}

/// Samples in order.
pub open spec fn ordered(samples: Seq<u64>) -> Seq<u64> {
    samples.sort_by(not_above())
}

/// Samples in order are in order, and the same samples.
pub proof fn ordered_is_ordered(samples: Seq<u64>)
    ensures
        ordered(samples).to_multiset() == samples.to_multiset(),
        ordered(samples).len() == samples.len(),
        forall|i: int, j: int|
            #![trigger ordered(samples)[i], ordered(samples)[j]]
            0 <= i < j < ordered(samples).len() ==> ordered(samples)[i] <= ordered(samples)[j],
{
    broadcast use vstd::seq_lib::group_to_multiset_ensures;

    samples.lemma_sort_by_ensures(not_above());
    let s = ordered(samples);
    assert(s.len() == s.to_multiset().len());
    assert(samples.len() == samples.to_multiset().len());
    assert forall|i: int, j: int| #![trigger s[i], s[j]] 0 <= i < j < s.len() implies s[i] <= s[j] by {
        let leq = not_above();
        assert(leq(s[i], s[j]));
    }
}

/// Merges two rows of samples that are in order.
fn merge(a: &Vec<u64>, b: &Vec<u64>) -> (r: Vec<u64>)
    requires
        relations::sorted_by(a@, not_above()),
        relations::sorted_by(b@, not_above()),
    ensures
        relations::sorted_by(r@, not_above()),
        r@.to_multiset() == a@.to_multiset().add(b@.to_multiset()),
{
    broadcast use vstd::seq_lib::group_to_multiset_ensures;

    let ghost leq = not_above();
    let mut r: Vec<u64> = Vec::new();
    let mut i: usize = 0;
    let mut j: usize = 0;
    proof {
        assert(a@.take(0) == Seq::<u64>::empty());
        assert(b@.take(0) == Seq::<u64>::empty());
        assert(r@.to_multiset() =~= a@.take(0).to_multiset().add(b@.take(0).to_multiset()));
    }
    while i < a.len() || j < b.len()
        invariant
            i <= a@.len(),
            j <= b@.len(),
            leq == not_above(),
            relations::sorted_by(a@, leq),
            relations::sorted_by(b@, leq),
            relations::sorted_by(r@, leq),
            r@.to_multiset() == a@.take(i as int).to_multiset().add(b@.take(j as int).to_multiset()),
            forall|k: int| #![trigger r@[k]] 0 <= k < r@.len() && i < a@.len() ==> r@[k] <= a@[i as int],
            forall|k: int| #![trigger r@[k]] 0 <= k < r@.len() && j < b@.len() ==> r@[k] <= b@[j as int],
        decreases a@.len() - i + b@.len() - j,
    {
        let ghost before = r@;
        if j >= b.len() || (i < a.len() && a[i] <= b[j]) {
            let x: u64 = a[i];
            r.push(x);
            proof {
                broadcast use vstd::seq_lib::group_to_multiset_ensures;

                assert(a@.take(i + 1) == a@.take(i as int).push(x));
                assert(r@.to_multiset() == before.to_multiset().insert(x));
                assert(a@.take(i + 1).to_multiset() == a@.take(i as int).to_multiset().insert(x));
                assert(r@.to_multiset() =~= a@.take(i + 1).to_multiset().add(
                    b@.take(j as int).to_multiset(),
                ));
                if i + 1 < a@.len() {
                    assert(leq(a@[i as int], a@[i + 1]));
                }
                assert forall|p: int, q: int| 0 <= p < q < r@.len() implies #[trigger] leq(r@[p], r@[q]) by {
                    if q < before.len() {
                        assert(leq(before[p], before[q]));
                    } else {
                        assert(before[p] <= a@[i as int]);
                    }
                }
            }
            i = i + 1;
        } else {
            let x: u64 = b[j];
            r.push(x);
            proof {
                broadcast use vstd::seq_lib::group_to_multiset_ensures;

                assert(b@.take(j + 1) == b@.take(j as int).push(x));
                assert(r@.to_multiset() == before.to_multiset().insert(x));
                assert(b@.take(j + 1).to_multiset() == b@.take(j as int).to_multiset().insert(x));
                assert(r@.to_multiset() =~= a@.take(i as int).to_multiset().add(
                    b@.take(j + 1).to_multiset(),
                ));
                if j + 1 < b@.len() {
                    assert(leq(b@[j as int], b@[j + 1]));
                }
                assert forall|p: int, q: int| 0 <= p < q < r@.len() implies #[trigger] leq(r@[p], r@[q]) by {
                    if q < before.len() {
                        assert(leq(before[p], before[q]));
                    } else {
                        assert(before[p] <= b@[j as int]);
                    }
                }
            }
            j = j + 1;
        }
    }
    assert(a@.take(a@.len() as int) == a@);
    assert(b@.take(b@.len() as int) == b@);
    r
}

/// The samples from `from` to `to`, in order.
fn sort_part(samples: &[u64], from: usize, to: usize) -> (r: Vec<u64>)
    requires
        from <= to <= samples@.len(),
    ensures
        relations::sorted_by(r@, not_above()),
        r@.to_multiset() == samples@.subrange(from as int, to as int).to_multiset(),
    decreases to - from,
{
    let ghost part = samples@.subrange(from as int, to as int);
    if to - from <= 1 {
        let mut r: Vec<u64> = Vec::new();
        if to - from == 1 {
            r.push(samples[from]);
        }
        assert(r@ == part);
        return r;
    }
    let mid: usize = from + (to - from) / 2;
    let a = sort_part(samples, from, mid);
    let b = sort_part(samples, mid, to);
    proof {
        let left = samples@.subrange(from as int, mid as int);
        let right = samples@.subrange(mid as int, to as int);
        assert(part == left + right);
        vstd::seq_lib::lemma_multiset_commutative(left, right);
    }
    merge(&a, &b)
}

/// Samples in order; see [`ordered`].
pub fn sort_samples(samples: &[u64]) -> (r: Vec<u64>)
    ensures
        r@ == ordered(samples@),
{
    let r = sort_part(samples, 0, samples.len());
    proof {
        assert(samples@.subrange(0, samples@.len() as int) == samples@);
        samples@.lemma_sort_by_ensures(not_above());
        vstd::seq_lib::lemma_sorted_unique(r@, ordered(samples@), not_above());
    }
    r
}

/// The place of a percentile among `len` samples in order: the first at which
/// that share of the samples is reached.
pub open spec fn rank(len: int, percent: int) -> int {
    let reached = (len * percent + 99) / 100 - 1;
    if reached < 0 {
        0
    } else if reached > len - 1 {
        len - 1
    } else {
        reached
    }
}

/// The percentile of samples in order.
fn percentile(sorted: &Vec<u64>, percent: u64) -> (r: u64)
    requires
        sorted@.len() > 0,
        percent <= 100,
    ensures
        r == sorted@[rank(sorted@.len() as int, percent as int)],
{
    let len: u128 = sorted.len() as u128;
    assert(len * percent <= len * 100) by (nonlinear_arith)
        requires
            percent <= 100,
    ;
    let product: u128 = len * percent as u128;
    let reached: u128 = (product + 99) / 100;
    let place: usize = if reached == 0 {
        0
    } else if reached > len {
        sorted.len() - 1
    } else {
        (reached - 1) as usize
    };
    sorted[place]
}

/// The 50th, 95th and 99th percentile, nothing where there are no samples.
pub open spec fn percentiles_of(samples: Seq<u64>) -> (u64, u64, u64) {
    if samples.len() == 0 {
        (0, 0, 0)
    } else {
        let s = ordered(samples);
        (
            s[rank(samples.len() as int, 50)],
            s[rank(samples.len() as int, 95)],
            s[rank(samples.len() as int, 99)],
        )
    }
}

/// The 50th, 95th and 99th percentile; see [`percentiles_of`].
pub fn percentiles(samples: &[u64]) -> (r: (u64, u64, u64))
    ensures
        r == percentiles_of(samples@),
{
    if samples.len() == 0 {
        return (0, 0, 0);
    }
    proof {
        ordered_is_ordered(samples@);
    }
    let sorted = sort_samples(samples);
    (percentile(&sorted, 50), percentile(&sorted, 95), percentile(&sorted, 99))
}

/// Higher percentiles are not lower.
pub proof fn percentiles_rise(samples: Seq<u64>)
    ensures
        percentiles_of(samples).0 <= percentiles_of(samples).1 <= percentiles_of(samples).2,
{
    if samples.len() > 0 {
        ordered_is_ordered(samples);
        let n = samples.len() as int;
        let s = ordered(samples);
        assert(0 <= rank(n, 50) <= rank(n, 95) <= rank(n, 99) < n);
        assert(rank(n, 50) < rank(n, 95) ==> s[rank(n, 50)] <= s[rank(n, 95)]);
        assert(rank(n, 95) < rank(n, 99) ==> s[rank(n, 95)] <= s[rank(n, 99)]);
    }
}

/// How long something took over many frames.
#[derive(Clone, Copy, Debug, PartialEq, Eq, Structural)]
pub struct LatencyDistribution {
    /// All together; the mean is this by [`LatencyDistribution::count`].
    pub total_us: u128,
    /// Number of samples.
    pub count: usize,
    /// The shortest.
    pub min_us: u64,
    /// The longest.
    pub max_us: u64,
    /// The 50th percentile.
    pub p50_us: u64,
    /// The 95th percentile.
    pub p95_us: u64,
    /// The 99th percentile.
    pub p99_us: u64,
}

/// How long something took, by its samples and their sum. All is nothing where
/// there are no samples.
pub open spec fn distribution_of(total_us: u128, samples: Seq<u64>) -> LatencyDistribution {
    if samples.len() == 0 {
        LatencyDistribution {
            total_us: 0,
            count: 0,
            min_us: 0,
            max_us: 0,
            p50_us: 0,
            p95_us: 0,
            p99_us: 0,
        }
    } else {
        LatencyDistribution {
            total_us,
            count: samples.len() as usize,
            min_us: ordered(samples)[0],
            max_us: ordered(samples)[samples.len() - 1],
            p50_us: percentiles_of(samples).0,
            p95_us: percentiles_of(samples).1,
            p99_us: percentiles_of(samples).2,
        }
    }
}

impl LatencyDistribution {
    /// How long something took; see [`distribution_of`].
    pub fn new(total_us: u128, samples: &[u64]) -> (r: Self)
        ensures
            r == distribution_of(total_us, samples@),
    {
        if samples.len() == 0 {
            return LatencyDistribution {
                total_us: 0,
                count: 0,
                min_us: 0,
                max_us: 0,
                p50_us: 0,
                p95_us: 0,
                p99_us: 0,
            };
        }
        proof {
            ordered_is_ordered(samples@);
        }
        let sorted = sort_samples(samples);
        LatencyDistribution {
            total_us,
            count: samples.len(),
            min_us: sorted[0],
            max_us: sorted[sorted.len() - 1],
            p50_us: percentile(&sorted, 50),
            p95_us: percentile(&sorted, 95),
            p99_us: percentile(&sorted, 99),
        }
    }
}

/// No sample is below the shortest or above the longest.
pub proof fn extremes_bound_samples(samples: Seq<u64>, i: int)
    requires
        0 <= i < samples.len(),
    ensures
        ordered(samples)[0] <= samples[i] <= ordered(samples)[samples.len() - 1],
{
    broadcast use vstd::seq_lib::group_to_multiset_ensures;

    ordered_is_ordered(samples);
    let s = ordered(samples);
    assert(samples.contains(samples[i]));
    assert(samples.to_multiset().count(samples[i]) > 0);
    assert(s.contains(samples[i]));
    let k = choose|k: int| 0 <= k < s.len() && s[k] == samples[i];
    assert(k > 0 ==> s[0] <= s[k]);
    assert(k < s.len() - 1 ==> s[k] <= s[s.len() - 1]);
}

/// Whole microseconds of a time in nanoseconds.
pub open spec fn micros(nanos: u128) -> int {
    nanos as int / 1000
}

/// Whole microseconds, cut to 64 bits.
pub open spec fn sample_of(nanos: u128) -> u64 {
    micros(nanos) as u64
}

/// Whole microseconds, cut to 64 bits; see [`sample_of`].
fn sample(nanos: u128) -> (r: u64)
    ensures
        r == sample_of(nanos),
{
    #[verifier::truncate]
    let r: u64 = (nanos / 1000) as u64;
    r
}

/// What the frames of a run come to. The mean of a stage is its sum by the
/// number of frames.
#[derive(Clone, Copy, Debug, PartialEq, Eq, Structural)]
pub struct StatsSummary {
    /// Number of frames, at least one.
    pub count: u64,
    /// When the first frame came, in nanoseconds.
    pub start: u128,
    /// Bytes encoded.
    pub encoded_bytes: u64,
    /// From end to end.
    pub total: LatencyDistribution,
    /// Handing frames to the encoder.
    pub submit: LatencyDistribution,
    /// Waiting for the encoder.
    pub encode_wait: LatencyDistribution,
    /// Waiting in the compositor's output channel, in microseconds.
    pub channel_wait_us: u128,
    /// Importing the buffer, in microseconds.
    pub import_us: u128,
    /// Colour conversion, in microseconds.
    pub convert_us: u128,
    /// Waiting for the packet consumer, in microseconds.
    pub consumer_queue_us: u128,
    /// Packetizing, in microseconds.
    pub packetize_us: u128,
    /// Sending the packets on, in microseconds.
    pub send_us: u128,
    /// Number of key frames.
    pub key_frames: u64,
}

/// The sums over the frames of a run, times in microseconds.
#[derive(Debug)]
pub struct StatsAccumulator {
    /// Number of frames.
    pub count: u64,
    /// From end to end.
    pub total_us: u128,
    /// Waiting in the compositor's output channel.
    pub channel_wait_us: u128,
    /// Importing the buffer.
    pub import_us: u128,
    /// Colour conversion.
    pub convert_us: u128,
    /// Handing the frame to the encoder.
    pub submit_us: u128,
    /// Waiting for the packet consumer.
    pub consumer_queue_us: u128,
    /// Waiting for the encoder.
    pub encode_wait_us: u128,
    /// Packetizing.
    pub packetize_us: u128,
    /// Sending the packets on.
    pub send_us: u128,
    /// Each frame from end to end.
    pub total_samples_us: Vec<u64>,
    /// Handing each frame to the encoder.
    pub submit_samples_us: Vec<u64>,
    /// Waiting for the encoder with each frame.
    pub encode_wait_samples_us: Vec<u64>,
    /// Number of key frames.
    pub key_frames: u64,
    /// Bytes encoded.
    pub encoded_bytes: u64,
    /// When the first frame came, in nanoseconds.
    pub start: u128,
    /// When it was last reported, in nanoseconds.
    pub last_print: u128,
}

impl StatsAccumulator {
    /// Nothing was counted yet.
    pub open spec fn is_fresh(self, now: u128) -> bool {
        &&& self.count == 0
        &&& self.total_us == 0
        &&& self.channel_wait_us == 0
        &&& self.import_us == 0
        &&& self.convert_us == 0
        &&& self.submit_us == 0
        &&& self.consumer_queue_us == 0
        &&& self.encode_wait_us == 0
        &&& self.packetize_us == 0
        &&& self.send_us == 0
        &&& self.total_samples_us@ == Seq::<u64>::empty()
        &&& self.submit_samples_us@ == Seq::<u64>::empty()
        &&& self.encode_wait_samples_us@ == Seq::<u64>::empty()
        &&& self.key_frames == 0
        &&& self.encoded_bytes == 0
        &&& self.start == now
        &&& self.last_print == now
    }

    /// One more frame can be counted.
    pub open spec fn can_add(self, stats: FrameStats) -> bool {
        &&& self.count < u64::MAX
        &&& self.key_frames < u64::MAX
        &&& self.encoded_bytes + stats.encoded_bytes <= u64::MAX
        &&& self.total_us + u64::MAX <= u128::MAX
        &&& self.submit_us + u64::MAX <= u128::MAX
        &&& self.encode_wait_us + u64::MAX <= u128::MAX
        &&& self.channel_wait_us + micros(stats.channel_wait) <= u128::MAX
        &&& self.import_us + micros(stats.import) <= u128::MAX
        &&& self.convert_us + micros(stats.convert) <= u128::MAX
        &&& self.consumer_queue_us + micros(stats.consumer_queue) <= u128::MAX
        &&& self.packetize_us + micros(stats.packetize) <= u128::MAX
        &&& self.send_us + micros(stats.send) <= u128::MAX
    }

    /// It is `before` with one more frame, which came at `now`. The clock
    /// starts with the first frame.
    pub open spec fn is_after(self, before: StatsAccumulator, stats: FrameStats, now: u128) -> bool {
        &&& self.count == before.count + 1
        &&& self.total_us == before.total_us + sample_of(stats.total)
        &&& self.channel_wait_us == before.channel_wait_us + micros(stats.channel_wait)
        &&& self.import_us == before.import_us + micros(stats.import)
        &&& self.convert_us == before.convert_us + micros(stats.convert)
        &&& self.submit_us == before.submit_us + sample_of(stats.submit)
        &&& self.consumer_queue_us == before.consumer_queue_us + micros(stats.consumer_queue)
        &&& self.encode_wait_us == before.encode_wait_us + sample_of(stats.encode_wait)
        &&& self.packetize_us == before.packetize_us + micros(stats.packetize)
        &&& self.send_us == before.send_us + micros(stats.send)
        &&& self.total_samples_us@ == before.total_samples_us@.push(sample_of(stats.total))
        &&& self.submit_samples_us@ == before.submit_samples_us@.push(sample_of(stats.submit))
        &&& self.encode_wait_samples_us@ == before.encode_wait_samples_us@.push(
            sample_of(stats.encode_wait),
        )
        &&& self.key_frames == before.key_frames + if stats.is_key_frame {
            1int
        } else {
            0
        }
        &&& self.encoded_bytes == before.encoded_bytes + stats.encoded_bytes
        &&& self.start == if before.count == 0 {
            now
        } else {
            before.start
        }
        &&& self.last_print == if before.count == 0 {
            now
        } else {
            before.last_print
        }
    }

    /// What the frames come to, nothing where there were none.
    pub open spec fn summed_up(self) -> Option<StatsSummary> {
        if self.count == 0 {
            None
        } else {
            Some(
                StatsSummary {
                    count: self.count,
                    start: self.start,
                    encoded_bytes: self.encoded_bytes,
                    total: distribution_of(self.total_us, self.total_samples_us@),
                    submit: distribution_of(self.submit_us, self.submit_samples_us@),
                    encode_wait: distribution_of(self.encode_wait_us, self.encode_wait_samples_us@),
                    channel_wait_us: self.channel_wait_us,
                    import_us: self.import_us,
                    convert_us: self.convert_us,
                    consumer_queue_us: self.consumer_queue_us,
                    packetize_us: self.packetize_us,
                    send_us: self.send_us,
                    key_frames: self.key_frames,
                },
            )
        }
    }

    /// Nothing was counted yet; see [`StatsAccumulator::is_fresh`].
    pub fn new(now: u128) -> (r: Self)
        ensures
            r.is_fresh(now),
    {
        StatsAccumulator {
            count: 0,
            total_us: 0,
            channel_wait_us: 0,
            import_us: 0,
            convert_us: 0,
            submit_us: 0,
            consumer_queue_us: 0,
            encode_wait_us: 0,
            packetize_us: 0,
            send_us: 0,
            total_samples_us: Vec::new(),
            submit_samples_us: Vec::new(),
            encode_wait_samples_us: Vec::new(),
            key_frames: 0,
            encoded_bytes: 0,
            start: now,
            last_print: now,
        }
    }

    /// Counts a frame; see [`StatsAccumulator::is_after`].
    pub fn add(&mut self, stats: &FrameStats, now: u128)
        requires
            old(self).can_add(*stats),
        ensures
            final(self).is_after(*old(self), *stats, now),
    {
        if self.count == 0 {
            self.start = now;
            self.last_print = now;
        }
        self.count = self.count + 1;
        let total = sample(stats.total);
        let submit = sample(stats.submit);
        let encode_wait = sample(stats.encode_wait);
        self.total_us = self.total_us + total as u128;
        self.channel_wait_us = self.channel_wait_us + stats.channel_wait / 1000;
        self.import_us = self.import_us + stats.import / 1000;
        self.convert_us = self.convert_us + stats.convert / 1000;
        self.submit_us = self.submit_us + submit as u128;
        self.consumer_queue_us = self.consumer_queue_us + stats.consumer_queue / 1000;
        self.encode_wait_us = self.encode_wait_us + encode_wait as u128;
        self.packetize_us = self.packetize_us + stats.packetize / 1000;
        self.send_us = self.send_us + stats.send / 1000;
        self.total_samples_us.push(total);
        self.submit_samples_us.push(submit);
        self.encode_wait_samples_us.push(encode_wait);
        if stats.is_key_frame {
            self.key_frames = self.key_frames + 1;
        }
        self.encoded_bytes = self.encoded_bytes + stats.encoded_bytes as u64;
    }

    /// What the frames come to; see [`StatsAccumulator::summed_up`].
    pub fn summary(&self) -> (r: Option<StatsSummary>)
        ensures
            r == self.summed_up(),
    {
        if self.count == 0 {
            return None;
        }
        Some(
            StatsSummary {
                count: self.count,
                start: self.start,
                encoded_bytes: self.encoded_bytes,
                total: LatencyDistribution::new(self.total_us, self.total_samples_us.as_slice()),
                submit: LatencyDistribution::new(self.submit_us, self.submit_samples_us.as_slice()),
                encode_wait: LatencyDistribution::new(
                    self.encode_wait_us,
                    self.encode_wait_samples_us.as_slice(),
                ),
                channel_wait_us: self.channel_wait_us,
                import_us: self.import_us,
                convert_us: self.convert_us,
                consumer_queue_us: self.consumer_queue_us,
                packetize_us: self.packetize_us,
                send_us: self.send_us,
                key_frames: self.key_frames,
            },
        )
    }
}

/// A percentile stands where its share of the samples is reached and not
/// before: as many samples as that share stand up to it, and fewer before it.
pub proof fn percentiles_are_where_they_are_reached(len: int, percent: int)
    requires
        len >= 1,
        1 <= percent <= 100,
    ensures
        0 <= rank(len, percent) < len,
        (rank(len, percent) + 1) * 100 >= len * percent,
        rank(len, percent) * 100 < len * percent,
{
    let product = len * percent;
    assert(1 <= product <= len * 100) by (nonlinear_arith)
        requires
            product == len * percent,
            len >= 1,
            1 <= percent <= 100,
    ;
}

/// Half of the samples, 95 of a hundred and 99 of a hundred are not above the
/// percentiles; the shortest and the longest are the first and the last of the
/// samples in order; and where there are no samples all is nothing.
pub proof fn distributions_hold_their_samples(total_us: u128, samples: Seq<u64>)
    requires
        samples.len() <= usize::MAX,
    ensures
        samples.len() == 0 ==> {
            let d = distribution_of(total_us, samples);
            &&& d.total_us == 0 && d.count == 0 && d.min_us == 0 && d.max_us == 0
            &&& d.p50_us == 0 && d.p95_us == 0 && d.p99_us == 0
        },
        samples.len() > 0 ==> {
            let d = distribution_of(total_us, samples);
            &&& d.total_us == total_us
            &&& d.count == samples.len()
            &&& samples.contains(d.min_us) && samples.contains(d.max_us)
            &&& d.min_us <= d.p50_us <= d.p95_us <= d.p99_us <= d.max_us
            &&& forall|i: int|
                0 <= i < samples.len() ==> d.min_us <= #[trigger] samples[i] <= d.max_us
            &&& exists|k: int|
                {
                    &&& 0 <= k < samples.len()
                    &&& (k + 1) * 100 >= samples.len() * 50
                    &&& k * 100 < samples.len() * 50
                    &&& #[trigger] ordered(samples)[k] == d.p50_us
                }
            &&& exists|k: int|
                {
                    &&& 0 <= k < samples.len()
                    &&& (k + 1) * 100 >= samples.len() * 95
                    &&& k * 100 < samples.len() * 95
                    &&& #[trigger] ordered(samples)[k] == d.p95_us
                }
            &&& exists|k: int|
                {
                    &&& 0 <= k < samples.len()
                    &&& (k + 1) * 100 >= samples.len() * 99
                    &&& k * 100 < samples.len() * 99
                    &&& #[trigger] ordered(samples)[k] == d.p99_us
                }
        },
{
    broadcast use vstd::seq_lib::group_to_multiset_ensures;

    if samples.len() > 0 {
        let n = samples.len() as int;
        let d = distribution_of(total_us, samples);
        let s = ordered(samples);
        ordered_is_ordered(samples);
        percentiles_rise(samples);
        percentiles_are_where_they_are_reached(n, 50);
        percentiles_are_where_they_are_reached(n, 95);
        percentiles_are_where_they_are_reached(n, 99);
        assert(s[rank(n, 50)] == d.p50_us);
        assert(s[rank(n, 95)] == d.p95_us);
        assert(s[rank(n, 99)] == d.p99_us);
        assert(s.contains(s[0]) && s.contains(s[n - 1]));
        assert(s.to_multiset().count(s[0]) > 0 && s.to_multiset().count(s[n - 1]) > 0);
        assert forall|i: int| 0 <= i < samples.len() implies d.min_us <= #[trigger] samples[i]
            <= d.max_us by {
            extremes_bound_samples(samples, i);
        }
        assert(rank(n, 50) > 0 ==> s[0] <= s[rank(n, 50)]);
        assert(rank(n, 99) < n - 1 ==> s[rank(n, 99)] <= s[n - 1]);
    }
}

/// A frame adds what it took, in whole microseconds, to the sum of each stage
/// and to the samples; it counts once, and once more where it is a key frame;
/// and the clock starts with the first frame.
pub proof fn frames_add_what_they_took(
    before: StatsAccumulator,
    after: StatsAccumulator,
    stats: FrameStats,
    now: u128,
)
    requires
        after.is_after(before, stats, now),
        stats.total < 0x1_0000_0000_0000_0000,
        stats.submit < 0x1_0000_0000_0000_0000,
        stats.encode_wait < 0x1_0000_0000_0000_0000,
    ensures
        after.count == before.count + 1,
        after.total_us - before.total_us == stats.total as int / 1000,
        after.submit_us - before.submit_us == stats.submit as int / 1000,
        after.encode_wait_us - before.encode_wait_us == stats.encode_wait as int / 1000,
        after.channel_wait_us - before.channel_wait_us == stats.channel_wait as int / 1000,
        after.import_us - before.import_us == stats.import as int / 1000,
        after.convert_us - before.convert_us == stats.convert as int / 1000,
        after.consumer_queue_us - before.consumer_queue_us == stats.consumer_queue as int / 1000,
        after.packetize_us - before.packetize_us == stats.packetize as int / 1000,
        after.send_us - before.send_us == stats.send as int / 1000,
        after.encoded_bytes - before.encoded_bytes == stats.encoded_bytes,
        after.key_frames - before.key_frames == (if stats.is_key_frame {
            1int
        } else {
            0
        }),
        after.total_samples_us@ == before.total_samples_us@.push((stats.total as int / 1000) as u64),
        after.submit_samples_us@ == before.submit_samples_us@.push((stats.submit as int / 1000) as u64),
        after.encode_wait_samples_us@ == before.encode_wait_samples_us@.push(
            (stats.encode_wait as int / 1000) as u64,
        ),
        before.count == 0 ==> after.start == now && after.last_print == now,
        before.count > 0 ==> after.start == before.start && after.last_print == before.last_print,
{
}

/// What the frames come to holds every count as it stands, and there is
/// something to tell exactly if there was a frame.
pub proof fn summaries_hold_the_counts(all: StatsAccumulator)
    ensures
        all.summed_up() is Some <==> all.count > 0,
        all.summed_up() matches Some(s) ==> {
            &&& s.count == all.count
            &&& s.start == all.start
            &&& s.encoded_bytes == all.encoded_bytes
            &&& s.key_frames == all.key_frames
            &&& s.channel_wait_us == all.channel_wait_us
            &&& s.import_us == all.import_us
            &&& s.convert_us == all.convert_us
            &&& s.consumer_queue_us == all.consumer_queue_us
            &&& s.packetize_us == all.packetize_us
            &&& s.send_us == all.send_us
            &&& s.total == distribution_of(all.total_us, all.total_samples_us@)
            &&& s.submit == distribution_of(all.submit_us, all.submit_samples_us@)
            &&& s.encode_wait == distribution_of(all.encode_wait_us, all.encode_wait_samples_us@)
        },
{
}

/// Nothing is counted before the first frame, and the clock stands at the
/// beginning.
pub proof fn counts_begin_at_nothing(all: StatsAccumulator, now: u128)
    requires
        all.is_fresh(now),
    ensures
        all.count == 0 && all.key_frames == 0 && all.encoded_bytes == 0,
        all.total_us == 0 && all.submit_us == 0 && all.encode_wait_us == 0,
        all.channel_wait_us == 0 && all.import_us == 0 && all.convert_us == 0,
        all.consumer_queue_us == 0 && all.packetize_us == 0 && all.send_us == 0,
        all.total_samples_us@.len() == 0 && all.submit_samples_us@.len() == 0,
        all.encode_wait_samples_us@.len() == 0,
        all.start == now && all.last_print == now,
{
}

} // verus!
