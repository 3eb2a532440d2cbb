//! Pacing of video packets.
//!
//! A frame is sent in bursts spread over its time budget, so that it does not
//! enter the network all at once. Times are in nanoseconds.
use vstd::prelude::*;

verus! {

/// Bytes that are added to each datagram on the wire.
pub const WIRE_OVERHEAD_BYTES: usize = 70;

/// How long a burst is on the wire.
pub const TARGET_BURST_NANOS: u128 = 500_000;

/// Nanoseconds in a second.
pub const NANOS_PER_SEC: u128 = 1_000_000_000;

/// The least whole number that is no less than `a / b`.
pub open spec fn ceil_div(a: int, b: int) -> int {
    if a % b == 0 {
        a / b
    } else {
        a / b + 1
    }
}

/// The smaller of two numbers.
pub open spec fn smaller(a: int, b: int) -> int {
    if a <= b {
        a
    } else {
        b
    }
}

/// The larger of two numbers.
pub open spec fn larger(a: int, b: int) -> int {
    if a >= b {
        a
    } else {
        b
    }
}

/// `a / b` rounded up; see [`ceil_div`].
fn div_up(a: u128, b: u128) -> (r: u128)
    requires
        b > 0,
    ensures
        r == ceil_div(a as int, b as int),
{
    let q = a / b;
    if a % b == 0 {
        q
    } else {
        proof {
            quotient_below(a as int, b as int);
        }
        q + 1
    }
}

/// A quotient with a remainder is below the number divided.
proof fn quotient_below(a: int, b: int)
    requires
        a >= 0,
        b > 0,
        a % b != 0,
    ensures
        0 <= a / b < a,
{
    assert(0 <= a / b < a) by (nonlinear_arith)
        requires
            a >= 0,
            b > 0,
            a % b != 0,
    ;
}

/// A quotient is not above the number divided, and below it where there is a
/// remainder.
pub proof fn quotient_below_or_equal(a: int, b: int)
    requires
        a >= 0,
        b > 0,
    ensures
        0 <= a / b <= a,
        a % b != 0 ==> a / b < a,
{
    assert(0 <= a / b <= a) by (nonlinear_arith)
        requires
            a >= 0,
            b > 0,
    ;
    if a % b != 0 {
        quotient_below(a, b);
    }
}

/// `a * b`, or the largest number if that is larger.
fn mul_capped(a: usize, b: usize) -> (r: usize)
    ensures
        r == smaller(a * b, usize::MAX as int),
{
    match a.checked_mul(b) {
        Some(r) => r,
        None => usize::MAX,
    }
}

/// `a`, or the largest number of 64 bits if that is smaller.
fn cap64(a: u128) -> (r: u64)
    ensures
        r == smaller(a as int, u64::MAX as int),
{
    if a > u64::MAX as u128 {
        u64::MAX
    } else {
        a as u64
    }
}

/// The rate on the wire for a client's bitrate: `headroom_percent` of it.
pub fn wire_rate_with_headroom(client_bitrate_bps: usize, headroom_percent: u16) -> (r: u64)
    ensures
        r == smaller(ceil_div(client_bitrate_bps * headroom_percent, 100), u64::MAX as int),
{
    proof {
        assert(client_bitrate_bps * headroom_percent <= 0xFFFF_FFFF_FFFF_FFFF * 0xFFFF) by (nonlinear_arith)
            requires
                0 <= client_bitrate_bps <= 0xFFFF_FFFF_FFFF_FFFF,
                0 <= headroom_percent <= 0xFFFF,
        ;
        assert(0 <= client_bitrate_bps * headroom_percent) by (nonlinear_arith);
    }
    cap64(div_up(client_bitrate_bps as u128 * headroom_percent as u128, 100))
}

/// Bytes on the wire of a datagram.
pub open spec fn wire_bytes(shard_size: int) -> int {
    smaller(shard_size + WIRE_OVERHEAD_BYTES, usize::MAX as int)
}

/// Bits on the wire of `count` datagrams of `bytes` bytes.
pub open spec fn wire_bits(bytes: int, count: int) -> int {
    smaller(bytes * count, usize::MAX as int) * 8
}

/// How long `bits` bits take at a rate, at most the largest number of 64
/// bits.
pub open spec fn wire_nanos(bits: int, rate: int) -> int {
    smaller(ceil_div(bits * NANOS_PER_SEC, rate), u64::MAX as int)
}

/// When to send the bursts of one frame.
#[derive(Clone, Copy, Debug, PartialEq, Eq, Structural)]
pub struct BatchSchedule {
    /// Datagrams in a burst.
    pub segments_per_send: usize,
    /// The rate had to be raised to meet the budget.
    pub deadline_clamped: bool,
    /// The time between bursts.
    pub pacing_interval: u64,
    /// When the next burst is due.
    pub next_send: u128,
    /// The rate on the wire.
    pub wire_rate_bps: u64,
    /// Bytes on the wire of a datagram.
    pub wire_bytes_per_segment: usize,
}

impl BatchSchedule {
    /// The rate is not 0.
    pub open spec fn well_formed(self) -> bool {
        self.wire_rate_bps > 0
    }

    /// The schedule after `segment_count` datagrams were handed out: the next
    /// burst is due once they are through.
    pub open spec fn advanced(self, segment_count: int) -> BatchSchedule {
        BatchSchedule {
            next_send: (self.next_send + wire_nanos(
                wire_bits(self.wire_bytes_per_segment as int, segment_count),
                self.wire_rate_bps as int,
            )) as u128,
            ..self
        }
    }

    /// This is the plan for a frame of `shard_count` datagrams of `shard_size`
    /// bytes, to be sent from `now` on.
    pub open spec fn is_planned(
        self,
        shard_size: int,
        shard_count: int,
        max_segments_per_send: int,
        target: int,
        frame_budget: int,
        now: int,
    ) -> bool {
        let bytes = wire_bytes(shard_size);
        let required = required_rate(shard_size, shard_count, frame_budget);
        let rate = frame_rate(shard_size, shard_count, target, frame_budget);
        let segments = burst_segments(bytes, rate, max_segments_per_send);
        &&& self.wire_bytes_per_segment == bytes
        &&& self.wire_rate_bps == rate
        &&& self.deadline_clamped == (required > target)
        &&& self.segments_per_send == segments
        &&& self.pacing_interval == wire_nanos(wire_bits(bytes, segments), rate)
        &&& self.next_send == now
    }

    /// Counts `segment_count` datagrams that were handed out; see
    /// [`BatchSchedule::advanced`].
    pub fn advance(&mut self, segment_count: usize)
        requires
            old(self).well_formed(),
            old(self).next_send <= u128::MAX - u64::MAX,
        ensures
            *final(self) == old(self).advanced(segment_count as int),
            old(self).next_send <= final(self).next_send,
    {
        let bits: u128 = mul_capped(self.wire_bytes_per_segment, segment_count) as u128 * 8;
        let interval = cap64(div_up(bits * NANOS_PER_SEC, self.wire_rate_bps as u128));
        self.next_send = self.next_send + interval as u128;
    }
}

/// The rate that sends a frame within its budget.
pub open spec fn required_rate(shard_size: int, shard_count: int, frame_budget: int) -> int {
    wire_nanos(wire_bits(wire_bytes(shard_size), shard_count), larger(frame_budget, 1))
}

/// The rate that a frame is sent at.
pub open spec fn frame_rate(shard_size: int, shard_count: int, target: int, frame_budget: int) -> int {
    larger(larger(target, required_rate(shard_size, shard_count, frame_budget)), 1)
}

/// Datagrams in a burst at a rate: as many as fit the length of a burst, but
/// at least one and no more than `max`.
pub open spec fn burst_segments(bytes: int, rate: int, max: int) -> int {
    smaller(larger((rate * TARGET_BURST_NANOS / 8_000_000_000) / larger(bytes, 1), 1), larger(max, 1))
}

/// Plans the bursts of a frame of `shard_count` datagrams of `shard_size`
/// bytes. It is sent at the target rate, or at the rate that meets
/// `frame_budget` if that is higher.
pub fn batch_schedule(
    shard_size: usize,
    shard_count: usize,
    max_segments_per_send: usize,
    target_wire_rate_bps: u64,
    frame_budget: u128,
    now: u128,
) -> (r: BatchSchedule)
    ensures
        r.well_formed(),
        r.is_planned(
            shard_size as int,
            shard_count as int,
            max_segments_per_send as int,
            target_wire_rate_bps as int,
            frame_budget as int,
            now as int,
        ),
{
    let bytes = shard_size.saturating_add(WIRE_OVERHEAD_BYTES);
    let total_bits: u128 = mul_capped(bytes, shard_count) as u128 * 8;
    let budget: u128 = if frame_budget >= 1 {
        frame_budget
    } else {
        1
    };
    let required = cap64(div_up(total_bits * NANOS_PER_SEC, budget));
    let mut rate: u64 = target_wire_rate_bps;
    if required > rate {
        rate = required;
    }
    if rate < 1 {
        rate = 1;
    }
    let burst_bytes: u128 = rate as u128 * TARGET_BURST_NANOS / 8_000_000_000;
    let mut segments: u128 = burst_bytes / bytes as u128;
    if segments < 1 {
        segments = 1;
    }
    let max: u128 = if max_segments_per_send >= 1 {
        max_segments_per_send as u128
    } else {
        1
    };
    if segments > max {
        segments = max;
    }
    let segments_per_send: usize = segments as usize;
    let burst_bits: u128 = mul_capped(bytes, segments_per_send) as u128 * 8;
    let pacing_interval = cap64(div_up(burst_bits * NANOS_PER_SEC, rate as u128));
    BatchSchedule {
        segments_per_send,
        deadline_clamped: required > target_wire_rate_bps,
        pacing_interval,
        next_send: now,
        wire_rate_bps: rate,
        wire_bytes_per_segment: bytes,
    }
}

/// A rounded-up quotient times the divisor is no less than the number
/// divided.
proof fn ceil_div_covers(a: int, b: int)
    requires
        a >= 0,
        b > 0,
    ensures
        ceil_div(a, b) * b >= a,
{
    assert(a == b * (a / b) + a % b && 0 <= a % b < b) by (nonlinear_arith)
        requires
            b > 0,
    ;
    if a % b == 0 {
        assert((a / b) * b >= a) by (nonlinear_arith)
            requires
                a == b * (a / b) + a % b,
                a % b == 0,
        ;
    } else {
        assert((a / b + 1) * b >= a) by (nonlinear_arith)
            requires
                a == b * (a / b) + a % b,
                a % b < b,
        ;
    }
}

/// A number that is no more than a multiple of the divisor has a rounded-up
/// quotient of no more than the multiple.
proof fn ceil_div_bounded(a: int, b: int, q: int)
    requires
        a >= 0,
        b > 0,
        a <= q * b,
    ensures
        ceil_div(a, b) <= q,
{
    assert(a == b * (a / b) + a % b && 0 <= a % b < b) by (nonlinear_arith)
        requires
            b > 0,
    ;
    if a % b == 0 {
        assert(a / b <= q) by (nonlinear_arith)
            requires
                a == b * (a / b) + a % b,
                a % b == 0,
                a <= q * b,
                b > 0,
        ;
    } else {
        assert(a / b < q) by (nonlinear_arith)
            requires
                a == b * (a / b) + a % b,
                a % b > 0,
                a <= q * b,
                b > 0,
        ;
    }
}

/// A frame is through within its budget: once all its datagrams were handed
/// out, the time of the next burst has moved on by no more than the budget, and
/// by a nanosecond where the budget is none. It is left out where the rate that
/// this takes does not fit 64 bits.
pub proof fn frame_meets_budget(
    schedule: BatchSchedule,
    shard_size: usize,
    shard_count: usize,
    max_segments_per_send: usize,
    target: u64,
    frame_budget: u128,
    now: u128,
)
    requires
        schedule.is_planned(
            shard_size as int,
            shard_count as int,
            max_segments_per_send as int,
            target as int,
            frame_budget as int,
            now as int,
        ),
        now <= u128::MAX - u64::MAX,
        ceil_div(
            wire_bits(wire_bytes(shard_size as int), shard_count as int) * NANOS_PER_SEC,
            larger(frame_budget as int, 1),
        ) <= u64::MAX,
    ensures
        now <= schedule.advanced(shard_count as int).next_send <= now + larger(frame_budget as int, 1),
{
    let bytes = wire_bytes(shard_size as int);
    let bits = wire_bits(bytes, shard_count as int);
    let budget = larger(frame_budget as int, 1);
    let rate = schedule.wire_rate_bps as int;
    assert(bytes * shard_count >= 0) by (nonlinear_arith)
        requires
            bytes >= 0,
            shard_count >= 0,
    ;
    let required = ceil_div(bits * NANOS_PER_SEC, budget);
    ceil_div_covers(bits * NANOS_PER_SEC, budget);
    assert(required * budget <= budget * rate) by (nonlinear_arith)
        requires
            required <= rate,
            budget >= 1,
    ;
    ceil_div_bounded(bits * NANOS_PER_SEC, rate, budget);
    quotient_below_or_equal(bits * NANOS_PER_SEC, rate);
}

/// A burst of several datagrams is on the wire for no longer than a burst is
/// meant to be.
pub proof fn bursts_are_short(bytes: int, rate: int, max: int)
    requires
        1 <= bytes <= usize::MAX,
        1 <= rate <= u64::MAX,
        burst_segments(bytes, rate, max) > 1,
    ensures
        wire_nanos(wire_bits(bytes, burst_segments(bytes, rate, max)), rate) <= TARGET_BURST_NANOS,
{
    let n = burst_segments(bytes, rate, max);
    let burst = rate * TARGET_BURST_NANOS / 8_000_000_000;
    assert(n <= burst / bytes);
    assert(bytes * n <= burst) by (nonlinear_arith)
        requires
            n <= burst / bytes,
            bytes >= 1,
            burst >= 0,
            n > 1,
    ;
    assert(burst * 8_000_000_000 <= rate * TARGET_BURST_NANOS);
    assert(0 <= bytes * n) by (nonlinear_arith)
        requires
            bytes >= 1,
            n > 1,
    ;
    let bits = wire_bits(bytes, n);
    assert(bits * NANOS_PER_SEC <= TARGET_BURST_NANOS * rate);
    ceil_div_bounded(bits * NANOS_PER_SEC, rate, TARGET_BURST_NANOS as int);
}

/// How video packets are paced.
#[derive(Clone, Copy, Debug, PartialEq, Eq, Structural)]
pub struct Pacing {
    /// The rate to send at.
    pub target_wire_rate_bps: u64,
    /// The share of a frame's time that sending may take, in percent.
    pub frame_budget_percent: u8,
}

/// How packets are paced for a client's bitrate and frame rate; `None` where
/// one of them or the headroom is 0, which turns pacing off.
pub fn configure_pacing(
    client_bitrate_bps: usize,
    fps: u32,
    headroom_percent: u16,
    frame_budget_percent: u8,
) -> (r: Option<Pacing>)
    ensures
        r is None <==> client_bitrate_bps == 0 || fps == 0 || headroom_percent == 0,
        r matches Some(p) ==> {
            &&& p.target_wire_rate_bps == smaller(
                ceil_div(client_bitrate_bps * headroom_percent, 100),
                u64::MAX as int,
            )
            &&& p.frame_budget_percent == smaller(larger(frame_budget_percent as int, 1), 100)
        },
{
    if client_bitrate_bps == 0 || fps == 0 || headroom_percent == 0 {
        return None;
    }
    let percent: u8 = if frame_budget_percent < 1 {
        1
    } else if frame_budget_percent > 100 {
        100
    } else {
        frame_budget_percent
    };
    Some(
        Pacing {
            target_wire_rate_bps: wire_rate_with_headroom(client_bitrate_bps, headroom_percent),
            frame_budget_percent: percent,
        },
    )
}

/// Rounding up gives the least whole number that is no less than the quotient,
/// and the smaller and the larger of two numbers are one of them.
pub proof fn roundings_are_exact(a: int, b: int)
    ensures
        a >= 0 && b > 0 ==> ceil_div(a, b) * b >= a && (ceil_div(a, b) - 1) * b < a,
        smaller(a, b) <= a && smaller(a, b) <= b && (smaller(a, b) == a || smaller(a, b) == b),
        larger(a, b) >= a && larger(a, b) >= b && (larger(a, b) == a || larger(a, b) == b),
{
    if a >= 0 && b > 0 {
        ceil_div_covers(a, b);
        let q = ceil_div(a, b);
        if (q - 1) * b >= a {
            ceil_div_bounded(a, b, q - 1);
        }
    }
}

/// A datagram takes 70 bytes more on the wire than it holds, its bits go over
/// the wire one after the other, and what takes longer than can be counted
/// takes as long as can be counted.
pub proof fn wire_times_are_exact(shard_size: usize, count: usize, rate: u64)
    requires
        rate > 0,
    ensures
        shard_size + 70 <= usize::MAX ==> wire_bytes(shard_size as int) == shard_size + 70,
        shard_size + 70 > usize::MAX ==> wire_bytes(shard_size as int) == usize::MAX,
        (shard_size + 70) * count <= usize::MAX && shard_size + 70 <= usize::MAX ==> wire_bits(
            wire_bytes(shard_size as int),
            count as int,
        ) == (shard_size + 70) * count * 8,
        ({
            let nanos = wire_nanos(count as int, rate as int);
            &&& nanos * rate >= count * 1_000_000_000 || nanos == u64::MAX
            &&& (nanos - 1) * rate < count * 1_000_000_000
            &&& 0 <= nanos <= u64::MAX
        }),
{
    roundings_are_exact(count * 1_000_000_000, rate as int);
    let exact = ceil_div(count * 1_000_000_000, rate as int);
    assert(NANOS_PER_SEC == 1_000_000_000);
    let nanos = wire_nanos(count as int, rate as int);
    assert(exact >= 0) by (nonlinear_arith)
        requires
            exact * rate >= count * 1_000_000_000,
            rate > 0,
            count >= 0,
    ;
    assert((nanos - 1) * rate <= (exact - 1) * rate) by (nonlinear_arith)
        requires
            nanos <= exact,
            rate > 0,
    ;
}

/// A frame is sent at the target rate unless its budget takes more, and a burst
/// holds as many datagrams as half a millisecond takes, but at least one and no
/// more than may be sent at once.
pub proof fn bursts_fill_their_time(bytes: int, rate: int, max: int)
    requires
        1 <= bytes <= usize::MAX,
        1 <= rate <= u64::MAX,
        max >= 1,
    ensures
        1 <= burst_segments(bytes, rate, max) <= max,
        burst_segments(bytes, rate, max) < max ==> (burst_segments(bytes, rate, max) + 1) * bytes * 8
            * 1_000_000_000 > (rate - 16_000) * 500_000,
        burst_segments(bytes, rate, max) > 1 ==> burst_segments(bytes, rate, max) * bytes * 8
            * 1_000_000_000 <= rate * 500_000,
{
    let n = burst_segments(bytes, rate, max);
    let burst = rate * 500_000 / 8_000_000_000;
    assert(TARGET_BURST_NANOS == 500_000);
    assert(burst >= 0);
    assert(burst / bytes >= 0) by (nonlinear_arith)
        requires
            burst >= 0,
            bytes >= 1,
    ;
    if n < max {
        assert(n >= burst / bytes);
        assert((n + 1) * bytes > burst) by (nonlinear_arith)
            requires
                n >= burst / bytes,
                bytes >= 1,
        ;
        assert((n + 1) * bytes * 8 * 1_000_000_000 >= (burst + 1) * 8_000_000_000);
        assert((burst + 1) * 8_000_000_000 > rate * 500_000);
    }
    if n > 1 {
        assert(n <= burst / bytes);
        assert(n * bytes <= burst) by (nonlinear_arith)
            requires
                n <= burst / bytes,
                bytes >= 1,
                burst >= 0,
        ;
        assert(burst * 8_000_000_000 <= rate * 500_000);
    }
}

/// The rate of a frame is the target, or the rate that its budget takes where
/// that is higher; and never nothing.
pub proof fn target_rate_is_kept(shard_size: int, shard_count: int, target: int, frame_budget: int)
    ensures
        ({
            let rate = frame_rate(shard_size, shard_count, target, frame_budget);
            let required = required_rate(shard_size, shard_count, frame_budget);
            &&& rate >= 1 && rate >= target && rate >= required
            &&& target >= 1 && required <= target ==> rate == target
            &&& required >= 1 && required >= target ==> rate == required
            &&& target < 1 && required < 1 ==> rate == 1
        }),
{
}

/// Handing out datagrams moves nothing but the time of the next burst, and
/// handing out none does not move it.
pub proof fn advancing_moves_time_alone(schedule: BatchSchedule, segment_count: int)
    ensures
        ({
            let after = schedule.advanced(segment_count);
            &&& after.segments_per_send == schedule.segments_per_send
            &&& after.deadline_clamped == schedule.deadline_clamped
            &&& after.pacing_interval == schedule.pacing_interval
            &&& after.wire_rate_bps == schedule.wire_rate_bps
            &&& after.wire_bytes_per_segment == schedule.wire_bytes_per_segment
        }),
        schedule.wire_rate_bps > 0 ==> schedule.advanced(0).next_send == schedule.next_send,
{
    if schedule.wire_rate_bps > 0 {
        assert(schedule.wire_bytes_per_segment * 0 == 0);
        roundings_are_exact(0, schedule.wire_rate_bps as int);
        let rate = schedule.wire_rate_bps as int;
        let none = ceil_div(0, rate);
        assert(none == 0) by (nonlinear_arith)
            requires
                none * rate >= 0,
                (none - 1) * rate < 0,
                rate > 0,
        ;
    }
}

/// A plan holds the rate, the size of bursts and the time between them that
/// follow from what is to be sent.
pub proof fn plans_follow_from_what_is_sent(
    schedule: BatchSchedule,
    shard_size: usize,
    shard_count: usize,
    max_segments_per_send: usize,
    target: u64,
    frame_budget: u128,
    now: u128,
)
    requires
        schedule.is_planned(
            shard_size as int,
            shard_count as int,
            max_segments_per_send as int,
            target as int,
            frame_budget as int,
            now as int,
        ),
    ensures
        schedule.next_send == now,
        schedule.wire_bytes_per_segment == wire_bytes(shard_size as int),
        schedule.wire_rate_bps == frame_rate(
            shard_size as int,
            shard_count as int,
            target as int,
            frame_budget as int,
        ),
        schedule.deadline_clamped <==> required_rate(
            shard_size as int,
            shard_count as int,
            frame_budget as int,
        ) > target,
        schedule.segments_per_send == burst_segments(
            schedule.wire_bytes_per_segment as int,
            schedule.wire_rate_bps as int,
            max_segments_per_send as int,
        ),
        schedule.pacing_interval == wire_nanos(
            wire_bits(schedule.wire_bytes_per_segment as int, schedule.segments_per_send as int),
            schedule.wire_rate_bps as int,
        ),
{
}

} // verus!
