//! Sending a frame's shards in segmented datagrams.
//!
//! Sending itself is left to the caller: a [`BatchSend`] hands out one chunk
//! after the other, takes what became of it and keeps the result.
use vstd::prelude::*;

use crate::video::pacer;
use crate::video::pacer::BatchSchedule;

verus! {

/// The most that one datagram can hold, before the kernel segments it.
pub const MAX_UDP_PAYLOAD: usize = 65507;

/// Shards in a send: as many as the kernel takes and one datagram can hold,
/// but at least one.
pub open spec fn segments(max_gso_segments: int, shard_size: int) -> int {
    let fit = if shard_size == 0 {
        0
    } else {
        MAX_UDP_PAYLOAD as int / shard_size
    };
    pacer::larger(pacer::smaller(max_gso_segments, fit), 1)
}

/// Shards in a send; see [`segments`].
pub fn gso_segments_per_send(max_gso_segments: usize, shard_size: usize) -> (r: usize)
    ensures
        r == segments(max_gso_segments as int, shard_size as int),
{
    let fit: usize = if shard_size == 0 {
        0
    } else {
        MAX_UDP_PAYLOAD / shard_size
    };
    let r: usize = if max_gso_segments < fit {
        max_gso_segments
    } else {
        fit
    };
    if r < 1 {
        1
    } else {
        r
    }
}

/// A send of shards that fit a datagram fits one too, and holds no more
/// shards than the kernel takes; so does every send of fewer shards.
pub proof fn sends_respect_limits(max_gso_segments: int, shard_size: int, n: int)
    requires
        1 <= shard_size <= MAX_UDP_PAYLOAD,
        max_gso_segments >= 1,
        0 <= n <= segments(max_gso_segments, shard_size),
    ensures
        n * shard_size <= MAX_UDP_PAYLOAD,
        n <= max_gso_segments,
{
    let fit = MAX_UDP_PAYLOAD as int / shard_size;
    assert(fit >= 1 && fit * shard_size <= MAX_UDP_PAYLOAD) by (nonlinear_arith)
        requires
            fit == MAX_UDP_PAYLOAD as int / shard_size,
            1 <= shard_size <= MAX_UDP_PAYLOAD,
    ;
    assert(n * shard_size <= fit * shard_size) by (nonlinear_arith)
        requires
            n <= fit,
            shard_size >= 1,
    ;
}

/// What became of a batch.
#[derive(Clone, Copy, Debug, PartialEq, Eq, Structural)]
pub struct SendBatchResult {
    /// Chunks that had to be sent shard by shard.
    pub failed_gso_chunks: u32,
    /// Shards that could not be sent.
    pub send_errors: u32,
    /// Shards in the batch.
    pub shard_count: usize,
    /// How long it took, in nanoseconds.
    pub elapsed: u64,
    /// The time between bursts, where they were paced.
    pub pacing_interval: Option<u64>,
    /// The rate had to be raised to meet the budget.
    pub deadline_clamped: bool,
    /// It took longer than its budget.
    pub pacing_budget_missed: bool,
    /// It took longer than a frame.
    pub frame_deadline_missed: bool,
}

/// A chunk to be sent.
#[derive(Clone, Copy, Debug, PartialEq, Eq, Structural)]
pub struct Chunk {
    /// Where it begins.
    pub start: usize,
    /// Where it ends.
    pub end: usize,
    /// When it is due, where it is paced.
    pub due: Option<u128>,
}

/// A batch that is being sent.
#[derive(Clone, Copy, Debug, PartialEq, Eq, Structural)]
pub struct BatchSend {
    /// Bytes of a shard.
    pub shard_size: usize,
    /// Bytes of the batch.
    pub total: usize,
    /// Bytes of a chunk.
    pub chunk_len: usize,
    /// Bytes sent so far.
    pub sent: usize,
    /// The plan of the bursts, where they are paced.
    pub schedule: Option<BatchSchedule>,
    /// Waiting failed: the rest is not paced.
    pub pacing_failed: bool,
    /// What became of it so far.
    pub result: SendBatchResult,
}

/// Nothing sent yet.
pub open spec fn blank_result(shard_count: usize) -> SendBatchResult {
    SendBatchResult {
        failed_gso_chunks: 0,
        send_errors: 0,
        shard_count,
        elapsed: 0,
        pacing_interval: None,
        deadline_clamped: false,
        pacing_budget_missed: false,
        frame_deadline_missed: false,
    }
}

impl BatchSend {
    /// A chunk holds whole shards, at least one, and the batch whole shards
    /// too; what was sent is a number of whole chunks, or all.
    pub open spec fn well_formed(self) -> bool {
        &&& self.shard_size >= 1
        &&& self.chunk_len >= self.shard_size
        &&& self.chunk_len as int % self.shard_size as int == 0
        &&& self.sent <= self.total
        &&& self.sent == self.total || self.sent as int % self.chunk_len as int == 0
        &&& self.schedule matches Some(s) ==> s.well_formed()
    }

    /// Where the next chunk ends.
    pub open spec fn next_end(self) -> int {
        pacer::smaller(self.sent + self.chunk_len, self.total as int)
    }

    /// The next chunk is paced.
    pub open spec fn paced(self) -> bool {
        self.schedule is Some && !self.pacing_failed
    }

    /// Begins to send `shard_count` shards of `shard_size` bytes. `None` for
    /// an empty batch. `max_gso_segments` is how many the kernel takes;
    /// `pacing` the target rate and the time budget, where sends are paced.
    pub fn begin(
        shard_size: usize,
        shard_count: usize,
        max_gso_segments: usize,
        pacing: Option<(u64, u128)>,
        now: u128,
    ) -> (r: Option<Self>)
        requires
            shard_size * shard_count <= usize::MAX,
        ensures
            r is None <==> shard_size == 0 || shard_count == 0,
            r matches Some(b) ==> {
                let max = segments(max_gso_segments as int, shard_size as int);
                &&& b.well_formed()
                &&& b.shard_size == shard_size
                &&& b.total == shard_size * shard_count
                &&& b.sent == 0
                &&& !b.pacing_failed
                &&& b.schedule is Some <==> pacing is Some
                &&& match pacing {
                    None => b.chunk_len == max * shard_size && b.result == blank_result(shard_count),
                    Some((target, budget)) => {
                        let bytes = pacer::wire_bytes(shard_size as int);
                        let rate = pacer::frame_rate(
                            shard_size as int,
                            shard_count as int,
                            target as int,
                            budget as int,
                        );
                        let n = pacer::burst_segments(bytes, rate, max);
                        &&& b.chunk_len == n * shard_size
                        &&& b.schedule->0.wire_rate_bps == rate
                        &&& b.schedule->0.wire_bytes_per_segment == bytes
                        &&& b.schedule->0.next_send == now
                        &&& b.result == (SendBatchResult {
                            pacing_interval: Some(
                                pacer::wire_nanos(pacer::wire_bits(bytes, n), rate) as u64,
                            ),
                            deadline_clamped: pacer::required_rate(
                                shard_size as int,
                                shard_count as int,
                                budget as int,
                            ) > target,
                            ..blank_result(shard_count)
                        })
                    },
                }
            },
    {
        if shard_size == 0 || shard_count == 0 {
            return None;
        }
        let max = gso_segments_per_send(max_gso_segments, shard_size);
        let schedule = match pacing {
            Some((target, budget)) => Some(
                pacer::batch_schedule(shard_size, shard_count, max, target, budget, now),
            ),
            None => None,
        };
        let n: usize = match &schedule {
            Some(s) => s.segments_per_send,
            None => max,
        };
        let mut result = SendBatchResult {
            failed_gso_chunks: 0,
            send_errors: 0,
            shard_count,
            elapsed: 0,
            pacing_interval: None,
            deadline_clamped: false,
            pacing_budget_missed: false,
            frame_deadline_missed: false,
        };
        if let Some(s) = &schedule {
            result.pacing_interval = Some(s.pacing_interval);
            result.deadline_clamped = s.deadline_clamped;
        }
        proof {
            chunk_fits(max as int, n as int, max_gso_segments as int, shard_size as int);
            assert((n * shard_size) as int % shard_size as int == 0) by (nonlinear_arith)
                requires
                    shard_size >= 1,
            ;
            assert(n * shard_size >= shard_size) by (nonlinear_arith)
                requires
                    n >= 1,
                    shard_size >= 1,
            ;
        }
        let chunk_len: usize = n * shard_size;
        Some(
            BatchSend {
                shard_size,
                total: shard_size * shard_count,
                chunk_len,
                sent: 0,
                schedule,
                pacing_failed: false,
                result,
            },
        )
    }

    /// The next chunk to be sent, `None` when all were.
    pub fn next_chunk(&self) -> (r: Option<Chunk>)
        requires
            self.well_formed(),
        ensures
            r is None <==> self.sent == self.total,
            r matches Some(c) ==> c == (Chunk {
                start: self.sent,
                end: self.next_end() as usize,
                due: if self.paced() { Some(self.schedule->0.next_send) } else { None },
            }) && c.start < c.end <= self.total,
    {
        if self.sent == self.total {
            return None;
        }
        let end: usize = if self.total - self.sent < self.chunk_len {
            self.total
        } else {
            self.sent + self.chunk_len
        };
        let due = match &self.schedule {
            Some(s) => if self.pacing_failed {
                None
            } else {
                Some(s.next_send)
            },
            None => None,
        };
        Some(Chunk { start: self.sent, end, due })
    }

    /// The next chunk was sent. `waited` says that waiting for it did not
    /// fail, `gso_failed` that it had to be sent shard by shard, and
    /// `send_errors` how many shards failed then.
    pub fn chunk_sent(&mut self, waited: bool, gso_failed: bool, send_errors: u32)
        requires
            old(self).well_formed(),
            old(self).sent < old(self).total,
            old(self).result.failed_gso_chunks < u32::MAX,
            old(self).result.send_errors + send_errors <= u32::MAX,
            old(self).schedule matches Some(s) ==> s.next_send <= u128::MAX - u64::MAX,
        ensures
            final(self).well_formed(),
            final(self).sent == old(self).next_end(),
            final(self).result == (SendBatchResult {
                failed_gso_chunks: (old(self).result.failed_gso_chunks + if gso_failed {
                    1int
                } else {
                    0
                }) as u32,
                send_errors: (old(self).result.send_errors + send_errors) as u32,
                ..old(self).result
            }),
            final(self).pacing_failed == (old(self).pacing_failed || (old(self).paced() && !waited)),
            final(self).schedule == if old(self).paced() {
                Some(
                    BatchSchedule {
                        next_send: (old(self).schedule->0.next_send + pacer::wire_nanos(
                            pacer::wire_bits(
                                old(self).schedule->0.wire_bytes_per_segment as int,
                                pacer::ceil_div(
                                    old(self).next_end() - old(self).sent,
                                    old(self).shard_size as int,
                                ),
                            ),
                            old(self).schedule->0.wire_rate_bps as int,
                        )) as u128,
                        ..old(self).schedule->0
                    },
                )
            } else {
                old(self).schedule
            },
            final(self).shard_size == old(self).shard_size,
            final(self).total == old(self).total,
            final(self).chunk_len == old(self).chunk_len,
    {
        let end: usize = if self.total - self.sent < self.chunk_len {
            self.total
        } else {
            self.sent + self.chunk_len
        };
        let len: usize = end - self.sent;
        if let Some(s) = self.schedule {
            if !self.pacing_failed {
                if !waited {
                    self.pacing_failed = true;
                }
                let mut s = s;
                proof {
                    pacer::quotient_below_or_equal(len as int, self.shard_size as int);
                }
                let whole: usize = len / self.shard_size;
                let count: usize = if len % self.shard_size == 0 {
                    whole
                } else {
                    whole + 1
                };
                s.advance(count);
                self.schedule = Some(s);
            }
        }
        proof {
            if end != self.total {
                assert((self.sent + self.chunk_len) as int % self.chunk_len as int == 0) by (nonlinear_arith)
                    requires
                        self.sent as int % self.chunk_len as int == 0,
                        self.chunk_len >= 1,
                ;
            }
        }
        self.sent = end;
        if gso_failed {
            self.result.failed_gso_chunks += 1;
        }
        self.result.send_errors = self.result.send_errors + send_errors;
    }

    /// All chunks were sent, in `elapsed` nanoseconds. `deadlines` are the
    /// time budget and the length of a frame, where sends are paced. Also
    /// says whether pacing goes on for the next batch.
    pub fn finish(&self, elapsed: u64, deadlines: Option<(u64, u64)>) -> (r: (SendBatchResult, bool))
        ensures
            r.0 == (SendBatchResult {
                elapsed,
                pacing_budget_missed: match deadlines {
                    Some((budget, _)) => elapsed > budget,
                    None => self.result.pacing_budget_missed,
                },
                frame_deadline_missed: match deadlines {
                    Some((_, frame)) => elapsed > frame,
                    None => self.result.frame_deadline_missed,
                },
                ..self.result
            }),
            r.1 == !self.pacing_failed,
    {
        let mut result = self.result;
        result.elapsed = elapsed;
        if let Some((budget, frame)) = deadlines {
            result.pacing_budget_missed = elapsed > budget;
            result.frame_deadline_missed = elapsed > frame;
        }
        (result, !self.pacing_failed)
    }
}

/// A chunk has a length: no more than a datagram holds, or one shard.
proof fn chunk_fits(max: int, n: int, max_gso_segments: int, shard_size: int)
    requires
        shard_size >= 1,
        max == segments(max_gso_segments, shard_size),
        1 <= n <= max,
    ensures
        n * shard_size <= pacer::larger(MAX_UDP_PAYLOAD as int, shard_size),
{
    let fit = MAX_UDP_PAYLOAD as int / shard_size;
    if n > 1 {
        assert(n * shard_size <= MAX_UDP_PAYLOAD) by (nonlinear_arith)
            requires
                fit == MAX_UDP_PAYLOAD as int / shard_size,
                n <= fit,
                shard_size >= 1,
        ;
    }
}

/// Every chunk but the last is full, and all chunks hold whole shards.
pub proof fn chunks_hold_whole_shards(b: BatchSend)
    requires
        b.well_formed(),
        b.sent < b.total,
        b.total as int % b.shard_size as int == 0,
    ensures
        (b.next_end() - b.sent) % b.shard_size as int == 0,
        b.next_end() < b.total ==> b.next_end() - b.sent == b.chunk_len,
        b.next_end() - b.sent <= b.chunk_len,
{
    let s = b.shard_size as int;
    let c = b.chunk_len as int;
    vstd::arithmetic::div_mod::lemma_fundamental_div_mod(c, s);
    vstd::arithmetic::div_mod::lemma_fundamental_div_mod(b.sent as int, c);
    vstd::arithmetic::div_mod::lemma_fundamental_div_mod(b.total as int, s);
    let k = c / s;
    let m = b.sent as int / c;
    assert(b.sent as int == s * (k * m)) by (nonlinear_arith)
        requires
            b.sent as int == c * m,
            c == s * k,
    ;
    let t = b.total as int / s;
    assert(b.total - b.sent == s * (t - k * m)) by (nonlinear_arith)
        requires
            b.sent as int == s * (k * m),
            b.total as int == s * t,
    ;
    vstd::arithmetic::div_mod::lemma_mod_multiples_basic(t - k * m, s);
    assert((t - k * m) * s == s * (t - k * m)) by (nonlinear_arith);
}

/// A send holds as many shards as it can: one more would be more than the
/// kernel takes or more than a datagram of 65507 bytes holds.
pub proof fn sends_are_full(max_gso_segments: int, shard_size: int)
    requires
        shard_size >= 0,
    ensures
        segments(max_gso_segments, shard_size) >= 1,
        segments(max_gso_segments, shard_size) > 1 ==> {
            &&& segments(max_gso_segments, shard_size) <= max_gso_segments
            &&& segments(max_gso_segments, shard_size) * shard_size <= 65507
        },
        shard_size >= 1 ==> {
            ||| segments(max_gso_segments, shard_size) >= max_gso_segments
            ||| (segments(max_gso_segments, shard_size) + 1) * shard_size > 65507
        },
{
    let n = segments(max_gso_segments, shard_size);
    assert(MAX_UDP_PAYLOAD == 65507);
    if shard_size >= 1 {
        let fit = 65507int / shard_size;
        assert(fit * shard_size <= 65507 && (fit + 1) * shard_size > 65507) by (nonlinear_arith)
            requires
                fit == 65507int / shard_size,
                shard_size >= 1,
        ;
        if n < max_gso_segments {
            assert((n + 1) * shard_size >= (fit + 1) * shard_size) by (nonlinear_arith)
                requires
                    n >= fit,
                    shard_size >= 1,
            ;
        }
        if n > 1 {
            assert(n * shard_size <= fit * shard_size) by (nonlinear_arith)
                requires
                    n <= fit,
                    shard_size >= 1,
            ;
        }
    }
}

/// Chunks follow each other without gaps: a chunk begins where the last one
/// ended, holds as much as a chunk may, and the last one ends with the batch.
pub proof fn chunks_are_as_long_as_can_be(b: BatchSend)
    requires
        b.well_formed(),
        b.sent < b.total,
    ensures
        b.sent < b.next_end() <= b.total,
        b.total - b.sent >= b.chunk_len ==> b.next_end() == b.sent + b.chunk_len,
        b.total - b.sent <= b.chunk_len ==> b.next_end() == b.total,
        b.paced() <==> b.schedule is Some && !b.pacing_failed,
{
}

/// A batch of which nothing was sent has had no failures and was not late.
pub proof fn batches_begin_without_failures(shard_count: usize)
    ensures
        blank_result(shard_count).failed_gso_chunks == 0,
        blank_result(shard_count).send_errors == 0,
        blank_result(shard_count).shard_count == shard_count,
        blank_result(shard_count).elapsed == 0,
        blank_result(shard_count).pacing_interval is None,
        !blank_result(shard_count).deadline_clamped,
        !blank_result(shard_count).pacing_budget_missed,
        !blank_result(shard_count).frame_deadline_missed,
{
}

} // verus!
