//! Collecting the statistics of a benchmark session: what each event does to
//! the counts, and when the session ends. Times are in nanoseconds.
use vstd::prelude::*;

use crate::bench::stats::{StatsAccumulator, StatsSummary};
use crate::video::settings::FrameStats;

verus! {

/// A second.
pub const SECOND: u128 = 1_000_000_000;

/// After how long the counts of an interval are shown.
pub const INTERVAL: u128 = 5_000_000_000;

/// After how long without an event it is looked whether frames came.
pub const IDLE: u128 = 3_000_000_000;

/// What can happen.
#[derive(Clone, Copy, Debug)]
pub enum StatsEvent {
    /// A frame was encoded.
    Frame(FrameStats),
    /// Frames were dropped because they came too fast.
    Lagged,
    /// There are no more frames.
    Closed,
    /// The user breaks off.
    CtrlC,
    /// The time that remained is over.
    TimeOver,
    /// Nothing happened for a while.
    Idle,
}

/// What is to be done.
#[derive(Clone, Copy, Debug, PartialEq, Eq, Structural)]
pub struct Step {
    /// The frame counts.
    pub counted: bool,
    /// The counts of an interval that is over, to be shown.
    pub interval: Option<StatsSummary>,
    /// Warn that there are no frames.
    pub warn: bool,
    /// The session ends.
    pub stop: bool,
}

/// Nothing is to be done.
pub open spec fn nothing() -> Step {
    Step { counted: false, interval: None, warn: false, stop: false }
}

/// A session on its way.
#[derive(Debug)]
pub struct Collection {
    /// Counts since the last interval.
    pub accum: StatsAccumulator,
    /// Counts of the whole session.
    pub total: StatsAccumulator,
    /// Frames before this do not count.
    pub warmup_deadline: u128,
    /// When the session ends.
    pub duration_deadline: Option<u128>,
    /// It was warned that there are no frames.
    pub warned_no_frames: bool,
    /// The user broke off.
    pub interrupted: bool,
}

impl Collection {
    /// An interval holds no more than the session.
    pub open spec fn wf(self) -> bool {
        self.accum.count <= self.total.count
    }

    /// The session is to end.
    pub open spec fn is_over(self, now: u128) -> bool {
        self.duration_deadline matches Some(d) && now >= d
    }

    /// Whether the session is to end; see [`Collection::is_over`].
    fn over(&self, now: u128) -> (r: bool)
        ensures
            r == self.is_over(now),
    {
        match self.duration_deadline {
            Some(d) => now >= d,
            None => false,
        }
    }

    /// The session began at `now` and nothing was counted yet.
    pub open spec fn is_begun(self, now: u128, warmup: u64, duration: u64) -> bool {
        &&& self.accum.is_fresh(now)
        &&& self.total.is_fresh(now)
        &&& self.warmup_deadline == now + warmup * SECOND
        &&& self.duration_deadline == if duration > 0 {
            Some((now + duration * SECOND) as u128)
        } else {
            None
        }
        &&& !self.warned_no_frames
        &&& !self.interrupted
    }

    /// Begins a session of `duration` seconds, without end for none, of which
    /// the first `warmup` seconds do not count; see [`Collection::is_begun`].
    pub fn begin(now: u128, warmup: u64, duration: u64) -> (r: Self)
        requires
            now + warmup * SECOND <= u128::MAX,
            now + duration * SECOND <= u128::MAX,
        ensures
            r.wf(),
            r.is_begun(now, warmup, duration),
    {
        Collection {
            accum: StatsAccumulator::new(now),
            total: StatsAccumulator::new(now),
            warmup_deadline: now + warmup as u128 * SECOND,
            duration_deadline: if duration > 0 {
                Some(now + duration as u128 * SECOND)
            } else {
                None
            },
            warned_no_frames: false,
            interrupted: false,
        }
    }

    /// How long the session still goes, if it has an end.
    pub fn remaining(&self, now: u128) -> (r: Option<u128>)
        ensures
            r == match self.duration_deadline {
                None => None,
                Some(d) => Some(
                    if d >= now {
                        (d - now) as u128
                    } else {
                        0
                    },
                ),
            },
    {
        match self.duration_deadline {
            None => None,
            Some(d) => Some(
                if d >= now {
                    d - now
                } else {
                    0
                },
            ),
        }
    }

    /// The event can be taken.
    pub open spec fn can_take(self, event: StatsEvent) -> bool {
        event matches StatsEvent::Frame(stats) ==> self.accum.can_add(stats) && self.total.can_add(
            stats,
        )
    }

    /// A frame came at `now`, after the warm-up. It counts, for the interval
    /// and the session. An interval that is long enough is shown and another
    /// one begins.
    pub open spec fn is_counted(
        self,
        before: Collection,
        stats: FrameStats,
        now: u128,
        step: Step,
    ) -> bool {
        let since = if before.accum.count == 0 {
            now
        } else {
            before.accum.last_print
        };
        &&& self.total.is_after(before.total, stats, now)
        &&& step.counted
        &&& !step.warn
        &&& step.stop == before.is_over(now)
        &&& if now - since >= INTERVAL {
            &&& self.accum.is_fresh(now)
            &&& exists|a: StatsAccumulator|
                #![trigger a.is_after(before.accum, stats, now)]
                a.is_after(before.accum, stats, now) && step.interval == a.summed_up()
        } else {
            &&& self.accum.is_after(before.accum, stats, now)
            &&& step.interval is None
        }
        &&& self.warmup_deadline == before.warmup_deadline
        &&& self.duration_deadline == before.duration_deadline
        &&& self.warned_no_frames == before.warned_no_frames
        &&& self.interrupted == before.interrupted
    }

    /// It is warned once where no frame counted and the warm-up is over.
    pub open spec fn warns(self, now: u128) -> bool {
        self.total.count == 0 && now >= self.warmup_deadline && !self.warned_no_frames
    }

    /// `self` is `before` after `event` at `now`, and `step` is to be done.
    pub open spec fn is_after(
        self,
        before: Collection,
        event: StatsEvent,
        now: u128,
        step: Step,
    ) -> bool {
        match event {
            StatsEvent::Frame(stats) => if now >= before.warmup_deadline {
                self.is_counted(before, stats, now, step)
            } else {
                self == before && step == nothing()
            },
            StatsEvent::Lagged => self == before && step == nothing(),
            StatsEvent::Closed => self == before && step == (Step { stop: true, ..nothing() }),
            StatsEvent::CtrlC => self == (Collection { interrupted: true, ..before }) && step == (
            Step { stop: true, ..nothing() }),
            StatsEvent::TimeOver => self == before && step == (Step {
                stop: before.is_over(now),
                ..nothing()
            }),
            StatsEvent::Idle => self == (Collection {
                warned_no_frames: before.warned_no_frames || before.warns(now),
                ..before
            }) && step == (Step { warn: before.warns(now), ..nothing() }),
        }
    }

    /// Takes a frame that counts; see [`Collection::is_counted`].
    fn count(&mut self, stats: &FrameStats, now: u128) -> (r: Step)
        requires
            old(self).accum.can_add(*stats),
            old(self).total.can_add(*stats),
        ensures
            final(self).is_counted(*old(self), *stats, now, r),
    {
        self.accum.add(stats, now);
        self.total.add(stats, now);
        let mut interval: Option<StatsSummary> = None;
        if now >= self.accum.last_print && now - self.accum.last_print >= INTERVAL {
            let ghost whole = self.accum;
            interval = self.accum.summary();
            assert(whole.is_after(old(self).accum, *stats, now));
            self.accum = StatsAccumulator::new(now);
        }
        let stop = self.over(now);
        Step { counted: true, interval, warn: false, stop }
    }

    /// Takes an event at `now`; see [`Collection::is_after`].
    pub fn take(&mut self, event: &StatsEvent, now: u128) -> (r: Step)
        requires
            old(self).wf(),
            old(self).can_take(*event),
        ensures
            final(self).wf(),
            final(self).is_after(*old(self), *event, now, r),
    {
        let mut step = Step { counted: false, interval: None, warn: false, stop: false };
        match event {
            StatsEvent::Frame(stats) => {
                if now >= self.warmup_deadline {
                    step = self.count(stats, now);
                }
            },
            StatsEvent::Lagged => {},
            StatsEvent::Closed => {
                step.stop = true;
            },
            StatsEvent::CtrlC => {
                self.interrupted = true;
                step.stop = true;
            },
            StatsEvent::TimeOver => {
                step.stop = self.over(now);
            },
            StatsEvent::Idle => {
                if self.total.count == 0 && now >= self.warmup_deadline && !self.warned_no_frames {
                    step.warn = true;
                    self.warned_no_frames = true;
                }
            },
        }
        step
    }

    /// What the session comes to, nothing where no frame counted.
    pub fn summary(&self) -> (r: Option<StatsSummary>)
        ensures
            r == self.total.summed_up(),
    {
        self.total.summary()
    }
}

/// A warning is given once: after it, none is given again.
pub proof fn warned_once(
    first: Collection,
    second: Collection,
    third: Collection,
    a: StatsEvent,
    b: StatsEvent,
    at: u128,
    later: u128,
    step: Step,
    next: Step,
)
    requires
        second.is_after(first, a, at, step),
        third.is_after(second, b, later, next),
        step.warn || first.warned_no_frames,
    ensures
        second.warned_no_frames,
        third.warned_no_frames,
        !next.warn,
{
}

/// Frames of the warm-up change nothing.
pub proof fn warmup_is_discarded(
    before: Collection,
    after: Collection,
    stats: FrameStats,
    now: u128,
    step: Step,
)
    requires
        after.is_after(before, StatsEvent::Frame(stats), now, step),
        now < before.warmup_deadline,
    ensures
        after == before,
        step == nothing(),
{
}

/// The counts of the session never fall, whatever happens.
pub proof fn counts_never_fall(
    before: Collection,
    after: Collection,
    event: StatsEvent,
    now: u128,
    step: Step,
)
    requires
        after.is_after(before, event, now, step),
    ensures
        after.total.count >= before.total.count,
        after.total.encoded_bytes >= before.total.encoded_bytes,
        after.total.key_frames >= before.total.key_frames,
{
}

/// Every frame from the end of the warm-up on counts, once, for the session;
/// the counts of an interval are shown when it has lasted five seconds, and not
/// before; and a frame ends the session exactly if its time is over.
pub proof fn frames_count_after_the_warmup(
    before: Collection,
    after: Collection,
    stats: FrameStats,
    now: u128,
    step: Step,
)
    requires
        after.is_after(before, StatsEvent::Frame(stats), now, step),
        now >= before.warmup_deadline,
    ensures
        step.counted && !step.warn,
        after.total.count == before.total.count + 1,
        after.total.encoded_bytes == before.total.encoded_bytes + stats.encoded_bytes,
        before.accum.count > 0 && now - before.accum.last_print >= 5_000_000_000 ==> {
            &&& step.interval matches Some(s) && s.count == before.accum.count + 1
            &&& after.accum.count == 0 && after.accum.last_print == now
        },
        before.accum.count == 0 || now - before.accum.last_print < 5_000_000_000 ==> {
            &&& step.interval is None
            &&& after.accum.count == before.accum.count + 1
        },
        step.stop <==> (before.duration_deadline matches Some(d) && now >= d),
        after.warmup_deadline == before.warmup_deadline,
        after.duration_deadline == before.duration_deadline,
        after.interrupted == before.interrupted,
        after.warned_no_frames == before.warned_no_frames,
{
}

/// A session ends when there are no more frames, when the user breaks off, and
/// when its time is over; and not for anything else. Only the user breaks off.
pub proof fn sessions_end_when_they_should(
    before: Collection,
    after: Collection,
    event: StatsEvent,
    now: u128,
    step: Step,
)
    requires
        after.is_after(before, event, now, step),
    ensures
        event is Closed || event is CtrlC ==> step.stop,
        event is Lagged || event is Idle ==> !step.stop,
        event is TimeOver ==> (step.stop <==> (before.duration_deadline matches Some(d) && now >= d)),
        after.interrupted <==> before.interrupted || event is CtrlC,
        !(event is Frame) ==> !step.counted && step.interval is None && after.total == before.total
            && after.accum == before.accum,
        step.warn <==> event is Idle && before.total.count == 0 && now >= before.warmup_deadline
            && !before.warned_no_frames,
{
}

/// A session begins without counts, counts from the end of the warm-up on, and
/// ends after its length, or never where none is given.
pub proof fn sessions_begin_empty(session: Collection, now: u128, warmup: u64, duration: u64)
    requires
        session.is_begun(now, warmup, duration),
        now + duration * 1_000_000_000 <= u128::MAX,
    ensures
        session.total.count == 0 && session.accum.count == 0,
        session.warmup_deadline == now + warmup * 1_000_000_000,
        duration == 0 ==> session.duration_deadline is None,
        duration > 0 ==> (session.duration_deadline matches Some(d) && d == now + duration
            * 1_000_000_000),
        !session.interrupted && !session.warned_no_frames,
{
}

/// The counts that are shown for an interval are those of its frames, the last
/// one among them.
pub proof fn intervals_hold_their_frames(
    before: Collection,
    after: Collection,
    stats: FrameStats,
    now: u128,
    step: Step,
)
    requires
        after.is_after(before, StatsEvent::Frame(stats), now, step),
        now >= before.warmup_deadline,
    ensures
        step.interval matches Some(s) ==> {
            &&& s.count == before.accum.count + 1
            &&& s.encoded_bytes == before.accum.encoded_bytes + stats.encoded_bytes
            &&& s.key_frames == before.accum.key_frames + (if stats.is_key_frame {
                1int
            } else {
                0
            })
            &&& s.import_us == before.accum.import_us + stats.import as int / 1000
            &&& s.convert_us == before.accum.convert_us + stats.convert as int / 1000
            &&& s.send_us == before.accum.send_us + stats.send as int / 1000
        },
{
}

} // verus!
