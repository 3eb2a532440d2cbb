//! The runs of the benchmark matrix, and what is made of their ends.
use vstd::prelude::*;

use crate::bench::stats::StatsSummary;
use crate::text;
use crate::video::settings::VideoFormat;

verus! {

/// The width and height that `WxH` stands for, or what is wrong with it.
pub open spec fn resolution_of(s: Seq<char>) -> Result<(int, int), Seq<char>> {
    let parts = text::split_on(s, 'x');
    if parts.len() != 2 {
        Err("Invalid resolution format, expected WxH (e.g. 1920x1080)"@)
    } else {
        match text::read_unsigned(parts[0], u32::MAX as int) {
            Err(e) => Err("Invalid width: "@ + e.message_spec()),
            Ok(w) => match text::read_unsigned(parts[1], u32::MAX as int) {
                Err(e) => Err("Invalid height: "@ + e.message_spec()),
                Ok(h) => Ok((w, h)),
            },
        }
    }
}

/// The width and height that `WxH` stands for; see [`resolution_of`].
pub fn parse_resolution(s: &str) -> (r: Result<(u32, u32), String>)
    ensures
        match r {
            Ok(wh) => resolution_of(s@) == Ok::<(int, int), Seq<char>>((wh.0 as int, wh.1 as int)),
            Err(e) => resolution_of(s@) == Err::<(int, int), Seq<char>>(e@),
        },
{
    let all = text::chars_of(s);
    let parts = text::split_chars(all.as_slice(), 'x');
    let ghost pieces = text::split_on(s@, 'x');
    assert(text::views(parts@) == pieces);
    if parts.len() != 2 {
        return Err("Invalid resolution format, expected WxH (e.g. 1920x1080)".to_owned());
    }
    assert(pieces[0] == parts@[0]@ && pieces[1] == parts@[1]@);
    match text::parse_unsigned(parts[0].as_slice(), u32::MAX as u64) {
        Err(e) => Err(text::joined("Invalid width: ", e.message())),
        Ok(w) => match text::parse_unsigned(parts[1].as_slice(), u32::MAX as u64) {
            Err(e) => Err(text::joined("Invalid height: ", e.message())),
            Ok(h) => Ok((w as u32, h as u32)),
        },
    }
}

/// Every size written as `WxH` is read back.
pub proof fn resolution_reads_back(w: u32, h: u32)
    ensures
        resolution_of(text::decimal(w as nat).push('x') + text::decimal(h as nat)) == Ok::<
            (int, int),
            Seq<char>,
        >((w as int, h as int)),
{
    let a = text::decimal(w as nat);
    let b = text::decimal(h as nat);
    text::decimal_reads_back(w as nat, u32::MAX as int);
    text::decimal_reads_back(h as nat, u32::MAX as int);
    assert forall|i: int| 0 <= i < a.len() implies a[i] != 'x' by {
        assert(text::is_digit(a[i]));
    }
    assert forall|i: int| 0 <= i < b.len() implies b[i] != 'x' by {
        assert(text::is_digit(b[i]));
    }
    text::split_pair(a, b, 'x');
}

/// A name of a codec.
pub open spec fn is_codec(s: Seq<char>) -> bool {
    s == "h264"@ || s == "hevc"@ || s == "av1"@
}

/// The codec of a name.
pub fn parse_codec(s: &str) -> (r: VideoFormat)
    requires
        is_codec(s@),
    ensures
        r == if s@ == "h264"@ {
            VideoFormat::H264
        } else if s@ == "hevc"@ {
            VideoFormat::Hevc
        } else {
            VideoFormat::Av1
        },
{
    if text::same_text(s, "h264") {
        VideoFormat::H264
    } else if text::same_text(s, "hevc") {
        VideoFormat::Hevc
    } else {
        VideoFormat::Av1
    }
}

/// A length in seconds as it is shown, where none is without end.
pub fn duration_shown(duration: u64) -> (r: String)
    ensures
        r@ == if duration == 0 {
            "infinite"@
        } else {
            text::decimal(duration as nat)
        },
{
    if duration == 0 {
        "infinite".to_owned()
    } else {
        text::decimal_string(duration)
    }
}

/// How long a run of the matrix takes, in seconds: a matrix needs an end.
pub fn matrix_duration(duration: u64) -> (r: u64)
    ensures
        r == if duration == 0 {
            8
        } else {
            duration
        },
{
    if duration == 0 {
        8
    } else {
        duration
    }
}

/// Number of runs.
pub const RUNS: usize = 27;

/// One run.
#[derive(Debug)]
pub struct MatrixRun {
    /// Name of the resolution.
    pub resolution_label: String,
    /// The resolution.
    pub resolution: String,
    /// Frames per second.
    pub target_fps: u32,
    /// Name of the codec.
    pub codec: String,
}

/// One run, as values.
#[verifier::ext_equal]
pub struct RunValues {
    /// Name of the resolution.
    pub resolution_label: Seq<char>,
    /// The resolution.
    pub resolution: Seq<char>,
    /// Frames per second.
    pub target_fps: int,
    /// Name of the codec.
    pub codec: Seq<char>,
}

impl View for MatrixRun {
    type V = RunValues;

    open spec fn view(&self) -> RunValues {
        RunValues {
            resolution_label: self.resolution_label@,
            resolution: self.resolution@,
            target_fps: self.target_fps as int,
            codec: self.codec@,
        }
    }
}

/// The run at place `i`: every resolution with every frame rate with every
/// codec, where codecs change fastest and resolutions slowest.
pub open spec fn run_of(i: int) -> RunValues {
    RunValues {
        resolution_label: if i / 9 == 0 {
            "4k"@
        } else if i / 9 == 1 {
            "1440p"@
        } else {
            "1080p"@
        },
        resolution: if i / 9 == 0 {
            "3840x2160"@
        } else if i / 9 == 1 {
            "2560x1440"@
        } else {
            "1920x1080"@
        },
        target_fps: if i / 3 % 3 == 0 {
            60
        } else if i / 3 % 3 == 1 {
            120
        } else {
            360
        },
        codec: if i % 3 == 0 {
            "hevc"@
        } else if i % 3 == 1 {
            "h264"@
        } else {
            "av1"@
        },
    }
}

/// No run is made twice.
pub proof fn runs_differ(i: int, j: int)
    requires
        0 <= i < RUNS,
        0 <= j < RUNS,
        run_of(i) == run_of(j),
    ensures
        i == j,
{
    reveal_strlit("4k");
    reveal_strlit("1440p");
    reveal_strlit("1080p");
    reveal_strlit("hevc");
    reveal_strlit("h264");
    reveal_strlit("av1");
    assert("1440p"@[1] != "1080p"@[1]);
    assert("hevc"@[1] != "h264"@[1]);
    assert("4k"@.len() != "1440p"@.len() && "4k"@.len() != "1080p"@.len());
    assert("av1"@.len() != "hevc"@.len() && "av1"@.len() != "h264"@.len());
}

/// The codec of every run has a name that is known.
pub proof fn runs_have_codecs(i: int)
    ensures
        is_codec(run_of(i).codec),
{
}

/// The run at place `i`; see [`run_of`].
fn run_at(i: usize) -> (r: MatrixRun)
    requires
        i < RUNS,
    ensures
        r@ == run_of(i as int),
{
    let label = if i / 9 == 0 {
        "4k"
    } else if i / 9 == 1 {
        "1440p"
    } else {
        "1080p"
    };
    let resolution = if i / 9 == 0 {
        "3840x2160"
    } else if i / 9 == 1 {
        "2560x1440"
    } else {
        "1920x1080"
    };
    let fps: u32 = if i / 3 % 3 == 0 {
        60
    } else if i / 3 % 3 == 1 {
        120
    } else {
        360
    };
    let codec = if i % 3 == 0 {
        "hevc"
    } else if i % 3 == 1 {
        "h264"
    } else {
        "av1"
    };
    MatrixRun {
        resolution_label: label.to_owned(),
        resolution: resolution.to_owned(),
        target_fps: fps,
        codec: codec.to_owned(),
    }
}

/// How a run ended.
#[derive(Debug)]
pub enum MatrixStatus {
    /// To its end, with what was counted if there were frames.
    Finished(Option<StatsSummary>),
    /// It could not be run, for this reason.
    Failed(String),
    /// It was broken off, with what was counted if there were frames.
    Interrupted(Option<StatsSummary>),
}

impl MatrixStatus {
    /// The word for it, as the table of runs shows it.
    pub open spec fn word(self) -> Seq<char> {
        match self {
            MatrixStatus::Finished(Some(_)) => "ok"@,
            MatrixStatus::Finished(None) => "no-frames"@,
            MatrixStatus::Interrupted(_) => "interrupted"@,
            MatrixStatus::Failed(err) => "failed: "@ + err@,
        }
    }

    /// The word for it; see [`MatrixStatus::word`].
    pub fn label(&self) -> (r: String)
        ensures
            r@ == self.word(),
    {
        match self {
            MatrixStatus::Finished(Some(_)) => "ok".to_owned(),
            MatrixStatus::Finished(None) => "no-frames".to_owned(),
            MatrixStatus::Interrupted(_) => "interrupted".to_owned(),
            MatrixStatus::Failed(err) => text::joined("failed: ", err.as_str()),
        }
    }
}

/// Number of runs that failed.
pub open spec fn failures(ends: Seq<MatrixStatus>) -> int
    decreases ends.len(),
{
    if ends.len() == 0 {
        0
    } else {
        failures(ends.drop_last()) + if ends.last() is Failed {
            1int
        } else {
            0
        }
    }
}

/// The last run was broken off.
pub open spec fn broken_off(ends: Seq<MatrixStatus>) -> bool {
    ends.len() > 0 && ends.last() is Interrupted
}

/// What a matrix comes to: broken off, some runs failed, or all is well.
pub open spec fn outcome(ends: Seq<MatrixStatus>) -> Result<(), Seq<char>> {
    if broken_off(ends) {
        Err("Matrix benchmark interrupted"@)
    } else if failures(ends) > 0 {
        Err(text::decimal(failures(ends) as nat) + " matrix benchmark run(s) failed"@)
    } else {
        Ok(())
    }
}

/// A matrix on its way: how its runs ended, in the order of the runs.
#[derive(Debug)]
pub struct Matrix {
    /// How each run that was made ended.
    pub ends: Vec<MatrixStatus>,
}

impl Matrix {
    /// At most every run was made, and only the last can be broken off.
    pub open spec fn wf(self) -> bool {
        &&& self.ends@.len() <= RUNS
        &&& forall|i: int|
            #![trigger self.ends@[i]]
            0 <= i < self.ends@.len() - 1 ==> !(self.ends@[i] is Interrupted)
    }

    /// There is a run to make.
    pub open spec fn goes_on(self) -> bool {
        self.ends@.len() < RUNS && !broken_off(self.ends@)
    }

    /// Nothing was run yet.
    pub fn new() -> (r: Self)
        ensures
            r.wf(),
            r.ends@ == Seq::<MatrixStatus>::empty(),
    {
        Matrix { ends: Vec::new() }
    }

    /// Whether the last run was broken off.
    fn is_broken_off(&self) -> (r: bool)
        ensures
            r == broken_off(self.ends@),
    {
        if self.ends.len() == 0 {
            return false;
        }
        match &self.ends[self.ends.len() - 1] {
            MatrixStatus::Interrupted(_) => true,
            _ => false,
        }
    }

    /// The next run; there is none after the last, nor after one that was
    /// broken off.
    pub fn next_run(&self) -> (r: Option<MatrixRun>)
        ensures
            r is Some <==> self.goes_on(),
            r matches Some(run) ==> run@ == run_of(self.ends@.len() as int),
    {
        if self.ends.len() >= RUNS || self.is_broken_off() {
            return None;
        }
        Some(run_at(self.ends.len()))
    }

    /// Notes how the next run ended.
    pub fn ended(&mut self, status: MatrixStatus)
        requires
            old(self).wf(),
            old(self).goes_on(),
        ensures
            final(self).wf(),
            final(self).ends@ == old(self).ends@.push(status),
    {
        self.ends.push(status);
    }

    /// What the matrix comes to; see [`outcome`].
    pub fn result(&self) -> (r: Result<(), String>)
        ensures
            match r {
                Ok(_) => outcome(self.ends@) == Ok::<(), Seq<char>>(()),
                Err(e) => outcome(self.ends@) == Err::<(), Seq<char>>(e@),
            },
    {
        if self.is_broken_off() {
            return Err("Matrix benchmark interrupted".to_owned());
        }
        let mut count: u64 = 0;
        let mut i: usize = 0;
        while i < self.ends.len()
            invariant
                i <= self.ends@.len(),
                count <= i,
                count == failures(self.ends@.take(i as int)),
            decreases self.ends@.len() - i,
        {
            assert(self.ends@.take(i + 1).drop_last() == self.ends@.take(i as int));
            if let MatrixStatus::Failed(_) = &self.ends[i] {
                count = count + 1;
            }
            i = i + 1;
        }
        assert(self.ends@.take(self.ends@.len() as int) == self.ends@);
        if count > 0 {
            let mut words = text::decimal_string(count);
            words.append(" matrix benchmark run(s) failed");
            return Err(words);
        }
        Ok(())
    }
}

/// A matrix is well only if every run came to its end.
pub proof fn well_means_all_ended(matrix: Matrix, i: int)
    requires
        matrix.wf(),
        outcome(matrix.ends@) is Ok,
        0 <= i < matrix.ends@.len(),
    ensures
        matrix.ends@[i] is Finished,
{
    no_failure_before(matrix.ends@, i);
}

/// Where no run failed, the run at place `i` did not.
proof fn no_failure_before(ends: Seq<MatrixStatus>, i: int)
    requires
        0 <= i < ends.len(),
    ensures
        failures(ends) >= 0,
        failures(ends) == 0 ==> !(ends[i] is Failed),
    decreases ends.len(),
{
    failures_not_negative(ends);
    failures_not_negative(ends.drop_last());
    if i < ends.len() - 1 {
        no_failure_before(ends.drop_last(), i);
    }
}

/// There are no fewer failures than none.
proof fn failures_not_negative(ends: Seq<MatrixStatus>)
    ensures
        failures(ends) >= 0,
    decreases ends.len(),
{
    if ends.len() > 0 {
        failures_not_negative(ends.drop_last());
    }
}

/// A size that is read is written as two numbers with an `x` between them, and
/// these are its width and its height.
pub proof fn sizes_are_two_numbers(s: Seq<char>)
    ensures
        resolution_of(s) matches Ok(size) ==> exists|a: Seq<char>, b: Seq<char>|
            {
                &&& s == #[trigger] (a.push('x') + b)
                &&& text::read_unsigned(a, u32::MAX as int) == Ok::<int, text::NumberError>(size.0)
                &&& text::read_unsigned(b, u32::MAX as int) == Ok::<int, text::NumberError>(size.1)
            },
        text::split_on(s, 'x').len() != 2 ==> resolution_of(s) is Err,
{
    if resolution_of(s) is Ok {
        let parts = text::split_on(s, 'x');
        text::split_then_join(s, 'x');
        let one = parts.drop_last();
        assert(one[0] == parts[0]);
        assert(text::join_with(one, 'x') == parts[0]);
        assert(text::join_with(parts, 'x') == parts[0].push('x') + parts[1]);
        assert(s == parts[0].push('x') + parts[1]);
    }
}

/// Every resolution is run with every frame rate and every codec: resolutions
/// from the largest down, each with 60, 120 and 360 frames per second, each
/// with HEVC, H.264 and AV1.
pub proof fn every_combination_is_run(size: int, rate: int, codec: int)
    requires
        0 <= size < 3,
        0 <= rate < 3,
        0 <= codec < 3,
    ensures
        0 <= 9 * size + 3 * rate + codec < 27,
        ({
            let run = run_of(9 * size + 3 * rate + codec);
            &&& size == 0 ==> run.resolution_label == "4k"@ && run.resolution == "3840x2160"@
            &&& size == 1 ==> run.resolution_label == "1440p"@ && run.resolution == "2560x1440"@
            &&& size == 2 ==> run.resolution_label == "1080p"@ && run.resolution == "1920x1080"@
            &&& rate == 0 ==> run.target_fps == 60
            &&& rate == 1 ==> run.target_fps == 120
            &&& rate == 2 ==> run.target_fps == 360
            &&& codec == 0 ==> run.codec == "hevc"@
            &&& codec == 1 ==> run.codec == "h264"@
            &&& codec == 2 ==> run.codec == "av1"@
        }),
        RUNS == 27,
{
}

/// A matrix is well exactly if its last run was not broken off and no run
/// failed; one more run that fails is counted, and no other is.
pub proof fn failures_are_counted(ends: Seq<MatrixStatus>, end: MatrixStatus)
    ensures
        failures(Seq::empty()) == 0,
        failures(ends.push(end)) == failures(ends) + (if end is Failed {
            1int
        } else {
            0
        }),
        broken_off(ends.push(end)) <==> end is Interrupted,
        outcome(ends) is Ok <==> !(ends.len() > 0 && ends[ends.len() - 1] is Interrupted) && forall|
            i: int,
        |
            0 <= i < ends.len() ==> !(#[trigger] ends[i] is Failed),
        end is Interrupted ==> outcome(ends.push(end)) == Err::<(), Seq<char>>(
            "Matrix benchmark interrupted"@,
        ),
        !(end is Interrupted) && failures(ends.push(end)) > 0 ==> outcome(ends.push(end)) == Err::<
            (),
            Seq<char>,
        >(text::decimal(failures(ends.push(end)) as nat) + " matrix benchmark run(s) failed"@),
{
    assert(ends.push(end).drop_last() == ends);
    failures_not_negative(ends);
    if failures(ends) == 0 {
        assert forall|i: int| 0 <= i < ends.len() implies !(#[trigger] ends[i] is Failed) by {
            no_failure_before(ends, i);
        }
    }
    if forall|i: int| 0 <= i < ends.len() ==> !(#[trigger] ends[i] is Failed) {
        none_failed(ends);
    }
}

/// Where no run failed there are no failures.
proof fn none_failed(ends: Seq<MatrixStatus>)
    requires
        forall|i: int| 0 <= i < ends.len() ==> !(#[trigger] ends[i] is Failed),
    ensures
        failures(ends) == 0,
    decreases ends.len(),
{
    if ends.len() > 0 {
        let rest = ends.drop_last();
        assert(forall|i: int| #![trigger rest[i]] 0 <= i < rest.len() ==> rest[i] == ends[i]);
        none_failed(rest);
        assert(ends[ends.len() - 1] == ends.last());
    }
}

/// The word for an end tells whether there were frames, whether it was broken
/// off, and why it failed.
pub proof fn ends_have_their_words(summary: StatsSummary, counted: Option<StatsSummary>, why: String)
    ensures
        MatrixStatus::Finished(Some(summary)).word() == "ok"@,
        MatrixStatus::Finished(None).word() == "no-frames"@,
        MatrixStatus::Interrupted(counted).word() == "interrupted"@,
        MatrixStatus::Failed(why).word() == "failed: "@ + why@,
{
}

/// A size that is refused is told why: that it is not two numbers, or which of
/// the two cannot be read and for what reason.
pub proof fn refusals_say_why(s: Seq<char>, a: Seq<char>, b: Seq<char>)
    ensures
        text::split_on(s, 'x').len() != 2 ==> resolution_of(s) == Err::<(int, int), Seq<char>>(
            "Invalid resolution format, expected WxH (e.g. 1920x1080)"@,
        ),
        !a.contains('x') && !b.contains('x') ==> {
            let read = resolution_of(a.push('x') + b);
            let wide = text::read_unsigned(a, u32::MAX as int);
            let high = text::read_unsigned(b, u32::MAX as int);
            &&& wide matches Err(e) ==> read == Err::<(int, int), Seq<char>>(
                "Invalid width: "@ + e.message_spec(),
            )
            &&& wide is Ok ==> (high matches Err(e) ==> read == Err::<(int, int), Seq<char>>(
                "Invalid height: "@ + e.message_spec(),
            ))
            &&& wide is Ok && high is Ok ==> read == Ok::<(int, int), Seq<char>>((wide->Ok_0, high->Ok_0))
        },
{
    if !a.contains('x') && !b.contains('x') {
        text::split_pair(a, b, 'x');
    }
}

} // verus!
