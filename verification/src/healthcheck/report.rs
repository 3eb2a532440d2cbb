//! The report of a check.
use vstd::prelude::*;

verus! {

/// How a check ended.
#[derive(Debug, Clone, Copy, PartialEq, Eq, Structural)]
pub enum CheckOutcome {
    /// All is well.
    Passed,
    /// Something will not work.
    Warning,
    /// The host cannot start.
    Failed,
}

/// A check and how it ended.
#[derive(Debug)]
pub struct CheckResult {
    /// What was checked.
    pub name: String,
    /// How it ended.
    pub outcome: CheckOutcome,
    /// What was found.
    pub message: String,
    /// How long it took, in milliseconds.
    pub duration_ms: u64,
}

/// A check and how it ended, as values.
pub struct CheckValues {
    /// What was checked.
    pub name: Seq<char>,
    /// How it ended.
    pub outcome: CheckOutcome,
    /// What was found.
    pub message: Seq<char>,
    /// How long it took, in milliseconds.
    pub duration_ms: u64,
}

impl View for CheckResult {
    type V = CheckValues;

    open spec fn view(&self) -> CheckValues {
        CheckValues {
            name: self.name@,
            outcome: self.outcome,
            message: self.message@,
            duration_ms: self.duration_ms,
        }
    }
}

/// All checks, and what they say of the host.
#[derive(Debug)]
pub struct HealthReport {
    /// The checks, in their order.
    pub checks: Vec<CheckResult>,
    /// No check has failed.
    pub all_fatal_passed: bool,
    /// The bits of the codecs that can be encoded.
    pub supported_codecs: u32,
    /// Colours can go beyond the standard range.
    pub hdr_supported: bool,
    /// Buffers can be shared with the encoder.
    pub dma_buf_supported: bool,
    /// The name of the graphics device.
    pub gpu_name: String,
    /// How long it took, in nanoseconds.
    pub duration: u128,
}

/// All checks, as values.
#[verifier::ext_equal]
pub struct ReportValues {
    /// The checks, in their order.
    pub checks: Seq<CheckValues>,
    /// No check has failed.
    pub all_fatal_passed: bool,
    /// The bits of the codecs that can be encoded.
    pub supported_codecs: u32,
    /// Colours can go beyond the standard range.
    pub hdr_supported: bool,
    /// Buffers can be shared with the encoder.
    pub dma_buf_supported: bool,
    /// The name of the graphics device.
    pub gpu_name: Seq<char>,
    /// How long it took, in nanoseconds.
    pub duration: u128,
}

impl View for HealthReport {
    type V = ReportValues;

    open spec fn view(&self) -> ReportValues {
        ReportValues {
            checks: self.checks@.map_values(|c: CheckResult| c@),
            all_fatal_passed: self.all_fatal_passed,
            supported_codecs: self.supported_codecs,
            hdr_supported: self.hdr_supported,
            dma_buf_supported: self.dma_buf_supported,
            gpu_name: self.gpu_name@,
            duration: self.duration,
        }
    }
}

/// Nothing was checked yet.
pub open spec fn blank() -> ReportValues {
    ReportValues {
        checks: Seq::empty(),
        all_fatal_passed: true,
        supported_codecs: 0,
        hdr_supported: false,
        dma_buf_supported: false,
        gpu_name: Seq::empty(),
        duration: 0,
    }
}

impl ReportValues {
    /// The report with one more check.
    pub open spec fn with(
        self,
        name: Seq<char>,
        outcome: CheckOutcome,
        message: Seq<char>,
        duration_ms: u64,
    ) -> ReportValues {
        ReportValues {
            checks: self.checks.push(CheckValues { name, outcome, message, duration_ms }),
            all_fatal_passed: self.all_fatal_passed && outcome != CheckOutcome::Failed,
            ..self
        }
    }

    /// The report with one more check, which passed.
    pub open spec fn passed(self, name: Seq<char>, message: Seq<char>, ms: u64) -> ReportValues {
        self.with(name, CheckOutcome::Passed, message, ms)
    }

    /// The report with one more check, which failed.
    pub open spec fn failed(self, name: Seq<char>, message: Seq<char>, ms: u64) -> ReportValues {
        self.with(name, CheckOutcome::Failed, message, ms)
    }

    /// The report with one more check, which warns.
    pub open spec fn warned(self, name: Seq<char>, message: Seq<char>, ms: u64) -> ReportValues {
        self.with(name, CheckOutcome::Warning, message, ms)
    }

    /// It says that no check has failed exactly where none has.
    pub open spec fn is_consistent(self) -> bool {
        self.all_fatal_passed <==> forall|i: int|
            #![trigger self.checks[i]]
            0 <= i < self.checks.len() ==> self.checks[i].outcome != CheckOutcome::Failed
    }
}

/// Noting a check keeps the report consistent.
pub proof fn noting_keeps_consistent(
    r: ReportValues,
    name: Seq<char>,
    outcome: CheckOutcome,
    message: Seq<char>,
    ms: u64,
)
    requires
        r.is_consistent(),
    ensures
        r.with(name, outcome, message, ms).is_consistent(),
{
    let n = r.with(name, outcome, message, ms);
    if r.all_fatal_passed && outcome != CheckOutcome::Failed {
        assert forall|i: int| #![trigger n.checks[i]] 0 <= i < n.checks.len() implies n.checks[i].outcome
            != CheckOutcome::Failed by {
            if i < r.checks.len() {
                assert(n.checks[i] == r.checks[i]);
            }
        }
    } else if outcome == CheckOutcome::Failed {
        assert(n.checks[r.checks.len() as int].outcome == CheckOutcome::Failed);
    } else {
        let i = choose|i: int|
            #![trigger r.checks[i]]
            0 <= i < r.checks.len() && r.checks[i].outcome == CheckOutcome::Failed;
        assert(n.checks[i] == r.checks[i]);
    }
}

impl HealthReport {
    /// Nothing was checked yet.
    pub fn new() -> (r: Self)
        ensures
            r@ == blank(),
            r@.is_consistent(),
    {
        let r = HealthReport {
            checks: Vec::new(),
            all_fatal_passed: true,
            supported_codecs: 0,
            hdr_supported: false,
            dma_buf_supported: false,
            gpu_name: String::new(),
            duration: 0,
        };
        assert(r@.checks == Seq::<CheckValues>::empty());
        r
    }

    /// Notes a check; one that failed keeps the host from starting.
    pub fn add(&mut self, name: &str, outcome: CheckOutcome, message: String, duration_ms: u64)
        ensures
            final(self)@ == old(self)@.with(name@, outcome, message@, duration_ms),
    {
        let ghost before = self@.checks;
        if outcome == CheckOutcome::Failed {
            self.all_fatal_passed = false;
        }
        self.checks.push(CheckResult { name: name.to_owned(), outcome, message, duration_ms });
        assert(self@.checks == before.push(
            CheckValues { name: name@, outcome, message: message@, duration_ms },
        ));
    }

    /// Notes a check that passed.
    pub fn add_passed(&mut self, name: &str, message: String, duration_ms: u64)
        ensures
            final(self)@ == old(self)@.passed(name@, message@, duration_ms),
    {
        self.add(name, CheckOutcome::Passed, message, duration_ms);
    }

    /// Notes a check that failed.
    pub fn add_failed(&mut self, name: &str, message: String, duration_ms: u64)
        ensures
            final(self)@ == old(self)@.failed(name@, message@, duration_ms),
    {
        self.add(name, CheckOutcome::Failed, message, duration_ms);
    }

    /// Notes a check that warns.
    pub fn add_warn(&mut self, name: &str, message: String, duration_ms: u64)
        ensures
            final(self)@ == old(self)@.warned(name@, message@, duration_ms),
    {
        self.add(name, CheckOutcome::Warning, message, duration_ms);
    }
}

/// `after` is `before` with one more check, which has this name and ended so:
/// nothing else has changed, but that the host cannot start after a failure.
pub open spec fn notes(
    before: ReportValues,
    after: ReportValues,
    name: Seq<char>,
    outcome: CheckOutcome,
    duration_ms: u64,
) -> bool {
    &&& after.checks.len() == before.checks.len() + 1
    &&& forall|i: int| 0 <= i < before.checks.len() ==> #[trigger] after.checks[i] == before.checks[i]
    &&& after.checks[before.checks.len() as int].name == name
    &&& after.checks[before.checks.len() as int].outcome == outcome
    &&& after.checks[before.checks.len() as int].duration_ms == duration_ms
    &&& after.all_fatal_passed == (before.all_fatal_passed && outcome != CheckOutcome::Failed)
    &&& after.supported_codecs == before.supported_codecs
    &&& after.hdr_supported == before.hdr_supported
    &&& after.dma_buf_supported == before.dma_buf_supported
    &&& after.gpu_name == before.gpu_name
    &&& after.duration == before.duration
}

/// Noting a check adds it at the end, with all that is said of it, and keeps
/// everything that was there.
pub proof fn checks_are_noted(
    r: ReportValues,
    name: Seq<char>,
    outcome: CheckOutcome,
    message: Seq<char>,
    ms: u64,
)
    ensures
        notes(r, r.with(name, outcome, message, ms), name, outcome, ms),
        r.with(name, outcome, message, ms).checks[r.checks.len() as int].message == message,
        notes(r, r.passed(name, message, ms), name, CheckOutcome::Passed, ms),
        r.passed(name, message, ms).checks.last().message == message,
        notes(r, r.failed(name, message, ms), name, CheckOutcome::Failed, ms),
        r.failed(name, message, ms).checks.last().message == message,
        notes(r, r.warned(name, message, ms), name, CheckOutcome::Warning, ms),
        r.warned(name, message, ms).checks.last().message == message,
        blank().checks.len() == 0 && blank().all_fatal_passed && blank().supported_codecs == 0,
        !blank().hdr_supported && !blank().dma_buf_supported && blank().gpu_name.len() == 0,
{
}

} // verus!
