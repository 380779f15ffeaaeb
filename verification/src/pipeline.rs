//! The sequence of checks as a state machine.
//!
//! A [`Pipeline`] is told the outcome of each stage in turn. It says which
//! stage is to be made next, stops at the first blocking stage that reports
//! anything, and gives the verdict once nothing is left to do. It makes no
//! check itself: whoever drives it asks [`Pipeline::pending`], makes that
//! check, and hands the messages back.

use vstd::prelude::*;
use crate::stage::{stage_at, Severity, Stage, STAGE_COUNT, BLOCKING_COUNT};
use crate::text::{debug_quoted, debug_text, joined, optional_text};
use crate::verdict::Verdict;

verus! {

/// What one stage reported, as contracts see it.
pub struct Record {
    pub stage: Stage,
    pub messages: Seq<Seq<char>>,
}

/// The stages made so far, oldest first, each with what it reported.
pub type Trace = Seq<Record>;

/// What one stage reported. The messages are kept as they came and in the
/// order in which they came.
#[derive(Debug, PartialEq, Eq)]
pub struct StageReport {
    pub stage: Stage,
    pub messages: Vec<String>,
}

impl View for StageReport {
    type V = Record;

    open spec fn view(&self) -> Record {
        Record { stage: self.stage, messages: self.messages.deep_view() }
    }
}

/// A stage that reported nothing.
pub open spec fn clean(record: Record) -> bool {
    record.messages.len() == 0
}

/// The run was stopped: the stage made last is a blocking one and reported
/// something.
pub open spec fn halted(trace: Trace) -> bool {
    trace.len() > 0 && trace.last().stage.blocking() && !clean(trace.last())
}

/// The traces a run can pass through. Stages are made in their order, one
/// after another from the first; a blocking stage that reports anything is
/// the last one made; a failure to read the dataset is one message.
pub open spec fn coherent(trace: Trace) -> bool {
    &&& trace.len() <= STAGE_COUNT
    &&& forall|i: int| 0 <= i < trace.len() ==> (#[trigger] trace[i]).stage == stage_at(i)
    &&& forall|i: int|
        0 <= i < trace.len() - 1 && i < BLOCKING_COUNT ==> clean(#[trigger] trace[i])
    &&& trace.len() > 0 ==> trace[0].messages.len() <= 1
}

/// The stage to make next, or `None` when the run is over.
pub open spec fn pending_stage(trace: Trace) -> Option<Stage> {
    if halted(trace) || trace.len() >= STAGE_COUNT {
        None
    } else {
        Some(stage_at(trace.len() as int))
    }
}

/// The verdict of a run that is over, `None` while a stage is pending.
pub open spec fn verdict_of(trace: Trace) -> Option<Verdict> {
    if halted(trace) {
        Some(Verdict::Invalid)
    } else if trace.len() >= STAGE_COUNT {
        if clean(trace[5]) && clean(trace[6]) {
            Some(Verdict::Valid)
        } else {
            Some(Verdict::ValidWithWarnings)
        }
    } else {
        None
    }
}

/// What the first stage reports: nothing when the dataset was read, and one
/// message that quotes the reader's complaint when it was not.
pub open spec fn syntax_messages(failure: Option<Seq<char>>) -> Seq<Seq<char>> {
    match failure {
        None => Seq::empty(),
        Some(complaint) => seq!["Invalid JSON file: "@ + debug_text(complaint)],
    }
}

/// The trace after the dataset was read, or could not be: the first stage
/// is recorded if the run has not begun, and nothing changes if it has.
pub open spec fn after_parse(trace: Trace, failure: Option<Seq<char>>) -> Trace {
    if trace.len() == 0 {
        trace.push(Record { stage: Stage::JsonSyntax, messages: syntax_messages(failure) })
    } else {
        trace
    }
}

/// The trace after a check was made: its messages are recorded under the
/// pending stage if there is one past the first, and dropped otherwise.
pub open spec fn after_check(trace: Trace, messages: Seq<Seq<char>>) -> Trace {
    match pending_stage(trace) {
        Some(stage) if trace.len() > 0 => trace.push(Record { stage, messages }),
        _ => trace,
    }
}

/// The state of a run: the stages made so far and what each reported.
#[derive(Debug)]
pub struct Pipeline {
    reports: Vec<StageReport>,
}

impl View for Pipeline {
    type V = Trace;

    closed spec fn view(&self) -> Trace {
        Seq::new(self.reports@.len(), |i: int| self.reports@[i]@)
    }
}

impl Pipeline {
    #[verifier::type_invariant]
    spec fn well_formed(self) -> bool {
        coherent(self@)
    }

    /// Adds the report of one more stage.
    fn append(&mut self, report: StageReport)
        requires
            coherent(old(self)@.push(report@)),
        ensures
            final(self)@ == old(self)@.push(report@),
    {
        let ghost before = self@;
        let mut reports: Vec<StageReport> = Vec::new();
        std::mem::swap(&mut self.reports, &mut reports);
        reports.push(report);
        assert(Seq::new(reports@.len(), |i: int| reports@[i]@) =~= before.push(report@));
        std::mem::swap(&mut self.reports, &mut reports);
    }

    /// A run in which no stage has been made.
    pub fn new() -> (pipeline: Pipeline)
        ensures
            pipeline@ == Seq::<Record>::empty(),
            coherent(pipeline@),
    {
        let pipeline = Pipeline { reports: Vec::new() };
        assert(pipeline@ =~= Seq::<Record>::empty());
        pipeline
    }

    /// The stages made so far, oldest first.
    pub fn reports(&self) -> (reports: &Vec<StageReport>)
        ensures
            reports@.len() == self@.len(),
            forall|i: int| 0 <= i < reports@.len() ==> (#[trigger] reports@[i])@ == self@[i],
            coherent(self@),
    {
        proof {
            use_type_invariant(self);
        }
        &self.reports
    }

    /// The stage to make next, or `None` when the run is over.
    pub fn pending(&self) -> (stage: Option<Stage>)
        ensures
            stage == pending_stage(self@),
            coherent(self@),
    {
        proof {
            use_type_invariant(self);
        }
        let made = self.reports.len();
        if made == 0 {
            return Some(Stage::JsonSyntax);
        }
        let last = &self.reports[made - 1];
        assert(last@ == self@.last());
        let stopped = match last.stage.severity() {
            Severity::Error => last.messages.len() > 0,
            Severity::Warning => false,
        };
        if stopped {
            None
        } else {
            Stage::at(made)
        }
    }

    /// The verdict, once the run is over; `None` while a stage is pending.
    pub fn verdict(&self) -> (verdict: Option<Verdict>)
        ensures
            verdict == verdict_of(self@),
            verdict is None <==> pending_stage(self@) is Some,
            coherent(self@),
    {
        proof {
            use_type_invariant(self);
        }
        let made = self.reports.len();
        if made == 0 {
            return None;
        }
        let last = &self.reports[made - 1];
        assert(last@ == self@.last());
        let stopped = match last.stage.severity() {
            Severity::Error => last.messages.len() > 0,
            Severity::Warning => false,
        };
        if stopped {
            Some(Verdict::Invalid)
        } else if made >= STAGE_COUNT {
            assert(self.reports@[5]@ == self@[5]);
            assert(self.reports@[6]@ == self@[6]);
            if self.reports[5].messages.len() == 0 && self.reports[6].messages.len() == 0 {
                Some(Verdict::Valid)
            } else {
                Some(Verdict::ValidWithWarnings)
            }
        } else {
            None
        }
    }

    /// Records the outcome of reading the dataset: `None` when it was read,
    /// the reader's complaint when it was not. Accepted only as the first
    /// stage of a run; otherwise the run is left as it was.
    pub fn parsed(&mut self, failure: Option<String>) -> (accepted: bool)
        ensures
            accepted == (old(self)@.len() == 0),
            final(self)@ == after_parse(old(self)@, optional_text(failure)),
            coherent(final(self)@),
    {
        proof {
            use_type_invariant(&*self);
        }
        if self.reports.len() != 0 {
            return false;
        }
        let mut messages: Vec<String> = Vec::new();
        match failure {
            None => {},
            Some(complaint) => {
                let quoted = debug_quoted(complaint.as_str());
                messages.push(joined("Invalid JSON file: ", quoted.as_str()));
            },
        }
        assert(messages.deep_view() =~= syntax_messages(optional_text(failure)));
        self.append(StageReport { stage: Stage::JsonSyntax, messages });
        true
    }

    /// Records what the pending stage reported. Accepted while a stage other
    /// than the first is pending; otherwise the run is left as it was.
    pub fn checked(&mut self, messages: Vec<String>) -> (accepted: bool)
        ensures
            accepted == (pending_stage(old(self)@) is Some && old(self)@.len() > 0),
            final(self)@ == after_check(old(self)@, messages.deep_view()),
            coherent(final(self)@),
    {
        proof {
            use_type_invariant(&*self);
        }
        if self.reports.len() == 0 {
            return false;
        }
        match self.pending() {
            None => false,
            Some(stage) => {
                self.append(StageReport { stage, messages });
                true
            },
        }
    }
}

} // verus!
