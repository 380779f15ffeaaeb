//! What holds of every run, proved from the definitions in
//! [`crate::pipeline`], [`crate::acquisition`] and [`crate::extension`].

use vstd::prelude::*;
use crate::acquisition::{
    after_failure, after_status, after_supply, progress_of, request_for, AcquisitionView,
    Progress, Source,
};
use crate::extension::{declares, Declared};
use crate::json::Json;
use crate::pipeline::{
    after_check, after_parse, clean, coherent, halted, pending_stage, verdict_of, Trace,
};
use crate::stage::{stage_at, Stage, BLOCKING_COUNT, STAGE_COUNT};
use crate::verdict::Verdict;

verus! {

/// Every blocking stage that was made reported nothing.
pub open spec fn blocking_stages_clean(trace: Trace) -> bool {
    forall|i: int| 0 <= i < trace.len() && i < BLOCKING_COUNT ==> clean(#[trigger] trace[i])
}

/// Every stage of the trace reported what `answers` gives for it.
pub open spec fn answered_by(trace: Trace, answers: spec_fn(Stage) -> Seq<Seq<char>>) -> bool {
    forall|i: int| 0 <= i < trace.len() ==> (#[trigger] trace[i]).messages == answers(trace[i].stage)
}

/// A dataset that cannot be read ends the run at its first stage: that stage
/// reports exactly one message, no later stage is made or pending, and the
/// verdict is `Invalid`.
pub proof fn law_unreadable_dataset_ends_run(trace: Trace)
    requires
        coherent(trace),
        trace.len() > 0,
        !clean(trace[0]),
    ensures
        trace.len() == 1,
        trace[0].stage == Stage::JsonSyntax,
        trace[0].messages.len() == 1,
        pending_stage(trace) is None,
        verdict_of(trace) == Some(Verdict::Invalid),
{
    if trace.len() > 1 {
        assert(clean(trace[0]));
    }
}

/// The run stops at the first blocking stage that reports anything: such a
/// stage is the last one made, and nothing is pending after it.
pub proof fn law_first_error_stops(trace: Trace, i: int)
    requires
        coherent(trace),
        0 <= i < trace.len(),
        i < BLOCKING_COUNT,
        !clean(trace[i]),
    ensures
        i == trace.len() - 1,
        pending_stage(trace) is None,
        verdict_of(trace) == Some(Verdict::Invalid),
{
    if i < trace.len() - 1 {
        assert(clean(trace[i]));
    }
    assert(trace.last() == trace[i]);
    assert(trace[i].stage == stage_at(i));
}

/// Once the five blocking stages have passed with no message, the two
/// warning stages are both made, each exactly once and in their order,
/// whatever either of them reports.
pub proof fn law_warning_stages_both_made(trace: Trace)
    requires
        coherent(trace),
        trace.len() >= BLOCKING_COUNT,
        blocking_stages_clean(trace),
    ensures
        trace.len() == 5 ==> pending_stage(trace) == Some(Stage::DuplicateVertices),
        trace.len() == 6 ==> pending_stage(trace) == Some(Stage::ExtraRootProperties),
        pending_stage(trace) is None ==> trace.len() == STAGE_COUNT,
        forall|i: int|
            0 <= i < trace.len() ==> ((#[trigger] trace[i]).stage == Stage::DuplicateVertices
                <==> i == 5),
        forall|i: int|
            0 <= i < trace.len() ==> ((#[trigger] trace[i]).stage == Stage::ExtraRootProperties
                <==> i == 6),
{
    let last = trace.len() - 1;
    if trace.len() == 5 {
        assert(clean(trace[last]));
    }
    assert(trace[last].stage == stage_at(last));
    assert forall|i: int| 0 <= i < trace.len() implies ((#[trigger] trace[i]).stage
        == Stage::DuplicateVertices <==> i == 5) by {
        assert(trace[i].stage == stage_at(i));
    }
    assert forall|i: int| 0 <= i < trace.len() implies ((#[trigger] trace[i]).stage
        == Stage::ExtraRootProperties <==> i == 6) by {
        assert(trace[i].stage == stage_at(i));
    }
}

/// The verdict of a run that is over. It is `Invalid` exactly when one of
/// the blocking stages reported something; `ValidWithWarnings` exactly when
/// none of them did and one of the two warning stages did; `Valid` exactly
/// when all seven stages were made and none reported anything.
pub proof fn law_verdict(trace: Trace)
    requires
        coherent(trace),
        pending_stage(trace) is None,
    ensures
        verdict_of(trace) is Some,
        verdict_of(trace) == Some(Verdict::Invalid) <==> !blocking_stages_clean(trace),
        verdict_of(trace) == Some(Verdict::ValidWithWarnings) <==> blocking_stages_clean(trace)
            && (!clean(trace[5]) || !clean(trace[6])),
        verdict_of(trace) == Some(Verdict::Valid) <==> trace.len() == STAGE_COUNT && forall|
            i: int,
        |
            0 <= i < STAGE_COUNT ==> clean(#[trigger] trace[i]),
        verdict_of(trace) != Some(Verdict::Invalid) ==> trace.len() == STAGE_COUNT,
{
    let last = trace.len() - 1;
    if halted(trace) {
        assert(trace[last].stage == stage_at(last));
        assert(!clean(trace[last]));
    } else {
        assert(trace.len() == STAGE_COUNT);
        assert(trace[last].stage == stage_at(last));
        assert forall|i: int| 0 <= i < trace.len() && i < BLOCKING_COUNT implies clean(
            #[trigger] trace[i],
        ) by {}
        if clean(trace[5]) && clean(trace[6]) {
            assert forall|i: int| 0 <= i < STAGE_COUNT implies clean(#[trigger] trace[i]) by {}
        }
    }
}

/// Two runs that are over and in which every stage reported what the same
/// validator gives for it made the same stages, hold the same messages in
/// the same order, and have the same verdict.
pub proof fn law_rerun_agrees(first: Trace, second: Trace, answers: spec_fn(Stage) -> Seq<Seq<char>>)
    requires
        coherent(first),
        coherent(second),
        pending_stage(first) is None,
        pending_stage(second) is None,
        answered_by(first, answers),
        answered_by(second, answers),
    ensures
        first == second,
        verdict_of(first) == verdict_of(second),
{
    assert forall|i: int| 0 <= i < first.len() && i < second.len() implies first[i]
        == second[i] by {
        assert(first[i].stage == stage_at(i));
        assert(second[i].stage == stage_at(i));
        assert(first[i].messages == answers(first[i].stage));
        assert(second[i].messages == answers(second[i].stage));
    }
    if first.len() < second.len() {
        let last = first.len() - 1;
        assert(first.len() > 0);
        assert(halted(first));
        assert(first[last] == second[last]);
        assert(first[last].stage == stage_at(last));
        assert(clean(second[last]));
    }
    if second.len() < first.len() {
        let last = second.len() - 1;
        assert(second.len() > 0);
        assert(halted(second));
        assert(first[last] == second[last]);
        assert(second[last].stage == stage_at(last));
        assert(clean(first[last]));
    }
    assert(first =~= second);
}

/// Stages are reported one by one in their fixed order: the report at
/// position `i` is that of the stage with rank `i`, so no stage is reported
/// twice and none out of turn.
pub proof fn law_stage_order(trace: Trace, i: int, j: int)
    requires
        coherent(trace),
        0 <= i < trace.len(),
        0 <= j < trace.len(),
    ensures
        trace[i].stage.rank() == i,
        trace[i].stage == trace[j].stage <==> i == j,
{
    assert(trace[i].stage == stage_at(i));
    assert(trace[j].stage == stage_at(j));
}

/// Whatever is recorded, the trace stays one that a run can pass through.
pub proof fn law_recording_keeps_coherence(
    trace: Trace,
    failure: Option<Seq<char>>,
    messages: Seq<Seq<char>>,
)
    requires
        coherent(trace),
    ensures
        coherent(after_parse(trace, failure)),
        coherent(after_check(trace, messages)),
{
    if trace.len() > 0 && pending_stage(trace) is Some {
        let last = trace.len() - 1;
        assert(trace[last].stage == stage_at(last));
        let next = after_check(trace, messages);
        assert forall|i: int| 0 <= i < next.len() - 1 && i < BLOCKING_COUNT implies clean(
            #[trigger] next[i],
        ) by {
            assert(next[i] == trace[i]);
        }
    }
}

/// A run that is over takes nothing more: what is recorded after its
/// verdict is dropped, and the verdict stands.
pub proof fn law_verdict_is_final(
    trace: Trace,
    failure: Option<Seq<char>>,
    messages: Seq<Seq<char>>,
)
    requires
        coherent(trace),
        verdict_of(trace) is Some,
    ensures
        after_parse(trace, failure) == trace,
        after_check(trace, messages) == trace,
{
}

/// Every source can be asked for: each is a file, or an Extension whose URL
/// is one.
pub open spec fn all_askable(sources: Seq<Source>) -> bool {
    forall|i: int| 0 <= i < sources.len() ==> request_for(#[trigger] sources[i]) is Ok
}

/// The state after the texts were handed in one after another.
pub open spec fn after_supplies(state: AcquisitionView, texts: Seq<Seq<char>>) -> AcquisitionView
    decreases texts.len(),
{
    if texts.len() == 0 {
        state
    } else {
        after_supplies(after_supply(state, texts[0]), texts.drop_first())
    }
}

/// When every source can be asked for and gives its text, the acquisition
/// ends with exactly these texts, in the order of the sources.
pub proof fn law_texts_follow_sources(state: AcquisitionView, texts: Seq<Seq<char>>)
    requires
        state.fault is None,
        all_askable(state.sources),
        state.texts.len() + texts.len() == state.sources.len(),
    ensures
        after_supplies(state, texts).texts == state.texts + texts,
        after_supplies(state, texts).sources == state.sources,
        progress_of(after_supplies(state, texts)) == Progress::Done,
    decreases texts.len(),
{
    if texts.len() == 0 {
        assert(state.texts + texts =~= state.texts);
    } else {
        assert(request_for(state.sources[state.texts.len() as int]) is Ok);
        let next = after_supply(state, texts[0]);
        law_texts_follow_sources(next, texts.drop_first());
        assert(next.texts + texts.drop_first() =~= state.texts + texts);
    }
}

/// The first failure is final: an acquisition that has failed takes no text
/// and no further news, and so never comes to be done.
pub proof fn law_failure_is_final(
    state: AcquisitionView,
    text: Seq<char>,
    reason: String,
    status: u16,
)
    requires
        progress_of(state) is Failed,
    ensures
        after_supply(state, text) == state,
        after_failure(state, reason) == state,
        after_status(state, status) == state,
{
}

/// A dataset whose root has no member `extensions` declares none, and an
/// acquisition with no source is done at once: there is nothing to fetch,
/// and that is no failure.
pub proof fn law_no_extensions_is_no_failure(
    root: Json,
    declared: Declared,
    state: AcquisitionView,
)
    requires
        root.members() is Some,
        root.member("extensions"@) is None,
        declares(root, declared),
        state.sources.len() == 0,
        state.fault is None,
    ensures
        declared is Absent,
        progress_of(state) == Progress::Done,
{
}

} // verus!
