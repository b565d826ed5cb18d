//! What holds of every orchestration, whatever the host reports.
use vstd::prelude::*;
use crate::messages::reason_text;
use crate::model::{
    ActionView, EventView, FailureCategory, OutcomeView, RequestView, SentinelCheckView, Stage,
    StepView, ToolCommand, ToolResultView, ToolStage,
};
use crate::orchestrator::{
    answers, finishing, first_step, next_step, tool_step, watch_directives,
};
use crate::paths::{
    accepts_subdirectory, has_parent_component, has_wildcard, sentinel_path, work_dir_path,
    ValidationPolicy,
};

verus! {

/// The stage at which the orchestration stands before the host reports
/// `events[i]`. It starts idle; an event that answers the stage moves it on,
/// any other event leaves it where it is.
pub open spec fn stage_before(request: RequestView, events: Seq<EventView>, i: int) -> Stage
    decreases i,
{
    if i <= 0 {
        Stage::Idle
    } else {
        let stage = stage_before(request, events, i - 1);
        if answers(stage, events[i - 1]) {
            next_step(request, stage, events[i - 1]).next
        } else {
            stage
        }
    }
}

/// `events[i]` answers the stage at which it arrives, so that a step is
/// taken on it.
pub open spec fn taken(request: RequestView, events: Seq<EventView>, i: int) -> bool {
    0 <= i < events.len() && answers(stage_before(request, events, i), events[i])
}

/// The step taken on `events[i]`.
pub open spec fn step_on(request: RequestView, events: Seq<EventView>, i: int) -> StepView
    recommends
        taken(request, events, i),
{
    next_step(request, stage_before(request, events, i), events[i])
}

/// The directive lines emitted on the first `n` events, in order.
pub open spec fn directives_until(request: RequestView, events: Seq<EventView>, n: int) -> Seq<
    Seq<char>,
>
    decreases n,
{
    if n <= 0 {
        Seq::empty()
    } else if taken(request, events, n - 1) {
        directives_until(request, events, n - 1) + step_on(request, events, n - 1).directives
    } else {
        directives_until(request, events, n - 1)
    }
}

/// `action` has the host run the package manager with `command`.
pub open spec fn runs(action: ActionView, command: ToolCommand) -> bool {
    match action {
        ActionView::RunTool { command: issued, work_dir: _ } => issued == command,
        _ => false,
    }
}

/// `part` occurs in `text`.
pub open spec fn contains_text(text: Seq<char>, part: Seq<char>) -> bool {
    exists|i: int|
        0 <= i && i + part.len() <= text.len() && #[trigger] text.subrange(i, i + part.len())
            == part
}

/// The host's reports of a run in which the package manager ran to its end
/// and succeeded every time, `outputs` being what it wrote each time.
pub open spec fn tool_successes(outputs: Seq<Seq<char>>) -> Seq<EventView> {
    Seq::new(
        outputs.len(),
        |i: int|
            EventView::Tool(
                ToolResultView::Exited { succeeded: true, captured_output: outputs[i] },
            ),
    )
}

/// Every report on the sentinel artifact among `events` finds it present.
pub open spec fn sentinel_always_present(events: Seq<EventView>) -> bool {
    forall|i: int|
        0 <= i < events.len() && (#[trigger] events[i]) is Sentinel ==> events[i]
            == EventView::Sentinel(SentinelCheckView::Present)
}

/// Under strict validation a subdirectory with a parent-directory component
/// or a wildcard ends the orchestration with a path-invalid failure on its
/// first step: whatever the host reports, every step taken is that one, so
/// the host is never asked to touch the filesystem or to run a process.
pub proof fn law_unsafe_subdirectory_fails_before_outside_work(
    request: RequestView,
    events: Seq<EventView>,
    i: int,
)
    requires
        request.validation == ValidationPolicy::Strict,
        has_parent_component(request.subdirectory) || has_wildcard(request.subdirectory),
    ensures
        first_step(request) == finishing(
            Seq::empty(),
            OutcomeView::Failure {
                category: FailureCategory::PathInvalid,
                reason: reason_text(FailureCategory::PathInvalid, request.subdirectory),
            },
        ),
        taken(request, events, i) ==> step_on(request, events, i) == first_step(request),
{
    lemma_unsafe_stays_idle_or_finished(request, events, i);
}

/// An orchestration whose subdirectory is not accepted never leaves the idle
/// and the finished stage.
proof fn lemma_unsafe_stays_idle_or_finished(request: RequestView, events: Seq<EventView>, i: int)
    requires
        !accepts_subdirectory(request.validation, request.subdirectory),
    ensures
        stage_before(request, events, i) == Stage::Idle || stage_before(request, events, i)
            == Stage::Finished,
    decreases i,
{
    if i > 0 {
        lemma_unsafe_stays_idle_or_finished(request, events, i - 1);
    }
}

/// Where every report on the sentinel artifact finds it present, no step
/// has the host run the install command.
pub proof fn law_install_skipped_when_sentinel_present(
    request: RequestView,
    events: Seq<EventView>,
    i: int,
)
    requires
        sentinel_always_present(events),
        taken(request, events, i),
    ensures
        !runs(step_on(request, events, i).action, ToolCommand::Install),
{
    lemma_present_keeps_off_install(request, events, i);
}

/// While the sentinel artifact is reported present, the orchestration never
/// stands at the probe before the install nor at the install.
proof fn lemma_present_keeps_off_install(request: RequestView, events: Seq<EventView>, i: int)
    requires
        sentinel_always_present(events),
        i <= events.len(),
    ensures
        stage_before(request, events, i) != Stage::Tool(ToolStage::ProbeBeforeInstall),
        stage_before(request, events, i) != Stage::Tool(ToolStage::Install),
    decreases i,
{
    if i > 0 {
        lemma_present_keeps_off_install(request, events, i - 1);
        let _ = events[i - 1];
    }
}

/// A first build of an accepted subdirectory that succeeds throughout has the host test for the sentinel
/// artifact, then run the probe, the install, the probe again and the build,
/// in that order, and ends in success.
pub proof fn law_first_build_order(request: RequestView, outputs: Seq<Seq<char>>)
    requires
        accepts_subdirectory(request.validation, request.subdirectory),
        outputs.len() == 4,
    ensures
        ({
            let events = seq![EventView::Start, EventView::Sentinel(SentinelCheckView::Absent)]
                + tool_successes(outputs);
            let work_dir = work_dir_path(request.project_root, request.subdirectory);
            &&& forall|i: int| 0 <= i < 6 ==> taken(request, events, i)
            &&& step_on(request, events, 0).action == ActionView::CheckSentinel {
                path: sentinel_path(request.project_root, request.subdirectory),
            }
            &&& step_on(request, events, 1).action == ActionView::RunTool {
                command: ToolCommand::Probe,
                work_dir,
            }
            &&& step_on(request, events, 2).action == ActionView::RunTool {
                command: ToolCommand::Install,
                work_dir,
            }
            &&& step_on(request, events, 3).action == ActionView::RunTool {
                command: ToolCommand::Probe,
                work_dir,
            }
            &&& step_on(request, events, 4).action == ActionView::RunTool {
                command: ToolCommand::Build,
                work_dir,
            }
            &&& step_on(request, events, 5).action == ActionView::Finish(OutcomeView::Success)
        }),
{
    reveal_with_fuel(stage_before, 7);
}

/// A build command that ran and reported failure ends the orchestration with
/// a build-failed failure whose reason holds the command's captured output,
/// whatever came before.
pub proof fn law_build_failure_reports_output(
    request: RequestView,
    events: Seq<EventView>,
    i: int,
    captured_output: Seq<char>,
)
    requires
        0 <= i < events.len(),
        stage_before(request, events, i) == Stage::Tool(ToolStage::Build),
        events[i] == EventView::Tool(
            ToolResultView::Exited { succeeded: false, captured_output },
        ),
    ensures
        taken(request, events, i),
        step_on(request, events, i).next == Stage::Finished,
        step_on(request, events, i).action == ActionView::Finish(
            OutcomeView::Failure {
                category: FailureCategory::BuildFailed,
                reason: reason_text(FailureCategory::BuildFailed, captured_output),
            },
        ),
        contains_text(reason_text(FailureCategory::BuildFailed, captured_output), captured_output),
{
    let reason = reason_text(FailureCategory::BuildFailed, captured_output);
    let start = reason.len() - captured_output.len();
    assert(reason.subrange(start, start + captured_output.len()) =~= captured_output);
}

/// With diagnostics suppressed no step carries a diagnostic line, on success
/// or on failure.
pub proof fn law_silent_emits_no_diagnostics(request: RequestView, stage: Stage, event: EventView)
    requires
        request.silent,
    ensures
        next_step(request, stage, event).diagnostics.len() == 0,
{
}

/// With diagnostics enabled every invocation of the package manager yields
/// at least one diagnostic line: where the process could not be started,
/// where it reported failure and where it succeeded.
pub proof fn law_loud_reports_every_tool_stage(
    request: RequestView,
    stage: ToolStage,
    result: ToolResultView,
)
    requires
        !request.silent,
    ensures
        tool_step(request, stage, result).diagnostics.len() >= 1,
{
}

/// With an accepted subdirectory, the sentinel artifact present and a
/// package manager that always succeeds, an orchestration runs the probe and
/// the build and ends in success; two such orchestrations of one request emit the same directive
/// lines, whatever the package manager wrote.
pub proof fn law_incremental_build_repeats(
    request: RequestView,
    first_outputs: Seq<Seq<char>>,
    second_outputs: Seq<Seq<char>>,
)
    requires
        accepts_subdirectory(request.validation, request.subdirectory),
        first_outputs.len() == 2,
        second_outputs.len() == 2,
    ensures
        ({
            let heading = seq![EventView::Start, EventView::Sentinel(SentinelCheckView::Present)];
            let first = heading + tool_successes(first_outputs);
            let second = heading + tool_successes(second_outputs);
            &&& runs(step_on(request, first, 1).action, ToolCommand::Probe)
            &&& runs(step_on(request, first, 2).action, ToolCommand::Build)
            &&& step_on(request, first, 3).action == ActionView::Finish(OutcomeView::Success)
            &&& step_on(request, second, 3).action == ActionView::Finish(OutcomeView::Success)
            &&& directives_until(request, first, 4) == watch_directives(request)
            &&& directives_until(request, second, 4) == directives_until(request, first, 4)
        }),
{
    reveal_with_fuel(stage_before, 5);
    reveal_with_fuel(directives_until, 5);
    let heading = seq![EventView::Start, EventView::Sentinel(SentinelCheckView::Present)];
    let first = heading + tool_successes(first_outputs);
    let second = heading + tool_successes(second_outputs);
    assert(directives_until(request, first, 4) =~= watch_directives(request));
    assert(directives_until(request, second, 4) =~= watch_directives(request));
}

} // verus!
