//! The orchestration itself: from the stage it stands at and what the host
//! reports, to the next stage, the lines to print and the host's next action.
use vstd::prelude::*;
use vstd::string::*;
use crate::messages::{failure, push_warning, reason_text, warnings, watch_directive, watch_line};
use crate::model::{
    Action, ActionView, BuildOutcome, BuildRequest, Event, EventView, ExternalCommandResult,
    FailureCategory, OutcomeView, RequestView, SentinelCheck, SentinelCheckView, Stage, Step,
    StepView, ToolCommand, ToolResult, ToolResultView, ToolStage,
};
use crate::paths::{
    accepts_subdirectory, manifest_path, resolve_paths, sentinel_path, source_dir_path,
    validate_subdirectory, work_dir_path, ResolvedPaths,
};

verus! {

/// The command that the package manager runs at `stage`.
pub open spec fn command_at(stage: ToolStage) -> ToolCommand {
    match stage {
        ToolStage::ProbeBeforeInstall => ToolCommand::Probe,
        ToolStage::Install => ToolCommand::Install,
        ToolStage::ProbeBeforeBuild => ToolCommand::Probe,
        ToolStage::Build => ToolCommand::Build,
    }
}

/// The tool stage that follows a success at `stage`, if any: after the build
/// there is none.
pub open spec fn stage_after(stage: ToolStage) -> Option<ToolStage> {
    match stage {
        ToolStage::ProbeBeforeInstall => Some(ToolStage::Install),
        ToolStage::Install => Some(ToolStage::ProbeBeforeBuild),
        ToolStage::ProbeBeforeBuild => Some(ToolStage::Build),
        ToolStage::Build => None,
    }
}

/// The category of the failure when the process of `stage` cannot be
/// started.
pub open spec fn spawn_failure_category(stage: ToolStage) -> FailureCategory {
    match command_at(stage) {
        ToolCommand::Probe => FailureCategory::ToolNotFound,
        ToolCommand::Install => FailureCategory::ToolError,
        ToolCommand::Build => FailureCategory::ToolError,
    }
}

/// The category of the failure when the process of `stage` reports failure.
pub open spec fn exit_failure_category(stage: ToolStage) -> FailureCategory {
    match command_at(stage) {
        ToolCommand::Probe => FailureCategory::ToolUnreachable,
        ToolCommand::Install => FailureCategory::InstallFailed,
        ToolCommand::Build => FailureCategory::BuildFailed,
    }
}

/// The progress text after a success at `stage`.
pub open spec fn completed_text(stage: ToolStage) -> Seq<char> {
    match command_at(stage) {
        ToolCommand::Probe => "NPM tool located for frontend build."@,
        ToolCommand::Install => "NPM dependencies installed into **node_modules**"@,
        ToolCommand::Build => "Frontend build completed successfully!"@,
    }
}

/// The failure text when the process of `stage` could not be started.
pub open spec fn not_started_text(stage: ToolStage) -> Seq<char> {
    match command_at(stage) {
        ToolCommand::Probe => "Unable to start npm, cannot complete build."@,
        ToolCommand::Install => "Unable to start npm install."@,
        ToolCommand::Build => "Unable to start npm run build."@,
    }
}

/// The first failure text after a reported failure at `stage`.
pub open spec fn failed_text(stage: ToolStage) -> Seq<char> {
    match command_at(stage) {
        ToolCommand::Probe => "Unable to locate npm, cannot complete build."@,
        ToolCommand::Install => "NPM build failed."@,
        ToolCommand::Build => "NPM build failed."@,
    }
}

/// The second failure text after a reported failure at `stage`: what the
/// process wrote to its standard output, behind a short heading.
pub open spec fn report_text(stage: ToolStage, captured_output: Seq<char>) -> Seq<char> {
    match command_at(stage) {
        ToolCommand::Probe => "Failed with: "@ + captured_output,
        ToolCommand::Install => "NPM build reported:"@ + captured_output,
        ToolCommand::Build => "NPM build reported:"@ + captured_output,
    }
}

/// The step that ends the orchestration with `outcome`.
pub open spec fn finishing(diagnostics: Seq<Seq<char>>, outcome: OutcomeView) -> StepView {
    StepView {
        next: Stage::Finished,
        directives: Seq::empty(),
        diagnostics,
        action: ActionView::Finish(outcome),
    }
}

/// The step that has the host run the package manager at `stage`.
pub open spec fn running(
    request: RequestView,
    stage: ToolStage,
    directives: Seq<Seq<char>>,
    diagnostics: Seq<Seq<char>>,
) -> StepView {
    StepView {
        next: Stage::Tool(stage),
        directives,
        diagnostics,
        action: ActionView::RunTool {
            command: command_at(stage),
            work_dir: work_dir_path(request.project_root, request.subdirectory),
        },
    }
}

/// The first step. A subdirectory that the request's validation policy does
/// not accept ends the orchestration at once; otherwise the host is to test
/// for the sentinel artifact.
pub open spec fn first_step(request: RequestView) -> StepView {
    if accepts_subdirectory(request.validation, request.subdirectory) {
        StepView {
            next: Stage::CheckingSentinel,
            directives: Seq::empty(),
            diagnostics: Seq::empty(),
            action: ActionView::CheckSentinel {
                path: sentinel_path(request.project_root, request.subdirectory),
            },
        }
    } else {
        finishing(
            Seq::empty(),
            OutcomeView::Failure {
                category: FailureCategory::PathInvalid,
                reason: reason_text(FailureCategory::PathInvalid, request.subdirectory),
            },
        )
    }
}

/// The two lines that narrow the host's rebuild triggers to the frontend's
/// source directory and manifest file.
pub open spec fn watch_directives(request: RequestView) -> Seq<Seq<char>> {
    seq![
        watch_line(source_dir_path(request.project_root, request.subdirectory)),
        watch_line(manifest_path(request.project_root, request.subdirectory)),
    ]
}

/// The step after the test for the sentinel artifact. Where the artifact is
/// present the rebuild triggers are narrowed and the install is skipped;
/// where it is absent the probe before the install comes next; where the
/// test failed the orchestration ends with the error's text as the reason.
pub open spec fn sentinel_step(request: RequestView, check: SentinelCheckView) -> StepView {
    match check {
        SentinelCheckView::Present => running(
            request,
            ToolStage::ProbeBeforeBuild,
            watch_directives(request),
            Seq::empty(),
        ),
        SentinelCheckView::Absent => running(
            request,
            ToolStage::ProbeBeforeInstall,
            Seq::empty(),
            Seq::empty(),
        ),
        SentinelCheckView::Failed(error) => finishing(
            Seq::empty(),
            OutcomeView::Failure {
                category: FailureCategory::FilesystemError,
                reason: reason_text(FailureCategory::FilesystemError, error),
            },
        ),
    }
}

/// The step after the package manager was invoked at `stage`. Whatever
/// became of the invocation, its diagnostic lines tell of it: a process that
/// could not be started, one that reported failure and one that succeeded
/// each give at least one line unless diagnostics are suppressed.
pub open spec fn tool_step(request: RequestView, stage: ToolStage, result: ToolResultView) -> StepView {
    match result {
        ToolResultView::NotSpawned => finishing(
            warnings(request.silent, seq![not_started_text(stage)]),
            OutcomeView::Failure {
                category: spawn_failure_category(stage),
                reason: reason_text(spawn_failure_category(stage), Seq::empty()),
            },
        ),
        ToolResultView::Exited { succeeded, captured_output } => if succeeded {
            let diagnostics = warnings(request.silent, seq![completed_text(stage)]);
            match stage_after(stage) {
                Some(following) => running(request, following, Seq::empty(), diagnostics),
                None => finishing(diagnostics, OutcomeView::Success),
            }
        } else {
            finishing(
                warnings(
                    request.silent,
                    seq![failed_text(stage), report_text(stage, captured_output)],
                ),
                OutcomeView::Failure {
                    category: exit_failure_category(stage),
                    reason: reason_text(exit_failure_category(stage), captured_output),
                },
            )
        },
    }
}

/// Whether `event` answers what the host was asked to do at `stage`.
pub open spec fn answers(stage: Stage, event: EventView) -> bool {
    match (stage, event) {
        (Stage::Idle, EventView::Start) => true,
        (Stage::CheckingSentinel, EventView::Sentinel(_)) => true,
        (Stage::Tool(_), EventView::Tool(_)) => true,
        _ => false,
    }
}

/// The step that `event` leads to at `stage`, for an event that answers the
/// stage.
pub open spec fn next_step(request: RequestView, stage: Stage, event: EventView) -> StepView
    recommends
        answers(stage, event),
{
    match (stage, event) {
        (Stage::CheckingSentinel, EventView::Sentinel(check)) => sentinel_step(request, check),
        (Stage::Tool(tool_stage), EventView::Tool(result)) => tool_step(request, tool_stage, result),
        _ => first_step(request),
    }
}

/// The name of the package manager's program.
pub open spec fn program_text() -> Seq<char> {
    "npm"@
}

/// The arguments that the package manager is given for `command`, in order.
pub open spec fn argument_texts(command: ToolCommand) -> Seq<Seq<char>> {
    match command {
        ToolCommand::Probe => seq!["ping"@],
        ToolCommand::Install => seq!["install"@],
        ToolCommand::Build => seq!["run"@, "build"@],
    }
}

/// The name of the program that the host runs for every command.
pub fn tool_program() -> (program: &'static str)
    ensures
        program@ == program_text(),
{
    "npm"
}

/// Builds the arguments that the host gives the package manager for
/// `command`.
pub fn tool_arguments(command: ToolCommand) -> (arguments: Vec<String>)
    ensures
        arguments.deep_view() == argument_texts(command),
{
    let mut arguments: Vec<String> = Vec::new();
    match command {
        ToolCommand::Probe => {
            arguments.push(String::from_str("ping"));
        },
        ToolCommand::Install => {
            arguments.push(String::from_str("install"));
        },
        ToolCommand::Build => {
            arguments.push(String::from_str("run"));
            arguments.push(String::from_str("build"));
        },
    }
    assert(arguments.deep_view() =~= argument_texts(command));
    arguments
}

/// The command that the package manager runs at `stage`.
pub fn tool_command(stage: ToolStage) -> (command: ToolCommand)
    ensures
        command == command_at(stage),
{
    match stage {
        ToolStage::ProbeBeforeInstall => ToolCommand::Probe,
        ToolStage::Install => ToolCommand::Install,
        ToolStage::ProbeBeforeBuild => ToolCommand::Probe,
        ToolStage::Build => ToolCommand::Build,
    }
}

/// Resolves the paths of `request`.
fn paths_of(request: &BuildRequest) -> (paths: ResolvedPaths)
    ensures
        paths.resolves(request@.project_root, request@.subdirectory),
{
    resolve_paths(request.project_root.as_str(), request.subdirectory.as_str())
}

/// Builds the step that has the host run the package manager at `stage`, in
/// the working directory of `paths`.
fn run_tool(
    paths: ResolvedPaths,
    stage: ToolStage,
    directives: Vec<String>,
    diagnostics: Vec<String>,
) -> (step: Step)
    ensures
        step@ == (StepView {
            next: Stage::Tool(stage),
            directives: directives.deep_view(),
            diagnostics: diagnostics.deep_view(),
            action: ActionView::RunTool { command: command_at(stage), work_dir: paths.work_dir@ },
        }),
{
    Step {
        next: Stage::Tool(stage),
        directives,
        diagnostics,
        action: Action::RunTool { command: tool_command(stage), work_dir: paths.work_dir },
    }
}

/// Builds the step that ends the orchestration with `outcome`.
fn finish(diagnostics: Vec<String>, outcome: BuildOutcome) -> (step: Step)
    ensures
        step@ == finishing(diagnostics.deep_view(), outcome@),
{
    let directives: Vec<String> = Vec::new();
    assert(directives.deep_view() =~= Seq::empty());
    Step { next: Stage::Finished, directives, diagnostics, action: Action::Finish(outcome) }
}

/// A list of lines that holds none.
fn no_lines() -> (lines: Vec<String>)
    ensures
        lines.deep_view() == Seq::<Seq<char>>::empty(),
{
    let lines: Vec<String> = Vec::new();
    assert(lines.deep_view() =~= Seq::empty());
    lines
}

/// Validates the subdirectory and decides the first step. No outside work
/// precedes this decision.
pub fn begin(request: &BuildRequest) -> (step: Step)
    ensures
        step@ == first_step(request@),
{
    if validate_subdirectory(request.validation, request.subdirectory.as_str()) {
        Step {
            next: Stage::CheckingSentinel,
            directives: no_lines(),
            diagnostics: no_lines(),
            action: Action::CheckSentinel { path: paths_of(request).sentinel },
        }
    } else {
        finish(no_lines(), failure(FailureCategory::PathInvalid, request.subdirectory.as_str()))
    }
}

/// Decides the step after the test for the sentinel artifact.
pub fn on_sentinel_checked(request: &BuildRequest, check: SentinelCheck) -> (step: Step)
    ensures
        step@ == sentinel_step(request@, check@),
{
    match check {
        SentinelCheck::Present => {
            let paths = paths_of(request);
            let mut directives: Vec<String> = Vec::new();
            directives.push(watch_directive(paths.source_dir.as_str()));
            directives.push(watch_directive(paths.manifest.as_str()));
            assert(directives.deep_view() =~= watch_directives(request@));
            run_tool(paths, ToolStage::ProbeBeforeBuild, directives, no_lines())
        },
        SentinelCheck::Absent => run_tool(
            paths_of(request),
            ToolStage::ProbeBeforeInstall,
            no_lines(),
            no_lines(),
        ),
        SentinelCheck::Failed(error) => finish(
            no_lines(),
            failure(FailureCategory::FilesystemError, error.as_str()),
        ),
    }
}

/// The progress text after a success at `stage`.
fn completed_message(stage: ToolStage) -> (text: &'static str)
    ensures
        text@ == completed_text(stage),
{
    match stage {
        ToolStage::ProbeBeforeInstall => "NPM tool located for frontend build.",
        ToolStage::Install => "NPM dependencies installed into **node_modules**",
        ToolStage::ProbeBeforeBuild => "NPM tool located for frontend build.",
        ToolStage::Build => "Frontend build completed successfully!",
    }
}

/// The failure text when the process of `stage` could not be started.
fn not_started_message(stage: ToolStage) -> (text: &'static str)
    ensures
        text@ == not_started_text(stage),
{
    match stage {
        ToolStage::ProbeBeforeInstall => "Unable to start npm, cannot complete build.",
        ToolStage::Install => "Unable to start npm install.",
        ToolStage::ProbeBeforeBuild => "Unable to start npm, cannot complete build.",
        ToolStage::Build => "Unable to start npm run build.",
    }
}

/// The two failure texts after a reported failure at `stage`.
fn failed_messages(stage: ToolStage, captured_output: &str) -> (texts: (&'static str, String))
    ensures
        texts.0@ == failed_text(stage),
        texts.1@ == report_text(stage, captured_output@),
{
    let (first, heading) = match stage {
        ToolStage::ProbeBeforeInstall => (
            "Unable to locate npm, cannot complete build.",
            "Failed with: ",
        ),
        ToolStage::Install => ("NPM build failed.", "NPM build reported:"),
        ToolStage::ProbeBeforeBuild => (
            "Unable to locate npm, cannot complete build.",
            "Failed with: ",
        ),
        ToolStage::Build => ("NPM build failed.", "NPM build reported:"),
    };
    let mut report = String::from_str(heading);
    report.append(captured_output);
    (first, report)
}

/// Decides the step after the package manager was invoked at `stage`.
pub fn on_tool_result(request: &BuildRequest, stage: ToolStage, result: ToolResult) -> (step: Step)
    ensures
        step@ == tool_step(request@, stage, result@),
{
    let mut diagnostics = no_lines();
    match result {
        ToolResult::NotSpawned => {
            let category = match stage {
                ToolStage::ProbeBeforeInstall => FailureCategory::ToolNotFound,
                ToolStage::Install => FailureCategory::ToolError,
                ToolStage::ProbeBeforeBuild => FailureCategory::ToolNotFound,
                ToolStage::Build => FailureCategory::ToolError,
            };
            push_warning(&mut diagnostics, not_started_message(stage), request.silent);
            assert(diagnostics.deep_view() =~= warnings(
                request.silent,
                seq![not_started_text(stage)],
            ));
            proof {
                reveal_strlit("");
            }
            assert(""@ =~= Seq::<char>::empty());
            finish(diagnostics, failure(category, ""))
        },
        ToolResult::Exited(ExternalCommandResult { succeeded, captured_output }) => {
            if succeeded {
                push_warning(&mut diagnostics, completed_message(stage), request.silent);
                assert(diagnostics.deep_view() =~= warnings(
                    request.silent,
                    seq![completed_text(stage)],
                ));
                match stage {
                    ToolStage::ProbeBeforeInstall => run_tool(
                        paths_of(request),
                        ToolStage::Install,
                        no_lines(),
                        diagnostics,
                    ),
                    ToolStage::Install => run_tool(
                        paths_of(request),
                        ToolStage::ProbeBeforeBuild,
                        no_lines(),
                        diagnostics,
                    ),
                    ToolStage::ProbeBeforeBuild => run_tool(
                        paths_of(request),
                        ToolStage::Build,
                        no_lines(),
                        diagnostics,
                    ),
                    ToolStage::Build => finish(diagnostics, BuildOutcome::Success),
                }
            } else {
                let (first, report) = failed_messages(stage, captured_output.as_str());
                push_warning(&mut diagnostics, first, request.silent);
                push_warning(&mut diagnostics, report.as_str(), request.silent);
                assert(diagnostics.deep_view() =~= warnings(
                    request.silent,
                    seq![failed_text(stage), report_text(stage, captured_output@)],
                ));
                let category = match stage {
                    ToolStage::ProbeBeforeInstall => FailureCategory::ToolUnreachable,
                    ToolStage::Install => FailureCategory::InstallFailed,
                    ToolStage::ProbeBeforeBuild => FailureCategory::ToolUnreachable,
                    ToolStage::Build => FailureCategory::BuildFailed,
                };
                finish(diagnostics, failure(category, captured_output.as_str()))
            }
        },
    }
}

/// Decides the step that `event` leads to at `stage`. An event that does not
/// answer what the host was asked to do at `stage` leads nowhere.
pub fn advance(request: &BuildRequest, stage: Stage, event: Event) -> (step: Option<Step>)
    ensures
        step.is_some() == answers(stage, event@),
        step.is_some() ==> step.unwrap()@ == next_step(request@, stage, event@),
{
    match (stage, event) {
        (Stage::Idle, Event::Start) => Some(begin(request)),
        (Stage::CheckingSentinel, Event::Sentinel(check)) => Some(
            on_sentinel_checked(request, check),
        ),
        (Stage::Tool(tool_stage), Event::Tool(result)) => Some(
            on_tool_result(request, tool_stage, result),
        ),
        _ => None,
    }
}

} // verus!
