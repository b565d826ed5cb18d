use build_my_react_js::model::{
    Action, BuildOutcome, BuildRequest, Event, ExternalCommandResult, FailureCategory,
    SentinelCheck, Stage, Step, ToolCommand, ToolResult, ToolStage,
};
use build_my_react_js::paths::ValidationPolicy;
use build_my_react_js::orchestrator::{
    advance, begin, on_sentinel_checked, on_tool_result, tool_arguments, tool_command,
    tool_program,
};

const BANNER: &str = "\x1b[1m\x1b[91mReactJS Frontend build error:\x1b[39m\x1b[0m";

/// A host that answers from fixed values and records what it was asked.
struct StubHost {
    sentinel: SentinelCheck,
    probe: ToolResult,
    install: ToolResult,
    build: ToolResult,
}

struct Trace {
    calls: Vec<String>,
    directives: Vec<String>,
    diagnostics: Vec<String>,
    outcome: BuildOutcome,
}

fn exited(succeeded: bool, output: &str) -> ToolResult {
    ToolResult::Exited(ExternalCommandResult { succeeded, captured_output: output.to_string() })
}

fn healthy(sentinel: SentinelCheck) -> StubHost {
    StubHost { sentinel, probe: exited(true, "pong"), install: exited(true, "added"), build: exited(true, "done") }
}

fn request(subdirectory: &str, silent: bool) -> BuildRequest {
    BuildRequest {
        subdirectory: subdirectory.to_string(),
        project_root: "/repo".to_string(),
        silent,
        validation: ValidationPolicy::Strict,
    }
}

fn drive(request: &BuildRequest, host: &StubHost) -> Trace {
    let mut trace = Trace {
        calls: Vec::new(),
        directives: Vec::new(),
        diagnostics: Vec::new(),
        outcome: BuildOutcome::Success,
    };
    let mut stage = Stage::Idle;
    let mut event = Event::Start;
    loop {
        let step = advance(request, stage, event).expect("the stub answers every action");
        trace.directives.extend(step.directives);
        trace.diagnostics.extend(step.diagnostics);
        stage = step.next;
        event = match step.action {
            Action::CheckSentinel { path } => {
                trace.calls.push(format!("exists {path}"));
                Event::Sentinel(host.sentinel.clone())
            }
            Action::RunTool { command, work_dir } => {
                let (name, result) = match command {
                    ToolCommand::Probe => ("probe", host.probe.clone()),
                    ToolCommand::Install => ("install", host.install.clone()),
                    ToolCommand::Build => ("build", host.build.clone()),
                };
                trace.calls.push(format!("{name} in {work_dir}"));
                Event::Tool(result)
            }
            Action::Finish(outcome) => {
                assert_eq!(stage, Stage::Finished);
                trace.outcome = outcome;
                return trace;
            }
        };
    }
}

fn count_containing(lines: &[String], part: &str) -> usize {
    lines.iter().filter(|line| line.contains(part)).count()
}

fn count_starting(lines: &[String], start: &str) -> usize {
    lines.iter().filter(|line| line.starts_with(start)).count()
}

fn category_of(outcome: &BuildOutcome) -> Option<FailureCategory> {
    match outcome {
        BuildOutcome::Success => None,
        BuildOutcome::Failure { category, .. } => Some(*category),
    }
}

fn reason_of(outcome: &BuildOutcome) -> String {
    match outcome {
        BuildOutcome::Success => String::new(),
        BuildOutcome::Failure { reason, .. } => reason.clone(),
    }
}

#[test]
fn first_build_succeeds_and_reports_every_stage() {
    let trace = drive(&request("app", false), &healthy(SentinelCheck::Absent));
    assert_eq!(trace.outcome, BuildOutcome::Success);
    assert_eq!(count_containing(&trace.diagnostics, "tool located"), 2);
    assert_eq!(count_containing(&trace.diagnostics, "dependencies installed"), 1);
    assert_eq!(count_containing(&trace.diagnostics, "build completed successfully"), 1);
    assert_eq!(
        trace.diagnostics,
        vec![
            "cargo::warning=NPM tool located for frontend build.".to_string(),
            "cargo::warning=NPM dependencies installed into **node_modules**".to_string(),
            "cargo::warning=NPM tool located for frontend build.".to_string(),
            "cargo::warning=Frontend build completed successfully!".to_string(),
        ]
    );
    assert!(trace.directives.is_empty());
}

#[test]
fn first_build_runs_probe_install_probe_build_in_order() {
    let trace = drive(&request("app", false), &healthy(SentinelCheck::Absent));
    assert_eq!(
        trace.calls,
        vec![
            "exists /repo/app/build/index.html".to_string(),
            "probe in /repo/app/".to_string(),
            "install in /repo/app/".to_string(),
            "probe in /repo/app/".to_string(),
            "build in /repo/app/".to_string(),
        ]
    );
}

#[test]
fn failing_build_gives_build_failed_with_the_output() {
    let mut host = healthy(SentinelCheck::Absent);
    host.build = exited(false, "ERR 137");
    let trace = drive(&request("app", false), &host);
    assert_eq!(category_of(&trace.outcome), Some(FailureCategory::BuildFailed));
    assert!(reason_of(&trace.outcome).contains("ERR 137"));
    assert_eq!(reason_of(&trace.outcome), format!("{BANNER} NPM build failed: ERR 137"));
    assert_eq!(
        trace.diagnostics[3..],
        [
            "cargo::warning=NPM build failed.".to_string(),
            "cargo::warning=NPM build reported:ERR 137".to_string(),
        ]
    );
}

#[test]
fn failing_build_after_present_sentinel_gives_build_failed() {
    let mut host = healthy(SentinelCheck::Present);
    host.build = exited(false, "boom");
    let trace = drive(&request("app", true), &host);
    assert_eq!(category_of(&trace.outcome), Some(FailureCategory::BuildFailed));
    assert!(reason_of(&trace.outcome).contains("boom"));
}

#[test]
fn escaping_subdirectory_fails_without_outside_work() {
    let trace = drive(&request("../escape", false), &healthy(SentinelCheck::Absent));
    assert_eq!(category_of(&trace.outcome), Some(FailureCategory::PathInvalid));
    assert!(trace.calls.is_empty());
    assert!(trace.diagnostics.is_empty());
    assert!(trace.directives.is_empty());
    assert_eq!(
        reason_of(&trace.outcome),
        format!("{BANNER} Invalid separator provided, '../escape'")
    );
}

#[test]
fn wildcard_subdirectory_fails_without_outside_work() {
    for subdirectory in ["app*", "*", "a/b*c/d", "a/../b", "..", "a/.."] {
        let trace = drive(&request(subdirectory, false), &healthy(SentinelCheck::Present));
        assert_eq!(category_of(&trace.outcome), Some(FailureCategory::PathInvalid));
        assert!(trace.calls.is_empty());
    }
}

#[test]
fn begin_asks_for_the_sentinel_of_a_safe_subdirectory() {
    let step = begin(&request("app", false));
    assert_eq!(
        step,
        Step {
            next: Stage::CheckingSentinel,
            directives: vec![],
            diagnostics: vec![],
            action: Action::CheckSentinel { path: "/repo/app/build/index.html".to_string() },
        }
    );
}

#[test]
fn present_sentinel_skips_the_install() {
    let trace = drive(&request("app", false), &healthy(SentinelCheck::Present));
    assert_eq!(trace.outcome, BuildOutcome::Success);
    assert_eq!(
        trace.calls,
        vec![
            "exists /repo/app/build/index.html".to_string(),
            "probe in /repo/app/".to_string(),
            "build in /repo/app/".to_string(),
        ]
    );
    assert_eq!(count_starting(&trace.calls, "install in"), 0);
}

#[test]
fn present_sentinel_skips_the_install_even_when_it_would_fail() {
    let mut host = healthy(SentinelCheck::Present);
    host.install = ToolResult::NotSpawned;
    let trace = drive(&request("app", false), &host);
    assert_eq!(trace.outcome, BuildOutcome::Success);
    assert_eq!(count_starting(&trace.calls, "install in"), 0);
}

#[test]
fn present_sentinel_narrows_the_rebuild_triggers() {
    let step = on_sentinel_checked(&request("app", true), SentinelCheck::Present);
    assert_eq!(
        step.directives,
        vec![
            "cargo::rerun-if-changed=/repo/app/src/".to_string(),
            "cargo::rerun-if-changed=/repo/app/package.json".to_string(),
        ]
    );
    assert!(step.diagnostics.is_empty());
    assert_eq!(step.next, Stage::Tool(ToolStage::ProbeBeforeBuild));
    assert_eq!(
        step.action,
        Action::RunTool { command: ToolCommand::Probe, work_dir: "/repo/app/".to_string() }
    );
}

#[test]
fn absent_sentinel_leads_to_the_probe_before_install() {
    let step = on_sentinel_checked(&request("app", false), SentinelCheck::Absent);
    assert!(step.directives.is_empty());
    assert!(step.diagnostics.is_empty());
    assert_eq!(step.next, Stage::Tool(ToolStage::ProbeBeforeInstall));
    assert_eq!(
        step.action,
        Action::RunTool { command: ToolCommand::Probe, work_dir: "/repo/app/".to_string() }
    );
}

#[test]
fn unreadable_sentinel_gives_filesystem_error_with_the_error_text() {
    let host = healthy(SentinelCheck::Failed("permission denied (os error 13)".to_string()));
    let trace = drive(&request("app", false), &host);
    assert_eq!(
        trace.outcome,
        BuildOutcome::Failure {
            category: FailureCategory::FilesystemError,
            reason: "permission denied (os error 13)".to_string(),
        }
    );
    assert_eq!(trace.calls.len(), 1);
    assert!(trace.diagnostics.is_empty());
}

#[test]
fn probe_that_cannot_start_gives_tool_not_found() {
    let mut host = healthy(SentinelCheck::Absent);
    host.probe = ToolResult::NotSpawned;
    let trace = drive(&request("app", false), &host);
    assert_eq!(
        trace.outcome,
        BuildOutcome::Failure {
            category: FailureCategory::ToolNotFound,
            reason: format!(
                "{BANNER} Node Package Manager not found! Ensure the system is configured with npm."
            ),
        }
    );
    assert_eq!(trace.calls.len(), 2);
    assert_eq!(
        trace.diagnostics,
        vec!["cargo::warning=Unable to start npm, cannot complete build.".to_string()]
    );
}

#[test]
fn probe_that_fails_gives_tool_unreachable() {
    let mut host = healthy(SentinelCheck::Present);
    host.probe = exited(false, "registry down");
    let trace = drive(&request("app", false), &host);
    assert_eq!(
        trace.outcome,
        BuildOutcome::Failure {
            category: FailureCategory::ToolUnreachable,
            reason: format!("{BANNER} NPM unavailable"),
        }
    );
    assert_eq!(
        trace.diagnostics,
        vec![
            "cargo::warning=Unable to locate npm, cannot complete build.".to_string(),
            "cargo::warning=Failed with: registry down".to_string(),
        ]
    );
    assert_eq!(count_starting(&trace.calls, "build in"), 0);
    assert_eq!(count_starting(&trace.calls, "install in"), 0);
    assert_eq!(trace.calls.len(), 2);
}

#[test]
fn install_that_cannot_start_gives_tool_error() {
    let mut host = healthy(SentinelCheck::Absent);
    host.install = ToolResult::NotSpawned;
    let trace = drive(&request("app", false), &host);
    assert_eq!(
        trace.outcome,
        BuildOutcome::Failure {
            category: FailureCategory::ToolError,
            reason: format!("{BANNER} Node Package Manager error! Check system logs."),
        }
    );
    assert_eq!(trace.calls.len(), 3);
    assert_eq!(
        trace.diagnostics,
        vec![
            "cargo::warning=NPM tool located for frontend build.".to_string(),
            "cargo::warning=Unable to start npm install.".to_string(),
        ]
    );
}

#[test]
fn install_that_fails_gives_install_failed() {
    let mut host = healthy(SentinelCheck::Absent);
    host.install = exited(false, "ENOSPC");
    let trace = drive(&request("app", false), &host);
    assert_eq!(
        trace.outcome,
        BuildOutcome::Failure {
            category: FailureCategory::InstallFailed,
            reason: format!("{BANNER} NPM unavailable"),
        }
    );
    assert_eq!(
        trace.diagnostics,
        vec![
            "cargo::warning=NPM tool located for frontend build.".to_string(),
            "cargo::warning=NPM build failed.".to_string(),
            "cargo::warning=NPM build reported:ENOSPC".to_string(),
        ]
    );
    assert_eq!(trace.calls.len(), 3);
}

#[test]
fn build_that_cannot_start_gives_tool_error() {
    let mut host = healthy(SentinelCheck::Present);
    host.build = ToolResult::NotSpawned;
    let trace = drive(&request("app", false), &host);
    assert_eq!(category_of(&trace.outcome), Some(FailureCategory::ToolError));
    assert_eq!(
        reason_of(&trace.outcome),
        format!("{BANNER} Node Package Manager error! Check system logs.")
    );
    assert_eq!(
        trace.diagnostics,
        vec![
            "cargo::warning=NPM tool located for frontend build.".to_string(),
            "cargo::warning=Unable to start npm run build.".to_string(),
        ]
    );
}

#[test]
fn silent_suppresses_every_diagnostic() {
    let failures = [
        exited(false, "bad"),
        ToolResult::NotSpawned,
        exited(true, "fine"),
    ];
    for sentinel in [SentinelCheck::Present, SentinelCheck::Absent] {
        for probe in &failures {
            for install in &failures {
                for build in &failures {
                    let host = StubHost {
                        sentinel: sentinel.clone(),
                        probe: probe.clone(),
                        install: install.clone(),
                        build: build.clone(),
                    };
                    let trace = drive(&request("app", true), &host);
                    assert!(trace.diagnostics.is_empty());
                }
            }
        }
    }
}

#[test]
fn silent_keeps_the_directives() {
    let trace = drive(&request("app", true), &healthy(SentinelCheck::Present));
    assert_eq!(trace.directives.len(), 2);
    assert!(trace.diagnostics.is_empty());
    assert_eq!(trace.outcome, BuildOutcome::Success);
}

#[test]
fn loud_reports_each_stage_that_ran() {
    let stages = [
        ToolStage::ProbeBeforeInstall,
        ToolStage::Install,
        ToolStage::ProbeBeforeBuild,
        ToolStage::Build,
    ];
    for stage in stages {
        let done = on_tool_result(&request("app", false), stage, exited(true, "ok"));
        assert_eq!(done.diagnostics.len(), 1);
        let failed = on_tool_result(&request("app", false), stage, exited(false, "no"));
        assert_eq!(failed.diagnostics.len(), 2);
        assert_eq!(failed.next, Stage::Finished);
        let not_started = on_tool_result(&request("app", false), stage, ToolResult::NotSpawned);
        assert_eq!(not_started.diagnostics.len(), 1);
        assert_eq!(not_started.next, Stage::Finished);
    }
}

#[test]
fn loud_gives_a_line_for_every_invocation() {
    let results = [exited(false, "bad"), ToolResult::NotSpawned, exited(true, "fine")];
    for sentinel in [SentinelCheck::Present, SentinelCheck::Absent] {
        for probe in &results {
            for install in &results {
                for build in &results {
                    let host = StubHost {
                        sentinel: sentinel.clone(),
                        probe: probe.clone(),
                        install: install.clone(),
                        build: build.clone(),
                    };
                    let trace = drive(&request("app", false), &host);
                    let invocations = trace.calls.len() - count_starting(&trace.calls, "exists ");
                    assert!(trace.diagnostics.len() >= invocations);
                    assert!(invocations >= 1);
                }
            }
        }
    }
}

#[test]
fn spawn_failure_is_silent_when_diagnostics_are_suppressed() {
    let step = on_tool_result(&request("app", true), ToolStage::Build, ToolResult::NotSpawned);
    assert!(step.diagnostics.is_empty());
    assert_eq!(step.next, Stage::Finished);
}

#[test]
fn program_and_arguments_of_each_command() {
    assert_eq!(tool_program(), "npm");
    assert_eq!(tool_arguments(ToolCommand::Probe), vec!["ping".to_string()]);
    assert_eq!(tool_arguments(ToolCommand::Install), vec!["install".to_string()]);
    assert_eq!(
        tool_arguments(ToolCommand::Build),
        vec!["run".to_string(), "build".to_string()]
    );
}

#[test]
fn incremental_build_is_repeatable() {
    let first = drive(&request("app", false), &healthy(SentinelCheck::Present));
    let mut other = healthy(SentinelCheck::Present);
    other.build = exited(true, "another output");
    let second = drive(&request("app", false), &other);
    assert_eq!(first.outcome, BuildOutcome::Success);
    assert_eq!(second.outcome, BuildOutcome::Success);
    assert_eq!(first.directives, second.directives);
    assert_eq!(first.directives.len(), 2);
}

#[test]
fn successful_build_finishes_with_success() {
    let step = on_tool_result(&request("app", false), ToolStage::Build, exited(true, "out"));
    assert_eq!(
        step,
        Step {
            next: Stage::Finished,
            directives: vec![],
            diagnostics: vec!["cargo::warning=Frontend build completed successfully!".to_string()],
            action: Action::Finish(BuildOutcome::Success),
        }
    );
}

#[test]
fn successful_probe_moves_to_the_command_it_guards() {
    let before_install =
        on_tool_result(&request("app", true), ToolStage::ProbeBeforeInstall, exited(true, ""));
    assert_eq!(before_install.next, Stage::Tool(ToolStage::Install));
    assert_eq!(
        before_install.action,
        Action::RunTool { command: ToolCommand::Install, work_dir: "/repo/app/".to_string() }
    );
    let before_build =
        on_tool_result(&request("app", true), ToolStage::ProbeBeforeBuild, exited(true, ""));
    assert_eq!(before_build.next, Stage::Tool(ToolStage::Build));
    assert_eq!(
        before_build.action,
        Action::RunTool { command: ToolCommand::Build, work_dir: "/repo/app/".to_string() }
    );
    let installed = on_tool_result(&request("app", true), ToolStage::Install, exited(true, ""));
    assert_eq!(installed.next, Stage::Tool(ToolStage::ProbeBeforeBuild));
    assert_eq!(
        installed.action,
        Action::RunTool { command: ToolCommand::Probe, work_dir: "/repo/app/".to_string() }
    );
}

#[test]
fn tool_command_of_each_stage() {
    assert_eq!(tool_command(ToolStage::ProbeBeforeInstall), ToolCommand::Probe);
    assert_eq!(tool_command(ToolStage::Install), ToolCommand::Install);
    assert_eq!(tool_command(ToolStage::ProbeBeforeBuild), ToolCommand::Probe);
    assert_eq!(tool_command(ToolStage::Build), ToolCommand::Build);
}

#[test]
fn event_that_does_not_answer_the_stage_leads_nowhere() {
    let req = request("app", false);
    assert_eq!(advance(&req, Stage::Idle, Event::Tool(exited(true, ""))), None);
    assert_eq!(advance(&req, Stage::Idle, Event::Sentinel(SentinelCheck::Present)), None);
    assert_eq!(advance(&req, Stage::CheckingSentinel, Event::Start), None);
    assert_eq!(advance(&req, Stage::CheckingSentinel, Event::Tool(ToolResult::NotSpawned)), None);
    assert_eq!(advance(&req, Stage::Tool(ToolStage::Build), Event::Start), None);
    assert_eq!(
        advance(&req, Stage::Tool(ToolStage::Install), Event::Sentinel(SentinelCheck::Absent)),
        None
    );
    assert_eq!(advance(&req, Stage::Finished, Event::Start), None);
    assert_eq!(advance(&req, Stage::Finished, Event::Tool(exited(true, ""))), None);
    assert_eq!(advance(&req, Stage::Finished, Event::Sentinel(SentinelCheck::Absent)), None);
}

#[test]
fn event_that_answers_the_stage_is_decided_by_its_own_function() {
    let req = request("app", false);
    assert_eq!(advance(&req, Stage::Idle, Event::Start), Some(begin(&req)));
    assert_eq!(
        advance(&req, Stage::CheckingSentinel, Event::Sentinel(SentinelCheck::Present)),
        Some(on_sentinel_checked(&req, SentinelCheck::Present))
    );
    assert_eq!(
        advance(&req, Stage::Tool(ToolStage::Install), Event::Tool(exited(false, "x"))),
        Some(on_tool_result(&req, ToolStage::Install, exited(false, "x")))
    );
}

#[test]
fn permissive_validation_accepts_every_subdirectory() {
    let mut req = request("../escape", false);
    req.validation = ValidationPolicy::Permissive;
    let step = begin(&req);
    assert_eq!(step.next, Stage::CheckingSentinel);
    assert_eq!(
        step.action,
        Action::CheckSentinel { path: "/repo/../escape/build/index.html".to_string() }
    );
    let trace = drive(&req, &healthy(SentinelCheck::Present));
    assert_eq!(trace.outcome, BuildOutcome::Success);
}
