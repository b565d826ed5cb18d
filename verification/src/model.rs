//! The values that one orchestration works with, and their mathematical
//! views.
use vstd::prelude::*;
use crate::paths::ValidationPolicy;

verus! {

/// Why a build failed, for handling by a program.
#[derive(Clone, Copy, Debug, PartialEq, Eq, Structural)]
pub enum FailureCategory {
    /// The subdirectory names a parent directory or holds a wildcard.
    PathInvalid,
    /// The test for the sentinel artifact failed for another reason than the
    /// file's absence.
    FilesystemError,
    /// The availability probe could not be started.
    ToolNotFound,
    /// The availability probe ran and reported failure.
    ToolUnreachable,
    /// The install or the build command could not be started.
    ToolError,
    /// The install command ran and reported failure.
    InstallFailed,
    /// The build command ran and reported failure.
    BuildFailed,
}

/// How one orchestration ended.
#[derive(Clone, Debug, PartialEq, Eq)]
pub enum BuildOutcome {
    Success,
    Failure { category: FailureCategory, reason: String },
}

/// A `BuildOutcome` with its reason as a sequence of characters.
pub enum OutcomeView {
    Success,
    Failure { category: FailureCategory, reason: Seq<char> },
}

impl View for BuildOutcome {
    type V = OutcomeView;

    open spec fn view(&self) -> OutcomeView {
        match *self {
            BuildOutcome::Success => OutcomeView::Success,
            BuildOutcome::Failure { category, reason } => OutcomeView::Failure {
                category,
                reason: reason@,
            },
        }
    }
}

/// What the host asks for: the frontend's subdirectory below the project
/// root, whether diagnostics are suppressed, and how the subdirectory is
/// validated.
#[derive(Clone, Debug, PartialEq, Eq)]
pub struct BuildRequest {
    pub subdirectory: String,
    pub project_root: String,
    pub silent: bool,
    pub validation: ValidationPolicy,
}

/// A `BuildRequest` with its texts as sequences of characters.
pub struct RequestView {
    pub subdirectory: Seq<char>,
    pub project_root: Seq<char>,
    pub silent: bool,
    pub validation: ValidationPolicy,
}

impl View for BuildRequest {
    type V = RequestView;

    open spec fn view(&self) -> RequestView {
        RequestView {
            subdirectory: self.subdirectory@,
            project_root: self.project_root@,
            silent: self.silent,
            validation: self.validation,
        }
    }
}

/// One way of invoking the package manager.
#[derive(Clone, Copy, Debug, PartialEq, Eq, Structural)]
pub enum ToolCommand {
    /// The availability probe, which changes nothing.
    Probe,
    /// Installing the dependencies.
    Install,
    /// Building the frontend.
    Build,
}

/// A point of the orchestration at which the package manager is running.
#[derive(Clone, Copy, Debug, PartialEq, Eq, Structural)]
pub enum ToolStage {
    /// The probe that precedes the install of a first build.
    ProbeBeforeInstall,
    /// The install of a first build.
    Install,
    /// The probe that precedes every build.
    ProbeBeforeBuild,
    /// The build.
    Build,
}

/// Where an orchestration stands: what outside work, if any, it waits for.
#[derive(Clone, Copy, Debug, PartialEq, Eq, Structural)]
pub enum Stage {
    /// Nothing was done yet.
    Idle,
    /// The host is testing whether the sentinel artifact exists.
    CheckingSentinel,
    /// The host is running the package manager.
    Tool(ToolStage),
    /// The outcome was handed out.
    Finished,
}

/// What the host found when it tested for the sentinel artifact.
#[derive(Clone, Debug, PartialEq, Eq)]
pub enum SentinelCheck {
    Present,
    Absent,
    /// The test itself failed, with the underlying error's text.
    Failed(String),
}

/// A `SentinelCheck` with its text as a sequence of characters.
pub enum SentinelCheckView {
    Present,
    Absent,
    Failed(Seq<char>),
}

impl View for SentinelCheck {
    type V = SentinelCheckView;

    open spec fn view(&self) -> SentinelCheckView {
        match *self {
            SentinelCheck::Present => SentinelCheckView::Present,
            SentinelCheck::Absent => SentinelCheckView::Absent,
            SentinelCheck::Failed(error) => SentinelCheckView::Failed(error@),
        }
    }
}

/// The outcome of one process that ran to its end.
#[derive(Clone, Debug, PartialEq, Eq)]
pub struct ExternalCommandResult {
    pub succeeded: bool,
    pub captured_output: String,
}

/// What became of one invocation of the package manager.
#[derive(Clone, Debug, PartialEq, Eq)]
pub enum ToolResult {
    /// The process could not be started.
    NotSpawned,
    /// The process ran and ended.
    Exited(ExternalCommandResult),
}

/// A `ToolResult` with its text as a sequence of characters.
pub enum ToolResultView {
    NotSpawned,
    Exited { succeeded: bool, captured_output: Seq<char> },
}

impl View for ToolResult {
    type V = ToolResultView;

    open spec fn view(&self) -> ToolResultView {
        match *self {
            ToolResult::NotSpawned => ToolResultView::NotSpawned,
            ToolResult::Exited(result) => ToolResultView::Exited {
                succeeded: result.succeeded,
                captured_output: result.captured_output@,
            },
        }
    }
}

/// What the host reports back to the orchestration.
#[derive(Clone, Debug, PartialEq, Eq)]
pub enum Event {
    /// The host asks for the build.
    Start,
    /// The test for the sentinel artifact was made.
    Sentinel(SentinelCheck),
    /// The package manager was invoked.
    Tool(ToolResult),
}

/// An `Event` with its texts as sequences of characters.
pub enum EventView {
    Start,
    Sentinel(SentinelCheckView),
    Tool(ToolResultView),
}

impl View for Event {
    type V = EventView;

    open spec fn view(&self) -> EventView {
        match *self {
            Event::Start => EventView::Start,
            Event::Sentinel(check) => EventView::Sentinel(check@),
            Event::Tool(result) => EventView::Tool(result@),
        }
    }
}

/// What the host is to do next.
#[derive(Clone, Debug, PartialEq, Eq)]
pub enum Action {
    /// Test whether the file at `path` exists.
    CheckSentinel { path: String },
    /// Run the package manager in `work_dir`.
    RunTool { command: ToolCommand, work_dir: String },
    /// Stop: the orchestration ended with this outcome.
    Finish(BuildOutcome),
}

/// An `Action` with its texts as sequences of characters.
pub enum ActionView {
    CheckSentinel { path: Seq<char> },
    RunTool { command: ToolCommand, work_dir: Seq<char> },
    Finish(OutcomeView),
}

impl View for Action {
    type V = ActionView;

    open spec fn view(&self) -> ActionView {
        match *self {
            Action::CheckSentinel { path } => ActionView::CheckSentinel { path: path@ },
            Action::RunTool { command, work_dir } => ActionView::RunTool {
                command,
                work_dir: work_dir@,
            },
            Action::Finish(outcome) => ActionView::Finish(outcome@),
        }
    }
}

/// One decision of the orchestration: the stage it moves to, the lines the
/// host prints, and the host's next action.
#[derive(Clone, Debug, PartialEq, Eq)]
pub struct Step {
    pub next: Stage,
    /// Lines that tell the host build system what to watch. They are printed
    /// whether or not diagnostics are suppressed.
    pub directives: Vec<String>,
    /// Lines of progress and failure text, printed in this order.
    pub diagnostics: Vec<String>,
    pub action: Action,
}

/// A `Step` with its texts as sequences of characters.
pub struct StepView {
    pub next: Stage,
    pub directives: Seq<Seq<char>>,
    pub diagnostics: Seq<Seq<char>>,
    pub action: ActionView,
}

impl View for Step {
    type V = StepView;

    open spec fn view(&self) -> StepView {
        StepView {
            next: self.next,
            directives: self.directives.deep_view(),
            diagnostics: self.diagnostics.deep_view(),
            action: self.action@,
        }
    }
}

} // verus!
