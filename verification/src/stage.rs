//! The three provisioning stages, the commands that carry them out, and the
//! rule by which one stage follows another.

use crate::error::LaunchError;
use crate::text::texts;
use vstd::prelude::*;

verus! {

/// A step of provisioning. The stages run in the order in which they are
/// listed, each only after the one before it has succeeded.
#[derive(Clone, Copy, Debug, PartialEq, Eq, Structural)]
pub enum Stage {
    /// Create the isolated environment with the chosen runtime.
    EnvironmentCreation,
    /// Install the dependencies that the requirements file lists, with the
    /// environment's installer.
    DependencyInstallation,
    /// Run the application with the environment's runner, until it exits.
    ApplicationLaunch,
}

/// How the process of a stage ended.
#[derive(Debug)]
pub enum StageOutcome {
    /// It ran and reported success.
    Succeeded,
    /// It ran and reported failure.
    Failed,
    /// It could not be started; the text says why.
    NotStarted(String),
}

/// Where provisioning stands.
#[derive(Clone, Copy, Debug, PartialEq, Eq, Structural)]
pub enum Progress {
    /// The given stage is the next to run; all before it have succeeded.
    Pending(Stage),
    /// All three stages have succeeded.
    Completed,
    /// A stage failed; no further stage runs.
    Halted(LaunchError),
}

/// A process to start: the path of the program, given by its components
/// from the working directory downwards, and the arguments.
#[derive(Debug)]
pub struct Command {
    pub program: Vec<String>,
    pub arguments: Vec<String>,
}

/// A command as plain text.
pub struct CommandView {
    pub program: Seq<Seq<char>>,
    pub arguments: Seq<Seq<char>>,
}

impl View for Command {
    type V = CommandView;

    open spec fn view(&self) -> CommandView {
        CommandView { program: texts(self.program@), arguments: texts(self.arguments@) }
    }
}

/// The command that asks `candidate` for its version.
pub open spec fn probe_command(candidate: Seq<char>) -> CommandView {
    CommandView { program: seq![candidate], arguments: seq!["--version"@] }
}

/// The command of a stage. Environment creation runs the chosen runtime;
/// the other two run a tool from inside the environment.
pub open spec fn stage_command(stage: Stage, runtime: Seq<char>) -> CommandView {
    match stage {
        Stage::EnvironmentCreation => CommandView {
            program: seq![runtime],
            arguments: seq!["-m"@, "venv"@, "venv"@],
        },
        Stage::DependencyInstallation => CommandView {
            program: seq!["venv"@, "Scripts"@, "pip"@],
            arguments: seq!["install"@, "-r"@, "requirements.txt"@],
        },
        Stage::ApplicationLaunch => CommandView {
            program: seq!["venv"@, "Scripts"@, "streamlit"@],
            arguments: seq!["run"@, "app.py"@],
        },
    }
}

/// The error that the failure of a stage stands for: nothing for a success.
pub open spec fn stage_error(stage: Stage, outcome: StageOutcome) -> Option<LaunchError> {
    match outcome {
        StageOutcome::Succeeded => None,
        StageOutcome::Failed => Some(LaunchError::StageExitFailure { stage }),
        StageOutcome::NotStarted(_) => Some(LaunchError::StageLaunchFailure { stage }),
    }
}

/// The stage with the given number of stages before it.
pub open spec fn stage_at(position: int) -> Stage {
    if position == 0 {
        Stage::EnvironmentCreation
    } else if position == 1 {
        Stage::DependencyInstallation
    } else {
        Stage::ApplicationLaunch
    }
}

/// Where provisioning stands after the pending stage has ended with
/// `outcome`: success moves on to the stage that follows, or completes the
/// last one; anything else halts for good. Once provisioning is completed or
/// halted it stays as it is.
pub open spec fn progress_after(progress: Progress, outcome: StageOutcome) -> Progress {
    match progress {
        Progress::Pending(stage) => match stage_error(stage, outcome) {
            Some(error) => Progress::Halted(error),
            None => match stage.following() {
                Some(next) => Progress::Pending(next),
                None => Progress::Completed,
            },
        },
        _ => progress,
    }
}

/// Where provisioning stands after the given outcomes have been reported,
/// one after another, from the start.
pub open spec fn progress_through(outcomes: Seq<StageOutcome>) -> Progress
    decreases outcomes.len(),
{
    if outcomes.len() == 0 {
        Progress::Pending(Stage::EnvironmentCreation)
    } else {
        progress_after(progress_through(outcomes.drop_last()), outcomes.last())
    }
}

impl Progress {
    /// Where provisioning starts: with environment creation pending.
    pub fn start() -> (r: Progress)
        ensures
            r == Progress::Pending(Stage::EnvironmentCreation),
    {
        Progress::Pending(Stage::EnvironmentCreation)
    }

    /// Where provisioning stands once the pending stage has ended with
    /// `outcome`.
    pub fn after(self, outcome: &StageOutcome) -> (r: Progress)
        ensures
            r == progress_after(self, *outcome),
    {
        match self {
            Progress::Pending(stage) => match outcome {
                StageOutcome::Succeeded => match stage.next() {
                    Some(next) => Progress::Pending(next),
                    None => Progress::Completed,
                },
                StageOutcome::Failed => Progress::Halted(LaunchError::StageExitFailure { stage }),
                StageOutcome::NotStarted(_) => Progress::Halted(
                    LaunchError::StageLaunchFailure { stage },
                ),
            },
            _ => self,
        }
    }
}

impl Stage {
    /// The stage that follows this one, if any.
    pub open spec fn following(self) -> Option<Stage> {
        match self {
            Stage::EnvironmentCreation => Some(Stage::DependencyInstallation),
            Stage::DependencyInstallation => Some(Stage::ApplicationLaunch),
            Stage::ApplicationLaunch => None,
        }
    }

    /// How many stages come before this one.
    pub open spec fn position(self) -> nat {
        match self {
            Stage::EnvironmentCreation => 0,
            Stage::DependencyInstallation => 1,
            Stage::ApplicationLaunch => 2,
        }
    }

    /// The stage that follows this one, if any.
    pub fn next(self) -> (r: Option<Stage>)
        ensures
            r == self.following(),
    {
        match self {
            Stage::EnvironmentCreation => Some(Stage::DependencyInstallation),
            Stage::DependencyInstallation => Some(Stage::ApplicationLaunch),
            Stage::ApplicationLaunch => None,
        }
    }

    /// The command that carries out this stage with the given runtime.
    pub fn command(self, runtime: &str) -> (r: Command)
        ensures
            r@ == stage_command(self, runtime@),
    {
        let mut program: Vec<String> = Vec::new();
        let mut arguments: Vec<String> = Vec::new();
        match self {
            Stage::EnvironmentCreation => {
                program.push(runtime.to_owned());
                arguments.push("-m".to_owned());
                arguments.push("venv".to_owned());
                arguments.push("venv".to_owned());
            },
            Stage::DependencyInstallation => {
                program.push("venv".to_owned());
                program.push("Scripts".to_owned());
                program.push("pip".to_owned());
                arguments.push("install".to_owned());
                arguments.push("-r".to_owned());
                arguments.push("requirements.txt".to_owned());
            },
            Stage::ApplicationLaunch => {
                program.push("venv".to_owned());
                program.push("Scripts".to_owned());
                program.push("streamlit".to_owned());
                arguments.push("run".to_owned());
                arguments.push("app.py".to_owned());
            },
        }
        let r = Command { program, arguments };
        proof {
            assert(r@.program =~= stage_command(self, runtime@).program);
            assert(r@.arguments =~= stage_command(self, runtime@).arguments);
        }
        r
    }
}

impl Command {
    /// The command that asks `candidate` for its version.
    pub fn probe(candidate: &str) -> (r: Command)
        ensures
            r@ == probe_command(candidate@),
    {
        let mut program: Vec<String> = Vec::new();
        let mut arguments: Vec<String> = Vec::new();
        program.push(candidate.to_owned());
        arguments.push("--version".to_owned());
        let r = Command { program, arguments };
        proof {
            assert(r@.program =~= probe_command(candidate@).program);
            assert(r@.arguments =~= probe_command(candidate@).arguments);
        }
        r
    }
}

/// Fail-fast: a stage is pending exactly when as many outcomes have been
/// reported as there are stages before it and every one of them was a
/// success. So a stage is never run after a failure, whatever is reported
/// afterwards, and never before the stages ahead of it have succeeded.
pub proof fn lemma_pending_only_after_successes(outcomes: Seq<StageOutcome>, stage: Stage)
    ensures
        progress_through(outcomes) == Progress::Pending(stage) <==> ({
            &&& outcomes.len() == stage.position()
            &&& forall|j: int| 0 <= j < outcomes.len() ==> outcomes[j] is Succeeded
        }),
    decreases outcomes.len(),
{
    // The first stage is pending at the start and never again, so only the
    // third rests on what is known of the outcomes before the last.
    if outcomes.len() > 0 {
        lemma_pending_only_after_successes(outcomes.drop_last(), Stage::DependencyInstallation);
    }
}

/// Provisioning is completed exactly when the first three outcomes reported
/// were successes.
pub proof fn lemma_completed_after_three_successes(outcomes: Seq<StageOutcome>)
    ensures
        progress_through(outcomes) == Progress::Completed <==> ({
            &&& outcomes.len() >= 3
            &&& outcomes[0] is Succeeded
            &&& outcomes[1] is Succeeded
            &&& outcomes[2] is Succeeded
        }),
    decreases outcomes.len(),
{
    if outcomes.len() > 0 {
        let before = outcomes.drop_last();
        lemma_completed_after_three_successes(before);
        lemma_pending_only_after_successes(before, Stage::ApplicationLaunch);
    }
}

/// When one of the first three outcomes is not a success, provisioning is
/// halted with the error of the first such outcome, which names the stage
/// that it ended. Outcomes reported after it change nothing.
pub proof fn lemma_halted_by_first_failure(outcomes: Seq<StageOutcome>, k: int)
    requires
        0 <= k < outcomes.len(),
        k < 3,
        !(outcomes[k] is Succeeded),
        forall|j: int| 0 <= j < k ==> outcomes[j] is Succeeded,
    ensures
        stage_error(stage_at(k), outcomes[k]) matches Some(error) && progress_through(outcomes)
            == Progress::Halted(error),
    decreases outcomes.len(),
{
    let before = outcomes.drop_last();
    if k == outcomes.len() - 1 {
        lemma_pending_only_after_successes(before, stage_at(k));
    } else {
        lemma_halted_by_first_failure(before, k);
    }
}

} // verus!
