//! A launch from beginning to end: find the runtime, check its version, run
//! the three stages, and say at each turn what the caller is to do next and
//! what the user is to be told.
//!
//! The launcher starts no process and writes nothing itself. The caller asks
//! it for the next action, carries it out, and reports what came of it; the
//! launcher answers with the notices to write.
//!
//! Every launch that is given up ends with exit code 1, whatever the error.
//! Whether the caller is to wait for the user to acknowledge the failure
//! before it exits is a matter of configuration.

use crate::error::LaunchError;
use crate::locator::{
    lemma_first_announcement_wins, lemma_probing_only_after_failures, search_after, search_start,
    search_through, ProbeOutcome, RuntimeLocator, Search,
};
use crate::report::{notice_views, Notice, NoticeView};
use crate::stage::{
    lemma_completed_after_three_successes, lemma_halted_by_first_failure, probe_command,
    progress_after, progress_through, stage_at, stage_command, stage_error, Command, CommandView,
    Progress, Stage, StageOutcome,
};
use crate::text::texts;
use crate::version::Version;
use vstd::prelude::*;

verus! {

/// What a launch is to be run with.
#[derive(Debug)]
pub struct Config {
    /// The oldest runtime version that will do.
    pub minimum: Version,
    /// The names under which the runtime may be installed, in the order in
    /// which they are to be tried.
    pub candidates: Vec<String>,
    /// Whether the caller is to wait for the user to acknowledge a failure
    /// before it exits.
    pub interactive: bool,
}

/// Where a launch stands.
#[derive(Clone, Copy, Debug, PartialEq, Eq, Structural)]
pub enum Phase {
    /// The candidate at this place is being asked for its version.
    Probing(usize),
    /// The runtime is the candidate at place `runtime`, and `stage` is
    /// running with it.
    Provisioning { runtime: usize, stage: Stage },
    /// The application has run and exited with success.
    Succeeded,
    /// The launch was given up.
    Failed(LaunchError),
}

/// What the caller reports back.
#[derive(Debug)]
pub enum Event {
    /// The candidate was asked for its version, with this outcome.
    Probed(ProbeOutcome),
    /// The process of the stage has ended, with this outcome.
    StageEnded(StageOutcome),
}

/// What the caller is to do next.
#[derive(Debug)]
pub enum Action {
    /// Run the command, wait for it to end, and report a `Probed` event.
    Probe(Command),
    /// Run the command of the stage, wait for it to end, and report a
    /// `StageEnded` event.
    Run(Stage, Command),
    /// Exit with the given code, after waiting for the user to acknowledge
    /// where `pause` is set.
    Exit { code: i32, pause: bool },
}

/// An action as plain text.
pub enum ActionView {
    Probe(CommandView),
    Run(Stage, CommandView),
    Exit { code: i32, pause: bool },
}

impl View for Action {
    type V = ActionView;

    open spec fn view(&self) -> ActionView {
        match self {
            Action::Probe(command) => ActionView::Probe(command@),
            Action::Run(stage, command) => ActionView::Run(*stage, command@),
            Action::Exit { code, pause } => ActionView::Exit { code: *code, pause: *pause },
        }
    }
}

/// The phase points into a list of `count` candidates.
pub open spec fn phase_fits(phase: Phase, count: nat) -> bool {
    match phase {
        Phase::Probing(place) => place < count,
        Phase::Provisioning { runtime, .. } => runtime < count,
        _ => true,
    }
}

/// Where a launch with `count` candidates starts: with the first candidate
/// being asked, or given up at once where there is none.
pub open spec fn phase_start(count: nat) -> Phase {
    match search_start(count) {
        Search::Probing(place) => Phase::Probing(place),
        _ => Phase::Failed(LaunchError::RuntimeNotFound),
    }
}

/// What is to be said at the start of a launch.
pub open spec fn notices_at_start(count: nat) -> Seq<NoticeView> {
    if count == 0 {
        seq![NoticeView::Failed { error: LaunchError::RuntimeNotFound, detail: Seq::empty() }]
    } else {
        Seq::empty()
    }
}

/// The phase that a search leads to once it has moved on from a candidate:
/// the first stage where a runtime was found that meets the minimum, failure
/// where it does not or where none was found.
pub open spec fn phase_of_search(search: Search, minimum: Version) -> Phase {
    match search {
        Search::Probing(place) => Phase::Probing(place),
        Search::Found(place, version) => if version.meets(minimum) {
            Phase::Provisioning { runtime: place, stage: Stage::EnvironmentCreation }
        } else {
            Phase::Failed(LaunchError::RuntimeIncompatible { required: minimum, found: version })
        },
        Search::Exhausted => Phase::Failed(LaunchError::RuntimeNotFound),
    }
}

/// The phase that provisioning with the given runtime is in.
pub open spec fn phase_of_progress(progress: Progress, runtime: usize) -> Phase {
    match progress {
        Progress::Pending(stage) => Phase::Provisioning { runtime, stage },
        Progress::Completed => Phase::Succeeded,
        Progress::Halted(error) => Phase::Failed(error),
    }
}

/// The phase that follows `phase` when `event` is reported. A probe is
/// judged while a candidate is being asked, the end of a stage while a stage
/// is running; an event that does not belong to the phase changes nothing,
/// and neither does any event once the launch is over.
pub open spec fn phase_after(count: nat, minimum: Version, phase: Phase, event: Event) -> Phase {
    match phase {
        Phase::Probing(place) => match event {
            Event::Probed(outcome) => phase_of_search(
                search_after(count, Search::Probing(place), outcome),
                minimum,
            ),
            _ => phase,
        },
        Phase::Provisioning { runtime, stage } => match event {
            Event::StageEnded(outcome) => phase_of_progress(
                progress_after(Progress::Pending(stage), outcome),
                runtime,
            ),
            _ => phase,
        },
        _ => phase,
    }
}

/// The notice that a launch is given up.
pub open spec fn failure(error: LaunchError, detail: Seq<char>) -> NoticeView {
    NoticeView::Failed { error, detail }
}

/// What is to be said when `event` is reported in `phase`: that a runtime
/// was found, and then that its version will do and the first stage starts,
/// or that it will not do; that a stage has succeeded and the next one
/// starts; or why the launch is given up.
pub open spec fn notices_after(
    names: Seq<Seq<char>>,
    minimum: Version,
    phase: Phase,
    event: Event,
) -> Seq<NoticeView> {
    match phase {
        Phase::Probing(place) => match event {
            Event::Probed(outcome) => match outcome.announced() {
                Some(version) => if version.meets(minimum) {
                    seq![
                        NoticeView::RuntimeFound { executable: names[place as int], version },
                        NoticeView::VersionAccepted,
                        NoticeView::StageStarted(Stage::EnvironmentCreation),
                    ]
                } else {
                    seq![
                        NoticeView::RuntimeFound { executable: names[place as int], version },
                        failure(
                            LaunchError::RuntimeIncompatible { required: minimum, found: version },
                            Seq::empty(),
                        ),
                    ]
                },
                None => if place + 1 < names.len() {
                    Seq::empty()
                } else {
                    seq![failure(LaunchError::RuntimeNotFound, Seq::empty())]
                },
            },
            _ => Seq::empty(),
        },
        Phase::Provisioning { runtime, stage } => match event {
            Event::StageEnded(outcome) => match outcome {
                StageOutcome::Succeeded => match stage.following() {
                    Some(next) => seq![
                        NoticeView::StageSucceeded(stage),
                        NoticeView::StageStarted(next),
                    ],
                    None => seq![NoticeView::StageSucceeded(stage)],
                },
                StageOutcome::Failed => seq![
                    failure(LaunchError::StageExitFailure { stage }, Seq::empty()),
                ],
                StageOutcome::NotStarted(detail) => seq![
                    failure(LaunchError::StageLaunchFailure { stage }, detail@),
                ],
            },
            _ => Seq::empty(),
        },
        _ => Seq::empty(),
    }
}

/// What the caller is to do in `phase`: ask the candidate, run the stage, or
/// exit, with code 0 after success and code 1 after any failure.
pub open spec fn action_in(names: Seq<Seq<char>>, interactive: bool, phase: Phase) -> ActionView {
    match phase {
        Phase::Probing(place) => ActionView::Probe(probe_command(names[place as int])),
        Phase::Provisioning { runtime, stage } => ActionView::Run(
            stage,
            stage_command(stage, names[runtime as int]),
        ),
        Phase::Succeeded => ActionView::Exit { code: 0, pause: false },
        Phase::Failed(_) => ActionView::Exit { code: 1, pause: interactive },
    }
}

/// The phase that a search and the provisioning after it amount to:
/// provisioning counts only where the search found a runtime that meets the
/// minimum.
pub open spec fn phase_of_launch(search: Search, minimum: Version, progress: Progress) -> Phase {
    match search {
        Search::Found(place, version) => if version.meets(minimum) {
            phase_of_progress(progress, place)
        } else {
            phase_of_search(search, minimum)
        },
        _ => phase_of_search(search, minimum),
    }
}

/// One launch: the search for the runtime, and the provisioning that
/// follows where the search finds a runtime that meets the minimum.
pub struct Launcher {
    minimum: Version,
    interactive: bool,
    locator: RuntimeLocator,
    progress: Progress,
}

impl Launcher {
    /// The names of the candidates, in the order in which they are tried.
    pub closed spec fn names(&self) -> Seq<Seq<char>> {
        self.locator.names()
    }

    /// The oldest runtime version that will do.
    pub closed spec fn minimum(&self) -> Version {
        self.minimum
    }

    /// Whether a failure is to be acknowledged by the user.
    pub closed spec fn interactive(&self) -> bool {
        self.interactive
    }

    /// Where the launch stands.
    pub closed spec fn phase(&self) -> Phase {
        phase_of_launch(self.locator.search(), self.minimum, self.progress)
    }

    /// A launch at its start, and what is to be said at once.
    pub fn new(config: Config) -> (r: (Launcher, Vec<Notice>))
        ensures
            r.0.names() == texts(config.candidates@),
            r.0.minimum() == config.minimum,
            r.0.interactive() == config.interactive,
            r.0.phase() == phase_start(config.candidates@.len()),
            notice_views(r.1@) == notices_at_start(config.candidates@.len()),
    {
        let mut notices: Vec<Notice> = Vec::new();
        if config.candidates.len() == 0 {
            notices.push(
                Notice::Failed { error: LaunchError::RuntimeNotFound, detail: String::new() },
            );
        }
        let launcher = Launcher {
            minimum: config.minimum,
            interactive: config.interactive,
            locator: RuntimeLocator::new(config.candidates),
            progress: Progress::start(),
        };
        (launcher, notices)
    }

    /// Where the launch stands.
    pub fn state(&self) -> (r: Phase)
        ensures
            r == self.phase(),
            phase_fits(r, self.names().len()),
    {
        match self.locator.state() {
            Search::Probing(place) => Phase::Probing(place),
            Search::Found(place, version) => if version.at_least(&self.minimum) {
                match self.progress {
                    Progress::Pending(stage) => Phase::Provisioning { runtime: place, stage },
                    Progress::Completed => Phase::Succeeded,
                    Progress::Halted(error) => Phase::Failed(error),
                }
            } else {
                Phase::Failed(
                    LaunchError::RuntimeIncompatible { required: self.minimum, found: version },
                )
            },
            Search::Exhausted => Phase::Failed(LaunchError::RuntimeNotFound),
        }
    }

    /// What the caller is to do next.
    pub fn action(&self) -> (r: Action)
        ensures
            r@ == action_in(self.names(), self.interactive(), self.phase()),
    {
        let failure = Action::Exit { code: 1, pause: self.interactive };
        match self.locator.pending() {
            Some(command) => Action::Probe(command),
            None => match self.locator.verdict() {
                Some(Ok(found)) => if found.1.at_least(&self.minimum) {
                    match self.progress {
                        Progress::Pending(stage) => Action::Run(
                            stage,
                            stage.command(found.0.as_str()),
                        ),
                        Progress::Completed => Action::Exit { code: 0, pause: false },
                        Progress::Halted(_) => failure,
                    }
                } else {
                    failure
                },
                _ => failure,
            },
        }
    }

    /// Takes note of what the caller reports and says what is to be written.
    pub fn advance(&mut self, event: Event) -> (notices: Vec<Notice>)
        ensures
            final(self).names() == old(self).names(),
            final(self).minimum() == old(self).minimum(),
            final(self).interactive() == old(self).interactive(),
            final(self).phase() == phase_after(
                old(self).names().len(),
                old(self).minimum(),
                old(self).phase(),
                event,
            ),
            notice_views(notices@) == notices_after(
                old(self).names(),
                old(self).minimum(),
                old(self).phase(),
                event,
            ),
    {
        let mut notices: Vec<Notice> = Vec::new();
        match self.state() {
            Phase::Probing(_) => match event {
                Event::Probed(outcome) => {
                    self.locator.record(&outcome);
                    match self.locator.verdict() {
                        Some(Ok(found)) => {
                            let version = found.1;
                            notices.push(Notice::RuntimeFound { executable: found.0, version });
                            if version.at_least(&self.minimum) {
                                notices.push(Notice::VersionAccepted);
                                notices.push(Notice::StageStarted(Stage::EnvironmentCreation));
                                self.progress = Progress::start();
                            } else {
                                let error = LaunchError::RuntimeIncompatible {
                                    required: self.minimum,
                                    found: version,
                                };
                                notices.push(Notice::Failed { error, detail: String::new() });
                            }
                        },
                        Some(Err(error)) => {
                            notices.push(Notice::Failed { error, detail: String::new() });
                        },
                        None => {},
                    }
                },
                _ => {},
            },
            Phase::Provisioning { stage, .. } => match event {
                Event::StageEnded(outcome) => {
                    self.progress = self.progress.after(&outcome);
                    match self.progress {
                        Progress::Pending(next) => {
                            notices.push(Notice::StageSucceeded(stage));
                            notices.push(Notice::StageStarted(next));
                        },
                        Progress::Completed => {
                            notices.push(Notice::StageSucceeded(stage));
                        },
                        Progress::Halted(error) => {
                            let detail = match outcome {
                                StageOutcome::NotStarted(reason) => reason,
                                _ => String::new(),
                            };
                            notices.push(Notice::Failed { error, detail });
                        },
                    }
                },
                _ => {},
            },
            _ => {},
        }
        notices
    }
}

/// Where a launch stands after the given events have been reported, one
/// after another, from the start.
pub open spec fn phase_through(count: nat, minimum: Version, events: Seq<Event>) -> Phase
    decreases events.len(),
{
    if events.len() == 0 {
        phase_start(count)
    } else {
        phase_after(
            count,
            minimum,
            phase_through(count, minimum, events.drop_last()),
            events.last(),
        )
    }
}

/// The events by which the given probe outcomes are reported.
pub open spec fn probe_events(outcomes: Seq<ProbeOutcome>) -> Seq<Event> {
    Seq::new(outcomes.len(), |i: int| Event::Probed(outcomes[i]))
}

/// The events by which the given stage outcomes are reported.
pub open spec fn stage_events(outcomes: Seq<StageOutcome>) -> Seq<Event> {
    Seq::new(outcomes.len(), |i: int| Event::StageEnded(outcomes[i]))
}

/// Once a launch has succeeded or failed, nothing that is reported changes
/// it: every error is final and nothing is retried.
pub proof fn lemma_over_is_over(count: nat, minimum: Version, phase: Phase, event: Event)
    requires
        phase is Succeeded || phase is Failed,
    ensures
        phase_after(count, minimum, phase, event) == phase,
{
}

/// A stage comes to run in one of two ways only: the first stage when the
/// candidate being asked announces a version that meets the minimum, and
/// each later stage when the stage before it ends with success, with the
/// same runtime. So no stage runs with a runtime that is too old, and none
/// runs after a stage has failed.
pub proof fn lemma_stage_runs_only_after_success(
    count: nat,
    minimum: Version,
    phase: Phase,
    event: Event,
    runtime: usize,
    stage: Stage,
)
    requires
        phase_after(count, minimum, phase, event) == (Phase::Provisioning { runtime, stage }),
        phase != (Phase::Provisioning { runtime, stage }),
    ensures
        (match phase {
            Phase::Probing(place) => ({
                &&& place == runtime
                &&& stage == Stage::EnvironmentCreation
                &&& event matches Event::Probed(outcome)
                &&& outcome.announced() matches Some(version)
                &&& version.meets(minimum)
            }),
            Phase::Provisioning { runtime: same, stage: before } => ({
                &&& same == runtime
                &&& before.following() == Some(stage)
                &&& event matches Event::StageEnded(outcome)
                &&& outcome is Succeeded
            }),
            _ => false,
        }),
{
}

/// Every turn of a launch is told to the user. When a stage comes to run,
/// the last notice says that it starts; when a stage has ended with
/// success, the first notice says so; and when the launch is given up, the
/// last notice is the failure, with the error that the launch ends in.
pub proof fn lemma_every_turn_is_announced(
    names: Seq<Seq<char>>,
    minimum: Version,
    phase: Phase,
    event: Event,
)
    ensures
        ({
            let next = phase_after(names.len(), minimum, phase, event);
            let notices = notices_after(names, minimum, phase, event);
            &&& next == phase ==> notices.len() == 0
            &&& next != phase ==> notices.len() > 0 || next is Probing
            &&& next != phase && next is Provisioning ==> notices.len() > 0 && notices.last()
                == NoticeView::StageStarted(next->stage)
            &&& next != phase && phase is Provisioning && !(next is Failed) ==> notices.len() > 0
                && notices.first() == NoticeView::StageSucceeded(phase->stage)
            &&& next != phase && next is Failed ==> notices.len() > 0 && notices.last()
                is Failed && notices.last()->error == next->Failed_0
        }),
{
}

/// A launch is a search followed by provisioning: when the outcomes of the
/// probes and then those of the stages are reported, the launch stands where
/// the search and the provisioning stand, and the stages count only where
/// the search found a runtime that meets the minimum.
pub proof fn lemma_launch_is_search_then_provisioning(
    count: nat,
    minimum: Version,
    probes: Seq<ProbeOutcome>,
    stages: Seq<StageOutcome>,
)
    ensures
        phase_through(count, minimum, probe_events(probes) + stage_events(stages))
            == phase_of_launch(search_through(count, probes), minimum, progress_through(stages)),
    decreases stages.len(), probes.len(),
{
    let events = probe_events(probes) + stage_events(stages);
    if stages.len() > 0 {
        let before = stages.drop_last();
        assert(events.drop_last() =~= probe_events(probes) + stage_events(before));
        lemma_launch_is_search_then_provisioning(count, minimum, probes, before);
    } else if probes.len() > 0 {
        let before = probes.drop_last();
        assert(events.drop_last() =~= probe_events(before) + stage_events(stages));
        lemma_launch_is_search_then_provisioning(count, minimum, before, stages);
    }
}

/// A runtime that is older than the minimum ends the launch: when the first
/// candidate to announce a version announces one that does not meet the
/// minimum, the launch fails as incompatible, whatever is reported after
/// that; and at no point up to there or after it is a stage running.
pub proof fn lemma_incompatible_runtime_is_never_provisioned(
    count: nat,
    minimum: Version,
    probes: Seq<ProbeOutcome>,
    stages: Seq<StageOutcome>,
    k: int,
)
    requires
        count <= usize::MAX,
        0 <= k < probes.len(),
        k < count,
        probes[k].announced() is Some,
        !probes[k].announced().unwrap().meets(minimum),
        forall|j: int| 0 <= j < k ==> probes[j].announced() is None,
    ensures
        phase_through(count, minimum, probe_events(probes) + stage_events(stages))
            == Phase::Failed(
            LaunchError::RuntimeIncompatible {
                required: minimum,
                found: probes[k].announced().unwrap(),
            },
        ),
        forall|n: int|
            0 <= n <= probes.len() ==> !(phase_through(
                count,
                minimum,
                probe_events(#[trigger] probes.take(n)) + stage_events(stages),
            ) is Provisioning),
{
    lemma_launch_is_search_then_provisioning(count, minimum, probes, stages);
    lemma_first_announcement_wins(count, probes, k);
    assert forall|n: int| 0 <= n <= probes.len() implies !(phase_through(
        count,
        minimum,
        probe_events(#[trigger] probes.take(n)) + stage_events(stages),
    ) is Provisioning) by {
        let asked = probes.take(n);
        lemma_launch_is_search_then_provisioning(count, minimum, asked, stages);
        if n <= k {
            lemma_probing_only_after_failures(count, asked, n as usize);
        } else {
            lemma_first_announcement_wins(count, asked, k);
        }
    }
}

/// A launch whose runtime meets the minimum and whose three stages succeed
/// ends in success, and the caller is then told to exit with code 0 without
/// waiting for the user.
pub proof fn lemma_successful_launch_exits_with_zero(
    names: Seq<Seq<char>>,
    interactive: bool,
    minimum: Version,
    probes: Seq<ProbeOutcome>,
    stages: Seq<StageOutcome>,
    k: int,
)
    requires
        names.len() <= usize::MAX,
        0 <= k < probes.len(),
        k < names.len(),
        probes[k].announced() is Some,
        probes[k].announced().unwrap().meets(minimum),
        forall|j: int| 0 <= j < k ==> probes[j].announced() is None,
        stages.len() >= 3,
        stages[0] is Succeeded,
        stages[1] is Succeeded,
        stages[2] is Succeeded,
    ensures
        phase_through(names.len(), minimum, probe_events(probes) + stage_events(stages))
            == Phase::Succeeded,
        action_in(names, interactive, Phase::Succeeded) == (ActionView::Exit {
            code: 0,
            pause: false,
        }),
{
    lemma_launch_is_search_then_provisioning(names.len(), minimum, probes, stages);
    lemma_first_announcement_wins(names.len(), probes, k);
    lemma_completed_after_three_successes(stages);
}

/// Fail-fast from end to end: when a runtime that meets the minimum has
/// been found and one of the stages does not succeed, the launch fails with
/// the error of the first such stage, whatever is reported after it, and the
/// caller is told to exit with code 1.
pub proof fn lemma_failed_stage_ends_the_launch(
    names: Seq<Seq<char>>,
    interactive: bool,
    minimum: Version,
    probes: Seq<ProbeOutcome>,
    stages: Seq<StageOutcome>,
    k: int,
    failed: int,
)
    requires
        names.len() <= usize::MAX,
        0 <= k < probes.len(),
        k < names.len(),
        probes[k].announced() is Some,
        probes[k].announced().unwrap().meets(minimum),
        forall|j: int| 0 <= j < k ==> probes[j].announced() is None,
        0 <= failed < stages.len(),
        failed < 3,
        !(stages[failed] is Succeeded),
        forall|j: int| 0 <= j < failed ==> stages[j] is Succeeded,
    ensures
        stage_error(stage_at(failed), stages[failed]) matches Some(error) && ({
            &&& phase_through(names.len(), minimum, probe_events(probes) + stage_events(stages))
                == Phase::Failed(error)
            &&& action_in(names, interactive, Phase::Failed(error)) == (ActionView::Exit {
                code: 1,
                pause: interactive,
            })
        }),
{
    lemma_launch_is_search_then_provisioning(names.len(), minimum, probes, stages);
    lemma_first_announcement_wins(names.len(), probes, k);
    lemma_halted_by_first_failure(stages, failed);
}

} // verus!
