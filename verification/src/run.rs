//! A run, from validation to the last transfer, as a sequence of decisions.
//!
//! A [`Run`] never touches the file system. It says what is to be done
//! next as a [`Request`], and is told what came of it as an [`Event`].
//! Whoever drives it performs each request and hands the event back, until
//! the run asks to finish.

use vstd::prelude::*;
use crate::cli::{Cli, CliView};
use crate::error::{
    IoFailure,
    IoFailureView,
    RandSelectError,
    RandSelectErrorView,
    Stage,
};
use crate::listing::{candidates_of, list_candidates, CandidateView, ReadEntry, ReadEntryView};
use crate::plan::{planned, ActionView, SelectionPlan};
use crate::preview::{preview, preview_of, PreviewLine, PreviewLineView};
use crate::sampler::{is_sample, sample};
use crate::validate::{paths_are_valid, validation, PathProbe, PathProbeView};

verus! {

/// How far a run has come: what it is waiting for.
#[derive(Debug, Clone, Copy, PartialEq, Eq, Structural)]
pub enum Phase {
    /// Waiting for the examination of the two directories.
    Validating,
    /// Waiting for the entries of the source directory.
    Listing,
    /// Waiting for the preview to be shown.
    Previewing,
    /// Waiting for the destination directory to be created.
    CreatingDestination,
    /// Waiting for the copy of the transfer at this position of the plan.
    Copying(usize),
    /// Waiting for the deletion of the source of the transfer at this
    /// position of the plan, whose copy succeeded.
    Deleting(usize),
    /// Nothing is left to do.
    Finished,
}

/// What became of one planned transfer.
#[derive(Debug, PartialEq, Eq)]
pub enum TransferOutcome {
    /// The file was copied and, for a move, its source deleted.
    Succeeded,
    /// The copy failed, or the copy succeeded and the deletion of the
    /// source failed. A copy that was made stays in place.
    Failed(IoFailure),
}

/// The mathematical value of a [`TransferOutcome`].
pub enum OutcomeView {
    Succeeded,
    Failed(IoFailureView),
}

impl View for TransferOutcome {
    type V = OutcomeView;

    open spec fn view(&self) -> OutcomeView {
        match self {
            TransferOutcome::Succeeded => OutcomeView::Succeeded,
            TransferOutcome::Failed(failure) => OutcomeView::Failed(failure@),
        }
    }
}

impl DeepView for TransferOutcome {
    type V = OutcomeView;

    open spec fn deep_view(&self) -> OutcomeView {
        self@
    }
}

impl Clone for TransferOutcome {
    fn clone(&self) -> (copy: Self)
        ensures
            copy == *self,
    {
        match self {
            TransferOutcome::Succeeded => TransferOutcome::Succeeded,
            TransferOutcome::Failed(failure) => TransferOutcome::Failed(failure.clone()),
        }
    }
}

/// How far one planned transfer has come.
///
/// A copy goes from planned to copied. A move goes from planned to
/// copied, and from there to deleted, or to kept if its source could not
/// be deleted. Either goes from planned to failed if the copy fails.
#[derive(Debug, Clone, Copy, PartialEq, Eq, Structural)]
pub enum Progress {
    /// Nothing was done yet.
    Planned,
    /// The file is at its destination, and its source is still in place.
    Copied,
    /// The file is at its destination, and its source is gone.
    Deleted,
    /// The file is at its destination, and its source could not be
    /// deleted.
    Kept,
    /// The file could not be copied.
    Failed,
}

/// What a run asks its driver to do next.
#[derive(Debug, PartialEq, Eq)]
pub enum Request {
    /// Examine the source and the destination directory, and answer with
    /// [`Event::Probed`].
    Probe { source: String, dest: String },
    /// Read the direct children of the source directory, and answer with
    /// [`Event::Listed`].
    List { source: String },
    /// Show the preview lines, followed by the hint if it is asked for,
    /// and answer with [`Event::Shown`].
    Show { lines: Vec<PreviewLine>, hint: bool },
    /// Create the destination directory with any missing parents, and
    /// answer with [`Event::Performed`]. A directory that exists already
    /// counts as created.
    CreateDir { path: String },
    /// Copy the file at `from` to `to`, and answer with
    /// [`Event::Performed`].
    Copy { from: String, to: String },
    /// Delete the file at `path`, and answer with [`Event::Performed`].
    Delete { path: String },
    /// Stop: the run is over.
    Finish,
}

/// The mathematical value of a [`Request`].
pub enum RequestView {
    Probe { source: Seq<char>, dest: Seq<char> },
    List { source: Seq<char> },
    Show { lines: Seq<PreviewLineView>, hint: bool },
    CreateDir { path: Seq<char> },
    Copy { from: Seq<char>, to: Seq<char> },
    Delete { path: Seq<char> },
    Finish,
}

impl View for Request {
    type V = RequestView;

    open spec fn view(&self) -> RequestView {
        match self {
            Request::Probe { source, dest } => RequestView::Probe { source: source@, dest: dest@ },
            Request::List { source } => RequestView::List { source: source@ },
            Request::Show { lines, hint } => RequestView::Show {
                lines: lines.deep_view(),
                hint: *hint,
            },
            Request::CreateDir { path } => RequestView::CreateDir { path: path@ },
            Request::Copy { from, to } => RequestView::Copy { from: from@, to: to@ },
            Request::Delete { path } => RequestView::Delete { path: path@ },
            Request::Finish => RequestView::Finish,
        }
    }
}

/// What came of a request.
#[derive(Debug, PartialEq, Eq)]
pub enum Event {
    /// The two directories were examined.
    Probed(PathProbe),
    /// The source directory was read, or the read failed for the given
    /// reason.
    Listed(Result<Vec<ReadEntry>, String>),
    /// The preview was shown.
    Shown,
    /// The file system operation was carried out, or it failed for the
    /// given reason.
    Performed(Result<(), String>),
}

/// The mathematical value of an [`Event`].
pub enum EventView {
    Probed(PathProbeView),
    Listed(Result<Seq<ReadEntryView>, Seq<char>>),
    Shown,
    Performed(Result<(), Seq<char>>),
}

impl View for Event {
    type V = EventView;

    open spec fn view(&self) -> EventView {
        match self {
            Event::Probed(probe) => EventView::Probed(probe@),
            Event::Listed(Ok(entries)) => EventView::Listed(Ok(entries.deep_view())),
            Event::Listed(Err(reason)) => EventView::Listed(Err(reason@)),
            Event::Shown => EventView::Shown,
            Event::Performed(Ok(())) => EventView::Performed(Ok(())),
            Event::Performed(Err(reason)) => EventView::Performed(Err(reason@)),
        }
    }
}

/// The mathematical value of a [`Run`].
pub struct RunView {
    /// The configuration of the run.
    pub cli: CliView,
    /// What the run is waiting for.
    pub phase: Phase,
    /// The plan; empty until the source directory has been listed.
    pub plan: Seq<ActionView>,
    /// The outcomes of the transfers attempted so far, in plan order.
    pub outcomes: Seq<OutcomeView>,
    /// The first failure of the run, if there was one.
    pub failure: Option<RandSelectErrorView>,
}

/// The state in which a run with the given configuration starts.
pub open spec fn start_of(cli: CliView) -> RunView {
    RunView {
        cli,
        phase: Phase::Validating,
        plan: Seq::empty(),
        outcomes: Seq::empty(),
        failure: None,
    }
}

/// Whether a request changes the file system.
pub open spec fn writes(request: RequestView) -> bool {
    request is CreateDir || request is Copy || request is Delete
}

/// The request that a state stands for.
pub open spec fn request_of(state: RunView) -> RequestView {
    match state.phase {
        Phase::Validating => RequestView::Probe {
            source: state.cli.in_dir,
            dest: state.cli.out_dir,
        },
        Phase::Listing => RequestView::List { source: state.cli.in_dir },
        Phase::Previewing => RequestView::Show {
            lines: preview_of(state.plan, state.cli.move_files),
            hint: !state.cli.go,
        },
        Phase::CreatingDestination => RequestView::CreateDir { path: state.cli.out_dir },
        Phase::Copying(i) => RequestView::Copy {
            from: state.plan[i as int].source.path,
            to: state.plan[i as int].dest,
        },
        Phase::Deleting(i) => RequestView::Delete { path: state.plan[i as int].source.path },
        Phase::Finished => RequestView::Finish,
    }
}

/// The phase in which the transfer at `position` is taken up: its copy,
/// or the end of the run if the plan has no such transfer.
pub open spec fn taking_up(position: nat, plan_len: nat) -> Phase {
    if position < plan_len {
        Phase::Copying(position as usize)
    } else {
        Phase::Finished
    }
}

/// The state once the run has ended with the given failure before any
/// transfer was attempted.
pub open spec fn stopped(state: RunView, failure: RandSelectErrorView) -> RunView {
    RunView { phase: Phase::Finished, failure: Some(failure), ..state }
}

/// The state once the transfer at `position` has ended with `outcome`:
/// the outcome is recorded, the first failure is remembered, and the next
/// transfer is taken up whether this one failed or not.
pub open spec fn settled(state: RunView, position: usize, outcome: OutcomeView) -> RunView {
    RunView {
        phase: taking_up((position + 1) as nat, state.plan.len()),
        outcomes: state.outcomes.push(outcome),
        failure: match (state.failure, outcome) {
            (None, OutcomeView::Failed(failure)) => Some(RandSelectErrorView::IoError(failure)),
            (earlier, _) => earlier,
        },
        ..state
    }
}

/// A failure of the file system at the given stage.
pub open spec fn failure_at(
    stage: Stage,
    action: Option<usize>,
    reason: Seq<char>,
) -> IoFailureView {
    IoFailureView { stage, action, reason }
}

/// The state that follows `state` on `event`, where `sample` is the
/// sample drawn if the event brings the listing. An event that does not
/// answer the request of the state leaves the state as it is.
pub open spec fn after(state: RunView, event: EventView, sample: Seq<CandidateView>) -> RunView {
    match (state.phase, event) {
        (Phase::Validating, EventView::Probed(probe)) => match validation(
            state.cli.in_dir,
            state.cli.out_dir,
            probe,
        ) {
            Ok(()) => RunView { phase: Phase::Listing, ..state },
            Err(kind) => stopped(state, RandSelectErrorView::InvalidInput(kind)),
        },
        (Phase::Listing, EventView::Listed(Ok(entries))) => RunView {
            phase: Phase::Previewing,
            plan: planned(sample, state.cli.out_dir),
            ..state
        },
        (Phase::Listing, EventView::Listed(Err(reason))) => stopped(
            state,
            RandSelectErrorView::IoError(failure_at(Stage::ReadDir, None, reason)),
        ),
        (Phase::Previewing, EventView::Shown) => if state.cli.go {
            RunView { phase: Phase::CreatingDestination, ..state }
        } else {
            RunView { phase: Phase::Finished, ..state }
        },
        (Phase::CreatingDestination, EventView::Performed(Ok(()))) => RunView {
            phase: taking_up(0, state.plan.len()),
            ..state
        },
        (Phase::CreatingDestination, EventView::Performed(Err(reason))) => stopped(
            state,
            RandSelectErrorView::IoError(failure_at(Stage::CreateDir, None, reason)),
        ),
        (Phase::Copying(i), EventView::Performed(Ok(()))) => if state.cli.move_files {
            RunView { phase: Phase::Deleting(i), ..state }
        } else {
            settled(state, i, OutcomeView::Succeeded)
        },
        (Phase::Copying(i), EventView::Performed(Err(reason))) => settled(
            state,
            i,
            OutcomeView::Failed(failure_at(Stage::Copy, Some(i), reason)),
        ),
        (Phase::Deleting(i), EventView::Performed(Ok(()))) => settled(
            state,
            i,
            OutcomeView::Succeeded,
        ),
        (Phase::Deleting(i), EventView::Performed(Err(reason))) => settled(
            state,
            i,
            OutcomeView::Failed(failure_at(Stage::Delete, Some(i), reason)),
        ),
        _ => state,
    }
}

/// The files that a plan transfers, in plan order.
pub open spec fn sources_of(plan: Seq<ActionView>) -> Seq<CandidateView> {
    Seq::new(plan.len(), |i: int| plan[i].source)
}

/// The entries that an event brings to a state that waits for the
/// listing of the source.
pub open spec fn listing_of(state: RunView, event: EventView) -> Option<Seq<ReadEntryView>> {
    match (state.phase, event) {
        (Phase::Listing, EventView::Listed(Ok(entries))) => Some(entries),
        _ => None,
    }
}

/// Whether `next` is a state that may follow `state` on `event`: it is
/// the state that `after` gives for the files that `next` plans to
/// transfer, and where the event brings the listing, those files are a
/// sample of the requested number of files among the regular files listed.
pub open spec fn follows(state: RunView, event: EventView, next: RunView) -> bool {
    let sample = sources_of(next.plan);
    &&& next == after(state, event, sample)
    &&& listing_of(state, event) matches Some(entries) ==> is_sample(
        sample,
        candidates_of(entries),
        state.cli.num_files,
        state.cli.seed,
    )
}

/// How far the transfer at `position` of the plan has come in a state.
pub open spec fn progress_of(state: RunView, position: usize) -> Progress {
    if position < state.outcomes.len() {
        match state.outcomes[position as int] {
            OutcomeView::Succeeded => if state.cli.move_files {
                Progress::Deleted
            } else {
                Progress::Copied
            },
            OutcomeView::Failed(failure) => if failure.stage == Stage::Delete {
                Progress::Kept
            } else {
                Progress::Failed
            },
        }
    } else if state.phase == Phase::Deleting(position) {
        Progress::Copied
    } else {
        Progress::Planned
    }
}

/// The failure that the outcomes of the transfers give a run: the one
/// of the first transfer that failed, if any did.
pub open spec fn first_failed(outcomes: Seq<OutcomeView>) -> Option<RandSelectErrorView>
    decreases outcomes.len(),
{
    if outcomes.len() == 0 {
        None
    } else {
        match (first_failed(outcomes.drop_last()), outcomes.last()) {
            (Some(earlier), _) => Some(earlier),
            (None, OutcomeView::Failed(failure)) => Some(RandSelectErrorView::IoError(failure)),
            (None, OutcomeView::Succeeded) => None,
        }
    }
}

/// Whether a failure ends a run before any transfer is attempted: the
/// directories were refused, the source could not be read, or the
/// destination could not be created.
pub open spec fn ends_early(failure: RandSelectErrorView) -> bool {
    match failure {
        RandSelectErrorView::InvalidInput(_) => true,
        RandSelectErrorView::IoError(failure) => failure.stage == Stage::ReadDir || failure.stage
            == Stage::CreateDir,
    }
}

/// Whether the outcomes are the outcomes of the first transfers of a
/// plan: a failure names the transfer it belongs to, and the copy or the
/// deletion as the step that failed.
pub open spec fn outcomes_are_in_plan_order(outcomes: Seq<OutcomeView>) -> bool {
    forall|i: int|
        0 <= i < outcomes.len() ==> (#[trigger] outcomes[i] matches OutcomeView::Failed(failure)
            ==> failure.action == Some(i as usize) && (failure.stage == Stage::Copy
            || failure.stage == Stage::Delete))
}

/// What holds of every state that a run can be in.
pub open spec fn well_formed(state: RunView) -> bool {
    &&& state.cli.num_files <= usize::MAX
    &&& state.plan.len() <= state.cli.num_files
    &&& outcomes_are_in_plan_order(state.outcomes)
    &&& match state.phase {
        Phase::Validating | Phase::Listing => {
            &&& state.plan.len() == 0
            &&& state.outcomes.len() == 0
            &&& state.failure is None
        },
        Phase::Previewing => state.outcomes.len() == 0 && state.failure is None,
        Phase::CreatingDestination => {
            &&& state.cli.go
            &&& state.outcomes.len() == 0
            &&& state.failure is None
        },
        Phase::Copying(i) => {
            &&& state.cli.go
            &&& i < state.plan.len()
            &&& state.outcomes.len() == i
            &&& state.failure == first_failed(state.outcomes)
        },
        Phase::Deleting(i) => {
            &&& state.cli.go
            &&& state.cli.move_files
            &&& i < state.plan.len()
            &&& state.outcomes.len() == i
            &&& state.failure == first_failed(state.outcomes)
        },
        Phase::Finished => {
            ||| {
                &&& state.failure matches Some(failure)
                &&& ends_early(failure)
                &&& state.outcomes.len() == 0
            }
            ||| {
                &&& !state.cli.go
                &&& state.failure is None
                &&& state.outcomes.len() == 0
            }
            ||| {
                &&& state.cli.go
                &&& state.failure == first_failed(state.outcomes)
                &&& state.outcomes.len() == state.plan.len()
            }
        },
    }
}

/// One run of the tool: its configuration and how far it has come.
#[derive(Debug)]
pub struct Run {
    cli: Cli,
    phase: Phase,
    plan: SelectionPlan,
    outcomes: Vec<TransferOutcome>,
    failure: Option<RandSelectError>,
}

impl View for Run {
    type V = RunView;

    closed spec fn view(&self) -> RunView {
        RunView {
            cli: self.cli@,
            phase: self.phase,
            plan: self.plan@,
            outcomes: self.outcomes.deep_view(),
            failure: match self.failure {
                Some(failure) => Some(failure@),
                None => None,
            },
        }
    }
}

/// Starts a run with the given configuration. Nothing has been examined
/// yet: the first request of the run is to examine the two directories.
pub fn run(cli: &Cli) -> (started: Run)
    ensures
        started@ == start_of(cli@),
        well_formed(started@),
{
    let started = Run {
        cli: cli.clone(),
        phase: Phase::Validating,
        plan: SelectionPlan { actions: Vec::new() },
        outcomes: Vec::new(),
        failure: None,
    };
    assert(started@.plan =~= Seq::empty());
    assert(started@.outcomes =~= Seq::empty());
    started
}

impl Run {
    #[verifier::type_invariant]
    spec fn sound(self) -> bool {
        well_formed(self@)
    }

    /// What the run is waiting for.
    pub fn phase(&self) -> (phase: Phase)
        ensures
            phase == self@.phase,
    {
        self.phase
    }

    /// Whether the run is over.
    pub fn is_finished(&self) -> (finished: bool)
        ensures
            finished == (self@.phase == Phase::Finished),
    {
        match self.phase {
            Phase::Finished => true,
            _ => false,
        }
    }

    /// The plan of the run. It is empty until the source directory has
    /// been listed.
    pub fn plan(&self) -> (plan: &SelectionPlan)
        ensures
            plan@ == self@.plan,
    {
        &self.plan
    }

    /// The outcomes of the transfers that were attempted so far, in plan
    /// order.
    pub fn outcomes(&self) -> (outcomes: &Vec<TransferOutcome>)
        ensures
            outcomes.deep_view() == self@.outcomes,
    {
        &self.outcomes
    }

    /// How far the transfer at `position` of the plan has come, or `None`
    /// if the plan has no such transfer.
    pub fn progress(&self, position: usize) -> (progress: Option<Progress>)
        ensures
            progress == if position < self@.plan.len() {
                Some(progress_of(self@, position))
            } else {
                None
            },
    {
        proof {
            use_type_invariant(self);
        }
        if position >= self.plan.actions.len() {
            return None;
        }
        if position < self.outcomes.len() {
            match &self.outcomes[position] {
                TransferOutcome::Succeeded => if self.cli.move_files {
                    Some(Progress::Deleted)
                } else {
                    Some(Progress::Copied)
                },
                TransferOutcome::Failed(failure) => match failure.stage {
                    Stage::Delete => Some(Progress::Kept),
                    _ => Some(Progress::Failed),
                },
            }
        } else {
            match self.phase {
                Phase::Deleting(current) => if current == position {
                    Some(Progress::Copied)
                } else {
                    Some(Progress::Planned)
                },
                _ => Some(Progress::Planned),
            }
        }
    }

    /// How the run ended: `None` while it is not over, then `Ok` if
    /// nothing failed, and else the first failure.
    pub fn result(&self) -> (result: Option<Result<(), RandSelectError>>)
        ensures
            self@.phase != Phase::Finished ==> result is None,
            self@.phase == Phase::Finished ==> match self@.failure {
                None => result == Some(Ok::<(), RandSelectError>(())),
                Some(failure) => result matches Some(Err(e)) && e@ == failure,
            },
    {
        match self.phase {
            Phase::Finished => match &self.failure {
                None => Some(Ok(())),
                Some(failure) => Some(Err(failure.clone())),
            },
            _ => None,
        }
    }

    /// What is to be done next.
    pub fn request(&self) -> (request: Request)
        ensures
            request@ == request_of(self@),
    {
        proof {
            use_type_invariant(self);
        }
        match self.phase {
            Phase::Validating => Request::Probe {
                source: self.cli.in_dir.clone(),
                dest: self.cli.out_dir.clone(),
            },
            Phase::Listing => Request::List { source: self.cli.in_dir.clone() },
            Phase::Previewing => Request::Show {
                lines: preview(&self.plan, self.cli.move_files),
                hint: !self.cli.go,
            },
            Phase::CreatingDestination => Request::CreateDir { path: self.cli.out_dir.clone() },
            Phase::Copying(i) => {
                let action = &self.plan.actions[i];
                Request::Copy { from: action.source.path.clone(), to: action.dest.clone() }
            },
            Phase::Deleting(i) => {
                let action = &self.plan.actions[i];
                Request::Delete { path: action.source.path.clone() }
            },
            Phase::Finished => Request::Finish,
        }
    }

    /// Takes the run one step further on what came of its request.
    ///
    /// An event that does not answer the request of the run is ignored:
    /// the run stays as it is.
    pub fn advance(self, event: Event) -> (next: Run)
        ensures
            follows(self@, event@, next@),
            well_formed(next@),
    {
        proof {
            use_type_invariant(&self);
        }
        match (self.phase, event) {
            (Phase::Validating, Event::Probed(probe)) => self.validated(probe),
            (Phase::Listing, Event::Listed(Ok(entries))) => self.listed(entries),
            (Phase::Listing, Event::Listed(Err(reason))) => self.stopped(
                IoFailure { stage: Stage::ReadDir, action: None, reason },
            ),
            (Phase::Previewing, Event::Shown) => self.shown(),
            (Phase::CreatingDestination, Event::Performed(Ok(()))) => self.created(),
            (Phase::CreatingDestination, Event::Performed(Err(reason))) => self.stopped(
                IoFailure { stage: Stage::CreateDir, action: None, reason },
            ),
            (Phase::Copying(i), Event::Performed(Ok(()))) => self.copied(i),
            (Phase::Copying(i), Event::Performed(Err(reason))) => self.settled(
                i,
                TransferOutcome::Failed(
                    IoFailure { stage: Stage::Copy, action: Some(i), reason },
                ),
            ),
            (Phase::Deleting(i), Event::Performed(Ok(()))) => self.settled(
                i,
                TransferOutcome::Succeeded,
            ),
            (Phase::Deleting(i), Event::Performed(Err(reason))) => self.settled(
                i,
                TransferOutcome::Failed(
                    IoFailure { stage: Stage::Delete, action: Some(i), reason },
                ),
            ),
            (_, _) => self,
        }
    }

    /// The directories were examined: on to the listing, unless they are
    /// refused.
    fn validated(self, probe: PathProbe) -> (next: Run)
        requires
            self@.phase == Phase::Validating,
        ensures
            next@ == after(self@, EventView::Probed(probe@), Seq::empty()),
            well_formed(next@),
    {
        proof {
            use_type_invariant(&self);
        }
        let Run { cli, phase: _, plan, outcomes, failure } = self;
        match paths_are_valid(cli.in_dir.as_str(), cli.out_dir.as_str(), &probe) {
            Ok(()) => Run { cli, phase: Phase::Listing, plan, outcomes, failure },
            Err(refusal) => Run {
                cli,
                phase: Phase::Finished,
                plan,
                outcomes,
                failure: Some(refusal),
            },
        }
    }

    /// The source was listed: a sample of its regular files is drawn and
    /// planned, and the preview is due.
    fn listed(self, entries: Vec<ReadEntry>) -> (next: Run)
        requires
            self@.phase == Phase::Listing,
        ensures
            next@ == after(
                self@,
                EventView::Listed(Ok(entries.deep_view())),
                sources_of(next@.plan),
            ),
            is_sample(
                sources_of(next@.plan),
                candidates_of(entries.deep_view()),
                self@.cli.num_files,
                self@.cli.seed,
            ),
            well_formed(next@),
    {
        proof {
            use_type_invariant(&self);
        }
        let Run { cli, phase: _, plan: _, outcomes, failure } = self;
        let candidates = list_candidates(&entries);
        let selected = sample(&candidates, cli.num_files, cli.seed);
        let plan = crate::plan::plan(&selected, cli.out_dir.as_str());
        assert(sources_of(plan@) =~= selected.deep_view());
        Run { cli, phase: Phase::Previewing, plan, outcomes, failure }
    }

    /// The preview was shown: a dry run is over, a confirmed one goes on
    /// to create the destination.
    fn shown(self) -> (next: Run)
        requires
            self@.phase == Phase::Previewing,
        ensures
            next@ == after(self@, EventView::Shown, Seq::empty()),
            well_formed(next@),
    {
        proof {
            use_type_invariant(&self);
        }
        let Run { cli, phase: _, plan, outcomes, failure } = self;
        let phase = if cli.go {
            Phase::CreatingDestination
        } else {
            Phase::Finished
        };
        Run { cli, phase, plan, outcomes, failure }
    }

    /// The destination exists: the first transfer is taken up.
    fn created(self) -> (next: Run)
        requires
            self@.phase == Phase::CreatingDestination,
        ensures
            next@ == after(self@, EventView::Performed(Ok(())), Seq::empty()),
            well_formed(next@),
    {
        proof {
            use_type_invariant(&self);
        }
        let Run { cli, phase: _, plan, outcomes, failure } = self;
        let phase = take_up(0, plan.actions.len());
        Run { cli, phase, plan, outcomes, failure }
    }

    /// The copy at `position` was made: in a move its source is deleted
    /// next, in a copy the transfer is done.
    fn copied(self, position: usize) -> (next: Run)
        requires
            self@.phase == Phase::Copying(position),
        ensures
            next@ == after(self@, EventView::Performed(Ok(())), Seq::empty()),
            well_formed(next@),
    {
        proof {
            use_type_invariant(&self);
        }
        if self.cli.move_files {
            let Run { cli, phase: _, plan, outcomes, failure } = self;
            Run { cli, phase: Phase::Deleting(position), plan, outcomes, failure }
        } else {
            self.settled(position, TransferOutcome::Succeeded)
        }
    }

    /// The run ends early on a failure of the file system.
    fn stopped(self, failure: IoFailure) -> (next: Run)
        requires
            self@.phase == Phase::Listing || self@.phase == Phase::CreatingDestination,
            failure.stage == Stage::ReadDir || failure.stage == Stage::CreateDir,
        ensures
            next@ == stopped(self@, RandSelectErrorView::IoError(failure@)),
            well_formed(next@),
    {
        proof {
            use_type_invariant(&self);
        }
        let Run { cli, phase: _, plan, outcomes, failure: _ } = self;
        Run {
            cli,
            phase: Phase::Finished,
            plan,
            outcomes,
            failure: Some(RandSelectError::IoError(failure)),
        }
    }

    /// The transfer at `position` ended with `outcome`: it is recorded,
    /// and the next transfer is taken up.
    fn settled(self, position: usize, outcome: TransferOutcome) -> (next: Run)
        requires
            self@.phase == Phase::Copying(position) || self@.phase == Phase::Deleting(position),
            outcome@ matches OutcomeView::Failed(failure) ==> failure.action == Some(position)
                && (failure.stage == Stage::Copy || failure.stage == Stage::Delete),
        ensures
            next@ == settled(self@, position, outcome@),
            well_formed(next@),
    {
        proof {
            use_type_invariant(&self);
        }
        let Run { cli, phase: _, plan, mut outcomes, failure } = self;
        let failure = match (failure, &outcome) {
            (None, TransferOutcome::Failed(failed)) => Some(
                RandSelectError::IoError(failed.clone()),
            ),
            (earlier, _) => earlier,
        };
        let phase = take_up(position + 1, plan.actions.len());
        let ghost earlier = outcomes.deep_view();
        outcomes.push(outcome);
        assert(outcomes.deep_view() =~= earlier.push(outcome@));
        assert(outcomes.deep_view().drop_last() =~= earlier);
        Run { cli, phase, plan, outcomes, failure }
    }
}

fn take_up(position: usize, plan_len: usize) -> (phase: Phase)
    ensures
        phase == taking_up(position as nat, plan_len as nat),
{
    if position < plan_len {
        Phase::Copying(position)
    } else {
        Phase::Finished
    }
}

} // verus!
