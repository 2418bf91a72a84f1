//! What holds of every run, whatever the file system answers.
//!
//! A course is the sequence of states that a run passes through on a
//! sequence of events. The laws below speak of every course, and so of
//! every way a run can go.

use vstd::prelude::*;
use crate::cli::CliView;
use crate::error::{InvalidInput, RandSelectErrorView};
use crate::listing::{
    candidates_of,
    lemma_candidates_have_unique_names,
    names_are_unique,
    ReadEntryView,
};
use crate::plan::{lemma_destinations_do_not_collide, planned, ActionView};
use crate::preview::{preview_of, PreviewLineView};
use crate::run::{
    first_failed,
    follows,
    listing_of,
    progress_of,
    request_of,
    sources_of,
    start_of,
    well_formed,
    writes,
    EventView,
    OutcomeView,
    Phase,
    Progress,
    RequestView,
    RunView,
};
use crate::sampler::{
    is_sample,
    lemma_sample_draws_distinct_candidates,
    lemma_sample_keeps_names_unique,
    lemma_seeded_sample_is_reproducible,
    sample_size,
};
use crate::validate::PathProbeView;

verus! {

/// Whether `states` are the states that a run with the configuration
/// `cli` passes through on `events`: it starts in the starting state, and
/// each event leads from one state to the next.
pub open spec fn is_course(cli: CliView, events: Seq<EventView>, states: Seq<RunView>) -> bool {
    &&& states.len() == events.len() + 1
    &&& states[0] == start_of(cli)
    &&& forall|i: int|
        0 <= i < events.len() ==> follows(states[i], #[trigger] events[i], states[i + 1])
}

/// A run starts in a well-formed state.
pub proof fn lemma_start_is_well_formed(cli: CliView)
    requires
        cli.num_files <= usize::MAX,
    ensures
        well_formed(start_of(cli)),
{
}

/// A step keeps the state well formed and the configuration as it is.
pub proof fn lemma_step_keeps_well_formed(state: RunView, event: EventView, next: RunView)
    requires
        well_formed(state),
        follows(state, event, next),
    ensures
        well_formed(next),
        next.cli == state.cli,
{
    if let Some(entries) = listing_of(state, event) {
        lemma_sample_draws_distinct_candidates(
            candidates_of(entries),
            state.cli.num_files,
            state.cli.seed,
            sources_of(next.plan),
        );
    }
    if next.outcomes.len() == state.outcomes.len() + 1 {
        assert(next.outcomes.drop_last() =~= state.outcomes);
    }
}

/// Every state of a course is well formed and has the configuration that
/// the run started with.
pub proof fn lemma_course_is_well_formed(
    cli: CliView,
    events: Seq<EventView>,
    states: Seq<RunView>,
    at: int,
)
    requires
        cli.num_files <= usize::MAX,
        is_course(cli, events, states),
        0 <= at < states.len(),
    ensures
        well_formed(states[at]),
        states[at].cli == cli,
    decreases at,
{
    if at > 0 {
        lemma_course_is_well_formed(cli, events, states, at - 1);
        lemma_step_keeps_well_formed(states[at - 1], events[at - 1], states[at]);
    }
}

/// A dry run writes nothing: without the confirmation, no state of any
/// course asks to create the destination directory, to copy a file or to
/// delete one.
pub proof fn lemma_dry_run_never_writes(cli: CliView, events: Seq<EventView>, states: Seq<RunView>)
    requires
        cli.num_files <= usize::MAX,
        is_course(cli, events, states),
        !cli.go,
    ensures
        forall|at: int| 0 <= at < states.len() ==> !writes(request_of(#[trigger] states[at])),
{
    assert forall|at: int| 0 <= at < states.len() implies !writes(
        request_of(#[trigger] states[at]),
    ) by {
        lemma_course_is_well_formed(cli, events, states, at);
    }
}

/// Whether a run is over because its source is not a directory, with
/// nothing planned and nothing left to ask for.
pub open spec fn ended_for_want_of_a_source(state: RunView) -> bool {
    &&& request_of(state) is Finish
    &&& state.failure == Some(RandSelectErrorView::InvalidInput(InvalidInput::NotADirectory))
    &&& state.plan.len() == 0
    &&& state.outcomes.len() == 0
}

/// A run whose source is not a directory ends at once: the first answer
/// finishes it with `NotADirectory`, and no later state asks to list the
/// source or to write anything.
pub proof fn lemma_missing_source_ends_the_run(
    cli: CliView,
    events: Seq<EventView>,
    states: Seq<RunView>,
    probe: PathProbeView,
)
    requires
        is_course(cli, events, states),
        events.len() > 0,
        events[0] == EventView::Probed(probe),
        !probe.source_is_dir,
    ensures
        request_of(states[0]) is Probe,
        forall|at: int|
            1 <= at < states.len() ==> ended_for_want_of_a_source(#[trigger] states[at]),
{
    assert forall|at: int| 1 <= at < states.len() implies ended_for_want_of_a_source(
        #[trigger] states[at],
    ) by {
        lemma_refused_source_stays_refused(cli, events, states, probe, at);
    }
}

proof fn lemma_refused_source_stays_refused(
    cli: CliView,
    events: Seq<EventView>,
    states: Seq<RunView>,
    probe: PathProbeView,
    at: int,
)
    requires
        is_course(cli, events, states),
        events.len() > 0,
        events[0] == EventView::Probed(probe),
        !probe.source_is_dir,
        1 <= at < states.len(),
    ensures
        ended_for_want_of_a_source(states[at]),
    decreases at,
{
    if at > 1 {
        lemma_refused_source_stays_refused(cli, events, states, probe, at - 1);
    }
    // The step before leads here: from the start on the news of the
    // source, or from the end of the run, which nothing changes.
    assert(follows(states[at - 1], events[at - 1], states[at]));
}

/// A source is deleted only after its own copy has succeeded: a step
/// arrives at the deletion for a position of the plan only from the copy
/// for that position, in a move, on the news that the copy was made.
pub proof fn lemma_delete_follows_its_copy(
    state: RunView,
    event: EventView,
    next: RunView,
    position: usize,
)
    requires
        follows(state, event, next),
        next.phase == Phase::Deleting(position),
        state.phase != next.phase,
    ensures
        state.phase == Phase::Copying(position),
        event matches EventView::Performed(Ok(_)),
        state.cli.move_files,
{
}

/// In every course, a state that asks to delete the source at a position
/// of the plan comes after a state that asked for the copy at that
/// position and was answered that the copy was made.
pub proof fn lemma_deleted_sources_were_copied(
    cli: CliView,
    events: Seq<EventView>,
    states: Seq<RunView>,
    at: int,
    position: usize,
)
    requires
        is_course(cli, events, states),
        0 <= at < states.len(),
        states[at].phase == Phase::Deleting(position),
    ensures
        exists|earlier: int|
            0 <= earlier < at && states[earlier].phase == Phase::Copying(position)
                && #[trigger] events[earlier] matches EventView::Performed(Ok(_)),
    decreases at,
{
    if at > 0 {
        let before = states[at - 1];
        let event = events[at - 1];
        if before.phase == states[at].phase {
            lemma_deleted_sources_were_copied(cli, events, states, at - 1, position);
        } else {
            lemma_delete_follows_its_copy(before, event, states[at], position);
        }
    }
}

/// Whether a transfer may go from one stage of its progress to another
/// in one step: not at all, or along one of the ways that a copy or a
/// move can take.
pub open spec fn may_become(from: Progress, to: Progress, move_files: bool) -> bool {
    ||| to == from
    ||| from == Progress::Planned && to == Progress::Failed
    ||| from == Progress::Planned && to == Progress::Copied
    ||| move_files && from == Progress::Copied && to == Progress::Deleted
    ||| move_files && from == Progress::Copied && to == Progress::Kept
}

/// Each transfer goes its way one stage at a time and never back: a step
/// leaves its progress as it is or takes it one stage further, and only
/// the transfer that the run is waiting for moves at all.
pub proof fn lemma_transfers_progress_in_stages(
    state: RunView,
    event: EventView,
    next: RunView,
    position: usize,
)
    requires
        well_formed(state),
        follows(state, event, next),
    ensures
        may_become(
            progress_of(state, position),
            progress_of(next, position),
            state.cli.move_files,
        ),
        progress_of(next, position) != progress_of(state, position) ==> state.phase
            == Phase::Copying(position) || state.phase == Phase::Deleting(position),
{
}

/// Transfers are taken up in plan order, each one once the one before it
/// is settled: a step arrives at the copy for a position only from the
/// creation of the destination, for the first position, or from the copy
/// or the deletion for the position before it. A failed transfer does not
/// keep the next one from being taken up.
pub proof fn lemma_transfers_follow_plan_order(
    state: RunView,
    event: EventView,
    next: RunView,
    position: usize,
)
    requires
        well_formed(state),
        follows(state, event, next),
        next.phase == Phase::Copying(position),
        state.phase != next.phase,
    ensures
        next.outcomes.len() == position,
        position == 0 ==> state.phase == Phase::CreatingDestination,
        position > 0 ==> state.phase == Phase::Copying((position - 1) as usize) || state.phase
            == Phase::Deleting((position - 1) as usize),
{
}

/// Once the source is listed, the plan has as many transfers as were
/// requested, or as many as there are regular files if that is less, and
/// the preview is asked for next.
pub proof fn lemma_plan_covers_the_sample(
    state: RunView,
    entries: Seq<ReadEntryView>,
    next: RunView,
)
    requires
        state.phase == Phase::Listing,
        follows(state, EventView::Listed(Ok(entries)), next),
    ensures
        next.plan.len() == sample_size(state.cli.num_files, candidates_of(entries).len()),
        is_sample(
            sources_of(next.plan),
            candidates_of(entries),
            state.cli.num_files,
            state.cli.seed,
        ),
        next.plan == planned(sources_of(next.plan), state.cli.out_dir),
        request_of(next) == (RequestView::Show {
            lines: preview_of(next.plan, state.cli.move_files),
            hint: !state.cli.go,
        }),
{
    lemma_sample_draws_distinct_candidates(
        candidates_of(entries),
        state.cli.num_files,
        state.cli.seed,
        sources_of(next.plan),
    );
}

/// No two transfers of a plan write to the same path, since the entries
/// of one directory have different names.
pub proof fn lemma_plan_has_no_collision(
    state: RunView,
    entries: Seq<ReadEntryView>,
    next: RunView,
)
    requires
        state.phase == Phase::Listing,
        follows(state, EventView::Listed(Ok(entries)), next),
        names_are_unique(entries),
    ensures
        forall|i: int, j: int|
            0 <= i < j < next.plan.len() ==> #[trigger] next.plan[i].dest
                != #[trigger] next.plan[j].dest,
{
    let sample = sources_of(next.plan);
    lemma_candidates_have_unique_names(entries);
    lemma_sample_keeps_names_unique(
        candidates_of(entries),
        state.cli.num_files,
        state.cli.seed,
        sample,
    );
    lemma_destinations_do_not_collide(sample, state.cli.out_dir);
}

/// When no file is requested, the plan is empty and the preview has no
/// line: nothing but the hint of a dry run is shown.
pub proof fn lemma_nothing_requested_plans_nothing(
    state: RunView,
    entries: Seq<ReadEntryView>,
    next: RunView,
)
    requires
        state.phase == Phase::Listing,
        state.cli.num_files == 0,
        follows(state, EventView::Listed(Ok(entries)), next),
    ensures
        next.plan == Seq::<ActionView>::empty(),
        request_of(next) == (RequestView::Show {
            lines: Seq::<PreviewLineView>::empty(),
            hint: !state.cli.go,
        }),
{
    assert(preview_of(next.plan, state.cli.move_files) =~= Seq::<PreviewLineView>::empty());
}

/// With a seed a run is determined: the same state and the same event
/// lead to one state only, so the same listing gives the same plan in the
/// same order.
pub proof fn lemma_seeded_step_is_determined(
    state: RunView,
    event: EventView,
    first: RunView,
    second: RunView,
)
    requires
        state.cli.seed is Some,
        follows(state, event, first),
        follows(state, event, second),
    ensures
        first == second,
{
    if let Some(entries) = listing_of(state, event) {
        lemma_seeded_sample_is_reproducible(
            candidates_of(entries),
            state.cli.num_files,
            state.cli.seed->0,
            sources_of(first.plan),
            sources_of(second.plan),
        );
    }
}

/// A run that finished without a failure did all it was asked to: with
/// the confirmation every planned transfer was attempted and succeeded,
/// and without it none was attempted.
pub proof fn lemma_success_means_all_transferred(state: RunView)
    requires
        well_formed(state),
        state.phase == Phase::Finished,
        state.failure is None,
    ensures
        state.cli.go ==> state.outcomes.len() == state.plan.len(),
        !state.cli.go ==> state.outcomes.len() == 0,
        forall|i: int| 0 <= i < state.outcomes.len() ==> state.outcomes[i] is Succeeded,
{
    lemma_no_failure_means_all_succeeded(state.outcomes);
}

/// A run with a failed transfer is a failed run, and a failed transfer
/// stops no other: once a confirmed run is over, every planned transfer
/// has its outcome unless the run ended before the first one, and the
/// failure of the run is the failure of the first transfer that failed.
pub proof fn lemma_failed_transfer_fails_the_run(state: RunView, position: int)
    requires
        well_formed(state),
        state.phase == Phase::Finished,
        0 <= position < state.outcomes.len(),
        state.outcomes[position] is Failed,
        forall|i: int| 0 <= i < position ==> state.outcomes[i] is Succeeded,
    ensures
        state.outcomes.len() == state.plan.len(),
        state.failure == Some(RandSelectErrorView::IoError(state.outcomes[position]->Failed_0)),
        state.outcomes[position]->Failed_0.action == Some(position as usize),
{
    lemma_first_failed_is_the_first(state.outcomes, position);
}

/// The failure that outcomes give a run is absent while all of them are
/// successes, and is the failure of the first one that is not.
pub proof fn lemma_first_failed_is_the_first(outcomes: Seq<OutcomeView>, position: int)
    requires
        0 <= position < outcomes.len(),
        forall|i: int| 0 <= i < position ==> outcomes[i] is Succeeded,
    ensures
        first_failed(outcomes.take(position)) is None,
        outcomes[position] matches OutcomeView::Failed(failure) ==> first_failed(outcomes) == Some(
            RandSelectErrorView::IoError(failure),
        ),
        first_failed(outcomes) is None ==> outcomes[position] is Succeeded,
    decreases outcomes.len(),
{
    let shorter = outcomes.drop_last();
    if position < shorter.len() {
        assert forall|i: int| 0 <= i < position implies shorter[i] is Succeeded by {}
        lemma_first_failed_is_the_first(shorter, position);
        assert(shorter.take(position) =~= outcomes.take(position));
    } else {
        lemma_successes_give_no_failure(shorter);
    }
}

/// Outcomes that give a run no failure are all successes.
proof fn lemma_no_failure_means_all_succeeded(outcomes: Seq<OutcomeView>)
    requires
        first_failed(outcomes) is None,
    ensures
        forall|i: int| 0 <= i < outcomes.len() ==> outcomes[i] is Succeeded,
    decreases outcomes.len(),
{
    if outcomes.len() > 0 {
        let shorter = outcomes.drop_last();
        lemma_no_failure_means_all_succeeded(shorter);
        assert forall|i: int| 0 <= i < outcomes.len() implies outcomes[i] is Succeeded by {
            if i < shorter.len() {
                assert(shorter[i] == outcomes[i]);
            }
        }
    }
}

/// Outcomes that are all successes give a run no failure.
proof fn lemma_successes_give_no_failure(outcomes: Seq<OutcomeView>)
    requires
        forall|i: int| 0 <= i < outcomes.len() ==> outcomes[i] is Succeeded,
    ensures
        first_failed(outcomes) is None,
    decreases outcomes.len(),
{
    if outcomes.len() > 0 {
        let shorter = outcomes.drop_last();
        assert forall|i: int| 0 <= i < shorter.len() implies shorter[i] is Succeeded by {}
        lemma_successes_give_no_failure(shorter);
    }
}

/// A finished run stays finished: no event changes it.
pub proof fn lemma_finished_is_final(state: RunView, event: EventView, next: RunView)
    requires
        state.phase == Phase::Finished,
        follows(state, event, next),
    ensures
        next == state,
{
}

} // verus!
