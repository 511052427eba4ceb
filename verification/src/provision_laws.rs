//! What holds of every provisioning run.

use vstd::prelude::*;
use crate::names::{is_separator, lemma_sanitized_has_no_separator};
use crate::paths::{placement, Placement};
use crate::proto::HomeDirectoryModel;
use crate::provision::{
    alias_path, enter_alias, home_name, home_path, initial, inv, is_alias_phase,
    lemma_step_keeps_inv, pending, step, ActionModel, AliasEntryModel, EventModel, Model, Phase,
};

verus! {

/// The state after the events arrived one after another in state `m`.
pub open spec fn run(m: Model, events: Seq<EventModel>) -> Model
    decreases events.len(),
{
    if events.len() == 0 {
        m
    } else {
        run(step(m, events[0]), events.drop_first())
    }
}

/// Whether an action changes the filesystem or the labeling policy.
pub open spec fn is_mutation(action: ActionModel) -> bool {
    match action {
        ActionModel::CreateHome { .. } => true,
        ActionModel::SetOwner { .. } => true,
        ActionModel::SetCreationLabel { .. } => true,
        ActionModel::MakeDirectory { .. } => true,
        ActionModel::CopyFile { .. } => true,
        ActionModel::RegisterEquivalence { .. } => true,
        ActionModel::RemoveLink { .. } => true,
        ActionModel::CreateLink { .. } => true,
        _ => false,
    }
}

/// Whether an action creates, replaces or removes an alias.
pub open spec fn touches_alias(action: ActionModel) -> bool {
    action is RemoveLink || action is CreateLink || action is ProbeAlias
}

/// A run starts in a state that holds the invariant, and its first action
/// only asks about the prefix.
pub proof fn lemma_initial_state(
    request: HomeDirectoryModel,
    prefix: Seq<char>,
    use_skeleton: bool,
    labeling: bool,
)
    ensures
        inv(initial(request, prefix, use_skeleton, labeling)),
        pending(initial(request, prefix, use_skeleton, labeling)) == (ActionModel::CheckPrefix {
            path: prefix,
        }),
{
}

/// The invariant holds after any sequence of events.
pub proof fn lemma_run_keeps_inv(m: Model, events: Seq<EventModel>)
    requires
        inv(m),
    ensures
        inv(run(m, events)),
    decreases events.len(),
{
    if events.len() > 0 {
        lemma_step_keeps_inv(m, events[0]);
        lemma_run_keeps_inv(step(m, events[0]), events.drop_first());
    }
}

/// A finished run stays as it is, whatever arrives.
pub proof fn lemma_finished_is_final(m: Model, events: Seq<EventModel>)
    requires
        m.phase == Phase::Finished,
    ensures
        run(m, events) == m,
    decreases events.len(),
{
    if events.len() > 0 {
        lemma_finished_is_final(m, events.drop_first());
    }
}

/// Where the prefix is not an existing directory the run fails at once:
/// no action of it changes anything, before or after.
pub proof fn lemma_invalid_prefix_changes_nothing(
    request: HomeDirectoryModel,
    prefix: Seq<char>,
    use_skeleton: bool,
    labeling: bool,
    events: Seq<EventModel>,
)
    ensures
        ({
            let start = initial(request, prefix, use_skeleton, labeling);
            let end = run(step(start, EventModel::Flag(false)), events);
            &&& !is_mutation(pending(start))
            &&& pending(end) == ActionModel::Finish(
                Err("Invalid home_prefix from configuration"@),
            )
        }),
{
    let start = initial(request, prefix, use_skeleton, labeling);
    lemma_finished_is_final(step(start, EventModel::Flag(false)), events);
}

/// Once a run has failed, the failure is what it reports: all that may
/// still happen is the reset of the creation label.
pub proof fn lemma_failure_is_kept(m: Model, events: Seq<EventModel>)
    requires
        inv(m),
        m.failure is Some,
    ensures
        run(m, events).failure == m.failure,
        run(m, events).phase == Phase::LabelReset || run(m, events).phase == Phase::Finished,
        !touches_alias(pending(run(m, events))),
        pending(run(m, events)) == ActionModel::ResetLabel || pending(run(m, events))
            == ActionModel::Finish(Err(m.failure->0)),
    decreases events.len(),
{
    if events.len() > 0 {
        lemma_step_keeps_inv(m, events[0]);
        lemma_failure_is_kept(step(m, events[0]), events.drop_first());
    }
}

/// Where giving the new directory to its owner fails, the request fails
/// with that reason and no alias is probed, removed or created for it.
pub proof fn lemma_owner_failure_skips_aliases(m: Model, why: Seq<char>, events: Seq<EventModel>)
    requires
        inv(m),
        m.phase == Phase::HomeOwner,
    ensures
        ({
            let end = run(step(m, EventModel::Completed(Err(why))), events);
            &&& end.failure == Some(why)
            &&& !touches_alias(pending(end))
            &&& pending(end) == ActionModel::ResetLabel || pending(end) == ActionModel::Finish(
                Err(why),
            )
        }),
{
    lemma_step_keeps_inv(m, EventModel::Completed(Err(why)));
    lemma_failure_is_kept(step(m, EventModel::Completed(Err(why))), events);
}

/// The home directory and every alias that an action names stand directly
/// below the prefix, and a link holds the sanitized name alone.
pub proof fn lemma_touched_paths_are_inside(m: Model)
    requires
        inv(m),
    ensures
        match pending(m) {
            ActionModel::ProbeHome { path } => path == home_path(m) && placement(m.prefix, path)
                == Placement::Inside,
            ActionModel::CreateHome { path, .. } => path == home_path(m) && placement(
                m.prefix,
                path,
            ) == Placement::Inside,
            ActionModel::ProbeAlias { path } => placement(m.prefix, path) == Placement::Inside,
            ActionModel::RemoveLink { path } => placement(m.prefix, path) == Placement::Inside,
            ActionModel::CreateLink { target, link } => placement(m.prefix, link)
                == Placement::Inside && target == home_name(m) && forall|i: int|
                0 <= i < target.len() ==> !is_separator(#[trigger] target[i]),
            _ => true,
        },
        m.phase == Phase::HomeOwner ==> pending(m) == (ActionModel::SetOwner {
            path: home_path(m),
            id: m.request.gid,
        }),
{
    lemma_sanitized_has_no_separator(m.request.name);
}

/// An alias whose place is taken by something that is no symbolic link is
/// passed over: the run goes on to the next alias and does not fail.
pub proof fn lemma_occupied_alias_is_left(m: Model)
    requires
        inv(m),
        m.phase == Phase::AliasProbe,
    ensures
        ({
            let next = step(m, EventModel::Entry(AliasEntryModel::Occupied));
            &&& next == enter_alias(m, m.cursor + 1)
            &&& next.failure is Some ==> next.cursor == m.cursor
        }),
{
}

/// Whether the making and filling of the directory lies behind.
pub open spec fn past_population(phase: Phase) -> bool {
    phase == Phase::LabelReset || is_alias_phase(phase) || phase == Phase::Finished
}

/// Whether an action makes, fills or gives away the home directory.
pub open spec fn touches_home(action: ActionModel) -> bool {
    action is CreateHome || action is SetOwner || action is ListSkeleton || action
        is SetCreationLabel || action is MakeDirectory || action is CopyFile || action
        is RegisterEquivalence
}

/// Once the run has turned to the label reset or to the aliases it never
/// comes back to the home directory.
pub proof fn lemma_population_is_not_resumed(m: Model, events: Seq<EventModel>)
    requires
        past_population(m.phase),
    ensures
        past_population(run(m, events).phase),
        !touches_home(pending(run(m, events))),
    decreases events.len(),
{
    if events.len() > 0 {
        lemma_population_is_not_resumed(step(m, events[0]), events.drop_first());
    }
}

/// A home directory that exists is left as it is: it is not created
/// again, its owner is not set, and no skeleton is copied into it.
pub proof fn lemma_existing_home_is_left(m: Model, events: Seq<EventModel>)
    requires
        m.phase == Phase::HomeProbe,
    ensures
        !touches_home(pending(run(step(m, EventModel::Flag(true)), events))),
{
    lemma_population_is_not_resumed(step(m, EventModel::Flag(true)), events);
}

/// An alias that is not there becomes a link to the sanitized name; one
/// that is a link is removed first and then made anew.
pub proof fn lemma_alias_is_linked(m: Model)
    requires
        inv(m),
        m.phase == Phase::AliasProbe,
    ensures
        ({
            let link = alias_path(m, m.cursor as int);
            let create = ActionModel::CreateLink { target: home_name(m), link };
            let missing = step(m, EventModel::Entry(AliasEntryModel::Missing));
            let stale = step(m, EventModel::Entry(AliasEntryModel::Link));
            &&& pending(missing) == create
            &&& pending(stale) == (ActionModel::RemoveLink { path: link })
            &&& pending(step(stale, EventModel::Completed(Ok(())))) == create
            &&& step(missing, EventModel::Completed(Ok(()))) == enter_alias(m, m.cursor + 1)
        }),
{
}

/// The place of a phase in the order of the work.
pub open spec fn stage(phase: Phase) -> nat {
    match phase {
        Phase::PrefixCheck => 0,
        Phase::LabelerOpen => 1,
        Phase::PrincipalLookup => 2,
        Phase::HomeProbe => 3,
        Phase::HomeCreate => 4,
        Phase::HomeOwner => 5,
        Phase::SkeletonList => 6,
        Phase::EntryLabel | Phase::EntryCopy | Phase::EntryOwner | Phase::EntryRule => 7,
        Phase::LabelReset => 8,
        Phase::AliasProbe | Phase::AliasUnlink | Phase::AliasLink => 9,
        Phase::Finished => 10,
    }
}

/// The place of a phase among those that deal with one entry or alias.
pub open spec fn substage(phase: Phase) -> nat {
    match phase {
        Phase::EntryCopy | Phase::AliasUnlink => 1,
        Phase::EntryOwner | Phase::AliasLink => 2,
        Phase::EntryRule => 3,
        _ => 0,
    }
}

/// Whether state `later` lies further on in the work than state `m`: in a
/// later stage, or in the same stage at a later entry or alias, or at the
/// same one in a later phase.
pub open spec fn further(m: Model, later: Model) -> bool {
    ||| stage(m.phase) < stage(later.phase)
    ||| stage(m.phase) == stage(later.phase) && m.cursor < later.cursor
    ||| stage(m.phase) == stage(later.phase) && m.cursor == later.cursor && substage(m.phase)
        < substage(later.phase)
}

/// Every event moves a run that is not finished further on, so a run
/// ends: there are eleven stages, and within one the entries and the
/// aliases are taken in order, each through at most four phases.
pub proof fn lemma_every_event_advances(m: Model, event: EventModel)
    requires
        inv(m),
        m.phase != Phase::Finished,
    ensures
        further(m, step(m, event)),
        is_alias_phase(step(m, event).phase) ==> step(m, event).cursor
            < m.request.aliases.len(),
{
}

} // verus!
