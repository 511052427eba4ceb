//! Home directory provisioning as a sequence of actions.
//!
//! A `Provisioner` never touches the filesystem. It names the next action,
//! takes what the action gave, and decides what follows, so that the order
//! of the mutations and the paths they touch are fixed here.

use vstd::prelude::*;
use crate::names::sanitized;
use crate::paths::{entry_path, path_joined, placement, Placement};
use crate::proto::HomeDirectoryModel;

verus! {

/// The creation mask in force while the home directory is made.
pub const CREATION_MASK: u32 = 0o027;

/// What the provisioner is waiting for.
#[derive(Clone, Copy, Debug, PartialEq, Eq, Structural)]
pub enum Phase {
    PrefixCheck,
    LabelerOpen,
    PrincipalLookup,
    HomeProbe,
    HomeCreate,
    HomeOwner,
    SkeletonList,
    EntryLabel,
    EntryCopy,
    EntryOwner,
    EntryRule,
    LabelReset,
    AliasProbe,
    AliasUnlink,
    AliasLink,
    Finished,
}

/// One entry of the skeleton template, by its path relative to the
/// template's root.
#[derive(Clone, Debug, PartialEq, Eq)]
pub struct SkeletonEntry {
    pub relative: String,
    pub is_dir: bool,
}

/// The mathematical content of a `SkeletonEntry`.
pub struct SkeletonEntryModel {
    pub relative: Seq<char>,
    pub is_dir: bool,
}

impl View for SkeletonEntry {
    type V = SkeletonEntryModel;

    open spec fn view(&self) -> SkeletonEntryModel {
        SkeletonEntryModel { relative: self.relative@, is_dir: self.is_dir }
    }
}

/// The contents of a list of skeleton entries, in order.
pub open spec fn entries(items: Seq<SkeletonEntry>) -> Seq<SkeletonEntryModel> {
    items.map_values(|e: SkeletonEntry| e@)
}

/// What occupies the place of an alias.
#[derive(Clone, Debug, PartialEq, Eq)]
pub enum AliasEntry {
    /// Nothing is there.
    Missing,
    /// A symbolic link is there.
    Link,
    /// Something that is no symbolic link is there.
    Occupied,
    /// The place could not be inspected.
    Unreadable(String),
}

/// The mathematical content of an `AliasEntry`.
pub enum AliasEntryModel {
    Missing,
    Link,
    Occupied,
    Unreadable(Seq<char>),
}

impl View for AliasEntry {
    type V = AliasEntryModel;

    open spec fn view(&self) -> AliasEntryModel {
        match self {
            AliasEntry::Missing => AliasEntryModel::Missing,
            AliasEntry::Link => AliasEntryModel::Link,
            AliasEntry::Occupied => AliasEntryModel::Occupied,
            AliasEntry::Unreadable(why) => AliasEntryModel::Unreadable(why@),
        }
    }
}

/// What an action gave.
#[derive(Debug, PartialEq, Eq)]
pub enum Event {
    /// The answer to a yes-or-no question.
    Flag(bool),
    /// The principal's name, where the identity database has one.
    Principal(Option<String>),
    /// Whether a mutation succeeded, with the reason where it did not.
    Completed(Result<(), String>),
    /// The skeleton's entries, parents before children, or nothing where
    /// there is no skeleton.
    Listing(Option<Vec<SkeletonEntry>>),
    /// What was found at an alias.
    Entry(AliasEntry),
}

/// The mathematical content of an `Event`.
pub enum EventModel {
    Flag(bool),
    Principal(Option<Seq<char>>),
    Completed(Result<(), Seq<char>>),
    Listing(Option<Seq<SkeletonEntryModel>>),
    Entry(AliasEntryModel),
}

impl View for Event {
    type V = EventModel;

    open spec fn view(&self) -> EventModel {
        match self {
            Event::Flag(yes) => EventModel::Flag(*yes),
            Event::Principal(name) => EventModel::Principal(
                match name {
                    Some(n) => Some(n@),
                    None => None,
                },
            ),
            Event::Completed(done) => EventModel::Completed(
                match done {
                    Ok(_) => Ok(()),
                    Err(why) => Err(why@),
                },
            ),
            Event::Listing(found) => EventModel::Listing(
                match found {
                    Some(list) => Some(entries(list@)),
                    None => None,
                },
            ),
            Event::Entry(entry) => EventModel::Entry(entry@),
        }
    }
}

/// What is to be done next. Every path is complete as it stands.
#[derive(Debug, PartialEq, Eq)]
pub enum Action {
    /// Ask whether the path exists and is a directory.
    CheckPrefix { path: String },
    /// Obtain the labeling handle.
    OpenLabeler,
    /// Ask the identity database for the name of the principal.
    LookupPrincipal { id: u32 },
    /// Ask whether anything exists at the path.
    ProbeHome { path: String },
    /// Create the directory under the creation mask, labeled as the
    /// template path would be where one is given, and restore the mask
    /// whatever happened.
    CreateHome { path: String, mask: u32, label_for: Option<String> },
    /// Give the path to the owner, as user and as group, without
    /// following a symbolic link.
    SetOwner { path: String, id: u32 },
    /// List the skeleton template, if it exists.
    ListSkeleton,
    /// Label what is created next as the template path would be.
    SetCreationLabel { template: String },
    /// Create a directory, with any missing parents.
    MakeDirectory { path: String },
    /// Copy the skeleton's file at `relative` to `target`.
    CopyFile { relative: String, target: String },
    /// Record that `target` is labeled as `template` would be.
    RegisterEquivalence { template: String, target: String },
    /// Return the creation label to the system's default.
    ResetLabel,
    /// Ask what occupies the alias.
    ProbeAlias { path: String },
    /// Delete the symbolic link at the path.
    RemoveLink { path: String },
    /// Create a symbolic link at `link` that holds `target` as written.
    CreateLink { target: String, link: String },
    /// Nothing remains: the request succeeded, or failed with a message.
    Finish(Result<(), String>),
}

/// The mathematical content of an `Action`.
pub enum ActionModel {
    CheckPrefix { path: Seq<char> },
    OpenLabeler,
    LookupPrincipal { id: u32 },
    ProbeHome { path: Seq<char> },
    CreateHome { path: Seq<char>, mask: u32, label_for: Option<Seq<char>> },
    SetOwner { path: Seq<char>, id: u32 },
    ListSkeleton,
    SetCreationLabel { template: Seq<char> },
    MakeDirectory { path: Seq<char> },
    CopyFile { relative: Seq<char>, target: Seq<char> },
    RegisterEquivalence { template: Seq<char>, target: Seq<char> },
    ResetLabel,
    ProbeAlias { path: Seq<char> },
    RemoveLink { path: Seq<char> },
    CreateLink { target: Seq<char>, link: Seq<char> },
    Finish(Result<(), Seq<char>>),
}

impl View for Action {
    type V = ActionModel;

    open spec fn view(&self) -> ActionModel {
        match self {
            Action::CheckPrefix { path } => ActionModel::CheckPrefix { path: path@ },
            Action::OpenLabeler => ActionModel::OpenLabeler,
            Action::LookupPrincipal { id } => ActionModel::LookupPrincipal { id: *id },
            Action::ProbeHome { path } => ActionModel::ProbeHome { path: path@ },
            Action::CreateHome { path, mask, label_for } => ActionModel::CreateHome {
                path: path@,
                mask: *mask,
                label_for: match label_for {
                    Some(l) => Some(l@),
                    None => None,
                },
            },
            Action::SetOwner { path, id } => ActionModel::SetOwner { path: path@, id: *id },
            Action::ListSkeleton => ActionModel::ListSkeleton,
            Action::SetCreationLabel { template } => ActionModel::SetCreationLabel {
                template: template@,
            },
            Action::MakeDirectory { path } => ActionModel::MakeDirectory { path: path@ },
            Action::CopyFile { relative, target } => ActionModel::CopyFile {
                relative: relative@,
                target: target@,
            },
            Action::RegisterEquivalence { template, target } => ActionModel::RegisterEquivalence {
                template: template@,
                target: target@,
            },
            Action::ResetLabel => ActionModel::ResetLabel,
            Action::ProbeAlias { path } => ActionModel::ProbeAlias { path: path@ },
            Action::RemoveLink { path } => ActionModel::RemoveLink { path: path@ },
            Action::CreateLink { target, link } => ActionModel::CreateLink {
                target: target@,
                link: link@,
            },
            Action::Finish(outcome) => ActionModel::Finish(
                match outcome {
                    Ok(_) => Ok(()),
                    Err(why) => Err(why@),
                },
            ),
        }
    }
}

/// The state of one provisioning run.
pub struct Model {
    pub request: HomeDirectoryModel,
    pub prefix: Seq<char>,
    pub use_skeleton: bool,
    pub labeling: bool,
    pub phase: Phase,
    /// The alias or the skeleton entry in hand.
    pub cursor: nat,
    pub skeleton: Seq<SkeletonEntryModel>,
    /// The path whose label the home directory is to carry.
    pub label_path: Option<Seq<char>>,
    /// The first failure, once there is one.
    pub failure: Option<Seq<char>>,
}

/// The state in which every run starts.
pub open spec fn initial(
    request: HomeDirectoryModel,
    prefix: Seq<char>,
    use_skeleton: bool,
    labeling: bool,
) -> Model {
    Model {
        request,
        prefix,
        use_skeleton,
        labeling,
        phase: Phase::PrefixCheck,
        cursor: 0,
        skeleton: Seq::empty(),
        label_path: None,
        failure: None,
    }
}

/// The name of the home directory.
pub open spec fn home_name(m: Model) -> Seq<char> {
    sanitized(m.request.name)
}

/// The path of the home directory.
pub open spec fn home_path(m: Model) -> Seq<char> {
    entry_path(m.prefix, home_name(m))
}

/// The path of the alias at `index`.
pub open spec fn alias_path(m: Model, index: int) -> Seq<char> {
    entry_path(m.prefix, sanitized(m.request.aliases[index]))
}

/// Whether the phase deals with an alias.
pub open spec fn is_alias_phase(phase: Phase) -> bool {
    phase == Phase::AliasProbe || phase == Phase::AliasUnlink || phase == Phase::AliasLink
}

/// Whether the phase deals with a skeleton entry.
pub open spec fn is_entry_phase(phase: Phase) -> bool {
    phase == Phase::EntryLabel || phase == Phase::EntryCopy || phase == Phase::EntryOwner || phase
        == Phase::EntryRule
}

/// Whether the phase belongs to the making and filling of the directory.
pub open spec fn is_population_phase(phase: Phase) -> bool {
    phase == Phase::HomeProbe || phase == Phase::HomeCreate || phase == Phase::HomeOwner || phase
        == Phase::SkeletonList || is_entry_phase(phase)
}

/// The run ends, and nothing more is done. It reports this failure,
/// unless it had failed before: the first failure is the one reported.
pub open spec fn failed(m: Model, why: Seq<char>) -> Model {
    Model {
        phase: Phase::Finished,
        failure: if m.failure is Some {
            m.failure
        } else {
            Some(why)
        },
        ..m
    }
}

/// A failure while the directory is made or filled: with labeling the
/// creation label is still reset before the run ends.
pub open spec fn population_failed(m: Model, why: Seq<char>) -> Model {
    if m.labeling {
        Model { phase: Phase::LabelReset, failure: Some(why), ..m }
    } else {
        failed(m, why)
    }
}

/// Turns to the alias at `index`: the run is over where there is none, and
/// fails where the alias would not stand directly below the prefix.
pub open spec fn enter_alias(m: Model, index: nat) -> Model {
    if index >= m.request.aliases.len() {
        Model { phase: Phase::Finished, cursor: index, ..m }
    } else {
        match placement(m.prefix, alias_path(m, index as int)) {
            Placement::Inside => Model { phase: Phase::AliasProbe, cursor: index, ..m },
            Placement::Outside => failed(
                m,
                "Invalid home directory alias - not within home_prefix"@,
            ),
            Placement::Rootless => failed(
                m,
                "Invalid/Corrupt alias directory path - no prefix found"@,
            ),
        }
    }
}

/// The directory stands: reset the creation label where labeling is on,
/// then turn to the aliases.
pub open spec fn populated(m: Model) -> Model {
    if m.labeling {
        Model { phase: Phase::LabelReset, ..m }
    } else {
        enter_alias(m, 0)
    }
}

/// Turns to the skeleton entry at `index`.
pub open spec fn enter_entry(m: Model, index: nat) -> Model {
    if index >= m.skeleton.len() {
        populated(m)
    } else if m.labeling {
        Model { phase: Phase::EntryLabel, cursor: index, ..m }
    } else {
        Model { phase: Phase::EntryCopy, cursor: index, ..m }
    }
}

/// The state that follows once the prefix is known to be a directory.
pub open spec fn prefix_accepted(m: Model) -> Model {
    match placement(m.prefix, home_path(m)) {
        Placement::Inside => if m.labeling {
            Model { phase: Phase::LabelerOpen, ..m }
        } else {
            Model { phase: Phase::HomeProbe, ..m }
        },
        Placement::Outside => failed(m, "Invalid home directory name - not within home_prefix"@),
        Placement::Rootless => failed(
            m,
            "Invalid/Corrupt home directory path - no prefix found"@,
        ),
    }
}

/// The state after `event` arrived in state `m`.
pub open spec fn step(m: Model, event: EventModel) -> Model {
    match (m.phase, event) {
        (Phase::Finished, _) => m,
        (Phase::PrefixCheck, EventModel::Flag(is_dir)) => if is_dir {
            prefix_accepted(m)
        } else {
            failed(m, "Invalid home_prefix from configuration"@)
        },
        (Phase::LabelerOpen, EventModel::Completed(Ok(_))) => Model {
            phase: Phase::PrincipalLookup,
            ..m
        },
        (Phase::LabelerOpen, EventModel::Completed(Err(why))) => failed(m, why),
        (Phase::PrincipalLookup, EventModel::Principal(Some(name))) => Model {
            phase: Phase::HomeProbe,
            label_path: Some(entry_path(m.prefix, name)),
            ..m
        },
        (Phase::PrincipalLookup, EventModel::Principal(None)) => failed(
            m,
            "Failed looking up username by uid for SELinux relabeling"@,
        ),
        (Phase::HomeProbe, EventModel::Flag(exists)) => if exists {
            populated(m)
        } else {
            Model { phase: Phase::HomeCreate, ..m }
        },
        (Phase::HomeCreate, EventModel::Completed(Ok(_))) => Model {
            phase: Phase::HomeOwner,
            ..m
        },
        (Phase::HomeOwner, EventModel::Completed(Ok(_))) => if m.use_skeleton {
            Model { phase: Phase::SkeletonList, ..m }
        } else {
            populated(m)
        },
        (Phase::SkeletonList, EventModel::Listing(None)) => populated(m),
        (Phase::SkeletonList, EventModel::Listing(Some(list))) => enter_entry(
            Model { skeleton: list, ..m },
            0,
        ),
        (Phase::EntryLabel, EventModel::Completed(Ok(_))) => Model {
            phase: Phase::EntryCopy,
            ..m
        },
        (Phase::EntryCopy, EventModel::Completed(Ok(_))) => Model {
            phase: Phase::EntryOwner,
            ..m
        },
        (Phase::EntryOwner, EventModel::Completed(Ok(_))) => if m.labeling {
            Model { phase: Phase::EntryRule, ..m }
        } else {
            enter_entry(m, m.cursor + 1)
        },
        (Phase::EntryRule, EventModel::Completed(Ok(_))) => enter_entry(m, m.cursor + 1),
        (Phase::EntryRule, EventModel::Completed(Err(_))) => population_failed(
            m,
            "Failed creating SELinux policy equivalence rule"@,
        ),
        (Phase::LabelReset, EventModel::Completed(done)) => if m.failure is Some {
            Model { phase: Phase::Finished, ..m }
        } else if done is Ok {
            enter_alias(m, 0)
        } else {
            failed(m, "Failed resetting SELinux file creation contexts"@)
        },
        (Phase::AliasProbe, EventModel::Entry(AliasEntryModel::Missing)) => Model {
            phase: Phase::AliasLink,
            ..m
        },
        (Phase::AliasProbe, EventModel::Entry(AliasEntryModel::Link)) => Model {
            phase: Phase::AliasUnlink,
            ..m
        },
        (Phase::AliasProbe, EventModel::Entry(AliasEntryModel::Occupied)) => enter_alias(
            m,
            m.cursor + 1,
        ),
        (Phase::AliasProbe, EventModel::Entry(AliasEntryModel::Unreadable(why))) => failed(m, why),
        (Phase::AliasUnlink, EventModel::Completed(Ok(_))) => Model {
            phase: Phase::AliasLink,
            ..m
        },
        (Phase::AliasLink, EventModel::Completed(Ok(_))) => enter_alias(m, m.cursor + 1),
        (_, other) => stopped(m, refusal(other)),
    }
}

/// The message with which an event that the pending action does not
/// provide for ends the run: the reason of a failed mutation, or a note
/// that the event was not expected.
pub open spec fn refusal(event: EventModel) -> Seq<char> {
    match event {
        EventModel::Completed(Err(why)) => why,
        _ => "Unexpected event for the pending action"@,
    }
}

/// The run stops with a failure, in the way that its phase asks for.
pub open spec fn stopped(m: Model, why: Seq<char>) -> Model {
    if is_population_phase(m.phase) {
        population_failed(m, why)
    } else {
        failed(m, why)
    }
}

/// The path of the skeleton entry in hand below `base`.
pub open spec fn entry_target(m: Model, base: Seq<char>) -> Seq<char> {
    path_joined(base, m.skeleton[m.cursor as int].relative)
}

/// The action that state `m` asks for.
pub open spec fn pending(m: Model) -> ActionModel {
    match m.phase {
        Phase::PrefixCheck => ActionModel::CheckPrefix { path: m.prefix },
        Phase::LabelerOpen => ActionModel::OpenLabeler,
        Phase::PrincipalLookup => ActionModel::LookupPrincipal { id: m.request.gid },
        Phase::HomeProbe => ActionModel::ProbeHome { path: home_path(m) },
        Phase::HomeCreate => ActionModel::CreateHome {
            path: home_path(m),
            mask: CREATION_MASK,
            label_for: m.label_path,
        },
        Phase::HomeOwner => ActionModel::SetOwner { path: home_path(m), id: m.request.gid },
        Phase::SkeletonList => ActionModel::ListSkeleton,
        Phase::EntryLabel => ActionModel::SetCreationLabel {
            template: entry_target(m, m.label_path->0),
        },
        Phase::EntryCopy => if m.skeleton[m.cursor as int].is_dir {
            ActionModel::MakeDirectory { path: entry_target(m, home_path(m)) }
        } else {
            ActionModel::CopyFile {
                relative: m.skeleton[m.cursor as int].relative,
                target: entry_target(m, home_path(m)),
            }
        },
        Phase::EntryOwner => ActionModel::SetOwner {
            path: entry_target(m, home_path(m)),
            id: m.request.gid,
        },
        Phase::EntryRule => ActionModel::RegisterEquivalence {
            template: m.label_path->0,
            target: home_path(m),
        },
        Phase::LabelReset => ActionModel::ResetLabel,
        Phase::AliasProbe => ActionModel::ProbeAlias { path: alias_path(m, m.cursor as int) },
        Phase::AliasUnlink => ActionModel::RemoveLink { path: alias_path(m, m.cursor as int) },
        Phase::AliasLink => ActionModel::CreateLink {
            target: home_name(m),
            link: alias_path(m, m.cursor as int),
        },
        Phase::Finished => ActionModel::Finish(
            match m.failure {
                None => Ok(()),
                Some(why) => Err(why),
            },
        ),
    }
}

/// What holds of every state that a run can reach.
pub open spec fn inv(m: Model) -> bool {
    &&& is_alias_phase(m.phase) ==> m.cursor < m.request.aliases.len() && placement(
        m.prefix,
        alias_path(m, m.cursor as int),
    ) == Placement::Inside
    &&& is_entry_phase(m.phase) ==> m.cursor < m.skeleton.len()
    &&& is_population_phase(m.phase) || is_alias_phase(m.phase) || m.phase == Phase::LabelReset
        || m.phase == Phase::LabelerOpen || m.phase == Phase::PrincipalLookup ==> placement(
        m.prefix,
        home_path(m),
    ) == Placement::Inside
    &&& m.labeling && (is_population_phase(m.phase) || m.phase == Phase::LabelReset)
        ==> m.label_path is Some
    &&& !m.labeling ==> m.phase != Phase::LabelerOpen && m.phase != Phase::PrincipalLookup
        && m.phase != Phase::EntryLabel && m.phase != Phase::EntryRule && m.phase
        != Phase::LabelReset
    &&& m.failure is Some ==> m.phase == Phase::LabelReset || m.phase == Phase::Finished
    &&& m.phase == Phase::PrefixCheck ==> m.label_path is None
}

/// Every state that a run reaches from a state that holds the invariant
/// holds it too.
pub proof fn lemma_step_keeps_inv(m: Model, event: EventModel)
    requires
        inv(m),
    ensures
        inv(step(m, event)),
{
}

} // verus!
