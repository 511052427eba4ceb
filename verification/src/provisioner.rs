//! The executable provisioner: one run of home directory provisioning,
//! driven by the events that its actions give.

use vstd::prelude::*;
use vstd::string::*;
use crate::names::sanitize_name;
use crate::paths::{join_entry, join_path, placement, placement_of, Placement};
use crate::proto::HomeDirectoryInfo;
use crate::provision::{
    alias_path, enter_alias, enter_entry, entries, entry_target, failed, home_path, initial, inv,
    is_population_phase, lemma_step_keeps_inv, pending, populated, prefix_accepted, refusal, step,
    stopped, Action, AliasEntry, Event, Model, Phase, SkeletonEntry, CREATION_MASK,
};

verus! {

/// Where a run stands: its phase, and the alias or skeleton entry in hand.
#[derive(Clone, Copy)]
struct Position {
    phase: Phase,
    cursor: usize,
}

impl Position {
    fn to(self, phase: Phase) -> (next: Position)
        ensures
            next == (Position { phase, cursor: self.cursor }),
    {
        Position { phase, cursor: self.cursor }
    }
}

/// One provisioning run. Its state is always one that a run can reach:
/// `inv` holds of its view.
pub struct Provisioner {
    info: HomeDirectoryInfo,
    prefix: String,
    use_skeleton: bool,
    labeling: bool,
    at: Position,
    skeleton: Vec<SkeletonEntry>,
    label_path: Option<String>,
    failure: Option<String>,
}

impl View for Provisioner {
    type V = Model;

    closed spec fn view(&self) -> Model {
        Model {
            request: self.info@,
            prefix: self.prefix@,
            use_skeleton: self.use_skeleton,
            labeling: self.labeling,
            phase: self.at.phase,
            cursor: self.at.cursor as nat,
            skeleton: entries(self.skeleton@),
            label_path: match self.label_path {
                Some(l) => Some(l@),
                None => None,
            },
            failure: match self.failure {
                Some(f) => Some(f@),
                None => None,
            },
        }
    }
}

impl Provisioner {
    #[verifier::type_invariant]
    spec fn reachable(&self) -> bool {
        inv(self@)
    }

    /// Starts a run for `info` below `home_prefix`. The skeleton is copied
    /// into a new directory where `use_skeleton` is set, and labels are
    /// applied where `labeling` is.
    pub fn new(info: HomeDirectoryInfo, home_prefix: &str, use_skeleton: bool, labeling: bool) -> (run:
        Self)
        ensures
            inv(run@),
            run@ == initial(info@, home_prefix@, use_skeleton, labeling),
    {
        let run = Provisioner {
            info,
            prefix: String::from_str(home_prefix),
            use_skeleton,
            labeling,
            at: Position { phase: Phase::PrefixCheck, cursor: 0 },
            skeleton: Vec::new(),
            label_path: None,
            failure: None,
        };
        proof {
            assert(entries(run.skeleton@) =~= Seq::empty());
        }
        run
    }

    /// What the run is waiting for.
    pub fn phase(&self) -> (phase: Phase)
        ensures
            phase == self@.phase,
    {
        self.at.phase
    }

    /// Whether nothing remains to be done.
    pub fn is_finished(&self) -> (done: bool)
        ensures
            done == (self@.phase == Phase::Finished),
    {
        self.at.phase == Phase::Finished
    }

    fn home(&self) -> (path: String)
        ensures
            path@ == home_path(self@),
    {
        let name = sanitize_name(self.info.name.as_str());
        join_entry(self.prefix.as_str(), name.as_str())
    }

    fn alias(&self, index: usize) -> (path: String)
        requires
            index < self@.request.aliases.len(),
        ensures
            path@ == alias_path(self@, index as int),
    {
        let name = sanitize_name(self.info.aliases[index].as_str());
        join_entry(self.prefix.as_str(), name.as_str())
    }

    fn target(&self, base: &str) -> (path: String)
        requires
            self@.cursor < self@.skeleton.len(),
        ensures
            path@ == entry_target(self@, base@),
    {
        join_path(base, self.skeleton[self.at.cursor].relative.as_str())
    }

    /// The action that the run asks for next.
    pub fn action(&self) -> (action: Action)
        ensures
            inv(self@),
            action@ == pending(self@),
    {
        proof {
            use_type_invariant(self);
        }
        match self.at.phase {
            Phase::PrefixCheck => Action::CheckPrefix { path: self.prefix.clone() },
            Phase::LabelerOpen => Action::OpenLabeler,
            Phase::PrincipalLookup => Action::LookupPrincipal { id: self.info.gid },
            Phase::HomeProbe => Action::ProbeHome { path: self.home() },
            Phase::HomeCreate => Action::CreateHome {
                path: self.home(),
                mask: CREATION_MASK,
                label_for: self.label_path.clone(),
            },
            Phase::HomeOwner => Action::SetOwner { path: self.home(), id: self.info.gid },
            Phase::SkeletonList => Action::ListSkeleton,
            Phase::EntryLabel => match &self.label_path {
                Some(template) => Action::SetCreationLabel {
                    template: self.target(template.as_str()),
                },
                // Not reached: an entry is labeled only where labeling is on,
                // and then the label path is known.
                None => Action::ResetLabel,
            },
            Phase::EntryCopy => {
                let home = self.home();
                let target = self.target(home.as_str());
                if self.skeleton[self.at.cursor].is_dir {
                    Action::MakeDirectory { path: target }
                } else {
                    Action::CopyFile {
                        relative: self.skeleton[self.at.cursor].relative.clone(),
                        target,
                    }
                }
            },
            Phase::EntryOwner => {
                let home = self.home();
                Action::SetOwner { path: self.target(home.as_str()), id: self.info.gid }
            },
            Phase::EntryRule => match &self.label_path {
                Some(template) => Action::RegisterEquivalence {
                    template: template.clone(),
                    target: self.home(),
                },
                // Not reached, as above.
                None => Action::ResetLabel,
            },
            Phase::LabelReset => Action::ResetLabel,
            Phase::AliasProbe => Action::ProbeAlias { path: self.alias(self.at.cursor) },
            Phase::AliasUnlink => Action::RemoveLink { path: self.alias(self.at.cursor) },
            Phase::AliasLink => Action::CreateLink {
                target: sanitize_name(self.info.name.as_str()),
                link: self.alias(self.at.cursor),
            },
            Phase::Finished => Action::Finish(
                match &self.failure {
                    None => Ok(()),
                    Some(why) => Err(why.clone()),
                },
            ),
        }
    }

    fn fail(&mut self, why: String)
        ensures
            final(self)@ == failed(old(self)@, why@),
    {
        proof {
            use_type_invariant(&*self);
        }
        self.at = self.at.to(Phase::Finished);
        if self.failure.is_none() {
            self.failure = Some(why);
        }
    }

    fn stop(&mut self, why: String)
        ensures
            final(self)@ == stopped(old(self)@, why@),
    {
        proof {
            use_type_invariant(&*self);
        }
        let population = match self.at.phase {
            Phase::HomeProbe | Phase::HomeCreate | Phase::HomeOwner | Phase::SkeletonList
            | Phase::EntryLabel | Phase::EntryCopy | Phase::EntryOwner | Phase::EntryRule => true,
            _ => false,
        };
        if population && self.labeling {
            self.at = self.at.to(Phase::LabelReset);
            self.failure = Some(why);
        } else {
            self.fail(why);
        }
    }

    fn reject(&mut self, event: Event)
        ensures
            final(self)@ == stopped(old(self)@, refusal(event@)),
    {
        match event {
            Event::Completed(Err(why)) => self.stop(why),
            _ => self.stop(String::from_str("Unexpected event for the pending action")),
        }
    }

    fn turn_to_alias(&mut self, index: usize)
        requires
            placement(old(self)@.prefix, home_path(old(self)@)) == Placement::Inside,
            old(self)@.failure is None,
        ensures
            final(self)@ == enter_alias(old(self)@, index as nat),
    {
        proof {
            use_type_invariant(&*self);
        }
        if index >= self.info.aliases.len() {
            self.at = Position { phase: Phase::Finished, cursor: index };
        } else {
            let path = self.alias(index);
            match placement_of(self.prefix.as_str(), path.as_str()) {
                Placement::Inside => {
                    self.at = Position { phase: Phase::AliasProbe, cursor: index };
                },
                Placement::Outside => self.fail(
                    String::from_str("Invalid home directory alias - not within home_prefix"),
                ),
                Placement::Rootless => self.fail(
                    String::from_str("Invalid/Corrupt alias directory path - no prefix found"),
                ),
            }
        }
    }

    fn finish_population(&mut self)
        requires
            is_population_phase(old(self)@.phase),
        ensures
            final(self)@ == populated(old(self)@),
    {
        proof {
            use_type_invariant(&*self);
        }
        if self.labeling {
            self.at = self.at.to(Phase::LabelReset);
        } else {
            self.turn_to_alias(0);
        }
    }

    fn turn_to_entry(&mut self, index: usize)
        requires
            is_population_phase(old(self)@.phase),
        ensures
            final(self)@ == enter_entry(old(self)@, index as nat),
    {
        proof {
            use_type_invariant(&*self);
        }
        if index >= self.skeleton.len() {
            self.finish_population();
        } else if self.labeling {
            self.at = Position { phase: Phase::EntryLabel, cursor: index };
        } else {
            self.at = Position { phase: Phase::EntryCopy, cursor: index };
        }
    }

    fn accept_prefix(&mut self)
        requires
            old(self)@.phase == Phase::PrefixCheck,
        ensures
            final(self)@ == prefix_accepted(old(self)@),
    {
        proof {
            use_type_invariant(&*self);
        }
        let home = self.home();
        match placement_of(self.prefix.as_str(), home.as_str()) {
            Placement::Inside => {
                if self.labeling {
                    self.at = self.at.to(Phase::LabelerOpen);
                } else {
                    self.at = self.at.to(Phase::HomeProbe);
                }
            },
            Placement::Outside => self.fail(
                String::from_str("Invalid home directory name - not within home_prefix"),
            ),
            Placement::Rootless => self.fail(
                String::from_str("Invalid/Corrupt home directory path - no prefix found"),
            ),
        }
    }

    /// Takes what the pending action gave and moves to the state that
    /// follows. An event of a kind that the pending action cannot give ends
    /// the run with a failure.
    pub fn advance(&mut self, event: Event)
        ensures
            inv(old(self)@),
            inv(final(self)@),
            final(self)@ == step(old(self)@, event@),
    {
        proof {
            use_type_invariant(&*self);
            lemma_step_keeps_inv(self@, event@);
        }
        match self.at.phase {
            Phase::Finished => {},
            Phase::PrefixCheck => match event {
                Event::Flag(true) => self.accept_prefix(),
                Event::Flag(false) => self.fail(
                    String::from_str("Invalid home_prefix from configuration"),
                ),
                other => self.reject(other),
            },
            Phase::LabelerOpen => match event {
                Event::Completed(Ok(_)) => {
                    self.at = self.at.to(Phase::PrincipalLookup);
                },
                other => self.reject(other),
            },
            Phase::PrincipalLookup => match event {
                Event::Principal(Some(name)) => {
                    self.label_path = Some(join_entry(self.prefix.as_str(), name.as_str()));
                    self.at = self.at.to(Phase::HomeProbe);
                },
                Event::Principal(None) => self.fail(
                    String::from_str("Failed looking up username by uid for SELinux relabeling"),
                ),
                other => self.reject(other),
            },
            Phase::HomeProbe => match event {
                Event::Flag(true) => self.finish_population(),
                Event::Flag(false) => {
                    self.at = self.at.to(Phase::HomeCreate);
                },
                other => self.reject(other),
            },
            Phase::HomeCreate => match event {
                Event::Completed(Ok(_)) => {
                    self.at = self.at.to(Phase::HomeOwner);
                },
                other => self.reject(other),
            },
            Phase::HomeOwner => match event {
                Event::Completed(Ok(_)) => {
                    if self.use_skeleton {
                        self.at = self.at.to(Phase::SkeletonList);
                    } else {
                        self.finish_population();
                    }
                },
                other => self.reject(other),
            },
            Phase::SkeletonList => match event {
                Event::Listing(None) => self.finish_population(),
                Event::Listing(Some(list)) => {
                    self.skeleton = list;
                    self.turn_to_entry(0);
                },
                other => self.reject(other),
            },
            Phase::EntryLabel => match event {
                Event::Completed(Ok(_)) => {
                    self.at = self.at.to(Phase::EntryCopy);
                },
                other => self.reject(other),
            },
            Phase::EntryCopy => match event {
                Event::Completed(Ok(_)) => {
                    self.at = self.at.to(Phase::EntryOwner);
                },
                other => self.reject(other),
            },
            Phase::EntryOwner => match event {
                Event::Completed(Ok(_)) => {
                    if self.labeling {
                        self.at = self.at.to(Phase::EntryRule);
                    } else {
                        assert(self.at.cursor < self.skeleton.len());
                        self.turn_to_entry(self.at.cursor + 1);
                    }
                },
                other => self.reject(other),
            },
            Phase::EntryRule => match event {
                Event::Completed(Ok(_)) => {
                    assert(self.at.cursor < self.skeleton.len());
                    self.turn_to_entry(self.at.cursor + 1);
                },
                Event::Completed(Err(_)) => self.stop(
                    String::from_str("Failed creating SELinux policy equivalence rule"),
                ),
                other => self.reject(other),
            },
            Phase::LabelReset => match event {
                Event::Completed(done) => {
                    if self.failure.is_some() {
                        self.at = self.at.to(Phase::Finished);
                    } else if done.is_ok() {
                        self.turn_to_alias(0);
                    } else {
                        self.fail(
                            String::from_str("Failed resetting SELinux file creation contexts"),
                        );
                    }
                },
                other => self.reject(other),
            },
            Phase::AliasProbe => match event {
                Event::Entry(AliasEntry::Missing) => {
                    self.at = self.at.to(Phase::AliasLink);
                },
                Event::Entry(AliasEntry::Link) => {
                    self.at = self.at.to(Phase::AliasUnlink);
                },
                Event::Entry(AliasEntry::Occupied) => {
                    assert(self.at.cursor < self.info.aliases.len());
                    self.turn_to_alias(self.at.cursor + 1);
                },
                Event::Entry(AliasEntry::Unreadable(why)) => self.fail(why),
                other => self.reject(other),
            },
            Phase::AliasUnlink => match event {
                Event::Completed(Ok(_)) => {
                    self.at = self.at.to(Phase::AliasLink);
                },
                other => self.reject(other),
            },
            Phase::AliasLink => match event {
                Event::Completed(Ok(_)) => {
                    assert(self.at.cursor < self.info.aliases.len());
                    self.turn_to_alias(self.at.cursor + 1);
                },
                other => self.reject(other),
            },
        }
    }
}

} // verus!
