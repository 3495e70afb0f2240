use vstd::prelude::*;
use crate::types::{ContextData, ContextType, spec_category};
use crate::fingerprint::{Fingerprint, opt_view};

verus! {

/// The composed output of one gather: at most one snapshot per category, the
/// time it was assembled (seconds since the epoch) and the fingerprint used.
#[derive(Clone, Debug)]
pub struct ContextBundle {
    pub git: Option<ContextData>,
    pub project: Option<ContextData>,
    pub agent: Option<ContextData>,
    pub interaction: Option<ContextData>,
    pub generated_at: i64,
    pub git_hash: Option<String>,
    pub working_tree_hash: Option<String>,
}

pub open spec fn slot_holds(slot: Option<ContextData>, ct: ContextType) -> bool {
    slot matches Some(d) ==> spec_category(d) == ct
}

impl ContextBundle {
    /// Each slot holds a snapshot of its own category.
    pub open spec fn wf(&self) -> bool {
        &&& slot_holds(self.git, ContextType::Git)
        &&& slot_holds(self.project, ContextType::Project)
        &&& slot_holds(self.agent, ContextType::Agent)
        &&& slot_holds(self.interaction, ContextType::Interaction)
    }

    /// The snapshot held for a category.
    pub open spec fn spec_get(&self, ct: ContextType) -> Option<ContextData> {
        match ct {
            ContextType::Git => self.git,
            ContextType::Project => self.project,
            ContextType::Agent => self.agent,
            ContextType::Interaction => self.interaction,
        }
    }

    /// An empty bundle assembled at `generated_at`, with no fingerprint.
    pub fn new(generated_at: i64) -> (r: ContextBundle)
        ensures
            r.wf(),
            forall|ct: ContextType| r.spec_get(ct) is None,
            r.generated_at == generated_at,
            r.git_hash is None,
            r.working_tree_hash is None,
    {
        ContextBundle {
            git: None,
            project: None,
            agent: None,
            interaction: None,
            generated_at,
            git_hash: None,
            working_tree_hash: None,
        }
    }

    /// The snapshot of a category, if the bundle holds one.
    pub fn get(&self, ct: ContextType) -> (r: Option<&ContextData>)
        ensures
            match r {
                Some(d) => self.spec_get(ct) == Some(*d),
                None => self.spec_get(ct) is None,
            },
    {
        match ct {
            ContextType::Git => self.git.as_ref(),
            ContextType::Project => self.project.as_ref(),
            ContextType::Agent => self.agent.as_ref(),
            ContextType::Interaction => self.interaction.as_ref(),
        }
    }

    /// Whether the bundle holds a snapshot of a category.
    pub fn has(&self, ct: ContextType) -> (r: bool)
        ensures
            r == self.spec_get(ct) is Some,
    {
        self.get(ct).is_some()
    }

    /// Puts a snapshot in its category's slot, replacing any earlier one.
    pub fn insert(&mut self, data: ContextData)
        requires
            old(self).wf(),
        ensures
            final(self).wf(),
            final(self).spec_get(spec_category(data)) == Some(data),
            forall|ct: ContextType|
                ct != spec_category(data) ==> final(self).spec_get(ct) == old(self).spec_get(ct),
            final(self).generated_at == old(self).generated_at,
            opt_view(final(self).git_hash) == opt_view(old(self).git_hash),
            opt_view(final(self).working_tree_hash) == opt_view(old(self).working_tree_hash),
    {
        match data {
            ContextData::Git(_) => self.git = Some(data),
            ContextData::Project(_) => self.project = Some(data),
            ContextData::Agent(_) => self.agent = Some(data),
            ContextData::Interaction(_) => self.interaction = Some(data),
        }
    }

    /// Records the fingerprint the bundle was assembled under.
    pub fn set_fingerprint(&mut self, fp: Fingerprint)
        ensures
            opt_view(final(self).git_hash) == opt_view(fp.commit),
            opt_view(final(self).working_tree_hash) == opt_view(fp.working_tree),
            final(self).git == old(self).git,
            final(self).project == old(self).project,
            final(self).agent == old(self).agent,
            final(self).interaction == old(self).interaction,
            final(self).generated_at == old(self).generated_at,
    {
        self.git_hash = fp.commit;
        self.working_tree_hash = fp.working_tree;
    }
}

} // verus!
