use vstd::prelude::*;
use crate::types::{AgentContext, ContextData, ContextType, ProjectContext, spec_category};
use crate::bundle::ContextBundle;
use crate::cache::{CacheLookup, spec_is_cacheable, is_cacheable};
use crate::fingerprint::{Fingerprint, opt_view, copy_text};

verus! {

/// What the caller has to do next for a gather in progress.
#[derive(Clone, Debug)]
pub enum GatherStep {
    /// Record invocation metadata for the given command name, never from the cache.
    RecordInvocation { command: Option<String> },
    /// Read the cache entry of this category and hand the lookup to `accept_lookup`.
    ConsultCache(ContextType),
    /// Every requested category is resolved: call `finish`.
    Finish,
}

/// What to do after a provider failed for the current category.
#[derive(Clone, Debug, PartialEq, Eq, Structural)]
pub enum FailureOutcome {
    /// The category is mandatory: the whole gather fails.
    Abort(ContextType),
    /// The category is optional: an empty snapshot stands in, and the gather goes on.
    Degraded,
}

/// Categories whose provider failure aborts the gather.
pub open spec fn spec_is_mandatory(ct: ContextType) -> bool {
    ct == ContextType::Git || ct == ContextType::Interaction
}

/// A gather in progress: the requested categories, in order, the command name
/// for invocation metadata, how many categories are resolved, and the bundle so far.
pub struct Gathering {
    pub categories: Vec<ContextType>,
    pub command: Option<String>,
    pub next: usize,
    pub bundle: ContextBundle,
}

/// The step that a gather's state calls for.
pub open spec fn spec_next_step(g: Gathering) -> GatherStep {
    if g.next >= g.categories@.len() {
        GatherStep::Finish
    } else if g.categories@[g.next as int] == ContextType::Interaction {
        GatherStep::RecordInvocation { command: g.command }
    } else {
        GatherStep::ConsultCache(g.categories@[g.next as int])
    }
}

/// Whether a step is the one the state calls for; texts are compared by content.
pub open spec fn step_matches(s: GatherStep, t: GatherStep) -> bool {
    match (s, t) {
        (GatherStep::RecordInvocation { command: a }, GatherStep::RecordInvocation { command: b }) =>
            opt_view(a) == opt_view(b),
        (GatherStep::ConsultCache(a), GatherStep::ConsultCache(b)) => a == b,
        (GatherStep::Finish, GatherStep::Finish) => true,
        _ => false,
    }
}

/// An empty project snapshot.
pub fn empty_project() -> (r: ContextData)
    ensures
        spec_category(r) == ContextType::Project,
{
    ContextData::Project(ProjectContext {
        directory_tree: String::new(),
        dependency_files: Vec::new(),
        file_counts: Vec::new(),
        recently_changed_files: Vec::new(),
        total_files: 0,
        total_size: 0,
    })
}

/// An empty tool-configuration snapshot.
pub fn empty_agent() -> (r: ContextData)
    ensures
        spec_category(r) == ContextType::Agent,
{
    ContextData::Agent(AgentContext {
        config_files: Vec::new(),
        rules: Vec::new(),
        custom_prompts: Vec::new(),
    })
}

impl Gathering {
    pub open spec fn wf(&self) -> bool {
        &&& self.next <= self.categories@.len()
        &&& self.bundle.wf()
    }

    /// The category being resolved.
    pub open spec fn current(&self) -> ContextType {
        self.categories@[self.next as int]
    }

    /// Starts a gather of the categories, in order, at time `now`.
    pub fn new(categories: Vec<ContextType>, command: Option<String>, now: i64) -> (r: Gathering)
        ensures
            r.wf(),
            r.categories@ == categories@,
            opt_view(r.command) == opt_view(command),
            r.next == 0,
            forall|ct: ContextType| r.bundle.spec_get(ct) is None,
            r.bundle.generated_at == now,
    {
        Gathering { categories, command, next: 0, bundle: ContextBundle::new(now) }
    }

    /// The next thing to do: invocation metadata is always recorded afresh;
    /// every other category is first looked up in the cache.
    pub fn next_step(&self) -> (r: GatherStep)
        requires
            self.wf(),
        ensures
            step_matches(r, spec_next_step(*self)),
    {
        if self.next >= self.categories.len() {
            GatherStep::Finish
        } else {
            let i = self.next;
        let n = self.categories.len();
        assert(i < n);
        let ct = self.categories[i];
            if matches!(ct, ContextType::Interaction) {
                GatherStep::RecordInvocation { command: copy_text(&self.command) }
            } else {
                GatherStep::ConsultCache(ct)
            }
        }
    }

    /// Takes the cache lookup for the current category. A hit with a snapshot of
    /// that category resolves it and returns `None`; otherwise the state is
    /// unchanged and the category is returned: its provider must be run.
    pub fn accept_lookup(&mut self, found: CacheLookup) -> (r: Option<ContextType>)
        requires
            old(self).wf(),
            spec_next_step(*old(self)) is ConsultCache,
        ensures
            final(self).wf(),
            final(self).categories@ == old(self).categories@,
            opt_view(final(self).command) == opt_view(old(self).command),
            final(self).bundle.generated_at == old(self).bundle.generated_at,
            match found {
                CacheLookup::Hit(d) => spec_category(d) == old(self).current(),
                _ => false,
            } ==> {
                &&& r is None
                &&& final(self).next == old(self).next + 1
                &&& final(self).bundle.spec_get(old(self).current()) == Some(found->Hit_0)
                &&& forall|ct: ContextType|
                    ct != old(self).current() ==> final(self).bundle.spec_get(ct)
                        == old(self).bundle.spec_get(ct)
            },
            !(match found {
                CacheLookup::Hit(d) => spec_category(d) == old(self).current(),
                _ => false,
            }) ==> {
                &&& r == Some(old(self).current())
                &&& final(self).next == old(self).next
                &&& forall|ct: ContextType| final(self).bundle.spec_get(ct) == old(self).bundle.spec_get(ct)
            },
    {
        let i = self.next;
        let n = self.categories.len();
        assert(i < n);
        let ct = self.categories[i];
        match found {
            CacheLookup::Hit(d) => {
                if d.category() == ct {
                    self.bundle.insert(d);
                    self.next = i + 1;
                    None
                } else {
                    Some(ct)
                }
            },
            CacheLookup::Miss { .. } => Some(ct),
        }
    }

    /// Takes a freshly produced snapshot of the current category and resolves
    /// it. Returns whether the snapshot is to be written to the cache: never for
    /// invocation metadata. A failed write does not undo the resolution.
    pub fn accept_fresh(&mut self, data: ContextData) -> (store: bool)
        requires
            old(self).wf(),
            old(self).next < old(self).categories@.len(),
            spec_category(data) == old(self).current(),
        ensures
            final(self).wf(),
            final(self).categories@ == old(self).categories@,
            opt_view(final(self).command) == opt_view(old(self).command),
            final(self).next == old(self).next + 1,
            final(self).bundle.spec_get(old(self).current()) == Some(data),
            forall|ct: ContextType|
                ct != old(self).current() ==> final(self).bundle.spec_get(ct)
                    == old(self).bundle.spec_get(ct),
            final(self).bundle.generated_at == old(self).bundle.generated_at,
            store == spec_is_cacheable(old(self).current()),
    {
        let i = self.next;
        let n = self.categories.len();
        assert(i < n);
        let ct = self.categories[i];
        self.bundle.insert(data);
        self.next = i + 1;
        is_cacheable(ct)
    }

    /// Handles a provider failure for the current category: a mandatory
    /// category (repository state, invocation metadata) aborts the gather; an
    /// optional one is resolved with an empty snapshot.
    pub fn accept_failure(&mut self) -> (r: FailureOutcome)
        requires
            old(self).wf(),
            old(self).next < old(self).categories@.len(),
        ensures
            final(self).wf(),
            final(self).categories@ == old(self).categories@,
            opt_view(final(self).command) == opt_view(old(self).command),
            final(self).bundle.generated_at == old(self).bundle.generated_at,
            spec_is_mandatory(old(self).current()) ==> {
                &&& r == FailureOutcome::Abort(old(self).current())
                &&& final(self).next == old(self).next
                &&& forall|ct: ContextType| final(self).bundle.spec_get(ct) == old(self).bundle.spec_get(ct)
            },
            !spec_is_mandatory(old(self).current()) ==> {
                &&& r == FailureOutcome::Degraded
                &&& final(self).next == old(self).next + 1
                &&& final(self).bundle.spec_get(old(self).current()) is Some
                &&& spec_category(final(self).bundle.spec_get(old(self).current())->0)
                    == old(self).current()
                &&& forall|ct: ContextType|
                    ct != old(self).current() ==> final(self).bundle.spec_get(ct)
                        == old(self).bundle.spec_get(ct)
            },
    {
        let i = self.next;
        let n = self.categories.len();
        assert(i < n);
        let ct = self.categories[i];
        match ct {
            ContextType::Project => {
                self.bundle.insert(empty_project());
                self.next = i + 1;
                FailureOutcome::Degraded
            },
            ContextType::Agent => {
                self.bundle.insert(empty_agent());
                self.next = i + 1;
                FailureOutcome::Degraded
            },
            _ => FailureOutcome::Abort(ct),
        }
    }

    /// Ends the gather: the bundle, stamped with the live fingerprint where one
    /// could be computed (without one, its fingerprint fields stay unset).
    pub fn finish(self, live: Option<Fingerprint>) -> (r: ContextBundle)
        requires
            self.wf(),
        ensures
            r.wf(),
            forall|ct: ContextType| r.spec_get(ct) == self.bundle.spec_get(ct),
            r.generated_at == self.bundle.generated_at,
            match live {
                Some(fp) => opt_view(r.git_hash) == opt_view(fp.commit)
                    && opt_view(r.working_tree_hash) == opt_view(fp.working_tree),
                None => opt_view(r.git_hash) == opt_view(self.bundle.git_hash)
                    && opt_view(r.working_tree_hash) == opt_view(self.bundle.working_tree_hash),
            },
    {
        let mut bundle = self.bundle;
        if let Some(fp) = live {
            bundle.set_fingerprint(fp);
        }
        bundle
    }
}

/// Invocation metadata is never served from the cache: whenever the category
/// being resolved is the invocation, the step is to record it afresh, and the
/// recorded snapshot is never written to the cache.
pub proof fn lemma_invocation_always_fresh(g: Gathering)
    requires
        g.wf(),
        g.next < g.categories@.len(),
        g.current() == ContextType::Interaction,
    ensures
        spec_next_step(g) is RecordInvocation,
        !(spec_next_step(g) is ConsultCache),
        !spec_is_cacheable(ContextType::Interaction),
{
}

} // verus!
