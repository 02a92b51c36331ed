//! The declarative part of a template: which state-generation strategies it
//! uses. The functions themselves are attached around the library.
use vstd::prelude::*;

verus! {

/// A template (or capsule) under construction.
#[derive(Debug)]
pub struct TemplateInner {
    pub path: String,
    pub uses_build_paths: bool,
    pub incremental_generation: bool,
    pub uses_build_state: bool,
    pub uses_request_state: bool,
    pub uses_should_revalidate: bool,
    pub revalidate_after: Option<u64>,
    pub uses_amalgamation: bool,
    pub is_capsule: bool,
    pub can_be_rescheduled: bool,
}

/// A finished template.
#[derive(Debug)]
pub struct Template {
    pub inner: TemplateInner,
}

/// What a request for a path built earlier must do about its state.
#[derive(Clone, Copy, Debug, PartialEq, Eq, Structural)]
pub enum RevalidationCheck {
    /// The stored state is still good.
    Fresh,
    /// Generate the state again.
    Revalidate,
    /// Run the template's own predicate, and generate again if it says so.
    AskPredicate,
}

/// Whether state generated at `generated_at` is stale at `now`, with `after`
/// seconds allowed: only strictly after the deadline.
pub open spec fn past_deadline(generated_at: u64, now: u64, after: u64) -> bool {
    now as int - generated_at as int > after as int
}

impl TemplateInner {
    pub open spec fn path_spec(&self) -> Seq<char> {
        self.path@
    }

    pub open spec fn uses_request_state_spec(&self) -> bool {
        self.uses_request_state
    }

    pub open spec fn uses_build_state_spec(&self) -> bool {
        self.uses_build_state
    }

    pub open spec fn uses_incremental_spec(&self) -> bool {
        self.incremental_generation
    }

    pub open spec fn uses_build_paths_spec(&self) -> bool {
        self.uses_build_paths
    }

    pub open spec fn uses_amalgamation_spec(&self) -> bool {
        self.uses_amalgamation
    }

    pub open spec fn revalidate_after_spec(&self) -> Option<u64> {
        self.revalidate_after
    }

    pub open spec fn uses_should_revalidate_spec(&self) -> bool {
        self.uses_should_revalidate
    }

    pub open spec fn can_be_rescheduled_spec(&self) -> bool {
        self.can_be_rescheduled
    }

    pub open spec fn revalidates_spec(&self) -> bool {
        self.uses_should_revalidate_spec() || self.revalidate_after_spec() is Some
    }

    /// Whether state that this template generates at build time stays valid
    /// for every request: it neither needs the request nor revalidates.
    pub open spec fn build_safe_spec(&self) -> bool {
        !self.uses_request_state_spec() && !self.revalidates_spec()
    }

    pub open spec fn is_bare(&self, path: Seq<char>) -> bool {
        &&& self.path_spec() == path
        &&& !self.uses_build_paths_spec()
        &&& !self.uses_incremental_spec()
        &&& !self.uses_build_state_spec()
        &&& !self.uses_request_state_spec()
        &&& !self.uses_should_revalidate_spec()
        &&& self.revalidate_after_spec() is None
        &&& !self.uses_amalgamation_spec()
        &&& !self.is_capsule
        &&& !self.can_be_rescheduled_spec()
    }

    /// A template at `path` that uses no state-generation strategy.
    pub(crate) fn new(path: &str) -> (r: TemplateInner)
        ensures
            r.is_bare(path@),
    {
        TemplateInner {
            path: String::from_str(path),
            uses_build_paths: false,
            incremental_generation: false,
            uses_build_state: false,
            uses_request_state: false,
            uses_should_revalidate: false,
            revalidate_after: None,
            uses_amalgamation: false,
            is_capsule: false,
            can_be_rescheduled: false,
        }
    }

    /// Finishes the template.
    pub fn build(self) -> (r: Template)
        ensures
            r.inner == self,
    {
        Template { inner: self }
    }

    pub fn get_path(&self) -> (r: &str)
        ensures
            r@ == self.path_spec(),
    {
        self.path.as_str()
    }

    pub fn uses_build_paths(&self) -> (r: bool)
        ensures
            r == self.uses_build_paths_spec(),
    {
        self.uses_build_paths
    }

    pub fn uses_incremental(&self) -> (r: bool)
        ensures
            r == self.uses_incremental_spec(),
    {
        self.incremental_generation
    }

    pub fn uses_build_state(&self) -> (r: bool)
        ensures
            r == self.uses_build_state_spec(),
    {
        self.uses_build_state
    }

    pub fn uses_request_state(&self) -> (r: bool)
        ensures
            r == self.uses_request_state_spec(),
    {
        self.uses_request_state
    }

    pub fn uses_amalgamation(&self) -> (r: bool)
        ensures
            r == self.uses_amalgamation_spec(),
    {
        self.uses_amalgamation
    }

    /// Whether the template's build-time state is ever generated again.
    pub fn revalidates(&self) -> (r: bool)
        ensures
            r == self.revalidates_spec(),
    {
        self.uses_should_revalidate || self.revalidate_after.is_some()
    }

    pub fn can_be_rescheduled(&self) -> (r: bool)
        ensures
            r == self.can_be_rescheduled_spec(),
    {
        self.can_be_rescheduled
    }

    /// What a request must do with state of this template generated at
    /// `generated_at`, at time `now` (both in seconds). A custom predicate is
    /// asked only once the duration has passed where both are set, and on
    /// every request where it is set alone.
    pub fn revalidation_check(&self, generated_at: u64, now: u64) -> (r: RevalidationCheck)
        ensures
            r == (match self.revalidate_after_spec() {
                Some(after) => if !past_deadline(generated_at, now, after) {
                    RevalidationCheck::Fresh
                } else if self.uses_should_revalidate_spec() {
                    RevalidationCheck::AskPredicate
                } else {
                    RevalidationCheck::Revalidate
                },
                None => if self.uses_should_revalidate_spec() {
                    RevalidationCheck::AskPredicate
                } else {
                    RevalidationCheck::Fresh
                },
            }),
    {
        match self.revalidate_after {
            Some(after) => {
                let past = now > generated_at && now - generated_at > after;
                if !past {
                    RevalidationCheck::Fresh
                } else if self.uses_should_revalidate {
                    RevalidationCheck::AskPredicate
                } else {
                    RevalidationCheck::Revalidate
                }
            },
            None => if self.uses_should_revalidate {
                RevalidationCheck::AskPredicate
            } else {
                RevalidationCheck::Fresh
            },
        }
    }

    /// Declares a function that lists the paths to build.
    pub fn declare_build_paths(self) -> (r: TemplateInner)
        ensures
            r == (TemplateInner { uses_build_paths: true, ..self }),
    {
        TemplateInner { uses_build_paths: true, ..self }
    }

    /// Allows paths outside the built ones to be generated on first request.
    pub fn incremental_generation(self) -> (r: TemplateInner)
        ensures
            r == (TemplateInner { incremental_generation: true, ..self }),
    {
        TemplateInner { incremental_generation: true, ..self }
    }

    /// Declares a function that generates state at build time.
    pub fn declare_build_state(self) -> (r: TemplateInner)
        ensures
            r == (TemplateInner { uses_build_state: true, ..self }),
    {
        TemplateInner { uses_build_state: true, ..self }
    }

    /// Declares a function that generates state for each request.
    pub fn declare_request_state(self) -> (r: TemplateInner)
        ensures
            r == (TemplateInner { uses_request_state: true, ..self }),
    {
        TemplateInner { uses_request_state: true, ..self }
    }

    /// Declares a predicate that decides whether to generate again.
    pub fn declare_should_revalidate(self) -> (r: TemplateInner)
        ensures
            r == (TemplateInner { uses_should_revalidate: true, ..self }),
    {
        TemplateInner { uses_should_revalidate: true, ..self }
    }

    /// Makes build-time state go stale `seconds` after it was generated.
    pub fn revalidate_after(self, seconds: u64) -> (r: TemplateInner)
        ensures
            r == (TemplateInner { revalidate_after: Some(seconds), ..self }),
    {
        TemplateInner { revalidate_after: Some(seconds), ..self }
    }

    /// Declares a function that merges build-time and request-time state.
    pub fn declare_amalgamation(self) -> (r: TemplateInner)
        ensures
            r == (TemplateInner { uses_amalgamation: true, ..self }),
    {
        TemplateInner { uses_amalgamation: true, ..self }
    }

    /// Lets pages of this template move to request time when a widget they
    /// use cannot be resolved at build time.
    pub fn allow_rescheduling(self) -> (r: TemplateInner)
        ensures
            r == (TemplateInner { can_be_rescheduled: true, ..self }),
    {
        TemplateInner { can_be_rescheduled: true, ..self }
    }
}

impl Template {
    /// Starts a template at `path`, with no state-generation strategy.
    pub fn build(path: &str) -> (r: TemplateInner)
        ensures
            r.is_bare(path@),
    {
        TemplateInner::new(path)
    }

    pub fn inner(&self) -> (r: &TemplateInner)
        ensures
            *r == self.inner,
    {
        &self.inner
    }
}

} // verus!
