//! The drivers around render passes: what becomes of a page after its build
//! pass, what to do with widgets outside the render configuration, how many
//! passes may run, and which paths each request-time pass fetches.
use crate::errors::ServerError;
use crate::path::{localized, PathMaybeWithLocale, PathWithoutLocale};
use crate::render::{build_status_after, is_batch_of, RenderStatus, RequestContext};
use crate::template::entity::TemplateInner;
use vstd::prelude::*;

verus! {

/// What becomes of a page once its build pass is over.
#[derive(Debug)]
pub enum PageVerdict {
    /// Its state and markup are final at build time.
    Render,
    /// It moves to request time.
    Reschedule,
    /// The build fails.
    Fail(ServerError),
}

/// The verdict on a page of `template` whose build pass ended at `status`.
pub fn page_verdict(status: RenderStatus, template: &TemplateInner) -> (r: PageVerdict)
    ensures
        match status {
            RenderStatus::Good => r is Render,
            RenderStatus::Cancelled => if template.can_be_rescheduled_spec() {
                r is Reschedule
            } else {
                r matches PageVerdict::Fail(ServerError::CannotReschedule { template_name })
                    && template_name@ == template.path_spec()
            },
            RenderStatus::Failed(e) => r == PageVerdict::Fail(e),
        },
{
    match status {
        RenderStatus::Good => PageVerdict::Render,
        RenderStatus::Cancelled => if template.can_be_rescheduled() {
            PageVerdict::Reschedule
        } else {
            PageVerdict::Fail(
                ServerError::CannotReschedule { template_name: String::from_str(template.get_path()) },
            )
        },
        RenderStatus::Failed(e) => PageVerdict::Fail(e),
    }
}

/// What to do about a widget path that the render configuration lacks.
#[derive(Debug)]
pub enum IncrementalAction {
    /// Generate its state now, add it to the render configuration, and run
    /// the page's pass again.
    Generate,
    /// The widget needs request-time state: move the page to request time.
    Reschedule,
    /// The build fails.
    Fail(ServerError),
}

/// Decides what the build does with the widget at `path`, met on a page of
/// `page`, given the capsule that the router found for it (if any).
pub fn incremental_action(page: &TemplateInner, capsule: Option<&TemplateInner>, path: &PathWithoutLocale) -> (r:
    IncrementalAction)
    ensures
        match capsule {
            Some(c) if c.uses_incremental_spec() => if c.build_safe_spec() {
                r is Generate
            } else if page.can_be_rescheduled_spec() {
                r is Reschedule
            } else {
                r matches IncrementalAction::Fail(ServerError::CannotReschedule { template_name })
                    && template_name@ == page.path_spec()
            },
            _ => r matches IncrementalAction::Fail(ServerError::UnresolvedWidget { path: p }) && p@
                == path@,
        },
{
    match capsule {
        Some(c) => {
            if !c.uses_incremental() {
                IncrementalAction::Fail(ServerError::UnresolvedWidget { path: path.0.clone() })
            } else if c.uses_request_state() || c.revalidates() {
                if page.can_be_rescheduled() {
                    IncrementalAction::Reschedule
                } else {
                    IncrementalAction::Fail(
                        ServerError::CannotReschedule {
                            template_name: String::from_str(page.get_path()),
                        },
                    )
                }
            } else {
                IncrementalAction::Generate
            }
        },
        None => IncrementalAction::Fail(ServerError::UnresolvedWidget { path: path.0.clone() }),
    }
}

/// The status of a build pass after it meets each of `later` in turn, each
/// given as whether the render configuration holds it and its capsule.
pub open spec fn status_after_all(status: RenderStatus, later: Seq<(bool, TemplateInner)>) -> RenderStatus
    decreases later.len(),
{
    if later.len() == 0 {
        status
    } else {
        status_after_all(build_status_after(status, later[0].0, later[0].1), later.drop_first())
    }
}

/// A status that has left `Good` never comes back to it.
pub proof fn lemma_status_sticks(status: RenderStatus, later: Seq<(bool, TemplateInner)>)
    requires
        !(status is Good),
    ensures
        status_after_all(status, later) == status,
    decreases later.len(),
{
    if later.len() > 0 {
        lemma_status_sticks(build_status_after(status, later[0].0, later[0].1), later.drop_first());
    }
}

/// A widget that build time resolves, whose capsule uses request-time state
/// or revalidation, never lets its page be rendered at build time: the pass
/// ends cancelled (or failed earlier), whatever widgets follow, so the page
/// is rescheduled or rejected.
pub proof fn lemma_build_contradiction(
    status: RenderStatus,
    capsule: TemplateInner,
    later: Seq<(bool, TemplateInner)>,
)
    requires
        !capsule.build_safe_spec(),
    ensures
        !(status_after_all(build_status_after(status, true, capsule), later) is Good),
        status is Good ==> status_after_all(build_status_after(status, true, capsule), later)
            is Cancelled,
{
    lemma_status_sticks(build_status_after(status, true, capsule), later);
}

/// What one more pass comes to.
#[derive(Clone, Copy, Debug, PartialEq, Eq, Structural)]
pub enum PassVerdict {
    /// Nothing new was found: the fixed point is reached.
    Done,
    /// New paths were found: run another pass.
    Again,
    /// New paths were found on the last pass allowed.
    LimitReached,
}

/// Counts the passes of one page against a fixed limit.
#[derive(Debug)]
pub struct PassLimit {
    pub passes: usize,
    pub max_passes: usize,
}

pub open spec fn pass_spec(limit: PassLimit, found_new: bool) -> (PassVerdict, PassLimit) {
    let next = PassLimit { passes: (limit.passes + 1) as usize, max_passes: limit.max_passes };
    if !found_new {
        (PassVerdict::Done, next)
    } else if next.passes >= limit.max_passes {
        (PassVerdict::LimitReached, next)
    } else {
        (PassVerdict::Again, next)
    }
}

impl PassLimit {
    pub open spec fn new_spec(max_passes: usize) -> PassLimit {
        PassLimit { passes: 0, max_passes }
    }

    /// No pass run yet, and at most `max_passes` allowed.
    pub fn new(max_passes: usize) -> (r: PassLimit)
        ensures
            r.passes == 0,
            r.max_passes == max_passes,
    {
        PassLimit { passes: 0, max_passes }
    }

    /// Records a pass, and whether it found paths not known before.
    pub fn record_pass(&mut self, found_new: bool) -> (r: PassVerdict)
        requires
            old(self).passes < old(self).max_passes,
        ensures
            (r, *final(self)) == pass_spec(*old(self), found_new),
            r is Again ==> final(self).passes < final(self).max_passes,
    {
        self.passes = self.passes + 1;
        if !found_new {
            PassVerdict::Done
        } else if self.passes >= self.max_passes {
            PassVerdict::LimitReached
        } else {
            PassVerdict::Again
        }
    }

    /// The build error for a page that reached the limit.
    pub fn limit_error(&self) -> (r: ServerError)
        ensures
            r == (ServerError::PassLimitReached { passes: self.passes }),
    {
        ServerError::PassLimitReached { passes: self.passes }
    }
}

/// How many passes run until the driver stops, when the passes report
/// `found` in turn; `None` if `found` runs out first.
pub open spec fn passes_until_stop(limit: PassLimit, found: Seq<bool>) -> Option<nat>
    decreases found.len(),
{
    if found.len() == 0 {
        None
    } else {
        let (v, next) = pass_spec(limit, found[0]);
        if v == PassVerdict::Again {
            match passes_until_stop(next, found.drop_first()) {
                Some(k) => Some(k + 1),
                None => None,
            }
        } else {
            Some(1)
        }
    }
}

/// Resolution never runs forever: whatever each pass finds (a widget that
/// contains itself finds something new every time), the driver stops
/// within the passes that its limit leaves.
pub proof fn lemma_passes_bounded(limit: PassLimit, found: Seq<bool>)
    requires
        limit.passes < limit.max_passes,
        found.len() >= limit.max_passes - limit.passes,
    ensures
        passes_until_stop(limit, found) matches Some(k) && k <= limit.max_passes - limit.passes,
    decreases found.len(),
{
    let (v, next) = pass_spec(limit, found[0]);
    if v == PassVerdict::Again {
        lemma_passes_bounded(next, found.drop_first());
    }
}

/// What the request-time driver does after a pass.
#[derive(Debug)]
pub enum RequestPassAction {
    /// Fetch these paths (all at once), record each with
    /// `RequestContext::record_fetched`, and render again.
    Fetch(Vec<PathMaybeWithLocale>),
    /// Every widget met has its state: the page is complete.
    Done,
    /// The pass limit was reached with widgets still unresolved.
    Exceeded(ServerError),
}

/// Drives the request-time passes of one page.
#[derive(Debug)]
pub struct RequestResolver {
    pub ctx: RequestContext,
    pub limit: PassLimit,
}

impl RequestResolver {
    pub open spec fn wf(&self) -> bool {
        self.ctx.wf()
    }

    /// No pass run yet; at most `max_passes` allowed.
    pub fn new(max_passes: usize) -> (r: RequestResolver)
        ensures
            r.wf(),
            r.limit == PassLimit::new_spec(max_passes),
            r.ctx.widget_states.view().is_empty(),
            r.ctx.unresolved_widget_accumulator@.len() == 0,
    {
        let ctx = RequestContext::new();
        proof {
            assert(ctx.widget_states.view() =~= Map::empty());
        }
        RequestResolver { ctx, limit: PassLimit::new(max_passes) }
    }

    /// Ends a pass: the widgets it put aside are fetched, unless there are
    /// none (the fixed point) or this was the last pass allowed.
    pub fn end_pass(&mut self, locale: &str) -> (r: RequestPassAction)
        requires
            old(self).wf(),
            old(self).limit.passes < old(self).limit.max_passes,
        ensures
            final(self).wf(),
            final(self).ctx.widget_states == old(self).ctx.widget_states,
            final(self).ctx.unresolved_widget_accumulator@.len() == 0,
            ({
                let (v, next) = pass_spec(
                    old(self).limit,
                    exists|j: int|
                        0 <= j < old(self).ctx.unresolved_widget_accumulator@.len()
                            && !old(self).ctx.widget_states.view().contains_key(
                            localized((#[trigger] old(self).ctx.unresolved_widget_accumulator@[j])@, locale@),
                        ),
                );
                &&& final(self).limit == next
                &&& match v {
                    PassVerdict::Done => r is Done,
                    PassVerdict::Again => r matches RequestPassAction::Fetch(batch) && is_batch_of(
                        old(self).ctx,
                        locale@,
                        batch@,
                    ) && batch@.len() > 0,
                    PassVerdict::LimitReached => r == RequestPassAction::Exceeded(
                        ServerError::PassLimitReached { passes: next.passes },
                    ),
                }
            }),
    {
        let batch = self.ctx.take_unresolved(locale);
        proof {
            let acc = old(self).ctx.unresolved_widget_accumulator@;
            let known = old(self).ctx.widget_states.view();
            if batch@.len() > 0 {
                let j = choose|j: int|
                    0 <= j < acc.len() && batch@[0]@ == localized((#[trigger] acc[j])@, locale@);
                assert(!known.contains_key(localized(acc[j]@, locale@)));
            }
            if exists|j: int| 0 <= j < acc.len() && !known.contains_key(localized((#[trigger] acc[j])@, locale@)) {
                let j = choose|j: int| 0 <= j < acc.len() && !known.contains_key(localized((#[trigger] acc[j])@, locale@));
                assert(exists|i: int| 0 <= i < batch@.len() && batch@[i]@ == localized(acc[j]@, locale@));
            }
        }
        let verdict = self.limit.record_pass(batch.len() > 0);
        match verdict {
            PassVerdict::Done => RequestPassAction::Done,
            PassVerdict::Again => RequestPassAction::Fetch(batch),
            PassVerdict::LimitReached => RequestPassAction::Exceeded(self.limit.limit_error()),
        }
    }
}

/// What the build driver does after a page's pass.
#[derive(Debug)]
pub enum BuildPassAction {
    /// The page's build is over: this is what becomes of it.
    Finished(PageVerdict),
    /// Settle each of these widgets with `incremental_action`, add those
    /// generated to the render configuration, and run the pass again.
    Incremental(Vec<PathWithoutLocale>),
}

/// Ends a build pass of a page of `page`, which finished at `status` and put
/// aside `incremental` (the widgets outside the render configuration).
pub fn end_build_pass(
    status: RenderStatus,
    incremental: Vec<PathWithoutLocale>,
    page: &TemplateInner,
    limit: &mut PassLimit,
) -> (r: BuildPassAction)
    requires
        old(limit).passes < old(limit).max_passes,
    ensures
        ({
            let found = status is Good && incremental@.len() > 0;
            let (v, next) = pass_spec(*old(limit), found);
            &&& *final(limit) == next
            &&& match status {
                RenderStatus::Good => match v {
                    PassVerdict::Done => r == BuildPassAction::Finished(PageVerdict::Render),
                    PassVerdict::Again => r == BuildPassAction::Incremental(incremental),
                    PassVerdict::LimitReached => r == BuildPassAction::Finished(
                        PageVerdict::Fail(ServerError::PassLimitReached { passes: next.passes }),
                    ),
                },
                RenderStatus::Cancelled => if page.can_be_rescheduled_spec() {
                    r == BuildPassAction::Finished(PageVerdict::Reschedule)
                } else {
                    r matches BuildPassAction::Finished(
                        PageVerdict::Fail(ServerError::CannotReschedule { template_name }),
                    ) && template_name@ == page.path_spec()
                },
                RenderStatus::Failed(e) => r == BuildPassAction::Finished(PageVerdict::Fail(e)),
            }
        }),
{
    let found = matches!(status, RenderStatus::Good) && incremental.len() > 0;
    let verdict = limit.record_pass(found);
    match status {
        RenderStatus::Good => match verdict {
            PassVerdict::Done => BuildPassAction::Finished(PageVerdict::Render),
            PassVerdict::Again => BuildPassAction::Incremental(incremental),
            PassVerdict::LimitReached => BuildPassAction::Finished(PageVerdict::Fail(limit.limit_error())),
        },
        other => BuildPassAction::Finished(page_verdict(other, page)),
    }
}

/// `c` is a chain of nested widgets: it starts at a widget of the page, and
/// each next one is contained in the one before.
pub open spec fn is_chain(
    roots: Set<Seq<char>>,
    children: Map<Seq<char>, Set<Seq<char>>>,
    c: Seq<Seq<char>>,
) -> bool {
    &&& c.len() >= 1
    &&& roots.contains(c[0])
    &&& forall|i: int|
        0 <= i < c.len() - 1 ==> children.contains_key(#[trigger] c[i]) && children[c[i]].contains(
            c[i + 1],
        )
}

/// The widgets that a pass puts aside when the state of `known` is at hand:
/// a widget's own widgets are met only if the widget itself is known.
pub open spec fn pass_discovers(
    roots: Set<Seq<char>>,
    children: Map<Seq<char>, Set<Seq<char>>>,
    known: Set<Seq<char>>,
) -> Set<Seq<char>> {
    Set::new(
        |w: Seq<char>|
            !known.contains(w) && exists|c: Seq<Seq<char>>|
                #![trigger is_chain(roots, children, c)]
                is_chain(roots, children, c) && c.last() == w && forall|i: int|
                    0 <= i < c.len() - 1 ==> known.contains(#[trigger] c[i]),
    )
}

/// The widgets that a pass meets when the state of `known` is at hand,
/// whether known or not.
pub open spec fn pass_meets(
    roots: Set<Seq<char>>,
    children: Map<Seq<char>, Set<Seq<char>>>,
    known: Set<Seq<char>>,
) -> Set<Seq<char>> {
    Set::new(
        |w: Seq<char>|
            exists|c: Seq<Seq<char>>|
                #![trigger is_chain(roots, children, c)]
                is_chain(roots, children, c) && c.last() == w && forall|i: int|
                    0 <= i < c.len() - 1 ==> known.contains(#[trigger] c[i]),
    )
}

/// A request-time pass that met exactly the widgets of the model (under
/// their localized paths) batches exactly the widgets that the model
/// discovers: one round of the resolver is one step of `known_after`.
pub proof fn lemma_batch_is_discovery(
    q: RequestContext,
    locale: Seq<char>,
    batch: Seq<PathMaybeWithLocale>,
    roots: Set<Seq<char>>,
    children: Map<Seq<char>, Set<Seq<char>>>,
)
    requires
        is_batch_of(q, locale, batch),
        Set::new(
            |p: Seq<char>|
                exists|j: int|
                    0 <= j < q.unresolved_widget_accumulator@.len() && p == localized(
                        (#[trigger] q.unresolved_widget_accumulator@[j])@,
                        locale,
                    ),
        ) == pass_meets(roots, children, q.widget_states.view().dom()),
    ensures
        batch.map_values(|p: PathMaybeWithLocale| p@).to_set() == pass_discovers(
            roots,
            children,
            q.widget_states.view().dom(),
        ),
{
    let known = q.widget_states.view().dom();
    let acc = q.unresolved_widget_accumulator@;
    let met = Set::new(
        |p: Seq<char>|
            exists|j: int| 0 <= j < acc.len() && p == localized((#[trigger] acc[j])@, locale),
    );
    let bs = batch.map_values(|p: PathMaybeWithLocale| p@);
    assert forall|w: Seq<char>| bs.to_set().contains(w) == pass_discovers(roots, children, known).contains(w) by {
        if bs.to_set().contains(w) {
            let i = choose|i: int| 0 <= i < bs.len() && bs[i] == w;
            assert(batch[i]@ == w);
            let j = choose|j: int|
                0 <= j < acc.len() && batch[i]@ == localized((#[trigger] acc[j])@, locale);
            assert(met.contains(w));
            assert(pass_meets(roots, children, known).contains(w));
        }
        if pass_discovers(roots, children, known).contains(w) {
            assert(pass_meets(roots, children, known).contains(w));
            assert(met.contains(w));
            let j = choose|j: int| 0 <= j < acc.len() && w == localized((#[trigger] acc[j])@, locale);
            let i = choose|i: int| 0 <= i < batch.len() && batch[i]@ == localized(acc[j]@, locale);
            assert(bs[i] == w);
        }
    }
    assert(bs.to_set() =~= pass_discovers(roots, children, known));
}

/// The widgets with known state after `k` passes, each followed by a fetch
/// of what it put aside.
pub open spec fn known_after(
    roots: Set<Seq<char>>,
    children: Map<Seq<char>, Set<Seq<char>>>,
    k: nat,
) -> Set<Seq<char>>
    decreases k,
{
    if k == 0 {
        Set::empty()
    } else {
        let before = known_after(roots, children, (k - 1) as nat);
        before.union(pass_discovers(roots, children, before))
    }
}

/// No chain of nested widgets is longer than `depth`.
pub open spec fn depth_at_most(
    roots: Set<Seq<char>>,
    children: Map<Seq<char>, Set<Seq<char>>>,
    depth: nat,
) -> bool {
    forall|c: Seq<Seq<char>>| #[trigger] is_chain(roots, children, c) ==> c.len() <= depth
}

proof fn lemma_known_grows(
    roots: Set<Seq<char>>,
    children: Map<Seq<char>, Set<Seq<char>>>,
    j: nat,
    k: nat,
)
    requires
        j <= k,
    ensures
        known_after(roots, children, j).subset_of(known_after(roots, children, k)),
    decreases k,
{
    if j < k {
        lemma_known_grows(roots, children, j, (k - 1) as nat);
    }
}

proof fn lemma_chain_ends_known(
    roots: Set<Seq<char>>,
    children: Map<Seq<char>, Set<Seq<char>>>,
    k: nat,
    c: Seq<Seq<char>>,
)
    requires
        is_chain(roots, children, c),
        c.len() <= k,
    ensures
        known_after(roots, children, k).contains(c.last()),
    decreases k,
{
    let before = known_after(roots, children, (k - 1) as nat);
    if c.len() <= k - 1 {
        lemma_chain_ends_known(roots, children, (k - 1) as nat, c);
    } else {
        assert forall|i: int| 0 <= i < c.len() - 1 implies before.contains(#[trigger] c[i]) by {
            let p = c.subrange(0, i + 1);
            assert(is_chain(roots, children, p)) by {
                assert forall|m: int| 0 <= m < p.len() - 1 implies children.contains_key(
                    #[trigger] p[m],
                ) && children[p[m]].contains(p[m + 1]) by {
                    assert(p[m] == c[m]);
                    assert(p[m + 1] == c[m + 1]);
                }
            }
            lemma_chain_ends_known(roots, children, (k - 1) as nat, p);
        }
        if !before.contains(c.last()) {
            assert(pass_discovers(roots, children, before).contains(c.last()));
        }
    }
}

/// With no chain of nested widgets longer than `depth`, request-time
/// resolution reaches its fixed point within `depth` passes: the pass that
/// follows them puts nothing aside.
pub proof fn lemma_fixed_point_within_depth(
    roots: Set<Seq<char>>,
    children: Map<Seq<char>, Set<Seq<char>>>,
    depth: nat,
)
    requires
        depth_at_most(roots, children, depth),
    ensures
        pass_discovers(roots, children, known_after(roots, children, depth)).is_empty(),
{
    let known = known_after(roots, children, depth);
    assert forall|w: Seq<char>| !pass_discovers(roots, children, known).contains(w) by {
        if pass_discovers(roots, children, known).contains(w) {
            let c = choose|c: Seq<Seq<char>>|
                is_chain(roots, children, c) && c.last() == w && forall|i: int|
                    0 <= i < c.len() - 1 ==> known.contains(#[trigger] c[i]);
            lemma_chain_ends_known(roots, children, depth, c);
        }
    }
    assert(pass_discovers(roots, children, known) =~= Set::empty());
}

} // verus!
