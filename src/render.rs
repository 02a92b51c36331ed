//! The render-mode state machine: what one page's render pass knows, and how
//! each widget met during the pass is resolved under it.
use crate::error_views::ServerErrorData;
use crate::errors::{ClientError, ServerError, StoreError};
use crate::keyed::Keyed;
use crate::path::{immutable_store_key, localized, store_key, url_encoded, PathMaybeWithLocale, PathWithoutLocale};
use crate::state::template_state::{json_reencoded, null_text, TemplateState};
use crate::template::entity::TemplateInner;
use vstd::prelude::*;

verus! {

/// How a page's build pass stands. Once it leaves `Good`, the remaining
/// widgets of that page are not resolved.
#[derive(Debug)]
pub enum RenderStatus {
    Good,
    /// A widget needs state that build time cannot give: the page is to be
    /// rescheduled to request time, or rejected.
    Cancelled,
    Failed(ServerError),
}

/// What the build pass of one page accumulates.
#[derive(Debug)]
pub struct BuildContext {
    pub render_status: RenderStatus,
    /// Each widget path that build time resolves, with the capsule that
    /// owns it.
    pub widget_render_cfg: Keyed<String>,
    /// Each localized widget path resolved in this pass, with its capsule's
    /// name and its raw state, to be written out later.
    pub widget_states: Keyed<(String, TemplateState)>,
    /// Widget paths outside the render configuration, in the order met.
    pub possibly_incremental_paths: Vec<PathWithoutLocale>,
}

/// What the request-time pass of one page accumulates.
#[derive(Debug)]
pub struct RequestContext {
    /// Each localized widget path resolved by an earlier pass, with its
    /// state or the error the server gave for it.
    pub widget_states: Keyed<Result<TemplateState, ServerErrorData>>,
    /// Widget paths met in this pass without known state, in the order met.
    pub unresolved_widget_accumulator: Vec<PathWithoutLocale>,
}

/// The mode of one render pass, fixed for its duration.
#[derive(Debug)]
pub enum RenderMode {
    Build(BuildContext),
    Request(RequestContext),
    /// Rendering a document head: no widgets.
    Head,
    /// Rendering an error view: no widgets.
    Error,
    /// Computing response headers: no widgets.
    Headers,
}

/// What to do in place of one widget.
#[derive(Debug)]
pub enum WidgetStep {
    /// Render nothing there (for now).
    Empty,
    /// Read the immutable store under `key`, then hand the outcome to
    /// `BuildContext::finish_widget`.
    ReadStore { key: String, capsule_name: String },
    /// Render the widget at the localized `path` with `state`.
    Render { path: PathMaybeWithLocale, state: TemplateState },
    /// Render the widget's error view in its place.
    Error(ClientError),
}

/// The status of a build pass after it meets one widget.
pub open spec fn build_status_after(status: RenderStatus, in_cfg: bool, capsule: TemplateInner) -> RenderStatus {
    if status is Good && in_cfg && !capsule.build_safe_spec() {
        RenderStatus::Cancelled
    } else {
        status
    }
}

/// One widget met during a build pass, from context `b0` to `b1`.
pub open spec fn build_step(
    b0: BuildContext,
    b1: BuildContext,
    capsule: TemplateInner,
    path: PathWithoutLocale,
    locale: Seq<char>,
    r: WidgetStep,
) -> bool {
    let in_cfg = b0.widget_render_cfg.view().contains_key(path@);
    &&& b1.render_status == build_status_after(b0.render_status, in_cfg, capsule)
    &&& b1.widget_render_cfg == b0.widget_render_cfg
    &&& b1.widget_states == b0.widget_states
    &&& if !(b0.render_status is Good) {
        r is Empty && b1.possibly_incremental_paths == b0.possibly_incremental_paths
    } else if in_cfg {
        &&& b1.possibly_incremental_paths == b0.possibly_incremental_paths
        &&& if capsule.build_safe_spec() {
            r matches WidgetStep::ReadStore { key, capsule_name } && key@ == store_key(
                locale,
                url_encoded(path@),
            ) && capsule_name == b0.widget_render_cfg.view()[path@]
        } else {
            r is Empty
        }
    } else {
        r is Empty && b1.possibly_incremental_paths@ == b0.possibly_incremental_paths@.push(path)
    }
}

/// One widget met during a request-time pass, from context `q0` to `q1`.
pub open spec fn request_step(
    q0: RequestContext,
    q1: RequestContext,
    path: PathWithoutLocale,
    locale: Seq<char>,
    r: WidgetStep,
) -> bool {
    let full = localized(path@, locale);
    &&& q1.widget_states == q0.widget_states
    &&& if q0.widget_states.view().contains_key(full) {
        q1.unresolved_widget_accumulator == q0.unresolved_widget_accumulator && match q0.widget_states.view()[full] {
            Ok(s) => r matches WidgetStep::Render { path: p, state } && p@ == full && state == s,
            Err(d) => r matches WidgetStep::Error(c) && c.is_server_error_with(d.status, d.msg@),
        }
    } else {
        r is Empty && q1.unresolved_widget_accumulator@ == q0.unresolved_widget_accumulator@.push(path)
    }
}

impl BuildContext {
    pub open spec fn wf(&self) -> bool {
        self.widget_render_cfg.wf() && self.widget_states.wf()
    }

    /// A fresh pass, given the render configuration.
    pub fn new(widget_render_cfg: Keyed<String>) -> (r: BuildContext)
        requires
            widget_render_cfg.wf(),
        ensures
            r.wf(),
            r.render_status is Good,
            r.widget_render_cfg == widget_render_cfg,
            r.widget_states.view() == Map::<Seq<char>, (String, TemplateState)>::empty(),
            r.possibly_incremental_paths@ == Seq::<PathWithoutLocale>::empty(),
    {
        BuildContext {
            render_status: RenderStatus::Good,
            widget_render_cfg,
            widget_states: Keyed::new(),
            possibly_incremental_paths: Vec::new(),
        }
    }

    /// Meets the widget at `path` (of `capsule`) during a build pass.
    pub fn resolve_widget(&mut self, capsule: &TemplateInner, path: &PathWithoutLocale, locale: &str) -> (r:
        WidgetStep)
        requires
            old(self).wf(),
        ensures
            final(self).wf(),
            build_step(*old(self), *final(self), *capsule, *path, locale@, r),
    {
        if !matches!(self.render_status, RenderStatus::Good) {
            return WidgetStep::Empty;
        }
        match self.widget_render_cfg.get(path.as_str()) {
            Some(capsule_name) => {
                if capsule.uses_request_state() || capsule.revalidates() {
                    self.render_status = RenderStatus::Cancelled;
                    WidgetStep::Empty
                } else {
                    let key = immutable_store_key(locale, path);
                    WidgetStep::ReadStore { key, capsule_name: capsule_name.clone() }
                }
            },
            None => {
                self.possibly_incremental_paths.push(PathWithoutLocale(path.0.clone()));
                WidgetStep::Empty
            },
        }
    }

    /// Takes the outcome of reading a widget's build-time state. A missing
    /// artifact is an empty state; any other failure fails the page.
    pub fn finish_widget(
        &mut self,
        path: &PathWithoutLocale,
        locale: &str,
        capsule_name: String,
        read: Result<String, StoreError>,
    ) -> (r: WidgetStep)
        requires
            old(self).wf(),
        ensures
            final(self).wf(),
            final(self).widget_render_cfg == old(self).widget_render_cfg,
            final(self).possibly_incremental_paths == old(self).possibly_incremental_paths,
            match read {
                Err(StoreError::NotFound { .. }) => r matches WidgetStep::Render { path: p, state }
                    && p@ == localized(path@, locale@) && state@ == null_text()
                    && final(self).widget_states.view() == old(self).widget_states.view().insert(
                    p@,
                    (capsule_name, state),
                ) && final(self).render_status == old(self).render_status,
                Err(e) => r is Empty && final(self).render_status == RenderStatus::Failed(
                    ServerError::StoreError(e),
                ) && final(self).widget_states == old(self).widget_states,
                Ok(text) => match json_reencoded(text@) {
                    Some(t) => r matches WidgetStep::Render { path: p, state } && p@ == localized(
                        path@,
                        locale@,
                    ) && state@ == t && final(self).widget_states.view() == old(
                        self,
                    ).widget_states.view().insert(p@, (capsule_name, state))
                        && final(self).render_status == old(self).render_status,
                    None => r is Empty && (final(self).render_status matches RenderStatus::Failed(
                        ServerError::InvalidPageState { .. },
                    )) && final(self).widget_states == old(self).widget_states,
                },
            },
    {
        let text = match read {
            Ok(text) => text,
            Err(StoreError::NotFound { .. }) => {
                proof {
                    reveal_strlit("null");
                }
                let t = String::from_str("null");
                assert(t@ =~= null_text());
                t
            },
            Err(e) => {
                self.render_status = RenderStatus::Failed(ServerError::StoreError(e));
                return WidgetStep::Empty;
            },
        };
        let state = match TemplateState::from_str(text.as_str()) {
            Ok(state) => state,
            Err(source) => {
                self.render_status = RenderStatus::Failed(ServerError::InvalidPageState { source });
                return WidgetStep::Empty;
            },
        };
        let localized_path = PathMaybeWithLocale::new(path, locale);
        self.widget_states.insert(localized_path.0.clone(), (capsule_name, state.clone()));
        WidgetStep::Render { path: localized_path, state }
    }

    /// Records that rendering a resolved widget failed: the page fails.
    pub fn record_failure(&mut self, err: ClientError)
        ensures
            final(self).render_status == RenderStatus::Failed(ServerError::ClientError(err)),
            final(self).widget_render_cfg == old(self).widget_render_cfg,
            final(self).widget_states == old(self).widget_states,
            final(self).possibly_incremental_paths == old(self).possibly_incremental_paths,
    {
        self.render_status = RenderStatus::Failed(ServerError::ClientError(err));
    }
}

/// `batch` is what a pass of `q` put aside, localized with `locale`: each
/// path once, none whose state is known, and every unknown one.
pub open spec fn is_batch_of(q: RequestContext, locale: Seq<char>, batch: Seq<PathMaybeWithLocale>) -> bool {
    let acc = q.unresolved_widget_accumulator@;
    &&& forall|i: int, j: int| 0 <= i < j < batch.len() ==> batch[i]@ != batch[j]@
    &&& forall|i: int|
        0 <= i < batch.len() ==> !q.widget_states.view().contains_key(#[trigger] batch[i]@) && exists|j: int|
            0 <= j < acc.len() && batch[i]@ == localized((#[trigger] acc[j])@, locale)
    &&& forall|j: int|
        0 <= j < acc.len() ==> {
            let p = localized((#[trigger] acc[j])@, locale);
            q.widget_states.view().contains_key(p) || exists|i: int| 0 <= i < batch.len() && batch[i]@ == p
        }
}

/// Whether `v` holds a path equal to `p`.
fn holds_path(v: &Vec<PathMaybeWithLocale>, p: &PathMaybeWithLocale) -> (r: bool)
    ensures
        r == exists|i: int| 0 <= i < v@.len() && (#[trigger] v@[i])@ == p@,
{
    let mut i: usize = 0;
    while i < v.len()
        invariant
            i <= v@.len(),
            forall|j: int| 0 <= j < i ==> (#[trigger] v@[j])@ != p@,
        decreases v@.len() - i,
    {
        if v[i].0 == p.0 {
            return true;
        }
        i = i + 1;
    }
    false
}

impl RequestContext {
    pub open spec fn wf(&self) -> bool {
        self.widget_states.wf()
    }

    /// A first pass, with no widget state known yet.
    pub fn new() -> (r: RequestContext)
        ensures
            r.wf(),
            r.widget_states.view() == Map::<Seq<char>, Result<TemplateState, ServerErrorData>>::empty(),
            r.unresolved_widget_accumulator@ == Seq::<PathWithoutLocale>::empty(),
    {
        RequestContext { widget_states: Keyed::new(), unresolved_widget_accumulator: Vec::new() }
    }

    /// Meets the widget at `path` during a request-time pass: known state is
    /// rendered, a known error is rendered in the widget's place, and an
    /// unknown widget is put aside for the next fetch.
    pub fn resolve_widget(&mut self, path: &PathWithoutLocale, locale: &str) -> (r: WidgetStep)
        requires
            old(self).wf(),
        ensures
            final(self).wf(),
            request_step(*old(self), *final(self), *path, locale@, r),
    {
        let full_path = PathMaybeWithLocale::new(path, locale);
        match self.widget_states.get(full_path.as_str()) {
            Some(Ok(state)) => WidgetStep::Render { path: full_path, state: state.clone() },
            Some(Err(data)) => WidgetStep::Error(data.to_client_error()),
            None => {
                self.unresolved_widget_accumulator.push(PathWithoutLocale(path.0.clone()));
                WidgetStep::Empty
            },
        }
    }

    /// Ends a pass: the paths put aside during it, localized, each once, and
    /// leaving out any whose state is already known. The accumulator is
    /// emptied.
    pub fn take_unresolved(&mut self, locale: &str) -> (r: Vec<PathMaybeWithLocale>)
        requires
            old(self).wf(),
        ensures
            final(self).wf(),
            final(self).widget_states == old(self).widget_states,
            final(self).unresolved_widget_accumulator@ == Seq::<PathWithoutLocale>::empty(),
            is_batch_of(*old(self), locale@, r@),
    {
        let mut out: Vec<PathMaybeWithLocale> = Vec::new();
        let mut k: usize = 0;
        while k < self.unresolved_widget_accumulator.len()
            invariant
                *self == *old(self),
                self.wf(),
                k <= self.unresolved_widget_accumulator@.len(),
                forall|i: int, j: int| 0 <= i < j < out@.len() ==> out@[i]@ != out@[j]@,
                forall|i: int|
                    0 <= i < out@.len() ==> !self.widget_states.view().contains_key(#[trigger] out@[i]@)
                        && exists|j: int|
                        0 <= j < k && out@[i]@ == localized(
                            (#[trigger] self.unresolved_widget_accumulator@[j])@,
                            locale@,
                        ),
                forall|j: int|
                    0 <= j < k ==> {
                        let p = localized((#[trigger] self.unresolved_widget_accumulator@[j])@, locale@);
                        self.widget_states.view().contains_key(p) || exists|i: int|
                            0 <= i < out@.len() && out@[i]@ == p
                    },
            decreases self.unresolved_widget_accumulator@.len() - k,
        {
            let full = PathMaybeWithLocale::new(&self.unresolved_widget_accumulator[k], locale);
            if !self.widget_states.contains(full.as_str()) && !holds_path(&out, &full) {
                let ghost before = out@;
                out.push(full);
                proof {
                    assert forall|i: int|
                        0 <= i < out@.len() implies !self.widget_states.view().contains_key(
                        #[trigger] out@[i]@,
                    ) && exists|j: int|
                        0 <= j < k + 1 && out@[i]@ == localized(
                            (#[trigger] self.unresolved_widget_accumulator@[j])@,
                            locale@,
                        ) by {
                        if i < before.len() {
                            assert(out@[i] == before[i]);
                        } else {
                            assert(out@[i]@ == localized(
                                self.unresolved_widget_accumulator@[k as int]@,
                                locale@,
                            ));
                        }
                    }
                    assert forall|j: int| 0 <= j < k + 1 implies {
                        let p = localized((#[trigger] self.unresolved_widget_accumulator@[j])@, locale@);
                        self.widget_states.view().contains_key(p) || exists|i: int|
                            0 <= i < out@.len() && out@[i]@ == p
                    } by {
                        let p = localized(self.unresolved_widget_accumulator@[j]@, locale@);
                        if j < k && !self.widget_states.view().contains_key(p) {
                            let i = choose|i: int| 0 <= i < before.len() && before[i]@ == p;
                            assert(out@[i] == before[i]);
                        }
                        if j == k {
                            assert(out@[before.len() as int]@ == p);
                        }
                    }
                }
            }
            k = k + 1;
        }
        proof {
            assert forall|i: int| 0 <= i < out@.len() implies exists|j: int|
                0 <= j < old(self).unresolved_widget_accumulator@.len() && (#[trigger] out@[i])@ == localized(
                    (#[trigger] old(self).unresolved_widget_accumulator@[j])@,
                    locale@,
                ) by {
                let j = choose|j: int|
                    0 <= j < k && out@[i]@ == localized(
                        (#[trigger] self.unresolved_widget_accumulator@[j])@,
                        locale@,
                    );
                assert(old(self).unresolved_widget_accumulator@[j] == self.unresolved_widget_accumulator@[j]);
            }
        }
        self.unresolved_widget_accumulator = Vec::new();
        out
    }

    /// Records what the fetch of `path` gave, for the next pass.
    pub fn record_fetched(
        &mut self,
        path: PathMaybeWithLocale,
        result: Result<TemplateState, ServerErrorData>,
    )
        requires
            old(self).wf(),
        ensures
            final(self).wf(),
            final(self).widget_states.view() == old(self).widget_states.view().insert(path@, result),
            final(self).unresolved_widget_accumulator == old(self).unresolved_widget_accumulator,
    {
        self.widget_states.insert(path.0, result);
    }
}


impl RenderMode {
    /// Whether widgets can be met in this mode at all.
    pub open spec fn resolves_widgets(&self) -> bool {
        self is Build || self is Request
    }

    pub open spec fn wf(&self) -> bool {
        match self {
            RenderMode::Build(b) => b.wf(),
            RenderMode::Request(q) => q.wf(),
            _ => true,
        }
    }

    /// Meets the widget at `path` (of `capsule`) on the engine side. Heads,
    /// error views and headers cannot hold widgets, so those modes are
    /// excluded.
    pub fn engine_widget(&mut self, capsule: &TemplateInner, path: &PathWithoutLocale, locale: &str) -> (r:
        WidgetStep)
        requires
            old(self).wf(),
            old(self).resolves_widgets(),
        ensures
            final(self).wf(),
            final(self).resolves_widgets(),
            match *old(self) {
                RenderMode::Build(b0) => *final(self) matches RenderMode::Build(b1) && build_step(
                    b0,
                    b1,
                    *capsule,
                    *path,
                    locale@,
                    r,
                ),
                RenderMode::Request(q0) => *final(self) matches RenderMode::Request(q1)
                    && request_step(q0, q1, *path, locale@, r),
                _ => false,
            },
    {
        match self {
            RenderMode::Build(ctx) => ctx.resolve_widget(capsule, path, locale),
            RenderMode::Request(ctx) => ctx.resolve_widget(path, locale),
            _ => WidgetStep::Empty,
        }
    }
}

} // verus!
