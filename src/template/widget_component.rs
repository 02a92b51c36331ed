//! Capsules: templates whose instances, widgets, are embedded in pages and
//! in other widgets.
use crate::path::{
    strip_leading_slash, strip_trailing_slash, without_leading_slash, without_trailing_slash,
    PathWithoutLocale,
};
use crate::errors::{ClientError, ClientInvariantError};
use crate::template::entity::TemplateInner;
use vstd::prelude::*;

verus! {

/// The path segment under which every capsule lives.
pub open spec fn capsule_root() -> Seq<char> {
    seq!['_', '_', 'c', 'a', 'p', 's', 'u', 'l', 'e', '/']
}

/// The full path of the widget that `path` names within the capsule at
/// `capsule_path`: one leading and one trailing `/` of `path` are ignored,
/// and the index widget is the capsule's own path.
pub open spec fn capsule_widget_path(capsule_path: Seq<char>, path: Seq<char>) -> Seq<char> {
    without_trailing_slash(
        capsule_path + seq!['/'] + without_trailing_slash(without_leading_slash(path)),
    )
}

/// What the router found for a widget's path in the browser.
#[derive(Debug)]
pub struct RouteMatch {
    /// The path of the template or capsule that the path belongs to.
    pub entity_path: String,
    pub locale: String,
    pub was_incremental_match: bool,
}

/// A template whose instances are widgets.
#[derive(Debug)]
pub struct Capsule {
    pub inner: TemplateInner,
}

impl Capsule {
    /// Starts a capsule named `name`, with no state-generation strategy.
    pub fn build(name: &str) -> (r: Capsule)
        ensures
            r.inner.path_spec() == capsule_root() + name@,
            r.inner.is_capsule,
            !r.inner.uses_request_state_spec(),
            !r.inner.revalidates_spec(),
            !r.inner.uses_incremental_spec(),
            !r.inner.uses_build_state_spec(),
    {
        let mut path = String::from_str("__capsule/");
        path.append(name);
        proof {
            reveal_strlit("__capsule/");
        }
        assert(path@ =~= capsule_root() + name@);
        let mut inner = TemplateInner::new(path.as_str());
        inner.is_capsule = true;
        Capsule { inner }
    }

    /// Wraps a template built elsewhere as a capsule.
    pub fn from_inner(inner: TemplateInner) -> (r: Capsule)
        ensures
            r.inner == (TemplateInner { is_capsule: true, ..inner }),
    {
        Capsule { inner: TemplateInner { is_capsule: true, ..inner } }
    }

    /// The full path of the widget that `path` names within this capsule.
    pub fn widget_path(&self, path: &str) -> (r: PathWithoutLocale)
        ensures
            r@ == capsule_widget_path(self.inner.path_spec(), path@),
    {
        let trimmed = strip_trailing_slash(strip_leading_slash(path));
        let mut full = String::from_str(self.inner.get_path());
        full.append("/");
        full.append(trimmed);
        proof {
            reveal_strlit("/");
        }
        assert(full@ =~= self.inner.path_spec() + seq!['/'] + without_trailing_slash(
            without_leading_slash(path@),
        ));
        PathWithoutLocale(String::from_str(strip_trailing_slash(full.as_str())))
    }

    /// Checks what the router found for the widget at `path` (of this
    /// capsule): the widget can only be rendered where the router names this
    /// very capsule.
    pub fn check_widget_route(&self, path: &PathWithoutLocale, found: Option<RouteMatch>) -> (r: Result<
        RouteMatch,
        ClientError,
    >)
        ensures
            match found {
                Some(m) if m.entity_path@ == self.inner.path_spec() => r == Ok::<
                    RouteMatch,
                    ClientError,
                >(m),
                _ => r matches Err(
                    ClientError::InvariantError(ClientInvariantError::BadWidgetRouteMatch { path: p }),
                ) && p@ == path@,
            },
    {
        match found {
            Some(m) => {
                if m.entity_path == self.inner.path {
                    Ok(m)
                } else {
                    Err(
                        ClientError::InvariantError(
                            ClientInvariantError::BadWidgetRouteMatch { path: path.0.clone() },
                        ),
                    )
                }
            },
            None => Err(
                ClientError::InvariantError(
                    ClientInvariantError::BadWidgetRouteMatch { path: path.0.clone() },
                ),
            ),
        }
    }
}

} // verus!
