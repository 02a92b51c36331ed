//! Resolution of a widget's state on either side: state already held,
//! state preloaded into the store, state handed over by the server, or a
//! fetch to make.
use crate::errors::{ClientError, ClientInvariantError};
use crate::path::{delocalized, strip_locale, PathMaybeWithLocale, PathWithoutLocale};
use crate::state::pss::{PageStateStore, PssContains, PssEntry, PssState};
use crate::state::template_state::{null_text, TemplateState};
use vstd::prelude::*;

verus! {

/// The state of a page's render: its store of known state, and the side it
/// runs on.
#[derive(Debug)]
pub struct Reactor {
    pub state_store: PageStateStore,
    /// In the browser (rather than on the engine, which renders on the server).
    pub is_browser: bool,
}

/// What a browser-side widget needs fetched before it can render.
#[derive(Debug)]
pub struct WidgetFetch {
    /// The widget's path without its locale, as the preload system takes it.
    pub path: PathWithoutLocale,
    pub locale: String,
    pub capsule_name: String,
    pub was_incremental_match: bool,
}

/// How a widget is to be shown.
#[derive(Debug)]
pub enum WidgetView {
    /// Render it now with this state.
    Ready(TemplateState),
    /// Show the capsule's fallback, fetch, then call `finish_widget_fetch`.
    Fetch(WidgetFetch),
}

/// The store after `state` was registered for `url` whose entry was `before`:
/// the state is active, the head is `head`, and nothing else changed.
pub open spec fn registered(
    s0: PageStateStore,
    s1: PageStateStore,
    url: Seq<char>,
    state: TemplateState,
    head: Option<PssEntry>,
) -> bool {
    &&& s1.entries_view() == s0.entries_view().insert(
        url,
        PssEntry {
            state: PssState::Active(state),
            head: match head {
                Some(e) => e.head,
                None => None,
            },
        },
    )
    &&& s1.preloaded_view() == s0.preloaded_view()
    &&& s1.in_flight_view() == s0.in_flight_view()
    &&& s1.dependencies_view() == s0.dependencies_view()
}

/// Whether `url`'s entry was declared to take no state.
pub open spec fn never_takes_state(s: PageStateStore, url: Seq<char>) -> bool {
    s.entry_of(url) matches Some(e) && e.state is Never
}

/// What looking up a widget's state without fetching does, from store `s0`
/// to store `s1`, with result `r`.
pub open spec fn no_fetch_outcome(
    s0: PageStateStore,
    s1: PageStateStore,
    is_browser: bool,
    url: Seq<char>,
    server_state: TemplateState,
    r: Result<Option<TemplateState>, ClientError>,
) -> bool {
    let entry = s0.entry_of(url);
    if entry matches Some(e) && e.state is Active {
        r == Ok::<Option<TemplateState>, ClientError>(Some(entry->Some_0.state->Active_0))
            && s1 == s0
    } else if is_browser {
        match s0.contains_spec(url) {
            PssContains::Preloaded => match s0.preloaded_view()[url].state {
                Ok(st) => if never_takes_state(s0, url) {
                    r matches Err(
                        ClientError::InvariantError(
                            ClientInvariantError::IllegalStateRegistration,
                        ),
                    )
                } else {
                    &&& r == Ok::<Option<TemplateState>, ClientError>(Some(st))
                    &&& (s1.entry_of(url) matches Some(e1) && e1.state
                        == PssState::Active(st) && (e1.head matches Some(h) && h@
                        == Seq::<char>::empty()))
                    &&& s1.entries_view().remove(url) == s0.entries_view().remove(
                        url,
                    )
                    &&& s1.preloaded_view() == s0.preloaded_view()
                },
                Err(d) => r matches Err(c) && c.is_server_error_with(d.status, d.msg@),
            },
            PssContains::Absent => r matches Ok(None) && s1 == s0,
            _ => r matches Err(
                ClientError::InvariantError(ClientInvariantError::InvalidWidgetPssEntry),
            ) && s1 == s0,
        }
    } else if server_state@ == null_text() {
        r matches Err(ClientError::InvariantError(ClientInvariantError::NoState)) && s1
            == s0
    } else if never_takes_state(s0, url) {
        r matches Err(
            ClientError::InvariantError(ClientInvariantError::IllegalStateRegistration),
        ) && s1.same_views(s0)
    } else {
        r == Ok::<Option<TemplateState>, ClientError>(Some(server_state)) && registered(
            s0,
            s1,
            url,
            server_state,
            entry,
        )
    }
}

impl Reactor {
    pub open spec fn wf(&self) -> bool {
        self.state_store.wf()
    }

    /// A reactor with an empty store.
    pub fn new(is_browser: bool) -> (r: Reactor)
        ensures
            r.wf(),
            r.is_browser == is_browser,
            r.state_store.entries_view() == Map::<Seq<char>, PssEntry>::empty(),
            r.state_store.preloaded_view().is_empty(),
            r.state_store.in_flight_view().is_empty(),
            r.state_store.dependencies_view().is_empty(),
    {
        let state_store = PageStateStore::new();
        proof {
            assert(state_store.preloaded_view() =~= Map::empty());
        }
        Reactor { state_store, is_browser }
    }

    /// The state of the widget at `url`, without fetching: `Ok(None)` where
    /// the browser has to fetch it. On the engine, `server_state` is the
    /// state to use; in the browser it is ignored.
    pub fn get_widget_state_no_fetch(&mut self, url: &PathMaybeWithLocale, server_state: TemplateState) -> (r:
        Result<Option<TemplateState>, ClientError>)
        requires
            old(self).wf(),
        ensures
            final(self).wf(),
            final(self).is_browser == old(self).is_browser,
            no_fetch_outcome(old(self).state_store, final(self).state_store, old(self).is_browser, url@, server_state, r),
    {
        if let Some(held) = self.state_store.get_state(url) {
            return Ok(Some(held));
        }
        if self.is_browser {
            match self.state_store.contains(url) {
                PssContains::Preloaded => {
                    let state = match self.state_store.get_preloaded(url) {
                        Some(data) => match &data.state {
                            Ok(state) => state.clone(),
                            Err(d) => {
                                return Err(d.to_client_error());
                            },
                        },
                        None => {
                            return Ok(None);
                        },
                    };
                    let ghost mid = self.state_store;
                    self.state_store.add_head(url, String::new());
                    let ghost with_head = self.state_store;
                    assert(with_head.entry_of(url@)->Some_0.state == mid.entry_of(url@).unwrap_or(
                        PssEntry { state: PssState::Empty, head: None },
                    ).state);
                    match self.state_store.add_state(url, state.clone()) {
                        Ok(()) => {
                            assert(self.state_store.entries_view().remove(url@) =~= mid.entries_view().remove(
                                url@,
                            ));
                            Ok(Some(state))
                        },
                        Err(e) => Err(ClientError::InvariantError(e)),
                    }
                },
                PssContains::Absent => Ok(None),
                _ => Err(ClientError::InvariantError(ClientInvariantError::InvalidWidgetPssEntry)),
            }
        } else if server_state.is_empty() {
            Err(ClientError::InvariantError(ClientInvariantError::NoState))
        } else {
            match self.state_store.add_state(url, server_state.clone()) {
                Ok(()) => Ok(Some(server_state)),
                Err(e) => Err(ClientError::InvariantError(e)),
            }
        }
    }

    /// How the widget at `url` is shown: with state at hand, now; in the
    /// browser without it, after a fetch of the widget at its path without
    /// `locale`.
    pub fn get_widget_view(
        &mut self,
        url: &PathMaybeWithLocale,
        server_state: TemplateState,
        capsule_name: &str,
        locale: &str,
        was_incremental_match: bool,
    ) -> (r: Result<WidgetView, ClientError>)
        requires
            old(self).wf(),
        ensures
            final(self).wf(),
            final(self).is_browser == old(self).is_browser,
            exists|found: Result<Option<TemplateState>, ClientError>|
                #![trigger no_fetch_outcome(old(self).state_store, final(self).state_store, old(self).is_browser, url@, server_state, found)]
                no_fetch_outcome(
                    old(self).state_store,
                    final(self).state_store,
                    old(self).is_browser,
                    url@,
                    server_state,
                    found,
                ) && match found {
                    Err(e) => r == Err::<WidgetView, ClientError>(e),
                    Ok(Some(st)) => r == Ok::<WidgetView, ClientError>(WidgetView::Ready(st)),
                    Ok(None) => match delocalized(url@, locale@) {
                        Some(p) => r matches Ok(WidgetView::Fetch(f)) && f.path@ == p && f.locale@
                            == locale@ && f.capsule_name@ == capsule_name@ && f.was_incremental_match
                            == was_incremental_match,
                        None => r matches Err(
                            ClientError::InvariantError(
                                ClientInvariantError::BadWidgetRouteMatch { path },
                            ),
                        ) && path@ == url@,
                    },
                },
    {
        let ghost given = server_state;
        let found = self.get_widget_state_no_fetch(url, server_state);
        assert(no_fetch_outcome(
            old(self).state_store,
            self.state_store,
            old(self).is_browser,
            url@,
            given,
            found,
        ));
        match found {
            Err(e) => Err(e),
            Ok(Some(st)) => Ok(WidgetView::Ready(st)),
            Ok(None) => match strip_locale(url, locale) {
                Some(p) => Ok(
                    WidgetView::Fetch(
                        WidgetFetch {
                            path: p,
                            locale: String::from_str(locale),
                            capsule_name: String::from_str(capsule_name),
                            was_incremental_match,
                        },
                    ),
                ),
                None => Err(
                    ClientError::InvariantError(
                        ClientInvariantError::BadWidgetRouteMatch { path: url.0.clone() },
                    ),
                ),
            },
        }
    }

    /// Takes the end of a widget's fetch: on success, the widget's state,
    /// and the widget recorded as used by `caller`.
    pub fn finish_widget_fetch(
        &mut self,
        url: &PathMaybeWithLocale,
        caller: &PathMaybeWithLocale,
        fetched: Result<(), ClientError>,
    ) -> (r: Result<TemplateState, ClientError>)
        requires
            old(self).wf(),
        ensures
            final(self).wf(),
            final(self).is_browser == old(self).is_browser,
            fetched matches Err(e) ==> r == Err::<TemplateState, ClientError>(e) && *final(self)
                == *old(self),
            r is Ok ==> final(self).state_store.dependencies_view().contains((url@, caller@)),
            fetched is Ok ==> exists|
                found: Result<Option<TemplateState>, ClientError>,
                mid: PageStateStore,
                empty: TemplateState,
            |
                #![trigger no_fetch_outcome(old(self).state_store, mid, old(self).is_browser, url@, empty, found)]
                empty@ == null_text() && no_fetch_outcome(
                    old(self).state_store,
                    mid,
                    old(self).is_browser,
                    url@,
                    empty,
                    found,
                ) && match found {
                    Err(e) => r == Err::<TemplateState, ClientError>(e),
                    Ok(Some(st)) => r == Ok::<TemplateState, ClientError>(st) && final(self).state_store.entries_view()
                        == mid.entries_view() && final(self).state_store.dependencies_view()
                        == mid.dependencies_view().insert((url@, caller@)),
                    Ok(None) => r matches Err(
                        ClientError::InvariantError(ClientInvariantError::NoState),
                    ),
                },
    {
        match fetched {
            Err(e) => Err(e),
            Ok(()) => {
                let empty = TemplateState::empty();
                let ghost e = empty;
                let found = self.get_widget_state_no_fetch(url, empty);
                let ghost mid = self.state_store;
                assert(no_fetch_outcome(old(self).state_store, mid, old(self).is_browser, url@, e, found));
                match found {
                    Ok(Some(st)) => {
                        self.state_store.declare_dependency(url, caller);
                        Ok(st)
                    },
                    Ok(None) => Err(ClientError::InvariantError(ClientInvariantError::NoState)),
                    Err(e) => Err(e),
                }
            },
        }
    }
}

/// Where a browser-side widget whose state is being fetched stands.
#[derive(Debug, Clone, Copy, PartialEq, Eq, Structural)]
pub enum SlotState {
    /// The capsule's fallback is shown while the fetch runs.
    Fallback,
    /// The fetched view has been swapped in.
    Swapped,
    /// The page was left: whatever the fetch brings is discarded.
    Cancelled,
}

/// The place of one fetching widget in its page, owned by the page's
/// session: navigation cancels it, and the fetched view is swapped in at
/// most once.
#[derive(Debug)]
pub struct WidgetSlot {
    pub state: SlotState,
}

impl WidgetSlot {
    /// A slot showing the fallback.
    pub fn new() -> (r: WidgetSlot)
        ensures
            r.state == SlotState::Fallback,
    {
        WidgetSlot { state: SlotState::Fallback }
    }

    /// The page is left: a fetch still under way is cancelled.
    pub fn cancel(&mut self)
        ensures
            final(self).state == (if old(self).state == SlotState::Fallback {
                SlotState::Cancelled
            } else {
                old(self).state
            }),
    {
        if self.state == SlotState::Fallback {
            self.state = SlotState::Cancelled;
        }
    }

    /// The fetch is over: whether its view is to be swapped in. Only the
    /// first delivery to a slot that was not cancelled is.
    pub fn deliver(&mut self) -> (r: bool)
        ensures
            r == (old(self).state == SlotState::Fallback),
            final(self).state == (if r {
                SlotState::Swapped
            } else {
                old(self).state
            }),
    {
        if self.state == SlotState::Fallback {
            self.state = SlotState::Swapped;
            true
        } else {
            false
        }
    }
}

} // verus!
