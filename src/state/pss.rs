//! The page/widget state store: the single authority on what is known of
//! each path, which fetches are under way, and which widgets each page uses.
use crate::error_views::ServerErrorData;
use crate::errors::{ClientError, ClientInvariantError};
use crate::keyed::Keyed;
use crate::path::PathMaybeWithLocale;
use crate::state::template_state::TemplateState;
use vstd::prelude::*;

verus! {

/// What the store holds as a path's state.
#[derive(Debug)]
pub enum PssState {
    /// The active state.
    Active(TemplateState),
    /// Nothing yet.
    Empty,
    /// The path was declared to take no state at all.
    Never,
}

/// One path's slot in the store.
#[derive(Debug)]
pub struct PssEntry {
    pub state: PssState,
    /// The rendered document head; widgets never have one.
    pub head: Option<String>,
}

/// How much the store knows of a path.
#[derive(Clone, Copy, Debug, PartialEq, Eq, Structural)]
pub enum PssContains {
    /// State and head.
    All,
    /// State, no head.
    State,
    /// A head, and no state yet.
    Head,
    /// A head, for a path that takes no state.
    HeadNoState,
    /// Nothing.
    Absent,
    /// Nothing active, but preloaded data is waiting.
    Preloaded,
}

/// Data fetched ahead of its use: a widget's state, or the error that the
/// server sent in its place, and the document head.
#[derive(Debug)]
pub struct PreloadedData {
    pub state: Result<TemplateState, ServerErrorData>,
    pub head: String,
}

/// What a request to preload a path comes to.
#[derive(Clone, Copy, Debug, PartialEq, Eq, Structural)]
pub enum PreloadStart {
    /// The store already knows the path: nothing to fetch.
    Available,
    /// Another request is fetching it: share that one.
    InFlight,
    /// The caller is to fetch it, and to report with `finish_preload`.
    Fetch,
}

/// The classification of an active entry alone.
pub open spec fn classify_entry(e: Option<PssEntry>) -> PssContains {
    match e {
        Some(entry) => match entry.state {
            PssState::Active(_) => if entry.head is Some {
                PssContains::All
            } else {
                PssContains::State
            },
            PssState::Empty => if entry.head is Some {
                PssContains::Head
            } else {
                PssContains::Absent
            },
            PssState::Never => if entry.head is Some {
                PssContains::HeadNoState
            } else {
                PssContains::Absent
            },
        },
        None => PssContains::Absent,
    }
}

/// The classification of a path: preloaded data counts wherever no active
/// state does.
pub open spec fn classify(e: Option<PssEntry>, preloaded: bool) -> PssContains {
    let base = classify_entry(e);
    match base {
        PssContains::Absent | PssContains::Head | PssContains::HeadNoState => if preloaded {
            PssContains::Preloaded
        } else {
            base
        },
        _ => base,
    }
}

/// The outcome of one request to preload a path, and the paths in flight
/// after it.
pub open spec fn start_spec(known: PssContains, in_flight: Set<Seq<char>>, url: Seq<char>) -> (
    PreloadStart,
    Set<Seq<char>>,
) {
    if known != PssContains::Absent {
        (PreloadStart::Available, in_flight)
    } else if in_flight.contains(url) {
        (PreloadStart::InFlight, in_flight)
    } else {
        (PreloadStart::Fetch, in_flight.insert(url))
    }
}

#[derive(Debug)]
pub struct PageStateStore {
    entries: Keyed<PssEntry>,
    preloaded: Keyed<PreloadedData>,
    in_flight: Keyed<()>,
    dependencies: Vec<(String, String)>,
}

impl PageStateStore {
    pub closed spec fn wf(&self) -> bool {
        self.entries.wf() && self.preloaded.wf() && self.in_flight.wf()
    }

    pub closed spec fn entries_view(&self) -> Map<Seq<char>, PssEntry> {
        self.entries.view()
    }

    pub closed spec fn preloaded_view(&self) -> Map<Seq<char>, PreloadedData> {
        self.preloaded.view()
    }

    pub closed spec fn in_flight_view(&self) -> Set<Seq<char>> {
        self.in_flight.view().dom()
    }

    /// The recorded edges, from widget to the page or widget that uses it.
    pub closed spec fn dependencies_view(&self) -> Set<(Seq<char>, Seq<char>)> {
        Set::new(
            |p: (Seq<char>, Seq<char>)|
                exists|i: int|
                    0 <= i < self.dependencies@.len() && (#[trigger] self.dependencies@[i]).0@ == p.0
                        && self.dependencies@[i].1@ == p.1,
        )
    }

    /// Whether `other` holds what this store holds.
    pub open spec fn same_views(&self, other: PageStateStore) -> bool {
        &&& self.entries_view() == other.entries_view()
        &&& self.preloaded_view() == other.preloaded_view()
        &&& self.in_flight_view() == other.in_flight_view()
        &&& self.dependencies_view() == other.dependencies_view()
    }

    pub open spec fn entry_of(&self, url: Seq<char>) -> Option<PssEntry> {
        if self.entries_view().contains_key(url) {
            Some(self.entries_view()[url])
        } else {
            None
        }
    }

    pub open spec fn contains_spec(&self, url: Seq<char>) -> PssContains {
        classify(self.entry_of(url), self.preloaded_view().contains_key(url))
    }

    /// An empty store.
    pub fn new() -> (r: PageStateStore)
        ensures
            r.wf(),
            r.entries_view() == Map::<Seq<char>, PssEntry>::empty(),
            r.preloaded_view() == Map::<Seq<char>, PreloadedData>::empty(),
            r.in_flight_view() == Set::<Seq<char>>::empty(),
            r.dependencies_view() == Set::<(Seq<char>, Seq<char>)>::empty(),
    {
        let r = PageStateStore {
            entries: Keyed::new(),
            preloaded: Keyed::new(),
            in_flight: Keyed::new(),
            dependencies: Vec::new(),
        };
        assert(r.in_flight_view() =~= Set::<Seq<char>>::empty());
        assert(r.dependencies_view() =~= Set::<(Seq<char>, Seq<char>)>::empty());
        r
    }

    /// How much the store knows of `url`. Never fails.
    pub fn contains(&self, url: &PathMaybeWithLocale) -> (r: PssContains)
        requires
            self.wf(),
        ensures
            r == self.contains_spec(url@),
    {
        let base = match self.entries.get(url.as_str()) {
            Some(entry) => match &entry.state {
                PssState::Active(_) => if entry.head.is_some() {
                    PssContains::All
                } else {
                    PssContains::State
                },
                PssState::Empty => if entry.head.is_some() {
                    PssContains::Head
                } else {
                    PssContains::Absent
                },
                PssState::Never => if entry.head.is_some() {
                    PssContains::HeadNoState
                } else {
                    PssContains::Absent
                },
            },
            None => PssContains::Absent,
        };
        match base {
            PssContains::Absent | PssContains::Head | PssContains::HeadNoState => {
                if self.preloaded.contains(url.as_str()) {
                    PssContains::Preloaded
                } else {
                    base
                }
            },
            _ => base,
        }
    }

    /// The active state of `url`, if the store holds one.
    pub fn get_state(&self, url: &PathMaybeWithLocale) -> (r: Option<TemplateState>)
        requires
            self.wf(),
        ensures
            match r {
                Some(t) => self.entry_of(url@) matches Some(e) && e.state == PssState::Active(t),
                None => !(self.entry_of(url@) matches Some(e) && e.state is Active),
            },
    {
        match self.entries.get(url.as_str()) {
            Some(entry) => match &entry.state {
                PssState::Active(s) => Some(s.clone()),
                _ => None,
            },
            None => None,
        }
    }

    /// Registers `state` as the active state of `url`, keeping its head.
    /// Fails, changing nothing, where `url` was declared to take no state.
    pub fn add_state(&mut self, url: &PathMaybeWithLocale, state: TemplateState) -> (r: Result<
        (),
        ClientInvariantError,
    >)
        requires
            old(self).wf(),
        ensures
            final(self).wf(),
            final(self).preloaded_view() == old(self).preloaded_view(),
            final(self).in_flight_view() == old(self).in_flight_view(),
            final(self).dependencies_view() == old(self).dependencies_view(),
            match old(self).entry_of(url@) {
                Some(e) if e.state is Never => r matches Err(
                    ClientInvariantError::IllegalStateRegistration,
                ) && final(self).entries_view() == old(self).entries_view(),
                _ => r is Ok && final(self).entries_view() == old(self).entries_view().insert(
                    url@,
                    PssEntry {
                        state: PssState::Active(state),
                        head: match old(self).entry_of(url@) {
                            Some(e) => e.head,
                            None => None,
                        },
                    },
                ),
            },
    {
        let ghost before = self.entries.view();
        match self.entries.take(url.as_str()) {
            Some(entry) => {
                if matches!(entry.state, PssState::Never) {
                    self.entries.insert(url.0.clone(), entry);
                    proof {
                        assert(self.entries.view() =~= before);
                    }
                    Err(ClientInvariantError::IllegalStateRegistration)
                } else {
                    self.entries.insert(
                        url.0.clone(),
                        PssEntry { state: PssState::Active(state), head: entry.head },
                    );
                    proof {
                        assert(self.entries.view() =~= before.insert(
                            url@,
                            PssEntry { state: PssState::Active(state), head: entry.head },
                        ));
                    }
                    Ok(())
                }
            },
            None => {
                self.entries.insert(url.0.clone(), PssEntry { state: PssState::Active(state), head: None });
                proof {
                    assert(self.entries.view() =~= before.insert(
                        url@,
                        PssEntry { state: PssState::Active(state), head: None },
                    ));
                }
                Ok(())
            },
        }
    }

    /// Registers the document head of `url`, keeping its state.
    pub fn add_head(&mut self, url: &PathMaybeWithLocale, head: String)
        requires
            old(self).wf(),
        ensures
            final(self).wf(),
            final(self).preloaded_view() == old(self).preloaded_view(),
            final(self).in_flight_view() == old(self).in_flight_view(),
            final(self).dependencies_view() == old(self).dependencies_view(),
            final(self).entries_view() == old(self).entries_view().insert(
                url@,
                PssEntry {
                    state: match old(self).entry_of(url@) {
                        Some(e) => e.state,
                        None => PssState::Empty,
                    },
                    head: Some(head),
                },
            ),
    {
        let ghost before = self.entries.view();
        match self.entries.take(url.as_str()) {
            Some(entry) => {
                self.entries.insert(url.0.clone(), PssEntry { state: entry.state, head: Some(head) });
                proof {
                    assert(self.entries.view() =~= before.insert(
                        url@,
                        PssEntry { state: entry.state, head: Some(head) },
                    ));
                }
            },
            None => {
                self.entries.insert(url.0.clone(), PssEntry { state: PssState::Empty, head: Some(head) });
                proof {
                    assert(self.entries.view() =~= before.insert(
                        url@,
                        PssEntry { state: PssState::Empty, head: Some(head) },
                    ));
                }
            },
        }
    }

    /// Declares that `url` takes no state, keeping its head. Fails, changing
    /// nothing, where it already has active state.
    pub fn register_no_state(&mut self, url: &PathMaybeWithLocale) -> (r: Result<
        (),
        ClientInvariantError,
    >)
        requires
            old(self).wf(),
        ensures
            final(self).wf(),
            final(self).preloaded_view() == old(self).preloaded_view(),
            final(self).in_flight_view() == old(self).in_flight_view(),
            final(self).dependencies_view() == old(self).dependencies_view(),
            match old(self).entry_of(url@) {
                Some(e) if e.state is Active => r matches Err(
                    ClientInvariantError::IllegalStateRegistration,
                ) && final(self).entries_view() == old(self).entries_view(),
                _ => r is Ok && final(self).entries_view() == old(self).entries_view().insert(
                    url@,
                    PssEntry {
                        state: PssState::Never,
                        head: match old(self).entry_of(url@) {
                            Some(e) => e.head,
                            None => None,
                        },
                    },
                ),
            },
    {
        let ghost before = self.entries.view();
        match self.entries.take(url.as_str()) {
            Some(entry) => {
                if matches!(entry.state, PssState::Active(_)) {
                    self.entries.insert(url.0.clone(), entry);
                    proof {
                        assert(self.entries.view() =~= before);
                    }
                    Err(ClientInvariantError::IllegalStateRegistration)
                } else {
                    self.entries.insert(
                        url.0.clone(),
                        PssEntry { state: PssState::Never, head: entry.head },
                    );
                    proof {
                        assert(self.entries.view() =~= before.insert(
                            url@,
                            PssEntry { state: PssState::Never, head: entry.head },
                        ));
                    }
                    Ok(())
                }
            },
            None => {
                self.entries.insert(url.0.clone(), PssEntry { state: PssState::Never, head: None });
                proof {
                    assert(self.entries.view() =~= before.insert(
                        url@,
                        PssEntry { state: PssState::Never, head: None },
                    ));
                }
                Ok(())
            },
        }
    }

    /// Records data fetched for `url` ahead of its use.
    pub fn add_preloaded(&mut self, url: &PathMaybeWithLocale, data: PreloadedData)
        requires
            old(self).wf(),
        ensures
            final(self).wf(),
            final(self).entries_view() == old(self).entries_view(),
            final(self).preloaded_view() == old(self).preloaded_view().insert(url@, data),
            final(self).in_flight_view() == old(self).in_flight_view(),
            final(self).dependencies_view() == old(self).dependencies_view(),
    {
        self.preloaded.insert(url.0.clone(), data);
    }

    /// The data preloaded for `url`, if there is any.
    pub fn get_preloaded(&self, url: &PathMaybeWithLocale) -> (r: Option<&PreloadedData>)
        requires
            self.wf(),
        ensures
            match r {
                Some(d) => self.preloaded_view().contains_key(url@) && self.preloaded_view()[url@]
                    == *d,
                None => !self.preloaded_view().contains_key(url@),
            },
    {
        self.preloaded.get(url.as_str())
    }

    /// Asks to preload `url`. Only a path that the store does not know and
    /// that no one is fetching is handed out to fetch; requests that overlap
    /// that fetch share it.
    pub fn begin_preload(&mut self, url: &PathMaybeWithLocale) -> (r: PreloadStart)
        requires
            old(self).wf(),
        ensures
            final(self).wf(),
            (r, final(self).in_flight_view()) == start_spec(
                old(self).contains_spec(url@),
                old(self).in_flight_view(),
                url@,
            ),
            final(self).entries_view() == old(self).entries_view(),
            final(self).preloaded_view() == old(self).preloaded_view(),
            final(self).dependencies_view() == old(self).dependencies_view(),
    {
        if self.contains(url) != PssContains::Absent {
            PreloadStart::Available
        } else if self.in_flight.contains(url.as_str()) {
            PreloadStart::InFlight
        } else {
            self.in_flight.insert(url.0.clone(), ());
            proof {
                assert(self.in_flight_view() =~= old(self).in_flight_view().insert(url@));
            }
            PreloadStart::Fetch
        }
    }

    /// Reports the end of the fetch of `url`: what arrived is kept as
    /// preloaded data, and a server error becomes a client error.
    pub fn finish_preload(
        &mut self,
        url: &PathMaybeWithLocale,
        result: Result<PreloadedData, ServerErrorData>,
    ) -> (r: Result<(), ClientError>)
        requires
            old(self).wf(),
        ensures
            final(self).wf(),
            final(self).in_flight_view() == old(self).in_flight_view().remove(url@),
            final(self).entries_view() == old(self).entries_view(),
            final(self).dependencies_view() == old(self).dependencies_view(),
            match result {
                Ok(d) => r is Ok && final(self).preloaded_view() == old(self).preloaded_view().insert(
                    url@,
                    d,
                ),
                Err(e) => r matches Err(c) && c.is_server_error_with(e.status, e.msg@)
                    && final(self).preloaded_view() == old(self).preloaded_view(),
            },
    {
        let _ = self.in_flight.take(url.as_str());
        proof {
            assert(self.in_flight_view() =~= old(self).in_flight_view().remove(url@));
        }
        match result {
            Ok(d) => {
                self.preloaded.insert(url.0.clone(), d);
                Ok(())
            },
            Err(e) => Err(e.to_client_error()),
        }
    }

    /// Whether `widget` is recorded as used by `caller`.
    pub fn has_dependency(&self, widget: &PathMaybeWithLocale, caller: &PathMaybeWithLocale) -> (r: bool)
        ensures
            r == self.dependencies_view().contains((widget@, caller@)),
    {
        let mut i: usize = 0;
        while i < self.dependencies.len()
            invariant
                i <= self.dependencies@.len(),
                forall|j: int|
                    0 <= j < i ==> !(self.dependencies@[j].0@ == widget@ && self.dependencies@[j].1@
                        == caller@),
            decreases self.dependencies@.len() - i,
        {
            if self.dependencies[i].0 == widget.0 && self.dependencies[i].1 == caller.0 {
                return true;
            }
            i = i + 1;
        }
        false
    }

    /// Records that `widget` is used by `caller`. Adding an edge twice is the
    /// same as adding it once.
    pub fn declare_dependency(&mut self, widget: &PathMaybeWithLocale, caller: &PathMaybeWithLocale)
        requires
            old(self).wf(),
        ensures
            final(self).wf(),
            final(self).dependencies_view() == old(self).dependencies_view().insert(
                (widget@, caller@),
            ),
            final(self).entries_view() == old(self).entries_view(),
            final(self).preloaded_view() == old(self).preloaded_view(),
            final(self).in_flight_view() == old(self).in_flight_view(),
    {
        let mut i: usize = 0;
        while i < self.dependencies.len()
            invariant
                self.wf(),
                *self == *old(self),
                i <= self.dependencies@.len(),
                forall|j: int|
                    0 <= j < i ==> !(self.dependencies@[j].0@ == widget@ && self.dependencies@[j].1@
                        == caller@),
            decreases self.dependencies@.len() - i,
        {
            if self.dependencies[i].0 == widget.0 && self.dependencies[i].1 == caller.0 {
                proof {
                    assert(self.dependencies_view().contains((widget@, caller@)));
                    assert(self.dependencies_view() =~= self.dependencies_view().insert(
                        (widget@, caller@),
                    ));
                }
                return;
            }
            i = i + 1;
        }
        let ghost before = self.dependencies_view();
        let ghost old_deps = self.dependencies@;
        self.dependencies.push((widget.0.clone(), caller.0.clone()));
        proof {
            let n = old_deps.len() as int;
            assert forall|p: (Seq<char>, Seq<char>)|
                #![trigger self.dependencies_view().contains(p)]
                self.dependencies_view().contains(p) == before.insert((widget@, caller@)).contains(
                    p,
                ) by {
                if before.contains(p) {
                    let j = choose|j: int|
                        0 <= j < old_deps.len() && (#[trigger] old_deps[j]).0@ == p.0 && old_deps[j].1@
                            == p.1;
                    assert(self.dependencies@[j] == old_deps[j]);
                }
                if p == (widget@, caller@) {
                    assert(self.dependencies@[n].0@ == p.0);
                }
                if self.dependencies_view().contains(p) && p != (widget@, caller@) {
                    let j = choose|j: int|
                        0 <= j < self.dependencies@.len() && (#[trigger] self.dependencies@[j]).0@
                            == p.0 && self.dependencies@[j].1@ == p.1;
                    assert(j != n);
                    assert(self.dependencies@[j] == old_deps[j]);
                }
            }
            assert(self.dependencies_view() =~= before.insert((widget@, caller@)));
        }
    }
}

/// How many of `n` requests to preload `url`, made one after another with
/// no fetch finishing between them, are handed out to fetch.
pub open spec fn fetches_among(known: PssContains, in_flight: Set<Seq<char>>, url: Seq<char>, n: nat) -> nat
    decreases n,
{
    if n == 0 {
        0
    } else {
        let (r, next) = start_spec(known, in_flight, url);
        (if r == PreloadStart::Fetch {
            1nat
        } else {
            0nat
        }) + fetches_among(known, next, url, (n - 1) as nat)
    }
}

/// However many requests to preload one path overlap, at most one fetch is
/// made: exactly one where the store knew nothing of the path and no fetch
/// of it was under way, none otherwise.
pub proof fn lemma_at_most_one_fetch(
    known: PssContains,
    in_flight: Set<Seq<char>>,
    url: Seq<char>,
    n: nat,
)
    ensures
        fetches_among(known, in_flight, url, n) == (if n > 0 && known == PssContains::Absent
            && !in_flight.contains(url) {
            1nat
        } else {
            0nat
        }),
    decreases n,
{
    if n > 0 {
        let (r, next) = start_spec(known, in_flight, url);
        lemma_at_most_one_fetch(known, next, url, (n - 1) as nat);
    }
}

} // verus!
