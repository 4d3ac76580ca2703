//! The order in which icon files are looked for.
//!
//! An icon is wanted from the first of several candidate paths that holds a
//! loadable image. Every candidate is tried relative to the working directory
//! first, in the order given. Only when none of them loads is the directory of
//! the running executable looked up, and every candidate tried again relative
//! to it. The first icon that loads ends the search; a candidate that is
//! missing, or that is there but does not load, is passed over in silence.
//!
//! `IconSearch` makes these decisions and nothing else. It names the call that
//! is due (`pending`); the caller looks at the disk and reports what it found
//! (`advance`).

use crate::handle::IconHandle;
use vstd::prelude::*;

verus! {

/// The directory that a candidate path is taken relative to.
#[derive(Clone, Copy, Debug, PartialEq, Eq, Structural)]
pub enum SearchBase {
    /// The current working directory.
    WorkingDir,
    /// The directory that holds the running executable.
    ExecutableDir,
}

/// What looking for one candidate under one base came to.
#[derive(Clone, Copy, Debug, PartialEq, Eq, Structural)]
pub enum Probed {
    /// The file is there and loaded as an icon.
    Loaded(IconHandle),
    /// No file is there.
    Missing,
    /// A file is there, but it did not load as an icon.
    Unreadable,
}

/// What the caller reports back.
#[derive(Clone, Copy, Debug, PartialEq, Eq, Structural)]
pub enum SearchEvent {
    /// The answer to `SearchCall::Probe`.
    Probed(Probed),
    /// The answer to `SearchCall::Locate`: whether the executable's directory
    /// could be found.
    Located(bool),
}

/// What the caller is asked to do.
#[derive(Clone, Copy, Debug, PartialEq, Eq, Structural)]
pub enum SearchCall {
    /// Look for candidate number `candidate` under `base`, and load it if it
    /// is there.
    Probe { base: SearchBase, candidate: usize },
    /// Find the directory of the running executable.
    Locate,
    /// Nothing more: the search is over, with this result.
    Return(Option<IconHandle>),
}

/// Where a search stands.
#[derive(Clone, Copy, Debug, PartialEq, Eq, Structural)]
pub enum SearchState {
    /// Candidate `next` under `base` is being looked for.
    Probing { base: SearchBase, next: usize },
    /// The executable's directory is being looked up.
    Locating,
    /// An icon loaded.
    Found(IconHandle),
    /// Every candidate failed, under every base that could be had.
    Exhausted,
}

impl SearchState {
    /// The search is over.
    pub open spec fn finished(self) -> bool {
        self is Found || self is Exhausted
    }

    /// The icon that the search has come up with, if any.
    pub open spec fn result(self) -> Option<IconHandle> {
        match self {
            SearchState::Found(icon) => Some(icon),
            _ => None,
        }
    }

    /// A state of a search over `n` candidates: the candidate being looked
    /// for is one of them, and their number is one that a machine can hold.
    pub open spec fn wf(self, n: nat) -> bool {
        &&& n <= usize::MAX
        &&& self matches SearchState::Probing { next, .. } ==> next < n
    }

    /// Where a search over `n` candidates begins: at the first candidate
    /// under the working directory. With no candidate, nothing is left but
    /// the look-up of the executable's directory.
    pub open spec fn initial(n: nat) -> SearchState {
        if n > 0 {
            SearchState::Probing { base: SearchBase::WorkingDir, next: 0 }
        } else {
            SearchState::Locating
        }
    }

    /// The call that is due in this state.
    pub open spec fn due(self) -> SearchCall {
        match self {
            SearchState::Probing { base, next } => SearchCall::Probe { base, candidate: next },
            SearchState::Locating => SearchCall::Locate,
            SearchState::Found(icon) => SearchCall::Return(Some(icon)),
            SearchState::Exhausted => SearchCall::Return(None),
        }
    }

    /// The state after `event`, in a search over `n` candidates.
    ///
    /// A loaded icon ends the search. A candidate that failed gives way to
    /// the next one under the same base; after the last one, the working
    /// directory gives way to the look-up of the executable's directory, and
    /// the executable's directory to giving up. An event that does not answer
    /// the call that is due changes nothing.
    pub open spec fn after(self, n: nat, event: SearchEvent) -> SearchState {
        match (self, event) {
            (SearchState::Probing { .. }, SearchEvent::Probed(Probed::Loaded(icon))) => {
                SearchState::Found(icon)
            },
            (SearchState::Probing { base, next }, SearchEvent::Probed(_)) => {
                if next + 1 < n {
                    SearchState::Probing { base, next: (next + 1) as usize }
                } else if base == SearchBase::WorkingDir {
                    SearchState::Locating
                } else {
                    SearchState::Exhausted
                }
            },
            (SearchState::Locating, SearchEvent::Located(true)) => {
                if n > 0 {
                    SearchState::Probing { base: SearchBase::ExecutableDir, next: 0 }
                } else {
                    SearchState::Exhausted
                }
            },
            (SearchState::Locating, SearchEvent::Located(false)) => SearchState::Exhausted,
            _ => self,
        }
    }
}

/// A search for one icon among candidate paths.
#[derive(Clone, Debug, PartialEq, Eq)]
pub struct IconSearch {
    /// The candidate paths, each relative to a search base, most preferred
    /// first.
    pub paths: Vec<String>,
    /// Where the search stands.
    pub state: SearchState,
}

impl IconSearch {
    /// How many candidate paths there are.
    pub open spec fn candidates(self) -> nat {
        self.paths@.len()
    }

    /// The state is one of a search over this many candidates.
    pub open spec fn wf(self) -> bool {
        self.state.wf(self.candidates())
    }

    /// The path that the probe now due looks for, under the base that the
    /// probe names: the candidate's own path, as it was given.
    pub open spec fn due_path(self) -> Option<Seq<char>> {
        match self.state {
            SearchState::Probing { next, .. } if next < self.candidates() => Some(
                self.paths@[next as int]@,
            ),
            _ => None,
        }
    }

    /// Begins a search over `paths`, which are tried in the order given.
    pub fn start(paths: Vec<String>) -> (search: IconSearch)
        ensures
            search.paths == paths,
            search.state == SearchState::initial(paths@.len()),
            search.wf(),
    {
        if paths.len() > 0 {
            IconSearch {
                paths,
                state: SearchState::Probing { base: SearchBase::WorkingDir, next: 0 },
            }
        } else {
            IconSearch { paths, state: SearchState::Locating }
        }
    }

    /// The call that is due: a probe, the look-up of the executable's
    /// directory, or, once the search is over, its result.
    pub fn pending(&self) -> (call: SearchCall)
        ensures
            call == self.state.due(),
            call is Return <==> self.state.finished(),
            call matches SearchCall::Return(icon) ==> icon == self.state.result(),
    {
        match self.state {
            SearchState::Probing { base, next } => SearchCall::Probe { base, candidate: next },
            SearchState::Locating => SearchCall::Locate,
            SearchState::Found(icon) => SearchCall::Return(Some(icon)),
            SearchState::Exhausted => SearchCall::Return(None),
        }
    }

    /// The path to look for when a probe is due, and `None` when another call
    /// is due or the search is over.
    pub fn pending_path(&self) -> (path: Option<&String>)
        ensures
            match path {
                Some(text) => self.due_path() == Some(text@),
                None => self.due_path() is None,
            },
            self.wf() ==> (path is Some <==> self.state is Probing),
    {
        match self.state {
            SearchState::Probing { base: _, next } => {
                if next < self.paths.len() {
                    Some(&self.paths[next])
                } else {
                    None
                }
            },
            _ => None,
        }
    }

    /// Takes in what the caller found and moves on.
    pub fn advance(&mut self, event: SearchEvent)
        ensures
            final(self).paths == old(self).paths,
            final(self).state == old(self).state.after(old(self).candidates(), event),
            old(self).wf() ==> final(self).wf(),
    {
        let candidates = self.paths.len();
        match (self.state, event) {
            (SearchState::Probing { .. }, SearchEvent::Probed(Probed::Loaded(icon))) => {
                self.state = SearchState::Found(icon);
            },
            (SearchState::Probing { base, next }, SearchEvent::Probed(_)) => {
                if next < candidates && next + 1 < candidates {
                    self.state = SearchState::Probing { base, next: next + 1 };
                } else {
                    match base {
                        SearchBase::WorkingDir => {
                            self.state = SearchState::Locating;
                        },
                        SearchBase::ExecutableDir => {
                            self.state = SearchState::Exhausted;
                        },
                    }
                }
            },
            (SearchState::Locating, SearchEvent::Located(found)) => {
                if found && candidates > 0 {
                    self.state = SearchState::Probing { base: SearchBase::ExecutableDir, next: 0 };
                } else {
                    self.state = SearchState::Exhausted;
                }
            },
            _ => {},
        }
    }
}

/// What the disk holds, as far as a search can tell: what looking for each
/// candidate comes to, under each base.
pub struct Disk {
    /// For each candidate in order, what looking for it under the working
    /// directory comes to.
    pub working: Seq<Probed>,
    /// The same beside the running executable, or `None` where the
    /// executable's directory cannot be found.
    pub beside: Option<Seq<Probed>>,
}

/// The first icon that loads among `found[from..]`, if any does.
pub open spec fn first_loaded_from(found: Seq<Probed>, from: int) -> Option<IconHandle>
    decreases found.len() - from,
{
    if from < 0 || from >= found.len() {
        None
    } else {
        match found[from] {
            Probed::Loaded(icon) => Some(icon),
            _ => first_loaded_from(found, from + 1),
        }
    }
}

/// How many of `found[from..]` are looked at before the search of this base
/// ends: all up to and including the first that loads.
pub open spec fn probes_from(found: Seq<Probed>, from: int) -> nat
    decreases found.len() - from,
{
    if from < 0 || from >= found.len() {
        0
    } else {
        match found[from] {
            Probed::Loaded(_) => 1,
            _ => 1 + probes_from(found, from + 1),
        }
    }
}

/// The probes of candidates `from`, `from + 1`, ... under `base`, `count` of
/// them.
pub open spec fn probe_run(base: SearchBase, from: int, count: nat) -> Seq<SearchCall> {
    Seq::new(count, |k: int| SearchCall::Probe { base, candidate: (from + k) as usize })
}

impl Disk {
    /// The disk tells of `n` candidates under each base.
    pub open spec fn wf(self, n: nat) -> bool {
        &&& self.working.len() == n
        &&& self.beside matches Some(found) ==> found.len() == n
    }

    /// What the caller finds when it makes `call` on this disk.
    pub open spec fn answer(self, call: SearchCall) -> SearchEvent {
        match call {
            SearchCall::Probe { base: SearchBase::WorkingDir, candidate } => SearchEvent::Probed(
                self.working[candidate as int],
            ),
            SearchCall::Probe { base: SearchBase::ExecutableDir, candidate } => SearchEvent::Probed(
                match self.beside {
                    Some(found) => found[candidate as int],
                    None => Probed::Missing,
                },
            ),
            SearchCall::Locate => SearchEvent::Located(self.beside is Some),
            SearchCall::Return(_) => SearchEvent::Located(false),
        }
    }

    /// The icon that a search on this disk is to come up with: the first that
    /// loads under the working directory; failing that, the first that loads
    /// beside the executable; failing that, none.
    pub open spec fn resolves(self) -> Option<IconHandle> {
        match first_loaded_from(self.working, 0) {
            Some(icon) => Some(icon),
            None => match self.beside {
                Some(found) => first_loaded_from(found, 0),
                None => None,
            },
        }
    }

    /// The calls that a search on this disk is to make, in order: the probes
    /// under the working directory up to the first that loads; if none loads,
    /// the look-up of the executable's directory; and if that is found, the
    /// probes beside the executable up to the first that loads.
    pub open spec fn expected_calls(self) -> Seq<SearchCall> {
        let first = probe_run(SearchBase::WorkingDir, 0, probes_from(self.working, 0));
        if first_loaded_from(self.working, 0) is Some {
            first
        } else {
            match self.beside {
                Some(found) => first + seq![SearchCall::Locate] + probe_run(
                    SearchBase::ExecutableDir,
                    0,
                    probes_from(found, 0),
                ),
                None => first + seq![SearchCall::Locate],
            }
        }
    }
}

impl SearchState {
    /// An upper bound on the calls still to come in a search over `n`
    /// candidates.
    pub open spec fn steps_left(self, n: nat) -> nat {
        match self {
            SearchState::Probing { base: SearchBase::WorkingDir, next } => (2 * n + 2 - next) as nat,
            SearchState::Locating => n + 1,
            SearchState::Probing { base: SearchBase::ExecutableDir, next } => (n - next) as nat,
            _ => 0,
        }
    }

    /// The state in which a search over `n` candidates ends when it goes on
    /// from this state and every call is answered by `disk`.
    pub open spec fn run(self, n: nat, disk: Disk) -> SearchState
        decreases self.steps_left(n),
    {
        if self.finished() || !self.wf(n) {
            self
        } else {
            self.after(n, disk.answer(self.due())).run(n, disk)
        }
    }

    /// The calls that such a search makes on its way, in order.
    pub open spec fn calls(self, n: nat, disk: Disk) -> Seq<SearchCall>
        decreases self.steps_left(n),
    {
        if self.finished() || !self.wf(n) {
            Seq::empty()
        } else {
            seq![self.due()] + self.after(n, disk.answer(self.due())).calls(n, disk)
        }
    }
}

/// One step keeps a search within its candidates.
pub proof fn lemma_after_wf(state: SearchState, n: nat, event: SearchEvent)
    requires
        state.wf(n),
    ensures
        state.after(n, event).wf(n),
{
}

/// `first_loaded_from` is the icon of the first candidate that loads: it is
/// `Some(icon)` exactly when some candidate from `from` on loads as `icon`
/// and none before it loads, and `None` exactly when none loads.
pub proof fn lemma_first_loaded(found: Seq<Probed>, from: int)
    requires
        0 <= from,
    ensures
        first_loaded_from(found, from) is None <==> forall|i: int|
            from <= i < found.len() ==> !(#[trigger] found[i] is Loaded),
        forall|icon: IconHandle|
            first_loaded_from(found, from) == Some(icon) <==> exists|i: int|
                from <= i < found.len() && #[trigger] found[i] == Probed::Loaded(icon) && forall|
                    j: int,
                | from <= j < i ==> !(#[trigger] found[j] is Loaded),
    decreases found.len() - from,
{
    if from >= found.len() {
    } else {
        lemma_first_loaded(found, from + 1);
        match found[from] {
            Probed::Loaded(first) => {
                assert forall|icon: IconHandle|
                    first_loaded_from(found, from) == Some(icon) <==> exists|i: int|
                        from <= i < found.len() && #[trigger] found[i] == Probed::Loaded(icon)
                            && forall|j: int| from <= j < i ==> !(#[trigger] found[j] is Loaded) by {
                    if first == icon {
                        assert(found[from] == Probed::Loaded(icon));
                    }
                    if exists|i: int|
                        from <= i < found.len() && #[trigger] found[i] == Probed::Loaded(icon)
                            && forall|j: int| from <= j < i ==> !(#[trigger] found[j] is Loaded) {
                        let i = choose|i: int|
                            from <= i < found.len() && #[trigger] found[i] == Probed::Loaded(icon)
                                && forall|j: int|
                                from <= j < i ==> !(#[trigger] found[j] is Loaded);
                        if i > from {
                            assert(!(found[from] is Loaded));
                        }
                    }
                }
            },
            _ => {
                assert forall|icon: IconHandle|
                    first_loaded_from(found, from) == Some(icon) <==> exists|i: int|
                        from <= i < found.len() && #[trigger] found[i] == Probed::Loaded(icon)
                            && forall|j: int| from <= j < i ==> !(#[trigger] found[j] is Loaded) by {
                    if first_loaded_from(found, from + 1) == Some(icon) {
                        let i = choose|i: int|
                            from + 1 <= i < found.len() && #[trigger] found[i] == Probed::Loaded(
                                icon,
                            ) && forall|j: int|
                                from + 1 <= j < i ==> !(#[trigger] found[j] is Loaded);
                        assert forall|j: int| from <= j < i implies !(#[trigger] found[j]
                            is Loaded) by {
                            if j == from {
                            }
                        }
                        assert(from <= i < found.len() && found[i] == Probed::Loaded(icon));
                    }
                    if exists|i: int|
                        from <= i < found.len() && #[trigger] found[i] == Probed::Loaded(icon)
                            && forall|j: int| from <= j < i ==> !(#[trigger] found[j] is Loaded) {
                        let i = choose|i: int|
                            from <= i < found.len() && #[trigger] found[i] == Probed::Loaded(icon)
                                && forall|j: int|
                                from <= j < i ==> !(#[trigger] found[j] is Loaded);
                        assert(i != from);
                        assert(from + 1 <= i < found.len() && found[i] == Probed::Loaded(icon));
                        assert forall|j: int| from + 1 <= j < i implies !(#[trigger] found[j]
                            is Loaded) by {}
                    }
                }
                assert(first_loaded_from(found, from) is None <==> forall|i: int|
                    from <= i < found.len() ==> !(#[trigger] found[i] is Loaded)) by {
                    if first_loaded_from(found, from + 1) is None {
                        assert forall|i: int| from <= i < found.len() implies !(#[trigger] found[i]
                            is Loaded) by {
                            if i == from {
                            }
                        }
                    }
                }
            },
        }
    }
}

/// One pass over the candidates of one base, from candidate `from` on: it
/// ends at the first that loads, and otherwise gives way to what comes after
/// the base.
proof fn lemma_pass(base: SearchBase, from: usize, n: nat, disk: Disk, found: Seq<Probed>)
    requires
        disk.wf(n),
        n <= usize::MAX,
        from < n,
        found.len() == n,
        base == SearchBase::WorkingDir ==> found == disk.working,
        base == SearchBase::ExecutableDir ==> disk.beside == Some(found),
    ensures
        (SearchState::Probing { base, next: from }).run(n, disk) == (match first_loaded_from(
            found,
            from as int,
        ) {
            Some(icon) => SearchState::Found(icon),
            None => if base == SearchBase::WorkingDir {
                SearchState::Locating.run(n, disk)
            } else {
                SearchState::Exhausted
            },
        }),
        (SearchState::Probing { base, next: from }).calls(n, disk) == probe_run(
            base,
            from as int,
            probes_from(found, from as int),
        ) + (if first_loaded_from(found, from as int) is None && base == SearchBase::WorkingDir {
            SearchState::Locating.calls(n, disk)
        } else {
            Seq::empty()
        }),
    decreases n - from,
{
    let state = SearchState::Probing { base, next: from };
    let event = disk.answer(state.due());
    assert(event == SearchEvent::Probed(found[from as int]));
    let next = state.after(n, event);
    let rest = if first_loaded_from(found, from as int) is None && base == SearchBase::WorkingDir {
        SearchState::Locating.calls(n, disk)
    } else {
        Seq::empty()
    };
    assert(state.calls(n, disk) == seq![state.due()] + next.calls(n, disk));
    assert(state.run(n, disk) == next.run(n, disk));
    match found[from as int] {
        Probed::Loaded(icon) => {
            assert(next == SearchState::Found(icon));
            assert(next.run(n, disk) == next);
            assert(next.calls(n, disk) == Seq::<SearchCall>::empty());
            assert(probe_run(base, from as int, 1) =~= seq![state.due()]);
            assert(state.calls(n, disk) =~= probe_run(base, from as int, 1) + rest);
        },
        _ => {
            if from + 1 < n {
                let more = (from + 1) as usize;
                lemma_pass(base, more, n, disk, found);
                let count = probes_from(found, more as int);
                assert(next == SearchState::Probing { base, next: more });
                assert(probe_run(base, from as int, 1 + count) =~= seq![state.due()] + probe_run(
                    base,
                    more as int,
                    count,
                ));
                assert(state.calls(n, disk) =~= probe_run(base, from as int, 1 + count) + rest);
            } else {
                assert(first_loaded_from(found, from + 1) is None);
                assert(probes_from(found, from + 1) == 0);
                assert(probe_run(base, from as int, 1) =~= seq![state.due()]);
                if base == SearchBase::WorkingDir {
                    assert(next == SearchState::Locating);
                } else {
                    assert(next == SearchState::Exhausted);
                    assert(next.run(n, disk) == next);
                    assert(next.calls(n, disk) == Seq::<SearchCall>::empty());
                }
                assert(state.calls(n, disk) =~= probe_run(base, from as int, 1) + rest);
            }
        },
    }
}

/// What comes after the working directory: the look-up of the executable's
/// directory and, where it is found, a pass over the candidates beside it.
proof fn lemma_locating(n: nat, disk: Disk)
    requires
        disk.wf(n),
        n <= usize::MAX,
    ensures
        SearchState::Locating.run(n, disk) == (match disk.beside {
            Some(found) => match first_loaded_from(found, 0) {
                Some(icon) => SearchState::Found(icon),
                None => SearchState::Exhausted,
            },
            None => SearchState::Exhausted,
        }),
        SearchState::Locating.calls(n, disk) == seq![SearchCall::Locate] + (match disk.beside {
            Some(found) => probe_run(SearchBase::ExecutableDir, 0, probes_from(found, 0)),
            None => Seq::empty(),
        }),
{
    let state = SearchState::Locating;
    let next = state.after(n, disk.answer(state.due()));
    assert(state.calls(n, disk) == seq![state.due()] + next.calls(n, disk));
    assert(state.run(n, disk) == next.run(n, disk));
    assert(SearchState::Exhausted.run(n, disk) == SearchState::Exhausted);
    match disk.beside {
        Some(found) => {
            if n > 0 {
                lemma_pass(SearchBase::ExecutableDir, 0, n, disk, found);
                assert(next.calls(n, disk) =~= probe_run(
                    SearchBase::ExecutableDir,
                    0,
                    probes_from(found, 0),
                ));
            } else {
                assert(next == SearchState::Exhausted);
                assert(next.calls(n, disk) =~= probe_run(SearchBase::ExecutableDir, 0, 0));
            }
        },
        None => {
            assert(next == SearchState::Exhausted);
            assert(next.calls(n, disk) == Seq::<SearchCall>::empty());
        },
    }
}

/// First match wins, the working directory before the executable's.
///
/// A search over `n` candidates, answered by a disk, always comes to an end,
/// and its result is the first icon that loads under the working directory;
/// if none loads there, the first that loads beside the executable; and no
/// icon if none loads anywhere or the executable's directory is not found.
pub proof fn lemma_search_resolves(n: nat, disk: Disk)
    requires
        disk.wf(n),
        n <= usize::MAX,
    ensures
        SearchState::initial(n).run(n, disk).finished(),
        SearchState::initial(n).run(n, disk).result() == disk.resolves(),
{
    lemma_locating(n, disk);
    if n > 0 {
        lemma_pass(SearchBase::WorkingDir, 0, n, disk, disk.working);
    }
}

/// A search stops at the first icon that loads, and asks for nothing twice.
///
/// The calls that a search makes are the probes of the candidates under the
/// working directory, in order, up to the first that loads. Only if none
/// loads does it look up the executable's directory, and only if that is
/// found does it probe the candidates beside it, again in order and up to the
/// first that loads.
pub proof fn lemma_search_calls(n: nat, disk: Disk)
    requires
        disk.wf(n),
        n <= usize::MAX,
    ensures
        SearchState::initial(n).calls(n, disk) == disk.expected_calls(),
{
    lemma_locating(n, disk);
    if n > 0 {
        lemma_pass(SearchBase::WorkingDir, 0, n, disk, disk.working);
        assert(SearchState::initial(n).calls(n, disk) =~= disk.expected_calls());
    } else {
        assert(probe_run(SearchBase::WorkingDir, 0, 0) =~= Seq::<SearchCall>::empty());
        assert(SearchState::initial(n).calls(n, disk) =~= disk.expected_calls());
    }
}

/// A glyph that is only at a later candidate path is still found.
///
/// If candidate `i` loads under the working directory and no candidate before
/// it does, the search comes up with that icon, whatever else the disk holds.
pub proof fn lemma_later_candidate_found(n: nat, disk: Disk, i: int, icon: IconHandle)
    requires
        disk.wf(n),
        n <= usize::MAX,
        0 <= i < n,
        disk.working[i] == Probed::Loaded(icon),
        forall|j: int| 0 <= j < i ==> !(#[trigger] disk.working[j] is Loaded),
    ensures
        SearchState::initial(n).run(n, disk) == SearchState::Found(icon),
{
    lemma_search_resolves(n, disk);
    lemma_first_loaded(disk.working, 0);
}

/// A glyph that is only beside the executable is still found.
///
/// If nothing loads under the working directory, the executable's directory
/// is found, candidate `i` loads there and no candidate before it does, the
/// search comes up with that icon.
pub proof fn lemma_executable_dir_found(
    n: nat,
    disk: Disk,
    found: Seq<Probed>,
    i: int,
    icon: IconHandle,
)
    requires
        disk.wf(n),
        n <= usize::MAX,
        forall|j: int| 0 <= j < n ==> !(#[trigger] disk.working[j] is Loaded),
        disk.beside == Some(found),
        0 <= i < n,
        found[i] == Probed::Loaded(icon),
        forall|j: int| 0 <= j < i ==> !(#[trigger] found[j] is Loaded),
    ensures
        SearchState::initial(n).run(n, disk) == SearchState::Found(icon),
{
    lemma_search_resolves(n, disk);
    lemma_first_loaded(disk.working, 0);
    lemma_first_loaded(found, 0);
}

/// Where no candidate loads anywhere, the search ends without an icon.
pub proof fn lemma_nothing_found(n: nat, disk: Disk)
    requires
        disk.wf(n),
        n <= usize::MAX,
        forall|j: int| 0 <= j < n ==> !(#[trigger] disk.working[j] is Loaded),
        disk.beside matches Some(found) ==> forall|j: int|
            0 <= j < n ==> !(#[trigger] found[j] is Loaded),
    ensures
        SearchState::initial(n).run(n, disk) == SearchState::Exhausted,
        disk.resolves() is None,
{
    lemma_search_resolves(n, disk);
    lemma_first_loaded(disk.working, 0);
    if let Some(found) = disk.beside {
        lemma_first_loaded(found, 0);
    }
}

} // verus!
