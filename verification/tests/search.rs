use taskbar_badge::handle::IconHandle;
use taskbar_badge::search::{
    IconSearch, Probed, SearchBase, SearchCall, SearchEvent, SearchState,
};

/// Runs a search to its end on a disk given as two rows of answers, and
/// returns the calls it made and its result.
fn run_search(
    working: &[Probed],
    beside: Option<&[Probed]>,
) -> (Vec<SearchCall>, Option<IconHandle>) {
    let mut search = IconSearch::start(numbered_paths(working.len()));
    let mut calls: Vec<SearchCall> = Vec::new();
    loop {
        let call = search.pending();
        let event = match call {
            SearchCall::Return(icon) => return (calls, icon),
            SearchCall::Probe { base: SearchBase::WorkingDir, candidate } => {
                SearchEvent::Probed(working[candidate])
            }
            SearchCall::Probe { base: SearchBase::ExecutableDir, candidate } => {
                SearchEvent::Probed(beside.unwrap()[candidate])
            }
            SearchCall::Locate => SearchEvent::Located(beside.is_some()),
        };
        calls.push(call);
        assert!(calls.len() <= 2 * working.len() + 1);
        search.advance(event);
    }
}

fn numbered_paths(count: usize) -> Vec<String> {
    let mut paths: Vec<String> = Vec::new();
    let mut i: usize = 0;
    while i < count {
        paths.push(format!("icons/{}.ico", i));
        i += 1;
    }
    paths
}

fn icon(addr: usize) -> IconHandle {
    IconHandle::new(addr).unwrap()
}

fn probe(base: SearchBase, candidate: usize) -> SearchCall {
    SearchCall::Probe { base, candidate }
}

#[test]
fn search_starts_at_first_candidate_in_working_dir() {
    let search = IconSearch::start(numbered_paths(2));
    assert_eq!(search.paths, numbered_paths(2));
    assert_eq!(search.state, SearchState::Probing { base: SearchBase::WorkingDir, next: 0 });
    assert_eq!(search.pending(), probe(SearchBase::WorkingDir, 0));
}

#[test]
fn primary_path_wins_when_both_exist() {
    let working = [Probed::Loaded(icon(10)), Probed::Loaded(icon(11))];
    let (calls, found) = run_search(&working, None);
    assert_eq!(found, Some(icon(10)));
    assert_eq!(calls, vec![probe(SearchBase::WorkingDir, 0)]);
}

#[test]
fn secondary_path_is_used_when_primary_is_missing() {
    let working = [Probed::Missing, Probed::Loaded(icon(11))];
    let (calls, found) = run_search(&working, None);
    assert_eq!(found, Some(icon(11)));
    assert_eq!(
        calls,
        vec![probe(SearchBase::WorkingDir, 0), probe(SearchBase::WorkingDir, 1)]
    );
}

#[test]
fn unreadable_file_is_skipped_in_silence() {
    let working = [Probed::Unreadable, Probed::Loaded(icon(11))];
    let (_, found) = run_search(&working, None);
    assert_eq!(found, Some(icon(11)));
}

#[test]
fn executable_dir_is_searched_after_working_dir() {
    let working = [Probed::Missing, Probed::Unreadable];
    let beside = [Probed::Missing, Probed::Loaded(icon(21))];
    let (calls, found) = run_search(&working, Some(&beside));
    assert_eq!(found, Some(icon(21)));
    assert_eq!(
        calls,
        vec![
            probe(SearchBase::WorkingDir, 0),
            probe(SearchBase::WorkingDir, 1),
            SearchCall::Locate,
            probe(SearchBase::ExecutableDir, 0),
            probe(SearchBase::ExecutableDir, 1),
        ]
    );
}

#[test]
fn working_dir_beats_executable_dir() {
    let working = [Probed::Missing, Probed::Loaded(icon(11))];
    let beside = [Probed::Loaded(icon(20)), Probed::Loaded(icon(21))];
    let (calls, found) = run_search(&working, Some(&beside));
    assert_eq!(found, Some(icon(11)));
    assert!(!calls.contains(&SearchCall::Locate));
}

#[test]
fn nothing_anywhere_gives_nothing() {
    let working = [Probed::Missing, Probed::Missing];
    let beside = [Probed::Missing, Probed::Unreadable];
    let (calls, found) = run_search(&working, Some(&beside));
    assert_eq!(found, None);
    assert_eq!(calls.len(), 5);
}

#[test]
fn unknown_executable_dir_ends_the_search() {
    let working = [Probed::Missing, Probed::Missing];
    let (calls, found) = run_search(&working, None);
    assert_eq!(found, None);
    assert_eq!(
        calls,
        vec![
            probe(SearchBase::WorkingDir, 0),
            probe(SearchBase::WorkingDir, 1),
            SearchCall::Locate,
        ]
    );
}

#[test]
fn no_candidates_only_locates() {
    let (calls, found) = run_search(&[], Some(&[]));
    assert_eq!(found, None);
    assert_eq!(calls, vec![SearchCall::Locate]);
    let (calls, found) = run_search(&[], None);
    assert_eq!(found, None);
    assert_eq!(calls, vec![SearchCall::Locate]);
}

#[test]
fn single_candidate_search() {
    let (calls, found) = run_search(&[Probed::Missing], Some(&[Probed::Loaded(icon(3))]));
    assert_eq!(found, Some(icon(3)));
    assert_eq!(
        calls,
        vec![
            probe(SearchBase::WorkingDir, 0),
            SearchCall::Locate,
            probe(SearchBase::ExecutableDir, 0),
        ]
    );
}

#[test]
fn candidates_are_tried_in_order() {
    let working = [
        Probed::Missing,
        Probed::Unreadable,
        Probed::Missing,
        Probed::Loaded(icon(4)),
        Probed::Loaded(icon(5)),
    ];
    let (calls, found) = run_search(&working, None);
    assert_eq!(found, Some(icon(4)));
    assert_eq!(
        calls,
        vec![
            probe(SearchBase::WorkingDir, 0),
            probe(SearchBase::WorkingDir, 1),
            probe(SearchBase::WorkingDir, 2),
            probe(SearchBase::WorkingDir, 3),
        ]
    );
}

#[test]
fn event_that_answers_nothing_is_ignored() {
    let mut search = IconSearch::start(numbered_paths(2));
    let before = search.clone();
    search.advance(SearchEvent::Located(true));
    assert_eq!(search, before);
    search.advance(SearchEvent::Located(false));
    assert_eq!(search, before);

    let mut locating = IconSearch { paths: numbered_paths(2), state: SearchState::Locating };
    locating.advance(SearchEvent::Probed(Probed::Loaded(icon(1))));
    assert_eq!(locating.state, SearchState::Locating);
    locating.advance(SearchEvent::Probed(Probed::Missing));
    assert_eq!(locating.state, SearchState::Locating);
}

#[test]
fn finished_search_stays_finished() {
    let mut found = IconSearch { paths: numbered_paths(2), state: SearchState::Found(icon(9)) };
    found.advance(SearchEvent::Probed(Probed::Missing));
    found.advance(SearchEvent::Located(true));
    assert_eq!(found.pending(), SearchCall::Return(Some(icon(9))));

    let mut spent = IconSearch { paths: numbered_paths(2), state: SearchState::Exhausted };
    spent.advance(SearchEvent::Probed(Probed::Loaded(icon(1))));
    spent.advance(SearchEvent::Located(true));
    assert_eq!(spent.pending(), SearchCall::Return(None));
}

#[test]
fn advance_keeps_the_paths() {
    let mut search = IconSearch::start(numbered_paths(3));
    search.advance(SearchEvent::Probed(Probed::Missing));
    assert_eq!(search.paths, numbered_paths(3));
    assert_eq!(search.state, SearchState::Probing { base: SearchBase::WorkingDir, next: 1 });
}

#[test]
fn state_beyond_the_candidates_moves_on() {
    let mut search = IconSearch {
        paths: numbered_paths(2),
        state: SearchState::Probing { base: SearchBase::WorkingDir, next: usize::MAX },
    };
    search.advance(SearchEvent::Probed(Probed::Missing));
    assert_eq!(search.state, SearchState::Locating);
}

#[test]
fn pending_path_is_the_path_of_the_probe_due() {
    let paths = vec![String::from("icons/a.ico"), String::from("resources/icons/a.ico")];
    let mut search = IconSearch::start(paths.clone());
    assert_eq!(search.pending_path(), Some(&paths[0]));
    search.advance(SearchEvent::Probed(Probed::Missing));
    assert_eq!(search.pending_path(), Some(&paths[1]));
    search.advance(SearchEvent::Probed(Probed::Unreadable));
    assert_eq!(search.pending(), SearchCall::Locate);
    assert_eq!(search.pending_path(), None);
    search.advance(SearchEvent::Located(true));
    assert_eq!(search.pending(), probe(SearchBase::ExecutableDir, 0));
    assert_eq!(search.pending_path(), Some(&paths[0]));
    search.advance(SearchEvent::Probed(Probed::Missing));
    assert_eq!(search.pending_path(), Some(&paths[1]));
    search.advance(SearchEvent::Probed(Probed::Loaded(icon(2))));
    assert_eq!(search.pending_path(), None);
    assert_eq!(search.pending(), SearchCall::Return(Some(icon(2))));
}

#[test]
fn pending_path_of_a_state_beyond_the_candidates_is_none() {
    let search = IconSearch {
        paths: numbered_paths(2),
        state: SearchState::Probing { base: SearchBase::WorkingDir, next: 2 },
    };
    assert_eq!(search.pending_path(), None);
}
