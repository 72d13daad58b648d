//! The search for the file of an API key.
use vstd::prelude::*;

use crate::error::MissingApiKey;
use crate::text::join3;

verus! {

/// A directory that a search location is relative to.
#[derive(Clone, Copy, Debug, PartialEq, Eq, Structural)]
pub enum SearchRoot {
    /// The current directory.
    CurrentDir,
    /// The user's home directory.
    Home,
}

/// A place where the file of an API key may be.
pub struct KeyCandidate {
    /// What the path is relative to.
    pub root: SearchRoot,
    /// The path below the root: directories, and the file's name last.
    pub path: Vec<String>,
}

/// What a [`KeyCandidate`] holds.
pub struct CandidateView {
    /// What the path is relative to.
    pub root: SearchRoot,
    /// The path below the root.
    pub path: Seq<Seq<char>>,
}

impl View for KeyCandidate {
    type V = CandidateView;

    open spec fn view(&self) -> CandidateView {
        CandidateView { root: self.root, path: self.path@.map_values(|name: String| name@) }
    }
}

/// The name of the file that holds the API key `key_id`.
pub open spec fn key_file_name(key_id: Seq<char>) -> Seq<char> {
    "AuthKey_"@ + key_id + ".p8"@
}

/// The places to look for the API key `key_id`, in the order of the search; the home
/// directory is searched only where it is known.
pub open spec fn key_candidates(key_id: Seq<char>, home_known: bool) -> Seq<CandidateView> {
    let file = key_file_name(key_id);
    let current = seq![
        CandidateView { root: SearchRoot::CurrentDir, path: seq!["private_keys"@, file] },
    ];
    if home_known {
        current + seq![
            CandidateView { root: SearchRoot::Home, path: seq!["private_keys"@, file] },
            CandidateView { root: SearchRoot::Home, path: seq![".private_keys"@, file] },
            CandidateView {
                root: SearchRoot::Home,
                path: seq![".appstoreconnect"@, "private_keys"@, file],
            },
        ]
    } else {
        current
    }
}

/// What a search asks for next.
#[derive(Clone, Copy, Debug)]
pub enum SearchAction {
    /// Find out whether the file of this candidate exists.
    Probe(usize),
    /// Load the key from the file of this candidate.
    Load(usize),
    /// Give up.
    Fail(MissingApiKey),
}

/// A search for the file of an API key, one candidate after the other.
pub struct ApiKeySearch {
    candidates: Vec<KeyCandidate>,
    position: usize,
}

/// What an [`ApiKeySearch`] holds.
pub struct SearchView {
    /// The candidates, in the order of the search.
    pub candidates: Seq<CandidateView>,
    /// The candidate that is looked at, or their number when none is left.
    pub position: int,
}

impl View for ApiKeySearch {
    type V = SearchView;

    closed spec fn view(&self) -> SearchView {
        SearchView {
            candidates: self.candidates@.map_values(|c: KeyCandidate| c@),
            position: self.position as int,
        }
    }
}

/// The action for candidate `position` of `count`: a probe, or giving up behind the last.
pub open spec fn probe_or_fail(position: int, count: int) -> SearchAction {
    if position < count {
        SearchAction::Probe(position as usize)
    } else {
        SearchAction::Fail(MissingApiKey)
    }
}

/// What follows the probe of candidate `position` of `count`: the position to go on with,
/// and the action.
pub open spec fn search_step(position: int, count: int, exists: bool) -> (int, SearchAction) {
    if position >= count {
        (position, SearchAction::Fail(MissingApiKey))
    } else if exists {
        (position, SearchAction::Load(position as usize))
    } else {
        (position + 1, probe_or_fail(position + 1, count))
    }
}

/// Where a search that probes candidate `position` ends, if `exists` says which files there
/// are.
pub open spec fn search_result(position: int, exists: Seq<bool>) -> SearchAction
    decreases exists.len() - position,
{
    if 0 <= position < exists.len() {
        let (next, action) = search_step(position, exists.len() as int, exists[position]);
        match action {
            SearchAction::Probe(_) => if next == position + 1 {
                search_result(next, exists)
            } else {
                action
            },
            _ => action,
        }
    } else {
        SearchAction::Fail(MissingApiKey)
    }
}

/// A candidate below `root`, with one directory.
fn candidate(root: SearchRoot, dir: &str, file: &String) -> (c: KeyCandidate)
    ensures
        c@ == (CandidateView { root, path: seq![dir@, file@] }),
{
    let mut path: Vec<String> = Vec::new();
    path.push(dir.to_owned());
    path.push(file.clone());
    let c = KeyCandidate { root, path };
    assert(c@.path =~= seq![dir@, file@]);
    c
}

/// The name of the file that holds the API key `key_id`.
pub fn api_key_file_name(key_id: &str) -> (name: String)
    ensures
        name@ == key_file_name(key_id@),
{
    join3("AuthKey_", key_id, ".p8")
}

impl ApiKeySearch {
    /// Start the search for the API key `key_id`; the home directory is searched only where
    /// it is known.
    pub fn new(key_id: &str, home_known: bool) -> (search: Self)
        ensures
            search@ == (SearchView { candidates: key_candidates(key_id@, home_known), position: 0 }),
    {
        let file = api_key_file_name(key_id);
        let mut candidates: Vec<KeyCandidate> = Vec::new();
        candidates.push(candidate(SearchRoot::CurrentDir, "private_keys", &file));

        if home_known {
            candidates.push(candidate(SearchRoot::Home, "private_keys", &file));
            candidates.push(candidate(SearchRoot::Home, ".private_keys", &file));
            let mut path: Vec<String> = Vec::new();
            path.push(".appstoreconnect".to_owned());
            path.push("private_keys".to_owned());
            path.push(file);
            let last = KeyCandidate { root: SearchRoot::Home, path };
            assert(last@.path =~= seq![
                ".appstoreconnect"@,
                "private_keys"@,
                key_file_name(key_id@),
            ]);
            candidates.push(last);
        }
        let search = Self { candidates, position: 0 };
        assert(search@.candidates =~= key_candidates(key_id@, home_known));
        search
    }

    /// The candidate with the given number.
    pub fn candidate(&self, index: usize) -> (r: Option<&KeyCandidate>)
        ensures
            match r {
                Some(c) => index < self@.candidates.len() && c@ == self@.candidates[index as int],
                None => index >= self@.candidates.len(),
            },
    {
        if index < self.candidates.len() {
            Some(&self.candidates[index])
        } else {
            None
        }
    }

    /// The first action of the search, or the one that is still to be answered.
    pub fn action(&self) -> (action: SearchAction)
        ensures
            action == probe_or_fail(self@.position, self@.candidates.len() as int),
    {
        if self.position < self.candidates.len() {
            SearchAction::Probe(self.position)
        } else {
            SearchAction::Fail(MissingApiKey)
        }
    }

    /// The action that follows, after a probe found out whether the candidate's file exists.
    pub fn step(&mut self, exists: bool) -> (action: SearchAction)
        ensures
            final(self)@.candidates == old(self)@.candidates,
            (final(self)@.position, action) == search_step(
                old(self)@.position,
                old(self)@.candidates.len() as int,
                exists,
            ),
    {
        if self.position >= self.candidates.len() {
            SearchAction::Fail(MissingApiKey)
        } else if exists {
            SearchAction::Load(self.position)
        } else {
            self.position = self.position + 1;
            self.action()
        }
    }
}

/// The candidates of a search, and where it stands, can be counted.
pub(crate) proof fn lemma_search_range(search: ApiKeySearch)
    ensures
        0 <= search@.position <= usize::MAX,
        search@.candidates.len() <= usize::MAX,
{
    assert(search.candidates@.len() == search.candidates.len());
}

/// A search loads the first candidate whose file exists, and fails exactly when there is
/// none.
pub proof fn law_search_loads_first_existing(position: int, exists: Seq<bool>)
    requires
        0 <= position <= exists.len() <= usize::MAX,
    ensures
        match search_result(position, exists) {
            SearchAction::Load(found) => position <= found < exists.len() && exists[found as int]
                && forall|i: int| position <= i < found ==> !#[trigger] exists[i],
            SearchAction::Fail(_) => forall|i: int|
                position <= i < exists.len() ==> !#[trigger] exists[i],
            SearchAction::Probe(_) => false,
        },
    decreases exists.len() - position,
{
    if position < exists.len() && !exists[position] {
        law_search_loads_first_existing(position + 1, exists);
    }
}

/// A key file in the current directory is found before one in the home directory, and the
/// search looks in one place or in four.
pub proof fn law_current_directory_comes_first(key_id: Seq<char>, home_known: bool)
    ensures
        key_candidates(key_id, home_known).len() == (if home_known {
            4int
        } else {
            1int
        }),
        key_candidates(key_id, home_known)[0].root == SearchRoot::CurrentDir,
        forall|i: int|
            0 < i < key_candidates(key_id, home_known).len() ==> (#[trigger] key_candidates(
                key_id,
                home_known,
            )[i]).root == SearchRoot::Home,
        forall|i: int|
            0 <= i < key_candidates(key_id, home_known).len() ==> (#[trigger] key_candidates(
                key_id,
                home_known,
            )[i]).path.last() == key_file_name(key_id),
{
}

} // verus!
