//! Laws of the search for the file of an API key.
use vstd::prelude::*;

use crate::api_key_search::{
    api_key_file_name, lemma_search_range, probe_or_fail, search_step, ApiKeySearch, KeyCandidate, SearchAction,
    SearchRoot,
};

verus! {

/// The candidate is the file with the names `path` below `root`.
pub open spec fn is_at(candidate: &KeyCandidate, root: SearchRoot, path: Seq<Seq<char>>) -> bool {
    &&& candidate.root == root
    &&& candidate.path@.len() == path.len()
    &&& forall|i: int| 0 <= i < path.len() ==> (#[trigger] candidate.path@[i])@ == path[i]
}

/// The file of a key is named after the key.
pub proof fn law_file_is_named_after_the_key(key_id: &str, name: String)
    requires
        call_ensures(api_key_file_name, (key_id,), name),
    ensures
        name@ == "AuthKey_"@ + key_id@ + ".p8"@,
{
}

/// A search looks in `private_keys` of the current directory first, and then, where the home
/// directory is known, in `private_keys`, `.private_keys` and `.appstoreconnect/private_keys`
/// of the home directory; and nowhere else.
pub proof fn law_search_looks_in_the_documented_places(
    key_id: &str,
    home_known: bool,
    search: ApiKeySearch,
    index: usize,
    candidate: Option<&KeyCandidate>,
)
    requires
        call_ensures(ApiKeySearch::new, (key_id, home_known), search),
        call_ensures(ApiKeySearch::candidate, (&search, index), candidate),
    ensures
        ({
            let file = "AuthKey_"@ + key_id@ + ".p8"@;
            &&& candidate is Some <==> index == 0 || (home_known && index < 4)
            &&& index == 0 ==> is_at(
                candidate->0,
                SearchRoot::CurrentDir,
                seq!["private_keys"@, file],
            )
            &&& home_known && index == 1 ==> is_at(
                candidate->0,
                SearchRoot::Home,
                seq!["private_keys"@, file],
            )
            &&& home_known && index == 2 ==> is_at(
                candidate->0,
                SearchRoot::Home,
                seq![".private_keys"@, file],
            )
            &&& home_known && index == 3 ==> is_at(
                candidate->0,
                SearchRoot::Home,
                seq![".appstoreconnect"@, "private_keys"@, file],
            )
        }),
{
    if candidate is Some {
        let c = candidate->0;
        assert(c@ == search@.candidates[index as int]);
        assert(c@.path.len() == c.path@.len());
        assert forall|i: int| 0 <= i < c.path@.len() implies (#[trigger] c.path@[i])@
            == c@.path[i] by {}
    }
}

/// A new search asks for its first candidate.
pub proof fn law_search_starts_with_the_first_candidate(
    key_id: &str,
    home_known: bool,
    search: ApiKeySearch,
    action: SearchAction,
)
    requires
        call_ensures(ApiKeySearch::new, (key_id, home_known), search),
        call_ensures(ApiKeySearch::action, (&search,), action),
    ensures
        action == SearchAction::Probe(0),
{
}

/// The candidate that a probe asks for is the one that the answer decides on: it is loaded
/// where its file exists, and else the next candidate is asked for, or the search fails behind
/// the last one. The search then goes on from there.
pub proof fn law_answer_decides_on_the_probed_candidate(
    search: &mut ApiKeySearch,
    index: usize,
    exists: bool,
    next: SearchAction,
    following: Option<&KeyCandidate>,
    action: SearchAction,
)
    requires
        index < usize::MAX,
        call_ensures(ApiKeySearch::action, (&*old(search),), SearchAction::Probe(index)),
        call_ensures(ApiKeySearch::candidate, (&*old(search), (index + 1) as usize), following),
        call_ensures(ApiKeySearch::step, (search, exists), next),
        call_ensures(ApiKeySearch::action, (&*final(search),), action),
    ensures
        exists ==> next == SearchAction::Load(index) && action == SearchAction::Probe(index),
        !exists && following is Some ==> next == SearchAction::Probe((index + 1) as usize)
            && action == next,
        !exists && following is None ==> next is Fail && action is Fail,
{
    lemma_search_range(*old(search));
}

/// A search that has failed stays failed, and no search ever changes its candidates.
pub proof fn law_failed_search_stays_failed(
    search: &mut ApiKeySearch,
    exists: bool,
    before: SearchAction,
    next: SearchAction,
    action: SearchAction,
    index: usize,
    candidate: Option<&KeyCandidate>,
    candidate_after: Option<&KeyCandidate>,
)
    requires
        call_ensures(ApiKeySearch::action, (&*old(search),), before),
        call_ensures(ApiKeySearch::candidate, (&*old(search), index), candidate),
        call_ensures(ApiKeySearch::step, (search, exists), next),
        call_ensures(ApiKeySearch::action, (&*final(search),), action),
        call_ensures(ApiKeySearch::candidate, (&*final(search), index), candidate_after),
    ensures
        before is Fail ==> next is Fail && action is Fail,
        !(before is Load),
        candidate is Some <==> candidate_after is Some,
        candidate is Some ==> candidate->0@ == candidate_after->0@,
{
}

/// The action with the number `k` of a course is what answers the probe before it, by the index
/// that the probe carries.
pub open spec fn answers(
    positions: Seq<int>,
    actions: Seq<SearchAction>,
    exists: Seq<bool>,
    k: int,
) -> bool {
    &&& actions[k - 1] is Probe
    &&& (positions[k], actions[k]) == search_step(
        positions[k - 1],
        exists.len() as int,
        exists[actions[k - 1]->Probe_0 as int],
    )
}

/// A course of a search of as many candidates as `exists` has answers: it starts at the first
/// candidate, and each probe is answered by the index that it carries.
pub open spec fn is_course(
    positions: Seq<int>,
    actions: Seq<SearchAction>,
    exists: Seq<bool>,
) -> bool {
    &&& actions.len() > 0
    &&& positions.len() == actions.len()
    &&& positions[0] == 0
    &&& actions[0] == probe_or_fail(0, exists.len() as int)
    &&& forall|k: int| 0 < k < actions.len() ==> #[trigger] answers(positions, actions, exists, k)
}

/// A search whose probes are answered by the index that they carry asks for one candidate after
/// the other, loads the first one whose file exists, fails exactly where there is none, and
/// comes to its end.
pub proof fn law_answered_search_finds_the_first_existing(
    positions: Seq<int>,
    actions: Seq<SearchAction>,
    exists: Seq<bool>,
)
    requires
        exists.len() <= usize::MAX,
        is_course(positions, actions, exists),
    ensures
        actions.len() <= exists.len() + 1,
        match actions.last() {
            SearchAction::Probe(i) => i == actions.len() - 1 && i < exists.len() && forall|j: int|
                0 <= j < i ==> !#[trigger] exists[j],
            SearchAction::Load(i) => i < exists.len() && exists[i as int] && forall|j: int|
                0 <= j < i ==> !#[trigger] exists[j],
            SearchAction::Fail(_) => forall|j: int| 0 <= j < exists.len() ==> !#[trigger] exists[j],
        },
{
    lemma_course(positions, actions, exists);
}

/// The law above, with where the search stands while it probes.
proof fn lemma_course(positions: Seq<int>, actions: Seq<SearchAction>, exists: Seq<bool>)
    requires
        exists.len() <= usize::MAX,
        is_course(positions, actions, exists),
    ensures
        actions.last() is Probe ==> positions.last() == actions.len() - 1,
        actions.len() <= exists.len() + 1,
        match actions.last() {
            SearchAction::Probe(i) => i == actions.len() - 1 && i < exists.len() && forall|j: int|
                0 <= j < i ==> !#[trigger] exists[j],
            SearchAction::Load(i) => i < exists.len() && exists[i as int] && forall|j: int|
                0 <= j < i ==> !#[trigger] exists[j],
            SearchAction::Fail(_) => forall|j: int| 0 <= j < exists.len() ==> !#[trigger] exists[j],
        },
    decreases actions.len(),
{
    let n = actions.len() as int;
    if n > 1 {
        let before = positions.drop_last();
        let asked = actions.drop_last();
        assert forall|k: int| 0 < k < asked.len() implies #[trigger] answers(
            before,
            asked,
            exists,
            k,
        ) by {
            assert(answers(positions, actions, exists, k));
        }
        lemma_course(before, asked, exists);
        assert(answers(positions, actions, exists, n - 1));
    }
}

} // verus!
