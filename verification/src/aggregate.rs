//! One candidate sequence out of two candidate lists.
//!
//! The ids of the similar movies, then those of the recommended movies, each
//! id once and at the place where it first occurs, without the base movie's
//! own id, and no more than the first forty of them.

use std::collections::HashSet;
use vstd::prelude::*;

use crate::model::{movie_ids, SearchMovie};

verus! {

broadcast use vstd::std_specs::hash::group_hash_axioms;

/// The most candidates whose details are looked up for one request.
pub const MAX_CANDIDATES: usize = 40;

/// The ids of `ids` other than `excluded`, each once, in the order in which
/// they first occur.
pub open spec fn first_occurrences(ids: Seq<u64>, excluded: u64) -> Seq<u64>
    decreases ids.len(),
{
    if ids.len() == 0 {
        Seq::empty()
    } else {
        let earlier = first_occurrences(ids.drop_last(), excluded);
        let id = ids.last();
        if id == excluded || earlier.contains(id) {
            earlier
        } else {
            earlier.push(id)
        }
    }
}

/// The first [`MAX_CANDIDATES`] ids of a sequence, or all of them where it
/// has fewer.
pub open spec fn capped(ids: Seq<u64>) -> Seq<u64> {
    if ids.len() <= MAX_CANDIDATES {
        ids
    } else {
        ids.take(MAX_CANDIDATES as int)
    }
}

/// The candidates for the movie `base`, given the ids of the movies similar
/// to it and of those recommended with it.
pub open spec fn candidate_ids(base: u64, similar: Seq<u64>, recommended: Seq<u64>) -> Seq<u64> {
    capped(first_occurrences(similar + recommended, base))
}

/// Appends to `out` the ids of `movies` that are new and not `excluded`.
fn absorb(
    movies: &Vec<SearchMovie>,
    excluded: u64,
    seen: &mut HashSet<u64>,
    out: &mut Vec<u64>,
    Ghost(before): Ghost<Seq<u64>>,
)
    requires
        old(out)@ == first_occurrences(before, excluded),
        old(seen)@ == old(out)@.to_set(),
    ensures
        final(out)@ == first_occurrences(before + movie_ids(movies@), excluded),
        final(seen)@ == final(out)@.to_set(),
{
    let ghost ids = movie_ids(movies@);
    let mut i: usize = 0;
    while i < movies.len()
        invariant
            i <= movies.len(),
            ids == movie_ids(movies@),
            out@ == first_occurrences(before + ids.take(i as int), excluded),
            seen@ == out@.to_set(),
        decreases movies.len() - i,
    {
        let id = movies[i].id;
        proof {
            let longer = before + ids.take(i + 1);
            assert(longer.drop_last() =~= before + ids.take(i as int));
            out@.lemma_push_to_set_commute(id);
        }
        if id != excluded {
            if seen.insert(id) {
                out.push(id);
            }
        }
        i += 1;
    }
    assert(ids.take(movies.len() as int) =~= ids);
}

/// Merges the two candidate lists of the movie `movie_id` into the sequence
/// of ids whose details are to be looked up.
pub fn aggregate_candidates(
    movie_id: u64,
    similar: &Vec<SearchMovie>,
    recommended: &Vec<SearchMovie>,
) -> (ids: Vec<u64>)
    ensures
        ids@ == candidate_ids(movie_id, movie_ids(similar@), movie_ids(recommended@)),
        ids@.no_duplicates(),
        !ids@.contains(movie_id),
        ids@.len() <= MAX_CANDIDATES,
{
    let mut seen: HashSet<u64> = HashSet::new();
    let mut out: Vec<u64> = Vec::new();
    assert(out@.to_set() =~= Set::<u64>::empty());
    absorb(similar, movie_id, &mut seen, &mut out, Ghost(Seq::empty()));
    absorb(recommended, movie_id, &mut seen, &mut out, Ghost(movie_ids(similar@)));
    out.truncate(MAX_CANDIDATES);
    proof {
        lemma_candidates_distinct(movie_id, movie_ids(similar@), movie_ids(recommended@));
    }
    out
}

/// What [`first_occurrences`] keeps: every id of the input but the excluded
/// one, and each of them once.
pub proof fn lemma_first_occurrences_distinct(ids: Seq<u64>, excluded: u64)
    ensures
        first_occurrences(ids, excluded).no_duplicates(),
        !first_occurrences(ids, excluded).contains(excluded),
        first_occurrences(ids, excluded).len() <= ids.len(),
        forall|id: u64| #[trigger]
            first_occurrences(ids, excluded).contains(id) <==> ids.contains(id) && id != excluded,
    decreases ids.len(),
{
    if ids.len() > 0 {
        let shorter = ids.drop_last();
        lemma_first_occurrences_distinct(shorter, excluded);
        let earlier = first_occurrences(shorter, excluded);
        let kept = first_occurrences(ids, excluded);
        assert forall|id: u64| #[trigger] kept.contains(id) <==> ids.contains(id) && id
            != excluded by {
            if ids.contains(id) {
                let at = choose|at: int| 0 <= at < ids.len() && ids[at] == id;
                if at < ids.len() - 1 {
                    assert(shorter[at] == id);
                }
            }
            if shorter.contains(id) {
                let at = choose|at: int| 0 <= at < shorter.len() && shorter[at] == id;
                assert(ids[at] == id);
            }
            if kept.contains(id) && kept != earlier {
                let at = choose|at: int| 0 <= at < kept.len() && kept[at] == id;
                if at < earlier.len() {
                    assert(earlier[at] == id);
                } else {
                    assert(ids.last() == id);
                }
            }
            if earlier.contains(id) {
                let at = choose|at: int| 0 <= at < earlier.len() && earlier[at] == id;
                assert(kept[at] == id);
            }
            if kept != earlier && id == ids.last() {
                assert(kept[kept.len() - 1] == id);
            }
        }
    }
}

/// The candidate sequence never names the base movie, names no movie twice,
/// has at most [`MAX_CANDIDATES`] ids, and names only movies of the two lists.
pub proof fn lemma_candidates_distinct(base: u64, similar: Seq<u64>, recommended: Seq<u64>)
    ensures
        candidate_ids(base, similar, recommended).no_duplicates(),
        !candidate_ids(base, similar, recommended).contains(base),
        candidate_ids(base, similar, recommended).len() <= MAX_CANDIDATES,
        forall|id: u64| #[trigger]
            candidate_ids(base, similar, recommended).contains(id) ==> similar.contains(id)
                || recommended.contains(id),
{
    let all = similar + recommended;
    let kept = first_occurrences(all, base);
    let out = candidate_ids(base, similar, recommended);
    lemma_first_occurrences_distinct(all, base);
    assert forall|id: u64| #[trigger] out.contains(id) implies kept.contains(id) by {
        let at = choose|at: int| 0 <= at < out.len() && out[at] == id;
        assert(kept[at] == id);
    }
    assert forall|id: u64| #[trigger] out.contains(id) implies similar.contains(id)
        || recommended.contains(id) by {
        let at = choose|at: int| 0 <= at < all.len() && all[at] == id;
        if at < similar.len() {
            assert(similar[at] == id);
        } else {
            assert(recommended[at - similar.len()] == id);
        }
    }
}

/// The order of [`first_occurrences`] is the order of first occurrence: of
/// two ids that it keeps, the earlier one occurs in the input before the first
/// occurrence of the later one. Returns the two places in the input.
pub proof fn lemma_first_occurrences_in_order(ids: Seq<u64>, excluded: u64, j: int, k: int) -> (at:
    (int, int))
    requires
        0 <= j < k < first_occurrences(ids, excluded).len(),
    ensures
        0 <= at.0 < at.1 < ids.len(),
        ids[at.0] == first_occurrences(ids, excluded)[j],
        ids[at.1] == first_occurrences(ids, excluded)[k],
        !ids.take(at.1).contains(ids[at.1]),
    decreases ids.len(),
{
    let shorter = ids.drop_last();
    let earlier = first_occurrences(shorter, excluded);
    if k < earlier.len() {
        let at = lemma_first_occurrences_in_order(shorter, excluded, j, k);
        assert(ids.take(at.1) =~= shorter.take(at.1));
        at
    } else {
        lemma_first_occurrences_distinct(shorter, excluded);
        assert(earlier.contains(earlier[j]));
        let first = choose|first: int| 0 <= first < shorter.len() && shorter[first] == earlier[j];
        let last = ids.len() - 1;
        (first, last)
    }
}

} // verus!
