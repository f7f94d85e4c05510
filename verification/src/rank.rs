//! The ranking: every found candidate with its score, best first, and no
//! more than twenty of them.
//!
//! The order is that of a stable sort by descending score: a candidate stands
//! behind every candidate that scores higher, and behind those of its own
//! score that arrived before it.

use vstd::prelude::*;
use vstd::seq_lib::{to_multiset_build, to_multiset_insert};

use crate::model::{details_views, text_of, MovieDetails, MovieDetailsView};
use crate::score::{lemma_score_in_range, score_tenths, similarity_score, MAX_SCORE};

verus! {

/// The most recommendations that one request returns.
pub const MAX_RESULTS: usize = 20;

/// A candidate as the response names it, with its score.
#[derive(Debug, Clone, PartialEq, Eq)]
pub struct Recommendation {
    pub id: u64,
    pub title: String,
    pub poster_path: Option<String>,
    pub release_date: Option<String>,
    /// In thousandths of a rating point.
    pub vote_average_milli: u32,
    /// In tenths of a point, 0 to 1000.
    pub similarity_score: u32,
}

/// The mathematical value of a [`Recommendation`].
pub struct RecommendationView {
    pub id: u64,
    pub title: Seq<char>,
    pub poster_path: Option<Seq<char>>,
    pub release_date: Option<Seq<char>>,
    pub vote_average_milli: u32,
    pub similarity_score: u32,
}

impl View for Recommendation {
    type V = RecommendationView;

    open spec fn view(&self) -> RecommendationView {
        RecommendationView {
            id: self.id,
            title: self.title@,
            poster_path: text_of(self.poster_path),
            release_date: text_of(self.release_date),
            vote_average_milli: self.vote_average_milli,
            similarity_score: self.similarity_score,
        }
    }
}

/// The values of a list of recommendations, in order.
pub open spec fn recommendation_views(list: Seq<Recommendation>) -> Seq<RecommendationView> {
    list.map_values(|r: Recommendation| r@)
}

/// The candidate as a recommendation for the movie `base`.
pub open spec fn recommendation_of(
    base: MovieDetailsView,
    candidate: MovieDetailsView,
) -> RecommendationView {
    RecommendationView {
        id: candidate.id,
        title: candidate.title,
        poster_path: candidate.poster_path,
        release_date: candidate.release_date,
        vote_average_milli: candidate.vote_average_milli,
        similarity_score: score_tenths(base, candidate) as u32,
    }
}

/// The candidates as recommendations for the movie `base`, in their own order.
pub open spec fn scored(base: MovieDetailsView, candidates: Seq<MovieDetailsView>) -> Seq<
    RecommendationView,
> {
    candidates.map_values(|c: MovieDetailsView| recommendation_of(base, c))
}

/// The place of a newcomer with the given score in a ranking: just behind the
/// last entry that scores at least as high, or at the front where none does.
pub open spec fn place_of(ranking: Seq<RecommendationView>, score: u32) -> int
    decreases ranking.len(),
{
    if ranking.len() == 0 {
        0
    } else if ranking.last().similarity_score >= score {
        ranking.len() as int
    } else {
        place_of(ranking.drop_last(), score)
    }
}

/// The ranking of a list: its entries by descending score, those of one score
/// in the order of the list. Each entry in turn takes its place among those
/// before it.
pub open spec fn sorted_by_score(list: Seq<RecommendationView>) -> Seq<RecommendationView>
    decreases list.len(),
{
    if list.len() == 0 {
        Seq::empty()
    } else {
        let earlier = sorted_by_score(list.drop_last());
        earlier.insert(place_of(earlier, list.last().similarity_score), list.last())
    }
}

/// The first [`MAX_RESULTS`] entries of a ranking, or all of them where it
/// has fewer.
pub open spec fn top(ranking: Seq<RecommendationView>) -> Seq<RecommendationView> {
    if ranking.len() <= MAX_RESULTS {
        ranking
    } else {
        ranking.take(MAX_RESULTS as int)
    }
}

/// What a request for the movie `base` returns, given the candidates that
/// were found, in arrival order.
pub open spec fn ranked(base: MovieDetailsView, candidates: Seq<MovieDetailsView>) -> Seq<
    RecommendationView,
> {
    top(sorted_by_score(scored(base, candidates)))
}

impl Recommendation {
    /// Scores `candidate` against `base` and keeps of it what a response
    /// names.
    pub fn new(base: &MovieDetails, candidate: MovieDetails) -> (r: Self)
        ensures
            r@ == recommendation_of(base@, candidate@),
            r.similarity_score <= MAX_SCORE,
    {
        let similarity_score = similarity_score(base, &candidate);
        Recommendation {
            id: candidate.id,
            title: candidate.title,
            poster_path: candidate.poster_path,
            release_date: candidate.release_date,
            vote_average_milli: candidate.vote_average_milli,
            similarity_score,
        }
    }
}

/// Where a newcomer with the given score goes in `ranking`.
fn place_in(ranking: &Vec<Recommendation>, score: u32) -> (place: usize)
    ensures
        place == place_of(recommendation_views(ranking@), score),
        place <= ranking.len(),
{
    let ghost views = recommendation_views(ranking@);
    let mut place = ranking.len();
    assert(views.take(place as int) =~= views);
    while place > 0 && ranking[place - 1].similarity_score < score
        invariant
            place <= ranking.len(),
            views == recommendation_views(ranking@),
            place_of(views, score) == place_of(views.take(place as int), score),
        decreases place,
    {
        assert(views.take(place as int).drop_last() =~= views.take(place - 1));
        place -= 1;
    }
    place
}

/// Sorts by descending score; entries of one score keep their order.
pub fn sort_by_score(list: Vec<Recommendation>) -> (ranking: Vec<Recommendation>)
    ensures
        recommendation_views(ranking@) == sorted_by_score(recommendation_views(list@)),
        ranking.len() == list.len(),
{
    let ghost all = recommendation_views(list@);
    let mut ranking: Vec<Recommendation> = Vec::new();
    for entry in it: list
        invariant
            all == recommendation_views(it.seq()),
            ranking.len() == it.index(),
            recommendation_views(ranking@) == sorted_by_score(all.take(it.index() as int)),
    {
        let place = place_in(&ranking, entry.similarity_score);
        proof {
            let longer = all.take(it.index() + 1);
            assert(longer.drop_last() =~= all.take(it.index() as int));
            assert(recommendation_views(ranking@.insert(place as int, entry))
                =~= recommendation_views(ranking@).insert(place as int, entry@));
        }
        ranking.insert(place, entry);
    }
    assert(all.take(all.len() as int) =~= all);
    ranking
}

/// Scores every candidate against `base`, in the candidates' order.
pub fn score_candidates(base: &MovieDetails, candidates: Vec<MovieDetails>) -> (list: Vec<
    Recommendation,
>)
    ensures
        recommendation_views(list@) == scored(base@, details_views(candidates@)),
{
    let ghost all = details_views(candidates@);
    let mut list: Vec<Recommendation> = Vec::new();
    for candidate in it: candidates
        invariant
            all == details_views(it.seq()),
            recommendation_views(list@) == scored(base@, all.take(it.index() as int)),
    {
        let entry = Recommendation::new(base, candidate);
        proof {
            let longer = all.take(it.index() + 1);
            assert(scored(base@, longer) =~= scored(base@, all.take(it.index() as int)).push(
                entry@,
            ));
            assert(recommendation_views(list@.push(entry)) =~= recommendation_views(list@).push(
                entry@,
            ));
        }
        list.push(entry);
    }
    list
}

/// Ranks the candidates that were found for the movie `base`: scores each,
/// sorts by descending score and keeps the first [`MAX_RESULTS`].
pub fn rank(base: &MovieDetails, candidates: Vec<MovieDetails>) -> (results: Vec<Recommendation>)
    ensures
        recommendation_views(results@) == ranked(base@, details_views(candidates@)),
        results.len() <= MAX_RESULTS,
        results.len() <= candidates.len(),
{
    let list = score_candidates(base, candidates);
    let mut ranking = sort_by_score(list);
    proof {
        if ranking.len() > MAX_RESULTS {
            assert(recommendation_views(ranking@.subrange(0, MAX_RESULTS as int))
                =~= recommendation_views(ranking@).take(MAX_RESULTS as int));
        }
    }
    ranking.truncate(MAX_RESULTS);
    ranking
}

/// No entry scores higher than an entry before it.
pub open spec fn is_descending(ranking: Seq<RecommendationView>) -> bool {
    forall|i: int, j: int|
        0 <= i < j < ranking.len() ==> ranking[i].similarity_score
            >= ranking[j].similarity_score
}

/// The entries of a list that have the given score, in the order of the list.
pub open spec fn with_score(list: Seq<RecommendationView>, score: u32) -> Seq<RecommendationView> {
    list.filter(|r: RecommendationView| r.similarity_score == score)
}

/// In a ranking, a newcomer's place parts the entries that score at least as
/// high, before it, from those that score lower, behind it.
pub proof fn lemma_place_parts_ranking(ranking: Seq<RecommendationView>, score: u32)
    requires
        is_descending(ranking),
    ensures
        0 <= place_of(ranking, score) <= ranking.len(),
        forall|i: int|
            0 <= i < place_of(ranking, score) ==> (#[trigger] ranking[i]).similarity_score
                >= score,
        forall|i: int|
            place_of(ranking, score) <= i < ranking.len() ==> (
            #[trigger] ranking[i]).similarity_score < score,
    decreases ranking.len(),
{
    if ranking.len() > 0 && ranking.last().similarity_score < score {
        let shorter = ranking.drop_last();
        assert forall|i: int, j: int| 0 <= i < j < shorter.len() implies shorter[i].similarity_score
            >= shorter[j].similarity_score by {
            assert(shorter[i] == ranking[i] && shorter[j] == ranking[j]);
        }
        lemma_place_parts_ranking(shorter, score);
        assert forall|i: int| 0 <= i < place_of(ranking, score) implies (
        #[trigger] ranking[i]).similarity_score >= score by {
            assert(shorter[i] == ranking[i]);
        }
        assert forall|i: int| place_of(ranking, score) <= i < ranking.len() implies (
        #[trigger] ranking[i]).similarity_score < score by {
            if i < shorter.len() {
                assert(shorter[i] == ranking[i]);
            }
        }
    }
}

/// Sorting by score gives a ranking in which the scores never rise.
pub proof fn lemma_sorted_is_descending(list: Seq<RecommendationView>)
    ensures
        is_descending(sorted_by_score(list)),
        sorted_by_score(list).len() == list.len(),
    decreases list.len(),
{
    if list.len() > 0 {
        let earlier = sorted_by_score(list.drop_last());
        let entry = list.last();
        let place = place_of(earlier, entry.similarity_score);
        lemma_sorted_is_descending(list.drop_last());
        lemma_place_parts_ranking(earlier, entry.similarity_score);
        let ranking = earlier.insert(place, entry);
        assert forall|i: int, j: int| 0 <= i < j < ranking.len() implies ranking[i].similarity_score
            >= ranking[j].similarity_score by {
            let before = if i < place {
                earlier[i]
            } else if i == place {
                entry
            } else {
                earlier[i - 1]
            };
            let behind = if j < place {
                earlier[j]
            } else if j == place {
                entry
            } else {
                earlier[j - 1]
            };
            assert(ranking[i] == before && ranking[j] == behind);
        }
    }
}

/// Sorting by score neither adds nor drops an entry.
pub proof fn lemma_sorted_is_permutation(list: Seq<RecommendationView>)
    ensures
        sorted_by_score(list).to_multiset() == list.to_multiset(),
    decreases list.len(),
{
    if list.len() > 0 {
        let earlier = sorted_by_score(list.drop_last());
        let entry = list.last();
        lemma_sorted_is_permutation(list.drop_last());
        lemma_sorted_is_descending(list.drop_last());
        lemma_place_parts_ranking(earlier, entry.similarity_score);
        to_multiset_insert(earlier, place_of(earlier, entry.similarity_score), entry);
        to_multiset_build(list.drop_last(), entry);
        assert(list.drop_last().push(entry) =~= list);
    } else {
        assert(sorted_by_score(list) =~= list);
    }
}

/// Sorting by score is stable: the entries of any one score stand in the
/// ranking in the order in which they stood in the list.
pub proof fn lemma_sorted_is_stable(list: Seq<RecommendationView>, score: u32)
    ensures
        with_score(sorted_by_score(list), score) == with_score(list, score),
    decreases list.len(),
{
    let has_score = |r: RecommendationView| r.similarity_score == score;
    if list.len() > 0 {
        let shorter = list.drop_last();
        let earlier = sorted_by_score(shorter);
        let entry = list.last();
        let place = place_of(earlier, entry.similarity_score);
        lemma_sorted_is_stable(shorter, score);
        lemma_sorted_is_descending(shorter);
        lemma_place_parts_ranking(earlier, entry.similarity_score);
        let front = earlier.take(place);
        let back = earlier.skip(place);
        assert(earlier =~= front + back);
        assert(shorter.push(entry) =~= list);
        Seq::filter_distributes_over_add(front, back, has_score);
        Seq::filter_distributes_over_add(front.push(entry), back, has_score);
        front.lemma_filter_push(entry, has_score);
        shorter.lemma_filter_push(entry, has_score);
        if has_score(entry) {
            back.lemma_all_neg_filter_empty(has_score);
            assert(front.filter(has_score).push(entry) + back.filter(has_score)
                =~= (front.filter(has_score) + back.filter(has_score)).push(entry));
        }
    }
}

/// What a request returns: at most [`MAX_RESULTS`] recommendations and no
/// more than there are candidates, scores that never rise and never pass the
/// highest score, and of the candidates that are left out none that scores
/// higher than one that is kept.
pub proof fn lemma_ranked_is_bounded_and_descending(
    base: MovieDetailsView,
    candidates: Seq<MovieDetailsView>,
)
    ensures
        ranked(base, candidates).len() <= MAX_RESULTS,
        ranked(base, candidates).len() <= candidates.len(),
        is_descending(ranked(base, candidates)),
        forall|i: int|
            0 <= i < ranked(base, candidates).len() ==> (#[trigger] ranked(
                base,
                candidates,
            )[i]).similarity_score <= MAX_SCORE,
        forall|i: int, j: int|
            #![trigger ranked(base, candidates)[i], sorted_by_score(scored(base, candidates))[j]]
            0 <= i < ranked(base, candidates).len() <= j < candidates.len() ==> ranked(
                base,
                candidates,
            )[i].similarity_score >= sorted_by_score(
                scored(base, candidates),
            )[j].similarity_score,
{
    let list = scored(base, candidates);
    let ranking = sorted_by_score(list);
    let results = ranked(base, candidates);
    lemma_sorted_is_descending(list);
    lemma_sorted_is_permutation(list);
    assert forall|i: int| 0 <= i < results.len() implies (#[trigger] results[i]).similarity_score
        <= MAX_SCORE by {
        assert(ranking.to_multiset().count(ranking[i]) > 0) by {
            broadcast use vstd::seq_lib::to_multiset_contains;

        }
        assert(list.contains(ranking[i])) by {
            broadcast use vstd::seq_lib::to_multiset_contains;

        }
        let at = choose|at: int| 0 <= at < list.len() && list[at] == ranking[i];
        lemma_score_in_range(base, candidates[at]);
    }
    assert forall|i: int, j: int| 0 <= i < j < results.len() implies results[i].similarity_score
        >= results[j].similarity_score by {
        assert(results[i] == ranking[i] && results[j] == ranking[j]);
    }
    assert forall|i: int, j: int|
        #![trigger results[i], ranking[j]]
        0 <= i < results.len() <= j < candidates.len() implies results[i].similarity_score
            >= ranking[j].similarity_score by {
        assert(results[i] == ranking[i]);
    }
}

} // verus!
