//! One recommendation request from its first lookup to its answer.
//!
//! The engine itself makes no lookup. It says which lookup comes next, takes
//! in what the lookup brought, and says again: first the base movie's details,
//! then the movies similar to it, then those recommended with it, then the
//! details of every candidate, all at once. The outcomes of the candidates'
//! lookups are handed in one by one as they complete. The request ends with
//! the ranked recommendations or with one error, never with both.

use vstd::prelude::*;

use crate::aggregate::{
    aggregate_candidates, candidate_ids, lemma_candidates_distinct, MAX_CANDIDATES,
};
use crate::enrich::{
    enriched, first_fatal, found, is_fatal, lemma_first_fatal_from_front, lemma_found_from_front,
    outcome_view, Enrichment,
};
use crate::error::{AppError, ErrorKind, ErrorView};
use crate::model::{movie_ids, MovieDetails, MovieDetailsView, SearchMovie};
use crate::rank::{
    is_descending, lemma_ranked_is_bounded_and_descending, rank, ranked, recommendation_views,
    Recommendation, RecommendationView, MAX_RESULTS,
};
use crate::score::MAX_SCORE;

verus! {

/// The movie that the recommendations are for.
#[derive(Debug, Clone, PartialEq, Eq)]
pub struct BaseMovie {
    pub id: u64,
    pub title: String,
}

/// The answer to a recommendation request.
#[derive(Debug, Clone, PartialEq, Eq)]
pub struct Recommendations {
    pub base_movie: BaseMovie,
    /// Best first, at most twenty.
    pub results: Vec<Recommendation>,
}

/// The mathematical value of a [`Recommendations`].
pub struct RecommendationsView {
    pub base_id: u64,
    pub base_title: Seq<char>,
    pub results: Seq<RecommendationView>,
}

impl View for Recommendations {
    type V = RecommendationsView;

    open spec fn view(&self) -> RecommendationsView {
        RecommendationsView {
            base_id: self.base_movie.id,
            base_title: self.base_movie.title@,
            results: recommendation_views(self.results@),
        }
    }
}

/// What a lookup brought.
#[derive(Debug, PartialEq, Eq)]
pub enum Event {
    /// The outcome of the base movie's detail lookup.
    Base(Result<MovieDetails, AppError>),
    /// The outcome of the lookup of similar movies.
    Similar(Result<Vec<SearchMovie>, AppError>),
    /// The outcome of the lookup of recommended movies.
    Recommended(Result<Vec<SearchMovie>, AppError>),
    /// The outcome of one candidate's detail lookup.
    Detail(Result<MovieDetails, AppError>),
}

/// The mathematical value of an [`Event`]. Of a list of movies it keeps the
/// ids, which is all that the engine reads of it.
pub enum EventView {
    Base(Result<MovieDetailsView, ErrorView>),
    Similar(Result<Seq<u64>, ErrorView>),
    Recommended(Result<Seq<u64>, ErrorView>),
    Detail(Result<MovieDetailsView, ErrorView>),
}

/// The value of the outcome of a list lookup.
pub open spec fn list_view(outcome: Result<Vec<SearchMovie>, AppError>) -> Result<
    Seq<u64>,
    ErrorView,
> {
    match outcome {
        Ok(movies) => Ok(movie_ids(movies@)),
        Err(error) => Err(error@),
    }
}

impl View for Event {
    type V = EventView;

    open spec fn view(&self) -> EventView {
        match *self {
            Event::Base(outcome) => EventView::Base(outcome_view(outcome)),
            Event::Similar(outcome) => EventView::Similar(list_view(outcome)),
            Event::Recommended(outcome) => EventView::Recommended(list_view(outcome)),
            Event::Detail(outcome) => EventView::Detail(outcome_view(outcome)),
        }
    }
}

/// What is to be done next for a request.
#[derive(Debug, Clone, PartialEq, Eq)]
pub enum Action {
    /// Look up the details of the base movie with this id.
    FetchBase(u64),
    /// Look up the movies similar to the movie with this id.
    FetchSimilar(u64),
    /// Look up the movies recommended with the movie with this id.
    FetchRecommended(u64),
    /// Look up the details of each of these candidates, all at once, and hand
    /// in the outcomes as they complete.
    FetchDetails(Vec<u64>),
    /// Hand in the next outcome of the lookups under way.
    AwaitDetail,
    /// The request is answered.
    Respond(Recommendations),
    /// The request has failed. Lookups still under way are abandoned.
    Fail(AppError),
}

/// The mathematical value of an [`Action`].
pub enum ActionView {
    FetchBase(u64),
    FetchSimilar(u64),
    FetchRecommended(u64),
    FetchDetails(Seq<u64>),
    AwaitDetail,
    Respond(RecommendationsView),
    Fail(ErrorView),
}

impl View for Action {
    type V = ActionView;

    open spec fn view(&self) -> ActionView {
        match *self {
            Action::FetchBase(id) => ActionView::FetchBase(id),
            Action::FetchSimilar(id) => ActionView::FetchSimilar(id),
            Action::FetchRecommended(id) => ActionView::FetchRecommended(id),
            Action::FetchDetails(ids) => ActionView::FetchDetails(ids@),
            Action::AwaitDetail => ActionView::AwaitDetail,
            Action::Respond(answer) => ActionView::Respond(answer@),
            Action::Fail(error) => ActionView::Fail(error@),
        }
    }
}

/// How far a request has come.
enum Phase {
    AwaitingBase { movie_id: u64 },
    AwaitingSimilar { movie_id: u64, base: MovieDetails },
    AwaitingRecommended { movie_id: u64, base: MovieDetails, similar: Vec<SearchMovie> },
    AwaitingDetails { base: MovieDetails, pending: usize, found: Enrichment },
    Finished,
}

/// A recommendation request under way.
pub struct RecommendationRequest {
    phase: Phase,
}

/// The mathematical value of a [`RecommendationRequest`].
pub enum RequestView {
    /// Waiting for the base movie's details.
    AwaitingBase { movie_id: u64 },
    /// Waiting for the movies similar to the base movie.
    AwaitingSimilar { movie_id: u64, base: MovieDetailsView },
    /// Waiting for the movies recommended with the base movie.
    AwaitingRecommended { movie_id: u64, base: MovieDetailsView, similar: Seq<u64> },
    /// Waiting for the details of `pending` more candidates; `found` holds those
    /// that have arrived.
    AwaitingDetails { base: MovieDetailsView, pending: nat, found: Seq<MovieDetailsView> },
    /// Answered or failed.
    Finished,
}

impl View for RecommendationRequest {
    type V = RequestView;

    closed spec fn view(&self) -> RequestView {
        match self.phase {
            Phase::AwaitingBase { movie_id } => RequestView::AwaitingBase { movie_id },
            Phase::AwaitingSimilar { movie_id, base } => RequestView::AwaitingSimilar {
                movie_id,
                base: base@,
            },
            Phase::AwaitingRecommended {
                movie_id,
                base,
                similar,
            } => RequestView::AwaitingRecommended {
                movie_id,
                base: base@,
                similar: movie_ids(similar@),
            },
            Phase::AwaitingDetails { base, pending, found } => RequestView::AwaitingDetails {
                base: base@,
                pending: pending as nat,
                found: found@,
            },
            Phase::Finished => RequestView::Finished,
        }
    }
}

/// The answer for the movie `base`, given the candidates that were found, in
/// arrival order.
pub open spec fn answer_of(
    base: MovieDetailsView,
    found: Seq<MovieDetailsView>,
) -> RecommendationsView {
    RecommendationsView { base_id: base.id, base_title: base.title, results: ranked(base, found) }
}

/// The error of a request that is handed an outcome it was not waiting for.
pub open spec fn unexpected_event() -> ErrorView {
    ErrorView {
        kind: ErrorKind::Internal,
        code: "UNEXPECTED_EVENT"@,
        message: "The request was handed an outcome that it was not waiting for"@,
    }
}

/// What follows once one more candidate's lookup is settled without a fatal
/// failure: the answer where it was the last one, else the wait for the next.
pub open spec fn after_detail(
    base: MovieDetailsView,
    pending: nat,
    found: Seq<MovieDetailsView>,
) -> (RequestView, ActionView) {
    if pending <= 1 {
        (RequestView::Finished, ActionView::Respond(answer_of(base, found)))
    } else {
        (
            RequestView::AwaitingDetails { base, pending: (pending - 1) as nat, found },
            ActionView::AwaitDetail,
        )
    }
}

/// The request's next state and the next action, given its state and what the
/// last lookup brought.
pub open spec fn next(state: RequestView, event: EventView) -> (RequestView, ActionView) {
    match (state, event) {
        (RequestView::AwaitingBase { movie_id }, EventView::Base(Ok(base))) => (
            RequestView::AwaitingSimilar { movie_id, base },
            ActionView::FetchSimilar(movie_id),
        ),
        (RequestView::AwaitingBase { .. }, EventView::Base(Err(error))) => (
            RequestView::Finished,
            ActionView::Fail(error),
        ),
        (RequestView::AwaitingSimilar { movie_id, base }, EventView::Similar(Ok(similar))) => (
            RequestView::AwaitingRecommended { movie_id, base, similar },
            ActionView::FetchRecommended(movie_id),
        ),
        (RequestView::AwaitingSimilar { .. }, EventView::Similar(Err(error))) => (
            RequestView::Finished,
            ActionView::Fail(error),
        ),
        (
            RequestView::AwaitingRecommended { movie_id, base, similar },
            EventView::Recommended(Ok(recommended)),
        ) => {
            let ids = candidate_ids(movie_id, similar, recommended);
            if ids.len() == 0 {
                (RequestView::Finished, ActionView::Respond(answer_of(base, Seq::empty())))
            } else {
                (
                    RequestView::AwaitingDetails { base, pending: ids.len(), found: Seq::empty() },
                    ActionView::FetchDetails(ids),
                )
            }
        },
        (RequestView::AwaitingRecommended { .. }, EventView::Recommended(Err(error))) => (
            RequestView::Finished,
            ActionView::Fail(error),
        ),
        (
            RequestView::AwaitingDetails { base, pending, found },
            EventView::Detail(Ok(details)),
        ) => after_detail(base, pending, found.push(details)),
        (RequestView::AwaitingDetails { base, pending, found }, EventView::Detail(Err(error))) => {
            if error.kind == ErrorKind::NotFound {
                after_detail(base, pending, found)
            } else {
                (RequestView::Finished, ActionView::Fail(error))
            }
        },
        _ => (RequestView::Finished, ActionView::Fail(unexpected_event())),
    }
}

impl RecommendationRequest {
    /// A request for recommendations for the movie `movie_id`, and its first
    /// action: the lookup of that movie's details.
    pub fn start(movie_id: u64) -> (begun: (Self, Action))
        ensures
            begun.0@ == (RequestView::AwaitingBase { movie_id }),
            begun.1@ == ActionView::FetchBase(movie_id),
    {
        (
            RecommendationRequest { phase: Phase::AwaitingBase { movie_id } },
            Action::FetchBase(movie_id),
        )
    }

    /// Whether the request is answered or has failed.
    pub fn is_finished(&self) -> (done: bool)
        ensures
            done == (self@ is Finished),
    {
        match self.phase {
            Phase::Finished => true,
            _ => false,
        }
    }

    /// The request that has ended, with the action that ends it.
    fn finish(action: Action) -> (ended: (Self, Action))
        ensures
            ended.0@ == RequestView::Finished,
            ended.1 == action,
    {
        (RecommendationRequest { phase: Phase::Finished }, action)
    }

    /// The request that has failed for an outcome it was not waiting for.
    fn reject() -> (ended: (Self, Action))
        ensures
            ended.0@ == RequestView::Finished,
            ended.1@ == ActionView::Fail(unexpected_event()),
    {
        Self::finish(
            Action::Fail(
                AppError::internal(
                    "UNEXPECTED_EVENT",
                    "The request was handed an outcome that it was not waiting for",
                ),
            ),
        )
    }

    /// The answer of a request whose lookups are all settled.
    fn answer(base: MovieDetails, found: Enrichment) -> (ended: (Self, Action))
        ensures
            ended.0@ == RequestView::Finished,
            ended.1@ == ActionView::Respond(answer_of(base@, found@)),
    {
        let results = rank(&base, found.into_details());
        let answer = Recommendations {
            base_movie: BaseMovie { id: base.id, title: base.title },
            results,
        };
        Self::finish(Action::Respond(answer))
    }

    /// Goes on once one more candidate's lookup is settled.
    fn settle(base: MovieDetails, pending: usize, found: Enrichment) -> (then: (Self, Action))
        ensures
            (then.0@, then.1@) == after_detail(base@, pending as nat, found@),
    {
        if pending <= 1 {
            Self::answer(base, found)
        } else {
            (
                RecommendationRequest {
                    phase: Phase::AwaitingDetails { base, pending: pending - 1, found },
                },
                Action::AwaitDetail,
            )
        }
    }

    /// Takes in what the last lookup brought and says what is to be done next.
    ///
    /// An outcome that the request was not waiting for ends it with an
    /// `Internal` error.
    pub fn step(self, event: Event) -> (then: (Self, Action))
        ensures
            (then.0@, then.1@) == next(self@, event@),
    {
        match (self.phase, event) {
            (Phase::AwaitingBase { movie_id }, Event::Base(outcome)) => match outcome {
                Ok(base) => (
                    RecommendationRequest { phase: Phase::AwaitingSimilar { movie_id, base } },
                    Action::FetchSimilar(movie_id),
                ),
                Err(error) => Self::finish(Action::Fail(error)),
            },
            (Phase::AwaitingSimilar { movie_id, base }, Event::Similar(outcome)) => match outcome {
                Ok(similar) => (
                    RecommendationRequest {
                        phase: Phase::AwaitingRecommended { movie_id, base, similar },
                    },
                    Action::FetchRecommended(movie_id),
                ),
                Err(error) => Self::finish(Action::Fail(error)),
            },
            (
                Phase::AwaitingRecommended { movie_id, base, similar },
                Event::Recommended(outcome),
            ) => match outcome {
                Ok(recommended) => {
                    let ids = aggregate_candidates(movie_id, &similar, &recommended);
                    if ids.len() == 0 {
                        Self::answer(base, Enrichment::new())
                    } else {
                        (
                            RecommendationRequest {
                                phase: Phase::AwaitingDetails {
                                    base,
                                    pending: ids.len(),
                                    found: Enrichment::new(),
                                },
                            },
                            Action::FetchDetails(ids),
                        )
                    }
                },
                Err(error) => Self::finish(Action::Fail(error)),
            },
            (Phase::AwaitingDetails { base, pending, found }, Event::Detail(outcome)) => {
                let mut found = found;
                match found.absorb(outcome) {
                    Some(error) => Self::finish(Action::Fail(error)),
                    None => Self::settle(base, pending, found),
                }
            },
            _ => Self::reject(),
        }
    }
}

/// The action that ends a request which is in `state` and is handed `events`
/// one after the other, or `None` where it has not ended when they are used up.
/// What is handed in after the end is not looked at.
pub open spec fn run(state: RequestView, events: Seq<EventView>) -> Option<ActionView>
    decreases events.len(),
{
    if events.len() == 0 {
        None
    } else {
        let (then, action) = next(state, events.first());
        if then is Finished {
            Some(action)
        } else {
            run(then, events.drop_first())
        }
    }
}

/// The outcomes of the candidates' lookups as events, in arrival order.
pub open spec fn detail_events(outcomes: Seq<Result<MovieDetailsView, ErrorView>>) -> Seq<
    EventView,
> {
    outcomes.map_values(|o: Result<MovieDetailsView, ErrorView>| EventView::Detail(o))
}

/// Everything that the lookups of one request bring, in the order in which
/// the request takes it in.
pub open spec fn events_of(
    base: Result<MovieDetailsView, ErrorView>,
    similar: Result<Seq<u64>, ErrorView>,
    recommended: Result<Seq<u64>, ErrorView>,
    details: Seq<Result<MovieDetailsView, ErrorView>>,
) -> Seq<EventView> {
    seq![EventView::Base(base), EventView::Similar(similar), EventView::Recommended(recommended)]
        + detail_events(details)
}

/// What a request comes to: the first failure among the base movie's lookup,
/// the two list lookups and the candidates' lookups, where a candidate that
/// is not found is no failure; or else the ranking of the candidates found.
pub open spec fn outcome_of(
    base: Result<MovieDetailsView, ErrorView>,
    similar: Result<Seq<u64>, ErrorView>,
    recommended: Result<Seq<u64>, ErrorView>,
    details: Seq<Result<MovieDetailsView, ErrorView>>,
) -> Result<RecommendationsView, ErrorView> {
    if base is Err {
        Err(base->Err_0)
    } else if similar is Err {
        Err(similar->Err_0)
    } else if recommended is Err {
        Err(recommended->Err_0)
    } else {
        match enriched(details) {
            Ok(found) => Ok(answer_of(base->Ok_0, found)),
            Err(error) => Err(error),
        }
    }
}

/// The action that ends a request with the given result.
pub open spec fn ending(result: Result<RecommendationsView, ErrorView>) -> ActionView {
    match result {
        Ok(answer) => ActionView::Respond(answer),
        Err(error) => ActionView::Fail(error),
    }
}

/// A request that waits for the details of as many candidates as there are
/// outcomes ends with the first fatal failure among them, or else with the
/// ranking of what it had found before and what the outcomes bring.
pub proof fn lemma_details_phase(
    base: MovieDetailsView,
    before: Seq<MovieDetailsView>,
    outcomes: Seq<Result<MovieDetailsView, ErrorView>>,
)
    requires
        outcomes.len() > 0,
    ensures
        run(
            RequestView::AwaitingDetails { base, pending: outcomes.len(), found: before },
            detail_events(outcomes),
        ) == Some(
            match first_fatal(outcomes) {
                Some(error) => ActionView::Fail(error),
                None => ActionView::Respond(answer_of(base, before + found(outcomes))),
            },
        ),
    decreases outcomes.len(),
{
    let rest = outcomes.drop_first();
    let events = detail_events(outcomes);
    assert(events.drop_first() =~= detail_events(rest));
    lemma_first_fatal_from_front(outcomes);
    lemma_found_from_front(outcomes);
    if !is_fatal(outcomes.first()) {
        let now = match outcomes.first() {
            Ok(details) => before.push(details),
            Err(_) => before,
        };
        assert(before + found(outcomes) =~= now + found(rest));
        if outcomes.len() == 1 {
            assert(rest =~= Seq::empty());
        } else {
            lemma_details_phase(base, now, rest);
        }
    }
}

/// A request comes to what [`outcome_of`] says: handed the outcome of the
/// base movie's lookup, those of the two list lookups and one outcome for
/// each candidate, it ends with the first failure among them, where a
/// candidate that is not found is no failure, or else with the ranking of the
/// candidates that were found.
pub proof fn lemma_request_outcome(
    movie_id: u64,
    base: Result<MovieDetailsView, ErrorView>,
    similar: Result<Seq<u64>, ErrorView>,
    recommended: Result<Seq<u64>, ErrorView>,
    details: Seq<Result<MovieDetailsView, ErrorView>>,
)
    requires
        base is Ok && similar is Ok && recommended is Ok ==> details.len() == candidate_ids(
            movie_id,
            similar->Ok_0,
            recommended->Ok_0,
        ).len(),
    ensures
        run(RequestView::AwaitingBase { movie_id }, events_of(base, similar, recommended, details))
            == Some(ending(outcome_of(base, similar, recommended, details))),
{
    let events = events_of(base, similar, recommended, details);
    let after_base = events.drop_first();
    let after_similar = after_base.drop_first();
    let after_lists = after_similar.drop_first();
    assert(after_lists =~= detail_events(details));
    reveal_with_fuel(run, 4);
    if base is Ok && similar is Ok && recommended is Ok {
        if details.len() > 0 {
            lemma_details_phase(base->Ok_0, Seq::empty(), details);
        }
    }
}

/// A request for a movie that the provider does not know fails with the
/// provider's error, whatever else is handed in.
pub proof fn lemma_unknown_base_fails(movie_id: u64, error: ErrorView, later: Seq<EventView>)
    ensures
        run(
            RequestView::AwaitingBase { movie_id },
            seq![EventView::Base(Err(error))] + later,
        ) == Some(ActionView::Fail(error)),
{
}

/// The answer is a ranking: at most [`MAX_RESULTS`] recommendations, with
/// scores that never rise and never pass the highest score.
pub open spec fn is_ranking(answer: RecommendationsView) -> bool {
    &&& answer.results.len() <= MAX_RESULTS
    &&& is_descending(answer.results)
    &&& forall|i: int|
        0 <= i < answer.results.len() ==> (#[trigger] answer.results[i]).similarity_score
            <= MAX_SCORE
}

/// The action is the one that a request in this state has asked for.
pub open spec fn asks_for(state: RequestView, action: ActionView) -> bool {
    match state {
        RequestView::AwaitingBase { movie_id } => action == ActionView::FetchBase(movie_id),
        RequestView::AwaitingSimilar { movie_id, .. } => action == ActionView::FetchSimilar(
            movie_id,
        ),
        RequestView::AwaitingRecommended { movie_id, .. } => action
            == ActionView::FetchRecommended(movie_id),
        RequestView::AwaitingDetails { pending, .. } => {
            &&& 1 <= pending <= MAX_CANDIDATES
            &&& match action {
                ActionView::FetchDetails(ids) => ids.len() == pending,
                ActionView::AwaitDetail => true,
                _ => false,
            }
        },
        RequestView::Finished => match action {
            ActionView::Respond(answer) => is_ranking(answer),
            ActionView::Fail(_) => true,
            _ => false,
        },
    }
}

/// The event is the outcome of the lookup that a request in this state waits
/// for.
pub open spec fn answers(state: RequestView, event: EventView) -> bool {
    match state {
        RequestView::AwaitingBase { .. } => event is Base,
        RequestView::AwaitingSimilar { .. } => event is Similar,
        RequestView::AwaitingRecommended { .. } => event is Recommended,
        RequestView::AwaitingDetails { .. } => event is Detail,
        RequestView::Finished => false,
    }
}

/// How many lookups a request can still wait for, at most.
pub open spec fn lookups_left(state: RequestView) -> nat {
    match state {
        RequestView::AwaitingBase { .. } => (MAX_CANDIDATES + 3) as nat,
        RequestView::AwaitingSimilar { .. } => (MAX_CANDIDATES + 2) as nat,
        RequestView::AwaitingRecommended { .. } => (MAX_CANDIDATES + 1) as nat,
        RequestView::AwaitingDetails { pending, .. } => pending,
        RequestView::Finished => 0,
    }
}

/// Handed the outcome of the lookup that it asked for, a request comes
/// nearer to its end and asks for the lookup that its new state waits for:
/// it never asks for more than [`MAX_CANDIDATES`] details, after the first
/// outcome of a candidate's lookup it only awaits the next, and an answer
/// that it gives is a ranking.
pub proof fn lemma_next_keeps_course(state: RequestView, action: ActionView, event: EventView)
    requires
        asks_for(state, action),
        answers(state, event),
    ensures
        asks_for(next(state, event).0, next(state, event).1),
        lookups_left(next(state, event).0) < lookups_left(state),
        state is AwaitingDetails && next(state, event).0 is AwaitingDetails ==> next(
            state,
            event,
        ).1 is AwaitDetail,
{
    match (state, event) {
        (
            RequestView::AwaitingRecommended { movie_id, base, similar },
            EventView::Recommended(Ok(recommended)),
        ) => {
            lemma_candidates_distinct(movie_id, similar, recommended);
            lemma_ranked_is_bounded_and_descending(base, Seq::empty());
        },
        (
            RequestView::AwaitingDetails { base, pending, found },
            EventView::Detail(Ok(details)),
        ) => {
            lemma_ranked_is_bounded_and_descending(base, found.push(details));
        },
        (RequestView::AwaitingDetails { base, pending, found }, EventView::Detail(Err(error))) => {
            lemma_ranked_is_bounded_and_descending(base, found);
        },
        _ => {},
    }
}

} // verus!
