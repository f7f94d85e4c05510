//! What the service answers: the decisions behind each of its endpoints,
//! without the transport.
//!
//! Each function takes what a request carried as plain values and returns
//! what the response is to carry, or the error that the response is to
//! report.

use vstd::prelude::*;

use crate::aggregate::candidate_ids;
use crate::engine::{
    asks_for, ending, is_ranking, lemma_next_keeps_course, list_view, lookups_left, outcome_of,
    Action, ActionView, Event, RecommendationRequest, Recommendations, RecommendationsView,
    RequestView,
};
use crate::error::{status_of, AppError, ErrorKind, ErrorView};
use crate::model::{
    genre_views, movie_ids, search_views, text_of, CastMember, CastMemberView, Genre, GenreView,
    MovieDetails, MovieDetailsView, SearchMovie, SearchMovieView,
};
use crate::enrich::{first_fatal, found, outcome_view};
use crate::provider::{list_outcome_view, MovieProvider};
use crate::text::{text_or, trim, trimmed};

verus! {

/// The answer of the health check.
#[derive(Debug, Clone, PartialEq, Eq)]
pub struct HealthResponse {
    pub status: &'static str,
    pub service: &'static str,
}

/// The health check: the service is up.
pub fn health() -> (response: HealthResponse)
    ensures
        response.status@ == "ok"@,
        response.service@ == "themeflick-api"@,
{
    HealthResponse { status: "ok", service: "themeflick-api" }
}

/// What the body of a failed response carries.
#[derive(Debug, Clone, PartialEq, Eq)]
pub struct ErrorBody {
    pub code: String,
    pub message: String,
}

/// The status and the body of the response that reports `error`.
pub fn error_response(error: AppError) -> (response: (u16, ErrorBody))
    ensures
        response.0 == status_of(error@.kind),
        response.1.code@ == error@.code,
        response.1.message@ == error@.message,
{
    let status = error.status_code();
    let body = match error {
        AppError::BadRequest { code, message } => ErrorBody { code, message },
        AppError::NotFound { code, message } => ErrorBody { code, message },
        AppError::Unauthorized { code, message } => ErrorBody { code, message },
        AppError::Upstream { code, message } => ErrorBody { code, message },
        AppError::Internal { code, message } => ErrorBody { code, message },
    };
    (status, body)
}

/// The error of a search without a title.
pub open spec fn invalid_query() -> ErrorView {
    ErrorView {
        kind: ErrorKind::BadRequest,
        code: "INVALID_QUERY"@,
        message: "Query parameter is required"@,
    }
}

/// The title that a search looks for: the query without the white space
/// around it. A search without a query, or with one that is empty or all
/// white space, is refused.
pub open spec fn title_of(query: Option<Seq<char>>) -> Result<Seq<char>, ErrorView> {
    match query {
        Some(q) => if trimmed(q).len() > 0 {
            Ok(trimmed(q))
        } else {
            Err(invalid_query())
        },
        None => Err(invalid_query()),
    }
}

/// The characters of an optional query.
pub open spec fn query_view(query: Option<&str>) -> Option<Seq<char>> {
    match query {
        Some(q) => Some(q@),
        None => None,
    }
}

/// The title that a search with this query parameter looks for.
pub fn search_title<'a>(query: Option<&'a str>) -> (title: Result<&'a str, AppError>)
    ensures
        match title_of(query_view(query)) {
            Ok(t) => title is Ok && title->Ok_0@ == t,
            Err(error) => title is Err && title->Err_0@ == error,
        },
{
    match query {
        Some(q) => {
            let title = trim(q);
            if title.unicode_len() > 0 {
                return Ok(title);
            }
        },
        None => {},
    }
    Err(AppError::bad_request("INVALID_QUERY", "Query parameter is required"))
}

/// Searches `provider` for the movies whose title matches the query.
///
/// A query that [`title_of`] refuses fails with its error and the provider is
/// not asked; else the result is what the provider returns for the title.
pub fn search_movies<P: MovieProvider>(provider: &P, query: Option<&str>) -> (found: Result<
    Vec<SearchMovie>,
    AppError,
>)
    ensures
        title_of(query_view(query)) is Err ==> found is Err && found->Err_0@ == invalid_query(),
{
    match search_title(query) {
        Ok(title) => provider.search_movies(title),
        Err(error) => Err(error),
    }
}

/// A member of the cast as a details response names it.
#[derive(Debug, Clone, PartialEq, Eq)]
pub struct MovieDetailsCastResponse {
    pub id: u64,
    pub name: String,
    pub character: String,
}

/// The mathematical value of a [`MovieDetailsCastResponse`].
pub struct MovieDetailsCastView {
    pub id: u64,
    pub name: Seq<char>,
    pub character: Seq<char>,
}

impl View for MovieDetailsCastResponse {
    type V = MovieDetailsCastView;

    open spec fn view(&self) -> MovieDetailsCastView {
        MovieDetailsCastView { id: self.id, name: self.name@, character: self.character@ }
    }
}

/// A movie as a details response names it.
#[derive(Debug, Clone, PartialEq, Eq)]
pub struct MovieDetailsResponse {
    pub id: u64,
    pub title: String,
    pub overview: String,
    pub release_date: Option<String>,
    pub runtime: Option<u32>,
    pub genres: Vec<Genre>,
    pub poster_path: Option<String>,
    pub backdrop_path: Option<String>,
    /// In thousandths of a rating point.
    pub vote_average_milli: u32,
    pub director: String,
    pub cast: Vec<MovieDetailsCastResponse>,
}

/// The mathematical value of a [`MovieDetailsResponse`].
pub struct MovieDetailsResponseView {
    pub id: u64,
    pub title: Seq<char>,
    pub overview: Seq<char>,
    pub release_date: Option<Seq<char>>,
    pub runtime: Option<u32>,
    pub genres: Seq<GenreView>,
    pub poster_path: Option<Seq<char>>,
    pub backdrop_path: Option<Seq<char>>,
    pub vote_average_milli: u32,
    pub director: Seq<char>,
    pub cast: Seq<MovieDetailsCastView>,
}

/// The values of a cast list of a response, in order.
pub open spec fn shown_cast_views(cast: Seq<MovieDetailsCastResponse>) -> Seq<
    MovieDetailsCastView,
> {
    cast.map_values(|m: MovieDetailsCastResponse| m@)
}

impl View for MovieDetailsResponse {
    type V = MovieDetailsResponseView;

    open spec fn view(&self) -> MovieDetailsResponseView {
        MovieDetailsResponseView {
            id: self.id,
            title: self.title@,
            overview: self.overview@,
            release_date: text_of(self.release_date),
            runtime: self.runtime,
            genres: genre_views(self.genres@),
            poster_path: text_of(self.poster_path),
            backdrop_path: text_of(self.backdrop_path),
            vote_average_milli: self.vote_average_milli,
            director: self.director@,
            cast: shown_cast_views(self.cast@),
        }
    }
}

/// The text, or `fallback` where there is none.
pub open spec fn or_text(text: Option<Seq<char>>, fallback: Seq<char>) -> Seq<char> {
    match text {
        Some(t) => t,
        None => fallback,
    }
}

/// A member of the cast as a response names it: a character that is not
/// known reads `Unknown`.
pub open spec fn shown_member(member: CastMemberView) -> MovieDetailsCastView {
    MovieDetailsCastView {
        id: member.id,
        name: member.name,
        character: or_text(member.character, "Unknown"@),
    }
}

/// A movie as a response names it: an overview that is not known is empty, a
/// director that is not known reads `Unknown`, and so does a character.
pub open spec fn shown(details: MovieDetailsView) -> MovieDetailsResponseView {
    MovieDetailsResponseView {
        id: details.id,
        title: details.title,
        overview: or_text(details.overview, Seq::empty()),
        release_date: details.release_date,
        runtime: details.runtime,
        genres: details.genres,
        poster_path: details.poster_path,
        backdrop_path: details.backdrop_path,
        vote_average_milli: details.vote_average_milli,
        director: or_text(details.director, "Unknown"@),
        cast: details.cast.map_values(|m: CastMemberView| shown_member(m)),
    }
}

/// The cast as a response names it.
fn shown_cast(cast: Vec<CastMember>) -> (shown: Vec<MovieDetailsCastResponse>)
    ensures
        shown_cast_views(shown@) == cast@.map_values(|m: CastMember| shown_member(m@)),
{
    let ghost all = cast@.map_values(|m: CastMember| shown_member(m@));
    let mut shown: Vec<MovieDetailsCastResponse> = Vec::new();
    for member in it: cast
        invariant
            all == it.seq().map_values(|m: CastMember| shown_member(m@)),
            shown_cast_views(shown@) == all.take(it.index() as int),
    {
        let entry = MovieDetailsCastResponse {
            id: member.id,
            name: member.name,
            character: text_or(member.character, "Unknown"),
        };
        proof {
            assert(all.take(it.index() + 1) =~= all.take(it.index() as int).push(
                shown_member(member@),
            ));
        }
        shown.push(entry);
    }
    shown
}

/// The movie as a details response names it.
pub fn details_response(details: MovieDetails) -> (response: MovieDetailsResponse)
    ensures
        response@ == shown(details@),
{
    let ghost cast = details.cast@;
    let shown_members = shown_cast(details.cast);
    proof {
        assert(cast.map_values(|m: CastMember| shown_member(m@)) =~= details@.cast.map_values(
            |m: CastMemberView| shown_member(m),
        ));
        assert("".view() =~= Seq::<char>::empty()) by {
            reveal_strlit("");
        }
    }
    MovieDetailsResponse {
        id: details.id,
        title: details.title,
        overview: text_or(details.overview, ""),
        release_date: details.release_date,
        runtime: details.runtime,
        genres: details.genres,
        poster_path: details.poster_path,
        backdrop_path: details.backdrop_path,
        vote_average_milli: details.vote_average_milli,
        director: text_or(details.director, "Unknown"),
        cast: shown_members,
    }
}

/// What a details request comes to, given the outcome of the movie's lookup:
/// the movie as a response names it, or the error of the lookup.
pub open spec fn details_answer(outcome: Result<MovieDetailsView, ErrorView>) -> Result<
    MovieDetailsResponseView,
    ErrorView,
> {
    match outcome {
        Ok(details) => Ok(shown(details)),
        Err(error) => Err(error),
    }
}

/// The value of a details response or of the error in its place.
pub open spec fn details_answer_view(response: Result<MovieDetailsResponse, AppError>) -> Result<
    MovieDetailsResponseView,
    ErrorView,
> {
    match response {
        Ok(movie) => Ok(movie@),
        Err(error) => Err(error@),
    }
}

/// What a details request comes to, given the outcome of the movie's lookup:
/// the movie as a response names it, or the error of the lookup.
pub fn details_outcome(outcome: Result<MovieDetails, AppError>) -> (response: Result<
    MovieDetailsResponse,
    AppError,
>)
    ensures
        details_answer_view(response) == details_answer(outcome_view(outcome)),
        outcome is Err ==> response == Err::<MovieDetailsResponse, AppError>(outcome->Err_0),
{
    match outcome {
        Ok(details) => Ok(details_response(details)),
        Err(error) => Err(error),
    }
}

/// Looks up the movie `movie_id` in `provider` and returns what
/// [`details_answer`] makes of the outcome: the movie that the provider gave
/// for this id as a response names it, or the error that the provider gave
/// for this id.
pub fn movie_details<P: MovieProvider>(provider: &P, movie_id: u64) -> (response: Result<
    MovieDetailsResponse,
    AppError,
>)
    ensures
        exists|outcome: Result<MovieDetailsView, ErrorView>| #[trigger]
            provider.may_give_details(movie_id, outcome) && details_answer_view(response)
                == details_answer(outcome),
{
    details_outcome(provider.movie_details(movie_id))
}

/// What the lookups of one recommendation request brought.
pub struct Lookups {
    /// The outcome of the base movie's detail lookup.
    pub base: Result<MovieDetailsView, ErrorView>,
    /// The outcome of the lookup of similar movies.
    pub similar: Result<Seq<SearchMovieView>, ErrorView>,
    /// The outcome of the lookup of recommended movies.
    pub recommended: Result<Seq<SearchMovieView>, ErrorView>,
    /// The outcomes of the candidates' detail lookups, in the order of the
    /// candidate sequence.
    pub details: Seq<Result<MovieDetailsView, ErrorView>>,
}

/// The ids of the movies that a list lookup named, or its error.
pub open spec fn listed_ids(outcome: Result<Seq<SearchMovieView>, ErrorView>) -> Result<
    Seq<u64>,
    ErrorView,
> {
    match outcome {
        Ok(movies) => Ok(movies.map_values(|m: SearchMovieView| m.id)),
        Err(error) => Err(error),
    }
}

/// The candidates of a request for the movie `movie_id` whose list lookups
/// succeeded.
pub open spec fn candidates_of(movie_id: u64, lookups: Lookups) -> Seq<u64> {
    candidate_ids(
        movie_id,
        listed_ids(lookups.similar)->Ok_0,
        listed_ids(lookups.recommended)->Ok_0,
    )
}

/// The lookups are those that a request for the movie `movie_id` makes of
/// `provider`, one after the other, and their outcomes are such as the
/// provider can give: the details of the movie; if they are found, the movies
/// similar to it; if that succeeds, the movies recommended with it; if that
/// succeeds, the details of the candidates in their order, each of them
/// unless a lookup before it failed with anything but `NotFound`.
pub open spec fn made_of<P: MovieProvider>(provider: &P, movie_id: u64, lookups: Lookups) -> bool {
    &&& provider.may_give_details(movie_id, lookups.base)
    &&& lookups.base is Ok ==> provider.may_list_similar(movie_id, lookups.similar)
    &&& lookups.base is Ok && lookups.similar is Ok ==> provider.may_list_recommended(
        movie_id,
        lookups.recommended,
    )
    &&& lookups.base is Ok && lookups.similar is Ok && lookups.recommended is Ok ==> {
        &&& lookups.details.len() <= candidates_of(movie_id, lookups).len()
        &&& forall|k: int|
            0 <= k < lookups.details.len() ==> provider.may_give_details(
                candidates_of(movie_id, lookups)[k],
                #[trigger] lookups.details[k],
            )
        &&& lookups.details.len() < candidates_of(movie_id, lookups).len() ==> first_fatal(
            lookups.details,
        ) is Some
        &&& lookups.details.len() > 0 ==> first_fatal(lookups.details.drop_last()) is None
    }
}

/// What a request comes to, given what its lookups brought.
pub open spec fn answer_to(lookups: Lookups) -> Result<RecommendationsView, ErrorView> {
    outcome_of(
        lookups.base,
        listed_ids(lookups.similar),
        listed_ids(lookups.recommended),
        lookups.details,
    )
}

/// The value of the answer to a request or of the error in its place.
pub open spec fn answer_view(result: Result<Recommendations, AppError>) -> Result<
    RecommendationsView,
    ErrorView,
> {
    match result {
        Ok(answer) => Ok(answer@),
        Err(error) => Err(error@),
    }
}

/// A request under way has taken in the lookups made so far, and its next
/// action is the next lookup. `candidates` holds the candidates once their
/// lookups have begun, and `looked_up` says how many of them are made.
pub open spec fn on_course<P: MovieProvider>(
    provider: &P,
    movie_id: u64,
    state: RequestView,
    action: ActionView,
    lookups: Lookups,
    candidates: Seq<u64>,
    looked_up: int,
) -> bool {
    match state {
        RequestView::AwaitingBase { movie_id: id } => id == movie_id,
        RequestView::AwaitingSimilar { movie_id: id, base } => {
            &&& id == movie_id
            &&& lookups.base == Ok::<MovieDetailsView, ErrorView>(base)
            &&& provider.may_give_details(movie_id, lookups.base)
        },
        RequestView::AwaitingRecommended { movie_id: id, base, similar } => {
            &&& id == movie_id
            &&& lookups.base == Ok::<MovieDetailsView, ErrorView>(base)
            &&& provider.may_give_details(movie_id, lookups.base)
            &&& listed_ids(lookups.similar) == Ok::<Seq<u64>, ErrorView>(similar)
            &&& provider.may_list_similar(movie_id, lookups.similar)
        },
        RequestView::AwaitingDetails { base, pending, found: so_far } => {
            &&& lookups.base == Ok::<MovieDetailsView, ErrorView>(base)
            &&& lookups.similar is Ok
            &&& lookups.recommended is Ok
            &&& provider.may_give_details(movie_id, lookups.base)
            &&& provider.may_list_similar(movie_id, lookups.similar)
            &&& provider.may_list_recommended(movie_id, lookups.recommended)
            &&& lookups.details.len() + pending == candidates_of(movie_id, lookups).len()
            &&& so_far == found(lookups.details)
            &&& first_fatal(lookups.details) is None
            &&& forall|k: int|
                0 <= k < lookups.details.len() ==> provider.may_give_details(
                    candidates_of(movie_id, lookups)[k],
                    #[trigger] lookups.details[k],
                )
            &&& match action {
                ActionView::FetchDetails(ids) => ids == candidates_of(movie_id, lookups)
                    && lookups.details.len() == 0,
                ActionView::AwaitDetail => candidates == candidates_of(movie_id, lookups)
                    && looked_up == lookups.details.len(),
                _ => false,
            }
        },
        RequestView::Finished => {
            &&& made_of(provider, movie_id, lookups)
            &&& action == ending(answer_to(lookups))
        },
    }
}

/// Serves one recommendation request from `provider`, one lookup after the
/// other; the candidates' details are looked up in the order of the candidate
/// sequence.
///
/// The result is what [`answer_to`] makes of the lookups: the error of the
/// base movie's lookup or of a list lookup, or the first error of a
/// candidate's lookup that is not `NotFound`, or else the ranking of the
/// candidates that were found.
pub fn movie_recommendations<P: MovieProvider>(provider: &P, movie_id: u64) -> (result: Result<
    Recommendations,
    AppError,
>)
    ensures
        exists|lookups: Lookups| #[trigger]
            made_of(provider, movie_id, lookups) && answer_view(result) == answer_to(lookups),
        result is Ok ==> is_ranking(result->Ok_0@),
{
    let (mut request, mut action) = RecommendationRequest::start(movie_id);
    let mut candidates: Vec<u64> = Vec::new();
    let mut looked_up: usize = 0;
    let ghost mut lookups: Lookups = arbitrary();
    loop
        invariant
            asks_for(request@, action@),
            on_course(
                provider,
                movie_id,
                request@,
                action@,
                lookups,
                candidates@,
                looked_up as int,
            ),
        decreases lookups_left(request@),
    {
        let ghost state = request@;
        let ghost asked = action@;
        let ghost before = lookups;
        let event = match action {
            Action::FetchBase(id) => {
                let outcome = provider.movie_details(id);
                proof {
                    lookups = Lookups { base: outcome_view(outcome), ..lookups };
                }
                Event::Base(outcome)
            },
            Action::FetchSimilar(id) => {
                let outcome = provider.similar_movies(id);
                proof {
                    lookups = Lookups { similar: list_outcome_view(outcome), ..lookups };
                    lemma_listed_ids(outcome);
                }
                Event::Similar(outcome)
            },
            Action::FetchRecommended(id) => {
                let outcome = provider.recommended_movies(id);
                proof {
                    lookups =
                    Lookups {
                        recommended: list_outcome_view(outcome),
                        details: Seq::empty(),
                        ..lookups
                    };
                    lemma_listed_ids(outcome);
                }
                Event::Recommended(outcome)
            },
            Action::FetchDetails(ids) => {
                candidates = ids;
                looked_up = 1;
                let outcome = provider.movie_details(candidates[0]);
                proof {
                    lookups =
                    Lookups { details: lookups.details.push(outcome_view(outcome)), ..lookups };
                }
                Event::Detail(outcome)
            },
            Action::AwaitDetail => {
                let id = candidates[looked_up];
                looked_up += 1;
                let outcome = provider.movie_details(id);
                proof {
                    lookups =
                    Lookups { details: lookups.details.push(outcome_view(outcome)), ..lookups };
                }
                Event::Detail(outcome)
            },
            Action::Respond(answer) => {
                return Ok(answer);
            },
            Action::Fail(error) => {
                return Err(error);
            },
        };
        proof {
            lemma_next_keeps_course(state, asked, event@);
            if state is AwaitingDetails {
                assert(lookups.details.drop_last() =~= before.details);
            }
        }
        let then = request.step(event);
        request = then.0;
        action = then.1;
    }
}

/// The ids that the engine reads of a list lookup's outcome are those of the
/// movies that the outcome names.
pub proof fn lemma_listed_ids(outcome: Result<Vec<SearchMovie>, AppError>)
    ensures
        list_view(outcome) == listed_ids(list_outcome_view(outcome)),
{
    if let Ok(movies) = outcome {
        assert(movie_ids(movies@) =~= search_views(movies@).map_values(|m: SearchMovieView| m.id));
    }
}

} // verus!
