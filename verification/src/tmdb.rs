//! The TMDB side of a provider: which request stands for a lookup, what a
//! reply's status means, and how a reply's body becomes a movie.
//!
//! Nothing here sends anything. A [`TmdbRequest`] names the URL, the
//! credentials and the query parameters of a `GET` request; whoever sends it
//! hands back the status and the decoded body.

use vstd::prelude::*;
use vstd::string::StringExecFns;

use crate::error::{AppError, ErrorKind, ErrorView};
use crate::model::{
    cast_views, genre_views, search_views, text_of, CastMember, CastMemberView, Genre,
    MovieDetails, MovieDetailsView, SearchMovie, SearchMovieView,
};
use crate::text::{
    decimal, decimal_text, slash, trim_end_slashes, trim_start_slashes, without_leading,
    without_trailing,
};

verus! {

/// The address and the credentials of a TMDB API.
#[derive(Debug, Clone)]
pub struct TmdbProvider {
    base_url: String,
    access_token: Option<String>,
    api_key: Option<String>,
}

/// The mathematical value of a [`TmdbProvider`].
pub struct TmdbProviderView {
    pub base_url: Seq<char>,
    pub access_token: Option<Seq<char>>,
    pub api_key: Option<Seq<char>>,
}

impl View for TmdbProvider {
    type V = TmdbProviderView;

    closed spec fn view(&self) -> TmdbProviderView {
        TmdbProviderView {
            base_url: self.base_url@,
            access_token: text_of(self.access_token),
            api_key: text_of(self.api_key),
        }
    }
}

/// A `GET` request to the TMDB API.
#[derive(Debug, Clone, PartialEq, Eq)]
pub struct TmdbRequest {
    pub url: String,
    /// The value of the `accept` header.
    pub accept: String,
    /// The token of the `Authorization: Bearer` header, where there is one.
    pub bearer_token: Option<String>,
    /// The query parameters, in order.
    pub query: Vec<(String, String)>,
}

/// The mathematical value of a [`TmdbRequest`].
pub struct TmdbRequestView {
    pub url: Seq<char>,
    pub accept: Seq<char>,
    pub bearer_token: Option<Seq<char>>,
    pub query: Seq<(Seq<char>, Seq<char>)>,
}

/// The values of a list of query parameters, in order.
pub open spec fn query_views(query: Seq<(String, String)>) -> Seq<(Seq<char>, Seq<char>)> {
    query.map_values(|p: (String, String)| (p.0@, p.1@))
}

impl View for TmdbRequest {
    type V = TmdbRequestView;

    open spec fn view(&self) -> TmdbRequestView {
        TmdbRequestView {
            url: self.url@,
            accept: self.accept@,
            bearer_token: text_of(self.bearer_token),
            query: query_views(self.query@),
        }
    }
}

/// The URL of `path` under `base_url`: the two joined by one slash, whatever
/// slashes `base_url` ends in and `path` starts with.
pub open spec fn url_of(base_url: Seq<char>, path: Seq<char>) -> Seq<char> {
    without_trailing(base_url, slash()) + seq!['/'] + without_leading(path, slash())
}

/// The query parameters that carry the credentials: the API key, where there
/// is one and no access token.
pub open spec fn key_query(provider: TmdbProviderView) -> Seq<(Seq<char>, Seq<char>)> {
    if provider.access_token is None && provider.api_key is Some {
        seq![("api_key"@, provider.api_key->0)]
    } else {
        Seq::empty()
    }
}

/// The request for `path` with the provider's credentials and the further
/// query parameters `more`.
pub open spec fn request_of(
    provider: TmdbProviderView,
    path: Seq<char>,
    more: Seq<(Seq<char>, Seq<char>)>,
) -> TmdbRequestView {
    TmdbRequestView {
        url: url_of(provider.base_url, path),
        accept: "application/json"@,
        bearer_token: provider.access_token,
        query: key_query(provider) + more,
    }
}

/// The provider has an access token or an API key.
pub open spec fn has_credentials(provider: TmdbProviderView) -> bool {
    provider.access_token is Some || provider.api_key is Some
}

/// The error of a lookup that is tried without credentials.
pub open spec fn auth_missing() -> ErrorView {
    ErrorView {
        kind: ErrorKind::Unauthorized,
        code: "TMDB_AUTH_MISSING"@,
        message: "TMDB credentials are missing"@,
    }
}

/// The request that stands for a lookup with the given path and parameters,
/// or the error where the provider has no credentials.
pub open spec fn lookup_of(
    provider: TmdbProviderView,
    path: Seq<char>,
    more: Seq<(Seq<char>, Seq<char>)>,
) -> Result<TmdbRequestView, ErrorView> {
    if has_credentials(provider) {
        Ok(request_of(provider, path, more))
    } else {
        Err(auth_missing())
    }
}

/// The value of a request or the error in its place.
pub open spec fn lookup_view(lookup: Result<TmdbRequest, AppError>) -> Result<
    TmdbRequestView,
    ErrorView,
> {
    match lookup {
        Ok(request) => Ok(request@),
        Err(error) => Err(error@),
    }
}

/// The path of a movie's details.
pub open spec fn movie_path(movie_id: u64) -> Seq<char> {
    "/movie/"@ + decimal(movie_id as nat)
}

/// One query parameter.
fn parameter(name: &str, value: &str) -> (p: (String, String))
    ensures
        p.0@ == name@,
        p.1@ == value@,
{
    (String::from_str(name), String::from_str(value))
}

/// A copy of an optional text.
fn copy_of(text: &Option<String>) -> (copy: Option<String>)
    ensures
        text_of(copy) == text_of(*text),
{
    match text {
        Some(t) => Some(t.clone()),
        None => None,
    }
}

impl TmdbProvider {
    /// A provider for the API at `base_url`, with an access token, an API key,
    /// both or neither.
    pub fn new(base_url: String, access_token: Option<String>, api_key: Option<String>) -> (p:
        Self)
        ensures
            p@ == (TmdbProviderView {
                base_url: base_url@,
                access_token: text_of(access_token),
                api_key: text_of(api_key),
            }),
    {
        TmdbProvider { base_url, access_token, api_key }
    }

    /// Fails where the provider has neither an access token nor an API key.
    pub fn ensure_auth_configured(&self) -> (checked: Result<(), AppError>)
        ensures
            has_credentials(self@) ==> checked is Ok,
            !has_credentials(self@) ==> checked is Err && checked->Err_0@ == auth_missing(),
    {
        if self.access_token.is_none() && self.api_key.is_none() {
            return Err(AppError::unauthorized("TMDB_AUTH_MISSING", "TMDB credentials are missing"));
        }
        Ok(())
    }

    /// The request for `path`: its URL under the provider's base URL, JSON
    /// asked for, and the credentials: the access token as bearer token where
    /// there is one, else the API key as the query parameter `api_key`.
    pub fn get(&self, path: &str) -> (request: TmdbRequest)
        ensures
            request@ == request_of(self@, path@, Seq::empty()),
    {
        let url = String::from_str(trim_end_slashes(self.base_url.as_str()));
        let url = url.concat("/");
        let url = url.concat(trim_start_slashes(path));
        let mut query: Vec<(String, String)> = Vec::new();
        if self.access_token.is_none() {
            if let Some(api_key) = &self.api_key {
                query.push(parameter("api_key", api_key.as_str()));
            }
        }
        proof {
            reveal_strlit("/");
            assert("/"@ =~= seq!['/']);
            assert(query_views(query@) =~= key_query(self@));
        }
        TmdbRequest {
            url,
            accept: String::from_str("application/json"),
            bearer_token: copy_of(&self.access_token),
            query,
        }
    }

    /// The request for `path` with the further query parameters `more`, or
    /// the error where the provider has no credentials.
    fn lookup(&self, path: &str, more: Vec<(String, String)>) -> (lookup: Result<
        TmdbRequest,
        AppError,
    >)
        ensures
            lookup_view(lookup) == lookup_of(self@, path@, query_views(more@)),
    {
        match self.ensure_auth_configured() {
            Err(error) => Err(error),
            Ok(()) => {
                let mut request = self.get(path);
                let mut more = more;
                proof {
                    assert(query_views(request.query@ + more@) =~= query_views(request.query@)
                        + query_views(more@));
                }
                request.query.append(&mut more);
                Ok(request)
            },
        }
    }

    /// The request that looks up the movies whose title matches `query`.
    pub fn search_request(&self, query: &str) -> (lookup: Result<TmdbRequest, AppError>)
        ensures
            lookup_view(lookup) == lookup_of(
                self@,
                "/search/movie"@,
                seq![
                    ("query"@, query@),
                    ("include_adult"@, "false"@),
                    ("language"@, "en-US"@),
                ],
            ),
    {
        let mut more: Vec<(String, String)> = Vec::new();
        more.push(parameter("query", query));
        more.push(parameter("include_adult", "false"));
        more.push(parameter("language", "en-US"));
        assert(query_views(more@) =~= seq![
            ("query"@, query@),
            ("include_adult"@, "false"@),
            ("language"@, "en-US"@),
        ]);
        self.lookup("/search/movie", more)
    }

    /// The request that looks up the details of the movie `movie_id`, with
    /// its credits.
    pub fn details_request(&self, movie_id: u64) -> (lookup: Result<TmdbRequest, AppError>)
        ensures
            lookup_view(lookup) == lookup_of(
                self@,
                movie_path(movie_id),
                seq![("append_to_response"@, "credits,keywords"@), ("language"@, "en-US"@)],
            ),
    {
        let path = String::from_str("/movie/").concat(decimal_text(movie_id).as_str());
        let mut more: Vec<(String, String)> = Vec::new();
        more.push(parameter("append_to_response", "credits,keywords"));
        more.push(parameter("language", "en-US"));
        assert(query_views(more@) =~= seq![
            ("append_to_response"@, "credits,keywords"@),
            ("language"@, "en-US"@),
        ]);
        self.lookup(path.as_str(), more)
    }

    /// The request that looks up the first page of the movies similar to the
    /// movie `movie_id`.
    pub fn similar_request(&self, movie_id: u64) -> (lookup: Result<TmdbRequest, AppError>)
        ensures
            lookup_view(lookup) == lookup_of(
                self@,
                movie_path(movie_id) + "/similar"@,
                seq![("language"@, "en-US"@), ("page"@, "1"@)],
            ),
    {
        let path = String::from_str("/movie/").concat(decimal_text(movie_id).as_str());
        let path = path.concat("/similar");
        self.lookup(path.as_str(), Self::first_page())
    }

    /// The request that looks up the first page of the movies recommended
    /// with the movie `movie_id`.
    pub fn recommended_request(&self, movie_id: u64) -> (lookup: Result<TmdbRequest, AppError>)
        ensures
            lookup_view(lookup) == lookup_of(
                self@,
                movie_path(movie_id) + "/recommendations"@,
                seq![("language"@, "en-US"@), ("page"@, "1"@)],
            ),
    {
        let path = String::from_str("/movie/").concat(decimal_text(movie_id).as_str());
        let path = path.concat("/recommendations");
        self.lookup(path.as_str(), Self::first_page())
    }

    /// The query parameters of a list lookup.
    fn first_page() -> (more: Vec<(String, String)>)
        ensures
            query_views(more@) == seq![("language"@, "en-US"@), ("page"@, "1"@)],
    {
        let mut more: Vec<(String, String)> = Vec::new();
        more.push(parameter("language", "en-US"));
        more.push(parameter("page", "1"));
        more
    }
}

/// The error of a request that could not be sent.
pub open spec fn request_failed() -> ErrorView {
    ErrorView {
        kind: ErrorKind::Upstream,
        code: "TMDB_REQUEST_FAILED"@,
        message: "Failed to send request to TMDB"@,
    }
}

/// The error of a reply whose body could not be decoded.
pub open spec fn decode_failed() -> ErrorView {
    ErrorView {
        kind: ErrorKind::Upstream,
        code: "TMDB_DECODE_FAILED"@,
        message: "Failed to decode TMDB response"@,
    }
}

/// The error that a reply's status stands for, or `None` for the status 200,
/// whose body is to be decoded: `NotFound` for 404, `Unauthorized` for 401
/// and 403, `Upstream` for every other status.
pub open spec fn status_error(status: u16) -> Option<ErrorView> {
    if status == 200 {
        None
    } else if status == 404 {
        Some(
            ErrorView {
                kind: ErrorKind::NotFound,
                code: "MOVIE_NOT_FOUND"@,
                message: "Movie not found"@,
            },
        )
    } else if status == 401 || status == 403 {
        Some(
            ErrorView {
                kind: ErrorKind::Unauthorized,
                code: "TMDB_UNAUTHORIZED"@,
                message: "TMDB credentials are invalid"@,
            },
        )
    } else {
        Some(
            ErrorView {
                kind: ErrorKind::Upstream,
                code: "TMDB_UPSTREAM_ERROR"@,
                message: "TMDB returned a non-success response"@,
            },
        )
    }
}

/// The error of a request that could not be sent.
pub fn send_error() -> (error: AppError)
    ensures
        error@ == request_failed(),
{
    AppError::upstream("TMDB_REQUEST_FAILED", "Failed to send request to TMDB")
}

/// The error of a reply whose body could not be decoded.
pub fn decode_error() -> (error: AppError)
    ensures
        error@ == decode_failed(),
{
    AppError::upstream("TMDB_DECODE_FAILED", "Failed to decode TMDB response")
}

/// What the status of a reply means: `Ok` for 200, whose body is to be
/// decoded, and for every other status the error that it stands for.
pub fn check_status(status: u16) -> (checked: Result<(), AppError>)
    ensures
        match status_error(status) {
            None => checked is Ok,
            Some(error) => checked is Err && checked->Err_0@ == error,
        },
{
    if status == 200 {
        Ok(())
    } else if status == 404 {
        Err(AppError::not_found("MOVIE_NOT_FOUND", "Movie not found"))
    } else if status == 401 || status == 403 {
        Err(AppError::unauthorized("TMDB_UNAUTHORIZED", "TMDB credentials are invalid"))
    } else {
        Err(AppError::upstream("TMDB_UPSTREAM_ERROR", "TMDB returned a non-success response"))
    }
}

/// A movie as TMDB lists it.
#[derive(Debug, Clone, PartialEq, Eq)]
pub struct TmdbListMovie {
    pub id: u64,
    pub title: String,
    pub release_date: Option<String>,
    pub poster_path: Option<String>,
    /// In thousandths of a rating point.
    pub vote_average_milli: Option<u32>,
}

/// The movie of a list as the engine holds it; a vote average that is not
/// given counts as zero.
pub open spec fn listed(item: TmdbListMovie) -> SearchMovieView {
    SearchMovieView {
        id: item.id,
        title: item.title@,
        release_date: text_of(item.release_date),
        poster_path: text_of(item.poster_path),
        vote_average_milli: match item.vote_average_milli {
            Some(v) => v,
            None => 0,
        },
    }
}

/// The movies of a list reply as the engine holds them, in order.
pub fn search_results(items: Vec<TmdbListMovie>) -> (movies: Vec<SearchMovie>)
    ensures
        search_views(movies@) == items@.map_values(|item: TmdbListMovie| listed(item)),
{
    let ghost all = items@.map_values(|item: TmdbListMovie| listed(item));
    let mut movies: Vec<SearchMovie> = Vec::new();
    for item in it: items
        invariant
            all == it.seq().map_values(|item: TmdbListMovie| listed(item)),
            search_views(movies@) == all.take(it.index() as int),
    {
        let movie = SearchMovie {
            id: item.id,
            title: item.title,
            release_date: item.release_date,
            poster_path: item.poster_path,
            vote_average_milli: match item.vote_average_milli {
                Some(v) => v,
                None => 0,
            },
        };
        proof {
            assert(search_views(movies@.push(movie)) =~= search_views(movies@).push(movie@));
        }
        movies.push(movie);
    }
    movies
}

/// A member of a movie's cast as TMDB names it.
#[derive(Debug, Clone, PartialEq, Eq)]
pub struct TmdbCast {
    pub id: u64,
    pub name: String,
    pub character: Option<String>,
}

/// A member of a movie's crew as TMDB names it.
#[derive(Debug, Clone, PartialEq, Eq)]
pub struct TmdbCrew {
    pub id: u64,
    pub name: String,
    pub job: Option<String>,
}

/// The credits of a movie as TMDB gives them.
#[derive(Debug, Clone, PartialEq, Eq)]
pub struct TmdbCredits {
    pub cast: Option<Vec<TmdbCast>>,
    pub crew: Option<Vec<TmdbCrew>>,
}

/// The details of a movie as TMDB gives them.
#[derive(Debug, Clone, PartialEq, Eq)]
pub struct TmdbMovieDetails {
    pub id: u64,
    pub title: String,
    pub overview: Option<String>,
    pub release_date: Option<String>,
    pub runtime: Option<u32>,
    pub genres: Option<Vec<Genre>>,
    pub poster_path: Option<String>,
    pub backdrop_path: Option<String>,
    /// In thousandths of a rating point.
    pub vote_average_milli: Option<u32>,
    pub credits: Option<TmdbCredits>,
}

/// How many members of the cast a movie's details name.
pub const CAST_SHOWN: usize = 10;

/// How many members of the cast a movie is compared by.
pub const CAST_COMPARED: usize = 5;

/// The first `n` items of a sequence, or all of them where it has fewer.
pub open spec fn first_n<T>(items: Seq<T>, n: int) -> Seq<T> {
    if items.len() <= n {
        items
    } else {
        items.take(n)
    }
}

/// The member of the crew has the job `Director`.
pub open spec fn is_director(member: TmdbCrew) -> bool {
    member.job is Some && member.job->0@ == "Director"@
}

/// The first member of the crew that has the job `Director`, if one has.
pub open spec fn first_director(crew: Seq<TmdbCrew>) -> Option<TmdbCrew>
    decreases crew.len(),
{
    if crew.len() == 0 {
        None
    } else if is_director(crew.first()) {
        Some(crew.first())
    } else {
        first_director(crew.drop_first())
    }
}

/// The crew that a reply names; none where it gives no credits or no crew.
pub open spec fn crew_of(response: TmdbMovieDetails) -> Seq<TmdbCrew> {
    match response.credits {
        Some(TmdbCredits { crew: Some(crew), .. }) => crew@,
        _ => Seq::empty(),
    }
}

/// The cast that a reply names; none where it gives no credits or no cast.
pub open spec fn cast_of(response: TmdbMovieDetails) -> Seq<TmdbCast> {
    match response.credits {
        Some(TmdbCredits { cast: Some(cast), .. }) => cast@,
        _ => Seq::empty(),
    }
}

/// The genres that a reply names; none where it gives no genres.
pub open spec fn genres_of(response: TmdbMovieDetails) -> Seq<Genre> {
    match response.genres {
        Some(genres) => genres@,
        None => Seq::empty(),
    }
}

/// A member of the cast as the engine holds it.
pub open spec fn member_of(member: TmdbCast) -> CastMemberView {
    CastMemberView { id: member.id, name: member.name@, character: text_of(member.character) }
}

/// The ids of a cast list, in order.
pub open spec fn cast_ids_of(cast: Seq<TmdbCast>) -> Seq<u64> {
    cast.map_values(|m: TmdbCast| m.id)
}

/// The ids of a list of genres, in order.
pub open spec fn genre_ids_of(genres: Seq<Genre>) -> Seq<u64> {
    genres.map_values(|g: Genre| g.id)
}

/// The movie of a details reply as the engine holds it. Its director is the
/// first member of the crew with the job `Director`; it names the first
/// [`CAST_SHOWN`] members of the cast and is compared by the ids of the first
/// [`CAST_COMPARED`] and by the ids of its genres. A vote average that is not
/// given counts as zero.
pub open spec fn details_of(response: TmdbMovieDetails) -> MovieDetailsView {
    let director = first_director(crew_of(response));
    MovieDetailsView {
        id: response.id,
        title: response.title@,
        overview: text_of(response.overview),
        release_date: text_of(response.release_date),
        runtime: response.runtime,
        genres: genre_views(genres_of(response)),
        poster_path: text_of(response.poster_path),
        backdrop_path: text_of(response.backdrop_path),
        vote_average_milli: match response.vote_average_milli {
            Some(v) => v,
            None => 0,
        },
        director: match director {
            Some(member) => Some(member.name@),
            None => None,
        },
        cast: first_n(cast_of(response), CAST_SHOWN as int).map_values(
            |m: TmdbCast| member_of(m),
        ),
        director_id: match director {
            Some(member) => Some(member.id),
            None => None,
        },
        cast_ids: cast_ids_of(first_n(cast_of(response), CAST_COMPARED as int)),
        genre_ids: genre_ids_of(genres_of(response)),
    }
}

/// Whether the member of the crew has the job `Director`.
fn has_director_job(member: &TmdbCrew) -> (b: bool)
    ensures
        b == is_director(*member),
{
    match &member.job {
        Some(job) => {
            let director = String::from_str("Director");
            *job == director
        },
        None => false,
    }
}

/// The place of the first member of the crew with the job `Director`.
fn find_director(crew: &Vec<TmdbCrew>) -> (place: Option<usize>)
    ensures
        match place {
            Some(i) => i < crew.len() && first_director(crew@) == Some(crew@[i as int]),
            None => first_director(crew@) is None,
        },
{
    let mut i: usize = 0;
    assert(crew@.skip(0) =~= crew@);
    while i < crew.len()
        invariant
            i <= crew.len(),
            first_director(crew@) == first_director(crew@.skip(i as int)),
        decreases crew.len() - i,
    {
        if has_director_job(&crew[i]) {
            return Some(i);
        }
        assert(crew@.skip(i as int).drop_first() =~= crew@.skip(i + 1));
        i += 1;
    }
    None
}

/// The ids of the first `limit` members of a cast.
fn first_cast_ids(cast: &Vec<TmdbCast>, limit: usize) -> (ids: Vec<u64>)
    ensures
        ids@ == cast_ids_of(first_n(cast@, limit as int)),
{
    let ghost wanted = cast_ids_of(first_n(cast@, limit as int));
    let end = if cast.len() <= limit {
        cast.len()
    } else {
        limit
    };
    let mut ids: Vec<u64> = Vec::new();
    let mut i: usize = 0;
    while i < end
        invariant
            i <= end == wanted.len(),
            end <= cast.len(),
            wanted == cast_ids_of(first_n(cast@, limit as int)),
            ids@ == wanted.take(i as int),
        decreases end - i,
    {
        ids.push(cast[i].id);
        i += 1;
    }
    ids
}

/// The ids of a list of genres.
fn ids_of_genres(genres: &Vec<Genre>) -> (ids: Vec<u64>)
    ensures
        ids@ == genre_ids_of(genres@),
{
    let ghost wanted = genre_ids_of(genres@);
    let mut ids: Vec<u64> = Vec::new();
    let mut i: usize = 0;
    while i < genres.len()
        invariant
            i <= genres.len(),
            wanted == genre_ids_of(genres@),
            ids@ == wanted.take(i as int),
        decreases genres.len() - i,
    {
        ids.push(genres[i].id);
        i += 1;
    }
    ids
}

/// The members of a cast as the engine holds them.
fn cast_members(cast: Vec<TmdbCast>) -> (members: Vec<CastMember>)
    ensures
        cast_views(members@) == cast@.map_values(|m: TmdbCast| member_of(m)),
{
    let ghost all = cast@.map_values(|m: TmdbCast| member_of(m));
    let mut members: Vec<CastMember> = Vec::new();
    for item in it: cast
        invariant
            all == it.seq().map_values(|m: TmdbCast| member_of(m)),
            cast_views(members@) == all.take(it.index() as int),
    {
        let member = CastMember { id: item.id, name: item.name, character: item.character };
        proof {
            assert(cast_views(members@.push(member)) =~= cast_views(members@).push(member@));
        }
        members.push(member);
    }
    members
}

/// Turns the body of a details reply into the movie that the engine holds.
pub fn movie_details(response: TmdbMovieDetails) -> (details: MovieDetails)
    ensures
        details@ == details_of(response),
{
    let (cast, crew) = match response.credits {
        Some(credits) => (
            match credits.cast {
                Some(cast) => cast,
                None => Vec::new(),
            },
            match credits.crew {
                Some(crew) => crew,
                None => Vec::new(),
            },
        ),
        None => (Vec::new(), Vec::new()),
    };
    let (director, director_id) = match find_director(&crew) {
        Some(i) => (Some(crew[i].name.clone()), Some(crew[i].id)),
        None => (None, None),
    };
    let cast_ids = first_cast_ids(&cast, CAST_COMPARED);
    let mut cast = cast;
    cast.truncate(CAST_SHOWN);
    assert(cast@ =~= first_n(cast_of(response), CAST_SHOWN as int));
    let cast = cast_members(cast);
    let genres = match response.genres {
        Some(genres) => genres,
        None => Vec::new(),
    };
    let genre_ids = ids_of_genres(&genres);
    MovieDetails {
        id: response.id,
        title: response.title,
        overview: response.overview,
        release_date: response.release_date,
        runtime: response.runtime,
        genres,
        poster_path: response.poster_path,
        backdrop_path: response.backdrop_path,
        vote_average_milli: match response.vote_average_milli {
            Some(v) => v,
            None => 0,
        },
        director,
        cast,
        director_id,
        cast_ids,
        genre_ids,
    }
}

} // verus!
