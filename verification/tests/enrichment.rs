use api::enrich::{collect_details, Enrichment};
use api::{AppError, MovieDetails};

fn movie(id: u64) -> MovieDetails {
    MovieDetails {
        id,
        title: format!("Movie {id}"),
        overview: None,
        release_date: None,
        runtime: None,
        genres: Vec::new(),
        poster_path: None,
        backdrop_path: None,
        vote_average_milli: 0,
        director: None,
        cast: Vec::new(),
        director_id: None,
        cast_ids: Vec::new(),
        genre_ids: Vec::new(),
    }
}

fn missing() -> AppError {
    AppError::not_found("MOVIE_NOT_FOUND", "Movie not found")
}

#[test]
fn all_found_are_kept_in_arrival_order() {
    let outcomes = vec![Ok(movie(3)), Ok(movie(1)), Ok(movie(2))];
    assert_eq!(collect_details(outcomes), Ok(vec![movie(3), movie(1), movie(2)]));
}

#[test]
fn no_outcomes_give_no_details() {
    assert_eq!(collect_details(Vec::new()), Ok(Vec::new()));
}

#[test]
fn missing_candidate_is_dropped_without_an_error() {
    let outcomes = vec![Ok(movie(1)), Err(missing()), Ok(movie(2)), Err(missing())];
    assert_eq!(collect_details(outcomes), Ok(vec![movie(1), movie(2)]));
    assert_eq!(collect_details(vec![Err(missing()), Err(missing())]), Ok(Vec::new()));
}

#[test]
fn other_failure_fails_the_request_with_that_error() {
    let upstream = AppError::upstream("TMDB_UPSTREAM_ERROR", "TMDB returned a non-success response");
    let outcomes = vec![Ok(movie(1)), Err(missing()), Err(upstream.clone()), Ok(movie(2))];
    assert_eq!(collect_details(outcomes), Err(upstream));

    let unauthorized = AppError::unauthorized("TMDB_UNAUTHORIZED", "TMDB credentials are invalid");
    assert_eq!(collect_details(vec![Err(unauthorized.clone())]), Err(unauthorized));

    let internal = AppError::internal("BROKEN", "broken");
    assert_eq!(collect_details(vec![Ok(movie(1)), Err(internal.clone())]), Err(internal));

    let bad = AppError::bad_request("BAD", "bad");
    assert_eq!(collect_details(vec![Err(bad.clone()), Ok(movie(1))]), Err(bad));
}

#[test]
fn first_fatal_failure_in_arrival_order_wins() {
    let first = AppError::upstream("FIRST", "first");
    let second = AppError::unauthorized("SECOND", "second");
    let outcomes = vec![Err(missing()), Err(first.clone()), Err(second)];
    assert_eq!(collect_details(outcomes), Err(first));
}

#[test]
fn absorb_keeps_found_skips_missing_and_hands_back_fatal_errors() {
    let mut gathered = Enrichment::new();
    assert_eq!(gathered.len(), 0);
    assert_eq!(gathered.absorb(Ok(movie(5))), None);
    assert_eq!(gathered.len(), 1);
    assert_eq!(gathered.absorb(Err(missing())), None);
    assert_eq!(gathered.len(), 1);
    let upstream = AppError::upstream("U", "u");
    assert_eq!(gathered.absorb(Err(upstream.clone())), Some(upstream));
    assert_eq!(gathered.len(), 1);
    assert_eq!(gathered.absorb(Ok(movie(6))), None);
    assert_eq!(gathered.into_details(), vec![movie(5), movie(6)]);
}
