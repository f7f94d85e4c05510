use std::collections::HashMap;

use api::handlers::{
    details_outcome, details_response, error_response, health, movie_details,
    movie_recommendations, search_movies, search_title, ErrorBody, MovieDetailsCastResponse,
};
use api::provider::MovieProvider;
use api::{AppError, CastMember, Genre, MovieDetails, SearchMovie};

#[derive(Default)]
struct MockProvider {
    search: Vec<SearchMovie>,
    details: HashMap<u64, MovieDetails>,
    similar: HashMap<u64, Vec<SearchMovie>>,
    recommended: HashMap<u64, Vec<SearchMovie>>,
}

impl MovieProvider for MockProvider {
    fn search_movies(&self, _query: &str) -> Result<Vec<SearchMovie>, AppError> {
        Ok(self.search.clone())
    }

    fn movie_details(&self, movie_id: u64) -> Result<MovieDetails, AppError> {
        self.details
            .get(&movie_id)
            .cloned()
            .ok_or_else(|| AppError::not_found("MOVIE_NOT_FOUND", "Movie not found"))
    }

    fn similar_movies(&self, movie_id: u64) -> Result<Vec<SearchMovie>, AppError> {
        Ok(self.similar.get(&movie_id).cloned().unwrap_or_default())
    }

    fn recommended_movies(&self, movie_id: u64) -> Result<Vec<SearchMovie>, AppError> {
        Ok(self.recommended.get(&movie_id).cloned().unwrap_or_default())
    }
}

fn make_movie(id: u64, title: &str, genres: &[u64], director_id: Option<u64>) -> MovieDetails {
    MovieDetails {
        id,
        title: title.to_string(),
        overview: Some("Overview".to_string()),
        release_date: Some("2010-07-15".to_string()),
        runtime: Some(120),
        genres: genres
            .iter()
            .map(|genre_id| Genre { id: *genre_id, name: format!("Genre-{genre_id}") })
            .collect(),
        poster_path: Some("/poster.jpg".to_string()),
        backdrop_path: Some("/backdrop.jpg".to_string()),
        vote_average_milli: 8000,
        director: Some("Director".to_string()),
        cast: vec![CastMember {
            id: 1,
            name: "Actor".to_string(),
            character: Some("Role".to_string()),
        }],
        director_id,
        cast_ids: vec![1, 2, 3],
        genre_ids: genres.to_vec(),
    }
}

#[test]
fn health_endpoint_returns_ok() {
    let response = health();
    assert_eq!(response.status, "ok");
    assert_eq!(response.service, "themeflick-api");
}

#[test]
fn search_endpoint_requires_query() {
    let provider = MockProvider::default();
    let error = search_movies(&provider, None).unwrap_err();
    let (status, body) = error_response(error);
    assert_eq!(status, 400);
    assert_eq!(body.code, "INVALID_QUERY");
}

#[test]
fn search_endpoint_returns_results() {
    let provider = MockProvider {
        search: vec![SearchMovie {
            id: 27205,
            title: "Inception".to_string(),
            release_date: Some("2010-07-15".to_string()),
            poster_path: Some("/poster.jpg".to_string()),
            vote_average_milli: 8400,
        }],
        ..MockProvider::default()
    };
    let results = search_movies(&provider, Some("inception")).unwrap();
    assert_eq!(results[0].title, "Inception");
}

#[test]
fn movie_details_returns_not_found() {
    let provider = MockProvider::default();
    let error = movie_details(&provider, 999999).unwrap_err();
    let (status, body) = error_response(error);
    assert_eq!(status, 404);
    assert_eq!(body.code, "MOVIE_NOT_FOUND");
}

#[test]
fn recommendations_endpoint_returns_scored_results() {
    let base_movie_id = 1;
    let candidate_high_id = 2;
    let candidate_low_id = 3;

    let mut details = HashMap::new();
    details.insert(base_movie_id, make_movie(base_movie_id, "Base", &[28, 878], Some(99)));
    details.insert(candidate_high_id, make_movie(candidate_high_id, "High", &[28, 878], Some(99)));
    details.insert(candidate_low_id, make_movie(candidate_low_id, "Low", &[35], Some(12)));

    let provider = MockProvider {
        details,
        similar: HashMap::from([(
            base_movie_id,
            vec![
                SearchMovie {
                    id: candidate_high_id,
                    title: "High".to_string(),
                    release_date: Some("2014-11-05".to_string()),
                    poster_path: Some("/high.jpg".to_string()),
                    vote_average_milli: 8300,
                },
                SearchMovie {
                    id: candidate_low_id,
                    title: "Low".to_string(),
                    release_date: Some("2000-01-01".to_string()),
                    poster_path: Some("/low.jpg".to_string()),
                    vote_average_milli: 6000,
                },
            ],
        )]),
        ..MockProvider::default()
    };

    let response = movie_recommendations(&provider, 1).unwrap();
    assert_eq!(response.base_movie.title, "Base");
    assert_eq!(response.results[0].title, "High");
    assert!(response.results[0].similarity_score as f64 / 10.0 > 0.0);
    assert_eq!(response.results[0].similarity_score, 920);
    assert_eq!(response.results[1].title, "Low");
    assert_eq!(response.results[1].similarity_score, 270);
    assert_eq!(response.results.len(), 2);
}

#[test]
fn recommendations_for_an_unknown_movie_fail_with_not_found() {
    let provider = MockProvider::default();
    let error = movie_recommendations(&provider, 999999).unwrap_err();
    assert_eq!(error, AppError::not_found("MOVIE_NOT_FOUND", "Movie not found"));
    assert_eq!(error_response(error).0, 404);
}

#[test]
fn search_title_is_the_trimmed_query() {
    assert_eq!(search_title(Some("inception")), Ok("inception"));
    assert_eq!(search_title(Some("  the  matrix \t\n")), Ok("the  matrix"));
    assert_eq!(search_title(Some("\u{a0}\u{2003}am\u{e9}lie\u{3000}")), Ok("am\u{e9}lie"));
    let refused = AppError::bad_request("INVALID_QUERY", "Query parameter is required");
    assert_eq!(search_title(None), Err(refused.clone()));
    assert_eq!(search_title(Some("")), Err(refused.clone()));
    assert_eq!(search_title(Some(" \t \n")), Err(refused));
}

#[test]
fn search_title_agrees_with_the_standard_trim() {
    for query in ["", " ", "a", " a", "a ", " a b ", "\r\n x \u{85}", "\u{1680}y\u{2028}\u{2029}", "é ", " 日本 語 "] {
        let trimmed = query.trim();
        match search_title(Some(query)) {
            Ok(title) => assert_eq!(title, trimmed),
            Err(_) => assert!(trimmed.is_empty()),
        }
    }
}

#[test]
fn search_with_a_blank_query_does_not_ask_the_provider() {
    let provider = MockProvider {
        search: vec![SearchMovie {
            id: 1,
            title: "Any".to_string(),
            release_date: None,
            poster_path: None,
            vote_average_milli: 0,
        }],
        ..MockProvider::default()
    };
    assert_eq!(
        search_movies(&provider, Some("   ")),
        Err(AppError::bad_request("INVALID_QUERY", "Query parameter is required"))
    );
    assert_eq!(search_movies(&provider, Some(" any ")).unwrap().len(), 1);
}

#[test]
fn error_response_carries_status_code_and_message() {
    let cases = [
        (AppError::bad_request("A", "a"), 400),
        (AppError::not_found("B", "b"), 404),
        (AppError::unauthorized("C", "c"), 401),
        (AppError::upstream("D", "d"), 502),
        (AppError::internal("E", "e"), 500),
    ];
    for (error, status) in cases {
        let code = error.code().to_string();
        let message = error.message().to_string();
        assert_eq!(error_response(error), (status, ErrorBody { code, message }));
    }
}

#[test]
fn details_response_fills_in_what_is_not_known() {
    let mut details = make_movie(5, "Five", &[28], None);
    details.overview = None;
    details.director = None;
    details.cast = vec![
        CastMember { id: 1, name: "Actor".to_string(), character: Some("Role".to_string()) },
        CastMember { id: 2, name: "Extra".to_string(), character: None },
    ];
    let response = details_response(details);
    assert_eq!(response.id, 5);
    assert_eq!(response.title, "Five");
    assert_eq!(response.overview, "");
    assert_eq!(response.director, "Unknown");
    assert_eq!(response.release_date, Some("2010-07-15".to_string()));
    assert_eq!(response.runtime, Some(120));
    assert_eq!(response.genres, vec![Genre { id: 28, name: "Genre-28".to_string() }]);
    assert_eq!(response.poster_path, Some("/poster.jpg".to_string()));
    assert_eq!(response.backdrop_path, Some("/backdrop.jpg".to_string()));
    assert_eq!(response.vote_average_milli, 8000);
    assert_eq!(
        response.cast,
        vec![
            MovieDetailsCastResponse {
                id: 1,
                name: "Actor".to_string(),
                character: "Role".to_string(),
            },
            MovieDetailsCastResponse {
                id: 2,
                name: "Extra".to_string(),
                character: "Unknown".to_string(),
            },
        ]
    );
}

#[test]
fn details_response_keeps_what_is_known() {
    let response = details_response(make_movie(5, "Five", &[28], Some(9)));
    assert_eq!(response.overview, "Overview");
    assert_eq!(response.director, "Director");
}

#[test]
fn movie_details_returns_the_movie_of_the_provider() {
    let mut provider = MockProvider::default();
    provider.details.insert(7, make_movie(7, "Seven", &[18], Some(3)));
    let response = movie_details(&provider, 7).unwrap();
    assert_eq!(response, details_response(make_movie(7, "Seven", &[18], Some(3))));
}

#[test]
fn details_outcome_hands_on_the_error_of_the_lookup() {
    let error = AppError::unauthorized("TMDB_UNAUTHORIZED", "TMDB credentials are invalid");
    assert_eq!(details_outcome(Err(error.clone())), Err(error));
    assert_eq!(
        details_outcome(Ok(make_movie(7, "Seven", &[18], Some(3)))),
        Ok(details_response(make_movie(7, "Seven", &[18], Some(3))))
    );
}
