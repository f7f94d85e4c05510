use api::text::{decimal_text, text_or, trim, trim_end_slashes, trim_start_slashes};
use api::tmdb::{
    check_status, decode_error, movie_details, search_results, send_error, TmdbCast, TmdbCredits,
    TmdbCrew, TmdbListMovie, TmdbMovieDetails, TmdbProvider, TmdbRequest,
};
use api::{AppError, CastMember, Genre, SearchMovie};

fn pair(name: &str, value: &str) -> (String, String) {
    (name.to_string(), value.to_string())
}

fn with_token() -> TmdbProvider {
    TmdbProvider::new(
        "https://api.themoviedb.org/3".to_string(),
        Some("token".to_string()),
        Some("key".to_string()),
    )
}

fn with_key() -> TmdbProvider {
    TmdbProvider::new("https://api.themoviedb.org/3/".to_string(), None, Some("key".to_string()))
}

fn without_credentials() -> TmdbProvider {
    TmdbProvider::new("https://api.themoviedb.org/3".to_string(), None, None)
}

fn auth_missing() -> AppError {
    AppError::unauthorized("TMDB_AUTH_MISSING", "TMDB credentials are missing")
}

#[test]
fn slashes_are_cut_off() {
    assert_eq!(trim_end_slashes("https://host/3///"), "https://host/3");
    assert_eq!(trim_end_slashes("https://host/3"), "https://host/3");
    assert_eq!(trim_end_slashes("///"), "");
    assert_eq!(trim_end_slashes(""), "");
    assert_eq!(trim_start_slashes("//movie/1/"), "movie/1/");
    assert_eq!(trim_start_slashes("movie"), "movie");
    assert_eq!(trim_start_slashes("/"), "");
    assert_eq!(trim_start_slashes("/é/"), "é/");
}

#[test]
fn white_space_is_cut_off() {
    assert_eq!(trim("  a b  "), "a b");
    assert_eq!(trim("\t\n"), "");
    assert_eq!(trim("x"), "x");
    assert_eq!(trim(""), "");
}

#[test]
fn numbers_are_written_in_decimal() {
    assert_eq!(decimal_text(0), "0");
    assert_eq!(decimal_text(7), "7");
    assert_eq!(decimal_text(10), "10");
    assert_eq!(decimal_text(27205), "27205");
    assert_eq!(decimal_text(1234567890), "1234567890");
    assert_eq!(decimal_text(u64::MAX), u64::MAX.to_string());
}

#[test]
fn text_or_falls_back() {
    assert_eq!(text_or(Some("given".to_string()), "Unknown"), "given");
    assert_eq!(text_or(None, "Unknown"), "Unknown");
}

#[test]
fn request_joins_base_url_and_path_with_one_slash() {
    let request = with_token().get("/movie/1");
    assert_eq!(request.url, "https://api.themoviedb.org/3/movie/1");
    let request = with_key().get("movie/1");
    assert_eq!(request.url, "https://api.themoviedb.org/3/movie/1");
    let request = TmdbProvider::new("http://h//".to_string(), None, None).get("//p/");
    assert_eq!(request.url, "http://h/p/");
}

#[test]
fn access_token_goes_before_api_key() {
    assert_eq!(
        with_token().get("/x"),
        TmdbRequest {
            url: "https://api.themoviedb.org/3/x".to_string(),
            accept: "application/json".to_string(),
            bearer_token: Some("token".to_string()),
            query: Vec::new(),
        }
    );
    assert_eq!(
        with_key().get("/x"),
        TmdbRequest {
            url: "https://api.themoviedb.org/3/x".to_string(),
            accept: "application/json".to_string(),
            bearer_token: None,
            query: vec![pair("api_key", "key")],
        }
    );
    assert_eq!(
        without_credentials().get("/x"),
        TmdbRequest {
            url: "https://api.themoviedb.org/3/x".to_string(),
            accept: "application/json".to_string(),
            bearer_token: None,
            query: Vec::new(),
        }
    );
}

#[test]
fn lookups_need_credentials() {
    assert_eq!(with_token().ensure_auth_configured(), Ok(()));
    assert_eq!(with_key().ensure_auth_configured(), Ok(()));
    assert_eq!(
        TmdbProvider::new("u".to_string(), Some("t".to_string()), None).ensure_auth_configured(),
        Ok(())
    );
    assert_eq!(without_credentials().ensure_auth_configured(), Err(auth_missing()));
    assert_eq!(without_credentials().search_request("x"), Err(auth_missing()));
    assert_eq!(without_credentials().details_request(1), Err(auth_missing()));
    assert_eq!(without_credentials().similar_request(1), Err(auth_missing()));
    assert_eq!(without_credentials().recommended_request(1), Err(auth_missing()));
    assert_eq!(auth_missing().status_code(), 401);
}

#[test]
fn search_request_names_the_query() {
    assert_eq!(
        with_key().search_request("the matrix"),
        Ok(TmdbRequest {
            url: "https://api.themoviedb.org/3/search/movie".to_string(),
            accept: "application/json".to_string(),
            bearer_token: None,
            query: vec![
                pair("api_key", "key"),
                pair("query", "the matrix"),
                pair("include_adult", "false"),
                pair("language", "en-US"),
            ],
        })
    );
}

#[test]
fn details_request_asks_for_the_credits() {
    assert_eq!(
        with_token().details_request(27205),
        Ok(TmdbRequest {
            url: "https://api.themoviedb.org/3/movie/27205".to_string(),
            accept: "application/json".to_string(),
            bearer_token: Some("token".to_string()),
            query: vec![pair("append_to_response", "credits,keywords"), pair("language", "en-US")],
        })
    );
}

#[test]
fn list_requests_ask_for_the_first_page() {
    assert_eq!(
        with_token().similar_request(603),
        Ok(TmdbRequest {
            url: "https://api.themoviedb.org/3/movie/603/similar".to_string(),
            accept: "application/json".to_string(),
            bearer_token: Some("token".to_string()),
            query: vec![pair("language", "en-US"), pair("page", "1")],
        })
    );
    assert_eq!(
        with_key().recommended_request(0),
        Ok(TmdbRequest {
            url: "https://api.themoviedb.org/3/movie/0/recommendations".to_string(),
            accept: "application/json".to_string(),
            bearer_token: None,
            query: vec![pair("api_key", "key"), pair("language", "en-US"), pair("page", "1")],
        })
    );
}

#[test]
fn reply_status_decides_the_error() {
    assert_eq!(check_status(200), Ok(()));
    assert_eq!(check_status(404), Err(AppError::not_found("MOVIE_NOT_FOUND", "Movie not found")));
    let unauthorized = AppError::unauthorized("TMDB_UNAUTHORIZED", "TMDB credentials are invalid");
    assert_eq!(check_status(401), Err(unauthorized.clone()));
    assert_eq!(check_status(403), Err(unauthorized));
    let upstream =
        AppError::upstream("TMDB_UPSTREAM_ERROR", "TMDB returned a non-success response");
    for status in [100, 201, 204, 301, 400, 402, 405, 429, 500, 503, 0, u16::MAX] {
        assert_eq!(check_status(status), Err(upstream.clone()));
    }
}

#[test]
fn unsent_request_and_undecodable_body_are_upstream_errors() {
    assert_eq!(
        send_error(),
        AppError::upstream("TMDB_REQUEST_FAILED", "Failed to send request to TMDB")
    );
    assert_eq!(
        decode_error(),
        AppError::upstream("TMDB_DECODE_FAILED", "Failed to decode TMDB response")
    );
    assert_eq!(send_error().status_code(), 502);
}

#[test]
fn listed_movies_keep_their_order_and_default_their_vote() {
    let items = vec![
        TmdbListMovie {
            id: 27205,
            title: "Inception".to_string(),
            release_date: Some("2010-07-15".to_string()),
            poster_path: Some("/poster.jpg".to_string()),
            vote_average_milli: Some(8400),
        },
        TmdbListMovie {
            id: 1,
            title: "Unrated".to_string(),
            release_date: None,
            poster_path: None,
            vote_average_milli: None,
        },
    ];
    assert_eq!(
        search_results(items),
        vec![
            SearchMovie {
                id: 27205,
                title: "Inception".to_string(),
                release_date: Some("2010-07-15".to_string()),
                poster_path: Some("/poster.jpg".to_string()),
                vote_average_milli: 8400,
            },
            SearchMovie {
                id: 1,
                title: "Unrated".to_string(),
                release_date: None,
                poster_path: None,
                vote_average_milli: 0,
            },
        ]
    );
    assert_eq!(search_results(Vec::new()), Vec::new());
}

fn cast(id: u64) -> TmdbCast {
    TmdbCast { id, name: format!("Actor {id}"), character: Some(format!("Role {id}")) }
}

fn crew(id: u64, job: Option<&str>) -> TmdbCrew {
    TmdbCrew { id, name: format!("Crew {id}"), job: job.map(|j| j.to_string()) }
}

fn reply(credits: Option<TmdbCredits>) -> TmdbMovieDetails {
    TmdbMovieDetails {
        id: 27205,
        title: "Inception".to_string(),
        overview: Some("A thief".to_string()),
        release_date: Some("2010-07-15".to_string()),
        runtime: Some(148),
        genres: Some(vec![
            Genre { id: 28, name: "Action".to_string() },
            Genre { id: 878, name: "Science Fiction".to_string() },
        ]),
        poster_path: Some("/poster.jpg".to_string()),
        backdrop_path: Some("/backdrop.jpg".to_string()),
        vote_average_milli: Some(8364),
        credits,
    }
}

#[test]
fn details_take_the_first_director_ten_cast_members_and_five_cast_ids() {
    let details = movie_details(reply(Some(TmdbCredits {
        cast: Some((1..=12).map(cast).collect()),
        crew: Some(vec![
            crew(50, Some("Producer")),
            crew(51, None),
            crew(52, Some("Director")),
            crew(53, Some("Director")),
            crew(54, Some("director")),
        ]),
    })));
    assert_eq!(details.id, 27205);
    assert_eq!(details.title, "Inception");
    assert_eq!(details.overview, Some("A thief".to_string()));
    assert_eq!(details.release_date, Some("2010-07-15".to_string()));
    assert_eq!(details.runtime, Some(148));
    assert_eq!(details.poster_path, Some("/poster.jpg".to_string()));
    assert_eq!(details.backdrop_path, Some("/backdrop.jpg".to_string()));
    assert_eq!(details.vote_average_milli, 8364);
    assert_eq!(details.director, Some("Crew 52".to_string()));
    assert_eq!(details.director_id, Some(52));
    assert_eq!(details.genre_ids, vec![28, 878]);
    assert_eq!(details.genres.len(), 2);
    assert_eq!(details.cast_ids, vec![1, 2, 3, 4, 5]);
    assert_eq!(details.cast.len(), 10);
    assert_eq!(
        details.cast[9],
        CastMember { id: 10, name: "Actor 10".to_string(), character: Some("Role 10".to_string()) }
    );
    assert_eq!(details.cast.iter().map(|m| m.id).collect::<Vec<u64>>(), (1..=10).collect::<Vec<u64>>());
}

#[test]
fn details_without_credits_have_no_director_and_no_cast() {
    let mut response = reply(None);
    response.genres = None;
    response.vote_average_milli = None;
    let details = movie_details(response);
    assert_eq!(details.director, None);
    assert_eq!(details.director_id, None);
    assert_eq!(details.cast, Vec::new());
    assert_eq!(details.cast_ids, Vec::<u64>::new());
    assert_eq!(details.genres, Vec::new());
    assert_eq!(details.genre_ids, Vec::<u64>::new());
    assert_eq!(details.vote_average_milli, 0);

    let details = movie_details(reply(Some(TmdbCredits { cast: None, crew: None })));
    assert_eq!(details.director_id, None);
    assert_eq!(details.cast_ids, Vec::<u64>::new());
}

#[test]
fn details_with_a_short_cast_and_no_director_keep_what_there_is() {
    let details = movie_details(reply(Some(TmdbCredits {
        cast: Some(vec![cast(9), cast(8), cast(7)]),
        crew: Some(vec![crew(1, Some("Writer")), crew(2, None)]),
    })));
    assert_eq!(details.director, None);
    assert_eq!(details.director_id, None);
    assert_eq!(details.cast_ids, vec![9, 8, 7]);
    assert_eq!(details.cast.len(), 3);
    let details = movie_details(reply(Some(TmdbCredits {
        cast: Some((1..=7).map(cast).collect()),
        crew: Some(vec![crew(3, Some("Director"))]),
    })));
    assert_eq!(details.director_id, Some(3));
    assert_eq!(details.cast_ids, vec![1, 2, 3, 4, 5]);
    assert_eq!(details.cast.len(), 7);
}
