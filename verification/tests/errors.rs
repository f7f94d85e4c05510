use api::{AppError, ErrorKind};

#[test]
fn constructors_set_kind_code_and_message() {
    assert_eq!(
        AppError::bad_request("INVALID_QUERY", "Query parameter is required"),
        AppError::BadRequest {
            code: "INVALID_QUERY".to_string(),
            message: "Query parameter is required".to_string(),
        }
    );
    assert_eq!(
        AppError::not_found("MOVIE_NOT_FOUND", "Movie not found"),
        AppError::NotFound {
            code: "MOVIE_NOT_FOUND".to_string(),
            message: "Movie not found".to_string(),
        }
    );
    assert_eq!(
        AppError::unauthorized("A", "b"),
        AppError::Unauthorized { code: "A".to_string(), message: "b".to_string() }
    );
    assert_eq!(
        AppError::upstream("U", "v"),
        AppError::Upstream { code: "U".to_string(), message: "v".to_string() }
    );
    assert_eq!(
        AppError::internal("I", "j"),
        AppError::Internal { code: "I".to_string(), message: "j".to_string() }
    );
}

#[test]
fn new_builds_the_variant_of_the_kind() {
    assert_eq!(AppError::new(ErrorKind::BadRequest, "c", "m"), AppError::bad_request("c", "m"));
    assert_eq!(AppError::new(ErrorKind::NotFound, "c", "m"), AppError::not_found("c", "m"));
    assert_eq!(AppError::new(ErrorKind::Unauthorized, "c", "m"), AppError::unauthorized("c", "m"));
    assert_eq!(AppError::new(ErrorKind::Upstream, "c", "m"), AppError::upstream("c", "m"));
    assert_eq!(AppError::new(ErrorKind::Internal, "c", "m"), AppError::internal("c", "m"));
}

#[test]
fn accessors_read_kind_code_and_message() {
    let error = AppError::upstream("TMDB_UPSTREAM_ERROR", "TMDB returned a non-success response");
    assert_eq!(error.kind(), ErrorKind::Upstream);
    assert_eq!(error.code(), "TMDB_UPSTREAM_ERROR");
    assert_eq!(error.message(), "TMDB returned a non-success response");
    assert!(!error.is_not_found());
    assert!(AppError::not_found("X", "y").is_not_found());
    assert_eq!(AppError::not_found("X", "y").kind(), ErrorKind::NotFound);
    assert_eq!(AppError::bad_request("X", "y").kind(), ErrorKind::BadRequest);
    assert_eq!(AppError::unauthorized("X", "y").kind(), ErrorKind::Unauthorized);
    assert_eq!(AppError::internal("X", "y").kind(), ErrorKind::Internal);
}

#[test]
fn text_is_code_colon_message() {
    assert_eq!(
        AppError::not_found("MOVIE_NOT_FOUND", "Movie not found").to_string(),
        "MOVIE_NOT_FOUND: Movie not found"
    );
    assert_eq!(AppError::internal("", "").to_string(), ": ");
}

#[test]
fn each_kind_has_its_status() {
    assert_eq!(AppError::bad_request("c", "m").status_code(), 400);
    assert_eq!(AppError::not_found("c", "m").status_code(), 404);
    assert_eq!(AppError::unauthorized("c", "m").status_code(), 401);
    assert_eq!(AppError::upstream("c", "m").status_code(), 502);
    assert_eq!(AppError::internal("c", "m").status_code(), 500);
    assert_eq!(ErrorKind::Upstream.status_code(), 502);
}
