use std::collections::HashSet;

use api::score::similarity_score;
use api::{CastMember, Genre, MovieDetails};

fn movie(
    id: u64,
    genres: &[u64],
    director_id: Option<u64>,
    cast_ids: &[u64],
    vote_average_milli: u32,
) -> MovieDetails {
    MovieDetails {
        id,
        title: format!("Movie {id}"),
        overview: Some("Overview".to_string()),
        release_date: Some("2010-07-15".to_string()),
        runtime: Some(120),
        genres: genres
            .iter()
            .map(|genre_id| Genre { id: *genre_id, name: format!("Genre-{genre_id}") })
            .collect(),
        poster_path: Some("/poster.jpg".to_string()),
        backdrop_path: Some("/backdrop.jpg".to_string()),
        vote_average_milli,
        director: director_id.map(|_| "Director".to_string()),
        cast: vec![CastMember {
            id: 1,
            name: "Actor".to_string(),
            character: Some("Role".to_string()),
        }],
        director_id,
        cast_ids: cast_ids.to_vec(),
        genre_ids: genres.to_vec(),
    }
}

/// The same score computed in double precision.
fn float_score(base: &MovieDetails, candidate: &MovieDetails) -> f64 {
    let base_genres: HashSet<u64> = base.genre_ids.iter().copied().collect();
    let cand_genres: HashSet<u64> = candidate.genre_ids.iter().copied().collect();
    let base_cast: HashSet<u64> = base.cast_ids.iter().copied().collect();
    let cand_cast: HashSet<u64> = candidate.cast_ids.iter().copied().collect();
    let genre_score = if base_genres.is_empty() || cand_genres.is_empty() {
        0.0
    } else {
        let shared = base_genres.intersection(&cand_genres).count() as f64;
        let union = base_genres.union(&cand_genres).count() as f64;
        if union == 0.0 { 0.0 } else { shared / union }
    };
    let director_score = match (base.director_id, candidate.director_id) {
        (Some(base_id), Some(candidate_id)) if base_id == candidate_id => 1.0,
        _ => 0.0,
    };
    let cast_score = if base_cast.is_empty() || cand_cast.is_empty() {
        0.0
    } else {
        let shared = base_cast.intersection(&cand_cast).count() as f64;
        (shared / 5.0).min(1.0)
    };
    let rating_score = {
        let diff = (base.vote_average_milli as f64 / 1000.0
            - candidate.vote_average_milli as f64 / 1000.0)
            .abs();
        (1.0 - (diff / 5.0)).clamp(0.0, 1.0)
    };
    let total = genre_score * 0.45 + director_score * 0.2 + cast_score * 0.2 + rating_score * 0.15;
    (total * 1000.0).round() / 10.0
}

#[test]
fn identical_movies_score_one_hundred() {
    let base = movie(1, &[1, 2], Some(99), &[1, 2, 3, 4, 5], 8000);
    let candidate = movie(2, &[1, 2], Some(99), &[1, 2, 3, 4, 5], 8000);
    assert_eq!(similarity_score(&base, &candidate), 1000);
    assert_eq!(similarity_score(&base, &candidate) as f64 / 10.0, 100.0);
}

#[test]
fn nothing_in_common_scores_zero() {
    let base = movie(1, &[1, 2], Some(99), &[1, 2, 3], 8000);
    let candidate = movie(2, &[], None, &[], 3000);
    assert_eq!(similarity_score(&base, &candidate), 0);
    assert_eq!(similarity_score(&base, &candidate) as f64 / 10.0, 0.0);
}

#[test]
fn a_movie_scores_full_against_itself_with_five_cast_ids() {
    let m = movie(7, &[28, 878, 12], Some(5), &[10, 11, 12, 13, 14], 7345);
    assert_eq!(similarity_score(&m, &m), 1000);
}

#[test]
fn a_movie_with_three_cast_ids_scores_ninety_two_against_itself() {
    let m = movie(7, &[28, 878], Some(99), &[1, 2, 3], 8000);
    assert_eq!(similarity_score(&m, &m), 920);
}

#[test]
fn each_component_has_its_weight() {
    let base = movie(1, &[1, 2], Some(99), &[1, 2, 3, 4, 5], 8000);
    // genres only: 0.45
    let genres_only = movie(2, &[1, 2], None, &[], 2000);
    assert_eq!(similarity_score(&base, &genres_only), 450);
    // director only: 0.20
    let director_only = movie(3, &[], Some(99), &[], 2000);
    assert_eq!(similarity_score(&base, &director_only), 200);
    // cast only: 0.20
    let cast_only = movie(4, &[], None, &[5, 4, 3, 2, 1], 2000);
    assert_eq!(similarity_score(&base, &cast_only), 200);
    // rating only: 0.15
    let rating_only = movie(5, &[], None, &[], 8000);
    assert_eq!(similarity_score(&base, &rating_only), 150);
}

#[test]
fn genre_component_is_the_jaccard_index() {
    let base = movie(1, &[1, 2, 3], None, &[], 0);
    let candidate = movie(2, &[2, 3, 4], None, &[], 5000);
    // shared 2, joint 4: 0.5 * 0.45 = 0.225
    assert_eq!(similarity_score(&base, &candidate), 225);
    let third = movie(3, &[3, 9], None, &[], 5000);
    // shared 1, joint 4: 0.25 * 0.45 = 0.1125, rounded to 11.3 (a half rounds up)
    assert_eq!(similarity_score(&base, &third), 113);
}

#[test]
fn repeated_ids_count_once() {
    let base = movie(1, &[1, 1, 2, 2], None, &[7, 7, 7, 7, 7], 0);
    let candidate = movie(2, &[2, 1, 2], None, &[7, 7], 5000);
    // genres equal as sets: 0.45; one shared cast id: 0.2 * 0.2 = 0.04
    assert_eq!(similarity_score(&base, &candidate), 490);
}

#[test]
fn cast_component_is_capped_at_five() {
    let base = movie(1, &[], None, &[1, 2, 3, 4, 5, 6, 7], 0);
    let candidate = movie(2, &[], None, &[1, 2, 3, 4, 5, 6, 7], 5000);
    assert_eq!(similarity_score(&base, &candidate), 200);
    let two = movie(3, &[], None, &[6, 7, 100], 5000);
    assert_eq!(similarity_score(&base, &two), 80);
}

#[test]
fn director_counts_only_when_both_known_and_equal() {
    let base = movie(1, &[], Some(99), &[], 0);
    assert_eq!(similarity_score(&base, &movie(2, &[], Some(99), &[], 5000)), 200);
    assert_eq!(similarity_score(&base, &movie(2, &[], Some(98), &[], 5000)), 0);
    assert_eq!(similarity_score(&base, &movie(2, &[], None, &[], 5000)), 0);
    let unknown = movie(3, &[], None, &[], 0);
    assert_eq!(similarity_score(&unknown, &movie(2, &[], None, &[], 5000)), 0);
}

#[test]
fn rating_component_decays_over_five_points() {
    let base = movie(1, &[], None, &[], 8000);
    assert_eq!(similarity_score(&base, &movie(2, &[], None, &[], 8000)), 150);
    // one point apart: 0.8 * 0.15 = 0.12
    assert_eq!(similarity_score(&base, &movie(2, &[], None, &[], 7000)), 120);
    assert_eq!(similarity_score(&base, &movie(2, &[], None, &[], 9000)), 120);
    // 2.5 points apart: 0.5 * 0.15 = 0.075
    assert_eq!(similarity_score(&base, &movie(2, &[], None, &[], 5500)), 75);
    // five points and more: nothing
    assert_eq!(similarity_score(&base, &movie(2, &[], None, &[], 3000)), 0);
    assert_eq!(similarity_score(&base, &movie(2, &[], None, &[], 0)), 0);
    // 0.3 points apart: 0.94 * 0.15 = 0.141
    assert_eq!(similarity_score(&base, &movie(2, &[], None, &[], 8300)), 141);
}

#[test]
fn score_is_symmetric() {
    let movies = [
        movie(1, &[1, 2], Some(99), &[1, 2, 3, 4, 5], 8000),
        movie(2, &[2, 3, 4], Some(99), &[4, 5, 6], 6100),
        movie(3, &[], None, &[], 3000),
        movie(4, &[9], Some(1), &[1], 9999),
    ];
    for a in &movies {
        for b in &movies {
            assert_eq!(similarity_score(a, b), similarity_score(b, a));
        }
    }
}

#[test]
fn empty_genre_or_cast_set_contributes_nothing() {
    let full = movie(1, &[1, 2], None, &[1, 2, 3, 4, 5], 0);
    let no_genres = movie(2, &[], None, &[1, 2, 3, 4, 5], 5000);
    assert_eq!(similarity_score(&full, &no_genres), 200);
    assert_eq!(similarity_score(&no_genres, &full), 200);
    let no_cast = movie(3, &[1, 2], None, &[], 5000);
    assert_eq!(similarity_score(&full, &no_cast), 450);
    assert_eq!(similarity_score(&no_cast, &full), 450);
    // full cast overlap and equal ratings, but nothing for the genres
    assert_eq!(similarity_score(&no_genres, &no_genres), 350);
}

#[test]
fn score_never_passes_one_thousand() {
    let movies = [
        movie(1, &[1, 2], Some(99), &[1, 2, 3, 4, 5, 6, 7, 8], 10000),
        movie(2, &[1, 2], Some(99), &[1, 2, 3, 4, 5, 6, 7, 8], 10000),
        movie(3, &[1], Some(99), &[1], u32::MAX),
        movie(4, &[], None, &[], 0),
    ];
    for a in &movies {
        for b in &movies {
            assert!(similarity_score(a, b) <= 1000);
        }
    }
}

#[test]
fn exact_score_agrees_with_double_precision() {
    let movies = [
        movie(1, &[28, 878], Some(99), &[1, 2, 3], 8000),
        movie(2, &[28, 878], Some(99), &[1, 2, 3], 8300),
        movie(3, &[35], Some(12), &[1, 2, 3], 6000),
        movie(4, &[28, 35, 12], None, &[3, 4, 5, 6, 7, 8], 7513),
        movie(5, &[], Some(99), &[], 2250),
        movie(6, &[878, 12, 14, 16], Some(7), &[1, 9], 9100),
    ];
    for a in &movies {
        for b in &movies {
            assert_eq!(similarity_score(a, b) as f64 / 10.0, float_score(a, b));
        }
    }
}
