//! The source of movie metadata.
//!
//! The service reads movies through [`MovieProvider`] alone. Nothing is
//! promised of what a provider returns. A provider may say which outcomes its
//! lookups can have; the functions that ask one then say what becomes of such
//! an outcome.

use vstd::prelude::*;

use crate::enrich::outcome_view;
use crate::error::{AppError, ErrorView};
use crate::model::{
    search_views, MovieDetails, MovieDetailsView, SearchMovie, SearchMovieView,
};

verus! {

/// The value of the outcome of a list lookup.
pub open spec fn list_outcome_view(outcome: Result<Vec<SearchMovie>, AppError>) -> Result<
    Seq<SearchMovieView>,
    ErrorView,
> {
    match outcome {
        Ok(movies) => Ok(search_views(movies@)),
        Err(error) => Err(error@),
    }
}

/// A source of movie metadata.
///
/// `movie_details` fails with `NotFound` for an id that the source does not
/// know, with `Unauthorized` where its credentials are missing or invalid, and
/// with `Upstream` where it fails otherwise.
///
/// The `may_` functions say which outcomes the lookups behind a movie's
/// details and its recommendations can have. A provider that says nothing of
/// its lookups leaves it at any outcome.
pub trait MovieProvider {
    /// The movies whose title matches `query`.
    fn search_movies(&self, query: &str) -> Result<Vec<SearchMovie>, AppError>;

    /// Whether the lookup of the details of the movie `movie_id` can end in
    /// `outcome`.
    open spec fn may_give_details(
        &self,
        movie_id: u64,
        outcome: Result<MovieDetailsView, ErrorView>,
    ) -> bool {
        true
    }

    /// Everything known of the movie `movie_id`.
    fn movie_details(&self, movie_id: u64) -> (outcome: Result<MovieDetails, AppError>)
        ensures
            self.may_give_details(movie_id, outcome_view(outcome)),
    ;

    /// Whether the lookup of the movies similar to the movie `movie_id` can
    /// end in `outcome`.
    open spec fn may_list_similar(
        &self,
        movie_id: u64,
        outcome: Result<Seq<SearchMovieView>, ErrorView>,
    ) -> bool {
        true
    }

    /// The movies similar to the movie `movie_id`.
    fn similar_movies(&self, movie_id: u64) -> (outcome: Result<Vec<SearchMovie>, AppError>)
        ensures
            self.may_list_similar(movie_id, list_outcome_view(outcome)),
    ;

    /// Whether the lookup of the movies recommended with the movie `movie_id`
    /// can end in `outcome`.
    open spec fn may_list_recommended(
        &self,
        movie_id: u64,
        outcome: Result<Seq<SearchMovieView>, ErrorView>,
    ) -> bool {
        true
    }

    /// The movies recommended with the movie `movie_id`.
    fn recommended_movies(&self, movie_id: u64) -> (outcome: Result<Vec<SearchMovie>, AppError>)
        ensures
            self.may_list_recommended(movie_id, list_outcome_view(outcome)),
    ;
}

} // verus!
