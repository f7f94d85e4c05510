//! The movies that the engine works on.
//!
//! A vote average is held as a whole number of thousandths of a rating point,
//! so that every score computed from it is exact.

use vstd::prelude::*;

verus! {

/// The characters of an optional text.
pub open spec fn text_of(text: Option<String>) -> Option<Seq<char>> {
    match text {
        Some(t) => Some(t@),
        None => None,
    }
}

/// A movie as a list of search results, of similar movies or of recommended
/// movies names it.
#[derive(Debug, Clone, PartialEq, Eq)]
pub struct SearchMovie {
    pub id: u64,
    pub title: String,
    pub release_date: Option<String>,
    pub poster_path: Option<String>,
    /// In thousandths of a rating point.
    pub vote_average_milli: u32,
}

/// The mathematical value of a [`SearchMovie`].
pub struct SearchMovieView {
    pub id: u64,
    pub title: Seq<char>,
    pub release_date: Option<Seq<char>>,
    pub poster_path: Option<Seq<char>>,
    pub vote_average_milli: u32,
}

impl View for SearchMovie {
    type V = SearchMovieView;

    open spec fn view(&self) -> SearchMovieView {
        SearchMovieView {
            id: self.id,
            title: self.title@,
            release_date: text_of(self.release_date),
            poster_path: text_of(self.poster_path),
            vote_average_milli: self.vote_average_milli,
        }
    }
}

/// A genre of a movie.
#[derive(Debug, Clone, PartialEq, Eq)]
pub struct Genre {
    pub id: u64,
    pub name: String,
}

/// The mathematical value of a [`Genre`].
pub struct GenreView {
    pub id: u64,
    pub name: Seq<char>,
}

impl View for Genre {
    type V = GenreView;

    open spec fn view(&self) -> GenreView {
        GenreView { id: self.id, name: self.name@ }
    }
}

/// A member of a movie's cast.
#[derive(Debug, Clone, PartialEq, Eq)]
pub struct CastMember {
    pub id: u64,
    pub name: String,
    pub character: Option<String>,
}

/// The mathematical value of a [`CastMember`].
pub struct CastMemberView {
    pub id: u64,
    pub name: Seq<char>,
    pub character: Option<Seq<char>>,
}

impl View for CastMember {
    type V = CastMemberView;

    open spec fn view(&self) -> CastMemberView {
        CastMemberView { id: self.id, name: self.name@, character: text_of(self.character) }
    }
}

/// The values of a list of genres, in order.
pub open spec fn genre_views(genres: Seq<Genre>) -> Seq<GenreView> {
    genres.map_values(|g: Genre| g@)
}

/// The values of a cast list, in order.
pub open spec fn cast_views(cast: Seq<CastMember>) -> Seq<CastMemberView> {
    cast.map_values(|m: CastMember| m@)
}

/// The values of a list of movies, in order.
pub open spec fn search_views(movies: Seq<SearchMovie>) -> Seq<SearchMovieView> {
    movies.map_values(|m: SearchMovie| m@)
}

/// The ids that a list of movies names, in order.
pub open spec fn movie_ids(movies: Seq<SearchMovie>) -> Seq<u64> {
    movies.map_values(|m: SearchMovie| m.id)
}

/// Everything the engine knows of one movie.
///
/// `genre_ids` and `cast_ids` are the ids by which two movies are compared;
/// as sets, so an id that occurs twice counts once.
#[derive(Debug, Clone, PartialEq, Eq)]
pub struct MovieDetails {
    pub id: u64,
    pub title: String,
    pub overview: Option<String>,
    pub release_date: Option<String>,
    pub runtime: Option<u32>,
    pub genres: Vec<Genre>,
    pub poster_path: Option<String>,
    pub backdrop_path: Option<String>,
    /// In thousandths of a rating point.
    pub vote_average_milli: u32,
    pub director: Option<String>,
    pub cast: Vec<CastMember>,
    pub director_id: Option<u64>,
    pub cast_ids: Vec<u64>,
    pub genre_ids: Vec<u64>,
}

/// The mathematical value of a [`MovieDetails`].
pub struct MovieDetailsView {
    pub id: u64,
    pub title: Seq<char>,
    pub overview: Option<Seq<char>>,
    pub release_date: Option<Seq<char>>,
    pub runtime: Option<u32>,
    pub genres: Seq<GenreView>,
    pub poster_path: Option<Seq<char>>,
    pub backdrop_path: Option<Seq<char>>,
    pub vote_average_milli: u32,
    pub director: Option<Seq<char>>,
    pub cast: Seq<CastMemberView>,
    pub director_id: Option<u64>,
    pub cast_ids: Seq<u64>,
    pub genre_ids: Seq<u64>,
}

impl View for MovieDetails {
    type V = MovieDetailsView;

    open spec fn view(&self) -> MovieDetailsView {
        MovieDetailsView {
            id: self.id,
            title: self.title@,
            overview: text_of(self.overview),
            release_date: text_of(self.release_date),
            runtime: self.runtime,
            genres: genre_views(self.genres@),
            poster_path: text_of(self.poster_path),
            backdrop_path: text_of(self.backdrop_path),
            vote_average_milli: self.vote_average_milli,
            director: text_of(self.director),
            cast: cast_views(self.cast@),
            director_id: self.director_id,
            cast_ids: self.cast_ids@,
            genre_ids: self.genre_ids@,
        }
    }
}

/// The values of a list of movies, in order.
pub open spec fn details_views(movies: Seq<MovieDetails>) -> Seq<MovieDetailsView> {
    movies.map_values(|m: MovieDetails| m@)
}

} // verus!
