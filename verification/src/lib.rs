//! Movie recommendations by similarity.
//!
//! Given a base movie, the engine merges two candidate lists into one
//! sequence of distinct ids, decides what becomes of each candidate's detail
//! lookup, scores every enriched candidate against the base movie and returns
//! the twenty best, highest score first.
//!
//! Scores are exact: a score is a whole number of tenths of a point between
//! 0 and 1000, and a vote average is a whole number of thousandths of a
//! rating point.
//!
//! The engine is [`aggregate`], [`enrich`], [`score`] and [`rank`], with
//! [`engine`] leading one request through them. Around it stand what a
//! service needs to put it to work: the source of movies ([`provider`]), the
//! requests and replies of TMDB ([`tmdb`]), the decisions behind each endpoint
//! ([`handlers`]) and the cross-origin policy ([`cors`]). Nothing in this
//! library reads or sends anything.

pub mod aggregate;
pub mod cors;
pub mod engine;
pub mod enrich;
pub mod error;
pub mod handlers;
pub mod model;
pub mod provider;
pub mod rank;
pub mod score;
pub mod text;
pub mod tmdb;

pub use error::{AppError, ErrorKind};
pub use model::{CastMember, Genre, MovieDetails, SearchMovie};
pub use provider::MovieProvider;
