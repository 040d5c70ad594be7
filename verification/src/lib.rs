//! A typed client core for the OMDb movie-metadata HTTP API.
//!
//! The crate builds query URLs from structured options and interprets response
//! bodies: it tells an API-level failure from a success and converts a success
//! into a typed record, the raw text or a generic JSON value. It performs no
//! network I/O itself; a caller fetches the URL and hands the body back.

pub mod client;
pub mod encoding;
pub mod error;
pub mod json;
pub mod options;
pub mod record;
pub mod text;
pub mod url;

pub use client::{ClientConfig, OmdbApi, OmdbResult, OmdbResultView, MOVIE_FOUND_RESULT};
pub use error::{OmdbError, OmdbErrorView};
pub use options::{PlotType, ResponseFormat, ResultFormat, SearchType};
pub use record::{MovieRecord, MovieResult};
