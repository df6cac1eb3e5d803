//! A typed client library for the PokeAPI, a public read-only REST service.
//!
//! The library builds request URLs, classifies responses into a three-way
//! error taxonomy, and accumulates paginated listings by following the
//! server-supplied `next` links.  The network transport itself lives outside
//! the library: callers fetch each URL the library hands out and feed the
//! outcome back in, so every decision the client makes is verified here.

pub mod error;
pub mod models;
pub mod pagination;
pub mod urls;

pub use error::PokeApiError;
