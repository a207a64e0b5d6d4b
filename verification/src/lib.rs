//! A URL shortener.
//!
//! The library maps validated URLs to short alphanumeric codes and back, and
//! counts how often each code is resolved.
//!
//! - [`domain`] holds the validated value types and the record of one
//!   shortened URL.
//! - [`ports`] states what the service asks of a record store and of a
//!   generator of codes.
//! - [`adapters`] holds a store kept in memory and a generator that draws at
//!   random.
//! - [`service`] holds the service itself, with its bounded search for a
//!   free code.
//!
//! Every operation is specified over a mathematical model of its data: a
//! text is a sequence of characters, and a store is a map from short codes
//! to records. A store is changed through an exclusive reference, so each
//! operation on it is one atomic step, and a short code never has more than
//! one owner. Callers on several threads share a service by keeping it
//! behind a lock.
//!
//! The contracts are proved, except for those of the few functions that
//! call the URL parser, the random number generator and the system clock;
//! each of these says in its documentation what it takes on trust.

pub mod adapters;
pub mod domain;
pub mod error;
pub mod ports;
pub mod service;
pub mod text;

pub use error::UrlShortenerError;
