//! The errors of the URL shortener.

use vstd::prelude::*;

verus! {

/// What can go wrong in the URL shortener. Every failure is reported to the
/// caller as one of these values.
#[derive(Debug, PartialEq, Eq)]
pub enum UrlShortenerError {
    /// The URL is malformed or its scheme is not allowed; carries the reason.
    InvalidUrl(String),
    /// The short code has the wrong length or a character that is not
    /// alphanumeric; carries the reason.
    InvalidShortCode(String),
    /// The short code is already in use; carries the code.
    ShortCodeAlreadyExists(String),
    /// No record is stored under the short code; carries the code.
    ShortCodeNotFound(String),
    /// The store could not carry out the operation; carries the reason.
    RepositoryError(String),
    /// No usable code came out of the given number of attempts.
    IdGenerationFailed(usize),
}

/// The mathematical value of a [`UrlShortenerError`]: the same variants, with
/// texts as sequences of characters.
pub enum ErrorView {
    InvalidUrl(Seq<char>),
    InvalidShortCode(Seq<char>),
    ShortCodeAlreadyExists(Seq<char>),
    ShortCodeNotFound(Seq<char>),
    RepositoryError(Seq<char>),
    IdGenerationFailed(nat),
}

impl View for UrlShortenerError {
    type V = ErrorView;

    open spec fn view(&self) -> ErrorView {
        match *self {
            UrlShortenerError::InvalidUrl(reason) => ErrorView::InvalidUrl(reason@),
            UrlShortenerError::InvalidShortCode(reason) => ErrorView::InvalidShortCode(reason@),
            UrlShortenerError::ShortCodeAlreadyExists(code) => ErrorView::ShortCodeAlreadyExists(
                code@,
            ),
            UrlShortenerError::ShortCodeNotFound(code) => ErrorView::ShortCodeNotFound(code@),
            UrlShortenerError::RepositoryError(reason) => ErrorView::RepositoryError(reason@),
            UrlShortenerError::IdGenerationFailed(attempts) => ErrorView::IdGenerationFailed(
                attempts as nat,
            ),
        }
    }
}

} // verus!
