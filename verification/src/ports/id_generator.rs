//! The contract of a generator of identifiers and short codes.

use crate::domain::short_code::ShortCode;
use crate::domain::url_id::UrlId;
use crate::error::UrlShortenerError;
use vstd::prelude::*;

verus! {

/// A source of identifiers and of candidate short codes.
///
/// A generator knows nothing of any store: whether a code it hands out is
/// still free is for its user to find out.
pub trait IdGenerator: Send + Sync {
    /// The number of characters in the short codes that the generator hands
    /// out.
    spec fn code_length(&self) -> nat;

    /// Whether generators of this type never fail to produce a short code.
    spec fn infallible() -> bool;

    /// Generate an identifier for a new record.
    fn generate_id(&self) -> (id: UrlId);

    /// Generate a candidate short code, of [`IdGenerator::code_length`]
    /// characters. A generator that cannot produce one reports
    /// `IdGenerationFailed`, and nothing else.
    fn generate_short_code(&self) -> (r: Result<ShortCode, UrlShortenerError>)
        ensures
            match r {
                Ok(short_code) => short_code@.len() == self.code_length(),
                Err(e) => !Self::infallible() && e@ is IdGenerationFailed,
            },
    ;
}

} // verus!
