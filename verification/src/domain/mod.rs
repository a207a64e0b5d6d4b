//! The domain model: validated value types and the record that binds them.

pub mod original_url;
pub mod short_code;
pub mod shortened_url;
pub mod url_id;

pub use original_url::{OriginalUrl, UrlParts, UrlPartsView};
pub use short_code::ShortCode;
pub use shortened_url::{ShortenedUrl, ShortenedUrlView};
pub use url_id::UrlId;
