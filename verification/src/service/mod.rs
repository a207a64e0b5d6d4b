//! The service that shortens and resolves URLs.

pub mod url_shortener_service;

pub use url_shortener_service::UrlShortenerService;
