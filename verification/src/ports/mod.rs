//! The contracts that the service asks of its collaborators.

pub mod id_generator;
pub mod repository;

pub use id_generator::IdGenerator;
pub use repository::UrlRepository;
