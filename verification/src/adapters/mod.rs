//! The collaborators that come with the library: a store held in memory and
//! a generator that draws at random.

pub mod in_memory_repository;
pub mod random_id_generator;

pub use in_memory_repository::InMemoryUrlRepository;
pub use random_id_generator::RandomIdGenerator;
