//! An in-memory book collection with verified CRUD semantics.
//!
//! The repository owns every stored record and the id counter; its contracts
//! pin down id assignment, lookup, the partial-update merge rule, and removal.
//! The HTTP layer around it lives outside the library and only translates
//! requests into repository calls and results into responses.

pub mod laws;
pub mod models;
pub mod responses;
pub mod storage;

pub use models::{Book, CreateBookDto, UpdateBookDto};
pub use storage::BookRepository;
