//! Persistence of book records behind a repository contract.
//!
//! `model` holds the domain entity, the creation command and the storage row
//! together with the row mapper; `error` holds the single domain error kind;
//! `repository` holds the database-backed repository's decisions once a
//! statement has run; `memory` holds an in-memory repository whose behaviour
//! is stated and proved against the same model.
pub mod error;
pub mod memory;
pub mod model;
pub mod repository;

pub use error::{AppError, AppResult, StorageError};
pub use memory::InMemoryBookRepository;
pub use model::{Book, BookId, BookRow, BookView, CreateBook, CreateBookView};
pub use repository::BookRepositoryImpl;
