//! Persistence: what is said to PostgreSQL and to Azure Blob Storage, and what
//! their answers mean.
pub mod assets;
pub mod audit;
pub mod blob;
pub mod delegation;
pub mod error;
pub mod jobs;
pub mod query;
pub mod sas;
pub mod statement;
pub mod users;

pub use error::StorageError;
