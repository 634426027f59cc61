//! The domain model: prompts, media types, jobs and what they produce.
pub mod asset;
pub mod audit;
pub mod error;
pub mod i18n;
pub mod job;
pub mod media;
pub mod user;

pub use error::{DomainError, ErrorCode};
