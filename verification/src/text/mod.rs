//! Text handling shared by every other module.
pub mod chars;
pub mod unicode;
pub mod number;
pub mod percent;
pub mod truncate;
