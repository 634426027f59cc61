//! Central catalogue of all user-facing text.
//!
//! Every string the end user can see lives here, so that the application can be
//! put into another language by adding a sibling module.
pub mod nb;
