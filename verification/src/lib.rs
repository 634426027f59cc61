//! Core of a self-service media generator: accounts sign in through an identity
//! provider, describe what they want, and get images, speech or short clips
//! back.
//!
//! The crate holds the rules: what a valid prompt is, how a job moves through
//! its life, which calls go to the generation service and when they are tried
//! again, what SQL a repository runs, and how a time-limited storage link is
//! signed. Sockets, the session store and connection pools stay outside.
pub mod auth;
pub mod azure;
pub mod clock;
pub mod domain;
pub mod encoding;
pub mod http;
pub mod id;
pub mod json;
pub mod providers;
pub mod storage;
pub mod text;
