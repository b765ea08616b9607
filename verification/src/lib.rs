//! Clip service core: share a piece of text under a short code, optionally
//! behind a password and an expiration time.
//!
//! The crate holds the domain model, the storage gateway's semantics over
//! in-memory tables, the clip service built on that gateway, the API key
//! lifecycle, the write-behind hit counter and the expiration sweep.

pub mod client;
pub mod data;
pub mod domain;
pub mod service;
pub mod web;

pub use data::DataError;
pub use domain::clip::field::ShortCode;
pub use domain::clip::{Clip, ClipError};
pub use domain::time::Time;
pub use service::ServiceError;
