//! Typed client logic for the Holodex v2 API.
//!
//! The library says which request asks for what, reads the typed values out
//! of what comes back, and tells apart the ways in which that can fail. It
//! sends nothing itself: a [`Client`] hands out [`client::Request`]s, and
//! whoever sends one hands the outcome to [`Client::receive`].
//!
//! - [`util`] validates a raw response: from a status code and the bytes of
//!   a body to a typed value or a typed error.
//! - [`pagination`] walks a paginated endpoint page by page.
//! - [`model`] holds the data types of the API, the filters and their
//!   builders.
//! - [`json`] holds JSON documents as plain values.
//! - [`errors`] holds the errors.

pub mod client;
pub mod errors;
pub mod json;
pub mod model;
pub mod pagination;
pub mod text;
pub mod time;
pub mod util;

pub use client::Client;
