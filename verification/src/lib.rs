//! Rate resolution and caching for a currency converter.
//!
//! The library decides whether a previously fetched rate table may still be
//! trusted, classifies what the exchange-rate service answered, and keeps
//! the fetched tables in a store keyed by base currency. It performs no
//! input or output itself: a caller hands it events (the time, the access
//! credential, the HTTP status, the decoded body) and carries out the
//! actions it answers with.
//!
//! - [`models`]: rate tables, timestamps and snapshots.
//! - [`code_map`]: the map from currency codes that tables and the store
//!   are kept in.
//! - [`policy`]: when a snapshot is fresh.
//! - [`api`]: the events and actions of a resolution, and the two
//!   functions that advance one.
//! - [`session`]: what a whole resolution comes to, and what holds of it.
//! - [`cache`]: the store as it is persisted.
//! - [`error`]: the kinds of failure.
//! - [`text`]: comparison of string slices.

pub mod api;
pub mod cache;
pub mod code_map;
pub mod error;
pub mod models;
pub mod policy;
pub mod session;
pub mod text;
