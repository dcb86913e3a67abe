//! Resolution of player identifiers into unified lookup views.
//!
//! The crate parses colon-delimited platform identifiers, models the answers
//! of the three backends (identity provider, relational store, live session
//! service) as plain values, and aggregates them into per-command views with
//! an explicit error taxonomy and degradation policy.

pub mod aggregate;
pub mod codec;
pub mod decimal;
pub mod errors;
pub mod identity;
pub mod live;
pub mod money;
pub mod store;
pub mod views;
