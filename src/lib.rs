//! Work-session lifecycle and query engine for a local time tracker.
//!
//! The document model lives in `model`, calendar facts obtained from chrono
//! in `calendar`, identifier generation in `ids`, the lifecycle and query
//! operations in `sessions`, the laws that relate them in `lemmas`, and the
//! recovery policy of the backing store in `store`.
pub mod model;
pub mod calendar;
pub mod ids;
pub mod sessions;
pub mod store;
pub mod lemmas;
