//! Tracks the asynchronous loading of a collection of font assets.
//!
//! The host's asset store loads the fonts; this crate only decides which
//! load requests to issue (one bulk directory request, or one request per
//! listed file) and folds the store's per-handle load states into a single
//! aggregate state that other host systems can poll through a readiness
//! predicate.

pub mod aggregate;
pub mod config;
pub mod dispatch;
pub mod state;
