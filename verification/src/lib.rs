//! Upload ingestion and time-to-live lifecycle pipeline for an object store.
//!
//! The library models one multipart submission from the first parsed field to
//! the per-file publish outcomes: classifying named fields, staging files,
//! validating the access secret, resolving the expiry duration, and driving
//! the publish-and-schedule state machine for each staged file. Network and
//! filesystem work is performed by the surrounding program, which feeds the
//! results back in as plain values.

pub mod cli;
pub mod config;
pub mod laws;
pub mod orchestrate;
pub mod render;
pub mod submission;
pub mod text;
pub mod ttl;
pub mod utils;
pub mod validate;
