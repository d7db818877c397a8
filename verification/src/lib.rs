//! A verified client library for managing PostHog feature flags.

pub mod text;
pub mod json;
pub mod model;
pub mod error;
pub mod http;
pub mod api;
pub mod cli;
pub mod report;
pub mod laws;
pub mod outcomes;
