//! Decisions made around every request: credentials and correlation.

pub mod auth;
pub mod correlation_id;
pub mod header_laws;
