//! Liveness and readiness.

pub mod error;
pub mod readiness_laws;
pub mod repository;
pub mod service;
