//! Stateless AI routing.
//!
//! Accepts prompt and opaque metadata, optional route and fallback controls, and
//! typed generation parameters; selects an operator-configured route; and hands
//! the original prompt to the executor. Metadata is never forwarded.

pub mod constants;
pub mod error;
pub mod handler;
pub mod request_laws;
pub mod routing;
pub mod service;
pub mod validate;
