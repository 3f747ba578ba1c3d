//! Values shared by every feature: time, text and configuration.

pub mod admission;
pub mod admission_laws;
pub mod config;
pub mod contracts;
pub mod deadline;
pub mod http_error;
pub mod json;
pub mod json_laws;
pub mod names;
pub mod number;
pub mod random;
pub mod text;
pub mod text_laws;
pub mod time;
pub mod time_laws;
