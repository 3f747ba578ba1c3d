//! Bounded execution of one request against configured targets.

pub mod answer_laws;
pub mod attempt;
pub mod bounded_body;
pub mod budget;
pub mod budget_laws;
pub mod circuit;
pub mod circuit_laws;
pub mod config;
pub mod error;
pub mod error_laws;
pub mod events;
pub mod models;
pub mod openai_response;
pub mod params;
pub mod policy;
pub mod pricing;
pub mod repository;
pub mod run;
pub mod run_laws;
pub mod service;
pub mod service_laws;
pub mod vendors;
pub mod outcome_laws;
