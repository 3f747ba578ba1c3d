//! Operator configuration: catalog, limits and provider access.

use vstd::prelude::*;

use crate::common::names::NameMap;
use crate::common::number::Float64;

verus! {

/// Providers that a target may name.
#[derive(Clone, Copy, PartialEq, Eq, Structural, Debug)]
pub enum VendorKind {
    Openai,
}

impl VendorKind {
    /// Vendor identifier of the provider.
    pub open spec fn id(self) -> Seq<char> {
        match self {
            VendorKind::Openai => "openai"@,
        }
    }

    /// Vendor identifier of the provider.
    pub fn as_str(&self) -> (id: &'static str)
        ensures
            id@ == self.id(),
    {
        match self {
            VendorKind::Openai => "openai",
        }
    }
}

/// USD per million tokens.
#[derive(Clone, Copy, PartialEq, Eq, Structural, Debug)]
pub struct TargetPricing {
    pub input_per_million: Float64,
    pub output_per_million: Float64,
}

/// One model behind one provider, with its own prices and output cap.
#[derive(Debug)]
pub struct Target {
    pub vendor: VendorKind,
    pub model: String,
    pub max_output_tokens: u32,
    pub pricing: TargetPricing,
}

/// A primary target and the targets to fall back to, in order.
#[derive(Debug)]
pub struct Route {
    pub primary: String,
    pub fallbacks: Vec<String>,
}

/// Routes and targets that the operator configured.
pub struct Catalog {
    pub default_route: String,
    pub routes: NameMap<Route>,
    pub targets: NameMap<Target>,
}

/// Bounds on requests and on the work done for them.
#[derive(Clone, Copy, PartialEq, Eq, Structural, Debug)]
pub struct PolicyLimits {
    /// Longest time for a protected request, in milliseconds
    pub request_deadline_ms: u64,
    /// Longest time for one provider call, in milliseconds
    pub max_attempt_timeout_ms: u64,
    /// Retries after the first call to a target
    pub retries_per_target: u32,
    /// Provider calls for one request, over all its targets
    pub max_total_attempts: u32,
    /// Longest jittered wait, in milliseconds
    pub backoff_cap_ms: u64,
    /// Largest provider answer, in bytes
    pub max_upstream_response_bytes: u64,
    /// Transient failures in a row that open a target's circuit
    pub circuit_failure_threshold: u32,
    /// Time for which an opened circuit rejects calls, in milliseconds
    pub circuit_cooldown_ms: u64,
    /// Longest prompt, in characters and in bytes
    pub max_prompt_chars: u64,
    /// Largest metadata, in bytes of JSON
    pub max_metadata_bytes: u64,
    /// Generations that may run at once
    pub max_concurrent_generations: u32,
}

impl PolicyLimits {
    /// The limits that hold where the operator sets none.
    pub fn documented_defaults() -> (limits: PolicyLimits)
        ensures
            limits.request_deadline_ms == 30_000,
            limits.max_attempt_timeout_ms == 10_000,
            limits.retries_per_target == 1,
            limits.max_total_attempts == 3,
            limits.backoff_cap_ms == 2_000,
            limits.max_upstream_response_bytes == 1_048_576,
            limits.circuit_failure_threshold == 3,
            limits.circuit_cooldown_ms == 30_000,
            limits.max_prompt_chars == 4_000,
            limits.max_metadata_bytes == 1_000,
            limits.max_concurrent_generations == 32,
    {
        PolicyLimits {
            request_deadline_ms: 30_000,
            max_attempt_timeout_ms: 10_000,
            retries_per_target: 1,
            max_total_attempts: 3,
            backoff_cap_ms: 2_000,
            max_upstream_response_bytes: 1_048_576,
            circuit_failure_threshold: 3,
            circuit_cooldown_ms: 30_000,
            max_prompt_chars: 4_000,
            max_metadata_bytes: 1_000,
            max_concurrent_generations: 32,
        }
    }
}

/// Where and with which credential the provider is reached.
pub struct ProviderSettings {
    pub api_key: String,
    pub base_url: String,
}

/// Everything that the operator configured.
pub struct Settings {
    pub catalog: Catalog,
    pub provider: ProviderSettings,
    pub limits: PolicyLimits,
}

} // verus!
