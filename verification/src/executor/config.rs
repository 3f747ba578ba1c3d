//! Configuration for the executor layer.

use vstd::prelude::*;

use crate::common::config::{Settings, Target};
use crate::common::names::NameMap;
use crate::common::number::Float64;
use crate::common::text;
use crate::common::text::{parse_u32, parse_u64, same_text};
use crate::common::time::Duration;
use crate::executor::circuit::{RegistryView, TargetCircuitRegistry};
use crate::executor::pricing::ModelPricing;
use crate::executor::run::ExecutionPolicy;

verus! {

/// Largest provider answer where nothing else is configured, in bytes.
pub const DEFAULT_MAX_RESPONSE_BYTES: u64 = 1_048_576;

/// Transient failures in a row that open a circuit where nothing else is
/// configured.
pub const DEFAULT_CIRCUIT_FAILURE_THRESHOLD: u32 = 3;

/// Cooldown of an opened circuit where nothing else is configured, in
/// milliseconds.
pub const DEFAULT_CIRCUIT_COOLDOWN_MS: u64 = 30_000;

/// OpenAI vendor configuration.
pub struct OpenAIConfig {
    /// API key for authentication
    pub api_key: String,
    /// Base URL for API endpoint
    pub base_url: String,
    /// Request timeout in milliseconds
    pub timeout_ms: u64,
    /// List of supported model IDs
    pub supported_models: Vec<String>,
    /// Pricing keyed by catalog target identity, not provider model string.
    pub pricing: NameMap<ModelPricing>,
    /// Maximum upstream success body size in bytes
    pub max_response_bytes: u64,
}

/// The texts of a list of strings.
pub open spec fn texts(list: Seq<String>) -> Seq<Seq<char>> {
    list.map_values(|item: String| item@)
}

/// The price of one dollar in, two dollars out.
pub open spec fn sample_pricing() -> ModelPricing {
    ModelPricing {
        input_per_million: Float64 { bits: 0x3ff0_0000_0000_0000 },
        output_per_million: Float64 { bits: 0x4000_0000_0000_0000 },
    }
}

/// The price of a quarter dollar in, half a dollar out.
pub open spec fn sample_mini_pricing() -> ModelPricing {
    ModelPricing {
        input_per_million: Float64 { bits: 0x3fd0_0000_0000_0000 },
        output_per_million: Float64 { bits: 0x3fe0_0000_0000_0000 },
    }
}

/// The number that a variable's text writes, or a default.
pub open spec fn number_or(value: Option<Seq<char>>, max: nat, default: nat) -> nat {
    match value {
        Some(value) => match text::unsigned_value(value, max) {
            Some(n) => n,
            None => default,
        },
        None => default,
    }
}

/// The number that a variable's text writes, or a default.
pub(crate) fn u64_or(value: Option<String>, default: u64) -> (n: u64)
    ensures
        n == number_or(text::optional_text(value), u64::MAX as nat, default as nat),
{
    match value {
        Some(value) => match parse_u64(value.as_str()) {
            Some(n) => n,
            None => default,
        },
        None => default,
    }
}

fn u32_or(value: Option<String>, default: u32) -> (n: u32)
    ensures
        n == number_or(text::optional_text(value), u32::MAX as nat, default as nat),
{
    match value {
        Some(value) => match parse_u32(value.as_str()) {
            Some(n) => n,
            None => default,
        },
        None => default,
    }
}

/// Whether `config` is the sample configuration for the given values of its
/// variables.
pub open spec fn is_sample_config(
    config: OpenAIConfig,
    api_key: Option<Seq<char>>,
    base_url: Option<Seq<char>>,
    timeout_ms: Option<Seq<char>>,
) -> bool {
    &&& config.api_key@ == (match api_key {
        Some(key) => key,
        None => Seq::<char>::empty(),
    })
    &&& config.base_url@ == (match base_url {
        Some(url) => url,
        None => "https://api.openai.com/v1"@,
    })
    &&& config.timeout_ms == number_or(timeout_ms, u64::MAX as nat, 30_000)
    &&& texts(config.supported_models@) == seq!["gpt-4"@, "gpt-4-turbo"@, "gpt-3.5-turbo"@]
    &&& config.pricing@ == Map::<Seq<char>, ModelPricing>::empty().insert(
        "gpt-4"@,
        sample_pricing(),
    ).insert("gpt-4-turbo"@, sample_pricing()).insert("gpt-3.5-turbo"@, sample_pricing())
    &&& config.max_response_bytes == DEFAULT_MAX_RESPONSE_BYTES
}

/// What is wrong with an OpenAI configuration, if anything.
pub open spec fn openai_fault(config: OpenAIConfig) -> Option<Seq<char>> {
    if config.api_key@.len() == 0 {
        Some("OPENAI_API_KEY is not set or empty"@)
    } else if config.supported_models@.len() == 0 {
        Some("No supported models configured"@)
    } else {
        None
    }
}

/// What an operator should be warned of, in order.
pub open spec fn warnings_of(config: ExecutorConfig) -> Seq<Seq<char>> {
    let missing = if config.openai is None && config.anthropic_api_key is None {
        seq!["No LLM vendor API keys configured. Set OPENAI_API_KEY or ANTHROPIC_API_KEY."@]
    } else {
        seq![]
    };
    let openai = if config.openai matches Some(openai) && openai_fault(openai) is Some {
        seq!["OpenAI configuration invalid: "@ + openai_fault(config.openai.unwrap()).unwrap()]
    } else {
        seq![]
    };
    let anthropic = if config.anthropic_api_key matches Some(key) && key@.len() == 0 {
        seq!["ANTHROPIC_API_KEY is empty"@]
    } else {
        seq![]
    };
    missing + openai + anthropic
}

/// Whether a list of strings holds a text.
pub fn list_contains(list: &Vec<String>, item: &str) -> (found: bool)
    ensures
        found == texts(list@).contains(item@),
{
    let mut i: usize = 0;
    while i < list.len()
        invariant
            i <= list.len(),
            forall|k: int| 0 <= k < i ==> (#[trigger] list@[k])@ != item@,
        decreases list.len() - i,
    {
        if same_text(list[i].as_str(), item) {
            assert(texts(list@)[i as int] == item@);
            return true;
        }
        i += 1;
    }
    assert forall|k: int| 0 <= k < texts(list@).len() implies texts(list@)[k] != item@ by {
        assert(texts(list@)[k] == list@[k]@);
    }
    false
}

impl OpenAIConfig {
    /// Builds the configuration from the values of `OPENAI_API_KEY`,
    /// `OPENAI_BASE_URL` and `OPENAI_TIMEOUT_MS`.
    ///
    /// The listed models and prices are samples; a catalog's targets replace
    /// them through [`ExecutorConfig::from_settings`].
    pub fn from_vars(
        api_key: Option<String>,
        base_url: Option<String>,
        timeout_ms: Option<String>,
    ) -> (config: OpenAIConfig)
        ensures
            is_sample_config(config, text::optional_text(api_key), text::optional_text(base_url), text::optional_text(timeout_ms)),
    {
        let sample: ModelPricing = ModelPricing::new(
            Float64 { bits: 0x3ff0_0000_0000_0000 },
            Float64 { bits: 0x4000_0000_0000_0000 },
        );
        let mut pricing: NameMap<ModelPricing> = NameMap::new();
        pricing.insert("gpt-4".to_owned(), sample);
        pricing.insert("gpt-4-turbo".to_owned(), sample);
        pricing.insert("gpt-3.5-turbo".to_owned(), sample);
        let mut supported_models: Vec<String> = Vec::new();
        supported_models.push("gpt-4".to_owned());
        supported_models.push("gpt-4-turbo".to_owned());
        supported_models.push("gpt-3.5-turbo".to_owned());
        assert(texts(supported_models@) =~= seq!["gpt-4"@, "gpt-4-turbo"@, "gpt-3.5-turbo"@]);
        OpenAIConfig {
            api_key: match api_key {
                Some(key) => key,
                None => String::new(),
            },
            base_url: match base_url {
                Some(url) => url,
                None => "https://api.openai.com/v1".to_owned(),
            },
            timeout_ms: u64_or(timeout_ms, 30_000),
            supported_models,
            pricing,
            max_response_bytes: DEFAULT_MAX_RESPONSE_BYTES,
        }
    }

    /// A local-only configuration with a dummy credential and an address where
    /// nothing listens.
    pub fn for_tests() -> (config: OpenAIConfig)
        ensures
            config.api_key@ == "test-dummy-openai-key"@,
            config.base_url@ == "http://127.0.0.1:9/v1"@,
            config.timeout_ms == 200,
            texts(config.supported_models@) == seq![
                "example-chat-model"@,
                "example-chat-model-mini"@,
                "gpt-4"@,
                "gpt-4-turbo"@,
                "gpt-3.5-turbo"@,
            ],
            config.pricing@ == Map::<Seq<char>, ModelPricing>::empty().insert(
                "primary"@,
                sample_pricing(),
            ).insert("secondary"@, sample_mini_pricing()).insert(
                "example-chat-model"@,
                sample_pricing(),
            ).insert("example-chat-model-mini"@, sample_mini_pricing()).insert(
                "gpt-4"@,
                sample_pricing(),
            ).insert("gpt-4-turbo"@, sample_pricing()).insert("gpt-3.5-turbo"@, sample_pricing()),
            config.max_response_bytes == DEFAULT_MAX_RESPONSE_BYTES,
    {
        let sample: ModelPricing = ModelPricing::new(
            Float64 { bits: 0x3ff0_0000_0000_0000 },
            Float64 { bits: 0x4000_0000_0000_0000 },
        );
        let mini: ModelPricing = ModelPricing::new(
            Float64 { bits: 0x3fd0_0000_0000_0000 },
            Float64 { bits: 0x3fe0_0000_0000_0000 },
        );
        let mut pricing: NameMap<ModelPricing> = NameMap::new();
        pricing.insert("primary".to_owned(), sample);
        pricing.insert("secondary".to_owned(), mini);
        pricing.insert("example-chat-model".to_owned(), sample);
        pricing.insert("example-chat-model-mini".to_owned(), mini);
        pricing.insert("gpt-4".to_owned(), sample);
        pricing.insert("gpt-4-turbo".to_owned(), sample);
        pricing.insert("gpt-3.5-turbo".to_owned(), sample);
        let mut supported_models: Vec<String> = Vec::new();
        supported_models.push("example-chat-model".to_owned());
        supported_models.push("example-chat-model-mini".to_owned());
        supported_models.push("gpt-4".to_owned());
        supported_models.push("gpt-4-turbo".to_owned());
        supported_models.push("gpt-3.5-turbo".to_owned());
        OpenAIConfig {
            api_key: "test-dummy-openai-key".to_owned(),
            base_url: "http://127.0.0.1:9/v1".to_owned(),
            timeout_ms: 200,
            supported_models,
            pricing,
            max_response_bytes: DEFAULT_MAX_RESPONSE_BYTES,
        }
    }

    /// Validates the configuration.
    pub fn validate(&self) -> (verdict: Result<(), String>)
        ensures
            match verdict {
                Ok(()) => openai_fault(*self) is None,
                Err(reason) => openai_fault(*self) == Some(reason@),
            },
    {
        if self.api_key.as_str().is_empty() {
            return Err("OPENAI_API_KEY is not set or empty".to_owned());
        }
        if self.supported_models.is_empty() {
            return Err("No supported models configured".to_owned());
        }
        Ok(())
    }
}

/// Configuration for the executor layer.
pub struct ExecutorConfig {
    /// OpenAI vendor configuration
    pub openai: Option<OpenAIConfig>,
    /// Anthropic API key (future)
    pub anthropic_api_key: Option<String>,
    /// Per-attempt timeout in milliseconds, capped by remaining deadline
    pub timeout_ms: u64,
    /// Maximum retries after the first attempt on one target
    pub max_retries: u32,
    /// Maximum actual provider calls across primary and fallback hops
    pub max_total_attempts: u32,
    /// Exponential full-jitter cap in milliseconds
    pub backoff_cap_ms: u64,
    /// Transient failures in a row that open a target's circuit
    pub circuit_failure_threshold: u32,
    /// Time for which an opened circuit rejects calls, in milliseconds
    pub circuit_cooldown_ms: u64,
}

/// The prices of a target.
pub open spec fn pricing_of(target: Target) -> ModelPricing {
    ModelPricing {
        input_per_million: target.pricing.input_per_million,
        output_per_million: target.pricing.output_per_million,
    }
}

/// Whether some target of a catalog requests `model`.
pub open spec fn requested_model(targets: Map<Seq<char>, Target>, model: Seq<char>) -> bool {
    exists|id: Seq<char>| #[trigger] targets.contains_key(id) && targets[id].model@ == model
}

/// Whether a vendor configuration is the one that a catalog asks for: every
/// requested model once, and each target's own prices.
pub open spec fn is_catalog_config(config: OpenAIConfig, settings: Settings) -> bool {
    let targets = settings.catalog.targets@;
    &&& config.api_key@ == settings.provider.api_key@
    &&& config.base_url@ == settings.provider.base_url@
    &&& config.timeout_ms == settings.limits.max_attempt_timeout_ms
    &&& config.max_response_bytes == settings.limits.max_upstream_response_bytes
    &&& texts(config.supported_models@).no_duplicates()
    &&& forall|model: Seq<char>| #[trigger]
        texts(config.supported_models@).contains(model) <==> requested_model(targets, model)
    &&& forall|id: Seq<char>| #[trigger]
        config.pricing@.contains_key(id) <==> targets.contains_key(id)
    &&& forall|id: Seq<char>| #[trigger]
        targets.contains_key(id) ==> config.pricing@[id] == pricing_of(targets[id])
}

impl ExecutorConfig {
    /// Builds executor configuration from validated injected settings.
    pub fn from_settings(settings: &Settings) -> (config: ExecutorConfig)
        ensures
            config.openai matches Some(openai) && is_catalog_config(openai, *settings),
            config.anthropic_api_key is None,
            config.timeout_ms == settings.limits.max_attempt_timeout_ms,
            config.max_retries == settings.limits.retries_per_target,
            config.max_total_attempts == settings.limits.max_total_attempts,
            config.backoff_cap_ms == settings.limits.backoff_cap_ms,
            config.circuit_failure_threshold == settings.limits.circuit_failure_threshold,
            config.circuit_cooldown_ms == settings.limits.circuit_cooldown_ms,
    {
        let targets: &NameMap<Target> = &settings.catalog.targets;
        let mut pricing: NameMap<ModelPricing> = NameMap::new();
        let mut supported_models: Vec<String> = Vec::new();
        let count: usize = targets.len();
        let ghost names = targets.names();
        let mut i: usize = 0;
        while i < count
            invariant
                i <= count,
                names == targets.names(),
                count == names.len(),
                names.no_duplicates(),
                forall|name: Seq<char>| #[trigger]
                    targets@.contains_key(name) <==> names.contains(name),
                texts(supported_models@).no_duplicates(),
                forall|model: Seq<char>| #[trigger]
                    texts(supported_models@).contains(model) <==> exists|k: int|
                        0 <= k < i && targets@[#[trigger] names[k]].model@ == model,
                forall|id: Seq<char>| #[trigger]
                    pricing@.contains_key(id) <==> names.take(i as int).contains(id),
                forall|k: int|
                    0 <= k < i ==> pricing@[#[trigger] names[k]] == pricing_of(targets@[names[k]]),
            decreases count - i,
        {
            let (target_id, target): (&str, &Target) = targets.entry(i);
            let ghost before = texts(supported_models@);
            let known: bool = list_contains(&supported_models, target.model.as_str());
            if !known {
                supported_models.push(target.model.clone());
                assert(texts(supported_models@) =~= before.push(target.model@));
            }
            proof {
                let after = texts(supported_models@);
                assert forall|model: Seq<char>| #[trigger] after.contains(model) <==> exists|k: int|
                    0 <= k < i + 1 && targets@[#[trigger] names[k]].model@ == model by {
                    if after.contains(model) {
                        if before.contains(model) {
                            let k = choose|k: int|
                                0 <= k < i && targets@[#[trigger] names[k]].model@ == model;
                            assert(targets@[names[k]].model@ == model);
                        } else {
                            let at = choose|at: int| 0 <= at < after.len() && after[at] == model;
                            if at < before.len() {
                                assert(before[at] == model);
                            }
                            assert(targets@[names[i as int]].model@ == model);
                        }
                    }
                    if exists|k: int| 0 <= k < i + 1 && targets@[#[trigger] names[k]].model@ == model {
                        let k = choose|k: int|
                            0 <= k < i + 1 && targets@[#[trigger] names[k]].model@ == model;
                        if k < i {
                            assert(before.contains(model));
                            let at = choose|at: int| 0 <= at < before.len() && before[at] == model;
                            assert(after[at] == model);
                        } else if known {
                            assert(after == before);
                        } else {
                            assert(after[before.len() as int] == model);
                        }
                    }
                }
                assert(names.take(i + 1) =~= names.take(i as int).push(names[i as int]));
                assert forall|id: Seq<char>| #[trigger]
                    names.take(i + 1).contains(id) <==> names.take(i as int).contains(id) || id
                        == names[i as int] by {
                    if names.take(i as int).contains(id) {
                        let at = choose|at: int| 0 <= at < i && names.take(i as int)[at] == id;
                        assert(names.take(i + 1)[at] == id);
                    }
                    if id == names[i as int] {
                        assert(names.take(i + 1)[i as int] == id);
                    }
                    if names.take(i + 1).contains(id) {
                        let longer = names.take(i + 1);
                        let at = choose|at: int| 0 <= at < longer.len() && longer[at] == id;
                        if at < i {
                            assert(names.take(i as int)[at] == id);
                        }
                    }
                }
            }
            pricing.insert(
                target_id.to_owned(),
                ModelPricing::new(
                    target.pricing.input_per_million,
                    target.pricing.output_per_million,
                ),
            );
            i += 1;
        }
        proof {
            assert(names.take(count as int) =~= names);
            assert forall|model: Seq<char>| #[trigger]
                texts(supported_models@).contains(model) <==> requested_model(targets@, model) by {
                if texts(supported_models@).contains(model) {
                    let k = choose|k: int|
                        0 <= k < count && targets@[#[trigger] names[k]].model@ == model;
                    assert(names.contains(names[k]));
                    assert(targets@.contains_key(names[k]));
                }
                if requested_model(targets@, model) {
                    let id = choose|id: Seq<char>| #[trigger]
                        targets@.contains_key(id) && targets@[id].model@ == model;
                    assert(names.contains(id));
                    let k = choose|k: int| 0 <= k < names.len() && names[k] == id;
                    assert(targets@[names[k]].model@ == model);
                }
            }
            assert forall|id: Seq<char>| #[trigger] targets@.contains_key(id) implies pricing@[id]
                == pricing_of(targets@[id]) by {
                assert(names.contains(id));
                let k = choose|k: int| 0 <= k < names.len() && names[k] == id;
                assert(pricing@[names[k]] == pricing_of(targets@[names[k]]));
            }
        }
        ExecutorConfig {
            openai: Some(
                OpenAIConfig {
                    api_key: settings.provider.api_key.clone(),
                    base_url: settings.provider.base_url.clone(),
                    timeout_ms: settings.limits.max_attempt_timeout_ms,
                    supported_models,
                    pricing,
                    max_response_bytes: settings.limits.max_upstream_response_bytes,
                },
            ),
            anthropic_api_key: None,
            timeout_ms: settings.limits.max_attempt_timeout_ms,
            max_retries: settings.limits.retries_per_target,
            max_total_attempts: settings.limits.max_total_attempts,
            backoff_cap_ms: settings.limits.backoff_cap_ms,
            circuit_failure_threshold: settings.limits.circuit_failure_threshold,
            circuit_cooldown_ms: settings.limits.circuit_cooldown_ms,
        }
    }

    /// A policy without vendors.
    ///
    /// `max_total_attempts` allows the configured per-target retries, so that
    /// one target is never silently capped by the global budget.
    pub fn mock_policy(max_retries: u32, timeout_ms: u64) -> (config: ExecutorConfig)
        ensures
            config.openai is None,
            config.anthropic_api_key is None,
            config.timeout_ms == timeout_ms,
            config.max_retries == max_retries,
            config.max_total_attempts == (if max_retries < u32::MAX {
                max_retries + 1
            } else {
                u32::MAX as int
            }),
            config.backoff_cap_ms == 2_000,
            config.circuit_failure_threshold == DEFAULT_CIRCUIT_FAILURE_THRESHOLD,
            config.circuit_cooldown_ms == DEFAULT_CIRCUIT_COOLDOWN_MS,
    {
        ExecutorConfig {
            openai: None,
            anthropic_api_key: None,
            timeout_ms,
            max_retries,
            max_total_attempts: max_retries.saturating_add(1),
            backoff_cap_ms: 2_000,
            circuit_failure_threshold: DEFAULT_CIRCUIT_FAILURE_THRESHOLD,
            circuit_cooldown_ms: DEFAULT_CIRCUIT_COOLDOWN_MS,
        }
    }

    /// Builds the configuration from the values of the provider's variables
    /// (`OPENAI_API_KEY`, `OPENAI_BASE_URL`, `OPENAI_TIMEOUT_MS`,
    /// `ANTHROPIC_API_KEY`) and of `EXECUTOR_TIMEOUT_MS`,
    /// `EXECUTOR_MAX_RETRIES`, `OPMUX_MAX_TOTAL_ATTEMPTS` and
    /// `OPMUX_BACKOFF_CAP_MS`.
    ///
    /// OpenAI is configured exactly when its key is set. A value that is absent
    /// or no number takes its default.
    pub fn from_vars(
        openai_api_key: Option<String>,
        openai_base_url: Option<String>,
        openai_timeout_ms: Option<String>,
        anthropic_api_key: Option<String>,
        timeout_ms: Option<String>,
        max_retries: Option<String>,
        max_total_attempts: Option<String>,
        backoff_cap_ms: Option<String>,
    ) -> (config: ExecutorConfig)
        ensures
            match config.openai {
                Some(openai) => openai_api_key is Some && is_sample_config(
                    openai,
                    text::optional_text(openai_api_key),
                    text::optional_text(openai_base_url),
                    text::optional_text(openai_timeout_ms),
                ),
                None => openai_api_key is None,
            },
            config.anthropic_api_key == anthropic_api_key,
            config.timeout_ms == number_or(text::optional_text(timeout_ms), u64::MAX as nat, 30_000),
            config.max_retries == number_or(text::optional_text(max_retries), u32::MAX as nat, 3),
            config.max_total_attempts == number_or(text::optional_text(max_total_attempts), u32::MAX as nat, 3),
            config.backoff_cap_ms == number_or(text::optional_text(backoff_cap_ms), u64::MAX as nat, 2_000),
            config.circuit_failure_threshold == DEFAULT_CIRCUIT_FAILURE_THRESHOLD,
            config.circuit_cooldown_ms == DEFAULT_CIRCUIT_COOLDOWN_MS,
    {
        let openai: Option<OpenAIConfig> = if openai_api_key.is_some() {
            Some(OpenAIConfig::from_vars(openai_api_key, openai_base_url, openai_timeout_ms))
        } else {
            None
        };
        ExecutorConfig {
            openai,
            anthropic_api_key,
            timeout_ms: u64_or(timeout_ms, 30_000),
            max_retries: u32_or(max_retries, 3),
            max_total_attempts: u32_or(max_total_attempts, 3),
            backoff_cap_ms: u64_or(backoff_cap_ms, 2_000),
            circuit_failure_threshold: DEFAULT_CIRCUIT_FAILURE_THRESHOLD,
            circuit_cooldown_ms: DEFAULT_CIRCUIT_COOLDOWN_MS,
        }
    }

    /// Validates the configuration. What is wrong with it comes back as warnings
    /// for the operator; none of them keeps the process from starting.
    pub fn validate(&self) -> (warnings: Vec<String>)
        ensures
            texts(warnings@) == warnings_of(*self),
    {
        let mut warnings: Vec<String> = Vec::new();
        if self.openai.is_none() && self.anthropic_api_key.is_none() {
            warnings.push(
                "No LLM vendor API keys configured. Set OPENAI_API_KEY or ANTHROPIC_API_KEY.".to_owned(),
            );
        }
        if let Some(config) = &self.openai {
            if let Err(reason) = config.validate() {
                let mut warning: String = "OpenAI configuration invalid: ".to_owned();
                warning.append(reason.as_str());
                warnings.push(warning);
            }
        }
        if let Some(key) = &self.anthropic_api_key {
            if key.as_str().is_empty() {
                warnings.push("ANTHROPIC_API_KEY is empty".to_owned());
            }
        }
        warnings
    }

    /// The limits that hold for every hop of a request.
    pub fn policy(&self) -> (policy: ExecutionPolicy)
        ensures
            policy.max_retries == self.max_retries,
            policy.attempt_timeout.nanos == self.timeout_ms * 1_000_000,
            policy.backoff_cap.nanos == self.backoff_cap_ms * 1_000_000,
    {
        ExecutionPolicy {
            max_retries: self.max_retries,
            attempt_timeout: Duration::from_millis(self.timeout_ms),
            backoff_cap: Duration::from_millis(self.backoff_cap_ms),
        }
    }

    /// A registry in which every target is closed, with this configuration's
    /// threshold and cooldown.
    pub fn circuits(&self) -> (registry: TargetCircuitRegistry)
        ensures
            registry@ == (RegistryView {
                threshold: if self.circuit_failure_threshold == 0 {
                    1
                } else {
                    self.circuit_failure_threshold
                },
                cooldown: Duration { nanos: (self.circuit_cooldown_ms * 1_000_000) as u128 },
                circuits: Map::empty(),
            }),
    {
        let cooldown: Duration = Duration::from_millis(self.circuit_cooldown_ms);
        assert(cooldown == (Duration { nanos: (self.circuit_cooldown_ms * 1_000_000) as u128 }));
        TargetCircuitRegistry::new(self.circuit_failure_threshold, cooldown)
    }
}

impl Default for ExecutorConfig {
    fn default() -> (config: ExecutorConfig)
        ensures
            config.openai is None,
            config.anthropic_api_key is None,
            config.timeout_ms == 30_000,
            config.max_retries == 3,
            config.max_total_attempts == 4,
            config.backoff_cap_ms == 2_000,
            config.circuit_failure_threshold == DEFAULT_CIRCUIT_FAILURE_THRESHOLD,
            config.circuit_cooldown_ms == DEFAULT_CIRCUIT_COOLDOWN_MS,
    {
        Self::mock_policy(3, 30_000)
    }
}

} // verus!
