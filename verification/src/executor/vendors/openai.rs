//! OpenAI Chat Completions adapter.
//!
//! One `POST {base_url}/chat/completions` request per call. `model_used` is the
//! provider-reported model. Cost uses the selected target's configured prices.
//! What is sent and what an answer means is decided here; sending and reading is
//! left to the caller.

use vstd::prelude::*;
use vstd::string::*;

use crate::common::number::Float64;
use crate::common::text;
use crate::common::text::header_text;
use crate::common::time::SystemTime;
use crate::executor::budget;
use crate::executor::budget::retry_after_header_ms;
use crate::executor::config;
use crate::executor::config::{list_contains, OpenAIConfig};
use crate::executor::error::ExecutorError;
use crate::executor::models::{ExecutionParams, ExecutionResult, Message};
use crate::executor::openai_response;
use crate::executor::openai_response::parse_successful_chat_completion;
use crate::executor::pricing;
use crate::executor::pricing::{estimate_successful_response_cost, ModelPricing};

verus! {

/// OpenAI Chat Completions API request. Absent options are not sent.
#[derive(Debug)]
pub struct ChatCompletionRequest {
    pub model: String,
    pub messages: Vec<Message>,
    pub temperature: Option<Float64>,
    pub max_tokens: Option<i64>,
    pub top_p: Option<Float64>,
}

/// What is to be done once an answer's status and headers are known.
#[derive(Debug)]
pub enum AfterHeaders {
    /// Read the whole body under the byte cap and parse it as a completion.
    ParseBody,
    /// Save this throttling, then try to refine it by the body.
    Refine(ExecutorError),
    /// The call has failed; the body does not matter.
    Fail(ExecutorError),
}

/// How a health probe ended.
#[derive(Debug)]
pub enum HealthProbe {
    /// The provider answered with this status, given as number and as text.
    Answered(u16, String),
    /// Nothing came back in time.
    TimedOut,
    /// The request failed; `connect` when no connection came about.
    Failed { connect: bool, detail: String },
}

/// OpenAI vendor.
pub struct OpenAIVendor {
    pub config: OpenAIConfig,
}

/// The wait that a throttled answer's `Retry-After` header asks for.
pub open spec fn header_wait_ms(retry_after: Option<Seq<u8>>, now: SystemTime) -> Option<u64> {
    match retry_after {
        Some(bytes) => match text::header_text_of(bytes) {
            Some(value) => match budget::retry_after(text::trimmed(value), now) {
                Some(wait) => Some(crate::common::time::clip_u64(wait.millis())),
                None => None,
            },
            None => None,
        },
        None => None,
    }
}

impl OpenAIVendor {
    /// Creates a vendor from configuration.
    ///
    /// # Errors
    /// Returns `InvalidConfiguration` when the credential is blank.
    pub fn new(config: OpenAIConfig) -> (vendor: Result<OpenAIVendor, ExecutorError>)
        ensures
            match vendor {
                Ok(vendor) => vendor.config == config && text::trimmed(config.api_key@).len() > 0,
                Err(error) => error is InvalidConfiguration && text::trimmed(config.api_key@).len()
                    == 0,
            },
    {
        if text::trim(config.api_key.as_str()).is_empty() {
            return Err(ExecutorError::InvalidConfiguration);
        }
        Ok(OpenAIVendor { config })
    }

    /// Returns the vendor identifier.
    pub fn vendor_id(&self) -> (id: &'static str)
        ensures
            id@ == "openai"@,
    {
        "openai"
    }

    /// Checks if the vendor supports the given model.
    pub fn supports_model(&self, model: &str) -> (supported: bool)
        ensures
            supported == config::texts(self.config.supported_models@).contains(model@),
    {
        list_contains(&self.config.supported_models, model)
    }

    /// Estimates successful-response cost from configured target prices.
    ///
    /// Prices are looked up by catalog target identity, not by the requested or
    /// provider-reported model string. Distinct targets may share a model.
    pub fn calculate_cost<R: Fn(i64, i64, ModelPricing) -> Float64, T: Fn(Float64) -> Float64>(
        &self,
        prompt_tokens: i64,
        completion_tokens: i64,
        target_id: &str,
        raw_cost: R,
        round_cost: T,
    ) -> (result: Result<Float64, ExecutorError>)
        requires
            forall|p: i64, c: i64, m: ModelPricing| #[trigger] raw_cost.requires((p, c, m)),
            forall|cost: Float64| #[trigger] round_cost.requires((cost,)),
        ensures
            pricing::is_estimate(
                prompt_tokens,
                completion_tokens,
                self.prices(target_id@),
                raw_cost,
                round_cost,
                result,
            ),
    {
        estimate_successful_response_cost(
            prompt_tokens,
            completion_tokens,
            self.config.pricing.get(target_id),
            raw_cost,
            round_cost,
        )
    }

    /// The configured prices of a target.
    pub open spec fn prices(self, target_id: Seq<char>) -> Option<ModelPricing> {
        if self.config.pricing@.contains_key(target_id) {
            Some(self.config.pricing@[target_id])
        } else {
            None
        }
    }

    /// Builds the request for one call.
    ///
    /// # Errors
    /// - `UnsupportedModel` when the model is not in the supported list
    /// - `InvalidPayload` when streaming is asked for
    pub fn prepare(&self, model: &str, params: ExecutionParams) -> (request: Result<
        ChatCompletionRequest,
        ExecutorError,
    >)
        ensures
            if !config::texts(self.config.supported_models@).contains(model@) {
                request matches Err(ExecutorError::UnsupportedModel(v, m)) && v@ == "openai"@ && m@
                    == model@
            } else if params.stream {
                request matches Err(ExecutorError::InvalidPayload(detail)) && detail@
                    == "Streaming is not supported for OpenAI requests"@
            } else {
                request matches Ok(request) && {
                    &&& request.model@ == model@
                    &&& request.messages == params.messages
                    &&& request.temperature == params.temperature
                    &&& request.max_tokens == params.max_tokens
                    &&& request.top_p == params.top_p
                }
            },
    {
        if !self.supports_model(model) {
            return Err(
                ExecutorError::UnsupportedModel(self.vendor_id().to_owned(), model.to_owned()),
            );
        }
        if params.stream {
            return Err(
                ExecutorError::InvalidPayload(
                    "Streaming is not supported for OpenAI requests".to_owned(),
                ),
            );
        }
        Ok(
            ChatCompletionRequest {
                model: model.to_owned(),
                messages: params.messages,
                temperature: params.temperature,
                max_tokens: params.max_tokens,
                top_p: params.top_p,
            },
        )
    }

    /// The address of the completions endpoint.
    pub fn completions_url(&self) -> (url: String)
        ensures
            url@ == self.config.base_url@ + "/chat/completions"@,
    {
        let mut url: String = self.config.base_url.clone();
        url.append("/chat/completions");
        url
    }

    /// The address of the model list, which health probes read.
    pub fn models_url(&self) -> (url: String)
        ensures
            url@ == self.config.base_url@ + "/models"@,
    {
        let mut url: String = self.config.base_url.clone();
        url.append("/models");
        url
    }

    /// The value of the authorization header.
    pub fn authorization(&self) -> (value: String)
        ensures
            value@ == "Bearer "@ + self.config.api_key@,
    {
        let mut value: String = "Bearer ".to_owned();
        value.append(self.config.api_key.as_str());
        value
    }

    /// Decides what an answer's status, as number and as text, and its
    /// `Retry-After` header mean at `now`.
    pub fn classify_headers(
        &self,
        status: u16,
        shown: &str,
        retry_after: Option<&[u8]>,
        now: SystemTime,
    ) -> (after: AfterHeaders)
        ensures
            if 200 <= status <= 299 {
                after is ParseBody
            } else if status == 401 || status == 403 {
                after matches AfterHeaders::Fail(ExecutorError::AuthenticationFailed(vendor))
                    && vendor@ == "openai"@
            } else if status == 429 {
                after matches AfterHeaders::Refine(
                    ExecutorError::RateLimitExceeded { vendor, retry_after_ms },
                ) && vendor@ == "openai"@ && retry_after_ms == header_wait_ms(
                    text::optional_bytes(retry_after),
                    now,
                )
            } else if 400 <= status <= 499 {
                after matches AfterHeaders::Fail(ExecutorError::UpstreamRejected)
            } else {
                after matches AfterHeaders::Fail(ExecutorError::ApiCallFailed(detail)) && detail@
                    == "OpenAI API error "@ + shown@
            },
    {
        if 200 <= status && status <= 299 {
            return AfterHeaders::ParseBody;
        }
        if status == 401 || status == 403 {
            return AfterHeaders::Fail(
                ExecutorError::AuthenticationFailed(self.vendor_id().to_owned()),
            );
        }
        if status == 429 {
            let retry_after_ms: Option<u64> = match retry_after {
                Some(bytes) => match header_text(bytes) {
                    Some(value) => retry_after_header_ms(value, now),
                    None => None,
                },
                None => None,
            };
            return AfterHeaders::Refine(
                ExecutorError::RateLimitExceeded {
                    vendor: self.vendor_id().to_owned(),
                    retry_after_ms,
                },
            );
        }
        if 400 <= status && status <= 499 {
            AfterHeaders::Fail(ExecutorError::UpstreamRejected)
        } else {
            let mut detail: String = "OpenAI API error ".to_owned();
            detail.append(shown);
            AfterHeaders::Fail(ExecutorError::ApiCallFailed(detail))
        }
    }

    /// Parses and prices a successful answer for a target.
    pub fn complete<R: Fn(i64, i64, ModelPricing) -> Float64, T: Fn(Float64) -> Float64>(
        &self,
        body: &[u8],
        target_id: &str,
        raw_cost: R,
        round_cost: T,
    ) -> (result: Result<ExecutionResult, ExecutorError>)
        requires
            forall|p: i64, c: i64, m: ModelPricing| #[trigger] raw_cost.requires((p, c, m)),
            forall|cost: Float64| #[trigger] round_cost.requires((cost,)),
        ensures
            match crate::common::json::json_document(body@) {
                None => result matches Err(ExecutorError::JsonError(detail)) && detail@
                    == "malformed upstream JSON"@,
                Some(document) => openai_response::is_result_of(
                    document,
                    self.prices(target_id@),
                    raw_cost,
                    round_cost,
                    result,
                ),
            },
    {
        parse_successful_chat_completion(
            body,
            self.config.pricing.get(target_id),
            raw_cost,
            round_cost,
        )
    }

    /// Decides what a health probe with the given timeout means.
    pub fn classify_health(&self, probe: HealthProbe, timeout_secs: u64) -> (verdict: Result<
        (),
        ExecutorError,
    >)
        requires
            probe is TimedOut ==> timeout_secs * 1000 <= u64::MAX,
        ensures
            match probe {
                HealthProbe::TimedOut => verdict == Err::<(), ExecutorError>(
                    ExecutorError::TimeoutError((timeout_secs * 1000) as u64),
                ),
                HealthProbe::Failed { connect, detail } => verdict matches Err(
                    ExecutorError::NetworkError(reason),
                ) && reason@ == (if connect {
                    "Failed to connect to OpenAI API: "@ + detail@
                } else {
                    detail@
                }),
                HealthProbe::Answered(status, shown) => if status == 200 {
                    verdict is Ok
                } else if status == 401 || status == 403 {
                    verdict matches Err(ExecutorError::AuthenticationFailed(vendor)) && vendor@
                        == "openai"@
                } else if status == 429 {
                    verdict matches Err(ExecutorError::RateLimitExceeded { vendor, retry_after_ms })
                        && vendor@ == "openai"@ && retry_after_ms is None
                } else {
                    verdict matches Err(ExecutorError::ApiCallFailed(reason)) && reason@
                        == "Health check failed with status: "@ + shown@
                },
            },
    {
        match probe {
            HealthProbe::TimedOut => Err(ExecutorError::TimeoutError(timeout_secs * 1000)),
            HealthProbe::Failed { connect, detail } => {
                if connect {
                    let mut reason: String = "Failed to connect to OpenAI API: ".to_owned();
                    reason.append(detail.as_str());
                    Err(ExecutorError::NetworkError(reason))
                } else {
                    Err(ExecutorError::NetworkError(detail))
                }
            },
            HealthProbe::Answered(status, shown) => {
                if status == 200 {
                    Ok(())
                } else if status == 401 || status == 403 {
                    Err(ExecutorError::AuthenticationFailed(self.vendor_id().to_owned()))
                } else if status == 429 {
                    Err(
                        ExecutorError::RateLimitExceeded {
                            vendor: self.vendor_id().to_owned(),
                            retry_after_ms: None,
                        },
                    )
                } else {
                    let mut reason: String = "Health check failed with status: ".to_owned();
                    reason.append(shown.as_str());
                    Err(ExecutorError::ApiCallFailed(reason))
                }
            },
        }
    }
}

} // verus!
