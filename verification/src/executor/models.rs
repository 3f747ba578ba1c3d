//! Data models for the executor layer.

use vstd::prelude::*;

use crate::common::contracts::RoutePlan;
use crate::common::number::Float64;

verus! {

/// Complete execution request containing routing plan and payload.
#[derive(Debug)]
pub struct ExecutionRequest {
    /// Hops to try
    pub plan: RoutePlan,
    /// Parameters of the generation as a JSON object
    pub payload: serde_json::Value,
}

/// Result of LLM execution with response content and metrics.
#[derive(Clone, Debug)]
pub struct ExecutionResult {
    /// Generated AI response content
    pub content: String,
    /// Provider-reported message role. Successful Chat Completions results are exactly `assistant`.
    pub role: String,
    /// Provider-reported model identifier, which may differ from the requested alias
    pub model_used: String,
    /// Number of tokens in the prompt
    pub prompt_tokens: i64,
    /// Number of tokens in the completion
    pub completion_tokens: i64,
    /// Estimated successful-response cost in USD from configured target prices
    pub total_cost: Float64,
    /// Reason for completion ("stop", "length", "content_filter", etc.)
    pub finish_reason: String,
}

/// Execution parameters extracted from request payload.
#[derive(Clone, Debug)]
pub struct ExecutionParams {
    /// Conversation messages
    pub messages: Vec<Message>,
    /// Sampling temperature (0.0 to 2.0)
    pub temperature: Option<Float64>,
    /// Maximum tokens to generate
    pub max_tokens: Option<i64>,
    /// Nucleus sampling parameter
    pub top_p: Option<Float64>,
    /// Whether to stream the response
    pub stream: bool,
}

/// Chat message in conversation.
#[derive(Clone, Debug)]
pub struct Message {
    /// Message role ("system", "user", "assistant")
    pub role: String,
    /// Message content
    pub content: String,
}

/// Role and content of a message.
#[verifier::ext_equal]
pub struct MessageView {
    pub role: Seq<char>,
    pub content: Seq<char>,
}

impl View for Message {
    type V = MessageView;

    open spec fn view(&self) -> MessageView {
        MessageView { role: self.role@, content: self.content@ }
    }
}

/// Vendor configuration for API access.
#[derive(Clone)]
pub struct VendorConfig {
    /// Vendor identifier (e.g., "openai", "anthropic")
    pub vendor_id: String,
    /// API key for authentication
    pub api_key: String,
    /// Base URL for API endpoint
    pub base_url: String,
    /// Request timeout in milliseconds
    pub timeout_ms: u64,
    /// Maximum number of retries
    pub max_retries: u32,
}

impl Default for VendorConfig {
    fn default() -> (config: VendorConfig)
        ensures
            config.vendor_id@ == Seq::<char>::empty(),
            config.api_key@ == Seq::<char>::empty(),
            config.base_url@ == Seq::<char>::empty(),
            config.timeout_ms == 30_000,
            config.max_retries == 3,
    {
        VendorConfig {
            vendor_id: String::new(),
            api_key: String::new(),
            base_url: String::new(),
            timeout_ms: 30_000,
            max_retries: 3,
        }
    }
}

} // verus!
