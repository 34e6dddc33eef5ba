//! The request of `POST /v1/chat/completions`.
use vstd::prelude::*;

verus! {

/// A JSON document, as `serde_json` holds it. Requests carry such values; no
/// check looks inside them.
#[verifier::external_type_specification]
#[verifier::external_body]
pub struct ExValue(serde_json::Value);

/// `Clone` on `serde_json::Value`: the copy is the same document.
pub assume_specification[ <serde_json::Value as Clone>::clone ](value: &serde_json::Value) -> (copy:
    serde_json::Value)
    ensures
        copy == value,
;

/// A 64-bit floating-point number by its IEEE 754 bit pattern. Requests carry
/// such numbers; no check computes with them.
#[derive(Debug, Clone, Copy, PartialEq, Eq)]
pub struct Float64 {
    pub bits: u64,
}

/// A chat completion request.
#[derive(Debug)]
pub struct ChatCompletionRequest {
    /// Names the agent that answers; empty for the default agent.
    pub model: String,
    pub messages: Vec<ChatCompletionMessage>,
    pub stream: bool,
    pub temperature: Option<Float64>,
    pub max_tokens: Option<u32>,
    pub top_p: Option<Float64>,
    pub stop: Option<serde_json::Value>,
    pub presence_penalty: Option<Float64>,
    pub frequency_penalty: Option<Float64>,
    pub tools: Option<Vec<ChatCompletionTool>>,
    pub tool_choice: Option<serde_json::Value>,
    pub stream_options: Option<StreamOptions>,
    pub n: Option<u32>,
    pub response_format: Option<serde_json::Value>,
    pub seed: Option<i64>,
    pub logprobs: Option<bool>,
    pub top_logprobs: Option<u32>,
    pub user: Option<String>,
    pub logit_bias: Option<serde_json::Value>,
    pub max_completion_tokens: Option<u32>,
    // Fields that would change how the request is carried out. They are held so
    // that they can be refused rather than dropped.
    pub parallel_tool_calls: Option<bool>,
    pub service_tier: Option<String>,
    pub functions: Option<serde_json::Value>,
    pub function_call: Option<serde_json::Value>,
    pub reasoning_effort: Option<String>,
    pub modalities: Option<serde_json::Value>,
    pub audio: Option<serde_json::Value>,
    pub prediction: Option<serde_json::Value>,
    pub web_search_options: Option<serde_json::Value>,
    // Annotations without effect: held and never refused.
    pub metadata: Option<serde_json::Value>,
    pub store: Option<bool>,
}

#[derive(Debug)]
pub struct StreamOptions {
    pub include_usage: bool,
}

/// One message of the conversation so far.
#[derive(Debug, Clone)]
pub struct ChatCompletionMessage {
    pub role: String,
    pub content: Option<String>,
    pub name: Option<String>,
    pub tool_calls: Option<Vec<ToolCall>>,
    pub tool_call_id: Option<String>,
}

#[derive(Debug, Clone)]
pub struct ChatCompletionTool {
    /// `type` on the wire.
    pub kind: String,
    pub function: ToolFunction,
}

#[derive(Debug)]
pub struct ToolFunction {
    pub name: String,
    pub description: Option<String>,
    /// JSON `null` where the client leaves the parameters out.
    pub parameters: serde_json::Value,
}

#[derive(Debug, Clone)]
pub struct ToolCall {
    pub id: String,
    /// `type` on the wire.
    pub kind: String,
    pub function: FunctionCall,
}

#[derive(Debug, Clone)]
pub struct FunctionCall {
    pub name: String,
    pub arguments: String,
}

impl Clone for ToolFunction {
    fn clone(&self) -> (copy: ToolFunction)
        ensures
            copy == *self,
    {
        ToolFunction {
            name: self.name.clone(),
            description: match &self.description {
                Some(description) => Some(description.clone()),
                None => None,
            },
            parameters: self.parameters.clone(),
        }
    }
}

impl Default for ChatCompletionRequest {
    /// The request in which everything that may be left out is left out, and
    /// that has no messages yet.
    fn default() -> (req: ChatCompletionRequest)
        ensures
            req.model@ == Seq::<char>::empty(),
            req.messages@ == Seq::<ChatCompletionMessage>::empty(),
            !req.stream,
            req.temperature is None,
            req.max_tokens is None,
            req.top_p is None,
            req.stop is None,
            req.presence_penalty is None,
            req.frequency_penalty is None,
            req.tools is None,
            req.tool_choice is None,
            req.stream_options is None,
            req.n is None,
            req.response_format is None,
            req.seed is None,
            req.logprobs is None,
            req.top_logprobs is None,
            req.user is None,
            req.logit_bias is None,
            req.max_completion_tokens is None,
            req.parallel_tool_calls is None,
            req.service_tier is None,
            req.functions is None,
            req.function_call is None,
            req.reasoning_effort is None,
            req.modalities is None,
            req.audio is None,
            req.prediction is None,
            req.web_search_options is None,
            req.metadata is None,
            req.store is None,
    {
        ChatCompletionRequest {
            model: String::new(),
            messages: Vec::new(),
            stream: false,
            temperature: None,
            max_tokens: None,
            top_p: None,
            stop: None,
            presence_penalty: None,
            frequency_penalty: None,
            tools: None,
            tool_choice: None,
            stream_options: None,
            n: None,
            response_format: None,
            seed: None,
            logprobs: None,
            top_logprobs: None,
            user: None,
            logit_bias: None,
            max_completion_tokens: None,
            parallel_tool_calls: None,
            service_tier: None,
            functions: None,
            function_call: None,
            reasoning_effort: None,
            modalities: None,
            audio: None,
            prediction: None,
            web_search_options: None,
            metadata: None,
            store: None,
        }
    }
}

}
