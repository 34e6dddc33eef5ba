use serde_json::{from_str, from_value, Value};
use zeroclaw_gateway::error::Response;
use zeroclaw_gateway::request::{
    ChatCompletionMessage, ChatCompletionRequest, Float64, FunctionCall, StreamOptions, ToolCall,
};
use zeroclaw_gateway::validate::{validate_request, validate_unsupported_params};

/// Runs both checks; the first refusal wins, and the fields of the request come
/// before its messages.
fn run_validators(req: &ChatCompletionRequest) -> Result<(), Response> {
    validate_unsupported_params(req).and_then(|_| validate_request(req))
}

fn message(role: &str, content: &str) -> ChatCompletionMessage {
    ChatCompletionMessage {
        role: role.to_string(),
        content: Some(content.to_string()),
        name: None,
        tool_calls: None,
        tool_call_id: None,
    }
}

fn request_with(messages: Vec<ChatCompletionMessage>) -> ChatCompletionRequest {
    ChatCompletionRequest {
        model: "gpt-4o".to_string(),
        messages,
        ..ChatCompletionRequest::default()
    }
}

fn base_request() -> ChatCompletionRequest {
    request_with(vec![message("user", "hello")])
}

fn json(text: &str) -> Value {
    from_str(text).unwrap()
}

fn float(v: Value) -> Option<Float64> {
    from_value::<Option<f64>>(v)
        .unwrap()
        .map(|f| Float64 { bits: f.to_bits() })
}

/// Sets the field called `param` to a JSON value; `null` leaves it unset.
fn set(req: &mut ChatCompletionRequest, param: &str, v: Value) {
    match param {
        "max_tokens" => req.max_tokens = from_value(v).unwrap(),
        "top_p" => req.top_p = float(v),
        "stop" => req.stop = from_value(v).unwrap(),
        "presence_penalty" => req.presence_penalty = float(v),
        "frequency_penalty" => req.frequency_penalty = float(v),
        "n" => req.n = from_value(v).unwrap(),
        "response_format" => req.response_format = from_value(v).unwrap(),
        "seed" => req.seed = from_value(v).unwrap(),
        "logprobs" => req.logprobs = from_value(v).unwrap(),
        "top_logprobs" => req.top_logprobs = from_value(v).unwrap(),
        "user" => req.user = from_value(v).unwrap(),
        "logit_bias" => req.logit_bias = from_value(v).unwrap(),
        "max_completion_tokens" => req.max_completion_tokens = from_value(v).unwrap(),
        "temperature" => req.temperature = float(v),
        "parallel_tool_calls" => req.parallel_tool_calls = from_value(v).unwrap(),
        "service_tier" => req.service_tier = from_value(v).unwrap(),
        "functions" => req.functions = from_value(v).unwrap(),
        "function_call" => req.function_call = from_value(v).unwrap(),
        "reasoning_effort" => req.reasoning_effort = from_value(v).unwrap(),
        "modalities" => req.modalities = from_value(v).unwrap(),
        "audio" => req.audio = from_value(v).unwrap(),
        "prediction" => req.prediction = from_value(v).unwrap(),
        "web_search_options" => req.web_search_options = from_value(v).unwrap(),
        "metadata" => req.metadata = from_value(v).unwrap(),
        "store" => req.store = from_value(v).unwrap(),
        _ => panic!("no field {param}"),
    }
}

fn assert_rejected(req: &ChatCompletionRequest, expected_param: &str) {
    let err = run_validators(req).unwrap_err();
    assert_eq!(err.status.as_u16(), 400);
    assert_eq!(err.body.error.error_type, "invalid_request_error");
    assert_eq!(err.body.error.param.as_deref(), Some(expected_param));
}

fn assert_field_rejected(param: &str, value: &str) {
    let mut req = base_request();
    set(&mut req, param, json(value));
    assert_rejected(&req, param);
}

const CASES: [(&str, &str, &str); 23] = [
    ("max_tokens", "1", "max_tokens is not supported per-request; configure in provider settings"),
    ("top_p", "0.5", "top_p is not supported per-request"),
    ("stop", "\"END\"", "stop is not supported per-request"),
    ("presence_penalty", "0.0", "presence_penalty is not supported per-request"),
    ("frequency_penalty", "0.0", "frequency_penalty is not supported per-request"),
    ("n", "1", "n is not supported; single completion per request"),
    (
        "response_format",
        "{\"type\": \"text\"}",
        "response_format is not supported; configure output format in provider settings",
    ),
    ("seed", "42", "seed is not supported; configure in provider settings"),
    ("logprobs", "true", "logprobs is not supported"),
    ("top_logprobs", "5", "top_logprobs is not supported"),
    ("user", "\"u-1\"", "user is not supported"),
    ("logit_bias", "{}", "logit_bias is not supported"),
    (
        "max_completion_tokens",
        "100",
        "max_completion_tokens is not supported; use provider settings",
    ),
    (
        "temperature",
        "0.7",
        "temperature is not supported per-request; set `temperature` on the routed agent's provider model",
    ),
    (
        "parallel_tool_calls",
        "true",
        "parallel_tool_calls is not supported; tools executed transparently",
    ),
    ("service_tier", "\"auto\"", "service_tier is not applicable; routing is ZeroClaw config"),
    (
        "functions",
        "[{\"name\": \"f\"}]",
        "legacy function-calling is not supported; use `tools`",
    ),
    (
        "function_call",
        "\"auto\"",
        "legacy function_call is not supported; use `tool_choice`",
    ),
    (
        "reasoning_effort",
        "\"medium\"",
        "reasoning_effort is not supported per-request; configure model in provider settings",
    ),
    ("modalities", "[\"text\"]", "only text output supported"),
    ("audio", "{}", "audio output not supported"),
    ("prediction", "{}", "predicted outputs not supported"),
    ("web_search_options", "{}", "web search not supported per-request"),
];

#[test]
fn rejects_max_tokens() {
    assert_field_rejected("max_tokens", "1");
}

#[test]
fn rejects_top_p() {
    assert_field_rejected("top_p", "0.5");
}

#[test]
fn rejects_stop() {
    assert_field_rejected("stop", "\"END\"");
}

#[test]
fn rejects_seed() {
    assert_field_rejected("seed", "42");
}

#[test]
fn rejects_logprobs() {
    assert_field_rejected("logprobs", "true");
}

#[test]
fn rejects_all_23_unsupported() {
    assert_eq!(CASES.len(), 23);
    for (param, value, _) in CASES {
        assert_field_rejected(param, value);
    }
}

#[test]
fn accepts_none_unsupported() {
    assert!(run_validators(&base_request()).is_ok());
}

#[test]
fn rejects_explicit_temperature() {
    assert_field_rejected("temperature", "0.7");
}

#[test]
fn omits_temperature_uses_agent_config() {
    // Without a temperature the request passes; the agent's own one is used.
    assert!(run_validators(&base_request()).is_ok());
}

#[test]
fn rejects_n_eq_1() {
    // Any `n` is refused, also the one that asks for nothing special.
    assert_field_rejected("n", "1");
}

#[test]
fn tolerates_metadata_and_store() {
    let mut req = base_request();
    set(&mut req, "metadata", json("{\"trace_id\": \"abc\", \"user_tags\": [\"x\"]}"));
    set(&mut req, "store", json("true"));
    assert!(run_validators(&req).is_ok());
}

fn assert_role_rejected(role: &str, content: &str) {
    let req = request_with(vec![message(role, content)]);
    let err = run_validators(&req).unwrap_err();
    assert_eq!(err.status.as_u16(), 400);
    assert_eq!(err.body.error.error_type, "invalid_request_error");
    assert_eq!(err.body.error.param.as_deref(), Some("messages"));
    let msg = err.body.error.message;
    assert!(msg.contains("messages[0].role"));
    assert!(msg.contains(role));
}

#[test]
fn rejects_unknown_role() {
    assert_role_rejected("admin", "hi");
}

#[test]
fn rejects_tool_role() {
    // Refused for its role, not for want of a tool call id.
    assert_role_rejected("tool", "result");
}

#[test]
fn rejects_function_role() {
    assert_role_rejected("function", "legacy");
}

fn lookup_call() -> ToolCall {
    ToolCall {
        id: "call_1".to_string(),
        kind: "function".to_string(),
        function: FunctionCall { name: "lookup".to_string(), arguments: "{}".to_string() },
    }
}

#[test]
fn rejects_tool_calls_in_history() {
    let mut called = message("assistant", "ok");
    called.tool_calls = Some(vec![lookup_call()]);
    let err = run_validators(&request_with(vec![called])).unwrap_err();
    assert_eq!(err.status.as_u16(), 400);
    assert_eq!(err.body.error.error_type, "invalid_request_error");
    assert_eq!(err.body.error.param.as_deref(), Some("messages"));
    assert!(err.body.error.message.contains("messages[0].tool_calls"));
}

#[test]
fn rejects_name_and_tool_call_id() {
    let mut named = message("user", "hi");
    named.name = Some("alice".to_string());
    let err = run_validators(&request_with(vec![named])).unwrap_err();
    assert_eq!(err.body.error.param.as_deref(), Some("messages"));
    assert!(err.body.error.message.contains("messages[0].name"));

    let mut answered = message("user", "hi");
    answered.tool_call_id = Some("call_1".to_string());
    let err = run_validators(&request_with(vec![answered])).unwrap_err();
    assert_eq!(err.body.error.param.as_deref(), Some("messages"));
    assert!(err.body.error.message.contains("messages[0].tool_call_id"));
}

#[test]
fn rejects_empty_messages() {
    let err = run_validators(&request_with(vec![])).unwrap_err();
    assert_eq!(err.status.as_u16(), 400);
    assert_eq!(err.body.error.error_type, "invalid_request_error");
    assert_eq!(err.body.error.param.as_deref(), Some("messages"));
    assert_eq!(err.body.error.message, "messages must not be empty");
}

#[test]
fn error_envelope_shape() {
    let mut req = base_request();
    set(&mut req, "max_tokens", json("1"));
    let err = run_validators(&req).unwrap_err();
    assert_eq!(err.status.as_u16(), 400);
    assert!(!err.body.error.message.is_empty());
    assert_eq!(err.body.error.error_type, "invalid_request_error");
    assert!(err.body.error.code.is_none());
    assert_eq!(err.body.error.param.as_deref(), Some("max_tokens"));
    assert_eq!(err.body.error.status, 400);
}

#[test]
fn null_unsupported_fields_treated_as_unset() {
    // `null` is the same as leaving a field out.
    for (param, _, _) in CASES {
        let mut req = base_request();
        set(&mut req, param, Value::Null);
        assert!(run_validators(&req).is_ok(), "null for `{param}` should be treated as unset");
    }
}

#[test]
fn request_level_checked_before_message_level() {
    let mut req = request_with(vec![message("admin", "hello")]);
    set(&mut req, "max_tokens", json("1"));
    assert_rejected(&req, "max_tokens");
}

#[test]
fn max_tokens_beats_temperature() {
    let mut req = base_request();
    set(&mut req, "max_tokens", json("1"));
    set(&mut req, "temperature", json("0.7"));
    assert_rejected(&req, "max_tokens");
}

#[test]
fn second_message_index_reported() {
    let req = request_with(vec![message("user", "first"), message("admin", "second")]);
    let err = run_validators(&req).unwrap_err();
    assert!(err.body.error.message.contains("messages[1].role"));
}

#[test]
fn first_message_violation_wins_within_message() {
    let mut bad = message("admin", "hi");
    bad.name = Some("alice".to_string());
    let msg = run_validators(&request_with(vec![bad])).unwrap_err().body.error.message;
    assert!(msg.contains("messages[0].name"));
    assert!(!msg.contains("messages[0].role"));
}

#[test]
fn each_field_has_its_own_text() {
    for (param, value, text) in CASES {
        let mut req = base_request();
        set(&mut req, param, json(value));
        let err = validate_unsupported_params(&req).unwrap_err();
        assert_eq!(err.body.error.message, text);
        assert_eq!(err.body.error.param.as_deref(), Some(param));
    }
}

#[test]
fn first_of_any_two_fields_wins() {
    for i in 0..CASES.len() {
        for j in (i + 1)..CASES.len() {
            let mut req = base_request();
            set(&mut req, CASES[i].0, json(CASES[i].1));
            set(&mut req, CASES[j].0, json(CASES[j].1));
            assert_rejected(&req, CASES[i].0);
        }
    }
}

#[test]
fn value_of_a_refused_field_does_not_matter() {
    for value in ["null", "[]", "{\"stop\": null}", "\"\""] {
        let mut req = base_request();
        // A JSON `null` that is held as a value counts as present.
        req.stop = Some(json(value));
        assert_rejected(&req, "stop");
    }
    assert_field_rejected("logprobs", "false");
    assert_field_rejected("seed", "-9223372036854775808");
    assert_field_rejected("user", "\"\"");
}

#[test]
fn fields_that_are_never_refused() {
    let mut req = base_request();
    req.stream = true;
    req.stream_options = Some(StreamOptions { include_usage: true });
    req.tools = Some(vec![]);
    req.tool_choice = Some(json("\"auto\""));
    req.store = Some(false);
    assert!(run_validators(&req).is_ok());
}

#[test]
fn allowed_roles_pass() {
    for role in ["system", "developer", "user", "assistant"] {
        assert!(run_validators(&request_with(vec![message(role, "hi")])).is_ok());
    }
    for role in ["", "User", "user ", "systems", "assistan"] {
        assert!(run_validators(&request_with(vec![message(role, "hi")])).is_err());
    }
}

#[test]
fn message_texts_are_exact() {
    let fault = |bad: ChatCompletionMessage| {
        let mut messages: Vec<ChatCompletionMessage> =
            (0..12).map(|_| message("user", "fine")).collect();
        messages.push(bad);
        messages.push(message("admin", "not reached"));
        validate_request(&request_with(messages)).unwrap_err().body.error.message
    };
    let mut named = message("user", "hi");
    named.name = Some("alice".to_string());
    assert_eq!(
        fault(named),
        "messages[12].name is not supported; tool results are transparently executed"
    );
    let mut answered = message("user", "hi");
    answered.tool_call_id = Some(String::new());
    assert_eq!(
        fault(answered),
        "messages[12].tool_call_id is not supported; tool execution is transparent"
    );
    assert_eq!(
        fault(message("r\u{f4}le", "hi")),
        "messages[12].role 'r\u{f4}le' is not supported; allowed: system, developer, user, \
         assistant (tool/function roles are transparently executed and rejected)"
    );
    let mut called = message("user", "hi");
    called.tool_calls = Some(vec![]);
    assert_eq!(
        fault(called),
        "messages[12].tool_calls is not supported; tool execution is transparent"
    );
}

#[test]
fn faults_of_one_message_are_looked_for_in_order() {
    let mut bad = message("admin", "hi");
    bad.tool_calls = Some(vec![lookup_call()]);
    let text = |m: &ChatCompletionMessage| {
        validate_request(&request_with(vec![m.clone()])).unwrap_err().body.error.message
    };
    assert!(text(&bad).starts_with("messages[0].role 'admin'"));
    bad.tool_call_id = Some("call_1".to_string());
    assert!(text(&bad).starts_with("messages[0].tool_call_id"));
    bad.name = Some("alice".to_string());
    assert!(text(&bad).starts_with("messages[0].name"));
}

#[test]
fn content_may_be_missing() {
    let mut silent = message("assistant", "");
    silent.content = None;
    assert!(run_validators(&request_with(vec![silent])).is_ok());
}

#[test]
fn default_request_has_nothing() {
    let req = ChatCompletionRequest::default();
    assert_eq!(req.model, "");
    assert!(!req.stream);
    assert!(req.messages.is_empty());
    assert!(req.metadata.is_none());
    assert!(validate_unsupported_params(&req).is_ok());
    assert_rejected(&req, "messages");
}

#[test]
fn no_two_fields_share_name_or_text() {
    for i in 0..CASES.len() {
        for j in (i + 1)..CASES.len() {
            assert_ne!(CASES[i].0, CASES[j].0);
            assert_ne!(CASES[i].2, CASES[j].2);
        }
    }
}
