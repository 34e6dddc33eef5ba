//! The checks that a request passes before it is routed.
use vstd::prelude::*;

use crate::error::{characters, invalid_request, outcome, refuse, Response, ResponseView};
use crate::request::{ChatCompletionMessage, ChatCompletionRequest};
use crate::text::{decimal, decimal_string};

verus! {

/// One request field that is refused: whether the request has it, its name,
/// and what the client is told.
pub struct ParamCheck {
    pub present: bool,
    pub param: Seq<char>,
    pub message: Seq<char>,
}

/// The check on one field of a request: it may not be there, whatever its value.
pub open spec fn param_check<T>(
    field: Option<T>,
    param: Seq<char>,
    message: Seq<char>,
) -> ParamCheck {
    ParamCheck { present: field is Some, param, message }
}

/// The fields that settle how text is generated. The agent's provider settles
/// that; a request may not.
pub open spec fn generation_settings(req: ChatCompletionRequest) -> Seq<ParamCheck> {
    Seq::empty()
        .push(
            param_check(
                req.max_tokens,
                "max_tokens"@,
                "max_tokens is not supported per-request; configure in provider settings"@,
            ),
        )
        .push(
            param_check(
                req.top_p,
                "top_p"@,
                "top_p is not supported per-request"@,
            ),
        )
        .push(
            param_check(
                req.stop,
                "stop"@,
                "stop is not supported per-request"@,
            ),
        )
        .push(
            param_check(
                req.presence_penalty,
                "presence_penalty"@,
                "presence_penalty is not supported per-request"@,
            ),
        )
        .push(
            param_check(
                req.frequency_penalty,
                "frequency_penalty"@,
                "frequency_penalty is not supported per-request"@,
            ),
        )
        .push(
            param_check(
                req.n,
                "n"@,
                "n is not supported; single completion per request"@,
            ),
        )
        .push(
            param_check(
                req.response_format,
                "response_format"@,
                "response_format is not supported; configure output format in provider settings"@,
            ),
        )
        .push(
            param_check(
                req.seed,
                "seed"@,
                "seed is not supported; configure in provider settings"@,
            ),
        )
        .push(
            param_check(
                req.logprobs,
                "logprobs"@,
                "logprobs is not supported"@,
            ),
        )
        .push(
            param_check(
                req.top_logprobs,
                "top_logprobs"@,
                "top_logprobs is not supported"@,
            ),
        )
        .push(
            param_check(
                req.user,
                "user"@,
                "user is not supported"@,
            ),
        )
        .push(
            param_check(
                req.logit_bias,
                "logit_bias"@,
                "logit_bias is not supported"@,
            ),
        )
        .push(
            param_check(
                req.max_completion_tokens,
                "max_completion_tokens"@,
                "max_completion_tokens is not supported; use provider settings"@,
            ),
        )
        .push(
            param_check(
                req.temperature,
                "temperature"@,
                "temperature is not supported per-request; set `temperature` on the routed agent's provider model"@,
            ),
        )
}

/// The fields that are refused, in the order in which they are looked at: behind
/// the generation settings, those that would change how the request is carried out.
pub open spec fn unsupported_params(req: ChatCompletionRequest) -> Seq<ParamCheck> {
    generation_settings(req)
        .push(
            param_check(
                req.parallel_tool_calls,
                "parallel_tool_calls"@,
                "parallel_tool_calls is not supported; tools executed transparently"@,
            ),
        )
        .push(
            param_check(
                req.service_tier,
                "service_tier"@,
                "service_tier is not applicable; routing is ZeroClaw config"@,
            ),
        )
        .push(
            param_check(
                req.functions,
                "functions"@,
                "legacy function-calling is not supported; use `tools`"@,
            ),
        )
        .push(
            param_check(
                req.function_call,
                "function_call"@,
                "legacy function_call is not supported; use `tool_choice`"@,
            ),
        )
        .push(
            param_check(
                req.reasoning_effort,
                "reasoning_effort"@,
                "reasoning_effort is not supported per-request; configure model in provider settings"@,
            ),
        )
        .push(
            param_check(
                req.modalities,
                "modalities"@,
                "only text output supported"@,
            ),
        )
        .push(
            param_check(
                req.audio,
                "audio"@,
                "audio output not supported"@,
            ),
        )
        .push(
            param_check(
                req.prediction,
                "prediction"@,
                "predicted outputs not supported"@,
            ),
        )
        .push(
            param_check(
                req.web_search_options,
                "web_search_options"@,
                "web search not supported per-request"@,
            ),
        )
}

/// One more check behind others: a refusal stands; where there is none yet, the
/// field is refused if it is present, whatever its value.
pub open spec fn then_check(earlier: Result<(), ResponseView>, check: ParamCheck) -> Result<
    (),
    ResponseView,
> {
    if earlier is Ok && check.present {
        Err(invalid_request(check.message, check.param))
    } else {
        earlier
    }
}

/// What is answered after `checks`: a refusal for the first field that is present.
pub open spec fn first_present(checks: Seq<ParamCheck>) -> Result<(), ResponseView>
    decreases checks.len(),
{
    if checks.len() == 0 {
        Ok(())
    } else {
        then_check(first_present(checks.drop_last()), checks.last())
    }
}

/// Whether the check at `i` is the first whose field is present.
pub open spec fn is_first_present(checks: Seq<ParamCheck>, i: int) -> bool {
    &&& 0 <= i < checks.len()
    &&& checks[i].present
    &&& forall|j: int| 0 <= j < i ==> !(#[trigger] checks[j]).present
}

/// Whether the request has none of the fields that are refused.
pub open spec fn has_no_unsupported_param(req: ChatCompletionRequest) -> bool {
    &&& req.max_tokens is None
    &&& req.top_p is None
    &&& req.stop is None
    &&& req.presence_penalty is None
    &&& req.frequency_penalty is None
    &&& req.n is None
    &&& req.response_format is None
    &&& req.seed is None
    &&& req.logprobs is None
    &&& req.top_logprobs is None
    &&& req.user is None
    &&& req.logit_bias is None
    &&& req.max_completion_tokens is None
    &&& req.temperature is None
    &&& req.parallel_tool_calls is None
    &&& req.service_tier is None
    &&& req.functions is None
    &&& req.function_call is None
    &&& req.reasoning_effort is None
    &&& req.modalities is None
    &&& req.audio is None
    &&& req.prediction is None
    &&& req.web_search_options is None
}

/// Adds one check to the outcome of those before it.
fn refuse_if_present<T>(
    earlier: Result<(), Response>,
    field: &Option<T>,
    param: &str,
    message: &str,
) -> (result: Result<(), Response>)
    ensures
        outcome(result) == then_check(outcome(earlier), param_check(*field, param@, message@)),
{
    if earlier.is_ok() && field.is_some() {
        Err(refuse(message, param))
    } else {
        earlier
    }
}

/// A check behind others has a say only where none of those refuses the request.
pub broadcast proof fn lemma_first_present_push(checks: Seq<ParamCheck>, check: ParamCheck)
    ensures
        #[trigger] first_present(checks.push(check)) == then_check(first_present(checks), check),
{
    assert(checks.push(check).drop_last() =~= checks);
}

/// The first field that is present decides: no check behind it, and none of a
/// field that is absent, has a say.
pub proof fn law_first_present_decides(checks: Seq<ParamCheck>, i: int)
    requires
        is_first_present(checks, i),
    ensures
        first_present(checks) == Err::<(), ResponseView>(
            invalid_request(checks[i].message, checks[i].param),
        ),
    decreases checks.len(),
{
    let before = checks.drop_last();
    if i < checks.len() - 1 {
        assert(is_first_present(before, i));
        law_first_present_decides(before, i);
    } else {
        assert forall|j: int| 0 <= j < before.len() implies !(#[trigger] before[j]).present by {
            assert(!checks[j].present);
        }
        law_absent_fields_pass(before);
    }
}

/// Checks of fields that are all absent let a request pass.
pub proof fn law_absent_fields_pass(checks: Seq<ParamCheck>)
    requires
        forall|i: int| 0 <= i < checks.len() ==> !(#[trigger] checks[i]).present,
    ensures
        first_present(checks) is Ok,
    decreases checks.len(),
{
    if checks.len() > 0 {
        let before = checks.drop_last();
        assert forall|j: int| 0 <= j < before.len() implies !(#[trigger] before[j]).present by {
            assert(!checks[j].present);
        }
        law_absent_fields_pass(before);
    }
}

/// A request is refused only for a field that it has: the first one, with the
/// text that goes with that field.
pub proof fn law_refused_for_first_present(checks: Seq<ParamCheck>)
    requires
        first_present(checks) is Err,
    ensures
        exists|i: int| #[trigger]
            is_first_present(checks, i) && first_present(checks) == Err::<(), ResponseView>(
                invalid_request(checks[i].message, checks[i].param),
            ),
    decreases checks.len(),
{
    let before = checks.drop_last();
    if first_present(before) is Err {
        law_refused_for_first_present(before);
        let i = choose|i: int| #[trigger]
            is_first_present(before, i) && first_present(before) == Err::<(), ResponseView>(
                invalid_request(before[i].message, before[i].param),
            );
        assert forall|j: int| 0 <= j < i implies !(#[trigger] checks[j]).present by {
            assert(!before[j].present);
        }
        assert(is_first_present(checks, i));
    } else {
        assert forall|j: int| 0 <= j < before.len() implies !(#[trigger] checks[j]).present by {
            if checks[j].present {
                assert(before[j].present);
                lemma_present_field_refused(before, j);
            }
        }
        assert(is_first_present(checks, checks.len() - 1));
    }
}

proof fn lemma_present_field_refused(checks: Seq<ParamCheck>, i: int)
    requires
        0 <= i < checks.len(),
        checks[i].present,
    ensures
        first_present(checks) is Err,
    decreases checks.len(),
{
    if i < checks.len() - 1 {
        lemma_present_field_refused(checks.drop_last(), i);
    }
}

/// Refuses a request that has a field which is not supported, for the first such
/// field. A field that is there is refused whatever its value, so that nothing
/// the client asks for is dropped in silence; `metadata` and `store` are
/// annotations and pass.
pub fn validate_unsupported_params(req: &ChatCompletionRequest) -> (result: Result<(), Response>)
    ensures
        outcome(result) == first_present(unsupported_params(*req)),
        result is Ok <==> has_no_unsupported_param(*req),
        result matches Err(response) ==> exists|i: int| #[trigger]
            is_first_present(unsupported_params(*req), i) && response@ == invalid_request(
                unsupported_params(*req)[i].message,
                unsupported_params(*req)[i].param,
            ),
        result matches Err(response) ==> {
            &&& response.status@ == 400
            &&& response.body.error.status == 400
            &&& response.body.error.error_type@ == "invalid_request_error"@
            &&& response.body.error.code is None
            &&& response.body.error.param is Some
        },
{
    broadcast use lemma_first_present_push;

    let mut result = Ok(());
    result = refuse_if_present(
        result,
        &req.max_tokens,
        "max_tokens",
        "max_tokens is not supported per-request; configure in provider settings",
    );
    result = refuse_if_present(
        result,
        &req.top_p,
        "top_p",
        "top_p is not supported per-request",
    );
    result = refuse_if_present(
        result,
        &req.stop,
        "stop",
        "stop is not supported per-request",
    );
    result = refuse_if_present(
        result,
        &req.presence_penalty,
        "presence_penalty",
        "presence_penalty is not supported per-request",
    );
    result = refuse_if_present(
        result,
        &req.frequency_penalty,
        "frequency_penalty",
        "frequency_penalty is not supported per-request",
    );
    result = refuse_if_present(
        result,
        &req.n,
        "n",
        "n is not supported; single completion per request",
    );
    result = refuse_if_present(
        result,
        &req.response_format,
        "response_format",
        "response_format is not supported; configure output format in provider settings",
    );
    result = refuse_if_present(
        result,
        &req.seed,
        "seed",
        "seed is not supported; configure in provider settings",
    );
    result = refuse_if_present(
        result,
        &req.logprobs,
        "logprobs",
        "logprobs is not supported",
    );
    result = refuse_if_present(
        result,
        &req.top_logprobs,
        "top_logprobs",
        "top_logprobs is not supported",
    );
    result = refuse_if_present(
        result,
        &req.user,
        "user",
        "user is not supported",
    );
    result = refuse_if_present(
        result,
        &req.logit_bias,
        "logit_bias",
        "logit_bias is not supported",
    );
    result = refuse_if_present(
        result,
        &req.max_completion_tokens,
        "max_completion_tokens",
        "max_completion_tokens is not supported; use provider settings",
    );
    result = refuse_if_present(
        result,
        &req.temperature,
        "temperature",
        "temperature is not supported per-request; set `temperature` on the routed agent's provider model",
    );
    assert(outcome(result) == first_present(generation_settings(*req)));
    result = refuse_if_present(
        result,
        &req.parallel_tool_calls,
        "parallel_tool_calls",
        "parallel_tool_calls is not supported; tools executed transparently",
    );
    result = refuse_if_present(
        result,
        &req.service_tier,
        "service_tier",
        "service_tier is not applicable; routing is ZeroClaw config",
    );
    result = refuse_if_present(
        result,
        &req.functions,
        "functions",
        "legacy function-calling is not supported; use `tools`",
    );
    result = refuse_if_present(
        result,
        &req.function_call,
        "function_call",
        "legacy function_call is not supported; use `tool_choice`",
    );
    result = refuse_if_present(
        result,
        &req.reasoning_effort,
        "reasoning_effort",
        "reasoning_effort is not supported per-request; configure model in provider settings",
    );
    result = refuse_if_present(
        result,
        &req.modalities,
        "modalities",
        "only text output supported",
    );
    result = refuse_if_present(
        result,
        &req.audio,
        "audio",
        "audio output not supported",
    );
    result = refuse_if_present(
        result,
        &req.prediction,
        "prediction",
        "predicted outputs not supported",
    );
    result = refuse_if_present(
        result,
        &req.web_search_options,
        "web_search_options",
        "web search not supported per-request",
    );
    proof {
        if first_present(unsupported_params(*req)) is Err {
            law_refused_for_first_present(unsupported_params(*req));
        }
    }
    result
}

/// The roles that a message may have.
pub open spec fn is_allowed_role(role: Seq<char>) -> bool {
    ||| role == "system"@
    ||| role == "developer"@
    ||| role == "user"@
    ||| role == "assistant"@
}

/// Whether a message has nothing that is refused.
pub open spec fn is_acceptable(message: ChatCompletionMessage) -> bool {
    &&& message.name is None
    &&& message.tool_call_id is None
    &&& is_allowed_role(message.role@)
    &&& message.tool_calls is None
}

/// Whether the message at `i` is the first with something that is refused.
pub open spec fn is_first_faulty(messages: Seq<ChatCompletionMessage>, i: int) -> bool {
    &&& 0 <= i < messages.len()
    &&& !is_acceptable(messages[i])
    &&& forall|j: int| 0 <= j < i ==> is_acceptable(#[trigger] messages[j])
}

/// How the text about a fault in the message at `index` begins.
pub open spec fn message_place(index: nat) -> Seq<char> {
    "messages["@ + decimal(index)
}

/// What the client is told about the message at `index`: the first of its
/// faults, looked for in the order name, tool call id, role, tool calls.
pub open spec fn message_fault(index: nat, message: ChatCompletionMessage) -> Option<Seq<char>> {
    let place = message_place(index);
    if message.name is Some {
        Some(place + "].name is not supported; tool results are transparently executed"@)
    } else if message.tool_call_id is Some {
        Some(place + "].tool_call_id is not supported; tool execution is transparent"@)
    } else if !is_allowed_role(message.role@) {
        Some(
            place + "].role '"@ + message.role@
                + "' is not supported; allowed: system, developer, user, assistant (tool/function roles are transparently executed and rejected)"@,
        )
    } else if message.tool_calls is Some {
        Some(place + "].tool_calls is not supported; tool execution is transparent"@)
    } else {
        None
    }
}

/// What is answered about the messages from `from` on: a refusal for the first
/// message with a fault.
pub open spec fn first_message_fault(
    messages: Seq<ChatCompletionMessage>,
    from: nat,
) -> Result<(), ResponseView>
    decreases messages.len() - from,
{
    if from >= messages.len() {
        Ok(())
    } else {
        match message_fault(from, messages[from as int]) {
            Some(text) => Err(invalid_request(text, "messages"@)),
            None => first_message_fault(messages, from + 1),
        }
    }
}

/// What is answered about a list of messages.
pub open spec fn messages_outcome(messages: Seq<ChatCompletionMessage>) -> Result<
    (),
    ResponseView,
> {
    if messages.len() == 0 {
        Err(invalid_request("messages must not be empty"@, "messages"@))
    } else {
        first_message_fault(messages, 0)
    }
}

/// Whether a message may have this role.
fn allows_role(role: &str) -> (allowed: bool)
    ensures
        allowed == is_allowed_role(role@),
{
    *role == *"system" || *role == *"developer" || *role == *"user" || *role == *"assistant"
}

/// Looks for the first fault of the message at `index`.
fn find_message_fault(index: usize, message: &ChatCompletionMessage) -> (fault: Option<String>)
    ensures
        characters(fault) == message_fault(index as nat, *message),
{
    let mut text = "messages[".to_string();
    text.append(decimal_string(index).as_str());
    // A name is not passed on when tools run transparently.
    if message.name.is_some() {
        text.append("].name is not supported; tool results are transparently executed");
        return Some(text);
    }
    // The same holds of a tool call id.
    if message.tool_call_id.is_some() {
        text.append("].tool_call_id is not supported; tool execution is transparent");
        return Some(text);
    }
    // The roles `tool` and `function` are refused like any unknown one, not
    // folded into the prompt.
    if !allows_role(message.role.as_str()) {
        text.append("].role '");
        text.append(message.role.as_str());
        text.append(
            "' is not supported; allowed: system, developer, user, assistant (tool/function roles are transparently executed and rejected)",
        );
        return Some(text);
    }
    // Tool calls mean nothing when tools run transparently.
    if message.tool_calls.is_some() {
        text.append("].tool_calls is not supported; tool execution is transparent");
        return Some(text);
    }
    None
}

/// Checks the list of messages: there must be one, and each is held against
/// four rules, in this order: no name, no tool call id, a role out of `system`,
/// `developer`, `user` and `assistant`, no tool calls. The error names the field
/// `messages`; its text gives the position of the message, counted from zero.
pub fn validate_request(req: &ChatCompletionRequest) -> (result: Result<(), Response>)
    ensures
        outcome(result) == messages_outcome(req.messages@),
        result is Ok <==> req.messages.len() > 0 && forall|i: int|
            0 <= i < req.messages.len() ==> is_acceptable(#[trigger] req.messages[i]),
        result is Ok ==> forall|i: int|
            0 <= i < req.messages.len() ==> (#[trigger] req.messages[i]).role@ == "system"@
                || req.messages[i].role@ == "developer"@ || req.messages[i].role@ == "user"@
                || req.messages[i].role@ == "assistant"@,
        result is Ok ==> forall|i: int|
            0 <= i < req.messages.len() ==> (#[trigger] req.messages[i]).name is None
                && req.messages[i].tool_call_id is None && req.messages[i].tool_calls is None,
        result matches Err(response) ==> {
            &&& response.status@ == 400
            &&& response.body.error.status == 400
            &&& response.body.error.error_type@ == "invalid_request_error"@
            &&& response.body.error.code is None
            &&& response.body.error.param matches Some(param) && param@ == "messages"@
        },
        result matches Err(response) ==> if req.messages.len() == 0 {
            response@ == invalid_request("messages must not be empty"@, "messages"@)
        } else {
            exists|i: int| #[trigger]
                is_first_faulty(req.messages@, i) && response@ == invalid_request(
                    message_fault(i as nat, req.messages[i])->0,
                    "messages"@,
                )
        },
{
    if req.messages.len() == 0 {
        return Err(refuse("messages must not be empty", "messages"));
    }
    let mut i: usize = 0;
    while i < req.messages.len()
        invariant
            i <= req.messages.len(),
            0 < req.messages.len(),
            messages_outcome(req.messages@) == first_message_fault(req.messages@, i as nat),
            forall|j: int| 0 <= j < i ==> is_acceptable(#[trigger] req.messages[j]),
        decreases req.messages.len() - i,
    {
        match find_message_fault(i, &req.messages[i]) {
            Some(text) => {
                assert(is_first_faulty(req.messages@, i as int));
                return Err(refuse(text.as_str(), "messages"));
            },
            None => {},
        }
        i += 1;
    }
    Ok(())
}

}
