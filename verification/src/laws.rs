//! What holds of the checks and of the routing as a whole.
use vstd::prelude::*;

use crate::config::{
    default_agent, is_enabled, is_first_enabled, lemma_first_enabled_unique, lemma_first_name,
    AliasedAgentConfig,
};
use crate::error::{invalid_request, outcome, Response, ResponseView};
use crate::request::{ChatCompletionMessage, ChatCompletionRequest};
use crate::routing::{
    agent_of_model, alias_of_model, is_default_shorthand, mapping, missing_alias,
    no_default_agent, resolution, unknown_agent, unrecognized_model,
};
use crate::text::{
    decimal, is_blank, is_trim, law_decimal_injective, law_precedes_is_lexicographic,
    law_trim_is_trimmed, law_trimmed_ignores_padding, law_trimmed_is_trim,
    lemma_decimal_has_no_bracket, precedes, trimmed,
};
use crate::validate::{
    first_message_fault, first_present, generation_settings, is_acceptable, is_first_faulty,
    is_first_present, law_absent_fields_pass, law_first_present_decides,
    law_refused_for_first_present, message_fault, message_place, messages_outcome, param_check,
    unsupported_params,
};

verus! {

/// There are 23 fields that are refused, and no two go by the same name or are
/// refused with the same text: either says which field a refusal is for.
pub proof fn law_unsupported_params_are_distinct(req: ChatCompletionRequest, i: int, j: int)
    requires
        0 <= i < j < unsupported_params(req).len(),
    ensures
        unsupported_params(req).len() == 23,
        unsupported_params(req)[i].param != unsupported_params(req)[j].param,
        unsupported_params(req)[i].message != unsupported_params(req)[j].message,
{
    lemma_params_are_distinct(req, i, j);
    lemma_messages_are_distinct(req, i, j);
}

proof fn lemma_params_are_distinct(req: ChatCompletionRequest, i: int, j: int)
    requires
        0 <= i < j < unsupported_params(req).len(),
    ensures
        unsupported_params(req)[i].param != unsupported_params(req)[j].param,
{
    reveal_strlit("max_tokens");
    reveal_strlit("top_p");
    reveal_strlit("stop");
    reveal_strlit("presence_penalty");
    reveal_strlit("frequency_penalty");
    reveal_strlit("n");
    reveal_strlit("response_format");
    reveal_strlit("seed");
    reveal_strlit("logprobs");
    reveal_strlit("top_logprobs");
    reveal_strlit("user");
    reveal_strlit("logit_bias");
    reveal_strlit("max_completion_tokens");
    reveal_strlit("temperature");
    reveal_strlit("parallel_tool_calls");
    reveal_strlit("service_tier");
    reveal_strlit("functions");
    reveal_strlit("function_call");
    reveal_strlit("reasoning_effort");
    reveal_strlit("modalities");
    reveal_strlit("audio");
    reveal_strlit("prediction");
    reveal_strlit("web_search_options");
    // Length and first two characters tell the names apart.
    let a = unsupported_params(req)[i].param;
    let b = unsupported_params(req)[j].param;
    assert(a.len() != b.len() || a[0] != b[0] || a[1] != b[1]);
}

proof fn lemma_messages_are_distinct(req: ChatCompletionRequest, i: int, j: int)
    requires
        0 <= i < j < unsupported_params(req).len(),
    ensures
        unsupported_params(req)[i].message != unsupported_params(req)[j].message,
{
    reveal_strlit("max_tokens is not supported per-request; configure in provider settings");
    reveal_strlit("top_p is not supported per-request");
    reveal_strlit("stop is not supported per-request");
    reveal_strlit("presence_penalty is not supported per-request");
    reveal_strlit("frequency_penalty is not supported per-request");
    reveal_strlit("n is not supported; single completion per request");
    reveal_strlit(
        "response_format is not supported; configure output format in provider settings",
    );
    reveal_strlit("seed is not supported; configure in provider settings");
    reveal_strlit("logprobs is not supported");
    reveal_strlit("top_logprobs is not supported");
    reveal_strlit("user is not supported");
    reveal_strlit("logit_bias is not supported");
    reveal_strlit("max_completion_tokens is not supported; use provider settings");
    reveal_strlit(
        "temperature is not supported per-request; set `temperature` on the routed agent's provider model",
    );
    reveal_strlit("parallel_tool_calls is not supported; tools executed transparently");
    reveal_strlit("service_tier is not applicable; routing is ZeroClaw config");
    reveal_strlit("legacy function-calling is not supported; use `tools`");
    reveal_strlit("legacy function_call is not supported; use `tool_choice`");
    reveal_strlit(
        "reasoning_effort is not supported per-request; configure model in provider settings",
    );
    reveal_strlit("only text output supported");
    reveal_strlit("audio output not supported");
    reveal_strlit("predicted outputs not supported");
    reveal_strlit("web search not supported per-request");
    // Length and first character tell the texts apart.
    let a = unsupported_params(req)[i].message;
    let b = unsupported_params(req)[j].message;
    assert(a.len() != b.len() || a[0] != b[0]);
}

/// Whether two requests have the same ones of the generation settings.
pub open spec fn have_same_settings(a: ChatCompletionRequest, b: ChatCompletionRequest) -> bool {
    &&& a.max_tokens is Some <==> b.max_tokens is Some
    &&& a.top_p is Some <==> b.top_p is Some
    &&& a.stop is Some <==> b.stop is Some
    &&& a.presence_penalty is Some <==> b.presence_penalty is Some
    &&& a.frequency_penalty is Some <==> b.frequency_penalty is Some
    &&& a.n is Some <==> b.n is Some
    &&& a.response_format is Some <==> b.response_format is Some
    &&& a.seed is Some <==> b.seed is Some
    &&& a.logprobs is Some <==> b.logprobs is Some
    &&& a.top_logprobs is Some <==> b.top_logprobs is Some
    &&& a.user is Some <==> b.user is Some
    &&& a.logit_bias is Some <==> b.logit_bias is Some
    &&& a.max_completion_tokens is Some <==> b.max_completion_tokens is Some
    &&& a.temperature is Some <==> b.temperature is Some
}

/// Whether two requests have the same ones of the fields that would change how
/// they are carried out.
pub open spec fn have_same_controls(a: ChatCompletionRequest, b: ChatCompletionRequest) -> bool {
    &&& a.parallel_tool_calls is Some <==> b.parallel_tool_calls is Some
    &&& a.service_tier is Some <==> b.service_tier is Some
    &&& a.functions is Some <==> b.functions is Some
    &&& a.function_call is Some <==> b.function_call is Some
    &&& a.reasoning_effort is Some <==> b.reasoning_effort is Some
    &&& a.modalities is Some <==> b.modalities is Some
    &&& a.audio is Some <==> b.audio is Some
    &&& a.prediction is Some <==> b.prediction is Some
    &&& a.web_search_options is Some <==> b.web_search_options is Some
}

/// Whether a field is there is all that counts; its value does not, and neither
/// does any field that is not refused.
pub proof fn law_values_do_not_matter(a: ChatCompletionRequest, b: ChatCompletionRequest)
    requires
        have_same_settings(a, b),
        have_same_controls(a, b),
    ensures
        first_present(unsupported_params(a)) == first_present(unsupported_params(b)),
{
    lemma_same_settings(a, b);
    lemma_same_controls(a, b);
}

proof fn lemma_same_settings(a: ChatCompletionRequest, b: ChatCompletionRequest)
    requires
        have_same_settings(a, b),
    ensures
        generation_settings(a) == generation_settings(b),
{
    lemma_check_by_presence(a.max_tokens, b.max_tokens);
    lemma_check_by_presence(a.top_p, b.top_p);
    lemma_check_by_presence(a.stop, b.stop);
    lemma_check_by_presence(a.presence_penalty, b.presence_penalty);
    lemma_check_by_presence(a.frequency_penalty, b.frequency_penalty);
    lemma_check_by_presence(a.n, b.n);
    lemma_check_by_presence(a.response_format, b.response_format);
    lemma_check_by_presence(a.seed, b.seed);
    lemma_check_by_presence(a.logprobs, b.logprobs);
    lemma_check_by_presence(a.top_logprobs, b.top_logprobs);
    lemma_check_by_presence(a.user, b.user);
    lemma_check_by_presence(a.logit_bias, b.logit_bias);
    lemma_check_by_presence(a.max_completion_tokens, b.max_completion_tokens);
    lemma_check_by_presence(a.temperature, b.temperature);
}

proof fn lemma_same_controls(a: ChatCompletionRequest, b: ChatCompletionRequest)
    requires
        generation_settings(a) == generation_settings(b),
        have_same_controls(a, b),
    ensures
        unsupported_params(a) == unsupported_params(b),
{
    lemma_check_by_presence(a.parallel_tool_calls, b.parallel_tool_calls);
    lemma_check_by_presence(a.service_tier, b.service_tier);
    lemma_check_by_presence(a.functions, b.functions);
    lemma_check_by_presence(a.function_call, b.function_call);
    lemma_check_by_presence(a.reasoning_effort, b.reasoning_effort);
    lemma_check_by_presence(a.modalities, b.modalities);
    lemma_check_by_presence(a.audio, b.audio);
    lemma_check_by_presence(a.prediction, b.prediction);
    lemma_check_by_presence(a.web_search_options, b.web_search_options);
}

proof fn lemma_check_by_presence<T>(a: Option<T>, b: Option<T>)
    requires
        a is Some <==> b is Some,
    ensures
        forall|param: Seq<char>, message: Seq<char>| #[trigger]
            param_check(a, param, message) == param_check(b, param, message),
{
}

/// The annotations `metadata` and `store` are tolerated: with or without them,
/// both checks come out the same.
pub proof fn law_annotations_are_tolerated(
    req: ChatCompletionRequest,
    metadata: Option<serde_json::Value>,
    store: Option<bool>,
)
    ensures
        ({
            let annotated = ChatCompletionRequest { metadata, store, ..req };
            &&& first_present(unsupported_params(annotated)) == first_present(
                unsupported_params(req),
            )
            &&& messages_outcome(annotated.messages@) == messages_outcome(req.messages@)
        }),
{
    law_values_do_not_matter(ChatCompletionRequest { metadata, store, ..req }, req);
}

/// The request's own fields are judged without a look at its messages: where this
/// check runs first, a field that is refused is reported whatever the messages hold.
pub proof fn law_messages_have_no_say_in_fields(
    req: ChatCompletionRequest,
    messages: Vec<ChatCompletionMessage>,
)
    ensures
        first_present(unsupported_params(ChatCompletionRequest { messages, ..req }))
            == first_present(unsupported_params(req)),
{
    law_values_do_not_matter(ChatCompletionRequest { messages, ..req }, req);
}

/// A message is refused exactly where it breaks a rule.
pub proof fn law_fault_iff_unacceptable(index: nat, message: ChatCompletionMessage)
    ensures
        message_fault(index, message) is None <==> is_acceptable(message),
{
}

/// The first message that breaks a rule decides, whatever comes behind it.
pub proof fn law_first_faulty_message_decides(messages: Seq<ChatCompletionMessage>, index: nat)
    requires
        is_first_faulty(messages, index as int),
    ensures
        messages_outcome(messages) == Err::<(), ResponseView>(
            invalid_request(message_fault(index, messages[index as int])->0, "messages"@),
        ),
{
    lemma_first_faulty_message_decides(messages, index, 0);
}

proof fn lemma_first_faulty_message_decides(
    messages: Seq<ChatCompletionMessage>,
    index: nat,
    from: nat,
)
    requires
        from <= index,
        is_first_faulty(messages, index as int),
    ensures
        first_message_fault(messages, from) == Err::<(), ResponseView>(
            invalid_request(message_fault(index, messages[index as int])->0, "messages"@),
        ),
    decreases index - from,
{
    if from < index {
        assert(is_acceptable(messages[from as int]));
        lemma_first_faulty_message_decides(messages, index, from + 1);
    }
}

/// What a message says plays no part in whether it is refused.
pub proof fn law_content_does_not_matter(
    index: nat,
    message: ChatCompletionMessage,
    content: Option<String>,
)
    ensures
        message_fault(index, ChatCompletionMessage { content, ..message }) == message_fault(
            index,
            message,
        ),
{
}

/// Messages with the role `tool` or `function` are refused, whatever else they hold.
pub proof fn law_tool_roles_are_refused(message: ChatCompletionMessage)
    requires
        message.role@ == "tool"@ || message.role@ == "function"@,
    ensures
        !is_acceptable(message),
{
    reveal_strlit("tool");
    reveal_strlit("function");
    reveal_strlit("system");
    reveal_strlit("developer");
    reveal_strlit("user");
    reveal_strlit("assistant");
    assert(message.role@[0] != "user"@[0]);
}

/// The text of a refusal gives the position of the message away: faults at
/// different positions are never described alike.
pub proof fn law_fault_tells_position(
    i: nat,
    a: ChatCompletionMessage,
    j: nat,
    b: ChatCompletionMessage,
)
    requires
        !is_acceptable(a),
        !is_acceptable(b),
        message_fault(i, a) == message_fault(j, b),
    ensures
        i == j,
{
    let text = message_fault(i, a)->0;
    lemma_fault_starts_with_place(i, a);
    lemma_fault_starts_with_place(j, b);
    let start = "messages["@.len() as int;
    let (di, dj) = (decimal(i), decimal(j));
    assert(forall|k: int| 0 <= k < di.len() ==> text[start + k] == #[trigger] di[k]);
    assert(forall|k: int| 0 <= k < dj.len() ==> text[start + k] == #[trigger] dj[k]);
    assert(text[start + di.len()] == ']');
    assert(text[start + dj.len()] == ']');
    if di.len() < dj.len() {
        lemma_decimal_has_no_bracket(j, di.len() as int);
    } else if dj.len() < di.len() {
        lemma_decimal_has_no_bracket(i, dj.len() as int);
    }
    assert forall|k: int| 0 <= k < di.len() implies di[k] == dj[k] by {
        assert(text[start + k] == di[k]);
    }
    assert(di =~= dj);
    law_decimal_injective(i, j);
}

/// A fault is described by the place of its message, a closing bracket, and more.
proof fn lemma_fault_starts_with_place(index: nat, message: ChatCompletionMessage)
    requires
        !is_acceptable(message),
    ensures
        message_fault(index, message) is Some,
        message_fault(index, message)->0.len() > message_place(index).len(),
        message_fault(index, message)->0.take(message_place(index).len() as int) == message_place(
            index,
        ),
        message_fault(index, message)->0[message_place(index).len() as int] == ']',
{
    reveal_strlit("].name is not supported; tool results are transparently executed");
    reveal_strlit("].tool_call_id is not supported; tool execution is transparent");
    reveal_strlit("].role '");
    reveal_strlit("].tool_calls is not supported; tool execution is transparent");
    assert(message_fault(index, message)->0.take(message_place(index).len() as int)
        =~= message_place(index));
}

/// Whether a response is what every refused request is answered: 400, in the
/// body as well, and an `invalid_request_error` without a code.
pub open spec fn is_invalid_request(response: ResponseView) -> bool {
    &&& response.status == 400
    &&& response.error.status == 400
    &&& response.error.error_type == "invalid_request_error"@
    &&& response.error.code is None
}

/// Every refusal has the same envelope, and names the field at fault: one of the
/// request's own, `messages`, or `model`.
pub proof fn law_refusals_share_envelope(
    req: ChatCompletionRequest,
    model: Seq<char>,
    agents: Map<Seq<char>, AliasedAgentConfig>,
)
    ensures
        first_present(unsupported_params(req)) matches Err(response) ==> is_invalid_request(response)
            && exists|i: int| #[trigger]
            is_first_present(unsupported_params(req), i) && response.error.param == Some(
                unsupported_params(req)[i].param,
            ),
        messages_outcome(req.messages@) matches Err(response) ==> is_invalid_request(response)
            && response.error.param == Some("messages"@),
        agent_of_model(model, agents) matches Err(response) ==> is_invalid_request(response)
            && response.error.param == Some("model"@),
{
    if first_present(unsupported_params(req)) is Err {
        law_refused_for_first_present(unsupported_params(req));
    }
    lemma_message_refusals(req.messages@, 0);
}

proof fn lemma_message_refusals(messages: Seq<ChatCompletionMessage>, from: nat)
    ensures
        first_message_fault(messages, from) matches Err(response) ==> is_invalid_request(response)
            && response.error.param == Some("messages"@),
    decreases messages.len() - from,
{
    if from < messages.len() {
        lemma_message_refusals(messages, from + 1);
    }
}

/// White space around a model changes nothing.
pub proof fn law_padding_of_model_does_not_matter(
    front: Seq<char>,
    model: Seq<char>,
    back: Seq<char>,
    agents: Map<Seq<char>, AliasedAgentConfig>,
)
    requires
        is_blank(front),
        is_blank(back),
    ensures
        alias_of_model(front + model + back, agents) == alias_of_model(model, agents),
        agent_of_model(front + model + back, agents) == agent_of_model(model, agents),
{
    law_trimmed_ignores_padding(front, model, back);
}

/// The empty model, `zeroclaw` and `zeroclaw/default` mean the same: the default
/// agent, or an error where there is none.
pub proof fn law_shorthands_agree(agents: Map<Seq<char>, AliasedAgentConfig>)
    ensures
        ({
            let expected = match default_agent(agents) {
                Some(alias) => Ok(alias),
                None => Err(no_default_agent()),
            };
            &&& alias_of_model(""@, agents) == expected
            &&& alias_of_model("zeroclaw"@, agents) == expected
            &&& alias_of_model("zeroclaw/default"@, agents) == expected
        }),
{
    reveal_strlit("");
    reveal_strlit("zeroclaw");
    reveal_strlit("zeroclaw/default");
    law_trim_is_trimmed(""@);
    law_trim_is_trimmed("zeroclaw"@);
    law_trim_is_trimmed("zeroclaw/default"@);
}

/// The default agent is one of the configured agents.
pub proof fn law_default_agent_exists(agents: Map<Seq<char>, AliasedAgentConfig>)
    ensures
        default_agent(agents) matches Some(alias) ==> agents.dom().contains(alias),
{
}

/// The agent called `default` is the default agent, enabled or not.
pub proof fn law_default_key_wins(agents: Map<Seq<char>, AliasedAgentConfig>)
    requires
        agents.dom().contains("default"@),
    ensures
        default_agent(agents) == Some("default"@),
{
}

/// Where no agent is called `default`, the first enabled one stands in for it.
pub proof fn law_first_enabled_stands_in(
    agents: Map<Seq<char>, AliasedAgentConfig>,
    alias: Seq<char>,
)
    requires
        !agents.dom().contains("default"@),
        is_first_enabled(agents, alias),
    ensures
        default_agent(agents) == Some(alias),
{
    let chosen = choose|a: Seq<char>| is_first_enabled(agents, a);
    lemma_first_enabled_unique(agents, alias, chosen);
}

/// A request that names no agent is answered by the default agent wherever there
/// is one: it is never told that the agent is unknown.
pub proof fn law_default_agent_answers(
    model: Seq<char>,
    agents: Map<Seq<char>, AliasedAgentConfig>,
)
    requires
        is_default_shorthand(trimmed(model)),
    ensures
        agent_of_model(model, agents) == match default_agent(agents) {
            Some(alias) => Ok(alias),
            None => Err(invalid_request(no_default_agent(), "model"@)),
        },
{
    law_default_agent_exists(agents);
}

/// An agent is reached under `zeroclaw/` and its alias, if the alias is not empty
/// and has no white space at its ends. The alias `default` is left to the
/// configuration where no agent has it.
pub proof fn law_named_alias_is_reached(
    alias: Seq<char>,
    agents: Map<Seq<char>, AliasedAgentConfig>,
)
    requires
        alias.len() > 0,
        is_trim(alias),
        alias != "default"@ || agents.dom().contains(alias),
    ensures
        alias_of_model("zeroclaw/"@ + alias, agents) == Ok::<Seq<char>, Seq<char>>(alias),
        agents.dom().contains(alias) ==> agent_of_model("zeroclaw/"@ + alias, agents) == Ok::<
            Seq<char>,
            ResponseView,
        >(alias),
        !agents.dom().contains(alias) ==> agent_of_model("zeroclaw/"@ + alias, agents) == Err::<
            Seq<char>,
            ResponseView,
        >(invalid_request(unknown_agent(alias), "model"@)),
{
    reveal_strlit("zeroclaw/");
    reveal_strlit("zeroclaw");
    reveal_strlit("default");
    reveal_strlit("zeroclaw/default");
    let model = "zeroclaw/"@ + alias;
    assert(model[0] == 'z');
    assert(model.last() == alias.last());
    law_trim_is_trimmed(model);
    assert(model.skip("zeroclaw/"@.len() as int) =~= alias);
    law_trim_is_trimmed(alias);
    if model == "zeroclaw/default"@ {
        assert("zeroclaw/default"@.skip("zeroclaw/"@.len() as int) =~= "default"@);
    }
}

/// Where a model names an agent, the alias is read off the model alone; the
/// configuration has no part in it.
pub proof fn law_named_alias_ignores_config(
    model: Seq<char>,
    agents: Map<Seq<char>, AliasedAgentConfig>,
    others: Map<Seq<char>, AliasedAgentConfig>,
)
    requires
        !is_default_shorthand(trimmed(model)),
    ensures
        alias_of_model(model, agents) == alias_of_model(model, others),
{
}

/// An agent that is named is reached whether or not it is enabled: only which
/// aliases there are counts.
pub proof fn law_named_agent_need_not_be_enabled(
    model: Seq<char>,
    agents: Map<Seq<char>, AliasedAgentConfig>,
    others: Map<Seq<char>, AliasedAgentConfig>,
)
    requires
        !is_default_shorthand(trimmed(model)),
        agents.dom() == others.dom(),
    ensures
        agent_of_model(model, agents) == agent_of_model(model, others),
{
}

/// A model that is neither a shorthand nor begins with `zeroclaw/` is refused,
/// whatever agents there are.
pub proof fn law_other_models_are_refused(
    model: Seq<char>,
    agents: Map<Seq<char>, AliasedAgentConfig>,
)
    requires
        !is_default_shorthand(trimmed(model)),
        !"zeroclaw/"@.is_prefix_of(trimmed(model)),
    ensures
        alias_of_model(model, agents) == Err::<Seq<char>, Seq<char>>(
            unrecognized_model(trimmed(model)),
        ),
        agent_of_model(model, agents) is Err,
{
}

/// A request is only ever routed to an agent that is configured, the one that
/// its model stands for.
pub proof fn law_resolved_agent_exists(
    model: Seq<char>,
    agents: Map<Seq<char>, AliasedAgentConfig>,
)
    ensures
        agent_of_model(model, agents) matches Ok(alias) ==> agents.dom().contains(alias)
            && alias_of_model(model, agents) == Ok::<Seq<char>, Seq<char>>(alias),
{
}

/// An alias that is read off a model is not empty and has no white space at its ends.
pub proof fn law_named_alias_is_trim(
    model: Seq<char>,
    agents: Map<Seq<char>, AliasedAgentConfig>,
)
    requires
        !is_default_shorthand(trimmed(model)),
    ensures
        alias_of_model(model, agents) matches Ok(alias) ==> alias.len() > 0 && is_trim(alias),
{
    law_trimmed_is_trim(trimmed(model).skip("zeroclaw/"@.len() as int));
}

/// A model that stands for no alias and an alias that no agent has are told
/// apart by the message.
pub proof fn law_failures_are_distinguishable(
    model: Seq<char>,
    agents: Map<Seq<char>, AliasedAgentConfig>,
    alias: Seq<char>,
)
    ensures
        alias_of_model(model, agents) matches Err(message) ==> message != unknown_agent(alias),
{
    reveal_strlit("no enabled [agents.<alias>] configured");
    reveal_strlit("Invalid agent target `");
    reveal_strlit("Unrecognized model `");
    reveal_strlit("Unknown agent `");
    let m = trimmed(model);
    assert(unknown_agent(alias)[0] == 'U' && unknown_agent(alias)[2] == 'k');
    assert(no_default_agent()[0] == 'n');
    assert(missing_alias(m)[0] == 'I');
    assert(unrecognized_model(m)[2] == 'r');
}

/// The request's fields decide in their documented order: the refusal is for the
/// first field in this list that the request has, under the field's own name and
/// with the field's own text; a request with none of them passes.
#[verifier::rlimit(40)]
pub proof fn law_fields_decide_in_order(req: ChatCompletionRequest)
    ensures
        ({
            let answer = first_present(unsupported_params(req));
            if req.max_tokens is Some {
                answer matches Err(response) && response.error.param == Some("max_tokens"@)
                    && response.error.message
                    == "max_tokens is not supported per-request; configure in provider settings"@
            } else if req.top_p is Some {
                answer matches Err(response) && response.error.param == Some("top_p"@)
                    && response.error.message
                    == "top_p is not supported per-request"@
            } else if req.stop is Some {
                answer matches Err(response) && response.error.param == Some("stop"@)
                    && response.error.message
                    == "stop is not supported per-request"@
            } else if req.presence_penalty is Some {
                answer matches Err(response) && response.error.param == Some("presence_penalty"@)
                    && response.error.message
                    == "presence_penalty is not supported per-request"@
            } else if req.frequency_penalty is Some {
                answer matches Err(response) && response.error.param == Some("frequency_penalty"@)
                    && response.error.message
                    == "frequency_penalty is not supported per-request"@
            } else if req.n is Some {
                answer matches Err(response) && response.error.param == Some("n"@)
                    && response.error.message
                    == "n is not supported; single completion per request"@
            } else if req.response_format is Some {
                answer matches Err(response) && response.error.param == Some("response_format"@)
                    && response.error.message
                    == "response_format is not supported; configure output format in provider settings"@
            } else if req.seed is Some {
                answer matches Err(response) && response.error.param == Some("seed"@)
                    && response.error.message
                    == "seed is not supported; configure in provider settings"@
            } else if req.logprobs is Some {
                answer matches Err(response) && response.error.param == Some("logprobs"@)
                    && response.error.message
                    == "logprobs is not supported"@
            } else if req.top_logprobs is Some {
                answer matches Err(response) && response.error.param == Some("top_logprobs"@)
                    && response.error.message
                    == "top_logprobs is not supported"@
            } else if req.user is Some {
                answer matches Err(response) && response.error.param == Some("user"@)
                    && response.error.message
                    == "user is not supported"@
            } else if req.logit_bias is Some {
                answer matches Err(response) && response.error.param == Some("logit_bias"@)
                    && response.error.message
                    == "logit_bias is not supported"@
            } else if req.max_completion_tokens is Some {
                answer matches Err(response) && response.error.param == Some("max_completion_tokens"@)
                    && response.error.message
                    == "max_completion_tokens is not supported; use provider settings"@
            } else if req.temperature is Some {
                answer matches Err(response) && response.error.param == Some("temperature"@)
                    && response.error.message
                    == "temperature is not supported per-request; set `temperature` on the routed agent's provider model"@
            } else if req.parallel_tool_calls is Some {
                answer matches Err(response) && response.error.param == Some("parallel_tool_calls"@)
                    && response.error.message
                    == "parallel_tool_calls is not supported; tools executed transparently"@
            } else if req.service_tier is Some {
                answer matches Err(response) && response.error.param == Some("service_tier"@)
                    && response.error.message
                    == "service_tier is not applicable; routing is ZeroClaw config"@
            } else if req.functions is Some {
                answer matches Err(response) && response.error.param == Some("functions"@)
                    && response.error.message
                    == "legacy function-calling is not supported; use `tools`"@
            } else if req.function_call is Some {
                answer matches Err(response) && response.error.param == Some("function_call"@)
                    && response.error.message
                    == "legacy function_call is not supported; use `tool_choice`"@
            } else if req.reasoning_effort is Some {
                answer matches Err(response) && response.error.param == Some("reasoning_effort"@)
                    && response.error.message
                    == "reasoning_effort is not supported per-request; configure model in provider settings"@
            } else if req.modalities is Some {
                answer matches Err(response) && response.error.param == Some("modalities"@)
                    && response.error.message
                    == "only text output supported"@
            } else if req.audio is Some {
                answer matches Err(response) && response.error.param == Some("audio"@)
                    && response.error.message
                    == "audio output not supported"@
            } else if req.prediction is Some {
                answer matches Err(response) && response.error.param == Some("prediction"@)
                    && response.error.message
                    == "predicted outputs not supported"@
            } else if req.web_search_options is Some {
                answer matches Err(response) && response.error.param == Some("web_search_options"@)
                    && response.error.message
                    == "web search not supported per-request"@
            } else {
                answer is Ok
            }
        }),
{
    if req.max_tokens is Some {
        law_first_present_decides(unsupported_params(req), 0);
    } else if req.top_p is Some {
        law_first_present_decides(unsupported_params(req), 1);
    } else if req.stop is Some {
        law_first_present_decides(unsupported_params(req), 2);
    } else if req.presence_penalty is Some {
        law_first_present_decides(unsupported_params(req), 3);
    } else if req.frequency_penalty is Some {
        law_first_present_decides(unsupported_params(req), 4);
    } else if req.n is Some {
        law_first_present_decides(unsupported_params(req), 5);
    } else if req.response_format is Some {
        law_first_present_decides(unsupported_params(req), 6);
    } else if req.seed is Some {
        law_first_present_decides(unsupported_params(req), 7);
    } else if req.logprobs is Some {
        law_first_present_decides(unsupported_params(req), 8);
    } else if req.top_logprobs is Some {
        law_first_present_decides(unsupported_params(req), 9);
    } else if req.user is Some {
        law_first_present_decides(unsupported_params(req), 10);
    } else if req.logit_bias is Some {
        law_first_present_decides(unsupported_params(req), 11);
    } else if req.max_completion_tokens is Some {
        law_first_present_decides(unsupported_params(req), 12);
    } else if req.temperature is Some {
        law_first_present_decides(unsupported_params(req), 13);
    } else if req.parallel_tool_calls is Some {
        law_first_present_decides(unsupported_params(req), 14);
    } else if req.service_tier is Some {
        law_first_present_decides(unsupported_params(req), 15);
    } else if req.functions is Some {
        law_first_present_decides(unsupported_params(req), 16);
    } else if req.function_call is Some {
        law_first_present_decides(unsupported_params(req), 17);
    } else if req.reasoning_effort is Some {
        law_first_present_decides(unsupported_params(req), 18);
    } else if req.modalities is Some {
        law_first_present_decides(unsupported_params(req), 19);
    } else if req.audio is Some {
        law_first_present_decides(unsupported_params(req), 20);
    } else if req.prediction is Some {
        law_first_present_decides(unsupported_params(req), 21);
    } else if req.web_search_options is Some {
        law_first_present_decides(unsupported_params(req), 22);
    } else {
        law_absent_fields_pass(unsupported_params(req));
    }
}

/// A refusal for a field names a field that the request has.
pub proof fn law_refusal_names_present_field(req: ChatCompletionRequest)
    ensures
        first_present(unsupported_params(req)) matches Err(response) ==> {
            &&& response.error.param is Some
            &&& response.error.param matches Some(param) ==> {
                &&& param == "max_tokens"@ ==> req.max_tokens is Some
                &&& param == "top_p"@ ==> req.top_p is Some
                &&& param == "stop"@ ==> req.stop is Some
                &&& param == "presence_penalty"@ ==> req.presence_penalty is Some
                &&& param == "frequency_penalty"@ ==> req.frequency_penalty is Some
                &&& param == "n"@ ==> req.n is Some
                &&& param == "response_format"@ ==> req.response_format is Some
                &&& param == "seed"@ ==> req.seed is Some
                &&& param == "logprobs"@ ==> req.logprobs is Some
                &&& param == "top_logprobs"@ ==> req.top_logprobs is Some
                &&& param == "user"@ ==> req.user is Some
                &&& param == "logit_bias"@ ==> req.logit_bias is Some
                &&& param == "max_completion_tokens"@ ==> req.max_completion_tokens is Some
                &&& param == "temperature"@ ==> req.temperature is Some
                &&& param == "parallel_tool_calls"@ ==> req.parallel_tool_calls is Some
                &&& param == "service_tier"@ ==> req.service_tier is Some
                &&& param == "functions"@ ==> req.functions is Some
                &&& param == "function_call"@ ==> req.function_call is Some
                &&& param == "reasoning_effort"@ ==> req.reasoning_effort is Some
                &&& param == "modalities"@ ==> req.modalities is Some
                &&& param == "audio"@ ==> req.audio is Some
                &&& param == "prediction"@ ==> req.prediction is Some
                &&& param == "web_search_options"@ ==> req.web_search_options is Some
            }
        },
{
    let table = unsupported_params(req);
    if first_present(table) is Err {
        law_refused_for_first_present(table);
        let i = choose|i: int| #[trigger]
            is_first_present(table, i) && first_present(table) == Err::<(), ResponseView>(
                invalid_request(table[i].message, table[i].param),
            );
        assert forall|k: int|
            0 <= k < table.len() && (#[trigger] table[k]).param
                == table[i].param implies table[k].present by {
            if k < i {
                lemma_params_are_distinct(req, k, i);
            } else if i < k {
                lemma_params_are_distinct(req, i, k);
            }
        }
        assert(table[0].param == "max_tokens"@ && table[0].present == req.max_tokens is Some);
        assert(table[1].param == "top_p"@ && table[1].present == req.top_p is Some);
        assert(table[2].param == "stop"@ && table[2].present == req.stop is Some);
        assert(table[3].param == "presence_penalty"@ && table[3].present == req.presence_penalty is Some);
        assert(table[4].param == "frequency_penalty"@ && table[4].present == req.frequency_penalty is Some);
        assert(table[5].param == "n"@ && table[5].present == req.n is Some);
        assert(table[6].param == "response_format"@ && table[6].present == req.response_format is Some);
        assert(table[7].param == "seed"@ && table[7].present == req.seed is Some);
        assert(table[8].param == "logprobs"@ && table[8].present == req.logprobs is Some);
        assert(table[9].param == "top_logprobs"@ && table[9].present == req.top_logprobs is Some);
        assert(table[10].param == "user"@ && table[10].present == req.user is Some);
        assert(table[11].param == "logit_bias"@ && table[11].present == req.logit_bias is Some);
        assert(table[12].param == "max_completion_tokens"@ && table[12].present == req.max_completion_tokens is Some);
        assert(table[13].param == "temperature"@ && table[13].present == req.temperature is Some);
        assert(table[14].param == "parallel_tool_calls"@ && table[14].present == req.parallel_tool_calls is Some);
        assert(table[15].param == "service_tier"@ && table[15].present == req.service_tier is Some);
        assert(table[16].param == "functions"@ && table[16].present == req.functions is Some);
        assert(table[17].param == "function_call"@ && table[17].present == req.function_call is Some);
        assert(table[18].param == "reasoning_effort"@ && table[18].present == req.reasoning_effort is Some);
        assert(table[19].param == "modalities"@ && table[19].present == req.modalities is Some);
        assert(table[20].param == "audio"@ && table[20].present == req.audio is Some);
        assert(table[21].param == "prediction"@ && table[21].present == req.prediction is Some);
        assert(table[22].param == "web_search_options"@ && table[22].present == req.web_search_options is Some);
    }
}

/// A response's view holds each of its parts in its own place.
pub proof fn law_response_view(response: Response)
    ensures
        response@.status == response.status@,
        response@.error.message == response.body.error.message@,
        response@.error.error_type == response.body.error.error_type@,
        response@.error.code is Some <==> response.body.error.code is Some,
        response.body.error.code matches Some(code) ==> response@.error.code == Some(code@),
        response@.error.param is Some <==> response.body.error.param is Some,
        response.body.error.param matches Some(param) ==> response@.error.param == Some(param@),
        response@.error.status == response.body.error.status,
{
}

/// What the contracts compare is what the functions return: success stays
/// success, with the same alias, and a failure stays that failure.
pub proof fn law_results_are_seen_as_they_are(
    checked: Result<(), Response>,
    mapped: Result<String, String>,
    resolved: Result<String, Response>,
)
    ensures
        checked is Ok <==> outcome(checked) is Ok,
        checked matches Err(response) ==> outcome(checked) == Err::<(), ResponseView>(response@),
        mapped matches Ok(alias) ==> mapping(mapped) == Ok::<Seq<char>, Seq<char>>(alias@),
        mapped matches Err(message) ==> mapping(mapped) == Err::<Seq<char>, Seq<char>>(message@),
        resolved matches Ok(alias) ==> resolution(resolved) == Ok::<Seq<char>, ResponseView>(
            alias@,
        ),
        resolved matches Err(response) ==> resolution(resolved) == Err::<
            Seq<char>,
            ResponseView,
        >(response@),
{
}

/// A list of messages passes exactly where it has a message, and each has no
/// name, no tool call id, no tool calls, and one of four roles.
pub proof fn law_messages_pass_iff(messages: Seq<ChatCompletionMessage>)
    ensures
        messages_outcome(messages) is Ok <==> messages.len() > 0 && forall|i: int|
            0 <= i < messages.len() ==> {
                &&& (#[trigger] messages[i]).name is None
                &&& messages[i].tool_call_id is None
                &&& messages[i].tool_calls is None
                &&& messages[i].role@ == "system"@ || messages[i].role@ == "developer"@
                    || messages[i].role@ == "user"@ || messages[i].role@ == "assistant"@
            },
{
    lemma_messages_pass_from(messages, 0);
}

proof fn lemma_messages_pass_from(messages: Seq<ChatCompletionMessage>, from: nat)
    ensures
        first_message_fault(messages, from) is Ok <==> forall|i: int|
            from <= i < messages.len() ==> is_acceptable(#[trigger] messages[i]),
    decreases messages.len() - from,
{
    if from < messages.len() {
        law_fault_iff_unacceptable(from, messages[from as int]);
        lemma_messages_pass_from(messages, from + 1);
        if is_acceptable(messages[from as int]) && first_message_fault(messages, from + 1) is Ok {
            assert forall|i: int| from <= i < messages.len() implies is_acceptable(
                #[trigger] messages[i],
            ) by {}
        }
    }
}

/// A message with a name is refused whatever its role, its content and the
/// other messages; so is one with a tool call id, and one with tool calls.
pub proof fn law_tool_fields_are_refused(messages: Seq<ChatCompletionMessage>, i: int)
    requires
        0 <= i < messages.len(),
        messages[i].name is Some || messages[i].tool_call_id is Some || messages[i].tool_calls
            is Some,
    ensures
        messages_outcome(messages) is Err,
{
    law_messages_pass_iff(messages);
}

/// A message whose role is none of the four is refused, whatever else there is.
pub proof fn law_other_roles_are_refused(messages: Seq<ChatCompletionMessage>, i: int)
    requires
        0 <= i < messages.len(),
        messages[i].role@ != "system"@,
        messages[i].role@ != "developer"@,
        messages[i].role@ != "user"@,
        messages[i].role@ != "assistant"@,
    ensures
        messages_outcome(messages) is Err,
{
    law_messages_pass_iff(messages);
}

/// Where all messages before `i` are in order and that at `i` is not, the client
/// is told of the one at `i`: of its name, else of its tool call id, else of its
/// role, else of its tool calls.
pub proof fn law_message_texts(messages: Seq<ChatCompletionMessage>, i: nat)
    requires
        i < messages.len(),
        forall|j: int|
            0 <= j < i ==> {
                &&& (#[trigger] messages[j]).name is None
                &&& messages[j].tool_call_id is None
                &&& messages[j].tool_calls is None
                &&& messages[j].role@ == "system"@ || messages[j].role@ == "developer"@
                    || messages[j].role@ == "user"@ || messages[j].role@ == "assistant"@
            },
    ensures
        ({
            let answer = messages_outcome(messages);
            let message = messages[i as int];
            let place = "messages["@ + decimal(i);
            if message.name is Some {
                answer matches Err(response) && response.error.message == place
                    + "].name is not supported; tool results are transparently executed"@
            } else if message.tool_call_id is Some {
                answer matches Err(response) && response.error.message == place
                    + "].tool_call_id is not supported; tool execution is transparent"@
            } else if message.role@ != "system"@ && message.role@ != "developer"@ && message.role@
                != "user"@ && message.role@ != "assistant"@ {
                answer matches Err(response) && response.error.message == place + "].role '"@
                    + message.role@
                    + "' is not supported; allowed: system, developer, user, assistant (tool/function roles are transparently executed and rejected)"@
            } else if message.tool_calls is Some {
                answer matches Err(response) && response.error.message == place
                    + "].tool_calls is not supported; tool execution is transparent"@
            } else {
                true
            }
        }),
{
    assert forall|j: int| 0 <= j < i implies is_acceptable(#[trigger] messages[j]) by {}
    if !is_acceptable(messages[i as int]) {
        law_first_faulty_message_decides(messages, i);
    }
}

/// An empty list of messages is refused as such.
pub proof fn law_no_messages_text(messages: Seq<ChatCompletionMessage>)
    requires
        messages.len() == 0,
    ensures
        messages_outcome(messages) matches Err(response) && response.error.message
            == "messages must not be empty"@,
{
}

/// No silent routing: a model that is not empty, not `zeroclaw`, and does not
/// begin with `zeroclaw/`, white space around it left aside, is refused under
/// every configuration, and the refusal quotes it.
pub proof fn law_foreign_models_are_refused(
    model: Seq<char>,
    agents: Map<Seq<char>, AliasedAgentConfig>,
)
    requires
        trimmed(model).len() > 0,
        trimmed(model) != "zeroclaw"@,
        !"zeroclaw/"@.is_prefix_of(trimmed(model)),
    ensures
        ({
            let text = "Unrecognized model `"@ + trimmed(model)
                + "`: this endpoint routes to ZeroClaw agents only. Use `zeroclaw/<agent-alias>`, or omit `model` (or send `zeroclaw`) for the default agent. Provider and model are ZeroClaw configuration, not per-request."@;
            &&& alias_of_model(model, agents) == Err::<Seq<char>, Seq<char>>(text)
            &&& agent_of_model(model, agents) matches Err(response) && response.error.message
                == text
        }),
{
    reveal_strlit("zeroclaw/");
    reveal_strlit("zeroclaw/default");
    assert("zeroclaw/"@ =~= "zeroclaw/default"@.subrange(0, "zeroclaw/"@.len() as int));
}

/// A model that begins with `zeroclaw/` and goes on with anything but `default`
/// stands for what follows, trimmed, whatever the configuration; where nothing
/// follows, it is refused.
pub proof fn law_prefixed_model_names_the_rest(
    model: Seq<char>,
    rest: Seq<char>,
    agents: Map<Seq<char>, AliasedAgentConfig>,
)
    requires
        trimmed(model) == "zeroclaw/"@ + rest,
        rest != "default"@,
    ensures
        trimmed(rest).len() > 0 ==> alias_of_model(model, agents) == Ok::<Seq<char>, Seq<char>>(
            trimmed(rest),
        ),
        trimmed(rest).len() == 0 ==> alias_of_model(model, agents) == Err::<
            Seq<char>,
            Seq<char>,
        >("Invalid agent target `"@ + trimmed(model) + "`: missing agent alias"@),
{
    reveal_strlit("zeroclaw/");
    reveal_strlit("zeroclaw");
    reveal_strlit("default");
    reveal_strlit("zeroclaw/default");
    let m = trimmed(model);
    assert(m.skip("zeroclaw/"@.len() as int) =~= rest);
    assert("zeroclaw/"@ =~= m.subrange(0, "zeroclaw/"@.len() as int));
    if m == "zeroclaw/default"@ {
        assert("zeroclaw/default"@.skip("zeroclaw/"@.len() as int) =~= "default"@);
    }
}

/// An empty model, `zeroclaw` and `zeroclaw/default`, white space around them
/// left aside, stand for the default agent, or for an error where there is none.
pub proof fn law_shorthands_ask_for_default(
    model: Seq<char>,
    agents: Map<Seq<char>, AliasedAgentConfig>,
)
    requires
        trimmed(model).len() == 0 || trimmed(model) == "zeroclaw"@ || trimmed(model)
            == "zeroclaw/default"@,
    ensures
        default_agent(agents) matches Some(alias) ==> alias_of_model(model, agents) == Ok::<
            Seq<char>,
            Seq<char>,
        >(alias),
        default_agent(agents) is None ==> alias_of_model(model, agents) == Err::<
            Seq<char>,
            Seq<char>,
        >("no enabled [agents.<alias>] configured"@),
{
}

/// The agent of a model is the alias that the model stands for, where there is
/// such an agent; all else is refused, with what is wrong with the model or with
/// the alias that is unknown.
pub proof fn law_agent_is_the_known_alias(
    model: Seq<char>,
    agents: Map<Seq<char>, AliasedAgentConfig>,
)
    ensures
        alias_of_model(model, agents) matches Ok(alias) ==> if agents.dom().contains(alias) {
            agent_of_model(model, agents) == Ok::<Seq<char>, ResponseView>(alias)
        } else {
            agent_of_model(model, agents) matches Err(response) && response.error.message
                == "Unknown agent `"@ + alias + "` — no [agents."@ + alias
                + "] entry configured."@
        },
        alias_of_model(model, agents) matches Err(message) ==> (agent_of_model(
            model,
            agents,
        ) matches Err(response) && response.error.message == message),
{
}

/// A default agent that is not called `default` is enabled, and its alias is the
/// smallest of the enabled ones: it and any other agree up to a position at which
/// it ends or has the character with the smaller code point.
pub proof fn law_default_agent_is_smallest(
    agents: Map<Seq<char>, AliasedAgentConfig>,
    other: Seq<char>,
)
    requires
        !agents.dom().contains("default"@),
        agents.dom().contains(other),
        agents[other].enabled,
        default_agent(agents) is Some,
        default_agent(agents) != Some(other),
    ensures
        ({
            let alias = default_agent(agents)->0;
            &&& agents.dom().contains(alias)
            &&& agents[alias].enabled
            &&& exists|k: int|
                0 <= k <= alias.len() && k < other.len() && alias.take(k) == #[trigger] other.take(
                    k,
                ) && (k == alias.len() || alias[k] < other[k])
        }),
{
    let alias = default_agent(agents)->0;
    assert(is_first_enabled(agents, alias));
    assert(is_enabled(agents, other));
    law_precedes_is_lexicographic(alias, other);
}

/// There is no default agent exactly where none is called `default` and none of
/// the configured ones is enabled.
pub proof fn law_default_agent_is_found(agents: Map<Seq<char>, AliasedAgentConfig>)
    requires
        agents.dom().finite(),
    ensures
        default_agent(agents) is None <==> forall|alias: Seq<char>| #[trigger]
            agents.dom().contains(alias) ==> alias != "default"@ && !agents[alias].enabled,
{
    let enabled = agents.dom().filter(|alias: Seq<char>| agents[alias].enabled);
    vstd::set_lib::lemma_set_subset_finite(agents.dom(), enabled);
    if enabled.len() > 0 {
        let first = lemma_first_name(enabled);
        assert forall|other: Seq<char>| #[trigger]
            is_enabled(agents, other) && other != first implies precedes(first, other) by {
            assert(enabled.contains(other));
        }
        assert(agents.dom().contains(first));
        assert(is_first_enabled(agents, first));
    } else {
        assert forall|alias: Seq<char>| #[trigger] agents.dom().contains(
            alias,
        ) implies !agents[alias].enabled by {
            assert(!enabled.contains(alias));
        }
    }
}

}
