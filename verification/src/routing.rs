//! From the `model` of a request to the agent that answers it.
use vstd::prelude::*;

use crate::config::{default_agent, is_enabled, AliasedAgentConfig, Config};
use crate::error::{invalid_request, refuse, Response, ResponseView};
use crate::text::{strip_prefix, trimmed};

verus! {

/// Whether a trimmed model asks for the default agent.
pub open spec fn is_default_shorthand(model: Seq<char>) -> bool {
    ||| model.len() == 0
    ||| model == "zeroclaw"@
    ||| model == "zeroclaw/default"@
}

/// What follows the `zeroclaw/` of a trimmed model, trimmed in its turn.
pub open spec fn named_alias(model: Seq<char>) -> Seq<char> {
    trimmed(model.skip("zeroclaw/"@.len() as int))
}

/// What is said where no agent can be picked for a request that names none.
pub open spec fn no_default_agent() -> Seq<char> {
    "no enabled [agents.<alias>] configured"@
}

/// What is said of a trimmed model that names no agent behind `zeroclaw/`.
pub open spec fn missing_alias(model: Seq<char>) -> Seq<char> {
    "Invalid agent target `"@ + model + "`: missing agent alias"@
}

/// What is said of any other trimmed model.
pub open spec fn unrecognized_model(model: Seq<char>) -> Seq<char> {
    "Unrecognized model `"@ + model
        + "`: this endpoint routes to ZeroClaw agents only. Use `zeroclaw/<agent-alias>`, or omit `model` (or send `zeroclaw`) for the default agent. Provider and model are ZeroClaw configuration, not per-request."@
}

/// What is said of an alias that no agent has.
pub open spec fn unknown_agent(alias: Seq<char>) -> Seq<char> {
    "Unknown agent `"@ + alias + "` — no [agents."@ + alias + "] entry configured."@
}

/// The alias that a model stands for, or what is wrong with it. White space
/// around the model does not count.
pub open spec fn alias_of_model(
    model: Seq<char>,
    agents: Map<Seq<char>, AliasedAgentConfig>,
) -> Result<Seq<char>, Seq<char>> {
    let model = trimmed(model);
    if is_default_shorthand(model) {
        match default_agent(agents) {
            Some(alias) => Ok(alias),
            None => Err(no_default_agent()),
        }
    } else if !"zeroclaw/"@.is_prefix_of(model) {
        Err(unrecognized_model(model))
    } else if named_alias(model).len() == 0 {
        Err(missing_alias(model))
    } else {
        Ok(named_alias(model))
    }
}

/// The agent that answers a request for `model`, or what the request is
/// answered instead. An agent that is named need not be enabled.
pub open spec fn agent_of_model(
    model: Seq<char>,
    agents: Map<Seq<char>, AliasedAgentConfig>,
) -> Result<Seq<char>, ResponseView> {
    match alias_of_model(model, agents) {
        Ok(alias) => if agents.dom().contains(alias) {
            Ok(alias)
        } else {
            Err(invalid_request(unknown_agent(alias), "model"@))
        },
        Err(message) => Err(invalid_request(message, "model"@)),
    }
}

/// An alias or a message, by its characters.
pub open spec fn mapping(result: Result<String, String>) -> Result<Seq<char>, Seq<char>> {
    match result {
        Ok(alias) => Ok(alias@),
        Err(message) => Err(message@),
    }
}

/// An alias or a refusal, by its view.
pub open spec fn resolution(result: Result<String, Response>) -> Result<Seq<char>, ResponseView> {
    match result {
        Ok(alias) => Ok(alias@),
        Err(response) => Err(response@),
    }
}

proof fn lemma_shorthand_begins_with_prefix(model: Seq<char>)
    ensures
        is_default_shorthand(model) ==> model.len() == 0 || model == "zeroclaw"@
            || "zeroclaw/"@.is_prefix_of(model),
{
    reveal_strlit("zeroclaw/");
    reveal_strlit("zeroclaw/default");
    assert("zeroclaw/"@ =~= "zeroclaw/default"@.subrange(0, "zeroclaw/"@.len() as int));
}

/// Maps the `model` of a request to the alias of an agent:
///
/// - the empty string, `zeroclaw` and `zeroclaw/default` to the default agent
///   of the configuration;
/// - `zeroclaw/<alias>` to `alias`, whether or not there is such an agent;
/// - anything else to an error.
pub fn agent_alias_from_model(model: &str, config: &Config) -> (result: Result<String, String>)
    ensures
        mapping(result) == alias_of_model(model@, config.agents@),
        trimmed(model@).len() > 0 && trimmed(model@) != "zeroclaw"@ && !"zeroclaw/"@.is_prefix_of(
            trimmed(model@),
        ) ==> result is Err,
        is_default_shorthand(trimmed(model@)) ==> (result is Err
            <==> !config.agents@.dom().contains("default"@) && forall|a: Seq<char>|
            !is_enabled(config.agents@, a)),
{
    proof {
        lemma_shorthand_begins_with_prefix(trimmed(model@));
    }
    let model = model.trim();

    if model.is_empty() || *model == *"zeroclaw" || *model == *"zeroclaw/default" {
        return match config.resolved_runtime_agent_alias() {
            Some(alias) => Ok(alias.to_string()),
            None => Err("no enabled [agents.<alias>] configured".to_string()),
        };
    }
    if let Some(rest) = strip_prefix(model, "zeroclaw/") {
        proof {
            assert(model@.skip("zeroclaw/"@.len() as int) =~= rest@);
        }
        let alias = rest.trim();
        if alias.is_empty() {
            let mut message = "Invalid agent target `".to_string();
            message.append(model);
            message.append("`: missing agent alias");
            return Err(message);
        }
        return Ok(alias.to_string());
    }
    let mut message = "Unrecognized model `".to_string();
    message.append(model);
    message.append(
        "`: this endpoint routes to ZeroClaw agents only. Use `zeroclaw/<agent-alias>`, or omit `model` (or send `zeroclaw`) for the default agent. Provider and model are ZeroClaw configuration, not per-request.",
    );
    Err(message)
}

/// Finds the agent that answers a request for `model`: maps the model to an
/// alias and looks whether there is such an agent. Either failure is answered
/// with a refusal for the field `model`. A disabled agent is found where it is
/// named.
pub fn resolve_agent_alias_from_model(model: &str, config: &Config) -> (result: Result<
    String,
    Response,
>)
    ensures
        resolution(result) == agent_of_model(model@, config.agents@),
        trimmed(model@).len() > 0 && trimmed(model@) != "zeroclaw"@ && !"zeroclaw/"@.is_prefix_of(
            trimmed(model@),
        ) ==> result is Err,
        result matches Ok(alias) ==> config.agents@.dom().contains(alias@),
        result matches Err(response) ==> {
            &&& response.status@ == 400
            &&& response.body.error.status == 400
            &&& response.body.error.error_type@ == "invalid_request_error"@
            &&& response.body.error.code is None
            &&& response.body.error.param matches Some(param) && param@ == "model"@
        },
        is_default_shorthand(trimmed(model@)) ==> (result is Err
            <==> !config.agents@.dom().contains("default"@) && forall|a: Seq<char>|
            !is_enabled(config.agents@, a)),
{
    let alias = match agent_alias_from_model(model, config) {
        Ok(alias) => alias,
        Err(message) => {
            return Err(refuse(message.as_str(), "model"));
        },
    };
    if config.agent(alias.as_str()).is_none() {
        let mut message = "Unknown agent `".to_string();
        message.append(alias.as_str());
        message.append("` — no [agents.");
        message.append(alias.as_str());
        message.append("] entry configured.");
        return Err(refuse(message.as_str(), "model"));
    }
    Ok(alias)
}

}
