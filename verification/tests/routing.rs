use zeroclaw_gateway::config::{AliasedAgentConfig, Config};
use zeroclaw_gateway::routing::{agent_alias_from_model, resolve_agent_alias_from_model};
use zeroclaw_gateway::text::name_precedes;

fn config_with_agents(agents: &[(&str, bool)]) -> Config {
    let mut config = Config::default();
    for (alias, enabled) in agents {
        config.agents.insert((*alias).to_string(), AliasedAgentConfig { enabled: *enabled });
    }
    config
}

#[test]
fn default_shorthand_routes_to_default_agent() {
    let config = config_with_agents(&[("default", true)]);
    assert_eq!(agent_alias_from_model("", &config), Ok("default".to_string()));
    assert_eq!(agent_alias_from_model("zeroclaw", &config), Ok("default".to_string()));
    assert_eq!(agent_alias_from_model("zeroclaw/default", &config), Ok("default".to_string()));
    assert_eq!(
        agent_alias_from_model("  zeroclaw  ", &config),
        Ok("default".to_string()),
        "model is trimmed before matching"
    );
}

#[test]
fn default_falls_back_to_lexicographically_smallest_enabled() {
    let config = config_with_agents(&[("research", true), ("coding", true)]);
    assert_eq!(agent_alias_from_model("", &config), Ok("coding".to_string()));
}

#[test]
fn default_no_enabled_agent_is_error() {
    let config = config_with_agents(&[("research", false)]);
    let err = agent_alias_from_model("", &config).unwrap_err();
    assert!(err.contains("no enabled"), "err = {err}");
}

#[test]
fn explicit_alias_strips_prefix() {
    let config = config_with_agents(&[("coding", true)]);
    assert_eq!(agent_alias_from_model("zeroclaw/coding", &config), Ok("coding".to_string()));
    assert_eq!(
        agent_alias_from_model("zeroclaw/coding ", &config),
        Ok("coding".to_string()),
        "alias is trimmed after the prefix"
    );
}

#[test]
fn rejects_non_zeroclaw_prefixes() {
    let config = config_with_agents(&[("coding", true)]);
    for model in ["gpt-4", "zeroclaw:coding", "agent:coding"] {
        let err = agent_alias_from_model(model, &config).unwrap_err();
        assert!(
            err.contains("routes to ZeroClaw agents only"),
            "{model} should be rejected, err = {err}"
        );
    }
}

#[test]
fn rejects_empty_explicit_alias() {
    let config = config_with_agents(&[("coding", true)]);
    for model in ["zeroclaw/", "zeroclaw/   "] {
        let err = agent_alias_from_model(model, &config).unwrap_err();
        assert!(err.contains("missing agent alias"), "{model:?} err = {err}");
    }
}

#[test]
fn unknown_alias_400_in_handler() {
    let config = config_with_agents(&[("coding", true)]);
    let err = resolve_agent_alias_from_model("zeroclaw/nope", &config).unwrap_err();
    assert_eq!(err.status.as_u16(), 400);
    assert_eq!(err.body.error.error_type, "invalid_request_error");
    assert_eq!(err.body.error.param.as_deref(), Some("model"));
    assert!(err.body.error.message.contains("Unknown agent `nope`"));
}

#[test]
fn disabled_agent_not_rejected() {
    // Where an agent is named, it only has to be there.
    let config = config_with_agents(&[("coding", true), ("research", false)]);
    assert_eq!(agent_alias_from_model("zeroclaw/research", &config), Ok("research".to_string()));
    assert_eq!(
        resolve_agent_alias_from_model("zeroclaw/research", &config).unwrap(),
        "research"
    );

    // A disabled agent called `default` still answers an empty model.
    let config = config_with_agents(&[("default", false), ("coding", true)]);
    assert_eq!(agent_alias_from_model("", &config), Ok("default".to_string()));
}

#[test]
fn messages_are_exact() {
    let config = config_with_agents(&[("coding", false)]);
    assert_eq!(
        agent_alias_from_model("zeroclaw", &config).unwrap_err(),
        "no enabled [agents.<alias>] configured"
    );
    assert_eq!(
        agent_alias_from_model(" zeroclaw/ ", &config).unwrap_err(),
        "Invalid agent target `zeroclaw/`: missing agent alias"
    );
    assert_eq!(
        agent_alias_from_model(" gpt-4 ", &config).unwrap_err(),
        "Unrecognized model `gpt-4`: this endpoint routes to ZeroClaw agents only. \
         Use `zeroclaw/<agent-alias>`, or omit `model` (or send `zeroclaw`) for the \
         default agent. Provider and model are ZeroClaw configuration, not per-request."
    );
    assert_eq!(
        resolve_agent_alias_from_model("zeroclaw/a b", &config).unwrap_err().body.error.message,
        "Unknown agent `a b` \u{2014} no [agents.a b] entry configured."
    );
}

#[test]
fn resolution_failures_name_the_model() {
    let config = config_with_agents(&[("coding", false)]);
    for model in ["", "gpt-4", "zeroclaw/", "zeroclaw/nope"] {
        let err = resolve_agent_alias_from_model(model, &config).unwrap_err();
        assert_eq!(err.status.as_u16(), 400);
        assert_eq!(err.body.error.status, 400);
        assert_eq!(err.body.error.error_type, "invalid_request_error");
        assert!(err.body.error.code.is_none());
        assert_eq!(err.body.error.param.as_deref(), Some("model"));
    }
    let err = resolve_agent_alias_from_model("", &config).unwrap_err();
    assert_eq!(err.body.error.message, "no enabled [agents.<alias>] configured");
    assert_eq!(resolve_agent_alias_from_model("zeroclaw/coding", &config).unwrap(), "coding");
}

#[test]
fn named_default_is_a_shorthand() {
    // Without an agent called `default` the name falls back like any shorthand;
    // behind white space it is an alias like any other.
    let config = config_with_agents(&[("coding", true)]);
    assert_eq!(agent_alias_from_model("zeroclaw/default", &config), Ok("coding".to_string()));
    assert_eq!(agent_alias_from_model("zeroclaw/ default", &config), Ok("default".to_string()));
    assert!(resolve_agent_alias_from_model("zeroclaw/ default", &config).is_err());
}

#[test]
fn prefix_is_taken_off_once_and_exactly() {
    let config = Config::default();
    assert_eq!(
        agent_alias_from_model("zeroclaw/zeroclaw/x", &config),
        Ok("zeroclaw/x".to_string())
    );
    assert_eq!(agent_alias_from_model("zeroclaw/\u{e9}t\u{e9}", &config), Ok("\u{e9}t\u{e9}".to_string()));
    for model in ["Zeroclaw/x", "zeroclawx", "zeroclaw x", "/x"] {
        assert!(agent_alias_from_model(model, &config).is_err());
    }
}

/// The characters with the `White_Space` property.
fn is_white_space(c: char) -> bool {
    matches!(
        c,
        '\u{9}'..='\u{d}'
            | ' '
            | '\u{85}'
            | '\u{a0}'
            | '\u{1680}'
            | '\u{2000}'..='\u{200a}'
            | '\u{2028}'
            | '\u{2029}'
            | '\u{202f}'
            | '\u{205f}'
            | '\u{3000}'
    )
}

#[test]
fn exactly_white_space_is_trimmed() {
    let config = config_with_agents(&[("coding", true)]);
    for c in '\0'..=char::MAX {
        let model = format!("{c}zeroclaw{c}");
        let routed = agent_alias_from_model(&model, &config).is_ok();
        assert_eq!(routed, is_white_space(c), "{c:?}");
    }
}

#[test]
fn names_are_ordered_like_strings() {
    let names = [
        "", "a", "aa", "ab", "b", "Z", "\u{7f}", "\u{80}", "\u{e9}", "\u{7ff}", "\u{800}",
        "\u{ffff}", "\u{10000}", "\u{10ffff}", "a\u{e9}", "coding", "coding2", "default",
    ];
    for a in names {
        for b in names {
            assert_eq!(name_precedes(a, b), a < b, "{a:?} {b:?}");
        }
    }
}

#[test]
fn disabled_agents_are_passed_over() {
    let config =
        config_with_agents(&[("d", true), ("a", false), ("c", true), ("b", false), ("e", true)]);
    assert_eq!(config.resolved_runtime_agent_alias(), Some("c"));
    assert!(Config::default().resolved_runtime_agent_alias().is_none());
}

#[test]
fn an_alias_stands_for_one_agent() {
    let mut config = Config::default();
    assert!(config.agent("coding").is_none());
    assert!(config.agents.insert("coding".to_string(), AliasedAgentConfig { enabled: true }).is_none());
    assert!(config.agents.insert("chat".to_string(), AliasedAgentConfig { enabled: false }).is_none());
    assert_eq!(
        config.agents.insert("coding".to_string(), AliasedAgentConfig { enabled: false }),
        Some(AliasedAgentConfig { enabled: true })
    );
    assert_eq!(config.agent("coding"), Some(&AliasedAgentConfig { enabled: false }));
    assert_eq!(config.agent("chat"), Some(&AliasedAgentConfig { enabled: false }));
    assert!(config.agent("Coding").is_none());
    assert!(config.resolved_runtime_agent_alias().is_none());
}

#[test]
fn shorthand_fails_only_without_a_default_agent() {
    for (agents, found) in [
        (vec![], false),
        (vec![("a", false), ("b", false)], false),
        (vec![("a", false), ("b", true)], true),
        (vec![("default", false)], true),
    ] {
        let config = config_with_agents(&agents);
        for model in ["", "zeroclaw", "zeroclaw/default", " zeroclaw "] {
            assert_eq!(agent_alias_from_model(model, &config).is_ok(), found);
            assert_eq!(resolve_agent_alias_from_model(model, &config).is_ok(), found);
        }
    }
}
