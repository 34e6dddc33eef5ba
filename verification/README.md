# zeroclaw_gateway

An OpenAI-compatible front door for agents: the contract of
`POST /v1/chat/completions`, with its checks and its routing proved in Verus.

- `src/request.rs`: the request and its parts.
- `src/error.rs`: the error envelope that every refused request is answered with.
- `src/validate.rs`: the fields that are refused, and the rules for messages.
- `src/config.rs`: the configured agents, and which of them is the default.
- `src/routing.rs`: from the `model` of a request to an agent.
- `src/text.rs`: trimming, prefixes, the order of names, decimal numbers.
- `src/laws.rs`: what holds of the checks and of the routing as a whole.
- `app/`: JSON and HTTP around the library, with serde, schemars and axum.
- `tests/`: the library on concrete requests.
