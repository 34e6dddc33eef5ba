//! An OpenAI-compatible front door for agents: the contract of
//! `POST /v1/chat/completions`.
//!
//! A request passes two checks and is then routed. `validate_unsupported_params`
//! refuses fields that the agents do not honour, `validate_request` looks at the
//! messages, and `resolve_agent_alias_from_model` finds the agent that the
//! request's `model` stands for. What is refused is answered with an error
//! envelope that names the field at fault.
pub mod config;
pub mod error;
pub mod laws;
pub mod request;
pub mod routing;
pub mod text;
pub mod validate;
