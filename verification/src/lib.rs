//! Verified core of the agent runner: Codex and ACP protocol logic.
pub mod text;
pub mod json;
pub mod model;
pub mod approval_state;
pub mod codec;
pub mod outside;
pub mod id_map;
pub mod provider_commands;
pub mod reducer;
pub mod events;
pub mod message_paths;
pub mod codex;
pub mod codex_rpc;
pub mod codex_client;
pub mod codex_questions;
pub mod codex_approvals;
pub mod codex_turn;
pub mod codex_history;
pub mod codex_runtime;
pub mod acp;
pub mod acp_events;
pub mod acp_runtime;
pub mod acp_reducer;
pub mod codex_obligations;
pub mod codex_options;
pub mod codex_commands;
pub mod codex_mapper;
pub mod universal;
pub mod codex_reducer;
pub mod codex_wire_log;
pub mod adapter;
pub mod codex_actor;
