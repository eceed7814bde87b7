//! Response streams for a multi-agent API: recovery from failed requests, the
//! bridge to a Codex app-server, and the values that pass between them.
pub mod api;
pub mod clock;
pub mod codex_laws;
pub mod codex_mapper;
pub mod codex_outcomes;
pub mod codex_rpc;
pub mod codex_session;
pub mod codex_session_outcomes;
pub mod consumable;
pub mod ids;
pub mod json;
pub mod recovery;
pub mod request;
pub mod stream;
pub mod stream_laws;
pub mod stream_outcomes;
pub mod text;
