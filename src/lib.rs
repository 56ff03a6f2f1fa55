//! Protocol engine and tool-call orchestration for a local agent host.

pub mod text;
pub mod json;
pub mod gate;
pub mod protocol;
pub mod correlator;
pub mod envelope;
pub mod markers;
pub mod orchestrator;
pub mod server;
pub mod client;
