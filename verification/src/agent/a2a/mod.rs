//! The agent-to-agent protocol.
pub mod discovery;
pub mod server;
pub mod types;
pub mod wire;
