//! The tool and resource access protocol engine: message model, server
//! dispatch and client connection state.
pub mod client;
pub mod decode;
pub mod payload;
pub mod server;
pub mod transport;
pub mod types;
pub mod wire;
