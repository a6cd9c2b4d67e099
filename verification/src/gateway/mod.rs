//! The HTTP gateway.
pub mod api;
pub mod channel_schemas;
pub mod provider_schemas;
pub mod schemas;
pub mod ws;
