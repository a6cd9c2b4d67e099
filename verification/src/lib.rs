pub mod agent;
pub mod auth;
pub mod clock;
pub mod config;
pub mod gateway;
pub mod json;
pub mod mcp;
pub mod providers;
pub mod runtime;
pub mod security;
pub mod text;
