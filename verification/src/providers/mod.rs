//! Drivers for language-model providers: how each is configured and how a
//! conversation is laid out for it.
pub mod completions;
pub mod mistral_nemo;
pub mod phi4;
pub mod qwen25;
pub mod traits;
