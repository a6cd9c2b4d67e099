//! Runtimes in which tools are executed.
pub mod wasm;
