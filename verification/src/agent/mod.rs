//! Agents and the protocols between them.
pub mod a2a;
