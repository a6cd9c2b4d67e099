//! Authentication of callers.
pub mod cloudflare_access;
