//! Stored configuration.
pub mod db;
