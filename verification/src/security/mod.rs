//! Security: the audit trail.
pub mod audit;
