//! Numeric error codes of the agent-to-agent protocol.
use vstd::prelude::*;

verus! {

pub const PARSE_ERROR: i32 = -32700;

pub const INVALID_REQUEST: i32 = -32600;

pub const METHOD_NOT_FOUND: i32 = -32601;

pub const INVALID_PARAMS: i32 = -32602;

pub const INTERNAL_ERROR: i32 = -32603;

pub const TASK_NOT_FOUND: i32 = -32001;

pub const TASK_CANCEL_FAILED: i32 = -32002;

pub const AUTHENTICATION_FAILED: i32 = -32003;

pub const INVALID_AUTHENTICATION: i32 = -32004;

} // verus!
