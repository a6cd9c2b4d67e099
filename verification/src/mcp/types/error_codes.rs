//! Numeric error codes of the protocol.
use vstd::prelude::*;

verus! {

pub const PARSE_ERROR: i32 = -32700;

pub const INVALID_REQUEST: i32 = -32600;

pub const METHOD_NOT_FOUND: i32 = -32601;

pub const INVALID_PARAMS: i32 = -32602;

pub const INTERNAL_ERROR: i32 = -32603;

pub const SERVER_ERROR: i32 = -32000;

pub const TOOL_NOT_FOUND: i32 = -32001;

pub const RESOURCE_NOT_FOUND: i32 = -32002;

} // verus!
