//! The WebSocket chat endpoint.
use vstd::prelude::*;

verus! {

/// The query of a WebSocket upgrade request.
pub struct WsQuery {
    pub token: Option<String>,
}

} // verus!
