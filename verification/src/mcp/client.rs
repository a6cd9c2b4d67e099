//! The client side of the protocol: connection state, correlation of
//! responses with the requests they answer, and the reconnect policy.
//!
//! The client decides; it does not read or write a transport. Its functions
//! say what is to be sent and take what arrived, so that whoever drives the
//! transport only carries texts back and forth.
use crate::json::{json_model, json_u64, JsonModel};
use crate::mcp::types::error_codes::{RESOURCE_NOT_FOUND, TOOL_NOT_FOUND};
use crate::mcp::types::{
    ClientCapabilities, ClientInfo, InitializeRequestParams, JsonRpcRequest, McpError,
    ResourcesCapability, ResourcesReadRequestParams, ServerCapabilities, ServerInfo,
    ToolsCallRequestParams, ToolsCapability,
};
use crate::text::{decimal, join, u64_to_decimal};
use std::collections::HashMap;
use vstd::prelude::*;

verus! {

/// How a client reaches its server.
#[derive(Debug, Clone, Copy, PartialEq, Eq, Structural)]
pub enum TransportMode {
    Stdio,
    Http,
}

impl Default for TransportMode {
    fn default() -> (r: Self)
        ensures
            r == TransportMode::Http,
    {
        TransportMode::Http
    }
}

/// Where the server is and how it is started. For the subprocess transport:
/// the command, its arguments and its environment. For HTTP: the URL.
#[derive(Debug, Clone)]
pub struct McpServerConfig {
    pub name: String,
    pub transport_mode: TransportMode,
    pub command: Option<String>,
    pub args: Vec<String>,
    pub env: HashMap<String, String>,
    pub url: Option<String>,
}

impl Default for McpServerConfig {
    fn default() -> (r: Self)
        ensures
            r.name@.len() == 0,
            r.transport_mode == TransportMode::Http,
            r.command is None,
            r.args@.len() == 0,
            r.url matches Some(u) && u@ == "http://localhost:8765"@,
    {
        Self {
            name: String::new(),
            transport_mode: TransportMode::Http,
            command: None,
            args: Vec::new(),
            env: HashMap::new(),
            url: Some("http://localhost:8765".to_owned()),
        }
    }
}

/// Where a client stands in the life of its connection.
#[derive(Debug, Clone, Copy, PartialEq, Eq, Structural)]
pub enum ConnectionState {
    Disconnected,
    Connecting,
    Connected,
    Reconnecting,
}

/// The operations that a client asks of a server.
#[derive(Debug, Clone, Copy, PartialEq, Eq, Structural)]
pub enum Operation {
    Initialize,
    ListTools,
    CallTool,
    ListResources,
    ReadResource,
}

/// How a transport failed.
#[derive(Debug, Clone, Copy, PartialEq, Eq, Structural)]
pub enum TransportError {
    /// The child process exited or its pipe broke.
    Closed,
    /// No response came within the caller's time limit.
    Timeout,
    /// The client has no connection and may not reconnect again.
    NotConnected,
}

/// Whether an error of the server speaks of the protocol or of a capability.
#[derive(Debug, Clone, Copy, PartialEq, Eq, Structural)]
pub enum ErrorClass {
    /// A malformed envelope, an unknown method, invalid parameters.
    Protocol,
    /// A tool or a resource that the server does not have.
    Capability,
}

/// Why an operation of the client failed.
#[derive(Debug, Clone)]
pub enum ClientError {
    /// The configuration lacks what the chosen transport needs.
    Configuration(String),
    /// The transport failed; the operation may be tried again later.
    Transport(TransportError),
    /// The server answered with an error object.
    Server { operation: Operation, class: ErrorClass, code: i32, message: String },
    /// The server answered with a result that cannot be read.
    MalformedResult(Operation),
    /// The server answered with neither a result nor an error.
    MissingResult(Operation),
    /// Every attempt to reconnect failed.
    ReconnectExhausted { attempts: u32 },
    /// The client has handed out every correlation id it has.
    IdsExhausted,
}

/// The class of a server error, by its code.
pub open spec fn class_of(code: int) -> ErrorClass {
    if code == TOOL_NOT_FOUND as int || code == RESOURCE_NOT_FOUND as int {
        ErrorClass::Capability
    } else {
        ErrorClass::Protocol
    }
}

/// Tells the class of a server error from its code.
pub fn classify(code: i32) -> (r: ErrorClass)
    ensures
        r == class_of(code as int),
{
    if code == TOOL_NOT_FOUND || code == RESOURCE_NOT_FOUND {
        ErrorClass::Capability
    } else {
        ErrorClass::Protocol
    }
}

/// The words that lead the message of a failed operation.
pub open spec fn failure_prefix(operation: Operation) -> Seq<char> {
    match operation {
        Operation::Initialize => "MCP initialization failed: "@,
        Operation::ListTools => "Failed to list tools: "@,
        Operation::CallTool => "Tool call failed: "@,
        Operation::ListResources => "Failed to list resources: "@,
        Operation::ReadResource => "Failed to read resource: "@,
    }
}

/// The words that tell of an answer without a result.
pub open spec fn missing_result_text(operation: Operation) -> Seq<char> {
    match operation {
        Operation::Initialize => "No result from initialize"@,
        Operation::ListTools => "No result from tools list"@,
        Operation::CallTool => "No result from tool call"@,
        Operation::ListResources => "No result from resources list"@,
        Operation::ReadResource => "No result from resource read"@,
    }
}

/// The words that tell of a result that cannot be read.
pub open spec fn malformed_result_text(operation: Operation) -> Seq<char> {
    match operation {
        Operation::Initialize => "Failed to parse initialize result"@,
        Operation::ListTools => "Failed to parse tools list result"@,
        Operation::CallTool => "Failed to parse tool call result"@,
        Operation::ListResources => "Failed to parse resources list result"@,
        Operation::ReadResource => "Failed to parse resource read result"@,
    }
}

/// The words that tell of a transport failure.
pub open spec fn transport_text(failure: TransportError) -> Seq<char> {
    match failure {
        TransportError::Closed => "Transport closed"@,
        TransportError::Timeout => "Request timed out"@,
        TransportError::NotConnected => "Not connected"@,
    }
}

impl ClientError {
    /// The message of this error.
    pub open spec fn text(&self) -> Seq<char> {
        match *self {
            ClientError::Configuration(what) => what@,
            ClientError::Transport(failure) => transport_text(failure),
            ClientError::Server { operation, message, .. } => failure_prefix(operation) + message@,
            ClientError::MalformedResult(operation) => malformed_result_text(operation),
            ClientError::MissingResult(operation) => missing_result_text(operation),
            ClientError::ReconnectExhausted { attempts } => "Failed to reconnect to MCP server after "@
                + decimal(attempts as nat) + " attempts"@,
            ClientError::IdsExhausted => "Correlation ids exhausted"@,
        }
    }

    /// Whether the failure is transient, so that trying again later can
    /// help. Only failures of the transport are.
    pub open spec fn is_transient(&self) -> bool {
        *self is Transport || *self is ReconnectExhausted
    }

    /// Whether trying again later can help.
    pub fn retryable(&self) -> (r: bool)
        ensures
            r == self.is_transient(),
    {
        match self {
            ClientError::Transport(_) => true,
            ClientError::ReconnectExhausted { .. } => true,
            _ => false,
        }
    }

    /// Writes the message of this error.
    pub fn message(&self) -> (r: String)
        ensures
            r@ == self.text(),
    {
        match self {
            ClientError::Configuration(what) => what.clone(),
            ClientError::Transport(failure) => match failure {
                TransportError::Closed => "Transport closed".to_owned(),
                TransportError::Timeout => "Request timed out".to_owned(),
                TransportError::NotConnected => "Not connected".to_owned(),
            },
            ClientError::Server { operation, message, .. } => {
                let prefix = match operation {
                    Operation::Initialize => "MCP initialization failed: ",
                    Operation::ListTools => "Failed to list tools: ",
                    Operation::CallTool => "Tool call failed: ",
                    Operation::ListResources => "Failed to list resources: ",
                    Operation::ReadResource => "Failed to read resource: ",
                };
                join(prefix, message.as_str())
            },
            ClientError::MalformedResult(operation) => match operation {
                Operation::Initialize => "Failed to parse initialize result".to_owned(),
                Operation::ListTools => "Failed to parse tools list result".to_owned(),
                Operation::CallTool => "Failed to parse tool call result".to_owned(),
                Operation::ListResources => "Failed to parse resources list result".to_owned(),
                Operation::ReadResource => "Failed to parse resource read result".to_owned(),
            },
            ClientError::MissingResult(operation) => match operation {
                Operation::Initialize => "No result from initialize".to_owned(),
                Operation::ListTools => "No result from tools list".to_owned(),
                Operation::CallTool => "No result from tool call".to_owned(),
                Operation::ListResources => "No result from resources list".to_owned(),
                Operation::ReadResource => "No result from resource read".to_owned(),
            },
            ClientError::ReconnectExhausted { attempts } => {
                let mut text = join(
                    "Failed to reconnect to MCP server after ",
                    u64_to_decimal(*attempts as u64).as_str(),
                );
                text.append(" attempts");
                text
            },
            ClientError::IdsExhausted => "Correlation ids exhausted".to_owned(),
        }
    }
}

/// One request that was sent and is not answered yet.
#[derive(Debug, Clone, Copy, PartialEq, Eq, Structural)]
pub struct PendingRequest {
    pub id: u64,
    pub operation: Operation,
}

/// Whether a request with that id waits among the entries.
pub open spec fn is_waiting(entries: Seq<PendingRequest>, id: u64) -> bool {
    exists|i: int| 0 <= i < entries.len() && (#[trigger] entries[i]).id == id
}

/// Whether no two entries share an id.
pub open spec fn distinct_ids(entries: Seq<PendingRequest>) -> bool {
    forall|i: int, j: int|
        0 <= i < entries.len() && 0 <= j < entries.len() && i != j ==> (#[trigger] entries[i]).id
            != (#[trigger] entries[j]).id
}

/// Whether every entry bears an id that was handed out already.
pub open spec fn ids_below(entries: Seq<PendingRequest>, next_id: u64) -> bool {
    forall|i: int| 0 <= i < entries.len() ==> 1 <= (#[trigger] entries[i]).id < next_id
}

/// The position of the entry with that id, searching from `from`.
pub open spec fn position_from(entries: Seq<PendingRequest>, id: u64, from: int) -> Option<int>
    decreases entries.len() - from,
{
    if from < 0 || from >= entries.len() {
        None
    } else if entries[from].id == id {
        Some(from)
    } else {
        position_from(entries, id, from + 1)
    }
}

/// A search finds an entry with the id exactly where one waits.
pub proof fn lemma_position(entries: Seq<PendingRequest>, id: u64, from: int)
    requires
        0 <= from,
    ensures
        match position_from(entries, id, from) {
            Some(k) => from <= k < entries.len() && entries[k].id == id,
            None => forall|j: int| from <= j < entries.len() ==> (#[trigger] entries[j]).id != id,
        },
    decreases entries.len() - from,
{
    if from < entries.len() && entries[from].id != id {
        lemma_position(entries, id, from + 1);
    }
}

/// The table of the requests that wait for their response, and the counter
/// from which correlation ids are taken. Ids count up from 1 and are never
/// handed out twice; no two entries share an id.
pub struct PendingTable {
    next_id: u64,
    entries: Vec<PendingRequest>,
}

impl PendingTable {
    /// The entries, oldest first.
    pub closed spec fn entries(&self) -> Seq<PendingRequest> {
        self.entries@
    }

    /// The id that the next request will bear.
    pub closed spec fn next_id(&self) -> u64 {
        self.next_id
    }

    /// What holds of every table.
    pub open spec fn wf(&self) -> bool {
        &&& 1 <= self.next_id()
        &&& distinct_ids(self.entries())
        &&& ids_below(self.entries(), self.next_id())
    }

    /// A table without entries, whose first id is 1.
    pub fn new() -> (r: Self)
        ensures
            r.wf(),
            r.entries().len() == 0,
            r.next_id() == 1,
    {
        Self { next_id: 1, entries: Vec::new() }
    }

    /// How many requests wait.
    pub fn len(&self) -> (r: usize)
        ensures
            r == self.entries().len(),
    {
        self.entries.len()
    }

    /// Whether a request with that id waits.
    pub fn contains(&self, id: u64) -> (r: bool)
        ensures
            r == is_waiting(self.entries(), id),
    {
        let mut i: usize = 0;
        while i < self.entries.len()
            invariant
                i <= self.entries.len(),
                forall|j: int| 0 <= j < i ==> (#[trigger] self.entries@[j]).id != id,
            decreases self.entries.len() - i,
        {
            if self.entries[i].id == id {
                return true;
            }
            i += 1;
        }
        false
    }

    /// Takes a fresh id and enters a request under it. `None`, and no
    /// change, once the counter has run out.
    pub fn register(&mut self, operation: Operation) -> (r: Option<u64>)
        requires
            old(self).wf(),
        ensures
            final(self).wf(),
            match r {
                Some(id) => {
                    &&& id == old(self).next_id()
                    &&& old(self).next_id() < u64::MAX
                    &&& final(self).next_id() == id + 1
                    &&& final(self).entries() == old(self).entries().push(
                        PendingRequest { id, operation },
                    )
                    &&& !is_waiting(old(self).entries(), id)
                },
                None => {
                    &&& old(self).next_id() == u64::MAX
                    &&& final(self).next_id() == old(self).next_id()
                    &&& final(self).entries() == old(self).entries()
                },
            },
    {
        if self.next_id == u64::MAX {
            return None;
        }
        let id = self.next_id;
        self.next_id = id + 1;
        self.entries.push(PendingRequest { id, operation });
        Some(id)
    }

    /// Takes the request with that id out of the table. `None`, and no
    /// change, where none waits under the id.
    pub fn resolve(&mut self, id: u64) -> (r: Option<PendingRequest>)
        requires
            old(self).wf(),
        ensures
            final(self).wf(),
            final(self).next_id() == old(self).next_id(),
            r == deliver(old(self).entries(), id).0,
            final(self).entries() == deliver(old(self).entries(), id).1,
            match r {
                Some(request) => {
                    &&& request.id == id
                    &&& is_waiting(old(self).entries(), id)
                    &&& position_from(old(self).entries(), id, 0) matches Some(k)
                        && old(self).entries()[k] == request && final(self).entries() == old(
                        self,
                    ).entries().remove(k)
                    &&& !is_waiting(final(self).entries(), id)
                },
                None => {
                    &&& !is_waiting(old(self).entries(), id)
                    &&& final(self).entries() == old(self).entries()
                },
            },
    {
        let mut i: usize = 0;
        while i < self.entries.len()
            invariant
                i <= self.entries.len(),
                self.entries == old(self).entries,
                self.next_id == old(self).next_id,
                self.wf(),
                position_from(self.entries@, id, 0) == position_from(self.entries@, id, i as int),
                forall|j: int| 0 <= j < i ==> (#[trigger] self.entries@[j]).id != id,
            decreases self.entries.len() - i,
        {
            if self.entries[i].id == id {
                let ghost before = self.entries@;
                proof {
                    let after = before.remove(i as int);
                    assert forall|a: int, b: int|
                        0 <= a < after.len() && 0 <= b < after.len() && a != b implies (
                    #[trigger] after[a]).id != (#[trigger] after[b]).id by {
                        let a0 = if a < i { a } else { a + 1 };
                        let b0 = if b < i { b } else { b + 1 };
                        assert(after[a] == before[a0]);
                        assert(after[b] == before[b0]);
                    }
                    assert forall|a: int| 0 <= a < after.len() implies 1 <= (#[trigger] after[a]).id
                        < self.next_id by {
                        let a0 = if a < i { a } else { a + 1 };
                        assert(after[a] == before[a0]);
                    }
                    assert forall|a: int| 0 <= a < after.len() implies (#[trigger] after[a]).id
                        != id by {
                        let a0 = if a < i { a } else { a + 1 };
                        assert(after[a] == before[a0]);
                    }
                }
                let request = self.entries.remove(i);
                return Some(request);
            }
            i += 1;
        }
        None
    }

    /// Empties the table and hands out what waited, oldest first.
    pub fn drain(&mut self) -> (r: Vec<PendingRequest>)
        requires
            old(self).wf(),
        ensures
            final(self).wf(),
            final(self).next_id() == old(self).next_id(),
            final(self).entries().len() == 0,
            r@ == old(self).entries(),
    {
        let mut taken: Vec<PendingRequest> = Vec::new();
        std::mem::swap(&mut self.entries, &mut taken);
        taken
    }
}

/// What a delivery does to the table: the request that waited under the id
/// leaves the table and is handed out; where none waits, nothing happens.
pub open spec fn deliver(entries: Seq<PendingRequest>, id: u64) -> (Option<PendingRequest>, Seq<
    PendingRequest,
>) {
    match position_from(entries, id, 0) {
        Some(k) => (Some(entries[k]), entries.remove(k)),
        None => (None, entries),
    }
}

/// The limits of reconnecting: how many attempts are made, and how long the
/// first wait is. Each later wait is twice the one before, and never more
/// than `u64::MAX` milliseconds.
#[derive(Debug, Clone, Copy, PartialEq, Eq, Structural)]
pub struct ReconnectPolicy {
    pub max_retries: u32,
    pub base_delay_ms: u64,
}

/// How far a run of reconnecting has come: the attempts that failed, and the
/// wait that follows the next failure.
#[derive(Debug, Clone, Copy, PartialEq, Eq, Structural)]
pub struct ReconnectState {
    pub failed_attempts: u32,
    pub delay_ms: u64,
}

/// What a run of reconnecting does next.
#[derive(Debug, Clone, Copy, PartialEq, Eq, Structural)]
pub enum ReconnectStep {
    /// Make the next attempt: the full connect sequence.
    Attempt,
    /// Wait that many milliseconds.
    Wait(u64),
    /// The client is connected; the run is over.
    Done,
    /// Every attempt failed; the run is over, and no attempt follows.
    GiveUp { attempts: u32 },
}

/// The wait after the failure of attempt `k + 1`, counting `k` from 0.
pub open spec fn delay_after(base_delay_ms: u64, k: nat) -> u64
    decreases k,
{
    if k == 0 {
        base_delay_ms
    } else {
        let before = delay_after(base_delay_ms, (k - 1) as nat);
        if before as int * 2 > u64::MAX as int {
            u64::MAX
        } else {
            (before * 2) as u64
        }
    }
}

impl ReconnectPolicy {
    /// The state of a run in which `k` attempts have failed.
    pub open spec fn state_after(&self, k: nat) -> ReconnectState {
        ReconnectState { failed_attempts: k as u32, delay_ms: delay_after(self.base_delay_ms, k) }
    }

    /// The step that begins a run.
    pub open spec fn first_step(&self) -> ReconnectStep {
        if self.max_retries == 0 {
            ReconnectStep::GiveUp { attempts: 0 }
        } else {
            ReconnectStep::Attempt
        }
    }

    /// The step that follows an attempt.
    pub open spec fn step_after_attempt(&self, state: ReconnectState, connected: bool) -> ReconnectStep {
        if connected {
            ReconnectStep::Done
        } else {
            ReconnectStep::Wait(state.delay_ms)
        }
    }

    /// The state after the wait that follows a failed attempt.
    pub open spec fn state_after_wait(&self, state: ReconnectState) -> ReconnectState {
        ReconnectState {
            failed_attempts: if state.failed_attempts < u32::MAX {
                (state.failed_attempts + 1) as u32
            } else {
                u32::MAX
            },
            delay_ms: if state.delay_ms as int * 2 > u64::MAX as int {
                u64::MAX
            } else {
                (state.delay_ms * 2) as u64
            },
        }
    }

    /// The step that follows a wait.
    pub open spec fn step_after_wait(&self, state: ReconnectState) -> ReconnectStep {
        if self.state_after_wait(state).failed_attempts < self.max_retries {
            ReconnectStep::Attempt
        } else {
            ReconnectStep::GiveUp { attempts: self.max_retries }
        }
    }

    /// Begins a run of reconnecting.
    pub fn begin(&self) -> (r: (ReconnectState, ReconnectStep))
        ensures
            r.0 == self.state_after(0),
            r.1 == self.first_step(),
    {
        let state = ReconnectState { failed_attempts: 0, delay_ms: self.base_delay_ms };
        if self.max_retries == 0 {
            (state, ReconnectStep::GiveUp { attempts: 0 })
        } else {
            (state, ReconnectStep::Attempt)
        }
    }

    /// Decides what follows an attempt, given whether it connected.
    pub fn after_attempt(&self, state: ReconnectState, connected: bool) -> (r: (
        ReconnectState,
        ReconnectStep,
    ))
        ensures
            r.0 == state,
            r.1 == self.step_after_attempt(state, connected),
    {
        if connected {
            (state, ReconnectStep::Done)
        } else {
            (state, ReconnectStep::Wait(state.delay_ms))
        }
    }

    /// Decides what follows the wait after a failed attempt.
    pub fn after_wait(&self, state: ReconnectState) -> (r: (ReconnectState, ReconnectStep))
        ensures
            r.0 == self.state_after_wait(state),
            r.1 == self.step_after_wait(state),
    {
        let failed_attempts = if state.failed_attempts < u32::MAX {
            state.failed_attempts + 1
        } else {
            u32::MAX
        };
        let delay_ms = if state.delay_ms > u64::MAX / 2 {
            u64::MAX
        } else {
            state.delay_ms * 2
        };
        let next = ReconnectState { failed_attempts, delay_ms };
        if failed_attempts < self.max_retries {
            (next, ReconnectStep::Attempt)
        } else {
            (next, ReconnectStep::GiveUp { attempts: self.max_retries })
        }
    }
}

/// A wait is never shorter than the first one, and no wait is shorter than
/// the one before it.
pub proof fn law_delays_do_not_shrink(base_delay_ms: u64, k: nat)
    ensures
        delay_after(base_delay_ms, k) >= base_delay_ms,
        delay_after(base_delay_ms, k) <= delay_after(base_delay_ms, k + 1),
    decreases k,
{
    if k > 0 {
        law_delays_do_not_shrink(base_delay_ms, (k - 1) as nat);
    }
    assert(delay_after(base_delay_ms, k + 1) == if delay_after(base_delay_ms, k) as int * 2
        > u64::MAX as int {
        u64::MAX
    } else {
        (delay_after(base_delay_ms, k) * 2) as u64
    });
}

/// Between two attempts the wait is the first wait doubled once for each
/// attempt that failed before, as far as `u64` reaches.
pub proof fn law_wait_follows_failed_attempt(policy: ReconnectPolicy, k: nat)
    requires
        k < u32::MAX,
    ensures
        policy.step_after_attempt(policy.state_after(k), false) == ReconnectStep::Wait(
            delay_after(policy.base_delay_ms, k),
        ),
        policy.state_after_wait(policy.state_after(k)) == policy.state_after(k + 1),
{
    assert(delay_after(policy.base_delay_ms, k + 1) == if delay_after(policy.base_delay_ms, k) as int
        * 2 > u64::MAX as int {
        u64::MAX
    } else {
        (delay_after(policy.base_delay_ms, k) * 2) as u64
    });
}

/// A run in which every attempt fails makes exactly `max_retries` attempts:
/// after the failure of attempt `k` another attempt follows while `k` is
/// below the limit, and at the limit the run gives up, naming the limit.
/// Giving up ends the run; no step follows it.
pub proof fn law_attempts_are_bounded(policy: ReconnectPolicy, k: nat)
    requires
        1 <= k <= policy.max_retries,
    ensures
        policy.first_step() == ReconnectStep::Attempt,
        k < policy.max_retries ==> policy.step_after_wait(policy.state_after((k - 1) as nat))
            == ReconnectStep::Attempt,
        k == policy.max_retries ==> policy.step_after_wait(policy.state_after((k - 1) as nat))
            == (ReconnectStep::GiveUp { attempts: policy.max_retries }),
{
    law_wait_follows_failed_attempt(policy, (k - 1) as nat);
}

/// An attempt that connects ends the run at once.
pub proof fn law_success_ends_run(policy: ReconnectPolicy, state: ReconnectState)
    ensures
        policy.step_after_attempt(state, true) == ReconnectStep::Done,
{
}

/// A response is handed to the request that bears its id, and to no other.
pub proof fn law_delivery_matches_id(entries: Seq<PendingRequest>, id: u64)
    ensures
        match deliver(entries, id).0 {
            Some(request) => request.id == id && is_waiting(entries, id),
            None => !is_waiting(entries, id),
        },
{
    lemma_position(entries, id, 0);
}

/// Once a response is delivered its request waits no more, so that a second
/// response with the same id finds no taker and is discarded.
pub proof fn law_duplicate_finds_no_taker(entries: Seq<PendingRequest>, id: u64)
    requires
        distinct_ids(entries),
    ensures
        !is_waiting(deliver(entries, id).1, id),
        deliver(deliver(entries, id).1, id).0 is None,
        distinct_ids(deliver(entries, id).1),
{
    lemma_position(entries, id, 0);
    let after = deliver(entries, id).1;
    if position_from(entries, id, 0) is Some {
        let k = position_from(entries, id, 0)->0;
        assert forall|a: int| 0 <= a < after.len() implies (#[trigger] after[a]).id != id by {
            let a0 = if a < k { a } else { a + 1 };
            assert(after[a] == entries[a0]);
        }
        assert forall|a: int, b: int|
            0 <= a < after.len() && 0 <= b < after.len() && a != b implies (#[trigger] after[a]).id
            != (#[trigger] after[b]).id by {
            let a0 = if a < k { a } else { a + 1 };
            let b0 = if b < k { b } else { b + 1 };
            assert(after[a] == entries[a0]);
            assert(after[b] == entries[b0]);
        }
    }
    lemma_position(after, id, 0);
}

/// A delivery leaves every other request waiting as it was.
pub proof fn law_delivery_spares_others(entries: Seq<PendingRequest>, id: u64, other: u64)
    requires
        other != id,
    ensures
        is_waiting(deliver(entries, id).1, other) == is_waiting(entries, other),
{
    lemma_position(entries, id, 0);
    let after = deliver(entries, id).1;
    if position_from(entries, id, 0) is Some {
        let k = position_from(entries, id, 0)->0;
        if is_waiting(entries, other) {
            let i = choose|i: int| 0 <= i < entries.len() && (#[trigger] entries[i]).id == other;
            let i1 = if i < k { i } else { i - 1 };
            assert(after[i1] == entries[i]);
        }
        if is_waiting(after, other) {
            let a = choose|a: int| 0 <= a < after.len() && (#[trigger] after[a]).id == other;
            let a0 = if a < k { a } else { a + 1 };
            assert(after[a] == entries[a0]);
        }
    }
}

/// Responses may arrive in any order: whichever of two arrives first, each
/// is handed to the request that bears its id.
pub proof fn law_order_of_arrival_is_immaterial(
    entries: Seq<PendingRequest>,
    first: u64,
    second: u64,
)
    requires
        distinct_ids(entries),
        first != second,
    ensures
        deliver(deliver(entries, first).1, second).0 == deliver(entries, second).0,
        deliver(deliver(entries, second).1, first).0 == deliver(entries, first).0,
{
    lemma_delivery_after_other(entries, first, second);
    lemma_delivery_after_other(entries, second, first);
}

proof fn lemma_delivery_after_other(entries: Seq<PendingRequest>, id: u64, other: u64)
    requires
        distinct_ids(entries),
        id != other,
    ensures
        deliver(deliver(entries, id).1, other).0 == deliver(entries, other).0,
{
    lemma_position(entries, id, 0);
    lemma_position(entries, other, 0);
    let after = deliver(entries, id).1;
    lemma_position(after, other, 0);
    law_delivery_spares_others(entries, id, other);
    law_delivery_matches_id(entries, other);
    law_delivery_matches_id(after, other);
    if position_from(entries, id, 0) is Some && position_from(entries, other, 0) is Some {
        let k = position_from(entries, id, 0)->0;
        let p = position_from(entries, other, 0)->0;
        let q = position_from(after, other, 0)->0;
        let q0 = if q < k { q } else { q + 1 };
        assert(after[q] == entries[q0]);
        assert(q0 == p);
    }
}

/// The document that a client sends with `initialize`: the protocol
/// revision it speaks, the capabilities it declares, and its identity.
pub open spec fn initialize_params_document() -> JsonModel {
    JsonModel::Object(
        Map::empty().insert("protocol_version"@, JsonModel::Text("2024-11-05"@)).insert(
            "capabilities"@,
            JsonModel::Object(
                Map::empty().insert("tools"@, JsonModel::Object(Map::empty())).insert(
                    "resources"@,
                    JsonModel::Object(Map::empty()),
                ),
            ),
        ).insert(
            "client_info"@,
            JsonModel::Object(
                Map::empty().insert("name"@, JsonModel::Text("zeroclaw"@)).insert(
                    "version"@,
                    JsonModel::Text("0.1.0"@),
                ),
            ),
        ),
    )
}

/// The document that a client sends with `tools/call`.
pub open spec fn call_params_document(name: Seq<char>, arguments: JsonModel) -> JsonModel {
    JsonModel::Object(
        Map::empty().insert("name"@, JsonModel::Text(name)).insert("arguments"@, arguments),
    )
}

/// The document that a client sends with `resources/read`.
pub open spec fn read_params_document(uri: Seq<char>) -> JsonModel {
    JsonModel::Object(Map::empty().insert("uri"@, JsonModel::Text(uri)))
}

/// The method that asks for an operation.
pub open spec fn method_of(operation: Operation) -> Seq<char> {
    match operation {
        Operation::Initialize => "initialize"@,
        Operation::ListTools => "tools/list"@,
        Operation::CallTool => "tools/call"@,
        Operation::ListResources => "resources/list"@,
        Operation::ReadResource => "resources/read"@,
    }
}

/// The request that asks for an operation under an id.
pub open spec fn request_model(operation: Operation, id: u64, params: Option<JsonModel>) -> crate::mcp::wire::RequestModel {
    crate::mcp::wire::RequestModel {
        jsonrpc: crate::mcp::types::version_tag(),
        id: JsonModel::Int(id as int),
        method: method_of(operation),
        params,
    }
}

/// Builds the request that asks for an operation under an id.
pub fn build_request(operation: Operation, id: u64, params: Option<serde_json::Value>) -> (r:
    JsonRpcRequest)
    ensures
        r@ == request_model(operation, id, crate::mcp::wire::optional_model(params)),
{
    let method = match operation {
        Operation::Initialize => "initialize",
        Operation::ListTools => "tools/list",
        Operation::CallTool => "tools/call",
        Operation::ListResources => "resources/list",
        Operation::ReadResource => "resources/read",
    };
    JsonRpcRequest::new(json_u64(id), method, params)
}

/// Builds the parameters of `initialize`.
pub fn initialize_params() -> (r: serde_json::Value)
    ensures
        json_model(r) == initialize_params_document(),
{
    let params = InitializeRequestParams {
        protocol_version: Some("2024-11-05".to_owned()),
        capabilities: ClientCapabilities {
            tools: Some(ToolsCapability { list_changed: None }),
            resources: Some(ResourcesCapability { subscribe: None, list_changed: None }),
        },
        client_info: ClientInfo { name: "zeroclaw".to_owned(), version: "0.1.0".to_owned() },
    };
    params.to_json()
}

/// What `connect` asks of whoever drives the transport.
#[derive(Debug, Clone)]
pub enum ConnectStep {
    /// The client is connected already: nothing is to be sent.
    AlreadyConnected,
    /// Open the transport, send this `initialize` request, and hand the
    /// response to [`McpClient::complete_handshake`].
    Handshake(JsonRpcRequest),
    /// The connection cannot be made.
    Failed(ClientError),
}

/// What an operation asks of whoever drives the transport.
#[derive(Debug, Clone)]
pub enum OperationStep {
    /// Send this request and wait for the response that bears its id.
    Send(JsonRpcRequest),
    /// The client is not connected: reconnect, then ask once more.
    Reconnect,
    /// The operation cannot be made.
    Fail(ClientError),
}

/// What became of an inbound text.
#[derive(Debug, Clone)]
pub enum Inbound {
    /// A response, handed to the request that waited for it.
    Response { request: PendingRequest, response: crate::mcp::types::JsonRpcResponse },
    /// A notification, for the subscriber.
    Notification(crate::mcp::types::JsonRpcNotification),
    /// Nothing waits for this text: it is dropped.
    Discarded,
}

/// The client: its configuration, the state of its connection, what the
/// server told of itself, and the requests that wait for their response.
pub struct McpClient {
    config: McpServerConfig,
    state: ConnectionState,
    server_capabilities: Option<ServerCapabilities>,
    server_info: Option<ServerInfo>,
    pending: PendingTable,
    policy: ReconnectPolicy,
}

impl McpClient {
    pub closed spec fn config_of(&self) -> McpServerConfig {
        self.config
    }

    pub closed spec fn state_of(&self) -> ConnectionState {
        self.state
    }

    pub closed spec fn capabilities_of(&self) -> Option<ServerCapabilities> {
        self.server_capabilities
    }

    pub closed spec fn info_of(&self) -> Option<ServerInfo> {
        self.server_info
    }

    pub closed spec fn pending_of(&self) -> PendingTable {
        self.pending
    }

    pub closed spec fn policy_of(&self) -> ReconnectPolicy {
        self.policy
    }

    /// What holds of every client: its table is in order, and unless it is
    /// connected it holds nothing of a server.
    pub open spec fn wf(&self) -> bool {
        &&& self.pending_of().wf()
        &&& self.state_of() != ConnectionState::Connected ==> self.capabilities_of() is None
            && self.info_of() is None
    }

    /// Whether two clients differ in nothing but their tables.
    pub open spec fn same_but_pending(&self, other: &Self) -> bool {
        &&& self.config_of() == other.config_of()
        &&& self.state_of() == other.state_of()
        &&& self.capabilities_of() == other.capabilities_of()
        &&& self.info_of() == other.info_of()
        &&& self.policy_of() == other.policy_of()
    }

    /// A disconnected client that makes 5 attempts to reconnect, the first
    /// wait being one second.
    pub fn new(config: McpServerConfig) -> (r: Self)
        ensures
            r.wf(),
            r.config_of() == config,
            r.state_of() == ConnectionState::Disconnected,
            r.capabilities_of() is None,
            r.info_of() is None,
            r.pending_of().entries().len() == 0,
            r.pending_of().next_id() == 1,
            r.policy_of() == (ReconnectPolicy { max_retries: 5, base_delay_ms: 1000 }),
    {
        Self {
            config,
            state: ConnectionState::Disconnected,
            server_capabilities: None,
            server_info: None,
            pending: PendingTable::new(),
            policy: ReconnectPolicy { max_retries: 5, base_delay_ms: 1000 },
        }
    }

    /// Sets the limits of reconnecting.
    pub fn with_reconnect_policy(self, max_retries: u32, base_delay_ms: u64) -> (r: Self)
        requires
            self.wf(),
        ensures
            r.wf(),
            r.policy_of() == (ReconnectPolicy { max_retries, base_delay_ms }),
            r.config_of() == self.config_of(),
            r.state_of() == self.state_of(),
            r.capabilities_of() == self.capabilities_of(),
            r.info_of() == self.info_of(),
            r.pending_of() == self.pending_of(),
    {
        let mut this = self;
        this.policy = ReconnectPolicy { max_retries, base_delay_ms };
        this
    }

    pub fn config(&self) -> (r: &McpServerConfig)
        ensures
            *r == self.config_of(),
    {
        &self.config
    }

    pub fn state(&self) -> (r: ConnectionState)
        ensures
            r == self.state_of(),
    {
        self.state
    }

    pub fn is_connected(&self) -> (r: bool)
        ensures
            r == (self.state_of() == ConnectionState::Connected),
    {
        self.state == ConnectionState::Connected
    }

    pub fn get_capabilities(&self) -> (r: Option<ServerCapabilities>)
        ensures
            r == self.capabilities_of(),
    {
        self.server_capabilities
    }

    pub fn get_server_info(&self) -> (r: Option<ServerInfo>)
        ensures
            r == self.info_of(),
    {
        match &self.server_info {
            Some(info) => Some(ServerInfo { name: info.name.clone(), version: info.version.clone() }),
            None => None,
        }
    }

    pub fn reconnect_policy(&self) -> (r: ReconnectPolicy)
        ensures
            r == self.policy_of(),
    {
        self.policy
    }

    /// How many requests wait for their response.
    pub fn pending_len(&self) -> (r: usize)
        ensures
            r == self.pending_of().entries().len(),
    {
        self.pending.len()
    }

    /// Whether a request with that id waits for its response.
    pub fn is_pending(&self, id: u64) -> (r: bool)
        ensures
            r == is_waiting(self.pending_of().entries(), id),
    {
        self.pending.contains(id)
    }
}

/// What the chosen transport lacks in a configuration, if anything.
pub open spec fn missing_setting(config: McpServerConfig) -> Option<Seq<char>> {
    match config.transport_mode {
        TransportMode::Stdio => if config.command is None {
            Some("stdio transport requires command"@)
        } else {
            None
        },
        TransportMode::Http => if config.url is None {
            Some("HTTP transport requires URL"@)
        } else {
            None
        },
    }
}

impl McpClient {
    /// Begins to connect. On a connected client this does nothing and asks
    /// for nothing. Otherwise the client is `Connecting` and the handshake
    /// is to be made, unless the configuration lacks what the transport
    /// needs or the correlation ids have run out: then the client is
    /// `Disconnected`.
    pub fn connect(&mut self) -> (r: ConnectStep)
        requires
            old(self).wf(),
        ensures
            final(self).wf(),
            final(self).config_of() == old(self).config_of(),
            final(self).policy_of() == old(self).policy_of(),
            old(self).state_of() == ConnectionState::Connected ==> r is AlreadyConnected
                && *final(self) == *old(self),
            old(self).state_of() != ConnectionState::Connected ==> match r {
                ConnectStep::AlreadyConnected => false,
                ConnectStep::Failed(e) => {
                    &&& final(self).state_of() == ConnectionState::Disconnected
                    &&& final(self).pending_of().entries() == old(self).pending_of().entries()
                    &&& final(self).pending_of().next_id() == old(self).pending_of().next_id()
                    &&& match e {
                        ClientError::Configuration(what) => missing_setting(old(self).config_of())
                            == Some(what@),
                        ClientError::IdsExhausted => missing_setting(old(self).config_of()) is None
                            && old(self).pending_of().next_id() == u64::MAX,
                        _ => false,
                    }
                },
                ConnectStep::Handshake(request) => {
                    let id = old(self).pending_of().next_id();
                    &&& missing_setting(old(self).config_of()) is None
                    &&& id < u64::MAX
                    &&& final(self).state_of() == ConnectionState::Connecting
                    &&& final(self).capabilities_of() is None
                    &&& final(self).info_of() is None
                    &&& request@ == request_model(
                        Operation::Initialize,
                        id,
                        Some(initialize_params_document()),
                    )
                    &&& final(self).pending_of().next_id() == id + 1
                    &&& final(self).pending_of().entries() == old(self).pending_of().entries().push(
                        PendingRequest { id, operation: Operation::Initialize },
                    )
                },
            },
    {
        if self.state == ConnectionState::Connected {
            return ConnectStep::AlreadyConnected;
        }
        self.server_capabilities = None;
        self.server_info = None;
        let lacking = match self.config.transport_mode {
            TransportMode::Stdio => self.config.command.is_none(),
            TransportMode::Http => self.config.url.is_none(),
        };
        if lacking {
            self.state = ConnectionState::Disconnected;
            let what = match self.config.transport_mode {
                TransportMode::Stdio => "stdio transport requires command",
                TransportMode::Http => "HTTP transport requires URL",
            };
            return ConnectStep::Failed(ClientError::Configuration(what.to_owned()));
        }
        match self.pending.register(Operation::Initialize) {
            Some(id) => {
                self.state = ConnectionState::Connecting;
                ConnectStep::Handshake(
                    build_request(Operation::Initialize, id, Some(initialize_params())),
                )
            },
            None => {
                self.state = ConnectionState::Disconnected;
                ConnectStep::Failed(ClientError::IdsExhausted)
            },
        }
    }

    /// Ends the connection: the client is `Disconnected`, forgets what the
    /// server told of itself, and every request that waited is handed out,
    /// to be failed as closed.
    pub fn disconnect(&mut self) -> (r: Vec<PendingRequest>)
        requires
            old(self).wf(),
        ensures
            final(self).wf(),
            final(self).state_of() == ConnectionState::Disconnected,
            final(self).capabilities_of() is None,
            final(self).info_of() is None,
            final(self).pending_of().entries().len() == 0,
            final(self).pending_of().next_id() == old(self).pending_of().next_id(),
            final(self).config_of() == old(self).config_of(),
            final(self).policy_of() == old(self).policy_of(),
            r@ == old(self).pending_of().entries(),
    {
        self.state = ConnectionState::Disconnected;
        self.server_capabilities = None;
        self.server_info = None;
        self.pending.drain()
    }

    /// Takes note that the transport is gone: the child process exited, or
    /// its pipe broke. The effect is that of [`McpClient::disconnect`].
    pub fn transport_closed(&mut self) -> (r: Vec<PendingRequest>)
        requires
            old(self).wf(),
        ensures
            final(self).wf(),
            final(self).state_of() == ConnectionState::Disconnected,
            final(self).capabilities_of() is None,
            final(self).info_of() is None,
            final(self).pending_of().entries().len() == 0,
            final(self).pending_of().next_id() == old(self).pending_of().next_id(),
            final(self).config_of() == old(self).config_of(),
            final(self).policy_of() == old(self).policy_of(),
            r@ == old(self).pending_of().entries(),
    {
        self.disconnect()
    }

    /// Gives a request up after its time limit: it leaves the table, so
    /// that a late response to it is discarded. `None` where no request
    /// waits under the id.
    pub fn expire(&mut self, id: u64) -> (r: Option<PendingRequest>)
        requires
            old(self).wf(),
        ensures
            final(self).wf(),
            final(self).same_but_pending(old(self)),
            final(self).pending_of().next_id() == old(self).pending_of().next_id(),
            r == deliver(old(self).pending_of().entries(), id).0,
            final(self).pending_of().entries() == deliver(old(self).pending_of().entries(), id).1,
            !is_waiting(final(self).pending_of().entries(), id),
    {
        let r = self.pending.resolve(id);
        r
    }
}

/// Turns the error object of a server into the error of the client. The
/// code and the message are those the server supplied.
pub fn report_server_error(operation: Operation, e: &McpError) -> (r: ClientError)
    ensures
        r matches ClientError::Server { operation: o, class, code, message } && o == operation
            && class == class_of(e.code as int) && code == e.code && message@ == e.message@,
{
    ClientError::Server {
        operation,
        class: classify(e.code),
        code: e.code,
        message: e.message.clone(),
    }
}

impl McpClient {
    /// Ends the handshake with the response to `initialize`.
    ///
    /// A response with an error object aborts the handshake and leaves the
    /// client `Disconnected`; so does a result that cannot be read. A
    /// readable result is stored and the client is `Connected`; a response
    /// with neither stores nothing and the client is `Connected` too. Where
    /// the client is `Connected` afterwards, the `initialized` notification
    /// is handed out to be sent. On a client that is not `Connecting`
    /// nothing changes.
    pub fn complete_handshake(&mut self, response: &crate::mcp::types::JsonRpcResponse) -> (r:
        Result<crate::mcp::types::JsonRpcNotification, ClientError>)
        requires
            old(self).wf(),
        ensures
            final(self).wf(),
            final(self).config_of() == old(self).config_of(),
            final(self).policy_of() == old(self).policy_of(),
            final(self).pending_of() == old(self).pending_of(),
            old(self).state_of() != ConnectionState::Connecting ==> *final(self) == *old(self)
                && r matches Err(ClientError::Transport(TransportError::NotConnected)),
            old(self).state_of() == ConnectionState::Connecting ==> match response.error {
                Some(e) => {
                    &&& final(self).state_of() == ConnectionState::Disconnected
                    &&& r matches Err(ClientError::Server { operation, class, code, message })
                        && operation == Operation::Initialize && class == class_of(e.code as int)
                        && code == e.code && message@ == e.message@
                },
                None => match response.result {
                    Some(result) => if crate::mcp::types::InitializeResult::decodable(
                        json_model(result),
                    ) {
                        &&& final(self).state_of() == ConnectionState::Connected
                        &&& final(self).capabilities_of() matches Some(c) && crate::json::member(
                            json_model(result),
                            "capabilities"@,
                        ) matches Some(d) && c.decoded_from(d)
                        &&& final(self).info_of() matches Some(i) && crate::json::member(
                            json_model(result),
                            "server_info"@,
                        ) matches Some(d) && i.decoded_from(d)
                        &&& r matches Ok(n) && n@ == initialized_model()
                    } else {
                        &&& final(self).state_of() == ConnectionState::Disconnected
                        &&& r matches Err(ClientError::MalformedResult(Operation::Initialize))
                    },
                    None => {
                        &&& final(self).state_of() == ConnectionState::Connected
                        &&& final(self).capabilities_of() is None
                        &&& final(self).info_of() is None
                        &&& r matches Ok(n) && n@ == initialized_model()
                    },
                },
            },
    {
        if self.state != ConnectionState::Connecting {
            return Err(ClientError::Transport(TransportError::NotConnected));
        }
        match &response.error {
            Some(e) => {
                self.state = ConnectionState::Disconnected;
                return Err(report_server_error(Operation::Initialize, e));
            },
            None => {},
        }
        match &response.result {
            Some(result) => match crate::mcp::types::InitializeResult::from_json(result) {
                Some(init) => {
                    self.server_capabilities = Some(init.capabilities);
                    self.server_info = Some(init.server_info);
                    self.state = ConnectionState::Connected;
                },
                None => {
                    self.state = ConnectionState::Disconnected;
                    return Err(ClientError::MalformedResult(Operation::Initialize));
                },
            },
            None => {
                self.state = ConnectionState::Connected;
            },
        }
        Ok(crate::mcp::types::JsonRpcNotification::new("initialized", None))
    }
}

/// The notification that ends a handshake.
pub open spec fn initialized_model() -> crate::mcp::wire::NotificationModel {
    crate::mcp::wire::NotificationModel {
        jsonrpc: crate::mcp::types::version_tag(),
        method: "initialized"@,
        params: None,
    }
}

/// The correlation id that a response bears, where it is one that a client
/// can have handed out.
pub open spec fn correlation_id(m: JsonModel) -> Option<u64> {
    match crate::json::member(m, "id"@) {
        Some(id) => crate::json::u64_of(id),
        None => None,
    }
}

/// Whether a document is a response to a client: an envelope that is no
/// request, and can be read as a response.
pub open spec fn is_response_document(m: JsonModel) -> bool {
    !JsonRpcRequest::decodable(m) && crate::mcp::types::JsonRpcResponse::decodable(m)
}

/// Whether a document is a notification to a client.
pub open spec fn is_notification_document(m: JsonModel) -> bool {
    &&& !JsonRpcRequest::decodable(m)
    &&& !crate::mcp::types::JsonRpcResponse::decodable(m)
    &&& crate::mcp::types::JsonRpcNotification::decodable(m)
}

/// Whether an inbound text is a response for which a request waits.
pub open spec fn finds_taker(entries: Seq<PendingRequest>, text: Seq<char>) -> bool {
    match crate::json::json_parsed(text) {
        Some(m) => is_response_document(m) && match correlation_id(m) {
            Some(id) => is_waiting(entries, id),
            None => false,
        },
        None => false,
    }
}

impl McpClient {
    /// Takes one inbound text.
    ///
    /// A response is handed to the request that waits under its id, which
    /// then leaves the table. A notification is handed on. Everything else
    /// is discarded and changes nothing: a text that is no JSON, a document
    /// that is no envelope, a request, and a response under an id for which
    /// no request waits, be it unknown, answered already, or given up.
    pub fn receive(&mut self, text: &str) -> (r: Inbound)
        requires
            old(self).wf(),
        ensures
            final(self).wf(),
            final(self).same_but_pending(old(self)),
            final(self).pending_of().next_id() == old(self).pending_of().next_id(),
            match r {
                Inbound::Response { request, response } => {
                    &&& finds_taker(old(self).pending_of().entries(), text@)
                    &&& crate::json::json_parsed(text@) matches Some(m) && response.decoded_from(m)
                        && correlation_id(m) == Some(request.id)
                    &&& Some(request) == deliver(old(self).pending_of().entries(), request.id).0
                    &&& final(self).pending_of().entries() == deliver(
                        old(self).pending_of().entries(),
                        request.id,
                    ).1
                },
                Inbound::Notification(n) => {
                    &&& crate::json::json_parsed(text@) matches Some(m) && is_notification_document(
                        m,
                    ) && n.decoded_from(m)
                    &&& final(self).pending_of().entries() == old(self).pending_of().entries()
                },
                Inbound::Discarded => {
                    &&& !finds_taker(old(self).pending_of().entries(), text@)
                    &&& !(crate::json::json_parsed(text@) matches Some(m)
                        && is_notification_document(m))
                    &&& final(self).pending_of().entries() == old(self).pending_of().entries()
                },
            },
    {
        let document = match crate::json::json_parse(text) {
            Some(v) => v,
            None => {
                return Inbound::Discarded;
            },
        };
        match crate::mcp::types::McpMessage::from_json(&document) {
            Some(crate::mcp::types::McpMessage::Response(response)) => {
                match crate::json::json_as_u64(&response.id) {
                    Some(id) => match self.pending.resolve(id) {
                        Some(request) => Inbound::Response { request, response },
                        None => Inbound::Discarded,
                    },
                    None => Inbound::Discarded,
                }
            },
            Some(crate::mcp::types::McpMessage::Notification(n)) => Inbound::Notification(n),
            Some(crate::mcp::types::McpMessage::Request(_)) => Inbound::Discarded,
            None => Inbound::Discarded,
        }
    }

    /// Begins an operation: takes a fresh id, enters the request in the
    /// table, and hands the request out to be sent. A client that is not
    /// connected asks to be reconnected first, once; after that it fails.
    fn begin(&mut self, operation: Operation, params: Option<serde_json::Value>, reconnected: bool) -> (r:
        OperationStep)
        requires
            old(self).wf(),
        ensures
            final(self).wf(),
            final(self).same_but_pending(old(self)),
            operation_begun(
                *old(self),
                *final(self),
                operation,
                crate::mcp::wire::optional_model(params),
                reconnected,
                r,
            ),
    {
        if self.state != ConnectionState::Connected {
            return if reconnected {
                OperationStep::Fail(ClientError::Transport(TransportError::NotConnected))
            } else {
                OperationStep::Reconnect
            };
        }
        match self.pending.register(operation) {
            Some(id) => OperationStep::Send(build_request(operation, id, params)),
            None => OperationStep::Fail(ClientError::IdsExhausted),
        }
    }

    /// Asks for the tools of the server.
    pub fn list_tools(&mut self, reconnected: bool) -> (r: OperationStep)
        requires
            old(self).wf(),
        ensures
            final(self).wf(),
            final(self).same_but_pending(old(self)),
            operation_begun(*old(self), *final(self), Operation::ListTools, None, reconnected, r),
    {
        self.begin(Operation::ListTools, None, reconnected)
    }

    /// Asks the server to run a tool.
    pub fn call_tool(&mut self, name: &str, arguments: serde_json::Value, reconnected: bool) -> (r:
        OperationStep)
        requires
            old(self).wf(),
        ensures
            final(self).wf(),
            final(self).same_but_pending(old(self)),
            operation_begun(
                *old(self),
                *final(self),
                Operation::CallTool,
                Some(call_params_document(name@, json_model(arguments))),
                reconnected,
                r,
            ),
    {
        let params = ToolsCallRequestParams { name: name.to_owned(), arguments, _meta: None };
        self.begin(Operation::CallTool, Some(params.to_json()), reconnected)
    }

    /// Asks for the resources of the server.
    pub fn list_resources(&mut self, reconnected: bool) -> (r: OperationStep)
        requires
            old(self).wf(),
        ensures
            final(self).wf(),
            final(self).same_but_pending(old(self)),
            operation_begun(
                *old(self),
                *final(self),
                Operation::ListResources,
                None,
                reconnected,
                r,
            ),
    {
        self.begin(Operation::ListResources, None, reconnected)
    }

    /// Asks the server for the content of a resource.
    pub fn read_resource(&mut self, uri: &str, reconnected: bool) -> (r: OperationStep)
        requires
            old(self).wf(),
        ensures
            final(self).wf(),
            final(self).same_but_pending(old(self)),
            operation_begun(
                *old(self),
                *final(self),
                Operation::ReadResource,
                Some(read_params_document(uri@)),
                reconnected,
                r,
            ),
    {
        let params = ResourcesReadRequestParams { uri: uri.to_owned(), _meta: None };
        self.begin(Operation::ReadResource, Some(params.to_json()), reconnected)
    }
}

/// What beginning an operation does, and what it asks for.
pub open spec fn operation_begun(
    before: McpClient,
    after: McpClient,
    operation: Operation,
    params: Option<JsonModel>,
    reconnected: bool,
    step: OperationStep,
) -> bool {
    let unchanged = after.pending_of().entries() == before.pending_of().entries()
        && after.pending_of().next_id() == before.pending_of().next_id();
    let id = before.pending_of().next_id();
    if before.state_of() != ConnectionState::Connected {
        &&& unchanged
        &&& if reconnected {
            step matches OperationStep::Fail(
                ClientError::Transport(TransportError::NotConnected),
            )
        } else {
            step is Reconnect
        }
    } else if id == u64::MAX {
        unchanged && step matches OperationStep::Fail(ClientError::IdsExhausted)
    } else {
        &&& step matches OperationStep::Send(request) && request@ == request_model(
            operation,
            id,
            params,
        )
        &&& after.pending_of().next_id() == id + 1
        &&& after.pending_of().entries() == before.pending_of().entries().push(
            PendingRequest { id, operation },
        )
    }
}

/// Reads the tools out of the response to `tools/list`. An error object is
/// reported with its code and message; a response without a result lists
/// nothing.
pub fn tools_from_response(response: &crate::mcp::types::JsonRpcResponse) -> (r: Result<
    Vec<crate::mcp::types::ToolDefinition>,
    ClientError,
>)
    ensures
        match response.error {
            Some(e) => r matches Err(ClientError::Server { operation, class, code, message })
                && operation == Operation::ListTools && class == class_of(e.code as int) && code
                == e.code && message@ == e.message@,
            None => match response.result {
                Some(result) => if crate::mcp::types::ToolsListResult::decodable(
                    json_model(result),
                ) {
                    r matches Ok(tools) && crate::json::member(
                        json_model(result),
                        "tools"@,
                    ) matches Some(t) && crate::json::items_of(t) matches Some(items)
                        && crate::mcp::decode::tools_decoded_from(tools@, items)
                } else {
                    r matches Err(ClientError::MalformedResult(Operation::ListTools))
                },
                None => r matches Ok(tools) && tools@.len() == 0,
            },
        },
{
    match &response.error {
        Some(e) => {
            return Err(report_server_error(Operation::ListTools, e));
        },
        None => {},
    }
    match &response.result {
        Some(result) => match crate::mcp::types::ToolsListResult::from_json(result) {
            Some(listing) => Ok(listing.tools),
            None => Err(ClientError::MalformedResult(Operation::ListTools)),
        },
        None => Ok(Vec::new()),
    }
}

/// Reads the outcome out of the response to `tools/call`. An error object
/// is reported with its code and message; a response without a result is a
/// failure.
pub fn call_result_from_response(response: &crate::mcp::types::JsonRpcResponse) -> (r: Result<
    crate::mcp::types::ToolsCallResult,
    ClientError,
>)
    ensures
        match response.error {
            Some(e) => r matches Err(ClientError::Server { operation, class, code, message })
                && operation == Operation::CallTool && class == class_of(e.code as int) && code
                == e.code && message@ == e.message@,
            None => match response.result {
                Some(result) => if crate::mcp::types::ToolsCallResult::decodable(
                    json_model(result),
                ) {
                    r matches Ok(outcome) && outcome.decoded_from(json_model(result))
                } else {
                    r matches Err(ClientError::MalformedResult(Operation::CallTool))
                },
                None => r matches Err(ClientError::MissingResult(Operation::CallTool)),
            },
        },
{
    match &response.error {
        Some(e) => {
            return Err(report_server_error(Operation::CallTool, e));
        },
        None => {},
    }
    match &response.result {
        Some(result) => match crate::mcp::types::ToolsCallResult::from_json(result) {
            Some(outcome) => Ok(outcome),
            None => Err(ClientError::MalformedResult(Operation::CallTool)),
        },
        None => Err(ClientError::MissingResult(Operation::CallTool)),
    }
}

/// Reads the resources out of the response to `resources/list`. An error
/// object is reported with its code and message; a response without a
/// result lists nothing.
pub fn resources_from_response(response: &crate::mcp::types::JsonRpcResponse) -> (r: Result<
    Vec<crate::mcp::types::ResourceDefinition>,
    ClientError,
>)
    ensures
        match response.error {
            Some(e) => r matches Err(ClientError::Server { operation, class, code, message })
                && operation == Operation::ListResources && class == class_of(e.code as int)
                && code == e.code && message@ == e.message@,
            None => match response.result {
                Some(result) => if crate::mcp::types::ResourcesListResult::decodable(
                    json_model(result),
                ) {
                    r matches Ok(resources) && crate::json::member(
                        json_model(result),
                        "resources"@,
                    ) matches Some(t) && crate::json::items_of(t) matches Some(items)
                        && crate::mcp::decode::resources_decoded_from(resources@, items)
                } else {
                    r matches Err(ClientError::MalformedResult(Operation::ListResources))
                },
                None => r matches Ok(resources) && resources@.len() == 0,
            },
        },
{
    match &response.error {
        Some(e) => {
            return Err(report_server_error(Operation::ListResources, e));
        },
        None => {},
    }
    match &response.result {
        Some(result) => match crate::mcp::types::ResourcesListResult::from_json(result) {
            Some(listing) => Ok(listing.resources),
            None => Err(ClientError::MalformedResult(Operation::ListResources)),
        },
        None => Ok(Vec::new()),
    }
}

/// Reads the contents out of the response to `resources/read`. An error
/// object is reported with its code and message; a response without a
/// result is a failure.
pub fn contents_from_response(response: &crate::mcp::types::JsonRpcResponse) -> (r: Result<
    Vec<crate::mcp::types::ResourceContent>,
    ClientError,
>)
    ensures
        match response.error {
            Some(e) => r matches Err(ClientError::Server { operation, class, code, message })
                && operation == Operation::ReadResource && class == class_of(e.code as int)
                && code == e.code && message@ == e.message@,
            None => match response.result {
                Some(result) => if crate::mcp::types::ResourcesReadResult::decodable(
                    json_model(result),
                ) {
                    r matches Ok(contents) && crate::json::member(
                        json_model(result),
                        "contents"@,
                    ) matches Some(t) && crate::json::items_of(t) matches Some(items)
                        && crate::mcp::decode::contents_decoded_from(contents@, items)
                } else {
                    r matches Err(ClientError::MalformedResult(Operation::ReadResource))
                },
                None => r matches Err(ClientError::MissingResult(Operation::ReadResource)),
            },
        },
{
    match &response.error {
        Some(e) => {
            return Err(report_server_error(Operation::ReadResource, e));
        },
        None => {},
    }
    match &response.result {
        Some(result) => match crate::mcp::types::ResourcesReadResult::from_json(result) {
            Some(reading) => Ok(reading.contents),
            None => Err(ClientError::MalformedResult(Operation::ReadResource)),
        },
        None => Err(ClientError::MissingResult(Operation::ReadResource)),
    }
}

impl Default for McpClient {
    fn default() -> (r: Self)
        ensures
            r.wf(),
            r.state_of() == ConnectionState::Disconnected,
    {
        McpClient::new(McpServerConfig::default())
    }
}

impl McpClient {
    /// Begins a run of reconnecting under the limits of this client.
    pub fn reconnect(&self) -> (r: (ReconnectState, ReconnectStep))
        ensures
            r.0 == self.policy_of().state_after(0),
            r.1 == self.policy_of().first_step(),
    {
        self.policy.begin()
    }
}

} // verus!
