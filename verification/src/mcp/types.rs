//! JSON-RPC 2.0 envelopes and the payloads of the protocol.
use vstd::prelude::*;

pub mod error_codes;

verus! {

/// The version tag that every envelope carries.
pub open spec fn version_tag() -> Seq<char> {
    "2.0"@
}

/// A request: it carries a correlation id and expects one response.
#[derive(Debug, Clone)]
pub struct JsonRpcRequest {
    pub jsonrpc: String,
    pub id: serde_json::Value,
    pub method: String,
    pub params: Option<serde_json::Value>,
}

impl JsonRpcRequest {
    pub fn new(id: serde_json::Value, method: &str, params: Option<serde_json::Value>) -> (r: Self)
        ensures
            r.jsonrpc@ == version_tag(),
            r.id == id,
            r.method@ == method@,
            r.params == params,
    {
        Self { jsonrpc: "2.0".to_owned(), id, method: method.to_owned(), params }
    }
}

/// A response: it answers the request whose id it repeats, with a result or
/// with an error.
#[derive(Debug, Clone)]
pub struct JsonRpcResponse {
    pub jsonrpc: String,
    pub id: serde_json::Value,
    pub result: Option<serde_json::Value>,
    pub error: Option<McpError>,
}

impl JsonRpcResponse {
    pub fn success(id: serde_json::Value, result: serde_json::Value) -> (r: Self)
        ensures
            r.jsonrpc@ == version_tag(),
            r.id == id,
            r.result == Some(result),
            r.error is None,
    {
        Self { jsonrpc: "2.0".to_owned(), id, result: Some(result), error: None }
    }

    pub fn error(id: serde_json::Value, error: McpError) -> (r: Self)
        ensures
            r.jsonrpc@ == version_tag(),
            r.id == id,
            r.result is None,
            r.error == Some(error),
    {
        Self { jsonrpc: "2.0".to_owned(), id, result: None, error: Some(error) }
    }
}

/// The error object of a response.
#[derive(Debug, Clone)]
pub struct McpError {
    pub code: i32,
    pub message: String,
    pub data: Option<serde_json::Value>,
}

impl McpError {
    pub fn new(code: i32, message: &str) -> (r: Self)
        ensures
            r.code == code,
            r.message@ == message@,
            r.data is None,
    {
        Self { code, message: message.to_owned(), data: None }
    }

    pub fn with_data(self, data: serde_json::Value) -> (r: Self)
        ensures
            r.code == self.code,
            r.message == self.message,
            r.data == Some(data),
    {
        let mut this = self;
        this.data = Some(data);
        this
    }
}

/// Any envelope that can arrive on the wire.
#[derive(Debug, Clone)]
pub enum McpMessage {
    Request(JsonRpcRequest),
    Response(JsonRpcResponse),
    Notification(JsonRpcNotification),
}

/// A notification: a request without an id, which is never answered.
#[derive(Debug, Clone)]
pub struct JsonRpcNotification {
    pub jsonrpc: String,
    pub method: String,
    pub params: Option<serde_json::Value>,
}

impl JsonRpcNotification {
    pub fn new(method: &str, params: Option<serde_json::Value>) -> (r: Self)
        ensures
            r.jsonrpc@ == version_tag(),
            r.method@ == method@,
            r.params == params,
    {
        Self { jsonrpc: "2.0".to_owned(), method: method.to_owned(), params }
    }
}

#[derive(Debug, Clone)]
pub struct InitializeRequestParams {
    pub protocol_version: Option<String>,
    pub capabilities: ClientCapabilities,
    pub client_info: ClientInfo,
}

#[derive(Debug, Clone)]
pub struct InitializeRequest {
    pub params: InitializeRequestParams,
}

#[derive(Debug, Clone)]
pub struct InitializeResult {
    pub protocol_version: String,
    pub capabilities: ServerCapabilities,
    pub server_info: ServerInfo,
}

#[derive(Debug, Clone)]
pub struct ClientCapabilities {
    pub tools: Option<ToolsCapability>,
    pub resources: Option<ResourcesCapability>,
}

impl Default for ClientCapabilities {
    fn default() -> (r: Self)
        ensures
            r.tools is None,
            r.resources is None,
    {
        Self { tools: None, resources: None }
    }
}

#[derive(Debug, Clone, Copy)]
pub struct ToolsCapability {
    pub list_changed: Option<bool>,
}

#[derive(Debug, Clone, Copy)]
pub struct ResourcesCapability {
    pub subscribe: Option<bool>,
    pub list_changed: Option<bool>,
}

#[derive(Debug, Clone, Copy)]
pub struct ServerCapabilities {
    pub tools: Option<ToolsServerCapability>,
    pub resources: Option<ResourcesServerCapability>,
}

#[derive(Debug, Clone, Copy)]
pub struct ToolsServerCapability {
    pub list_changed: Option<bool>,
}

#[derive(Debug, Clone, Copy)]
pub struct ResourcesServerCapability {
    pub subscribe: Option<bool>,
    pub list_changed: Option<bool>,
}

#[derive(Debug, Clone)]
pub struct ClientInfo {
    pub name: String,
    pub version: String,
}

#[derive(Debug, Clone)]
pub struct ServerInfo {
    pub name: String,
    pub version: String,
}

#[derive(Debug, Clone)]
pub struct ToolsListRequest {
    pub params: Option<ToolsListRequestParams>,
}

#[derive(Debug, Clone)]
pub struct ToolsListRequestParams {
    pub cursor: Option<String>,
}

#[derive(Debug, Clone)]
pub struct ToolsListResult {
    pub tools: Vec<ToolDefinition>,
    pub next_cursor: Option<String>,
}

/// What a server tells of one tool: its name, what it does, and the JSON
/// schema of its arguments.
#[derive(Debug, Clone)]
pub struct ToolDefinition {
    pub name: String,
    pub description: String,
    pub input_schema: serde_json::Value,
}

impl ToolDefinition {
    pub fn new(name: &str, description: &str, input_schema: serde_json::Value) -> (r: Self)
        ensures
            r.name@ == name@,
            r.description@ == description@,
            r.input_schema == input_schema,
    {
        Self { name: name.to_owned(), description: description.to_owned(), input_schema }
    }
}

#[derive(Debug, Clone)]
pub struct ToolsCallRequest {
    pub params: ToolsCallRequestParams,
}

#[derive(Debug, Clone)]
pub struct ToolsCallRequestParams {
    pub name: String,
    pub arguments: serde_json::Value,
    pub _meta: Option<serde_json::Value>,
}

/// The outcome of a tool call as the wire carries it: content blocks, and a
/// flag that is set when the tool reported a failure.
#[derive(Debug, Clone)]
pub struct ToolsCallResult {
    pub content: Vec<ContentBlock>,
    pub is_error: Option<bool>,
}

impl ToolsCallResult {
    /// A successful outcome with one text block.
    pub fn text(content: &str) -> (r: Self)
        ensures
            r.content@.len() == 1,
            r.content@[0] matches ContentBlock::Text { text } && text@ == content@,
            r.is_error is None,
    {
        let mut blocks = Vec::new();
        blocks.push(ContentBlock::Text { text: content.to_owned() });
        Self { content: blocks, is_error: None }
    }

    /// A failed outcome with one text block.
    pub fn error(content: &str) -> (r: Self)
        ensures
            r.content@.len() == 1,
            r.content@[0] matches ContentBlock::Text { text } && text@ == content@,
            r.is_error == Some(true),
    {
        let mut blocks = Vec::new();
        blocks.push(ContentBlock::Text { text: content.to_owned() });
        Self { content: blocks, is_error: Some(true) }
    }
}

#[derive(Debug, Clone)]
pub enum ContentBlock {
    Text { text: String },
    Image { data: String, mime_type: String },
    Resource { resource: ResourceContent },
}

#[derive(Debug, Clone)]
pub struct ResourceContent {
    pub uri: String,
    pub mime_type: Option<String>,
    pub text: Option<String>,
    pub blob: Option<String>,
}

#[derive(Debug, Clone)]
pub struct ResourcesListRequest {
    pub params: Option<ResourcesListRequestParams>,
}

#[derive(Debug, Clone)]
pub struct ResourcesListRequestParams {
    pub cursor: Option<String>,
}

#[derive(Debug, Clone)]
pub struct ResourcesListResult {
    pub resources: Vec<ResourceDefinition>,
    pub next_cursor: Option<String>,
}

/// What a server tells of one resource. `uri` is the key by which it is read.
#[derive(Debug, Clone)]
pub struct ResourceDefinition {
    pub uri: String,
    pub name: String,
    pub description: Option<String>,
    pub mime_type: Option<String>,
    pub size: Option<i64>,
}

impl ResourceDefinition {
    pub fn new(uri: &str, name: &str) -> (r: Self)
        ensures
            r.uri@ == uri@,
            r.name@ == name@,
            r.description is None,
            r.mime_type is None,
            r.size is None,
    {
        Self {
            uri: uri.to_owned(),
            name: name.to_owned(),
            description: None,
            mime_type: None,
            size: None,
        }
    }

    pub fn with_mime_type(self, mime_type: &str) -> (r: Self)
        ensures
            r.mime_type matches Some(m) && m@ == mime_type@,
            r.uri == self.uri,
            r.name == self.name,
            r.description == self.description,
            r.size == self.size,
    {
        let mut this = self;
        this.mime_type = Some(mime_type.to_owned());
        this
    }

    pub fn with_description(self, description: &str) -> (r: Self)
        ensures
            r.description matches Some(d) && d@ == description@,
            r.uri == self.uri,
            r.name == self.name,
            r.mime_type == self.mime_type,
            r.size == self.size,
    {
        let mut this = self;
        this.description = Some(description.to_owned());
        this
    }
}

#[derive(Debug, Clone)]
pub struct ResourcesReadRequest {
    pub params: ResourcesReadRequestParams,
}

#[derive(Debug, Clone)]
pub struct ResourcesReadRequestParams {
    pub uri: String,
    pub _meta: Option<serde_json::Value>,
}

#[derive(Debug, Clone)]
pub struct ResourcesReadResult {
    pub contents: Vec<ResourceContent>,
}

} // verus!
