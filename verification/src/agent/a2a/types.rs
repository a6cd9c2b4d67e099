//! The vocabulary of the agent-to-agent protocol: agent cards, tasks,
//! messages and their parts, and the JSON-RPC envelopes that carry them.
use vstd::prelude::*;

pub mod error_codes;

verus! {

/// What an agent tells of itself: who it is, what it can do, how it is
/// reached, and what it asks of a caller.
#[derive(Debug, Clone)]
pub struct AgentCard {
    pub name: String,
    pub version: String,
    pub description: Option<String>,
    pub capabilities: AgentCapabilities,
    pub provider: Option<ProviderInfo>,
    pub authentication: AuthenticationRequirements,
    pub endpoint: String,
}

impl AgentCard {
    pub fn new(name: &str, version: &str, endpoint: &str) -> (r: Self)
        ensures
            r.name@ == name@,
            r.version@ == version@,
            r.description is None,
            r.capabilities.is_blank(),
            r.provider is None,
            r.authentication.is_blank(),
            r.endpoint@ == endpoint@,
    {
        Self {
            name: name.to_owned(),
            version: version.to_owned(),
            description: None,
            capabilities: AgentCapabilities::default(),
            provider: None,
            authentication: AuthenticationRequirements::default(),
            endpoint: endpoint.to_owned(),
        }
    }

    pub fn with_description(self, description: &str) -> (r: Self)
        ensures
            r.description matches Some(s) && s@ == description@,
            r == (AgentCard { description: r.description, ..self }),
    {
        Self { description: Some(description.to_owned()), ..self }
    }

    pub fn with_capabilities(self, capabilities: AgentCapabilities) -> (r: Self)
        ensures
            r == (AgentCard { capabilities, ..self }),
    {
        Self { capabilities, ..self }
    }

    pub fn with_provider(self, provider: ProviderInfo) -> (r: Self)
        ensures
            r == (AgentCard { provider: Some(provider), ..self }),
    {
        Self { provider: Some(provider), ..self }
    }

    pub fn with_authentication(self, auth: AuthenticationRequirements) -> (r: Self)
        ensures
            r == (AgentCard { authentication: auth, ..self }),
    {
        Self { authentication: auth, ..self }
    }
}

#[derive(Debug, Clone, Copy)]
pub struct AgentCapabilities {
    pub streaming: Option<bool>,
    pub push_notifications: Option<bool>,
    pub state_transition_history: Option<bool>,
    pub file_uploads: Option<bool>,
    pub image_upload: Option<bool>,
    pub tools: Option<ToolsCapability>,
}

impl Default for AgentCapabilities {
    fn default() -> (r: Self)
        ensures
            r.is_blank(),
    {
        Self {
            streaming: None,
            push_notifications: None,
            state_transition_history: None,
            file_uploads: None,
            image_upload: None,
            tools: None,
        }
    }
}

impl AgentCapabilities {
    /// Whether nothing is declared.
    pub open spec fn is_blank(&self) -> bool {
        &&& self.streaming is None
        &&& self.push_notifications is None
        &&& self.state_transition_history is None
        &&& self.file_uploads is None
        &&& self.image_upload is None
        &&& self.tools is None
    }

    pub fn new() -> (r: Self)
        ensures
            r.is_blank(),
    {
        Self::default()
    }

    pub fn with_streaming(self, enabled: bool) -> (r: Self)
        ensures
            r == (AgentCapabilities { streaming: Some(enabled), ..self }),
    {
        Self { streaming: Some(enabled), ..self }
    }

    pub fn with_push_notifications(self, enabled: bool) -> (r: Self)
        ensures
            r == (AgentCapabilities { push_notifications: Some(enabled), ..self }),
    {
        Self { push_notifications: Some(enabled), ..self }
    }

    pub fn with_state_history(self, enabled: bool) -> (r: Self)
        ensures
            r == (AgentCapabilities { state_transition_history: Some(enabled), ..self }),
    {
        Self { state_transition_history: Some(enabled), ..self }
    }

    pub fn with_file_uploads(self, enabled: bool) -> (r: Self)
        ensures
            r == (AgentCapabilities { file_uploads: Some(enabled), ..self }),
    {
        Self { file_uploads: Some(enabled), ..self }
    }

    pub fn with_image_upload(self, enabled: bool) -> (r: Self)
        ensures
            r == (AgentCapabilities { image_upload: Some(enabled), ..self }),
    {
        Self { image_upload: Some(enabled), ..self }
    }

    pub fn with_tools(self, tools: ToolsCapability) -> (r: Self)
        ensures
            r == (AgentCapabilities { tools: Some(tools), ..self }),
    {
        Self { tools: Some(tools), ..self }
    }
}

#[derive(Debug, Clone, Copy)]
pub struct ToolsCapability {
    pub list_changed: Option<bool>,
}

impl ToolsCapability {
    pub fn new() -> (r: Self)
        ensures
            r.list_changed is None,
    {
        Self { list_changed: None }
    }

    pub fn with_list_changed(self, enabled: bool) -> (r: Self)
        ensures
            r == (ToolsCapability { list_changed: Some(enabled), ..self }),
    {
        Self { list_changed: Some(enabled), ..self }
    }
}

#[derive(Debug, Clone)]
pub struct ProviderInfo {
    pub organization: String,
    pub provider: String,
    pub model: Option<String>,
    pub version: Option<String>,
}

impl ProviderInfo {
    pub fn new(organization: &str, provider: &str) -> (r: Self)
        ensures
            r.organization@ == organization@,
            r.provider@ == provider@,
            r.model is None,
            r.version is None,
    {
        Self {
            organization: organization.to_owned(),
            provider: provider.to_owned(),
            model: None,
            version: None,
        }
    }

    pub fn with_model(self, model: &str) -> (r: Self)
        ensures
            r.model matches Some(s) && s@ == model@,
            r == (ProviderInfo { model: r.model, ..self }),
    {
        Self { model: Some(model.to_owned()), ..self }
    }

    pub fn with_version(self, version: &str) -> (r: Self)
        ensures
            r.version matches Some(s) && s@ == version@,
            r == (ProviderInfo { version: r.version, ..self }),
    {
        Self { version: Some(version.to_owned()), ..self }
    }
}

#[derive(Debug, Clone)]
pub struct AuthenticationRequirements {
    pub required: Option<bool>,
    pub schemes: Option<Vec<AuthScheme>>,
    pub credentials: Option<Vec<String>>,
}

impl Default for AuthenticationRequirements {
    fn default() -> (r: Self)
        ensures
            r.is_blank(),
    {
        Self { required: None, schemes: None, credentials: None }
    }
}

impl AuthenticationRequirements {
    /// Whether nothing is asked of a caller.
    pub open spec fn is_blank(&self) -> bool {
        &&& self.required is None
        &&& self.schemes is None
        &&& self.credentials is None
    }

    pub fn new() -> (r: Self)
        ensures
            r.is_blank(),
    {
        Self::default()
    }

    pub fn with_required(self, required: bool) -> (r: Self)
        ensures
            r == (AuthenticationRequirements { required: Some(required), ..self }),
    {
        Self { required: Some(required), ..self }
    }

    pub fn with_schemes(self, schemes: Vec<AuthScheme>) -> (r: Self)
        ensures
            r == (AuthenticationRequirements { schemes: Some(schemes), ..self }),
    {
        Self { schemes: Some(schemes), ..self }
    }

    pub fn with_credentials(self, credentials: Vec<String>) -> (r: Self)
        ensures
            r == (AuthenticationRequirements { credentials: Some(credentials), ..self }),
    {
        Self { credentials: Some(credentials), ..self }
    }
}

#[derive(Debug, Clone, Copy, PartialEq, Eq, Structural)]
pub enum AuthScheme {
    NoAuth,
    Basic,
    Bearer,
    ApiKey,
    OAuth2,
}

#[derive(Debug, Clone)]
pub struct MessageEnvelope {
    pub id: String,
    pub type_: MessageType,
    pub headers: MessageHeaders,
    pub body: MessageBody,
}

impl MessageEnvelope {
    pub fn new(id: &str, type_: MessageType, body: MessageBody) -> (r: Self)
        ensures
            r.id@ == id@,
            r.type_ == type_,
            r.headers.is_blank(),
            r.body == body,
    {
        Self { id: id.to_owned(), type_, headers: MessageHeaders::default(), body }
    }

    pub fn with_headers(self, headers: MessageHeaders) -> (r: Self)
        ensures
            r == (MessageEnvelope { headers, ..self }),
    {
        Self { headers, ..self }
    }
}

#[derive(Debug, Clone)]
pub struct MessageHeaders {
    pub correlation_id: Option<String>,
    pub timestamp: Option<String>,
    pub message_id: Option<String>,
    pub return_url: Option<String>,
    pub custom: Option<serde_json::Value>,
}

impl Default for MessageHeaders {
    fn default() -> (r: Self)
        ensures
            r.is_blank(),
    {
        Self {
            correlation_id: None,
            timestamp: None,
            message_id: None,
            return_url: None,
            custom: None,
        }
    }
}

impl MessageHeaders {
    /// Whether no header is set.
    pub open spec fn is_blank(&self) -> bool {
        &&& self.correlation_id is None
        &&& self.timestamp is None
        &&& self.message_id is None
        &&& self.return_url is None
        &&& self.custom is None
    }

    pub fn new() -> (r: Self)
        ensures
            r.is_blank(),
    {
        Self::default()
    }

    pub fn with_correlation_id(self, id: &str) -> (r: Self)
        ensures
            r.correlation_id matches Some(s) && s@ == id@,
            r == (MessageHeaders { correlation_id: r.correlation_id, ..self }),
    {
        Self { correlation_id: Some(id.to_owned()), ..self }
    }

    pub fn with_timestamp(self, timestamp: &str) -> (r: Self)
        ensures
            r.timestamp matches Some(s) && s@ == timestamp@,
            r == (MessageHeaders { timestamp: r.timestamp, ..self }),
    {
        Self { timestamp: Some(timestamp.to_owned()), ..self }
    }

    pub fn with_message_id(self, id: &str) -> (r: Self)
        ensures
            r.message_id matches Some(s) && s@ == id@,
            r == (MessageHeaders { message_id: r.message_id, ..self }),
    {
        Self { message_id: Some(id.to_owned()), ..self }
    }

    pub fn with_return_url(self, url: &str) -> (r: Self)
        ensures
            r.return_url matches Some(s) && s@ == url@,
            r == (MessageHeaders { return_url: r.return_url, ..self }),
    {
        Self { return_url: Some(url.to_owned()), ..self }
    }

    pub fn with_custom(self, custom: serde_json::Value) -> (r: Self)
        ensures
            r == (MessageHeaders { custom: Some(custom), ..self }),
    {
        Self { custom: Some(custom), ..self }
    }
}

#[derive(Debug, Clone, Copy, PartialEq, Eq, Structural)]
pub enum MessageType {
    Request,
    Response,
    Notification,
}

#[derive(Debug, Clone)]
pub enum MessageBody {
    TaskSubmit(TaskSubmitMessage),
    TaskGet(TaskGetMessage),
    TaskCancel(TaskCancelMessage),
    TaskStatus(TaskStatusMessage),
    TaskResult(TaskResultMessage),
    Error(ErrorMessage),
    Authentication(AuthenticationMessage),
    PushNotification(PushNotificationMessage),
}

#[derive(Debug, Clone)]
pub struct TaskSubmitMessage {
    pub id: String,
    pub session_id: Option<String>,
    pub message: AgentMessage,
    pub accepted_content_types: Option<Vec<String>>,
    pub push_notification: Option<bool>,
}

impl TaskSubmitMessage {
    pub fn new(id: &str, message: AgentMessage) -> (r: Self)
        ensures
            r.id@ == id@,
            r.session_id is None,
            r.message == message,
            r.accepted_content_types is None,
            r.push_notification is None,
    {
        Self {
            id: id.to_owned(),
            session_id: None,
            message,
            accepted_content_types: None,
            push_notification: None,
        }
    }

    pub fn with_session_id(self, session_id: &str) -> (r: Self)
        ensures
            r.session_id matches Some(s) && s@ == session_id@,
            r == (TaskSubmitMessage { session_id: r.session_id, ..self }),
    {
        Self { session_id: Some(session_id.to_owned()), ..self }
    }

    pub fn with_content_types(self, types: Vec<String>) -> (r: Self)
        ensures
            r == (TaskSubmitMessage { accepted_content_types: Some(types), ..self }),
    {
        Self { accepted_content_types: Some(types), ..self }
    }

    pub fn with_push_notification(self, enabled: bool) -> (r: Self)
        ensures
            r == (TaskSubmitMessage { push_notification: Some(enabled), ..self }),
    {
        Self { push_notification: Some(enabled), ..self }
    }
}

#[derive(Debug, Clone)]
pub struct TaskGetMessage {
    pub id: String,
}

impl TaskGetMessage {
    pub fn new(id: &str) -> (r: Self)
        ensures
            r.id@ == id@,
    {
        Self { id: id.to_owned() }
    }
}

#[derive(Debug, Clone)]
pub struct TaskCancelMessage {
    pub id: String,
}

impl TaskCancelMessage {
    pub fn new(id: &str) -> (r: Self)
        ensures
            r.id@ == id@,
    {
        Self { id: id.to_owned() }
    }
}

#[derive(Debug, Clone)]
pub struct TaskStatusMessage {
    pub id: String,
    pub status: TaskStatus,
    pub message: Option<AgentMessage>,
    pub history: Option<Vec<StateTransition>>,
}

impl TaskStatusMessage {
    pub fn new(id: &str, status: TaskStatus) -> (r: Self)
        ensures
            r.id@ == id@,
            r.status == status,
            r.message is None,
            r.history is None,
    {
        Self { id: id.to_owned(), status, message: None, history: None }
    }

    pub fn with_message(self, message: AgentMessage) -> (r: Self)
        ensures
            r == (TaskStatusMessage { message: Some(message), ..self }),
    {
        Self { message: Some(message), ..self }
    }

    pub fn with_history(self, history: Vec<StateTransition>) -> (r: Self)
        ensures
            r == (TaskStatusMessage { history: Some(history), ..self }),
    {
        Self { history: Some(history), ..self }
    }
}

/// Where a task stands.
#[derive(Debug, Clone, Copy, PartialEq, Eq, Structural)]
pub enum TaskStatus {
    Submitted,
    Queued,
    Working,
    InputRequired,
    Completed,
    Failed,
    Canceled,
}

#[derive(Debug, Clone)]
pub struct StateTransition {
    pub from: TaskStatus,
    pub to: TaskStatus,
    pub timestamp: String,
    pub message: Option<AgentMessage>,
}

impl StateTransition {
    pub fn new(from: TaskStatus, to: TaskStatus, timestamp: &str) -> (r: Self)
        ensures
            r.from == from,
            r.to == to,
            r.timestamp@ == timestamp@,
            r.message is None,
    {
        Self { from, to, timestamp: timestamp.to_owned(), message: None }
    }

    pub fn with_message(self, message: AgentMessage) -> (r: Self)
        ensures
            r == (StateTransition { message: Some(message), ..self }),
    {
        Self { message: Some(message), ..self }
    }
}

#[derive(Debug, Clone)]
pub struct TaskResultMessage {
    pub id: String,
    pub result: AgentMessage,
    pub error: Option<String>,
}

impl TaskResultMessage {
    pub fn new(id: &str, result: AgentMessage) -> (r: Self)
        ensures
            r.id@ == id@,
            r.result == result,
            r.error is None,
    {
        Self { id: id.to_owned(), result, error: None }
    }

    pub fn with_error(self, error: &str) -> (r: Self)
        ensures
            r.error matches Some(s) && s@ == error@,
            r == (TaskResultMessage { error: r.error, ..self }),
    {
        Self { error: Some(error.to_owned()), ..self }
    }
}

#[derive(Debug, Clone)]
pub struct AgentMessage {
    pub role: MessageRole,
    pub parts: Vec<MessagePart>,
    pub metadata: Option<serde_json::Value>,
}

impl AgentMessage {
    pub fn new(role: MessageRole, parts: Vec<MessagePart>) -> (r: Self)
        ensures
            r.role == role,
            r.parts == parts,
            r.metadata is None,
    {
        Self { role, parts, metadata: None }
    }

    pub fn user(parts: Vec<MessagePart>) -> (r: Self)
        ensures
            r.role == MessageRole::User,
            r.parts == parts,
            r.metadata is None,
    {
        Self::new(MessageRole::User, parts)
    }

    pub fn agent(parts: Vec<MessagePart>) -> (r: Self)
        ensures
            r.role == MessageRole::Agent,
            r.parts == parts,
            r.metadata is None,
    {
        Self::new(MessageRole::Agent, parts)
    }

    pub fn with_metadata(self, metadata: serde_json::Value) -> (r: Self)
        ensures
            r == (AgentMessage { metadata: Some(metadata), ..self }),
    {
        Self { metadata: Some(metadata), ..self }
    }

    pub fn text_part(content: &str) -> (r: MessagePart)
        ensures
            r matches MessagePart::Text { text } && text@ == content@,
    {
        MessagePart::Text { text: content.to_owned() }
    }

    pub fn file_part(file: FilePart) -> (r: MessagePart)
        ensures
            r == (MessagePart::File { file }),
    {
        MessagePart::File { file }
    }

    pub fn tool_use_part(tool_use: ToolUsePart) -> (r: MessagePart)
        ensures
            r == (MessagePart::ToolUse { tool_use }),
    {
        MessagePart::ToolUse { tool_use }
    }

    pub fn tool_result_part(tool_result: ToolResultPart) -> (r: MessagePart)
        ensures
            r == (MessagePart::ToolResult { tool_result }),
    {
        MessagePart::ToolResult { tool_result }
    }
}

#[derive(Debug, Clone, Copy, PartialEq, Eq, Structural)]
pub enum MessageRole {
    User,
    Agent,
}

#[derive(Debug, Clone)]
pub enum MessagePart {
    Text { text: String },
    File { file: FilePart },
    ToolUse { tool_use: ToolUsePart },
    ToolResult { tool_result: ToolResultPart },
}

#[derive(Debug, Clone)]
pub struct FilePart {
    pub name: Option<String>,
    pub mime_type: Option<String>,
    pub uri: Option<String>,
    pub bytes: Option<String>,
}

impl FilePart {
    pub fn new() -> (r: Self)
        ensures
            r.name is None,
            r.mime_type is None,
            r.uri is None,
            r.bytes is None,
    {
        Self { name: None, mime_type: None, uri: None, bytes: None }
    }

    pub fn with_name(self, name: &str) -> (r: Self)
        ensures
            r.name matches Some(s) && s@ == name@,
            r == (FilePart { name: r.name, ..self }),
    {
        Self { name: Some(name.to_owned()), ..self }
    }

    pub fn with_mime_type(self, mime_type: &str) -> (r: Self)
        ensures
            r.mime_type matches Some(s) && s@ == mime_type@,
            r == (FilePart { mime_type: r.mime_type, ..self }),
    {
        Self { mime_type: Some(mime_type.to_owned()), ..self }
    }

    pub fn with_uri(self, uri: &str) -> (r: Self)
        ensures
            r.uri matches Some(s) && s@ == uri@,
            r == (FilePart { uri: r.uri, ..self }),
    {
        Self { uri: Some(uri.to_owned()), ..self }
    }

    pub fn with_bytes(self, bytes: &str) -> (r: Self)
        ensures
            r.bytes matches Some(s) && s@ == bytes@,
            r == (FilePart { bytes: r.bytes, ..self }),
    {
        Self { bytes: Some(bytes.to_owned()), ..self }
    }
}

#[derive(Debug, Clone)]
pub struct ToolUsePart {
    pub id: String,
    pub name: String,
    pub input: serde_json::Value,
}

impl ToolUsePart {
    pub fn new(id: &str, name: &str, input: serde_json::Value) -> (r: Self)
        ensures
            r.id@ == id@,
            r.name@ == name@,
            r.input == input,
    {
        Self { id: id.to_owned(), name: name.to_owned(), input }
    }
}

#[derive(Debug, Clone)]
pub struct ToolResultPart {
    pub tool_use_id: String,
    pub content: ToolResultContent,
    pub is_error: Option<bool>,
}

impl ToolResultPart {
    pub fn new(tool_use_id: &str, content: ToolResultContent) -> (r: Self)
        ensures
            r.tool_use_id@ == tool_use_id@,
            r.content == content,
            r.is_error is None,
    {
        Self { tool_use_id: tool_use_id.to_owned(), content, is_error: None }
    }

    pub fn with_error(self, is_error: bool) -> (r: Self)
        ensures
            r == (ToolResultPart { is_error: Some(is_error), ..self }),
    {
        Self { is_error: Some(is_error), ..self }
    }
}

#[derive(Debug, Clone)]
pub enum ToolResultContent {
    Text { text: String },
    Image { data: String, mime_type: String },
    Resource { uri: String },
}

#[derive(Debug, Clone)]
pub struct ErrorMessage {
    pub code: i32,
    pub message: String,
    pub data: Option<serde_json::Value>,
}

impl ErrorMessage {
    pub fn new(code: i32, message: &str) -> (r: Self)
        ensures
            r.code == code,
            r.message@ == message@,
            r.data is None,
    {
        Self { code, message: message.to_owned(), data: None }
    }

    pub fn with_data(self, data: serde_json::Value) -> (r: Self)
        ensures
            r == (ErrorMessage { data: Some(data), ..self }),
    {
        Self { data: Some(data), ..self }
    }
}

#[derive(Debug, Clone)]
pub struct AuthenticationMessage {
    pub schemes: Vec<AuthScheme>,
    pub credentials: Option<serde_json::Value>,
}

impl AuthenticationMessage {
    pub fn new(schemes: Vec<AuthScheme>) -> (r: Self)
        ensures
            r.schemes == schemes,
            r.credentials is None,
    {
        Self { schemes, credentials: None }
    }

    pub fn with_credentials(self, credentials: serde_json::Value) -> (r: Self)
        ensures
            r == (AuthenticationMessage { credentials: Some(credentials), ..self }),
    {
        Self { credentials: Some(credentials), ..self }
    }
}

#[derive(Debug, Clone)]
pub struct PushNotificationMessage {
    pub id: String,
    pub message: AgentMessage,
}

impl PushNotificationMessage {
    pub fn new(id: &str, message: AgentMessage) -> (r: Self)
        ensures
            r.id@ == id@,
            r.message == message,
    {
        Self { id: id.to_owned(), message }
    }
}

#[derive(Debug, Clone)]
pub struct A2ARequest {
    pub jsonrpc: String,
    pub id: serde_json::Value,
    pub method: String,
    pub params: Option<serde_json::Value>,
}

impl A2ARequest {
    pub fn new(id: serde_json::Value, method: &str, params: Option<serde_json::Value>) -> (r: Self)
        ensures
            r.jsonrpc@ == "2.0"@,
            r.id == id,
            r.method@ == method@,
            r.params == params,
    {
        Self { jsonrpc: "2.0".to_owned(), id, method: method.to_owned(), params }
    }
}

#[derive(Debug, Clone)]
pub struct A2AResponse {
    pub jsonrpc: String,
    pub id: serde_json::Value,
    pub result: Option<serde_json::Value>,
    pub error: Option<ErrorMessage>,
}

impl A2AResponse {
    pub fn success(id: serde_json::Value, result: serde_json::Value) -> (r: Self)
        ensures
            r.jsonrpc@ == "2.0"@,
            r.id == id,
            r.result == Some(result),
            r.error is None,
    {
        Self { jsonrpc: "2.0".to_owned(), id, result: Some(result), error: None }
    }

    pub fn error(id: serde_json::Value, error: ErrorMessage) -> (r: Self)
        ensures
            r.jsonrpc@ == "2.0"@,
            r.id == id,
            r.result is None,
            r.error == Some(error),
    {
        Self { jsonrpc: "2.0".to_owned(), id, result: None, error: Some(error) }
    }
}

#[derive(Debug, Clone)]
pub struct A2ANotification {
    pub jsonrpc: String,
    pub method: String,
    pub params: Option<serde_json::Value>,
}

impl A2ANotification {
    pub fn new(method: &str, params: Option<serde_json::Value>) -> (r: Self)
        ensures
            r.jsonrpc@ == "2.0"@,
            r.method@ == method@,
            r.params == params,
    {
        Self { jsonrpc: "2.0".to_owned(), method: method.to_owned(), params }
    }
}

} // verus!
