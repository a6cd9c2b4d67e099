//! The server side of the protocol: one inbound message is decoded, routed
//! by its method, and answered.
//!
//! The server decides; it does not run tools or touch the resource store.
//! Where answering needs one of them, [`McpServer::handle_message`] returns
//! the step to take, and the matching `*_response` function turns the
//! outcome of that step into the response.
use crate::json::{
    get_present, get_text, json_get, json_model, json_null, json_parse, json_parsed, member,
    present_member, text_member, JsonModel,
};
use crate::mcp::payload::{tool_encodings, tools_to_json};
use crate::mcp::types::error_codes::{
    INTERNAL_ERROR, INVALID_PARAMS, METHOD_NOT_FOUND, PARSE_ERROR, RESOURCE_NOT_FOUND,
    TOOL_NOT_FOUND,
};
use crate::mcp::types::{
    InitializeResult, JsonRpcNotification, JsonRpcRequest, JsonRpcResponse,
    ResourcesReadRequestParams, ResourcesServerCapability, ServerCapabilities, ServerInfo,
    ToolDefinition, ToolsCallRequestParams, ToolsServerCapability,
};
use crate::mcp::wire::{
    failure_model, failure_response, optional_model, success_model, success_response,
    ResponseModel,
};
use crate::text::{join, str_eq, strip_prefix};
use vstd::prelude::*;

verus! {

/// How a server is reached.
#[derive(Debug, Clone, Copy, PartialEq, Eq, Structural)]
pub enum TransportMode {
    Stdio,
    Http,
}

impl Default for TransportMode {
    fn default() -> (r: Self)
        ensures
            r == TransportMode::Stdio,
    {
        TransportMode::Stdio
    }
}

#[derive(Debug, Clone)]
pub struct ServerConfig {
    pub host: String,
    pub port: u16,
    pub transport_mode: TransportMode,
}

impl Default for ServerConfig {
    fn default() -> (r: Self)
        ensures
            r.host@ == "127.0.0.1"@,
            r.port == 8765,
            r.transport_mode == TransportMode::Stdio,
    {
        Self { host: "127.0.0.1".to_owned(), port: 8765, transport_mode: TransportMode::Stdio }
    }
}

/// The protocol revision this server speaks.
pub open spec fn protocol_revision() -> Seq<char> {
    "2024-11-05"@
}

/// The name under which this server introduces itself.
pub open spec fn server_name() -> Seq<char> {
    "zeroclaw"@
}

/// The version under which this server introduces itself.
pub open spec fn server_version() -> Seq<char> {
    "0.1.0"@
}

/// The scheme of the resources that the bound store serves.
pub open spec fn memory_scheme() -> Seq<char> {
    "memory://"@
}

/// The next step in answering one inbound message.
#[derive(Debug, Clone)]
pub enum ServerAction {
    /// Send this response; nothing else is to be done.
    Respond(JsonRpcResponse),
    /// The message was a notification: nothing is sent back.
    Ignore,
    /// Run the tool at `index` of the registry with `arguments`, then answer
    /// with [`tool_call_response`].
    CallTool { id: serde_json::Value, index: usize, arguments: serde_json::Value },
    /// List the entries of the resource store, then answer with
    /// [`resources_list_response`].
    ListResources { id: serde_json::Value },
    /// Look `key` up in the resource store, then answer with
    /// [`resources_read_response`].
    ReadResource { id: serde_json::Value, uri: String, key: String },
}

/// What a [`ServerAction`] says.
pub enum ActionModel {
    Respond(ResponseModel),
    Ignore,
    CallTool { id: JsonModel, index: int, arguments: JsonModel },
    ListResources { id: JsonModel },
    ReadResource { id: JsonModel, uri: Seq<char>, key: Seq<char> },
}

impl View for ServerAction {
    type V = ActionModel;

    open spec fn view(&self) -> ActionModel {
        match *self {
            ServerAction::Respond(r) => ActionModel::Respond(r@),
            ServerAction::Ignore => ActionModel::Ignore,
            ServerAction::CallTool { id, index, arguments } => ActionModel::CallTool {
                id: json_model(id),
                index: index as int,
                arguments: json_model(arguments),
            },
            ServerAction::ListResources { id } => ActionModel::ListResources {
                id: json_model(id),
            },
            ServerAction::ReadResource { id, uri, key } => ActionModel::ReadResource {
                id: json_model(id),
                uri: uri@,
                key: key@,
            },
        }
    }
}

/// The first position at or after `from` where the registry holds a tool of
/// that name.
pub open spec fn tool_index_from(tools: Seq<ToolDefinition>, name: Seq<char>, from: int) -> Option<
    int,
>
    decreases tools.len() - from,
{
    if from < 0 || from >= tools.len() {
        None
    } else if tools[from].name@ == name {
        Some(from)
    } else {
        tool_index_from(tools, name, from + 1)
    }
}

/// The first position where the registry holds a tool of that name.
pub open spec fn tool_index(tools: Seq<ToolDefinition>, name: Seq<char>) -> Option<int> {
    tool_index_from(tools, name, 0)
}

/// Whether the registry holds a tool of that name.
pub open spec fn is_registered(tools: Seq<ToolDefinition>, name: Seq<char>) -> bool {
    exists|i: int| 0 <= i < tools.len() && #[trigger] tools[i].name@ == name
}

/// Looks a tool up by name; the first of that name wins.
pub fn find_tool(tools: &Vec<ToolDefinition>, name: &str) -> (r: Option<usize>)
    ensures
        match r {
            Some(i) => tool_index(tools@, name@) == Some(i as int) && i < tools.len(),
            None => tool_index(tools@, name@) is None,
        },
{
    let mut i: usize = 0;
    while i < tools.len()
        invariant
            i <= tools.len(),
            tool_index(tools@, name@) == tool_index_from(tools@, name@, i as int),
        decreases tools.len() - i,
    {
        if str_eq(tools[i].name.as_str(), name) {
            return Some(i);
        }
        i += 1;
    }
    None
}

impl ToolsCallRequestParams {
    /// Whether a document holds the parameters of a tool call: a string
    /// `name`.
    pub open spec fn decodable(m: JsonModel) -> bool {
        text_member(m, "name"@) is Some
    }

    /// Whether these parameters are what the document says. Where the
    /// document has no `arguments`, the tool is called with `null`.
    pub open spec fn decoded_from(&self, m: JsonModel) -> bool {
        &&& text_member(m, "name"@) == Some(self.name@)
        &&& json_model(self.arguments) == call_arguments(m)
        &&& optional_model(self._meta) == present_member(m, "_meta"@)
    }

    pub fn from_json(v: &serde_json::Value) -> (r: Option<Self>)
        ensures
            match r {
                Some(p) => Self::decodable(json_model(*v)) && p.decoded_from(json_model(*v)),
                None => !Self::decodable(json_model(*v)),
            },
    {
        let name = match get_text(v, "name") {
            Some(s) => s,
            None => {
                return None;
            },
        };
        let arguments = match json_get(v, "arguments") {
            Some(a) => a.clone(),
            None => json_null(),
        };
        let _meta = match get_present(v, "_meta") {
            Some(d) => Some(d.clone()),
            None => None,
        };
        Some(Self { name, arguments, _meta })
    }
}

/// The arguments that a tool call hands to the tool.
pub open spec fn call_arguments(params: JsonModel) -> JsonModel {
    match member(params, "arguments"@) {
        Some(a) => a,
        None => JsonModel::Null,
    }
}

impl ResourcesReadRequestParams {
    /// Whether a document holds the parameters of a read: a string `uri`.
    pub open spec fn decodable(m: JsonModel) -> bool {
        text_member(m, "uri"@) is Some
    }

    /// Whether these parameters are what the document says.
    pub open spec fn decoded_from(&self, m: JsonModel) -> bool {
        &&& text_member(m, "uri"@) == Some(self.uri@)
        &&& optional_model(self._meta) == present_member(m, "_meta"@)
    }

    pub fn from_json(v: &serde_json::Value) -> (r: Option<Self>)
        ensures
            match r {
                Some(p) => Self::decodable(json_model(*v)) && p.decoded_from(json_model(*v)),
                None => !Self::decodable(json_model(*v)),
            },
    {
        let uri = match get_text(v, "uri") {
            Some(s) => s,
            None => {
                return None;
            },
        };
        let _meta = match get_present(v, "_meta") {
            Some(d) => Some(d.clone()),
            None => None,
        };
        Some(Self { uri, _meta })
    }
}

/// What answers `initialize`: the protocol revision, the capabilities of
/// this server, and its identity.
pub open spec fn initialize_document() -> JsonModel {
    JsonModel::Object(
        Map::empty().insert("protocol_version"@, JsonModel::Text(protocol_revision())).insert(
            "capabilities"@,
            JsonModel::Object(
                Map::empty().insert(
                    "tools"@,
                    JsonModel::Object(
                        Map::empty().insert("list_changed"@, JsonModel::Bool(true)),
                    ),
                ).insert(
                    "resources"@,
                    JsonModel::Object(
                        Map::empty().insert("subscribe"@, JsonModel::Bool(false)).insert(
                            "list_changed"@,
                            JsonModel::Bool(false),
                        ),
                    ),
                ),
            ),
        ).insert(
            "server_info"@,
            JsonModel::Object(
                Map::empty().insert("name"@, JsonModel::Text(server_name())).insert(
                    "version"@,
                    JsonModel::Text(server_version()),
                ),
            ),
        ),
    )
}

/// What answers `tools/list`: the definitions of the registry, in registry
/// order.
pub open spec fn tools_list_document(tools: Seq<ToolDefinition>) -> JsonModel {
    JsonModel::Object(Map::empty().insert("tools"@, JsonModel::Array(tool_encodings(tools))))
}

/// The step that `tools/call` leads to.
pub open spec fn tools_call_spec(
    tools: Seq<ToolDefinition>,
    params: Option<JsonModel>,
    id: JsonModel,
) -> ActionModel {
    match params {
        None => ActionModel::Respond(failure_model(id, INVALID_PARAMS as int, "Missing params"@)),
        Some(p) => match text_member(p, "name"@) {
            None => ActionModel::Respond(
                failure_model(id, INVALID_PARAMS as int, "Invalid params"@),
            ),
            Some(name) => match tool_index(tools, name) {
                Some(index) => ActionModel::CallTool { id, index, arguments: call_arguments(p) },
                None => ActionModel::Respond(
                    failure_model(id, TOOL_NOT_FOUND as int, "Tool not found: "@ + name),
                ),
            },
        },
    }
}

/// The step that `resources/read` leads to.
pub open spec fn resources_read_spec(params: Option<JsonModel>, id: JsonModel) -> ActionModel {
    match params {
        None => ActionModel::Respond(failure_model(id, INVALID_PARAMS as int, "Missing params"@)),
        Some(p) => match text_member(p, "uri"@) {
            None => ActionModel::Respond(
                failure_model(id, INVALID_PARAMS as int, "Invalid params"@),
            ),
            Some(uri) => if memory_scheme().is_prefix_of(uri) {
                ActionModel::ReadResource { id, uri, key: uri.skip(memory_scheme().len() as int) }
            } else {
                ActionModel::Respond(
                    failure_model(
                        id,
                        RESOURCE_NOT_FOUND as int,
                        "Unknown resource URI scheme"@,
                    ),
                )
            },
        },
    }
}

/// The step that a request leads to, by its method.
pub open spec fn request_spec(
    tools: Seq<ToolDefinition>,
    method: Seq<char>,
    params: Option<JsonModel>,
    id: JsonModel,
) -> ActionModel {
    if method == "initialize"@ {
        ActionModel::Respond(success_model(id, initialize_document()))
    } else if method == "tools/list"@ {
        ActionModel::Respond(success_model(id, tools_list_document(tools)))
    } else if method == "tools/call"@ {
        tools_call_spec(tools, params, id)
    } else if method == "resources/list"@ {
        ActionModel::ListResources { id }
    } else if method == "resources/read"@ {
        resources_read_spec(params, id)
    } else {
        ActionModel::Respond(failure_model(id, METHOD_NOT_FOUND as int, "Method not found"@))
    }
}

/// The step that a decoded document leads to. A request is routed; a
/// notification is passed over; anything else is no envelope, and is
/// answered with a parse error under the `null` id.
pub open spec fn document_spec(tools: Seq<ToolDefinition>, m: JsonModel) -> ActionModel {
    if JsonRpcRequest::decodable(m) {
        request_spec(
            tools,
            text_member(m, "method"@)->0,
            present_member(m, "params"@),
            member(m, "id"@)->0,
        )
    } else if JsonRpcNotification::decodable(m) {
        ActionModel::Ignore
    } else {
        ActionModel::Respond(failure_model(JsonModel::Null, PARSE_ERROR as int, "Invalid JSON"@))
    }
}

/// The step that an inbound text leads to.
pub open spec fn message_spec(tools: Seq<ToolDefinition>, text: Seq<char>) -> ActionModel {
    match json_parsed(text) {
        Some(m) => document_spec(tools, m),
        None => ActionModel::Respond(
            failure_model(JsonModel::Null, PARSE_ERROR as int, "Invalid JSON"@),
        ),
    }
}

/// The server: its configuration and the registry of the tools it exposes,
/// in registry order.
pub struct McpServer {
    pub config: ServerConfig,
    pub tools: Vec<ToolDefinition>,
}

impl McpServer {
    pub fn new(config: ServerConfig, tools: Vec<ToolDefinition>) -> (r: Self)
        ensures
            r.config == config,
            r.tools == tools,
    {
        Self { config, tools }
    }

    /// Decides how one inbound text is answered.
    pub fn handle_message(&self, message: &str) -> (r: ServerAction)
        ensures
            r@ == message_spec(self.tools@, message@),
    {
        Self::handle_message_static(&self.tools, message)
    }

    /// Decides how one inbound text is answered, given the registry.
    pub fn handle_message_static(tools: &Vec<ToolDefinition>, message: &str) -> (r: ServerAction)
        ensures
            r@ == message_spec(tools@, message@),
    {
        let document = match json_parse(message) {
            Some(v) => v,
            None => {
                return ServerAction::Respond(
                    failure_response(json_null(), PARSE_ERROR, "Invalid JSON"),
                );
            },
        };
        match JsonRpcRequest::from_json(&document) {
            Some(request) => {
                let JsonRpcRequest { jsonrpc: _, id, method, params } = request;
                let method = method.as_str();
                if str_eq(method, "initialize") {
                    ServerAction::Respond(Self::handle_initialize(id))
                } else if str_eq(method, "tools/list") {
                    ServerAction::Respond(Self::handle_tools_list(tools, id))
                } else if str_eq(method, "tools/call") {
                    Self::handle_tools_call(tools, params, id)
                } else if str_eq(method, "resources/list") {
                    Self::handle_resources_list(id)
                } else if str_eq(method, "resources/read") {
                    Self::handle_resources_read(params, id)
                } else {
                    ServerAction::Respond(
                        failure_response(id, METHOD_NOT_FOUND, "Method not found"),
                    )
                }
            },
            None => match JsonRpcNotification::from_json(&document) {
                Some(_) => ServerAction::Ignore,
                None => ServerAction::Respond(
                    failure_response(json_null(), PARSE_ERROR, "Invalid JSON"),
                ),
            },
        }
    }

    /// Answers `initialize`.
    pub fn handle_initialize(id: serde_json::Value) -> (r: JsonRpcResponse)
        ensures
            r@ == success_model(json_model(id), initialize_document()),
    {
        let result = InitializeResult {
            protocol_version: "2024-11-05".to_owned(),
            capabilities: ServerCapabilities {
                tools: Some(ToolsServerCapability { list_changed: Some(true) }),
                resources: Some(
                    ResourcesServerCapability { subscribe: Some(false), list_changed: Some(false) },
                ),
            },
            server_info: ServerInfo { name: "zeroclaw".to_owned(), version: "0.1.0".to_owned() },
        };
        success_response(id, result.to_json())
    }

    /// Answers `tools/list`.
    pub fn handle_tools_list(tools: &Vec<ToolDefinition>, id: serde_json::Value) -> (r:
        JsonRpcResponse)
        ensures
            r@ == success_model(json_model(id), tools_list_document(tools@)),
    {
        let mut members = crate::json::members_new();
        crate::json::members_insert(&mut members, "tools".to_owned(), tools_to_json(tools));
        success_response(id, crate::json::json_object(members))
    }

    /// Decides `tools/call`: which tool is to run, or why none is.
    pub fn handle_tools_call(
        tools: &Vec<ToolDefinition>,
        params: Option<serde_json::Value>,
        id: serde_json::Value,
    ) -> (r: ServerAction)
        ensures
            r@ == tools_call_spec(tools@, optional_model(params), json_model(id)),
    {
        let params = match params {
            Some(p) => p,
            None => {
                return ServerAction::Respond(
                    failure_response(id, INVALID_PARAMS, "Missing params"),
                );
            },
        };
        let call = match ToolsCallRequestParams::from_json(&params) {
            Some(c) => c,
            None => {
                return ServerAction::Respond(
                    failure_response(id, INVALID_PARAMS, "Invalid params"),
                );
            },
        };
        match find_tool(tools, call.name.as_str()) {
            Some(index) => ServerAction::CallTool { id, index, arguments: call.arguments },
            None => {
                let message = join("Tool not found: ", call.name.as_str());
                ServerAction::Respond(failure_response(id, TOOL_NOT_FOUND, message.as_str()))
            },
        }
    }

    /// Decides `resources/list`: the store is to be listed.
    pub fn handle_resources_list(id: serde_json::Value) -> (r: ServerAction)
        ensures
            r@ == (ActionModel::ListResources { id: json_model(id) }),
    {
        ServerAction::ListResources { id }
    }

    /// Decides `resources/read`: which key is to be looked up, or why none
    /// is.
    pub fn handle_resources_read(params: Option<serde_json::Value>, id: serde_json::Value) -> (r:
        ServerAction)
        ensures
            r@ == resources_read_spec(optional_model(params), json_model(id)),
    {
        let params = match params {
            Some(p) => p,
            None => {
                return ServerAction::Respond(
                    failure_response(id, INVALID_PARAMS, "Missing params"),
                );
            },
        };
        let read = match ResourcesReadRequestParams::from_json(&params) {
            Some(c) => c,
            None => {
                return ServerAction::Respond(
                    failure_response(id, INVALID_PARAMS, "Invalid params"),
                );
            },
        };
        match strip_prefix(read.uri.as_str(), "memory://") {
            Some(key) => {
                let key = key.to_owned();
                assert(key@ =~= read.uri@.skip(memory_scheme().len() as int));
                assert(memory_scheme().is_prefix_of(read.uri@));
                ServerAction::ReadResource { id, uri: read.uri, key }
            },
            None => ServerAction::Respond(
                failure_response(id, RESOURCE_NOT_FOUND, "Unknown resource URI scheme"),
            ),
        }
    }
}

/// What a tool reports after it ran.
#[derive(Debug, Clone)]
pub struct ToolResult {
    pub success: bool,
    pub output: String,
    pub error: Option<String>,
}

/// One entry of the resource store.
#[derive(Debug, Clone)]
pub struct MemoryEntry {
    pub id: String,
    pub key: String,
    pub content: String,
    pub category: String,
}

/// The result of a tool call with one text block.
pub open spec fn text_result_document(text: Seq<char>, failed: bool) -> JsonModel {
    let block = JsonModel::Object(
        Map::empty().insert("type"@, JsonModel::Text("Text"@)).insert(
            "text"@,
            JsonModel::Text(text),
        ),
    );
    let members = Map::empty().insert("content"@, JsonModel::Array(seq![block]));
    if failed {
        JsonModel::Object(members.insert("is_error"@, JsonModel::Bool(true)))
    } else {
        JsonModel::Object(members)
    }
}

/// What a tool's report says on the wire: its output where it succeeded,
/// else its error, or `Unknown error` where it gave none.
pub open spec fn tool_result_document(result: ToolResult) -> JsonModel {
    if result.success {
        text_result_document(result.output@, false)
    } else {
        text_result_document(
            match result.error {
                Some(e) => e@,
                None => "Unknown error"@,
            },
            true,
        )
    }
}

/// The response to `tools/call` once the tool has run. A tool that ran
/// answers with a result, also where it reports a failure; a tool that could
/// not run answers with an internal error.
pub open spec fn tool_call_model(id: JsonModel, outcome: Result<ToolResult, String>) -> ResponseModel {
    match outcome {
        Ok(result) => success_model(id, tool_result_document(result)),
        Err(e) => failure_model(id, INTERNAL_ERROR as int, e@),
    }
}

/// Answers `tools/call` once the tool has run.
pub fn tool_call_response(id: serde_json::Value, outcome: Result<ToolResult, String>) -> (r:
    JsonRpcResponse)
    ensures
        r@ == tool_call_model(json_model(id), outcome),
{
    match outcome {
        Ok(result) => {
            let wire = if result.success {
                crate::mcp::types::ToolsCallResult::text(result.output.as_str())
            } else {
                match &result.error {
                    Some(e) => crate::mcp::types::ToolsCallResult::error(e.as_str()),
                    None => crate::mcp::types::ToolsCallResult::error("Unknown error"),
                }
            };
            let document = wire.to_json();
            proof {
                let text = wire.content@[0]->Text_text@;
                assert(crate::mcp::payload::block_encodings(wire.content@) =~= seq![
                    wire.content@[0].encoding(),
                ]);
                assert(json_model(document) == text_result_document(text, !result.success));
            }
            success_response(id, document)
        },
        Err(e) => failure_response(id, INTERNAL_ERROR, e.as_str()),
    }
}

/// What the listing tells of one entry of the store: it is addressed by its
/// key under the `memory://` scheme, named by its key, and described by its
/// category and identifier.
pub open spec fn entry_document(entry: MemoryEntry) -> JsonModel {
    JsonModel::Object(
        Map::empty().insert("uri"@, JsonModel::Text(memory_scheme() + entry.key@)).insert(
            "name"@,
            JsonModel::Text(entry.key@),
        ).insert("description"@, JsonModel::Text(entry.category@ + " - "@ + entry.id@)),
    )
}

/// The listing of the entries of the store, in the order the store gave.
pub open spec fn entry_documents(entries: Seq<MemoryEntry>) -> Seq<JsonModel> {
    Seq::new(entries.len(), |i: int| entry_document(entries[i]))
}

/// The response to `resources/list` once the store has answered.
pub open spec fn resources_list_model(
    id: JsonModel,
    outcome: Result<Vec<MemoryEntry>, String>,
) -> ResponseModel {
    match outcome {
        Ok(entries) => success_model(
            id,
            JsonModel::Object(
                Map::empty().insert("resources"@, JsonModel::Array(entry_documents(entries@))),
            ),
        ),
        Err(e) => failure_model(id, INTERNAL_ERROR as int, e@),
    }
}

/// Describes one entry of the store as a resource.
pub fn entry_definition(entry: &MemoryEntry) -> (r: crate::mcp::types::ResourceDefinition)
    ensures
        r.encoding() == entry_document(*entry),
{
    let uri = join("memory://", entry.key.as_str());
    let mut description = join(entry.category.as_str(), " - ");
    description.append(entry.id.as_str());
    crate::mcp::types::ResourceDefinition::new(uri.as_str(), entry.key.as_str()).with_description(
        description.as_str(),
    )
}

/// Answers `resources/list` once the store has answered.
pub fn resources_list_response(
    id: serde_json::Value,
    outcome: Result<Vec<MemoryEntry>, String>,
) -> (r: JsonRpcResponse)
    ensures
        r@ == resources_list_model(json_model(id), outcome),
{
    match outcome {
        Ok(entries) => {
            let mut resources: Vec<crate::mcp::types::ResourceDefinition> = Vec::new();
            let mut i: usize = 0;
            while i < entries.len()
                invariant
                    i <= entries.len(),
                    resources@.len() == i,
                    forall|j: int|
                        0 <= j < i ==> (#[trigger] resources@[j]).encoding() == entry_document(
                            entries@[j],
                        ),
                decreases entries.len() - i,
            {
                resources.push(entry_definition(&entries[i]));
                i += 1;
            }
            let listing = crate::mcp::types::ResourcesListResult { resources, next_cursor: None };
            assert(crate::mcp::payload::resource_encodings(listing.resources@) =~= entry_documents(
                entries@,
            ));
            success_response(id, listing.to_json())
        },
        Err(e) => failure_response(id, INTERNAL_ERROR, e.as_str()),
    }
}

/// What a read tells of an entry: its content as plain text under the URI
/// that was asked for.
pub open spec fn read_document(uri: Seq<char>, entry: MemoryEntry) -> JsonModel {
    let content = JsonModel::Object(
        Map::empty().insert("uri"@, JsonModel::Text(uri)).insert(
            "mime_type"@,
            JsonModel::Text("text/plain"@),
        ).insert("text"@, JsonModel::Text(entry.content@)),
    );
    JsonModel::Object(Map::empty().insert("contents"@, JsonModel::Array(seq![content])))
}

/// The response to `resources/read` once the store has answered.
pub open spec fn resources_read_model(
    id: JsonModel,
    uri: Seq<char>,
    outcome: Result<Option<MemoryEntry>, String>,
) -> ResponseModel {
    match outcome {
        Ok(Some(entry)) => success_model(id, read_document(uri, entry)),
        Ok(None) => failure_model(id, RESOURCE_NOT_FOUND as int, "Memory entry not found"@),
        Err(e) => failure_model(id, INTERNAL_ERROR as int, e@),
    }
}

/// Answers `resources/read` once the store has answered.
pub fn resources_read_response(
    id: serde_json::Value,
    uri: &str,
    outcome: Result<Option<MemoryEntry>, String>,
) -> (r: JsonRpcResponse)
    ensures
        r@ == resources_read_model(json_model(id), uri@, outcome),
{
    match outcome {
        Ok(Some(entry)) => {
            let content = crate::mcp::types::ResourceContent {
                uri: uri.to_owned(),
                mime_type: Some("text/plain".to_owned()),
                text: Some(entry.content),
                blob: None,
            };
            let mut contents = Vec::new();
            contents.push(content);
            let reading = crate::mcp::types::ResourcesReadResult { contents };
            assert(crate::mcp::payload::content_encodings(reading.contents@) =~= seq![
                reading.contents@[0].encoding(),
            ]);
            success_response(id, reading.to_json())
        },
        Ok(None) => failure_response(id, RESOURCE_NOT_FOUND, "Memory entry not found"),
        Err(e) => failure_response(id, INTERNAL_ERROR, e.as_str()),
    }
}

/// The id under which an action will answer, where it answers at all.
pub open spec fn action_id(action: ActionModel) -> Option<JsonModel> {
    match action {
        ActionModel::Respond(r) => Some(r.id),
        ActionModel::Ignore => None,
        ActionModel::CallTool { id, .. } => Some(id),
        ActionModel::ListResources { id } => Some(id),
        ActionModel::ReadResource { id, .. } => Some(id),
    }
}

/// Whether an action touches a tool of the registry.
pub open spec fn invokes_tool(action: ActionModel) -> bool {
    action is CallTool
}

/// A lookup finds the first tool of the name, and finds none exactly where
/// no tool of the registry has the name.
pub proof fn lemma_tool_index(tools: Seq<ToolDefinition>, name: Seq<char>, from: int)
    requires
        0 <= from,
    ensures
        match tool_index_from(tools, name, from) {
            Some(k) => from <= k < tools.len() && tools[k].name@ == name && forall|j: int|
                from <= j < k ==> (#[trigger] tools[j]).name@ != name,
            None => forall|j: int| from <= j < tools.len() ==> (#[trigger] tools[j]).name@ != name,
        },
    decreases tools.len() - from,
{
    if from < tools.len() && tools[from].name@ != name {
        lemma_tool_index(tools, name, from + 1);
    }
}

/// A call of a name that the registry does not hold is answered with the
/// tool-not-found error, and no tool is invoked.
pub proof fn law_unregistered_tool_is_not_found(
    tools: Seq<ToolDefinition>,
    params: JsonModel,
    id: JsonModel,
)
    requires
        text_member(params, "name"@) matches Some(name) && !is_registered(tools, name),
    ensures
        tools_call_spec(tools, Some(params), id) == ActionModel::Respond(
            failure_model(
                id,
                TOOL_NOT_FOUND as int,
                "Tool not found: "@ + text_member(params, "name"@)->0,
            ),
        ),
        !invokes_tool(tools_call_spec(tools, Some(params), id)),
{
    let name = text_member(params, "name"@)->0;
    lemma_tool_index(tools, name, 0);
    if tool_index(tools, name) is Some {
        let k = tool_index(tools, name)->0;
        assert(tools[k].name@ == name);
    }
}

/// Where a call does invoke a tool, it is the first tool of the registry
/// that bears the name that was asked for, with the arguments that were
/// sent.
pub proof fn law_invoked_tool_is_the_named_one(
    tools: Seq<ToolDefinition>,
    params: Option<JsonModel>,
    id: JsonModel,
)
    requires
        invokes_tool(tools_call_spec(tools, params, id)),
    ensures
        params matches Some(p) && text_member(p, "name"@) matches Some(name) && ({
            let index = tools_call_spec(tools, params, id)->CallTool_index;
            &&& 0 <= index < tools.len()
            &&& tools[index].name@ == name
            &&& forall|j: int| 0 <= j < index ==> (#[trigger] tools[j]).name@ != name
            &&& tools_call_spec(tools, params, id)->CallTool_arguments == call_arguments(p)
        }),
{
    let name = text_member(params->0, "name"@)->0;
    lemma_tool_index(tools, name, 0);
}

/// A read of a URI that lacks the `memory://` scheme is answered with the
/// resource-not-found error. The store is not consulted: the only steps that
/// reach the store are a listing and a lookup, and neither changes it.
pub proof fn law_unknown_scheme_is_not_found(params: JsonModel, id: JsonModel)
    requires
        text_member(params, "uri"@) matches Some(uri) && !memory_scheme().is_prefix_of(uri),
    ensures
        resources_read_spec(Some(params), id) == ActionModel::Respond(
            failure_model(id, RESOURCE_NOT_FOUND as int, "Unknown resource URI scheme"@),
        ),
{
}

/// Whatever a request leads to answers under the id of that request.
pub proof fn law_answer_repeats_request_id(
    tools: Seq<ToolDefinition>,
    method: Seq<char>,
    params: Option<JsonModel>,
    id: JsonModel,
)
    ensures
        action_id(request_spec(tools, method, params, id)) == Some(id),
{
}

/// A well-formed request with a method that this server does not know is
/// answered with method-not-found under its own id, never with a parse
/// error.
pub proof fn law_unknown_method_is_not_a_parse_error(
    tools: Seq<ToolDefinition>,
    m: JsonModel,
)
    requires
        JsonRpcRequest::decodable(m),
        ({
            let method = text_member(m, "method"@)->0;
            &&& method != "initialize"@
            &&& method != "tools/list"@
            &&& method != "tools/call"@
            &&& method != "resources/list"@
            &&& method != "resources/read"@
        }),
    ensures
        document_spec(tools, m) == ActionModel::Respond(
            failure_model(member(m, "id"@)->0, METHOD_NOT_FOUND as int, "Method not found"@),
        ),
{
}

impl McpServer {
    /// Serves one line of the standard input. A blank line is passed over:
    /// it is no message.
    pub fn serve_line(&self, line: &str) -> (r: Option<ServerAction>)
        ensures
            match r {
                Some(action) => crate::text::trimmed(line@).len() != 0 && action@ == message_spec(
                    self.tools@,
                    line@,
                ),
                None => crate::text::trimmed(line@).len() == 0,
            },
    {
        if crate::text::is_blank(line) {
            None
        } else {
            Some(self.handle_message(line))
        }
    }
}

/// One response as a line of the standard output: its JSON text and a line
/// feed. A response can always be written, so there is always a line.
pub fn response_line(response: &JsonRpcResponse) -> (r: Option<String>)
    ensures
        r matches Some(line) && line@ == crate::json::json_text(response.encoding()) + "\n"@,
{
    match response_text(response) {
        Some(text) => Some(join(text.as_str(), "\n")),
        None => None,
    }
}

/// One response as JSON text. A response can always be written.
pub fn response_text(response: &JsonRpcResponse) -> (r: Option<String>)
    ensures
        r matches Some(text) && text@ == crate::json::json_text(response.encoding()),
{
    let document = response.to_json();
    crate::json::json_to_text(&document)
}

/// The address on which the server listens in network mode.
pub fn listen_address(config: &ServerConfig) -> (r: String)
    ensures
        r@ == config.host@ + ":"@ + crate::text::decimal(config.port as nat),
{
    let mut address = join(config.host.as_str(), ":");
    address.append(crate::text::u64_to_decimal(config.port as u64).as_str());
    address
}

/// Makes a server for a registry of tools.
pub fn create_mcp_server(config: ServerConfig, tool_registry: Vec<ToolDefinition>) -> (r:
    McpServer)
    ensures
        r.config == config,
        r.tools == tool_registry,
{
    McpServer::new(config, tool_registry)
}

impl McpServer {
    /// The mode in which the server is to be run: a loop over the lines of
    /// the standard input, or one request for each inbound connection.
    pub fn run(&self) -> (r: TransportMode)
        ensures
            r == self.config.transport_mode,
    {
        self.config.transport_mode
    }
}

} // verus!
