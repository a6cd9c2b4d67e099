//! How the messages of the agent-to-agent protocol are written as JSON.
//!
//! A member that is optional and unset is left out, except for the name,
//! the type and the address of a file, which are written as `null`.
use crate::agent::a2a::server::TaskReport;
use crate::agent::a2a::types::{
    A2ANotification, A2ARequest, A2AResponse, AgentCapabilities, AgentCard, AgentMessage,
    AuthScheme, AuthenticationRequirements, ErrorMessage, FilePart, MessagePart, MessageRole,
    ProviderInfo, StateTransition, TaskStatus, ToolResultContent, ToolResultPart,
    ToolsCapability, ToolUsePart,
};
use crate::json::{
    all_texts, get_optional_bool, get_optional_text, get_present, get_text, items_of,
    json_array, json_as_array, json_as_str, json_get, json_i64, json_is_object, json_model,
    json_models, json_null,
    json_object, json_parse, json_parsed, json_string, member, members_insert, members_new,
    no_members, optional_bool_member, optional_text_member, present_member, put_optional,
    put_optional_bool, put_optional_text, put_text, text_member, text_view, text_views,
    texts_from_array, with_optional, JsonModel,
};
use crate::text::str_eq;
use crate::mcp::payload::{optional_flag, optional_text};
use crate::mcp::wire::{clone_optional, optional_model};
use vstd::prelude::*;

verus! {

impl AuthScheme {
    /// The name under which a scheme is written.
    pub open spec fn wire_name(&self) -> Seq<char> {
        match *self {
            AuthScheme::NoAuth => "none"@,
            AuthScheme::Basic => "basic"@,
            AuthScheme::Bearer => "bearer"@,
            AuthScheme::ApiKey => "api_key"@,
            AuthScheme::OAuth2 => "oauth2"@,
        }
    }

    pub fn name(&self) -> (r: &'static str)
        ensures
            r@ == self.wire_name(),
    {
        match self {
            AuthScheme::NoAuth => "none",
            AuthScheme::Basic => "basic",
            AuthScheme::Bearer => "bearer",
            AuthScheme::ApiKey => "api_key",
            AuthScheme::OAuth2 => "oauth2",
        }
    }

    pub fn to_json(&self) -> (r: serde_json::Value)
        ensures
            json_model(r) == JsonModel::Text(self.wire_name()),
    {
        json_string(self.name().to_owned())
    }
}

impl TaskStatus {
    /// The name under which a status is written.
    pub open spec fn wire_name(&self) -> Seq<char> {
        match *self {
            TaskStatus::Submitted => "submitted"@,
            TaskStatus::Queued => "queued"@,
            TaskStatus::Working => "working"@,
            TaskStatus::InputRequired => "inputrequired"@,
            TaskStatus::Completed => "completed"@,
            TaskStatus::Failed => "failed"@,
            TaskStatus::Canceled => "canceled"@,
        }
    }

    pub fn name(&self) -> (r: &'static str)
        ensures
            r@ == self.wire_name(),
    {
        match self {
            TaskStatus::Submitted => "submitted",
            TaskStatus::Queued => "queued",
            TaskStatus::Working => "working",
            TaskStatus::InputRequired => "inputrequired",
            TaskStatus::Completed => "completed",
            TaskStatus::Failed => "failed",
            TaskStatus::Canceled => "canceled",
        }
    }

    pub fn to_json(&self) -> (r: serde_json::Value)
        ensures
            json_model(r) == JsonModel::Text(self.wire_name()),
    {
        json_string(self.name().to_owned())
    }
}

impl MessageRole {
    /// The name under which a role is written.
    pub open spec fn wire_name(&self) -> Seq<char> {
        match *self {
            MessageRole::User => "user"@,
            MessageRole::Agent => "agent"@,
        }
    }

    pub fn name(&self) -> (r: &'static str)
        ensures
            r@ == self.wire_name(),
    {
        match self {
            MessageRole::User => "user",
            MessageRole::Agent => "agent",
        }
    }
}

/// The names of schemes, one for one.
pub open spec fn scheme_names(schemes: Seq<AuthScheme>) -> Seq<JsonModel> {
    Seq::new(schemes.len(), |i: int| JsonModel::Text(schemes[i].wire_name()))
}

/// Writes schemes as an array of their names.
pub fn schemes_to_json(schemes: &Vec<AuthScheme>) -> (r: serde_json::Value)
    ensures
        json_model(r) == JsonModel::Array(scheme_names(schemes@)),
{
    let mut out: Vec<serde_json::Value> = Vec::new();
    let mut i: usize = 0;
    while i < schemes.len()
        invariant
            i <= schemes.len(),
            out@.len() == i,
            forall|j: int|
                0 <= j < i ==> json_model(#[trigger] out@[j]) == JsonModel::Text(
                    schemes@[j].wire_name(),
                ),
        decreases schemes.len() - i,
    {
        out.push(schemes[i].to_json());
        i += 1;
    }
    assert(json_models(out@) =~= scheme_names(schemes@));
    json_array(out)
}

/// The names of statuses, one for one.
pub open spec fn status_names(statuses: Seq<TaskStatus>) -> Seq<JsonModel> {
    Seq::new(statuses.len(), |i: int| JsonModel::Text(statuses[i].wire_name()))
}

/// Writes statuses as an array of their names.
pub fn statuses_to_json(statuses: &Vec<TaskStatus>) -> (r: serde_json::Value)
    ensures
        json_model(r) == JsonModel::Array(status_names(statuses@)),
{
    let mut out: Vec<serde_json::Value> = Vec::new();
    let mut i: usize = 0;
    while i < statuses.len()
        invariant
            i <= statuses.len(),
            out@.len() == i,
            forall|j: int|
                0 <= j < i ==> json_model(#[trigger] out@[j]) == JsonModel::Text(
                    statuses@[j].wire_name(),
                ),
        decreases statuses.len() - i,
    {
        out.push(statuses[i].to_json());
        i += 1;
    }
    assert(json_models(out@) =~= status_names(statuses@));
    json_array(out)
}

/// An optional text as a document: `null` where there is none.
pub open spec fn text_or_null(s: Option<String>) -> JsonModel {
    match s {
        Some(s) => JsonModel::Text(s@),
        None => JsonModel::Null,
    }
}

fn text_or_null_json(s: &Option<String>) -> (r: serde_json::Value)
    ensures
        json_model(r) == text_or_null(*s),
{
    match s {
        Some(s) => json_string(s.clone()),
        None => json_null(),
    }
}

/// A value of a tagged kind: the tag under `type`, what it holds under
/// `data`.
pub open spec fn tagged(tag: Seq<char>, data: Map<Seq<char>, JsonModel>) -> JsonModel {
    JsonModel::Object(
        no_members().insert("type"@, JsonModel::Text(tag)).insert("data"@, JsonModel::Object(data)),
    )
}

fn tagged_json(tag: &str, data: crate::json::JsonMembers) -> (r: serde_json::Value)
    ensures
        json_model(r) == tagged(tag@, crate::json::json_members(data)),
{
    let mut members = members_new();
    put_text(&mut members, "type", tag);
    members_insert(&mut members, "data".to_owned(), json_object(data));
    json_object(members)
}

impl FilePart {
    pub open spec fn encoding(&self) -> JsonModel {
        JsonModel::Object(
            with_optional(
                no_members().insert("name"@, text_or_null(self.name)).insert(
                    "mime_type"@,
                    text_or_null(self.mime_type),
                ).insert("uri"@, text_or_null(self.uri)),
                "bytes"@,
                optional_text(self.bytes),
            ),
        )
    }

    pub fn to_json(&self) -> (r: serde_json::Value)
        ensures
            json_model(r) == self.encoding(),
    {
        let mut members = members_new();
        members_insert(&mut members, "name".to_owned(), text_or_null_json(&self.name));
        members_insert(&mut members, "mime_type".to_owned(), text_or_null_json(&self.mime_type));
        members_insert(&mut members, "uri".to_owned(), text_or_null_json(&self.uri));
        put_optional_text(&mut members, "bytes", &self.bytes);
        json_object(members)
    }
}

impl ToolUsePart {
    pub open spec fn encoding(&self) -> JsonModel {
        JsonModel::Object(
            no_members().insert("id"@, JsonModel::Text(self.id@)).insert(
                "name"@,
                JsonModel::Text(self.name@),
            ).insert("input"@, json_model(self.input)),
        )
    }

    pub fn to_json(&self) -> (r: serde_json::Value)
        ensures
            json_model(r) == self.encoding(),
    {
        let mut members = members_new();
        put_text(&mut members, "id", self.id.as_str());
        put_text(&mut members, "name", self.name.as_str());
        members_insert(&mut members, "input".to_owned(), self.input.clone());
        json_object(members)
    }
}

impl ToolResultContent {
    pub open spec fn encoding(&self) -> JsonModel {
        match *self {
            ToolResultContent::Text { text } => tagged(
                "Text"@,
                no_members().insert("text"@, JsonModel::Text(text@)),
            ),
            ToolResultContent::Image { data, mime_type } => tagged(
                "Image"@,
                no_members().insert("data"@, JsonModel::Text(data@)).insert(
                    "mime_type"@,
                    JsonModel::Text(mime_type@),
                ),
            ),
            ToolResultContent::Resource { uri } => tagged(
                "Resource"@,
                no_members().insert("uri"@, JsonModel::Text(uri@)),
            ),
        }
    }

    pub fn to_json(&self) -> (r: serde_json::Value)
        ensures
            json_model(r) == self.encoding(),
    {
        let mut data = members_new();
        match self {
            ToolResultContent::Text { text } => {
                put_text(&mut data, "text", text.as_str());
                tagged_json("Text", data)
            },
            ToolResultContent::Image { data: image, mime_type } => {
                put_text(&mut data, "data", image.as_str());
                put_text(&mut data, "mime_type", mime_type.as_str());
                tagged_json("Image", data)
            },
            ToolResultContent::Resource { uri } => {
                put_text(&mut data, "uri", uri.as_str());
                tagged_json("Resource", data)
            },
        }
    }
}

impl ToolResultPart {
    pub open spec fn encoding(&self) -> JsonModel {
        JsonModel::Object(
            with_optional(
                no_members().insert("tool_use_id"@, JsonModel::Text(self.tool_use_id@)).insert(
                    "content"@,
                    self.content.encoding(),
                ),
                "is_error"@,
                optional_flag(self.is_error),
            ),
        )
    }

    pub fn to_json(&self) -> (r: serde_json::Value)
        ensures
            json_model(r) == self.encoding(),
    {
        let mut members = members_new();
        put_text(&mut members, "tool_use_id", self.tool_use_id.as_str());
        members_insert(&mut members, "content".to_owned(), self.content.to_json());
        put_optional_bool(&mut members, "is_error", self.is_error);
        json_object(members)
    }
}

impl MessagePart {
    pub open spec fn encoding(&self) -> JsonModel {
        match *self {
            MessagePart::Text { text } => tagged(
                "Text"@,
                no_members().insert("text"@, JsonModel::Text(text@)),
            ),
            MessagePart::File { file } => tagged(
                "File"@,
                no_members().insert("file"@, file.encoding()),
            ),
            MessagePart::ToolUse { tool_use } => tagged(
                "ToolUse"@,
                no_members().insert("tool_use"@, tool_use.encoding()),
            ),
            MessagePart::ToolResult { tool_result } => tagged(
                "ToolResult"@,
                no_members().insert("tool_result"@, tool_result.encoding()),
            ),
        }
    }

    pub fn to_json(&self) -> (r: serde_json::Value)
        ensures
            json_model(r) == self.encoding(),
    {
        let mut data = members_new();
        match self {
            MessagePart::Text { text } => {
                put_text(&mut data, "text", text.as_str());
                tagged_json("Text", data)
            },
            MessagePart::File { file } => {
                members_insert(&mut data, "file".to_owned(), file.to_json());
                tagged_json("File", data)
            },
            MessagePart::ToolUse { tool_use } => {
                members_insert(&mut data, "tool_use".to_owned(), tool_use.to_json());
                tagged_json("ToolUse", data)
            },
            MessagePart::ToolResult { tool_result } => {
                members_insert(&mut data, "tool_result".to_owned(), tool_result.to_json());
                tagged_json("ToolResult", data)
            },
        }
    }
}

/// The documents of parts, one for one.
pub open spec fn part_encodings(parts: Seq<MessagePart>) -> Seq<JsonModel> {
    Seq::new(parts.len(), |i: int| parts[i].encoding())
}

fn parts_to_json(parts: &Vec<MessagePart>) -> (r: serde_json::Value)
    ensures
        json_model(r) == JsonModel::Array(part_encodings(parts@)),
{
    let mut out: Vec<serde_json::Value> = Vec::new();
    let mut i: usize = 0;
    while i < parts.len()
        invariant
            i <= parts.len(),
            out@.len() == i,
            forall|j: int| 0 <= j < i ==> json_model(#[trigger] out@[j]) == parts@[j].encoding(),
        decreases parts.len() - i,
    {
        out.push(parts[i].to_json());
        i += 1;
    }
    assert(json_models(out@) =~= part_encodings(parts@));
    json_array(out)
}

impl AgentMessage {
    pub open spec fn encoding(&self) -> JsonModel {
        JsonModel::Object(
            with_optional(
                no_members().insert("role"@, JsonModel::Text(self.role.wire_name())).insert(
                    "parts"@,
                    JsonModel::Array(part_encodings(self.parts@)),
                ),
                "metadata"@,
                optional_model(self.metadata),
            ),
        )
    }

    pub fn to_json(&self) -> (r: serde_json::Value)
        ensures
            json_model(r) == self.encoding(),
    {
        let mut members = members_new();
        put_text(&mut members, "role", self.role.name());
        members_insert(&mut members, "parts".to_owned(), parts_to_json(&self.parts));
        put_optional(&mut members, "metadata", clone_optional(&self.metadata));
        json_object(members)
    }
}

/// The document of an optional message.
pub open spec fn optional_message(message: Option<AgentMessage>) -> Option<JsonModel> {
    match message {
        Some(m) => Some(m.encoding()),
        None => None,
    }
}

impl StateTransition {
    pub open spec fn encoding(&self) -> JsonModel {
        JsonModel::Object(
            with_optional(
                no_members().insert("from"@, JsonModel::Text(self.from.wire_name())).insert(
                    "to"@,
                    JsonModel::Text(self.to.wire_name()),
                ).insert("timestamp"@, JsonModel::Text(self.timestamp@)),
                "message"@,
                optional_message(self.message),
            ),
        )
    }

    pub fn to_json(&self) -> (r: serde_json::Value)
        ensures
            json_model(r) == self.encoding(),
    {
        let mut members = members_new();
        put_text(&mut members, "from", self.from.name());
        put_text(&mut members, "to", self.to.name());
        put_text(&mut members, "timestamp", self.timestamp.as_str());
        match &self.message {
            Some(m) => {
                members_insert(&mut members, "message".to_owned(), m.to_json());
            },
            None => {},
        }
        json_object(members)
    }
}

/// The documents of transitions, one for one.
pub open spec fn transition_encodings(history: Seq<StateTransition>) -> Seq<JsonModel> {
    Seq::new(history.len(), |i: int| history[i].encoding())
}

fn history_to_json(history: &Vec<StateTransition>) -> (r: serde_json::Value)
    ensures
        json_model(r) == JsonModel::Array(transition_encodings(history@)),
{
    let mut out: Vec<serde_json::Value> = Vec::new();
    let mut i: usize = 0;
    while i < history.len()
        invariant
            i <= history.len(),
            out@.len() == i,
            forall|j: int| 0 <= j < i ==> json_model(#[trigger] out@[j]) == history@[j].encoding(),
        decreases history.len() - i,
    {
        out.push(history[i].to_json());
        i += 1;
    }
    assert(json_models(out@) =~= transition_encodings(history@));
    json_array(out)
}

impl<'a> TaskReport<'a> {
    /// The document of a report: the identifier and the status of the
    /// task, its message where it is reported, and its history.
    pub open spec fn encoding(&self) -> JsonModel {
        JsonModel::Object(
            with_optional(
                no_members().insert("id"@, JsonModel::Text(self.id@)).insert(
                    "status"@,
                    JsonModel::Text(self.status.wire_name()),
                ),
                "message"@,
                match self.message {
                    Some(m) => Some(m.encoding()),
                    None => None,
                },
            ).insert("history"@, JsonModel::Array(transition_encodings(self.history@))),
        )
    }

    pub fn to_json(&self) -> (r: serde_json::Value)
        ensures
            json_model(r) == self.encoding(),
    {
        let mut members = members_new();
        put_text(&mut members, "id", self.id);
        put_text(&mut members, "status", self.status.name());
        match self.message {
            Some(m) => {
                members_insert(&mut members, "message".to_owned(), m.to_json());
            },
            None => {},
        }
        members_insert(&mut members, "history".to_owned(), history_to_json(self.history));
        json_object(members)
    }
}

impl ErrorMessage {
    pub open spec fn encoding(&self) -> JsonModel {
        JsonModel::Object(
            with_optional(
                no_members().insert("code"@, JsonModel::Int(self.code as int)).insert(
                    "message"@,
                    JsonModel::Text(self.message@),
                ),
                "data"@,
                optional_model(self.data),
            ),
        )
    }

    pub fn to_json(&self) -> (r: serde_json::Value)
        ensures
            json_model(r) == self.encoding(),
    {
        let mut members = members_new();
        members_insert(&mut members, "code".to_owned(), json_i64(self.code as i64));
        put_text(&mut members, "message", self.message.as_str());
        put_optional(&mut members, "data", clone_optional(&self.data));
        json_object(members)
    }
}

impl A2ARequest {
    pub open spec fn encoding(&self) -> JsonModel {
        JsonModel::Object(
            with_optional(
                no_members().insert("jsonrpc"@, JsonModel::Text(self.jsonrpc@)).insert(
                    "id"@,
                    json_model(self.id),
                ).insert("method"@, JsonModel::Text(self.method@)),
                "params"@,
                optional_model(self.params),
            ),
        )
    }

    pub fn to_json(&self) -> (r: serde_json::Value)
        ensures
            json_model(r) == self.encoding(),
    {
        let mut members = members_new();
        put_text(&mut members, "jsonrpc", self.jsonrpc.as_str());
        members_insert(&mut members, "id".to_owned(), self.id.clone());
        put_text(&mut members, "method", self.method.as_str());
        put_optional(&mut members, "params", clone_optional(&self.params));
        json_object(members)
    }
}

impl A2AResponse {
    pub open spec fn encoding(&self) -> JsonModel {
        JsonModel::Object(
            with_optional(
                with_optional(
                    no_members().insert("jsonrpc"@, JsonModel::Text(self.jsonrpc@)).insert(
                        "id"@,
                        json_model(self.id),
                    ),
                    "result"@,
                    optional_model(self.result),
                ),
                "error"@,
                match self.error {
                    Some(e) => Some(e.encoding()),
                    None => None,
                },
            ),
        )
    }

    pub fn to_json(&self) -> (r: serde_json::Value)
        ensures
            json_model(r) == self.encoding(),
    {
        let mut members = members_new();
        put_text(&mut members, "jsonrpc", self.jsonrpc.as_str());
        members_insert(&mut members, "id".to_owned(), self.id.clone());
        put_optional(&mut members, "result", clone_optional(&self.result));
        match &self.error {
            Some(e) => {
                members_insert(&mut members, "error".to_owned(), e.to_json());
            },
            None => {},
        }
        json_object(members)
    }
}

impl A2ANotification {
    pub open spec fn encoding(&self) -> JsonModel {
        JsonModel::Object(
            with_optional(
                no_members().insert("jsonrpc"@, JsonModel::Text(self.jsonrpc@)).insert(
                    "method"@,
                    JsonModel::Text(self.method@),
                ),
                "params"@,
                optional_model(self.params),
            ),
        )
    }

    pub fn to_json(&self) -> (r: serde_json::Value)
        ensures
            json_model(r) == self.encoding(),
    {
        let mut members = members_new();
        put_text(&mut members, "jsonrpc", self.jsonrpc.as_str());
        put_text(&mut members, "method", self.method.as_str());
        put_optional(&mut members, "params", clone_optional(&self.params));
        json_object(members)
    }
}

impl ToolsCapability {
    pub open spec fn encoding(&self) -> JsonModel {
        JsonModel::Object(with_optional(no_members(), "list_changed"@, optional_flag(self.list_changed)))
    }

    pub fn to_json(&self) -> (r: serde_json::Value)
        ensures
            json_model(r) == self.encoding(),
    {
        let mut members = members_new();
        put_optional_bool(&mut members, "list_changed", self.list_changed);
        json_object(members)
    }
}

impl AgentCapabilities {
    pub open spec fn encoding(&self) -> JsonModel {
        JsonModel::Object(
            with_optional(
                with_optional(
                    with_optional(
                        with_optional(
                            with_optional(
                                with_optional(
                                    no_members(),
                                    "streaming"@,
                                    optional_flag(self.streaming),
                                ),
                                "push_notifications"@,
                                optional_flag(self.push_notifications),
                            ),
                            "state_transition_history"@,
                            optional_flag(self.state_transition_history),
                        ),
                        "file_uploads"@,
                        optional_flag(self.file_uploads),
                    ),
                    "image_upload"@,
                    optional_flag(self.image_upload),
                ),
                "tools"@,
                match self.tools {
                    Some(t) => Some(t.encoding()),
                    None => None,
                },
            ),
        )
    }

    pub fn to_json(&self) -> (r: serde_json::Value)
        ensures
            json_model(r) == self.encoding(),
    {
        let mut members = members_new();
        put_optional_bool(&mut members, "streaming", self.streaming);
        put_optional_bool(&mut members, "push_notifications", self.push_notifications);
        put_optional_bool(
            &mut members,
            "state_transition_history",
            self.state_transition_history,
        );
        put_optional_bool(&mut members, "file_uploads", self.file_uploads);
        put_optional_bool(&mut members, "image_upload", self.image_upload);
        match &self.tools {
            Some(t) => {
                members_insert(&mut members, "tools".to_owned(), t.to_json());
            },
            None => {},
        }
        json_object(members)
    }
}

impl ProviderInfo {
    pub open spec fn encoding(&self) -> JsonModel {
        JsonModel::Object(
            with_optional(
                with_optional(
                    no_members().insert("organization"@, JsonModel::Text(self.organization@)).insert(
                        "provider"@,
                        JsonModel::Text(self.provider@),
                    ),
                    "model"@,
                    optional_text(self.model),
                ),
                "version"@,
                optional_text(self.version),
            ),
        )
    }

    pub fn to_json(&self) -> (r: serde_json::Value)
        ensures
            json_model(r) == self.encoding(),
    {
        let mut members = members_new();
        put_text(&mut members, "organization", self.organization.as_str());
        put_text(&mut members, "provider", self.provider.as_str());
        put_optional_text(&mut members, "model", &self.model);
        put_optional_text(&mut members, "version", &self.version);
        json_object(members)
    }
}

/// Texts as documents, one for one.
pub open spec fn text_documents(texts: Seq<String>) -> Seq<JsonModel> {
    Seq::new(texts.len(), |i: int| JsonModel::Text(texts[i]@))
}

fn texts_to_json(texts: &Vec<String>) -> (r: serde_json::Value)
    ensures
        json_model(r) == JsonModel::Array(text_documents(texts@)),
{
    let mut out: Vec<serde_json::Value> = Vec::new();
    let mut i: usize = 0;
    while i < texts.len()
        invariant
            i <= texts.len(),
            out@.len() == i,
            forall|j: int|
                0 <= j < i ==> json_model(#[trigger] out@[j]) == JsonModel::Text(texts@[j]@),
        decreases texts.len() - i,
    {
        out.push(json_string(texts[i].clone()));
        i += 1;
    }
    assert(json_models(out@) =~= text_documents(texts@));
    json_array(out)
}

impl AuthenticationRequirements {
    pub open spec fn encoding(&self) -> JsonModel {
        JsonModel::Object(
            with_optional(
                with_optional(
                    with_optional(no_members(), "required"@, optional_flag(self.required)),
                    "schemes"@,
                    match self.schemes {
                        Some(s) => Some(JsonModel::Array(scheme_names(s@))),
                        None => None,
                    },
                ),
                "credentials"@,
                match self.credentials {
                    Some(c) => Some(JsonModel::Array(text_documents(c@))),
                    None => None,
                },
            ),
        )
    }

    pub fn to_json(&self) -> (r: serde_json::Value)
        ensures
            json_model(r) == self.encoding(),
    {
        let mut members = members_new();
        put_optional_bool(&mut members, "required", self.required);
        match &self.schemes {
            Some(s) => {
                members_insert(&mut members, "schemes".to_owned(), schemes_to_json(s));
            },
            None => {},
        }
        match &self.credentials {
            Some(c) => {
                members_insert(&mut members, "credentials".to_owned(), texts_to_json(c));
            },
            None => {},
        }
        json_object(members)
    }
}

impl AgentCard {
    /// The document of a card. A card without a description, or without a
    /// provider, says `null` in its place.
    pub open spec fn encoding(&self) -> JsonModel {
        JsonModel::Object(
            no_members().insert("name"@, JsonModel::Text(self.name@)).insert(
                "version"@,
                JsonModel::Text(self.version@),
            ).insert("description"@, text_or_null(self.description)).insert(
                "capabilities"@,
                self.capabilities.encoding(),
            ).insert(
                "provider"@,
                match self.provider {
                    Some(p) => p.encoding(),
                    None => JsonModel::Null,
                },
            ).insert("authentication"@, self.authentication.encoding()).insert(
                "endpoint"@,
                JsonModel::Text(self.endpoint@),
            ),
        )
    }

    pub fn to_json(&self) -> (r: serde_json::Value)
        ensures
            json_model(r) == self.encoding(),
    {
        let mut members = members_new();
        put_text(&mut members, "name", self.name.as_str());
        put_text(&mut members, "version", self.version.as_str());
        members_insert(&mut members, "description".to_owned(), text_or_null_json(&self.description));
        members_insert(&mut members, "capabilities".to_owned(), self.capabilities.to_json());
        members_insert(
            &mut members,
            "provider".to_owned(),
            match &self.provider {
                Some(p) => p.to_json(),
                None => json_null(),
            },
        );
        members_insert(&mut members, "authentication".to_owned(), self.authentication.to_json());
        put_text(&mut members, "endpoint", self.endpoint.as_str());
        json_object(members)
    }
}

impl MessageRole {
    /// The role that a name stands for.
    pub open spec fn named(name: Seq<char>) -> Option<MessageRole> {
        if name == "user"@ {
            Some(MessageRole::User)
        } else if name == "agent"@ {
            Some(MessageRole::Agent)
        } else {
            None
        }
    }

    pub fn from_name(name: &str) -> (r: Option<MessageRole>)
        ensures
            r == Self::named(name@),
    {
        if str_eq(name, "user") {
            Some(MessageRole::User)
        } else if str_eq(name, "agent") {
            Some(MessageRole::Agent)
        } else {
            None
        }
    }
}

/// What a value of a tagged kind holds under `data`, where its tag is the
/// one asked for.
pub open spec fn tagged_data(m: JsonModel, tag: Seq<char>) -> Option<JsonModel> {
    if text_member(m, "type"@) == Some(tag) {
        member(m, "data"@)
    } else {
        None
    }
}

impl FilePart {
    pub open spec fn decodable(m: JsonModel) -> bool {
        &&& m is Object
        &&& optional_text_member(m, "name"@) is Ok
        &&& optional_text_member(m, "mime_type"@) is Ok
        &&& optional_text_member(m, "uri"@) is Ok
        &&& optional_text_member(m, "bytes"@) is Ok
    }

    pub open spec fn decoded_from(&self, m: JsonModel) -> bool {
        &&& optional_text_member(m, "name"@) == Ok::<Option<Seq<char>>, ()>(text_view(self.name))
        &&& optional_text_member(m, "mime_type"@) == Ok::<Option<Seq<char>>, ()>(
            text_view(self.mime_type),
        )
        &&& optional_text_member(m, "uri"@) == Ok::<Option<Seq<char>>, ()>(text_view(self.uri))
        &&& optional_text_member(m, "bytes"@) == Ok::<Option<Seq<char>>, ()>(text_view(self.bytes))
    }

    pub fn from_json(v: &serde_json::Value) -> (r: Option<Self>)
        ensures
            match r {
                Some(c) => Self::decodable(json_model(*v)) && c.decoded_from(json_model(*v)),
                None => !Self::decodable(json_model(*v)),
            },
    {
        if !json_is_object(v) {
            return None;
        }
        let name = match get_optional_text(v, "name") {
            Ok(s) => s,
            Err(_) => {
                return None;
            },
        };
        let mime_type = match get_optional_text(v, "mime_type") {
            Ok(s) => s,
            Err(_) => {
                return None;
            },
        };
        let uri = match get_optional_text(v, "uri") {
            Ok(s) => s,
            Err(_) => {
                return None;
            },
        };
        match get_optional_text(v, "bytes") {
            Ok(bytes) => Some(Self { name, mime_type, uri, bytes }),
            Err(_) => None,
        }
    }
}

impl ToolUsePart {
    pub open spec fn decodable(m: JsonModel) -> bool {
        &&& text_member(m, "id"@) is Some
        &&& text_member(m, "name"@) is Some
        &&& member(m, "input"@) is Some
    }

    pub open spec fn decoded_from(&self, m: JsonModel) -> bool {
        &&& text_member(m, "id"@) == Some(self.id@)
        &&& text_member(m, "name"@) == Some(self.name@)
        &&& member(m, "input"@) == Some(json_model(self.input))
    }

    pub fn from_json(v: &serde_json::Value) -> (r: Option<Self>)
        ensures
            match r {
                Some(c) => Self::decodable(json_model(*v)) && c.decoded_from(json_model(*v)),
                None => !Self::decodable(json_model(*v)),
            },
    {
        let id = match get_text(v, "id") {
            Some(s) => s,
            None => {
                return None;
            },
        };
        let name = match get_text(v, "name") {
            Some(s) => s,
            None => {
                return None;
            },
        };
        match json_get(v, "input") {
            Some(input) => Some(Self { id, name, input: input.clone() }),
            None => None,
        }
    }
}

impl ToolResultContent {
    pub open spec fn decodable(m: JsonModel) -> bool {
        ||| tagged_data(m, "Text"@) matches Some(d) && text_member(d, "text"@) is Some
        ||| tagged_data(m, "Image"@) matches Some(d) && text_member(d, "data"@) is Some
            && text_member(d, "mime_type"@) is Some
        ||| tagged_data(m, "Resource"@) matches Some(d) && text_member(d, "uri"@) is Some
    }

    pub open spec fn decoded_from(&self, m: JsonModel) -> bool {
        match *self {
            ToolResultContent::Text { text } => tagged_data(m, "Text"@) matches Some(d)
                && text_member(d, "text"@) == Some(text@),
            ToolResultContent::Image { data, mime_type } => tagged_data(m, "Image"@) matches Some(d)
                && text_member(d, "data"@) == Some(data@) && text_member(d, "mime_type"@) == Some(
                mime_type@,
            ),
            ToolResultContent::Resource { uri } => tagged_data(m, "Resource"@) matches Some(d)
                && text_member(d, "uri"@) == Some(uri@),
        }
    }

    pub fn from_json(v: &serde_json::Value) -> (r: Option<Self>)
        ensures
            match r {
                Some(c) => Self::decodable(json_model(*v)) && c.decoded_from(json_model(*v)),
                None => !Self::decodable(json_model(*v)),
            },
    {
        proof {
            reveal_strlit("Text");
            reveal_strlit("Image");
            reveal_strlit("Resource");
            assert("Text"@.len() != "Image"@.len());
            assert("Text"@.len() != "Resource"@.len());
            assert("Image"@.len() != "Resource"@.len());
        }
        let tag = match get_text(v, "type") {
            Some(t) => t,
            None => {
                return None;
            },
        };
        let d = match json_get(v, "data") {
            Some(d) => d,
            None => {
                return None;
            },
        };
        if str_eq(tag.as_str(), "Text") {
            match get_text(d, "text") {
                Some(text) => Some(ToolResultContent::Text { text }),
                None => None,
            }
        } else if str_eq(tag.as_str(), "Image") {
            let data = match get_text(d, "data") {
                Some(s) => s,
                None => {
                    return None;
                },
            };
            match get_text(d, "mime_type") {
                Some(mime_type) => Some(ToolResultContent::Image { data, mime_type }),
                None => None,
            }
        } else if str_eq(tag.as_str(), "Resource") {
            match get_text(d, "uri") {
                Some(uri) => Some(ToolResultContent::Resource { uri }),
                None => None,
            }
        } else {
            None
        }
    }
}

impl ToolResultPart {
    pub open spec fn decodable(m: JsonModel) -> bool {
        &&& text_member(m, "tool_use_id"@) is Some
        &&& member(m, "content"@) matches Some(c) && ToolResultContent::decodable(c)
        &&& optional_bool_member(m, "is_error"@) is Ok
    }

    pub open spec fn decoded_from(&self, m: JsonModel) -> bool {
        &&& text_member(m, "tool_use_id"@) == Some(self.tool_use_id@)
        &&& member(m, "content"@) matches Some(c) && self.content.decoded_from(c)
        &&& optional_bool_member(m, "is_error"@) == Ok::<Option<bool>, ()>(self.is_error)
    }

    pub fn from_json(v: &serde_json::Value) -> (r: Option<Self>)
        ensures
            match r {
                Some(c) => Self::decodable(json_model(*v)) && c.decoded_from(json_model(*v)),
                None => !Self::decodable(json_model(*v)),
            },
    {
        let tool_use_id = match get_text(v, "tool_use_id") {
            Some(s) => s,
            None => {
                return None;
            },
        };
        let content = match json_get(v, "content") {
            Some(c) => match ToolResultContent::from_json(c) {
                Some(content) => content,
                None => {
                    return None;
                },
            },
            None => {
                return None;
            },
        };
        match get_optional_bool(v, "is_error") {
            Ok(is_error) => Some(Self { tool_use_id, content, is_error }),
            Err(_) => None,
        }
    }
}

impl MessagePart {
    pub open spec fn decodable(m: JsonModel) -> bool {
        ||| tagged_data(m, "Text"@) matches Some(d) && text_member(d, "text"@) is Some
        ||| tagged_data(m, "File"@) matches Some(d) && member(d, "file"@) matches Some(f)
            && FilePart::decodable(f)
        ||| tagged_data(m, "ToolUse"@) matches Some(d) && member(d, "tool_use"@) matches Some(t)
            && ToolUsePart::decodable(t)
        ||| tagged_data(m, "ToolResult"@) matches Some(d) && member(d, "tool_result"@) matches Some(
            t,
        ) && ToolResultPart::decodable(t)
    }

    pub open spec fn decoded_from(&self, m: JsonModel) -> bool {
        match *self {
            MessagePart::Text { text } => tagged_data(m, "Text"@) matches Some(d) && text_member(
                d,
                "text"@,
            ) == Some(text@),
            MessagePart::File { file } => tagged_data(m, "File"@) matches Some(d) && member(
                d,
                "file"@,
            ) matches Some(f) && file.decoded_from(f),
            MessagePart::ToolUse { tool_use } => tagged_data(m, "ToolUse"@) matches Some(d)
                && member(d, "tool_use"@) matches Some(t) && tool_use.decoded_from(t),
            MessagePart::ToolResult { tool_result } => tagged_data(m, "ToolResult"@) matches Some(d)
                && member(d, "tool_result"@) matches Some(t) && tool_result.decoded_from(t),
        }
    }

    pub fn from_json(v: &serde_json::Value) -> (r: Option<Self>)
        ensures
            match r {
                Some(c) => Self::decodable(json_model(*v)) && c.decoded_from(json_model(*v)),
                None => !Self::decodable(json_model(*v)),
            },
    {
        proof {
            reveal_strlit("Text");
            reveal_strlit("File");
            reveal_strlit("ToolUse");
            reveal_strlit("ToolResult");
            assert("Text"@[0] != "File"@[0]);
            assert("Text"@.len() != "ToolUse"@.len());
            assert("Text"@.len() != "ToolResult"@.len());
            assert("File"@.len() != "ToolUse"@.len());
            assert("File"@.len() != "ToolResult"@.len());
            assert("ToolUse"@.len() != "ToolResult"@.len());
        }
        let tag = match get_text(v, "type") {
            Some(t) => t,
            None => {
                return None;
            },
        };
        let d = match json_get(v, "data") {
            Some(d) => d,
            None => {
                return None;
            },
        };
        if str_eq(tag.as_str(), "Text") {
            match get_text(d, "text") {
                Some(text) => Some(MessagePart::Text { text }),
                None => None,
            }
        } else if str_eq(tag.as_str(), "File") {
            match json_get(d, "file") {
                Some(f) => match FilePart::from_json(f) {
                    Some(file) => Some(MessagePart::File { file }),
                    None => None,
                },
                None => None,
            }
        } else if str_eq(tag.as_str(), "ToolUse") {
            match json_get(d, "tool_use") {
                Some(t) => match ToolUsePart::from_json(t) {
                    Some(tool_use) => Some(MessagePart::ToolUse { tool_use }),
                    None => None,
                },
                None => None,
            }
        } else if str_eq(tag.as_str(), "ToolResult") {
            match json_get(d, "tool_result") {
                Some(t) => match ToolResultPart::from_json(t) {
                    Some(tool_result) => Some(MessagePart::ToolResult { tool_result }),
                    None => None,
                },
                None => None,
            }
        } else {
            None
        }
    }
}

/// Whether every document of a sequence is a part of a message.
pub open spec fn parts_decodable(items: Seq<JsonModel>) -> bool {
    forall|i: int| 0 <= i < items.len() ==> MessagePart::decodable(#[trigger] items[i])
}

/// Whether the parts are what the documents say, one for one.
pub open spec fn parts_decoded_from(parts: Seq<MessagePart>, items: Seq<JsonModel>) -> bool {
    &&& parts.len() == items.len()
    &&& forall|i: int| 0 <= i < parts.len() ==> (#[trigger] parts[i]).decoded_from(items[i])
}

fn parts_from_json(items: &Vec<serde_json::Value>) -> (r: Option<Vec<MessagePart>>)
    ensures
        match r {
            Some(parts) => parts_decodable(json_models(items@)) && parts_decoded_from(
                parts@,
                json_models(items@),
            ),
            None => !parts_decodable(json_models(items@)),
        },
{
    let ghost models = json_models(items@);
    let mut parts: Vec<MessagePart> = Vec::new();
    let mut i: usize = 0;
    while i < items.len()
        invariant
            i <= items.len(),
            parts@.len() == i,
            models == json_models(items@),
            forall|j: int| 0 <= j < i ==> MessagePart::decodable(#[trigger] models[j]),
            forall|j: int| 0 <= j < i ==> (#[trigger] parts@[j]).decoded_from(models[j]),
        decreases items.len() - i,
    {
        match MessagePart::from_json(&items[i]) {
            Some(part) => parts.push(part),
            None => {
                assert(!MessagePart::decodable(models[i as int]));
                return None;
            },
        }
        i += 1;
    }
    Some(parts)
}

impl AgentMessage {
    /// Whether a document is a message: it names a role and holds an array
    /// of parts.
    pub open spec fn decodable(m: JsonModel) -> bool {
        &&& text_member(m, "role"@) matches Some(name) && MessageRole::named(name) is Some
        &&& member(m, "parts"@) matches Some(p) && items_of(p) matches Some(items)
            && parts_decodable(items)
    }

    pub open spec fn decoded_from(&self, m: JsonModel) -> bool {
        &&& text_member(m, "role"@) matches Some(name) && MessageRole::named(name) == Some(self.role)
        &&& member(m, "parts"@) matches Some(p) && items_of(p) matches Some(items)
            && parts_decoded_from(self.parts@, items)
        &&& optional_model(self.metadata) == present_member(m, "metadata"@)
    }

    pub fn from_json(v: &serde_json::Value) -> (r: Option<Self>)
        ensures
            match r {
                Some(c) => Self::decodable(json_model(*v)) && c.decoded_from(json_model(*v)),
                None => !Self::decodable(json_model(*v)),
            },
    {
        let role = match get_text(v, "role") {
            Some(name) => match MessageRole::from_name(name.as_str()) {
                Some(role) => role,
                None => {
                    return None;
                },
            },
            None => {
                return None;
            },
        };
        let parts = match json_get(v, "parts") {
            Some(p) => match json_as_array(p) {
                Some(items) => match parts_from_json(items) {
                    Some(parts) => parts,
                    None => {
                        return None;
                    },
                },
                None => {
                    return None;
                },
            },
            None => {
                return None;
            },
        };
        let metadata = match get_present(v, "metadata") {
            Some(d) => Some(d.clone()),
            None => None,
        };
        Some(Self { role, parts, metadata })
    }
}

impl A2ARequest {
    /// Whether a document is a request: it names a version and a method,
    /// and has an `id`.
    pub open spec fn decodable(m: JsonModel) -> bool {
        &&& text_member(m, "jsonrpc"@) is Some
        &&& member(m, "id"@) is Some
        &&& text_member(m, "method"@) is Some
    }

    pub open spec fn decoded_from(&self, m: JsonModel) -> bool {
        &&& text_member(m, "jsonrpc"@) == Some(self.jsonrpc@)
        &&& member(m, "id"@) == Some(json_model(self.id))
        &&& text_member(m, "method"@) == Some(self.method@)
        &&& optional_model(self.params) == present_member(m, "params"@)
    }

    pub fn from_json(v: &serde_json::Value) -> (r: Option<Self>)
        ensures
            match r {
                Some(c) => Self::decodable(json_model(*v)) && c.decoded_from(json_model(*v)),
                None => !Self::decodable(json_model(*v)),
            },
    {
        let jsonrpc = match get_text(v, "jsonrpc") {
            Some(s) => s,
            None => {
                return None;
            },
        };
        let id = match json_get(v, "id") {
            Some(id) => id.clone(),
            None => {
                return None;
            },
        };
        let method = match get_text(v, "method") {
            Some(s) => s,
            None => {
                return None;
            },
        };
        let params = match get_present(v, "params") {
            Some(p) => Some(p.clone()),
            None => None,
        };
        Some(Self { jsonrpc, id, method, params })
    }

    /// Reads a request from the text of a body.
    pub fn parse(body: &str) -> (r: Option<Self>)
        ensures
            match r {
                Some(c) => json_parsed(body@) matches Some(m) && Self::decodable(m)
                    && c.decoded_from(m),
                None => match json_parsed(body@) {
                    Some(m) => !Self::decodable(m),
                    None => true,
                },
            },
    {
        match json_parse(body) {
            Some(v) => Self::from_json(&v),
            None => None,
        }
    }
}

impl AuthScheme {
    /// The scheme that a name stands for.
    pub open spec fn named(name: Seq<char>) -> Option<AuthScheme> {
        if name == "none"@ {
            Some(AuthScheme::NoAuth)
        } else if name == "basic"@ {
            Some(AuthScheme::Basic)
        } else if name == "bearer"@ {
            Some(AuthScheme::Bearer)
        } else if name == "api_key"@ {
            Some(AuthScheme::ApiKey)
        } else if name == "oauth2"@ {
            Some(AuthScheme::OAuth2)
        } else {
            None
        }
    }

    pub fn from_name(name: &str) -> (r: Option<AuthScheme>)
        ensures
            r == Self::named(name@),
    {
        if str_eq(name, "none") {
            Some(AuthScheme::NoAuth)
        } else if str_eq(name, "basic") {
            Some(AuthScheme::Basic)
        } else if str_eq(name, "bearer") {
            Some(AuthScheme::Bearer)
        } else if str_eq(name, "api_key") {
            Some(AuthScheme::ApiKey)
        } else if str_eq(name, "oauth2") {
            Some(AuthScheme::OAuth2)
        } else {
            None
        }
    }
}

/// The scheme that a document names.
pub open spec fn scheme_of(m: JsonModel) -> Option<AuthScheme> {
    match m {
        JsonModel::Text(name) => AuthScheme::named(name),
        _ => None,
    }
}

/// Whether every document of a sequence names a scheme.
pub open spec fn schemes_decodable(items: Seq<JsonModel>) -> bool {
    forall|i: int| 0 <= i < items.len() ==> scheme_of(#[trigger] items[i]) is Some
}

/// Whether the schemes are what the documents name, one for one.
pub open spec fn schemes_decoded_from(schemes: Seq<AuthScheme>, items: Seq<JsonModel>) -> bool {
    &&& schemes.len() == items.len()
    &&& forall|i: int| 0 <= i < schemes.len() ==> scheme_of(items[i]) == Some(#[trigger] schemes[i])
}

fn schemes_from_json(items: &Vec<serde_json::Value>) -> (r: Option<Vec<AuthScheme>>)
    ensures
        match r {
            Some(schemes) => schemes_decodable(json_models(items@)) && schemes_decoded_from(
                schemes@,
                json_models(items@),
            ),
            None => !schemes_decodable(json_models(items@)),
        },
{
    let ghost models = json_models(items@);
    let mut schemes: Vec<AuthScheme> = Vec::new();
    let mut i: usize = 0;
    while i < items.len()
        invariant
            i <= items.len(),
            schemes@.len() == i,
            models == json_models(items@),
            forall|j: int| 0 <= j < i ==> scheme_of(#[trigger] models[j]) is Some,
            forall|j: int| 0 <= j < i ==> scheme_of(models[j]) == Some(#[trigger] schemes@[j]),
        decreases items.len() - i,
    {
        let scheme = match json_as_str(&items[i]) {
            Some(name) => AuthScheme::from_name(name),
            None => None,
        };
        match scheme {
            Some(scheme) => schemes.push(scheme),
            None => {
                assert(scheme_of(models[i as int]) is None);
                return None;
            },
        }
        i += 1;
    }
    Some(schemes)
}

impl ToolsCapability {
    pub open spec fn decodable(m: JsonModel) -> bool {
        m is Object && optional_bool_member(m, "list_changed"@) is Ok
    }

    pub open spec fn decoded_from(&self, m: JsonModel) -> bool {
        optional_bool_member(m, "list_changed"@) == Ok::<Option<bool>, ()>(self.list_changed)
    }

    pub fn from_json(v: &serde_json::Value) -> (r: Option<Self>)
        ensures
            match r {
                Some(c) => Self::decodable(json_model(*v)) && c.decoded_from(json_model(*v)),
                None => !Self::decodable(json_model(*v)),
            },
    {
        if !json_is_object(v) {
            return None;
        }
        match get_optional_bool(v, "list_changed") {
            Ok(list_changed) => Some(Self { list_changed }),
            Err(_) => None,
        }
    }
}

impl AgentCapabilities {
    pub open spec fn decodable(m: JsonModel) -> bool {
        &&& m is Object
        &&& optional_bool_member(m, "streaming"@) is Ok
        &&& optional_bool_member(m, "push_notifications"@) is Ok
        &&& optional_bool_member(m, "state_transition_history"@) is Ok
        &&& optional_bool_member(m, "file_uploads"@) is Ok
        &&& optional_bool_member(m, "image_upload"@) is Ok
        &&& match present_member(m, "tools"@) {
            Some(t) => ToolsCapability::decodable(t),
            None => true,
        }
    }

    pub open spec fn decoded_from(&self, m: JsonModel) -> bool {
        &&& optional_bool_member(m, "streaming"@) == Ok::<Option<bool>, ()>(self.streaming)
        &&& optional_bool_member(m, "push_notifications"@) == Ok::<Option<bool>, ()>(
            self.push_notifications,
        )
        &&& optional_bool_member(m, "state_transition_history"@) == Ok::<Option<bool>, ()>(
            self.state_transition_history,
        )
        &&& optional_bool_member(m, "file_uploads"@) == Ok::<Option<bool>, ()>(self.file_uploads)
        &&& optional_bool_member(m, "image_upload"@) == Ok::<Option<bool>, ()>(self.image_upload)
        &&& match present_member(m, "tools"@) {
            Some(t) => self.tools matches Some(tools) && tools.decoded_from(t),
            None => self.tools is None,
        }
    }

    pub fn from_json(v: &serde_json::Value) -> (r: Option<Self>)
        ensures
            match r {
                Some(c) => Self::decodable(json_model(*v)) && c.decoded_from(json_model(*v)),
                None => !Self::decodable(json_model(*v)),
            },
    {
        if !json_is_object(v) {
            return None;
        }
        let streaming = match get_optional_bool(v, "streaming") {
            Ok(b) => b,
            Err(_) => {
                return None;
            },
        };
        let push_notifications = match get_optional_bool(v, "push_notifications") {
            Ok(b) => b,
            Err(_) => {
                return None;
            },
        };
        let state_transition_history = match get_optional_bool(v, "state_transition_history") {
            Ok(b) => b,
            Err(_) => {
                return None;
            },
        };
        let file_uploads = match get_optional_bool(v, "file_uploads") {
            Ok(b) => b,
            Err(_) => {
                return None;
            },
        };
        let image_upload = match get_optional_bool(v, "image_upload") {
            Ok(b) => b,
            Err(_) => {
                return None;
            },
        };
        let tools = match get_present(v, "tools") {
            Some(t) => match ToolsCapability::from_json(t) {
                Some(tools) => Some(tools),
                None => {
                    return None;
                },
            },
            None => None,
        };
        Some(
            Self {
                streaming,
                push_notifications,
                state_transition_history,
                file_uploads,
                image_upload,
                tools,
            },
        )
    }
}

impl ProviderInfo {
    pub open spec fn decodable(m: JsonModel) -> bool {
        &&& text_member(m, "organization"@) is Some
        &&& text_member(m, "provider"@) is Some
        &&& optional_text_member(m, "model"@) is Ok
        &&& optional_text_member(m, "version"@) is Ok
    }

    pub open spec fn decoded_from(&self, m: JsonModel) -> bool {
        &&& text_member(m, "organization"@) == Some(self.organization@)
        &&& text_member(m, "provider"@) == Some(self.provider@)
        &&& optional_text_member(m, "model"@) == Ok::<Option<Seq<char>>, ()>(text_view(self.model))
        &&& optional_text_member(m, "version"@) == Ok::<Option<Seq<char>>, ()>(
            text_view(self.version),
        )
    }

    pub fn from_json(v: &serde_json::Value) -> (r: Option<Self>)
        ensures
            match r {
                Some(c) => Self::decodable(json_model(*v)) && c.decoded_from(json_model(*v)),
                None => !Self::decodable(json_model(*v)),
            },
    {
        let organization = match get_text(v, "organization") {
            Some(s) => s,
            None => {
                return None;
            },
        };
        let provider = match get_text(v, "provider") {
            Some(s) => s,
            None => {
                return None;
            },
        };
        let model = match get_optional_text(v, "model") {
            Ok(s) => s,
            Err(_) => {
                return None;
            },
        };
        match get_optional_text(v, "version") {
            Ok(version) => Some(Self { organization, provider, model, version }),
            Err(_) => None,
        }
    }
}

impl AuthenticationRequirements {
    pub open spec fn decodable(m: JsonModel) -> bool {
        &&& m is Object
        &&& optional_bool_member(m, "required"@) is Ok
        &&& match present_member(m, "schemes"@) {
            Some(s) => items_of(s) matches Some(items) && schemes_decodable(items),
            None => true,
        }
        &&& match present_member(m, "credentials"@) {
            Some(c) => items_of(c) matches Some(items) && all_texts(items) is Some,
            None => true,
        }
    }

    pub open spec fn decoded_from(&self, m: JsonModel) -> bool {
        &&& optional_bool_member(m, "required"@) == Ok::<Option<bool>, ()>(self.required)
        &&& match present_member(m, "schemes"@) {
            Some(s) => items_of(s) matches Some(items) && self.schemes matches Some(schemes)
                && schemes_decoded_from(schemes@, items),
            None => self.schemes is None,
        }
        &&& match present_member(m, "credentials"@) {
            Some(c) => items_of(c) matches Some(items) && self.credentials matches Some(texts)
                && all_texts(items) == Some(text_views(texts@)),
            None => self.credentials is None,
        }
    }

    pub fn from_json(v: &serde_json::Value) -> (r: Option<Self>)
        ensures
            match r {
                Some(c) => Self::decodable(json_model(*v)) && c.decoded_from(json_model(*v)),
                None => !Self::decodable(json_model(*v)),
            },
    {
        if !json_is_object(v) {
            return None;
        }
        let required = match get_optional_bool(v, "required") {
            Ok(b) => b,
            Err(_) => {
                return None;
            },
        };
        let schemes = match get_present(v, "schemes") {
            Some(s) => match json_as_array(s) {
                Some(items) => match schemes_from_json(items) {
                    Some(schemes) => Some(schemes),
                    None => {
                        return None;
                    },
                },
                None => {
                    return None;
                },
            },
            None => None,
        };
        let credentials = match get_present(v, "credentials") {
            Some(c) => match json_as_array(c) {
                Some(items) => match texts_from_array(items) {
                    Some(texts) => Some(texts),
                    None => {
                        return None;
                    },
                },
                None => {
                    return None;
                },
            },
            None => None,
        };
        Some(Self { required, schemes, credentials })
    }
}

impl AgentCard {
    /// Whether a document is a card: it has a name, a version and an
    /// endpoint, says what the agent can do and what it asks of a caller,
    /// and its description and provider, where it has them, can be read.
    pub open spec fn decodable(m: JsonModel) -> bool {
        &&& text_member(m, "name"@) is Some
        &&& text_member(m, "version"@) is Some
        &&& optional_text_member(m, "description"@) is Ok
        &&& member(m, "capabilities"@) matches Some(c) && AgentCapabilities::decodable(c)
        &&& match present_member(m, "provider"@) {
            Some(p) => ProviderInfo::decodable(p),
            None => true,
        }
        &&& member(m, "authentication"@) matches Some(a) && AuthenticationRequirements::decodable(a)
        &&& text_member(m, "endpoint"@) is Some
    }

    pub open spec fn decoded_from(&self, m: JsonModel) -> bool {
        &&& text_member(m, "name"@) == Some(self.name@)
        &&& text_member(m, "version"@) == Some(self.version@)
        &&& optional_text_member(m, "description"@) == Ok::<Option<Seq<char>>, ()>(
            text_view(self.description),
        )
        &&& member(m, "capabilities"@) matches Some(c) && self.capabilities.decoded_from(c)
        &&& match present_member(m, "provider"@) {
            Some(p) => self.provider matches Some(provider) && provider.decoded_from(p),
            None => self.provider is None,
        }
        &&& member(m, "authentication"@) matches Some(a) && self.authentication.decoded_from(a)
        &&& text_member(m, "endpoint"@) == Some(self.endpoint@)
    }

    pub fn from_json(v: &serde_json::Value) -> (r: Option<Self>)
        ensures
            match r {
                Some(c) => Self::decodable(json_model(*v)) && c.decoded_from(json_model(*v)),
                None => !Self::decodable(json_model(*v)),
            },
    {
        let name = match get_text(v, "name") {
            Some(s) => s,
            None => {
                return None;
            },
        };
        let version = match get_text(v, "version") {
            Some(s) => s,
            None => {
                return None;
            },
        };
        let description = match get_optional_text(v, "description") {
            Ok(s) => s,
            Err(_) => {
                return None;
            },
        };
        let capabilities = match json_get(v, "capabilities") {
            Some(c) => match AgentCapabilities::from_json(c) {
                Some(capabilities) => capabilities,
                None => {
                    return None;
                },
            },
            None => {
                return None;
            },
        };
        let provider = match get_present(v, "provider") {
            Some(p) => match ProviderInfo::from_json(p) {
                Some(provider) => Some(provider),
                None => {
                    return None;
                },
            },
            None => None,
        };
        let authentication = match json_get(v, "authentication") {
            Some(a) => match AuthenticationRequirements::from_json(a) {
                Some(authentication) => authentication,
                None => {
                    return None;
                },
            },
            None => {
                return None;
            },
        };
        match get_text(v, "endpoint") {
            Some(endpoint) => Some(
                Self { name, version, description, capabilities, provider, authentication, endpoint },
            ),
            None => None,
        }
    }

    /// Reads a card from the text of a body.
    pub fn parse(body: &str) -> (r: Option<Self>)
        ensures
            match r {
                Some(c) => json_parsed(body@) matches Some(m) && Self::decodable(m)
                    && c.decoded_from(m),
                None => match json_parsed(body@) {
                    Some(m) => !Self::decodable(m),
                    None => true,
                },
            },
    {
        match json_parse(body) {
            Some(v) => Self::from_json(&v),
            None => None,
        }
    }
}

/// Whether every document of a sequence is a card.
pub open spec fn cards_decodable(items: Seq<JsonModel>) -> bool {
    forall|i: int| 0 <= i < items.len() ==> AgentCard::decodable(#[trigger] items[i])
}

/// Whether the cards are what the documents say, one for one.
pub open spec fn cards_decoded_from(cards: Seq<AgentCard>, items: Seq<JsonModel>) -> bool {
    &&& cards.len() == items.len()
    &&& forall|i: int| 0 <= i < cards.len() ==> (#[trigger] cards[i]).decoded_from(items[i])
}

/// Reads the cards that an endpoint lists: an array of cards. `None` where
/// the body is no JSON, no array, or one of its items is no card.
pub fn parse_cards(body: &str) -> (r: Option<Vec<AgentCard>>)
    ensures
        match r {
            Some(cards) => json_parsed(body@) matches Some(m) && items_of(m) matches Some(items)
                && cards_decodable(items) && cards_decoded_from(cards@, items),
            None => !(json_parsed(body@) matches Some(m) && items_of(m) matches Some(items)
                && cards_decodable(items)),
        },
{
    let document = match json_parse(body) {
        Some(v) => v,
        None => {
            return None;
        },
    };
    let items = match json_as_array(&document) {
        Some(items) => items,
        None => {
            return None;
        },
    };
    let ghost models = json_models(items@);
    let mut cards: Vec<AgentCard> = Vec::new();
    let mut i: usize = 0;
    while i < items.len()
        invariant
            i <= items.len(),
            cards@.len() == i,
            models == json_models(items@),
            json_parsed(body@) matches Some(m) && items_of(m) == Some(models),
            forall|j: int| 0 <= j < i ==> AgentCard::decodable(#[trigger] models[j]),
            forall|j: int| 0 <= j < i ==> (#[trigger] cards@[j]).decoded_from(models[j]),
        decreases items.len() - i,
    {
        match AgentCard::from_json(&items[i]) {
            Some(card) => cards.push(card),
            None => {
                assert(!AgentCard::decodable(models[i as int]));
                return None;
            },
        }
        i += 1;
    }
    Some(cards)
}

} // verus!
