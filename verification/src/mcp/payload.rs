//! The payloads of the protocol on the wire: the results a server sends and
//! the parameters a client sends, each as a JSON document.
use crate::json::{
    json_array, json_i64, json_model, json_object, members_insert, members_new, no_members,
    put_optional_bool, put_optional_text, put_text, with_optional, JsonModel,
};
use crate::mcp::types::{
    ClientCapabilities, ClientInfo, ContentBlock, InitializeRequestParams, InitializeResult,
    ResourceContent, ResourceDefinition, ResourcesCapability, ResourcesListResult,
    ResourcesReadRequestParams, ResourcesReadResult, ResourcesServerCapability,
    ServerCapabilities, ServerInfo, ToolDefinition, ToolsCallRequestParams, ToolsCallResult,
    ToolsCapability, ToolsListResult, ToolsServerCapability,
};
use crate::mcp::wire::{clone_optional, optional_model};
use vstd::prelude::*;

verus! {

/// The content of an optional text.
pub open spec fn optional_text(s: Option<String>) -> Option<JsonModel> {
    match s {
        Some(s) => Some(JsonModel::Text(s@)),
        None => None,
    }
}

/// The content of an optional flag.
pub open spec fn optional_flag(b: Option<bool>) -> Option<JsonModel> {
    match b {
        Some(b) => Some(JsonModel::Bool(b)),
        None => None,
    }
}

impl ToolsCapability {
    pub open spec fn encoding(&self) -> JsonModel {
        JsonModel::Object(
            with_optional(no_members(), "list_changed"@, optional_flag(self.list_changed)),
        )
    }

    pub fn to_json(&self) -> (r: serde_json::Value)
        ensures
            json_model(r) == self.encoding(),
    {
        let mut members = members_new();
        put_optional_bool(&mut members, "list_changed", self.list_changed);
        json_object(members)
    }
}

impl ResourcesCapability {
    pub open spec fn encoding(&self) -> JsonModel {
        JsonModel::Object(
            with_optional(
                with_optional(no_members(), "subscribe"@, optional_flag(self.subscribe)),
                "list_changed"@,
                optional_flag(self.list_changed),
            ),
        )
    }

    pub fn to_json(&self) -> (r: serde_json::Value)
        ensures
            json_model(r) == self.encoding(),
    {
        let mut members = members_new();
        put_optional_bool(&mut members, "subscribe", self.subscribe);
        put_optional_bool(&mut members, "list_changed", self.list_changed);
        json_object(members)
    }
}

impl ToolsServerCapability {
    pub open spec fn encoding(&self) -> JsonModel {
        JsonModel::Object(
            with_optional(no_members(), "list_changed"@, optional_flag(self.list_changed)),
        )
    }

    pub fn to_json(&self) -> (r: serde_json::Value)
        ensures
            json_model(r) == self.encoding(),
    {
        let mut members = members_new();
        put_optional_bool(&mut members, "list_changed", self.list_changed);
        json_object(members)
    }
}

impl ResourcesServerCapability {
    pub open spec fn encoding(&self) -> JsonModel {
        JsonModel::Object(
            with_optional(
                with_optional(no_members(), "subscribe"@, optional_flag(self.subscribe)),
                "list_changed"@,
                optional_flag(self.list_changed),
            ),
        )
    }

    pub fn to_json(&self) -> (r: serde_json::Value)
        ensures
            json_model(r) == self.encoding(),
    {
        let mut members = members_new();
        put_optional_bool(&mut members, "subscribe", self.subscribe);
        put_optional_bool(&mut members, "list_changed", self.list_changed);
        json_object(members)
    }
}


impl ClientCapabilities {
    pub open spec fn encoding(&self) -> JsonModel {
        JsonModel::Object(
            with_optional(
                with_optional(
                    no_members(),
                    "tools"@,
                    match self.tools {
                        Some(t) => Some(t.encoding()),
                        None => None,
                    },
                ),
                "resources"@,
                match self.resources {
                    Some(c) => Some(c.encoding()),
                    None => None,
                },
            ),
        )
    }

    pub fn to_json(&self) -> (r: serde_json::Value)
        ensures
            json_model(r) == self.encoding(),
    {
        let mut members = members_new();
        match &self.tools {
            Some(t) => members_insert(&mut members, "tools".to_owned(), t.to_json()),
            None => {},
        }
        match &self.resources {
            Some(c) => members_insert(&mut members, "resources".to_owned(), c.to_json()),
            None => {},
        }
        json_object(members)
    }
}

impl ServerCapabilities {
    pub open spec fn encoding(&self) -> JsonModel {
        JsonModel::Object(
            with_optional(
                with_optional(
                    no_members(),
                    "tools"@,
                    match self.tools {
                        Some(t) => Some(t.encoding()),
                        None => None,
                    },
                ),
                "resources"@,
                match self.resources {
                    Some(c) => Some(c.encoding()),
                    None => None,
                },
            ),
        )
    }

    pub fn to_json(&self) -> (r: serde_json::Value)
        ensures
            json_model(r) == self.encoding(),
    {
        let mut members = members_new();
        match &self.tools {
            Some(t) => members_insert(&mut members, "tools".to_owned(), t.to_json()),
            None => {},
        }
        match &self.resources {
            Some(c) => members_insert(&mut members, "resources".to_owned(), c.to_json()),
            None => {},
        }
        json_object(members)
    }
}

impl ClientInfo {
    pub open spec fn encoding(&self) -> JsonModel {
        JsonModel::Object(
            no_members().insert("name"@, JsonModel::Text(self.name@)).insert(
                "version"@,
                JsonModel::Text(self.version@),
            ),
        )
    }

    pub fn to_json(&self) -> (r: serde_json::Value)
        ensures
            json_model(r) == self.encoding(),
    {
        let mut members = members_new();
        put_text(&mut members, "name", self.name.as_str());
        put_text(&mut members, "version", self.version.as_str());
        json_object(members)
    }
}

impl ServerInfo {
    pub open spec fn encoding(&self) -> JsonModel {
        JsonModel::Object(
            no_members().insert("name"@, JsonModel::Text(self.name@)).insert(
                "version"@,
                JsonModel::Text(self.version@),
            ),
        )
    }

    pub fn to_json(&self) -> (r: serde_json::Value)
        ensures
            json_model(r) == self.encoding(),
    {
        let mut members = members_new();
        put_text(&mut members, "name", self.name.as_str());
        put_text(&mut members, "version", self.version.as_str());
        json_object(members)
    }
}

impl InitializeRequestParams {
    pub open spec fn encoding(&self) -> JsonModel {
        JsonModel::Object(
            with_optional(no_members(), "protocol_version"@, optional_text(self.protocol_version))
                .insert("capabilities"@, self.capabilities.encoding()).insert(
                "client_info"@,
                self.client_info.encoding(),
            ),
        )
    }

    pub fn to_json(&self) -> (r: serde_json::Value)
        ensures
            json_model(r) == self.encoding(),
    {
        let mut members = members_new();
        put_optional_text(&mut members, "protocol_version", &self.protocol_version);
        members_insert(&mut members, "capabilities".to_owned(), self.capabilities.to_json());
        members_insert(&mut members, "client_info".to_owned(), self.client_info.to_json());
        json_object(members)
    }
}

impl InitializeResult {
    pub open spec fn encoding(&self) -> JsonModel {
        JsonModel::Object(
            no_members().insert("protocol_version"@, JsonModel::Text(self.protocol_version@))
                .insert("capabilities"@, self.capabilities.encoding()).insert(
                "server_info"@,
                self.server_info.encoding(),
            ),
        )
    }

    pub fn to_json(&self) -> (r: serde_json::Value)
        ensures
            json_model(r) == self.encoding(),
    {
        let mut members = members_new();
        put_text(&mut members, "protocol_version", self.protocol_version.as_str());
        members_insert(&mut members, "capabilities".to_owned(), self.capabilities.to_json());
        members_insert(&mut members, "server_info".to_owned(), self.server_info.to_json());
        json_object(members)
    }
}

impl ToolDefinition {
    pub open spec fn encoding(&self) -> JsonModel {
        JsonModel::Object(
            no_members().insert("name"@, JsonModel::Text(self.name@)).insert(
                "description"@,
                JsonModel::Text(self.description@),
            ).insert("input_schema"@, json_model(self.input_schema)),
        )
    }

    pub fn to_json(&self) -> (r: serde_json::Value)
        ensures
            json_model(r) == self.encoding(),
    {
        let mut members = members_new();
        put_text(&mut members, "name", self.name.as_str());
        put_text(&mut members, "description", self.description.as_str());
        members_insert(&mut members, "input_schema".to_owned(), self.input_schema.clone());
        json_object(members)
    }
}

/// The tool definitions of a registry as JSON documents, in registry order.
pub open spec fn tool_encodings(tools: Seq<ToolDefinition>) -> Seq<JsonModel> {
    Seq::new(tools.len(), |i: int| tools[i].encoding())
}

/// Writes the tool definitions of a registry, in registry order.
pub fn tools_to_json(tools: &Vec<ToolDefinition>) -> (r: serde_json::Value)
    ensures
        json_model(r) == JsonModel::Array(tool_encodings(tools@)),
{
    let mut items: Vec<serde_json::Value> = Vec::new();
    let mut i: usize = 0;
    while i < tools.len()
        invariant
            i <= tools.len(),
            items@.len() == i,
            forall|j: int| 0 <= j < i ==> json_model(#[trigger] items@[j]) == tools@[j].encoding(),
        decreases tools.len() - i,
    {
        items.push(tools[i].to_json());
        i += 1;
    }
    let r = json_array(items);
    assert(crate::json::json_models(items@) =~= tool_encodings(tools@));
    r
}

impl ToolsListResult {
    pub open spec fn encoding(&self) -> JsonModel {
        JsonModel::Object(
            with_optional(
                no_members().insert("tools"@, JsonModel::Array(tool_encodings(self.tools@))),
                "next_cursor"@,
                optional_text(self.next_cursor),
            ),
        )
    }

    pub fn to_json(&self) -> (r: serde_json::Value)
        ensures
            json_model(r) == self.encoding(),
    {
        let mut members = members_new();
        members_insert(&mut members, "tools".to_owned(), tools_to_json(&self.tools));
        put_optional_text(&mut members, "next_cursor", &self.next_cursor);
        json_object(members)
    }
}

impl ToolsCallRequestParams {
    pub open spec fn encoding(&self) -> JsonModel {
        JsonModel::Object(
            with_optional(
                no_members().insert("name"@, JsonModel::Text(self.name@)).insert(
                    "arguments"@,
                    json_model(self.arguments),
                ),
                "_meta"@,
                optional_model(self._meta),
            ),
        )
    }

    pub fn to_json(&self) -> (r: serde_json::Value)
        ensures
            json_model(r) == self.encoding(),
    {
        let mut members = members_new();
        put_text(&mut members, "name", self.name.as_str());
        members_insert(&mut members, "arguments".to_owned(), self.arguments.clone());
        crate::json::put_optional(&mut members, "_meta", clone_optional(&self._meta));
        json_object(members)
    }
}

impl ResourcesReadRequestParams {
    pub open spec fn encoding(&self) -> JsonModel {
        JsonModel::Object(
            with_optional(
                no_members().insert("uri"@, JsonModel::Text(self.uri@)),
                "_meta"@,
                optional_model(self._meta),
            ),
        )
    }

    pub fn to_json(&self) -> (r: serde_json::Value)
        ensures
            json_model(r) == self.encoding(),
    {
        let mut members = members_new();
        put_text(&mut members, "uri", self.uri.as_str());
        crate::json::put_optional(&mut members, "_meta", clone_optional(&self._meta));
        json_object(members)
    }
}

impl ResourceContent {
    pub open spec fn encoding(&self) -> JsonModel {
        JsonModel::Object(
            with_optional(
                with_optional(
                    with_optional(
                        no_members().insert("uri"@, JsonModel::Text(self.uri@)),
                        "mime_type"@,
                        optional_text(self.mime_type),
                    ),
                    "text"@,
                    optional_text(self.text),
                ),
                "blob"@,
                optional_text(self.blob),
            ),
        )
    }

    pub fn to_json(&self) -> (r: serde_json::Value)
        ensures
            json_model(r) == self.encoding(),
    {
        let mut members = members_new();
        put_text(&mut members, "uri", self.uri.as_str());
        put_optional_text(&mut members, "mime_type", &self.mime_type);
        put_optional_text(&mut members, "text", &self.text);
        put_optional_text(&mut members, "blob", &self.blob);
        json_object(members)
    }
}

impl ContentBlock {
    /// A block is an object whose `type` names the variant, beside the
    /// variant's own fields.
    pub open spec fn encoding(&self) -> JsonModel {
        match *self {
            ContentBlock::Text { text } => JsonModel::Object(
                no_members().insert("type"@, JsonModel::Text("Text"@)).insert(
                    "text"@,
                    JsonModel::Text(text@),
                ),
            ),
            ContentBlock::Image { data, mime_type } => JsonModel::Object(
                no_members().insert("type"@, JsonModel::Text("Image"@)).insert(
                    "data"@,
                    JsonModel::Text(data@),
                ).insert("mime_type"@, JsonModel::Text(mime_type@)),
            ),
            ContentBlock::Resource { resource } => JsonModel::Object(
                no_members().insert("type"@, JsonModel::Text("Resource"@)).insert(
                    "resource"@,
                    resource.encoding(),
                ),
            ),
        }
    }

    pub fn to_json(&self) -> (r: serde_json::Value)
        ensures
            json_model(r) == self.encoding(),
    {
        let mut members = members_new();
        match self {
            ContentBlock::Text { text } => {
                put_text(&mut members, "type", "Text");
                put_text(&mut members, "text", text.as_str());
            },
            ContentBlock::Image { data, mime_type } => {
                put_text(&mut members, "type", "Image");
                put_text(&mut members, "data", data.as_str());
                put_text(&mut members, "mime_type", mime_type.as_str());
            },
            ContentBlock::Resource { resource } => {
                put_text(&mut members, "type", "Resource");
                members_insert(&mut members, "resource".to_owned(), resource.to_json());
            },
        }
        json_object(members)
    }
}

/// Content blocks as JSON documents, in their order.
pub open spec fn block_encodings(blocks: Seq<ContentBlock>) -> Seq<JsonModel> {
    Seq::new(blocks.len(), |i: int| blocks[i].encoding())
}

/// Writes content blocks, in their order.
pub fn blocks_to_json(blocks: &Vec<ContentBlock>) -> (r: serde_json::Value)
    ensures
        json_model(r) == JsonModel::Array(block_encodings(blocks@)),
{
    let mut items: Vec<serde_json::Value> = Vec::new();
    let mut i: usize = 0;
    while i < blocks.len()
        invariant
            i <= blocks.len(),
            items@.len() == i,
            forall|j: int| 0 <= j < i ==> json_model(#[trigger] items@[j]) == blocks@[j].encoding(),
        decreases blocks.len() - i,
    {
        items.push(blocks[i].to_json());
        i += 1;
    }
    let r = json_array(items);
    assert(crate::json::json_models(items@) =~= block_encodings(blocks@));
    r
}

impl ToolsCallResult {
    pub open spec fn encoding(&self) -> JsonModel {
        JsonModel::Object(
            with_optional(
                no_members().insert("content"@, JsonModel::Array(block_encodings(self.content@))),
                "is_error"@,
                optional_flag(self.is_error),
            ),
        )
    }

    pub fn to_json(&self) -> (r: serde_json::Value)
        ensures
            json_model(r) == self.encoding(),
    {
        let mut members = members_new();
        members_insert(&mut members, "content".to_owned(), blocks_to_json(&self.content));
        put_optional_bool(&mut members, "is_error", self.is_error);
        json_object(members)
    }
}

impl ResourceDefinition {
    pub open spec fn encoding(&self) -> JsonModel {
        JsonModel::Object(
            with_optional(
                with_optional(
                    with_optional(
                        no_members().insert("uri"@, JsonModel::Text(self.uri@)).insert(
                            "name"@,
                            JsonModel::Text(self.name@),
                        ),
                        "description"@,
                        optional_text(self.description),
                    ),
                    "mime_type"@,
                    optional_text(self.mime_type),
                ),
                "size"@,
                match self.size {
                    Some(n) => Some(JsonModel::Int(n as int)),
                    None => None,
                },
            ),
        )
    }

    pub fn to_json(&self) -> (r: serde_json::Value)
        ensures
            json_model(r) == self.encoding(),
    {
        let mut members = members_new();
        put_text(&mut members, "uri", self.uri.as_str());
        put_text(&mut members, "name", self.name.as_str());
        put_optional_text(&mut members, "description", &self.description);
        put_optional_text(&mut members, "mime_type", &self.mime_type);
        match self.size {
            Some(n) => members_insert(&mut members, "size".to_owned(), json_i64(n)),
            None => {},
        }
        json_object(members)
    }
}

/// Resource definitions as JSON documents, in their order.
pub open spec fn resource_encodings(resources: Seq<ResourceDefinition>) -> Seq<JsonModel> {
    Seq::new(resources.len(), |i: int| resources[i].encoding())
}

/// Writes resource definitions, in their order.
pub fn resources_to_json(resources: &Vec<ResourceDefinition>) -> (r: serde_json::Value)
    ensures
        json_model(r) == JsonModel::Array(resource_encodings(resources@)),
{
    let mut items: Vec<serde_json::Value> = Vec::new();
    let mut i: usize = 0;
    while i < resources.len()
        invariant
            i <= resources.len(),
            items@.len() == i,
            forall|j: int|
                0 <= j < i ==> json_model(#[trigger] items@[j]) == resources@[j].encoding(),
        decreases resources.len() - i,
    {
        items.push(resources[i].to_json());
        i += 1;
    }
    let r = json_array(items);
    assert(crate::json::json_models(items@) =~= resource_encodings(resources@));
    r
}

impl ResourcesListResult {
    pub open spec fn encoding(&self) -> JsonModel {
        JsonModel::Object(
            with_optional(
                no_members().insert(
                    "resources"@,
                    JsonModel::Array(resource_encodings(self.resources@)),
                ),
                "next_cursor"@,
                optional_text(self.next_cursor),
            ),
        )
    }

    pub fn to_json(&self) -> (r: serde_json::Value)
        ensures
            json_model(r) == self.encoding(),
    {
        let mut members = members_new();
        members_insert(&mut members, "resources".to_owned(), resources_to_json(&self.resources));
        put_optional_text(&mut members, "next_cursor", &self.next_cursor);
        json_object(members)
    }
}

/// Resource contents as JSON documents, in their order.
pub open spec fn content_encodings(contents: Seq<ResourceContent>) -> Seq<JsonModel> {
    Seq::new(contents.len(), |i: int| contents[i].encoding())
}

/// Writes resource contents, in their order.
pub fn contents_to_json(contents: &Vec<ResourceContent>) -> (r: serde_json::Value)
    ensures
        json_model(r) == JsonModel::Array(content_encodings(contents@)),
{
    let mut items: Vec<serde_json::Value> = Vec::new();
    let mut i: usize = 0;
    while i < contents.len()
        invariant
            i <= contents.len(),
            items@.len() == i,
            forall|j: int|
                0 <= j < i ==> json_model(#[trigger] items@[j]) == contents@[j].encoding(),
        decreases contents.len() - i,
    {
        items.push(contents[i].to_json());
        i += 1;
    }
    let r = json_array(items);
    assert(crate::json::json_models(items@) =~= content_encodings(contents@));
    r
}

impl ResourcesReadResult {
    pub open spec fn encoding(&self) -> JsonModel {
        JsonModel::Object(
            no_members().insert("contents"@, JsonModel::Array(content_encodings(self.contents@))),
        )
    }

    pub fn to_json(&self) -> (r: serde_json::Value)
        ensures
            json_model(r) == self.encoding(),
    {
        let mut members = members_new();
        members_insert(&mut members, "contents".to_owned(), contents_to_json(&self.contents));
        json_object(members)
    }
}

} // verus!
