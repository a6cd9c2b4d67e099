//! How a client reads the results that a server sends.
//!
//! Each type says which documents it can be read from (`decodable`) and what
//! a value read from a document holds (`decoded_from`). Reading succeeds on
//! exactly the decodable documents.
use crate::json::{
    get_optional_bool, get_optional_i64, get_optional_text, get_present, get_text, items_of,
    json_as_array, json_get, json_is_object, json_model, member, optional_bool_member,
    optional_i64_member, optional_text_member, present_member, text_member, text_view, JsonModel,
};
use crate::mcp::types::{
    ContentBlock, InitializeResult, ResourceContent, ResourceDefinition, ResourcesListResult,
    ResourcesReadResult, ResourcesServerCapability, ServerCapabilities, ServerInfo,
    ToolDefinition, ToolsCallResult, ToolsListResult, ToolsServerCapability,
};
use crate::text::str_eq;
use vstd::prelude::*;

verus! {

impl ToolsServerCapability {
    pub open spec fn decodable(m: JsonModel) -> bool {
        m is Object && optional_bool_member(m, "list_changed"@) is Ok
    }

    pub open spec fn decoded_from(&self, m: JsonModel) -> bool {
        optional_bool_member(m, "list_changed"@) == Ok::<Option<bool>, ()>(self.list_changed)
    }

    pub fn from_json(v: &serde_json::Value) -> (r: Option<Self>)
        ensures
            match r {
                Some(c) => Self::decodable(json_model(*v)) && c.decoded_from(json_model(*v)),
                None => !Self::decodable(json_model(*v)),
            },
    {
        if !json_is_object(v) {
            return None;
        }
        match get_optional_bool(v, "list_changed") {
            Ok(list_changed) => Some(Self { list_changed }),
            Err(_) => None,
        }
    }
}

impl ResourcesServerCapability {
    pub open spec fn decodable(m: JsonModel) -> bool {
        &&& m is Object
        &&& optional_bool_member(m, "subscribe"@) is Ok
        &&& optional_bool_member(m, "list_changed"@) is Ok
    }

    pub open spec fn decoded_from(&self, m: JsonModel) -> bool {
        &&& optional_bool_member(m, "subscribe"@) == Ok::<Option<bool>, ()>(self.subscribe)
        &&& optional_bool_member(m, "list_changed"@) == Ok::<Option<bool>, ()>(self.list_changed)
    }

    pub fn from_json(v: &serde_json::Value) -> (r: Option<Self>)
        ensures
            match r {
                Some(c) => Self::decodable(json_model(*v)) && c.decoded_from(json_model(*v)),
                None => !Self::decodable(json_model(*v)),
            },
    {
        if !json_is_object(v) {
            return None;
        }
        let subscribe = match get_optional_bool(v, "subscribe") {
            Ok(b) => b,
            Err(_) => {
                return None;
            },
        };
        match get_optional_bool(v, "list_changed") {
            Ok(list_changed) => Some(Self { subscribe, list_changed }),
            Err(_) => None,
        }
    }
}

impl ServerCapabilities {
    pub open spec fn decodable(m: JsonModel) -> bool {
        &&& m is Object
        &&& present_member(m, "tools"@) matches Some(t) ==> ToolsServerCapability::decodable(t)
        &&& present_member(m, "resources"@) matches Some(c)
            ==> ResourcesServerCapability::decodable(c)
    }

    pub open spec fn decoded_from(&self, m: JsonModel) -> bool {
        &&& match self.tools {
            Some(t) => present_member(m, "tools"@) matches Some(d) && t.decoded_from(d),
            None => present_member(m, "tools"@) is None,
        }
        &&& match self.resources {
            Some(c) => present_member(m, "resources"@) matches Some(d) && c.decoded_from(d),
            None => present_member(m, "resources"@) is None,
        }
    }

    pub fn from_json(v: &serde_json::Value) -> (r: Option<Self>)
        ensures
            match r {
                Some(c) => Self::decodable(json_model(*v)) && c.decoded_from(json_model(*v)),
                None => !Self::decodable(json_model(*v)),
            },
    {
        if !json_is_object(v) {
            return None;
        }
        let tools = match get_present(v, "tools") {
            Some(d) => match ToolsServerCapability::from_json(d) {
                Some(t) => Some(t),
                None => {
                    return None;
                },
            },
            None => None,
        };
        let resources = match get_present(v, "resources") {
            Some(d) => match ResourcesServerCapability::from_json(d) {
                Some(c) => Some(c),
                None => {
                    return None;
                },
            },
            None => None,
        };
        Some(Self { tools, resources })
    }
}

impl ServerInfo {
    pub open spec fn decodable(m: JsonModel) -> bool {
        text_member(m, "name"@) is Some && text_member(m, "version"@) is Some
    }

    pub open spec fn decoded_from(&self, m: JsonModel) -> bool {
        &&& text_member(m, "name"@) == Some(self.name@)
        &&& text_member(m, "version"@) == Some(self.version@)
    }

    pub fn from_json(v: &serde_json::Value) -> (r: Option<Self>)
        ensures
            match r {
                Some(c) => Self::decodable(json_model(*v)) && c.decoded_from(json_model(*v)),
                None => !Self::decodable(json_model(*v)),
            },
    {
        let name = match get_text(v, "name") {
            Some(s) => s,
            None => {
                return None;
            },
        };
        match get_text(v, "version") {
            Some(version) => Some(Self { name, version }),
            None => None,
        }
    }
}

impl InitializeResult {
    pub open spec fn decodable(m: JsonModel) -> bool {
        &&& text_member(m, "protocol_version"@) is Some
        &&& member(m, "capabilities"@) matches Some(c) && ServerCapabilities::decodable(c)
        &&& member(m, "server_info"@) matches Some(i) && ServerInfo::decodable(i)
    }

    pub open spec fn decoded_from(&self, m: JsonModel) -> bool {
        &&& text_member(m, "protocol_version"@) == Some(self.protocol_version@)
        &&& member(m, "capabilities"@) matches Some(c) && self.capabilities.decoded_from(c)
        &&& member(m, "server_info"@) matches Some(i) && self.server_info.decoded_from(i)
    }

    pub fn from_json(v: &serde_json::Value) -> (r: Option<Self>)
        ensures
            match r {
                Some(c) => Self::decodable(json_model(*v)) && c.decoded_from(json_model(*v)),
                None => !Self::decodable(json_model(*v)),
            },
    {
        let protocol_version = match get_text(v, "protocol_version") {
            Some(s) => s,
            None => {
                return None;
            },
        };
        let capabilities = match json_get(v, "capabilities") {
            Some(d) => match ServerCapabilities::from_json(d) {
                Some(c) => c,
                None => {
                    return None;
                },
            },
            None => {
                return None;
            },
        };
        let server_info = match json_get(v, "server_info") {
            Some(d) => match ServerInfo::from_json(d) {
                Some(c) => c,
                None => {
                    return None;
                },
            },
            None => {
                return None;
            },
        };
        Some(Self { protocol_version, capabilities, server_info })
    }
}

impl ToolDefinition {
    pub open spec fn decodable(m: JsonModel) -> bool {
        &&& text_member(m, "name"@) is Some
        &&& text_member(m, "description"@) is Some
        &&& member(m, "input_schema"@) is Some
    }

    pub open spec fn decoded_from(&self, m: JsonModel) -> bool {
        &&& text_member(m, "name"@) == Some(self.name@)
        &&& text_member(m, "description"@) == Some(self.description@)
        &&& member(m, "input_schema"@) == Some(json_model(self.input_schema))
    }

    pub fn from_json(v: &serde_json::Value) -> (r: Option<Self>)
        ensures
            match r {
                Some(c) => Self::decodable(json_model(*v)) && c.decoded_from(json_model(*v)),
                None => !Self::decodable(json_model(*v)),
            },
    {
        let name = match get_text(v, "name") {
            Some(s) => s,
            None => {
                return None;
            },
        };
        let description = match get_text(v, "description") {
            Some(s) => s,
            None => {
                return None;
            },
        };
        match json_get(v, "input_schema") {
            Some(d) => Some(Self { name, description, input_schema: d.clone() }),
            None => None,
        }
    }
}

/// Whether every document of a sequence is a tool definition.
pub open spec fn tools_decodable(items: Seq<JsonModel>) -> bool {
    forall|i: int| 0 <= i < items.len() ==> ToolDefinition::decodable(#[trigger] items[i])
}

/// Whether the definitions are what the documents say, one for one.
pub open spec fn tools_decoded_from(tools: Seq<ToolDefinition>, items: Seq<JsonModel>) -> bool {
    &&& tools.len() == items.len()
    &&& forall|i: int| 0 <= i < tools.len() ==> (#[trigger] tools[i]).decoded_from(items[i])
}

/// Reads tool definitions, one from each document.
pub fn tools_from_json(items: &Vec<serde_json::Value>) -> (r: Option<Vec<ToolDefinition>>)
    ensures
        match r {
            Some(tools) => tools_decodable(crate::json::json_models(items@)) && tools_decoded_from(
                tools@,
                crate::json::json_models(items@),
            ),
            None => !tools_decodable(crate::json::json_models(items@)),
        },
{
    let ghost models = crate::json::json_models(items@);
    let mut tools: Vec<ToolDefinition> = Vec::new();
    let mut i: usize = 0;
    while i < items.len()
        invariant
            i <= items.len(),
            tools@.len() == i,
            models == crate::json::json_models(items@),
            forall|j: int| 0 <= j < i ==> ToolDefinition::decodable(#[trigger] models[j]),
            forall|j: int| 0 <= j < i ==> (#[trigger] tools@[j]).decoded_from(models[j]),
        decreases items.len() - i,
    {
        match ToolDefinition::from_json(&items[i]) {
            Some(tool) => tools.push(tool),
            None => {
                assert(!ToolDefinition::decodable(models[i as int]));
                return None;
            },
        }
        i += 1;
    }
    Some(tools)
}

impl ToolsListResult {
    pub open spec fn decodable(m: JsonModel) -> bool {
        &&& member(m, "tools"@) matches Some(t) && items_of(t) matches Some(items)
            && tools_decodable(items)
        &&& optional_text_member(m, "next_cursor"@) is Ok
    }

    pub open spec fn decoded_from(&self, m: JsonModel) -> bool {
        &&& member(m, "tools"@) matches Some(t) && items_of(t) matches Some(items)
            && tools_decoded_from(self.tools@, items)
        &&& optional_text_member(m, "next_cursor"@) == Ok::<Option<Seq<char>>, ()>(
            text_view(self.next_cursor),
        )
    }

    pub fn from_json(v: &serde_json::Value) -> (r: Option<Self>)
        ensures
            match r {
                Some(c) => Self::decodable(json_model(*v)) && c.decoded_from(json_model(*v)),
                None => !Self::decodable(json_model(*v)),
            },
    {
        let tools = match json_get(v, "tools") {
            Some(d) => match json_as_array(d) {
                Some(items) => match tools_from_json(items) {
                    Some(tools) => tools,
                    None => {
                        return None;
                    },
                },
                None => {
                    return None;
                },
            },
            None => {
                return None;
            },
        };
        match get_optional_text(v, "next_cursor") {
            Ok(next_cursor) => Some(Self { tools, next_cursor }),
            Err(_) => None,
        }
    }
}

impl ResourceContent {
    pub open spec fn decodable(m: JsonModel) -> bool {
        &&& text_member(m, "uri"@) is Some
        &&& optional_text_member(m, "mime_type"@) is Ok
        &&& optional_text_member(m, "text"@) is Ok
        &&& optional_text_member(m, "blob"@) is Ok
    }

    pub open spec fn decoded_from(&self, m: JsonModel) -> bool {
        &&& text_member(m, "uri"@) == Some(self.uri@)
        &&& optional_text_member(m, "mime_type"@) == Ok::<Option<Seq<char>>, ()>(
            text_view(self.mime_type),
        )
        &&& optional_text_member(m, "text"@) == Ok::<Option<Seq<char>>, ()>(text_view(self.text))
        &&& optional_text_member(m, "blob"@) == Ok::<Option<Seq<char>>, ()>(text_view(self.blob))
    }

    pub fn from_json(v: &serde_json::Value) -> (r: Option<Self>)
        ensures
            match r {
                Some(c) => Self::decodable(json_model(*v)) && c.decoded_from(json_model(*v)),
                None => !Self::decodable(json_model(*v)),
            },
    {
        let uri = match get_text(v, "uri") {
            Some(s) => s,
            None => {
                return None;
            },
        };
        let mime_type = match get_optional_text(v, "mime_type") {
            Ok(s) => s,
            Err(_) => {
                return None;
            },
        };
        let text = match get_optional_text(v, "text") {
            Ok(s) => s,
            Err(_) => {
                return None;
            },
        };
        match get_optional_text(v, "blob") {
            Ok(blob) => Some(Self { uri, mime_type, text, blob }),
            Err(_) => None,
        }
    }
}

/// Whether every document of a sequence is a resource content.
pub open spec fn contents_decodable(items: Seq<JsonModel>) -> bool {
    forall|i: int| 0 <= i < items.len() ==> ResourceContent::decodable(#[trigger] items[i])
}

/// Whether the contents are what the documents say, one for one.
pub open spec fn contents_decoded_from(contents: Seq<ResourceContent>, items: Seq<JsonModel>) -> bool {
    &&& contents.len() == items.len()
    &&& forall|i: int| 0 <= i < contents.len() ==> (#[trigger] contents[i]).decoded_from(items[i])
}

/// Reads resource contents, one from each document.
pub fn contents_from_json(items: &Vec<serde_json::Value>) -> (r: Option<Vec<ResourceContent>>)
    ensures
        match r {
            Some(contents) => contents_decodable(crate::json::json_models(items@))
                && contents_decoded_from(contents@, crate::json::json_models(items@)),
            None => !contents_decodable(crate::json::json_models(items@)),
        },
{
    let ghost models = crate::json::json_models(items@);
    let mut contents: Vec<ResourceContent> = Vec::new();
    let mut i: usize = 0;
    while i < items.len()
        invariant
            i <= items.len(),
            contents@.len() == i,
            models == crate::json::json_models(items@),
            forall|j: int| 0 <= j < i ==> ResourceContent::decodable(#[trigger] models[j]),
            forall|j: int| 0 <= j < i ==> (#[trigger] contents@[j]).decoded_from(models[j]),
        decreases items.len() - i,
    {
        match ResourceContent::from_json(&items[i]) {
            Some(content) => contents.push(content),
            None => {
                assert(!ResourceContent::decodable(models[i as int]));
                return None;
            },
        }
        i += 1;
    }
    Some(contents)
}

impl ResourcesReadResult {
    pub open spec fn decodable(m: JsonModel) -> bool {
        member(m, "contents"@) matches Some(c) && items_of(c) matches Some(items)
            && contents_decodable(items)
    }

    pub open spec fn decoded_from(&self, m: JsonModel) -> bool {
        member(m, "contents"@) matches Some(c) && items_of(c) matches Some(items)
            && contents_decoded_from(self.contents@, items)
    }

    pub fn from_json(v: &serde_json::Value) -> (r: Option<Self>)
        ensures
            match r {
                Some(c) => Self::decodable(json_model(*v)) && c.decoded_from(json_model(*v)),
                None => !Self::decodable(json_model(*v)),
            },
    {
        match json_get(v, "contents") {
            Some(d) => match json_as_array(d) {
                Some(items) => match contents_from_json(items) {
                    Some(contents) => Some(Self { contents }),
                    None => None,
                },
                None => None,
            },
            None => None,
        }
    }
}

impl ContentBlock {
    /// Whether a document is a content block: its `type` names a variant and
    /// the fields of that variant are there.
    pub open spec fn decodable(m: JsonModel) -> bool {
        match text_member(m, "type"@) {
            Some(kind) => if kind == "Text"@ {
                text_member(m, "text"@) is Some
            } else if kind == "Image"@ {
                text_member(m, "data"@) is Some && text_member(m, "mime_type"@) is Some
            } else if kind == "Resource"@ {
                member(m, "resource"@) matches Some(c) && ResourceContent::decodable(c)
            } else {
                false
            },
            None => false,
        }
    }

    pub open spec fn decoded_from(&self, m: JsonModel) -> bool {
        match *self {
            ContentBlock::Text { text } => text_member(m, "type"@) == Some("Text"@) && text_member(
                m,
                "text"@,
            ) == Some(text@),
            ContentBlock::Image { data, mime_type } => {
                &&& text_member(m, "type"@) == Some("Image"@)
                &&& text_member(m, "data"@) == Some(data@)
                &&& text_member(m, "mime_type"@) == Some(mime_type@)
            },
            ContentBlock::Resource { resource } => {
                &&& text_member(m, "type"@) == Some("Resource"@)
                &&& member(m, "resource"@) matches Some(c) && resource.decoded_from(c)
            },
        }
    }

    pub fn from_json(v: &serde_json::Value) -> (r: Option<Self>)
        ensures
            match r {
                Some(c) => Self::decodable(json_model(*v)) && c.decoded_from(json_model(*v)),
                None => !Self::decodable(json_model(*v)),
            },
    {
        let kind = match get_text(v, "type") {
            Some(s) => s,
            None => {
                return None;
            },
        };
        if str_eq(kind.as_str(), "Text") {
            match get_text(v, "text") {
                Some(text) => Some(ContentBlock::Text { text }),
                None => None,
            }
        } else if str_eq(kind.as_str(), "Image") {
            let data = match get_text(v, "data") {
                Some(s) => s,
                None => {
                    return None;
                },
            };
            match get_text(v, "mime_type") {
                Some(mime_type) => Some(ContentBlock::Image { data, mime_type }),
                None => None,
            }
        } else if str_eq(kind.as_str(), "Resource") {
            match json_get(v, "resource") {
                Some(d) => match ResourceContent::from_json(d) {
                    Some(resource) => Some(ContentBlock::Resource { resource }),
                    None => None,
                },
                None => None,
            }
        } else {
            None
        }
    }
}

/// Whether every document of a sequence is a content block.
pub open spec fn blocks_decodable(items: Seq<JsonModel>) -> bool {
    forall|i: int| 0 <= i < items.len() ==> ContentBlock::decodable(#[trigger] items[i])
}

/// Whether the blocks are what the documents say, one for one.
pub open spec fn blocks_decoded_from(blocks: Seq<ContentBlock>, items: Seq<JsonModel>) -> bool {
    &&& blocks.len() == items.len()
    &&& forall|i: int| 0 <= i < blocks.len() ==> (#[trigger] blocks[i]).decoded_from(items[i])
}

/// Reads content blocks, one from each document.
pub fn blocks_from_json(items: &Vec<serde_json::Value>) -> (r: Option<Vec<ContentBlock>>)
    ensures
        match r {
            Some(blocks) => blocks_decodable(crate::json::json_models(items@))
                && blocks_decoded_from(blocks@, crate::json::json_models(items@)),
            None => !blocks_decodable(crate::json::json_models(items@)),
        },
{
    let ghost models = crate::json::json_models(items@);
    let mut blocks: Vec<ContentBlock> = Vec::new();
    let mut i: usize = 0;
    while i < items.len()
        invariant
            i <= items.len(),
            blocks@.len() == i,
            models == crate::json::json_models(items@),
            forall|j: int| 0 <= j < i ==> ContentBlock::decodable(#[trigger] models[j]),
            forall|j: int| 0 <= j < i ==> (#[trigger] blocks@[j]).decoded_from(models[j]),
        decreases items.len() - i,
    {
        match ContentBlock::from_json(&items[i]) {
            Some(block) => blocks.push(block),
            None => {
                assert(!ContentBlock::decodable(models[i as int]));
                return None;
            },
        }
        i += 1;
    }
    Some(blocks)
}

impl ToolsCallResult {
    pub open spec fn decodable(m: JsonModel) -> bool {
        &&& member(m, "content"@) matches Some(c) && items_of(c) matches Some(items)
            && blocks_decodable(items)
        &&& optional_bool_member(m, "is_error"@) is Ok
    }

    pub open spec fn decoded_from(&self, m: JsonModel) -> bool {
        &&& member(m, "content"@) matches Some(c) && items_of(c) matches Some(items)
            && blocks_decoded_from(self.content@, items)
        &&& optional_bool_member(m, "is_error"@) == Ok::<Option<bool>, ()>(self.is_error)
    }

    pub fn from_json(v: &serde_json::Value) -> (r: Option<Self>)
        ensures
            match r {
                Some(c) => Self::decodable(json_model(*v)) && c.decoded_from(json_model(*v)),
                None => !Self::decodable(json_model(*v)),
            },
    {
        let content = match json_get(v, "content") {
            Some(d) => match json_as_array(d) {
                Some(items) => match blocks_from_json(items) {
                    Some(blocks) => blocks,
                    None => {
                        return None;
                    },
                },
                None => {
                    return None;
                },
            },
            None => {
                return None;
            },
        };
        match get_optional_bool(v, "is_error") {
            Ok(is_error) => Some(Self { content, is_error }),
            Err(_) => None,
        }
    }
}

impl ResourceDefinition {
    pub open spec fn decodable(m: JsonModel) -> bool {
        &&& text_member(m, "uri"@) is Some
        &&& text_member(m, "name"@) is Some
        &&& optional_text_member(m, "description"@) is Ok
        &&& optional_text_member(m, "mime_type"@) is Ok
        &&& optional_i64_member(m, "size"@) is Ok
    }

    pub open spec fn decoded_from(&self, m: JsonModel) -> bool {
        &&& text_member(m, "uri"@) == Some(self.uri@)
        &&& text_member(m, "name"@) == Some(self.name@)
        &&& optional_text_member(m, "description"@) == Ok::<Option<Seq<char>>, ()>(
            text_view(self.description),
        )
        &&& optional_text_member(m, "mime_type"@) == Ok::<Option<Seq<char>>, ()>(
            text_view(self.mime_type),
        )
        &&& optional_i64_member(m, "size"@) == Ok::<Option<i64>, ()>(self.size)
    }

    pub fn from_json(v: &serde_json::Value) -> (r: Option<Self>)
        ensures
            match r {
                Some(c) => Self::decodable(json_model(*v)) && c.decoded_from(json_model(*v)),
                None => !Self::decodable(json_model(*v)),
            },
    {
        let uri = match get_text(v, "uri") {
            Some(s) => s,
            None => {
                return None;
            },
        };
        let name = match get_text(v, "name") {
            Some(s) => s,
            None => {
                return None;
            },
        };
        let description = match get_optional_text(v, "description") {
            Ok(s) => s,
            Err(_) => {
                return None;
            },
        };
        let mime_type = match get_optional_text(v, "mime_type") {
            Ok(s) => s,
            Err(_) => {
                return None;
            },
        };
        match get_optional_i64(v, "size") {
            Ok(size) => Some(Self { uri, name, description, mime_type, size }),
            Err(_) => None,
        }
    }
}

/// Whether every document of a sequence is a resource definition.
pub open spec fn resources_decodable(items: Seq<JsonModel>) -> bool {
    forall|i: int| 0 <= i < items.len() ==> ResourceDefinition::decodable(#[trigger] items[i])
}

/// Whether the definitions are what the documents say, one for one.
pub open spec fn resources_decoded_from(
    resources: Seq<ResourceDefinition>,
    items: Seq<JsonModel>,
) -> bool {
    &&& resources.len() == items.len()
    &&& forall|i: int|
        0 <= i < resources.len() ==> (#[trigger] resources[i]).decoded_from(items[i])
}

/// Reads resource definitions, one from each document.
pub fn resources_from_json(items: &Vec<serde_json::Value>) -> (r: Option<Vec<ResourceDefinition>>)
    ensures
        match r {
            Some(resources) => resources_decodable(crate::json::json_models(items@))
                && resources_decoded_from(resources@, crate::json::json_models(items@)),
            None => !resources_decodable(crate::json::json_models(items@)),
        },
{
    let ghost models = crate::json::json_models(items@);
    let mut resources: Vec<ResourceDefinition> = Vec::new();
    let mut i: usize = 0;
    while i < items.len()
        invariant
            i <= items.len(),
            resources@.len() == i,
            models == crate::json::json_models(items@),
            forall|j: int| 0 <= j < i ==> ResourceDefinition::decodable(#[trigger] models[j]),
            forall|j: int| 0 <= j < i ==> (#[trigger] resources@[j]).decoded_from(models[j]),
        decreases items.len() - i,
    {
        match ResourceDefinition::from_json(&items[i]) {
            Some(resource) => resources.push(resource),
            None => {
                assert(!ResourceDefinition::decodable(models[i as int]));
                return None;
            },
        }
        i += 1;
    }
    Some(resources)
}

impl ResourcesListResult {
    pub open spec fn decodable(m: JsonModel) -> bool {
        &&& member(m, "resources"@) matches Some(c) && items_of(c) matches Some(items)
            && resources_decodable(items)
        &&& optional_text_member(m, "next_cursor"@) is Ok
    }

    pub open spec fn decoded_from(&self, m: JsonModel) -> bool {
        &&& member(m, "resources"@) matches Some(c) && items_of(c) matches Some(items)
            && resources_decoded_from(self.resources@, items)
        &&& optional_text_member(m, "next_cursor"@) == Ok::<Option<Seq<char>>, ()>(
            text_view(self.next_cursor),
        )
    }

    pub fn from_json(v: &serde_json::Value) -> (r: Option<Self>)
        ensures
            match r {
                Some(c) => Self::decodable(json_model(*v)) && c.decoded_from(json_model(*v)),
                None => !Self::decodable(json_model(*v)),
            },
    {
        let resources = match json_get(v, "resources") {
            Some(d) => match json_as_array(d) {
                Some(items) => match resources_from_json(items) {
                    Some(resources) => resources,
                    None => {
                        return None;
                    },
                },
                None => {
                    return None;
                },
            },
            None => {
                return None;
            },
        };
        match get_optional_text(v, "next_cursor") {
            Ok(next_cursor) => Some(Self { resources, next_cursor }),
            Err(_) => None,
        }
    }
}

} // verus!
