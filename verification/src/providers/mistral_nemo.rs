//! The driver for Mistral NeMo.
use crate::json::{
    get_optional_text, get_optional_u64, get_text, items_of, json_array, json_as_array,
    json_as_u64, json_bool, json_get, json_is_object, json_model, json_models, json_null,
    json_object, json_parse, json_parse_bytes, json_parsed, json_parsed_bytes, json_string,
    json_text, json_to_text, json_u64, member, members_insert, members_new, no_members, optional_text_member,
    optional_u64_member, put_optional, put_optional_bool, put_optional_text, put_text,
    text_member, text_view, u64_of, with_optional, JsonModel,
};
use crate::mcp::payload::{optional_flag, optional_text};
use crate::mcp::wire::{clone_optional, optional_model};
use crate::clock::fresh_id;
use crate::providers::traits::{
    convert_tools, tool_documents, ChatMessage, ChatResponse, ProviderCapabilities, TokenUsage,
    ToolCall, ToolSpec,
};
use crate::text::{join, str_eq, trim, trim_end_matches, trimmed, without_trailing};
use vstd::prelude::*;

verus! {

/// Where the provider is reached unless told otherwise.
pub const MISTRAL_BASE_URL: &'static str = "https://api.mistral.ai/v1";

/// The address of the provider unless told otherwise.
pub open spec fn default_base_url() -> Seq<char> {
    "https://api.mistral.ai/v1"@
}

pub struct MistralNeMoProvider {
    pub base_url: String,
    pub api_key: Option<String>,
    pub safe_prompt: bool,
}

/// The key that is kept of what was given: the text without the white space
/// around it, and nothing where that is empty.
pub open spec fn kept_key(api_key: Option<&str>) -> Option<Seq<char>> {
    match api_key {
        Some(value) => if trimmed(value@).len() > 0 {
            Some(trimmed(value@))
        } else {
            None
        },
        None => None,
    }
}

/// The address that is kept of what was given: the text without the white
/// space around it and without the slashes at its end, and nothing where
/// that is empty.
pub open spec fn kept_url(base_url: Option<&str>) -> Option<Seq<char>> {
    match base_url {
        Some(url) => if without_trailing(trimmed(url@), '/').len() > 0 {
            Some(without_trailing(trimmed(url@), '/'))
        } else {
            None
        },
        None => None,
    }
}

impl MistralNeMoProvider {
    pub fn new(api_key: Option<&str>) -> (r: Self)
        ensures
            r.base_url@ == default_base_url(),
            text_view(r.api_key) == kept_key(api_key),
            !r.safe_prompt,
    {
        let api_key = match api_key {
            Some(value) => {
                let kept = trim(value);
                if kept.unicode_len() > 0 {
                    Some(kept.to_owned())
                } else {
                    None
                }
            },
            None => None,
        };
        Self { base_url: MISTRAL_BASE_URL.to_owned(), api_key, safe_prompt: false }
    }

    pub fn with_safe_prompt(self, safe_prompt: bool) -> (r: Self)
        ensures
            r == (MistralNeMoProvider { safe_prompt, ..self }),
    {
        Self { safe_prompt, ..self }
    }

    pub fn with_base_url(self, base_url: Option<&str>) -> (r: Self)
        ensures
            r.base_url@ == match kept_url(base_url) {
                Some(url) => url,
                None => self.base_url@,
            },
            r == (MistralNeMoProvider { base_url: r.base_url, ..self }),
    {
        match base_url {
            Some(url) => {
                let kept = trim_end_matches(trim(url), '/');
                if kept.unicode_len() > 0 {
                    Self { base_url: kept.to_owned(), ..self }
                } else {
                    self
                }
            },
            None => self,
        }
    }

    pub fn capabilities(&self) -> (r: ProviderCapabilities)
        ensures
            r == (ProviderCapabilities { native_tool_calling: true, vision: false }),
    {
        ProviderCapabilities { native_tool_calling: true, vision: false }
    }

    pub fn supports_native_tools(&self) -> (r: bool)
        ensures
            r,
    {
        true
    }
}

/// One message as the provider takes it.
#[derive(Debug, Clone)]
pub struct Message {
    pub role: String,
    pub content: String,
    pub name: Option<String>,
    pub tool_calls: Option<Vec<ToolCallJson>>,
    pub tool_call_id: Option<String>,
}

/// One tool call of an assistant message as the provider takes it.
#[derive(Debug, Clone)]
pub struct ToolCallJson {
    pub id: Option<String>,
    pub kind: String,
    pub function: FunctionJson,
}

#[derive(Debug, Clone)]
pub struct FunctionJson {
    pub name: String,
    pub arguments: serde_json::Value,
}

/// The name of the function that a tool call document names.
pub open spec fn called_function(call: JsonModel) -> Option<Seq<char>> {
    match member(call, "function"@) {
        Some(function) => text_member(function, "name"@),
        None => None,
    }
}

/// The arguments that a tool call document holds; an empty object where it
/// holds none.
pub open spec fn called_arguments(call: JsonModel) -> JsonModel {
    match member(call, "function"@) {
        Some(function) => match member(function, "arguments"@) {
            Some(arguments) => arguments,
            None => JsonModel::Object(Map::empty()),
        },
        None => JsonModel::Object(Map::empty()),
    }
}

/// The tool call documents that name a function, in their order.
pub open spec fn kept_calls(items: Seq<JsonModel>) -> Seq<JsonModel>
    decreases items.len(),
{
    if items.len() == 0 {
        Seq::empty()
    } else if called_function(items.last()) is Some {
        kept_calls(items.drop_last()).push(items.last())
    } else {
        kept_calls(items.drop_last())
    }
}

/// Whether a tool call is what a document says.
pub open spec fn call_from(call: ToolCallJson, document: JsonModel) -> bool {
    &&& text_view(call.id) == text_member(document, "id"@)
    &&& call.kind@ == "function"@
    &&& called_function(document) == Some(call.function.name@)
    &&& json_model(call.function.arguments) == called_arguments(document)
}

/// Whether tool calls are what documents say, one for one.
pub open spec fn calls_from(calls: Seq<ToolCallJson>, documents: Seq<JsonModel>) -> bool {
    &&& calls.len() == documents.len()
    &&& forall|i: int| 0 <= i < calls.len() ==> call_from(#[trigger] calls[i], documents[i])
}

/// The tool call documents that the content of an assistant message holds:
/// the items of its array `tool_calls` that name a function. None where the
/// content is no JSON or holds no such array.
pub open spec fn assistant_calls(content: Seq<char>) -> Seq<JsonModel> {
    match json_parsed(content) {
        Some(m) => match member(m, "tool_calls"@) {
            Some(calls) => match items_of(calls) {
                Some(items) => kept_calls(items),
                None => Seq::empty(),
            },
            None => Seq::empty(),
        },
        None => Seq::empty(),
    }
}

/// What the content of a tool message says: the call it answers, the tool
/// that answered, and its text. Content that is no JSON is the text itself.
pub open spec fn tool_reply(content: Seq<char>) -> (Option<Seq<char>>, Option<Seq<char>>, Seq<char>) {
    match json_parsed(content) {
        Some(m) => (
            text_member(m, "tool_call_id"@),
            text_member(m, "tool_name"@),
            match text_member(m, "content"@) {
                Some(text) => text,
                None => Seq::empty(),
            },
        ),
        None => (None, None, content),
    }
}

/// Whether a message for the provider is what a message of the conversation
/// says. An assistant message carries the tool calls that its content
/// holds; a tool message is taken apart; every other message is carried as
/// it is.
pub open spec fn message_from(out: Message, msg: ChatMessage) -> bool {
    &&& out.role@ == msg.role@
    &&& if msg.role@ == "assistant"@ {
        let calls = assistant_calls(msg.content@);
        if calls.len() == 0 {
            out.tool_calls is None
        } else {
            out.tool_calls matches Some(converted) && calls_from(converted@, calls)
        }
    } else {
        out.tool_calls is None
    }
    &&& if msg.role@ == "tool"@ {
        &&& text_view(out.tool_call_id) == tool_reply(msg.content@).0
        &&& text_view(out.name) == tool_reply(msg.content@).1
        &&& out.content@ == tool_reply(msg.content@).2
    } else {
        &&& out.tool_call_id is None
        &&& out.name is None
        &&& out.content@ == msg.content@
    }
}

fn convert_call(document: &serde_json::Value) -> (r: Option<ToolCallJson>)
    ensures
        match r {
            Some(call) => called_function(json_model(*document)) is Some && call_from(
                call,
                json_model(*document),
            ),
            None => called_function(json_model(*document)) is None,
        },
{
    let function = match json_get(document, "function") {
        Some(f) => f,
        None => {
            return None;
        },
    };
    let name = match get_text(function, "name") {
        Some(n) => n,
        None => {
            return None;
        },
    };
    let arguments = match json_get(function, "arguments") {
        Some(a) => a.clone(),
        None => json_object(members_new()),
    };
    let id = get_text(document, "id");
    Some(ToolCallJson { id, kind: "function".to_owned(), function: FunctionJson { name, arguments } })
}

fn convert_calls(items: &Vec<serde_json::Value>) -> (r: Vec<ToolCallJson>)
    ensures
        calls_from(r@, kept_calls(json_models(items@))),
{
    let ghost models = json_models(items@);
    let mut calls: Vec<ToolCallJson> = Vec::new();
    let mut i: usize = 0;
    assert(models.subrange(0, 0) =~= Seq::<JsonModel>::empty());
    while i < items.len()
        invariant
            i <= items.len(),
            models == json_models(items@),
            calls_from(calls@, kept_calls(models.subrange(0, i as int))),
        decreases items.len() - i,
    {
        proof {
            assert(models.subrange(0, i + 1).drop_last() =~= models.subrange(0, i as int));
            assert(models.subrange(0, i + 1).last() == json_model(items@[i as int]));
        }
        match convert_call(&items[i]) {
            Some(call) => {
                calls.push(call);
            },
            None => {},
        }
        i += 1;
    }
    assert(models.subrange(0, items@.len() as int) =~= models);
    calls
}

fn assistant_tool_calls(content: &str) -> (r: Option<Vec<ToolCallJson>>)
    ensures
        match r {
            Some(calls) => calls@.len() > 0 && calls_from(calls@, assistant_calls(content@)),
            None => assistant_calls(content@).len() == 0,
        },
{
    let document = match json_parse(content) {
        Some(v) => v,
        None => {
            return None;
        },
    };
    let items = match json_get(&document, "tool_calls") {
        Some(calls) => match json_as_array(calls) {
            Some(items) => items,
            None => {
                return None;
            },
        },
        None => {
            return None;
        },
    };
    let calls = convert_calls(items);
    if calls.len() == 0 {
        None
    } else {
        Some(calls)
    }
}

impl MistralNeMoProvider {
    /// Lays a conversation out for the provider, message by message.
    pub fn convert_messages(&self, messages: &Vec<ChatMessage>) -> (r: Vec<Message>)
        ensures
            r@.len() == messages@.len(),
            forall|i: int| 0 <= i < r@.len() ==> message_from(#[trigger] r@[i], messages@[i]),
    {
        let mut out: Vec<Message> = Vec::new();
        let mut i: usize = 0;
        while i < messages.len()
            invariant
                i <= messages.len(),
                out@.len() == i,
                forall|j: int| 0 <= j < i ==> message_from(#[trigger] out@[j], messages@[j]),
            decreases messages.len() - i,
        {
            let msg = &messages[i];
            let tool_calls = if str_eq(msg.role.as_str(), "assistant") {
                assistant_tool_calls(msg.content.as_str())
            } else {
                None
            };
            let converted = if str_eq(msg.role.as_str(), "tool") {
                match json_parse(msg.content.as_str()) {
                    Some(document) => Message {
                        role: msg.role.clone(),
                        content: match get_text(&document, "content") {
                            Some(text) => text,
                            None => String::new(),
                        },
                        name: get_text(&document, "tool_name"),
                        tool_calls,
                        tool_call_id: get_text(&document, "tool_call_id"),
                    },
                    None => Message {
                        role: msg.role.clone(),
                        content: msg.content.clone(),
                        name: None,
                        tool_calls,
                        tool_call_id: None,
                    },
                }
            } else {
                Message {
                    role: msg.role.clone(),
                    content: msg.content.clone(),
                    name: None,
                    tool_calls,
                    tool_call_id: None,
                }
            };
            out.push(converted);
            i += 1;
        }
        out
    }
}

/// How the provider is asked to lay out its answer.
#[derive(Debug, Clone)]
pub struct ResponseFormat {
    pub format_type: String,
    pub json_schema: Option<serde_json::Value>,
}

/// A chat request as the provider takes it. The temperature and `top_p` are
/// JSON numbers, handed through as they are given.
#[derive(Debug, Clone)]
pub struct ChatRequest {
    pub model: String,
    pub messages: Vec<Message>,
    pub temperature: Option<serde_json::Value>,
    pub max_tokens: Option<u32>,
    pub top_p: Option<serde_json::Value>,
    pub random_seed: Option<u32>,
    pub safe_prompt: bool,
    pub tools: Option<Vec<serde_json::Value>>,
    pub parallel_tool_calls: Option<bool>,
    pub response_format: Option<ResponseFormat>,
    pub stream: Option<bool>,
}

/// An optional text as a document: `null` where there is none.
pub open spec fn text_or_null(s: Option<String>) -> JsonModel {
    match s {
        Some(s) => JsonModel::Text(s@),
        None => JsonModel::Null,
    }
}

/// An optional document: `null` where there is none.
pub open spec fn model_or_null(v: Option<serde_json::Value>) -> JsonModel {
    match v {
        Some(v) => json_model(v),
        None => JsonModel::Null,
    }
}

/// An optional number as a document: `null` where there is none.
pub open spec fn number_or_null(n: Option<u32>) -> JsonModel {
    match n {
        Some(n) => JsonModel::Int(n as int),
        None => JsonModel::Null,
    }
}

fn model_or_null_json(v: &Option<serde_json::Value>) -> (r: serde_json::Value)
    ensures
        json_model(r) == model_or_null(*v),
{
    match v {
        Some(v) => v.clone(),
        None => json_null(),
    }
}

fn number_or_null_json(n: Option<u32>) -> (r: serde_json::Value)
    ensures
        json_model(r) == number_or_null(n),
{
    match n {
        Some(n) => json_u64(n as u64),
        None => json_null(),
    }
}

impl ToolCallJson {
    /// The document of a tool call. A call without an id says `null` in its
    /// place.
    pub open spec fn encoding(&self) -> JsonModel {
        JsonModel::Object(
            no_members().insert("id"@, text_or_null(self.id)).insert(
                "type"@,
                JsonModel::Text(self.kind@),
            ).insert(
                "function"@,
                JsonModel::Object(
                    no_members().insert("name"@, JsonModel::Text(self.function.name@)).insert(
                        "arguments"@,
                        json_model(self.function.arguments),
                    ),
                ),
            ),
        )
    }

    pub fn to_json(&self) -> (r: serde_json::Value)
        ensures
            json_model(r) == self.encoding(),
    {
        let mut function = members_new();
        put_text(&mut function, "name", self.function.name.as_str());
        members_insert(&mut function, "arguments".to_owned(), self.function.arguments.clone());
        let mut members = members_new();
        members_insert(
            &mut members,
            "id".to_owned(),
            match &self.id {
                Some(id) => json_string(id.clone()),
                None => json_null(),
            },
        );
        put_text(&mut members, "type", self.kind.as_str());
        members_insert(&mut members, "function".to_owned(), json_object(function));
        json_object(members)
    }
}

/// The documents of tool calls, one for one.
pub open spec fn call_encodings(calls: Seq<ToolCallJson>) -> Seq<JsonModel> {
    Seq::new(calls.len(), |i: int| calls[i].encoding())
}

fn calls_to_json(calls: &Vec<ToolCallJson>) -> (r: serde_json::Value)
    ensures
        json_model(r) == JsonModel::Array(call_encodings(calls@)),
{
    let mut out: Vec<serde_json::Value> = Vec::new();
    let mut i: usize = 0;
    while i < calls.len()
        invariant
            i <= calls.len(),
            out@.len() == i,
            forall|j: int| 0 <= j < i ==> json_model(#[trigger] out@[j]) == calls@[j].encoding(),
        decreases calls.len() - i,
    {
        out.push(calls[i].to_json());
        i += 1;
    }
    assert(json_models(out@) =~= call_encodings(calls@));
    json_array(out)
}

impl Message {
    /// The document of a message: its role and content, and its name, tool
    /// calls and the call it answers where it has them.
    pub open spec fn encoding(&self) -> JsonModel {
        JsonModel::Object(
            with_optional(
                with_optional(
                    with_optional(
                        no_members().insert("role"@, JsonModel::Text(self.role@)).insert(
                            "content"@,
                            JsonModel::Text(self.content@),
                        ),
                        "name"@,
                        optional_text(self.name),
                    ),
                    "tool_calls"@,
                    match self.tool_calls {
                        Some(calls) => Some(JsonModel::Array(call_encodings(calls@))),
                        None => None,
                    },
                ),
                "tool_call_id"@,
                optional_text(self.tool_call_id),
            ),
        )
    }

    pub fn to_json(&self) -> (r: serde_json::Value)
        ensures
            json_model(r) == self.encoding(),
    {
        let mut members = members_new();
        put_text(&mut members, "role", self.role.as_str());
        put_text(&mut members, "content", self.content.as_str());
        put_optional_text(&mut members, "name", &self.name);
        match &self.tool_calls {
            Some(calls) => {
                members_insert(&mut members, "tool_calls".to_owned(), calls_to_json(calls));
            },
            None => {},
        }
        put_optional_text(&mut members, "tool_call_id", &self.tool_call_id);
        json_object(members)
    }

    /// Whether this is a plain message with a role and a text.
    pub open spec fn is_plain(&self, role: Seq<char>, text: Seq<char>) -> bool {
        &&& self.role@ == role
        &&& self.content@ == text
        &&& self.name is None
        &&& self.tool_calls is None
        &&& self.tool_call_id is None
    }

    /// A plain message with a role and a text.
    pub fn plain(role: &str, text: &str) -> (r: Self)
        ensures
            r.is_plain(role@, text@),
    {
        Self {
            role: role.to_owned(),
            content: text.to_owned(),
            name: None,
            tool_calls: None,
            tool_call_id: None,
        }
    }
}

/// The documents of messages, one for one.
pub open spec fn message_encodings(messages: Seq<Message>) -> Seq<JsonModel> {
    Seq::new(messages.len(), |i: int| messages[i].encoding())
}

fn messages_to_json(messages: &Vec<Message>) -> (r: serde_json::Value)
    ensures
        json_model(r) == JsonModel::Array(message_encodings(messages@)),
{
    let mut out: Vec<serde_json::Value> = Vec::new();
    let mut i: usize = 0;
    while i < messages.len()
        invariant
            i <= messages.len(),
            out@.len() == i,
            forall|j: int| 0 <= j < i ==> json_model(#[trigger] out@[j]) == messages@[j].encoding(),
        decreases messages.len() - i,
    {
        out.push(messages[i].to_json());
        i += 1;
    }
    assert(json_models(out@) =~= message_encodings(messages@));
    json_array(out)
}

fn copy_documents(items: &Vec<serde_json::Value>) -> (r: Vec<serde_json::Value>)
    ensures
        json_models(r@) == json_models(items@),
{
    let mut out: Vec<serde_json::Value> = Vec::new();
    let mut i: usize = 0;
    while i < items.len()
        invariant
            i <= items.len(),
            out@.len() == i,
            forall|j: int| 0 <= j < i ==> json_model(#[trigger] out@[j]) == json_model(items@[j]),
        decreases items.len() - i,
    {
        out.push(items[i].clone());
        i += 1;
    }
    assert(json_models(out@) =~= json_models(items@));
    out
}

impl ResponseFormat {
    pub open spec fn encoding(&self) -> JsonModel {
        JsonModel::Object(
            with_optional(
                no_members().insert("type"@, JsonModel::Text(self.format_type@)),
                "json_schema"@,
                optional_model(self.json_schema),
            ),
        )
    }

    pub fn to_json(&self) -> (r: serde_json::Value)
        ensures
            json_model(r) == self.encoding(),
    {
        let mut members = members_new();
        put_text(&mut members, "type", self.format_type.as_str());
        put_optional(&mut members, "json_schema", clone_optional(&self.json_schema));
        json_object(members)
    }
}

impl ChatRequest {
    /// The document of a request. The sampling settings say `null` where
    /// they are not set; the tools, the parallel calls, the format and the
    /// streaming are there only where they are set.
    pub open spec fn encoding(&self) -> JsonModel {
        JsonModel::Object(
            with_optional(
                with_optional(
                    with_optional(
                        with_optional(
                            no_members().insert("model"@, JsonModel::Text(self.model@)).insert(
                                "messages"@,
                                JsonModel::Array(message_encodings(self.messages@)),
                            ).insert("temperature"@, model_or_null(self.temperature)).insert(
                                "max_tokens"@,
                                number_or_null(self.max_tokens),
                            ).insert("top_p"@, model_or_null(self.top_p)).insert(
                                "random_seed"@,
                                number_or_null(self.random_seed),
                            ).insert("safe_prompt"@, JsonModel::Bool(self.safe_prompt)),
                            "tools"@,
                            match self.tools {
                                Some(tools) => Some(JsonModel::Array(json_models(tools@))),
                                None => None,
                            },
                        ),
                        "parallel_tool_calls"@,
                        optional_flag(self.parallel_tool_calls),
                    ),
                    "response_format"@,
                    match self.response_format {
                        Some(format) => Some(format.encoding()),
                        None => None,
                    },
                ),
                "stream"@,
                optional_flag(self.stream),
            ),
        )
    }

    pub fn to_json(&self) -> (r: serde_json::Value)
        ensures
            json_model(r) == self.encoding(),
    {
        let mut members = members_new();
        put_text(&mut members, "model", self.model.as_str());
        members_insert(&mut members, "messages".to_owned(), messages_to_json(&self.messages));
        members_insert(
            &mut members,
            "temperature".to_owned(),
            model_or_null_json(&self.temperature),
        );
        members_insert(&mut members, "max_tokens".to_owned(), number_or_null_json(self.max_tokens));
        members_insert(&mut members, "top_p".to_owned(), model_or_null_json(&self.top_p));
        members_insert(
            &mut members,
            "random_seed".to_owned(),
            number_or_null_json(self.random_seed),
        );
        members_insert(&mut members, "safe_prompt".to_owned(), json_bool(self.safe_prompt));
        match &self.tools {
            Some(tools) => {
                members_insert(&mut members, "tools".to_owned(), json_array(copy_documents(tools)));
            },
            None => {},
        }
        put_optional_bool(&mut members, "parallel_tool_calls", self.parallel_tool_calls);
        match &self.response_format {
            Some(format) => {
                members_insert(&mut members, "response_format".to_owned(), format.to_json());
            },
            None => {},
        }
        put_optional_bool(&mut members, "stream", self.stream);
        json_object(members)
    }
}

/// The function that the provider asks to call, with its arguments.
#[derive(Debug, Clone)]
pub struct ApiFunction {
    pub name: String,
    pub arguments: serde_json::Value,
}

/// A tool call as the provider writes it.
#[derive(Debug, Clone)]
pub struct ApiToolCall {
    pub id: Option<String>,
    pub kind: Option<String>,
    pub function: ApiFunction,
}

/// The message of one choice.
#[derive(Debug, Clone)]
pub struct ResponseMessage {
    pub role: String,
    pub content: String,
    pub tool_calls: Vec<ApiToolCall>,
}

/// One choice of an answer.
#[derive(Debug, Clone)]
pub struct Choice {
    pub index: u32,
    pub message: ResponseMessage,
    pub finish_reason: String,
}

/// The token counts of an answer.
#[derive(Debug, Clone, Copy, PartialEq, Eq, Structural)]
pub struct Usage {
    pub prompt_tokens: Option<u64>,
    pub completion_tokens: Option<u64>,
    pub total_tokens: Option<u64>,
}

/// What the provider answers to a chat request.
#[derive(Debug, Clone)]
pub struct ApiChatResponse {
    pub id: String,
    pub object: String,
    pub created: u64,
    pub model: String,
    pub choices: Vec<Choice>,
    pub usage: Usage,
}

/// A member that must be an integer within `u64`.
pub open spec fn u64_member(m: JsonModel, key: Seq<char>) -> Option<u64> {
    match member(m, key) {
        Some(f) => u64_of(f),
        None => None,
    }
}

/// A member that must be an integer within `u32`.
pub open spec fn u32_member(m: JsonModel, key: Seq<char>) -> Option<u32> {
    match u64_member(m, key) {
        Some(n) if n <= u32::MAX => Some(n as u32),
        _ => None,
    }
}

fn get_u64(v: &serde_json::Value, key: &str) -> (r: Option<u64>)
    ensures
        r == u64_member(json_model(*v), key@),
{
    match json_get(v, key) {
        Some(f) => json_as_u64(f),
        None => None,
    }
}

fn get_u32(v: &serde_json::Value, key: &str) -> (r: Option<u32>)
    ensures
        r == u32_member(json_model(*v), key@),
{
    match get_u64(v, key) {
        Some(n) => if n <= 0xffff_ffff {
            Some(n as u32)
        } else {
            None
        },
        None => None,
    }
}

impl ApiToolCall {
    /// Whether a document is a tool call: its `function` has a name and
    /// arguments, and its `id` and `type` are texts where they are present.
    pub open spec fn decodable(m: JsonModel) -> bool {
        &&& optional_text_member(m, "id"@) is Ok
        &&& optional_text_member(m, "type"@) is Ok
        &&& member(m, "function"@) matches Some(f) && text_member(f, "name"@) is Some && member(
            f,
            "arguments"@,
        ) is Some
    }

    pub open spec fn decoded_from(&self, m: JsonModel) -> bool {
        &&& optional_text_member(m, "id"@) == Ok::<Option<Seq<char>>, ()>(text_view(self.id))
        &&& optional_text_member(m, "type"@) == Ok::<Option<Seq<char>>, ()>(text_view(self.kind))
        &&& member(m, "function"@) matches Some(f) && text_member(f, "name"@) == Some(
            self.function.name@,
        ) && member(f, "arguments"@) == Some(json_model(self.function.arguments))
    }

    pub fn from_json(v: &serde_json::Value) -> (r: Option<Self>)
        ensures
            match r {
                Some(c) => Self::decodable(json_model(*v)) && c.decoded_from(json_model(*v)),
                None => !Self::decodable(json_model(*v)),
            },
    {
        let id = match get_optional_text(v, "id") {
            Ok(s) => s,
            Err(_) => {
                return None;
            },
        };
        let kind = match get_optional_text(v, "type") {
            Ok(s) => s,
            Err(_) => {
                return None;
            },
        };
        let f = match json_get(v, "function") {
            Some(f) => f,
            None => {
                return None;
            },
        };
        let name = match get_text(f, "name") {
            Some(s) => s,
            None => {
                return None;
            },
        };
        match json_get(f, "arguments") {
            Some(a) => Some(Self { id, kind, function: ApiFunction { name, arguments: a.clone() } }),
            None => None,
        }
    }
}

/// Whether every document of a sequence is a tool call.
pub open spec fn api_calls_decodable(items: Seq<JsonModel>) -> bool {
    forall|i: int| 0 <= i < items.len() ==> ApiToolCall::decodable(#[trigger] items[i])
}

/// Whether the tool calls are what the documents say, one for one.
pub open spec fn api_calls_decoded_from(calls: Seq<ApiToolCall>, items: Seq<JsonModel>) -> bool {
    &&& calls.len() == items.len()
    &&& forall|i: int| 0 <= i < calls.len() ==> (#[trigger] calls[i]).decoded_from(items[i])
}

fn api_calls_from_json(items: &Vec<serde_json::Value>) -> (r: Option<Vec<ApiToolCall>>)
    ensures
        match r {
            Some(calls) => api_calls_decodable(json_models(items@)) && api_calls_decoded_from(
                calls@,
                json_models(items@),
            ),
            None => !api_calls_decodable(json_models(items@)),
        },
{
    let ghost models = json_models(items@);
    let mut calls: Vec<ApiToolCall> = Vec::new();
    let mut i: usize = 0;
    while i < items.len()
        invariant
            i <= items.len(),
            calls@.len() == i,
            models == json_models(items@),
            forall|j: int| 0 <= j < i ==> ApiToolCall::decodable(#[trigger] models[j]),
            forall|j: int| 0 <= j < i ==> (#[trigger] calls@[j]).decoded_from(models[j]),
        decreases items.len() - i,
    {
        match ApiToolCall::from_json(&items[i]) {
            Some(call) => calls.push(call),
            None => {
                assert(!ApiToolCall::decodable(models[i as int]));
                return None;
            },
        }
        i += 1;
    }
    Some(calls)
}

impl ResponseMessage {
    /// Whether a document is a message: it has a role and a content, and
    /// its `tool_calls`, where it names them, are an array of tool calls.
    pub open spec fn decodable(m: JsonModel) -> bool {
        &&& text_member(m, "role"@) is Some
        &&& text_member(m, "content"@) is Some
        &&& match member(m, "tool_calls"@) {
            Some(t) => items_of(t) matches Some(items) && api_calls_decodable(items),
            None => true,
        }
    }

    pub open spec fn decoded_from(&self, m: JsonModel) -> bool {
        &&& text_member(m, "role"@) == Some(self.role@)
        &&& text_member(m, "content"@) == Some(self.content@)
        &&& match member(m, "tool_calls"@) {
            Some(t) => items_of(t) matches Some(items) && api_calls_decoded_from(
                self.tool_calls@,
                items,
            ),
            None => self.tool_calls@.len() == 0,
        }
    }

    pub fn from_json(v: &serde_json::Value) -> (r: Option<Self>)
        ensures
            match r {
                Some(c) => Self::decodable(json_model(*v)) && c.decoded_from(json_model(*v)),
                None => !Self::decodable(json_model(*v)),
            },
    {
        let role = match get_text(v, "role") {
            Some(s) => s,
            None => {
                return None;
            },
        };
        let content = match get_text(v, "content") {
            Some(s) => s,
            None => {
                return None;
            },
        };
        let tool_calls = match json_get(v, "tool_calls") {
            Some(t) => match json_as_array(t) {
                Some(items) => match api_calls_from_json(items) {
                    Some(calls) => calls,
                    None => {
                        return None;
                    },
                },
                None => {
                    return None;
                },
            },
            None => Vec::new(),
        };
        Some(Self { role, content, tool_calls })
    }
}

impl Choice {
    pub open spec fn decodable(m: JsonModel) -> bool {
        &&& u32_member(m, "index"@) is Some
        &&& member(m, "message"@) matches Some(d) && ResponseMessage::decodable(d)
        &&& text_member(m, "finish_reason"@) is Some
    }

    pub open spec fn decoded_from(&self, m: JsonModel) -> bool {
        &&& u32_member(m, "index"@) == Some(self.index)
        &&& member(m, "message"@) matches Some(d) && self.message.decoded_from(d)
        &&& text_member(m, "finish_reason"@) == Some(self.finish_reason@)
    }

    pub fn from_json(v: &serde_json::Value) -> (r: Option<Self>)
        ensures
            match r {
                Some(c) => Self::decodable(json_model(*v)) && c.decoded_from(json_model(*v)),
                None => !Self::decodable(json_model(*v)),
            },
    {
        let index = match get_u32(v, "index") {
            Some(n) => n,
            None => {
                return None;
            },
        };
        let message = match json_get(v, "message") {
            Some(d) => match ResponseMessage::from_json(d) {
                Some(message) => message,
                None => {
                    return None;
                },
            },
            None => {
                return None;
            },
        };
        match get_text(v, "finish_reason") {
            Some(finish_reason) => Some(Self { index, message, finish_reason }),
            None => None,
        }
    }
}

/// Whether every document of a sequence is a choice.
pub open spec fn choices_decodable(items: Seq<JsonModel>) -> bool {
    forall|i: int| 0 <= i < items.len() ==> Choice::decodable(#[trigger] items[i])
}

/// Whether the choices are what the documents say, one for one.
pub open spec fn choices_decoded_from(choices: Seq<Choice>, items: Seq<JsonModel>) -> bool {
    &&& choices.len() == items.len()
    &&& forall|i: int| 0 <= i < choices.len() ==> (#[trigger] choices[i]).decoded_from(items[i])
}

fn choices_from_json(items: &Vec<serde_json::Value>) -> (r: Option<Vec<Choice>>)
    ensures
        match r {
            Some(choices) => choices_decodable(json_models(items@)) && choices_decoded_from(
                choices@,
                json_models(items@),
            ),
            None => !choices_decodable(json_models(items@)),
        },
{
    let ghost models = json_models(items@);
    let mut choices: Vec<Choice> = Vec::new();
    let mut i: usize = 0;
    while i < items.len()
        invariant
            i <= items.len(),
            choices@.len() == i,
            models == json_models(items@),
            forall|j: int| 0 <= j < i ==> Choice::decodable(#[trigger] models[j]),
            forall|j: int| 0 <= j < i ==> (#[trigger] choices@[j]).decoded_from(models[j]),
        decreases items.len() - i,
    {
        match Choice::from_json(&items[i]) {
            Some(choice) => choices.push(choice),
            None => {
                assert(!Choice::decodable(models[i as int]));
                return None;
            },
        }
        i += 1;
    }
    Some(choices)
}

impl Usage {
    pub open spec fn decodable(m: JsonModel) -> bool {
        &&& m is Object
        &&& optional_u64_member(m, "prompt_tokens"@) is Ok
        &&& optional_u64_member(m, "completion_tokens"@) is Ok
        &&& optional_u64_member(m, "total_tokens"@) is Ok
    }

    pub open spec fn decoded_from(&self, m: JsonModel) -> bool {
        &&& optional_u64_member(m, "prompt_tokens"@) == Ok::<Option<u64>, ()>(self.prompt_tokens)
        &&& optional_u64_member(m, "completion_tokens"@) == Ok::<Option<u64>, ()>(
            self.completion_tokens,
        )
        &&& optional_u64_member(m, "total_tokens"@) == Ok::<Option<u64>, ()>(self.total_tokens)
    }

    pub fn from_json(v: &serde_json::Value) -> (r: Option<Self>)
        ensures
            match r {
                Some(c) => Self::decodable(json_model(*v)) && c.decoded_from(json_model(*v)),
                None => !Self::decodable(json_model(*v)),
            },
    {
        if !json_is_object(v) {
            return None;
        }
        let prompt_tokens = match get_optional_u64(v, "prompt_tokens") {
            Ok(n) => n,
            Err(_) => {
                return None;
            },
        };
        let completion_tokens = match get_optional_u64(v, "completion_tokens") {
            Ok(n) => n,
            Err(_) => {
                return None;
            },
        };
        match get_optional_u64(v, "total_tokens") {
            Ok(total_tokens) => Some(Self { prompt_tokens, completion_tokens, total_tokens }),
            Err(_) => None,
        }
    }
}

impl ApiChatResponse {
    /// Whether a document is an answer of the provider.
    pub open spec fn decodable(m: JsonModel) -> bool {
        &&& text_member(m, "id"@) is Some
        &&& text_member(m, "object"@) is Some
        &&& u64_member(m, "created"@) is Some
        &&& text_member(m, "model"@) is Some
        &&& member(m, "choices"@) matches Some(c) && items_of(c) matches Some(items)
            && choices_decodable(items)
        &&& member(m, "usage"@) matches Some(u) && Usage::decodable(u)
    }

    pub open spec fn decoded_from(&self, m: JsonModel) -> bool {
        &&& text_member(m, "id"@) == Some(self.id@)
        &&& text_member(m, "object"@) == Some(self.object@)
        &&& u64_member(m, "created"@) == Some(self.created)
        &&& text_member(m, "model"@) == Some(self.model@)
        &&& member(m, "choices"@) matches Some(c) && items_of(c) matches Some(items)
            && choices_decoded_from(self.choices@, items)
        &&& member(m, "usage"@) matches Some(u) && self.usage.decoded_from(u)
    }

    pub fn from_json(v: &serde_json::Value) -> (r: Option<Self>)
        ensures
            match r {
                Some(c) => Self::decodable(json_model(*v)) && c.decoded_from(json_model(*v)),
                None => !Self::decodable(json_model(*v)),
            },
    {
        let id = match get_text(v, "id") {
            Some(s) => s,
            None => {
                return None;
            },
        };
        let object = match get_text(v, "object") {
            Some(s) => s,
            None => {
                return None;
            },
        };
        let created = match get_u64(v, "created") {
            Some(n) => n,
            None => {
                return None;
            },
        };
        let model = match get_text(v, "model") {
            Some(s) => s,
            None => {
                return None;
            },
        };
        let choices = match json_get(v, "choices") {
            Some(c) => match json_as_array(c) {
                Some(items) => match choices_from_json(items) {
                    Some(choices) => choices,
                    None => {
                        return None;
                    },
                },
                None => {
                    return None;
                },
            },
            None => {
                return None;
            },
        };
        match json_get(v, "usage") {
            Some(u) => match Usage::from_json(u) {
                Some(usage) => Some(Self { id, object, created, model, choices, usage }),
                None => None,
            },
            None => None,
        }
    }

    /// Reads an answer from the bytes of a response body.
    pub fn parse(body: &[u8]) -> (r: Option<Self>)
        ensures
            match r {
                Some(c) => json_parsed_bytes(body@) matches Some(m) && Self::decodable(m)
                    && c.decoded_from(m),
                None => match json_parsed_bytes(body@) {
                    Some(m) => !Self::decodable(m),
                    None => true,
                },
            },
    {
        match json_parse_bytes(body) {
            Some(v) => Self::from_json(&v),
            None => None,
        }
    }
}

/// The messages of a single prompt: the system prompt where there is one,
/// then the user's message.
pub open spec fn is_prompt(
    messages: Seq<Message>,
    system_prompt: Option<Seq<char>>,
    message: Seq<char>,
) -> bool {
    match system_prompt {
        Some(sys) => {
            &&& messages.len() == 2
            &&& messages[0].is_plain("system"@, sys)
            &&& messages[1].is_plain("user"@, message)
        },
        None => messages.len() == 1 && messages[0].is_plain("user"@, message),
    }
}

/// The characters of an optional borrowed text.
pub open spec fn str_view(s: Option<&str>) -> Option<Seq<char>> {
    match s {
        Some(s) => Some(s@),
        None => None,
    }
}

/// Whether messages for the provider are what the messages of a
/// conversation say, one for one.
pub open spec fn messages_from(out: Seq<Message>, messages: Seq<ChatMessage>) -> bool {
    &&& out.len() == messages.len()
    &&& forall|i: int| 0 <= i < out.len() ==> message_from(#[trigger] out[i], messages[i])
}

/// The documents of an optional list of documents.
pub open spec fn optional_models(tools: Option<Vec<serde_json::Value>>) -> Option<Seq<JsonModel>> {
    match tools {
        Some(items) => Some(json_models(items@)),
        None => None,
    }
}

/// Whether a request is the one that the driver sends for some messages:
/// nothing but the model and the temperature is set for sampling, the
/// provider may call tools side by side, and the answer is not streamed.
pub open spec fn is_request(
    request: ChatRequest,
    provider: MistralNeMoProvider,
    model: Seq<char>,
    temperature: JsonModel,
    tools: Option<Seq<JsonModel>>,
) -> bool {
    &&& request.model@ == model
    &&& request.temperature matches Some(t) && json_model(t) == temperature
    &&& request.max_tokens is None
    &&& request.top_p is None
    &&& request.random_seed is None
    &&& request.safe_prompt == provider.safe_prompt
    &&& optional_models(request.tools) == tools
    &&& request.parallel_tool_calls == Some(true)
    &&& request.response_format is None
    &&& request.stream == Some(false)
}

/// The text of the first choice of an answer; no text where there is no
/// choice.
pub open spec fn first_text(response: ApiChatResponse) -> Seq<char> {
    if response.choices@.len() > 0 {
        response.choices@[0].message.content@
    } else {
        Seq::empty()
    }
}

/// Whether a tool call of a conversation is what the provider's tool call
/// says: the same function, its arguments written as JSON text, and the
/// same id where the provider gave one.
pub open spec fn call_taken_from(call: ToolCall, native: ApiToolCall) -> bool {
    &&& call.name@ == native.function.name@
    &&& call.arguments@ == json_text(json_model(native.function.arguments))
    &&& native.id matches Some(id) ==> call.id@ == id@
}

/// Whether tool calls are what the provider's tool calls say, one for one.
pub open spec fn calls_taken_from(calls: Seq<ToolCall>, native: Seq<ApiToolCall>) -> bool {
    &&& calls.len() == native.len()
    &&& forall|i: int| 0 <= i < calls.len() ==> call_taken_from(#[trigger] calls[i], native[i])
}

/// What the provider's answer says, as the drivers report an answer. With
/// tool calls the text is reported only where it is not empty; without them
/// the text is always reported, be it empty.
pub open spec fn answer_from(out: ChatResponse, response: ApiChatResponse) -> bool {
    &&& out.usage == Some(
        (TokenUsage {
            input_tokens: response.usage.prompt_tokens,
            output_tokens: response.usage.completion_tokens,
        }),
    )
    &&& out.reasoning_content is None
    &&& if response.choices@.len() > 0 && response.choices@[0].message.tool_calls@.len() > 0 {
        let message = response.choices@[0].message;
        &&& calls_taken_from(out.tool_calls@, message.tool_calls@)
        &&& text_view(out.text) == if message.content@.len() == 0 {
            None
        } else {
            Some(message.content@)
        }
    } else {
        &&& out.tool_calls@.len() == 0
        &&& text_view(out.text) == Some(first_text(response))
    }
}

/// Takes a tool call over from the provider. `fallback` becomes its id
/// where the provider gave none; the arguments are `arguments`, or `{}`
/// where there are none.
pub fn take_call(native: &ApiToolCall, fallback: String, arguments: Option<String>) -> (r: ToolCall)
    ensures
        r.name@ == native.function.name@,
        r.id@ == match native.id {
            Some(id) => id@,
            None => fallback@,
        },
        r.arguments@ == match arguments {
            Some(text) => text@,
            None => "{}"@,
        },
{
    ToolCall {
        id: match &native.id {
            Some(id) => id.clone(),
            None => fallback,
        },
        name: native.function.name.clone(),
        arguments: match arguments {
            Some(text) => text,
            None => "{}".to_owned(),
        },
    }
}

fn take_calls(native: &Vec<ApiToolCall>) -> (r: Vec<ToolCall>)
    ensures
        calls_taken_from(r@, native@),
{
    let mut out: Vec<ToolCall> = Vec::new();
    let mut i: usize = 0;
    while i < native.len()
        invariant
            i <= native.len(),
            out@.len() == i,
            forall|j: int| 0 <= j < i ==> call_taken_from(#[trigger] out@[j], native@[j]),
        decreases native.len() - i,
    {
        let arguments = json_to_text(&native[i].function.arguments);
        out.push(take_call(&native[i], fresh_id(), arguments));
        i += 1;
    }
    out
}

/// The tools that go with a chat: the documents of the tools of the
/// library, or none where there are no tools.
pub fn chat_tools(tools: Option<&Vec<ToolSpec>>) -> (r: Option<Vec<serde_json::Value>>)
    ensures
        match tools {
            Some(specs) if specs@.len() > 0 => optional_models(r) == Some(tool_documents(specs@)),
            _ => r is None,
        },
{
    match tools {
        Some(specs) => if specs.len() > 0 {
            Some(convert_tools(specs))
        } else {
            None
        },
        None => None,
    }
}

/// The answer that reports a plain text.
pub fn plain_answer(text: String) -> (r: ChatResponse)
    ensures
        text_view(r.text) == Some(text@),
        r.tool_calls@.len() == 0,
        r.usage is None,
        r.reasoning_content is None,
{
    ChatResponse { text: Some(text), tool_calls: Vec::new(), usage: None, reasoning_content: None }
}

impl MistralNeMoProvider {
    /// Where chat requests are sent.
    pub fn endpoint(&self) -> (r: String)
        ensures
            r@ == self.base_url@ + "/chat/completions"@,
    {
        join(self.base_url.as_str(), "/chat/completions")
    }

    /// The request that carries some messages to the provider.
    pub fn request(
        &self,
        messages: Vec<Message>,
        model: &str,
        temperature: serde_json::Value,
        tools: Option<&Vec<serde_json::Value>>,
    ) -> (r: ChatRequest)
        ensures
            r.messages == messages,
            is_request(
                r,
                *self,
                model@,
                json_model(temperature),
                match tools {
                    Some(items) => Some(json_models(items@)),
                    None => None,
                },
            ),
    {
        ChatRequest {
            model: model.to_owned(),
            messages,
            temperature: Some(temperature),
            max_tokens: None,
            top_p: None,
            random_seed: None,
            safe_prompt: self.safe_prompt,
            tools: match tools {
                Some(items) => Some(copy_documents(items)),
                None => None,
            },
            parallel_tool_calls: Some(true),
            response_format: None,
            stream: Some(false),
        }
    }

    /// The request for a single prompt.
    pub fn prompt_request(
        &self,
        system_prompt: Option<&str>,
        message: &str,
        model: &str,
        temperature: serde_json::Value,
    ) -> (r: ChatRequest)
        ensures
            is_prompt(r.messages@, str_view(system_prompt), message@),
            is_request(r, *self, model@, json_model(temperature), None),
    {
        let mut messages: Vec<Message> = Vec::new();
        match system_prompt {
            Some(sys) => messages.push(Message::plain("system", sys)),
            None => {},
        }
        messages.push(Message::plain("user", message));
        self.request(messages, model, temperature, None)
    }

    /// The request for a conversation.
    pub fn history_request(
        &self,
        messages: &Vec<ChatMessage>,
        model: &str,
        temperature: serde_json::Value,
    ) -> (r: ChatRequest)
        ensures
            messages_from(r.messages@, messages@),
            is_request(r, *self, model@, json_model(temperature), None),
    {
        self.request(self.convert_messages(messages), model, temperature, None)
    }

    /// The request for a conversation with tools handed over as documents.
    /// No documents at all are no tools.
    pub fn tools_request(
        &self,
        messages: &Vec<ChatMessage>,
        tools: &Vec<serde_json::Value>,
        model: &str,
        temperature: serde_json::Value,
    ) -> (r: ChatRequest)
        ensures
            messages_from(r.messages@, messages@),
            is_request(
                r,
                *self,
                model@,
                json_model(temperature),
                if tools@.len() == 0 {
                    None
                } else {
                    Some(json_models(tools@))
                },
            ),
    {
        let given = if tools.len() == 0 {
            None
        } else {
            Some(tools)
        };
        self.request(self.convert_messages(messages), model, temperature, given)
    }

    /// The text that the provider answered: that of its first choice, or no
    /// text where it made no choice.
    pub fn first_content(response: &ApiChatResponse) -> (r: String)
        ensures
            r@ == first_text(*response),
    {
        if response.choices.len() > 0 {
            response.choices[0].message.content.clone()
        } else {
            String::new()
        }
    }

    /// What the provider answered to a conversation with tools.
    pub fn tools_answer(response: &ApiChatResponse) -> (r: ChatResponse)
        ensures
            answer_from(r, *response),
    {
        let usage = Some(
            TokenUsage {
                input_tokens: response.usage.prompt_tokens,
                output_tokens: response.usage.completion_tokens,
            },
        );
        if response.choices.len() > 0 {
            let message = &response.choices[0].message;
            if message.tool_calls.len() > 0 {
                let tool_calls = take_calls(&message.tool_calls);
                let text = if message.content.as_str().unicode_len() == 0 {
                    None
                } else {
                    Some(message.content.clone())
                };
                return ChatResponse { text, tool_calls, usage, reasoning_content: None };
            }
        }
        ChatResponse {
            text: Some(Self::first_content(response)),
            tool_calls: Vec::new(),
            usage,
            reasoning_content: None,
        }
    }
}

} // verus!
