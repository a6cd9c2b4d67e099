//! The driver for Phi-4.
use crate::json::{
    json_array, json_model, json_models, json_object, json_string, json_u64, members_insert,
    members_new, no_members, put_optional_text, put_text, text_member, text_view, with_optional,
    JsonModel,
};
use crate::mcp::payload::optional_text;
use crate::mcp::wire::optional_model;
use crate::providers::completions::{
    assistant_record, calls_taken_from, effective_text, native_call_encodings,
    native_calls_to_json, offer_tools, offered_from, read_assistant, read_tool, take_calls,
    tool_record, usage_of, CompletionResponse, NativeFunctionCall, NativeToolCall,
    NativeToolSpec, ResponseMessage,
};
use crate::providers::traits::{
    calls_decoded_from, tool_documents, ChatMessage, ChatResponse, ProviderCapabilities,
    TokenUsage, ToolCall, ToolSpec, ToolsPayload,
};
use crate::text::{join, str_eq, trim_end_matches, without_trailing};
use vstd::prelude::*;

verus! {

/// Where the provider is reached unless told otherwise.
pub const PHI4_DEFAULT_BASE_URL: &'static str = "https://models.inference.ai.azure.com";

/// The address of the provider unless told otherwise.
pub open spec fn default_base_url() -> Seq<char> {
    "https://models.inference.ai.azure.com"@
}

pub struct Phi4Provider {
    pub base_url: String,
    pub credential: Option<String>,
}

impl Phi4Provider {
    pub fn new(credential: Option<&str>) -> (r: Self)
        ensures
            r.base_url@ == default_base_url(),
            crate::json::text_view(r.credential) == match credential {
                Some(c) => Some(c@),
                None => None,
            },
    {
        Self::with_base_url(None, credential)
    }

    /// A driver for the provider at an address. The slashes at the end of
    /// the address are dropped; the credential is kept as it is given.
    pub fn with_base_url(base_url: Option<&str>, credential: Option<&str>) -> (r: Self)
        ensures
            r.base_url@ == match base_url {
                Some(url) => without_trailing(url@, '/'),
                None => default_base_url(),
            },
            crate::json::text_view(r.credential) == match credential {
                Some(c) => Some(c@),
                None => None,
            },
    {
        let base_url = match base_url {
            Some(url) => trim_end_matches(url, '/').to_owned(),
            None => PHI4_DEFAULT_BASE_URL.to_owned(),
        };
        let credential = match credential {
            Some(c) => Some(c.to_owned()),
            None => None,
        };
        Self { base_url, credential }
    }

    pub fn capabilities(&self) -> (r: ProviderCapabilities)
        ensures
            r == (ProviderCapabilities { native_tool_calling: true, vision: true }),
    {
        ProviderCapabilities { native_tool_calling: true, vision: true }
    }

    pub fn supports_native_tools(&self) -> (r: bool)
        ensures
            r,
    {
        true
    }
}

/// The address of an image.
#[derive(Debug, Clone)]
pub struct ImageUrl {
    pub url: String,
}

/// One part of a message in several parts.
#[derive(Debug, Clone)]
pub struct ContentPart {
    pub kind: String,
    pub text: Option<String>,
    pub image_url: Option<ImageUrl>,
}

/// What a message says: a text, or several parts.
#[derive(Debug, Clone)]
pub enum Content {
    Text(String),
    MultiContent(Vec<ContentPart>),
}

/// One message as the provider takes it.
#[derive(Debug, Clone)]
pub struct Message {
    pub role: String,
    pub content: Content,
    pub tool_calls: Option<Vec<NativeToolCall>>,
}

/// A chat request as the provider takes it. The temperature and `top_p` are
/// JSON numbers, handed through as they are given.
#[derive(Debug, Clone)]
pub struct ChatRequest {
    pub model: String,
    pub messages: Vec<Message>,
    pub temperature: serde_json::Value,
    pub max_tokens: Option<u32>,
    pub top_p: Option<serde_json::Value>,
    pub reasoning_effort: Option<String>,
    pub tools: Option<Vec<NativeToolSpec>>,
    pub tool_choice: Option<String>,
}

impl ContentPart {
    /// The document of a part: its `type`, and its text and image where it
    /// has them.
    pub open spec fn encoding(&self) -> JsonModel {
        JsonModel::Object(
            with_optional(
                with_optional(
                    no_members().insert("type"@, JsonModel::Text(self.kind@)),
                    "text"@,
                    optional_text(self.text),
                ),
                "image_url"@,
                match self.image_url {
                    Some(image) => Some(
                        JsonModel::Object(no_members().insert("url"@, JsonModel::Text(image.url@))),
                    ),
                    None => None,
                },
            ),
        )
    }

    pub fn to_json(&self) -> (r: serde_json::Value)
        ensures
            json_model(r) == self.encoding(),
    {
        let mut members = members_new();
        put_text(&mut members, "type", self.kind.as_str());
        put_optional_text(&mut members, "text", &self.text);
        match &self.image_url {
            Some(image) => {
                let mut inner = members_new();
                put_text(&mut inner, "url", image.url.as_str());
                members_insert(&mut members, "image_url".to_owned(), json_object(inner));
            },
            None => {},
        }
        json_object(members)
    }
}

/// The documents of parts, one for one.
pub open spec fn part_encodings(parts: Seq<ContentPart>) -> Seq<JsonModel> {
    Seq::new(parts.len(), |i: int| parts[i].encoding())
}

impl Content {
    /// The document of a content: a text is a string, parts are an array.
    pub open spec fn encoding(&self) -> JsonModel {
        match *self {
            Content::Text(s) => JsonModel::Text(s@),
            Content::MultiContent(parts) => JsonModel::Array(part_encodings(parts@)),
        }
    }

    pub fn to_json(&self) -> (r: serde_json::Value)
        ensures
            json_model(r) == self.encoding(),
    {
        match self {
            Content::Text(s) => json_string(s.clone()),
            Content::MultiContent(parts) => {
                let mut out: Vec<serde_json::Value> = Vec::new();
                let mut i: usize = 0;
                while i < parts.len()
                    invariant
                        i <= parts.len(),
                        out@.len() == i,
                        forall|j: int|
                            0 <= j < i ==> json_model(#[trigger] out@[j]) == parts@[j].encoding(),
                    decreases parts.len() - i,
                {
                    out.push(parts[i].to_json());
                    i += 1;
                }
                assert(json_models(out@) =~= part_encodings(parts@));
                json_array(out)
            },
        }
    }

    /// Whether this is a text with the given characters.
    pub open spec fn is_text(&self, text: Seq<char>) -> bool {
        *self matches Content::Text(s) && s@ == text
    }
}

impl Message {
    /// The document of a message; its tool calls only where it has some.
    pub open spec fn encoding(&self) -> JsonModel {
        JsonModel::Object(
            with_optional(
                no_members().insert("role"@, JsonModel::Text(self.role@)).insert(
                    "content"@,
                    self.content.encoding(),
                ),
                "tool_calls"@,
                match self.tool_calls {
                    Some(calls) => Some(JsonModel::Array(native_call_encodings(calls@))),
                    None => None,
                },
            ),
        )
    }

    pub fn to_json(&self) -> (r: serde_json::Value)
        ensures
            json_model(r) == self.encoding(),
    {
        let mut members = members_new();
        put_text(&mut members, "role", self.role.as_str());
        members_insert(&mut members, "content".to_owned(), self.content.to_json());
        match &self.tool_calls {
            Some(calls) => {
                members_insert(&mut members, "tool_calls".to_owned(), native_calls_to_json(calls));
            },
            None => {},
        }
        json_object(members)
    }

    /// A message that is a plain text.
    pub fn plain(role: &str, text: &str) -> (r: Self)
        ensures
            r.role@ == role@,
            r.content.is_text(text@),
            r.tool_calls is None,
    {
        Self { role: role.to_owned(), content: Content::Text(text.to_owned()), tool_calls: None }
    }
}

/// The documents of messages, one for one.
pub open spec fn message_encodings(messages: Seq<Message>) -> Seq<JsonModel> {
    Seq::new(messages.len(), |i: int| messages[i].encoding())
}

/// The documents of tools, one for one.
pub open spec fn tool_encodings(tools: Seq<NativeToolSpec>) -> Seq<JsonModel> {
    Seq::new(tools.len(), |i: int| tools[i].encoding())
}

fn messages_to_json(messages: &Vec<Message>) -> (r: serde_json::Value)
    ensures
        json_model(r) == JsonModel::Array(message_encodings(messages@)),
{
    let mut out: Vec<serde_json::Value> = Vec::new();
    let mut i: usize = 0;
    while i < messages.len()
        invariant
            i <= messages.len(),
            out@.len() == i,
            forall|j: int| 0 <= j < i ==> json_model(#[trigger] out@[j]) == messages@[j].encoding(),
        decreases messages.len() - i,
    {
        out.push(messages[i].to_json());
        i += 1;
    }
    assert(json_models(out@) =~= message_encodings(messages@));
    json_array(out)
}

fn tools_to_json(tools: &Vec<NativeToolSpec>) -> (r: serde_json::Value)
    ensures
        json_model(r) == JsonModel::Array(tool_encodings(tools@)),
{
    let mut out: Vec<serde_json::Value> = Vec::new();
    let mut i: usize = 0;
    while i < tools.len()
        invariant
            i <= tools.len(),
            out@.len() == i,
            forall|j: int| 0 <= j < i ==> json_model(#[trigger] out@[j]) == tools@[j].encoding(),
        decreases tools.len() - i,
    {
        out.push(tools[i].to_json());
        i += 1;
    }
    assert(json_models(out@) =~= tool_encodings(tools@));
    json_array(out)
}

impl ChatRequest {
    /// The document of a request. The model, the messages and the
    /// temperature are always there; every other member only where it is
    /// set.
    pub open spec fn encoding(&self) -> JsonModel {
        JsonModel::Object(
            with_optional(
                with_optional(
                    with_optional(
                        with_optional(
                            with_optional(
                                no_members().insert("model"@, JsonModel::Text(self.model@)).insert(
                                    "messages"@,
                                    JsonModel::Array(message_encodings(self.messages@)),
                                ).insert("temperature"@, json_model(self.temperature)),
                                "max_tokens"@,
                                match self.max_tokens {
                                    Some(n) => Some(JsonModel::Int(n as int)),
                                    None => None,
                                },
                            ),
                            "top_p"@,
                            optional_model(self.top_p),
                        ),
                        "reasoning_effort"@,
                        optional_text(self.reasoning_effort),
                    ),
                    "tools"@,
                    match self.tools {
                        Some(tools) => Some(JsonModel::Array(tool_encodings(tools@))),
                        None => None,
                    },
                ),
                "tool_choice"@,
                optional_text(self.tool_choice),
            ),
        )
    }

    pub fn to_json(&self) -> (r: serde_json::Value)
        ensures
            json_model(r) == self.encoding(),
    {
        let mut members = members_new();
        put_text(&mut members, "model", self.model.as_str());
        members_insert(&mut members, "messages".to_owned(), messages_to_json(&self.messages));
        members_insert(&mut members, "temperature".to_owned(), self.temperature.clone());
        match self.max_tokens {
            Some(n) => {
                members_insert(&mut members, "max_tokens".to_owned(), json_u64(n as u64));
            },
            None => {},
        }
        match &self.top_p {
            Some(p) => {
                members_insert(&mut members, "top_p".to_owned(), p.clone());
            },
            None => {},
        }
        put_optional_text(&mut members, "reasoning_effort", &self.reasoning_effort);
        match &self.tools {
            Some(tools) => {
                members_insert(&mut members, "tools".to_owned(), tools_to_json(tools));
            },
            None => {},
        }
        put_optional_text(&mut members, "tool_choice", &self.tool_choice);
        json_object(members)
    }
}

/// Whether a tool call for the provider is what a recorded tool call says.
pub open spec fn native_from(native: NativeToolCall, item: JsonModel) -> bool {
    &&& text_view(native.id) == text_member(item, "id"@)
    &&& native.kind matches Some(kind) && kind@ == "function"@
    &&& text_member(item, "name"@) == Some(native.function.name@)
    &&& text_member(item, "arguments"@) == Some(native.function.arguments@)
}

/// Whether tool calls for the provider are what recorded tool calls say,
/// one for one.
pub open spec fn natives_from(native: Seq<NativeToolCall>, items: Seq<JsonModel>) -> bool {
    &&& native.len() == items.len()
    &&& forall|i: int| 0 <= i < native.len() ==> native_from(#[trigger] native[i], items[i])
}

/// Whether a message for the provider is what a message of the conversation
/// says. An assistant message that records tool calls carries them and the
/// text that goes with them; a tool message that is JSON carries the text
/// of its content; every other message is carried as it is.
pub open spec fn message_from(out: Message, msg: ChatMessage) -> bool {
    if msg.role@ == "assistant"@ && assistant_record(msg.content@) is Some {
        let (items, text) = assistant_record(msg.content@)->Some_0;
        &&& out.role@ == "assistant"@
        &&& out.content.is_text(text)
        &&& if items.len() == 0 {
            out.tool_calls is None
        } else {
            out.tool_calls matches Some(native) && natives_from(native@, items)
        }
    } else if msg.role@ == "tool"@ && tool_record(msg.content@) is Some {
        &&& out.role@ == "tool"@
        &&& out.content.is_text(tool_record(msg.content@)->Some_0)
        &&& out.tool_calls is None
    } else {
        &&& out.role@ == msg.role@
        &&& out.content.is_text(msg.content@)
        &&& out.tool_calls is None
    }
}

fn natives_of(calls: Vec<ToolCall>, Ghost(items): Ghost<Seq<JsonModel>>) -> (r: Vec<NativeToolCall>)
    requires
        calls_decoded_from(calls@, items),
    ensures
        natives_from(r@, items),
{
    let mut out: Vec<NativeToolCall> = Vec::new();
    let mut i: usize = 0;
    while i < calls.len()
        invariant
            i <= calls.len(),
            out@.len() == i,
            calls_decoded_from(calls@, items),
            forall|j: int| 0 <= j < i ==> native_from(#[trigger] out@[j], items[j]),
        decreases calls.len() - i,
    {
        let call = &calls[i];
        assert(calls@[i as int].decoded_from(items[i as int]));
        out.push(
            NativeToolCall {
                id: Some(call.id.clone()),
                kind: Some("function".to_owned()),
                function: NativeFunctionCall {
                    name: call.name.clone(),
                    arguments: call.arguments.clone(),
                },
            },
        );
        i += 1;
    }
    out
}

fn convert_message(msg: &ChatMessage) -> (r: Message)
    ensures
        message_from(r, *msg),
{
    if str_eq(msg.role.as_str(), "assistant") {
        match read_assistant(msg.content.as_str()) {
            Some((calls, text)) => {
                let ghost items = assistant_record(msg.content@)->Some_0.0;
                let native = natives_of(calls, Ghost(items));
                return Message {
                    role: "assistant".to_owned(),
                    content: Content::Text(text),
                    tool_calls: if native.len() == 0 {
                        None
                    } else {
                        Some(native)
                    },
                };
            },
            None => {},
        }
    }
    if str_eq(msg.role.as_str(), "tool") {
        match read_tool(msg.content.as_str()) {
            Some(text) => {
                return Message {
                    role: "tool".to_owned(),
                    content: Content::Text(text),
                    tool_calls: None,
                };
            },
            None => {},
        }
    }
    proof {
        reveal_strlit("assistant");
        reveal_strlit("tool");
    }
    Message { role: msg.role.clone(), content: Content::Text(msg.content.clone()), tool_calls: None }
}

/// Whether messages for the provider are what the messages of a
/// conversation say, one for one.
pub open spec fn messages_from(out: Seq<Message>, messages: Seq<ChatMessage>) -> bool {
    &&& out.len() == messages.len()
    &&& forall|i: int| 0 <= i < out.len() ==> message_from(#[trigger] out[i], messages[i])
}

/// What the provider's message says, as the drivers report an answer: its
/// text where that is not empty, what the model reasoned, and its tool
/// calls. The usage is left open.
pub open spec fn answer_from(out: ChatResponse, message: ResponseMessage) -> bool {
    let text = effective_text(text_view(message.content), text_view(message.reasoning_content));
    &&& text_view(out.text) == if text.len() == 0 {
        None
    } else {
        Some(text)
    }
    &&& text_view(out.reasoning_content) == text_view(message.reasoning_content)
    &&& match message.tool_calls {
        Some(calls) => calls_taken_from(out.tool_calls@, calls@),
        None => out.tool_calls@.len() == 0,
    }
}

impl Phi4Provider {
    /// Lays tools out for the provider; none where none are given.
    pub fn convert_tools(tools: Option<&Vec<ToolSpec>>) -> (r: Option<Vec<NativeToolSpec>>)
        ensures
            match tools {
                Some(items) => r matches Some(native) && offered_from(native@, items@),
                None => r is None,
            },
    {
        offer_tools(tools)
    }

    /// Lays a conversation out for the provider, message by message.
    pub fn convert_messages(messages: &Vec<ChatMessage>) -> (r: Vec<Message>)
        ensures
            messages_from(r@, messages@),
    {
        let mut out: Vec<Message> = Vec::new();
        let mut i: usize = 0;
        while i < messages.len()
            invariant
                i <= messages.len(),
                out@.len() == i,
                forall|j: int| 0 <= j < i ==> message_from(#[trigger] out@[j], messages@[j]),
            decreases messages.len() - i,
        {
            out.push(convert_message(&messages[i]));
            i += 1;
        }
        out
    }

    /// Reports the provider's message as an answer, without usage.
    pub fn parse_response(message: ResponseMessage) -> (r: ChatResponse)
        ensures
            answer_from(r, message),
            r.usage is None,
    {
        let text = message.effective_content();
        let tool_calls = take_calls(&message.tool_calls);
        ChatResponse {
            text: if text.as_str().unicode_len() == 0 {
                None
            } else {
                Some(text)
            },
            tool_calls,
            usage: None,
            reasoning_content: message.reasoning_content,
        }
    }
}

/// Why a request to the provider cannot be made or answered.
#[derive(Debug, Clone)]
pub enum Phi4Fault {
    /// The driver holds no credential.
    MissingCredential,
    /// A tool document is no tool of the provider.
    InvalidToolSpec,
    /// A tool document names a kind other than `function`.
    UnsupportedToolKind(String),
    /// The provider's answer holds no choice.
    NoResponse,
}

/// A fault with its texts as characters.
pub enum Phi4FaultModel {
    MissingCredential,
    InvalidToolSpec,
    UnsupportedToolKind(Seq<char>),
    NoResponse,
}

impl View for Phi4Fault {
    type V = Phi4FaultModel;

    open spec fn view(&self) -> Phi4FaultModel {
        match *self {
            Phi4Fault::MissingCredential => Phi4FaultModel::MissingCredential,
            Phi4Fault::InvalidToolSpec => Phi4FaultModel::InvalidToolSpec,
            Phi4Fault::UnsupportedToolKind(kind) => Phi4FaultModel::UnsupportedToolKind(kind@),
            Phi4Fault::NoResponse => Phi4FaultModel::NoResponse,
        }
    }
}

impl Phi4Fault {
    /// What the fault says.
    pub open spec fn text(&self) -> Seq<char> {
        match *self {
            Phi4Fault::MissingCredential =>
                "Phi-4 API key not set. Set PHI4_API_KEY, AZURE_OPENAI_API_KEY, or edit config.toml."@,
            Phi4Fault::InvalidToolSpec => "Invalid Phi-4 tool specification"@,
            Phi4Fault::UnsupportedToolKind(kind) =>
                "Invalid Phi-4 tool specification: unsupported tool type '"@ + kind@
                    + "', expected 'function'"@,
            Phi4Fault::NoResponse => "No response from Phi-4"@,
        }
    }

    /// Writes the fault out.
    pub fn message(&self) -> (r: String)
        ensures
            r@ == self.text(),
    {
        match self {
            Phi4Fault::MissingCredential =>
                "Phi-4 API key not set. Set PHI4_API_KEY, AZURE_OPENAI_API_KEY, or edit config.toml.".to_owned(),
            Phi4Fault::InvalidToolSpec => "Invalid Phi-4 tool specification".to_owned(),
            Phi4Fault::UnsupportedToolKind(kind) => {
                let mut text = join(
                    "Invalid Phi-4 tool specification: unsupported tool type '",
                    kind.as_str(),
                );
                text.append("', expected 'function'");
                text
            },
            Phi4Fault::NoResponse => "No response from Phi-4".to_owned(),
        }
    }
}

/// What is wrong with a tool document, if anything.
pub open spec fn tool_fault(item: JsonModel) -> Option<Phi4FaultModel> {
    if !NativeToolSpec::decodable(item) {
        Some(Phi4FaultModel::InvalidToolSpec)
    } else if text_member(item, "type"@) != Some("function"@) {
        Some(Phi4FaultModel::UnsupportedToolKind(text_member(item, "type"@)->Some_0))
    } else {
        None
    }
}

/// The fault of the first tool document that has one, from `from` on.
pub open spec fn first_tool_fault(items: Seq<JsonModel>, from: int) -> Option<Phi4FaultModel>
    decreases items.len() - from,
{
    if from < 0 || from >= items.len() {
        None
    } else if tool_fault(items[from]) is Some {
        tool_fault(items[from])
    } else {
        first_tool_fault(items, from + 1)
    }
}

/// Whether tools of the provider are what documents say, one for one.
pub open spec fn tools_decoded_from(tools: Seq<NativeToolSpec>, items: Seq<JsonModel>) -> bool {
    &&& tools.len() == items.len()
    &&& forall|i: int| 0 <= i < tools.len() ==> (#[trigger] tools[i]).decoded_from(items[i])
}

/// Reads the tools that a caller hands over as documents. No tools at all
/// are no tools; otherwise every document must be a tool of the kind
/// `function`, and the first that is not decides the fault.
pub fn native_tools(tools: &Vec<serde_json::Value>) -> (r: Result<
    Option<Vec<NativeToolSpec>>,
    Phi4Fault,
>)
    ensures
        match r {
            Ok(None) => tools@.len() == 0,
            Ok(Some(native)) => tools@.len() > 0 && first_tool_fault(json_models(tools@), 0)
                is None && tools_decoded_from(native@, json_models(tools@)),
            Err(fault) => first_tool_fault(json_models(tools@), 0) == Some(fault@),
        },
{
    if tools.len() == 0 {
        return Ok(None);
    }
    let ghost models = json_models(tools@);
    let mut out: Vec<NativeToolSpec> = Vec::new();
    let mut i: usize = 0;
    while i < tools.len()
        invariant
            i <= tools.len(),
            out@.len() == i,
            models == json_models(tools@),
            first_tool_fault(models, 0) == first_tool_fault(models, i as int),
            forall|j: int| 0 <= j < i ==> (#[trigger] out@[j]).decoded_from(models[j]),
        decreases tools.len() - i,
    {
        match NativeToolSpec::from_json(&tools[i]) {
            Some(spec) => {
                if !str_eq(spec.kind.as_str(), "function") {
                    return Err(Phi4Fault::UnsupportedToolKind(spec.kind));
                }
                out.push(spec);
            },
            None => {
                return Err(Phi4Fault::InvalidToolSpec);
            },
        }
        i += 1;
    }
    Ok(Some(out))
}

/// The messages of a single prompt: the system prompt where there is one,
/// then the user's message.
pub open spec fn is_prompt(
    messages: Seq<Message>,
    system_prompt: Option<Seq<char>>,
    message: Seq<char>,
) -> bool {
    match system_prompt {
        Some(sys) => {
            &&& messages.len() == 2
            &&& messages[0].role@ == "system"@
            &&& messages[0].content.is_text(sys)
            &&& messages[0].tool_calls is None
            &&& messages[1].role@ == "user"@
            &&& messages[1].content.is_text(message)
            &&& messages[1].tool_calls is None
        },
        None => {
            &&& messages.len() == 1
            &&& messages[0].role@ == "user"@
            &&& messages[0].content.is_text(message)
            &&& messages[0].tool_calls is None
        },
    }
}

/// The characters of an optional borrowed text.
pub open spec fn str_view(s: Option<&str>) -> Option<Seq<char>> {
    match s {
        Some(s) => Some(s@),
        None => None,
    }
}

impl Phi4Provider {
    /// Where chat requests are sent.
    pub fn endpoint(&self) -> (r: String)
        ensures
            r@ == self.base_url@ + "/chat/completions"@,
    {
        join(self.base_url.as_str(), "/chat/completions")
    }

    /// Where the models are listed.
    pub fn models_endpoint(&self) -> (r: String)
        ensures
            r@ == self.base_url@ + "/models"@,
    {
        join(self.base_url.as_str(), "/models")
    }

    /// The authorization that goes with every request; a fault where the
    /// driver holds no credential.
    pub fn authorization(&self) -> (r: Result<String, Phi4Fault>)
        ensures
            match r {
                Ok(text) => self.credential matches Some(c) && text@ == "Bearer "@ + c@,
                Err(fault) => self.credential is None && fault@
                    == Phi4FaultModel::MissingCredential,
            },
    {
        match &self.credential {
            Some(c) => Ok(join("Bearer ", c.as_str())),
            None => Err(Phi4Fault::MissingCredential),
        }
    }

    /// The request for a single prompt. A fault where the driver holds no
    /// credential.
    pub fn prompt_request(
        &self,
        system_prompt: Option<&str>,
        message: &str,
        model: &str,
        temperature: serde_json::Value,
    ) -> (r: Result<ChatRequest, Phi4Fault>)
        ensures
            match r {
                Ok(request) => {
                    &&& self.credential is Some
                    &&& request.model@ == model@
                    &&& is_prompt(request.messages@, str_view(system_prompt), message@)
                    &&& json_model(request.temperature) == json_model(temperature)
                    &&& request.max_tokens is None
                    &&& request.top_p is None
                    &&& request.reasoning_effort is None
                    &&& request.tools is None
                    &&& request.tool_choice is None
                },
                Err(fault) => self.credential is None && fault@
                    == Phi4FaultModel::MissingCredential,
            },
    {
        if self.credential.is_none() {
            return Err(Phi4Fault::MissingCredential);
        }
        let mut messages: Vec<Message> = Vec::new();
        match system_prompt {
            Some(sys) => messages.push(Message::plain("system", sys)),
            None => {},
        }
        messages.push(Message::plain("user", message));
        Ok(
            ChatRequest {
                model: model.to_owned(),
                messages,
                temperature,
                max_tokens: None,
                top_p: None,
                reasoning_effort: None,
                tools: None,
                tool_choice: None,
            },
        )
    }

    /// The request for a conversation with the tools that the provider may
    /// call. With tools the provider is left to choose among them.
    pub fn conversation_request(
        &self,
        messages: &Vec<ChatMessage>,
        tools: Option<Vec<NativeToolSpec>>,
        model: &str,
        temperature: serde_json::Value,
    ) -> (r: Result<ChatRequest, Phi4Fault>)
        ensures
            match r {
                Ok(request) => {
                    &&& self.credential is Some
                    &&& request.model@ == model@
                    &&& messages_from(request.messages@, messages@)
                    &&& json_model(request.temperature) == json_model(temperature)
                    &&& request.max_tokens is None
                    &&& request.top_p is None
                    &&& request.reasoning_effort is None
                    &&& request.tools == tools
                    &&& text_view(request.tool_choice) == if tools is Some {
                        Some("auto"@)
                    } else {
                        None
                    }
                },
                Err(fault) => self.credential is None && fault@
                    == Phi4FaultModel::MissingCredential,
            },
    {
        if self.credential.is_none() {
            return Err(Phi4Fault::MissingCredential);
        }
        let tool_choice = if tools.is_some() {
            Some("auto".to_owned())
        } else {
            None
        };
        Ok(
            ChatRequest {
                model: model.to_owned(),
                messages: Self::convert_messages(messages),
                temperature,
                max_tokens: None,
                top_p: None,
                reasoning_effort: None,
                tools,
                tool_choice,
            },
        )
    }

    /// The request for a conversation with the tools of the library.
    pub fn chat_request(
        &self,
        messages: &Vec<ChatMessage>,
        tools: Option<&Vec<ToolSpec>>,
        model: &str,
        temperature: serde_json::Value,
    ) -> (r: Result<ChatRequest, Phi4Fault>)
        ensures
            match r {
                Ok(request) => {
                    &&& self.credential is Some
                    &&& request.model@ == model@
                    &&& messages_from(request.messages@, messages@)
                    &&& json_model(request.temperature) == json_model(temperature)
                    &&& match tools {
                        Some(items) => request.tools matches Some(native) && offered_from(
                            native@,
                            items@,
                        ) && text_view(request.tool_choice) == Some("auto"@),
                        None => request.tools is None && request.tool_choice is None,
                    }
                },
                Err(fault) => self.credential is None && fault@
                    == Phi4FaultModel::MissingCredential,
            },
    {
        self.conversation_request(messages, Self::convert_tools(tools), model, temperature)
    }

    /// The request for a conversation with tools handed over as documents.
    /// A missing credential is reported before a fault of the tools.
    pub fn tools_request(
        &self,
        messages: &Vec<ChatMessage>,
        tools: &Vec<serde_json::Value>,
        model: &str,
        temperature: serde_json::Value,
    ) -> (r: Result<ChatRequest, Phi4Fault>)
        ensures
            match r {
                Ok(request) => {
                    &&& self.credential is Some
                    &&& first_tool_fault(json_models(tools@), 0) is None
                    &&& request.model@ == model@
                    &&& messages_from(request.messages@, messages@)
                    &&& json_model(request.temperature) == json_model(temperature)
                    &&& if tools@.len() == 0 {
                        request.tools is None && request.tool_choice is None
                    } else {
                        request.tools matches Some(native) && tools_decoded_from(
                            native@,
                            json_models(tools@),
                        ) && text_view(request.tool_choice) == Some("auto"@)
                    }
                },
                Err(fault) => if self.credential is None {
                    fault@ == Phi4FaultModel::MissingCredential
                } else {
                    first_tool_fault(json_models(tools@), 0) == Some(fault@)
                },
            },
    {
        if self.credential.is_none() {
            return Err(Phi4Fault::MissingCredential);
        }
        match native_tools(tools) {
            Ok(native) => self.conversation_request(messages, native, model, temperature),
            Err(fault) => Err(fault),
        }
    }

    /// The text that the provider answered to a single prompt: that of its
    /// first choice. A fault where it made no choice.
    pub fn prompt_answer(response: &CompletionResponse) -> (r: Result<String, Phi4Fault>)
        ensures
            match r {
                Ok(text) => response.choices@.len() > 0 && text@ == effective_text(
                    text_view(response.choices@[0].message.content),
                    text_view(response.choices@[0].message.reasoning_content),
                ),
                Err(fault) => response.choices@.len() == 0 && fault@
                    == Phi4FaultModel::NoResponse,
            },
    {
        if response.choices.len() == 0 {
            Err(Phi4Fault::NoResponse)
        } else {
            Ok(response.choices[0].message.effective_content())
        }
    }

    /// What the provider answered to a conversation: its first choice, with
    /// the token counts of the answer. A fault where it made no choice.
    pub fn chat_answer(response: CompletionResponse) -> (r: Result<ChatResponse, Phi4Fault>)
        ensures
            match r {
                Ok(answer) => response.choices@.len() > 0 && answer_from(
                    answer,
                    response.choices@[0].message,
                ) && answer.usage == match response.usage {
                    Some(u) => Some(
                        (TokenUsage {
                            input_tokens: u.prompt_tokens,
                            output_tokens: u.completion_tokens,
                        }),
                    ),
                    None => None,
                },
                Err(fault) => response.choices@.len() == 0 && fault@
                    == Phi4FaultModel::NoResponse,
            },
    {
        if response.choices.len() == 0 {
            return Err(Phi4Fault::NoResponse);
        }
        let usage = usage_of(response.usage);
        let mut choices = response.choices;
        let first = choices.remove(0);
        let parsed = Self::parse_response(first.message);
        Ok(ChatResponse { usage, ..parsed })
    }
}

impl Phi4Provider {
    /// The tools of the library as the provider takes them with a request.
    pub fn tools_payload(&self, tools: &Vec<ToolSpec>) -> (r: ToolsPayload)
        ensures
            r matches ToolsPayload::OpenAI { tools: native } && json_models(native@)
                == tool_documents(tools@),
    {
        ToolsPayload::openai(tools)
    }
}

} // verus!
