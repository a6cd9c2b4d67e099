//! The driver for Qwen 2.5.
use crate::json::{
    get_text, items_of, json_array, json_as_array, json_as_str, json_get, json_model, json_models,
    json_object, json_parse, json_parsed, json_string, json_u64, member, members_insert,
    members_new, no_members, put_optional_text, put_text, text_member, text_of, text_view,
    with_optional, JsonModel,
};
use crate::mcp::payload::optional_text;
use crate::mcp::wire::optional_model;
use crate::providers::completions::{
    assistant_record, calls_taken_from, offer_tools, offered_from, read_assistant, read_tool,
    take_calls, tool_record, usage_of, CompletionResponse, NativeToolFunctionSpec,
    NativeToolSpec, ResponseMessage,
};
use crate::providers::traits::{
    tool_documents, ChatMessage, ChatResponse, ProviderCapabilities, TokenUsage, ToolSpec,
    ToolsPayload,
};
use crate::text::{join, str_eq, trim_end_matches, without_trailing};
use vstd::prelude::*;

verus! {

/// Where the provider is reached unless told otherwise.
pub const QWEN25_DEFAULT_BASE_URL: &'static str =
    "https://dashscope.aliyuncs.com/compatible-mode/v1";

/// The address of the provider unless told otherwise.
pub open spec fn default_base_url() -> Seq<char> {
    "https://dashscope.aliyuncs.com/compatible-mode/v1"@
}

pub struct Qwen25Provider {
    pub base_url: String,
    pub credential: Option<String>,
}

/// What a message holds: plain text, or parts of text and images.
#[derive(Debug, Clone)]
pub enum Content {
    Text(String),
    MultiContent(Vec<ContentPart>),
}

/// One part of a message: a text or the address of an image.
#[derive(Debug, Clone)]
pub struct ContentPart {
    pub kind: String,
    pub text: Option<String>,
    pub image: Option<String>,
}

/// Whether a part is the text part of a message.
pub open spec fn is_text_part(part: ContentPart, text: Seq<char>) -> bool {
    &&& part.kind@ == "text"@
    &&& part.text matches Some(t) && t@ == text
    &&& part.image is None
}

/// Whether a part is an image part with that address.
pub open spec fn is_image_part(part: ContentPart, url: Seq<char>) -> bool {
    &&& part.kind@ == "image_url"@
    &&& part.text is None
    &&& part.image matches Some(u) && u@ == url
}

/// Whether a content lays out a text and the images that come with it:
/// without images it is the plain text; with images it is the text part
/// followed by one image part for each address, in their order.
pub open spec fn laid_out(content: Content, text: Seq<char>, urls: Seq<Seq<char>>) -> bool {
    match content {
        Content::Text(t) => urls.len() == 0 && t@ == text,
        Content::MultiContent(parts) => {
            &&& urls.len() > 0
            &&& parts@.len() == urls.len() + 1
            &&& is_text_part(parts@[0], text)
            &&& forall|i: int| 0 <= i < urls.len() ==> is_image_part(#[trigger] parts@[i + 1], urls[i])
        },
    }
}

impl Qwen25Provider {
    pub fn new(credential: Option<&str>) -> (r: Self)
        ensures
            r.base_url@ == default_base_url(),
            crate::json::text_view(r.credential) == match credential {
                Some(c) => Some(c@),
                None => None,
            },
    {
        Self::with_base_url(None, credential)
    }

    /// A driver for the provider at an address. The slashes at the end of
    /// the address are dropped; the credential is kept as it is given.
    pub fn with_base_url(base_url: Option<&str>, credential: Option<&str>) -> (r: Self)
        ensures
            r.base_url@ == match base_url {
                Some(url) => without_trailing(url@, '/'),
                None => default_base_url(),
            },
            crate::json::text_view(r.credential) == match credential {
                Some(c) => Some(c@),
                None => None,
            },
    {
        let base_url = match base_url {
            Some(url) => trim_end_matches(url, '/').to_owned(),
            None => QWEN25_DEFAULT_BASE_URL.to_owned(),
        };
        let credential = match credential {
            Some(c) => Some(c.to_owned()),
            None => None,
        };
        Self { base_url, credential }
    }

    /// Lays out a text and the images that come with it. Without images the
    /// content is the plain text; with images it is the text part followed
    /// by one image part for each address, in their order.
    pub fn build_content(&self, text: &str, image_urls: &Vec<String>) -> (r: Content)
        ensures
            laid_out(r, text@, views_of(image_urls@)),
    {
        if image_urls.len() == 0 {
            return Content::Text(text.to_owned());
        }
        let mut parts: Vec<ContentPart> = Vec::new();
        parts.push(ContentPart { kind: "text".to_owned(), text: Some(text.to_owned()), image: None });
        let mut i: usize = 0;
        while i < image_urls.len()
            invariant
                i <= image_urls.len(),
                parts@.len() == i + 1,
                is_text_part(parts@[0], text@),
                forall|j: int| 0 <= j < i ==> is_image_part(#[trigger] parts@[j + 1], image_urls@[j]@),
            decreases image_urls.len() - i,
        {
            parts.push(
                ContentPart {
                    kind: "image_url".to_owned(),
                    text: None,
                    image: Some(image_urls[i].clone()),
                },
            );
            i += 1;
        }
        Content::MultiContent(parts)
    }

    pub fn capabilities(&self) -> (r: ProviderCapabilities)
        ensures
            r == (ProviderCapabilities { native_tool_calling: true, vision: true }),
    {
        ProviderCapabilities { native_tool_calling: true, vision: true }
    }

    pub fn supports_native_tools(&self) -> (r: bool)
        ensures
            r,
    {
        true
    }

    pub fn supports_vision(&self) -> (r: bool)
        ensures
            r,
    {
        self.capabilities().vision
    }
}

/// The texts among the items of an array, in their order.
pub open spec fn texts_among(items: Seq<JsonModel>) -> Seq<Seq<char>>
    decreases items.len(),
{
    if items.len() == 0 {
        Seq::empty()
    } else {
        let rest = texts_among(items.drop_last());
        match text_of(items.last()) {
            Some(t) => rest.push(t),
            None => rest,
        }
    }
}

/// The text and the image addresses that the content of a user message
/// holds. Content that is a JSON object with an array `images` holds the
/// strings of that array as addresses, and its string `text` as text, or no
/// text. Any other content is text as it stands.
pub open spec fn image_content(content: Seq<char>) -> (Seq<char>, Seq<Seq<char>>) {
    match json_parsed(content) {
        Some(m) => match member(m, "images"@) {
            Some(images) => match items_of(images) {
                Some(items) => (
                    match text_member(m, "text"@) {
                        Some(t) => t,
                        None => Seq::empty(),
                    },
                    texts_among(items),
                ),
                None => (content, Seq::empty()),
            },
            None => (content, Seq::empty()),
        },
        None => (content, Seq::empty()),
    }
}

/// The characters of each of some texts.
pub open spec fn views_of(texts: Seq<String>) -> Seq<Seq<char>> {
    Seq::new(texts.len(), |i: int| texts[i]@)
}

/// Takes the content of a user message apart into its text and the
/// addresses of its images.
pub fn extract_image_urls(content: &str) -> (r: (String, Vec<String>))
    ensures
        r.0@ == image_content(content@).0,
        views_of(r.1@) == image_content(content@).1,
{
    let plain = (content.to_owned(), Vec::new());
    assert(views_of(plain.1@) =~= Seq::<Seq<char>>::empty());
    let document = match json_parse(content) {
        Some(v) => v,
        None => {
            return plain;
        },
    };
    let images = match json_get(&document, "images") {
        Some(images) => match json_as_array(images) {
            Some(items) => items,
            None => {
                return plain;
            },
        },
        None => {
            return plain;
        },
    };
    let mut urls: Vec<String> = Vec::new();
    let mut i: usize = 0;
    assert(json_models(images@).subrange(0, 0) =~= Seq::<JsonModel>::empty());
    while i < images.len()
        invariant
            i <= images.len(),
            views_of(urls@) == texts_among(json_models(images@).subrange(0, i as int)),
        decreases images.len() - i,
    {
        let ghost before = views_of(urls@);
        proof {
            let items = json_models(images@);
            assert(items.subrange(0, i + 1).drop_last() =~= items.subrange(0, i as int));
            assert(items.subrange(0, i + 1).last() == json_model(images@[i as int]));
        }
        match json_as_str(&images[i]) {
            Some(url) => {
                urls.push(url.to_owned());
                assert(views_of(urls@) =~= before.push(url@));
            },
            None => {
                assert(views_of(urls@) =~= before);
            },
        }
        i += 1;
    }
    assert(json_models(images@).subrange(0, images@.len() as int) =~= json_models(images@));
    let text = match get_text(&document, "text") {
        Some(t) => t,
        None => String::new(),
    };
    (text, urls)
}

/// One message as the provider takes it.
#[derive(Debug, Clone)]
pub struct Message {
    pub role: String,
    pub content: Content,
}

/// A chat request as the provider takes it. The temperature and `top_p` are
/// JSON numbers, handed through as they are given.
#[derive(Debug, Clone)]
pub struct ChatRequest {
    pub model: String,
    pub messages: Vec<Message>,
    pub temperature: serde_json::Value,
    pub max_tokens: Option<u32>,
    pub top_p: Option<serde_json::Value>,
    pub tools: Option<Vec<NativeToolSpec>>,
    pub tool_choice: Option<String>,
}

impl ContentPart {
    /// The document of a part: its `type`, and its text and image where it
    /// has them.
    pub open spec fn encoding(&self) -> JsonModel {
        JsonModel::Object(
            with_optional(
                with_optional(
                    no_members().insert("type"@, JsonModel::Text(self.kind@)),
                    "text"@,
                    optional_text(self.text),
                ),
                "image"@,
                optional_text(self.image),
            ),
        )
    }

    pub fn to_json(&self) -> (r: serde_json::Value)
        ensures
            json_model(r) == self.encoding(),
    {
        let mut members = members_new();
        put_text(&mut members, "type", self.kind.as_str());
        put_optional_text(&mut members, "text", &self.text);
        put_optional_text(&mut members, "image", &self.image);
        json_object(members)
    }
}

/// The documents of parts, one for one.
pub open spec fn part_encodings(parts: Seq<ContentPart>) -> Seq<JsonModel> {
    Seq::new(parts.len(), |i: int| parts[i].encoding())
}

impl Content {
    /// The document of a content: a text is a string, parts are an array.
    pub open spec fn encoding(&self) -> JsonModel {
        match *self {
            Content::Text(s) => JsonModel::Text(s@),
            Content::MultiContent(parts) => JsonModel::Array(part_encodings(parts@)),
        }
    }

    pub fn to_json(&self) -> (r: serde_json::Value)
        ensures
            json_model(r) == self.encoding(),
    {
        match self {
            Content::Text(s) => json_string(s.clone()),
            Content::MultiContent(parts) => {
                let mut out: Vec<serde_json::Value> = Vec::new();
                let mut i: usize = 0;
                while i < parts.len()
                    invariant
                        i <= parts.len(),
                        out@.len() == i,
                        forall|j: int|
                            0 <= j < i ==> json_model(#[trigger] out@[j]) == parts@[j].encoding(),
                    decreases parts.len() - i,
                {
                    out.push(parts[i].to_json());
                    i += 1;
                }
                assert(json_models(out@) =~= part_encodings(parts@));
                json_array(out)
            },
        }
    }

    /// Whether this is a text with the given characters.
    pub open spec fn is_text(&self, text: Seq<char>) -> bool {
        *self matches Content::Text(s) && s@ == text
    }
}

impl Message {
    pub open spec fn encoding(&self) -> JsonModel {
        JsonModel::Object(
            no_members().insert("role"@, JsonModel::Text(self.role@)).insert(
                "content"@,
                self.content.encoding(),
            ),
        )
    }

    pub fn to_json(&self) -> (r: serde_json::Value)
        ensures
            json_model(r) == self.encoding(),
    {
        let mut members = members_new();
        put_text(&mut members, "role", self.role.as_str());
        members_insert(&mut members, "content".to_owned(), self.content.to_json());
        json_object(members)
    }

    /// A message that is a plain text.
    pub fn plain(role: &str, text: &str) -> (r: Self)
        ensures
            r.role@ == role@,
            r.content.is_text(text@),
    {
        Self { role: role.to_owned(), content: Content::Text(text.to_owned()) }
    }
}

/// The documents of messages, one for one.
pub open spec fn message_encodings(messages: Seq<Message>) -> Seq<JsonModel> {
    Seq::new(messages.len(), |i: int| messages[i].encoding())
}

/// The documents of tools, one for one.
pub open spec fn tool_encodings(tools: Seq<NativeToolSpec>) -> Seq<JsonModel> {
    Seq::new(tools.len(), |i: int| tools[i].encoding())
}

fn messages_to_json(messages: &Vec<Message>) -> (r: serde_json::Value)
    ensures
        json_model(r) == JsonModel::Array(message_encodings(messages@)),
{
    let mut out: Vec<serde_json::Value> = Vec::new();
    let mut i: usize = 0;
    while i < messages.len()
        invariant
            i <= messages.len(),
            out@.len() == i,
            forall|j: int| 0 <= j < i ==> json_model(#[trigger] out@[j]) == messages@[j].encoding(),
        decreases messages.len() - i,
    {
        out.push(messages[i].to_json());
        i += 1;
    }
    assert(json_models(out@) =~= message_encodings(messages@));
    json_array(out)
}

fn tools_to_json(tools: &Vec<NativeToolSpec>) -> (r: serde_json::Value)
    ensures
        json_model(r) == JsonModel::Array(tool_encodings(tools@)),
{
    let mut out: Vec<serde_json::Value> = Vec::new();
    let mut i: usize = 0;
    while i < tools.len()
        invariant
            i <= tools.len(),
            out@.len() == i,
            forall|j: int| 0 <= j < i ==> json_model(#[trigger] out@[j]) == tools@[j].encoding(),
        decreases tools.len() - i,
    {
        out.push(tools[i].to_json());
        i += 1;
    }
    assert(json_models(out@) =~= tool_encodings(tools@));
    json_array(out)
}

impl ChatRequest {
    /// The document of a request. The model, the messages and the
    /// temperature are always there; every other member only where it is
    /// set.
    pub open spec fn encoding(&self) -> JsonModel {
        JsonModel::Object(
            with_optional(
                with_optional(
                    with_optional(
                        with_optional(
                            no_members().insert("model"@, JsonModel::Text(self.model@)).insert(
                                "messages"@,
                                JsonModel::Array(message_encodings(self.messages@)),
                            ).insert("temperature"@, json_model(self.temperature)),
                            "max_tokens"@,
                            match self.max_tokens {
                                Some(n) => Some(JsonModel::Int(n as int)),
                                None => None,
                            },
                        ),
                        "top_p"@,
                        optional_model(self.top_p),
                    ),
                    "tools"@,
                    match self.tools {
                        Some(tools) => Some(JsonModel::Array(tool_encodings(tools@))),
                        None => None,
                    },
                ),
                "tool_choice"@,
                optional_text(self.tool_choice),
            ),
        )
    }

    pub fn to_json(&self) -> (r: serde_json::Value)
        ensures
            json_model(r) == self.encoding(),
    {
        let mut members = members_new();
        put_text(&mut members, "model", self.model.as_str());
        members_insert(&mut members, "messages".to_owned(), messages_to_json(&self.messages));
        members_insert(&mut members, "temperature".to_owned(), self.temperature.clone());
        match self.max_tokens {
            Some(n) => {
                members_insert(&mut members, "max_tokens".to_owned(), json_u64(n as u64));
            },
            None => {},
        }
        match &self.top_p {
            Some(p) => {
                members_insert(&mut members, "top_p".to_owned(), p.clone());
            },
            None => {},
        }
        match &self.tools {
            Some(tools) => {
                members_insert(&mut members, "tools".to_owned(), tools_to_json(tools));
            },
            None => {},
        }
        put_optional_text(&mut members, "tool_choice", &self.tool_choice);
        json_object(members)
    }
}

/// Whether a message for the provider is what a message of the conversation
/// says. A user message is laid out with its images; an assistant message
/// that records tool calls carries the text that goes with them; a tool
/// message that is JSON carries the text of its content; every other
/// message is carried as it is.
pub open spec fn message_from(out: Message, msg: ChatMessage) -> bool {
    if msg.role@ == "user"@ {
        &&& out.role@ == msg.role@
        &&& laid_out(out.content, image_content(msg.content@).0, image_content(msg.content@).1)
    } else if msg.role@ == "assistant"@ && assistant_record(msg.content@) is Some {
        &&& out.role@ == msg.role@
        &&& out.content.is_text(assistant_record(msg.content@)->Some_0.1)
    } else if msg.role@ == "tool"@ && tool_record(msg.content@) is Some {
        &&& out.role@ == "tool"@
        &&& out.content.is_text(tool_record(msg.content@)->Some_0)
    } else {
        &&& out.role@ == msg.role@
        &&& out.content.is_text(msg.content@)
    }
}

/// Whether messages for the provider are what the messages of a
/// conversation say, one for one.
pub open spec fn messages_from(out: Seq<Message>, messages: Seq<ChatMessage>) -> bool {
    &&& out.len() == messages.len()
    &&& forall|i: int| 0 <= i < out.len() ==> message_from(#[trigger] out[i], messages[i])
}

/// The text of an answer: its content, or what the model reasoned where
/// there is no content; none where that text is empty.
pub open spec fn answer_text(content: Option<Seq<char>>, reasoning: Option<Seq<char>>) -> Option<
    Seq<char>,
> {
    let picked = match content {
        Some(c) => Some(c),
        None => reasoning,
    };
    match picked {
        Some(t) if t.len() > 0 => Some(t),
        _ => None,
    }
}

/// What the provider's message says, as the drivers report an answer. The
/// usage is left open.
pub open spec fn answer_from(out: ChatResponse, message: ResponseMessage) -> bool {
    &&& text_view(out.text) == answer_text(
        text_view(message.content),
        text_view(message.reasoning_content),
    )
    &&& text_view(out.reasoning_content) == text_view(message.reasoning_content)
    &&& match message.tool_calls {
        Some(calls) => calls_taken_from(out.tool_calls@, calls@),
        None => out.tool_calls@.len() == 0,
    }
}

fn pick_answer_text(content: &Option<String>, reasoning: &Option<String>) -> (r: Option<String>)
    ensures
        text_view(r) == answer_text(text_view(*content), text_view(*reasoning)),
{
    let picked = match content {
        Some(c) => Some(c),
        None => match reasoning {
            Some(r) => Some(r),
            None => None,
        },
    };
    match picked {
        Some(t) => if t.as_str().unicode_len() > 0 {
            Some(t.clone())
        } else {
            None
        },
        None => None,
    }
}

impl Qwen25Provider {
    fn convert_message(&self, msg: &ChatMessage) -> (r: Message)
        ensures
            message_from(r, *msg),
    {
        proof {
            reveal_strlit("user");
            reveal_strlit("assistant");
            reveal_strlit("tool");
            assert("assistant"@.len() != "tool"@.len());
        }
        if str_eq(msg.role.as_str(), "user") {
            let (text, image_urls) = extract_image_urls(msg.content.as_str());
            return Message {
                role: msg.role.clone(),
                content: self.build_content(text.as_str(), &image_urls),
            };
        }
        let content = if str_eq(msg.role.as_str(), "assistant") {
            match read_assistant(msg.content.as_str()) {
                Some((_, text)) => text,
                None => msg.content.clone(),
            }
        } else if str_eq(msg.role.as_str(), "tool") {
            match read_tool(msg.content.as_str()) {
                Some(text) => text,
                None => msg.content.clone(),
            }
        } else {
            msg.content.clone()
        };
        Message { role: msg.role.clone(), content: Content::Text(content) }
    }

    /// Lays a conversation out for the provider, message by message.
    pub fn convert_messages(&self, messages: &Vec<ChatMessage>) -> (r: Vec<Message>)
        ensures
            messages_from(r@, messages@),
    {
        let mut out: Vec<Message> = Vec::new();
        let mut i: usize = 0;
        while i < messages.len()
            invariant
                i <= messages.len(),
                out@.len() == i,
                forall|j: int| 0 <= j < i ==> message_from(#[trigger] out@[j], messages@[j]),
            decreases messages.len() - i,
        {
            out.push(self.convert_message(&messages[i]));
            i += 1;
        }
        out
    }

    /// Lays tools out for the provider; none where none are given.
    pub fn serialize_tools(&self, tools: Option<&Vec<ToolSpec>>) -> (r: Option<
        Vec<NativeToolSpec>,
    >)
        ensures
            match tools {
                Some(items) => r matches Some(native) && offered_from(native@, items@),
                None => r is None,
            },
    {
        offer_tools(tools)
    }

    /// Reports the provider's message as an answer, without usage.
    pub fn parse_response(&self, message: ResponseMessage) -> (r: ChatResponse)
        ensures
            answer_from(r, message),
            r.usage is None,
    {
        let text = pick_answer_text(&message.content, &message.reasoning_content);
        let tool_calls = take_calls(&message.tool_calls);
        ChatResponse { text, tool_calls, usage: None, reasoning_content: message.reasoning_content }
    }
}

/// Why a request to the provider cannot be made or answered.
#[derive(Debug, Clone, Copy, PartialEq, Eq, Structural)]
pub enum QwenFault {
    /// The driver holds no credential.
    MissingCredential,
    /// The provider's answer holds no choice.
    NoResponse,
}

impl QwenFault {
    /// What the fault says.
    pub open spec fn text(&self) -> Seq<char> {
        match *self {
            QwenFault::MissingCredential =>
                "Qwen API key not set. Set QWEN_API_KEY or DASHSCOPE_API_KEY."@,
            QwenFault::NoResponse => "No response from Qwen"@,
        }
    }

    /// Writes the fault out.
    pub fn message(&self) -> (r: String)
        ensures
            r@ == self.text(),
    {
        match self {
            QwenFault::MissingCredential =>
                "Qwen API key not set. Set QWEN_API_KEY or DASHSCOPE_API_KEY.".to_owned(),
            QwenFault::NoResponse => "No response from Qwen".to_owned(),
        }
    }
}

/// Whether a document offers a tool that the provider can take: its `type`
/// is `function`, and its `function` has a name.
pub open spec fn offers_function(item: JsonModel) -> bool {
    &&& text_member(item, "type"@) == Some("function"@)
    &&& member(item, "function"@) matches Some(f) && text_member(f, "name"@) is Some
}

/// The documents that offer a tool the provider can take, in their order.
pub open spec fn offered_functions(items: Seq<JsonModel>) -> Seq<JsonModel>
    decreases items.len(),
{
    if items.len() == 0 {
        Seq::empty()
    } else if offers_function(items.last()) {
        offered_functions(items.drop_last()).push(items.last())
    } else {
        offered_functions(items.drop_last())
    }
}

/// Whether a tool of the provider is what a document offers. A document
/// without a description offers an empty one; one without parameters, an
/// empty object.
pub open spec fn tool_from(tool: NativeToolSpec, item: JsonModel) -> bool {
    &&& tool.kind@ == "function"@
    &&& member(item, "function"@) matches Some(f) && {
        &&& text_member(f, "name"@) == Some(tool.function.name@)
        &&& tool.function.description@ == match text_member(f, "description"@) {
            Some(d) => d,
            None => Seq::empty(),
        }
        &&& json_model(tool.function.parameters) == match member(f, "parameters"@) {
            Some(p) => p,
            None => JsonModel::Object(no_members()),
        }
    }
}

/// Whether tools of the provider are what documents offer, one for one.
pub open spec fn tools_from(tools: Seq<NativeToolSpec>, items: Seq<JsonModel>) -> bool {
    &&& tools.len() == items.len()
    &&& forall|i: int| 0 <= i < tools.len() ==> tool_from(#[trigger] tools[i], items[i])
}

fn lenient_tool(item: &serde_json::Value) -> (r: Option<NativeToolSpec>)
    ensures
        match r {
            Some(tool) => offers_function(json_model(*item)) && tool_from(tool, json_model(*item)),
            None => !offers_function(json_model(*item)),
        },
{
    let kind = match get_text(item, "type") {
        Some(k) => k,
        None => {
            return None;
        },
    };
    if !str_eq(kind.as_str(), "function") {
        return None;
    }
    let function = match json_get(item, "function") {
        Some(f) => f,
        None => {
            return None;
        },
    };
    let name = match get_text(function, "name") {
        Some(n) => n,
        None => {
            return None;
        },
    };
    let description = match get_text(function, "description") {
        Some(d) => d,
        None => String::new(),
    };
    let parameters = match json_get(function, "parameters") {
        Some(p) => p.clone(),
        None => json_object(members_new()),
    };
    Some(
        NativeToolSpec {
            kind: "function".to_owned(),
            function: NativeToolFunctionSpec { name, description, parameters },
        },
    )
}

/// Reads the tools that a caller hands over as documents. No documents at
/// all are no tools; otherwise the tools are those that the documents
/// offer, and a document that offers none is passed over.
pub fn native_tools(tools: &Vec<serde_json::Value>) -> (r: Option<Vec<NativeToolSpec>>)
    ensures
        match r {
            Some(native) => tools@.len() > 0 && tools_from(
                native@,
                offered_functions(json_models(tools@)),
            ),
            None => tools@.len() == 0,
        },
{
    if tools.len() == 0 {
        return None;
    }
    let ghost models = json_models(tools@);
    let mut out: Vec<NativeToolSpec> = Vec::new();
    let mut i: usize = 0;
    assert(models.subrange(0, 0) =~= Seq::<JsonModel>::empty());
    while i < tools.len()
        invariant
            i <= tools.len(),
            models == json_models(tools@),
            tools_from(out@, offered_functions(models.subrange(0, i as int))),
        decreases tools.len() - i,
    {
        proof {
            assert(models.subrange(0, i + 1).drop_last() =~= models.subrange(0, i as int));
            assert(models.subrange(0, i + 1).last() == json_model(tools@[i as int]));
        }
        match lenient_tool(&tools[i]) {
            Some(tool) => {
                out.push(tool);
            },
            None => {},
        }
        i += 1;
    }
    assert(models.subrange(0, tools@.len() as int) =~= models);
    Some(out)
}

/// The messages of a single prompt: the system prompt where there is one,
/// then the user's message.
pub open spec fn is_prompt(
    messages: Seq<Message>,
    system_prompt: Option<Seq<char>>,
    message: Seq<char>,
) -> bool {
    match system_prompt {
        Some(sys) => {
            &&& messages.len() == 2
            &&& messages[0].role@ == "system"@
            &&& messages[0].content.is_text(sys)
            &&& messages[1].role@ == "user"@
            &&& messages[1].content.is_text(message)
        },
        None => {
            &&& messages.len() == 1
            &&& messages[0].role@ == "user"@
            &&& messages[0].content.is_text(message)
        },
    }
}

/// The characters of an optional borrowed text.
pub open spec fn str_view(s: Option<&str>) -> Option<Seq<char>> {
    match s {
        Some(s) => Some(s@),
        None => None,
    }
}

/// The text of the first answer to a single prompt: its content, or what
/// the model reasoned where there is no content, or nothing.
pub open spec fn prompt_text(content: Option<Seq<char>>, reasoning: Option<Seq<char>>) -> Seq<
    char,
> {
    match content {
        Some(c) => c,
        None => match reasoning {
            Some(r) => r,
            None => Seq::empty(),
        },
    }
}

impl Qwen25Provider {
    /// Where chat requests are sent.
    pub fn endpoint(&self) -> (r: String)
        ensures
            r@ == self.base_url@ + "/chat/completions"@,
    {
        join(self.base_url.as_str(), "/chat/completions")
    }

    /// Where the models are listed.
    pub fn models_endpoint(&self) -> (r: String)
        ensures
            r@ == self.base_url@ + "/models"@,
    {
        join(self.base_url.as_str(), "/models")
    }

    /// The authorization that goes with every request; a fault where the
    /// driver holds no credential.
    pub fn authorization(&self) -> (r: Result<String, QwenFault>)
        ensures
            match r {
                Ok(text) => self.credential matches Some(c) && text@ == "Bearer "@ + c@,
                Err(fault) => self.credential is None && fault == QwenFault::MissingCredential,
            },
    {
        match &self.credential {
            Some(c) => Ok(join("Bearer ", c.as_str())),
            None => Err(QwenFault::MissingCredential),
        }
    }

    /// The request for a single prompt. A fault where the driver holds no
    /// credential.
    pub fn prompt_request(
        &self,
        system_prompt: Option<&str>,
        message: &str,
        model: &str,
        temperature: serde_json::Value,
    ) -> (r: Result<ChatRequest, QwenFault>)
        ensures
            match r {
                Ok(request) => {
                    &&& self.credential is Some
                    &&& request.model@ == model@
                    &&& is_prompt(request.messages@, str_view(system_prompt), message@)
                    &&& json_model(request.temperature) == json_model(temperature)
                    &&& request.max_tokens is None
                    &&& request.top_p is None
                    &&& request.tools is None
                    &&& request.tool_choice is None
                },
                Err(fault) => self.credential is None && fault == QwenFault::MissingCredential,
            },
    {
        if self.credential.is_none() {
            return Err(QwenFault::MissingCredential);
        }
        let mut messages: Vec<Message> = Vec::new();
        match system_prompt {
            Some(sys) => messages.push(Message::plain("system", sys)),
            None => {},
        }
        messages.push(Message::plain("user", message));
        Ok(
            ChatRequest {
                model: model.to_owned(),
                messages,
                temperature,
                max_tokens: None,
                top_p: None,
                tools: None,
                tool_choice: None,
            },
        )
    }

    /// The request for a conversation with the tools that the provider may
    /// call. With tools the provider is left to choose among them.
    pub fn conversation_request(
        &self,
        messages: &Vec<ChatMessage>,
        tools: Option<Vec<NativeToolSpec>>,
        model: &str,
        temperature: serde_json::Value,
    ) -> (r: Result<ChatRequest, QwenFault>)
        ensures
            match r {
                Ok(request) => {
                    &&& self.credential is Some
                    &&& request.model@ == model@
                    &&& messages_from(request.messages@, messages@)
                    &&& json_model(request.temperature) == json_model(temperature)
                    &&& request.max_tokens is None
                    &&& request.top_p is None
                    &&& request.tools == tools
                    &&& text_view(request.tool_choice) == if tools is Some {
                        Some("auto"@)
                    } else {
                        None
                    }
                },
                Err(fault) => self.credential is None && fault == QwenFault::MissingCredential,
            },
    {
        if self.credential.is_none() {
            return Err(QwenFault::MissingCredential);
        }
        let tool_choice = if tools.is_some() {
            Some("auto".to_owned())
        } else {
            None
        };
        Ok(
            ChatRequest {
                model: model.to_owned(),
                messages: self.convert_messages(messages),
                temperature,
                max_tokens: None,
                top_p: None,
                tools,
                tool_choice,
            },
        )
    }

    /// The request for a conversation with the tools of the library.
    pub fn chat_request(
        &self,
        messages: &Vec<ChatMessage>,
        tools: Option<&Vec<ToolSpec>>,
        model: &str,
        temperature: serde_json::Value,
    ) -> (r: Result<ChatRequest, QwenFault>)
        ensures
            match r {
                Ok(request) => {
                    &&& self.credential is Some
                    &&& request.model@ == model@
                    &&& messages_from(request.messages@, messages@)
                    &&& json_model(request.temperature) == json_model(temperature)
                    &&& match tools {
                        Some(items) => request.tools matches Some(native) && offered_from(
                            native@,
                            items@,
                        ) && text_view(request.tool_choice) == Some("auto"@),
                        None => request.tools is None && request.tool_choice is None,
                    }
                },
                Err(fault) => self.credential is None && fault == QwenFault::MissingCredential,
            },
    {
        let native = self.serialize_tools(tools);
        self.conversation_request(messages, native, model, temperature)
    }

    /// The request for a conversation with tools handed over as documents.
    pub fn tools_request(
        &self,
        messages: &Vec<ChatMessage>,
        tools: &Vec<serde_json::Value>,
        model: &str,
        temperature: serde_json::Value,
    ) -> (r: Result<ChatRequest, QwenFault>)
        ensures
            match r {
                Ok(request) => {
                    &&& self.credential is Some
                    &&& request.model@ == model@
                    &&& messages_from(request.messages@, messages@)
                    &&& json_model(request.temperature) == json_model(temperature)
                    &&& if tools@.len() == 0 {
                        request.tools is None && request.tool_choice is None
                    } else {
                        request.tools matches Some(native) && tools_from(
                            native@,
                            offered_functions(json_models(tools@)),
                        ) && text_view(request.tool_choice) == Some("auto"@)
                    }
                },
                Err(fault) => self.credential is None && fault == QwenFault::MissingCredential,
            },
    {
        let native = native_tools(tools);
        self.conversation_request(messages, native, model, temperature)
    }

    /// The text that the provider answered to a single prompt: that of its
    /// first choice. A fault where it made no choice.
    pub fn prompt_answer(response: &CompletionResponse) -> (r: Result<String, QwenFault>)
        ensures
            match r {
                Ok(text) => response.choices@.len() > 0 && text@ == prompt_text(
                    text_view(response.choices@[0].message.content),
                    text_view(response.choices@[0].message.reasoning_content),
                ),
                Err(fault) => response.choices@.len() == 0 && fault == QwenFault::NoResponse,
            },
    {
        if response.choices.len() == 0 {
            return Err(QwenFault::NoResponse);
        }
        let message = &response.choices[0].message;
        Ok(
            match &message.content {
                Some(c) => c.clone(),
                None => match &message.reasoning_content {
                    Some(r) => r.clone(),
                    None => String::new(),
                },
            },
        )
    }

    /// What the provider answered to a conversation: its first choice, with
    /// the token counts of the answer. A fault where it made no choice.
    pub fn chat_answer(&self, response: CompletionResponse) -> (r: Result<ChatResponse, QwenFault>)
        ensures
            match r {
                Ok(answer) => response.choices@.len() > 0 && answer_from(
                    answer,
                    response.choices@[0].message,
                ) && answer.usage == match response.usage {
                    Some(u) => Some(
                        (TokenUsage {
                            input_tokens: u.prompt_tokens,
                            output_tokens: u.completion_tokens,
                        }),
                    ),
                    None => None,
                },
                Err(fault) => response.choices@.len() == 0 && fault == QwenFault::NoResponse,
            },
    {
        if response.choices.len() == 0 {
            return Err(QwenFault::NoResponse);
        }
        let usage = usage_of(response.usage);
        let mut choices = response.choices;
        let first = choices.remove(0);
        let parsed = self.parse_response(first.message);
        Ok(ChatResponse { usage, ..parsed })
    }
}

impl Qwen25Provider {
    /// The tools of the library as the provider takes them with a request.
    pub fn convert_tools(&self, tools: &Vec<ToolSpec>) -> (r: ToolsPayload)
        ensures
            r matches ToolsPayload::OpenAI { tools: native } && json_models(native@)
                == tool_documents(tools@),
    {
        ToolsPayload::openai(tools)
    }
}

} // verus!
