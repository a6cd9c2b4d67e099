//! What the drivers for chat-completions services share: the messages that
//! such a service answers with, and how a conversation's own messages are
//! read before they are sent.
use crate::clock::fresh_id;
use crate::json::{
    get_optional_text, get_optional_u64, get_present, get_text, items_of, json_array,
    json_as_array, json_get, json_model, json_models, json_null, json_object, json_parse,
    json_parsed, json_string, member, members_insert, members_new, no_members,
    optional_text_member, optional_u64_member, present_member, put_text, text_member, text_view,
    JsonModel,
};
use crate::providers::traits::{
    calls_decodable, calls_decoded_from, tool_calls_from_json, TokenUsage, ToolCall, ToolSpec,
};
use vstd::prelude::*;

verus! {

/// The function that a tool call names, with its arguments as JSON text.
#[derive(Debug, Clone)]
pub struct NativeFunctionCall {
    pub name: String,
    pub arguments: String,
}

/// A tool call as the service writes it.
#[derive(Debug, Clone)]
pub struct NativeToolCall {
    pub id: Option<String>,
    pub kind: Option<String>,
    pub function: NativeFunctionCall,
}

/// The message of one choice.
#[derive(Debug, Clone)]
pub struct ResponseMessage {
    pub content: Option<String>,
    pub reasoning_content: Option<String>,
    pub tool_calls: Option<Vec<NativeToolCall>>,
}

/// One choice of an answer.
#[derive(Debug, Clone)]
pub struct Choice {
    pub message: ResponseMessage,
}

/// The token counts of an answer.
#[derive(Debug, Clone, Copy, PartialEq, Eq, Structural)]
pub struct UsageInfo {
    pub prompt_tokens: Option<u64>,
    pub completion_tokens: Option<u64>,
}

/// What the service answers to a chat request.
#[derive(Debug, Clone)]
pub struct CompletionResponse {
    pub choices: Vec<Choice>,
    pub usage: Option<UsageInfo>,
}

/// A tool as the service takes it.
#[derive(Debug, Clone)]
pub struct NativeToolSpec {
    pub kind: String,
    pub function: NativeToolFunctionSpec,
}

#[derive(Debug, Clone)]
pub struct NativeToolFunctionSpec {
    pub name: String,
    pub description: String,
    pub parameters: serde_json::Value,
}

/// An optional text as a document: `null` where there is none.
pub open spec fn text_or_null(s: Option<String>) -> JsonModel {
    match s {
        Some(s) => JsonModel::Text(s@),
        None => JsonModel::Null,
    }
}

fn optional_text_to_json(s: &Option<String>) -> (r: serde_json::Value)
    ensures
        json_model(r) == text_or_null(*s),
{
    match s {
        Some(s) => json_string(s.clone()),
        None => json_null(),
    }
}

impl NativeFunctionCall {
    pub open spec fn encoding(&self) -> JsonModel {
        JsonModel::Object(
            no_members().insert("name"@, JsonModel::Text(self.name@)).insert(
                "arguments"@,
                JsonModel::Text(self.arguments@),
            ),
        )
    }

    pub fn to_json(&self) -> (r: serde_json::Value)
        ensures
            json_model(r) == self.encoding(),
    {
        let mut members = members_new();
        put_text(&mut members, "name", self.name.as_str());
        put_text(&mut members, "arguments", self.arguments.as_str());
        json_object(members)
    }

    pub open spec fn decodable(m: JsonModel) -> bool {
        text_member(m, "name"@) is Some && text_member(m, "arguments"@) is Some
    }

    pub open spec fn decoded_from(&self, m: JsonModel) -> bool {
        &&& text_member(m, "name"@) == Some(self.name@)
        &&& text_member(m, "arguments"@) == Some(self.arguments@)
    }

    pub fn from_json(v: &serde_json::Value) -> (r: Option<Self>)
        ensures
            match r {
                Some(c) => Self::decodable(json_model(*v)) && c.decoded_from(json_model(*v)),
                None => !Self::decodable(json_model(*v)),
            },
    {
        let name = match get_text(v, "name") {
            Some(s) => s,
            None => {
                return None;
            },
        };
        match get_text(v, "arguments") {
            Some(arguments) => Some(Self { name, arguments }),
            None => None,
        }
    }
}

impl NativeToolCall {
    /// The document of a tool call. A call without an id, or without a
    /// kind, says `null` in its place.
    pub open spec fn encoding(&self) -> JsonModel {
        JsonModel::Object(
            no_members().insert("id"@, text_or_null(self.id)).insert(
                "type"@,
                text_or_null(self.kind),
            ).insert("function"@, self.function.encoding()),
        )
    }

    pub fn to_json(&self) -> (r: serde_json::Value)
        ensures
            json_model(r) == self.encoding(),
    {
        let mut members = members_new();
        members_insert(&mut members, "id".to_owned(), optional_text_to_json(&self.id));
        members_insert(&mut members, "type".to_owned(), optional_text_to_json(&self.kind));
        members_insert(&mut members, "function".to_owned(), self.function.to_json());
        json_object(members)
    }

    pub open spec fn decodable(m: JsonModel) -> bool {
        &&& optional_text_member(m, "id"@) is Ok
        &&& optional_text_member(m, "type"@) is Ok
        &&& member(m, "function"@) matches Some(f) && NativeFunctionCall::decodable(f)
    }

    pub open spec fn decoded_from(&self, m: JsonModel) -> bool {
        &&& optional_text_member(m, "id"@) == Ok::<Option<Seq<char>>, ()>(text_view(self.id))
        &&& optional_text_member(m, "type"@) == Ok::<Option<Seq<char>>, ()>(text_view(self.kind))
        &&& member(m, "function"@) matches Some(f) && self.function.decoded_from(f)
    }

    pub fn from_json(v: &serde_json::Value) -> (r: Option<Self>)
        ensures
            match r {
                Some(c) => Self::decodable(json_model(*v)) && c.decoded_from(json_model(*v)),
                None => !Self::decodable(json_model(*v)),
            },
    {
        let id = match get_optional_text(v, "id") {
            Ok(s) => s,
            Err(_) => {
                return None;
            },
        };
        let kind = match get_optional_text(v, "type") {
            Ok(s) => s,
            Err(_) => {
                return None;
            },
        };
        match json_get(v, "function") {
            Some(f) => match NativeFunctionCall::from_json(f) {
                Some(function) => Some(Self { id, kind, function }),
                None => None,
            },
            None => None,
        }
    }
}

/// The documents of tool calls, one for one.
pub open spec fn native_call_encodings(calls: Seq<NativeToolCall>) -> Seq<JsonModel> {
    Seq::new(calls.len(), |i: int| calls[i].encoding())
}

/// Writes tool calls as an array of documents.
pub fn native_calls_to_json(calls: &Vec<NativeToolCall>) -> (r: serde_json::Value)
    ensures
        json_model(r) == JsonModel::Array(native_call_encodings(calls@)),
{
    let mut out: Vec<serde_json::Value> = Vec::new();
    let mut i: usize = 0;
    while i < calls.len()
        invariant
            i <= calls.len(),
            out@.len() == i,
            forall|j: int| 0 <= j < i ==> json_model(#[trigger] out@[j]) == calls@[j].encoding(),
        decreases calls.len() - i,
    {
        out.push(calls[i].to_json());
        i += 1;
    }
    assert(json_models(out@) =~= native_call_encodings(calls@));
    json_array(out)
}

/// Whether every document of a sequence is a tool call of the service.
pub open spec fn native_calls_decodable(items: Seq<JsonModel>) -> bool {
    forall|i: int| 0 <= i < items.len() ==> NativeToolCall::decodable(#[trigger] items[i])
}

/// Whether the tool calls are what the documents say, one for one.
pub open spec fn native_calls_decoded_from(
    calls: Seq<NativeToolCall>,
    items: Seq<JsonModel>,
) -> bool {
    &&& calls.len() == items.len()
    &&& forall|i: int| 0 <= i < calls.len() ==> (#[trigger] calls[i]).decoded_from(items[i])
}

/// Reads tool calls of the service, one from each document.
pub fn native_calls_from_json(items: &Vec<serde_json::Value>) -> (r: Option<Vec<NativeToolCall>>)
    ensures
        match r {
            Some(calls) => native_calls_decodable(json_models(items@))
                && native_calls_decoded_from(calls@, json_models(items@)),
            None => !native_calls_decodable(json_models(items@)),
        },
{
    let ghost models = json_models(items@);
    let mut calls: Vec<NativeToolCall> = Vec::new();
    let mut i: usize = 0;
    while i < items.len()
        invariant
            i <= items.len(),
            calls@.len() == i,
            models == json_models(items@),
            forall|j: int| 0 <= j < i ==> NativeToolCall::decodable(#[trigger] models[j]),
            forall|j: int| 0 <= j < i ==> (#[trigger] calls@[j]).decoded_from(models[j]),
        decreases items.len() - i,
    {
        match NativeToolCall::from_json(&items[i]) {
            Some(call) => calls.push(call),
            None => {
                assert(!NativeToolCall::decodable(models[i as int]));
                return None;
            },
        }
        i += 1;
    }
    Some(calls)
}

impl ResponseMessage {
    /// Whether a document is a message: `content` and `reasoning_content`
    /// are texts where they are present, `tool_calls` an array of tool
    /// calls. An absent member and `null` read alike.
    pub open spec fn decodable(m: JsonModel) -> bool {
        &&& m is Object
        &&& optional_text_member(m, "content"@) is Ok
        &&& optional_text_member(m, "reasoning_content"@) is Ok
        &&& match present_member(m, "tool_calls"@) {
            Some(t) => items_of(t) matches Some(items) && native_calls_decodable(items),
            None => true,
        }
    }

    pub open spec fn decoded_from(&self, m: JsonModel) -> bool {
        &&& optional_text_member(m, "content"@) == Ok::<Option<Seq<char>>, ()>(
            text_view(self.content),
        )
        &&& optional_text_member(m, "reasoning_content"@) == Ok::<Option<Seq<char>>, ()>(
            text_view(self.reasoning_content),
        )
        &&& match present_member(m, "tool_calls"@) {
            Some(t) => items_of(t) matches Some(items) && self.tool_calls matches Some(calls)
                && native_calls_decoded_from(calls@, items),
            None => self.tool_calls is None,
        }
    }

    pub fn from_json(v: &serde_json::Value) -> (r: Option<Self>)
        ensures
            match r {
                Some(c) => Self::decodable(json_model(*v)) && c.decoded_from(json_model(*v)),
                None => !Self::decodable(json_model(*v)),
            },
    {
        if !crate::json::json_is_object(v) {
            return None;
        }
        let content = match get_optional_text(v, "content") {
            Ok(s) => s,
            Err(_) => {
                return None;
            },
        };
        let reasoning_content = match get_optional_text(v, "reasoning_content") {
            Ok(s) => s,
            Err(_) => {
                return None;
            },
        };
        let tool_calls = match get_present(v, "tool_calls") {
            Some(t) => match json_as_array(t) {
                Some(items) => match native_calls_from_json(items) {
                    Some(calls) => Some(calls),
                    None => {
                        return None;
                    },
                },
                None => {
                    return None;
                },
            },
            None => None,
        };
        Some(Self { content, reasoning_content, tool_calls })
    }
}

impl UsageInfo {
    pub open spec fn decodable(m: JsonModel) -> bool {
        &&& m is Object
        &&& optional_u64_member(m, "prompt_tokens"@) is Ok
        &&& optional_u64_member(m, "completion_tokens"@) is Ok
    }

    pub open spec fn decoded_from(&self, m: JsonModel) -> bool {
        &&& optional_u64_member(m, "prompt_tokens"@) == Ok::<Option<u64>, ()>(self.prompt_tokens)
        &&& optional_u64_member(m, "completion_tokens"@) == Ok::<Option<u64>, ()>(
            self.completion_tokens,
        )
    }

    pub fn from_json(v: &serde_json::Value) -> (r: Option<Self>)
        ensures
            match r {
                Some(c) => Self::decodable(json_model(*v)) && c.decoded_from(json_model(*v)),
                None => !Self::decodable(json_model(*v)),
            },
    {
        if !crate::json::json_is_object(v) {
            return None;
        }
        let prompt_tokens = match get_optional_u64(v, "prompt_tokens") {
            Ok(n) => n,
            Err(_) => {
                return None;
            },
        };
        match get_optional_u64(v, "completion_tokens") {
            Ok(completion_tokens) => Some(Self { prompt_tokens, completion_tokens }),
            Err(_) => None,
        }
    }
}

impl Choice {
    pub open spec fn decodable(m: JsonModel) -> bool {
        member(m, "message"@) matches Some(d) && ResponseMessage::decodable(d)
    }

    pub open spec fn decoded_from(&self, m: JsonModel) -> bool {
        member(m, "message"@) matches Some(d) && self.message.decoded_from(d)
    }

    pub fn from_json(v: &serde_json::Value) -> (r: Option<Self>)
        ensures
            match r {
                Some(c) => Self::decodable(json_model(*v)) && c.decoded_from(json_model(*v)),
                None => !Self::decodable(json_model(*v)),
            },
    {
        match json_get(v, "message") {
            Some(d) => match ResponseMessage::from_json(d) {
                Some(message) => Some(Self { message }),
                None => None,
            },
            None => None,
        }
    }
}

/// Whether every document of a sequence is a choice.
pub open spec fn choices_decodable(items: Seq<JsonModel>) -> bool {
    forall|i: int| 0 <= i < items.len() ==> Choice::decodable(#[trigger] items[i])
}

/// Whether the choices are what the documents say, one for one.
pub open spec fn choices_decoded_from(choices: Seq<Choice>, items: Seq<JsonModel>) -> bool {
    &&& choices.len() == items.len()
    &&& forall|i: int| 0 <= i < choices.len() ==> (#[trigger] choices[i]).decoded_from(items[i])
}

/// Reads choices, one from each document.
pub fn choices_from_json(items: &Vec<serde_json::Value>) -> (r: Option<Vec<Choice>>)
    ensures
        match r {
            Some(choices) => choices_decodable(json_models(items@)) && choices_decoded_from(
                choices@,
                json_models(items@),
            ),
            None => !choices_decodable(json_models(items@)),
        },
{
    let ghost models = json_models(items@);
    let mut choices: Vec<Choice> = Vec::new();
    let mut i: usize = 0;
    while i < items.len()
        invariant
            i <= items.len(),
            choices@.len() == i,
            models == json_models(items@),
            forall|j: int| 0 <= j < i ==> Choice::decodable(#[trigger] models[j]),
            forall|j: int| 0 <= j < i ==> (#[trigger] choices@[j]).decoded_from(models[j]),
        decreases items.len() - i,
    {
        match Choice::from_json(&items[i]) {
            Some(choice) => choices.push(choice),
            None => {
                assert(!Choice::decodable(models[i as int]));
                return None;
            },
        }
        i += 1;
    }
    Some(choices)
}

impl CompletionResponse {
    /// Whether a document is an answer: `choices` is an array of choices,
    /// `usage` holds token counts where it is present.
    pub open spec fn decodable(m: JsonModel) -> bool {
        &&& member(m, "choices"@) matches Some(c) && items_of(c) matches Some(items)
            && choices_decodable(items)
        &&& match present_member(m, "usage"@) {
            Some(u) => UsageInfo::decodable(u),
            None => true,
        }
    }

    pub open spec fn decoded_from(&self, m: JsonModel) -> bool {
        &&& member(m, "choices"@) matches Some(c) && items_of(c) matches Some(items)
            && choices_decoded_from(self.choices@, items)
        &&& match present_member(m, "usage"@) {
            Some(u) => self.usage matches Some(usage) && usage.decoded_from(u),
            None => self.usage is None,
        }
    }

    pub fn from_json(v: &serde_json::Value) -> (r: Option<Self>)
        ensures
            match r {
                Some(c) => Self::decodable(json_model(*v)) && c.decoded_from(json_model(*v)),
                None => !Self::decodable(json_model(*v)),
            },
    {
        let choices = match json_get(v, "choices") {
            Some(c) => match json_as_array(c) {
                Some(items) => match choices_from_json(items) {
                    Some(choices) => choices,
                    None => {
                        return None;
                    },
                },
                None => {
                    return None;
                },
            },
            None => {
                return None;
            },
        };
        let usage = match get_present(v, "usage") {
            Some(u) => match UsageInfo::from_json(u) {
                Some(usage) => Some(usage),
                None => {
                    return None;
                },
            },
            None => None,
        };
        Some(Self { choices, usage })
    }

    /// Reads an answer from the text of a response body.
    pub fn parse(body: &str) -> (r: Option<Self>)
        ensures
            match r {
                Some(c) => json_parsed(body@) matches Some(m) && Self::decodable(m)
                    && c.decoded_from(m),
                None => match json_parsed(body@) {
                    Some(m) => !Self::decodable(m),
                    None => true,
                },
            },
    {
        match json_parse(body) {
            Some(v) => Self::from_json(&v),
            None => None,
        }
    }
}

/// The text that stands for an answer: its content, or what the model says
/// it reasoned where the content is absent or empty.
pub open spec fn effective_text(content: Option<Seq<char>>, reasoning: Option<Seq<char>>) -> Seq<
    char,
> {
    match content {
        Some(c) if c.len() > 0 => c,
        _ => match reasoning {
            Some(r) => r,
            None => Seq::empty(),
        },
    }
}

/// Picks the text that stands for an answer.
pub fn pick_effective(content: &Option<String>, reasoning: &Option<String>) -> (r: String)
    ensures
        r@ == effective_text(text_view(*content), text_view(*reasoning)),
{
    match content {
        Some(c) => {
            if c.as_str().unicode_len() > 0 {
                return c.clone();
            }
        },
        None => {},
    }
    match reasoning {
        Some(r) => r.clone(),
        None => String::new(),
    }
}

impl ResponseMessage {
    /// The text that stands for this message.
    pub fn effective_content(&self) -> (r: String)
        ensures
            r@ == effective_text(text_view(self.content), text_view(self.reasoning_content)),
    {
        pick_effective(&self.content, &self.reasoning_content)
    }
}

/// What the content of an assistant message of a conversation holds where
/// it records tool calls: the documents of the calls and the text that goes
/// with them. `None` where the content is no JSON, names no `tool_calls`,
/// or one of them is no tool call.
pub open spec fn assistant_record(content: Seq<char>) -> Option<(Seq<JsonModel>, Seq<char>)> {
    match json_parsed(content) {
        Some(m) => match member(m, "tool_calls"@) {
            Some(t) => match items_of(t) {
                Some(items) => if calls_decodable(items) {
                    Some(
                        (
                            items,
                            effective_text(
                                text_member(m, "content"@),
                                text_member(m, "reasoning_content"@),
                            ),
                        ),
                    )
                } else {
                    None
                },
                None => None,
            },
            None => None,
        },
        None => None,
    }
}

/// Reads the tool calls that an assistant message records, and its text.
pub fn read_assistant(content: &str) -> (r: Option<(Vec<ToolCall>, String)>)
    ensures
        match r {
            Some((calls, text)) => assistant_record(content@) matches Some((items, effective))
                && calls_decoded_from(calls@, items) && text@ == effective,
            None => assistant_record(content@) is None,
        },
{
    let document = match json_parse(content) {
        Some(v) => v,
        None => {
            return None;
        },
    };
    let items = match json_get(&document, "tool_calls") {
        Some(t) => match json_as_array(t) {
            Some(items) => items,
            None => {
                return None;
            },
        },
        None => {
            return None;
        },
    };
    match tool_calls_from_json(items) {
        Some(calls) => {
            let content = get_text(&document, "content");
            let reasoning = get_text(&document, "reasoning_content");
            Some((calls, pick_effective(&content, &reasoning)))
        },
        None => None,
    }
}

/// The text that a tool message of a conversation carries: the member
/// `content` of its JSON, empty where that is no text. `None` where the
/// message is no JSON.
pub open spec fn tool_record(content: Seq<char>) -> Option<Seq<char>> {
    match json_parsed(content) {
        Some(m) => Some(
            match text_member(m, "content"@) {
                Some(text) => text,
                None => Seq::empty(),
            },
        ),
        None => None,
    }
}

/// Reads the text that a tool message carries.
pub fn read_tool(content: &str) -> (r: Option<String>)
    ensures
        text_view(r) == tool_record(content@),
{
    match json_parse(content) {
        Some(document) => Some(
            match get_text(&document, "content") {
                Some(text) => text,
                None => String::new(),
            },
        ),
        None => None,
    }
}

/// Whether a tool call of a conversation is what the service's tool call
/// says: the same function and arguments, and the same id where the service
/// gave one.
pub open spec fn call_taken_from(call: ToolCall, native: NativeToolCall) -> bool {
    &&& call.name@ == native.function.name@
    &&& call.arguments@ == native.function.arguments@
    &&& native.id matches Some(id) ==> call.id@ == id@
}

/// Whether tool calls are what the service's tool calls say, one for one.
pub open spec fn calls_taken_from(calls: Seq<ToolCall>, native: Seq<NativeToolCall>) -> bool {
    &&& calls.len() == native.len()
    &&& forall|i: int| 0 <= i < calls.len() ==> call_taken_from(#[trigger] calls[i], native[i])
}

/// Takes a tool call over from the service. `fallback` becomes its id where
/// the service gave none.
pub fn take_call(native: &NativeToolCall, fallback: String) -> (r: ToolCall)
    ensures
        r.name@ == native.function.name@,
        r.arguments@ == native.function.arguments@,
        r.id@ == match native.id {
            Some(id) => id@,
            None => fallback@,
        },
{
    ToolCall {
        id: match &native.id {
            Some(id) => id.clone(),
            None => fallback,
        },
        name: native.function.name.clone(),
        arguments: native.function.arguments.clone(),
    }
}

/// Takes the tool calls of a message over. A call without an id gets a
/// fresh random one.
pub fn take_calls(native: &Option<Vec<NativeToolCall>>) -> (r: Vec<ToolCall>)
    ensures
        match *native {
            Some(calls) => calls_taken_from(r@, calls@),
            None => r@.len() == 0,
        },
{
    let mut out: Vec<ToolCall> = Vec::new();
    match native {
        Some(calls) => {
            let mut i: usize = 0;
            while i < calls.len()
                invariant
                    i <= calls.len(),
                    out@.len() == i,
                    forall|j: int|
                        0 <= j < i ==> call_taken_from(#[trigger] out@[j], calls@[j]),
                decreases calls.len() - i,
            {
                out.push(take_call(&calls[i], fresh_id()));
                i += 1;
            }
        },
        None => {},
    }
    out
}

/// The token counts of an answer as the drivers report them.
pub fn usage_of(usage: Option<UsageInfo>) -> (r: Option<TokenUsage>)
    ensures
        r == match usage {
            Some(u) => Some(
                (TokenUsage { input_tokens: u.prompt_tokens, output_tokens: u.completion_tokens }),
            ),
            None => None,
        },
{
    match usage {
        Some(u) => Some(
            TokenUsage { input_tokens: u.prompt_tokens, output_tokens: u.completion_tokens },
        ),
        None => None,
    }
}

impl NativeToolSpec {
    pub open spec fn encoding(&self) -> JsonModel {
        JsonModel::Object(
            no_members().insert("type"@, JsonModel::Text(self.kind@)).insert(
                "function"@,
                JsonModel::Object(
                    no_members().insert("name"@, JsonModel::Text(self.function.name@)).insert(
                        "description"@,
                        JsonModel::Text(self.function.description@),
                    ).insert("parameters"@, json_model(self.function.parameters)),
                ),
            ),
        )
    }

    pub fn to_json(&self) -> (r: serde_json::Value)
        ensures
            json_model(r) == self.encoding(),
    {
        let mut function = members_new();
        put_text(&mut function, "name", self.function.name.as_str());
        put_text(&mut function, "description", self.function.description.as_str());
        members_insert(&mut function, "parameters".to_owned(), self.function.parameters.clone());
        let mut document = members_new();
        put_text(&mut document, "type", self.kind.as_str());
        members_insert(&mut document, "function".to_owned(), json_object(function));
        json_object(document)
    }

    /// Whether a document is a tool of the service: it names a `type`, and
    /// a `function` with a `name`, a `description` and `parameters`.
    pub open spec fn decodable(m: JsonModel) -> bool {
        &&& text_member(m, "type"@) is Some
        &&& member(m, "function"@) matches Some(f) && text_member(f, "name"@) is Some
            && text_member(f, "description"@) is Some && member(f, "parameters"@) is Some
    }

    pub open spec fn decoded_from(&self, m: JsonModel) -> bool {
        &&& text_member(m, "type"@) == Some(self.kind@)
        &&& member(m, "function"@) matches Some(f) && text_member(f, "name"@) == Some(
            self.function.name@,
        ) && text_member(f, "description"@) == Some(self.function.description@) && member(
            f,
            "parameters"@,
        ) == Some(json_model(self.function.parameters))
    }

    pub fn from_json(v: &serde_json::Value) -> (r: Option<Self>)
        ensures
            match r {
                Some(c) => Self::decodable(json_model(*v)) && c.decoded_from(json_model(*v)),
                None => !Self::decodable(json_model(*v)),
            },
    {
        let kind = match get_text(v, "type") {
            Some(s) => s,
            None => {
                return None;
            },
        };
        let f = match json_get(v, "function") {
            Some(f) => f,
            None => {
                return None;
            },
        };
        let name = match get_text(f, "name") {
            Some(s) => s,
            None => {
                return None;
            },
        };
        let description = match get_text(f, "description") {
            Some(s) => s,
            None => {
                return None;
            },
        };
        match json_get(f, "parameters") {
            Some(p) => Some(
                Self {
                    kind,
                    function: NativeToolFunctionSpec { name, description, parameters: p.clone() },
                },
            ),
            None => None,
        }
    }

    /// The tool of the service that offers a tool of the library.
    pub fn offering(tool: &ToolSpec) -> (r: Self)
        ensures
            r.kind@ == "function"@,
            r.function.name@ == tool.name@,
            r.function.description@ == tool.description@,
            json_model(r.function.parameters) == json_model(tool.parameters),
    {
        Self {
            kind: "function".to_owned(),
            function: NativeToolFunctionSpec {
                name: tool.name.clone(),
                description: tool.description.clone(),
                parameters: tool.parameters.clone(),
            },
        }
    }
}

/// Whether tools of the service offer the tools of the library, one for one.
pub open spec fn offered_from(native: Seq<NativeToolSpec>, tools: Seq<ToolSpec>) -> bool {
    &&& native.len() == tools.len()
    &&& forall|i: int|
        0 <= i < native.len() ==> {
            &&& (#[trigger] native[i]).kind@ == "function"@
            &&& native[i].function.name@ == tools[i].name@
            &&& native[i].function.description@ == tools[i].description@
            &&& json_model(native[i].function.parameters) == json_model(tools[i].parameters)
        }
}

/// Lays tools out for the service; none where none are given.
pub fn offer_tools(tools: Option<&Vec<ToolSpec>>) -> (r: Option<Vec<NativeToolSpec>>)
    ensures
        match tools {
            Some(items) => r matches Some(native) && offered_from(native@, items@),
            None => r is None,
        },
{
    match tools {
        Some(items) => {
            let mut out: Vec<NativeToolSpec> = Vec::new();
            let mut i: usize = 0;
            while i < items.len()
                invariant
                    i <= items.len(),
                    out@.len() == i,
                    offered_from(out@, items@.subrange(0, i as int)),
                decreases items.len() - i,
            {
                out.push(NativeToolSpec::offering(&items[i]));
                i += 1;
            }
            assert(items@.subrange(0, items@.len() as int) =~= items@);
            Some(out)
        },
        None => None,
    }
}

} // verus!
