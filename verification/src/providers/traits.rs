//! What every provider driver works with.
use crate::json::{
    get_text, json_model, json_models, json_object, members_insert, members_new, no_members,
    put_text, text_member, JsonModel,
};
use vstd::prelude::*;

verus! {

/// What a provider can do beyond plain chat.
#[derive(Debug, Clone, Copy, PartialEq, Eq, Structural)]
pub struct ProviderCapabilities {
    pub native_tool_calling: bool,
    pub vision: bool,
}

/// One turn of a conversation.
#[derive(Debug, Clone)]
pub struct ChatMessage {
    pub role: String,
    pub content: String,
}

/// A tool call that a model asks for. The arguments are JSON text.
#[derive(Debug, Clone)]
pub struct ToolCall {
    pub id: String,
    pub name: String,
    pub arguments: String,
}

/// How many tokens a request took.
#[derive(Debug, Clone, Copy, PartialEq, Eq, Structural)]
pub struct TokenUsage {
    pub input_tokens: Option<u64>,
    pub output_tokens: Option<u64>,
}

/// What a model answered.
#[derive(Debug, Clone)]
pub struct ChatResponse {
    pub text: Option<String>,
    pub tool_calls: Vec<ToolCall>,
    pub usage: Option<TokenUsage>,
    pub reasoning_content: Option<String>,
}

/// A tool as it is offered to a model.
#[derive(Debug, Clone)]
pub struct ToolSpec {
    pub name: String,
    pub description: String,
    pub parameters: serde_json::Value,
}

impl ToolCall {
    /// Whether a document is a tool call: it names `id`, `name` and
    /// `arguments`, each a text.
    pub open spec fn decodable(m: JsonModel) -> bool {
        &&& text_member(m, "id"@) is Some
        &&& text_member(m, "name"@) is Some
        &&& text_member(m, "arguments"@) is Some
    }

    pub open spec fn decoded_from(&self, m: JsonModel) -> bool {
        &&& text_member(m, "id"@) == Some(self.id@)
        &&& text_member(m, "name"@) == Some(self.name@)
        &&& text_member(m, "arguments"@) == Some(self.arguments@)
    }

    /// Reads a tool call from a document.
    pub fn from_json(v: &serde_json::Value) -> (r: Option<Self>)
        ensures
            match r {
                Some(c) => Self::decodable(json_model(*v)) && c.decoded_from(json_model(*v)),
                None => !Self::decodable(json_model(*v)),
            },
    {
        let id = match get_text(v, "id") {
            Some(s) => s,
            None => {
                return None;
            },
        };
        let name = match get_text(v, "name") {
            Some(s) => s,
            None => {
                return None;
            },
        };
        match get_text(v, "arguments") {
            Some(arguments) => Some(Self { id, name, arguments }),
            None => None,
        }
    }
}

/// Whether every document of a sequence is a tool call.
pub open spec fn calls_decodable(items: Seq<JsonModel>) -> bool {
    forall|i: int| 0 <= i < items.len() ==> ToolCall::decodable(#[trigger] items[i])
}

/// Whether the tool calls are what the documents say, one for one.
pub open spec fn calls_decoded_from(calls: Seq<ToolCall>, items: Seq<JsonModel>) -> bool {
    &&& calls.len() == items.len()
    &&& forall|i: int| 0 <= i < calls.len() ==> (#[trigger] calls[i]).decoded_from(items[i])
}

/// Reads tool calls, one from each document; none where one of the
/// documents is no tool call.
pub fn tool_calls_from_json(items: &Vec<serde_json::Value>) -> (r: Option<Vec<ToolCall>>)
    ensures
        match r {
            Some(calls) => calls_decodable(json_models(items@)) && calls_decoded_from(
                calls@,
                json_models(items@),
            ),
            None => !calls_decodable(json_models(items@)),
        },
{
    let ghost models = json_models(items@);
    let mut calls: Vec<ToolCall> = Vec::new();
    let mut i: usize = 0;
    while i < items.len()
        invariant
            i <= items.len(),
            calls@.len() == i,
            models == json_models(items@),
            forall|j: int| 0 <= j < i ==> ToolCall::decodable(#[trigger] models[j]),
            forall|j: int| 0 <= j < i ==> (#[trigger] calls@[j]).decoded_from(models[j]),
        decreases items.len() - i,
    {
        match ToolCall::from_json(&items[i]) {
            Some(call) => calls.push(call),
            None => {
                assert(!ToolCall::decodable(models[i as int]));
                return None;
            },
        }
        i += 1;
    }
    Some(calls)
}

/// The document that offers a tool to a model, in the layout that the
/// chat-completions interface takes.
pub open spec fn tool_document(spec: ToolSpec) -> JsonModel {
    JsonModel::Object(
        no_members().insert("type"@, JsonModel::Text("function"@)).insert(
            "function"@,
            JsonModel::Object(
                no_members().insert("name"@, JsonModel::Text(spec.name@)).insert(
                    "description"@,
                    JsonModel::Text(spec.description@),
                ).insert("parameters"@, json_model(spec.parameters)),
            ),
        ),
    )
}

/// The documents that offer tools to a model, one for one.
pub open spec fn tool_documents(specs: Seq<ToolSpec>) -> Seq<JsonModel> {
    Seq::new(specs.len(), |i: int| tool_document(specs[i]))
}

impl ToolSpec {
    /// Lays the tool out for the chat-completions interface.
    pub fn to_json(&self) -> (r: serde_json::Value)
        ensures
            json_model(r) == tool_document(*self),
    {
        let mut function = members_new();
        put_text(&mut function, "name", self.name.as_str());
        put_text(&mut function, "description", self.description.as_str());
        members_insert(&mut function, "parameters".to_owned(), self.parameters.clone());
        let mut document = members_new();
        put_text(&mut document, "type", "function");
        members_insert(&mut document, "function".to_owned(), json_object(function));
        json_object(document)
    }
}

/// Lays tools out for the chat-completions interface, one document each.
pub fn convert_tools(tools: &Vec<ToolSpec>) -> (r: Vec<serde_json::Value>)
    ensures
        json_models(r@) == tool_documents(tools@),
{
    let mut out: Vec<serde_json::Value> = Vec::new();
    let mut i: usize = 0;
    while i < tools.len()
        invariant
            i <= tools.len(),
            out@.len() == i,
            forall|j: int| 0 <= j < i ==> json_model(#[trigger] out@[j]) == tool_document(tools@[j]),
        decreases tools.len() - i,
    {
        out.push(tools[i].to_json());
        i += 1;
    }
    assert(json_models(out@) =~= tool_documents(tools@));
    out
}

/// The tools of a request, in the layout that a provider takes.
#[derive(Debug, Clone)]
pub enum ToolsPayload {
    /// One document for each tool, as the chat-completions interface takes
    /// them.
    OpenAI { tools: Vec<serde_json::Value> },
}

impl ToolsPayload {
    /// The payload for the chat-completions interface.
    pub fn openai(tools: &Vec<ToolSpec>) -> (r: Self)
        ensures
            r matches ToolsPayload::OpenAI { tools: native } && json_models(native@)
                == tool_documents(tools@),
    {
        ToolsPayload::OpenAI { tools: convert_tools(tools) }
    }
}

} // verus!
