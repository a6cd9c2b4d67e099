//! The envelopes on the wire: how each is written as a JSON document and how
//! it is read back.
//!
//! Writing leaves out a field that has no value; it never writes `null` for
//! one. Reading takes an absent field and an explicit `null` alike, and
//! passes over members it does not know.
use crate::json::{
    get_present, get_text, i64_of, json_as_i64, json_get, json_i64, json_model, json_object,
    member, members_insert, members_new, no_members, present_member, put_optional, put_text,
    text_member, with_optional, JsonModel,
};
use crate::mcp::types::{
    version_tag,
    JsonRpcNotification, JsonRpcRequest, JsonRpcResponse, McpError, McpMessage,
};
use vstd::prelude::*;

verus! {

/// The content of an optional document.
pub open spec fn optional_model(v: Option<serde_json::Value>) -> Option<JsonModel> {
    match v {
        Some(d) => Some(json_model(d)),
        None => None,
    }
}

/// Copies an optional document.
pub fn clone_optional(v: &Option<serde_json::Value>) -> (r: Option<serde_json::Value>)
    ensures
        optional_model(r) == optional_model(*v),
{
    match v {
        Some(d) => Some(d.clone()),
        None => None,
    }
}

impl McpError {
    /// The error object as a JSON document.
    pub open spec fn encoding(&self) -> JsonModel {
        JsonModel::Object(
            with_optional(
                no_members().insert("code"@, JsonModel::Int(self.code as int)).insert(
                    "message"@,
                    JsonModel::Text(self.message@),
                ),
                "data"@,
                optional_model(self.data),
            ),
        )
    }

    pub fn to_json(&self) -> (r: serde_json::Value)
        ensures
            json_model(r) == self.encoding(),
    {
        let mut members = members_new();
        members_insert(&mut members, "code".to_owned(), json_i64(i64::from(self.code)));
        put_text(&mut members, "message", self.message.as_str());
        put_optional(&mut members, "data", clone_optional(&self.data));
        json_object(members)
    }

    /// Whether a document is an error object: an integer `code` within
    /// `i32` and a string `message`.
    pub open spec fn decodable(m: JsonModel) -> bool {
        &&& member(m, "code"@) matches Some(c)
        &&& i64_of(c) matches Some(n)
        &&& i32::MIN <= n <= i32::MAX
        &&& text_member(m, "message"@) is Some
    }

    /// Whether this error object is what the document says.
    pub open spec fn decoded_from(&self, m: JsonModel) -> bool {
        &&& member(m, "code"@) == Some(JsonModel::Int(self.code as int))
        &&& text_member(m, "message"@) == Some(self.message@)
        &&& optional_model(self.data) == present_member(m, "data"@)
    }

    pub fn from_json(v: &serde_json::Value) -> (r: Option<Self>)
        ensures
            match r {
                Some(e) => Self::decodable(json_model(*v)) && e.decoded_from(json_model(*v)),
                None => !Self::decodable(json_model(*v)),
            },
    {
        let code = match json_get(v, "code") {
            Some(c) => match json_as_i64(c) {
                Some(n) => if -2147483648 <= n && n <= 2147483647 {
                    n as i32
                } else {
                    return None;
                },
                None => {
                    return None;
                },
            },
            None => {
                return None;
            },
        };
        let message = match get_text(v, "message") {
            Some(s) => s,
            None => {
                return None;
            },
        };
        let data = match get_present(v, "data") {
            Some(d) => Some(d.clone()),
            None => None,
        };
        Some(Self { code, message, data })
    }
}

impl JsonRpcRequest {
    /// The request as a JSON document.
    pub open spec fn encoding(&self) -> JsonModel {
        JsonModel::Object(
            with_optional(
                no_members().insert("jsonrpc"@, JsonModel::Text(self.jsonrpc@)).insert(
                    "id"@,
                    json_model(self.id),
                ).insert("method"@, JsonModel::Text(self.method@)),
                "params"@,
                optional_model(self.params),
            ),
        )
    }

    pub fn to_json(&self) -> (r: serde_json::Value)
        ensures
            json_model(r) == self.encoding(),
    {
        let mut members = members_new();
        put_text(&mut members, "jsonrpc", self.jsonrpc.as_str());
        members_insert(&mut members, "id".to_owned(), self.id.clone());
        put_text(&mut members, "method", self.method.as_str());
        put_optional(&mut members, "params", clone_optional(&self.params));
        json_object(members)
    }

    /// Whether a document is a request: a string `jsonrpc`, an `id` of any
    /// kind, and a string `method`.
    pub open spec fn decodable(m: JsonModel) -> bool {
        &&& text_member(m, "jsonrpc"@) is Some
        &&& member(m, "id"@) is Some
        &&& text_member(m, "method"@) is Some
    }

    /// Whether this request is what the document says.
    pub open spec fn decoded_from(&self, m: JsonModel) -> bool {
        &&& text_member(m, "jsonrpc"@) == Some(self.jsonrpc@)
        &&& member(m, "id"@) == Some(json_model(self.id))
        &&& text_member(m, "method"@) == Some(self.method@)
        &&& optional_model(self.params) == present_member(m, "params"@)
    }

    pub fn from_json(v: &serde_json::Value) -> (r: Option<Self>)
        ensures
            match r {
                Some(q) => Self::decodable(json_model(*v)) && q.decoded_from(json_model(*v)),
                None => !Self::decodable(json_model(*v)),
            },
    {
        let jsonrpc = match get_text(v, "jsonrpc") {
            Some(s) => s,
            None => {
                return None;
            },
        };
        let id = match json_get(v, "id") {
            Some(d) => d.clone(),
            None => {
                return None;
            },
        };
        let method = match get_text(v, "method") {
            Some(s) => s,
            None => {
                return None;
            },
        };
        let params = match get_present(v, "params") {
            Some(d) => Some(d.clone()),
            None => None,
        };
        Some(Self { jsonrpc, id, method, params })
    }
}

impl JsonRpcNotification {
    /// The notification as a JSON document.
    pub open spec fn encoding(&self) -> JsonModel {
        JsonModel::Object(
            with_optional(
                no_members().insert("jsonrpc"@, JsonModel::Text(self.jsonrpc@)).insert(
                    "method"@,
                    JsonModel::Text(self.method@),
                ),
                "params"@,
                optional_model(self.params),
            ),
        )
    }

    pub fn to_json(&self) -> (r: serde_json::Value)
        ensures
            json_model(r) == self.encoding(),
    {
        let mut members = members_new();
        put_text(&mut members, "jsonrpc", self.jsonrpc.as_str());
        put_text(&mut members, "method", self.method.as_str());
        put_optional(&mut members, "params", clone_optional(&self.params));
        json_object(members)
    }

    /// Whether a document can be read as a notification: a string `jsonrpc`
    /// and a string `method`.
    pub open spec fn decodable(m: JsonModel) -> bool {
        &&& text_member(m, "jsonrpc"@) is Some
        &&& text_member(m, "method"@) is Some
    }

    /// Whether this notification is what the document says.
    pub open spec fn decoded_from(&self, m: JsonModel) -> bool {
        &&& text_member(m, "jsonrpc"@) == Some(self.jsonrpc@)
        &&& text_member(m, "method"@) == Some(self.method@)
        &&& optional_model(self.params) == present_member(m, "params"@)
    }

    pub fn from_json(v: &serde_json::Value) -> (r: Option<Self>)
        ensures
            match r {
                Some(n) => Self::decodable(json_model(*v)) && n.decoded_from(json_model(*v)),
                None => !Self::decodable(json_model(*v)),
            },
    {
        let jsonrpc = match get_text(v, "jsonrpc") {
            Some(s) => s,
            None => {
                return None;
            },
        };
        let method = match get_text(v, "method") {
            Some(s) => s,
            None => {
                return None;
            },
        };
        let params = match get_present(v, "params") {
            Some(d) => Some(d.clone()),
            None => None,
        };
        Some(Self { jsonrpc, method, params })
    }
}

/// The content of an optional error object.
pub open spec fn optional_error_encoding(e: Option<McpError>) -> Option<JsonModel> {
    match e {
        Some(e) => Some(e.encoding()),
        None => None,
    }
}

impl JsonRpcResponse {
    /// The response as a JSON document.
    pub open spec fn encoding(&self) -> JsonModel {
        JsonModel::Object(
            with_optional(
                with_optional(
                    no_members().insert("jsonrpc"@, JsonModel::Text(self.jsonrpc@)).insert(
                        "id"@,
                        json_model(self.id),
                    ),
                    "result"@,
                    optional_model(self.result),
                ),
                "error"@,
                optional_error_encoding(self.error),
            ),
        )
    }

    pub fn to_json(&self) -> (r: serde_json::Value)
        ensures
            json_model(r) == self.encoding(),
    {
        let mut members = members_new();
        put_text(&mut members, "jsonrpc", self.jsonrpc.as_str());
        members_insert(&mut members, "id".to_owned(), self.id.clone());
        put_optional(&mut members, "result", clone_optional(&self.result));
        let error = match &self.error {
            Some(e) => Some(e.to_json()),
            None => None,
        };
        put_optional(&mut members, "error", error);
        json_object(members)
    }

    /// Whether a document is a response: a string `jsonrpc`, an `id`, and,
    /// where it has an `error`, an error object there.
    pub open spec fn decodable(m: JsonModel) -> bool {
        &&& text_member(m, "jsonrpc"@) is Some
        &&& member(m, "id"@) is Some
        &&& present_member(m, "error"@) matches Some(e) ==> McpError::decodable(e)
    }

    /// Whether this response is what the document says.
    pub open spec fn decoded_from(&self, m: JsonModel) -> bool {
        &&& text_member(m, "jsonrpc"@) == Some(self.jsonrpc@)
        &&& member(m, "id"@) == Some(json_model(self.id))
        &&& optional_model(self.result) == present_member(m, "result"@)
        &&& match self.error {
            Some(e) => present_member(m, "error"@) matches Some(d) && e.decoded_from(d),
            None => present_member(m, "error"@) is None,
        }
    }

    pub fn from_json(v: &serde_json::Value) -> (r: Option<Self>)
        ensures
            match r {
                Some(p) => Self::decodable(json_model(*v)) && p.decoded_from(json_model(*v)),
                None => !Self::decodable(json_model(*v)),
            },
    {
        let jsonrpc = match get_text(v, "jsonrpc") {
            Some(s) => s,
            None => {
                return None;
            },
        };
        let id = match json_get(v, "id") {
            Some(d) => d.clone(),
            None => {
                return None;
            },
        };
        let result = match get_present(v, "result") {
            Some(d) => Some(d.clone()),
            None => None,
        };
        let error = match get_present(v, "error") {
            Some(d) => match McpError::from_json(d) {
                Some(e) => Some(e),
                None => {
                    return None;
                },
            },
            None => None,
        };
        Some(Self { jsonrpc, id, result, error })
    }
}

impl McpMessage {
    /// The envelope as a JSON document.
    pub open spec fn encoding(&self) -> JsonModel {
        match *self {
            McpMessage::Request(q) => q.encoding(),
            McpMessage::Response(p) => p.encoding(),
            McpMessage::Notification(n) => n.encoding(),
        }
    }

    pub fn to_json(&self) -> (r: serde_json::Value)
        ensures
            json_model(r) == self.encoding(),
    {
        match self {
            McpMessage::Request(q) => q.to_json(),
            McpMessage::Response(p) => p.to_json(),
            McpMessage::Notification(n) => n.to_json(),
        }
    }

    /// Whether a document is an envelope of any kind.
    pub open spec fn decodable(m: JsonModel) -> bool {
        JsonRpcRequest::decodable(m) || JsonRpcResponse::decodable(m)
            || JsonRpcNotification::decodable(m)
    }

    /// Whether this envelope is what the document says. A document that can
    /// be read as a request is one; otherwise one that can be read as a
    /// response is one; what is left is a notification.
    pub open spec fn decoded_from(&self, m: JsonModel) -> bool {
        match *self {
            McpMessage::Request(q) => JsonRpcRequest::decodable(m) && q.decoded_from(m),
            McpMessage::Response(p) => !JsonRpcRequest::decodable(m) && JsonRpcResponse::decodable(
                m,
            ) && p.decoded_from(m),
            McpMessage::Notification(n) => !JsonRpcRequest::decodable(m)
                && !JsonRpcResponse::decodable(m) && JsonRpcNotification::decodable(m)
                && n.decoded_from(m),
        }
    }

    pub fn from_json(v: &serde_json::Value) -> (r: Option<Self>)
        ensures
            match r {
                Some(e) => e.decoded_from(json_model(*v)),
                None => !Self::decodable(json_model(*v)),
            },
    {
        match JsonRpcRequest::from_json(v) {
            Some(q) => Some(McpMessage::Request(q)),
            None => match JsonRpcResponse::from_json(v) {
                Some(p) => Some(McpMessage::Response(p)),
                None => match JsonRpcNotification::from_json(v) {
                    Some(n) => Some(McpMessage::Notification(n)),
                    None => None,
                },
            },
        }
    }
}

/// What an error object says.
pub struct ErrorModel {
    pub code: int,
    pub message: Seq<char>,
    pub data: Option<JsonModel>,
}

/// What a response says.
pub struct ResponseModel {
    pub jsonrpc: Seq<char>,
    pub id: JsonModel,
    pub result: Option<JsonModel>,
    pub error: Option<ErrorModel>,
}

impl View for McpError {
    type V = ErrorModel;

    open spec fn view(&self) -> ErrorModel {
        ErrorModel {
            code: self.code as int,
            message: self.message@,
            data: optional_model(self.data),
        }
    }
}

impl View for JsonRpcResponse {
    type V = ResponseModel;

    open spec fn view(&self) -> ResponseModel {
        ResponseModel {
            jsonrpc: self.jsonrpc@,
            id: json_model(self.id),
            result: optional_model(self.result),
            error: match self.error {
                Some(e) => Some(e@),
                None => None,
            },
        }
    }
}

/// The response that carries a result.
pub open spec fn success_model(id: JsonModel, result: JsonModel) -> ResponseModel {
    ResponseModel { jsonrpc: version_tag(), id, result: Some(result), error: None }
}

/// The response that carries an error without data.
pub open spec fn failure_model(id: JsonModel, code: int, message: Seq<char>) -> ResponseModel {
    ResponseModel {
        jsonrpc: version_tag(),
        id,
        result: None,
        error: Some(ErrorModel { code, message, data: None }),
    }
}

/// Builds the response that carries a result.
pub fn success_response(id: serde_json::Value, result: serde_json::Value) -> (r: JsonRpcResponse)
    ensures
        r@ == success_model(json_model(id), json_model(result)),
{
    JsonRpcResponse::success(id, result)
}

/// Builds the response that carries an error without data.
pub fn failure_response(id: serde_json::Value, code: i32, message: &str) -> (r: JsonRpcResponse)
    ensures
        r@ == failure_model(json_model(id), code as int, message@),
{
    JsonRpcResponse::error(id, McpError::new(code, message))
}

/// What a request says.
pub struct RequestModel {
    pub jsonrpc: Seq<char>,
    pub id: JsonModel,
    pub method: Seq<char>,
    pub params: Option<JsonModel>,
}

/// What a notification says.
pub struct NotificationModel {
    pub jsonrpc: Seq<char>,
    pub method: Seq<char>,
    pub params: Option<JsonModel>,
}

impl View for JsonRpcRequest {
    type V = RequestModel;

    open spec fn view(&self) -> RequestModel {
        RequestModel {
            jsonrpc: self.jsonrpc@,
            id: json_model(self.id),
            method: self.method@,
            params: optional_model(self.params),
        }
    }
}

impl View for JsonRpcNotification {
    type V = NotificationModel;

    open spec fn view(&self) -> NotificationModel {
        NotificationModel {
            jsonrpc: self.jsonrpc@,
            method: self.method@,
            params: optional_model(self.params),
        }
    }
}

/// One request as JSON text. A request can always be written.
pub fn request_text(request: &JsonRpcRequest) -> (r: Option<String>)
    ensures
        r matches Some(text) && text@ == crate::json::json_text(request.encoding()),
{
    let document = request.to_json();
    crate::json::json_to_text(&document)
}

/// One notification as JSON text. A notification can always be
/// written.
pub fn notification_text(notification: &JsonRpcNotification) -> (r: Option<String>)
    ensures
        r matches Some(text) && text@ == crate::json::json_text(notification.encoding()),
{
    let document = notification.to_json();
    crate::json::json_to_text(&document)
}

} // verus!
