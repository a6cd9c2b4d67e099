use zeroclaw::agent::a2a::types::error_codes;
use zeroclaw::agent::a2a::types::{
    A2ANotification, A2ARequest, A2AResponse, AgentCapabilities, AgentCard, AgentMessage,
    AuthScheme, AuthenticationRequirements, ErrorMessage, FilePart, MessageBody,
    MessageEnvelope, MessageHeaders, MessagePart, MessageRole, MessageType, ProviderInfo,
    StateTransition, TaskStatus, TaskStatusMessage, TaskSubmitMessage, ToolResultContent,
    ToolResultPart, ToolUsePart, ToolsCapability,
};
use zeroclaw::agent::a2a::wire::{schemes_to_json, statuses_to_json};

fn object(entries: Vec<(&str, serde_json::Value)>) -> serde_json::Value {
    let mut map = serde_json::Map::new();
    for (key, value) in entries {
        map.insert(key.to_string(), value);
    }
    serde_json::Value::Object(map)
}

#[test]
fn agent_card_builder() {
    let card = AgentCard::new("test-agent", "1.0.0", "https://example.com/a2a")
        .with_description("A test agent")
        .with_capabilities(AgentCapabilities::new().with_streaming(true))
        .with_provider(ProviderInfo::new("TestOrg", "openai").with_model("gpt-4"))
        .with_authentication(AuthenticationRequirements::new().with_required(true));

    assert_eq!(card.name, "test-agent");
    assert_eq!(card.version, "1.0.0");
    assert_eq!(card.endpoint, "https://example.com/a2a");
    assert_eq!(card.description, Some("A test agent".to_string()));
    assert!(card.capabilities.streaming.unwrap_or(false));
    assert_eq!(
        card.provider.as_ref().unwrap().model,
        Some("gpt-4".to_string())
    );
}

#[test]
fn agent_capabilities_default() {
    let caps = AgentCapabilities::default();
    assert!(caps.streaming.is_none());
    assert!(caps.tools.is_none());
}

#[test]
fn agent_capabilities_builder() {
    let caps = AgentCapabilities::new()
        .with_streaming(true)
        .with_push_notifications(true)
        .with_state_history(true)
        .with_tools(ToolsCapability::new().with_list_changed(true));

    assert_eq!(caps.streaming, Some(true));
    assert_eq!(caps.push_notifications, Some(true));
    assert_eq!(caps.state_transition_history, Some(true));
    assert!(caps.tools.is_some());
}

#[test]
fn message_envelope_builder() {
    let envelope = MessageEnvelope::new(
        "msg-123",
        MessageType::Request,
        MessageBody::TaskSubmit(TaskSubmitMessage::new(
            "task-1",
            AgentMessage::user(vec![AgentMessage::text_part("Hello")]),
        )),
    )
    .with_headers(MessageHeaders::new().with_correlation_id("corr-456"));

    assert_eq!(envelope.id, "msg-123");
    assert!(matches!(envelope.type_, MessageType::Request));
    assert_eq!(
        envelope.headers.correlation_id,
        Some("corr-456".to_string())
    );
}

#[test]
fn task_submit_message_builder() {
    let msg = TaskSubmitMessage::new(
        "task-1",
        AgentMessage::user(vec![
            AgentMessage::text_part("Hello"),
            AgentMessage::file_part(FilePart::new().with_name("test.txt")),
        ]),
    )
    .with_session_id("session-1")
    .with_content_types(vec!["text/plain".to_string()])
    .with_push_notification(true);

    assert_eq!(msg.id, "task-1");
    assert_eq!(msg.session_id, Some("session-1".to_string()));
    assert_eq!(
        msg.accepted_content_types,
        Some(vec!["text/plain".to_string()])
    );
    assert_eq!(msg.push_notification, Some(true));
}

#[test]
fn task_status_message() {
    let msg = TaskStatusMessage::new("task-1", TaskStatus::Working)
        .with_message(AgentMessage::agent(vec![AgentMessage::text_part(
            "Processing...",
        )]))
        .with_history(vec![StateTransition::new(
            TaskStatus::Submitted,
            TaskStatus::Queued,
            "2024-01-01T00:00:00Z",
        )]);

    assert_eq!(msg.status, TaskStatus::Working);
    assert!(msg.message.is_some());
    assert!(msg.history.is_some());
}

#[test]
fn agent_message_parts() {
    let msg = AgentMessage::user(vec![
        AgentMessage::text_part("Hello"),
        AgentMessage::file_part(FilePart::new().with_uri("file://test.txt")),
        AgentMessage::tool_use_part(ToolUsePart::new(
            "tool-1",
            "shell",
            object(vec![("command", serde_json::Value::String("ls".to_string()))]),
        )),
        AgentMessage::tool_result_part(ToolResultPart::new(
            "tool-1",
            ToolResultContent::Text {
                text: "result".to_string(),
            },
        )),
    ]);

    assert_eq!(msg.role, MessageRole::User);
    assert_eq!(msg.parts.len(), 4);
}

#[test]
fn file_part_builder() {
    let file = FilePart::new()
        .with_name("document.pdf")
        .with_mime_type("application/pdf")
        .with_uri("file:///documents/document.pdf");

    assert_eq!(file.name, Some("document.pdf".to_string()));
    assert_eq!(file.mime_type, Some("application/pdf".to_string()));
    assert_eq!(file.uri, Some("file:///documents/document.pdf".to_string()));
}

#[test]
fn error_message_with_data() {
    let error = ErrorMessage::new(error_codes::INVALID_PARAMS, "Invalid parameters").with_data(
        object(vec![
            ("field", serde_json::Value::String("id".to_string())),
            ("reason", serde_json::Value::String("required".to_string())),
        ]),
    );

    assert_eq!(error.code, -32602);
    assert_eq!(error.message, "Invalid parameters");
    assert!(error.data.is_some());
}

#[test]
fn builders_leave_other_fields_alone() {
    let file = FilePart::new().with_name("a").with_bytes("AAEC");
    assert_eq!(file.name, Some("a".to_string()));
    assert_eq!(file.bytes, Some("AAEC".to_string()));
    assert_eq!(file.mime_type, None);
    assert_eq!(file.uri, None);

    let part = ToolResultPart::new(
        "tool-1",
        ToolResultContent::Resource {
            uri: "memory://k".to_string(),
        },
    )
    .with_error(true);
    assert_eq!(part.tool_use_id, "tool-1");
    assert_eq!(part.is_error, Some(true));
}

#[test]
fn a2a_request_serialization() {
    let req = A2ARequest::new(
        serde_json::Value::Number(1.into()),
        "tasks/submit",
        Some(object(vec![("id", serde_json::Value::from("task-1"))])),
    );
    let json = serde_json::to_string(&req.to_json()).unwrap();
    assert!(json.contains(r#""jsonrpc":"2.0""#));
    assert!(json.contains(r#""method":"tasks/submit""#));
    assert!(json.contains(r#""id":1"#));
}

#[test]
fn a2a_response_success() {
    let resp = A2AResponse::success(
        serde_json::Value::Number(1.into()),
        object(vec![("status", serde_json::Value::from("completed"))]),
    );
    let json = serde_json::to_string(&resp.to_json()).unwrap();
    assert!(json.contains(r#""result":{"status":"completed"}"#));
}

#[test]
fn a2a_response_error() {
    let error = ErrorMessage::new(error_codes::TASK_NOT_FOUND, "Task not found");
    let resp = A2AResponse::error(serde_json::Value::Number(1.into()), error);
    let json = serde_json::to_string(&resp.to_json()).unwrap();
    assert!(json.contains(r#""error":{"code":-32001,"message":"Task not found"}"#));
}

#[test]
fn a2a_notification() {
    let notification = A2ANotification::new(
        "tasks/statusUpdate",
        Some(object(vec![
            ("id", serde_json::Value::from("task-1")),
            ("status", serde_json::Value::from("working")),
        ])),
    );
    let json = serde_json::to_string(&notification.to_json()).unwrap();
    assert!(json.contains(r#""method":"tasks/statusUpdate""#));
}

#[test]
fn auth_scheme_variants() {
    let schemes = vec![
        AuthScheme::NoAuth,
        AuthScheme::Basic,
        AuthScheme::Bearer,
        AuthScheme::ApiKey,
        AuthScheme::OAuth2,
    ];
    let json = serde_json::to_string(&schemes_to_json(&schemes)).unwrap();
    assert!(json.contains("\"none\""));
    assert!(json.contains("\"basic\""));
    assert!(json.contains("\"bearer\""));
    assert_eq!(json, r#"["none","basic","bearer","api_key","oauth2"]"#);
}

#[test]
fn task_status_variants() {
    let statuses = vec![
        TaskStatus::Submitted,
        TaskStatus::Queued,
        TaskStatus::Working,
        TaskStatus::InputRequired,
        TaskStatus::Completed,
        TaskStatus::Failed,
        TaskStatus::Canceled,
    ];
    let json = serde_json::to_string(&statuses_to_json(&statuses)).unwrap();
    assert!(json.contains("\"submitted\""));
    assert!(json.contains("\"completed\""));
    assert!(json.contains("\"failed\""));
    assert_eq!(
        json,
        r#"["submitted","queued","working","inputrequired","completed","failed","canceled"]"#
    );
}

#[test]
fn message_part_serialization() {
    let text_part = AgentMessage::text_part("Hello world");
    let json = serde_json::to_string(&text_part.to_json()).unwrap();
    assert!(json.contains(r#""type":"Text""#));
    assert!(json.contains("Hello world"));
    assert_eq!(text_part.to_json(), parse(r#"{"type":"Text","data":{"text":"Hello world"}}"#));
}

fn parse(text: &str) -> serde_json::Value {
    serde_json::from_str(text).unwrap()
}

#[test]
fn message_is_written_and_read_back() {
    let text = r#"{"role":"agent","parts":[
        {"type":"Text","data":{"text":"hi"}},
        {"type":"File","data":{"file":{"name":"a.txt","mime_type":null,"uri":null,"bytes":"QQ=="}}},
        {"type":"ToolUse","data":{"tool_use":{"id":"u1","name":"shell","input":{"command":"ls"}}}},
        {"type":"ToolResult","data":{"tool_result":{"tool_use_id":"u1","content":{"type":"Image","data":{"data":"AAAA","mime_type":"image/png"}},"is_error":false}}}
    ],"metadata":{"trace":7}}"#;
    let message = AgentMessage::from_json(&parse(text)).unwrap();
    assert_eq!(message.role, MessageRole::Agent);
    assert_eq!(message.parts.len(), 4);
    assert!(matches!(&message.parts[1], MessagePart::File { file } if file.name.as_deref() == Some("a.txt") && file.uri.is_none()));
    assert!(matches!(&message.parts[3], MessagePart::ToolResult { tool_result } if tool_result.is_error == Some(false)));
    assert_eq!(message.to_json(), parse(text));

    assert!(AgentMessage::from_json(&parse(r#"{"role":"system","parts":[]}"#)).is_none());
    assert!(AgentMessage::from_json(&parse(r#"{"role":"user"}"#)).is_none());
    assert!(AgentMessage::from_json(&parse(r#"{"role":"user","parts":[{"type":"Audio","data":{}}]}"#)).is_none());
    assert!(AgentMessage::from_json(&parse(r#"{"role":"user","parts":[{"type":"Text","data":{"text":1}}]}"#)).is_none());
    let bare = AgentMessage::from_json(&parse(r#"{"role":"user","parts":[],"metadata":null}"#)).unwrap();
    assert!(bare.metadata.is_none());
    assert_eq!(bare.to_json(), parse(r#"{"role":"user","parts":[]}"#));
}

#[test]
fn card_says_null_for_what_it_lacks() {
    let card = AgentCard::new("Agent", "1.0.0", "http://localhost:8000");
    assert_eq!(
        card.to_json(),
        parse(
            r#"{"name":"Agent","version":"1.0.0","description":null,"capabilities":{},"provider":null,"authentication":{},"endpoint":"http://localhost:8000"}"#
        )
    );
    let full = card
        .with_description("An agent")
        .with_capabilities(
            AgentCapabilities::new()
                .with_streaming(true)
                .with_tools(ToolsCapability::new().with_list_changed(false)),
        )
        .with_provider(ProviderInfo::new("Org", "prov").with_model("m"))
        .with_authentication(
            AuthenticationRequirements::new()
                .with_required(true)
                .with_schemes(vec![AuthScheme::Bearer, AuthScheme::ApiKey])
                .with_credentials(vec!["token".to_string()]),
        );
    assert_eq!(
        full.to_json(),
        parse(
            r#"{"name":"Agent","version":"1.0.0","description":"An agent","capabilities":{"streaming":true,"tools":{"list_changed":false}},"provider":{"organization":"Org","provider":"prov","model":"m"},"authentication":{"required":true,"schemes":["bearer","api_key"],"credentials":["token"]},"endpoint":"http://localhost:8000"}"#
        )
    );
}

#[test]
fn request_is_read_from_a_body() {
    let request = A2ARequest::parse(r#"{"jsonrpc":"2.0","id":"r1","method":"tasks/get","params":{"id":"t"}}"#).unwrap();
    assert_eq!(request.method, "tasks/get");
    assert_eq!(request.id, serde_json::Value::from("r1"));
    assert_eq!(request.params, Some(parse(r#"{"id":"t"}"#)));
    let no_params = A2ARequest::parse(r#"{"jsonrpc":"2.0","id":null,"method":"agent/card"}"#).unwrap();
    assert!(no_params.id.is_null());
    assert!(no_params.params.is_none());
    assert!(A2ARequest::parse(r#"{"jsonrpc":"2.0","method":"agent/card"}"#).is_none());
    assert!(A2ARequest::parse(r#"{"id":1,"method":"agent/card"}"#).is_none());
    assert!(A2ARequest::parse("{").is_none());
}
