use zeroclaw::mcp::types::error_codes;
use zeroclaw::mcp::types::{
    ClientCapabilities, InitializeResult, JsonRpcNotification, JsonRpcRequest, JsonRpcResponse,
    McpError, ResourceDefinition, ResourcesServerCapability, ServerCapabilities, ServerInfo,
    ToolDefinition, ToolsCallResult, ToolsServerCapability,
};

fn object(entries: Vec<(&str, serde_json::Value)>) -> serde_json::Value {
    let mut map = serde_json::Map::new();
    for (key, value) in entries {
        map.insert(key.to_string(), value);
    }
    serde_json::Value::Object(map)
}

#[test]
fn json_rpc_request_serialization() {
    let req = JsonRpcRequest::new(serde_json::Value::Number(1.into()), "tools/list", None);
    let json = serde_json::to_string(&req.to_json()).unwrap();
    assert!(json.contains(r#""jsonrpc":"2.0""#));
    assert!(json.contains(r#""method":"tools/list""#));
    assert!(json.contains(r#""id":1"#));
}

#[test]
fn json_rpc_response_success() {
    let resp = JsonRpcResponse::success(
        serde_json::Value::Number(1.into()),
        object(vec![("tools", serde_json::Value::Array(vec![]))]),
    );
    let json = serde_json::to_string(&resp.to_json()).unwrap();
    assert!(json.contains(r#""result":{"tools":[]}"#));
}

#[test]
fn json_rpc_response_error() {
    let error = McpError::new(error_codes::METHOD_NOT_FOUND, "Method not found");
    let resp = JsonRpcResponse::error(serde_json::Value::Number(1.into()), error);
    let json = serde_json::to_string(&resp.to_json()).unwrap();
    assert!(json.contains(r#""error":{"code":-32601,"message":"Method not found"}"#));
}

#[test]
fn initialize_result_serialization() {
    let result = InitializeResult {
        protocol_version: "2024-11-05".to_string(),
        capabilities: ServerCapabilities {
            tools: Some(ToolsServerCapability {
                list_changed: Some(true),
            }),
            resources: Some(ResourcesServerCapability {
                subscribe: Some(true),
                list_changed: None,
            }),
        },
        server_info: ServerInfo {
            name: "zeroclaw".to_string(),
            version: "0.1.0".to_string(),
        },
    };
    let json = serde_json::to_string(&result.to_json()).unwrap();
    assert!(json.contains("zeroclaw"));
    assert!(json.contains("2024-11-05"));
}

#[test]
fn tool_definition_builder() {
    let tool = ToolDefinition::new(
        "file_read",
        "Read a file from the filesystem",
        object(vec![
            ("type", serde_json::Value::String("object".to_string())),
            (
                "properties",
                object(vec![(
                    "path",
                    object(vec![("type", serde_json::Value::String("string".to_string()))]),
                )]),
            ),
        ]),
    );
    assert_eq!(tool.name, "file_read");
    assert_eq!(tool.description, "Read a file from the filesystem");
}

#[test]
fn resource_definition_builder() {
    let resource = ResourceDefinition::new("file:///config.toml", "Config File")
        .with_mime_type("application/toml")
        .with_description("Main configuration file");

    assert_eq!(resource.uri, "file:///config.toml");
    assert_eq!(resource.mime_type, Some("application/toml".to_string()));
    assert_eq!(
        resource.description,
        Some("Main configuration file".to_string())
    );
}

#[test]
fn tools_call_result_text() {
    let result = ToolsCallResult::text("File content here");
    let json = serde_json::to_string(&result.to_json()).unwrap();
    assert!(json.contains(r#""type":"Text""#));
    assert!(json.contains("File content here"));
}

#[test]
fn tools_call_result_error() {
    let result = ToolsCallResult::error("Error: file not found");
    let json = serde_json::to_string(&result.to_json()).unwrap();
    assert!(json.contains(r#""is_error":true"#));
}

#[test]
fn client_capabilities_empty() {
    let caps = ClientCapabilities::default();
    let json = serde_json::to_string(&caps.to_json()).unwrap();
    assert!(json == "{}");
}

#[test]
fn mcp_notification() {
    let notification = JsonRpcNotification::new("notifications/tools/list_changed", None);
    let json = serde_json::to_string(&notification.to_json()).unwrap();
    assert!(json.contains(r#""method":"notifications/tools/list_changed""#));
}
