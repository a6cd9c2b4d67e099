use zeroclaw::mcp::server::{
    listen_address, resources_list_response, resources_read_response, response_line,
    tool_call_response, McpServer, MemoryEntry, ServerAction, ServerConfig, ToolResult,
    TransportMode,
};
use zeroclaw::mcp::types::{error_codes, JsonRpcRequest, JsonRpcResponse, ToolDefinition};

fn object(entries: Vec<(&str, serde_json::Value)>) -> serde_json::Value {
    let mut map = serde_json::Map::new();
    for (key, value) in entries {
        map.insert(key.to_string(), value);
    }
    serde_json::Value::Object(map)
}

fn string(s: &str) -> serde_json::Value {
    serde_json::Value::String(s.to_string())
}

fn echo_server() -> McpServer {
    let schema = object(vec![
        ("type", string("object")),
        (
            "properties",
            object(vec![("text", object(vec![("type", string("string"))]))]),
        ),
    ]);
    McpServer::new(
        ServerConfig::default(),
        vec![ToolDefinition::new("echo", "Echoes its text", schema)],
    )
}

fn request(id: u64, method: &str, params: Option<serde_json::Value>) -> String {
    let request = JsonRpcRequest::new(serde_json::Value::from(id), method, params);
    serde_json::to_string(&request.to_json()).unwrap()
}

fn respond(server: &McpServer, message: &str) -> JsonRpcResponse {
    match server.handle_message(message) {
        ServerAction::Respond(response) => response,
        other => panic!("response expected, got {:?}", other),
    }
}

fn error_of(response: &JsonRpcResponse) -> (i32, String) {
    assert!(response.result.is_none());
    let error = response.error.as_ref().expect("error expected");
    (error.code, error.message.clone())
}

#[test]
fn server_config_default() {
    let config = ServerConfig::default();
    assert_eq!(config.host, "127.0.0.1");
    assert_eq!(config.port, 8765);
    assert_eq!(config.transport_mode, TransportMode::Stdio);
    assert_eq!(TransportMode::default(), TransportMode::Stdio);
    assert_eq!(listen_address(&config), "127.0.0.1:8765");
}

#[test]
fn tools_list_names_the_one_registered_tool() {
    let server = echo_server();
    let response = respond(&server, &request(1, "tools/list", None));
    assert_eq!(response.id, serde_json::Value::from(1u64));
    assert!(response.error.is_none());
    let result = response.result.unwrap();
    let tools = result["tools"].as_array().unwrap();
    assert_eq!(tools.len(), 1);
    assert_eq!(tools[0]["name"], "echo");
    assert_eq!(tools[0]["description"], "Echoes its text");
    assert_eq!(tools[0]["input_schema"]["type"], "object");
    assert!(result.get("next_cursor").is_none());
}

#[test]
fn tools_call_runs_echo_and_returns_its_text() {
    let server = echo_server();
    let params = object(vec![
        ("name", string("echo")),
        ("arguments", object(vec![("text", string("hi"))])),
    ]);
    let action = server.handle_message(&request(7, "tools/call", Some(params)));
    let (id, index, arguments) = match action {
        ServerAction::CallTool {
            id,
            index,
            arguments,
        } => (id, index, arguments),
        other => panic!("tool call expected, got {:?}", other),
    };
    assert_eq!(index, 0);
    assert_eq!(id, serde_json::Value::from(7u64));
    assert_eq!(arguments["text"], "hi");

    let echoed = arguments["text"].as_str().unwrap().to_string();
    let response = tool_call_response(
        id,
        Ok(ToolResult {
            success: true,
            output: echoed,
            error: None,
        }),
    );
    assert_eq!(response.id, serde_json::Value::from(7u64));
    let result = response.result.unwrap();
    assert_eq!(result["content"][0]["type"], "Text");
    assert_eq!(result["content"][0]["text"], "hi");
    assert!(result.get("is_error").is_none());
}

#[test]
fn tools_call_of_missing_tool_is_not_found() {
    let server = echo_server();
    let params = object(vec![("name", string("missing"))]);
    let response = respond(&server, &request(3, "tools/call", Some(params)));
    assert_eq!(response.id, serde_json::Value::from(3u64));
    let (code, message) = error_of(&response);
    assert_eq!(code, error_codes::TOOL_NOT_FOUND);
    assert_eq!(code, -32001);
    assert_eq!(message, "Tool not found: missing");
}

#[test]
fn tools_call_without_or_with_bad_params_is_invalid() {
    let server = echo_server();
    let response = respond(&server, &request(4, "tools/call", None));
    assert_eq!(error_of(&response), (-32602, "Missing params".to_string()));
    let response = respond(
        &server,
        r#"{"jsonrpc":"2.0","id":4,"method":"tools/call","params":null}"#,
    );
    assert_eq!(error_of(&response), (-32602, "Missing params".to_string()));
    let params = object(vec![("name", serde_json::Value::from(5u64))]);
    let response = respond(&server, &request(4, "tools/call", Some(params)));
    assert_eq!(error_of(&response), (-32602, "Invalid params".to_string()));
    let response = respond(&server, &request(4, "tools/call", Some(string("echo"))));
    assert_eq!(error_of(&response), (-32602, "Invalid params".to_string()));
}

#[test]
fn tool_failure_is_a_result_with_the_error_flag() {
    let response = tool_call_response(
        serde_json::Value::from(1u64),
        Ok(ToolResult {
            success: false,
            output: "ignored".to_string(),
            error: Some("boom".to_string()),
        }),
    );
    let result = response.result.unwrap();
    assert_eq!(result["is_error"], true);
    assert_eq!(result["content"][0]["text"], "boom");

    let response = tool_call_response(
        serde_json::Value::from(1u64),
        Ok(ToolResult {
            success: false,
            output: String::new(),
            error: None,
        }),
    );
    assert_eq!(response.result.unwrap()["content"][0]["text"], "Unknown error");

    let response = tool_call_response(serde_json::Value::from(1u64), Err("crashed".to_string()));
    assert_eq!(error_of(&response), (-32603, "crashed".to_string()));
}

#[test]
fn first_tool_of_a_name_wins() {
    let server = McpServer::new(
        ServerConfig::default(),
        vec![
            ToolDefinition::new("a", "first", serde_json::Value::Null),
            ToolDefinition::new("b", "second", serde_json::Value::Null),
            ToolDefinition::new("b", "third", serde_json::Value::Null),
        ],
    );
    let params = object(vec![("name", string("b"))]);
    match server.handle_message(&request(1, "tools/call", Some(params))) {
        ServerAction::CallTool {
            index, arguments, ..
        } => {
            assert_eq!(index, 1);
            assert!(arguments.is_null());
        }
        other => panic!("tool call expected, got {:?}", other),
    }
}

#[test]
fn initialize_tells_version_capabilities_and_identity() {
    let server = echo_server();
    let response = respond(&server, &request(1, "initialize", None));
    let result = response.result.unwrap();
    assert_eq!(result["protocol_version"], "2024-11-05");
    assert_eq!(result["capabilities"]["tools"]["list_changed"], true);
    assert_eq!(result["capabilities"]["resources"]["subscribe"], false);
    assert_eq!(result["capabilities"]["resources"]["list_changed"], false);
    assert_eq!(result["server_info"]["name"], "zeroclaw");
    assert_eq!(result["server_info"]["version"], "0.1.0");
}

#[test]
fn unknown_method_is_method_not_found_under_its_id() {
    let server = echo_server();
    let response = respond(
        &server,
        r#"{"jsonrpc":"2.0","id":"abc","method":"prompts/list"}"#,
    );
    assert_eq!(response.id, string("abc"));
    assert_eq!(error_of(&response), (-32601, "Method not found".to_string()));
}

#[test]
fn malformed_messages_are_parse_errors_under_null_id() {
    let server = echo_server();
    for message in [
        "not json",
        "[1,2,3]",
        r#"{"id":1,"method":"tools/list"}"#,
        r#"{"jsonrpc":"2.0","id":1}"#,
        r#"{"jsonrpc":"2.0","id":1,"method":7}"#,
    ] {
        let response = respond(&server, message);
        assert_eq!(response.id, serde_json::Value::Null, "{}", message);
        assert_eq!(
            error_of(&response),
            (-32700, "Invalid JSON".to_string()),
            "{}",
            message
        );
    }
}

#[test]
fn notification_is_not_answered() {
    let server = echo_server();
    assert!(matches!(
        server.handle_message(r#"{"jsonrpc":"2.0","method":"initialized"}"#),
        ServerAction::Ignore
    ));
    assert!(server.serve_line("   ").is_none());
    assert!(server.serve_line("").is_none());
    assert!(matches!(
        server.serve_line(r#"{"jsonrpc":"2.0","method":"initialized"}"#),
        Some(ServerAction::Ignore)
    ));
}

#[test]
fn resources_read_without_known_scheme_is_not_found() {
    let server = echo_server();
    for uri in ["file:///etc/passwd", "memory:/k", "k", ""] {
        let params = object(vec![("uri", string(uri))]);
        let response = respond(&server, &request(9, "resources/read", Some(params)));
        assert_eq!(
            error_of(&response),
            (-32002, "Unknown resource URI scheme".to_string()),
            "{}",
            uri
        );
    }
    let response = respond(&server, &request(9, "resources/read", None));
    assert_eq!(error_of(&response), (-32602, "Missing params".to_string()));
    let response = respond(
        &server,
        &request(9, "resources/read", Some(object(vec![]))),
    );
    assert_eq!(error_of(&response), (-32602, "Invalid params".to_string()));
}

#[test]
fn resources_read_looks_the_key_up() {
    let server = echo_server();
    let params = object(vec![("uri", string("memory://notes/today"))]);
    let (id, uri, key) = match server.handle_message(&request(5, "resources/read", Some(params))) {
        ServerAction::ReadResource { id, uri, key } => (id, uri, key),
        other => panic!("lookup expected, got {:?}", other),
    };
    assert_eq!(uri, "memory://notes/today");
    assert_eq!(key, "notes/today");

    let entry = MemoryEntry {
        id: "e1".to_string(),
        key: key.clone(),
        content: "remember".to_string(),
        category: "core".to_string(),
    };
    let response = resources_read_response(id.clone(), &uri, Ok(Some(entry)));
    let result = response.result.unwrap();
    assert_eq!(result["contents"][0]["uri"], "memory://notes/today");
    assert_eq!(result["contents"][0]["mime_type"], "text/plain");
    assert_eq!(result["contents"][0]["text"], "remember");
    assert!(result["contents"][0].get("blob").is_none());

    let response = resources_read_response(id.clone(), &uri, Ok(None));
    assert_eq!(
        error_of(&response),
        (-32002, "Memory entry not found".to_string())
    );
    let response = resources_read_response(id, &uri, Err("disk".to_string()));
    assert_eq!(error_of(&response), (-32603, "disk".to_string()));
}

#[test]
fn resources_list_describes_each_entry() {
    let server = echo_server();
    let id = match server.handle_message(&request(6, "resources/list", None)) {
        ServerAction::ListResources { id } => id,
        other => panic!("listing expected, got {:?}", other),
    };
    let entries = vec![
        MemoryEntry {
            id: "1".to_string(),
            key: "a".to_string(),
            content: "x".to_string(),
            category: "core".to_string(),
        },
        MemoryEntry {
            id: "2".to_string(),
            key: "b".to_string(),
            content: "y".to_string(),
            category: "daily".to_string(),
        },
    ];
    let response = resources_list_response(id.clone(), Ok(entries));
    assert_eq!(response.id, serde_json::Value::from(6u64));
    let result = response.result.unwrap();
    let resources = result["resources"].as_array().unwrap();
    assert_eq!(resources.len(), 2);
    assert_eq!(resources[0]["uri"], "memory://a");
    assert_eq!(resources[0]["name"], "a");
    assert_eq!(resources[0]["description"], "core - 1");
    assert_eq!(resources[1]["uri"], "memory://b");
    assert_eq!(resources[1]["description"], "daily - 2");
    assert!(resources[0].get("mime_type").is_none());

    let response = resources_list_response(id, Err("down".to_string()));
    assert_eq!(error_of(&response), (-32603, "down".to_string()));
}

#[test]
fn response_line_is_json_and_a_line_feed() {
    let response = JsonRpcResponse::success(serde_json::Value::from(1u64), string("ok"));
    let line = response_line(&response).unwrap();
    assert_eq!(line, "{\"id\":1,\"jsonrpc\":\"2.0\",\"result\":\"ok\"}\n");
    let error = JsonRpcResponse::error(
        serde_json::Value::Null,
        zeroclaw::mcp::types::McpError::new(error_codes::PARSE_ERROR, "Invalid JSON"),
    );
    let line = response_line(&error).unwrap();
    assert!(!line.contains("result"));
    assert!(line.contains("\"id\":null"));
    assert!(line.ends_with("\n"));
}
