use zeroclaw::mcp::client::{
    call_result_from_response, contents_from_response, resources_from_response,
    tools_from_response, ClientError, ConnectStep, ConnectionState, ErrorClass, Inbound,
    McpClient, McpServerConfig, Operation, OperationStep, ReconnectPolicy, ReconnectStep,
    TransportError, TransportMode,
};
use zeroclaw::mcp::server::{McpServer, ServerAction, ServerConfig};
use zeroclaw::mcp::types::{error_codes, ContentBlock, JsonRpcResponse, ToolDefinition};

fn http_config() -> McpServerConfig {
    McpServerConfig {
        name: "test-server".to_string(),
        transport_mode: TransportMode::Http,
        url: Some("http://localhost:8080".to_string()),
        ..Default::default()
    }
}

fn text(value: &serde_json::Value) -> String {
    serde_json::to_string(value).unwrap()
}

fn connected_client() -> McpClient {
    let mut client = McpClient::new(http_config());
    let request = match client.connect() {
        ConnectStep::Handshake(request) => request,
        other => panic!("handshake expected, got {:?}", other),
    };
    let server = McpServer::new(ServerConfig::default(), vec![]);
    let response = match server.handle_message(&text(&request.to_json())) {
        ServerAction::Respond(response) => response,
        other => panic!("response expected, got {:?}", other),
    };
    match client.receive(&text(&response.to_json())) {
        Inbound::Response { request, response } => {
            assert_eq!(request.operation, Operation::Initialize);
            client.complete_handshake(&response).unwrap();
        }
        other => panic!("matched response expected, got {:?}", other),
    }
    client
}

#[test]
fn mcp_server_config_default() {
    let config = McpServerConfig::default();
    assert_eq!(config.transport_mode, TransportMode::Http);
    assert_eq!(config.url, Some("http://localhost:8765".to_string()));
}

#[test]
fn mcp_client_creation() {
    let client = McpClient::new(http_config());
    assert!(!client.is_connected());
    assert_eq!(client.state(), ConnectionState::Disconnected);
    assert_eq!(
        client.reconnect_policy(),
        ReconnectPolicy {
            max_retries: 5,
            base_delay_ms: 1000
        }
    );
}

#[test]
fn handshake_connects_and_stores_what_the_server_tells() {
    let client = connected_client();
    assert!(client.is_connected());
    let info = client.get_server_info().unwrap();
    assert_eq!(info.name, "zeroclaw");
    let caps = client.get_capabilities().unwrap();
    assert_eq!(caps.tools.unwrap().list_changed, Some(true));
    assert_eq!(caps.resources.unwrap().subscribe, Some(false));
    assert_eq!(client.pending_len(), 0);
}

#[test]
fn handshake_request_carries_version_and_identity() {
    let mut client = McpClient::new(http_config());
    let request = match client.connect() {
        ConnectStep::Handshake(request) => request,
        other => panic!("handshake expected, got {:?}", other),
    };
    assert_eq!(client.state(), ConnectionState::Connecting);
    assert_eq!(request.method, "initialize");
    assert_eq!(request.id, serde_json::Value::from(1u64));
    let params = request.params.unwrap();
    assert_eq!(params["protocol_version"], "2024-11-05");
    assert_eq!(params["client_info"]["name"], "zeroclaw");
    assert!(params["capabilities"]["tools"].is_object());
}

#[test]
fn connect_on_connected_client_sends_nothing() {
    let mut client = connected_client();
    assert!(matches!(client.connect(), ConnectStep::AlreadyConnected));
    assert!(client.is_connected());
    assert_eq!(client.pending_len(), 0);
    assert!(client.get_server_info().is_some());
}

#[test]
fn connect_fails_without_what_the_transport_needs() {
    let mut client = McpClient::new(McpServerConfig {
        transport_mode: TransportMode::Stdio,
        ..Default::default()
    });
    match client.connect() {
        ConnectStep::Failed(e) => {
            assert_eq!(e.message(), "stdio transport requires command");
            assert!(!e.retryable());
        }
        other => panic!("failure expected, got {:?}", other),
    }
    assert_eq!(client.state(), ConnectionState::Disconnected);

    let mut client = McpClient::new(McpServerConfig {
        url: None,
        ..Default::default()
    });
    match client.connect() {
        ConnectStep::Failed(e) => assert_eq!(e.message(), "HTTP transport requires URL"),
        other => panic!("failure expected, got {:?}", other),
    }
}

#[test]
fn handshake_error_leaves_client_disconnected() {
    let mut client = McpClient::new(http_config());
    let _ = client.connect();
    let response = JsonRpcResponse::error(
        serde_json::Value::from(1u64),
        zeroclaw::mcp::types::McpError::new(error_codes::INTERNAL_ERROR, "no"),
    );
    let err = client.complete_handshake(&response).unwrap_err();
    assert_eq!(err.message(), "MCP initialization failed: no");
    assert_eq!(client.state(), ConnectionState::Disconnected);
    assert!(client.get_capabilities().is_none());
}

#[test]
fn responses_out_of_order_reach_their_requests() {
    let mut client = connected_client();
    let first = match client.list_tools(false) {
        OperationStep::Send(request) => request,
        other => panic!("request expected, got {:?}", other),
    };
    let second = match client.list_resources(false) {
        OperationStep::Send(request) => request,
        other => panic!("request expected, got {:?}", other),
    };
    assert_ne!(first.id, second.id);
    assert_eq!(client.pending_len(), 2);

    let answer_second = JsonRpcResponse::success(second.id.clone(), serde_json::Value::Null);
    let answer_first = JsonRpcResponse::success(first.id.clone(), serde_json::Value::Null);

    match client.receive(&text(&answer_second.to_json())) {
        Inbound::Response { request, response } => {
            assert_eq!(request.operation, Operation::ListResources);
            assert_eq!(response.id, second.id);
            assert_eq!(serde_json::Value::from(request.id), second.id);
        }
        other => panic!("matched response expected, got {:?}", other),
    }
    match client.receive(&text(&answer_first.to_json())) {
        Inbound::Response { request, response } => {
            assert_eq!(request.operation, Operation::ListTools);
            assert_eq!(response.id, first.id);
        }
        other => panic!("matched response expected, got {:?}", other),
    }
    assert_eq!(client.pending_len(), 0);
}

#[test]
fn duplicate_and_unknown_responses_are_discarded() {
    let mut client = connected_client();
    let request = match client.list_tools(false) {
        OperationStep::Send(request) => request,
        other => panic!("request expected, got {:?}", other),
    };
    let answer = text(&JsonRpcResponse::success(request.id, serde_json::Value::Null).to_json());
    assert!(matches!(client.receive(&answer), Inbound::Response { .. }));
    assert!(matches!(client.receive(&answer), Inbound::Discarded));
    let unknown = JsonRpcResponse::success(serde_json::Value::from(999u64), serde_json::Value::Null);
    assert!(matches!(
        client.receive(&text(&unknown.to_json())),
        Inbound::Discarded
    ));
    let by_name = JsonRpcResponse::success(
        serde_json::Value::String("2".to_string()),
        serde_json::Value::Null,
    );
    assert!(matches!(
        client.receive(&text(&by_name.to_json())),
        Inbound::Discarded
    ));
    assert!(matches!(client.receive("not json"), Inbound::Discarded));
    assert!(matches!(client.receive("{}"), Inbound::Discarded));
}

#[test]
fn notification_is_handed_on() {
    let mut client = connected_client();
    match client.receive(r#"{"jsonrpc":"2.0","method":"notifications/tools/list_changed"}"#) {
        Inbound::Notification(n) => assert_eq!(n.method, "notifications/tools/list_changed"),
        other => panic!("notification expected, got {:?}", other),
    }
}

#[test]
fn late_response_after_timeout_is_discarded() {
    let mut client = connected_client();
    let request = match client.read_resource("memory://k", false) {
        OperationStep::Send(request) => request,
        other => panic!("request expected, got {:?}", other),
    };
    let id = request.id.as_u64().unwrap();
    assert!(client.is_pending(id));
    let expired = client.expire(id).unwrap();
    assert_eq!(expired.operation, Operation::ReadResource);
    assert!(!client.is_pending(id));
    assert!(client.expire(id).is_none());
    let late = JsonRpcResponse::success(request.id, serde_json::Value::Null);
    assert!(matches!(
        client.receive(&text(&late.to_json())),
        Inbound::Discarded
    ));
}

#[test]
fn closed_transport_fails_every_request_in_flight() {
    let mut client = connected_client();
    let first = match client.call_tool("echo", serde_json::Value::Null, false) {
        OperationStep::Send(request) => request,
        other => panic!("request expected, got {:?}", other),
    };
    let _second = client.list_tools(false);
    let failed = client.transport_closed();
    assert_eq!(failed.len(), 2);
    assert_eq!(serde_json::Value::from(failed[0].id), first.id);
    assert_eq!(failed[0].operation, Operation::CallTool);
    assert_eq!(failed[1].operation, Operation::ListTools);
    assert_eq!(client.state(), ConnectionState::Disconnected);
    assert!(client.get_capabilities().is_none());
    assert!(client.get_server_info().is_none());
    assert_eq!(client.pending_len(), 0);
    let error = ClientError::Transport(TransportError::Closed);
    assert!(error.retryable());
    assert_eq!(error.message(), "Transport closed");
}

#[test]
fn operation_on_disconnected_client_asks_for_one_reconnect() {
    let mut client = McpClient::new(http_config());
    assert!(matches!(
        client.call_tool("echo", serde_json::Value::Null, false),
        OperationStep::Reconnect
    ));
    match client.call_tool("echo", serde_json::Value::Null, true) {
        OperationStep::Fail(ClientError::Transport(TransportError::NotConnected)) => {}
        other => panic!("failure expected, got {:?}", other),
    }
    assert_eq!(client.pending_len(), 0);
}

#[test]
fn ids_count_up_and_are_not_reused() {
    let mut client = connected_client();
    let mut seen = Vec::new();
    for _ in 0..5 {
        match client.list_tools(false) {
            OperationStep::Send(request) => seen.push(request.id.as_u64().unwrap()),
            other => panic!("request expected, got {:?}", other),
        }
    }
    assert_eq!(seen, vec![2, 3, 4, 5, 6]);
}

#[test]
fn reconnect_gives_up_after_exactly_the_limit() {
    let policy = ReconnectPolicy {
        max_retries: 5,
        base_delay_ms: 1000,
    };
    let (mut state, mut step) = policy.begin();
    let mut attempts = 0;
    let mut waits = Vec::new();
    loop {
        match step {
            ReconnectStep::Attempt => {
                attempts += 1;
                let next = policy.after_attempt(state, false);
                state = next.0;
                step = next.1;
            }
            ReconnectStep::Wait(delay) => {
                waits.push(delay);
                let next = policy.after_wait(state);
                state = next.0;
                step = next.1;
            }
            ReconnectStep::Done => panic!("no attempt connected"),
            ReconnectStep::GiveUp { attempts: named } => {
                assert_eq!(named, 5);
                break;
            }
        }
    }
    assert_eq!(attempts, 5);
    assert_eq!(waits, vec![1000, 2000, 4000, 8000, 16000]);
    let error = ClientError::ReconnectExhausted { attempts: 5 };
    assert_eq!(
        error.message(),
        "Failed to reconnect to MCP server after 5 attempts"
    );
}

#[test]
fn reconnect_stops_at_first_success_and_delay_saturates() {
    let policy = ReconnectPolicy {
        max_retries: 3,
        base_delay_ms: u64::MAX / 2 + 1,
    };
    let (state, step) = policy.begin();
    assert_eq!(step, ReconnectStep::Attempt);
    let (state, step) = policy.after_attempt(state, false);
    assert_eq!(step, ReconnectStep::Wait(u64::MAX / 2 + 1));
    let (state, step) = policy.after_wait(state);
    assert_eq!(step, ReconnectStep::Attempt);
    assert_eq!(state.delay_ms, u64::MAX);
    let (_, step) = policy.after_attempt(state, true);
    assert_eq!(step, ReconnectStep::Done);

    let never = ReconnectPolicy {
        max_retries: 0,
        base_delay_ms: 1,
    };
    assert_eq!(never.begin().1, ReconnectStep::GiveUp { attempts: 0 });
}

#[test]
fn server_errors_keep_code_message_and_class() {
    let response = JsonRpcResponse::error(
        serde_json::Value::from(1u64),
        zeroclaw::mcp::types::McpError::new(error_codes::TOOL_NOT_FOUND, "Tool not found: x"),
    );
    match call_result_from_response(&response) {
        Err(ClientError::Server {
            operation,
            class,
            code,
            message,
        }) => {
            assert_eq!(operation, Operation::CallTool);
            assert_eq!(class, ErrorClass::Capability);
            assert_eq!(code, -32001);
            assert_eq!(message, "Tool not found: x");
        }
        other => panic!("server error expected, got {:?}", other),
    }
    let err = call_result_from_response(&response).unwrap_err();
    assert_eq!(err.message(), "Tool call failed: Tool not found: x");
    assert!(!err.retryable());

    let response = JsonRpcResponse::error(
        serde_json::Value::from(1u64),
        zeroclaw::mcp::types::McpError::new(error_codes::INVALID_PARAMS, "Invalid params"),
    );
    match tools_from_response(&response) {
        Err(ClientError::Server { class, .. }) => assert_eq!(class, ErrorClass::Protocol),
        other => panic!("server error expected, got {:?}", other),
    }
}

#[test]
fn results_are_read_and_missing_results_are_told_apart() {
    let empty = JsonRpcResponse {
        jsonrpc: "2.0".to_string(),
        id: serde_json::Value::from(1u64),
        result: None,
        error: None,
    };
    assert!(tools_from_response(&empty).unwrap().is_empty());
    assert!(resources_from_response(&empty).unwrap().is_empty());
    assert_eq!(
        call_result_from_response(&empty).unwrap_err().message(),
        "No result from tool call"
    );
    assert_eq!(
        contents_from_response(&empty).unwrap_err().message(),
        "No result from resource read"
    );

    let malformed =
        JsonRpcResponse::success(serde_json::Value::from(1u64), serde_json::Value::from(3u64));
    assert!(matches!(
        tools_from_response(&malformed),
        Err(ClientError::MalformedResult(Operation::ListTools))
    ));

    let tools = vec![ToolDefinition::new(
        "echo",
        "Echoes its text",
        serde_json::Value::Null,
    )];
    let listed = McpServer::handle_tools_list(&tools, serde_json::Value::from(1u64));
    let read = tools_from_response(&listed).unwrap();
    assert_eq!(read.len(), 1);
    assert_eq!(read[0].name, "echo");
    assert_eq!(read[0].description, "Echoes its text");

    let outcome = zeroclaw::mcp::server::tool_call_response(
        serde_json::Value::from(2u64),
        Ok(zeroclaw::mcp::server::ToolResult {
            success: true,
            output: "hi".to_string(),
            error: None,
        }),
    );
    let result = call_result_from_response(&outcome).unwrap();
    assert_eq!(result.is_error, None);
    match &result.content[0] {
        ContentBlock::Text { text } => assert_eq!(text, "hi"),
        other => panic!("text block expected, got {:?}", other),
    }
}
