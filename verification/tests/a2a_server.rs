use zeroclaw::agent::a2a::server::{
    authenticate, authentication_failed, finished, handle_method, handle_task_cancel_rpc,
    handle_task_get_rpc, handle_task_submit, http_status, task_id_param, task_not_found,
    unreadable_body, A2AMethod, A2AServer, A2AServerConfig, AuthFailure, TaskContext, TaskStore,
    MAX_BODY_SIZE, REQUEST_TIMEOUT_SECS,
};
use zeroclaw::agent::a2a::types::{
    error_codes, A2ARequest, AgentCard, AgentMessage, TaskStatus,
};

fn config(keys: &[&str]) -> A2AServerConfig {
    A2AServerConfig {
        api_keys: keys.iter().map(|k| k.to_string()).collect(),
        ..A2AServerConfig::default()
    }
}

#[test]
fn a2a_server_defaults() {
    let c = A2AServerConfig::default();
    assert_eq!(c.host, "127.0.0.1");
    assert_eq!(c.port, 42618);
    assert!(c.api_keys.is_empty());
    assert!(c.oauth_clients.is_empty());
    assert!(c.require_authentication);
    assert_eq!(MAX_BODY_SIZE, 65_536);
    assert_eq!(REQUEST_TIMEOUT_SECS, 30);
    let card = AgentCard::new("Agent 1", "1.0.0", "http://localhost:8000");
    let server = A2AServer::new(c, card);
    assert_eq!(server.agent_card().name, "Agent 1");
    assert_eq!(server.config().port, 42618);
}

#[test]
fn callers_are_let_in_by_key() {
    let c = config(&["k1", "k2"]);
    assert_eq!(authenticate(&c, "Bearer k2"), Ok(()));
    assert_eq!(authenticate(&c, "ApiKey k1"), Ok(()));
    assert_eq!(authenticate(&c, "Bearer k3"), Err(AuthFailure::InvalidKey));
    assert_eq!(authenticate(&c, "ApiKey "), Err(AuthFailure::InvalidKey));
    assert_eq!(authenticate(&c, "Basic k1"), Err(AuthFailure::Missing));
    assert_eq!(authenticate(&c, "bearer k1"), Err(AuthFailure::Missing));
    assert_eq!(authenticate(&c, ""), Err(AuthFailure::Missing));
    assert_eq!(AuthFailure::InvalidKey.message(), "Invalid API key");
    assert_eq!(AuthFailure::Missing.message(), "Authentication required");
    let open = A2AServerConfig { require_authentication: false, ..config(&[]) };
    assert_eq!(authenticate(&open, ""), Ok(()));
    assert_eq!(authenticate(&open, "Bearer nothing"), Ok(()));
}

#[test]
fn methods_are_routed_by_name() {
    assert_eq!(handle_method("tasks/submit").unwrap(), A2AMethod::TaskSubmit);
    assert_eq!(handle_method("tasks/get").unwrap(), A2AMethod::TaskGet);
    assert_eq!(handle_method("tasks/cancel").unwrap(), A2AMethod::TaskCancel);
    assert_eq!(handle_method("agent/card").unwrap(), A2AMethod::AgentCard);
    let e = handle_method("tasks/unknown").unwrap_err();
    assert_eq!(e.code, error_codes::METHOD_NOT_FOUND);
    assert_eq!(e.message, "Method not found");
    assert!(e.data.is_none());
}

#[test]
fn task_id_is_read_from_params() {
    let with_id: serde_json::Value = serde_json::from_str(r#"{"id":"task-7"}"#).unwrap();
    assert_eq!(task_id_param(Some(&with_id)).unwrap(), "task-7");
    let e = task_id_param(None).unwrap_err();
    assert_eq!((e.code, e.message.as_str()), (error_codes::INVALID_PARAMS, "Missing params"));
    let no_id: serde_json::Value = serde_json::from_str(r#"{"id":7}"#).unwrap();
    let e = task_id_param(Some(&no_id)).unwrap_err();
    assert_eq!((e.code, e.message.as_str()), (error_codes::INVALID_PARAMS, "Missing task id"));
    let e = task_not_found();
    assert_eq!((e.code, e.message.as_str()), (error_codes::TASK_NOT_FOUND, "Task not found"));
}

#[test]
fn task_keeps_its_history() {
    let mut task =
        TaskContext::at("task-1".to_string(), AgentMessage::user(vec![AgentMessage::text_part("hello")]), 10, "t0");
    assert_eq!(task.status, TaskStatus::Submitted);
    assert_eq!(task.history.len(), 1);
    assert_eq!((task.created_at, task.updated_at), (10, 10));
    task.update_status_at(TaskStatus::Working, None, 20, "t1");
    assert_eq!(task.status, TaskStatus::Working);
    assert_eq!(task.history.len(), 2);
    assert_eq!(task.history[1].from, TaskStatus::Submitted);
    assert_eq!(task.history[1].to, TaskStatus::Working);
    assert_eq!(task.history[1].timestamp, "t1");
    assert!(task.history[1].message.is_none());
    assert_eq!((task.created_at, task.updated_at), (10, 20));
    task.update_status_at(TaskStatus::Completed, Some(AgentMessage::agent(vec![AgentMessage::text_part("done")])), 30, "t2");
    assert!(task.history[2].message.is_some());
    assert_eq!(task.history[2].from, TaskStatus::Working);
    let e = task.cancel(40, "t3").unwrap_err();
    assert_eq!(e.code, error_codes::TASK_CANCEL_FAILED);
    assert_eq!(e.message, "Task already finished");
    assert_eq!(task.status, TaskStatus::Completed);
    assert_eq!(task.history.len(), 3);
    assert_eq!(task.updated_at, 30);
}

#[test]
fn running_task_is_canceled() {
    let mut task =
        TaskContext::at("task-2".to_string(), AgentMessage::user(vec![AgentMessage::text_part("hello")]), 10, "t0");
    assert!(task.cancel(15, "t1").is_ok());
    assert_eq!(task.status, TaskStatus::Canceled);
    assert_eq!(task.history.len(), 2);
    assert_eq!(task.history[1].to, TaskStatus::Canceled);
    assert_eq!(task.updated_at, 15);
    assert!(task.cancel(16, "t2").is_err());
    assert!(finished(TaskStatus::Failed));
    assert!(finished(TaskStatus::Canceled));
    assert!(!finished(TaskStatus::Submitted));
    assert!(!finished(TaskStatus::InputRequired));
}

fn json(text: &str) -> serde_json::Value {
    serde_json::from_str(text).unwrap()
}

#[test]
fn submitted_task_is_filed_and_reported() {
    let mut store = TaskStore::new();
    let params = json(r#"{"id":"task-9","message":{"role":"user","parts":[]}}"#);
    let message = AgentMessage::user(vec![AgentMessage::text_part("hello")]);
    let answer =
        handle_task_submit(&mut store, Some(&params), Some(message.clone()), 5, "t0").unwrap();
    assert_eq!(answer, json(r#"{"id":"task-9","status":"submitted"}"#));
    assert_eq!(store.len(), 1);
    let report = handle_task_get_rpc(&store, Some(&json(r#"{"id":"task-9"}"#))).unwrap();
    assert_eq!(report.id, "task-9");
    assert_eq!(report.status, TaskStatus::Submitted);
    assert!(report.message.is_some());
    assert_eq!(report.history.len(), 1);

    let again = handle_task_submit(&mut store, Some(&params), Some(message.clone()), 6, "t1");
    assert!(again.is_ok());
    assert_eq!(store.len(), 1);
    assert_eq!(store.get("task-9").unwrap().created_at, 6);

    let unnamed = handle_task_submit(&mut store, Some(&json("{}")), Some(message), 7, "t2").unwrap();
    let id = unnamed["id"].as_str().unwrap().to_string();
    assert_eq!(id.len(), 36);
    assert_eq!(unnamed["status"], "submitted");
    assert_eq!(store.len(), 2);
    assert!(store.get(&id).is_some());

    let canceled =
        handle_task_cancel_rpc(&mut store, Some(&json(r#"{"id":"task-9"}"#)), 8, "t3").unwrap();
    assert_eq!(canceled, "task-9");
    let report = store.report("task-9", false).unwrap();
    assert_eq!(report.status, TaskStatus::Canceled);
    assert!(report.message.is_none());
    assert_eq!(report.history.len(), 2);
    assert_eq!(store.get(&id).unwrap().status, TaskStatus::Submitted);
}

#[test]
fn task_requests_fail_with_their_codes() {
    let mut store = TaskStore::new();
    let message = AgentMessage::user(vec![]);
    let e = handle_task_submit(&mut store, None, Some(message.clone()), 0, "t").unwrap_err();
    assert_eq!((e.code, e.message.as_str()), (error_codes::INVALID_PARAMS, "Missing params"));
    let e = handle_task_submit(&mut store, Some(&json(r#"{"id":"a"}"#)), None, 0, "t").unwrap_err();
    assert_eq!((e.code, e.message.as_str()), (error_codes::INVALID_PARAMS, "Missing message"));
    assert_eq!(store.len(), 0);
    let e = handle_task_get_rpc(&store, None).err().unwrap();
    assert_eq!((e.code, e.message.as_str()), (error_codes::INVALID_PARAMS, "Missing params"));
    let e = handle_task_get_rpc(&store, Some(&json("{}"))).err().unwrap();
    assert_eq!((e.code, e.message.as_str()), (error_codes::INVALID_PARAMS, "Missing task id"));
    let e = handle_task_get_rpc(&store, Some(&json(r#"{"id":"a"}"#))).err().unwrap();
    assert_eq!((e.code, e.message.as_str()), (error_codes::TASK_NOT_FOUND, "Task not found"));
    let e = handle_task_cancel_rpc(&mut store, Some(&json(r#"{"id":"a"}"#)), 0, "t").unwrap_err();
    assert_eq!(e.code, error_codes::TASK_NOT_FOUND);
    store.submit_as("a".to_string(), message, 0, "t");
    assert!(store.cancel("a", 1, "t1").is_ok());
    let e = handle_task_cancel_rpc(&mut store, Some(&json(r#"{"id":"a"}"#)), 2, "t2").unwrap_err();
    assert_eq!((e.code, e.message.as_str()), (error_codes::TASK_CANCEL_FAILED, "Task already finished"));
    assert_eq!(store.get("a").unwrap().updated_at, 1);

    assert_eq!(http_status(Ok(())), 200);
    assert_eq!(http_status(Err(error_codes::TASK_NOT_FOUND)), 404);
    assert_eq!(http_status(Err(error_codes::TASK_CANCEL_FAILED)), 400);
    let turned_away = authentication_failed(AuthFailure::Missing);
    assert!(turned_away.id.is_null());
    let error = turned_away.error.unwrap();
    assert_eq!(error.code, error_codes::AUTHENTICATION_FAILED);
    assert_eq!(error.message, "Authentication required");
    assert_eq!(unreadable_body(false).error.unwrap().message, "Invalid UTF-8");
    let unread = unreadable_body(true).error.unwrap();
    assert_eq!((unread.code, unread.message.as_str()), (error_codes::PARSE_ERROR, "Invalid JSON"));
}

#[test]
fn requests_are_answered_under_their_id() {
    let card = AgentCard::new("Agent", "1.0.0", "http://localhost:8000");
    let server = A2AServer::new(
        A2AServerConfig { api_keys: vec!["k1".to_string()], ..A2AServerConfig::default() },
        card,
    );
    let mut store = TaskStore::new();

    let (status, response) = server.handle_body(&mut store, "", Some("{}"), 0, "t0");
    assert_eq!(status, 200);
    assert_eq!(response.error.unwrap().code, error_codes::AUTHENTICATION_FAILED);
    let (status, response) = server.handle_body(&mut store, "Bearer k1", None, 0, "t0");
    assert_eq!(status, 400);
    assert_eq!(response.error.unwrap().message, "Invalid UTF-8");
    let (status, response) = server.handle_body(&mut store, "Bearer k1", Some("{"), 0, "t0");
    assert_eq!(status, 400);
    assert_eq!(response.error.unwrap().message, "Invalid JSON");

    let submit = r#"{"jsonrpc":"2.0","id":7,"method":"tasks/submit","params":{"id":"task-1","message":{"role":"user","parts":[{"type":"Text","data":{"text":"hello"}}]}}}"#;
    let (status, response) = server.handle_body(&mut store, "Bearer k1", Some(submit), 10, "t1");
    assert_eq!(status, 200);
    assert_eq!(
        response.to_json(),
        json(r#"{"jsonrpc":"2.0","id":7,"result":{"id":"task-1","status":"submitted"}}"#)
    );
    assert_eq!(store.len(), 1);

    let get = r#"{"jsonrpc":"2.0","id":"g","method":"tasks/get","params":{"id":"task-1"}}"#;
    let (_, response) = server.handle_body(&mut store, "ApiKey k1", Some(get), 11, "t2");
    assert_eq!(
        response.to_json(),
        json(
            r#"{"jsonrpc":"2.0","id":"g","result":{"id":"task-1","status":"submitted","message":{"role":"user","parts":[{"type":"Text","data":{"text":"hello"}}]},"history":[{"from":"submitted","to":"submitted","timestamp":"t1"}]}}"#
        )
    );

    let cancel = r#"{"jsonrpc":"2.0","id":"c","method":"tasks/cancel","params":{"id":"task-1"}}"#;
    let (_, response) = server.handle_body(&mut store, "Bearer k1", Some(cancel), 12, "t3");
    assert_eq!(
        response.to_json(),
        json(
            r#"{"jsonrpc":"2.0","id":"c","result":{"id":"task-1","status":"canceled","history":[{"from":"submitted","to":"submitted","timestamp":"t1"},{"from":"submitted","to":"canceled","timestamp":"t3"}]}}"#
        )
    );
    let (_, response) = server.handle_body(&mut store, "Bearer k1", Some(cancel), 13, "t4");
    assert_eq!(
        response.to_json(),
        json(r#"{"jsonrpc":"2.0","id":"c","error":{"code":-32002,"message":"Task already finished"}}"#)
    );

    let bad_message = r#"{"jsonrpc":"2.0","id":8,"method":"tasks/submit","params":{"id":"task-2","message":{"role":"nobody","parts":[]}}}"#;
    let (_, response) = server.handle_body(&mut store, "Bearer k1", Some(bad_message), 14, "t5");
    assert_eq!(response.error.unwrap().message, "Missing message");
    assert_eq!(store.len(), 1);

    let card_request = A2ARequest::new(serde_json::Value::from(9), "agent/card", None);
    let response = server.handle_request(&mut store, &card_request, 15, "t6");
    assert_eq!(response.result.unwrap()["name"], "Agent");
    let unknown = A2ARequest::new(serde_json::Value::from(10), "tasks/list", None);
    let response = server.handle_request(&mut store, &unknown, 16, "t7");
    assert_eq!(response.id, serde_json::Value::from(10));
    assert_eq!(response.error.unwrap().code, error_codes::METHOD_NOT_FOUND);
}

#[test]
fn task_reads_the_clock_where_no_time_is_given() {
    let mut task = TaskContext::new("task-3".to_string(), AgentMessage::user(vec![]));
    assert_eq!(task.id, "task-3");
    assert_eq!(task.status, TaskStatus::Submitted);
    assert_eq!(task.created_at, task.updated_at);
    assert!(task.created_at > 1_600_000_000_000);
    assert!(task.history[0].timestamp.contains('T'));
    task.update_status(TaskStatus::Working, None);
    assert_eq!(task.status, TaskStatus::Working);
    assert_eq!(task.history.len(), 2);
    assert!(task.updated_at >= task.created_at);
}
