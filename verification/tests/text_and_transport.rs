use zeroclaw::mcp::transport::{
    frame_line, notification_line, request_line, OutboundQueue, OUTBOUND_QUEUE_CAPACITY,
};
use zeroclaw::mcp::server::{response_line, response_text};
use zeroclaw::mcp::types::{JsonRpcNotification, JsonRpcRequest, JsonRpcResponse};
use zeroclaw::mcp::wire::{notification_text, request_text};
use zeroclaw::text::{holds, is_blank, join, join_all, remove_white_space, u64_to_decimal};

#[test]
fn numbers_are_written_in_decimal() {
    assert_eq!(u64_to_decimal(0), "0");
    assert_eq!(u64_to_decimal(9), "9");
    assert_eq!(u64_to_decimal(10), "10");
    assert_eq!(u64_to_decimal(1234567890), "1234567890");
    assert_eq!(u64_to_decimal(u64::MAX), "18446744073709551615");
}

#[test]
fn texts_are_joined_and_searched() {
    assert_eq!(join("ab", "cd"), "abcd");
    assert_eq!(join_all(&vec![], ","), "");
    assert_eq!(join_all(&vec!["a".to_string()], ","), "a");
    assert_eq!(join_all(&vec!["a".to_string(), "".to_string(), "c".to_string()], ", "), "a, , c");
    assert_eq!(remove_white_space(" a\tb\r\n c\u{a0}d "), "abcd");
    assert!(is_blank(" \t\r\n"));
    assert!(is_blank(""));
    assert!(!is_blank(" x "));
    let texts = vec!["one".to_string(), "two".to_string()];
    assert!(holds(&texts, "two"));
    assert!(!holds(&texts, "Two"));
    assert!(!holds(&vec![], ""));
}

#[test]
fn lines_are_framed_by_a_newline() {
    assert_eq!(frame_line("{}"), "{}\n");
    let request = JsonRpcRequest::new(serde_json::Value::from(1), "tools/list", None);
    let line = request_line(&request).unwrap();
    assert!(line.ends_with('\n'));
    assert_eq!(line.matches('\n').count(), 1);
    let parsed: serde_json::Value = serde_json::from_str(line.trim_end()).unwrap();
    assert_eq!(parsed["method"], "tools/list");
    assert_eq!(parsed["id"], 1);
    let notification = JsonRpcNotification::new("initialized", None);
    let line = notification_line(&notification).unwrap();
    let parsed: serde_json::Value = serde_json::from_str(line.trim_end()).unwrap();
    assert_eq!(parsed["method"], "initialized");
    assert!(parsed.get("id").is_none());
}

#[test]
fn full_queue_hands_the_line_back() {
    assert_eq!(OUTBOUND_QUEUE_CAPACITY, 100);
    let mut queue = OutboundQueue::new(2);
    assert_eq!(queue.len(), 0);
    assert!(queue.pop().is_none());
    assert_eq!(queue.push("a".to_string()), Ok(()));
    assert_eq!(queue.push("b".to_string()), Ok(()));
    assert!(queue.is_full());
    assert_eq!(queue.push("c".to_string()), Err("c".to_string()));
    assert_eq!(queue.len(), 2);
    assert_eq!(queue.pop(), Some("a".to_string()));
    assert!(!queue.is_full());
    assert_eq!(queue.push("c".to_string()), Ok(()));
    assert_eq!(queue.drain(), vec!["b".to_string(), "c".to_string()]);
    assert_eq!(queue.len(), 0);
}

#[test]
fn queue_of_the_usual_capacity_takes_a_hundred_lines() {
    let mut queue = OutboundQueue::new(OUTBOUND_QUEUE_CAPACITY);
    for i in 0..100 {
        assert!(queue.push(i.to_string()).is_ok());
    }
    assert!(queue.push("one more".to_string()).is_err());
    assert_eq!(queue.pop(), Some("0".to_string()));
}

#[test]
fn every_message_has_a_line() {
    let params: serde_json::Value = serde_json::from_str(
        r#"{"":null,"é\n\"":[1.5e300,-0.0,18446744073709551615,-9223372036854775808,[[[[{}]]]]],"k":"\u0000😀"}"#,
    )
    .unwrap();
    let request = JsonRpcRequest::new(serde_json::Value::Null, "", Some(params.clone()));
    let line = request_line(&request).unwrap();
    assert!(line.ends_with('\n'));
    assert_eq!(line.matches('\n').count(), 1);
    let parsed: serde_json::Value = serde_json::from_str(line.trim_end_matches('\n')).unwrap();
    assert_eq!(parsed["params"], params);
    assert_eq!(request_text(&request).unwrap() + "\n", line);
    let notification = JsonRpcNotification::new("n", Some(params.clone()));
    let line = notification_line(&notification).unwrap();
    let parsed: serde_json::Value = serde_json::from_str(line.trim_end_matches('\n')).unwrap();
    assert_eq!(parsed["params"], params);
    assert_eq!(notification_text(&notification).unwrap() + "\n", line);
    let response = JsonRpcResponse::success(serde_json::Value::from(1), params.clone());
    let line = response_line(&response).unwrap();
    let parsed: serde_json::Value = serde_json::from_str(line.trim_end_matches('\n')).unwrap();
    assert_eq!(parsed["result"], params);
    assert_eq!(response_text(&response).unwrap() + "\n", line);
}
