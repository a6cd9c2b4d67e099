use zeroclaw::providers::completions::{CompletionResponse, NativeToolSpec, ResponseMessage};
use zeroclaw::providers::mistral_nemo::{ApiChatResponse, MistralNeMoProvider};
use zeroclaw::providers::phi4::{self, Phi4Fault, Phi4Provider};
use zeroclaw::providers::qwen25::{self, QwenFault, Qwen25Provider};
use zeroclaw::providers::traits::{
    convert_tools, ChatMessage, ToolCall, ToolSpec, ToolsPayload,
};

fn parse(text: &str) -> serde_json::Value {
    serde_json::from_str(text).unwrap()
}

fn message(role: &str, content: &str) -> ChatMessage {
    ChatMessage { role: role.to_string(), content: content.to_string() }
}

fn number(x: f64) -> serde_json::Value {
    serde_json::Value::from(x)
}

fn shell_tool() -> ToolSpec {
    ToolSpec {
        name: "shell".to_string(),
        description: "Run a shell command".to_string(),
        parameters: parse(
            r#"{"type":"object","properties":{"command":{"type":"string"}},"required":["command"]}"#,
        ),
    }
}

#[test]
fn response_deserializes() {
    let json = r#"{
        "id": "cmpl-test",
        "object": "chat.completion",
        "created": 1234567890,
        "model": "mistral-nemo",
        "choices": [{
            "index": 0,
            "message": {"role": "assistant", "content": "Hello!"},
            "finish_reason": "stop"
        }],
        "usage": {
            "prompt_tokens": 10,
            "completion_tokens": 5,
            "total_tokens": 15
        }
    }"#;
    let resp = ApiChatResponse::parse(json.as_bytes()).unwrap();
    assert_eq!(resp.choices[0].message.content, "Hello!");
    assert_eq!(resp.usage.total_tokens, Some(15));
}

#[test]
fn response_with_tool_calls() {
    let json = r#"{
        "id": "cmpl-test",
        "object": "chat.completion",
        "created": 1234567890,
        "model": "mistral-nemo",
        "choices": [{
            "index": 0,
            "message": {
                "role": "assistant",
                "content": "",
                "tool_calls": [{"id": "call_1", "type": "function", "function": {"name": "shell", "arguments": {"command": "date"}}}]
            },
            "finish_reason": "tool_calls"
        }],
        "usage": {"prompt_tokens": 10, "completion_tokens": 5, "total_tokens": 15}
    }"#;
    let resp = ApiChatResponse::parse(json.as_bytes()).unwrap();
    assert_eq!(resp.choices[0].message.tool_calls.len(), 1);
    assert_eq!(resp.choices[0].message.tool_calls[0].function.name, "shell");
}

#[test]
fn convert_messages_user_role() {
    let provider = MistralNeMoProvider::new(None);
    let messages = vec![message("user", "Hello")];
    let converted = provider.convert_messages(&messages);
    assert_eq!(converted.len(), 1);
    assert_eq!(converted[0].role, "user");
    assert_eq!(converted[0].content, "Hello");
}

#[test]
fn convert_messages_system_role() {
    let provider = MistralNeMoProvider::new(None);
    let messages = vec![message("system", "You are helpful")];
    let converted = provider.convert_messages(&messages);
    assert_eq!(converted[0].role, "system");
}

#[test]
fn convert_messages_assistant_with_tool_calls() {
    let provider = MistralNeMoProvider::new(None);
    let messages = vec![message(
        "assistant",
        r#"{"tool_calls":[{"id":"call_1","function":{"name":"shell","arguments":"{\"command\":\"ls\"}"}}]}"#,
    )];
    let converted = provider.convert_messages(&messages);
    assert!(converted[0].tool_calls.is_some());
    assert_eq!(converted[0].tool_calls.as_ref().unwrap().len(), 1);
    assert_eq!(converted[0].tool_calls.as_ref().unwrap()[0].function.name, "shell");
}

#[test]
fn convert_messages_tool_result() {
    let provider = MistralNeMoProvider::new(None);
    let messages = vec![message("tool", r#"{"tool_call_id":"call_1","content":"result"}"#)];
    let converted = provider.convert_messages(&messages);
    assert_eq!(converted[0].role, "tool");
    assert_eq!(converted[0].tool_call_id, Some("call_1".to_string()));
    assert_eq!(converted[0].content, "result");
}

#[test]
fn mistral_assistant_calls_without_a_function_name_are_dropped() {
    let provider = MistralNeMoProvider::new(None);
    let messages = vec![
        message(
            "assistant",
            r#"{"tool_calls":[{"id":"a","function":{}},{"function":{"name":"date"}}]}"#,
        ),
        message("assistant", r#"{"tool_calls":[{"id":"a"}]}"#),
        message("assistant", "no json"),
        message("tool", "no json"),
        message("tool", r#"{"tool_name":"date"}"#),
    ];
    let converted = provider.convert_messages(&messages);
    let calls = converted[0].tool_calls.as_ref().unwrap();
    assert_eq!(calls.len(), 1);
    assert_eq!(calls[0].id, None);
    assert_eq!(calls[0].kind, "function");
    assert_eq!(calls[0].function.name, "date");
    assert_eq!(calls[0].function.arguments, parse("{}"));
    assert!(converted[1].tool_calls.is_none());
    assert!(converted[2].tool_calls.is_none());
    assert_eq!(converted[2].content, "no json");
    assert_eq!(converted[3].content, "no json");
    assert_eq!(converted[3].tool_call_id, None);
    assert_eq!(converted[4].content, "");
    assert_eq!(converted[4].name, Some("date".to_string()));
}

#[test]
fn mistral_request_says_null_for_unset_sampling() {
    let provider = MistralNeMoProvider::new(Some("k")).with_safe_prompt(true);
    let request = provider.prompt_request(Some("be brief"), "hello", "mistral-nemo", number(0.5));
    let text = serde_json::to_string(&request.to_json()).unwrap();
    assert_eq!(
        parse(&text),
        parse(
            r#"{"model":"mistral-nemo","messages":[{"role":"system","content":"be brief"},{"role":"user","content":"hello"}],"temperature":0.5,"max_tokens":null,"top_p":null,"random_seed":null,"safe_prompt":true,"parallel_tool_calls":true,"stream":false}"#
        )
    );
    assert_eq!(provider.endpoint(), "https://api.mistral.ai/v1/chat/completions");
}

#[test]
fn mistral_tools_request_leaves_out_an_empty_tool_list() {
    let provider = MistralNeMoProvider::new(None);
    let history = vec![message("user", "hi")];
    let none = provider.tools_request(&history, &vec![], "m", number(0.0));
    assert!(none.tools.is_none());
    let tools = convert_tools(&vec![shell_tool()]);
    let some = provider.tools_request(&history, &tools, "m", number(0.0));
    assert_eq!(some.tools, Some(tools));
    assert_eq!(some.messages.len(), 1);
}

#[test]
fn mistral_answer_with_tool_calls() {
    let json = r#"{"id":"x","object":"o","created":1,"model":"m","choices":[{"index":0,
        "message":{"role":"assistant","content":"",
        "tool_calls":[{"id":"call_1","type":"function","function":{"name":"shell","arguments":{"command":"date"}}},
                      {"function":{"name":"clock","arguments":null}}]},
        "finish_reason":"tool_calls"}],"usage":{"prompt_tokens":10,"completion_tokens":5}}"#;
    let resp = ApiChatResponse::parse(json.as_bytes()).unwrap();
    let answer = MistralNeMoProvider::tools_answer(&resp);
    assert_eq!(answer.text, None);
    assert_eq!(answer.tool_calls.len(), 2);
    assert_eq!(answer.tool_calls[0].id, "call_1");
    assert_eq!(answer.tool_calls[0].name, "shell");
    assert_eq!(answer.tool_calls[0].arguments, r#"{"command":"date"}"#);
    assert_eq!(answer.tool_calls[1].id.len(), 36);
    assert_eq!(answer.tool_calls[1].arguments, "null");
    let usage = answer.usage.unwrap();
    assert_eq!(usage.input_tokens, Some(10));
    assert_eq!(usage.output_tokens, Some(5));
}

#[test]
fn mistral_answer_without_tool_calls_always_has_a_text() {
    let with_text = ApiChatResponse::parse(
        br#"{"id":"x","object":"o","created":1,"model":"m","choices":[{"index":0,"message":{"role":"assistant","content":"Hi"},"finish_reason":"stop"}],"usage":{}}"#,
    )
    .unwrap();
    assert_eq!(MistralNeMoProvider::tools_answer(&with_text).text, Some("Hi".to_string()));
    assert_eq!(MistralNeMoProvider::first_content(&with_text), "Hi");
    let empty = ApiChatResponse::parse(
        br#"{"id":"x","object":"o","created":1,"model":"m","choices":[],"usage":{}}"#,
    )
    .unwrap();
    let answer = MistralNeMoProvider::tools_answer(&empty);
    assert_eq!(answer.text, Some(String::new()));
    assert!(answer.tool_calls.is_empty());
    assert_eq!(MistralNeMoProvider::first_content(&empty), "");
}

#[test]
fn mistral_response_needs_its_members() {
    assert!(ApiChatResponse::parse(b"not json").is_none());
    assert!(ApiChatResponse::parse(br#"{"choices":[]}"#).is_none());
    assert!(ApiChatResponse::parse(
        br#"{"id":"x","object":"o","created":1,"model":"m","choices":[{"index":4294967296,"message":{"role":"a","content":""},"finish_reason":"stop"}],"usage":{}}"#
    )
    .is_none());
    assert!(ApiChatResponse::parse(
        br#"{"id":"x","object":"o","created":1,"model":"m","choices":[{"index":0,"message":{"role":"a","content":null},"finish_reason":"stop"}],"usage":{}}"#
    )
    .is_none());
}

#[test]
fn request_serializes_with_system_message() {
    let req = phi4::ChatRequest {
        model: "phi-4".to_string(),
        messages: vec![
            phi4::Message {
                role: "system".to_string(),
                content: phi4::Content::Text("You are ZeroClaw".to_string()),
                tool_calls: None,
            },
            phi4::Message {
                role: "user".to_string(),
                content: phi4::Content::Text("hello".to_string()),
                tool_calls: None,
            },
        ],
        temperature: number(0.7),
        max_tokens: None,
        top_p: None,
        reasoning_effort: None,
        tools: None,
        tool_choice: None,
    };
    let json = serde_json::to_string(&req.to_json()).unwrap();
    assert!(json.contains("\"role\":\"system\""));
    assert!(json.contains("\"role\":\"user\""));
    assert!(json.contains("phi-4"));
}

#[test]
fn request_serializes_without_system() {
    let req = phi4::ChatRequest {
        model: "phi-4".to_string(),
        messages: vec![phi4::Message {
            role: "user".to_string(),
            content: phi4::Content::Text("hello".to_string()),
            tool_calls: None,
        }],
        temperature: number(0.0),
        max_tokens: None,
        top_p: None,
        reasoning_effort: None,
        tools: None,
        tool_choice: None,
    };
    let json = serde_json::to_string(&req.to_json()).unwrap();
    assert!(!json.contains("system"));
    assert!(json.contains("\"temperature\":0.0"));
}

#[test]
fn request_serializes_with_reasoning_effort() {
    let req = phi4::ChatRequest {
        model: "phi-4".to_string(),
        messages: vec![phi4::Message {
            role: "user".to_string(),
            content: phi4::Content::Text("hello".to_string()),
            tool_calls: None,
        }],
        temperature: number(0.7),
        max_tokens: None,
        top_p: None,
        reasoning_effort: Some("high".to_string()),
        tools: None,
        tool_choice: None,
    };
    let json = serde_json::to_string(&req.to_json()).unwrap();
    assert!(json.contains("\"reasoning_effort\":\"high\""));
}

#[test]
fn phi4_response_deserializes_single_choice() {
    let json = r#"{"choices":[{"message":{"content":"Hi!"}}]}"#;
    let resp = CompletionResponse::parse(json).unwrap();
    assert_eq!(resp.choices.len(), 1);
    assert_eq!(resp.choices[0].message.effective_content(), "Hi!");
}

#[test]
fn response_deserializes_empty_choices() {
    let json = r#"{"choices":[]}"#;
    let resp = CompletionResponse::parse(json).unwrap();
    assert!(resp.choices.is_empty());
}

#[test]
fn response_deserializes_with_usage() {
    let json = r#"{"choices":[{"message":{"content":"Hello"}}],"usage":{"prompt_tokens":100,"completion_tokens":50}}"#;
    let resp = CompletionResponse::parse(json).unwrap();
    let usage = resp.usage.unwrap();
    assert_eq!(usage.prompt_tokens, Some(100));
    assert_eq!(usage.completion_tokens, Some(50));
}

#[test]
fn reasoning_content_fallback_empty_content() {
    let json = r#"{"choices":[{"message":{"content":"","reasoning_content":"Thinking..."}}]}"#;
    let resp = CompletionResponse::parse(json).unwrap();
    assert_eq!(resp.choices[0].message.effective_content(), "Thinking...");
}

#[test]
fn reasoning_content_fallback_null_content() {
    let json = r#"{"choices":[{"message":{"content":null,"reasoning_content":"Thinking..."}}]}"#;
    let resp = CompletionResponse::parse(json).unwrap();
    assert_eq!(resp.choices[0].message.effective_content(), "Thinking...");
}

#[test]
fn reasoning_content_not_used_when_content_present() {
    let json = r#"{"choices":[{"message":{"content":"Hello","reasoning_content":"Ignored"}}]}"#;
    let resp = CompletionResponse::parse(json).unwrap();
    assert_eq!(resp.choices[0].message.effective_content(), "Hello");
}

#[test]
fn parse_response_captures_tool_calls() {
    let json = r#"{"choices":[{"message":{
        "content":"answer",
        "tool_calls":[{"id":"call_1","type":"function","function":{"name":"shell","arguments":"{}"}}]
    }}]}"#;
    let resp = CompletionResponse::parse(json).unwrap();
    let message = resp.choices.into_iter().next().unwrap().message;
    let parsed = Phi4Provider::parse_response(message);
    assert_eq!(parsed.tool_calls.len(), 1);
    assert_eq!(parsed.tool_calls[0].name, "shell");
}

#[test]
fn phi4_chat_fails_without_key() {
    let p = Phi4Provider::new(None);
    let result = p.prompt_request(None, "hello", "phi-4", number(0.7));
    assert!(result.is_err());
    assert!(result.unwrap_err().message().contains("API key not set"));
}

#[test]
fn phi4_requests_and_faults() {
    let p = Phi4Provider::new(Some("secret"));
    assert_eq!(p.authorization().unwrap(), "Bearer secret");
    assert_eq!(p.endpoint(), "https://models.inference.ai.azure.com/chat/completions");
    assert_eq!(p.models_endpoint(), "https://models.inference.ai.azure.com/models");
    let history = vec![message("user", "hi")];
    let plain = p.chat_request(&history, None, "phi-4", number(0.1)).unwrap();
    assert!(plain.tools.is_none());
    assert_eq!(plain.tool_choice, None);
    let tools = vec![shell_tool()];
    let with_tools = p.chat_request(&history, Some(&tools), "phi-4", number(0.1)).unwrap();
    assert_eq!(with_tools.tool_choice, Some("auto".to_string()));
    let native = with_tools.tools.unwrap();
    assert_eq!(native.len(), 1);
    assert_eq!(native[0].kind, "function");
    assert_eq!(native[0].function.name, "shell");

    let documents = convert_tools(&tools);
    let ok = p.tools_request(&history, &documents, "phi-4", number(0.1)).unwrap();
    assert_eq!(ok.tools.unwrap()[0].function.description, "Run a shell command");
    let none = p.tools_request(&history, &vec![], "phi-4", number(0.1)).unwrap();
    assert!(none.tools.is_none() && none.tool_choice.is_none());

    let wrong_kind = vec![
        documents[0].clone(),
        parse(r#"{"type":"retrieval","function":{"name":"n","description":"d","parameters":{}}}"#),
        parse("3"),
    ];
    match p.tools_request(&history, &wrong_kind, "phi-4", number(0.1)) {
        Err(Phi4Fault::UnsupportedToolKind(kind)) => assert_eq!(kind, "retrieval"),
        other => panic!("unexpected: {:?}", other.map(|_| ())),
    }
    let fault = Phi4Fault::UnsupportedToolKind("retrieval".to_string());
    assert_eq!(
        fault.message(),
        "Invalid Phi-4 tool specification: unsupported tool type 'retrieval', expected 'function'"
    );
    let malformed = vec![parse(r#"{"type":"function"}"#)];
    assert!(matches!(
        p.tools_request(&history, &malformed, "phi-4", number(0.1)),
        Err(Phi4Fault::InvalidToolSpec)
    ));
    assert!(matches!(
        Phi4Provider::new(None).tools_request(&history, &malformed, "phi-4", number(0.1)),
        Err(Phi4Fault::MissingCredential)
    ));
    assert_eq!(Phi4Fault::NoResponse.message(), "No response from Phi-4");
}

#[test]
fn phi4_messages_carry_recorded_tool_calls() {
    let history = vec![
        message(
            "assistant",
            r#"{"content":"","reasoning_content":"thinking","tool_calls":[{"id":"c1","name":"shell","arguments":"{}"}]}"#,
        ),
        message("assistant", r#"{"content":"done","tool_calls":[]}"#),
        message("assistant", r#"{"tool_calls":[{"id":"c1"}]}"#),
        message("tool", r#"{"tool_call_id":"c1","content":"out"}"#),
        message("tool", "plain"),
        message("user", r#"{"content":"kept"}"#),
    ];
    let converted = Phi4Provider::convert_messages(&history);
    assert_eq!(converted.len(), 6);
    let calls = converted[0].tool_calls.as_ref().unwrap();
    assert_eq!(calls.len(), 1);
    assert_eq!(calls[0].id, Some("c1".to_string()));
    assert_eq!(calls[0].kind, Some("function".to_string()));
    assert_eq!(calls[0].function.name, "shell");
    assert!(matches!(&converted[0].content, phi4::Content::Text(t) if t == "thinking"));
    assert!(converted[1].tool_calls.is_none());
    assert!(matches!(&converted[1].content, phi4::Content::Text(t) if t == "done"));
    assert!(
        matches!(&converted[2].content, phi4::Content::Text(t) if t == r#"{"tool_calls":[{"id":"c1"}]}"#)
    );
    assert!(matches!(&converted[3].content, phi4::Content::Text(t) if t == "out"));
    assert!(matches!(&converted[4].content, phi4::Content::Text(t) if t == "plain"));
    assert!(matches!(&converted[5].content, phi4::Content::Text(t) if t == r#"{"content":"kept"}"#));
    let text = serde_json::to_string(&converted[0].to_json()).unwrap();
    assert_eq!(
        parse(&text),
        parse(
            r#"{"role":"assistant","content":"thinking","tool_calls":[{"id":"c1","type":"function","function":{"name":"shell","arguments":"{}"}}]}"#
        )
    );
}

#[test]
fn phi4_answers() {
    let empty = CompletionResponse::parse(r#"{"choices":[]}"#).unwrap();
    assert!(matches!(Phi4Provider::prompt_answer(&empty), Err(Phi4Fault::NoResponse)));
    assert!(matches!(Phi4Provider::chat_answer(empty), Err(Phi4Fault::NoResponse)));
    let resp = CompletionResponse::parse(
        r#"{"choices":[{"message":{"content":"","reasoning_content":"why","tool_calls":[{"function":{"name":"f","arguments":"{}"}}]}}],"usage":{"prompt_tokens":3}}"#,
    )
    .unwrap();
    assert_eq!(Phi4Provider::prompt_answer(&resp).unwrap(), "why");
    let answer = Phi4Provider::chat_answer(resp).unwrap();
    assert_eq!(answer.text, Some("why".to_string()));
    assert_eq!(answer.reasoning_content, Some("why".to_string()));
    assert_eq!(answer.tool_calls[0].name, "f");
    assert_eq!(answer.tool_calls[0].id.len(), 36);
    let usage = answer.usage.unwrap();
    assert_eq!(usage.input_tokens, Some(3));
    assert_eq!(usage.output_tokens, None);
    let silent = CompletionResponse::parse(r#"{"choices":[{"message":{}}]}"#).unwrap();
    let answer = Phi4Provider::chat_answer(silent).unwrap();
    assert_eq!(answer.text, None);
    assert!(answer.usage.is_none());
}

#[test]
fn completion_response_rejects_what_is_no_answer() {
    assert!(CompletionResponse::parse("{}").is_none());
    assert!(CompletionResponse::parse(r#"{"choices":[{"message":{"content":3}}]}"#).is_none());
    assert!(CompletionResponse::parse(r#"{"choices":[{"message":{"tool_calls":[{}]}}]}"#).is_none());
    assert!(CompletionResponse::parse(r#"{"choices":[],"usage":{"prompt_tokens":-1}}"#).is_none());
    assert!(CompletionResponse::parse(r#"{"choices":[],"usage":null}"#).unwrap().usage.is_none());
    assert!(ResponseMessage::from_json(&parse("\"text\"")).is_none());
    assert!(ToolCall::from_json(&parse(r#"{"id":"a","name":"b"}"#)).is_none());
    assert!(NativeToolSpec::from_json(&parse(r#"{"type":"function","function":{"name":"n","description":"d"}}"#)).is_none());
}

#[test]
fn content_serializes_text_only() {
    let content = qwen25::Content::Text("Hello".to_string());
    let json = serde_json::to_string(&content.to_json()).unwrap();
    assert!(json.contains("Hello"));
}

#[test]
fn content_serializes_with_image() {
    let content = qwen25::Content::MultiContent(vec![
        qwen25::ContentPart {
            kind: "text".to_string(),
            text: Some("Describe this".to_string()),
            image: None,
        },
        qwen25::ContentPart {
            kind: "image_url".to_string(),
            text: None,
            image: Some("https://example.com/image.jpg".to_string()),
        },
    ]);
    let json = serde_json::to_string(&content.to_json()).unwrap();
    assert!(json.contains("text"));
    assert!(json.contains("image_url"));
    assert!(json.contains("https://example.com/image.jpg"));
    assert_eq!(
        parse(&json),
        parse(
            r#"[{"type":"text","text":"Describe this"},{"type":"image_url","image":"https://example.com/image.jpg"}]"#
        )
    );
}

#[test]
fn message_serializes_user() {
    let msg = qwen25::Message {
        role: "user".to_string(),
        content: qwen25::Content::Text("Hello".to_string()),
    };
    let json = serde_json::to_string(&msg.to_json()).unwrap();
    assert!(json.contains("\"role\":\"user\""));
    assert!(json.contains("Hello"));
}

#[test]
fn request_serializes_with_temperature() {
    let req = qwen25::ChatRequest {
        model: "qwen2.5".to_string(),
        messages: vec![qwen25::Message {
            role: "user".to_string(),
            content: qwen25::Content::Text("hello".to_string()),
        }],
        temperature: number(0.7),
        max_tokens: Some(1000),
        top_p: Some(number(0.9)),
        tools: None,
        tool_choice: None,
    };
    let json = serde_json::to_string(&req.to_json()).unwrap();
    assert!(json.contains("\"temperature\":0.7"));
    assert!(json.contains("\"max_tokens\":1000"));
    assert!(json.contains("\"top_p\":0.9"));
}

#[test]
fn qwen25_response_deserializes_single_choice() {
    let json = r#"{"choices":[{"message":{"content":"Hi!"}}]}"#;
    let resp = CompletionResponse::parse(json).unwrap();
    assert_eq!(resp.choices.len(), 1);
    assert_eq!(resp.choices[0].message.content, Some("Hi!".to_string()));
}

#[test]
fn response_deserializes_tool_calls() {
    let json = r#"{"choices":[{"message":{"content":"Let me check","tool_calls":[{"id":"call_123","type":"function","function":{"name":"shell","arguments":"{\"command\":\"ls\"}"}}]}}]}"#;
    let resp = CompletionResponse::parse(json).unwrap();
    let msg = &resp.choices[0].message;
    assert_eq!(msg.content.as_deref(), Some("Let me check"));
    assert!(msg.tool_calls.as_ref().is_some_and(|tc| !tc.is_empty()));
    let tc = &msg.tool_calls.as_ref().unwrap()[0];
    assert_eq!(tc.function.name, "shell");
}

#[test]
fn convert_tools_creates_openai_format() {
    let p = Qwen25Provider::new(Some("test"));
    let tools = vec![shell_tool()];
    let payload = p.convert_tools(&tools);
    match payload {
        ToolsPayload::OpenAI { tools: native } => {
            assert_eq!(native.len(), 1);
            assert!(native[0].get("function").is_some());
            assert_eq!(
                native[0],
                parse(
                    r#"{"type":"function","function":{"name":"shell","description":"Run a shell command","parameters":{"type":"object","properties":{"command":{"type":"string"}},"required":["command"]}}}"#
                )
            );
        }
    }
}

#[test]
fn qwen25_chat_fails_without_key() {
    let p = Qwen25Provider::new(None);
    let result = p.prompt_request(None, "hello", "qwen2.5", number(0.7));
    assert!(result.is_err());
    assert!(result.unwrap_err().message().contains("API key not set"));
}

#[test]
fn qwen_messages_lay_out_images_and_records() {
    let p = Qwen25Provider::new(Some("k"));
    let history = vec![
        message("user", r#"{"text":"What is this?","images":["https://example.com/1.jpg", 7]}"#),
        message("user", "plain"),
        message("assistant", r#"{"content":"said","tool_calls":[{"id":"c","name":"n","arguments":"{}"}]}"#),
        message("tool", r#"{"content":"out"}"#),
        message("system", "rules"),
    ];
    let converted = p.convert_messages(&history);
    assert_eq!(converted.len(), 5);
    match &converted[0].content {
        qwen25::Content::MultiContent(parts) => {
            assert_eq!(parts.len(), 2);
            assert_eq!(parts[0].kind, "text");
            assert_eq!(parts[0].text, Some("What is this?".to_string()));
            assert_eq!(parts[1].kind, "image_url");
            assert_eq!(parts[1].image, Some("https://example.com/1.jpg".to_string()));
        }
        other => panic!("unexpected: {:?}", other),
    }
    assert!(matches!(&converted[1].content, qwen25::Content::Text(t) if t == "plain"));
    assert!(matches!(&converted[2].content, qwen25::Content::Text(t) if t == "said"));
    assert_eq!(converted[2].role, "assistant");
    assert!(matches!(&converted[3].content, qwen25::Content::Text(t) if t == "out"));
    assert!(matches!(&converted[4].content, qwen25::Content::Text(t) if t == "rules"));
}

#[test]
fn qwen_passes_over_documents_that_offer_no_function() {
    let p = Qwen25Provider::new(Some("k"));
    let history = vec![message("user", "hi")];
    let documents = vec![
        parse(r#"{"type":"retrieval","function":{"name":"r"}}"#),
        parse(r#"{"type":"function","function":{"name":"bare"}}"#),
        parse(r#"{"type":"function"}"#),
        parse(r#"{"type":"function","function":{"name":"full","description":"d","parameters":{"a":1}}}"#),
    ];
    let request = p.tools_request(&history, &documents, "qwen2.5", number(0.2)).unwrap();
    let tools = request.tools.unwrap();
    assert_eq!(tools.len(), 2);
    assert_eq!(tools[0].function.name, "bare");
    assert_eq!(tools[0].function.description, "");
    assert_eq!(tools[0].function.parameters, parse("{}"));
    assert_eq!(tools[1].function.name, "full");
    assert_eq!(tools[1].function.parameters, parse(r#"{"a":1}"#));
    assert_eq!(request.tool_choice, Some("auto".to_string()));
    let none = p.tools_request(&history, &vec![], "qwen2.5", number(0.2)).unwrap();
    assert!(none.tools.is_none());
    let serialized = p.serialize_tools(Some(&vec![shell_tool()])).unwrap();
    assert_eq!(serialized[0].function.name, "shell");
    assert!(p.serialize_tools(None).is_none());
}

#[test]
fn qwen_answers() {
    let p = Qwen25Provider::new(Some("k"));
    let empty = CompletionResponse::parse(r#"{"choices":[]}"#).unwrap();
    assert_eq!(Qwen25Provider::prompt_answer(&empty), Err(QwenFault::NoResponse));
    assert_eq!(QwenFault::NoResponse.message(), "No response from Qwen");
    let resp = CompletionResponse::parse(
        r#"{"choices":[{"message":{"content":"","reasoning_content":"why"}}],"usage":{"completion_tokens":9}}"#,
    )
    .unwrap();
    assert_eq!(Qwen25Provider::prompt_answer(&resp).unwrap(), "");
    let answer = p.chat_answer(resp).unwrap();
    assert_eq!(answer.text, None);
    assert_eq!(answer.reasoning_content, Some("why".to_string()));
    assert_eq!(answer.usage.unwrap().output_tokens, Some(9));
    let reasoned = CompletionResponse::parse(
        r#"{"choices":[{"message":{"reasoning_content":"why"}}]}"#,
    )
    .unwrap();
    assert_eq!(Qwen25Provider::prompt_answer(&reasoned).unwrap(), "why");
    assert_eq!(p.chat_answer(reasoned).unwrap().text, Some("why".to_string()));
}
