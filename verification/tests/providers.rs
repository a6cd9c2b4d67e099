use zeroclaw::providers::mistral_nemo::{MistralNeMoProvider, MISTRAL_BASE_URL};
use zeroclaw::providers::phi4::Phi4Provider;
use zeroclaw::providers::qwen25::{extract_image_urls, Content, Qwen25Provider};

#[test]
fn default_url() {
    let p = MistralNeMoProvider::new(None);
    assert_eq!(p.base_url, MISTRAL_BASE_URL);
}

#[test]
fn custom_url() {
    let p = MistralNeMoProvider::new(None).with_base_url(Some("https://custom.mistral.ai/v1"));
    assert_eq!(p.base_url, "https://custom.mistral.ai/v1");
}

#[test]
fn custom_url_trims_slash() {
    let p = MistralNeMoProvider::new(None).with_base_url(Some("https://custom.mistral.ai/v1/"));
    assert_eq!(p.base_url, "https://custom.mistral.ai/v1");
}

#[test]
fn api_key_handling() {
    let p = MistralNeMoProvider::new(Some("test-key"));
    assert_eq!(p.api_key, Some("test-key".to_string()));
}

#[test]
fn api_key_trims_whitespace() {
    let p = MistralNeMoProvider::new(Some("  test-key  "));
    assert_eq!(p.api_key, Some("test-key".to_string()));
}

#[test]
fn api_key_empty_becomes_none() {
    let p = MistralNeMoProvider::new(Some(""));
    assert!(p.api_key.is_none());
}

#[test]
fn safe_prompt_default_false() {
    let p = MistralNeMoProvider::new(None);
    assert!(!p.safe_prompt);
}

#[test]
fn safe_prompt_can_be_enabled() {
    let p = MistralNeMoProvider::new(None).with_safe_prompt(true);
    assert!(p.safe_prompt);
}

#[test]
fn capabilities_has_native_tool_calling() {
    let provider = MistralNeMoProvider::new(None);
    let caps = provider.capabilities();
    assert!(caps.native_tool_calling);
    assert!(!caps.vision);
}

#[test]
fn blank_custom_url_keeps_the_default() {
    let p = MistralNeMoProvider::new(None).with_base_url(Some("  ///"));
    assert_eq!(p.base_url, MISTRAL_BASE_URL);
    let p = MistralNeMoProvider::new(None).with_base_url(None);
    assert_eq!(p.base_url, MISTRAL_BASE_URL);
}

#[test]
fn phi4_creates_with_key() {
    let p = Phi4Provider::new(Some("phi4-test-credential"));
    assert_eq!(p.credential.as_deref(), Some("phi4-test-credential"));
}

#[test]
fn phi4_creates_without_key() {
    let p = Phi4Provider::new(None);
    assert!(p.credential.is_none());
}

#[test]
fn phi4_creates_with_empty_key() {
    let p = Phi4Provider::new(Some(""));
    assert_eq!(p.credential.as_deref(), Some(""));
}

#[test]
fn creates_with_custom_base_url() {
    let p = Phi4Provider::with_base_url(Some("https://custom.endpoint.com"), Some("key"));
    assert_eq!(p.base_url, "https://custom.endpoint.com");
    assert_eq!(p.credential.as_deref(), Some("key"));
}

#[test]
fn capabilities_declares_vision() {
    let provider = Phi4Provider::new(Some("key"));
    let caps = provider.capabilities();
    assert!(caps.vision);
    assert!(caps.native_tool_calling);
}

#[test]
fn phi4_base_url_drops_every_trailing_slash() {
    let p = Phi4Provider::with_base_url(Some("https://custom.endpoint.com//"), None);
    assert_eq!(p.base_url, "https://custom.endpoint.com");
    let p = Phi4Provider::new(None);
    assert_eq!(p.base_url, "https://models.inference.ai.azure.com");
}

#[test]
fn qwen25_creates_with_key() {
    let p = Qwen25Provider::new(Some("qwen-test-credential"));
    assert_eq!(p.credential.as_deref(), Some("qwen-test-credential"));
}

#[test]
fn qwen25_creates_without_key() {
    let p = Qwen25Provider::new(None);
    assert!(p.credential.is_none());
}

#[test]
fn qwen25_creates_with_empty_key() {
    let p = Qwen25Provider::new(Some(""));
    assert_eq!(p.credential.as_deref(), Some(""));
}

#[test]
fn provider_supports_native_tools() {
    let p = Qwen25Provider::new(Some("test"));
    assert!(p.supports_native_tools());
}

#[test]
fn provider_supports_vision() {
    let p = Qwen25Provider::new(Some("test"));
    assert!(p.supports_vision());
}

#[test]
fn extract_image_urls_parses_json() {
    let content = r#"{"text":"What is this?","images":["https://example.com/1.jpg","https://example.com/2.jpg"]}"#;
    let (text, urls) = extract_image_urls(content);
    assert_eq!(text, "What is this?");
    assert_eq!(urls.len(), 2);
    assert!(urls.contains(&"https://example.com/1.jpg".to_string()));
}

#[test]
fn extract_image_urls_returns_plain_text() {
    let content = "Just plain text without images";
    let (text, urls) = extract_image_urls(content);
    assert_eq!(text, "Just plain text without images");
    assert!(urls.is_empty());
}

#[test]
fn extract_image_urls_skips_what_is_no_text() {
    let (text, urls) = extract_image_urls(r#"{"images":["a",1,null,"b"]}"#);
    assert_eq!(text, "");
    assert_eq!(urls, vec!["a".to_string(), "b".to_string()]);
    let (text, urls) = extract_image_urls(r#"{"text":"t","images":"none"}"#);
    assert_eq!(text, r#"{"text":"t","images":"none"}"#);
    assert!(urls.is_empty());
}

#[test]
fn build_content_lays_out_text_then_images() {
    let p = Qwen25Provider::new(None);
    match p.build_content("hello", &vec![]) {
        Content::Text(t) => assert_eq!(t, "hello"),
        Content::MultiContent(_) => panic!("plain text expected"),
    }
    match p.build_content("hello", &vec!["u1".to_string(), "u2".to_string()]) {
        Content::MultiContent(parts) => {
            assert_eq!(parts.len(), 3);
            assert_eq!(parts[0].kind, "text");
            assert_eq!(parts[0].text.as_deref(), Some("hello"));
            assert_eq!(parts[1].kind, "image_url");
            assert_eq!(parts[1].image.as_deref(), Some("u1"));
            assert_eq!(parts[2].image.as_deref(), Some("u2"));
        }
        Content::Text(_) => panic!("parts expected"),
    }
}
