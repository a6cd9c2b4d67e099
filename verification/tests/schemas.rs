use zeroclaw::gateway::channel_schemas::all_channel_schemas;
use zeroclaw::gateway::provider_schemas::all_provider_schemas;
use zeroclaw::gateway::schemas::{
    find_channel_schema, find_provider_schema, take_provider_schema,
};

#[test]
fn provider_schemas_in_their_order() {
    let schemas = all_provider_schemas();
    let kinds: Vec<&str> = schemas.iter().map(|s| s.provider_type.as_str()).collect();
    assert_eq!(
        kinds,
        vec!["openai", "anthropic", "google", "ollama", "openrouter", "groq", "mistral", "deepseek", "xai", "together-ai", "fireworks", "perplexity", "cohere", "qwen", "glm", "moonshot", "minimax", "bedrock", "telnyx", "copilot", "nvidia", "phi4", "lmstudio", "llamacpp", "sglang", "vllm", "vercel", "cloudflare", "venice"]
    );
    let fields: Vec<usize> = schemas.iter().map(|s| s.fields.len()).collect();
    assert_eq!(fields, vec![3, 3, 3, 3, 3, 3, 3, 3, 3, 3, 3, 3, 3, 3, 3, 3, 3, 3, 3, 3, 3, 3, 3, 3, 3, 3, 3, 3, 3]);
}

#[test]
fn channel_schemas_in_their_order() {
    let schemas = all_channel_schemas();
    let kinds: Vec<&str> = schemas.iter().map(|s| s.channel_type.as_str()).collect();
    assert_eq!(kinds, vec!["cli", "telegram", "discord", "slack", "webhook", "matrix", "irc"]);
    let fields: Vec<usize> = schemas.iter().map(|s| s.fields.len()).collect();
    assert_eq!(fields, vec![0, 2, 1, 1, 1, 3, 2]);
}

#[test]
fn schemas_say_what_each_setting_is() {
    let openai = &all_provider_schemas()[0];
    assert_eq!(openai.name, "OpenAI");
    assert_eq!(openai.description, "OpenAI API for GPT models");
    let key = &openai.fields[0];
    assert_eq!(key.name, "api_key");
    assert_eq!(key.field_type, "string");
    assert!(key.required);
    assert_eq!(key.hint, "Your OpenAI API key from platform.openai.com");
    assert_eq!(key.example.as_deref(), Some("sk-..."));
    let telegram = &all_channel_schemas()[1];
    assert_eq!(telegram.name, "Telegram");
    assert_eq!(telegram.description, "Connect your Telegram bot");
    let users = &telegram.fields[1];
    assert_eq!(users.name, "allowed_users");
    assert_eq!(users.field_type, "array");
    assert!(!users.required);
    assert_eq!(users.hint, "User IDs that can interact with the bot");
    assert_eq!(users.example.as_deref(), Some("[\"123456789\"]"));
    let cli = &all_channel_schemas()[0];
    assert!(cli.fields.is_empty());
}

#[test]
fn schema_is_found_whatever_the_case_of_its_kind() {
    assert_eq!(find_provider_schema("OpenAI").ok().unwrap().provider_type, "openai");
    assert_eq!(find_provider_schema("together-ai").ok().unwrap().name, "Together AI");
    assert_eq!(find_provider_schema("Nope").err().unwrap(), "Unknown provider type: Nope");
    assert_eq!(find_channel_schema("TELEGRAM").ok().unwrap().channel_type, "telegram");
    assert_eq!(find_channel_schema("Pager").err().unwrap(), "Unknown channel type: Pager");
    assert!(take_provider_schema(all_provider_schemas(), "OpenAI").is_none());
    assert_eq!(take_provider_schema(all_provider_schemas(), "venice").unwrap().provider_type, "venice");
}
