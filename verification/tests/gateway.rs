use zeroclaw::gateway::api::{
    default_profile, extract_bearer_token, mask_sensitive_fields, new_channel, new_provider,
    target_profile, toggle, toggle_fault_answer, toggled_channel, updated_channel,
    updated_provider, ChannelChange, ChannelCreate, ProviderCreate, ToggleFault, ToggledChannel,
};

#[test]
fn bearer_token_is_what_follows_the_scheme() {
    assert_eq!(extract_bearer_token(Some("Bearer abc")), Some("abc"));
    assert_eq!(extract_bearer_token(Some("Bearer ")), Some(""));
    assert_eq!(extract_bearer_token(Some("bearer abc")), None);
    assert_eq!(extract_bearer_token(Some("Basic abc")), None);
    assert_eq!(extract_bearer_token(None), None);
}

#[test]
fn secrets_are_masked_line_by_line() {
    let text = "name = \"bot\"\napi_key = \"sk-123\"\n  bot_token=\"t\"\r\n[section]\nsecret\nsigning_secret = 1 = 2";
    assert_eq!(
        mask_sensitive_fields(text),
        "name = \"bot\"\napi_key = \"***MASKED***\"\n  bot_token= \"***MASKED***\"\n[section]\nsecret\nsigning_secret = \"***MASKED***\"\n"
    );
}

#[test]
fn masking_keeps_other_lines_and_ends_each_with_a_line_feed() {
    assert_eq!(mask_sensitive_fields(""), "");
    assert_eq!(mask_sensitive_fields("\n"), "\n");
    assert_eq!(mask_sensitive_fields("a\n\nb"), "a\n\nb\n");
    assert_eq!(mask_sensitive_fields("a\r"), "a\r\n");
    assert_eq!(mask_sensitive_fields("x_api_key = 1\n"), "x_api_key = 1\n");
    assert_eq!(mask_sensitive_fields("access_token_ttl = 5"), "access_token_ttl = \"***MASKED***\"\n");
    assert_eq!(mask_sensitive_fields("app_secret=\u{e9}"), "app_secret= \"***MASKED***\"\n");
    assert_eq!(mask_sensitive_fields("\u{e9}t\u{e9} = api_key"), "\u{e9}t\u{e9} = api_key\n");
}

#[test]
fn channels_are_switched_only_where_they_are_set_up() {
    let telegram = toggled_channel("Telegram").unwrap();
    assert_eq!(telegram, ToggledChannel::Telegram);
    assert_eq!(toggle(telegram, true, true), Ok(ChannelChange::Keep));
    assert_eq!(toggle(telegram, false, true), Ok(ChannelChange::Remove));
    assert_eq!(toggle(telegram, false, false), Ok(ChannelChange::Remove));
    assert_eq!(toggle(telegram, true, false), Err(ToggleFault::NotConfigured(telegram)));
    assert_eq!(
        toggle_fault_answer(ToggleFault::NotConfigured(telegram), "Telegram"),
        (400, "Telegram not configured. Add bot_token in config first.".to_string())
    );
    let email = toggled_channel("email").unwrap();
    assert_eq!(
        toggle_fault_answer(toggle(email, true, false).unwrap_err(), "email").1,
        "Email not configured. Add SMTP credentials in config first."
    );
    let cli = toggled_channel("CLI").unwrap();
    assert_eq!(toggle(cli, true, false), Ok(ChannelChange::SetCli(true)));
    assert_eq!(toggle(cli, false, true), Ok(ChannelChange::SetCli(false)));
    assert_eq!(toggled_channel("Pager"), Err(ToggleFault::Unknown));
    assert_eq!(
        toggle_fault_answer(ToggleFault::Unknown, "Pager"),
        (404, "Unknown channel: Pager".to_string())
    );
    for name in ["discord", "slack", "whatsapp", "signal", "matrix", "imessage", "webhook"] {
        let channel = toggled_channel(name).unwrap();
        assert!(channel.not_configured_message().contains("not configured"));
        assert_eq!(ToggledChannel::from_name(name), Some(channel));
    }
}

fn provider_payload(is_enabled: Option<bool>, is_default: Option<bool>) -> ProviderCreate {
    ProviderCreate {
        profile_id: "p1".to_string(),
        name: "openai".to_string(),
        api_key: Some("sk".to_string()),
        api_url: None,
        default_model: Some("gpt-4o".to_string()),
        is_enabled,
        is_default,
    }
}

#[test]
fn records_are_made_of_what_a_request_says() {
    assert_eq!(target_profile("p1", true, Some("active")), "p1");
    assert_eq!(target_profile("p1", false, Some("active")), "active");
    assert_eq!(target_profile("p1", false, None), "default");
    let profile = default_profile("2024-05-01T12:00:00Z");
    assert_eq!(profile.id, "default");
    assert_eq!(profile.name, "Default");
    assert_eq!(profile.description.as_deref(), Some("Default profile"));
    assert!(profile.is_active);

    let created =
        new_provider(provider_payload(None, None), "id-1".to_string(), "p1".to_string(), "t0");
    assert_eq!(created.id, "id-1");
    assert!(created.is_enabled);
    assert!(!created.is_default);
    assert_eq!(created.priority, 0);
    assert_eq!(created.metadata, None);
    assert_eq!((created.created_at.as_str(), created.updated_at.as_str()), ("t0", "t0"));
    let mut existing = created;
    existing.priority = 7;
    existing.is_enabled = false;
    let updated = updated_provider(existing, provider_payload(None, Some(true)), "t1");
    assert_eq!(updated.id, "id-1");
    assert!(!updated.is_enabled);
    assert!(updated.is_default);
    assert_eq!(updated.priority, 7);
    assert_eq!((updated.created_at.as_str(), updated.updated_at.as_str()), ("t0", "t1"));

    let payload = ChannelCreate {
        profile_id: "ignored".to_string(),
        channel_type: "telegram".to_string(),
        config: "{}".to_string(),
        is_enabled: Some(false),
    };
    let channel = new_channel(payload, "c-1".to_string(), "p1".to_string(), "t0");
    assert!(!channel.is_enabled);
    assert_eq!(channel.profile_id, "p1");
    let payload = ChannelCreate {
        profile_id: "other".to_string(),
        channel_type: "discord".to_string(),
        config: "{\"a\":1}".to_string(),
        is_enabled: None,
    };
    let changed = updated_channel(channel, payload, "t2");
    assert_eq!(changed.id, "c-1");
    assert_eq!(changed.profile_id, "p1");
    assert_eq!(changed.channel_type, "discord");
    assert!(!changed.is_enabled);
    assert_eq!((changed.created_at.as_str(), changed.updated_at.as_str()), ("t0", "t2"));
}
