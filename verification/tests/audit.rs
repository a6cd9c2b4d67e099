use zeroclaw::security::audit::{
    files_beyond_retention, needs_rotation, syslog_priority, AuditEvent, AuditEventType,
    AuditRetentionPolicy, HashChainEntry, HashChainState,
};

fn event() -> AuditEvent {
    AuditEvent::at(
        AuditEventType::CommandExecution,
        "3f0e8b1c-0000-4000-8000-000000000001".to_string(),
        "2024-05-01T12:00:00Z".to_string(),
    )
}

#[test]
fn audit_event_new_creates_unique_id() {
    let event1 = AuditEvent::new(AuditEventType::CommandExecution);
    let event2 = AuditEvent::new(AuditEventType::CommandExecution);
    assert_ne!(event1.event_id, event2.event_id);
    assert_eq!(event1.event_id.len(), 36);
    assert!(event1.timestamp.contains('T'));
}

#[test]
fn audit_event_with_actor() {
    let event = AuditEvent::new(AuditEventType::CommandExecution).with_actor(
        "telegram".to_string(),
        Some("123".to_string()),
        Some("@alice".to_string()),
    );

    assert!(event.actor.is_some());
    let actor = event.actor.as_ref().unwrap();
    assert_eq!(actor.channel, "telegram");
    assert_eq!(actor.user_id, Some("123".to_string()));
    assert_eq!(actor.username, Some("@alice".to_string()));
}

#[test]
fn audit_event_with_action() {
    let event = AuditEvent::new(AuditEventType::CommandExecution).with_action(
        "ls -la".to_string(),
        "low".to_string(),
        false,
        true,
    );

    assert!(event.action.is_some());
    let action = event.action.as_ref().unwrap();
    assert_eq!(action.command, Some("ls -la".to_string()));
    assert_eq!(action.risk_level, Some("low".to_string()));
}

#[test]
fn new_event_keeps_what_it_is_given() {
    let e = event();
    assert_eq!(e.event_id, "3f0e8b1c-0000-4000-8000-000000000001");
    assert_eq!(e.timestamp, "2024-05-01T12:00:00Z");
    assert!(e.actor.is_none() && e.action.is_none() && e.result.is_none());
    assert!(e.hash_chain.is_none());
    let e = e.with_result(false, Some(2), 15, Some("boom".to_string()));
    let result = e.result.as_ref().unwrap();
    assert!(!result.success);
    assert_eq!(result.exit_code, Some(2));
    assert_eq!(result.duration_ms, Some(15));
    assert_eq!(result.error, Some("boom".to_string()));
    assert_eq!(e.event_id, "3f0e8b1c-0000-4000-8000-000000000001");
}

#[test]
fn chained_hash_is_the_hmac_of_event_previous_hash_and_index() {
    let hash = HashChainEntry::compute_hash("{\"a\":1}", "genesis", 0, b"secret").unwrap();
    assert_eq!(hash, "550ec50ba4bb0d31ffb73b4c334ccc7abf90043cb8d113ffcff99867c55118a6");
    let hash = HashChainEntry::compute_hash("x", "genesis", 258, b"").unwrap();
    assert_eq!(hash, "b2377fa9be7380098b532efece5c61fd8312ab912bc0a0d3839c595fa89a01de");
}

#[test]
fn chain_moves_on_event_by_event() {
    let mut state = HashChainState::new(b"secret".to_vec());
    assert_eq!(state.get_last_hash(), "genesis");
    assert_eq!(state.get_event_index(), 0);
    let first = state.chain("{\"a\":1}").unwrap();
    assert_eq!(first.previous_hash, "genesis");
    assert_eq!(first.event_index, 0);
    assert_eq!(
        first.current_hash,
        "550ec50ba4bb0d31ffb73b4c334ccc7abf90043cb8d113ffcff99867c55118a6"
    );
    let second = state.chain("{\"b\":2}").unwrap();
    assert_eq!(second.previous_hash, first.current_hash);
    assert_eq!(second.event_index, 1);
    assert_eq!(
        second.current_hash,
        "89df953c7cc32d8c91889213a390a1b635b90b9716be6ca071bdfb7fa0f48e2c"
    );
    assert_eq!(state.get_last_hash(), second.current_hash);
    assert_eq!(state.get_event_index(), 2);
    assert_eq!(state.secret_key(), b"secret");
}

#[test]
fn event_takes_its_place_in_a_chain() {
    let e = event().with_hash_chain("{\"a\":1}", "genesis", 0, b"secret").unwrap();
    let entry = e.hash_chain.as_ref().unwrap();
    assert_eq!(entry.previous_hash, "genesis");
    assert_eq!(entry.event_index, 0);
    assert_eq!(
        entry.current_hash,
        "550ec50ba4bb0d31ffb73b4c334ccc7abf90043cb8d113ffcff99867c55118a6"
    );
    assert_eq!(e.timestamp, "2024-05-01T12:00:00Z");
}

#[test]
fn rotation_priority_and_retention() {
    assert!(!needs_rotation(0, 1));
    assert!(!needs_rotation(1024 * 1024 - 1, 1));
    assert!(needs_rotation(1024 * 1024, 1));
    assert!(needs_rotation(0, 0));
    assert!(needs_rotation(u64::MAX, u32::MAX));
    assert!(needs_rotation(4_503_599_626_321_920, u32::MAX));
    assert!(!needs_rotation(4_503_599_626_321_919, u32::MAX));
    assert_eq!(syslog_priority(&event()), 10);
    assert_eq!(syslog_priority(&event().with_result(true, Some(0), 1, None)), 14);
    assert_eq!(syslog_priority(&event().with_result(false, Some(1), 1, None)), 10);
    let policy = AuditRetentionPolicy { max_files: 3, ..AuditRetentionPolicy::default() };
    assert_eq!(files_beyond_retention(2, &policy), 0);
    assert_eq!(files_beyond_retention(3, &policy), 0);
    assert_eq!(files_beyond_retention(5, &policy), 2);
}
