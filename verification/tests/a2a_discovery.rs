use zeroclaw::agent::a2a::discovery::{
    is_fresh, well_known_url, DiscoveryManager, HttpDiscovery, StaticDiscovery,
};
use zeroclaw::agent::a2a::types::AgentCard;

#[test]
fn static_discovery_basic() {
    let discovery = StaticDiscovery::new()
        .with_agent(
            "agent-1",
            AgentCard::new("Agent 1", "1.0.0", "http://localhost:8000"),
        )
        .with_agent(
            "agent-2",
            AgentCard::new("Agent 2", "1.0.0", "http://localhost:8001"),
        );

    assert!(discovery.get("agent-1").is_some());
    assert!(discovery.get("agent-2").is_some());
    assert!(discovery.get("agent-3").is_none());
    assert_eq!(discovery.all().len(), 2);
}

#[test]
fn static_discovery_replaces_card_of_known_identifier() {
    let discovery = StaticDiscovery::new()
        .with_agent("agent-1", AgentCard::new("Old", "1.0.0", "http://old"))
        .with_agent("agent-2", AgentCard::new("Other", "1.0.0", "http://other"))
        .with_agent("agent-1", AgentCard::new("New", "2.0.0", "http://new"));

    assert_eq!(discovery.len(), 2);
    assert_eq!(discovery.get("agent-1").unwrap().name, "New");
    assert_eq!(discovery.get("agent-2").unwrap().name, "Other");
    let all = discovery.all();
    assert_eq!(all[0].name, "New");
    assert_eq!(all[1].name, "Other");
}

#[test]
fn discovery_manager_static_agent() {
    let manager = DiscoveryManager::new()
        .with_static_agent("test-agent", AgentCard::new("Test", "1.0.0", "http://test"));

    let agent = manager.find_known("test-agent");
    assert!(agent.is_some());
    assert_eq!(agent.unwrap().name, "Test");
}

#[test]
fn discovery_manager_not_found() {
    let manager = DiscoveryManager::new();

    let agent = manager.find_known("nonexistent");
    assert!(agent.is_none());
    assert!(manager.http_discovery.urls().is_empty());
}

#[test]
fn card_is_asked_for_at_the_well_known_address() {
    assert_eq!(
        well_known_url("http://localhost:8000"),
        "http://localhost:8000/.well-known/agent-card.json"
    );
    assert_eq!(
        well_known_url("http://localhost:8000//"),
        "http://localhost:8000/.well-known/agent-card.json"
    );
    let http = HttpDiscovery::new().with_endpoint("http://a/").with_endpoint("http://b");
    assert_eq!(
        http.urls(),
        vec![
            "http://a/.well-known/agent-card.json".to_string(),
            "http://b/.well-known/agent-card.json".to_string()
        ]
    );
    assert_eq!(http.cache_ttl(), 300);
    assert_eq!(http.with_cache_ttl(5).cache_ttl(), 5);
}

#[test]
fn answered_card_is_noted_under_its_name_only() {
    let mut http = HttpDiscovery::new();
    assert!(!http.accept("agent-1", AgentCard::new("agent-2", "1.0.0", "http://two")));
    assert!(http.cached("agent-1").is_none());
    assert!(http.cached("agent-2").is_none());
    assert!(http.accept("agent-1", AgentCard::new("agent-1", "1.0.0", "http://one")));
    assert_eq!(http.cached("agent-1").unwrap().endpoint, "http://one");
    assert!(http.accept("agent-1", AgentCard::new("agent-1", "2.0.0", "http://one")));
    assert_eq!(http.cached("agent-1").unwrap().version, "2.0.0");

    let manager = DiscoveryManager { static_discovery: StaticDiscovery::new(), http_discovery: http }
        .with_static_agent("configured", AgentCard::new("Configured", "1.0.0", "http://c"))
        .with_http_endpoint("http://d");
    assert_eq!(manager.find_known("agent-1").unwrap().version, "2.0.0");
    assert_eq!(manager.find_known("configured").unwrap().name, "Configured");
    assert_eq!(manager.http_discovery.urls().len(), 1);
    let card = manager.expose_agent_card(AgentCard::new("Mine", "0.1.0", "http://me"));
    assert_eq!(card.name, "Mine");
}

#[test]
fn noted_things_grow_stale() {
    assert!(!is_fresh(None, 1_000, 300));
    assert!(is_fresh(Some(1_000), 1_000, 300));
    assert!(is_fresh(Some(1_000), 300_999, 300));
    assert!(!is_fresh(Some(1_000), 301_000, 300));
    assert!(!is_fresh(Some(1_000), 1_000, 0));
    assert!(is_fresh(Some(5), 4, 1));
    assert!(is_fresh(Some(0), u64::MAX, u64::MAX));
}
