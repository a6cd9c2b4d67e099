use zeroclaw::runtime::wasm::{
    WasmCapabilities, WasmConfigError, WasmRuntimeAdapter, WasmRuntimeConfig,
};

fn default_config() -> WasmRuntimeConfig {
    WasmRuntimeConfig::default()
}

#[test]
fn wasm_runtime_name() {
    let rt = WasmRuntimeAdapter::new(default_config());
    assert_eq!(rt.name(), "wasm");
}

#[test]
fn wasm_no_shell_access() {
    let rt = WasmRuntimeAdapter::new(default_config());
    assert!(!rt.has_shell_access());
}

#[test]
fn wasm_no_filesystem_by_default() {
    let rt = WasmRuntimeAdapter::new(default_config());
    assert!(!rt.has_filesystem_access());
}

#[test]
fn wasm_filesystem_when_read_enabled() {
    let mut cfg = default_config();
    cfg.allow_workspace_read = true;
    let rt = WasmRuntimeAdapter::new(cfg);
    assert!(rt.has_filesystem_access());
}

#[test]
fn wasm_filesystem_when_write_enabled() {
    let mut cfg = default_config();
    cfg.allow_workspace_write = true;
    let rt = WasmRuntimeAdapter::new(cfg);
    assert!(rt.has_filesystem_access());
}

#[test]
fn wasm_no_long_running() {
    let rt = WasmRuntimeAdapter::new(default_config());
    assert!(!rt.supports_long_running());
}

#[test]
fn wasm_memory_budget() {
    let rt = WasmRuntimeAdapter::new(default_config());
    assert_eq!(rt.memory_budget(), 64 * 1024 * 1024);
}

#[test]
fn validate_rejects_zero_memory() {
    let mut cfg = default_config();
    cfg.memory_limit_mb = 0;
    let rt = WasmRuntimeAdapter::new(cfg);
    let err = rt.validate_config().unwrap_err();
    assert!(err.message().contains("must be > 0"));
}

#[test]
fn validate_rejects_excessive_memory() {
    let mut cfg = default_config();
    cfg.memory_limit_mb = 8192;
    let rt = WasmRuntimeAdapter::new(cfg);
    let err = rt.validate_config().unwrap_err();
    assert!(err.message().contains("4 GB safety limit"));
}

#[test]
fn validate_rejects_empty_tools_dir() {
    let mut cfg = default_config();
    cfg.tools_dir = String::new();
    let rt = WasmRuntimeAdapter::new(cfg);
    let err = rt.validate_config().unwrap_err();
    assert!(err.message().contains("cannot be empty"));
}

#[test]
fn validate_rejects_path_traversal() {
    let mut cfg = default_config();
    cfg.tools_dir = "../../../etc/passwd".into();
    let rt = WasmRuntimeAdapter::new(cfg);
    let err = rt.validate_config().unwrap_err();
    assert!(err.message().contains("path traversal"));
}

#[test]
fn validate_accepts_valid_config() {
    let rt = WasmRuntimeAdapter::new(default_config());
    assert!(rt.validate_config().is_ok());
}

#[test]
fn validate_rejects_zero_timeout() {
    let mut cfg = default_config();
    cfg.timeout_secs = 0;
    let rt = WasmRuntimeAdapter::new(cfg);
    let err = rt.validate_config().unwrap_err();
    assert!(err.message().contains("timeout_secs"));
}

#[test]
fn effective_memory_uses_config_default() {
    let rt = WasmRuntimeAdapter::new(default_config());
    let caps = WasmCapabilities::default();
    assert_eq!(rt.effective_memory_bytes(&caps), 64 * 1024 * 1024);
}

#[test]
fn effective_memory_respects_override() {
    let rt = WasmRuntimeAdapter::new(default_config());
    let caps = WasmCapabilities {
        memory_override_mb: 128,
        ..Default::default()
    };
    assert_eq!(rt.effective_memory_bytes(&caps), 128 * 1024 * 1024);
}

#[test]
fn default_capabilities_match_config() {
    let mut cfg = default_config();
    cfg.allow_workspace_read = true;
    cfg.allowed_hosts = vec!["api.example.com".into()];
    let rt = WasmRuntimeAdapter::new(cfg);
    let caps = rt.default_capabilities();
    assert!(caps.read_workspace);
    assert!(!caps.write_workspace);
    assert_eq!(caps.allowed_hosts, vec!["api.example.com"]);
}

#[test]
fn memory_budget_no_overflow() {
    let mut cfg = default_config();
    cfg.memory_limit_mb = 4096;
    let rt = WasmRuntimeAdapter::new(cfg);
    assert_eq!(rt.memory_budget(), 4096 * 1024 * 1024);
}

#[test]
fn effective_memory_saturating() {
    let rt = WasmRuntimeAdapter::new(default_config());
    let caps = WasmCapabilities {
        memory_override_mb: u64::MAX,
        ..Default::default()
    };
    let _bytes = rt.effective_memory_bytes(&caps);
}

#[test]
fn capabilities_default_is_locked_down() {
    let caps = WasmCapabilities::default();
    assert!(!caps.read_workspace);
    assert!(!caps.write_workspace);
    assert!(caps.allowed_hosts.is_empty());
    assert_eq!(caps.memory_override_mb, 0);
    assert_eq!(caps.cpu_quota_override, 0);
}

#[test]
fn wasm_memory_limit_enforced_in_config() {
    let rt = WasmRuntimeAdapter::new(default_config());
    let caps = WasmCapabilities::default();
    let mem_bytes = rt.effective_memory_bytes(&caps);
    assert!(mem_bytes > 0);
    assert!(mem_bytes <= 4096 * 1024 * 1024);
}

#[test]
fn wasm_timeout_enforced() {
    let rt = WasmRuntimeAdapter::new(default_config());
    let duration = rt.effective_timeout();
    assert!(duration > 0);
}

#[test]
fn validate_rejects_memory_just_above_limit() {
    let mut cfg = default_config();
    cfg.memory_limit_mb = 4097;
    let rt = WasmRuntimeAdapter::new(cfg);
    let err = rt.validate_config().unwrap_err();
    assert!(err.message().contains("4 GB safety limit"));
}

#[test]
fn validate_names_the_excessive_memory() {
    let mut cfg = default_config();
    cfg.memory_limit_mb = 4097;
    let rt = WasmRuntimeAdapter::new(cfg);
    let err = rt.validate_config().unwrap_err();
    assert_eq!(err, WasmConfigError::ExcessiveMemory(4097));
    assert_eq!(
        err.message(),
        "runtime.wasm.memory_limit_mb of 4097 exceeds the 4 GB safety limit"
    );
}

#[test]
fn effective_memory_saturates_at_the_top() {
    let rt = WasmRuntimeAdapter::new(default_config());
    let caps = WasmCapabilities {
        memory_override_mb: u64::MAX,
        ..Default::default()
    };
    assert_eq!(rt.effective_memory_bytes(&caps), u64::MAX);
}

#[test]
fn effective_cpu_quota_prefers_override() {
    let rt = WasmRuntimeAdapter::new(default_config());
    let mut caps = WasmCapabilities::default();
    assert_eq!(rt.effective_cpu_quota(&caps), rt.config().cpu_quota);
    caps.cpu_quota_override = 7;
    assert_eq!(rt.effective_cpu_quota(&caps), 7);
}

#[test]
fn run_over_the_time_limit_fails() {
    let mut cfg = default_config();
    cfg.timeout_secs = 2;
    let rt = WasmRuntimeAdapter::new(cfg);
    let caps = WasmCapabilities::default();
    let late = rt.execution_result("calc", 0, 2001, &caps);
    assert_eq!(late.exit_code, -1);
    assert_eq!(
        late.stderr,
        "WASM module 'calc' timed out after 2001ms (limit: 2s)"
    );
    let in_time = rt.execution_result("calc", 3, 2000, &caps);
    assert_eq!(in_time.exit_code, 3);
    assert_eq!(in_time.stderr, "");
    assert!(!WasmRuntimeAdapter::module_too_large(50 * 1024 * 1024));
    assert!(WasmRuntimeAdapter::module_too_large(50 * 1024 * 1024 + 1));
}
