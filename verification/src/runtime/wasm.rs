//! The WASM sandbox runtime: what a module may do and how much it may use.
//!
//! Each module runs under a memory limit, a time limit and a CPU quota.
//! Loading and running modules is the part of whoever embeds the engine; the
//! limits are decided here.
use crate::text::{contains, join, occurs_in, u64_to_decimal};
use vstd::prelude::*;

verus! {

/// The configuration of the runtime.
#[derive(Debug, Clone)]
pub struct WasmRuntimeConfig {
    pub tools_dir: String,
    pub memory_limit_mb: u64,
    pub timeout_secs: u64,
    pub cpu_quota: u64,
    pub allow_workspace_read: bool,
    pub allow_workspace_write: bool,
    pub allowed_hosts: Vec<String>,
}

impl Default for WasmRuntimeConfig {
    fn default() -> (r: Self)
        ensures
            r.tools_dir@ == "tools/wasm"@,
            r.memory_limit_mb == 64,
            r.timeout_secs == 30,
            r.cpu_quota == 1_000_000_000,
            !r.allow_workspace_read,
            !r.allow_workspace_write,
            r.allowed_hosts@.len() == 0,
    {
        Self {
            tools_dir: "tools/wasm".to_owned(),
            memory_limit_mb: 64,
            timeout_secs: 30,
            cpu_quota: 1_000_000_000,
            allow_workspace_read: false,
            allow_workspace_write: false,
            allowed_hosts: Vec::new(),
        }
    }
}

#[derive(Debug, Clone)]
pub struct WasmExecutionResult {
    pub stdout: String,
    pub stderr: String,
    pub exit_code: i32,
    pub fuel_consumed: u64,
    pub duration_ms: u64,
}

#[derive(Debug, Clone)]
pub struct WasmCapabilities {
    pub read_workspace: bool,
    pub write_workspace: bool,
    pub allowed_hosts: Vec<String>,
    pub memory_override_mb: u64,
    pub cpu_quota_override: u64,
}

impl Default for WasmCapabilities {
    fn default() -> (r: Self)
        ensures
            !r.read_workspace,
            !r.write_workspace,
            r.allowed_hosts@.len() == 0,
            r.memory_override_mb == 0,
            r.cpu_quota_override == 0,
    {
        Self {
            read_workspace: false,
            write_workspace: false,
            allowed_hosts: Vec::new(),
            memory_override_mb: 0,
            cpu_quota_override: 0,
        }
    }
}

/// What is wrong with a configuration.
#[derive(Debug, Clone, Copy, PartialEq, Eq, Structural)]
pub enum WasmConfigError {
    ZeroMemory,
    ExcessiveMemory(u64),
    EmptyToolsDir,
    PathTraversal,
    ZeroTimeout,
}

/// The most memory that a module may be given, in mebibytes.
pub const MAX_MEMORY_LIMIT_MB: u64 = 4096;

/// The largest module that is loaded, in bytes.
pub const MAX_MODULE_BYTES: usize = 52_428_800;

/// The first fault of a configuration, if it has one.
pub open spec fn config_fault(config: WasmRuntimeConfig) -> Option<WasmConfigError> {
    if config.memory_limit_mb == 0 {
        Some(WasmConfigError::ZeroMemory)
    } else if config.memory_limit_mb > 4096 {
        Some(WasmConfigError::ExcessiveMemory(config.memory_limit_mb))
    } else if config.tools_dir@.len() == 0 {
        Some(WasmConfigError::EmptyToolsDir)
    } else if occurs_in(".."@, config.tools_dir@) {
        Some(WasmConfigError::PathTraversal)
    } else if config.timeout_secs == 0 {
        Some(WasmConfigError::ZeroTimeout)
    } else {
        None
    }
}

impl WasmConfigError {
    /// The words that tell of the fault.
    pub open spec fn text(&self) -> Seq<char> {
        match *self {
            WasmConfigError::ZeroMemory => "runtime.wasm.memory_limit_mb must be > 0"@,
            WasmConfigError::ExcessiveMemory(mb) => "runtime.wasm.memory_limit_mb of "@
                + crate::text::decimal(mb as nat) + " exceeds the 4 GB safety limit"@,
            WasmConfigError::EmptyToolsDir => "runtime.wasm.tools_dir cannot be empty"@,
            WasmConfigError::PathTraversal =>
                "runtime.wasm.tools_dir must not contain '..' path traversal"@,
            WasmConfigError::ZeroTimeout => "runtime.wasm.timeout_secs must be > 0"@,
        }
    }

    pub fn message(&self) -> (r: String)
        ensures
            r@ == self.text(),
    {
        match self {
            WasmConfigError::ZeroMemory => "runtime.wasm.memory_limit_mb must be > 0".to_owned(),
            WasmConfigError::ExcessiveMemory(mb) => {
                let mut text = join(
                    "runtime.wasm.memory_limit_mb of ",
                    u64_to_decimal(*mb).as_str(),
                );
                text.append(" exceeds the 4 GB safety limit");
                text
            },
            WasmConfigError::EmptyToolsDir => "runtime.wasm.tools_dir cannot be empty".to_owned(),
            WasmConfigError::PathTraversal =>
                "runtime.wasm.tools_dir must not contain '..' path traversal".to_owned(),
            WasmConfigError::ZeroTimeout => "runtime.wasm.timeout_secs must be > 0".to_owned(),
        }
    }
}

/// A number of mebibytes in bytes, as far as `u64` reaches.
pub open spec fn mebibytes(mb: u64) -> u64 {
    if mb as int * 1048576 > u64::MAX as int {
        u64::MAX
    } else {
        (mb * 1048576) as u64
    }
}

fn mebibytes_of(mb: u64) -> (r: u64)
    ensures
        r == mebibytes(mb),
{
    if mb > u64::MAX / 1048576 {
        u64::MAX
    } else {
        mb * 1048576
    }
}

pub struct WasmRuntimeAdapter {
    config: WasmRuntimeConfig,
    workspace_dir: Option<String>,
}

impl WasmRuntimeAdapter {
    pub closed spec fn config_of(&self) -> WasmRuntimeConfig {
        self.config
    }

    pub closed spec fn workspace_of(&self) -> Option<String> {
        self.workspace_dir
    }

    pub fn new(config: WasmRuntimeConfig) -> (r: Self)
        ensures
            r.config_of() == config,
            r.workspace_of() is None,
    {
        Self { config, workspace_dir: None }
    }

    pub fn with_workspace(config: WasmRuntimeConfig, workspace_dir: String) -> (r: Self)
        ensures
            r.config_of() == config,
            r.workspace_of() == Some(workspace_dir),
    {
        Self { config, workspace_dir: Some(workspace_dir) }
    }

    pub fn config(&self) -> (r: &WasmRuntimeConfig)
        ensures
            *r == self.config_of(),
    {
        &self.config
    }

    pub fn workspace_dir(&self) -> (r: &Option<String>)
        ensures
            *r == self.workspace_of(),
    {
        &self.workspace_dir
    }

    /// Checks the configuration. The first fault is reported: a memory limit
    /// of zero or above 4 GB, a tools directory that is empty or holds `..`,
    /// a time limit of zero.
    pub fn validate_config(&self) -> (r: Result<(), WasmConfigError>)
        ensures
            match r {
                Ok(_) => config_fault(self.config_of()) is None,
                Err(e) => config_fault(self.config_of()) == Some(e),
            },
    {
        if self.config.memory_limit_mb == 0 {
            return Err(WasmConfigError::ZeroMemory);
        }
        if self.config.memory_limit_mb > 4096 {
            return Err(WasmConfigError::ExcessiveMemory(self.config.memory_limit_mb));
        }
        if self.config.tools_dir.as_str().unicode_len() == 0 {
            return Err(WasmConfigError::EmptyToolsDir);
        }
        if contains(self.config.tools_dir.as_str(), "..") {
            return Err(WasmConfigError::PathTraversal);
        }
        if self.config.timeout_secs == 0 {
            return Err(WasmConfigError::ZeroTimeout);
        }
        Ok(())
    }

    /// What a module may do unless told otherwise: what the configuration
    /// allows, with no override of its limits.
    pub fn default_capabilities(&self) -> (r: WasmCapabilities)
        ensures
            r.read_workspace == self.config_of().allow_workspace_read,
            r.write_workspace == self.config_of().allow_workspace_write,
            r.allowed_hosts@ == self.config_of().allowed_hosts@,
            r.memory_override_mb == 0,
            r.cpu_quota_override == 0,
    {
        let mut hosts: Vec<String> = Vec::new();
        let mut i: usize = 0;
        while i < self.config.allowed_hosts.len()
            invariant
                i <= self.config.allowed_hosts.len(),
                hosts@ == self.config.allowed_hosts@.subrange(0, i as int),
            decreases self.config.allowed_hosts.len() - i,
        {
            hosts.push(self.config.allowed_hosts[i].clone());
            assert(hosts@ =~= self.config.allowed_hosts@.subrange(0, i + 1));
            i += 1;
        }
        assert(hosts@ =~= self.config.allowed_hosts@);
        WasmCapabilities {
            read_workspace: self.config.allow_workspace_read,
            write_workspace: self.config.allow_workspace_write,
            allowed_hosts: hosts,
            memory_override_mb: 0,
            cpu_quota_override: 0,
        }
    }

    /// The memory a module gets, in bytes: its override where it has one,
    /// else the limit of the configuration.
    pub fn effective_memory_bytes(&self, caps: &WasmCapabilities) -> (r: u64)
        ensures
            r == mebibytes(
                if caps.memory_override_mb > 0 {
                    caps.memory_override_mb
                } else {
                    self.config_of().memory_limit_mb
                },
            ),
    {
        let mb = if caps.memory_override_mb > 0 {
            caps.memory_override_mb
        } else {
            self.config.memory_limit_mb
        };
        mebibytes_of(mb)
    }

    /// The time a module may run, in seconds.
    pub fn effective_timeout(&self) -> (r: u64)
        ensures
            r == self.config_of().timeout_secs,
    {
        self.config.timeout_secs
    }

    /// The CPU quota of a module: its override where it has one, else the
    /// quota of the configuration.
    pub fn effective_cpu_quota(&self, caps: &WasmCapabilities) -> (r: u64)
        ensures
            r == if caps.cpu_quota_override > 0 {
                caps.cpu_quota_override
            } else {
                self.config_of().cpu_quota
            },
    {
        if caps.cpu_quota_override > 0 {
            caps.cpu_quota_override
        } else {
            self.config.cpu_quota
        }
    }

    pub fn name(&self) -> (r: &'static str)
        ensures
            r@ == "wasm"@,
    {
        "wasm"
    }

    pub fn has_shell_access(&self) -> (r: bool)
        ensures
            !r,
    {
        false
    }

    pub fn has_filesystem_access(&self) -> (r: bool)
        ensures
            r == (self.config_of().allow_workspace_read || self.config_of().allow_workspace_write),
    {
        self.config.allow_workspace_read || self.config.allow_workspace_write
    }

    pub fn supports_long_running(&self) -> (r: bool)
        ensures
            !r,
    {
        false
    }

    /// The memory the runtime may use, in bytes.
    pub fn memory_budget(&self) -> (r: u64)
        ensures
            r == mebibytes(self.config_of().memory_limit_mb),
    {
        mebibytes_of(self.config.memory_limit_mb)
    }

    /// Tells whether a module is too large to be loaded.
    pub fn module_too_large(size_bytes: usize) -> (r: bool)
        ensures
            r == (size_bytes > MAX_MODULE_BYTES),
    {
        size_bytes > MAX_MODULE_BYTES
    }

    /// The result of a run that took `duration_ms`. A run that took longer
    /// than the time limit counts as failed with exit code -1, whatever the
    /// module returned.
    pub fn execution_result(
        &self,
        module_name: &str,
        exit_code: i32,
        duration_ms: u64,
        caps: &WasmCapabilities,
    ) -> (r: WasmExecutionResult)
        ensures
            r.duration_ms == duration_ms,
            r.stdout@.len() == 0,
            r.fuel_consumed == if caps.cpu_quota_override > 0 {
                caps.cpu_quota_override
            } else {
                self.config_of().cpu_quota
            },
            timed_out(duration_ms, self.config_of().timeout_secs) ==> r.exit_code == -1 && r.stderr@
                == timeout_text(module_name@, duration_ms, self.config_of().timeout_secs),
            !timed_out(duration_ms, self.config_of().timeout_secs) ==> r.exit_code == exit_code
                && r.stderr@.len() == 0,
    {
        let fuel_consumed = self.effective_cpu_quota(caps);
        let late = if self.config.timeout_secs > u64::MAX / 1000 {
            false
        } else {
            duration_ms > self.config.timeout_secs * 1000
        };
        if late {
            let mut stderr = join("WASM module '", module_name);
            stderr.append("' timed out after ");
            stderr.append(u64_to_decimal(duration_ms).as_str());
            stderr.append("ms (limit: ");
            stderr.append(u64_to_decimal(self.config.timeout_secs).as_str());
            stderr.append("s)");
            WasmExecutionResult {
                stdout: String::new(),
                stderr,
                exit_code: -1,
                fuel_consumed,
                duration_ms,
            }
        } else {
            WasmExecutionResult {
                stdout: String::new(),
                stderr: String::new(),
                exit_code,
                fuel_consumed,
                duration_ms,
            }
        }
    }
}

/// Whether a run of that many milliseconds went over a limit of that many
/// seconds.
pub open spec fn timed_out(duration_ms: u64, timeout_secs: u64) -> bool {
    duration_ms as int > timeout_secs as int * 1000
}

/// The words that tell of a run that went over its time limit.
pub open spec fn timeout_text(module_name: Seq<char>, duration_ms: u64, timeout_secs: u64) -> Seq<
    char,
> {
    "WASM module '"@ + module_name + "' timed out after "@ + crate::text::decimal(
        duration_ms as nat,
    ) + "ms (limit: "@ + crate::text::decimal(timeout_secs as nat) + "s)"@
}

} // verus!
