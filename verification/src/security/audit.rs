//! Audit logging for security events.
//!
//! An event is built here and chained to the event before it by a keyed
//! hash. Files and export backends belong to whoever runs the logger: what
//! is to be written is handed out.
use crate::clock::{fresh_id, timestamp_now};
use hmac::Mac;
use vstd::utf8::encode_utf8;
use vstd::bytes::{spec_u64_to_le_bytes, u64_to_le_bytes};
use vstd::prelude::*;

verus! {

/// Audit event types
#[derive(Debug, Clone, Copy, PartialEq, Eq, Structural)]
pub enum AuditEventType {
    CommandExecution,
    FileAccess,
    ConfigChange,
    AuthSuccess,
    AuthFailure,
    PolicyViolation,
    SecurityEvent,
    SessionStart,
    SessionEnd,
    ToolExecution,
    PeripheralAccess,
}

/// NTP synchronization status for timestamp verification
#[derive(Debug, Clone, Copy, PartialEq, Eq, Structural)]
pub enum NtpSyncStatus {
    Synced,
    Unsynchronized,
    Unknown,
}

impl Default for NtpSyncStatus {
    fn default() -> (r: Self)
        ensures
            r == NtpSyncStatus::Unknown,
    {
        NtpSyncStatus::Unknown
    }
}

/// Network context for tracking connection origin
#[derive(Debug, Clone)]
pub struct NetworkContext {
    pub source_ip: Option<String>,
    pub source_port: Option<u16>,
    pub user_agent: Option<String>,
    pub session_id: Option<String>,
}

impl NetworkContext {
    /// Whether nothing is known of the origin.
    pub open spec fn is_blank(&self) -> bool {
        &&& self.source_ip is None
        &&& self.source_port is None
        &&& self.user_agent is None
        &&& self.session_id is None
    }
}

impl Default for NetworkContext {
    fn default() -> (r: Self)
        ensures
            r.is_blank(),
    {
        Self { source_ip: None, source_port: None, user_agent: None, session_id: None }
    }
}

/// Operation target - what resource was accessed
#[derive(Debug, Clone)]
pub struct OperationTarget {
    pub resource_type: Option<String>,
    pub resource_path: Option<String>,
    pub resource_id: Option<String>,
}

impl OperationTarget {
    /// Whether nothing is known of the target.
    pub open spec fn is_blank(&self) -> bool {
        &&& self.resource_type is None
        &&& self.resource_path is None
        &&& self.resource_id is None
    }
}

impl Default for OperationTarget {
    fn default() -> (r: Self)
        ensures
            r.is_blank(),
    {
        Self { resource_type: None, resource_path: None, resource_id: None }
    }
}

/// Hash chain entry for tamper detection
#[derive(Debug, Clone)]
pub struct HashChainEntry {
    pub previous_hash: String,
    pub current_hash: String,
    pub event_index: u64,
}

/// Actor information (who performed the action)
#[derive(Debug, Clone)]
pub struct Actor {
    pub channel: String,
    pub user_id: Option<String>,
    pub username: Option<String>,
}

/// Action information (what was done)
#[derive(Debug, Clone)]
pub struct Action {
    pub command: Option<String>,
    pub risk_level: Option<String>,
    pub approved: bool,
    pub allowed: bool,
}

/// Execution result
#[derive(Debug, Clone)]
pub struct ExecutionResult {
    pub success: bool,
    pub exit_code: Option<i32>,
    pub duration_ms: Option<u64>,
    pub error: Option<String>,
}

/// Security context
#[derive(Debug, Clone)]
pub struct SecurityContext {
    pub policy_violation: bool,
    pub rate_limit_remaining: Option<u32>,
    pub sandbox_backend: Option<String>,
}

/// Complete audit event. The time of the event is an RFC 3339 text and its
/// identifier a text, both supplied by whoever records the event.
#[derive(Debug, Clone)]
pub struct AuditEvent {
    pub timestamp: String,
    pub ntp_sync: NtpSyncStatus,
    pub event_id: String,
    pub event_type: AuditEventType,
    pub actor: Option<Actor>,
    pub action: Option<Action>,
    pub target: Option<OperationTarget>,
    pub network: Option<NetworkContext>,
    pub result: Option<ExecutionResult>,
    pub security: SecurityContext,
    pub hash_chain: Option<HashChainEntry>,
}

impl AuditEvent {
    /// Create a new audit event, with a fresh identifier, at the time of
    /// the call.
    pub fn new(event_type: AuditEventType) -> (r: Self)
        ensures
            r.ntp_sync == NtpSyncStatus::Unknown,
            r.event_type == event_type,
            r.actor is None,
            r.action is None,
            r.target is None,
            r.network is None,
            r.result is None,
            !r.security.policy_violation,
            r.security.rate_limit_remaining is None,
            r.security.sandbox_backend is None,
            r.hash_chain is None,
    {
        Self::at(event_type, fresh_id(), timestamp_now())
    }

    /// The audit event of an identifier and a time.
    pub fn at(event_type: AuditEventType, event_id: String, timestamp: String) -> (r: Self)
        ensures
            r.timestamp == timestamp,
            r.ntp_sync == NtpSyncStatus::Unknown,
            r.event_id == event_id,
            r.event_type == event_type,
            r.actor is None,
            r.action is None,
            r.target is None,
            r.network is None,
            r.result is None,
            !r.security.policy_violation,
            r.security.rate_limit_remaining is None,
            r.security.sandbox_backend is None,
            r.hash_chain is None,
    {
        Self {
            timestamp,
            ntp_sync: NtpSyncStatus::Unknown,
            event_id,
            event_type,
            actor: None,
            action: None,
            target: None,
            network: None,
            result: None,
            security: SecurityContext {
                policy_violation: false,
                rate_limit_remaining: None,
                sandbox_backend: None,
            },
            hash_chain: None,
        }
    }

    /// Set NTP sync status
    pub fn with_ntp_sync(self, status: NtpSyncStatus) -> (r: Self)
        ensures
            r == (AuditEvent { ntp_sync: status, ..self }),
    {
        Self { ntp_sync: status, ..self }
    }

    /// Set the actor
    pub fn with_actor(self, channel: String, user_id: Option<String>, username: Option<String>) -> (r:
        Self)
        ensures
            r == (AuditEvent { actor: Some(Actor { channel, user_id, username }), ..self }),
    {
        Self { actor: Some(Actor { channel, user_id, username }), ..self }
    }

    /// Set the action
    pub fn with_action(self, command: String, risk_level: String, approved: bool, allowed: bool) -> (r:
        Self)
        ensures
            r == (AuditEvent {
                action: Some(
                    Action {
                        command: Some(command),
                        risk_level: Some(risk_level),
                        approved,
                        allowed,
                    },
                ),
                ..self
            }),
    {
        Self {
            action: Some(
                Action { command: Some(command), risk_level: Some(risk_level), approved, allowed },
            ),
            ..self
        }
    }

    /// Set the result
    pub fn with_result(
        self,
        success: bool,
        exit_code: Option<i32>,
        duration_ms: u64,
        error: Option<String>,
    ) -> (r: Self)
        ensures
            r == (AuditEvent {
                result: Some(
                    ExecutionResult { success, exit_code, duration_ms: Some(duration_ms), error },
                ),
                ..self
            }),
    {
        Self {
            result: Some(
                ExecutionResult { success, exit_code, duration_ms: Some(duration_ms), error },
            ),
            ..self
        }
    }

    /// Set security context
    pub fn with_security(self, sandbox_backend: Option<String>) -> (r: Self)
        ensures
            r == (AuditEvent {
                security: SecurityContext { sandbox_backend, ..self.security },
                ..self
            }),
    {
        let security = SecurityContext {
            policy_violation: self.security.policy_violation,
            rate_limit_remaining: self.security.rate_limit_remaining,
            sandbox_backend,
        };
        Self { security, ..self }
    }

    /// Set network context (IP, session)
    pub fn with_network(
        self,
        source_ip: Option<String>,
        source_port: Option<u16>,
        user_agent: Option<String>,
        session_id: Option<String>,
    ) -> (r: Self)
        ensures
            r == (AuditEvent {
                network: Some(NetworkContext { source_ip, source_port, user_agent, session_id }),
                ..self
            }),
    {
        Self {
            network: Some(NetworkContext { source_ip, source_port, user_agent, session_id }),
            ..self
        }
    }

    /// Set operation target
    pub fn with_target(
        self,
        resource_type: Option<String>,
        resource_path: Option<String>,
        resource_id: Option<String>,
    ) -> (r: Self)
        ensures
            r == (AuditEvent {
                target: Some(OperationTarget { resource_type, resource_path, resource_id }),
                ..self
            }),
    {
        Self {
            target: Some(OperationTarget { resource_type, resource_path, resource_id }),
            ..self
        }
    }
}

/// Audit log export backend
#[derive(Debug, Clone, Copy, PartialEq, Eq, Structural)]
pub enum AuditExportBackend {
    File,
    Syslog,
    Http,
}

/// Audit log export configuration
#[derive(Debug, Clone)]
pub struct AuditExportConfig {
    pub backend: AuditExportBackend,
    pub endpoint: Option<String>,
    pub enabled: bool,
}

impl Default for AuditExportConfig {
    fn default() -> (r: Self)
        ensures
            r.backend == AuditExportBackend::File,
            r.endpoint is None,
            !r.enabled,
    {
        Self { backend: AuditExportBackend::File, endpoint: None, enabled: false }
    }
}

/// Audit retention policy
#[derive(Debug, Clone, Copy, PartialEq, Eq, Structural)]
pub struct AuditRetentionPolicy {
    pub max_files: u32,
    pub max_age_days: Option<u32>,
}

impl Default for AuditRetentionPolicy {
    fn default() -> (r: Self)
        ensures
            r.max_files == 10,
            r.max_age_days == Some(90u32),
    {
        Self { max_files: 10, max_age_days: Some(90) }
    }
}

/// Structured command execution details for audit logging.
#[derive(Debug, Clone, Copy)]
pub struct CommandExecutionLog<'a> {
    pub channel: &'a str,
    pub command: &'a str,
    pub risk_level: &'a str,
    pub approved: bool,
    pub allowed: bool,
    pub success: bool,
    pub duration_ms: u64,
}

/// The HMAC-SHA256 tag of a message under a key: 32 bytes.
pub uninterp spec fn hmac_sha256_tag(key: Seq<u8>, message: Seq<u8>) -> Seq<u8>;

/// The digit that stands for a number below 16 in lower-case hexadecimal.
pub open spec fn hex_digit(n: int) -> char {
    if n == 0 {
        '0'
    } else if n == 1 {
        '1'
    } else if n == 2 {
        '2'
    } else if n == 3 {
        '3'
    } else if n == 4 {
        '4'
    } else if n == 5 {
        '5'
    } else if n == 6 {
        '6'
    } else if n == 7 {
        '7'
    } else if n == 8 {
        '8'
    } else if n == 9 {
        '9'
    } else if n == 10 {
        'a'
    } else if n == 11 {
        'b'
    } else if n == 12 {
        'c'
    } else if n == 13 {
        'd'
    } else if n == 14 {
        'e'
    } else {
        'f'
    }
}

/// Bytes in lower-case hexadecimal, two digits for each byte.
pub open spec fn hex_lower(bytes: Seq<u8>) -> Seq<char>
    decreases bytes.len(),
{
    if bytes.len() == 0 {
        Seq::empty()
    } else {
        hex_lower(bytes.drop_last()).push(hex_digit(bytes.last() as int / 16)).push(
            hex_digit(bytes.last() as int % 16),
        )
    }
}

/// `Hmac::<Sha256>::new_from_slice`, `update` and `finalize` of the `hmac`
/// crate: the tag of the message under the key. The crate takes a key of
/// any length, so there is always a tag.
#[verifier::external_body]
fn hmac_sha256(key: &[u8], message: &[u8]) -> (r: Option<Vec<u8>>)
    ensures
        match r {
            Some(tag) => tag@ == hmac_sha256_tag(key@, message@),
            None => false,
        },
{
    let mut mac = hmac::Hmac::<sha2::Sha256>::new_from_slice(key).ok()?;
    mac.update(message);
    Some(mac.finalize().into_bytes().to_vec())
}

/// `hex::encode`: each byte as two lower-case hexadecimal digits.
#[verifier::external_body]
fn hex_encode(bytes: &[u8]) -> (r: String)
    ensures
        r@ == hex_lower(bytes@),
{
    hex::encode(bytes)
}

/// What is hashed for an event: the JSON text of the event, the hash of the
/// event before it, and its index as eight bytes, low byte first.
pub open spec fn chained_message(
    event_json: Seq<char>,
    previous_hash: Seq<char>,
    event_index: u64,
) -> Seq<u8> {
    encode_utf8(event_json) + encode_utf8(previous_hash) + spec_u64_to_le_bytes(event_index)
}

/// The hash of an event in the chain, as hexadecimal text.
pub open spec fn chained_hash(
    event_json: Seq<char>,
    previous_hash: Seq<char>,
    event_index: u64,
    secret_key: Seq<u8>,
) -> Seq<char> {
    hex_lower(hmac_sha256_tag(secret_key, chained_message(event_json, previous_hash, event_index)))
}

/// Why an event could not be chained.
#[derive(Debug, Clone, Copy, PartialEq, Eq, Structural)]
pub enum AuditError {
    /// The keyed hash could not be set up with the key.
    InvalidKey,
}

impl AuditError {
    pub fn message(&self) -> (r: String)
        ensures
            r@ == "failed to create HMAC for hash chain"@,
    {
        "failed to create HMAC for hash chain".to_owned()
    }
}

impl HashChainEntry {
    /// Computes the hash that chains an event to the one before it.
    pub fn compute_hash(
        event_json: &str,
        previous_hash: &str,
        event_index: u64,
        secret_key: &[u8],
    ) -> (r: Result<String, AuditError>)
        ensures
            r matches Ok(hash) && hash@ == chained_hash(
                event_json@,
                previous_hash@,
                event_index,
                secret_key@,
            ),
    {
        let mut message: Vec<u8> = Vec::new();
        message.extend_from_slice(event_json.as_bytes());
        message.extend_from_slice(previous_hash.as_bytes());
        let index = u64_to_le_bytes(event_index);
        message.extend_from_slice(index.as_slice());
        assert(message@ =~= chained_message(event_json@, previous_hash@, event_index));
        match hmac_sha256(secret_key, message.as_slice()) {
            Some(tag) => Ok(hex_encode(tag.as_slice())),
            None => Err(AuditError::InvalidKey),
        }
    }
}

impl AuditEvent {
    /// Compute and set hash chain entry. `event_json` is the JSON text of
    /// this event as it will be written.
    pub fn with_hash_chain(
        self,
        event_json: &str,
        previous_hash: &str,
        event_index: u64,
        secret_key: &[u8],
    ) -> (r: Result<Self, AuditError>)
        ensures
            r matches Ok(event) && event.hash_chain matches Some(entry) && entry.previous_hash@
                == previous_hash@ && entry.event_index == event_index && entry.current_hash@
                == chained_hash(event_json@, previous_hash@, event_index, secret_key@) && event == (
            AuditEvent { hash_chain: event.hash_chain, ..self }),
    {
        match HashChainEntry::compute_hash(event_json, previous_hash, event_index, secret_key) {
            Ok(current_hash) => Ok(
                Self {
                    hash_chain: Some(
                        HashChainEntry {
                            previous_hash: previous_hash.to_owned(),
                            current_hash,
                            event_index,
                        },
                    ),
                    ..self
                },
            ),
            Err(e) => Err(e),
        }
    }
}

/// The hash that stands before the first event of a chain.
pub open spec fn genesis() -> Seq<char> {
    "genesis"@
}

/// Hash chain state for tamper detection
pub struct HashChainState {
    last_hash: String,
    event_index: u64,
    secret_key: Vec<u8>,
}

impl HashChainState {
    pub closed spec fn last_hash_of(&self) -> Seq<char> {
        self.last_hash@
    }

    pub closed spec fn index_of(&self) -> u64 {
        self.event_index
    }

    pub closed spec fn key_of(&self) -> Seq<u8> {
        self.secret_key@
    }

    pub fn new(secret_key: Vec<u8>) -> (r: Self)
        ensures
            r.last_hash_of() == genesis(),
            r.index_of() == 0,
            r.key_of() == secret_key@,
    {
        Self { last_hash: "genesis".to_owned(), event_index: 0, secret_key }
    }

    pub fn get_last_hash(&self) -> (r: &str)
        ensures
            r@ == self.last_hash_of(),
    {
        self.last_hash.as_str()
    }

    pub fn get_event_index(&self) -> (r: u64)
        ensures
            r == self.index_of(),
    {
        self.event_index
    }

    pub fn secret_key(&self) -> (r: &[u8])
        ensures
            r@ == self.key_of(),
    {
        self.secret_key.as_slice()
    }

    /// Moves the chain on by one event, whose hash becomes the last hash.
    pub fn advance(&mut self, new_hash: String)
        requires
            old(self).index_of() < u64::MAX,
        ensures
            final(self).last_hash_of() == new_hash@,
            final(self).index_of() == old(self).index_of() + 1,
            final(self).key_of() == old(self).key_of(),
    {
        self.last_hash = new_hash;
        self.event_index += 1;
    }

    /// Chains one event: computes its hash from its JSON text, the last hash
    /// and the index, and moves the chain on. Where the index has run out,
    /// the chain stays as it is.
    pub fn chain(&mut self, event_json: &str) -> (r: Option<HashChainEntry>)
        ensures
            final(self).key_of() == old(self).key_of(),
            r is Some <==> old(self).index_of() < u64::MAX,
            match r {
                Some(entry) => {
                    &&& old(self).index_of() < u64::MAX
                    &&& entry.previous_hash@ == old(self).last_hash_of()
                    &&& entry.event_index == old(self).index_of()
                    &&& entry.current_hash@ == chained_hash(
                        event_json@,
                        old(self).last_hash_of(),
                        old(self).index_of(),
                        old(self).key_of(),
                    )
                    &&& final(self).last_hash_of() == entry.current_hash@
                    &&& final(self).index_of() == old(self).index_of() + 1
                },
                None => {
                    &&& final(self).last_hash_of() == old(self).last_hash_of()
                    &&& final(self).index_of() == old(self).index_of()
                },
            },
    {
        if self.event_index == u64::MAX {
            return None;
        }
        let previous_hash = self.last_hash.clone();
        let event_index = self.event_index;
        match HashChainEntry::compute_hash(
            event_json,
            previous_hash.as_str(),
            event_index,
            self.secret_key.as_slice(),
        ) {
            Ok(current_hash) => {
                self.advance(current_hash.clone());
                Some(HashChainEntry { previous_hash, current_hash, event_index })
            },
            Err(_) => None,
        }
    }
}

/// The size of a log file in whole mebibytes.
pub open spec fn size_in_mb(size_bytes: u64) -> int {
    size_bytes as int / 1048576
}

/// Tells whether a log file has grown to the size at which it is rotated.
pub fn needs_rotation(size_bytes: u64, max_size_mb: u32) -> (r: bool)
    ensures
        r == (size_in_mb(size_bytes) >= max_size_mb),
{
    size_bytes / (1024 * 1024) >= max_size_mb as u64
}

/// The syslog priority of an event: informational where its result is a
/// success, alert otherwise.
pub fn syslog_priority(event: &AuditEvent) -> (r: u8)
    ensures
        r == if event.result matches Some(result) && result.success {
            14u8
        } else {
            10u8
        },
{
    match &event.result {
        Some(result) => if result.success {
            14
        } else {
            10
        },
        None => 10,
    }
}

/// How many of the log files are removed under a retention policy: those
/// beyond the `max_files` that are kept.
pub fn files_beyond_retention(file_count: usize, policy: &AuditRetentionPolicy) -> (r: usize)
    ensures
        r == if file_count > policy.max_files {
            file_count - policy.max_files
        } else {
            0
        },
{
    let kept = policy.max_files as usize;
    if file_count > kept {
        file_count - kept
    } else {
        0
    }
}

} // verus!
