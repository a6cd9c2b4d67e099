//! The REST API of the gateway: the bodies it takes and the schemas it
//! serves.
use crate::config::db::{Channel, Profile, Provider};
use crate::text::{
    join, lowercased, push_char, str_eq, strip_prefix, to_lowercase, trim, trimmed,
};
use vstd::prelude::*;

verus! {

pub struct MemoryQuery {
    pub query: Option<String>,
    pub category: Option<String>,
}

pub struct MemoryStoreBody {
    pub key: String,
    pub content: String,
    pub category: Option<String>,
}

pub struct CronAddBody {
    pub name: Option<String>,
    pub schedule: String,
    pub command: String,
}

pub struct ChannelToggleBody {
    pub enabled: bool,
}

pub struct ProfileCreate {
    pub name: String,
    pub description: Option<String>,
}

pub struct ProviderCreate {
    pub profile_id: String,
    pub name: String,
    pub api_key: Option<String>,
    pub api_url: Option<String>,
    pub default_model: Option<String>,
    pub is_enabled: Option<bool>,
    pub is_default: Option<bool>,
}

pub struct ChannelCreate {
    pub profile_id: String,
    pub channel_type: String,
    pub config: String,
    pub is_enabled: Option<bool>,
}

#[derive(Clone)]
pub struct ProviderSchemaField {
    pub name: String,
    pub field_type: String,
    pub required: bool,
    pub hint: String,
    pub example: Option<String>,
}

#[derive(Clone)]
pub struct ProviderSchema {
    pub provider_type: String,
    pub name: String,
    pub description: String,
    pub fields: Vec<ProviderSchemaField>,
}

#[derive(Clone)]
pub struct ChannelSchemaField {
    pub name: String,
    pub field_type: String,
    pub required: bool,
    pub hint: String,
    pub example: Option<String>,
}

#[derive(Clone)]
pub struct ChannelSchema {
    pub channel_type: String,
    pub name: String,
    pub description: String,
    pub fields: Vec<ChannelSchemaField>,
}

/// The token that an `Authorization` header carries after `Bearer `.
pub fn extract_bearer_token(authorization: Option<&str>) -> (r: Option<&str>)
    ensures
        match r {
            Some(token) => authorization matches Some(value) && value@ == "Bearer "@ + token@,
            None => match authorization {
                Some(value) => !"Bearer "@.is_prefix_of(value@),
                None => true,
            },
        },
{
    match authorization {
        Some(value) => strip_prefix(value, "Bearer "),
        None => None,
    }
}

/// What stands in the place of a masked value.
pub open spec fn mask() -> Seq<char> {
    " \"***MASKED***\""@
}

/// Whether a line, without the white space around it, begins with the name
/// of a setting that holds a secret.
pub open spec fn names_secret(line: Seq<char>) -> bool {
    let name = trimmed(line);
    ||| "api_key"@.is_prefix_of(name)
    ||| "bot_token"@.is_prefix_of(name)
    ||| "access_token"@.is_prefix_of(name)
    ||| "secret"@.is_prefix_of(name)
    ||| "app_secret"@.is_prefix_of(name)
    ||| "signing_secret"@.is_prefix_of(name)
}

/// The position of the first `c` in a text at or after `from`, or the
/// length of the text where there is none.
pub open spec fn first_of(s: Seq<char>, c: char, from: int) -> int
    decreases s.len() - from,
{
    if from < 0 || from >= s.len() {
        s.len() as int
    } else if s[from] == c {
        from
    } else {
        first_of(s, c, from + 1)
    }
}

/// A line as it is shown: one that names a secret keeps what stands up to
/// its first `=`, and the mask stands for the rest; every other line, and a
/// line without `=`, is shown as it is.
pub open spec fn masked_line(line: Seq<char>) -> Seq<char> {
    let eq = first_of(line, '=', 0);
    if names_secret(line) && eq < line.len() {
        line.subrange(0, eq + 1) + mask()
    } else {
        line
    }
}

/// A line without the carriage return at its end.
pub open spec fn without_return(line: Seq<char>) -> Seq<char> {
    if line.len() > 0 && line.last() == '\r' {
        line.drop_last()
    } else {
        line
    }
}

/// A text with its secrets masked, from a position on, line by line. Each
/// line ends at a line feed, before which a carriage return is dropped; the
/// last line may go without a line feed. Every line shown ends in a line
/// feed.
pub open spec fn masked_from(s: Seq<char>, from: int) -> Seq<char>
    decreases s.len() - from,
{
    if from < 0 || from >= s.len() {
        Seq::empty()
    } else {
        let end = first_of(s, '\n', from);
        if end < from {
            Seq::empty()
        } else if end < s.len() {
            masked_line(without_return(s.subrange(from, end))).push('\n') + masked_from(s, end + 1)
        } else {
            masked_line(s.subrange(from, end)).push('\n')
        }
    }
}

fn find_char(s: &str, c: char, from: usize) -> (r: usize)
    requires
        from <= s@.len(),
    ensures
        r == first_of(s@, c, from as int),
        from <= r <= s@.len(),
{
    let n = s.unicode_len();
    let mut i: usize = from;
    while i < n
        invariant
            from <= i <= n,
            n == s@.len(),
            first_of(s@, c, from as int) == first_of(s@, c, i as int),
        decreases n - i,
    {
        if s.get_char(i) == c {
            return i;
        }
        i += 1;
    }
    i
}

fn names_a_secret(line: &str) -> (r: bool)
    ensures
        r == names_secret(line@),
{
    let name = trim(line);
    strip_prefix(name, "api_key").is_some() || strip_prefix(name, "bot_token").is_some()
        || strip_prefix(name, "access_token").is_some() || strip_prefix(name, "secret").is_some()
        || strip_prefix(name, "app_secret").is_some() || strip_prefix(
        name,
        "signing_secret",
    ).is_some()
}

fn push_masked_line(output: &mut String, line: &str)
    ensures
        final(output)@ == old(output)@ + masked_line(line@).push('\n'),
{
    let n = line.unicode_len();
    let eq = find_char(line, '=', 0);
    if names_a_secret(line) && eq < n {
        output.append(line.substring_char(0, eq + 1));
        output.append(" \"***MASKED***\"");
    } else {
        output.append(line);
    }
    push_char(output, '\n');
    assert(output@ =~= old(output)@ + masked_line(line@).push('\n'));
}

/// Shows a configuration text with its secrets masked.
pub fn mask_sensitive_fields(toml_str: &str) -> (r: String)
    ensures
        r@ == masked_from(toml_str@, 0),
{
    let mut output = String::new();
    let n = toml_str.unicode_len();
    let mut start: usize = 0;
    while start < n
        invariant
            start <= n,
            n == toml_str@.len(),
            output@ + masked_from(toml_str@, start as int) == masked_from(toml_str@, 0),
        decreases n - start,
    {
        let end = find_char(toml_str, '\n', start);
        let ghost before = output@;
        if end < n {
            let whole = toml_str.substring_char(start, end);
            let length = end - start;
            let line = if length > 0 && whole.get_char(length - 1) == '\r' {
                whole.substring_char(0, length - 1)
            } else {
                whole
            };
            assert(line@ =~= without_return(toml_str@.subrange(start as int, end as int)));
            push_masked_line(&mut output, line);
            assert(output@ + masked_from(toml_str@, end + 1) =~= before + masked_from(
                toml_str@,
                start as int,
            ));
            start = end + 1;
        } else {
            push_masked_line(&mut output, toml_str.substring_char(start, end));
            assert(output@ + masked_from(toml_str@, n as int) =~= before + masked_from(
                toml_str@,
                start as int,
            ));
            start = n;
        }
    }
    assert(output@ + masked_from(toml_str@, n as int) =~= output@);
    output
}

/// A channel that can be switched on and off.
#[derive(Debug, Clone, Copy, PartialEq, Eq, Structural)]
pub enum ToggledChannel {
    Telegram,
    Discord,
    Slack,
    WhatsApp,
    Signal,
    Matrix,
    IMessage,
    Email,
    Webhook,
    Cli,
}

/// What switching a channel does to the configuration.
#[derive(Debug, Clone, Copy, PartialEq, Eq, Structural)]
pub enum ChannelChange {
    /// The configuration stays as it is.
    Keep,
    /// The settings of the channel are removed.
    Remove,
    /// The command line is switched on or off.
    SetCli(bool),
}

/// Why a channel cannot be switched.
#[derive(Debug, Clone, Copy, PartialEq, Eq, Structural)]
pub enum ToggleFault {
    /// The channel is to be switched on, but has no settings.
    NotConfigured(ToggledChannel),
    /// There is no channel of the name.
    Unknown,
}

impl ToggledChannel {
    /// The channel that a name in lower case stands for.
    pub open spec fn named(name: Seq<char>) -> Option<ToggledChannel> {
        if name == "telegram"@ {
            Some(ToggledChannel::Telegram)
        } else if name == "discord"@ {
            Some(ToggledChannel::Discord)
        } else if name == "slack"@ {
            Some(ToggledChannel::Slack)
        } else if name == "whatsapp"@ {
            Some(ToggledChannel::WhatsApp)
        } else if name == "signal"@ {
            Some(ToggledChannel::Signal)
        } else if name == "matrix"@ {
            Some(ToggledChannel::Matrix)
        } else if name == "imessage"@ {
            Some(ToggledChannel::IMessage)
        } else if name == "email"@ {
            Some(ToggledChannel::Email)
        } else if name == "webhook"@ {
            Some(ToggledChannel::Webhook)
        } else if name == "cli"@ {
            Some(ToggledChannel::Cli)
        } else {
            None
        }
    }

    /// Reads the name of a channel, which is written in lower case.
    pub fn from_name(name: &str) -> (r: Option<ToggledChannel>)
        ensures
            r == Self::named(name@),
    {
        if str_eq(name, "telegram") {
            Some(ToggledChannel::Telegram)
        } else if str_eq(name, "discord") {
            Some(ToggledChannel::Discord)
        } else if str_eq(name, "slack") {
            Some(ToggledChannel::Slack)
        } else if str_eq(name, "whatsapp") {
            Some(ToggledChannel::WhatsApp)
        } else if str_eq(name, "signal") {
            Some(ToggledChannel::Signal)
        } else if str_eq(name, "matrix") {
            Some(ToggledChannel::Matrix)
        } else if str_eq(name, "imessage") {
            Some(ToggledChannel::IMessage)
        } else if str_eq(name, "email") {
            Some(ToggledChannel::Email)
        } else if str_eq(name, "webhook") {
            Some(ToggledChannel::Webhook)
        } else if str_eq(name, "cli") {
            Some(ToggledChannel::Cli)
        } else {
            None
        }
    }

    /// What is said of a channel that is to be switched on without
    /// settings.
    pub open spec fn not_configured(&self) -> Seq<char> {
        match *self {
            ToggledChannel::Telegram => "Telegram not configured. Add bot_token in config first."@,
            ToggledChannel::Discord => "Discord not configured. Add bot_token in config first."@,
            ToggledChannel::Slack => "Slack not configured. Add bot_token in config first."@,
            ToggledChannel::WhatsApp => "WhatsApp not configured. Add credentials in config first."@,
            ToggledChannel::Signal => "Signal not configured. Add credentials in config first."@,
            ToggledChannel::Matrix => "Matrix not configured. Add credentials in config first."@,
            ToggledChannel::IMessage =>
                "iMessage not configured. Add configuration in config first."@,
            ToggledChannel::Email => "Email not configured. Add SMTP credentials in config first."@,
            ToggledChannel::Webhook => "Webhook not configured. Add webhook config first."@,
            ToggledChannel::Cli => "CLI not configured."@,
        }
    }

    /// Writes what is said of a channel that is to be switched on without
    /// settings.
    pub fn not_configured_message(&self) -> (r: &'static str)
        ensures
            r@ == self.not_configured(),
    {
        match self {
            ToggledChannel::Telegram => "Telegram not configured. Add bot_token in config first.",
            ToggledChannel::Discord => "Discord not configured. Add bot_token in config first.",
            ToggledChannel::Slack => "Slack not configured. Add bot_token in config first.",
            ToggledChannel::WhatsApp => "WhatsApp not configured. Add credentials in config first.",
            ToggledChannel::Signal => "Signal not configured. Add credentials in config first.",
            ToggledChannel::Matrix => "Matrix not configured. Add credentials in config first.",
            ToggledChannel::IMessage => "iMessage not configured. Add configuration in config first.",
            ToggledChannel::Email => "Email not configured. Add SMTP credentials in config first.",
            ToggledChannel::Webhook => "Webhook not configured. Add webhook config first.",
            ToggledChannel::Cli => "CLI not configured.",
        }
    }
}

/// What switching a channel on or off comes to. The command line is
/// switched as asked. Any other channel can be switched on only where it
/// has settings, and then nothing changes; switching it off removes its
/// settings.
pub open spec fn toggled(channel: ToggledChannel, enabled: bool, configured: bool) -> Result<
    ChannelChange,
    ToggleFault,
> {
    if channel == ToggledChannel::Cli {
        Ok(ChannelChange::SetCli(enabled))
    } else if enabled && !configured {
        Err(ToggleFault::NotConfigured(channel))
    } else if !enabled {
        Ok(ChannelChange::Remove)
    } else {
        Ok(ChannelChange::Keep)
    }
}

/// Decides what switching a channel on or off comes to.
pub fn toggle(channel: ToggledChannel, enabled: bool, configured: bool) -> (r: Result<
    ChannelChange,
    ToggleFault,
>)
    ensures
        r == toggled(channel, enabled, configured),
{
    match channel {
        ToggledChannel::Cli => Ok(ChannelChange::SetCli(enabled)),
        _ => if enabled && !configured {
            Err(ToggleFault::NotConfigured(channel))
        } else if !enabled {
            Ok(ChannelChange::Remove)
        } else {
            Ok(ChannelChange::Keep)
        },
    }
}

/// The channel that a request names, whatever the case in which it is
/// written.
pub fn toggled_channel(name: &str) -> (r: Result<ToggledChannel, ToggleFault>)
    ensures
        match r {
            Ok(channel) => ToggledChannel::named(lowercased(name@)) == Some(channel),
            Err(fault) => ToggledChannel::named(lowercased(name@)) is None && fault
                == ToggleFault::Unknown,
        },
{
    let lowered = to_lowercase(name);
    match ToggledChannel::from_name(lowered.as_str()) {
        Some(channel) => Ok(channel),
        None => Err(ToggleFault::Unknown),
    }
}

/// The status and the words with which a fault is answered. `name` is the
/// name of the channel as the request wrote it.
pub fn toggle_fault_answer(fault: ToggleFault, name: &str) -> (r: (u16, String))
    ensures
        match fault {
            ToggleFault::NotConfigured(channel) => r.0 == 400 && r.1@ == channel.not_configured(),
            ToggleFault::Unknown => r.0 == 404 && r.1@ == "Unknown channel: "@ + name@,
        },
{
    match fault {
        ToggleFault::NotConfigured(channel) => (400, channel.not_configured_message().to_owned()),
        ToggleFault::Unknown => (404, join("Unknown channel: ", name)),
    }
}

/// The profile under which a new record is filed: the one asked for where
/// it exists; otherwise the active profile; otherwise `default`.
pub fn target_profile(requested: &str, requested_exists: bool, active: Option<&str>) -> (r: String)
    ensures
        r@ == if requested_exists {
            requested@
        } else {
            match active {
                Some(id) => id@,
                None => "default"@,
            }
        },
{
    if requested_exists {
        requested.to_owned()
    } else {
        match active {
            Some(id) => id.to_owned(),
            None => "default".to_owned(),
        }
    }
}

/// The profile that is created where a record needs one and none exists.
pub fn default_profile(now: &str) -> (r: Profile)
    ensures
        r.id@ == "default"@,
        r.name@ == "Default"@,
        r.description matches Some(d) && d@ == "Default profile"@,
        r.is_active,
        r.created_at@ == now@,
        r.updated_at@ == now@,
{
    Profile {
        id: "default".to_owned(),
        name: "Default".to_owned(),
        description: Some("Default profile".to_owned()),
        is_active: true,
        created_at: now.to_owned(),
        updated_at: now.to_owned(),
    }
}

/// The provider that a request creates. It is enabled unless the request
/// says otherwise, and the default only where the request says so.
pub fn new_provider(payload: ProviderCreate, id: String, profile_id: String, now: &str) -> (r:
    Provider)
    ensures
        r.id == id,
        r.profile_id == profile_id,
        r.name == payload.name,
        r.api_key == payload.api_key,
        r.api_url == payload.api_url,
        r.default_model == payload.default_model,
        r.is_enabled == match payload.is_enabled {
            Some(b) => b,
            None => true,
        },
        r.is_default == match payload.is_default {
            Some(b) => b,
            None => false,
        },
        r.priority == 0,
        r.metadata is None,
        r.created_at@ == now@,
        r.updated_at@ == now@,
{
    Provider {
        id,
        profile_id,
        name: payload.name,
        api_key: payload.api_key,
        api_url: payload.api_url,
        default_model: payload.default_model,
        is_enabled: match payload.is_enabled {
            Some(b) => b,
            None => true,
        },
        is_default: match payload.is_default {
            Some(b) => b,
            None => false,
        },
        priority: 0,
        metadata: None,
        created_at: now.to_owned(),
        updated_at: now.to_owned(),
    }
}

/// The provider that a request makes of an existing one. The identifier,
/// the profile, the priority, the metadata and the time of creation stay;
/// the flags stay where the request does not set them.
pub fn updated_provider(existing: Provider, payload: ProviderCreate, now: &str) -> (r: Provider)
    ensures
        r.id == existing.id,
        r.profile_id == existing.profile_id,
        r.name == payload.name,
        r.api_key == payload.api_key,
        r.api_url == payload.api_url,
        r.default_model == payload.default_model,
        r.is_enabled == match payload.is_enabled {
            Some(b) => b,
            None => existing.is_enabled,
        },
        r.is_default == match payload.is_default {
            Some(b) => b,
            None => existing.is_default,
        },
        r.priority == existing.priority,
        r.metadata == existing.metadata,
        r.created_at == existing.created_at,
        r.updated_at@ == now@,
{
    Provider {
        id: existing.id,
        profile_id: existing.profile_id,
        name: payload.name,
        api_key: payload.api_key,
        api_url: payload.api_url,
        default_model: payload.default_model,
        is_enabled: match payload.is_enabled {
            Some(b) => b,
            None => existing.is_enabled,
        },
        is_default: match payload.is_default {
            Some(b) => b,
            None => existing.is_default,
        },
        priority: existing.priority,
        metadata: existing.metadata,
        created_at: existing.created_at,
        updated_at: now.to_owned(),
    }
}

/// The channel that a request creates. It is enabled unless the request
/// says otherwise.
pub fn new_channel(payload: ChannelCreate, id: String, profile_id: String, now: &str) -> (r: Channel)
    ensures
        r.id == id,
        r.profile_id == profile_id,
        r.channel_type == payload.channel_type,
        r.config == payload.config,
        r.is_enabled == match payload.is_enabled {
            Some(b) => b,
            None => true,
        },
        r.created_at@ == now@,
        r.updated_at@ == now@,
{
    Channel {
        id,
        profile_id,
        channel_type: payload.channel_type,
        config: payload.config,
        is_enabled: match payload.is_enabled {
            Some(b) => b,
            None => true,
        },
        created_at: now.to_owned(),
        updated_at: now.to_owned(),
    }
}

/// The channel that a request makes of an existing one. The identifier,
/// the profile and the time of creation stay; it stays enabled or not
/// where the request does not say.
pub fn updated_channel(existing: Channel, payload: ChannelCreate, now: &str) -> (r: Channel)
    ensures
        r.id == existing.id,
        r.profile_id == existing.profile_id,
        r.channel_type == payload.channel_type,
        r.config == payload.config,
        r.is_enabled == match payload.is_enabled {
            Some(b) => b,
            None => existing.is_enabled,
        },
        r.created_at == existing.created_at,
        r.updated_at@ == now@,
{
    Channel {
        id: existing.id,
        profile_id: existing.profile_id,
        channel_type: payload.channel_type,
        config: payload.config,
        is_enabled: match payload.is_enabled {
            Some(b) => b,
            None => existing.is_enabled,
        },
        created_at: existing.created_at,
        updated_at: now.to_owned(),
    }
}

} // verus!
