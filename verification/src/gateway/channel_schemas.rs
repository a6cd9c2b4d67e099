//! The channels that the dashboard can set up, and the settings that each
//! of them takes.
use crate::gateway::api::{ChannelSchema, ChannelSchemaField};
use crate::gateway::schemas::{
    field_model, schema_model, channel_field, channel_field_models, channel_models, channel_schema, SchemaModel,
};
use vstd::prelude::*;

verus! {

/// The schema of the channel `cli`.
pub open spec fn channel_cli() -> SchemaModel {
    schema_model("cli"@, "CLI"@, "Command-line interface (always enabled)"@, Seq::empty())
}

fn channel_schema_of_cli() -> (r: ChannelSchema)
    ensures
        r@ == channel_cli(),
{
    let mut fields: Vec<ChannelSchemaField> = Vec::new();
    assert(channel_field_models(fields@) =~= channel_cli().fields);
    channel_schema("cli", "CLI", "Command-line interface (always enabled)", fields)
}

/// The schema of the channel `telegram`.
pub open spec fn channel_telegram() -> SchemaModel {
    schema_model(
        "telegram"@,
        "Telegram"@,
        "Connect your Telegram bot"@,
        seq![
            field_model(
                "bot_token"@,
                "string"@,
                true,
                "Get from @BotFather on Telegram"@,
                Some("123456:ABC-DEF1234ghIkl-zyx57W2vT6EH11"@),
            ),
            field_model(
                "allowed_users"@,
                "array"@,
                false,
                "User IDs that can interact with the bot"@,
                Some("[\"123456789\"]"@),
            ),
        ],
    )
}

fn channel_schema_of_telegram() -> (r: ChannelSchema)
    ensures
        r@ == channel_telegram(),
{
    let mut fields: Vec<ChannelSchemaField> = Vec::new();
    fields.push(
        channel_field(
            "bot_token",
            "string",
            true,
            "Get from @BotFather on Telegram",
            Some("123456:ABC-DEF1234ghIkl-zyx57W2vT6EH11"),
        ),
    );
    fields.push(
        channel_field(
            "allowed_users",
            "array",
            false,
            "User IDs that can interact with the bot",
            Some("[\"123456789\"]"),
        ),
    );
    assert(channel_field_models(fields@) =~= channel_telegram().fields);
    channel_schema("telegram", "Telegram", "Connect your Telegram bot", fields)
}

/// The schema of the channel `discord`.
pub open spec fn channel_discord() -> SchemaModel {
    schema_model(
        "discord"@,
        "Discord"@,
        "Connect your Discord bot"@,
        seq![
            field_model(
                "bot_token"@,
                "string"@,
                true,
                "Your Discord bot token"@,
                Some("MTEw..."@),
            ),
        ],
    )
}

fn channel_schema_of_discord() -> (r: ChannelSchema)
    ensures
        r@ == channel_discord(),
{
    let mut fields: Vec<ChannelSchemaField> = Vec::new();
    fields.push(
        channel_field(
            "bot_token",
            "string",
            true,
            "Your Discord bot token",
            Some("MTEw..."),
        ),
    );
    assert(channel_field_models(fields@) =~= channel_discord().fields);
    channel_schema("discord", "Discord", "Connect your Discord bot", fields)
}

/// The schema of the channel `slack`.
pub open spec fn channel_slack() -> SchemaModel {
    schema_model(
        "slack"@,
        "Slack"@,
        "Connect your Slack app"@,
        seq![
            field_model(
                "bot_token"@,
                "string"@,
                true,
                "Your Slack bot token (xoxb-...)"@,
                Some("xoxb-..."@),
            ),
        ],
    )
}

fn channel_schema_of_slack() -> (r: ChannelSchema)
    ensures
        r@ == channel_slack(),
{
    let mut fields: Vec<ChannelSchemaField> = Vec::new();
    fields.push(
        channel_field(
            "bot_token",
            "string",
            true,
            "Your Slack bot token (xoxb-...)",
            Some("xoxb-..."),
        ),
    );
    assert(channel_field_models(fields@) =~= channel_slack().fields);
    channel_schema("slack", "Slack", "Connect your Slack app", fields)
}

/// The schema of the channel `webhook`.
pub open spec fn channel_webhook() -> SchemaModel {
    schema_model(
        "webhook"@,
        "Webhook"@,
        "Receive messages via HTTP webhook"@,
        seq![
            field_model(
                "port"@,
                "number"@,
                true,
                "Port number for the webhook server"@,
                Some("8080"@),
            ),
        ],
    )
}

fn channel_schema_of_webhook() -> (r: ChannelSchema)
    ensures
        r@ == channel_webhook(),
{
    let mut fields: Vec<ChannelSchemaField> = Vec::new();
    fields.push(
        channel_field(
            "port",
            "number",
            true,
            "Port number for the webhook server",
            Some("8080"),
        ),
    );
    assert(channel_field_models(fields@) =~= channel_webhook().fields);
    channel_schema("webhook", "Webhook", "Receive messages via HTTP webhook", fields)
}

/// The schema of the channel `matrix`.
pub open spec fn channel_matrix() -> SchemaModel {
    schema_model(
        "matrix"@,
        "Matrix"@,
        "Connect to Matrix protocol"@,
        seq![
            field_model(
                "homeserver"@,
                "string"@,
                true,
                "Matrix homeserver URL"@,
                Some("https://matrix.org"@),
            ),
            field_model(
                "access_token"@,
                "string"@,
                true,
                "Your Matrix access token"@,
                Some("syt_..."@),
            ),
            field_model(
                "room_id"@,
                "string"@,
                true,
                "Room ID to join"@,
                Some("!room:matrix.org"@),
            ),
        ],
    )
}

fn channel_schema_of_matrix() -> (r: ChannelSchema)
    ensures
        r@ == channel_matrix(),
{
    let mut fields: Vec<ChannelSchemaField> = Vec::new();
    fields.push(
        channel_field(
            "homeserver",
            "string",
            true,
            "Matrix homeserver URL",
            Some("https://matrix.org"),
        ),
    );
    fields.push(
        channel_field(
            "access_token",
            "string",
            true,
            "Your Matrix access token",
            Some("syt_..."),
        ),
    );
    fields.push(
        channel_field(
            "room_id",
            "string",
            true,
            "Room ID to join",
            Some("!room:matrix.org"),
        ),
    );
    assert(channel_field_models(fields@) =~= channel_matrix().fields);
    channel_schema("matrix", "Matrix", "Connect to Matrix protocol", fields)
}

/// The schema of the channel `irc`.
pub open spec fn channel_irc() -> SchemaModel {
    schema_model(
        "irc"@,
        "IRC"@,
        "Connect to IRC servers"@,
        seq![
            field_model(
                "server"@,
                "string"@,
                true,
                "IRC server hostname"@,
                Some("irc.libera.chat"@),
            ),
            field_model(
                "nickname"@,
                "string"@,
                true,
                "Nickname to use"@,
                Some("ZeroClawBot"@),
            ),
        ],
    )
}

fn channel_schema_of_irc() -> (r: ChannelSchema)
    ensures
        r@ == channel_irc(),
{
    let mut fields: Vec<ChannelSchemaField> = Vec::new();
    fields.push(
        channel_field(
            "server",
            "string",
            true,
            "IRC server hostname",
            Some("irc.libera.chat"),
        ),
    );
    fields.push(
        channel_field(
            "nickname",
            "string",
            true,
            "Nickname to use",
            Some("ZeroClawBot"),
        ),
    );
    assert(channel_field_models(fields@) =~= channel_irc().fields);
    channel_schema("irc", "IRC", "Connect to IRC servers", fields)
}

/// The schemas of all channels, in the order in which they are offered.
pub open spec fn channel_table() -> Seq<SchemaModel> {
    seq![
        channel_cli(),
        channel_telegram(),
        channel_discord(),
        channel_slack(),
        channel_webhook(),
        channel_matrix(),
        channel_irc(),
    ]
}

/// Lists the schemas of all channels.
pub fn all_channel_schemas() -> (r: Vec<ChannelSchema>)
    ensures
        r@.len() == 7,
        channel_models(r@) == channel_table(),
{
    let mut schemas: Vec<ChannelSchema> = Vec::new();
    schemas.push(channel_schema_of_cli());
    schemas.push(channel_schema_of_telegram());
    schemas.push(channel_schema_of_discord());
    schemas.push(channel_schema_of_slack());
    schemas.push(channel_schema_of_webhook());
    schemas.push(channel_schema_of_matrix());
    schemas.push(channel_schema_of_irc());
    assert(channel_models(schemas@) =~= channel_table());
    schemas
}

} // verus!
