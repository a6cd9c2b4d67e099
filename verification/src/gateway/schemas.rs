//! What a schema of the dashboard says, and how the schema of a kind is
//! looked up.
use crate::gateway::api::{ChannelSchema, ChannelSchemaField, ProviderSchema, ProviderSchemaField};
use crate::gateway::channel_schemas::{all_channel_schemas, channel_table};
use crate::gateway::provider_schemas::{all_provider_schemas, provider_table};
use crate::text::{join, lowercased, str_eq, to_lowercase};
use vstd::prelude::*;

verus! {

/// One setting of a schema: its name, the type of its value, whether it
/// must be set, a hint for whoever sets it, and an example.
pub struct FieldModel {
    pub name: Seq<char>,
    pub field_type: Seq<char>,
    pub required: bool,
    pub hint: Seq<char>,
    pub example: Option<Seq<char>>,
}

/// A schema: the kind it is for, its name and description for people, and
/// its settings in the order in which they are asked.
pub struct SchemaModel {
    pub kind: Seq<char>,
    pub name: Seq<char>,
    pub description: Seq<char>,
    pub fields: Seq<FieldModel>,
}

pub open spec fn field_model(
    name: Seq<char>,
    field_type: Seq<char>,
    required: bool,
    hint: Seq<char>,
    example: Option<Seq<char>>,
) -> FieldModel {
    FieldModel { name, field_type, required, hint, example }
}

pub open spec fn schema_model(
    kind: Seq<char>,
    name: Seq<char>,
    description: Seq<char>,
    fields: Seq<FieldModel>,
) -> SchemaModel {
    SchemaModel { kind, name, description, fields }
}

/// The characters of an optional text.
pub open spec fn example_view(example: Option<String>) -> Option<Seq<char>> {
    match example {
        Some(e) => Some(e@),
        None => None,
    }
}

impl View for ProviderSchemaField {
    type V = FieldModel;

    open spec fn view(&self) -> FieldModel {
        FieldModel {
            name: self.name@,
            field_type: self.field_type@,
            required: self.required,
            hint: self.hint@,
            example: example_view(self.example),
        }
    }
}

impl View for ChannelSchemaField {
    type V = FieldModel;

    open spec fn view(&self) -> FieldModel {
        FieldModel {
            name: self.name@,
            field_type: self.field_type@,
            required: self.required,
            hint: self.hint@,
            example: example_view(self.example),
        }
    }
}

/// The settings of a provider schema, one for one.
pub open spec fn provider_field_models(fields: Seq<ProviderSchemaField>) -> Seq<FieldModel> {
    Seq::new(fields.len(), |i: int| fields[i]@)
}

/// The settings of a channel schema, one for one.
pub open spec fn channel_field_models(fields: Seq<ChannelSchemaField>) -> Seq<FieldModel> {
    Seq::new(fields.len(), |i: int| fields[i]@)
}

impl View for ProviderSchema {
    type V = SchemaModel;

    open spec fn view(&self) -> SchemaModel {
        SchemaModel {
            kind: self.provider_type@,
            name: self.name@,
            description: self.description@,
            fields: provider_field_models(self.fields@),
        }
    }
}

impl View for ChannelSchema {
    type V = SchemaModel;

    open spec fn view(&self) -> SchemaModel {
        SchemaModel {
            kind: self.channel_type@,
            name: self.name@,
            description: self.description@,
            fields: channel_field_models(self.fields@),
        }
    }
}

/// What provider schemas say, one for one.
pub open spec fn provider_models(schemas: Seq<ProviderSchema>) -> Seq<SchemaModel> {
    Seq::new(schemas.len(), |i: int| schemas[i]@)
}

/// What channel schemas say, one for one.
pub open spec fn channel_models(schemas: Seq<ChannelSchema>) -> Seq<SchemaModel> {
    Seq::new(schemas.len(), |i: int| schemas[i]@)
}

fn owned_example(example: Option<&str>) -> (r: Option<String>)
    ensures
        example_view(r) == match example {
            Some(e) => Some(e@),
            None => None,
        },
{
    match example {
        Some(e) => Some(e.to_owned()),
        None => None,
    }
}

/// A setting of a provider schema.
pub fn provider_field(
    name: &str,
    field_type: &str,
    required: bool,
    hint: &str,
    example: Option<&str>,
) -> (r: ProviderSchemaField)
    ensures
        r@ == field_model(
            name@,
            field_type@,
            required,
            hint@,
            match example {
                Some(e) => Some(e@),
                None => None,
            },
        ),
{
    ProviderSchemaField {
        name: name.to_owned(),
        field_type: field_type.to_owned(),
        required,
        hint: hint.to_owned(),
        example: owned_example(example),
    }
}

/// A setting of a channel schema.
pub fn channel_field(
    name: &str,
    field_type: &str,
    required: bool,
    hint: &str,
    example: Option<&str>,
) -> (r: ChannelSchemaField)
    ensures
        r@ == field_model(
            name@,
            field_type@,
            required,
            hint@,
            match example {
                Some(e) => Some(e@),
                None => None,
            },
        ),
{
    ChannelSchemaField {
        name: name.to_owned(),
        field_type: field_type.to_owned(),
        required,
        hint: hint.to_owned(),
        example: owned_example(example),
    }
}

/// The schema of a provider.
pub fn provider_schema(
    provider_type: &str,
    name: &str,
    description: &str,
    fields: Vec<ProviderSchemaField>,
) -> (r: ProviderSchema)
    ensures
        r@ == schema_model(provider_type@, name@, description@, provider_field_models(fields@)),
        r.fields == fields,
{
    ProviderSchema {
        provider_type: provider_type.to_owned(),
        name: name.to_owned(),
        description: description.to_owned(),
        fields,
    }
}

/// The schema of a channel.
pub fn channel_schema(
    channel_type: &str,
    name: &str,
    description: &str,
    fields: Vec<ChannelSchemaField>,
) -> (r: ChannelSchema)
    ensures
        r@ == schema_model(channel_type@, name@, description@, channel_field_models(fields@)),
        r.fields == fields,
{
    ChannelSchema {
        channel_type: channel_type.to_owned(),
        name: name.to_owned(),
        description: description.to_owned(),
        fields,
    }
}

/// The position of the first schema of a kind, from `from` on.
pub open spec fn schema_from(table: Seq<SchemaModel>, kind: Seq<char>, from: int) -> Option<int>
    decreases table.len() - from,
{
    if from < 0 || from >= table.len() {
        None
    } else if table[from].kind == kind {
        Some(from)
    } else {
        schema_from(table, kind, from + 1)
    }
}

/// The schema of a kind, if a table holds one.
pub open spec fn schema_of(table: Seq<SchemaModel>, kind: Seq<char>) -> Option<SchemaModel> {
    match schema_from(table, kind, 0) {
        Some(k) => Some(table[k]),
        None => None,
    }
}

/// Takes the schema of a kind out of a list of provider schemas.
pub fn take_provider_schema(schemas: Vec<ProviderSchema>, kind: &str) -> (r: Option<ProviderSchema>)
    ensures
        match r {
            Some(schema) => schema_of(provider_models(schemas@), kind@) == Some(schema@),
            None => schema_of(provider_models(schemas@), kind@) is None,
        },
{
    let mut rest = schemas;
    let ghost table = provider_models(schemas@);
    let mut i: usize = 0;
    while i < rest.len()
        invariant
            i <= rest.len(),
            rest@ == schemas@,
            table == provider_models(schemas@),
            schema_from(table, kind@, 0) == schema_from(table, kind@, i as int),
        decreases rest.len() - i,
    {
        if str_eq(rest[i].provider_type.as_str(), kind) {
            assert(table[i as int] == schemas@[i as int]@);
            return Some(rest.remove(i));
        }
        i += 1;
    }
    None
}

/// Takes the schema of a kind out of a list of channel schemas.
pub fn take_channel_schema(schemas: Vec<ChannelSchema>, kind: &str) -> (r: Option<ChannelSchema>)
    ensures
        match r {
            Some(schema) => schema_of(channel_models(schemas@), kind@) == Some(schema@),
            None => schema_of(channel_models(schemas@), kind@) is None,
        },
{
    let mut rest = schemas;
    let ghost table = channel_models(schemas@);
    let mut i: usize = 0;
    while i < rest.len()
        invariant
            i <= rest.len(),
            rest@ == schemas@,
            table == channel_models(schemas@),
            schema_from(table, kind@, 0) == schema_from(table, kind@, i as int),
        decreases rest.len() - i,
    {
        if str_eq(rest[i].channel_type.as_str(), kind) {
            assert(table[i as int] == schemas@[i as int]@);
            return Some(rest.remove(i));
        }
        i += 1;
    }
    None
}

/// What is said of a provider kind that has no schema.
pub fn unknown_provider(provider_type: &str) -> (r: String)
    ensures
        r@ == "Unknown provider type: "@ + provider_type@,
{
    join("Unknown provider type: ", provider_type)
}

/// What is said of a channel kind that has no schema.
pub fn unknown_channel(channel_type: &str) -> (r: String)
    ensures
        r@ == "Unknown channel type: "@ + channel_type@,
{
    join("Unknown channel type: ", channel_type)
}

/// Looks up the schema of a provider kind, whatever the case in which the
/// kind is written; where there is none, the answer says so of the kind as
/// it was written.
pub fn find_provider_schema(provider_type: &str) -> (r: Result<ProviderSchema, String>)
    ensures
        match r {
            Ok(schema) => schema_of(provider_table(), lowercased(provider_type@)) == Some(schema@),
            Err(message) => schema_of(provider_table(), lowercased(provider_type@)) is None
                && message@ == "Unknown provider type: "@ + provider_type@,
        },
{
    let kind = to_lowercase(provider_type);
    match take_provider_schema(all_provider_schemas(), kind.as_str()) {
        Some(schema) => Ok(schema),
        None => Err(unknown_provider(provider_type)),
    }
}

/// Looks up the schema of a channel kind, whatever the case in which the
/// kind is written; where there is none, the answer says so of the kind as
/// it was written.
pub fn find_channel_schema(channel_type: &str) -> (r: Result<ChannelSchema, String>)
    ensures
        match r {
            Ok(schema) => schema_of(channel_table(), lowercased(channel_type@)) == Some(schema@),
            Err(message) => schema_of(channel_table(), lowercased(channel_type@)) is None
                && message@ == "Unknown channel type: "@ + channel_type@,
        },
{
    let kind = to_lowercase(channel_type);
    match take_channel_schema(all_channel_schemas(), kind.as_str()) {
        Some(schema) => Ok(schema),
        None => Err(unknown_channel(channel_type)),
    }
}

} // verus!
