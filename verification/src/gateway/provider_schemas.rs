//! The providers that the dashboard can set up, and the settings that each
//! of them takes.
use crate::gateway::api::{ProviderSchema, ProviderSchemaField};
use crate::gateway::schemas::{
    field_model, schema_model, provider_field, provider_field_models, provider_models, provider_schema, SchemaModel,
};
use vstd::prelude::*;

verus! {

/// The schema of the provider `openai`.
pub open spec fn provider_openai() -> SchemaModel {
    schema_model(
        "openai"@,
        "OpenAI"@,
        "OpenAI API for GPT models"@,
        seq![
            field_model(
                "api_key"@,
                "string"@,
                true,
                "Your OpenAI API key from platform.openai.com"@,
                Some("sk-..."@),
            ),
            field_model(
                "api_url"@,
                "string"@,
                false,
                "Custom API endpoint (optional, defaults to https://api.openai.com/v1)"@,
                Some("https://api.openai.com/v1"@),
            ),
            field_model(
                "default_model"@,
                "string"@,
                false,
                "Default model to use (e.g., gpt-4o, gpt-4o-mini, o1)"@,
                Some("gpt-4o"@),
            ),
        ],
    )
}

fn provider_schema_of_openai() -> (r: ProviderSchema)
    ensures
        r@ == provider_openai(),
{
    let mut fields: Vec<ProviderSchemaField> = Vec::new();
    fields.push(
        provider_field(
            "api_key",
            "string",
            true,
            "Your OpenAI API key from platform.openai.com",
            Some("sk-..."),
        ),
    );
    fields.push(
        provider_field(
            "api_url",
            "string",
            false,
            "Custom API endpoint (optional, defaults to https://api.openai.com/v1)",
            Some("https://api.openai.com/v1"),
        ),
    );
    fields.push(
        provider_field(
            "default_model",
            "string",
            false,
            "Default model to use (e.g., gpt-4o, gpt-4o-mini, o1)",
            Some("gpt-4o"),
        ),
    );
    assert(provider_field_models(fields@) =~= provider_openai().fields);
    provider_schema("openai", "OpenAI", "OpenAI API for GPT models", fields)
}

/// The schema of the provider `anthropic`.
pub open spec fn provider_anthropic() -> SchemaModel {
    schema_model(
        "anthropic"@,
        "Anthropic"@,
        "Anthropic API"@,
        seq![
            field_model(
                "api_key"@,
                "string"@,
                true,
                "Your Anthropic API key from console.anthropic.com"@,
                Some("sk-ant-..."@),
            ),
            field_model(
                "api_url"@,
                "string"@,
                false,
                "Custom API endpoint (optional, defaults to https://api.anthropic.com)"@,
                Some("https://api.anthropic.com"@),
            ),
            field_model(
                "default_model"@,
                "string"@,
                false,
                "Default model to use"@,
                None,
            ),
        ],
    )
}

fn provider_schema_of_anthropic() -> (r: ProviderSchema)
    ensures
        r@ == provider_anthropic(),
{
    let mut fields: Vec<ProviderSchemaField> = Vec::new();
    fields.push(
        provider_field(
            "api_key",
            "string",
            true,
            "Your Anthropic API key from console.anthropic.com",
            Some("sk-ant-..."),
        ),
    );
    fields.push(
        provider_field(
            "api_url",
            "string",
            false,
            "Custom API endpoint (optional, defaults to https://api.anthropic.com)",
            Some("https://api.anthropic.com"),
        ),
    );
    fields.push(
        provider_field(
            "default_model",
            "string",
            false,
            "Default model to use",
            None,
        ),
    );
    assert(provider_field_models(fields@) =~= provider_anthropic().fields);
    provider_schema("anthropic", "Anthropic", "Anthropic API", fields)
}

/// The schema of the provider `google`.
pub open spec fn provider_google() -> SchemaModel {
    schema_model(
        "google"@,
        "Google"@,
        "Google Gemini API"@,
        seq![
            field_model(
                "api_key"@,
                "string"@,
                true,
                "Your Google AI API key from aistudio.google.com/app"@,
                Some("AIza..."@),
            ),
            field_model(
                "api_url"@,
                "string"@,
                false,
                "Custom API endpoint (optional)"@,
                None,
            ),
            field_model(
                "default_model"@,
                "string"@,
                false,
                "Default model to use (e.g., gemini-2.0-flash, gemini-1.5-pro)"@,
                Some("gemini-2.0-flash"@),
            ),
        ],
    )
}

fn provider_schema_of_google() -> (r: ProviderSchema)
    ensures
        r@ == provider_google(),
{
    let mut fields: Vec<ProviderSchemaField> = Vec::new();
    fields.push(
        provider_field(
            "api_key",
            "string",
            true,
            "Your Google AI API key from aistudio.google.com/app",
            Some("AIza..."),
        ),
    );
    fields.push(
        provider_field(
            "api_url",
            "string",
            false,
            "Custom API endpoint (optional)",
            None,
        ),
    );
    fields.push(
        provider_field(
            "default_model",
            "string",
            false,
            "Default model to use (e.g., gemini-2.0-flash, gemini-1.5-pro)",
            Some("gemini-2.0-flash"),
        ),
    );
    assert(provider_field_models(fields@) =~= provider_google().fields);
    provider_schema("google", "Google", "Google Gemini API", fields)
}

/// The schema of the provider `ollama`.
pub open spec fn provider_ollama() -> SchemaModel {
    schema_model(
        "ollama"@,
        "Ollama"@,
        "Local Ollama server"@,
        seq![
            field_model(
                "api_key"@,
                "string"@,
                false,
                "API key if Ollama is configured with authentication"@,
                None,
            ),
            field_model(
                "api_url"@,
                "string"@,
                false,
                "Ollama server URL (defaults to http://localhost:11434)"@,
                Some("http://localhost:11434"@),
            ),
            field_model(
                "default_model"@,
                "string"@,
                false,
                "Default model to use (e.g., llama3, mistral, codellama)"@,
                Some("llama3"@),
            ),
        ],
    )
}

fn provider_schema_of_ollama() -> (r: ProviderSchema)
    ensures
        r@ == provider_ollama(),
{
    let mut fields: Vec<ProviderSchemaField> = Vec::new();
    fields.push(
        provider_field(
            "api_key",
            "string",
            false,
            "API key if Ollama is configured with authentication",
            None,
        ),
    );
    fields.push(
        provider_field(
            "api_url",
            "string",
            false,
            "Ollama server URL (defaults to http://localhost:11434)",
            Some("http://localhost:11434"),
        ),
    );
    fields.push(
        provider_field(
            "default_model",
            "string",
            false,
            "Default model to use (e.g., llama3, mistral, codellama)",
            Some("llama3"),
        ),
    );
    assert(provider_field_models(fields@) =~= provider_ollama().fields);
    provider_schema("ollama", "Ollama", "Local Ollama server", fields)
}

/// The schema of the provider `openrouter`.
pub open spec fn provider_openrouter() -> SchemaModel {
    schema_model(
        "openrouter"@,
        "OpenRouter"@,
        "Unified API for 200+ LLMs"@,
        seq![
            field_model(
                "api_key"@,
                "string"@,
                true,
                "Your OpenRouter API key from openrouter.ai"@,
                Some("sk-or-..."@),
            ),
            field_model(
                "api_url"@,
                "string"@,
                false,
                "Custom API endpoint (optional, defaults to https://openrouter.ai/api/v1)"@,
                Some("https://openrouter.ai/api/v1"@),
            ),
            field_model(
                "default_model"@,
                "string"@,
                false,
                "Default model to use (e.g., openai/gpt-4o)"@,
                None,
            ),
        ],
    )
}

fn provider_schema_of_openrouter() -> (r: ProviderSchema)
    ensures
        r@ == provider_openrouter(),
{
    let mut fields: Vec<ProviderSchemaField> = Vec::new();
    fields.push(
        provider_field(
            "api_key",
            "string",
            true,
            "Your OpenRouter API key from openrouter.ai",
            Some("sk-or-..."),
        ),
    );
    fields.push(
        provider_field(
            "api_url",
            "string",
            false,
            "Custom API endpoint (optional, defaults to https://openrouter.ai/api/v1)",
            Some("https://openrouter.ai/api/v1"),
        ),
    );
    fields.push(
        provider_field(
            "default_model",
            "string",
            false,
            "Default model to use (e.g., openai/gpt-4o)",
            None,
        ),
    );
    assert(provider_field_models(fields@) =~= provider_openrouter().fields);
    provider_schema("openrouter", "OpenRouter", "Unified API for 200+ LLMs", fields)
}

/// The schema of the provider `groq`.
pub open spec fn provider_groq() -> SchemaModel {
    schema_model(
        "groq"@,
        "Groq"@,
        "Fast inference for open and proprietary models"@,
        seq![
            field_model(
                "api_key"@,
                "string"@,
                true,
                "Your Groq API key from console.groq.com"@,
                Some("gsk_..."@),
            ),
            field_model(
                "api_url"@,
                "string"@,
                false,
                "Custom API endpoint (optional, defaults to https://api.groq.com/openai)"@,
                Some("https://api.groq.com/openai"@),
            ),
            field_model(
                "default_model"@,
                "string"@,
                false,
                "Default model to use (e.g., llama-3.1-70b-versatile, mixtral-8x7b-32768)"@,
                Some("llama-3.1-70b-versatile"@),
            ),
        ],
    )
}

fn provider_schema_of_groq() -> (r: ProviderSchema)
    ensures
        r@ == provider_groq(),
{
    let mut fields: Vec<ProviderSchemaField> = Vec::new();
    fields.push(
        provider_field(
            "api_key",
            "string",
            true,
            "Your Groq API key from console.groq.com",
            Some("gsk_..."),
        ),
    );
    fields.push(
        provider_field(
            "api_url",
            "string",
            false,
            "Custom API endpoint (optional, defaults to https://api.groq.com/openai)",
            Some("https://api.groq.com/openai"),
        ),
    );
    fields.push(
        provider_field(
            "default_model",
            "string",
            false,
            "Default model to use (e.g., llama-3.1-70b-versatile, mixtral-8x7b-32768)",
            Some("llama-3.1-70b-versatile"),
        ),
    );
    assert(provider_field_models(fields@) =~= provider_groq().fields);
    provider_schema("groq", "Groq", "Fast inference for open and proprietary models", fields)
}

/// The schema of the provider `mistral`.
pub open spec fn provider_mistral() -> SchemaModel {
    schema_model(
        "mistral"@,
        "Mistral"@,
        "Mistral AI API"@,
        seq![
            field_model(
                "api_key"@,
                "string"@,
                true,
                "Your Mistral API key from console.mistral.ai"@,
                Some("p-..."@),
            ),
            field_model(
                "api_url"@,
                "string"@,
                false,
                "Custom API endpoint (optional, defaults to https://api.mistral.ai/v1)"@,
                Some("https://api.mistral.ai/v1"@),
            ),
            field_model(
                "default_model"@,
                "string"@,
                false,
                "Default model to use (e.g., mistral-large-latest, pixtral-large-latest)"@,
                Some("mistral-large-latest"@),
            ),
        ],
    )
}

fn provider_schema_of_mistral() -> (r: ProviderSchema)
    ensures
        r@ == provider_mistral(),
{
    let mut fields: Vec<ProviderSchemaField> = Vec::new();
    fields.push(
        provider_field(
            "api_key",
            "string",
            true,
            "Your Mistral API key from console.mistral.ai",
            Some("p-..."),
        ),
    );
    fields.push(
        provider_field(
            "api_url",
            "string",
            false,
            "Custom API endpoint (optional, defaults to https://api.mistral.ai/v1)",
            Some("https://api.mistral.ai/v1"),
        ),
    );
    fields.push(
        provider_field(
            "default_model",
            "string",
            false,
            "Default model to use (e.g., mistral-large-latest, pixtral-large-latest)",
            Some("mistral-large-latest"),
        ),
    );
    assert(provider_field_models(fields@) =~= provider_mistral().fields);
    provider_schema("mistral", "Mistral", "Mistral AI API", fields)
}

/// The schema of the provider `deepseek`.
pub open spec fn provider_deepseek() -> SchemaModel {
    schema_model(
        "deepseek"@,
        "DeepSeek"@,
        "DeepSeek API for coding and reasoning models"@,
        seq![
            field_model(
                "api_key"@,
                "string"@,
                true,
                "Your DeepSeek API key from platform.deepseek.com"@,
                Some("sk-..."@),
            ),
            field_model(
                "api_url"@,
                "string"@,
                false,
                "Custom API endpoint (optional, defaults to https://api.deepseek.com)"@,
                Some("https://api.deepseek.com"@),
            ),
            field_model(
                "default_model"@,
                "string"@,
                false,
                "Default model to use (e.g., deepseek-chat, deepseek-coder)"@,
                Some("deepseek-chat"@),
            ),
        ],
    )
}

fn provider_schema_of_deepseek() -> (r: ProviderSchema)
    ensures
        r@ == provider_deepseek(),
{
    let mut fields: Vec<ProviderSchemaField> = Vec::new();
    fields.push(
        provider_field(
            "api_key",
            "string",
            true,
            "Your DeepSeek API key from platform.deepseek.com",
            Some("sk-..."),
        ),
    );
    fields.push(
        provider_field(
            "api_url",
            "string",
            false,
            "Custom API endpoint (optional, defaults to https://api.deepseek.com)",
            Some("https://api.deepseek.com"),
        ),
    );
    fields.push(
        provider_field(
            "default_model",
            "string",
            false,
            "Default model to use (e.g., deepseek-chat, deepseek-coder)",
            Some("deepseek-chat"),
        ),
    );
    assert(provider_field_models(fields@) =~= provider_deepseek().fields);
    provider_schema("deepseek", "DeepSeek", "DeepSeek API for coding and reasoning models", fields)
}

/// The schema of the provider `xai`.
pub open spec fn provider_xai() -> SchemaModel {
    schema_model(
        "xai"@,
        "xAI"@,
        "xAI Grok API"@,
        seq![
            field_model(
                "api_key"@,
                "string"@,
                true,
                "Your xAI API key from console.x.ai"@,
                Some("xai-..."@),
            ),
            field_model(
                "api_url"@,
                "string"@,
                false,
                "Custom API endpoint (optional, defaults to https://api.x.ai)"@,
                Some("https://api.x.ai"@),
            ),
            field_model(
                "default_model"@,
                "string"@,
                false,
                "Default model to use (e.g., grok-2-1212, grok-2-vision-1212)"@,
                Some("grok-2-1212"@),
            ),
        ],
    )
}

fn provider_schema_of_xai() -> (r: ProviderSchema)
    ensures
        r@ == provider_xai(),
{
    let mut fields: Vec<ProviderSchemaField> = Vec::new();
    fields.push(
        provider_field(
            "api_key",
            "string",
            true,
            "Your xAI API key from console.x.ai",
            Some("xai-..."),
        ),
    );
    fields.push(
        provider_field(
            "api_url",
            "string",
            false,
            "Custom API endpoint (optional, defaults to https://api.x.ai)",
            Some("https://api.x.ai"),
        ),
    );
    fields.push(
        provider_field(
            "default_model",
            "string",
            false,
            "Default model to use (e.g., grok-2-1212, grok-2-vision-1212)",
            Some("grok-2-1212"),
        ),
    );
    assert(provider_field_models(fields@) =~= provider_xai().fields);
    provider_schema("xai", "xAI", "xAI Grok API", fields)
}

/// The schema of the provider `together-ai`.
pub open spec fn provider_together_ai() -> SchemaModel {
    schema_model(
        "together-ai"@,
        "Together AI"@,
        "Managed inference for open models"@,
        seq![
            field_model(
                "api_key"@,
                "string"@,
                true,
                "Your Together AI API key from api.together.xyz"@,
                Some("..."@),
            ),
            field_model(
                "api_url"@,
                "string"@,
                false,
                "Custom API endpoint (optional, defaults to https://api.together.xyz)"@,
                Some("https://api.together.xyz"@),
            ),
            field_model(
                "default_model"@,
                "string"@,
                false,
                "Default model to use (e.g., meta-llama/Llama-3.1-70B-Instruct)"@,
                Some("meta-llama/Llama-3.1-70B-Instruct"@),
            ),
        ],
    )
}

fn provider_schema_of_together_ai() -> (r: ProviderSchema)
    ensures
        r@ == provider_together_ai(),
{
    let mut fields: Vec<ProviderSchemaField> = Vec::new();
    fields.push(
        provider_field(
            "api_key",
            "string",
            true,
            "Your Together AI API key from api.together.xyz",
            Some("..."),
        ),
    );
    fields.push(
        provider_field(
            "api_url",
            "string",
            false,
            "Custom API endpoint (optional, defaults to https://api.together.xyz)",
            Some("https://api.together.xyz"),
        ),
    );
    fields.push(
        provider_field(
            "default_model",
            "string",
            false,
            "Default model to use (e.g., meta-llama/Llama-3.1-70B-Instruct)",
            Some("meta-llama/Llama-3.1-70B-Instruct"),
        ),
    );
    assert(provider_field_models(fields@) =~= provider_together_ai().fields);
    provider_schema("together-ai", "Together AI", "Managed inference for open models", fields)
}

/// The schema of the provider `fireworks`.
pub open spec fn provider_fireworks() -> SchemaModel {
    schema_model(
        "fireworks"@,
        "Fireworks AI"@,
        "Fast inference for open and custom models"@,
        seq![
            field_model(
                "api_key"@,
                "string"@,
                true,
                "Your Fireworks AI API key from fireworks.ai"@,
                Some("fw_..."@),
            ),
            field_model(
                "api_url"@,
                "string"@,
                false,
                "Custom API endpoint (optional, defaults to https://api.fireworks.ai/inference/v1)"@,
                Some("https://api.fireworks.ai/inference/v1"@),
            ),
            field_model(
                "default_model"@,
                "string"@,
                false,
                "Default model to use (e.g., accounts/fireworks/models/llama-v3-70b-instruct)"@,
                Some("accounts/fireworks/models/llama-v3-70b-instruct"@),
            ),
        ],
    )
}

fn provider_schema_of_fireworks() -> (r: ProviderSchema)
    ensures
        r@ == provider_fireworks(),
{
    let mut fields: Vec<ProviderSchemaField> = Vec::new();
    fields.push(
        provider_field(
            "api_key",
            "string",
            true,
            "Your Fireworks AI API key from fireworks.ai",
            Some("fw_..."),
        ),
    );
    fields.push(
        provider_field(
            "api_url",
            "string",
            false,
            "Custom API endpoint (optional, defaults to https://api.fireworks.ai/inference/v1)",
            Some("https://api.fireworks.ai/inference/v1"),
        ),
    );
    fields.push(
        provider_field(
            "default_model",
            "string",
            false,
            "Default model to use (e.g., accounts/fireworks/models/llama-v3-70b-instruct)",
            Some("accounts/fireworks/models/llama-v3-70b-instruct"),
        ),
    );
    assert(provider_field_models(fields@) =~= provider_fireworks().fields);
    provider_schema("fireworks", "Fireworks AI", "Fast inference for open and custom models", fields)
}

/// The schema of the provider `perplexity`.
pub open spec fn provider_perplexity() -> SchemaModel {
    schema_model(
        "perplexity"@,
        "Perplexity"@,
        "AI-powered search and answering"@,
        seq![
            field_model(
                "api_key"@,
                "string"@,
                true,
                "Your Perplexity API key from perplexity.ai"@,
                Some("pplx-..."@),
            ),
            field_model(
                "api_url"@,
                "string"@,
                false,
                "Custom API endpoint (optional, defaults to https://api.perplexity.ai)"@,
                Some("https://api.perplexity.ai"@),
            ),
            field_model(
                "default_model"@,
                "string"@,
                false,
                "Default model to use (e.g., llama-3.1-sonar-large-128k-online)"@,
                Some("llama-3.1-sonar-large-128k-online"@),
            ),
        ],
    )
}

fn provider_schema_of_perplexity() -> (r: ProviderSchema)
    ensures
        r@ == provider_perplexity(),
{
    let mut fields: Vec<ProviderSchemaField> = Vec::new();
    fields.push(
        provider_field(
            "api_key",
            "string",
            true,
            "Your Perplexity API key from perplexity.ai",
            Some("pplx-..."),
        ),
    );
    fields.push(
        provider_field(
            "api_url",
            "string",
            false,
            "Custom API endpoint (optional, defaults to https://api.perplexity.ai)",
            Some("https://api.perplexity.ai"),
        ),
    );
    fields.push(
        provider_field(
            "default_model",
            "string",
            false,
            "Default model to use (e.g., llama-3.1-sonar-large-128k-online)",
            Some("llama-3.1-sonar-large-128k-online"),
        ),
    );
    assert(provider_field_models(fields@) =~= provider_perplexity().fields);
    provider_schema("perplexity", "Perplexity", "AI-powered search and answering", fields)
}

/// The schema of the provider `cohere`.
pub open spec fn provider_cohere() -> SchemaModel {
    schema_model(
        "cohere"@,
        "Cohere"@,
        "Cohere API for command and embed models"@,
        seq![
            field_model(
                "api_key"@,
                "string"@,
                true,
                "Your Cohere API key from dashboard.cohere.com"@,
                Some("..."@),
            ),
            field_model(
                "api_url"@,
                "string"@,
                false,
                "Custom API endpoint (optional, defaults to https://api.cohere.com/compatibility)"@,
                Some("https://api.cohere.com/compatibility"@),
            ),
            field_model(
                "default_model"@,
                "string"@,
                false,
                "Default model to use (e.g., command-r-plus, command-r)"@,
                Some("command-r-plus"@),
            ),
        ],
    )
}

fn provider_schema_of_cohere() -> (r: ProviderSchema)
    ensures
        r@ == provider_cohere(),
{
    let mut fields: Vec<ProviderSchemaField> = Vec::new();
    fields.push(
        provider_field(
            "api_key",
            "string",
            true,
            "Your Cohere API key from dashboard.cohere.com",
            Some("..."),
        ),
    );
    fields.push(
        provider_field(
            "api_url",
            "string",
            false,
            "Custom API endpoint (optional, defaults to https://api.cohere.com/compatibility)",
            Some("https://api.cohere.com/compatibility"),
        ),
    );
    fields.push(
        provider_field(
            "default_model",
            "string",
            false,
            "Default model to use (e.g., command-r-plus, command-r)",
            Some("command-r-plus"),
        ),
    );
    assert(provider_field_models(fields@) =~= provider_cohere().fields);
    provider_schema("cohere", "Cohere", "Cohere API for command and embed models", fields)
}

/// The schema of the provider `qwen`.
pub open spec fn provider_qwen() -> SchemaModel {
    schema_model(
        "qwen"@,
        "Qwen"@,
        "Alibaba Qwen models via DashScope"@,
        seq![
            field_model(
                "api_key"@,
                "string"@,
                true,
                "Your Qwen/DashScope API key from dashscope.console.aliyun.com"@,
                Some("sk-..."@),
            ),
            field_model(
                "api_url"@,
                "string"@,
                false,
                "Custom API endpoint (optional, defaults to regional endpoint)"@,
                Some("https://dashscope.aliyuncs.com/compatible-mode/v1"@),
            ),
            field_model(
                "default_model"@,
                "string"@,
                false,
                "Default model to use (e.g., qwen-turbo, qwen-plus, qwen-max)"@,
                Some("qwen-turbo"@),
            ),
        ],
    )
}

fn provider_schema_of_qwen() -> (r: ProviderSchema)
    ensures
        r@ == provider_qwen(),
{
    let mut fields: Vec<ProviderSchemaField> = Vec::new();
    fields.push(
        provider_field(
            "api_key",
            "string",
            true,
            "Your Qwen/DashScope API key from dashscope.console.aliyun.com",
            Some("sk-..."),
        ),
    );
    fields.push(
        provider_field(
            "api_url",
            "string",
            false,
            "Custom API endpoint (optional, defaults to regional endpoint)",
            Some("https://dashscope.aliyuncs.com/compatible-mode/v1"),
        ),
    );
    fields.push(
        provider_field(
            "default_model",
            "string",
            false,
            "Default model to use (e.g., qwen-turbo, qwen-plus, qwen-max)",
            Some("qwen-turbo"),
        ),
    );
    assert(provider_field_models(fields@) =~= provider_qwen().fields);
    provider_schema("qwen", "Qwen", "Alibaba Qwen models via DashScope", fields)
}

/// The schema of the provider `glm`.
pub open spec fn provider_glm() -> SchemaModel {
    schema_model(
        "glm"@,
        "GLM"@,
        "Zhipu/GLM models via bigmodel.cn"@,
        seq![
            field_model(
                "api_key"@,
                "string"@,
                true,
                "Your Zhipu/GLM API key from open.bigmodel.cn"@,
                Some("..."@),
            ),
            field_model(
                "api_url"@,
                "string"@,
                false,
                "Custom API endpoint (optional, defaults to regional endpoint)"@,
                Some("https://open.bigmodel.cn/api/paas/v4"@),
            ),
            field_model(
                "default_model"@,
                "string"@,
                false,
                "Default model to use (e.g., glm-4, glm-4-flash)"@,
                Some("glm-4-flash"@),
            ),
        ],
    )
}

fn provider_schema_of_glm() -> (r: ProviderSchema)
    ensures
        r@ == provider_glm(),
{
    let mut fields: Vec<ProviderSchemaField> = Vec::new();
    fields.push(
        provider_field(
            "api_key",
            "string",
            true,
            "Your Zhipu/GLM API key from open.bigmodel.cn",
            Some("..."),
        ),
    );
    fields.push(
        provider_field(
            "api_url",
            "string",
            false,
            "Custom API endpoint (optional, defaults to regional endpoint)",
            Some("https://open.bigmodel.cn/api/paas/v4"),
        ),
    );
    fields.push(
        provider_field(
            "default_model",
            "string",
            false,
            "Default model to use (e.g., glm-4, glm-4-flash)",
            Some("glm-4-flash"),
        ),
    );
    assert(provider_field_models(fields@) =~= provider_glm().fields);
    provider_schema("glm", "GLM", "Zhipu/GLM models via bigmodel.cn", fields)
}

/// The schema of the provider `moonshot`.
pub open spec fn provider_moonshot() -> SchemaModel {
    schema_model(
        "moonshot"@,
        "Moonshot"@,
        "Moonshot Kimi API"@,
        seq![
            field_model(
                "api_key"@,
                "string"@,
                true,
                "Your Moonshot/Kimi API key from platform.moonshot.ai"@,
                Some("..."@),
            ),
            field_model(
                "api_url"@,
                "string"@,
                false,
                "Custom API endpoint (optional, defaults to regional endpoint)"@,
                Some("https://api.moonshot.ai/v1"@),
            ),
            field_model(
                "default_model"@,
                "string"@,
                false,
                "Default model to use (e.g., moonshot-v1-8k, moonshot-v1-128k)"@,
                Some("moonshot-v1-8k"@),
            ),
        ],
    )
}

fn provider_schema_of_moonshot() -> (r: ProviderSchema)
    ensures
        r@ == provider_moonshot(),
{
    let mut fields: Vec<ProviderSchemaField> = Vec::new();
    fields.push(
        provider_field(
            "api_key",
            "string",
            true,
            "Your Moonshot/Kimi API key from platform.moonshot.ai",
            Some("..."),
        ),
    );
    fields.push(
        provider_field(
            "api_url",
            "string",
            false,
            "Custom API endpoint (optional, defaults to regional endpoint)",
            Some("https://api.moonshot.ai/v1"),
        ),
    );
    fields.push(
        provider_field(
            "default_model",
            "string",
            false,
            "Default model to use (e.g., moonshot-v1-8k, moonshot-v1-128k)",
            Some("moonshot-v1-8k"),
        ),
    );
    assert(provider_field_models(fields@) =~= provider_moonshot().fields);
    provider_schema("moonshot", "Moonshot", "Moonshot Kimi API", fields)
}

/// The schema of the provider `minimax`.
pub open spec fn provider_minimax() -> SchemaModel {
    schema_model(
        "minimax"@,
        "MiniMax"@,
        "MiniMax API"@,
        seq![
            field_model(
                "api_key"@,
                "string"@,
                true,
                "Your MiniMax API key from platform.minimax.io"@,
                Some("..."@),
            ),
            field_model(
                "api_url"@,
                "string"@,
                false,
                "Custom API endpoint (optional, defaults to regional endpoint)"@,
                Some("https://api.minimax.io/v1"@),
            ),
            field_model(
                "default_model"@,
                "string"@,
                false,
                "Default model to use (e.g., MiniMax-M2.1, MiniMax-M2.5)"@,
                Some("MiniMax-M2.1"@),
            ),
        ],
    )
}

fn provider_schema_of_minimax() -> (r: ProviderSchema)
    ensures
        r@ == provider_minimax(),
{
    let mut fields: Vec<ProviderSchemaField> = Vec::new();
    fields.push(
        provider_field(
            "api_key",
            "string",
            true,
            "Your MiniMax API key from platform.minimax.io",
            Some("..."),
        ),
    );
    fields.push(
        provider_field(
            "api_url",
            "string",
            false,
            "Custom API endpoint (optional, defaults to regional endpoint)",
            Some("https://api.minimax.io/v1"),
        ),
    );
    fields.push(
        provider_field(
            "default_model",
            "string",
            false,
            "Default model to use (e.g., MiniMax-M2.1, MiniMax-M2.5)",
            Some("MiniMax-M2.1"),
        ),
    );
    assert(provider_field_models(fields@) =~= provider_minimax().fields);
    provider_schema("minimax", "MiniMax", "MiniMax API", fields)
}

/// The schema of the provider `bedrock`.
pub open spec fn provider_bedrock() -> SchemaModel {
    schema_model(
        "bedrock"@,
        "AWS Bedrock"@,
        "Amazon Bedrock managed models"@,
        seq![
            field_model(
                "api_key"@,
                "string"@,
                false,
                "AWS credentials (access key) - typically uses AWS credentials chain instead"@,
                None,
            ),
            field_model(
                "api_url"@,
                "string"@,
                false,
                "Custom API endpoint (optional)"@,
                None,
            ),
            field_model(
                "default_model"@,
                "string"@,
                false,
                "Default model to use"@,
                None,
            ),
        ],
    )
}

fn provider_schema_of_bedrock() -> (r: ProviderSchema)
    ensures
        r@ == provider_bedrock(),
{
    let mut fields: Vec<ProviderSchemaField> = Vec::new();
    fields.push(
        provider_field(
            "api_key",
            "string",
            false,
            "AWS credentials (access key) - typically uses AWS credentials chain instead",
            None,
        ),
    );
    fields.push(
        provider_field(
            "api_url",
            "string",
            false,
            "Custom API endpoint (optional)",
            None,
        ),
    );
    fields.push(
        provider_field(
            "default_model",
            "string",
            false,
            "Default model to use",
            None,
        ),
    );
    assert(provider_field_models(fields@) =~= provider_bedrock().fields);
    provider_schema("bedrock", "AWS Bedrock", "Amazon Bedrock managed models", fields)
}

/// The schema of the provider `telnyx`.
pub open spec fn provider_telnyx() -> SchemaModel {
    schema_model(
        "telnyx"@,
        "Telnyx"@,
        "Telnyx AI API"@,
        seq![
            field_model(
                "api_key"@,
                "string"@,
                true,
                "Your Telnyx API key from portal.telnyx.com"@,
                Some("KEY..."@),
            ),
            field_model(
                "api_url"@,
                "string"@,
                false,
                "Custom API endpoint (optional)"@,
                None,
            ),
            field_model(
                "default_model"@,
                "string"@,
                false,
                "Default model to use"@,
                None,
            ),
        ],
    )
}

fn provider_schema_of_telnyx() -> (r: ProviderSchema)
    ensures
        r@ == provider_telnyx(),
{
    let mut fields: Vec<ProviderSchemaField> = Vec::new();
    fields.push(
        provider_field(
            "api_key",
            "string",
            true,
            "Your Telnyx API key from portal.telnyx.com",
            Some("KEY..."),
        ),
    );
    fields.push(
        provider_field(
            "api_url",
            "string",
            false,
            "Custom API endpoint (optional)",
            None,
        ),
    );
    fields.push(
        provider_field(
            "default_model",
            "string",
            false,
            "Default model to use",
            None,
        ),
    );
    assert(provider_field_models(fields@) =~= provider_telnyx().fields);
    provider_schema("telnyx", "Telnyx", "Telnyx AI API", fields)
}

/// The schema of the provider `copilot`.
pub open spec fn provider_copilot() -> SchemaModel {
    schema_model(
        "copilot"@,
        "GitHub Copilot"@,
        "GitHub Copilot for CLI"@,
        seq![
            field_model(
                "api_key"@,
                "string"@,
                true,
                "Your GitHub Copilot token from github.com/settings/tokens"@,
                Some("ghp_..."@),
            ),
            field_model(
                "api_url"@,
                "string"@,
                false,
                "Custom API endpoint (optional)"@,
                None,
            ),
            field_model(
                "default_model"@,
                "string"@,
                false,
                "Default model to use"@,
                None,
            ),
        ],
    )
}

fn provider_schema_of_copilot() -> (r: ProviderSchema)
    ensures
        r@ == provider_copilot(),
{
    let mut fields: Vec<ProviderSchemaField> = Vec::new();
    fields.push(
        provider_field(
            "api_key",
            "string",
            true,
            "Your GitHub Copilot token from github.com/settings/tokens",
            Some("ghp_..."),
        ),
    );
    fields.push(
        provider_field(
            "api_url",
            "string",
            false,
            "Custom API endpoint (optional)",
            None,
        ),
    );
    fields.push(
        provider_field(
            "default_model",
            "string",
            false,
            "Default model to use",
            None,
        ),
    );
    assert(provider_field_models(fields@) =~= provider_copilot().fields);
    provider_schema("copilot", "GitHub Copilot", "GitHub Copilot for CLI", fields)
}

/// The schema of the provider `nvidia`.
pub open spec fn provider_nvidia() -> SchemaModel {
    schema_model(
        "nvidia"@,
        "NVIDIA NIM"@,
        "NVIDIA NIM inference endpoints"@,
        seq![
            field_model(
                "api_key"@,
                "string"@,
                true,
                "Your NVIDIA API key from build.nvidia.com"@,
                Some("nvapi-..."@),
            ),
            field_model(
                "api_url"@,
                "string"@,
                false,
                "Custom API endpoint (optional, defaults to https://integrate.api.nvidia.com/v1)"@,
                Some("https://integrate.api.nvidia.com/v1"@),
            ),
            field_model(
                "default_model"@,
                "string"@,
                false,
                "Default model to use (e.g., meta/llama-3.1-70b-instruct)"@,
                Some("meta/llama-3.1-70b-instruct"@),
            ),
        ],
    )
}

fn provider_schema_of_nvidia() -> (r: ProviderSchema)
    ensures
        r@ == provider_nvidia(),
{
    let mut fields: Vec<ProviderSchemaField> = Vec::new();
    fields.push(
        provider_field(
            "api_key",
            "string",
            true,
            "Your NVIDIA API key from build.nvidia.com",
            Some("nvapi-..."),
        ),
    );
    fields.push(
        provider_field(
            "api_url",
            "string",
            false,
            "Custom API endpoint (optional, defaults to https://integrate.api.nvidia.com/v1)",
            Some("https://integrate.api.nvidia.com/v1"),
        ),
    );
    fields.push(
        provider_field(
            "default_model",
            "string",
            false,
            "Default model to use (e.g., meta/llama-3.1-70b-instruct)",
            Some("meta/llama-3.1-70b-instruct"),
        ),
    );
    assert(provider_field_models(fields@) =~= provider_nvidia().fields);
    provider_schema("nvidia", "NVIDIA NIM", "NVIDIA NIM inference endpoints", fields)
}

/// The schema of the provider `phi4`.
pub open spec fn provider_phi4() -> SchemaModel {
    schema_model(
        "phi4"@,
        "Phi-4"@,
        "Microsoft Phi-4 via Azure AI Foundry"@,
        seq![
            field_model(
                "api_key"@,
                "string"@,
                true,
                "Your Azure AI Foundry API key"@,
                Some("..."@),
            ),
            field_model(
                "api_url"@,
                "string"@,
                false,
                "Azure endpoint URL (e.g., https://<resource>.services.ai.azure.com)"@,
                Some("https://example.services.ai.azure.com"@),
            ),
            field_model(
                "default_model"@,
                "string"@,
                false,
                "Default model to use"@,
                Some("phi-4"@),
            ),
        ],
    )
}

fn provider_schema_of_phi4() -> (r: ProviderSchema)
    ensures
        r@ == provider_phi4(),
{
    let mut fields: Vec<ProviderSchemaField> = Vec::new();
    fields.push(
        provider_field(
            "api_key",
            "string",
            true,
            "Your Azure AI Foundry API key",
            Some("..."),
        ),
    );
    fields.push(
        provider_field(
            "api_url",
            "string",
            false,
            "Azure endpoint URL (e.g., https://<resource>.services.ai.azure.com)",
            Some("https://example.services.ai.azure.com"),
        ),
    );
    fields.push(
        provider_field(
            "default_model",
            "string",
            false,
            "Default model to use",
            Some("phi-4"),
        ),
    );
    assert(provider_field_models(fields@) =~= provider_phi4().fields);
    provider_schema("phi4", "Phi-4", "Microsoft Phi-4 via Azure AI Foundry", fields)
}

/// The schema of the provider `lmstudio`.
pub open spec fn provider_lmstudio() -> SchemaModel {
    schema_model(
        "lmstudio"@,
        "LM Studio"@,
        "Local LM Studio server"@,
        seq![
            field_model(
                "api_key"@,
                "string"@,
                false,
                "API key if LM Studio is configured with authentication (defaults to lm-studio)"@,
                Some("lm-studio"@),
            ),
            field_model(
                "api_url"@,
                "string"@,
                false,
                "LM Studio server URL (defaults to http://localhost:1234/v1)"@,
                Some("http://localhost:1234/v1"@),
            ),
            field_model(
                "default_model"@,
                "string"@,
                false,
                "Default model to use"@,
                None,
            ),
        ],
    )
}

fn provider_schema_of_lmstudio() -> (r: ProviderSchema)
    ensures
        r@ == provider_lmstudio(),
{
    let mut fields: Vec<ProviderSchemaField> = Vec::new();
    fields.push(
        provider_field(
            "api_key",
            "string",
            false,
            "API key if LM Studio is configured with authentication (defaults to lm-studio)",
            Some("lm-studio"),
        ),
    );
    fields.push(
        provider_field(
            "api_url",
            "string",
            false,
            "LM Studio server URL (defaults to http://localhost:1234/v1)",
            Some("http://localhost:1234/v1"),
        ),
    );
    fields.push(
        provider_field(
            "default_model",
            "string",
            false,
            "Default model to use",
            None,
        ),
    );
    assert(provider_field_models(fields@) =~= provider_lmstudio().fields);
    provider_schema("lmstudio", "LM Studio", "Local LM Studio server", fields)
}

/// The schema of the provider `llamacpp`.
pub open spec fn provider_llamacpp() -> SchemaModel {
    schema_model(
        "llamacpp"@,
        "llama.cpp"@,
        "Local llama.cpp server"@,
        seq![
            field_model(
                "api_key"@,
                "string"@,
                false,
                "API key if server requires authentication (defaults to llama.cpp)"@,
                Some("llama.cpp"@),
            ),
            field_model(
                "api_url"@,
                "string"@,
                false,
                "llama.cpp server URL (defaults to http://localhost:8080/v1)"@,
                Some("http://localhost:8080/v1"@),
            ),
            field_model(
                "default_model"@,
                "string"@,
                false,
                "Default model to use"@,
                None,
            ),
        ],
    )
}

fn provider_schema_of_llamacpp() -> (r: ProviderSchema)
    ensures
        r@ == provider_llamacpp(),
{
    let mut fields: Vec<ProviderSchemaField> = Vec::new();
    fields.push(
        provider_field(
            "api_key",
            "string",
            false,
            "API key if server requires authentication (defaults to llama.cpp)",
            Some("llama.cpp"),
        ),
    );
    fields.push(
        provider_field(
            "api_url",
            "string",
            false,
            "llama.cpp server URL (defaults to http://localhost:8080/v1)",
            Some("http://localhost:8080/v1"),
        ),
    );
    fields.push(
        provider_field(
            "default_model",
            "string",
            false,
            "Default model to use",
            None,
        ),
    );
    assert(provider_field_models(fields@) =~= provider_llamacpp().fields);
    provider_schema("llamacpp", "llama.cpp", "Local llama.cpp server", fields)
}

/// The schema of the provider `sglang`.
pub open spec fn provider_sglang() -> SchemaModel {
    schema_model(
        "sglang"@,
        "SGLang"@,
        "Local SGLang server"@,
        seq![
            field_model(
                "api_key"@,
                "string"@,
                false,
                "API key if server requires authentication"@,
                None,
            ),
            field_model(
                "api_url"@,
                "string"@,
                false,
                "SGLang server URL (defaults to http://localhost:30000/v1)"@,
                Some("http://localhost:30000/v1"@),
            ),
            field_model(
                "default_model"@,
                "string"@,
                false,
                "Default model to use"@,
                None,
            ),
        ],
    )
}

fn provider_schema_of_sglang() -> (r: ProviderSchema)
    ensures
        r@ == provider_sglang(),
{
    let mut fields: Vec<ProviderSchemaField> = Vec::new();
    fields.push(
        provider_field(
            "api_key",
            "string",
            false,
            "API key if server requires authentication",
            None,
        ),
    );
    fields.push(
        provider_field(
            "api_url",
            "string",
            false,
            "SGLang server URL (defaults to http://localhost:30000/v1)",
            Some("http://localhost:30000/v1"),
        ),
    );
    fields.push(
        provider_field(
            "default_model",
            "string",
            false,
            "Default model to use",
            None,
        ),
    );
    assert(provider_field_models(fields@) =~= provider_sglang().fields);
    provider_schema("sglang", "SGLang", "Local SGLang server", fields)
}

/// The schema of the provider `vllm`.
pub open spec fn provider_vllm() -> SchemaModel {
    schema_model(
        "vllm"@,
        "vLLM"@,
        "Local vLLM server"@,
        seq![
            field_model(
                "api_key"@,
                "string"@,
                false,
                "API key if server requires authentication"@,
                None,
            ),
            field_model(
                "api_url"@,
                "string"@,
                false,
                "vLLM server URL (defaults to http://localhost:8000/v1)"@,
                Some("http://localhost:8000/v1"@),
            ),
            field_model(
                "default_model"@,
                "string"@,
                false,
                "Default model to use"@,
                None,
            ),
        ],
    )
}

fn provider_schema_of_vllm() -> (r: ProviderSchema)
    ensures
        r@ == provider_vllm(),
{
    let mut fields: Vec<ProviderSchemaField> = Vec::new();
    fields.push(
        provider_field(
            "api_key",
            "string",
            false,
            "API key if server requires authentication",
            None,
        ),
    );
    fields.push(
        provider_field(
            "api_url",
            "string",
            false,
            "vLLM server URL (defaults to http://localhost:8000/v1)",
            Some("http://localhost:8000/v1"),
        ),
    );
    fields.push(
        provider_field(
            "default_model",
            "string",
            false,
            "Default model to use",
            None,
        ),
    );
    assert(provider_field_models(fields@) =~= provider_vllm().fields);
    provider_schema("vllm", "vLLM", "Local vLLM server", fields)
}

/// The schema of the provider `vercel`.
pub open spec fn provider_vercel() -> SchemaModel {
    schema_model(
        "vercel"@,
        "Vercel AI Gateway"@,
        "Vercel AI Gateway for model aggregation"@,
        seq![
            field_model(
                "api_key"@,
                "string"@,
                true,
                "Your Vercel AI Gateway token"@,
                Some("..."@),
            ),
            field_model(
                "api_url"@,
                "string"@,
                false,
                "Custom API endpoint (optional, defaults to https://ai-gateway.vercel.sh/v1)"@,
                Some("https://ai-gateway.vercel.sh/v1"@),
            ),
            field_model(
                "default_model"@,
                "string"@,
                false,
                "Default model to use"@,
                None,
            ),
        ],
    )
}

fn provider_schema_of_vercel() -> (r: ProviderSchema)
    ensures
        r@ == provider_vercel(),
{
    let mut fields: Vec<ProviderSchemaField> = Vec::new();
    fields.push(
        provider_field(
            "api_key",
            "string",
            true,
            "Your Vercel AI Gateway token",
            Some("..."),
        ),
    );
    fields.push(
        provider_field(
            "api_url",
            "string",
            false,
            "Custom API endpoint (optional, defaults to https://ai-gateway.vercel.sh/v1)",
            Some("https://ai-gateway.vercel.sh/v1"),
        ),
    );
    fields.push(
        provider_field(
            "default_model",
            "string",
            false,
            "Default model to use",
            None,
        ),
    );
    assert(provider_field_models(fields@) =~= provider_vercel().fields);
    provider_schema("vercel", "Vercel AI Gateway", "Vercel AI Gateway for model aggregation", fields)
}

/// The schema of the provider `cloudflare`.
pub open spec fn provider_cloudflare() -> SchemaModel {
    schema_model(
        "cloudflare"@,
        "Cloudflare AI Gateway"@,
        "Cloudflare AI Gateway"@,
        seq![
            field_model(
                "api_key"@,
                "string"@,
                true,
                "Your Cloudflare API token"@,
                Some("..."@),
            ),
            field_model(
                "api_url"@,
                "string"@,
                false,
                "Custom API endpoint (optional, defaults to https://gateway.ai.cloudflare.com/v1)"@,
                Some("https://gateway.ai.cloudflare.com/v1"@),
            ),
            field_model(
                "default_model"@,
                "string"@,
                false,
                "Default model to use"@,
                None,
            ),
        ],
    )
}

fn provider_schema_of_cloudflare() -> (r: ProviderSchema)
    ensures
        r@ == provider_cloudflare(),
{
    let mut fields: Vec<ProviderSchemaField> = Vec::new();
    fields.push(
        provider_field(
            "api_key",
            "string",
            true,
            "Your Cloudflare API token",
            Some("..."),
        ),
    );
    fields.push(
        provider_field(
            "api_url",
            "string",
            false,
            "Custom API endpoint (optional, defaults to https://gateway.ai.cloudflare.com/v1)",
            Some("https://gateway.ai.cloudflare.com/v1"),
        ),
    );
    fields.push(
        provider_field(
            "default_model",
            "string",
            false,
            "Default model to use",
            None,
        ),
    );
    assert(provider_field_models(fields@) =~= provider_cloudflare().fields);
    provider_schema("cloudflare", "Cloudflare AI Gateway", "Cloudflare AI Gateway", fields)
}

/// The schema of the provider `venice`.
pub open spec fn provider_venice() -> SchemaModel {
    schema_model(
        "venice"@,
        "Venice"@,
        "Venice AI API"@,
        seq![
            field_model(
                "api_key"@,
                "string"@,
                true,
                "Your Venice API key from venice.ai"@,
                Some("..."@),
            ),
            field_model(
                "api_url"@,
                "string"@,
                false,
                "Custom API endpoint (optional, defaults to https://api.venice.ai)"@,
                Some("https://api.venice.ai"@),
            ),
            field_model(
                "default_model"@,
                "string"@,
                false,
                "Default model to use"@,
                None,
            ),
        ],
    )
}

fn provider_schema_of_venice() -> (r: ProviderSchema)
    ensures
        r@ == provider_venice(),
{
    let mut fields: Vec<ProviderSchemaField> = Vec::new();
    fields.push(
        provider_field(
            "api_key",
            "string",
            true,
            "Your Venice API key from venice.ai",
            Some("..."),
        ),
    );
    fields.push(
        provider_field(
            "api_url",
            "string",
            false,
            "Custom API endpoint (optional, defaults to https://api.venice.ai)",
            Some("https://api.venice.ai"),
        ),
    );
    fields.push(
        provider_field(
            "default_model",
            "string",
            false,
            "Default model to use",
            None,
        ),
    );
    assert(provider_field_models(fields@) =~= provider_venice().fields);
    provider_schema("venice", "Venice", "Venice AI API", fields)
}

/// The schemas of all providers, in the order in which they are offered.
pub open spec fn provider_table() -> Seq<SchemaModel> {
    seq![
        provider_openai(),
        provider_anthropic(),
        provider_google(),
        provider_ollama(),
        provider_openrouter(),
        provider_groq(),
        provider_mistral(),
        provider_deepseek(),
        provider_xai(),
        provider_together_ai(),
        provider_fireworks(),
        provider_perplexity(),
        provider_cohere(),
        provider_qwen(),
        provider_glm(),
        provider_moonshot(),
        provider_minimax(),
        provider_bedrock(),
        provider_telnyx(),
        provider_copilot(),
        provider_nvidia(),
        provider_phi4(),
        provider_lmstudio(),
        provider_llamacpp(),
        provider_sglang(),
        provider_vllm(),
        provider_vercel(),
        provider_cloudflare(),
        provider_venice(),
    ]
}

/// Lists the schemas of all providers.
pub fn all_provider_schemas() -> (r: Vec<ProviderSchema>)
    ensures
        r@.len() == 29,
        provider_models(r@) == provider_table(),
{
    let mut schemas: Vec<ProviderSchema> = Vec::new();
    schemas.push(provider_schema_of_openai());
    schemas.push(provider_schema_of_anthropic());
    schemas.push(provider_schema_of_google());
    schemas.push(provider_schema_of_ollama());
    schemas.push(provider_schema_of_openrouter());
    schemas.push(provider_schema_of_groq());
    schemas.push(provider_schema_of_mistral());
    schemas.push(provider_schema_of_deepseek());
    schemas.push(provider_schema_of_xai());
    schemas.push(provider_schema_of_together_ai());
    schemas.push(provider_schema_of_fireworks());
    schemas.push(provider_schema_of_perplexity());
    schemas.push(provider_schema_of_cohere());
    schemas.push(provider_schema_of_qwen());
    schemas.push(provider_schema_of_glm());
    schemas.push(provider_schema_of_moonshot());
    schemas.push(provider_schema_of_minimax());
    schemas.push(provider_schema_of_bedrock());
    schemas.push(provider_schema_of_telnyx());
    schemas.push(provider_schema_of_copilot());
    schemas.push(provider_schema_of_nvidia());
    schemas.push(provider_schema_of_phi4());
    schemas.push(provider_schema_of_lmstudio());
    schemas.push(provider_schema_of_llamacpp());
    schemas.push(provider_schema_of_sglang());
    schemas.push(provider_schema_of_vllm());
    schemas.push(provider_schema_of_vercel());
    schemas.push(provider_schema_of_cloudflare());
    schemas.push(provider_schema_of_venice());
    assert(provider_models(schemas@) =~= provider_table());
    schemas
}

} // verus!
