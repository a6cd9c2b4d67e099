//! The records of the configuration database.
use vstd::prelude::*;

verus! {

#[derive(Debug, Clone)]
pub struct Profile {
    pub id: String,
    pub name: String,
    pub description: Option<String>,
    pub is_active: bool,
    pub created_at: String,
    pub updated_at: String,
}

#[derive(Debug, Clone)]
pub struct Provider {
    pub id: String,
    pub profile_id: String,
    pub name: String,
    pub api_key: Option<String>,
    pub api_url: Option<String>,
    pub default_model: Option<String>,
    pub is_enabled: bool,
    pub is_default: bool,
    pub priority: i32,
    pub metadata: Option<String>,
    pub created_at: String,
    pub updated_at: String,
}

#[derive(Debug, Clone)]
pub struct Channel {
    pub id: String,
    pub profile_id: String,
    pub channel_type: String,
    pub config: String,
    pub is_enabled: bool,
    pub created_at: String,
    pub updated_at: String,
}

#[derive(Debug, Clone)]
pub struct ConfigHistory {
    pub id: i64,
    pub profile_id: String,
    pub config_snapshot: String,
    pub change_description: Option<String>,
    pub created_at: String,
}

} // verus!
