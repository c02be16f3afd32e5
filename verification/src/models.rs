//! Data types shared by the hub client, the memory bridge and the event bridge.
use vstd::prelude::*;

use crate::metadata::{MetaModel, Metadata};

verus! {

/// Which kinds of events are forwarded to the hub.
#[derive(Debug, Clone, Copy)]
pub struct HubFeatures {
    pub log_completions: bool,
    pub log_user_events: bool,
    pub track_errors: bool,
    pub enrich_context: bool,
}

/// The documented default feature set: everything is logged, context
/// enrichment is off.
pub open spec fn default_features_spec(f: HubFeatures) -> bool {
    &&& f.log_completions
    &&& f.log_user_events
    &&& f.track_errors
    &&& !f.enrich_context
}

impl Default for HubFeatures {
    fn default() -> (f: Self)
        ensures
            default_features_spec(f),
    {
        HubFeatures {
            log_completions: true,
            log_user_events: true,
            track_errors: true,
            enrich_context: false,
        }
    }
}

/// Configuration of the connection to the hub.
#[derive(Debug)]
pub struct HubConfig {
    pub enabled: bool,
    pub hub_url: String,
    pub api_key: String,
    pub timeout_secs: u64,
    pub max_retries: u32,
    pub features: HubFeatures,
}

impl Clone for HubConfig {
    fn clone(&self) -> (res: Self)
        ensures
            res == *self,
    {
        HubConfig {
            enabled: self.enabled,
            hub_url: self.hub_url.clone(),
            api_key: self.api_key.clone(),
            timeout_secs: self.timeout_secs,
            max_retries: self.max_retries,
            features: self.features,
        }
    }
}

/// Request payload for storing memories in the hub.
#[derive(Debug, Clone)]
pub struct RememberRequest {
    pub content: String,
    pub memory_type: String,
    pub significance: String,
    pub tags: Vec<String>,
    pub metadata: Metadata,
    pub private: bool,
}

/// The mathematical value of a [`RememberRequest`].
pub struct RememberModel {
    pub content: Seq<char>,
    pub memory_type: Seq<char>,
    pub significance: Seq<char>,
    pub tags: Seq<Seq<char>>,
    pub metadata: Map<Seq<char>, MetaModel>,
    pub private: bool,
}

impl View for RememberRequest {
    type V = RememberModel;

    open spec fn view(&self) -> RememberModel {
        RememberModel {
            content: self.content@,
            memory_type: self.memory_type@,
            significance: self.significance@,
            tags: self.tags.deep_view(),
            metadata: self.metadata@,
            private: self.private,
        }
    }
}

impl RememberRequest {
    /// A private memory of medium significance, with no tags and no metadata.
    pub fn new(content: String, memory_type: String) -> (r: Self)
        ensures
            r@.content == content@,
            r@.memory_type == memory_type@,
            r@.significance == "medium"@,
            r@.tags.len() == 0,
            r@.metadata == Map::<Seq<char>, MetaModel>::empty(),
            r@.private,
    {
        RememberRequest {
            content,
            memory_type,
            significance: "medium".to_string(),
            tags: Vec::new(),
            metadata: Metadata::new(),
            private: true,
        }
    }
}

/// The data part of the hub's answer to a stored memory.
#[derive(Debug, Clone)]
pub struct RememberData {
    pub memory_id: String,
}

/// Response from hub memory storage.
#[derive(Debug, Clone)]
pub struct RememberResponse {
    pub message: Option<String>,
    pub data: Option<RememberData>,
}

/// Query parameters for recalling memories.
#[derive(Debug, Clone)]
pub struct RecallQuery {
    pub q: String,
    pub limit: u32,
    pub type_: Option<String>,
}

impl RecallQuery {
    /// A query for any type of memory.
    pub fn new(query: String, limit: u32) -> (r: Self)
        ensures
            r.q == query,
            r.limit == limit,
            r.type_ is None,
    {
        RecallQuery { q: query, limit, type_: None }
    }
}

/// One memory as the hub returns it.
#[derive(Debug, Clone)]
pub struct Memory {
    pub memory_id: String,
    pub content: String,
    pub timestamp: String,
    pub memory_type: String,
    pub significance: String,
    pub tags: Vec<String>,
}

/// Response from hub memory recall.
#[derive(Debug, Clone)]
pub struct RecallResponse {
    pub memories: Vec<Memory>,
    pub count: u32,
}

/// Error types for hub operations.
#[derive(Debug, Clone)]
pub enum HubError {
    HttpError(String),
    SerializationError(String),
    Timeout,
    Unavailable,
    AuthFailed,
    InvalidConfig(String),
    Unknown(String),
}

/// The text that describes an error.
pub open spec fn error_message(e: HubError) -> Seq<char> {
    match e {
        HubError::HttpError(s) => "HTTP error: "@ + s@,
        HubError::SerializationError(s) => "Serialization error: "@ + s@,
        HubError::Timeout => "Timeout"@,
        HubError::Unavailable => "Hub unavailable"@,
        HubError::AuthFailed => "Authentication failed"@,
        HubError::InvalidConfig(s) => "Invalid configuration: "@ + s@,
        HubError::Unknown(s) => "Unknown error: "@ + s@,
    }
}

impl HubError {
    /// The text that describes this error.
    pub fn message(&self) -> (m: String)
        ensures
            m@ == error_message(*self),
    {
        match self {
            HubError::HttpError(s) => "HTTP error: ".to_string().concat(s.as_str()),
            HubError::SerializationError(s) => "Serialization error: ".to_string().concat(s.as_str()),
            HubError::Timeout => "Timeout".to_string(),
            HubError::Unavailable => "Hub unavailable".to_string(),
            HubError::AuthFailed => "Authentication failed".to_string(),
            HubError::InvalidConfig(s) => "Invalid configuration: ".to_string().concat(s.as_str()),
            HubError::Unknown(s) => "Unknown error: ".to_string().concat(s.as_str()),
        }
    }
}

/// Result type for hub operations.
pub type HubResult<T> = Result<T, HubError>;

/// A name with a text value: an environment variable, an HTTP header, a query parameter.
#[derive(Debug, Clone)]
pub struct NamedValue {
    pub name: String,
    pub value: String,
}

} // verus!
