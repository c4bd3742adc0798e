use vstd::prelude::*;

verus! {

#[verifier::external_type_specification]
#[verifier::external_body]
pub struct ExJsonValue(serde_json::Value);

#[verifier::external_type_specification]
#[verifier::external_body]
#[verifier::reject_recursive_types(K)]
#[verifier::reject_recursive_types(V)]
pub struct ExJsonMap<K, V>(serde_json::Map<K, V>);

/// One log record of a search response.
pub struct LogEntry {
    pub id: Option<String>,
    pub entry_type: Option<String>,
    pub attributes: LogAttributes,
}

/// The fields of a log record.
pub struct LogAttributes {
    pub timestamp: Option<String>,
    pub status: Option<String>,
    pub message: Option<String>,
    pub host: Option<String>,
    pub service: Option<String>,
    pub tags: Option<Vec<String>>,
    /// Any further fields, as they came.
    pub attributes: Option<serde_json::Map<String, serde_json::Value>>,
}

/// The logs that a search returned; `None` when there were none.
pub struct LogsSearchResponse {
    pub data: Option<Vec<LogEntry>>,
}

/// One event record of a search response.
pub struct EventEntry {
    pub id: Option<String>,
    pub entry_type: Option<String>,
    pub attributes: EventAttributes,
}

/// The fields of an event record.
pub struct EventAttributes {
    pub timestamp: Option<String>,
    pub attributes: Option<EventInnerAttributes>,
    pub tags: Option<Vec<String>>,
    pub message: Option<String>,
    /// Any further fields, as they came.
    pub other: Option<serde_json::Map<String, serde_json::Value>>,
}

/// The nested fields of an event record.
pub struct EventInnerAttributes {
    pub title: Option<String>,
    pub status: Option<String>,
    pub evt: Option<EventDetails>,
    /// Any further fields, as they came.
    pub other: Option<serde_json::Map<String, serde_json::Value>>,
}

/// What an event record says of the event itself.
pub struct EventDetails {
    pub name: Option<String>,
    /// Any further fields, as they came.
    pub other: Option<serde_json::Map<String, serde_json::Value>>,
}

/// The events that a search returned; `None` when there were none.
pub struct EventsSearchResponse {
    pub data: Option<Vec<EventEntry>>,
}

/// The text of an optional field.
pub open spec fn opt_text(s: Option<String>) -> Option<Seq<char>> {
    match s {
        Some(t) => Some(t@),
        None => None,
    }
}

} // verus!
