pub mod address;
pub mod entries;
pub mod laws;
pub mod pager;
pub mod query;
pub mod render;
pub mod request;
pub mod text;

pub use address::{parse_datadog_url, DatadogResource};
pub use entries::{EventEntry, EventsSearchResponse, LogEntry, LogsSearchResponse};
pub use pager::{FetchError, FetchSession, MAX_PAGE_SIZE};
pub use query::{EventsQuery, LogsQuery};
pub use render::{format_event_entry, format_log_entry};
