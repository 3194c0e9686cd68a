//! Client and stream configuration records.
//!
//! Plain data handed to the out-of-scope network layer: every field is
//! optional, and an absent field leaves the consumer's default in place.

use vstd::prelude::*;

verus! {

/// Per-stream tuning knobs for paginated queries.
#[derive(Clone, Debug)]
pub struct StreamConfig {
    pub column_mapping: Option<ColumnMapping>,
    pub event_signature: Option<String>,
    pub hex_output: Option<String>,
    pub batch_size: Option<i64>,
    pub max_batch_size: Option<i64>,
    pub min_batch_size: Option<i64>,
    pub concurrency: Option<i64>,
    pub max_num_blocks: Option<i64>,
    pub max_num_transactions: Option<i64>,
    pub max_num_logs: Option<i64>,
    pub max_num_traces: Option<i64>,
    pub response_bytes_ceiling: Option<i64>,
    pub response_bytes_floor: Option<i64>,
}

/// Per-entity renaming of output columns.
#[derive(Clone, Debug)]
pub struct ColumnMapping {
    pub block: Option<std::collections::HashMap<String, String>>,
    pub transaction: Option<std::collections::HashMap<String, String>>,
    pub log: Option<std::collections::HashMap<String, String>>,
    pub trace: Option<std::collections::HashMap<String, String>>,
    pub decoded_log: Option<std::collections::HashMap<String, String>>,
}

/// Connection settings for the data source.
#[derive(Clone, Debug)]
pub struct ClientConfig {
    pub url: Option<String>,
    pub bearer_token: Option<String>,
    pub http_req_timeout_millis: Option<i64>,
    pub max_num_retries: Option<i64>,
    pub retry_backoff_ms: Option<i64>,
    pub retry_base_ms: Option<i64>,
    pub retry_ceiling_ms: Option<i64>,
}

} // verus!
