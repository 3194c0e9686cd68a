//! Query records: block range, per-entity selections and field
//! selection.
//!
//! Plain data handed to the out-of-scope network layer. Selections of one
//! kind are alternatives: a record matching any of them is returned.

use vstd::prelude::*;

verus! {

/// Selects blocks by hash or miner; empty means match all.
#[derive(Clone, Debug)]
pub struct BlockSelection {
    pub hash: Option<Vec<String>>,
    pub miner: Option<Vec<String>>,
}

/// Selects traces by participants, type fields or signature hash.
#[derive(Clone, Debug)]
pub struct TraceSelection {
    pub from_: Option<Vec<String>>,
    pub to: Option<Vec<String>>,
    pub address: Option<Vec<String>>,
    pub call_type: Option<Vec<String>>,
    pub reward_type: Option<Vec<String>>,
    pub kind: Option<Vec<String>>,
    pub sighash: Option<Vec<String>>,
}

/// Selects logs by emitting address and topic alternatives.
#[derive(Clone, Debug)]
pub struct LogSelection {
    pub address: Option<Vec<String>>,
    pub topics: Option<Vec<Vec<String>>>,
}

/// Selects transactions by participants, status, type, contract or hash.
#[derive(Clone, Debug)]
pub struct TransactionSelection {
    pub from_: Option<Vec<String>>,
    pub to: Option<Vec<String>>,
    pub sighash: Option<Vec<String>>,
    pub status: Option<u64>,
    pub kind: Option<Vec<String>>,
    pub contract_address: Option<Vec<String>>,
    pub hash: Option<Vec<String>>,
}

/// Names the fields to return for each entity kind; fewer fields make a
/// smaller, faster response.
#[derive(Clone, Debug)]
pub struct FieldSelection {
    pub block: Option<Vec<String>>,
    pub transaction: Option<Vec<String>>,
    pub log: Option<Vec<String>>,
    pub trace: Option<Vec<String>>,
}

/// One paginated query: the block range, the selections, the field
/// selection, result caps and the join mode.
#[derive(Clone, Debug)]
pub struct Query {
    pub from_block: u64,
    pub to_block: Option<u64>,
    pub logs: Option<Vec<LogSelection>>,
    pub transactions: Option<Vec<TransactionSelection>>,
    pub traces: Option<Vec<TraceSelection>>,
    pub blocks: Option<Vec<BlockSelection>>,
    pub include_all_blocks: Option<bool>,
    pub field_selection: FieldSelection,
    pub max_num_blocks: Option<u64>,
    pub max_num_transactions: Option<u64>,
    pub max_num_logs: Option<u64>,
    pub max_num_traces: Option<u64>,
    pub join_mode: Option<String>,
}

} // verus!
