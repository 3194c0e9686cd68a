//! The row-oriented domain records: blocks, transactions, logs, traces,
//! and the composed event record.
//!
//! Every field is independently optional; a field stays absent whenever
//! its source column is missing from the batch it was materialized from.
//! Byte-valued fields carry `0x`-prefixed lowercase hex text; numeric
//! identifier fields are 64-bit signed integers, range-checked on the way
//! in rather than silently wrapped.

use vstd::prelude::*;

verus! {

/// A log (event) record.
#[derive(Clone, Debug, PartialEq)]
pub struct Log {
    pub removed: Option<bool>,
    pub log_index: Option<i64>,
    pub transaction_index: Option<i64>,
    pub transaction_hash: Option<String>,
    pub block_hash: Option<String>,
    pub block_number: Option<i64>,
    pub address: Option<String>,
    pub data: Option<String>,
    pub topics: Vec<Option<String>>,
}

/// A transaction record, with its receipt fields.
#[derive(Clone, Debug, PartialEq)]
pub struct Transaction {
    pub block_hash: Option<String>,
    pub block_number: Option<i64>,
    pub from_: Option<String>,
    pub gas: Option<String>,
    pub gas_price: Option<String>,
    pub hash: Option<String>,
    pub input: Option<String>,
    pub nonce: Option<String>,
    pub to: Option<String>,
    pub transaction_index: Option<i64>,
    pub value: Option<String>,
    pub v: Option<String>,
    pub r: Option<String>,
    pub s: Option<String>,
    pub y_parity: Option<String>,
    pub max_priority_fee_per_gas: Option<String>,
    pub max_fee_per_gas: Option<String>,
    pub chain_id: Option<i64>,
    pub access_list: Option<Vec<AccessList>>,
    pub max_fee_per_blob_gas: Option<String>,
    pub blob_versioned_hashes: Option<Vec<String>>,
    pub cumulative_gas_used: Option<String>,
    pub effective_gas_price: Option<String>,
    pub gas_used: Option<String>,
    pub contract_address: Option<String>,
    pub logs_bloom: Option<String>,
    pub kind: Option<i64>,
    pub root: Option<String>,
    pub status: Option<i64>,
    pub l1_fee: Option<String>,
    pub l1_gas_price: Option<String>,
    pub l1_gas_used: Option<String>,
    pub gas_used_for_l1: Option<String>,
}

/// A validator withdrawal entry of a block.
#[derive(Clone, Debug, PartialEq)]
pub struct Withdrawal {
    pub index: Option<String>,
    pub validator_index: Option<String>,
    pub address: Option<String>,
    pub amount: Option<String>,
}

/// An access-list entry of a transaction.
#[derive(Clone, Debug, PartialEq)]
pub struct AccessList {
    pub address: Option<String>,
    pub storage_keys: Option<Vec<String>>,
}

/// A block header record.
#[derive(Clone, Debug, PartialEq)]
pub struct Block {
    pub number: Option<i64>,
    pub hash: Option<String>,
    pub parent_hash: Option<String>,
    pub nonce: Option<String>,
    pub sha3_uncles: Option<String>,
    pub logs_bloom: Option<String>,
    pub transactions_root: Option<String>,
    pub state_root: Option<String>,
    pub receipts_root: Option<String>,
    pub miner: Option<String>,
    pub difficulty: Option<String>,
    pub total_difficulty: Option<String>,
    pub extra_data: Option<String>,
    pub size: Option<String>,
    pub gas_limit: Option<String>,
    pub gas_used: Option<String>,
    pub timestamp: Option<i64>,
    pub uncles: Option<Vec<String>>,
    pub base_fee_per_gas: Option<String>,
    pub blob_gas_used: Option<String>,
    pub excess_blob_gas: Option<String>,
    pub parent_beacon_block_root: Option<String>,
    pub withdrawals_root: Option<String>,
    pub withdrawals: Option<Vec<Withdrawal>>,
    pub l1_block_number: Option<i64>,
    pub send_count: Option<String>,
    pub send_root: Option<String>,
    pub mix_hash: Option<String>,
}

/// A call trace record.
#[derive(Clone, Debug, PartialEq)]
pub struct Trace {
    pub from_: Option<String>,
    pub to: Option<String>,
    pub call_type: Option<String>,
    pub gas: Option<String>,
    pub input: Option<String>,
    pub init: Option<String>,
    pub value: Option<String>,
    pub author: Option<String>,
    pub reward_type: Option<String>,
    pub block_hash: Option<String>,
    pub block_number: Option<i64>,
    pub address: Option<String>,
    pub code: Option<String>,
    pub gas_used: Option<String>,
    pub output: Option<String>,
    pub subtraces: Option<i64>,
    pub trace_address: Option<Vec<i64>>,
    pub transaction_hash: Option<String>,
    pub transaction_position: Option<i64>,
    pub kind: Option<String>,
    pub error: Option<String>,
}

/// One event with the transaction and block it belongs to, when those
/// were selected.
#[derive(Clone, Debug, PartialEq)]
pub struct Event {
    pub transaction: Option<Transaction>,
    pub block: Option<Block>,
    pub log: Log,
}

/// The rollback guard of a paginated response: enough of the scanned
/// block range to detect a chain rollback.
#[derive(Clone, Debug, PartialEq)]
pub struct RollbackGuard {
    pub block_number: i64,
    pub timestamp: i64,
    pub hash: String,
    pub first_block_number: i64,
    pub first_parent_hash: String,
}

} // verus!
