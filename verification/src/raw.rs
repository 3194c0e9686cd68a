//! Conversion of raw, byte-valued records into domain records.
//!
//! A raw record carries each field as plain bytes or integers, exactly as
//! the wire layer hands them over. Conversion hex-encodes byte fields,
//! narrows numeric identifiers with range checks (an out-of-range value
//! is a reported `Error::RecordConversion`, never a silent wrap), and
//! reads the block timestamp as big-endian bytes rather than as a native
//! word.

use vstd::prelude::*;

use crate::Error;
use crate::hex::encode_hex;
use crate::hex::spec_encode_hex;
use crate::numeric::be_val;
use crate::numeric::i64_from_bytes;
use crate::numeric::narrow_be_bytes_to_i64;
use crate::numeric::narrow_u64_to_i64;
use crate::numeric::spec_i64_from_be;
use crate::records::AccessList;
use crate::records::Block;
use crate::records::Log;
use crate::records::RollbackGuard;
use crate::records::Trace;
use crate::records::Transaction;
use crate::records::Withdrawal;

verus! {

/// A block as handed over by the wire layer, all fields as plain values.
pub struct RawBlock {
    pub number: Option<u64>,
    pub hash: Option<Vec<u8>>,
    pub parent_hash: Option<Vec<u8>>,
    pub nonce: Option<Vec<u8>>,
    pub sha3_uncles: Option<Vec<u8>>,
    pub logs_bloom: Option<Vec<u8>>,
    pub transactions_root: Option<Vec<u8>>,
    pub state_root: Option<Vec<u8>>,
    pub receipts_root: Option<Vec<u8>>,
    pub miner: Option<Vec<u8>>,
    pub difficulty: Option<Vec<u8>>,
    pub total_difficulty: Option<Vec<u8>>,
    pub extra_data: Option<Vec<u8>>,
    pub size: Option<Vec<u8>>,
    pub gas_limit: Option<Vec<u8>>,
    pub gas_used: Option<Vec<u8>>,
    pub timestamp: Option<Vec<u8>>,
    pub uncles: Option<Vec<Vec<u8>>>,
    pub base_fee_per_gas: Option<Vec<u8>>,
    pub blob_gas_used: Option<Vec<u8>>,
    pub excess_blob_gas: Option<Vec<u8>>,
    pub parent_beacon_block_root: Option<Vec<u8>>,
    pub withdrawals_root: Option<Vec<u8>>,
    pub withdrawals: Option<Vec<RawWithdrawal>>,
    pub l1_block_number: Option<u64>,
    pub send_count: Option<Vec<u8>>,
    pub send_root: Option<Vec<u8>>,
    pub mix_hash: Option<Vec<u8>>,
}

/// A transaction as handed over by the wire layer.
pub struct RawTransaction {
    pub block_hash: Option<Vec<u8>>,
    pub block_number: Option<u64>,
    pub from_: Option<Vec<u8>>,
    pub gas: Option<Vec<u8>>,
    pub gas_price: Option<Vec<u8>>,
    pub hash: Option<Vec<u8>>,
    pub input: Option<Vec<u8>>,
    pub nonce: Option<Vec<u8>>,
    pub to: Option<Vec<u8>>,
    pub transaction_index: Option<u64>,
    pub value: Option<Vec<u8>>,
    pub v: Option<Vec<u8>>,
    pub r: Option<Vec<u8>>,
    pub s: Option<Vec<u8>>,
    pub y_parity: Option<Vec<u8>>,
    pub max_priority_fee_per_gas: Option<Vec<u8>>,
    pub max_fee_per_gas: Option<Vec<u8>>,
    pub chain_id: Option<Vec<u8>>,
    pub access_list: Option<Vec<RawAccessList>>,
    pub max_fee_per_blob_gas: Option<Vec<u8>>,
    pub blob_versioned_hashes: Option<Vec<Vec<u8>>>,
    pub cumulative_gas_used: Option<Vec<u8>>,
    pub effective_gas_price: Option<Vec<u8>>,
    pub gas_used: Option<Vec<u8>>,
    pub contract_address: Option<Vec<u8>>,
    pub logs_bloom: Option<Vec<u8>>,
    pub kind: Option<u8>,
    pub root: Option<Vec<u8>>,
    pub status: Option<u8>,
    pub l1_fee: Option<Vec<u8>>,
    pub l1_gas_price: Option<Vec<u8>>,
    pub l1_gas_used: Option<Vec<u8>>,
    pub gas_used_for_l1: Option<Vec<u8>>,
}

/// A log as handed over by the wire layer.
pub struct RawLog {
    pub removed: Option<bool>,
    pub log_index: Option<u64>,
    pub transaction_index: Option<u64>,
    pub transaction_hash: Option<Vec<u8>>,
    pub block_hash: Option<Vec<u8>>,
    pub block_number: Option<u64>,
    pub address: Option<Vec<u8>>,
    pub data: Option<Vec<u8>>,
    pub topics: Vec<Option<Vec<u8>>>,
}

/// A trace as handed over by the wire layer.
pub struct RawTrace {
    pub from_: Option<Vec<u8>>,
    pub to: Option<Vec<u8>>,
    pub call_type: Option<String>,
    pub gas: Option<Vec<u8>>,
    pub input: Option<Vec<u8>>,
    pub init: Option<Vec<u8>>,
    pub value: Option<Vec<u8>>,
    pub author: Option<Vec<u8>>,
    pub reward_type: Option<String>,
    pub block_hash: Option<Vec<u8>>,
    pub block_number: Option<u64>,
    pub address: Option<Vec<u8>>,
    pub code: Option<Vec<u8>>,
    pub gas_used: Option<Vec<u8>>,
    pub output: Option<Vec<u8>>,
    pub subtraces: Option<u64>,
    pub trace_address: Option<Vec<u64>>,
    pub transaction_hash: Option<Vec<u8>>,
    pub transaction_position: Option<u64>,
    pub kind: Option<String>,
    pub error: Option<String>,
}

/// A withdrawal entry as handed over by the wire layer.
pub struct RawWithdrawal {
    pub index: Option<Vec<u8>>,
    pub validator_index: Option<Vec<u8>>,
    pub address: Option<Vec<u8>>,
    pub amount: Option<Vec<u8>>,
}

/// An access-list entry as handed over by the wire layer.
pub struct RawAccessList {
    pub address: Option<Vec<u8>>,
    pub storage_keys: Option<Vec<Vec<u8>>>,
}

/// A rollback guard as handed over by the wire layer.
pub struct RawRollbackGuard {
    pub block_number: u64,
    pub timestamp: i64,
    pub hash: Vec<u8>,
    pub first_block_number: u64,
    pub first_parent_hash: Vec<u8>,
}

/// `f` is the `0x` hex text of the optional byte field `v`.
pub open spec fn opt_hexed(v: Option<Vec<u8>>, f: Option<String>) -> bool {
    match v {
        Some(b) => f matches Some(s) && s@ == spec_encode_hex(b@),
        None => f is None,
    }
}

/// The optional 64-bit value fits in signed range.
pub open spec fn opt_narrow_ok(v: Option<u64>) -> bool {
    match v {
        Some(n) => n <= i64::MAX,
        None => true,
    }
}

/// `f` is the narrowing of the optional 64-bit value `v`.
pub open spec fn opt_narrowed(v: Option<u64>, f: Option<i64>) -> bool {
    match v {
        Some(n) => n <= i64::MAX && f == Some(n as i64),
        None => f is None,
    }
}

/// The optional big-endian byte field reads within signed 64-bit range.
pub open spec fn opt_be_narrow_ok(v: Option<Vec<u8>>) -> bool {
    match v {
        Some(b) => be_val(b@) <= i64::MAX,
        None => true,
    }
}

/// `f` is the big-endian reading of the optional byte field `v`.
pub open spec fn opt_be_narrowed(v: Option<Vec<u8>>, f: Option<i64>) -> bool {
    match v {
        Some(b) => be_val(b@) <= i64::MAX && (f matches Some(x) && x == be_val(b@)),
        None => f is None,
    }
}

/// The optional timestamp field holds at most eight bytes.
pub open spec fn opt_ts_ok(v: Option<Vec<u8>>) -> bool {
    match v {
        Some(b) => b@.len() <= 8,
        None => true,
    }
}

/// `f` is the big-endian 64-bit reading of the optional timestamp bytes.
pub open spec fn opt_ts_narrowed(v: Option<Vec<u8>>, f: Option<i64>) -> bool {
    match v {
        Some(b) => b@.len() <= 8 && (f matches Some(x) && x == spec_i64_from_be(b@)),
        None => f is None,
    }
}

/// `f` is the element-wise hex text of the optional byte-string list.
pub open spec fn opt_hex_list(v: Option<Vec<Vec<u8>>>, f: Option<Vec<String>>) -> bool {
    match v {
        Some(bs) => f matches Some(ss) && ss@.len() == bs@.len() && (forall|i: int|
            0 <= i < bs@.len() ==> (#[trigger] ss@[i])@ == spec_encode_hex(bs@[i]@)),
        None => f is None,
    }
}

/// `f` is the text of the optional string field `v`, kept as it is.
pub open spec fn opt_text(v: Option<String>, f: Option<String>) -> bool {
    match v {
        Some(t) => f matches Some(s) && s@ == t@,
        None => f is None,
    }
}

/// Hex-encodes an optional byte field.
pub fn opt_hex(v: &Option<Vec<u8>>) -> (r: Option<String>)
    ensures
        opt_hexed(*v, r),
{
    match v {
        Some(b) => Some(encode_hex(b)),
        None => None,
    }
}

/// Narrows an optional 64-bit value, reporting overflow.
pub fn opt_narrow(v: &Option<u64>) -> (r: Result<Option<i64>, Error>)
    ensures
        r matches Ok(f) ==> opt_narrowed(*v, f),
        r matches Err(e) ==> e == Error::RecordConversion && !opt_narrow_ok(*v),
{
    match v {
        Some(n) => match narrow_u64_to_i64(*n) {
            Ok(x) => Ok(Some(x)),
            Err(_) => Err(Error::RecordConversion),
        },
        None => Ok(None),
    }
}

/// Reads an optional big-endian byte field as a signed 64-bit integer,
/// reporting overflow.
pub fn opt_be_narrow(v: &Option<Vec<u8>>) -> (r: Result<Option<i64>, Error>)
    ensures
        r matches Ok(f) ==> opt_be_narrowed(*v, f),
        r matches Err(e) ==> e == Error::RecordConversion && !opt_be_narrow_ok(*v),
{
    match v {
        Some(b) => match narrow_be_bytes_to_i64(b) {
            Ok(x) => Ok(Some(x)),
            Err(_) => Err(Error::RecordConversion),
        },
        None => Ok(None),
    }
}

/// Reads optional timestamp bytes, reporting a cell too wide to narrow.
pub fn opt_ts_narrow(v: &Option<Vec<u8>>) -> (r: Result<Option<i64>, Error>)
    ensures
        r matches Ok(f) ==> opt_ts_narrowed(*v, f),
        r matches Err(e) ==> e == Error::RecordConversion && !opt_ts_ok(*v),
{
    match v {
        Some(b) => {
            if b.len() <= 8 {
                Ok(Some(i64_from_bytes(b)))
            } else {
                Err(Error::RecordConversion)
            }
        },
        None => Ok(None),
    }
}

/// Hex-encodes an optional list of byte strings element-wise.
pub fn opt_hex_list_exec(v: &Option<Vec<Vec<u8>>>) -> (r: Option<Vec<String>>)
    ensures
        opt_hex_list(*v, r),
{
    match v {
        Some(bs) => {
            let mut out: Vec<String> = Vec::new();
            let mut i: usize = 0;
            while i < bs.len()
                invariant
                    i <= bs@.len(),
                    out@.len() == i,
                    forall|j: int|
                        0 <= j < i ==> (#[trigger] out@[j])@ == spec_encode_hex(bs@[j]@),
                decreases bs@.len() - i,
            {
                out.push(encode_hex(&bs[i]));
                i = i + 1;
            }
            Some(out)
        },
        None => None,
    }
}

/// Clones an optional string field.
pub fn opt_clone_text(v: &Option<String>) -> (r: Option<String>)
    ensures
        opt_text(*v, r),
{
    match v {
        Some(t) => Some(crate::value::clone_string(t)),
        None => None,
    }
}

impl Withdrawal {
    /// `w` is the conversion of `rw`: every byte field hex-encoded.
    pub open spec fn matches_raw(rw: RawWithdrawal, w: Withdrawal) -> bool {
        &&& opt_hexed(rw.index, w.index)
        &&& opt_hexed(rw.validator_index, w.validator_index)
        &&& opt_hexed(rw.address, w.address)
        &&& opt_hexed(rw.amount, w.amount)
    }

    /// Converts one raw withdrawal entry.
    pub fn from_raw(rw: &RawWithdrawal) -> (r: Withdrawal)
        ensures
            Withdrawal::matches_raw(*rw, r),
    {
        Withdrawal {
            index: opt_hex(&rw.index),
            validator_index: opt_hex(&rw.validator_index),
            address: opt_hex(&rw.address),
            amount: opt_hex(&rw.amount),
        }
    }
}

impl AccessList {
    /// `a` is the conversion of `ra`.
    pub open spec fn matches_raw(ra: RawAccessList, a: AccessList) -> bool {
        &&& opt_hexed(ra.address, a.address)
        &&& opt_hex_list(ra.storage_keys, a.storage_keys)
    }

    /// Converts one raw access-list entry.
    pub fn from_raw(ra: &RawAccessList) -> (r: AccessList)
        ensures
            AccessList::matches_raw(*ra, r),
    {
        AccessList { address: opt_hex(&ra.address), storage_keys: opt_hex_list_exec(&ra.storage_keys) }
    }
}

impl RollbackGuard {
    /// `g` is the conversion of `rg`: block numbers narrowed with range
    /// checks, hashes hex-encoded, the timestamp kept.
    pub open spec fn matches_raw(rg: RawRollbackGuard, g: RollbackGuard) -> bool {
        &&& rg.block_number <= i64::MAX && g.block_number == rg.block_number as i64
        &&& g.timestamp == rg.timestamp
        &&& g.hash@ == spec_encode_hex(rg.hash@)
        &&& rg.first_block_number <= i64::MAX && g.first_block_number == rg.first_block_number
            as i64
        &&& g.first_parent_hash@ == spec_encode_hex(rg.first_parent_hash@)
    }

    /// Whether both block numbers of `rg` fit in signed range.
    pub open spec fn raw_ok(rg: RawRollbackGuard) -> bool {
        rg.block_number <= i64::MAX && rg.first_block_number <= i64::MAX
    }

    /// Converts a raw rollback guard; an out-of-range block number is a
    /// reported conversion failure.
    pub fn try_convert(rg: &RawRollbackGuard) -> (r: Result<RollbackGuard, Error>)
        ensures
            r matches Ok(g) ==> RollbackGuard::matches_raw(*rg, g),
            r matches Err(e) ==> e == Error::RecordConversion && !RollbackGuard::raw_ok(*rg),
    {
        let block_number = match narrow_u64_to_i64(rg.block_number) {
            Ok(x) => x,
            Err(_) => {
                return Err(Error::RecordConversion);
            },
        };
        let first_block_number = match narrow_u64_to_i64(rg.first_block_number) {
            Ok(x) => x,
            Err(_) => {
                return Err(Error::RecordConversion);
            },
        };
        Ok(
            RollbackGuard {
                block_number,
                timestamp: rg.timestamp,
                hash: encode_hex(&rg.hash),
                first_block_number,
                first_parent_hash: encode_hex(&rg.first_parent_hash),
            },
        )
    }
}

impl Log {
    /// `rec` is the conversion of `rl`: numeric identifiers narrowed in
    /// range, byte fields hex-encoded, topics kept positionally.
    pub open spec fn matches_raw(rl: RawLog, rec: Log) -> bool {
        &&& rec.removed == rl.removed
        &&& opt_narrowed(rl.log_index, rec.log_index)
        &&& opt_narrowed(rl.transaction_index, rec.transaction_index)
        &&& opt_hexed(rl.transaction_hash, rec.transaction_hash)
        &&& opt_hexed(rl.block_hash, rec.block_hash)
        &&& opt_narrowed(rl.block_number, rec.block_number)
        &&& opt_hexed(rl.address, rec.address)
        &&& opt_hexed(rl.data, rec.data)
        &&& rec.topics@.len() == rl.topics@.len()
        &&& forall|i: int|
            0 <= i < rl.topics@.len() ==> opt_hexed(rl.topics@[i], #[trigger] rec.topics@[i])
    }

    /// Whether all numeric identifiers of `rl` fit in signed range.
    pub open spec fn raw_ok(rl: RawLog) -> bool {
        &&& opt_narrow_ok(rl.log_index)
        &&& opt_narrow_ok(rl.transaction_index)
        &&& opt_narrow_ok(rl.block_number)
    }

    /// Converts one raw log record.
    pub fn from_raw(rl: &RawLog) -> (r: Result<Log, Error>)
        ensures
            r matches Ok(rec) ==> Log::matches_raw(*rl, rec),
            r matches Err(e) ==> e == Error::RecordConversion && !Log::raw_ok(*rl),
    {
        let log_index = match opt_narrow(&rl.log_index) {
            Ok(f) => f,
            Err(e) => {
                return Err(e);
            },
        };
        let transaction_index = match opt_narrow(&rl.transaction_index) {
            Ok(f) => f,
            Err(e) => {
                return Err(e);
            },
        };
        let block_number = match opt_narrow(&rl.block_number) {
            Ok(f) => f,
            Err(e) => {
                return Err(e);
            },
        };
        let mut topics: Vec<Option<String>> = Vec::new();
        let mut i: usize = 0;
        while i < rl.topics.len()
            invariant
                i <= rl.topics@.len(),
                topics@.len() == i,
                forall|j: int|
                    0 <= j < i ==> opt_hexed(rl.topics@[j], #[trigger] topics@[j]),
            decreases rl.topics@.len() - i,
        {
            topics.push(opt_hex(&rl.topics[i]));
            i = i + 1;
        }
        Ok(
            Log {
                removed: rl.removed,
                log_index,
                transaction_index,
                transaction_hash: opt_hex(&rl.transaction_hash),
                block_hash: opt_hex(&rl.block_hash),
                block_number,
                address: opt_hex(&rl.address),
                data: opt_hex(&rl.data),
                topics,
            },
        )
    }
}

impl Transaction {
    /// `rec` is the conversion of `rt`: numeric identifiers narrowed in
    /// range, byte fields hex-encoded, enumerated bytes widened.
    pub open spec fn matches_raw(rt: RawTransaction, rec: Transaction) -> bool {
        &&& opt_hexed(rt.block_hash, rec.block_hash)
        &&& opt_narrowed(rt.block_number, rec.block_number)
        &&& opt_hexed(rt.from_, rec.from_)
        &&& opt_hexed(rt.gas, rec.gas)
        &&& opt_hexed(rt.gas_price, rec.gas_price)
        &&& opt_hexed(rt.hash, rec.hash)
        &&& opt_hexed(rt.input, rec.input)
        &&& opt_hexed(rt.nonce, rec.nonce)
        &&& opt_hexed(rt.to, rec.to)
        &&& opt_narrowed(rt.transaction_index, rec.transaction_index)
        &&& opt_hexed(rt.value, rec.value)
        &&& opt_hexed(rt.v, rec.v)
        &&& opt_hexed(rt.r, rec.r)
        &&& opt_hexed(rt.s, rec.s)
        &&& opt_hexed(rt.y_parity, rec.y_parity)
        &&& opt_hexed(rt.max_priority_fee_per_gas, rec.max_priority_fee_per_gas)
        &&& opt_hexed(rt.max_fee_per_gas, rec.max_fee_per_gas)
        &&& opt_be_narrowed(rt.chain_id, rec.chain_id)
        &&& access_lists_match(rt.access_list, rec.access_list)
        &&& opt_hexed(rt.max_fee_per_blob_gas, rec.max_fee_per_blob_gas)
        &&& opt_hex_list(rt.blob_versioned_hashes, rec.blob_versioned_hashes)
        &&& opt_hexed(rt.cumulative_gas_used, rec.cumulative_gas_used)
        &&& opt_hexed(rt.effective_gas_price, rec.effective_gas_price)
        &&& opt_hexed(rt.gas_used, rec.gas_used)
        &&& opt_hexed(rt.contract_address, rec.contract_address)
        &&& opt_hexed(rt.logs_bloom, rec.logs_bloom)
        &&& rec.kind == rt.kind.map_widen()
        &&& opt_hexed(rt.root, rec.root)
        &&& rec.status == rt.status.map_widen()
        &&& opt_hexed(rt.l1_fee, rec.l1_fee)
        &&& opt_hexed(rt.l1_gas_price, rec.l1_gas_price)
        &&& opt_hexed(rt.l1_gas_used, rec.l1_gas_used)
        &&& opt_hexed(rt.gas_used_for_l1, rec.gas_used_for_l1)
    }

    /// Whether all numeric identifiers of `rt` fit in signed range.
    pub open spec fn raw_ok(rt: RawTransaction) -> bool {
        &&& opt_narrow_ok(rt.block_number)
        &&& opt_narrow_ok(rt.transaction_index)
        &&& opt_be_narrow_ok(rt.chain_id)
    }

    /// Converts one raw transaction record.
    pub fn from_raw(rt: &RawTransaction) -> (r: Result<Transaction, Error>)
        ensures
            r matches Ok(rec) ==> Transaction::matches_raw(*rt, rec),
            r matches Err(e) ==> e == Error::RecordConversion && !Transaction::raw_ok(*rt),
    {
        let block_number = match opt_narrow(&rt.block_number) {
            Ok(f) => f,
            Err(e) => {
                return Err(e);
            },
        };
        let transaction_index = match opt_narrow(&rt.transaction_index) {
            Ok(f) => f,
            Err(e) => {
                return Err(e);
            },
        };
        let chain_id = match opt_be_narrow(&rt.chain_id) {
            Ok(f) => f,
            Err(e) => {
                return Err(e);
            },
        };
        let access_list = match &rt.access_list {
            Some(ras) => {
                let mut out: Vec<AccessList> = Vec::new();
                let mut i: usize = 0;
                while i < ras.len()
                    invariant
                        i <= ras@.len(),
                        out@.len() == i,
                        forall|j: int|
                            0 <= j < i ==> AccessList::matches_raw(
                                ras@[j],
                                #[trigger] out@[j],
                            ),
                    decreases ras@.len() - i,
                {
                    out.push(AccessList::from_raw(&ras[i]));
                    i = i + 1;
                }
                Some(out)
            },
            None => None,
        };
        Ok(
            Transaction {
                block_hash: opt_hex(&rt.block_hash),
                block_number,
                from_: opt_hex(&rt.from_),
                gas: opt_hex(&rt.gas),
                gas_price: opt_hex(&rt.gas_price),
                hash: opt_hex(&rt.hash),
                input: opt_hex(&rt.input),
                nonce: opt_hex(&rt.nonce),
                to: opt_hex(&rt.to),
                transaction_index,
                value: opt_hex(&rt.value),
                v: opt_hex(&rt.v),
                r: opt_hex(&rt.r),
                s: opt_hex(&rt.s),
                y_parity: opt_hex(&rt.y_parity),
                max_priority_fee_per_gas: opt_hex(&rt.max_priority_fee_per_gas),
                max_fee_per_gas: opt_hex(&rt.max_fee_per_gas),
                chain_id,
                access_list,
                max_fee_per_blob_gas: opt_hex(&rt.max_fee_per_blob_gas),
                blob_versioned_hashes: opt_hex_list_exec(&rt.blob_versioned_hashes),
                cumulative_gas_used: opt_hex(&rt.cumulative_gas_used),
                effective_gas_price: opt_hex(&rt.effective_gas_price),
                gas_used: opt_hex(&rt.gas_used),
                contract_address: opt_hex(&rt.contract_address),
                logs_bloom: opt_hex(&rt.logs_bloom),
                kind: widen_u8(&rt.kind),
                root: opt_hex(&rt.root),
                status: widen_u8(&rt.status),
                l1_fee: opt_hex(&rt.l1_fee),
                l1_gas_price: opt_hex(&rt.l1_gas_price),
                l1_gas_used: opt_hex(&rt.l1_gas_used),
                gas_used_for_l1: opt_hex(&rt.gas_used_for_l1),
            },
        )
    }
}

/// `f` is the element-wise conversion of the optional access list.
pub open spec fn access_lists_match(
    v: Option<Vec<RawAccessList>>,
    f: Option<Vec<AccessList>>,
) -> bool {
    match v {
        Some(ras) => f matches Some(als) && als@.len() == ras@.len() && (forall|i: int|
            0 <= i < ras@.len() ==> AccessList::matches_raw(ras@[i], #[trigger] als@[i])),
        None => f is None,
    }
}

/// Widens an optional byte to a 64-bit integer.
fn widen_u8(v: &Option<u8>) -> (r: Option<i64>)
    ensures
        r == v.map_widen(),
{
    match v {
        Some(x) => Some(*x as i64),
        None => None,
    }
}

/// The widening of an optional byte to a 64-bit integer.
pub trait OptWiden {
    /// The widened value.
    spec fn map_widen(&self) -> Option<i64>;
}

impl OptWiden for Option<u8> {
    open spec fn map_widen(&self) -> Option<i64> {
        match self {
            Some(x) => Some(*x as i64),
            None => None,
        }
    }
}

impl Block {
    /// `rec` is the conversion of `rb`: the block number narrowed in
    /// range, byte fields hex-encoded, the timestamp read as big-endian
    /// bytes.
    pub open spec fn matches_raw(rb: RawBlock, rec: Block) -> bool {
        &&& opt_narrowed(rb.number, rec.number)
        &&& opt_hexed(rb.hash, rec.hash)
        &&& opt_hexed(rb.parent_hash, rec.parent_hash)
        &&& opt_hexed(rb.nonce, rec.nonce)
        &&& opt_hexed(rb.sha3_uncles, rec.sha3_uncles)
        &&& opt_hexed(rb.logs_bloom, rec.logs_bloom)
        &&& opt_hexed(rb.transactions_root, rec.transactions_root)
        &&& opt_hexed(rb.state_root, rec.state_root)
        &&& opt_hexed(rb.receipts_root, rec.receipts_root)
        &&& opt_hexed(rb.miner, rec.miner)
        &&& opt_hexed(rb.difficulty, rec.difficulty)
        &&& opt_hexed(rb.total_difficulty, rec.total_difficulty)
        &&& opt_hexed(rb.extra_data, rec.extra_data)
        &&& opt_hexed(rb.size, rec.size)
        &&& opt_hexed(rb.gas_limit, rec.gas_limit)
        &&& opt_hexed(rb.gas_used, rec.gas_used)
        &&& opt_ts_narrowed(rb.timestamp, rec.timestamp)
        &&& opt_hex_list(rb.uncles, rec.uncles)
        &&& opt_hexed(rb.base_fee_per_gas, rec.base_fee_per_gas)
        &&& opt_hexed(rb.blob_gas_used, rec.blob_gas_used)
        &&& opt_hexed(rb.excess_blob_gas, rec.excess_blob_gas)
        &&& opt_hexed(rb.parent_beacon_block_root, rec.parent_beacon_block_root)
        &&& opt_hexed(rb.withdrawals_root, rec.withdrawals_root)
        &&& withdrawals_match(rb.withdrawals, rec.withdrawals)
        &&& opt_narrowed(rb.l1_block_number, rec.l1_block_number)
        &&& opt_hexed(rb.send_count, rec.send_count)
        &&& opt_hexed(rb.send_root, rec.send_root)
        &&& opt_hexed(rb.mix_hash, rec.mix_hash)
    }

    /// Whether all numeric identifiers of `rb` fit their narrowings.
    pub open spec fn raw_ok(rb: RawBlock) -> bool {
        &&& opt_narrow_ok(rb.number)
        &&& opt_ts_ok(rb.timestamp)
        &&& opt_narrow_ok(rb.l1_block_number)
    }

    /// Converts one raw block record.
    pub fn from_raw(rb: &RawBlock) -> (r: Result<Block, Error>)
        ensures
            r matches Ok(rec) ==> Block::matches_raw(*rb, rec),
            r matches Err(e) ==> e == Error::RecordConversion && !Block::raw_ok(*rb),
    {
        let number = match opt_narrow(&rb.number) {
            Ok(f) => f,
            Err(e) => {
                return Err(e);
            },
        };
        let timestamp = match opt_ts_narrow(&rb.timestamp) {
            Ok(f) => f,
            Err(e) => {
                return Err(e);
            },
        };
        let l1_block_number = match opt_narrow(&rb.l1_block_number) {
            Ok(f) => f,
            Err(e) => {
                return Err(e);
            },
        };
        let withdrawals = match &rb.withdrawals {
            Some(rws) => {
                let mut out: Vec<Withdrawal> = Vec::new();
                let mut i: usize = 0;
                while i < rws.len()
                    invariant
                        i <= rws@.len(),
                        out@.len() == i,
                        forall|j: int|
                            0 <= j < i ==> Withdrawal::matches_raw(
                                rws@[j],
                                #[trigger] out@[j],
                            ),
                    decreases rws@.len() - i,
                {
                    out.push(Withdrawal::from_raw(&rws[i]));
                    i = i + 1;
                }
                Some(out)
            },
            None => None,
        };
        Ok(
            Block {
                number,
                hash: opt_hex(&rb.hash),
                parent_hash: opt_hex(&rb.parent_hash),
                nonce: opt_hex(&rb.nonce),
                sha3_uncles: opt_hex(&rb.sha3_uncles),
                logs_bloom: opt_hex(&rb.logs_bloom),
                transactions_root: opt_hex(&rb.transactions_root),
                state_root: opt_hex(&rb.state_root),
                receipts_root: opt_hex(&rb.receipts_root),
                miner: opt_hex(&rb.miner),
                difficulty: opt_hex(&rb.difficulty),
                total_difficulty: opt_hex(&rb.total_difficulty),
                extra_data: opt_hex(&rb.extra_data),
                size: opt_hex(&rb.size),
                gas_limit: opt_hex(&rb.gas_limit),
                gas_used: opt_hex(&rb.gas_used),
                timestamp,
                uncles: opt_hex_list_exec(&rb.uncles),
                base_fee_per_gas: opt_hex(&rb.base_fee_per_gas),
                blob_gas_used: opt_hex(&rb.blob_gas_used),
                excess_blob_gas: opt_hex(&rb.excess_blob_gas),
                parent_beacon_block_root: opt_hex(&rb.parent_beacon_block_root),
                withdrawals_root: opt_hex(&rb.withdrawals_root),
                withdrawals,
                l1_block_number,
                send_count: opt_hex(&rb.send_count),
                send_root: opt_hex(&rb.send_root),
                mix_hash: opt_hex(&rb.mix_hash),
            },
        )
    }
}

/// `f` is the element-wise conversion of the optional withdrawal list.
pub open spec fn withdrawals_match(
    v: Option<Vec<RawWithdrawal>>,
    f: Option<Vec<Withdrawal>>,
) -> bool {
    match v {
        Some(rws) => f matches Some(ws) && ws@.len() == rws@.len() && (forall|i: int|
            0 <= i < rws@.len() ==> Withdrawal::matches_raw(rws@[i], #[trigger] ws@[i])),
        None => f is None,
    }
}

impl Trace {
    /// `rec` is the conversion of `rt`: numeric identifiers narrowed in
    /// range, byte fields hex-encoded, text fields kept.
    pub open spec fn matches_raw(rt: RawTrace, rec: Trace) -> bool {
        &&& opt_hexed(rt.from_, rec.from_)
        &&& opt_hexed(rt.to, rec.to)
        &&& opt_text(rt.call_type, rec.call_type)
        &&& opt_hexed(rt.gas, rec.gas)
        &&& opt_hexed(rt.input, rec.input)
        &&& opt_hexed(rt.init, rec.init)
        &&& opt_hexed(rt.value, rec.value)
        &&& opt_hexed(rt.author, rec.author)
        &&& opt_text(rt.reward_type, rec.reward_type)
        &&& opt_hexed(rt.block_hash, rec.block_hash)
        &&& opt_narrowed(rt.block_number, rec.block_number)
        &&& opt_hexed(rt.address, rec.address)
        &&& opt_hexed(rt.code, rec.code)
        &&& opt_hexed(rt.gas_used, rec.gas_used)
        &&& opt_hexed(rt.output, rec.output)
        &&& opt_narrowed(rt.subtraces, rec.subtraces)
        &&& trace_address_match(rt.trace_address, rec.trace_address)
        &&& opt_hexed(rt.transaction_hash, rec.transaction_hash)
        &&& opt_narrowed(rt.transaction_position, rec.transaction_position)
        &&& opt_text(rt.kind, rec.kind)
        &&& opt_text(rt.error, rec.error)
    }

    /// Whether all numeric identifiers of `rt` fit in signed range.
    pub open spec fn raw_ok(rt: RawTrace) -> bool {
        &&& opt_narrow_ok(rt.block_number)
        &&& opt_narrow_ok(rt.subtraces)
        &&& opt_narrow_ok(rt.transaction_position)
        &&& match rt.trace_address {
            Some(xs) => forall|i: int| 0 <= i < xs@.len() ==> #[trigger] xs@[i] <= i64::MAX,
            None => true,
        }
    }

    /// Converts one raw trace record.
    pub fn from_raw(rt: &RawTrace) -> (r: Result<Trace, Error>)
        ensures
            r matches Ok(rec) ==> Trace::matches_raw(*rt, rec),
            r matches Err(e) ==> e == Error::RecordConversion && !Trace::raw_ok(*rt),
    {
        let block_number = match opt_narrow(&rt.block_number) {
            Ok(f) => f,
            Err(e) => {
                return Err(e);
            },
        };
        let subtraces = match opt_narrow(&rt.subtraces) {
            Ok(f) => f,
            Err(e) => {
                return Err(e);
            },
        };
        let transaction_position = match opt_narrow(&rt.transaction_position) {
            Ok(f) => f,
            Err(e) => {
                return Err(e);
            },
        };
        let trace_address = match &rt.trace_address {
            Some(xs) => {
                let mut out: Vec<i64> = Vec::new();
                let mut i: usize = 0;
                while i < xs.len()
                    invariant
                        i <= xs@.len(),
                        out@.len() == i,
                        rt.trace_address == Some(*xs),
                        forall|j: int| 0 <= j < i ==> #[trigger] xs@[j] <= i64::MAX,
                        forall|j: int| 0 <= j < i ==> #[trigger] out@[j] == xs@[j] as i64,
                    decreases xs@.len() - i,
                {
                    match narrow_u64_to_i64(xs[i]) {
                        Ok(x) => out.push(x),
                        Err(_) => {
                            proof {
                                assert(xs@[i as int] > i64::MAX);
                                assert(rt.trace_address == Some(*xs));
                                assert(!Trace::raw_ok(*rt)) by {
                                    if Trace::raw_ok(*rt) {
                                        assert((rt.trace_address->Some_0)@[i as int]
                                            <= i64::MAX);
                                        assert(false);
                                    }
                                }
                            }
                            return Err(Error::RecordConversion);
                        },
                    }
                    i = i + 1;
                }
                Some(out)
            },
            None => None,
        };
        Ok(
            Trace {
                from_: opt_hex(&rt.from_),
                to: opt_hex(&rt.to),
                call_type: opt_clone_text(&rt.call_type),
                gas: opt_hex(&rt.gas),
                input: opt_hex(&rt.input),
                init: opt_hex(&rt.init),
                value: opt_hex(&rt.value),
                author: opt_hex(&rt.author),
                reward_type: opt_clone_text(&rt.reward_type),
                block_hash: opt_hex(&rt.block_hash),
                block_number,
                address: opt_hex(&rt.address),
                code: opt_hex(&rt.code),
                gas_used: opt_hex(&rt.gas_used),
                output: opt_hex(&rt.output),
                subtraces,
                trace_address,
                transaction_hash: opt_hex(&rt.transaction_hash),
                transaction_position,
                kind: opt_clone_text(&rt.kind),
                error: opt_clone_text(&rt.error),
            },
        )
    }
}

/// `f` is the element-wise narrowing of the optional trace address path.
pub open spec fn trace_address_match(v: Option<Vec<u64>>, f: Option<Vec<i64>>) -> bool {
    match v {
        Some(xs) => f matches Some(ys) && ys@.len() == xs@.len() && (forall|i: int|
            0 <= i < xs@.len() ==> xs@[i] <= i64::MAX && #[trigger] ys@[i] == xs@[i] as i64),
        None => f is None,
    }
}

} // verus!
