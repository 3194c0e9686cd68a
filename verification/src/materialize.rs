//! The entity materializer: drives the columnar batch reader to build one
//! default-valued row record per batch row, applying each entity's fixed
//! set of column-to-field rules.
//!
//! A known column that is absent from the batch (or present under another
//! physical type) leaves its field at the default; unknown columns are
//! ignored. Numeric identifier fields are range-checked on narrowing: an
//! out-of-range value fails the whole batch with
//! `Error::RecordConversion` rather than wrapping.

use vstd::prelude::*;

use crate::Error;
use crate::batch::ColumnarBatch;
use crate::batch::lemma_lookup_wf;
use crate::hex::encode_hex;
use crate::hex::spec_encode_hex;
use crate::numeric::be_val;
use crate::numeric::i64_from_bytes;
use crate::numeric::narrow_be_bytes_to_i64;
use crate::numeric::narrow_u64_to_i64;
use crate::numeric::spec_i64_from_be;
use crate::records::Block;
use crate::records::Log;
use crate::records::Transaction;

verus! {

/// The named column, if present as a 64-bit array with a non-null cell at
/// row `i`, holds a value in signed range there (absent columns and null
/// cells cannot fail).
pub open spec fn u64_field_ok(b: &ColumnarBatch, name: Seq<char>, i: int) -> bool {
    match b.u64_col(name) {
        Some(col) => match col[i] {
            Some(v) => v <= i64::MAX,
            None => true,
        },
        None => true,
    }
}

/// `f` is the correct value of a 64-bit numeric field: the narrowed cell
/// when the column is present with a non-null cell (which then must be in
/// range), absent otherwise.
pub open spec fn u64_field_matches(
    b: &ColumnarBatch,
    name: Seq<char>,
    i: int,
    f: Option<i64>,
) -> bool {
    match b.u64_col(name) {
        Some(col) => match col[i] {
            Some(v) => v <= i64::MAX && f == Some(v as i64),
            None => f is None,
        },
        None => f is None,
    }
}

/// `f` is the correct value of a boolean field.
pub open spec fn bool_field_matches(
    b: &ColumnarBatch,
    name: Seq<char>,
    i: int,
    f: Option<bool>,
) -> bool {
    match b.bool_col(name) {
        Some(col) => f == col[i],
        None => f is None,
    }
}

/// `f` is the correct value of an 8-bit enumerated field, widened to a
/// 64-bit integer.
pub open spec fn u8_field_matches(
    b: &ColumnarBatch,
    name: Seq<char>,
    i: int,
    f: Option<i64>,
) -> bool {
    match b.u8_col(name) {
        Some(col) => match col[i] {
            Some(x) => f == Some(x as i64),
            None => f is None,
        },
        None => f is None,
    }
}

/// `f` is the correct value of a hex-encoded binary field: the `0x` hex
/// text of the cell when present and non-null, absent otherwise.
pub open spec fn hex_field_matches(
    b: &ColumnarBatch,
    name: Seq<char>,
    i: int,
    f: Option<String>,
) -> bool {
    match b.bin_col(name) {
        Some(col) => match col[i] {
            Some(cell) => f matches Some(s) && s@ == spec_encode_hex(cell@),
            None => f is None,
        },
        None => f is None,
    }
}

/// The named binary column's cell at row `i` fits the eight-byte
/// timestamp reading.
pub open spec fn ts_field_ok(b: &ColumnarBatch, name: Seq<char>, i: int) -> bool {
    match b.bin_col(name) {
        Some(col) => match col[i] {
            Some(cell) => cell@.len() <= 8,
            None => true,
        },
        None => true,
    }
}

/// `f` is the correct value of the timestamp field: the cell's bytes
/// reinterpreted as a big-endian 64-bit quantity, not as a native word.
pub open spec fn ts_field_matches(
    b: &ColumnarBatch,
    name: Seq<char>,
    i: int,
    f: Option<i64>,
) -> bool {
    match b.bin_col(name) {
        Some(col) => match col[i] {
            Some(cell) => cell@.len() <= 8 && (f matches Some(x) && x == spec_i64_from_be(cell@)),
            None => f is None,
        },
        None => f is None,
    }
}

/// The named binary column's cell at row `i` narrows to signed 64-bit
/// range when read as a big-endian integer.
pub open spec fn be_num_field_ok(b: &ColumnarBatch, name: Seq<char>, i: int) -> bool {
    match b.bin_col(name) {
        Some(col) => match col[i] {
            Some(cell) => be_val(cell@) <= i64::MAX,
            None => true,
        },
        None => true,
    }
}

/// `f` is the correct value of a big-endian numeric binary field.
pub open spec fn be_num_field_matches(
    b: &ColumnarBatch,
    name: Seq<char>,
    i: int,
    f: Option<i64>,
) -> bool {
    match b.bin_col(name) {
        Some(col) => match col[i] {
            Some(cell) => be_val(cell@) <= i64::MAX && (f matches Some(x) && x == be_val(cell@)),
            None => f is None,
        },
        None => f is None,
    }
}

/// `f` is the hex text of a nullable binary cell, or absent for a null.
pub open spec fn cell_hex_match(cell: Option<Vec<u8>>, f: Option<String>) -> bool {
    match cell {
        Some(c) => f matches Some(s) && s@ == spec_encode_hex(c@),
        None => f is None,
    }
}

/// The name of the `k`-th topic column.
pub open spec fn topic_name(k: int) -> Seq<char> {
    if k == 0 {
        "topic0"@
    } else if k == 1 {
        "topic1"@
    } else if k == 2 {
        "topic2"@
    } else {
        "topic3"@
    }
}

/// `ts` is the topics vector built from the first `k` topic columns, in
/// column order: one entry per topic column present in the batch.
pub open spec fn topics_match_upto(
    b: &ColumnarBatch,
    i: int,
    ts: Seq<Option<String>>,
    k: int,
) -> bool
    decreases k,
{
    if k <= 0 {
        ts.len() == 0
    } else {
        match b.bin_col(topic_name(k - 1)) {
            Some(col) => ts.len() >= 1 && cell_hex_match(col[i], ts.last()) && topics_match_upto(
                b,
                i,
                ts.drop_last(),
                k - 1,
            ),
            None => topics_match_upto(b, i, ts, k - 1),
        }
    }
}

/// Reads a 64-bit numeric field, failing the batch on an out-of-range
/// value.
fn u64_field(b: &ColumnarBatch, name: &str, i: usize) -> (r: Result<Option<i64>, Error>)
    requires
        b.wf(),
        i < b.row_count,
    ensures
        r matches Ok(f) ==> u64_field_matches(b, name@, i as int, f),
        r matches Err(e) ==> e == Error::RecordConversion && !u64_field_ok(b, name@, i as int),
{
    match b.u64_column(name) {
        Some(col) => {
            proof {
                lemma_lookup_wf(b.columns@, name@, b.row_count as nat);
            }
            match col[i] {
                Some(v) => match narrow_u64_to_i64(v) {
                    Ok(x) => Ok(Some(x)),
                    Err(_) => Err(Error::RecordConversion),
                },
                None => Ok(None),
            }
        },
        None => Ok(None),
    }
}

/// Reads a boolean field.
fn bool_field(b: &ColumnarBatch, name: &str, i: usize) -> (r: Option<bool>)
    requires
        b.wf(),
        i < b.row_count,
    ensures
        bool_field_matches(b, name@, i as int, r),
{
    match b.bool_column(name) {
        Some(col) => {
            proof {
                lemma_lookup_wf(b.columns@, name@, b.row_count as nat);
            }
            col[i]
        },
        None => None,
    }
}

/// Reads an 8-bit enumerated field as a 64-bit integer.
fn u8_field(b: &ColumnarBatch, name: &str, i: usize) -> (r: Option<i64>)
    requires
        b.wf(),
        i < b.row_count,
    ensures
        u8_field_matches(b, name@, i as int, r),
{
    match b.u8_column(name) {
        Some(col) => {
            proof {
                lemma_lookup_wf(b.columns@, name@, b.row_count as nat);
            }
            match col[i] {
                Some(x) => Some(x as i64),
                None => None,
            }
        },
        None => None,
    }
}

/// Reads a binary field as `0x` hex text.
fn hex_field(b: &ColumnarBatch, name: &str, i: usize) -> (r: Option<String>)
    requires
        b.wf(),
        i < b.row_count,
    ensures
        hex_field_matches(b, name@, i as int, r),
{
    match b.bin_column(name) {
        Some(col) => {
            proof {
                lemma_lookup_wf(b.columns@, name@, b.row_count as nat);
            }
            match &col[i] {
                Some(cell) => Some(encode_hex(cell)),
                None => None,
            }
        },
        None => None,
    }
}

/// Reads the timestamp field: big-endian bytes narrowed to a 64-bit
/// quantity; more than eight bytes fail the batch.
fn ts_field(b: &ColumnarBatch, name: &str, i: usize) -> (r: Result<Option<i64>, Error>)
    requires
        b.wf(),
        i < b.row_count,
    ensures
        r matches Ok(f) ==> ts_field_matches(b, name@, i as int, f),
        r matches Err(e) ==> e == Error::RecordConversion && !ts_field_ok(b, name@, i as int),
{
    match b.bin_column(name) {
        Some(col) => {
            proof {
                lemma_lookup_wf(b.columns@, name@, b.row_count as nat);
            }
            match &col[i] {
                Some(cell) => {
                    if cell.len() <= 8 {
                        Ok(Some(i64_from_bytes(cell)))
                    } else {
                        Err(Error::RecordConversion)
                    }
                },
                None => Ok(None),
            }
        },
        None => Ok(None),
    }
}

/// Reads a numeric binary field: big-endian bytes narrowed to a signed
/// 64-bit integer; an out-of-range value fails the batch.
fn be_num_field(b: &ColumnarBatch, name: &str, i: usize) -> (r: Result<Option<i64>, Error>)
    requires
        b.wf(),
        i < b.row_count,
    ensures
        r matches Ok(f) ==> be_num_field_matches(b, name@, i as int, f),
        r matches Err(e) ==> e == Error::RecordConversion && !be_num_field_ok(b, name@, i as int),
{
    match b.bin_column(name) {
        Some(col) => {
            proof {
                lemma_lookup_wf(b.columns@, name@, b.row_count as nat);
            }
            match &col[i] {
                Some(cell) => match narrow_be_bytes_to_i64(cell) {
                    Ok(x) => Ok(Some(x)),
                    Err(_) => Err(Error::RecordConversion),
                },
                None => Ok(None),
            }
        },
        None => Ok(None),
    }
}

/// Builds the topics vector from the `topic0` .. `topic3` columns, in
/// order, one entry per present column.
fn topics_field(b: &ColumnarBatch, i: usize) -> (r: Vec<Option<String>>)
    requires
        b.wf(),
        i < b.row_count,
    ensures
        topics_match_upto(b, i as int, r@, 4),
{
    let mut ts: Vec<Option<String>> = Vec::new();
    assert(topics_match_upto(b, i as int, ts@, 0));
    match b.bin_column("topic0") {
        Some(col) => {
            proof {
                lemma_lookup_wf(b.columns@, "topic0"@, b.row_count as nat);
            }
            let ghost prev = ts@;
            match &col[i] {
                Some(cell) => ts.push(Some(encode_hex(cell))),
                None => ts.push(None),
            }
            proof {
                assert(ts@.drop_last() =~= prev);
            }
        },
        None => {},
    }
    assert(topics_match_upto(b, i as int, ts@, 1));
    match b.bin_column("topic1") {
        Some(col) => {
            proof {
                lemma_lookup_wf(b.columns@, "topic1"@, b.row_count as nat);
            }
            let ghost prev = ts@;
            match &col[i] {
                Some(cell) => ts.push(Some(encode_hex(cell))),
                None => ts.push(None),
            }
            proof {
                assert(ts@.drop_last() =~= prev);
            }
        },
        None => {},
    }
    assert(topics_match_upto(b, i as int, ts@, 2));
    match b.bin_column("topic2") {
        Some(col) => {
            proof {
                lemma_lookup_wf(b.columns@, "topic2"@, b.row_count as nat);
            }
            let ghost prev = ts@;
            match &col[i] {
                Some(cell) => ts.push(Some(encode_hex(cell))),
                None => ts.push(None),
            }
            proof {
                assert(ts@.drop_last() =~= prev);
            }
        },
        None => {},
    }
    assert(topics_match_upto(b, i as int, ts@, 3));
    match b.bin_column("topic3") {
        Some(col) => {
            proof {
                lemma_lookup_wf(b.columns@, "topic3"@, b.row_count as nat);
            }
            let ghost prev = ts@;
            match &col[i] {
                Some(cell) => ts.push(Some(encode_hex(cell))),
                None => ts.push(None),
            }
            proof {
                assert(ts@.drop_last() =~= prev);
            }
        },
        None => {},
    }
    assert(topics_match_upto(b, i as int, ts@, 4));
    ts
}

/// All numeric narrowings of one log row are in range.
pub open spec fn log_row_ok(b: &ColumnarBatch, i: int) -> bool {
    &&& u64_field_ok(b, "block_number"@, i)
    &&& u64_field_ok(b, "transaction_index"@, i)
    &&& u64_field_ok(b, "log_index"@, i)
}

/// `rec` is the log record of row `i`: every mapped field comes from its
/// column (or stays absent), and every unmapped field is absent.
pub open spec fn log_row_matches(b: &ColumnarBatch, i: int, rec: Log) -> bool {
    &&& u64_field_matches(b, "block_number"@, i, rec.block_number)
    &&& u64_field_matches(b, "transaction_index"@, i, rec.transaction_index)
    &&& u64_field_matches(b, "log_index"@, i, rec.log_index)
    &&& bool_field_matches(b, "removed"@, i, rec.removed)
    &&& hex_field_matches(b, "transaction_hash"@, i, rec.transaction_hash)
    &&& hex_field_matches(b, "block_hash"@, i, rec.block_hash)
    &&& hex_field_matches(b, "address"@, i, rec.address)
    &&& hex_field_matches(b, "data"@, i, rec.data)
    &&& topics_match_upto(b, i, rec.topics@, 4)
}

/// Builds one log record from row `i`.
fn log_row(b: &ColumnarBatch, i: usize) -> (r: Result<Log, Error>)
    requires
        b.wf(),
        i < b.row_count,
    ensures
        r matches Ok(rec) ==> log_row_matches(b, i as int, rec),
        r matches Err(e) ==> e == Error::RecordConversion && !log_row_ok(b, i as int),
{
    let block_number = match u64_field(b, "block_number", i) {
        Ok(f) => f,
        Err(e) => {
            return Err(e);
        },
    };
    let transaction_index = match u64_field(b, "transaction_index", i) {
        Ok(f) => f,
        Err(e) => {
            return Err(e);
        },
    };
    let log_index = match u64_field(b, "log_index", i) {
        Ok(f) => f,
        Err(e) => {
            return Err(e);
        },
    };
    Ok(
        Log {
            removed: bool_field(b, "removed", i),
            log_index,
            transaction_index,
            transaction_hash: hex_field(b, "transaction_hash", i),
            block_hash: hex_field(b, "block_hash", i),
            block_number,
            address: hex_field(b, "address", i),
            data: hex_field(b, "data", i),
            topics: topics_field(b, i),
        },
    )
}

/// Materialization of one entity kind from a columnar batch: one record
/// per row, absent columns defaulting their fields, out-of-range numeric
/// identifiers failing the whole batch.
pub trait FromArrow: Sized {
    /// Row `i`'s numeric narrowings are all in range.
    spec fn row_ok(b: &ColumnarBatch, i: int) -> bool;

    /// `rec` is the correct record for row `i`.
    spec fn row_matches(b: &ColumnarBatch, i: int, rec: Self) -> bool;

    /// Builds one record per batch row. The result always holds exactly
    /// `row_count` records; a batch with an out-of-range numeric
    /// identifier fails as a whole with `Error::RecordConversion`.
    fn from_arrow(b: &ColumnarBatch) -> (r: Result<Vec<Self>, Error>)
        requires
            b.wf(),
        ensures
            r matches Ok(v) ==> v@.len() == b.row_count && (forall|i: int|
                0 <= i < v@.len() ==> Self::row_matches(b, i, #[trigger] v@[i])),
            r matches Err(e) ==> e == Error::RecordConversion && (exists|i: int|
                0 <= i < b.row_count && !Self::row_ok(b, i)),
    ;
}

impl FromArrow for Log {
    open spec fn row_ok(b: &ColumnarBatch, i: int) -> bool {
        log_row_ok(b, i)
    }

    open spec fn row_matches(b: &ColumnarBatch, i: int, rec: Log) -> bool {
        log_row_matches(b, i, rec)
    }

    fn from_arrow(b: &ColumnarBatch) -> (r: Result<Vec<Log>, Error>) {
        let mut out: Vec<Log> = Vec::new();
        let mut i: usize = 0;
        while i < b.row_count
            invariant
                b.wf(),
                i <= b.row_count,
                out@.len() == i,
                forall|j: int| 0 <= j < i ==> log_row_matches(b, j, #[trigger] out@[j]),
            decreases b.row_count - i,
        {
            match log_row(b, i) {
                Ok(rec) => out.push(rec),
                Err(e) => {
                    proof {
                        assert(!Self::row_ok(b, i as int));
                    }
                    return Err(e);
                },
            }
            i = i + 1;
        }
        Ok(out)
    }
}

/// All numeric narrowings of one transaction row are in range.
pub open spec fn transaction_row_ok(b: &ColumnarBatch, i: int) -> bool {
    &&& u64_field_ok(b, "block_number"@, i)
    &&& u64_field_ok(b, "transaction_index"@, i)
    &&& be_num_field_ok(b, "chain_id"@, i)
}

/// `rec` is the transaction record of row `i`: every mapped field comes
/// from its column (or stays absent), and every unmapped field is absent.
pub open spec fn transaction_row_matches(b: &ColumnarBatch, i: int, rec: Transaction) -> bool {
    &&& u64_field_matches(b, "block_number"@, i, rec.block_number)
    &&& u64_field_matches(b, "transaction_index"@, i, rec.transaction_index)
    &&& hex_field_matches(b, "block_hash"@, i, rec.block_hash)
    &&& hex_field_matches(b, "from"@, i, rec.from_)
    &&& hex_field_matches(b, "gas"@, i, rec.gas)
    &&& hex_field_matches(b, "gas_price"@, i, rec.gas_price)
    &&& hex_field_matches(b, "hash"@, i, rec.hash)
    &&& hex_field_matches(b, "input"@, i, rec.input)
    &&& hex_field_matches(b, "nonce"@, i, rec.nonce)
    &&& hex_field_matches(b, "to"@, i, rec.to)
    &&& hex_field_matches(b, "value"@, i, rec.value)
    &&& hex_field_matches(b, "v"@, i, rec.v)
    &&& hex_field_matches(b, "r"@, i, rec.r)
    &&& hex_field_matches(b, "s"@, i, rec.s)
    &&& hex_field_matches(b, "max_priority_fee_per_gas"@, i, rec.max_priority_fee_per_gas)
    &&& hex_field_matches(b, "max_fee_per_gas"@, i, rec.max_fee_per_gas)
    &&& be_num_field_matches(b, "chain_id"@, i, rec.chain_id)
    &&& hex_field_matches(b, "cumulative_gas_used"@, i, rec.cumulative_gas_used)
    &&& hex_field_matches(b, "effective_gas_price"@, i, rec.effective_gas_price)
    &&& hex_field_matches(b, "gas_used"@, i, rec.gas_used)
    &&& hex_field_matches(b, "contract_address"@, i, rec.contract_address)
    &&& hex_field_matches(b, "logs_bloom"@, i, rec.logs_bloom)
    &&& u8_field_matches(b, "kind"@, i, rec.kind)
    &&& hex_field_matches(b, "root"@, i, rec.root)
    &&& u8_field_matches(b, "status"@, i, rec.status)
    &&& rec.y_parity is None
    &&& rec.access_list is None
    &&& rec.max_fee_per_blob_gas is None
    &&& rec.blob_versioned_hashes is None
    &&& rec.l1_fee is None
    &&& rec.l1_gas_price is None
    &&& rec.l1_gas_used is None
    &&& rec.gas_used_for_l1 is None
}

/// Builds one transaction record from row `i`.
fn transaction_row(b: &ColumnarBatch, i: usize) -> (r: Result<Transaction, Error>)
    requires
        b.wf(),
        i < b.row_count,
    ensures
        r matches Ok(rec) ==> transaction_row_matches(b, i as int, rec),
        r matches Err(e) ==> e == Error::RecordConversion && !transaction_row_ok(b, i as int),
{
    let block_number = match u64_field(b, "block_number", i) {
        Ok(f) => f,
        Err(e) => {
            return Err(e);
        },
    };
    let transaction_index = match u64_field(b, "transaction_index", i) {
        Ok(f) => f,
        Err(e) => {
            return Err(e);
        },
    };
    let chain_id = match be_num_field(b, "chain_id", i) {
        Ok(f) => f,
        Err(e) => {
            return Err(e);
        },
    };
    Ok(
        Transaction {
            block_hash: hex_field(b, "block_hash", i),
            block_number,
            from_: hex_field(b, "from", i),
            gas: hex_field(b, "gas", i),
            gas_price: hex_field(b, "gas_price", i),
            hash: hex_field(b, "hash", i),
            input: hex_field(b, "input", i),
            nonce: hex_field(b, "nonce", i),
            to: hex_field(b, "to", i),
            transaction_index,
            value: hex_field(b, "value", i),
            v: hex_field(b, "v", i),
            r: hex_field(b, "r", i),
            s: hex_field(b, "s", i),
            y_parity: None,
            max_priority_fee_per_gas: hex_field(b, "max_priority_fee_per_gas", i),
            max_fee_per_gas: hex_field(b, "max_fee_per_gas", i),
            chain_id,
            access_list: None,
            max_fee_per_blob_gas: None,
            blob_versioned_hashes: None,
            cumulative_gas_used: hex_field(b, "cumulative_gas_used", i),
            effective_gas_price: hex_field(b, "effective_gas_price", i),
            gas_used: hex_field(b, "gas_used", i),
            contract_address: hex_field(b, "contract_address", i),
            logs_bloom: hex_field(b, "logs_bloom", i),
            kind: u8_field(b, "kind", i),
            root: hex_field(b, "root", i),
            status: u8_field(b, "status", i),
            l1_fee: None,
            l1_gas_price: None,
            l1_gas_used: None,
            gas_used_for_l1: None,
        },
    )
}

impl FromArrow for Transaction {
    open spec fn row_ok(b: &ColumnarBatch, i: int) -> bool {
        transaction_row_ok(b, i)
    }

    open spec fn row_matches(b: &ColumnarBatch, i: int, rec: Transaction) -> bool {
        transaction_row_matches(b, i, rec)
    }

    fn from_arrow(b: &ColumnarBatch) -> (r: Result<Vec<Transaction>, Error>) {
        let mut out: Vec<Transaction> = Vec::new();
        let mut i: usize = 0;
        while i < b.row_count
            invariant
                b.wf(),
                i <= b.row_count,
                out@.len() == i,
                forall|j: int| 0 <= j < i ==> transaction_row_matches(b, j, #[trigger] out@[j]),
            decreases b.row_count - i,
        {
            match transaction_row(b, i) {
                Ok(rec) => out.push(rec),
                Err(e) => {
                    proof {
                        assert(!Self::row_ok(b, i as int));
                    }
                    return Err(e);
                },
            }
            i = i + 1;
        }
        Ok(out)
    }
}

/// All numeric narrowings of one block row are in range.
pub open spec fn block_row_ok(b: &ColumnarBatch, i: int) -> bool {
    &&& u64_field_ok(b, "number"@, i)
    &&& ts_field_ok(b, "timestamp"@, i)
}

/// `rec` is the block record of row `i`: every mapped field comes from
/// its column (or stays absent), and every unmapped field is absent.
pub open spec fn block_row_matches(b: &ColumnarBatch, i: int, rec: Block) -> bool {
    &&& u64_field_matches(b, "number"@, i, rec.number)
    &&& hex_field_matches(b, "hash"@, i, rec.hash)
    &&& hex_field_matches(b, "parent_hash"@, i, rec.parent_hash)
    &&& hex_field_matches(b, "nonce"@, i, rec.nonce)
    &&& hex_field_matches(b, "sha3_uncles"@, i, rec.sha3_uncles)
    &&& hex_field_matches(b, "logs_bloom"@, i, rec.logs_bloom)
    &&& hex_field_matches(b, "transactions_root"@, i, rec.transactions_root)
    &&& hex_field_matches(b, "state_root"@, i, rec.state_root)
    &&& hex_field_matches(b, "receipts_root"@, i, rec.receipts_root)
    &&& hex_field_matches(b, "miner"@, i, rec.miner)
    &&& hex_field_matches(b, "difficulty"@, i, rec.difficulty)
    &&& hex_field_matches(b, "total_difficulty"@, i, rec.total_difficulty)
    &&& hex_field_matches(b, "extra_data"@, i, rec.extra_data)
    &&& hex_field_matches(b, "size"@, i, rec.size)
    &&& hex_field_matches(b, "gas_limit"@, i, rec.gas_limit)
    &&& hex_field_matches(b, "gas_used"@, i, rec.gas_used)
    &&& ts_field_matches(b, "timestamp"@, i, rec.timestamp)
    &&& hex_field_matches(b, "base_fee_per_gas"@, i, rec.base_fee_per_gas)
    &&& rec.uncles is None
    &&& rec.blob_gas_used is None
    &&& rec.excess_blob_gas is None
    &&& rec.parent_beacon_block_root is None
    &&& rec.withdrawals_root is None
    &&& rec.withdrawals is None
    &&& rec.l1_block_number is None
    &&& rec.send_count is None
    &&& rec.send_root is None
    &&& rec.mix_hash is None
}

/// Builds one block record from row `i`.
fn block_row(b: &ColumnarBatch, i: usize) -> (r: Result<Block, Error>)
    requires
        b.wf(),
        i < b.row_count,
    ensures
        r matches Ok(rec) ==> block_row_matches(b, i as int, rec),
        r matches Err(e) ==> e == Error::RecordConversion && !block_row_ok(b, i as int),
{
    let number = match u64_field(b, "number", i) {
        Ok(f) => f,
        Err(e) => {
            return Err(e);
        },
    };
    let timestamp = match ts_field(b, "timestamp", i) {
        Ok(f) => f,
        Err(e) => {
            return Err(e);
        },
    };
    Ok(
        Block {
            number,
            hash: hex_field(b, "hash", i),
            parent_hash: hex_field(b, "parent_hash", i),
            nonce: hex_field(b, "nonce", i),
            sha3_uncles: hex_field(b, "sha3_uncles", i),
            logs_bloom: hex_field(b, "logs_bloom", i),
            transactions_root: hex_field(b, "transactions_root", i),
            state_root: hex_field(b, "state_root", i),
            receipts_root: hex_field(b, "receipts_root", i),
            miner: hex_field(b, "miner", i),
            difficulty: hex_field(b, "difficulty", i),
            total_difficulty: hex_field(b, "total_difficulty", i),
            extra_data: hex_field(b, "extra_data", i),
            size: hex_field(b, "size", i),
            gas_limit: hex_field(b, "gas_limit", i),
            gas_used: hex_field(b, "gas_used", i),
            timestamp,
            uncles: None,
            base_fee_per_gas: hex_field(b, "base_fee_per_gas", i),
            blob_gas_used: None,
            excess_blob_gas: None,
            parent_beacon_block_root: None,
            withdrawals_root: None,
            withdrawals: None,
            l1_block_number: None,
            send_count: None,
            send_root: None,
            mix_hash: None,
        },
    )
}

impl FromArrow for Block {
    open spec fn row_ok(b: &ColumnarBatch, i: int) -> bool {
        block_row_ok(b, i)
    }

    open spec fn row_matches(b: &ColumnarBatch, i: int, rec: Block) -> bool {
        block_row_matches(b, i, rec)
    }

    fn from_arrow(b: &ColumnarBatch) -> (r: Result<Vec<Block>, Error>) {
        let mut out: Vec<Block> = Vec::new();
        let mut i: usize = 0;
        while i < b.row_count
            invariant
                b.wf(),
                i <= b.row_count,
                out@.len() == i,
                forall|j: int| 0 <= j < i ==> block_row_matches(b, j, #[trigger] out@[j]),
            decreases b.row_count - i,
        {
            match block_row(b, i) {
                Ok(rec) => out.push(rec),
                Err(e) => {
                    proof {
                        assert(!Self::row_ok(b, i as int));
                    }
                    return Err(e);
                },
            }
            i = i + 1;
        }
        Ok(out)
    }
}

} // verus!
