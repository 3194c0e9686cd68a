//! Tests of the columnar batch reader, the entity materializer and the
//! raw record conversions.

use hypersync::Error;
use hypersync::batch::Column;
use hypersync::batch::ColumnData;
use hypersync::batch::ColumnarBatch;
use hypersync::materialize::FromArrow;
use hypersync::raw::RawLog;
use hypersync::raw::RawTransaction;
use hypersync::records::Block;
use hypersync::records::Log;
use hypersync::records::Transaction;

fn col(name: &str, data: ColumnData) -> Column {
    Column { name: name.to_string(), data }
}

fn bin_cell(bytes: &[u8]) -> Option<Vec<u8>> {
    Some(bytes.to_vec())
}

#[test]
fn materialize_len_equals_row_count_for_every_entity() {
    let batch = ColumnarBatch {
        columns: vec![
            col("block_number", ColumnData::U64(vec![Some(1), Some(2), Some(3)])),
            col("hash", ColumnData::Binary(vec![bin_cell(&[0xaa]), None, bin_cell(&[0xbb])])),
            col("number", ColumnData::U64(vec![Some(7), Some(8), Some(9)])),
        ],
        row_count: 3,
    };
    assert_eq!(Log::from_arrow(&batch).unwrap().len(), 3);
    assert_eq!(Transaction::from_arrow(&batch).unwrap().len(), 3);
    assert_eq!(Block::from_arrow(&batch).unwrap().len(), 3);

    let empty = ColumnarBatch { columns: vec![], row_count: 0 };
    assert_eq!(Log::from_arrow(&empty).unwrap().len(), 0);
    assert_eq!(Transaction::from_arrow(&empty).unwrap().len(), 0);
    assert_eq!(Block::from_arrow(&empty).unwrap().len(), 0);
}

#[test]
fn transaction_from_hash_only_batch_leaves_every_other_field_absent() {
    let batch = ColumnarBatch {
        columns: vec![col(
            "hash",
            ColumnData::Binary(vec![bin_cell(&[0x12, 0x34])]),
        )],
        row_count: 1,
    };
    let txs = Transaction::from_arrow(&batch).unwrap();
    assert_eq!(txs.len(), 1);
    let tx = &txs[0];
    assert_eq!(tx.hash.as_deref(), Some("0x1234"));
    assert_eq!(tx.block_hash, None);
    assert_eq!(tx.block_number, None);
    assert_eq!(tx.from_, None);
    assert_eq!(tx.gas, None);
    assert_eq!(tx.gas_price, None);
    assert_eq!(tx.input, None);
    assert_eq!(tx.nonce, None);
    assert_eq!(tx.to, None);
    assert_eq!(tx.transaction_index, None);
    assert_eq!(tx.value, None);
    assert_eq!(tx.v, None);
    assert_eq!(tx.r, None);
    assert_eq!(tx.s, None);
    assert_eq!(tx.y_parity, None);
    assert_eq!(tx.max_priority_fee_per_gas, None);
    assert_eq!(tx.max_fee_per_gas, None);
    assert_eq!(tx.chain_id, None);
    assert!(tx.access_list.is_none());
    assert_eq!(tx.max_fee_per_blob_gas, None);
    assert!(tx.blob_versioned_hashes.is_none());
    assert_eq!(tx.cumulative_gas_used, None);
    assert_eq!(tx.effective_gas_price, None);
    assert_eq!(tx.gas_used, None);
    assert_eq!(tx.contract_address, None);
    assert_eq!(tx.logs_bloom, None);
    assert_eq!(tx.kind, None);
    assert_eq!(tx.root, None);
    assert_eq!(tx.status, None);
    assert_eq!(tx.l1_fee, None);
    assert_eq!(tx.l1_gas_price, None);
    assert_eq!(tx.l1_gas_used, None);
    assert_eq!(tx.gas_used_for_l1, None);
}

#[test]
fn log_fields_and_topics_follow_their_columns() {
    let batch = ColumnarBatch {
        columns: vec![
            col("block_number", ColumnData::U64(vec![Some(5)])),
            col("removed", ColumnData::Boolean(vec![Some(true)])),
            col("address", ColumnData::Binary(vec![bin_cell(&[0xaa, 0xbb])])),
            col("topic0", ColumnData::Binary(vec![bin_cell(&[0x01])])),
            col("topic1", ColumnData::Binary(vec![None])),
        ],
        row_count: 1,
    };
    let logs = Log::from_arrow(&batch).unwrap();
    let log = &logs[0];
    assert_eq!(log.block_number, Some(5));
    assert_eq!(log.removed, Some(true));
    assert_eq!(log.address.as_deref(), Some("0xaabb"));
    assert_eq!(log.topics, vec![Some("0x01".to_string()), None]);
    assert_eq!(log.data, None);
}

#[test]
fn out_of_range_identifier_fails_the_whole_batch() {
    let batch = ColumnarBatch {
        columns: vec![col(
            "block_number",
            ColumnData::U64(vec![Some(1), Some(u64::MAX)]),
        )],
        row_count: 2,
    };
    assert_eq!(Log::from_arrow(&batch).unwrap_err(), Error::RecordConversion);
    assert_eq!(Transaction::from_arrow(&batch).unwrap_err(), Error::RecordConversion);
}

#[test]
fn block_timestamp_reads_as_big_endian_bytes() {
    let batch = ColumnarBatch {
        columns: vec![
            col("number", ColumnData::U64(vec![Some(1)])),
            col(
                "timestamp",
                ColumnData::Binary(vec![bin_cell(&[0x5b, 0xbc, 0x00, 0x1f])]),
            ),
        ],
        row_count: 1,
    };
    let blocks = Block::from_arrow(&batch).unwrap();
    assert_eq!(blocks[0].number, Some(1));
    assert_eq!(blocks[0].timestamp, Some(1539047455));
}

#[test]
fn block_timestamp_wider_than_eight_bytes_fails_the_batch() {
    let batch = ColumnarBatch {
        columns: vec![col(
            "timestamp",
            ColumnData::Binary(vec![bin_cell(&[0x01; 9])]),
        )],
        row_count: 1,
    };
    assert_eq!(Block::from_arrow(&batch).unwrap_err(), Error::RecordConversion);
}

#[test]
fn mistyped_column_reads_as_absent() {
    // `block_number` is expected as a 64-bit column; a binary column of
    // the same name must be ignored, not an error.
    let batch = ColumnarBatch {
        columns: vec![col(
            "block_number",
            ColumnData::Binary(vec![bin_cell(&[0x01])]),
        )],
        row_count: 1,
    };
    let logs = Log::from_arrow(&batch).unwrap();
    assert_eq!(logs[0].block_number, None);
}

fn empty_raw_log() -> RawLog {
    RawLog {
        removed: None,
        log_index: None,
        transaction_index: None,
        transaction_hash: None,
        block_hash: None,
        block_number: None,
        address: None,
        data: None,
        topics: vec![],
    }
}

#[test]
fn raw_log_converts_with_hex_and_narrowing() {
    let mut raw = empty_raw_log();
    raw.removed = Some(false);
    raw.log_index = Some(7);
    raw.block_number = Some(42);
    raw.address = Some(vec![0xde, 0xad]);
    raw.topics = vec![Some(vec![0x01, 0x02]), None];
    let log = Log::from_raw(&raw).unwrap();
    assert_eq!(log.removed, Some(false));
    assert_eq!(log.log_index, Some(7));
    assert_eq!(log.block_number, Some(42));
    assert_eq!(log.address.as_deref(), Some("0xdead"));
    assert_eq!(log.topics, vec![Some("0x0102".to_string()), None]);
    assert_eq!(log.transaction_hash, None);
}

#[test]
fn raw_log_out_of_range_index_is_reported() {
    let mut raw = empty_raw_log();
    raw.log_index = Some(u64::MAX);
    assert_eq!(Log::from_raw(&raw).unwrap_err(), Error::RecordConversion);
}

#[test]
fn raw_transaction_chain_id_narrows_from_bytes() {
    let raw = RawTransaction {
        block_hash: None,
        block_number: Some(1),
        from_: None,
        gas: None,
        gas_price: None,
        hash: Some(vec![0xab]),
        input: None,
        nonce: None,
        to: None,
        transaction_index: None,
        value: None,
        v: None,
        r: None,
        s: None,
        y_parity: None,
        max_priority_fee_per_gas: None,
        max_fee_per_gas: None,
        chain_id: Some(vec![0x01, 0x00]),
        access_list: None,
        max_fee_per_blob_gas: None,
        blob_versioned_hashes: None,
        cumulative_gas_used: None,
        effective_gas_price: None,
        gas_used: None,
        contract_address: None,
        logs_bloom: None,
        kind: Some(2),
        root: None,
        status: Some(1),
        l1_fee: None,
        l1_gas_price: None,
        l1_gas_used: None,
        gas_used_for_l1: None,
    };
    let tx = Transaction::from_raw(&raw).unwrap();
    assert_eq!(tx.block_number, Some(1));
    assert_eq!(tx.hash.as_deref(), Some("0xab"));
    assert_eq!(tx.chain_id, Some(256));
    assert_eq!(tx.kind, Some(2));
    assert_eq!(tx.status, Some(1));
}

#[test]
fn enumerated_byte_columns_widen_through_the_table() {
    let batch = ColumnarBatch {
        columns: vec![
            col("kind", ColumnData::U8(vec![Some(2), None])),
            col("status", ColumnData::U8(vec![Some(1), Some(0)])),
        ],
        row_count: 2,
    };
    let txs = Transaction::from_arrow(&batch).unwrap();
    assert_eq!(txs[0].kind, Some(2));
    assert_eq!(txs[0].status, Some(1));
    assert_eq!(txs[1].kind, None);
    assert_eq!(txs[1].status, Some(0));
}

#[test]
fn null_cells_leave_fields_absent() {
    let batch = ColumnarBatch {
        columns: vec![
            col("removed", ColumnData::Boolean(vec![None, Some(false)])),
            col("data", ColumnData::Binary(vec![None, bin_cell(&[])])),
        ],
        row_count: 2,
    };
    let logs = Log::from_arrow(&batch).unwrap();
    assert_eq!(logs[0].removed, None);
    assert_eq!(logs[0].data, None);
    assert_eq!(logs[1].removed, Some(false));
    // An empty, non-null cell still encodes to the bare prefix.
    assert_eq!(logs[1].data.as_deref(), Some("0x"));
}

#[test]
fn well_formedness_check_matches_column_lengths() {
    let good = ColumnarBatch {
        columns: vec![col("number", ColumnData::U64(vec![Some(1), Some(2)]))],
        row_count: 2,
    };
    assert!(good.check_wf());
    let bad = ColumnarBatch {
        columns: vec![col("number", ColumnData::U64(vec![Some(1)]))],
        row_count: 2,
    };
    assert!(!bad.check_wf());
}

#[test]
fn null_number_cell_leaves_the_field_absent() {
    let batch = ColumnarBatch {
        columns: vec![col("block_number", ColumnData::U64(vec![Some(3), None]))],
        row_count: 2,
    };
    let logs = Log::from_arrow(&batch).unwrap();
    assert_eq!(logs[0].block_number, Some(3));
    assert_eq!(logs[1].block_number, None);
}
