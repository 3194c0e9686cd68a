//! Tests of the export bridge's stream discipline and of the response
//! conversion layer.

use hypersync::Error;
use hypersync::batch::Column;
use hypersync::batch::ColumnData;
use hypersync::batch::ColumnarBatch;
use hypersync::export::ExportStream;
use hypersync::raw::RawBlock;
use hypersync::raw::RawLog;
use hypersync::raw::RawRollbackGuard;
use hypersync::records::RollbackGuard;
use hypersync::response::RawEvent;
use hypersync::response::RawEventResponse;
use hypersync::response::RawQueryResponse;
use hypersync::response::RawQueryResponseData;
use hypersync::response::convert_event_response;
use hypersync::response::convert_response;

fn batch_with_rows(rows: Vec<Option<u64>>) -> ColumnarBatch {
    let n = rows.len();
    ColumnarBatch {
        columns: vec![Column { name: "number".to_string(), data: ColumnData::U64(rows) }],
        row_count: n,
    }
}

#[test]
fn exporting_no_batches_signals_no_data() {
    assert!(ExportStream::new(vec![]).is_none());
}

#[test]
fn exporting_zero_total_rows_still_produces_a_stream() {
    // A nonempty sequence of batches whose total row count is zero is an
    // empty result set, not absent data.
    let stream = ExportStream::new(vec![batch_with_rows(vec![]), batch_with_rows(vec![])]);
    assert!(stream.is_some());
    assert_eq!(stream.unwrap().remaining_len(), 2);
}

#[test]
fn stream_pulls_batches_in_order_then_ends() {
    let mut stream = ExportStream::new(vec![
        batch_with_rows(vec![Some(1), Some(2)]),
        batch_with_rows(vec![Some(3)]),
    ])
    .unwrap();
    assert_eq!(stream.get_schema().unwrap(), &vec!["number".to_string()]);
    let first = stream.get_next().unwrap().unwrap();
    assert_eq!(first.row_count, 2);
    let second = stream.get_next().unwrap().unwrap();
    assert_eq!(second.row_count, 1);
    assert!(stream.get_next().unwrap().is_none());
}

#[test]
fn released_stream_reports_misuse() {
    let mut stream = ExportStream::new(vec![batch_with_rows(vec![Some(1)])]).unwrap();
    stream.release();
    assert_eq!(stream.remaining_len(), 0);
    assert_eq!(stream.get_next().unwrap_err(), Error::ExportBridgeState);
    assert_eq!(stream.get_schema().unwrap_err(), Error::ExportBridgeState);
}

fn empty_raw_block() -> RawBlock {
    RawBlock {
        number: None,
        hash: None,
        parent_hash: None,
        nonce: None,
        sha3_uncles: None,
        logs_bloom: None,
        transactions_root: None,
        state_root: None,
        receipts_root: None,
        miner: None,
        difficulty: None,
        total_difficulty: None,
        extra_data: None,
        size: None,
        gas_limit: None,
        gas_used: None,
        timestamp: None,
        uncles: None,
        base_fee_per_gas: None,
        blob_gas_used: None,
        excess_blob_gas: None,
        parent_beacon_block_root: None,
        withdrawals_root: None,
        withdrawals: None,
        l1_block_number: None,
        send_count: None,
        send_root: None,
        mix_hash: None,
    }
}

fn raw_response(blocks: Vec<Vec<RawBlock>>) -> RawQueryResponse {
    RawQueryResponse {
        archive_height: Some(100),
        next_block: 11,
        total_execution_time: 5,
        data: RawQueryResponseData {
            blocks,
            transactions: vec![],
            logs: vec![],
            traces: vec![],
        },
        rollback_guard: None,
    }
}

#[test]
fn convert_response_flattens_chunks_in_order() {
    let mut b1 = empty_raw_block();
    b1.number = Some(1);
    let mut b2 = empty_raw_block();
    b2.number = Some(2);
    let mut b3 = empty_raw_block();
    b3.number = Some(3);
    let res = raw_response(vec![vec![b1, b2], vec![b3]]);
    let conv = convert_response(&res).unwrap();
    assert_eq!(conv.archive_height, Some(100));
    assert_eq!(conv.next_block, 11);
    assert_eq!(conv.total_execution_time, 5);
    let numbers: Vec<Option<i64>> = conv.data.blocks.iter().map(|b| b.number).collect();
    assert_eq!(numbers, vec![Some(1), Some(2), Some(3)]);
    assert!(conv.data.transactions.is_empty());
    assert!(conv.rollback_guard.is_none());
}

#[test]
fn convert_response_reports_out_of_range_record() {
    let mut bad = empty_raw_block();
    bad.number = Some(u64::MAX);
    let res = raw_response(vec![vec![bad]]);
    assert_eq!(convert_response(&res).unwrap_err(), Error::RecordConversion);
}

#[test]
fn convert_event_response_header_overflow_is_reported() {
    let res = RawEventResponse {
        archive_height: Some(u64::MAX),
        next_block: 0,
        total_execution_time: 0,
        data: vec![],
        rollback_guard: None,
    };
    assert_eq!(convert_event_response(&res).unwrap_err(), Error::RecordConversion);
}

#[test]
fn rollback_guard_converts_with_hex_and_narrowing() {
    let rg = RawRollbackGuard {
        block_number: 10,
        timestamp: -5,
        hash: vec![0xaa],
        first_block_number: 3,
        first_parent_hash: vec![0xbb, 0xcc],
    };
    let g = RollbackGuard::try_convert(&rg).unwrap();
    assert_eq!(g.block_number, 10);
    assert_eq!(g.timestamp, -5);
    assert_eq!(g.hash, "0xaa");
    assert_eq!(g.first_block_number, 3);
    assert_eq!(g.first_parent_hash, "0xbbcc");

    let bad = RawRollbackGuard {
        block_number: u64::MAX,
        timestamp: 0,
        hash: vec![],
        first_block_number: 0,
        first_parent_hash: vec![],
    };
    assert_eq!(RollbackGuard::try_convert(&bad).unwrap_err(), Error::RecordConversion);
}

#[test]
fn convert_event_response_flattens_events() {
    let log = RawLog {
        removed: None,
        log_index: Some(4),
        transaction_index: None,
        transaction_hash: None,
        block_hash: None,
        block_number: Some(9),
        address: Some(vec![0x01]),
        data: None,
        topics: vec![],
    };
    let mut block = empty_raw_block();
    block.number = Some(9);
    let ev = RawEvent { transaction: None, block: Some(block), log };
    let res = RawEventResponse {
        archive_height: None,
        next_block: 10,
        total_execution_time: 1,
        data: vec![vec![ev]],
        rollback_guard: None,
    };
    let conv = convert_event_response(&res).unwrap();
    assert_eq!(conv.archive_height, None);
    assert_eq!(conv.data.len(), 1);
    let e = &conv.data[0];
    assert!(e.transaction.is_none());
    assert_eq!(e.block.as_ref().unwrap().number, Some(9));
    assert_eq!(e.log.log_index, Some(4));
    assert_eq!(e.log.address.as_deref(), Some("0x01"));
}
