//! Tests of the signature registries, the event and call decode
//! pipelines, the value formatter and the checksum encoding.

use hypersync::Error;
use hypersync::checksum::to_checksummed_address;
use hypersync::decode::Decoder;
use hypersync::decode::signature_to_topic0;
use hypersync::decode_call::CallDecoder;
use hypersync::records::Event;
use hypersync::records::Log;
use hypersync::records::Trace;
use hypersync::records::Transaction;
use hypersync::value::DecodedSolValue;

const TRANSFER_SIG: &str = "Transfer(address indexed from, address indexed to, uint256 value)";
const TRANSFER_TOPIC0: &str = "0xddf252ad1be2c89b69c2b068fc378daa952ba7f163c4a11628f55a4df523b3ef";

fn topic_for_address(byte: u8) -> String {
    let mut padded = vec![0u8; 12];
    padded.extend_from_slice(&[byte; 20]);
    let mut s = String::from("0x");
    for b in padded {
        s.push_str(&format!("{:02x}", b));
    }
    s
}

fn data_for_uint(v: u128) -> String {
    let mut padded = vec![0u8; 16];
    padded.extend_from_slice(&v.to_be_bytes());
    let mut s = String::from("0x");
    for b in padded {
        s.push_str(&format!("{:02x}", b));
    }
    s
}

fn transfer_log(value: u128) -> Log {
    Log {
        removed: None,
        log_index: None,
        transaction_index: None,
        transaction_hash: None,
        block_hash: None,
        block_number: None,
        address: None,
        data: Some(data_for_uint(value)),
        topics: vec![
            Some(TRANSFER_TOPIC0.to_string()),
            Some(topic_for_address(0x11)),
            Some(topic_for_address(0x22)),
        ],
    }
}

#[test]
fn signature_to_topic0_matches_known_transfer_hash() {
    assert_eq!(signature_to_topic0(TRANSFER_SIG).unwrap(), TRANSFER_TOPIC0);
}

#[test]
fn signature_to_topic0_rejects_garbage() {
    assert_eq!(signature_to_topic0("not a signature").unwrap_err(), Error::SignatureParse);
}

#[test]
fn decoder_construction_fails_on_one_bad_signature() {
    let sigs = vec![TRANSFER_SIG.to_string(), "garbage(".to_string()];
    assert_eq!(Decoder::from_signatures(&sigs).unwrap_err(), Error::SignatureParse);
}

#[test]
fn transfer_log_decodes_into_two_indexed_and_one_body_value() {
    let decoder = Decoder::from_signatures(&vec![TRANSFER_SIG.to_string()]).unwrap();
    let out = decoder.decode_logs_sync(&vec![transfer_log(1_000_000)]);
    assert_eq!(out.len(), 1);
    let ev = out[0].as_ref().unwrap();
    assert_eq!(ev.indexed.len(), 2);
    assert_eq!(ev.body.len(), 1);
    let from_hex = format!("0x{}", "11".repeat(20));
    let to_hex = format!("0x{}", "22".repeat(20));
    assert_eq!(ev.indexed[0], DecodedSolValue::Text(from_hex));
    assert_eq!(ev.indexed[1], DecodedSolValue::Text(to_hex));
    assert_eq!(ev.body[0], DecodedSolValue::Uint("1000000".to_string()));
}

#[test]
fn unknown_topic0_is_a_clean_none() {
    let decoder = Decoder::from_signatures(&vec![TRANSFER_SIG.to_string()]).unwrap();
    let mut log = transfer_log(5);
    log.topics[0] = Some(format!("0x{}", "ab".repeat(32)));
    let direct = decoder.decode_impl(&log);
    assert_eq!(direct.unwrap(), None);
    let out = decoder.decode_logs_sync(&vec![log]);
    assert_eq!(out, vec![None]);
}

#[test]
fn malformed_record_fails_alone_in_a_batch_of_three() {
    let decoder = Decoder::from_signatures(&vec![TRANSFER_SIG.to_string()]).unwrap();
    let mut bad = transfer_log(7);
    // The body expects a full 32-byte word; one byte cannot decode.
    bad.data = Some("0x01".to_string());
    let logs = vec![transfer_log(1), bad, transfer_log(3)];
    let out = decoder.decode_logs_sync(&logs);
    assert_eq!(out.len(), 3);
    assert!(out[0].is_some());
    assert!(out[1].is_none());
    assert!(out[2].is_some());
}

#[test]
fn decode_impl_reports_failure_reasons() {
    let decoder = Decoder::from_signatures(&vec![TRANSFER_SIG.to_string()]).unwrap();
    // No topics at all.
    let mut log = transfer_log(1);
    log.topics = vec![];
    assert_eq!(decoder.decode_impl(&log).unwrap_err(), Error::AbiDecode);
    // A null first topic.
    let mut log = transfer_log(1);
    log.topics[0] = None;
    assert_eq!(decoder.decode_impl(&log).unwrap_err(), Error::AbiDecode);
    // A topic that is not valid hex.
    let mut log = transfer_log(1);
    log.topics[1] = Some("0xzz".to_string());
    assert_eq!(decoder.decode_impl(&log).unwrap_err(), Error::MalformedHex);
    // Missing data.
    let mut log = transfer_log(1);
    log.data = None;
    assert_eq!(decoder.decode_impl(&log).unwrap_err(), Error::AbiDecode);
    // A data layout mismatch.
    let mut log = transfer_log(1);
    log.data = Some("0x01".to_string());
    assert_eq!(decoder.decode_impl(&log).unwrap_err(), Error::AbiDecode);
}

#[test]
fn checksummed_address_known_vector() {
    let addr = hypersync::hex::decode_hex("0x5aaeb6053f3e94c9b9a09f33669435e7ef1beaed").unwrap();
    assert_eq!(
        to_checksummed_address(&addr),
        "0x5aAeb6053F3E94C9b9A09f33669435E7Ef1BeAed"
    );
    let addr2 = hypersync::hex::decode_hex("0xfb6916095ca1df60bb79ce92ce3ea74c37c5d359").unwrap();
    assert_eq!(
        to_checksummed_address(&addr2),
        "0xfB6916095ca1df60bB79Ce92cE3Ea74c37c5d359"
    );
}

#[test]
fn checksum_toggle_changes_only_address_formatting() {
    let mut decoder = Decoder::from_signatures(&vec![TRANSFER_SIG.to_string()]).unwrap();
    let mut log = transfer_log(9);
    let addr_hex = "5aaeb6053f3e94c9b9a09f33669435e7ef1beaed";
    log.topics[1] = Some(format!("0x{}{}", "00".repeat(12), addr_hex));
    decoder.enable_checksummed_addresses();
    let out = decoder.decode_logs_sync(&vec![log]);
    let ev = out[0].as_ref().unwrap();
    assert_eq!(
        ev.indexed[0],
        DecodedSolValue::Text("0x5aAeb6053F3E94C9b9A09f33669435E7Ef1BeAed".to_string())
    );
    // The body value is unaffected by the toggle.
    assert_eq!(ev.body[0], DecodedSolValue::Uint("9".to_string()));
}

const TRANSFER_FN_SIG: &str = "transfer(address to, uint256 amount)";

fn transfer_input(byte: u8, amount: u128) -> String {
    let mut s = String::from("0xa9059cbb");
    s.push_str(&"00".repeat(12));
    s.push_str(&format!("{}", hex_of(&[byte; 20])));
    s.push_str(&data_for_uint(amount)[2..]);
    s
}

fn hex_of(bytes: &[u8]) -> String {
    let mut s = String::new();
    for b in bytes {
        s.push_str(&format!("{:02x}", b));
    }
    s
}

#[test]
fn call_decoder_decodes_known_selector() {
    let decoder = CallDecoder::from_signatures(&vec![TRANSFER_FN_SIG.to_string()]).unwrap();
    let out = decoder.decode_inputs_sync(&vec![transfer_input(0x33, 77)]);
    assert_eq!(out.len(), 1);
    let vals = out[0].as_ref().unwrap();
    assert_eq!(vals.len(), 2);
    assert_eq!(vals[0], DecodedSolValue::Text(format!("0x{}", "33".repeat(20))));
    assert_eq!(vals[1], DecodedSolValue::Uint("77".to_string()));
}

#[test]
fn call_decoder_unknown_selector_and_short_input_are_none() {
    let decoder = CallDecoder::from_signatures(&vec![TRANSFER_FN_SIG.to_string()]).unwrap();
    // Unknown selector.
    assert_eq!(decoder.decode_impl(&format!("0xdeadbeef{}", "00".repeat(64))), None);
    // Shorter than four bytes.
    assert_eq!(decoder.decode_impl("0xa905"), None);
    // Malformed hex.
    assert_eq!(decoder.decode_impl("0xzz"), None);
    // The detailed entry point keeps the reasons distinct.
    assert_eq!(
        decoder.decode_input_detailed("0xzz").unwrap_err(),
        Error::MalformedHex
    );
    assert_eq!(decoder.decode_input_detailed("0xa905").unwrap(), None);
    assert_eq!(
        decoder
            .decode_input_detailed("0xa9059cbb0102")
            .unwrap_err(),
        Error::AbiDecode
    );
}

#[test]
fn call_decoder_construction_fails_on_bad_signature() {
    let sigs = vec!["transfer(".to_string()];
    assert_eq!(CallDecoder::from_signatures(&sigs).unwrap_err(), Error::SignatureParse);
}

#[test]
fn transactions_and_traces_without_input_decode_to_none() {
    let decoder = CallDecoder::from_signatures(&vec![TRANSFER_FN_SIG.to_string()]).unwrap();
    let mut tx = empty_transaction();
    tx.input = Some(transfer_input(0x44, 5));
    let txs = vec![empty_transaction(), tx];
    let out = decoder.decode_transactions_input_sync(&txs);
    assert_eq!(out.len(), 2);
    assert!(out[0].is_none());
    assert!(out[1].is_some());

    let mut trace = empty_trace();
    trace.input = Some(transfer_input(0x55, 6));
    let traces = vec![trace, empty_trace()];
    let out = decoder.decode_traces_input_sync(&traces);
    assert_eq!(out.len(), 2);
    assert!(out[0].is_some());
    assert!(out[1].is_none());
}

fn empty_transaction() -> Transaction {
    Transaction {
        block_hash: None,
        block_number: None,
        from_: None,
        gas: None,
        gas_price: None,
        hash: None,
        input: None,
        nonce: None,
        to: None,
        transaction_index: None,
        value: None,
        v: None,
        r: None,
        s: None,
        y_parity: None,
        max_priority_fee_per_gas: None,
        max_fee_per_gas: None,
        chain_id: None,
        access_list: None,
        max_fee_per_blob_gas: None,
        blob_versioned_hashes: None,
        cumulative_gas_used: None,
        effective_gas_price: None,
        gas_used: None,
        contract_address: None,
        logs_bloom: None,
        kind: None,
        root: None,
        status: None,
        l1_fee: None,
        l1_gas_price: None,
        l1_gas_used: None,
        gas_used_for_l1: None,
    }
}

fn empty_trace() -> Trace {
    Trace {
        from_: None,
        to: None,
        call_type: None,
        gas: None,
        input: None,
        init: None,
        value: None,
        author: None,
        reward_type: None,
        block_hash: None,
        block_number: None,
        address: None,
        code: None,
        gas_used: None,
        output: None,
        subtraces: None,
        trace_address: None,
        transaction_hash: None,
        transaction_position: None,
        kind: None,
        error: None,
    }
}

#[test]
fn decode_events_sync_follows_each_log() {
    let decoder = Decoder::from_signatures(&vec![TRANSFER_SIG.to_string()]).unwrap();
    let good = Event { transaction: None, block: None, log: transfer_log(12) };
    let mut unmatched_log = transfer_log(1);
    unmatched_log.topics[0] = Some(format!("0x{}", "cd".repeat(32)));
    let unmatched = Event { transaction: None, block: None, log: unmatched_log };
    let out = decoder.decode_events_sync(&vec![good, unmatched]);
    assert_eq!(out.len(), 2);
    let ev = out[0].as_ref().unwrap();
    assert_eq!(ev.body[0], DecodedSolValue::Uint("12".to_string()));
    assert!(out[1].is_none());
}

#[test]
fn event_keyword_prefix_parses_too() {
    let with_prefix = format!("event {}", TRANSFER_SIG);
    assert_eq!(signature_to_topic0(&with_prefix).unwrap(), TRANSFER_TOPIC0);
}
