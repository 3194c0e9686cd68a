//! Materialization and decoding core for columnar blockchain data.
//!
//! The crate turns columnar batches (an ordered schema plus one typed array
//! per field) into row-oriented domain records (blocks, transactions, logs,
//! traces), decodes ABI-encoded event logs and call inputs against a
//! signature registry, formats decoded value trees into host-facing leaves,
//! and re-assembles per-batch column sets into a single exported stream.

use vstd::prelude::*;

pub mod abi;
pub mod batch;
pub mod checksum;
pub mod config;
pub mod decimal;
pub mod decode;
pub mod decode_call;
pub mod export;
pub mod hex;
pub mod materialize;
pub mod numeric;
pub mod query;
pub mod raw;
pub mod records;
pub mod response;
pub mod value;

verus! {

/// The error taxonomy of the crate.
///
/// `MalformedHex` marks a single field whose text is not valid hex;
/// `IntegerOverflow` marks a numeric narrowing that cannot hold the value;
/// `RecordConversion` fails a whole batch on an out-of-range identifier;
/// `SignatureParse` fails decoder construction on any invalid signature;
/// `AbiDecode` fails one decode call (one record), never its siblings;
/// `ExportBridgeState` marks misuse of the export stream's lend/return
/// discipline.
#[derive(Clone, Copy, Debug, PartialEq, Eq, Structural)]
pub enum Error {
    MalformedHex,
    IntegerOverflow,
    RecordConversion,
    SignatureParse,
    AbiDecode,
    ExportBridgeState,
}

} // verus!
