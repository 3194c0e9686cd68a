//! Response conversion: turning a raw paginated response — per-chunk
//! lists of raw records plus header fields — into one row-oriented
//! response with flattened record lists.
//!
//! All chunks of one entity kind are concatenated in order. Header
//! counters are narrowed with range checks; any out-of-range value or
//! failing record conversion fails the whole response with
//! `Error::RecordConversion`.

use vstd::prelude::*;

use crate::Error;
use crate::raw::RawBlock;
use crate::raw::RawLog;
use crate::raw::RawRollbackGuard;
use crate::raw::RawTrace;
use crate::raw::RawTransaction;
use crate::records::Block;
use crate::records::Event;
use crate::records::Log;
use crate::records::RollbackGuard;
use crate::records::Trace;
use crate::records::Transaction;

verus! {

/// An event as handed over by the wire layer.
pub struct RawEvent {
    pub transaction: Option<RawTransaction>,
    pub block: Option<RawBlock>,
    pub log: RawLog,
}

/// The per-entity record chunks of a raw response.
pub struct RawQueryResponseData {
    pub blocks: Vec<Vec<RawBlock>>,
    pub transactions: Vec<Vec<RawTransaction>>,
    pub logs: Vec<Vec<RawLog>>,
    pub traces: Vec<Vec<RawTrace>>,
}

/// One raw paginated response.
pub struct RawQueryResponse {
    pub archive_height: Option<u64>,
    pub next_block: u64,
    pub total_execution_time: u64,
    pub data: RawQueryResponseData,
    pub rollback_guard: Option<RawRollbackGuard>,
}

/// One raw paginated event response: chunks of events.
pub struct RawEventResponse {
    pub archive_height: Option<u64>,
    pub next_block: u64,
    pub total_execution_time: u64,
    pub data: Vec<Vec<RawEvent>>,
    pub rollback_guard: Option<RawRollbackGuard>,
}

/// The flattened record lists of a converted response.
#[derive(Clone, Debug, PartialEq)]
pub struct QueryResponseData {
    pub blocks: Vec<Block>,
    pub transactions: Vec<Transaction>,
    pub logs: Vec<Log>,
    pub traces: Vec<Trace>,
}

/// One converted paginated response.
#[derive(Clone, Debug, PartialEq)]
pub struct QueryResponse {
    pub archive_height: Option<i64>,
    pub next_block: i64,
    pub total_execution_time: i64,
    pub data: QueryResponseData,
    pub rollback_guard: Option<RollbackGuard>,
}

/// One converted paginated event response.
#[derive(Clone, Debug, PartialEq)]
pub struct EventResponse {
    pub archive_height: Option<i64>,
    pub next_block: i64,
    pub total_execution_time: i64,
    pub data: Vec<Event>,
    pub rollback_guard: Option<RollbackGuard>,
}

/// A flattened list of events with the response header kept alongside.
#[derive(Clone, Debug, PartialEq)]
pub struct Events {
    pub archive_height: Option<i64>,
    pub next_block: i64,
    pub total_execution_time: i64,
    pub events: Vec<Event>,
    pub rollback_guard: Option<RollbackGuard>,
}

/// Conversion of one raw record kind into its domain record.
pub trait FromRaw<R>: Sized {
    /// All numeric narrowings of the raw record are in range.
    spec fn rec_raw_ok(r: R) -> bool;

    /// `rec` is the conversion of `r`.
    spec fn rec_matches(r: R, rec: Self) -> bool;

    /// Converts one raw record; a failing narrowing is reported, never
    /// wrapped.
    fn from_raw_rec(r: &R) -> (res: Result<Self, Error>)
        ensures
            res matches Ok(rec) ==> Self::rec_matches(*r, rec),
            res matches Err(e) ==> e == Error::RecordConversion && !Self::rec_raw_ok(*r),
    ;
}

impl FromRaw<RawBlock> for Block {
    open spec fn rec_raw_ok(r: RawBlock) -> bool {
        Block::raw_ok(r)
    }

    open spec fn rec_matches(r: RawBlock, rec: Block) -> bool {
        Block::matches_raw(r, rec)
    }

    fn from_raw_rec(r: &RawBlock) -> (res: Result<Block, Error>) {
        Block::from_raw(r)
    }
}

impl FromRaw<RawTransaction> for Transaction {
    open spec fn rec_raw_ok(r: RawTransaction) -> bool {
        Transaction::raw_ok(r)
    }

    open spec fn rec_matches(r: RawTransaction, rec: Transaction) -> bool {
        Transaction::matches_raw(r, rec)
    }

    fn from_raw_rec(r: &RawTransaction) -> (res: Result<Transaction, Error>) {
        Transaction::from_raw(r)
    }
}

impl FromRaw<RawLog> for Log {
    open spec fn rec_raw_ok(r: RawLog) -> bool {
        Log::raw_ok(r)
    }

    open spec fn rec_matches(r: RawLog, rec: Log) -> bool {
        Log::matches_raw(r, rec)
    }

    fn from_raw_rec(r: &RawLog) -> (res: Result<Log, Error>) {
        Log::from_raw(r)
    }
}

impl FromRaw<RawTrace> for Trace {
    open spec fn rec_raw_ok(r: RawTrace) -> bool {
        Trace::raw_ok(r)
    }

    open spec fn rec_matches(r: RawTrace, rec: Trace) -> bool {
        Trace::matches_raw(r, rec)
    }

    fn from_raw_rec(r: &RawTrace) -> (res: Result<Trace, Error>) {
        Trace::from_raw(r)
    }
}

impl Event {
    /// All numeric narrowings of the raw event's three parts are in
    /// range.
    pub open spec fn raw_ok(re: RawEvent) -> bool {
        &&& match re.transaction {
            Some(t) => Transaction::raw_ok(t),
            None => true,
        }
        &&& match re.block {
            Some(b) => Block::raw_ok(b),
            None => true,
        }
        &&& Log::raw_ok(re.log)
    }

    /// `ev` is the conversion of `re`, part by part.
    pub open spec fn matches_raw(re: RawEvent, ev: Event) -> bool {
        &&& match re.transaction {
            Some(t) => ev.transaction matches Some(tc) && Transaction::matches_raw(t, tc),
            None => ev.transaction is None,
        }
        &&& match re.block {
            Some(b) => ev.block matches Some(bc) && Block::matches_raw(b, bc),
            None => ev.block is None,
        }
        &&& Log::matches_raw(re.log, ev.log)
    }

    /// Converts one raw event record.
    pub fn from_raw(re: &RawEvent) -> (r: Result<Event, Error>)
        ensures
            r matches Ok(ev) ==> Event::matches_raw(*re, ev),
            r matches Err(e) ==> e == Error::RecordConversion && !Event::raw_ok(*re),
    {
        let transaction = match &re.transaction {
            Some(t) => match Transaction::from_raw(t) {
                Ok(tc) => Some(tc),
                Err(e) => {
                    return Err(e);
                },
            },
            None => None,
        };
        let block = match &re.block {
            Some(b) => match Block::from_raw(b) {
                Ok(bc) => Some(bc),
                Err(e) => {
                    return Err(e);
                },
            },
            None => None,
        };
        let log = match Log::from_raw(&re.log) {
            Ok(l) => l,
            Err(e) => {
                return Err(e);
            },
        };
        Ok(Event { transaction, block, log })
    }
}

impl FromRaw<RawEvent> for Event {
    open spec fn rec_raw_ok(r: RawEvent) -> bool {
        Event::raw_ok(r)
    }

    open spec fn rec_matches(r: RawEvent, rec: Event) -> bool {
        Event::matches_raw(r, rec)
    }

    fn from_raw_rec(r: &RawEvent) -> (res: Result<Event, Error>) {
        Event::from_raw(r)
    }
}

/// The concatenation of all chunk views, in order.
pub open spec fn flat_views<R>(bs: Seq<Vec<R>>) -> Seq<R>
    decreases bs.len(),
{
    if bs.len() == 0 {
        Seq::empty()
    } else {
        flat_views(bs.drop_last()) + bs.last()@
    }
}

/// Every record of every chunk converts without a narrowing failure.
pub open spec fn batches_ok<R, T: FromRaw<R>>(bs: Seq<Vec<R>>) -> bool {
    forall|i: int, j: int|
        0 <= i < bs.len() && 0 <= j < bs[i]@.len() ==> T::rec_raw_ok(#[trigger] bs[i]@[j])
}

/// `v` is the in-order conversion of the concatenation of all chunks.
pub open spec fn batches_converted<R, T: FromRaw<R>>(bs: Seq<Vec<R>>, v: Seq<T>) -> bool {
    v.len() == flat_views(bs).len() && forall|k: int|
        0 <= k < v.len() ==> T::rec_matches(#[trigger] flat_views(bs)[k], v[k])
}

/// Converts all chunks of one entity kind into one flat record list, in
/// order. Any failing record conversion fails the whole list.
pub fn convert_batches<R, T: FromRaw<R>>(batches: &Vec<Vec<R>>) -> (res: Result<Vec<T>, Error>)
    ensures
        res matches Ok(v) ==> batches_converted::<R, T>(batches@, v@),
        res matches Err(e) ==> e == Error::RecordConversion && !batches_ok::<R, T>(batches@),
{
    let mut out: Vec<T> = Vec::new();
    let mut i: usize = 0;
    proof {
        assert(batches@.subrange(0, 0) =~= Seq::<Vec<R>>::empty());
    }
    while i < batches.len()
        invariant
            i <= batches@.len(),
            out@.len() == flat_views(batches@.subrange(0, i as int)).len(),
            forall|k: int|
                0 <= k < out@.len() ==> T::rec_matches(
                    #[trigger] flat_views(batches@.subrange(0, i as int))[k],
                    out@[k],
                ),
        decreases batches@.len() - i,
    {
        let batch = &batches[i];
        let ghost flat_pre = flat_views(batches@.subrange(0, i as int));
        let mut j: usize = 0;
        while j < batch.len()
            invariant
                j <= batch@.len(),
                i < batches@.len(),
                batch == &batches[i as int],
                flat_pre == flat_views(batches@.subrange(0, i as int)),
                out@.len() == flat_pre.len() + j,
                forall|k: int|
                    0 <= k < out@.len() ==> T::rec_matches(
                        #[trigger] (flat_pre + batch@.subrange(0, j as int))[k],
                        out@[k],
                    ),
            decreases batch@.len() - j,
        {
            match T::from_raw_rec(&batch[j]) {
                Ok(rec) => {
                    out.push(rec);
                },
                Err(e) => {
                    proof {
                        assert(!T::rec_raw_ok(batches@[i as int]@[j as int]));
                        assert(!batches_ok::<R, T>(batches@)) by {
                            if batches_ok::<R, T>(batches@) {
                                assert(T::rec_raw_ok(batches@[i as int]@[j as int]));
                                assert(false);
                            }
                        }
                    }
                    return Err(e);
                },
            }
            let ghost prev_out = out@;
            j = j + 1;
            proof {
                let newseq = flat_pre + batch@.subrange(0, j as int);
                let oldseq = flat_pre + batch@.subrange(0, j - 1);
                assert(newseq.drop_last() =~= oldseq);
                assert(newseq.last() == batch@[j - 1]);
                assert forall|k: int| 0 <= k < out@.len() implies T::rec_matches(
                    #[trigger] newseq[k],
                    out@[k],
                ) by {
                    if k < out@.len() - 1 {
                        assert(newseq[k] == oldseq[k]);
                        assert(T::rec_matches(oldseq[k], prev_out[k]));
                        assert(out@[k] == prev_out[k]);
                    } else {
                        assert(newseq[k] == batch@[j - 1]);
                    }
                }
            }
        }
        proof {
            let ext = batches@.subrange(0, i + 1 as int);
            assert(ext.drop_last() =~= batches@.subrange(0, i as int));
            assert(ext.last() == batches@[i as int]);
            assert(batch@.subrange(0, j as int) =~= batch@);
            assert(flat_views(ext) =~= flat_pre + batch@);
        }
        i = i + 1;
    }
    proof {
        assert(batches@.subrange(0, batches@.len() as int) =~= batches@);
    }
    Ok(out)
}

/// Whether every part of the raw response converts: header counters and
/// the rollback guard in range, and every record of every chunk clean.
pub open spec fn response_ok(res: RawQueryResponse) -> bool {
    &&& crate::raw::opt_narrow_ok(res.archive_height)
    &&& res.next_block <= i64::MAX
    &&& res.total_execution_time <= i64::MAX
    &&& match res.rollback_guard {
        Some(rg) => RollbackGuard::raw_ok(rg),
        None => true,
    }
    &&& batches_ok::<RawBlock, Block>(res.data.blocks@)
    &&& batches_ok::<RawTransaction, Transaction>(res.data.transactions@)
    &&& batches_ok::<RawLog, Log>(res.data.logs@)
    &&& batches_ok::<RawTrace, Trace>(res.data.traces@)
}

/// `q` is the conversion of `res`: header fields narrowed, each entity
/// kind's chunks flattened in order.
pub open spec fn response_matches(res: RawQueryResponse, q: QueryResponse) -> bool {
    &&& crate::raw::opt_narrowed(res.archive_height, q.archive_height)
    &&& res.next_block <= i64::MAX && q.next_block == res.next_block as i64
    &&& res.total_execution_time <= i64::MAX && q.total_execution_time
        == res.total_execution_time as i64
    &&& match res.rollback_guard {
        Some(rg) => q.rollback_guard matches Some(g) && RollbackGuard::matches_raw(rg, g),
        None => q.rollback_guard is None,
    }
    &&& batches_converted::<RawBlock, Block>(res.data.blocks@, q.data.blocks@)
    &&& batches_converted::<RawTransaction, Transaction>(
        res.data.transactions@,
        q.data.transactions@,
    )
    &&& batches_converted::<RawLog, Log>(res.data.logs@, q.data.logs@)
    &&& batches_converted::<RawTrace, Trace>(res.data.traces@, q.data.traces@)
}

/// Converts one raw paginated response into a row-oriented response:
/// chunks flattened per entity kind, header counters narrowed with range
/// checks. Any failure is reported for the whole response.
pub fn convert_response(res: &RawQueryResponse) -> (r: Result<QueryResponse, Error>)
    ensures
        r matches Ok(q) ==> response_matches(*res, q),
        r matches Err(e) ==> e == Error::RecordConversion && !response_ok(*res),
{
    let blocks = match convert_batches::<RawBlock, Block>(&res.data.blocks) {
        Ok(v) => v,
        Err(e) => {
            return Err(e);
        },
    };
    let transactions = match convert_batches::<RawTransaction, Transaction>(
        &res.data.transactions,
    ) {
        Ok(v) => v,
        Err(e) => {
            return Err(e);
        },
    };
    let logs = match convert_batches::<RawLog, Log>(&res.data.logs) {
        Ok(v) => v,
        Err(e) => {
            return Err(e);
        },
    };
    let traces = match convert_batches::<RawTrace, Trace>(&res.data.traces) {
        Ok(v) => v,
        Err(e) => {
            return Err(e);
        },
    };
    let archive_height = match crate::raw::opt_narrow(&res.archive_height) {
        Ok(f) => f,
        Err(e) => {
            return Err(e);
        },
    };
    let next_block = match crate::numeric::narrow_u64_to_i64(res.next_block) {
        Ok(x) => x,
        Err(_) => {
            return Err(Error::RecordConversion);
        },
    };
    let total_execution_time = match crate::numeric::narrow_u64_to_i64(
        res.total_execution_time,
    ) {
        Ok(x) => x,
        Err(_) => {
            return Err(Error::RecordConversion);
        },
    };
    let rollback_guard = match &res.rollback_guard {
        Some(rg) => match RollbackGuard::try_convert(rg) {
            Ok(g) => Some(g),
            Err(e) => {
                return Err(e);
            },
        },
        None => None,
    };
    Ok(
        QueryResponse {
            archive_height,
            next_block,
            total_execution_time,
            data: QueryResponseData { blocks, transactions, logs, traces },
            rollback_guard,
        },
    )
}

/// Whether every part of the raw event response converts.
pub open spec fn event_response_ok(res: RawEventResponse) -> bool {
    &&& crate::raw::opt_narrow_ok(res.archive_height)
    &&& res.next_block <= i64::MAX
    &&& res.total_execution_time <= i64::MAX
    &&& match res.rollback_guard {
        Some(rg) => RollbackGuard::raw_ok(rg),
        None => true,
    }
    &&& batches_ok::<RawEvent, Event>(res.data@)
}

/// `q` is the conversion of `res`: event chunks flattened in order,
/// header fields narrowed.
pub open spec fn event_response_matches(res: RawEventResponse, q: EventResponse) -> bool {
    &&& crate::raw::opt_narrowed(res.archive_height, q.archive_height)
    &&& res.next_block <= i64::MAX && q.next_block == res.next_block as i64
    &&& res.total_execution_time <= i64::MAX && q.total_execution_time
        == res.total_execution_time as i64
    &&& match res.rollback_guard {
        Some(rg) => q.rollback_guard matches Some(g) && RollbackGuard::matches_raw(rg, g),
        None => q.rollback_guard is None,
    }
    &&& batches_converted::<RawEvent, Event>(res.data@, q.data@)
}

/// Converts one raw paginated event response, flattening its chunks of
/// events in order.
pub fn convert_event_response(res: &RawEventResponse) -> (r: Result<EventResponse, Error>)
    ensures
        r matches Ok(q) ==> event_response_matches(*res, q),
        r matches Err(e) ==> e == Error::RecordConversion && !event_response_ok(*res),
{
    let data = match convert_batches::<RawEvent, Event>(&res.data) {
        Ok(v) => v,
        Err(e) => {
            return Err(e);
        },
    };
    let archive_height = match crate::raw::opt_narrow(&res.archive_height) {
        Ok(f) => f,
        Err(e) => {
            return Err(e);
        },
    };
    let next_block = match crate::numeric::narrow_u64_to_i64(res.next_block) {
        Ok(x) => x,
        Err(_) => {
            return Err(Error::RecordConversion);
        },
    };
    let total_execution_time = match crate::numeric::narrow_u64_to_i64(
        res.total_execution_time,
    ) {
        Ok(x) => x,
        Err(_) => {
            return Err(Error::RecordConversion);
        },
    };
    let rollback_guard = match &res.rollback_guard {
        Some(rg) => match RollbackGuard::try_convert(rg) {
            Ok(g) => Some(g),
            Err(e) => {
                return Err(e);
            },
        },
        None => None,
    };
    Ok(
        EventResponse {
            archive_height,
            next_block,
            total_execution_time,
            data,
            rollback_guard,
        },
    )
}

} // verus!
