//! The event decoder: a selector-indexed signature registry plus the
//! per-log decode pipeline.
//!
//! Construction parses every signature and indexes it by its 32-byte
//! topic hash; one bad signature fails the whole construction. A decode
//! call looks the log's first topic up in the registry: an unknown topic
//! is a `None` result, never an error, while malformed hex or a data
//! layout mismatch fails only that one record. The decode outcome itself
//! is pinned: it is the named result of decoding the log's topic words
//! and data against the matched entry's signature text, formatted under
//! the current checksum toggle.

use vstd::prelude::*;

use crate::Error;
use crate::abi::byte_list_views;
use crate::abi::decode_event_with_sig;
use crate::abi::event_decode_of;
use crate::abi::event_topic0;
use crate::abi::parse_event_topic0;
use crate::hex::decode_hex;
use crate::hex::encode_hex;
use crate::hex::spec_decode_hex;
use crate::hex::spec_encode_hex;
use crate::records::Event;
use crate::records::Log;
use crate::value::DecodedSolValue;
use crate::value::clone_string;
use crate::value::format_values;
use crate::value::formats_values;

verus! {

/// One decoded event: the values of the indexed parameters (from the
/// topics) and of the body parameters (from the data), both in source
/// order, formatted for the host.
#[derive(Debug, PartialEq)]
pub struct DecodedEvent {
    pub indexed: Vec<DecodedSolValue>,
    pub body: Vec<DecodedSolValue>,
}

/// One registry entry: a 32-byte topic selector and the signature text
/// it was computed from.
#[derive(Debug)]
struct EventEntry {
    topic0: Vec<u8>,
    sig: String,
}

/// An immutable selector-indexed registry of event signatures, with one
/// orthogonal toggle for checksummed address formatting.
#[derive(Debug)]
pub struct Decoder {
    entries: Vec<EventEntry>,
    checksummed_addresses: bool,
}

/// The length of the leading run of present (`Some`) topics.
pub open spec fn some_prefix_len(ts: Seq<Option<String>>) -> int
    decreases ts.len(),
{
    if ts.len() == 0 {
        0
    } else if ts[0] is None {
        0
    } else {
        1 + some_prefix_len(ts.skip(1))
    }
}

/// Every topic in the leading present run is a `0x` hex string of
/// exactly 32 bytes.
pub open spec fn topics_wf(ts: Seq<Option<String>>) -> bool {
    forall|i: int|
        0 <= i < some_prefix_len(ts) ==> ((#[trigger] ts[i]) matches Some(s) && (spec_decode_hex(
            s@,
        ) matches Ok(b) && b.len() == 32))
}

/// The log has a present first topic and a well-formed leading topic
/// run.
pub open spec fn topics_ok(log: Log) -> bool {
    &&& log.topics@.len() > 0
    &&& log.topics@[0] is Some
    &&& topics_wf(log.topics@)
}

/// The log can be taken through the decode pipeline: well-formed topics
/// and present, well-formed hex data.
pub open spec fn log_wf(log: Log) -> bool {
    &&& topics_ok(log)
    &&& log.data matches Some(d) && spec_decode_hex(d@) is Ok
}

/// The decoded 32-byte words of the log's leading topic run, in order.
pub open spec fn decoded_topics(log: Log) -> Seq<Seq<u8>> {
    Seq::new(
        some_prefix_len(log.topics@) as nat,
        |i: int| spec_decode_hex((log.topics@[i]->Some_0)@)->Ok_0,
    )
}

/// The decoded bytes of the log's data.
pub open spec fn decoded_data(log: Log) -> Seq<u8> {
    spec_decode_hex((log.data->Some_0)@)->Ok_0
}

/// The position of the first selector equal to `t`, if any.
pub open spec fn find_first(reg: Seq<Seq<u8>>, t: Seq<u8>) -> Option<int>
    decreases reg.len(),
{
    if reg.len() == 0 {
        None
    } else if reg[0] == t {
        Some(0)
    } else {
        match find_first(reg.skip(1), t) {
            Some(j) => Some(j + 1),
            None => None,
        }
    }
}

/// A scan that misses the first `k` selectors and hits at `k` finds `k`.
pub proof fn lemma_find_first_hit(reg: Seq<Seq<u8>>, t: Seq<u8>, k: int)
    requires
        0 <= k < reg.len(),
        forall|j: int| 0 <= j < k ==> (#[trigger] reg[j]) != t,
        reg[k] == t,
    ensures
        find_first(reg, t) == Some(k),
    decreases k,
{
    if k > 0 {
        assert(reg[0] != t);
        assert forall|j: int| 0 <= j < k - 1 implies (#[trigger] reg.skip(1)[j]) != t by {
            assert(reg.skip(1)[j] == reg[j + 1]);
        }
        assert(reg.skip(1)[k - 1] == reg[k]);
        lemma_find_first_hit(reg.skip(1), t, k - 1);
    }
}

/// A scan that misses every selector finds nothing.
pub proof fn lemma_find_first_miss(reg: Seq<Seq<u8>>, t: Seq<u8>)
    requires
        forall|j: int| 0 <= j < reg.len() ==> (#[trigger] reg[j]) != t,
    ensures
        find_first(reg, t) is None,
    decreases reg.len(),
{
    if reg.len() > 0 {
        assert forall|j: int| 0 <= j < reg.len() - 1 implies (#[trigger] reg.skip(1)[j]) != t by {
            assert(reg.skip(1)[j] == reg[j + 1]);
        }
        lemma_find_first_miss(reg.skip(1), t);
    }
}

impl Decoder {
    /// The registered 32-byte topic selectors, in registration order.
    pub closed spec fn registry(&self) -> Seq<Seq<u8>> {
        Seq::new(self.entries@.len(), |i: int| self.entries@[i].topic0@)
    }

    /// The registered signature texts, in registration order.
    pub closed spec fn sigs(&self) -> Seq<Seq<char>> {
        Seq::new(self.entries@.len(), |i: int| self.entries@[i].sig@)
    }

    /// The position of the first entry registered under `t`, if any.
    pub open spec fn spec_find(&self, t: Seq<u8>) -> Option<int> {
        find_first(self.registry(), t)
    }

    /// Whether a topic selector is registered.
    pub open spec fn has_topic(&self, t: Seq<u8>) -> bool {
        self.spec_find(t) is Some
    }

    /// The checksummed-address formatting toggle.
    pub closed spec fn spec_checksummed(&self) -> bool {
        self.checksummed_addresses
    }

    /// What one slot of a batch decode holds: for a well-formed log, the
    /// named decode of its topic words and data against the first
    /// matching entry's signature, formatted under the toggle — `Some`
    /// exactly when that decode fits; `None` for an unmatched, ill-formed
    /// or mismatched log.
    pub open spec fn log_decode_slot(&self, log: Log, r: Option<DecodedEvent>) -> bool {
        if log_wf(log) {
            match self.spec_find(decoded_topics(log)[0]) {
                Some(i) => match event_decode_of(
                    self.sigs()[i],
                    decoded_topics(log),
                    decoded_data(log),
                ) {
                    Some(p) => r matches Some(ev) && formats_values(
                        p.0,
                        self.spec_checksummed(),
                        ev.indexed@,
                    ) && formats_values(p.1, self.spec_checksummed(), ev.body@),
                    None => r is None,
                },
                None => r is None,
            }
        } else {
            r is None
        }
    }

    /// Builds a decoder from human-readable event signatures. Every
    /// signature must parse; one bad signature fails the whole
    /// construction with `Error::SignatureParse`, leaving no partial
    /// registry. Each entry keeps its signature text and is indexed by
    /// that signature's topic hash. Checksummed address formatting
    /// starts disabled.
    pub fn from_signatures(signatures: &Vec<String>) -> (r: Result<Decoder, Error>)
        ensures
            r matches Ok(d) ==> {
                &&& d.registry().len() == signatures@.len()
                &&& d.sigs().len() == signatures@.len()
                &&& forall|i: int|
                    0 <= i < signatures@.len() ==> d.sigs()[i] == (#[trigger] signatures@[i])@
                &&& forall|i: int|
                    0 <= i < signatures@.len() ==> event_topic0(#[trigger] d.sigs()[i]) == Some(
                        d.registry()[i],
                    )
                &&& !d.spec_checksummed()
            },
            r matches Err(e) ==> e == Error::SignatureParse && (exists|i: int|
                0 <= i < signatures@.len() && event_topic0(#[trigger] signatures@[i]@) is None),
    {
        let mut entries: Vec<EventEntry> = Vec::new();
        let mut i: usize = 0;
        while i < signatures.len()
            invariant
                i <= signatures@.len(),
                entries@.len() == i,
                forall|j: int|
                    0 <= j < i ==> (#[trigger] entries@[j]).sig@ == signatures@[j]@,
                forall|j: int|
                    0 <= j < i ==> event_topic0(signatures@[j]@) == Some(
                        (#[trigger] entries@[j]).topic0@,
                    ),
            decreases signatures@.len() - i,
        {
            match parse_event_topic0(signatures[i].as_str()) {
                Ok(v) => entries.push(
                    EventEntry { topic0: v, sig: clone_string(&signatures[i]) },
                ),
                Err(_) => {
                    return Err(Error::SignatureParse);
                },
            }
            i = i + 1;
        }
        let d = Decoder { entries, checksummed_addresses: false };
        proof {
            assert forall|i2: int| 0 <= i2 < signatures@.len() implies d.sigs()[i2] == (
            #[trigger] signatures@[i2])@ by {
                assert(d.sigs()[i2] == d.entries@[i2].sig@);
            }
            assert forall|i2: int| 0 <= i2 < signatures@.len() implies event_topic0(
                #[trigger] d.sigs()[i2],
            ) == Some(d.registry()[i2]) by {
                assert(d.sigs()[i2] == d.entries@[i2].sig@);
                assert(d.registry()[i2] == d.entries@[i2].topic0@);
            }
        }
        Ok(d)
    }

    /// Turns checksummed address formatting on. The registry is
    /// untouched; only value formatting changes.
    pub fn enable_checksummed_addresses(&mut self)
        ensures
            final(self).spec_checksummed(),
            final(self).registry() == old(self).registry(),
            final(self).sigs() == old(self).sigs(),
    {
        self.checksummed_addresses = true;
    }

    /// Turns checksummed address formatting off. The registry is
    /// untouched; only value formatting changes.
    pub fn disable_checksummed_addresses(&mut self)
        ensures
            !final(self).spec_checksummed(),
            final(self).registry() == old(self).registry(),
            final(self).sigs() == old(self).sigs(),
    {
        self.checksummed_addresses = false;
    }

    /// Looks a 32-byte selector up in the registry, yielding the first
    /// matching entry's signature text.
    fn find_entry(&self, topic0: &Vec<u8>) -> (r: Option<&String>)
        ensures
            match self.spec_find(topic0@) {
                Some(i) => r matches Some(s) && s@ == self.sigs()[i],
                None => r is None,
            },
    {
        let n = self.entries.len();
        let mut k: usize = 0;
        while k < n
            invariant
                k <= n,
                n == self.entries@.len(),
                forall|j: int| 0 <= j < k ==> (#[trigger] self.registry()[j]) != topic0@,
            decreases n - k,
        {
            proof {
                assert(self.registry()[k as int] == self.entries@[k as int].topic0@);
            }
            if self.entries[k].topic0 == *topic0 {
                proof {
                    assert(self.registry()[k as int] == topic0@);
                    lemma_find_first_hit(self.registry(), topic0@, k as int);
                    assert(self.sigs()[k as int] == self.entries@[k as int].sig@);
                }
                return Some(&self.entries[k].sig);
            }
            k = k + 1;
        }
        proof {
            lemma_find_first_miss(self.registry(), topic0@);
        }
        None
    }

    /// Decodes one log against the registry. The contract covers every
    /// case: a missing or null first topic or missing data is
    /// `Error::AbiDecode`; malformed hex in a leading topic or the data
    /// is `Error::MalformedHex`; a well-formed log with an unregistered
    /// first topic is a clean `Ok(None)`; and for a registered first
    /// topic the result is the named decode of the topic words and data
    /// against that entry's signature — formatted values when it fits,
    /// `Error::AbiDecode` when it does not. Each failure concerns this
    /// one record only.
    pub fn decode_impl(&self, log: &Log) -> (r: Result<Option<DecodedEvent>, Error>)
        ensures
            log.topics@.len() == 0 ==> r == Err::<Option<DecodedEvent>, Error>(Error::AbiDecode),
            log.topics@.len() > 0 && log.topics@[0] is None ==> r == Err::<
                Option<DecodedEvent>,
                Error,
            >(Error::AbiDecode),
            (log.topics@.len() > 0 && log.topics@[0] is Some && !topics_wf(log.topics@)) ==> r
                == Err::<Option<DecodedEvent>, Error>(Error::MalformedHex),
            (topics_ok(*log) && log.data is None) ==> r == Err::<Option<DecodedEvent>, Error>(
                Error::AbiDecode,
            ),
            (topics_ok(*log) && (log.data matches Some(dt) && spec_decode_hex(dt@) is Err)) ==> r
                == Err::<Option<DecodedEvent>, Error>(Error::MalformedHex),
            log_wf(*log) ==> (match self.spec_find(decoded_topics(*log)[0]) {
                Some(i) => match event_decode_of(
                    self.sigs()[i],
                    decoded_topics(*log),
                    decoded_data(*log),
                ) {
                    Some(p) => r matches Ok(Some(ev)) && formats_values(
                        p.0,
                        self.spec_checksummed(),
                        ev.indexed@,
                    ) && formats_values(p.1, self.spec_checksummed(), ev.body@),
                    None => r == Err::<Option<DecodedEvent>, Error>(Error::AbiDecode),
                },
                None => r == Ok::<Option<DecodedEvent>, Error>(None),
            }),
            r matches Ok(Some(_)) ==> log_wf(*log) && self.has_topic(decoded_topics(*log)[0]),
            r matches Err(e) ==> e == Error::MalformedHex || e == Error::AbiDecode,
    {
        let n = log.topics.len();
        if n == 0 {
            return Err(Error::AbiDecode);
        }
        if log.topics[0].is_none() {
            return Err(Error::AbiDecode);
        }
        // Decode the leading run of present topics from hex; each must
        // be exactly 32 bytes.
        let mut topics: Vec<Vec<u8>> = Vec::new();
        let mut i: usize = 0;
        let mut stopped: bool = false;
        while i < n && !stopped
            invariant
                i <= n,
                n == log.topics@.len(),
                log.topics@[0] is Some,
                topics@.len() == i,
                stopped ==> i < n && log.topics@[i as int] is None,
                forall|j: int| 0 <= j < i ==> (#[trigger] log.topics@[j]) is Some,
                forall|j: int|
                    0 <= j < i ==> ((#[trigger] log.topics@[j]) matches Some(s) && (
                    spec_decode_hex(s@) matches Ok(b) && topics@[j]@ == b && b.len() == 32)),
            decreases n - i, (if stopped {
                0int
            } else {
                1int
            }),
        {
            match &log.topics[i] {
                Some(s) => {
                    match decode_hex(s.as_str()) {
                        Ok(b) => {
                            if b.len() != 32 {
                                proof {
                                    lemma_topics_not_wf_at(log.topics@, i as int);
                                }
                                return Err(Error::MalformedHex);
                            }
                            topics.push(b);
                            i = i + 1;
                        },
                        Err(_) => {
                            proof {
                                lemma_topics_not_wf_at(log.topics@, i as int);
                            }
                            return Err(Error::MalformedHex);
                        },
                    }
                },
                None => {
                    stopped = true;
                },
            }
        }
        proof {
            if stopped {
                lemma_some_prefix_exact(log.topics@, i as int);
            } else {
                lemma_some_prefix_exact(log.topics@, n as int);
            }
            assert(some_prefix_len(log.topics@) == topics@.len());
            assert(topics_wf(log.topics@));
        }
        let data = match &log.data {
            Some(d) => match decode_hex(d.as_str()) {
                Ok(b) => b,
                Err(_) => {
                    return Err(Error::MalformedHex);
                },
            },
            None => {
                return Err(Error::AbiDecode);
            },
        };
        proof {
            assert forall|j: int| 0 <= j < topics@.len() implies (#[trigger] topics@[j])@.len()
                == 32 by {
                assert(log.topics@[j] is Some);
            }
            assert(byte_list_views(topics@).len() == decoded_topics(*log).len());
            assert forall|j: int| 0 <= j < topics@.len() implies #[trigger] byte_list_views(
                topics@,
            )[j] == decoded_topics(*log)[j] by {
                assert(log.topics@[j] is Some);
            }
            assert(byte_list_views(topics@) =~= decoded_topics(*log));
            assert(data@ == decoded_data(*log));
        }
        let topic0 = &topics[0];
        proof {
            assert(topic0@ == decoded_topics(*log)[0]);
        }
        match self.find_entry(topic0) {
            Some(sig) => {
                match decode_event_with_sig(sig.as_str(), &topics, &data) {
                    Some(p) => {
                        let (ix, bd) = p;
                        let indexed = format_values(&ix, self.checksummed_addresses);
                        let body = format_values(&bd, self.checksummed_addresses);
                        Ok(Some(DecodedEvent { indexed, body }))
                    },
                    None => Err(Error::AbiDecode),
                }
            },
            None => Ok(None),
        }
    }

    /// Decodes a batch of logs independently: one result per log, in
    /// order, each slot the named decode outcome of its own log alone. A
    /// log that fails to decode (ill-formed, unmatched, or with a layout
    /// mismatch) yields `None` in its own slot and never disturbs its
    /// siblings.
    pub fn decode_logs_sync(&self, logs: &Vec<Log>) -> (r: Vec<Option<DecodedEvent>>)
        ensures
            r@.len() == logs@.len(),
            forall|i: int|
                0 <= i < logs@.len() ==> self.log_decode_slot(#[trigger] logs@[i], r@[i]),
    {
        let mut out: Vec<Option<DecodedEvent>> = Vec::new();
        let mut i: usize = 0;
        while i < logs.len()
            invariant
                i <= logs@.len(),
                out@.len() == i,
                forall|j: int|
                    0 <= j < i ==> self.log_decode_slot(#[trigger] logs@[j], out@[j]),
            decreases logs@.len() - i,
        {
            let slot = match self.decode_impl(&logs[i]) {
                Ok(Some(d)) => Some(d),
                _ => None,
            };
            proof {
                assert(self.log_decode_slot(logs@[i as int], slot));
            }
            out.push(slot);
            i = i + 1;
        }
        out
    }

    /// Decodes the log of each event independently: one result per
    /// event, in order, each slot the named decode outcome of its own
    /// event's log alone, with the same per-record isolation as
    /// `decode_logs_sync`.
    pub fn decode_events_sync(&self, events: &Vec<Event>) -> (r: Vec<Option<DecodedEvent>>)
        ensures
            r@.len() == events@.len(),
            forall|i: int|
                0 <= i < events@.len() ==> self.log_decode_slot(
                    (#[trigger] events@[i]).log,
                    r@[i],
                ),
    {
        let mut out: Vec<Option<DecodedEvent>> = Vec::new();
        let mut i: usize = 0;
        while i < events.len()
            invariant
                i <= events@.len(),
                out@.len() == i,
                forall|j: int|
                    0 <= j < i ==> self.log_decode_slot((#[trigger] events@[j]).log, out@[j]),
            decreases events@.len() - i,
        {
            let slot = match self.decode_impl(&events[i].log) {
                Ok(Some(d)) => Some(d),
                _ => None,
            };
            proof {
                assert(self.log_decode_slot(events@[i as int].log, slot));
            }
            out.push(slot);
            i = i + 1;
        }
        out
    }
}

/// Computes the 32-byte topic hash of a human-readable event signature,
/// as `0x` hex text. Fails with `Error::SignatureParse` exactly when the
/// signature does not parse.
pub fn signature_to_topic0(sig: &str) -> (r: Result<String, Error>)
    ensures
        r matches Ok(s) ==> (event_topic0(sig@) matches Some(t) && s@ == spec_encode_hex(t)),
        r matches Err(e) ==> e == Error::SignatureParse && event_topic0(sig@) is None,
{
    match parse_event_topic0(sig) {
        Ok(v) => Ok(encode_hex(&v)),
        Err(_) => Err(Error::SignatureParse),
    }
}

/// The leading present run is never negative.
proof fn lemma_some_prefix_nonneg(ts: Seq<Option<String>>)
    ensures
        some_prefix_len(ts) >= 0,
    decreases ts.len(),
{
    if ts.len() > 0 && !(ts[0] is None) {
        lemma_some_prefix_nonneg(ts.skip(1));
    }
}

/// If the first `m` topics are present, the leading present run is at
/// least `m` long.
proof fn lemma_some_prefix_lower(ts: Seq<Option<String>>, m: int)
    requires
        0 <= m <= ts.len(),
        forall|j: int| 0 <= j < m ==> (#[trigger] ts[j]) is Some,
    ensures
        some_prefix_len(ts) >= m,
    decreases m,
{
    if m > 0 {
        assert(ts[0] is Some);
        assert forall|j: int| 0 <= j < m - 1 implies (#[trigger] ts.skip(1)[j]) is Some by {
            assert(ts.skip(1)[j] == ts[j + 1]);
        }
        lemma_some_prefix_lower(ts.skip(1), m - 1);
    } else {
        lemma_some_prefix_nonneg(ts);
    }
}

/// If the first `k` topics are present and the run stops there (either
/// the list ends or topic `k` is null), the leading present run is
/// exactly `k` long.
proof fn lemma_some_prefix_exact(ts: Seq<Option<String>>, k: int)
    requires
        0 <= k <= ts.len(),
        forall|j: int| 0 <= j < k ==> (#[trigger] ts[j]) is Some,
        k == ts.len() || ts[k] is None,
    ensures
        some_prefix_len(ts) == k,
    decreases k,
{
    if k == 0 {
    } else {
        assert(ts[0] is Some);
        assert forall|j: int| 0 <= j < k - 1 implies (#[trigger] ts.skip(1)[j]) is Some by {
            assert(ts.skip(1)[j] == ts[j + 1]);
        }
        if k < ts.len() {
            assert(ts.skip(1)[k - 1] == ts[k]);
        }
        lemma_some_prefix_exact(ts.skip(1), k - 1);
    }
}

/// A topic in the leading present run that fails hex decoding (or is not
/// 32 bytes wide) makes the run ill-formed.
proof fn lemma_topics_not_wf_at(ts: Seq<Option<String>>, i: int)
    requires
        0 <= i < ts.len(),
        forall|j: int| 0 <= j < i ==> (#[trigger] ts[j]) is Some,
        ts[i] is Some,
        !((ts[i] matches Some(s) && (spec_decode_hex(s@) matches Ok(b) && b.len() == 32))),
    ensures
        !topics_wf(ts),
{
    lemma_some_prefix_lower(ts, i + 1);
    assert(!topics_wf(ts)) by {
        if topics_wf(ts) {
            assert((ts[i]) matches Some(s2) && (spec_decode_hex(s2@) matches Ok(b2) && b2.len()
                == 32));
            assert(false);
        }
    }
}

} // verus!
