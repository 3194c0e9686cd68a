//! The call-input decoder: a registry of function signatures indexed by
//! 4-byte selector, plus the per-input decode pipeline.
//!
//! A call input selects its function by its first four bytes; the rest
//! decodes as the function's parameter tuple. An unknown selector, an
//! input shorter than four bytes, a malformed hex string and a layout
//! mismatch all yield "no decoded value" at the public boundary, while
//! the detailed entry point keeps those failure reasons distinct. The
//! decode outcome itself is pinned: it is the named result of decoding
//! the post-selector bytes against the matched entry's signature text,
//! formatted under the current checksum toggle.

use vstd::prelude::*;

use crate::Error;
use crate::abi::decode_call_with_sig;
use crate::abi::function_selector;
use crate::abi::input_decode_of;
use crate::abi::parse_function_selector;
use crate::decode::find_first;
use crate::decode::lemma_find_first_hit;
use crate::decode::lemma_find_first_miss;
use crate::hex::decode_hex;
use crate::hex::spec_decode_hex;
use crate::records::Trace;
use crate::records::Transaction;
use crate::value::DecodedSolValue;
use crate::value::clone_string;
use crate::value::format_values;
use crate::value::formats_values;

verus! {

/// One registry entry: a 4-byte selector and the signature text it was
/// computed from.
#[derive(Debug)]
struct CallEntry {
    selector: Vec<u8>,
    sig: String,
}

/// An immutable selector-indexed registry of function signatures, with
/// one orthogonal toggle for checksummed address formatting.
#[derive(Debug)]
pub struct CallDecoder {
    entries: Vec<CallEntry>,
    checksummed_addresses: bool,
}

impl CallDecoder {
    /// The registered 4-byte selectors, in registration order.
    pub closed spec fn registry(&self) -> Seq<Seq<u8>> {
        Seq::new(self.entries@.len(), |i: int| self.entries@[i].selector@)
    }

    /// The registered signature texts, in registration order.
    pub closed spec fn sigs(&self) -> Seq<Seq<char>> {
        Seq::new(self.entries@.len(), |i: int| self.entries@[i].sig@)
    }

    /// The position of the first entry registered under `t`, if any.
    pub open spec fn spec_find(&self, t: Seq<u8>) -> Option<int> {
        find_first(self.registry(), t)
    }

    /// Whether a selector is registered.
    pub open spec fn has_selector(&self, t: Seq<u8>) -> bool {
        self.spec_find(t) is Some
    }

    /// The checksummed-address formatting toggle.
    pub closed spec fn spec_checksummed(&self) -> bool {
        self.checksummed_addresses
    }

    /// What one collapsed decode of a hex input holds: for valid hex of
    /// at least four bytes whose selector is registered, the named
    /// decode of the remaining bytes against the first matching entry's
    /// signature, formatted under the toggle — `Some` exactly when that
    /// decode fits; `None` for malformed hex, a short input, an unknown
    /// selector or a layout mismatch.
    pub open spec fn call_decode_outcome(
        &self,
        input: Seq<char>,
        r: Option<Vec<DecodedSolValue>>,
    ) -> bool {
        match spec_decode_hex(input) {
            Ok(b) => if b.len() < 4 {
                r is None
            } else {
                match self.spec_find(b.take(4)) {
                    Some(i) => match input_decode_of(self.sigs()[i], b.skip(4)) {
                        Some(vals) => r matches Some(fs) && formats_values(
                            vals,
                            self.spec_checksummed(),
                            fs@,
                        ),
                        None => r is None,
                    },
                    None => r is None,
                }
            },
            Err(_) => r is None,
        }
    }

    /// Builds a call decoder from human-readable function signatures.
    /// Every signature must parse; one bad signature fails the whole
    /// construction with `Error::SignatureParse`, leaving no partial
    /// registry. Each entry keeps its signature text and is indexed by
    /// that signature's selector. Checksummed address formatting starts
    /// disabled.
    pub fn from_signatures(signatures: &Vec<String>) -> (r: Result<CallDecoder, Error>)
        ensures
            r matches Ok(d) ==> {
                &&& d.registry().len() == signatures@.len()
                &&& d.sigs().len() == signatures@.len()
                &&& forall|i: int|
                    0 <= i < signatures@.len() ==> d.sigs()[i] == (#[trigger] signatures@[i])@
                &&& forall|i: int|
                    0 <= i < signatures@.len() ==> function_selector(#[trigger] d.sigs()[i])
                        == Some(d.registry()[i])
                &&& !d.spec_checksummed()
            },
            r matches Err(e) ==> e == Error::SignatureParse && (exists|i: int|
                0 <= i < signatures@.len() && function_selector(
                    #[trigger] signatures@[i]@,
                ) is None),
    {
        let mut entries: Vec<CallEntry> = Vec::new();
        let mut i: usize = 0;
        while i < signatures.len()
            invariant
                i <= signatures@.len(),
                entries@.len() == i,
                forall|j: int|
                    0 <= j < i ==> (#[trigger] entries@[j]).sig@ == signatures@[j]@,
                forall|j: int|
                    0 <= j < i ==> function_selector(signatures@[j]@) == Some(
                        (#[trigger] entries@[j]).selector@,
                    ),
            decreases signatures@.len() - i,
        {
            match parse_function_selector(signatures[i].as_str()) {
                Ok(v) => entries.push(
                    CallEntry { selector: v, sig: clone_string(&signatures[i]) },
                ),
                Err(_) => {
                    return Err(Error::SignatureParse);
                },
            }
            i = i + 1;
        }
        let d = CallDecoder { entries, checksummed_addresses: false };
        proof {
            assert forall|i2: int| 0 <= i2 < signatures@.len() implies d.sigs()[i2] == (
            #[trigger] signatures@[i2])@ by {
                assert(d.sigs()[i2] == d.entries@[i2].sig@);
            }
            assert forall|i2: int| 0 <= i2 < signatures@.len() implies function_selector(
                #[trigger] d.sigs()[i2],
            ) == Some(d.registry()[i2]) by {
                assert(d.sigs()[i2] == d.entries@[i2].sig@);
                assert(d.registry()[i2] == d.entries@[i2].selector@);
            }
        }
        Ok(d)
    }

    /// Turns checksummed address formatting on. The registry is
    /// untouched; only value formatting changes.
    pub fn enable_checksummed_addresses(&mut self)
        ensures
            final(self).spec_checksummed(),
            final(self).registry() == old(self).registry(),
            final(self).sigs() == old(self).sigs(),
    {
        self.checksummed_addresses = true;
    }

    /// Turns checksummed address formatting off. The registry is
    /// untouched; only value formatting changes.
    pub fn disable_checksummed_addresses(&mut self)
        ensures
            !final(self).spec_checksummed(),
            final(self).registry() == old(self).registry(),
            final(self).sigs() == old(self).sigs(),
    {
        self.checksummed_addresses = false;
    }

    /// Looks a 4-byte selector up in the registry, yielding the first
    /// matching entry's signature text.
    fn find_entry(&self, selector: &Vec<u8>) -> (r: Option<&String>)
        ensures
            match self.spec_find(selector@) {
                Some(i) => r matches Some(s) && s@ == self.sigs()[i],
                None => r is None,
            },
    {
        let n = self.entries.len();
        let mut k: usize = 0;
        while k < n
            invariant
                k <= n,
                n == self.entries@.len(),
                forall|j: int| 0 <= j < k ==> (#[trigger] self.registry()[j]) != selector@,
            decreases n - k,
        {
            proof {
                assert(self.registry()[k as int] == self.entries@[k as int].selector@);
            }
            if self.entries[k].selector == *selector {
                proof {
                    assert(self.registry()[k as int] == selector@);
                    lemma_find_first_hit(self.registry(), selector@, k as int);
                    assert(self.sigs()[k as int] == self.entries@[k as int].sig@);
                }
                return Some(&self.entries[k].sig);
            }
            k = k + 1;
        }
        proof {
            lemma_find_first_miss(self.registry(), selector@);
        }
        None
    }

    /// Decodes one hex call input, keeping the failure reasons distinct:
    /// malformed hex is `Error::MalformedHex`, an input shorter than four
    /// bytes or an unknown selector is a clean `None`, and the result
    /// for a registered selector is the named decode of the remaining
    /// bytes against that entry's signature — formatted values when it
    /// fits, `Error::AbiDecode` when it does not.
    pub fn decode_input_detailed(&self, input: &str) -> (r: Result<
        Option<Vec<DecodedSolValue>>,
        Error,
    >)
        ensures
            match spec_decode_hex(input@) {
                Ok(b) => if b.len() < 4 {
                    r == Ok::<Option<Vec<DecodedSolValue>>, Error>(None)
                } else {
                    match self.spec_find(b.take(4)) {
                        Some(i) => match input_decode_of(self.sigs()[i], b.skip(4)) {
                            Some(vals) => r matches Ok(Some(fs)) && formats_values(
                                vals,
                                self.spec_checksummed(),
                                fs@,
                            ),
                            None => r == Err::<Option<Vec<DecodedSolValue>>, Error>(
                                Error::AbiDecode,
                            ),
                        },
                        None => r == Ok::<Option<Vec<DecodedSolValue>>, Error>(None),
                    }
                },
                Err(_) => r == Err::<Option<Vec<DecodedSolValue>>, Error>(Error::MalformedHex),
            },
            r matches Ok(Some(_)) ==> (spec_decode_hex(input@) matches Ok(b) && b.len() >= 4
                && self.has_selector(b.take(4))),
            r matches Err(e) ==> e == Error::MalformedHex || e == Error::AbiDecode,
    {
        let data = match decode_hex(input) {
            Ok(b) => b,
            Err(_) => {
                return Err(Error::MalformedHex);
            },
        };
        if data.len() < 4 {
            return Ok(None);
        }
        let mut selector: Vec<u8> = Vec::new();
        let mut k: usize = 0;
        while k < 4
            invariant
                k <= 4,
                data@.len() >= 4,
                selector@ =~= data@.subrange(0, k as int),
            decreases 4 - k,
        {
            selector.push(data[k]);
            proof {
                assert(selector@ =~= data@.subrange(0, k + 1 as int));
            }
            k = k + 1;
        }
        proof {
            assert(selector@ =~= data@.take(4));
        }
        let sig = match self.find_entry(&selector) {
            Some(s) => s,
            None => {
                return Ok(None);
            },
        };
        let mut rest: Vec<u8> = Vec::new();
        let mut m: usize = 4;
        while m < data.len()
            invariant
                4 <= m <= data@.len(),
                rest@ =~= data@.subrange(4, m as int),
            decreases data@.len() - m,
        {
            rest.push(data[m]);
            proof {
                assert(rest@ =~= data@.subrange(4, m + 1 as int));
            }
            m = m + 1;
        }
        proof {
            assert(rest@ =~= data@.skip(4));
        }
        match decode_call_with_sig(sig.as_str(), &rest) {
            Some(vals) => Ok(Some(format_values(&vals, self.checksummed_addresses))),
            None => Err(Error::AbiDecode),
        }
    }

    /// Decodes one hex call input, collapsing every failure to `None`:
    /// the result is exactly the collapsed decode outcome of the input.
    pub fn decode_impl(&self, input: &str) -> (r: Option<Vec<DecodedSolValue>>)
        ensures
            self.call_decode_outcome(input@, r),
    {
        let r = match self.decode_input_detailed(input) {
            Ok(Some(vals)) => Some(vals),
            _ => None,
        };
        proof {
            assert(self.call_decode_outcome(input@, r));
        }
        r
    }

    /// Decodes a batch of hex call inputs independently: one result per
    /// input, in order, each slot the collapsed decode outcome of its
    /// own input alone; a failing input yields `None` in its own slot.
    pub fn decode_inputs_sync(&self, inputs: &Vec<String>) -> (r: Vec<
        Option<Vec<DecodedSolValue>>,
    >)
        ensures
            r@.len() == inputs@.len(),
            forall|i: int|
                0 <= i < inputs@.len() ==> self.call_decode_outcome(
                    (#[trigger] inputs@[i])@,
                    r@[i],
                ),
    {
        let mut out: Vec<Option<Vec<DecodedSolValue>>> = Vec::new();
        let mut i: usize = 0;
        while i < inputs.len()
            invariant
                i <= inputs@.len(),
                out@.len() == i,
                forall|j: int|
                    0 <= j < i ==> self.call_decode_outcome((#[trigger] inputs@[j])@, out@[j]),
            decreases inputs@.len() - i,
        {
            out.push(self.decode_impl(inputs[i].as_str()));
            i = i + 1;
        }
        out
    }

    /// Decodes the `input` field of each transaction independently: one
    /// result per transaction, each slot the collapsed decode outcome of
    /// its own input; a transaction without an input yields `None` in
    /// its own slot.
    pub fn decode_transactions_input_sync(&self, txs: &Vec<Transaction>) -> (r: Vec<
        Option<Vec<DecodedSolValue>>,
    >)
        ensures
            r@.len() == txs@.len(),
            forall|i: int|
                0 <= i < txs@.len() ==> (match (#[trigger] txs@[i]).input {
                    Some(s) => self.call_decode_outcome(s@, r@[i]),
                    None => r@[i] is None,
                }),
    {
        let mut out: Vec<Option<Vec<DecodedSolValue>>> = Vec::new();
        let mut i: usize = 0;
        while i < txs.len()
            invariant
                i <= txs@.len(),
                out@.len() == i,
                forall|j: int|
                    0 <= j < i ==> (match (#[trigger] txs@[j]).input {
                        Some(s) => self.call_decode_outcome(s@, out@[j]),
                        None => out@[j] is None,
                    }),
            decreases txs@.len() - i,
        {
            match &txs[i].input {
                Some(s) => out.push(self.decode_impl(s.as_str())),
                None => out.push(None),
            }
            i = i + 1;
        }
        out
    }

    /// Decodes the `input` field of each trace independently: one result
    /// per trace, each slot the collapsed decode outcome of its own
    /// input; a trace without an input yields `None` in its own slot.
    pub fn decode_traces_input_sync(&self, traces: &Vec<Trace>) -> (r: Vec<
        Option<Vec<DecodedSolValue>>,
    >)
        ensures
            r@.len() == traces@.len(),
            forall|i: int|
                0 <= i < traces@.len() ==> (match (#[trigger] traces@[i]).input {
                    Some(s) => self.call_decode_outcome(s@, r@[i]),
                    None => r@[i] is None,
                }),
    {
        let mut out: Vec<Option<Vec<DecodedSolValue>>> = Vec::new();
        let mut i: usize = 0;
        while i < traces.len()
            invariant
                i <= traces@.len(),
                out@.len() == i,
                forall|j: int|
                    0 <= j < i ==> (match (#[trigger] traces@[j]).input {
                        Some(s) => self.call_decode_outcome(s@, out@[j]),
                        None => out@[j] is None,
                    }),
            decreases traces@.len() - i,
        {
            match &traces[i].input {
                Some(s) => out.push(self.decode_impl(s.as_str())),
                None => out.push(None),
            }
            i = i + 1;
        }
        out
    }
}

} // verus!
