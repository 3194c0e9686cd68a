//! The trusted boundary to the ABI machinery of the `alloy` crates.
//!
//! Signature parsing, selector hashing and raw ABI decoding are performed
//! by `alloy_json_abi` / `alloy_dyn_abi`; each call is wrapped here with
//! the contract the crates' sources show. Parsing, resolving and decoding
//! are all deterministic functions of their text and byte arguments, so
//! the selector and the decode result each carry a name that the
//! verified registry and pipeline logic build on. Everything around these
//! calls — the selector registry, dispatch, hex handling and value
//! formatting — is verified elsewhere in this crate.

use vstd::prelude::*;

use alloy_dyn_abi::DynSolValue;

use crate::value::DecodedValue;

verus! {

#[verifier::external_type_specification]
#[verifier::external_body]
pub struct ExDynSolValue(alloy_dyn_abi::DynSolValue);

/// What parsing an event signature yields: the 32-byte topic hash of its
/// canonical form, or nothing for a signature that does not parse (or
/// does not resolve to a decodable event). A function of the signature
/// text alone.
pub uninterp spec fn event_topic0(sig: Seq<char>) -> Option<Seq<u8>>;

/// What parsing a function signature yields: the 4-byte selector of its
/// canonical form, or nothing for a signature that does not parse. A
/// function of the signature text alone.
pub uninterp spec fn function_selector(sig: Seq<char>) -> Option<Seq<u8>>;

/// What decoding a log against an event signature yields: the indexed
/// values (from the 32-byte topic words) and the body values (from the
/// data bytes), as this crate's value tree, or nothing when the
/// signature does not parse or the topics/data do not fit its layout. A
/// function of the signature text, the topic words and the data alone.
pub uninterp spec fn event_decode_of(sig: Seq<char>, topics: Seq<Seq<u8>>, data: Seq<u8>) -> Option<
    (Seq<DecodedValue>, Seq<DecodedValue>),
>;

/// What decoding call-input bytes (after the selector) against a
/// function signature yields: one value per declared parameter, in
/// order, or nothing when the signature does not parse or the bytes do
/// not fit its parameter tuple. A function of the signature text and the
/// bytes alone.
pub uninterp spec fn input_decode_of(sig: Seq<char>, data: Seq<u8>) -> Option<Seq<DecodedValue>>;

/// The views of a list of byte buffers, in order.
pub open spec fn byte_list_views(ts: Seq<Vec<u8>>) -> Seq<Seq<u8>> {
    Seq::new(ts.len(), |i: int| ts[i]@)
}

/// Relies on `alloy_json_abi::Event::parse`, `Event::selector`
/// (`keccak256` of the canonical signature) and the resolver to
/// `alloy_dyn_abi::DynSolEvent`: all are functions of the signature text
/// alone; the selector is a 32-byte topic hash. An anonymous event
/// (signature ending in `anonymous`) still parses and yields its
/// selector, although logs of such an event never carry that topic.
#[verifier::external_body]
pub(crate) fn parse_event_topic0(sig: &str) -> (r: Result<Vec<u8>, ()>)
    ensures
        r matches Ok(v) ==> event_topic0(sig@) == Some(v@) && v@.len() == 32,
        r is Err ==> event_topic0(sig@) is None,
{
    match alloy_json_abi::Event::parse(sig) {
        Ok(ev) => {
            let resolved: Result<alloy_dyn_abi::DynSolEvent, _> = alloy_dyn_abi::Specifier::resolve(
                &ev,
            );
            match resolved {
                Ok(_) => Ok(ev.selector().as_slice().to_vec()),
                Err(_) => Err(()),
            }
        },
        Err(_) => Err(()),
    }
}

/// Relies on `alloy_json_abi::Function::parse` and `Function::selector`
/// (the first four bytes of `keccak256` of the canonical signature):
/// both are functions of the signature text alone.
#[verifier::external_body]
pub(crate) fn parse_function_selector(sig: &str) -> (r: Result<Vec<u8>, ()>)
    ensures
        r matches Ok(v) ==> function_selector(sig@) == Some(v@) && v@.len() == 4,
        r is Err ==> function_selector(sig@) is None,
{
    match alloy_json_abi::Function::parse(sig) {
        Ok(f) => Ok(f.selector().as_slice().to_vec()),
        Err(_) => Err(()),
    }
}

/// Relies on `alloy_json_abi::Event::parse`, the resolver and
/// `alloy_dyn_abi::DynSolEvent::decode_log_parts`: together one
/// deterministic function of the signature text, the 32-byte topic words
/// and the data bytes. Any parse, resolve, topic-count, signature or
/// layout mismatch returns an error inside the crate and is `None` here;
/// the resolver always builds the event body as a tuple, which the
/// decoder expects. The result is converted leaf by leaf into this
/// crate's value tree.
#[verifier::external_body]
pub(crate) fn decode_event_with_sig(sig: &str, topics: &Vec<Vec<u8>>, data: &Vec<u8>) -> (r: Option<
    (Vec<DecodedValue>, Vec<DecodedValue>),
>)
    requires
        forall|i: int| 0 <= i < topics@.len() ==> (#[trigger] topics@[i])@.len() == 32,
    ensures
        r matches Some(p) ==> event_decode_of(sig@, byte_list_views(topics@), data@) == Some(
            (p.0@, p.1@),
        ),
        r is None ==> event_decode_of(sig@, byte_list_views(topics@), data@) is None,
{
    let ev = match alloy_json_abi::Event::parse(sig) {
        Ok(e) => e,
        Err(_) => return None,
    };
    let resolved: alloy_dyn_abi::DynSolEvent = match alloy_dyn_abi::Specifier::resolve(&ev) {
        Ok(d) => d,
        Err(_) => return None,
    };
    let ts: Vec<alloy_primitives::B256> = topics.iter().map(
        |t| alloy_primitives::B256::from_slice(t),
    ).collect();
    match resolved.decode_log_parts(ts, data.as_slice()) {
        Ok(d) => Some((convert_values(d.indexed), convert_values(d.body))),
        Err(_) => None,
    }
}

/// Relies on `alloy_json_abi::Function::parse` and
/// `alloy_dyn_abi::JsonAbiExt::abi_decode_input`: together one
/// deterministic function of the signature text and the parameter-tuple
/// bytes (the selector is not part of the bytes). Any parse or layout
/// mismatch is `None`. The result is converted leaf by leaf into this
/// crate's value tree.
#[verifier::external_body]
pub(crate) fn decode_call_with_sig(sig: &str, data: &Vec<u8>) -> (r: Option<Vec<DecodedValue>>)
    ensures
        r matches Some(v) ==> input_decode_of(sig@, data@) == Some(v@),
        r is None ==> input_decode_of(sig@, data@) is None,
{
    let f = match alloy_json_abi::Function::parse(sig) {
        Ok(f) => f,
        Err(_) => return None,
    };
    match alloy_dyn_abi::JsonAbiExt::abi_decode_input(&f, data.as_slice()) {
        Ok(vals) => Some(convert_values(vals)),
        Err(_) => None,
    }
}

/// Relies on the variant accessors of `alloy_dyn_abi::DynSolValue`: one
/// arm per variant, moving each payload into the crate's own value tree
/// (integers as their 32 big-endian two's-complement bytes).
#[verifier::external_body]
pub(crate) fn convert_value(v: DynSolValue) -> DecodedValue {
    match v {
        DynSolValue::Bool(b) => DecodedValue::Bool(b),
        DynSolValue::Int(x, _) => mk_signed(x.into_raw().to_be_bytes_vec()),
        DynSolValue::Uint(x, _) => mk_unsigned(x.to_be_bytes_vec()),
        DynSolValue::FixedBytes(w, _) => mk_fixed(w.as_slice()),
        DynSolValue::Address(a) => mk_address(a.as_slice()),
        DynSolValue::Function(f) => mk_function(f.as_slice()),
        DynSolValue::Bytes(b) => DecodedValue::Bytes(b),
        DynSolValue::String(s) => DecodedValue::Str(s),
        DynSolValue::Array(vs) => DecodedValue::Array(convert_values(vs)),
        DynSolValue::FixedArray(vs) => DecodedValue::FixedArray(convert_values(vs)),
        DynSolValue::Tuple(vs) => DecodedValue::Tuple(convert_values(vs)),
    }
}

/// Relies on the iterator conversion of `Vec`: converts each decoded
/// value in order, keeping the count.
#[verifier::external_body]
pub(crate) fn convert_values(vs: Vec<DynSolValue>) -> (r: Vec<DecodedValue>)
    ensures
        r@.len() == vs@.len(),
{
    vs.into_iter().map(convert_value).collect()
}

/// Wraps two's-complement big-endian bytes as a signed-integer leaf.
fn mk_signed(b: Vec<u8>) -> (r: DecodedValue)
    ensures
        r == DecodedValue::SignedInt(b),
{
    DecodedValue::SignedInt(b)
}

/// Wraps big-endian bytes as an unsigned-integer leaf.
fn mk_unsigned(b: Vec<u8>) -> (r: DecodedValue)
    ensures
        r == DecodedValue::UnsignedInt(b),
{
    DecodedValue::UnsignedInt(b)
}

/// Copies a fixed-bytes word into a fixed-bytes leaf.
fn mk_fixed(b: &[u8]) -> (r: DecodedValue)
    ensures
        r matches DecodedValue::FixedBytes(v) && v@ == b@,
{
    DecodedValue::FixedBytes(slice_to_vec(b))
}

/// Copies address bytes into an address leaf.
fn mk_address(b: &[u8]) -> (r: DecodedValue)
    ensures
        r matches DecodedValue::Address(v) && v@ == b@,
{
    DecodedValue::Address(slice_to_vec(b))
}

/// Copies function-pointer bytes into a function leaf.
fn mk_function(b: &[u8]) -> (r: DecodedValue)
    ensures
        r matches DecodedValue::Function(v) && v@ == b@,
{
    DecodedValue::Function(slice_to_vec(b))
}

/// Copies a byte slice into an owned vector.
fn slice_to_vec(b: &[u8]) -> (r: Vec<u8>)
    ensures
        r@ == b@,
{
    let mut out: Vec<u8> = Vec::new();
    let mut i: usize = 0;
    while i < b.len()
        invariant
            i <= b@.len(),
            out@ =~= b@.subrange(0, i as int),
        decreases b@.len() - i,
    {
        out.push(b[i]);
        proof {
            assert(out@ =~= b@.subrange(0, i + 1 as int));
        }
        i = i + 1;
    }
    proof {
        assert(b@.subrange(0, b@.len() as int) =~= b@);
    }
    out
}

} // verus!
