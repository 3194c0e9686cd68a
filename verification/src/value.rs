//! The decoded ABI value tree and its host-facing formatting.
//!
//! `DecodedValue` is the recursive tagged union produced by decoding:
//! leaves carry plain bytes (integers as 32 big-endian bytes, addresses as
//! 20 bytes) and text; arrays, fixed arrays and tuples own child values.
//! `DecodedSolValue` is the formatted form handed to the host: booleans
//! pass through, 256-bit integers become full-precision decimal text,
//! byte-like leaves become `0x` hex text, addresses optionally use the
//! mixed-case checksum form, and the three sequence shapes collect their
//! formatted children in source order.

use vstd::prelude::*;

use crate::checksum::spec_checksummed;
use crate::checksum::to_checksummed_address;
use crate::decimal::dec_repr;
use crate::decimal::format_be_signed;
use crate::decimal::format_be_unsigned;
use crate::hex::encode_hex;
use crate::hex::spec_encode_hex;
use crate::numeric::be_val;
use crate::numeric::signed_be_val;

verus! {

/// A decoded ABI value: a recursive tagged union over booleans, signed
/// and unsigned 256-bit integers (as 32 big-endian bytes), fixed byte
/// arrays, addresses, function pointers, raw bytes, strings, and the
/// three sequence shapes.
#[derive(Debug, PartialEq)]
pub enum DecodedValue {
    Bool(bool),
    SignedInt(Vec<u8>),
    UnsignedInt(Vec<u8>),
    FixedBytes(Vec<u8>),
    Address(Vec<u8>),
    Function(Vec<u8>),
    Bytes(Vec<u8>),
    Str(String),
    Array(Vec<DecodedValue>),
    FixedArray(Vec<DecodedValue>),
    Tuple(Vec<DecodedValue>),
}

/// A formatted, host-facing value: a boolean, signed or unsigned decimal
/// text at full precision, other text (hex, checksummed or plain), or an
/// ordered list of formatted children.
#[derive(Debug, PartialEq)]
pub enum DecodedSolValue {
    Bool(bool),
    Int(String),
    Uint(String),
    Text(String),
    List(Vec<DecodedSolValue>),
}

/// `r` is the correct formatting of `v` under the given checksum toggle.
/// Each case pins the output: integers are canonical decimal renderings
/// of the bytes' value, byte-like leaves are their `0x` hex encoding,
/// addresses follow the toggle, and sequences format element-wise in
/// order.
pub open spec fn formats_value(v: DecodedValue, checksummed: bool, r: DecodedSolValue) -> bool
    decreases v,
{
    match v {
        DecodedValue::Bool(b) => r == DecodedSolValue::Bool(b),
        DecodedValue::SignedInt(bs) => r matches DecodedSolValue::Int(s) && dec_repr(
            s@,
            signed_be_val(bs@),
        ),
        DecodedValue::UnsignedInt(bs) => r matches DecodedSolValue::Uint(s) && dec_repr(
            s@,
            be_val(bs@) as int,
        ),
        DecodedValue::FixedBytes(bs) => r matches DecodedSolValue::Text(s) && s@
            == spec_encode_hex(bs@),
        DecodedValue::Address(bs) => r matches DecodedSolValue::Text(s) && (if checksummed
            && bs@.len() == 20 {
            s@ == spec_checksummed(bs@)
        } else {
            s@ == spec_encode_hex(bs@)
        }),
        DecodedValue::Function(bs) => r matches DecodedSolValue::Text(s) && s@
            == spec_encode_hex(bs@),
        DecodedValue::Bytes(bs) => r matches DecodedSolValue::Text(s) && s@ == spec_encode_hex(
            bs@,
        ),
        DecodedValue::Str(t) => r matches DecodedSolValue::Text(s) && s@ == t@,
        DecodedValue::Array(vs) => r matches DecodedSolValue::List(rs) && formats_values(
            vs@,
            checksummed,
            rs@,
        ),
        DecodedValue::FixedArray(vs) => r matches DecodedSolValue::List(rs) && formats_values(
            vs@,
            checksummed,
            rs@,
        ),
        DecodedValue::Tuple(vs) => r matches DecodedSolValue::List(rs) && formats_values(
            vs@,
            checksummed,
            rs@,
        ),
    }
}

/// Element-wise formatting of a sequence of values, preserving order and
/// length.
pub open spec fn formats_values(
    vs: Seq<DecodedValue>,
    checksummed: bool,
    rs: Seq<DecodedSolValue>,
) -> bool
    decreases vs,
{
    rs.len() == vs.len() && forall|i: int|
        0 <= i < vs.len() ==> formats_value(#[trigger] vs[i], checksummed, rs[i])
}

impl DecodedSolValue {
    /// Formats one decoded value for the host. The checksum toggle is
    /// consulted at each address leaf.
    pub fn new(val: &DecodedValue, checksummed_addresses: bool) -> (r: DecodedSolValue)
        ensures
            formats_value(*val, checksummed_addresses, r),
        decreases *val,
    {
        match val {
            DecodedValue::Bool(b) => DecodedSolValue::Bool(*b),
            DecodedValue::SignedInt(bs) => DecodedSolValue::Int(format_be_signed(bs)),
            DecodedValue::UnsignedInt(bs) => DecodedSolValue::Uint(format_be_unsigned(bs)),
            DecodedValue::FixedBytes(bs) => DecodedSolValue::Text(encode_hex(bs)),
            DecodedValue::Address(bs) => {
                if checksummed_addresses && bs.len() == 20 {
                    DecodedSolValue::Text(to_checksummed_address(bs))
                } else {
                    DecodedSolValue::Text(encode_hex(bs))
                }
            },
            DecodedValue::Function(bs) => DecodedSolValue::Text(encode_hex(bs)),
            DecodedValue::Bytes(bs) => DecodedSolValue::Text(encode_hex(bs)),
            DecodedValue::Str(t) => DecodedSolValue::Text(clone_string(t)),
            DecodedValue::Array(vs) => DecodedSolValue::List(
                format_values(vs, checksummed_addresses),
            ),
            DecodedValue::FixedArray(vs) => DecodedSolValue::List(
                format_values(vs, checksummed_addresses),
            ),
            DecodedValue::Tuple(vs) => DecodedSolValue::List(
                format_values(vs, checksummed_addresses),
            ),
        }
    }
}

/// Clones a string, keeping its characters.
pub fn clone_string(s: &String) -> (r: String)
    ensures
        r@ == s@,
{
    let mut out = String::new();
    out.append(s.as_str());
    out
}

/// Formats a sequence of decoded values element-wise, in order.
pub fn format_values(vals: &Vec<DecodedValue>, checksummed_addresses: bool) -> (r: Vec<
    DecodedSolValue,
>)
    ensures
        formats_values(vals@, checksummed_addresses, r@),
    decreases vals@,
{
    let mut out: Vec<DecodedSolValue> = Vec::new();
    let mut i: usize = 0;
    while i < vals.len()
        invariant
            i <= vals@.len(),
            out@.len() == i,
            forall|j: int|
                0 <= j < i ==> formats_value(#[trigger] vals@[j], checksummed_addresses, out@[j]),
        decreases vals@.len() - i,
    {
        proof {
            assert(decreases_to!(vals@ => vals@[i as int]));
        }
        let v = DecodedSolValue::new(&vals[i], checksummed_addresses);
        out.push(v);
        i = i + 1;
    }
    out
}

} // verus!
