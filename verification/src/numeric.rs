//! Big-endian byte arithmetic: integer values of byte columns, width
//! narrowing with overflow reporting, and decimal formatting of 256-bit
//! quantities with full precision.

use vstd::prelude::*;
use vstd::string::StrSliceExecFns;
use vstd::string::StringExecFns;

use crate::Error;
use crate::hex::hex_digit;

verus! {

/// The unsigned value of a big-endian byte sequence.
pub open spec fn be_val(s: Seq<u8>) -> nat
    decreases s.len(),
{
    if s.len() == 0 {
        0
    } else {
        be_val(s.drop_last()) * 256 + s.last() as nat
    }
}

/// 256 raised to the power `n`.
pub open spec fn pow256(n: nat) -> nat
    decreases n,
{
    if n == 0 {
        1
    } else {
        256 * pow256((n - 1) as nat)
    }
}

/// 10 raised to the power `n`.
pub open spec fn pow10(n: nat) -> nat
    decreases n,
{
    if n == 0 {
        1
    } else {
        10 * pow10((n - 1) as nat)
    }
}

/// A big-endian value is below 256 to the number of its bytes.
pub proof fn lemma_be_val_bound(s: Seq<u8>)
    ensures
        be_val(s) < pow256(s.len()),
    decreases s.len(),
{
    if s.len() > 0 {
        lemma_be_val_bound(s.drop_last());
    }
}

/// Splitting a byte sequence splits its value positionally.
pub proof fn lemma_be_val_split(s: Seq<u8>, k: int)
    requires
        0 <= k <= s.len(),
    ensures
        be_val(s) == be_val(s.take(k)) * pow256((s.len() - k) as nat) + be_val(s.skip(k)),
    decreases s.len(),
{
    if k == s.len() {
        assert(s.take(k) =~= s);
        assert(s.skip(k) =~= Seq::<u8>::empty());
        assert(be_val(Seq::<u8>::empty()) == 0);
        assert(pow256(0) == 1);
        assert(be_val(s) * 1 == be_val(s)) by (nonlinear_arith);
        assert(be_val(s) == be_val(s.take(k)) * pow256((s.len() - k) as nat) + be_val(s.skip(k)));
    } else {
        let p = s.drop_last();
        lemma_be_val_split(p, k);
        assert(s.take(k) =~= p.take(k));
        assert(s.skip(k).drop_last() =~= p.skip(k));
        assert(s.skip(k).last() == s.last());
        let a = be_val(p.take(k));
        let b = pow256((p.len() - k) as nat);
        let c = be_val(p.skip(k));
        assert(pow256((s.len() - k) as nat) == 256 * b);
        assert(be_val(s.skip(k)) == c * 256 + s.last());
        assert(be_val(s) == be_val(p) * 256 + s.last());
        assert(be_val(p) == a * b + c);
        assert(be_val(s) == (a * b + c) * 256 + s.last());
        assert((a * b + c) * 256 == a * (256 * b) + c * 256) by (nonlinear_arith);
        assert(be_val(s) == a * (256 * b) + (c * 256 + s.last()));
        assert(be_val(s) == be_val(s.take(k)) * pow256((s.len() - k) as nat) + be_val(s.skip(k)));
    }
}

/// A value is zero exactly when every byte is zero.
pub proof fn lemma_be_val_zero(s: Seq<u8>)
    ensures
        (be_val(s) == 0) <==> (forall|i: int| 0 <= i < s.len() ==> s[i] == 0),
    decreases s.len(),
{
    if s.len() > 0 {
        let p = s.drop_last();
        lemma_be_val_zero(p);
        if be_val(s) == 0 {
            assert(forall|i: int| 0 <= i < p.len() ==> #[trigger] s[i] == p[i]);
        } else {
            if forall|i: int| 0 <= i < s.len() ==> s[i] == 0 {
                assert(forall|i: int| 0 <= i < p.len() ==> #[trigger] p[i] == s[i]);
                assert(be_val(p) == 0);
                assert(s.last() == 0);
            }
        }
    }
}

/// Reading more leading bytes never lowers the value.
pub proof fn lemma_be_val_take_le(s: Seq<u8>, i: int, j: int)
    requires
        0 <= i <= j <= s.len(),
    ensures
        be_val(s.take(i)) <= be_val(s.take(j)),
    decreases j - i,
{
    if i < j {
        lemma_be_val_take_le(s, i + 1, j);
        assert(s.take(i + 1).drop_last() =~= s.take(i));
        let a = be_val(s.take(i));
        assert(a <= a * 256) by (nonlinear_arith);
    }
}

/// The signed, two's-complement value of a big-endian byte sequence.
pub open spec fn signed_be_val(s: Seq<u8>) -> int {
    if s.len() > 0 && s[0] >= 128 {
        be_val(s) - pow256(s.len())
    } else {
        be_val(s) as int
    }
}

/// What `i64_from_bytes` returns: the two's-complement 64-bit reading of
/// at most eight big-endian bytes (fewer than eight bytes are left-padded
/// with zero, so they always read as non-negative).
pub open spec fn spec_i64_from_be(s: Seq<u8>) -> int {
    if s.len() == 8 && s[0] >= 128 {
        be_val(s) - 0x1_0000_0000_0000_0000
    } else {
        be_val(s) as int
    }
}

/// Reads at most eight big-endian bytes as a 64-bit signed integer, as if
/// left-padded with zero bytes to the full width.
pub fn i64_from_bytes(v: &Vec<u8>) -> (r: i64)
    requires
        v@.len() <= 8,
    ensures
        r as int == spec_i64_from_be(v@),
{
    let len = v.len();
    let mut acc: u64 = 0;
    let mut i: usize = 0;
    while i < len
        invariant
            i <= len,
            len == v@.len() <= 8,
            acc as nat == be_val(v@.subrange(0, i as int)),
        decreases len - i,
    {
        proof {
            lemma_be_val_bound(v@.subrange(0, i as int));
            lemma_pow256_le(i as nat, 7);
            reveal_with_fuel(pow256, 9);
            assert(v@.subrange(0, i + 1 as int).drop_last() =~= v@.subrange(0, i as int));
        }
        acc = acc * 256 + (v[i] as u64);
        i = i + 1;
    }
    proof {
        assert(v@.subrange(0, len as int) =~= v@);
        if len == 8 {
            lemma_be_val_msb(v@);
        } else {
            lemma_be_val_bound(v@);
            lemma_pow256_le(len as nat, 7);
            assert(pow256(7) == 0x100_0000_0000_0000) by {
                reveal_with_fuel(pow256, 9);
            }
        }
    }
    if acc <= 0x7fff_ffff_ffff_ffff {
        acc as i64
    } else {
        // The top bit is set: reinterpret as a negative two's-complement
        // value without any wrapping cast.
        -((u64::MAX - acc) as i64) - 1
    }
}

/// An eight-byte value lies on one side of the sign boundary according to
/// its first byte.
pub proof fn lemma_be_val_msb(s: Seq<u8>)
    requires
        s.len() == 8,
    ensures
        s[0] >= 128 ==> be_val(s) >= 0x8000_0000_0000_0000,
        s[0] < 128 ==> be_val(s) < 0x8000_0000_0000_0000,
        be_val(s) < 0x1_0000_0000_0000_0000,
{
    lemma_be_val_split(s, 1);
    lemma_be_val_bound(s.skip(1));
    assert(s.take(1).drop_last() =~= Seq::<u8>::empty());
    assert(be_val(Seq::<u8>::empty()) == 0);
    assert(s.take(1).last() == s[0]);
    assert(be_val(s.take(1)) == s[0]);
    assert(pow256(7) == 0x100_0000_0000_0000) by {
        reveal_with_fuel(pow256, 9);
    }
    let c = be_val(s.skip(1));
    assert(be_val(s) == s[0] * 0x100_0000_0000_0000 + c);
    if s[0] >= 128 {
        assert(s[0] * 0x100_0000_0000_0000 >= 128 * 0x100_0000_0000_0000) by (nonlinear_arith)
            requires
                s[0] >= 128,
        ;
    } else {
        assert(s[0] * 0x100_0000_0000_0000 <= 127 * 0x100_0000_0000_0000) by (nonlinear_arith)
            requires
                s[0] < 128,
        ;
    }
    assert(s[0] * 0x100_0000_0000_0000 <= 255 * 0x100_0000_0000_0000) by (nonlinear_arith)
        requires
            s[0] <= 255,
    ;
}

/// `pow256` is monotonic in its exponent.
pub proof fn lemma_pow256_le(a: nat, b: nat)
    requires
        a <= b,
    ensures
        pow256(a) <= pow256(b),
    decreases b,
{
    if a < b {
        lemma_pow256_le(a, (b - 1) as nat);
        let p = pow256((b - 1) as nat);
        assert(p <= 256 * p) by (nonlinear_arith);
    }
}

/// Narrows a 64-bit unsigned value to a 64-bit signed value; fails with
/// `Error::IntegerOverflow` exactly when the value does not fit.
pub fn narrow_u64_to_i64(v: u64) -> (r: Result<i64, Error>)
    ensures
        v <= i64::MAX ==> r == Ok::<i64, Error>(v as i64),
        v > i64::MAX ==> r == Err::<i64, Error>(Error::IntegerOverflow),
{
    if v <= 0x7fff_ffff_ffff_ffff {
        Ok(v as i64)
    } else {
        Err(Error::IntegerOverflow)
    }
}

/// Reads a big-endian byte sequence of any length as a non-negative 64-bit
/// signed integer; fails with `Error::IntegerOverflow` exactly when the
/// value exceeds `i64::MAX`.
pub fn narrow_be_bytes_to_i64(v: &Vec<u8>) -> (r: Result<i64, Error>)
    ensures
        be_val(v@) <= i64::MAX ==> r == Ok::<i64, Error>(be_val(v@) as i64),
        be_val(v@) > i64::MAX ==> r == Err::<i64, Error>(Error::IntegerOverflow),
{
    let len = v.len();
    let mut acc: u64 = 0;
    let mut i: usize = 0;
    while i < len
        invariant
            i <= len,
            len == v@.len(),
            acc as nat == be_val(v@.subrange(0, i as int)),
            acc <= i64::MAX,
        decreases len - i,
    {
        let b = v[i];
        proof {
            assert(v@.subrange(0, i + 1 as int).drop_last() =~= v@.subrange(0, i as int));
        }
        if acc > (0x7fff_ffff_ffff_ffffu64 - (b as u64)) / 256 {
            proof {
                assert(be_val(v@.subrange(0, i + 1 as int)) > i64::MAX);
                lemma_be_val_take_le(v@, i + 1, len as int);
                assert(v@.take(len as int) =~= v@);
                assert(v@.take(i + 1 as int) =~= v@.subrange(0, i + 1 as int));
            }
            return Err(Error::IntegerOverflow);
        }
        acc = acc * 256 + (b as u64);
        i = i + 1;
    }
    proof {
        assert(v@.subrange(0, len as int) =~= v@);
    }
    Ok(acc as i64)
}

} // verus!
