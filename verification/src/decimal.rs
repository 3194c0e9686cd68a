//! Arbitrary-precision decimal formatting of big-endian byte quantities.
//!
//! 256-bit integers never pass through a fixed-width native type on their
//! way to text: the digits are produced by long division over the byte
//! buffer itself, so no precision is lost at any magnitude. Signed values
//! are read as two's complement of their full width.

use vstd::prelude::*;
use vstd::string::StrSliceExecFns;
use vstd::string::StringExecFns;

use crate::hex::hex_digit;
use crate::numeric::be_val;
use crate::numeric::lemma_be_val_bound;
use crate::numeric::lemma_be_val_split;
use crate::numeric::lemma_be_val_zero;
use crate::numeric::pow10;
use crate::numeric::pow256;
use crate::numeric::signed_be_val;
use crate::numeric::spec_i64_from_be;

verus! {

/// Every character of `s` is a decimal digit.
pub open spec fn dec_digits_ok(s: Seq<char>) -> bool {
    forall|i: int| 0 <= i < s.len() ==> '0' <= #[trigger] s[i] && s[i] <= '9'
}

/// The numeric value of a decimal digit string, most significant first.
pub open spec fn dec_val(s: Seq<char>) -> nat
    decreases s.len(),
{
    if s.len() == 0 {
        0
    } else {
        dec_val(s.drop_last()) * 10 + (if '0' <= s.last() && s.last() <= '9' {
            ((s.last() as u32) - 48) as nat
        } else {
            0
        })
    }
}

/// `s` is the canonical decimal rendering of the integer `v`: an optional
/// leading minus, then digits with no leading zero (except `"0"` itself).
pub open spec fn dec_repr(s: Seq<char>, v: int) -> bool {
    if v >= 0 {
        dec_digits_ok(s) && dec_val(s) == v && s.len() >= 1 && (s.len() > 1 ==> s[0] != '0')
    } else {
        s.len() >= 2 && s[0] == '-' && dec_digits_ok(s.skip(1)) && dec_val(s.skip(1)) == -v
            && s.skip(1)[0] != '0'
    }
}

/// The value of a least-significant-first digit sequence.
pub open spec fn lsd_val(ds: Seq<u8>) -> nat
    decreases ds.len(),
{
    if ds.len() == 0 {
        0
    } else {
        ds[0] as nat + 10 * lsd_val(ds.skip(1))
    }
}

/// Appending a digit at the most significant end adds its positional value.
proof fn lemma_lsd_push(ds: Seq<u8>, d: u8)
    ensures
        lsd_val(ds.push(d)) == lsd_val(ds) + d * pow10(ds.len()),
    decreases ds.len(),
{
    if ds.len() == 0 {
        assert(ds.push(d).skip(1) =~= Seq::<u8>::empty());
        assert(ds.push(d)[0] == d);
        assert(lsd_val(Seq::<u8>::empty()) == 0);
        assert(lsd_val(ds.push(d)) == d);
        assert(d * 1 == d) by (nonlinear_arith);
    } else {
        assert(ds.push(d).skip(1) =~= ds.skip(1).push(d));
        assert(ds.push(d)[0] == ds[0]);
        lemma_lsd_push(ds.skip(1), d);
        let p = pow10((ds.len() - 1) as nat);
        assert(pow10(ds.len()) == 10 * p);
        assert(10 * (lsd_val(ds.skip(1)) + d * p) == 10 * lsd_val(ds.skip(1)) + d * (10 * p))
            by (nonlinear_arith);
        assert(lsd_val(ds.push(d)) == ds[0] + 10 * lsd_val(ds.skip(1).push(d)));
    }
}

/// A nonempty sequence decomposes into its head byte and its tail.
proof fn lemma_be_val_head(s: Seq<u8>)
    requires
        s.len() > 0,
    ensures
        be_val(s) == s[0] * pow256((s.len() - 1) as nat) + be_val(s.skip(1)),
{
    lemma_be_val_split(s, 1);
    assert(s.take(1).drop_last() =~= Seq::<u8>::empty());
    assert(be_val(Seq::<u8>::empty()) == 0);
    assert(s.take(1).last() == s[0]);
    assert(be_val(s.take(1)) == s[0]);
}

/// Divides the buffer by ten in place, returning the remainder digit.
fn div10_in_place(v: &mut Vec<u8>) -> (rem: u8)
    ensures
        final(v)@.len() == old(v)@.len(),
        be_val(final(v)@) * 10 + rem == be_val(old(v)@),
        rem < 10,
{
    let len = v.len();
    let mut carry: u16 = 0;
    let mut i: usize = 0;
    while i < len
        invariant
            i <= len,
            v@.len() == len,
            old(v)@.len() == len,
            carry < 10,
            be_val(old(v)@.subrange(0, i as int)) == be_val(v@.subrange(0, i as int)) * 10
                + carry,
            v@.subrange(i as int, len as int) == old(v)@.subrange(i as int, len as int),
        decreases len - i,
    {
        proof {
            assert(v@[i as int] == v@.subrange(i as int, len as int)[0]);
            assert(old(v)@.subrange(i as int, len as int)[0] == old(v)@[i as int]);
        }
        let cur: u16 = carry * 256 + (v[i] as u16);
        let ghost pre_v = v@;
        v[i] = (cur / 10) as u8;
        proof {
            let op = old(v)@.subrange(0, i as int);
            let op1 = old(v)@.subrange(0, i + 1 as int);
            assert(op1.drop_last() =~= op);
            assert(op1.last() == old(v)@[i as int]);
            let np = pre_v.subrange(0, i as int);
            let np1 = v@.subrange(0, i + 1 as int);
            assert(v@.subrange(0, i as int) =~= np);
            assert(np1.drop_last() =~= v@.subrange(0, i as int));
            assert(np1.last() == cur / 10);
            assert forall|j: int| i + 1 <= j < len implies v@[j] == old(v)@[j] by {
                assert(pre_v[j] == pre_v.subrange(i as int, len as int)[j - i]);
                assert(old(v)@[j] == old(v)@.subrange(i as int, len as int)[j - i]);
            }
            assert(v@.subrange(i + 1 as int, len as int) =~= old(v)@.subrange(
                i + 1 as int,
                len as int,
            ));
        }
        carry = cur % 10;
        i = i + 1;
    }
    proof {
        assert(old(v)@.subrange(0, len as int) =~= old(v)@);
        assert(v@.subrange(0, len as int) =~= v@);
    }
    carry as u8
}

/// True exactly when the buffer reads as the value zero.
fn is_zero_bytes(v: &Vec<u8>) -> (r: bool)
    ensures
        r == (be_val(v@) == 0),
{
    let len = v.len();
    let mut i: usize = 0;
    let mut all_zero = true;
    while i < len
        invariant
            i <= len,
            len == v@.len(),
            all_zero == (forall|j: int| 0 <= j < i ==> v@[j] == 0),
        decreases len - i,
    {
        if v[i] != 0 {
            all_zero = false;
        }
        i = i + 1;
    }
    proof {
        lemma_be_val_zero(v@);
    }
    all_zero
}

/// Formats the unsigned value of a big-endian buffer as its canonical
/// decimal digit string, at full precision.
pub fn format_be_unsigned(bytes: &Vec<u8>) -> (r: String)
    ensures
        dec_repr(r@, be_val(bytes@) as int),
{
    let mut work: Vec<u8> = Vec::new();
    let mut c: usize = 0;
    while c < bytes.len()
        invariant
            c <= bytes@.len(),
            work@ =~= bytes@.subrange(0, c as int),
        decreases bytes@.len() - c,
    {
        work.push(bytes[c]);
        proof {
            assert(work@ =~= bytes@.subrange(0, c + 1 as int));
        }
        c = c + 1;
    }
    proof {
        assert(bytes@.subrange(0, bytes@.len() as int) =~= bytes@);
    }
    let ghost orig = bytes@;
    let mut ds: Vec<u8> = Vec::new();
    proof {
        assert(pow10(0) == 1);
        assert(be_val(work@) * 1 == be_val(work@)) by (nonlinear_arith);
        assert(lsd_val(Seq::<u8>::empty()) == 0);
    }
    let mut done = is_zero_bytes(&work);
    while !done
        invariant
            done == (be_val(work@) == 0),
            be_val(orig) == be_val(work@) * pow10(ds@.len()) + lsd_val(ds@),
            forall|j: int| 0 <= j < ds@.len() ==> #[trigger] ds@[j] < 10,
            (ds@.len() > 0 && be_val(work@) == 0) ==> ds@.last() != 0,
        decreases be_val(work@),
    {
        let ghost wv = be_val(work@);
        let ghost k = ds@.len();
        let ghost old_ds = ds@;
        let rem = div10_in_place(&mut work);
        ds.push(rem);
        done = is_zero_bytes(&work);
        proof {
            lemma_lsd_push(old_ds, rem);
            assert(ds@ == old_ds.push(rem));
            assert(lsd_val(ds@) == lsd_val(old_ds) + rem * pow10(k));
            let nw = be_val(work@);
            assert(wv == nw * 10 + rem);
            assert((nw * 10 + rem) * pow10(k) == nw * (10 * pow10(k)) + rem * pow10(k))
                by (nonlinear_arith);
            assert(pow10(k + 1) == 10 * pow10(k));
            assert(nw * pow10(k + 1) == nw * (10 * pow10(k)));
            assert(be_val(orig) == nw * pow10(ds@.len()) + lsd_val(ds@));
            assert(nw < wv) by (nonlinear_arith)
                requires
                    wv == nw * 10 + rem,
                    rem < 10,
                    wv > 0,
            ;
        }
    }
    if ds.len() == 0 {
        proof {
            assert(pow10(0) == 1);
            assert(be_val(work@) * 1 == be_val(work@)) by (nonlinear_arith);
            assert(be_val(orig) == 0);
        }
        let z = String::from_str("0");
        proof {
            reveal_strlit("0");
            assert(z@.len() == 1);
            assert(z@[0] == '0');
            assert(z@.drop_last() =~= Seq::<char>::empty());
            assert(dec_val(Seq::<char>::empty()) == 0);
            assert(z@.last() == '0');
            assert(dec_val(z@) == 0);
        }
        return z;
    }
    let table = "0123456789abcdef";
    proof {
        reveal_strlit("0123456789abcdef");
    }
    assert(forall|n: u8| n < 16 ==> #[trigger] hex_digit(n) == table@[n as int]);
    let mut out = String::new();
    let mut k = ds.len();
    while k > 0
        invariant
            k <= ds@.len(),
            table@ =~= "0123456789abcdef"@,
            table@.len() == 16,
            vstd::string::is_ascii(table),
            forall|n: u8| n < 16 ==> #[trigger] hex_digit(n) == table@[n as int],
            forall|j: int| 0 <= j < ds@.len() ==> #[trigger] ds@[j] < 10,
            dec_val(out@) == lsd_val(ds@.skip(k as int)),
            dec_digits_ok(out@),
            out@.len() == ds@.len() - k,
            out@.len() > 0 ==> out@[0] == hex_digit(ds@.last()),
            be_val(orig) == lsd_val(ds@),
            ds@.len() > 0 && ds@.last() != 0,
        decreases k,
    {
        k = k - 1;
        let d = ds[k];
        let du = d as usize;
        let ghost prev = out@;
        out.append(table.substring_ascii(du, du + 1));
        proof {
            assert(table@.subrange(du as int, du + 1 as int) =~= seq![hex_digit(d)]);
            assert(out@ =~= prev + seq![hex_digit(d)]);
            assert(out@.drop_last() =~= prev);
            assert(out@.last() == hex_digit(d));
            assert(ds@.skip(k as int).skip(1) =~= ds@.skip(k + 1 as int));
            assert(ds@.skip(k as int)[0] == d);
            assert(lsd_val(ds@.skip(k as int)) == d + 10 * lsd_val(ds@.skip(k + 1 as int)));
            assert('0' <= hex_digit(d) && hex_digit(d) <= '9');
            assert(((hex_digit(d) as u32) - 48) as nat == d as nat);
        }
    }
    proof {
        assert(ds@.skip(0) =~= ds@);
        assert(out@[0] != '0');
    }
    out
}

/// Replaces the buffer's value by its two's complement over the same
/// width: the result reads as `256^len` minus the old value.
fn twos_complement_negate(v: &Vec<u8>) -> (r: Vec<u8>)
    requires
        be_val(v@) > 0,
    ensures
        r@.len() == v@.len(),
        be_val(r@) == pow256(v@.len()) - be_val(v@),
{
    let len = v.len();
    let mut out: Vec<u8> = Vec::new();
    let mut i: usize = 0;
    while i < len
        invariant
            i <= len,
            len == v@.len(),
            out@.len() == i,
            be_val(out@) + be_val(v@.subrange(0, i as int)) == pow256(i as nat) - 1,
        decreases len - i,
    {
        let ghost old_out = out@;
        out.push(255 - v[i]);
        proof {
            assert(out@.drop_last() =~= old_out);
            assert(v@.subrange(0, i + 1 as int).drop_last() =~= v@.subrange(0, i as int));
            assert(pow256((i + 1) as nat) == 256 * pow256(i as nat));
        }
        i = i + 1;
    }
    proof {
        assert(v@.subrange(0, len as int) =~= v@);
    }
    let ghost flipped = out@;
    let mut j: usize = len;
    let mut carry = true;
    while carry && j > 0
        invariant
            j <= len,
            out@.len() == len,
            len == v@.len(),
            flipped.len() == len,
            be_val(flipped) + be_val(v@) == pow256(len as nat) - 1,
            out@.subrange(0, j as int) == flipped.subrange(0, j as int),
            carry ==> be_val(out@.skip(j as int)) + pow256((len - j) as nat) == be_val(
                flipped.skip(j as int),
            ) + 1,
            !carry ==> be_val(out@) == be_val(flipped) + 1,
        decreases j,
    {
        j = j - 1;
        proof {
            assert(out@[j as int] == out@.subrange(0, j + 1 as int)[j as int]);
            assert(flipped[j as int] == flipped.subrange(0, j + 1 as int)[j as int]);
        }
        let ghost pre = out@;
        let b = out[j];
        if b == 255 {
            out[j] = 0;
        } else {
            out[j] = b + 1;
            carry = false;
        }
        proof {
            let l1 = (len - j - 1) as nat;
            assert forall|q: int| 0 <= q < j implies out@[q] == flipped[q] by {
                assert(pre[q] == pre.subrange(0, j + 1 as int)[q]);
                assert(flipped[q] == flipped.subrange(0, j + 1 as int)[q]);
            }
            assert(out@.subrange(0, j as int) =~= flipped.subrange(0, j as int));
            assert(out@.skip(j as int).skip(1) =~= pre.skip(j + 1 as int));
            assert(pre.skip(j + 1 as int) =~= out@.skip(j + 1 as int));
            lemma_be_val_head(out@.skip(j as int));
            lemma_be_val_head(flipped.skip(j as int));
            assert(flipped.skip(j as int).skip(1) =~= flipped.skip(j + 1 as int));
            assert(out@.skip(j as int)[0] == out@[j as int]);
            assert(flipped.skip(j as int)[0] == flipped[j as int]);
            assert(pow256((len - j) as nat) == 256 * pow256(l1));
            if b == 255 {
                assert(out@[j as int] == 0);
                assert(flipped[j as int] == 255);
                assert(0 * pow256(l1) == 0) by (nonlinear_arith);
                assert(255 * pow256(l1) + pow256(l1) == 256 * pow256(l1)) by (nonlinear_arith);
            } else {
                assert(out@[j as int] == b + 1);
                assert(flipped[j as int] == b);
                assert((b + 1) * pow256(l1) == b * pow256(l1) + pow256(l1)) by (nonlinear_arith);
                lemma_be_val_split(out@, j as int);
                lemma_be_val_split(flipped, j as int);
                assert(out@.take(j as int) =~= out@.subrange(0, j as int));
                assert(flipped.take(j as int) =~= flipped.subrange(0, j as int));
            }
        }
    }
    proof {
        if carry {
            assert(j == 0);
            assert(out@.skip(0) =~= out@);
            assert(flipped.skip(0) =~= flipped);
            // A final carry would mean the flipped buffer was all ones,
            // i.e. the input read as zero, which the caller rules out.
            assert(false);
        }
    }
    out
}

/// Formats the signed, two's-complement value of a big-endian buffer as
/// its canonical decimal digit string, at full precision. A set top bit of
/// the first byte marks a negative value of the buffer's full width.
pub fn format_be_signed(bytes: &Vec<u8>) -> (r: String)
    ensures
        dec_repr(r@, signed_be_val(bytes@)),
{
    if bytes.len() == 0 || bytes[0] < 128 {
        format_be_unsigned(bytes)
    } else {
        proof {
            lemma_be_val_head(bytes@);
            crate::numeric::lemma_pow256_le(0, (bytes@.len() - 1) as nat);
            assert(bytes@[0] * pow256((bytes@.len() - 1) as nat) >= 128) by (nonlinear_arith)
                requires
                    bytes@[0] >= 128,
                    pow256((bytes@.len() - 1) as nat) >= 1,
            ;
            lemma_be_val_bound(bytes@);
        }
        let neg = twos_complement_negate(bytes);
        let mag = format_be_unsigned(&neg);
        let mut out = String::new();
        proof {
            reveal_strlit("-");
        }
        out.append("-");
        out.append(mag.as_str());
        proof {
            assert(out@.skip(1) =~= mag@);
            assert(out@[0] == '-');
            let m = be_val(neg@);
            assert(m > 0);
            if mag@.len() == 1 {
                assert(mag@.drop_last() =~= Seq::<char>::empty());
                assert(dec_val(Seq::<char>::empty()) == 0);
                assert(mag@[0] != '0');
            }
        }
        out
    }
}

/// At 64-bit magnitudes, the signed full-width reading agrees with the
/// native two's-complement reading of the lowest eight bytes: whenever the
/// 32-byte value fits in a 64-bit signed integer, both readings are the
/// same integer.
pub proof fn lemma_signed_matches_native_64(s: Seq<u8>)
    requires
        s.len() == 32,
        -0x8000_0000_0000_0000 <= signed_be_val(s) < 0x8000_0000_0000_0000,
    ensures
        signed_be_val(s) == spec_i64_from_be(s.skip(24)),
{
    lemma_be_val_split(s, 24);
    lemma_be_val_bound(s.take(24));
    lemma_be_val_bound(s.skip(24));
    lemma_pow256_add(24, 8);
    assert(pow256(8) == 0x1_0000_0000_0000_0000) by {
        reveal_with_fuel(pow256, 9);
    }
    let t = be_val(s.take(24));
    let l = be_val(s.skip(24));
    let p24 = pow256(24);
    let p8: nat = 0x1_0000_0000_0000_0000;
    assert(be_val(s) == t * p8 + l);
    assert(s.skip(24).len() == 8);
    assert(s.skip(24)[0] == s[24]);
    crate::numeric::lemma_be_val_msb(s.skip(24));
    if s[0] < 128 {
        assert(signed_be_val(s) == be_val(s));
        assert(t < p24);
        if t >= 1 {
            assert(t * p8 >= 1 * p8) by (nonlinear_arith)
                requires
                    t >= 1,
            ;
            assert(false);
        }
        assert(t * p8 == 0) by (nonlinear_arith)
            requires
                t == 0,
        ;
        assert(be_val(s) == l);
    } else {
        assert(signed_be_val(s) == be_val(s) - p24 * p8);
        assert(t <= p24 - 1);
        if t <= p24 - 2 {
            assert(t * p8 <= (p24 - 2) * p8) by (nonlinear_arith)
                requires
                    t <= p24 - 2,
            ;
            assert((p24 - 2) * p8 == p24 * p8 - 2 * p8) by (nonlinear_arith);
            assert(be_val(s) <= p24 * p8 - 2 * p8 + (p8 - 1));
            assert(false);
        }
        assert(t == p24 - 1);
        assert((p24 - 1) * p8 == p24 * p8 - p8) by (nonlinear_arith);
        assert(signed_be_val(s) == l - p8);
    }
}

/// Powers of 256 multiply when exponents add.
pub proof fn lemma_pow256_add(a: nat, b: nat)
    ensures
        pow256(a + b) == pow256(a) * pow256(b),
    decreases b,
{
    if b == 0 {
        assert(pow256(a) * 1 == pow256(a)) by (nonlinear_arith);
    } else {
        lemma_pow256_add(a, (b - 1) as nat);
        assert(pow256(a + b) == 256 * pow256((a + b - 1) as nat));
        assert(256 * (pow256(a) * pow256((b - 1) as nat)) == pow256(a) * (256 * pow256(
            (b - 1) as nat,
        ))) by (nonlinear_arith);
    }
}

} // verus!
