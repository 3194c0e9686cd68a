//! Mixed-case checksum encoding of addresses.
//!
//! An address is rendered as lowercase hex, the digest of that hex text is
//! taken, and each letter is uppercased exactly when the digest nibble at
//! its position is eight or more. Only the digest itself comes from
//! outside; the casing rule is implemented and verified here.

use vstd::prelude::*;
use vstd::string::StrSliceExecFns;
use vstd::string::StringExecFns;

use crate::hex::byte_hex;
use crate::hex::hex_chars_of;
use crate::hex::hex_digit;

verus! {

/// The 32-byte digest that the checksum casing is drawn from, as a
/// function of the hashed input alone.
pub uninterp spec fn keccak_of(input: Seq<u8>) -> Seq<u8>;

/// Relies on `alloy_primitives::keccak256`: a 32-byte digest computed
/// from the input bytes alone.
#[verifier::external_body]
fn keccak256_bytes(input: &Vec<u8>) -> (r: Vec<u8>)
    ensures
        r@ == keccak_of(input@),
        r@.len() == 32,
{
    alloy_primitives::keccak256(input.as_slice()).to_vec()
}

/// The uppercase hex digit for a value below 16; digits below ten are the
/// same as in lowercase.
pub open spec fn upper_hex_digit(n: u8) -> char {
    if n == 10 {
        'A'
    } else if n == 11 {
        'B'
    } else if n == 12 {
        'C'
    } else if n == 13 {
        'D'
    } else if n == 14 {
        'E'
    } else if n == 15 {
        'F'
    } else {
        hex_digit(n)
    }
}

/// The digest over the lowercase hex text (without prefix) of `a`.
pub open spec fn checksum_digest(a: Seq<u8>) -> Seq<u8> {
    keccak_of(hex_chars_of(a).map_values(|c: char| c as u8))
}

/// The digest nibble governing hex position `p`: high nibble for even
/// positions, low nibble for odd ones.
pub open spec fn checksum_nibble(d: Seq<u8>, p: int) -> u8 {
    if p % 2 == 0 {
        d[p / 2] / 16
    } else {
        d[p / 2] % 16
    }
}

/// The checksummed character at hex position `p` of the address `a` under
/// digest `d`: uppercased exactly when the governing nibble is at least 8.
pub open spec fn checksummed_char(a: Seq<u8>, d: Seq<u8>, p: int) -> char {
    let v = if p % 2 == 0 {
        a[p / 2] / 16
    } else {
        a[p / 2] % 16
    };
    if checksum_nibble(d, p) >= 8 && v >= 10 {
        upper_hex_digit(v)
    } else {
        hex_digit(v)
    }
}

/// The full `0x`-prefixed mixed-case checksum encoding of `a`.
pub open spec fn spec_checksummed(a: Seq<u8>) -> Seq<char> {
    seq!['0', 'x'] + Seq::new(2 * a.len(), |p: int| checksummed_char(a, checksum_digest(a), p))
}

/// Encodes a 20-byte address in mixed-case checksum form: lowercase hex
/// with each letter uppercased exactly when the digest of the lowercase
/// hex text has a nibble of eight or more at its position.
pub fn to_checksummed_address(addr: &Vec<u8>) -> (r: String)
    requires
        addr@.len() == 20,
    ensures
        r@ == spec_checksummed(addr@),
{
    // The ASCII bytes of the lowercase hex text of `addr`.
    let mut hb: Vec<u8> = Vec::new();
    let mut i: usize = 0;
    assert(forall|n: u8| n < 16 ==> #[trigger] hex_digit(n) as u8 == (if n < 10 {
        48 + n
    } else {
        87 + n
    }));
    while i < addr.len()
        invariant
            i <= addr@.len(),
            hb@ =~= hex_chars_of(addr@.subrange(0, i as int)).map_values(|c: char| c as u8),
            forall|n: u8|
                n < 16 ==> #[trigger] hex_digit(n) as u8 == (if n < 10 {
                    48 + n
                } else {
                    87 + n
                }),
        decreases addr@.len() - i,
    {
        let b = addr[i];
        let hi = b / 16;
        let lo = b % 16;
        hb.push(if hi < 10 {
            48 + hi
        } else {
            87 + hi
        });
        hb.push(if lo < 10 {
            48 + lo
        } else {
            87 + lo
        });
        proof {
            let pre = addr@.subrange(0, i as int);
            let cur = addr@.subrange(0, i + 1 as int);
            assert(cur.drop_last() =~= pre);
            assert(cur.last() == b);
            assert(hex_chars_of(cur) =~= hex_chars_of(pre) + byte_hex(b));
            assert(hb@ =~= hex_chars_of(cur).map_values(|c: char| c as u8));
        }
        i = i + 1;
    }
    proof {
        assert(addr@.subrange(0, addr@.len() as int) =~= addr@);
    }
    let digest = keccak256_bytes(&hb);
    let lower = "0123456789abcdef";
    let upper = "0123456789ABCDEF";
    proof {
        reveal_strlit("0123456789abcdef");
        reveal_strlit("0123456789ABCDEF");
        reveal_strlit("0x");
    }
    assert(forall|n: u8| n < 16 ==> #[trigger] hex_digit(n) == lower@[n as int]);
    assert(forall|n: u8| n < 16 ==> #[trigger] upper_hex_digit(n) == upper@[n as int]);
    let mut out = String::from_str("0x");
    let ghost d = digest@;
    let mut k: usize = 0;
    while k < addr.len()
        invariant
            k <= addr@.len(),
            addr@.len() == 20,
            d == checksum_digest(addr@),
            d.len() == 32,
            digest@ == d,
            lower@.len() == 16,
            upper@.len() == 16,
            vstd::string::is_ascii(lower),
            vstd::string::is_ascii(upper),
            forall|n: u8| n < 16 ==> #[trigger] hex_digit(n) == lower@[n as int],
            forall|n: u8| n < 16 ==> #[trigger] upper_hex_digit(n) == upper@[n as int],
            out@ =~= seq!['0', 'x'] + Seq::new(
                (2 * k) as nat,
                |p: int| checksummed_char(addr@, d, p),
            ),
        decreases addr@.len() - k,
    {
        let b = addr[k];
        let db = digest[k];
        let hi = (b / 16) as usize;
        let lo = (b % 16) as usize;
        let up_hi = db / 16 >= 8;
        let up_lo = db % 16 >= 8;
        let ghost prev = out@;
        if up_hi && hi >= 10 {
            out.append(upper.substring_ascii(hi, hi + 1));
        } else {
            out.append(lower.substring_ascii(hi, hi + 1));
        }
        if up_lo && lo >= 10 {
            out.append(upper.substring_ascii(lo, lo + 1));
        } else {
            out.append(lower.substring_ascii(lo, lo + 1));
        }
        proof {
            assert(upper@.subrange(hi as int, hi + 1 as int) =~= seq![upper_hex_digit(b / 16)]);
            assert(lower@.subrange(hi as int, hi + 1 as int) =~= seq![hex_digit(b / 16)]);
            assert(upper@.subrange(lo as int, lo + 1 as int) =~= seq![upper_hex_digit(b % 16)]);
            assert(lower@.subrange(lo as int, lo + 1 as int) =~= seq![hex_digit(b % 16)]);
            assert(out@[2 * k as int + 2] == checksummed_char(addr@, d, 2 * k as int));
            assert(out@[2 * k as int + 3] == checksummed_char(addr@, d, 2 * k as int + 1));
            assert(out@ =~= seq!['0', 'x'] + Seq::new(
                (2 * (k + 1)) as nat,
                |p: int| checksummed_char(addr@, d, p),
            ));
        }
        k = k + 1;
    }
    proof {
        assert(out@ =~= spec_checksummed(addr@));
    }
    out
}

} // verus!
