//! Hex codec: conversions between byte buffers and `0x`-prefixed hex text.
//!
//! `encode_hex` produces a lowercase, `0x`-prefixed string; the empty byte
//! sequence encodes to `"0x"`. `decode_hex` accepts a `0x`-prefixed,
//! even-length string of hex digits (either case) and fails with
//! `Error::MalformedHex` on anything else. Decoding inverts encoding.

use vstd::prelude::*;
use vstd::string::StrSliceExecFns;
use vstd::string::StringExecFns;

use crate::Error;

verus! {

/// The lowercase hex digit for a value below 16.
pub open spec fn hex_digit(n: u8) -> char {
    if n == 0 {
        '0'
    } else if n == 1 {
        '1'
    } else if n == 2 {
        '2'
    } else if n == 3 {
        '3'
    } else if n == 4 {
        '4'
    } else if n == 5 {
        '5'
    } else if n == 6 {
        '6'
    } else if n == 7 {
        '7'
    } else if n == 8 {
        '8'
    } else if n == 9 {
        '9'
    } else if n == 10 {
        'a'
    } else if n == 11 {
        'b'
    } else if n == 12 {
        'c'
    } else if n == 13 {
        'd'
    } else if n == 14 {
        'e'
    } else {
        'f'
    }
}

/// The two lowercase hex digits of one byte, high digit first.
pub open spec fn byte_hex(b: u8) -> Seq<char> {
    seq![hex_digit(b / 16), hex_digit(b % 16)]
}

/// The hex digits of a byte sequence, without any prefix.
pub open spec fn hex_chars_of(bs: Seq<u8>) -> Seq<char>
    decreases bs.len(),
{
    if bs.len() == 0 {
        Seq::empty()
    } else {
        hex_chars_of(bs.drop_last()) + byte_hex(bs.last())
    }
}

/// The full `0x`-prefixed lowercase hex encoding of a byte sequence.
pub open spec fn spec_encode_hex(bs: Seq<u8>) -> Seq<char> {
    seq!['0', 'x'] + hex_chars_of(bs)
}

/// The value of one hex digit character, either case, or `None`.
pub open spec fn hex_val(c: char) -> Option<u8> {
    if '0' <= c && c <= '9' {
        Some(((c as u32) - 48) as u8)
    } else if 'a' <= c && c <= 'f' {
        Some(((c as u32) - 87) as u8)
    } else if 'A' <= c && c <= 'F' {
        Some(((c as u32) - 55) as u8)
    } else {
        None
    }
}

/// Parses a sequence of hex digit characters (no prefix) into bytes;
/// `None` if the length is odd or any character is not a hex digit.
pub open spec fn spec_decode_hex_chars(s: Seq<char>) -> Option<Seq<u8>>
    decreases s.len(),
{
    if s.len() == 0 {
        Some(Seq::empty())
    } else if s.len() == 1 {
        None
    } else {
        match spec_decode_hex_chars(s.drop_last().drop_last()) {
            None => None,
            Some(bs) => match (hex_val(s[s.len() - 2]), hex_val(s.last())) {
                (Some(h), Some(l)) => Some(bs.push((h * 16 + l) as u8)),
                _ => None,
            },
        }
    }
}

/// What `decode_hex` returns: the bytes of a valid `0x`-prefixed,
/// even-length hex string, or `Error::MalformedHex`.
pub open spec fn spec_decode_hex(s: Seq<char>) -> Result<Seq<u8>, Error> {
    if s.len() >= 2 && s[0] == '0' && s[1] == 'x' {
        match spec_decode_hex_chars(s.skip(2)) {
            Some(bs) => Ok(bs),
            None => Err(Error::MalformedHex),
        }
    } else {
        Err(Error::MalformedHex)
    }
}

/// An odd number of digit characters never parses.
proof fn lemma_decode_chars_odd_none(s: Seq<char>)
    requires
        s.len() % 2 == 1,
    ensures
        spec_decode_hex_chars(s) is None,
    decreases s.len(),
{
    if s.len() > 1 {
        lemma_decode_chars_odd_none(s.drop_last().drop_last());
    }
}

/// Once an even-length prefix of the digits fails to parse, the whole
/// even-length sequence fails as well.
proof fn lemma_decode_chars_extend_none(s: Seq<char>, i: int)
    requires
        0 <= i <= s.len(),
        i % 2 == 0,
        s.len() % 2 == 0,
        spec_decode_hex_chars(s.subrange(0, i)) is None,
    ensures
        spec_decode_hex_chars(s) is None,
    decreases s.len() - i,
{
    if i == s.len() {
        assert(s.subrange(0, i) =~= s);
    } else {
        assert(s.subrange(0, i + 2).drop_last().drop_last() =~= s.subrange(0, i));
        lemma_decode_chars_extend_none(s, i + 2);
    }
}

/// Encodes bytes as a lowercase `0x`-prefixed hex string.
/// The empty input encodes to `"0x"`.
pub fn encode_hex(bytes: &Vec<u8>) -> (r: String)
    ensures
        r@ == spec_encode_hex(bytes@),
{
    let table = "0123456789abcdef";
    proof {
        reveal_strlit("0123456789abcdef");
        reveal_strlit("0x");
    }
    assert(forall|n: u8| n < 16 ==> #[trigger] hex_digit(n) == table@[n as int]);
    let mut out = String::from_str("0x");
    let mut i: usize = 0;
    while i < bytes.len()
        invariant
            i <= bytes@.len(),
            table@ =~= "0123456789abcdef"@,
            table@.len() == 16,
            vstd::string::is_ascii(table),
            forall|n: u8| n < 16 ==> #[trigger] hex_digit(n) == table@[n as int],
            out@ == seq!['0', 'x'] + hex_chars_of(bytes@.subrange(0, i as int)),
        decreases bytes@.len() - i,
    {
        let b = bytes[i];
        let hi = (b / 16) as usize;
        let lo = (b % 16) as usize;
        out.append(table.substring_ascii(hi, hi + 1));
        out.append(table.substring_ascii(lo, lo + 1));
        proof {
            let pre = bytes@.subrange(0, i as int);
            let cur = bytes@.subrange(0, i + 1 as int);
            assert(cur.drop_last() =~= pre);
            assert(cur.last() == b);
            assert(table@.subrange(hi as int, hi + 1 as int) =~= seq![hex_digit(b / 16)]);
            assert(table@.subrange(lo as int, lo + 1 as int) =~= seq![hex_digit(b % 16)]);
            assert(out@ =~= seq!['0', 'x'] + hex_chars_of(cur));
        }
        i = i + 1;
    }
    proof {
        assert(bytes@.subrange(0, bytes@.len() as int) =~= bytes@);
    }
    out
}

/// The hex digit value of a character, or `None` if it is not a hex digit.
fn hex_val_exec(c: char) -> (r: Option<u8>)
    ensures
        r == hex_val(c),
{
    if c >= '0' && c <= '9' {
        Some((c as u8) - 48)
    } else if c >= 'a' && c <= 'f' {
        Some((c as u8) - 87)
    } else if c >= 'A' && c <= 'F' {
        Some((c as u8) - 55)
    } else {
        None
    }
}

/// Decodes a `0x`-prefixed, even-length hex string into bytes.
/// Fails with `Error::MalformedHex` on a missing prefix, an odd number of
/// digits, or a character that is not a hex digit. Either letter case is
/// accepted.
pub fn decode_hex(s: &str) -> (r: Result<Vec<u8>, Error>)
    ensures
        r matches Ok(v) ==> spec_decode_hex(s@) == Ok::<Seq<u8>, Error>(v@),
        r matches Err(e) ==> spec_decode_hex(s@) == Err::<Seq<u8>, Error>(e),
{
    let len = s.unicode_len();
    if len < 2 {
        return Err(Error::MalformedHex);
    }
    if s.get_char(0) != '0' || s.get_char(1) != 'x' {
        return Err(Error::MalformedHex);
    }
    let ghost tail = s@.skip(2);
    let mut out: Vec<u8> = Vec::new();
    let mut i: usize = 2;
    while i + 1 < len
        invariant
            2 <= i <= len,
            i % 2 == 0,
            len == s@.len(),
            tail == s@.skip(2),
            s@[0] == '0' && s@[1] == 'x',
            spec_decode_hex_chars(tail.subrange(0, i - 2)) == Some(out@),
        decreases len - i,
    {
        let c1 = s.get_char(i);
        let c2 = s.get_char(i + 1);
        let v1 = hex_val_exec(c1);
        let v2 = hex_val_exec(c2);
        proof {
            let pre = tail.subrange(0, i - 2);
            let cur = tail.subrange(0, i as int);
            assert(cur.drop_last().drop_last() =~= pre);
            assert(cur[cur.len() - 2] == c1);
            assert(cur.last() == c2);
        }
        match (v1, v2) {
            (Some(h), Some(l)) => {
                out.push(h * 16 + l);
                i = i + 2;
            },
            _ => {
                proof {
                    assert(spec_decode_hex_chars(tail.subrange(0, i as int)) is None);
                    if tail.len() % 2 == 1 {
                        lemma_decode_chars_odd_none(tail);
                    } else {
                        lemma_decode_chars_extend_none(tail, i as int);
                    }
                }
                return Err(Error::MalformedHex);
            },
        }
    }
    if i < len {
        // One digit character is left over: the digit count is odd.
        proof {
            lemma_decode_chars_odd_none(tail);
        }
        return Err(Error::MalformedHex);
    }
    proof {
        assert(tail.subrange(0, i - 2) =~= tail);
    }
    Ok(out)
}

/// Decoding inverts encoding: for every byte sequence `bs`,
/// `decode_hex(encode_hex(bs))` yields `bs` again.
pub proof fn lemma_hex_round_trip(bs: Seq<u8>)
    ensures
        spec_decode_hex(spec_encode_hex(bs)) == Ok::<Seq<u8>, Error>(bs),
{
    let enc = spec_encode_hex(bs);
    assert(enc[0] == '0');
    assert(enc[1] == 'x');
    lemma_hex_chars_round_trip(bs);
    assert(enc.skip(2) =~= hex_chars_of(bs));
}

/// The digit-level round trip: parsing the hex digits of `bs` yields `bs`.
proof fn lemma_hex_chars_round_trip(bs: Seq<u8>)
    ensures
        spec_decode_hex_chars(hex_chars_of(bs)) == Some(bs),
    decreases bs.len(),
{
    if bs.len() == 0 {
        assert(hex_chars_of(bs) =~= Seq::<char>::empty());
    } else {
        let pre = bs.drop_last();
        let b = bs.last();
        lemma_hex_chars_round_trip(pre);
        lemma_hex_chars_len(pre);
        let s = hex_chars_of(bs);
        assert(s =~= hex_chars_of(pre) + byte_hex(b));
        assert(s.drop_last().drop_last() =~= hex_chars_of(pre));
        assert(s[s.len() - 2] == hex_digit(b / 16));
        assert(s.last() == hex_digit(b % 16));
        assert(hex_val(hex_digit(b / 16)) == Some((b / 16) as u8));
        assert(hex_val(hex_digit(b % 16)) == Some((b % 16) as u8));
        assert((b / 16) * 16 + (b % 16) == b);
        assert(spec_decode_hex_chars(s) == Some(pre.push(b)));
        assert(pre.push(b) =~= bs);
    }
}

/// The hex digits of `bs` are exactly twice as many as its bytes.
pub proof fn lemma_hex_chars_len(bs: Seq<u8>)
    ensures
        hex_chars_of(bs).len() == 2 * bs.len(),
    decreases bs.len(),
{
    if bs.len() > 0 {
        lemma_hex_chars_len(bs.drop_last());
    }
}

} // verus!
