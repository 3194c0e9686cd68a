//! Tests of the hex codec, numeric narrowing and the decimal formatter.

use hypersync::Error;
use hypersync::decimal::format_be_signed;
use hypersync::decimal::format_be_unsigned;
use hypersync::hex::decode_hex;
use hypersync::hex::encode_hex;
use hypersync::numeric::i64_from_bytes;
use hypersync::numeric::narrow_be_bytes_to_i64;
use hypersync::numeric::narrow_u64_to_i64;

#[test]
fn test_i64_from_bytes() {
    let v: Vec<u8> = decode_hex("0x5bbc001f").unwrap();
    let v = i64_from_bytes(&v);

    assert_eq!(v, 1539047455);
}

/// Builds the 32-byte two's-complement encoding of an `i128`.
fn be32_from_i128(v: i128) -> Vec<u8> {
    let fill = if v < 0 { 0xffu8 } else { 0x00u8 };
    let mut out = vec![fill; 16];
    out.extend_from_slice(&v.to_be_bytes());
    out
}

/// Builds the 32-byte big-endian encoding of a `u128`.
fn be32_from_u128(v: u128) -> Vec<u8> {
    let mut out = vec![0u8; 16];
    out.extend_from_slice(&v.to_be_bytes());
    out
}

#[test]
fn test_bigint_convert_signed() {
    for i in (i128::from(i64::MIN)..i128::from(u64::MAX))
        .step_by(usize::try_from(u64::MAX / 31).unwrap())
        .take(1024)
    {
        let v = be32_from_i128(i);
        let out = format_be_signed(&v);

        assert_eq!(i, out.parse::<i128>().unwrap());
    }
}

#[test]
fn test_bigint_convert_unsigned() {
    for i in (u128::from(u64::MIN)..u128::MAX)
        .step_by(usize::try_from(u64::MAX / 31).unwrap())
        .take(1024)
    {
        let v = be32_from_u128(i);
        let out = format_be_unsigned(&v);

        assert_eq!(i, out.parse::<u128>().unwrap());
    }
}

#[test]
fn hex_empty_encodes_to_prefix_only() {
    assert_eq!(encode_hex(&vec![]), "0x");
}

#[test]
fn hex_round_trip_concrete() {
    let cases: Vec<Vec<u8>> = vec![
        vec![],
        vec![0x00],
        vec![0xff],
        vec![0xde, 0xad, 0xbe, 0xef],
        (0u8..=255).collect(),
    ];
    for bytes in cases {
        let text = encode_hex(&bytes);
        assert_eq!(decode_hex(&text).unwrap(), bytes);
    }
}

#[test]
fn hex_encode_is_lowercase() {
    assert_eq!(encode_hex(&vec![0xab, 0xcd, 0xef]), "0xabcdef");
    assert_eq!(encode_hex(&vec![0x01, 0x23]), "0x0123");
}

#[test]
fn hex_decode_accepts_either_case() {
    assert_eq!(decode_hex("0xAbCdEf").unwrap(), vec![0xab, 0xcd, 0xef]);
}

#[test]
fn hex_decode_rejects_missing_prefix() {
    assert_eq!(decode_hex("abcd").unwrap_err(), Error::MalformedHex);
    assert_eq!(decode_hex("").unwrap_err(), Error::MalformedHex);
    assert_eq!(decode_hex("1xab").unwrap_err(), Error::MalformedHex);
}

#[test]
fn hex_decode_rejects_odd_length() {
    assert_eq!(decode_hex("0xabc").unwrap_err(), Error::MalformedHex);
    assert_eq!(decode_hex("0x1").unwrap_err(), Error::MalformedHex);
}

#[test]
fn hex_decode_rejects_non_hex_digits() {
    assert_eq!(decode_hex("0xzz").unwrap_err(), Error::MalformedHex);
    assert_eq!(decode_hex("0xa-").unwrap_err(), Error::MalformedHex);
}

#[test]
fn decimal_boundary_values() {
    assert_eq!(format_be_unsigned(&vec![]), "0");
    assert_eq!(format_be_unsigned(&be32_from_u128(0)), "0");
    assert_eq!(format_be_unsigned(&be32_from_u128(1)), "1");
    assert_eq!(
        format_be_unsigned(&be32_from_u128(u128::from(u64::MAX))),
        "18446744073709551615"
    );
    // 2^128: byte 15 (from the left) is one.
    let mut two_pow_128 = vec![0u8; 32];
    two_pow_128[15] = 1;
    assert_eq!(
        format_be_unsigned(&two_pow_128),
        "340282366920938463463374607431768211456"
    );
    // 2^256 - 1: all bytes are 0xff.
    assert_eq!(
        format_be_unsigned(&vec![0xffu8; 32]),
        "115792089237316195423570985008687907853269984665640564039457584007913129639935"
    );
}

#[test]
fn decimal_signed_boundaries() {
    assert_eq!(format_be_signed(&be32_from_i128(0)), "0");
    assert_eq!(format_be_signed(&be32_from_i128(-1)), "-1");
    assert_eq!(format_be_signed(&be32_from_i128(i128::from(i64::MIN))), "-9223372036854775808");
    assert_eq!(format_be_signed(&be32_from_i128(i128::from(i64::MAX))), "9223372036854775807");
    // The most negative 256-bit value: -2^255.
    let mut min = vec![0u8; 32];
    min[0] = 0x80;
    assert_eq!(
        format_be_signed(&min),
        "-57896044618658097711785492504343953926634992332820282019728792003956564819968"
    );
}

#[test]
fn narrow_u64_reports_overflow() {
    assert_eq!(narrow_u64_to_i64(0), Ok(0));
    assert_eq!(narrow_u64_to_i64(i64::MAX as u64), Ok(i64::MAX));
    assert_eq!(
        narrow_u64_to_i64(i64::MAX as u64 + 1).unwrap_err(),
        Error::IntegerOverflow
    );
}

#[test]
fn narrow_be_bytes_reports_overflow() {
    assert_eq!(narrow_be_bytes_to_i64(&vec![]), Ok(0));
    assert_eq!(narrow_be_bytes_to_i64(&vec![0x01]), Ok(1));
    assert_eq!(narrow_be_bytes_to_i64(&vec![0x00, 0x00, 0x01, 0x00]), Ok(256));
    // Leading zeros keep a wide buffer in range.
    let mut wide = vec![0u8; 30];
    wide.push(0x12);
    wide.push(0x34);
    assert_eq!(narrow_be_bytes_to_i64(&wide), Ok(0x1234));
    // 2^63 does not fit a signed 64-bit integer.
    let mut over = vec![0x80u8];
    over.extend_from_slice(&[0u8; 7]);
    assert_eq!(narrow_be_bytes_to_i64(&over).unwrap_err(), Error::IntegerOverflow);
}

#[test]
fn i64_from_bytes_reads_sign_at_full_width() {
    assert_eq!(i64_from_bytes(&vec![]), 0);
    assert_eq!(i64_from_bytes(&vec![0x7f]), 127);
    assert_eq!(i64_from_bytes(&vec![0xff]), 255);
    // Eight bytes with the top bit set read as negative.
    assert_eq!(i64_from_bytes(&vec![0xff; 8]), -1);
    assert_eq!(i64_from_bytes(&(i64::MIN).to_be_bytes().to_vec()), i64::MIN);
}
