use bridge_core::bytes::{bytes_ge, to_32_bytes, u128_to_bytes, usize_to_bytes, vector_from_32_bytes};
use bridge_core::decimal::parse_u128;
use bridge_core::encoder::{decode_opt_field, encode_opt_field};
use bridge_core::hex::{decode_hex_to_vec, encode_prefixed_hex};
use bridge_core::merkle::Data;
use bridge_core::encoder::{TransferFullMetaOperation, TransferOperation};

fn s(x: &str) -> String {
    x.to_string()
}

#[test]
fn hex_encode_known_vector() {
    let bytes: Vec<u8> = vec![0x00, 0x01, 0xab, 0xff];
    assert_eq!(encode_prefixed_hex(&bytes), "0x0001abff");
    assert_eq!(encode_prefixed_hex(&Vec::new()), "0x");
}

#[test]
fn hex_encode_agrees_with_prefix_hex_crate() {
    let bytes: Vec<u8> = vec![0xde, 0xad, 0xbe, 0xef, 0x07];
    let expected: String = prefix_hex::encode(bytes.as_slice());
    assert_eq!(encode_prefixed_hex(&bytes), expected);
}

#[test]
fn hex_decode_round_trip() {
    let bytes: Vec<u8> = (0u8..=255u8).collect();
    let text = encode_prefixed_hex(&bytes);
    let back = decode_hex_to_vec(text).unwrap();
    assert_eq!(back, bytes);
}

#[test]
fn hex_decode_accepts_upper_case() {
    assert_eq!(decode_hex_to_vec(s("0xAbFf")), Some(vec![0xab, 0xff]));
}

#[test]
fn hex_decode_rejects_malformed() {
    assert_eq!(decode_hex_to_vec(s("")), None);
    assert_eq!(decode_hex_to_vec(s("0x123")), None);
    assert_eq!(decode_hex_to_vec(s("1234")), None);
    assert_eq!(decode_hex_to_vec(s("0xzz")), None);
    assert_eq!(decode_hex_to_vec(s("0x00e9")), Some(vec![0u8, 0xe9]));
    assert_eq!(decode_hex_to_vec(s("0x00\u{e9}9")), None);
}

#[test]
fn u128_encoding_is_big_endian_32_bytes() {
    let one = u128_to_bytes(1);
    assert_eq!(one.len(), 32);
    assert_eq!(one[31], 1);
    assert!(one[..31].iter().all(|b| *b == 0));

    let big = u128_to_bytes(0x0102030405060708090a0b0c0d0e0f10u128);
    assert_eq!(&big[16..], &[1, 2, 3, 4, 5, 6, 7, 8, 9, 10, 11, 12, 13, 14, 15, 16]);
    assert!(big[..16].iter().all(|b| *b == 0));

    assert_eq!(usize_to_bytes(0), vec![0u8; 32]);
}

#[test]
fn u128_encoding_agrees_with_num_bigint() {
    let v: u128 = 123_456_789_012_345_678_901_234_567u128;
    let mut expected = vec![0u8; 32];
    let raw = num_bigint::BigInt::from(v).to_signed_bytes_be();
    expected[32 - raw.len()..].copy_from_slice(&raw);
    assert_eq!(u128_to_bytes(v), expected);
}

#[test]
fn padding_to_32_bytes() {
    assert_eq!(to_32_bytes(&[7u8]), {
        let mut v = vec![0u8; 32];
        v[31] = 7;
        v
    });
    // An empty or over-long buffer passes through unchanged.
    assert_eq!(to_32_bytes(&[]), Vec::<u8>::new());
    let long = vec![1u8; 40];
    assert_eq!(to_32_bytes(&long), long);
    let arr = [9u8; 32];
    assert_eq!(vector_from_32_bytes(arr), vec![9u8; 32]);
}

#[test]
fn big_endian_comparison() {
    let a = u128_to_bytes(500);
    let b = u128_to_bytes(499);
    assert!(bytes_ge(&a, &b));
    assert!(!bytes_ge(&b, &a));
    assert!(bytes_ge(&a, &a));
}

#[test]
fn optional_field_round_trip() {
    let mut out: Vec<u8> = Vec::new();
    encode_opt_field(&Some(vec![5u8, 6u8]), &mut out);
    encode_opt_field(&None, &mut out);
    encode_opt_field(&Some(vec![9u8]), &mut out);

    let (f1, p1) = decode_opt_field(&out, 0).unwrap();
    assert_eq!(f1, Some(vec![5u8, 6u8]));
    assert_eq!(p1, 34);
    let (f2, p2) = decode_opt_field(&out, p1).unwrap();
    assert_eq!(f2, None);
    let (f3, p3) = decode_opt_field(&out, p2).unwrap();
    assert_eq!(f3, Some(vec![9u8]));
    assert_eq!(p3, out.len());
}

#[test]
fn optional_field_zero_length_reads_as_absent() {
    // A present empty buffer encodes exactly like an absent field.
    let mut absent: Vec<u8> = Vec::new();
    encode_opt_field(&None, &mut absent);
    let mut empty: Vec<u8> = Vec::new();
    encode_opt_field(&Some(Vec::new()), &mut empty);
    assert_eq!(absent, empty);
    let (f, p) = decode_opt_field(&absent, 0).unwrap();
    assert_eq!(f, None);
    assert_eq!(p, 32);
}

#[test]
fn optional_field_rejects_truncated_data() {
    let mut out: Vec<u8> = Vec::new();
    encode_opt_field(&Some(vec![1u8, 2u8, 3u8]), &mut out);
    out.pop();
    assert_eq!(decode_opt_field(&out, 0), None);
    assert_eq!(decode_opt_field(&vec![0u8; 31], 0), None);
}

#[test]
fn ft_transfer_payload_layout() {
    let op = TransferFullMetaOperation::new_ft_transfer(s("tok.near"), 77);
    let data = op.get_data();
    // Six length-prefixed fields: token, title, instance id, amount,
    // media URL, media hash.
    let (token, p1) = decode_opt_field(&data, 0).unwrap();
    assert_eq!(token, Some(b"tok.near".to_vec()));
    let (title, p2) = decode_opt_field(&data, p1).unwrap();
    assert_eq!(title, None);
    let (id, p3) = decode_opt_field(&data, p2).unwrap();
    assert_eq!(id, None);
    let (amount, p4) = decode_opt_field(&data, p3).unwrap();
    assert_eq!(amount, Some(u128_to_bytes(77)));
    let (url, p5) = decode_opt_field(&data, p4).unwrap();
    assert_eq!(url, None);
    let (media, p6) = decode_opt_field(&data, p5).unwrap();
    assert_eq!(media, None);
    assert_eq!(p6, data.len());
}

#[test]
fn nft_transfer_payload_layout() {
    let op = TransferFullMetaOperation::new_nft_transfer(
        s("42"),
        Some(s("nft.near")),
        s("a title"),
        s("https://media"),
        vec![0xaa, 0xbb],
    );
    let data = op.get_data();
    let (token, p1) = decode_opt_field(&data, 0).unwrap();
    assert_eq!(token, Some(b"nft.near".to_vec()));
    let (title, p2) = decode_opt_field(&data, p1).unwrap();
    assert_eq!(title, Some(b"a title".to_vec()));
    let (id, p3) = decode_opt_field(&data, p2).unwrap();
    assert_eq!(id, Some(to_32_bytes(b"42")));
    let (amount, p4) = decode_opt_field(&data, p3).unwrap();
    assert_eq!(amount, None);
    let (url, p5) = decode_opt_field(&data, p4).unwrap();
    assert_eq!(url, Some(b"https://media".to_vec()));
    let (media, p6) = decode_opt_field(&data, p5).unwrap();
    assert_eq!(media, Some(vec![0xaa, 0xbb]));
    assert_eq!(p6, data.len());
}

#[test]
fn native_transfer_payload_is_the_amount() {
    let op = TransferOperation::new_native_transfer(1_000_000);
    assert_eq!(op.get_data(), u128_to_bytes(1_000_000));
}

#[test]
fn decimal_parsing() {
    assert_eq!(parse_u128("0"), Some(0));
    assert_eq!(parse_u128("340282366920938463463374607431768211455"), Some(u128::MAX));
    assert_eq!(parse_u128("340282366920938463463374607431768211456"), None);
    assert_eq!(parse_u128(""), None);
    assert_eq!(parse_u128("12a"), None);
    assert_eq!(parse_u128("-1"), None);
    assert_eq!(parse_u128("000123"), Some(123));
}
