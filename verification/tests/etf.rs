use num_bigint::BigInt;
use otter::etf::{
    bigint_to_etf, encode_etf_bignum, etf_integer_to_bigint, integer_repr_of_bigint, is_etf_integer,
    IntegerRepr,
};

#[test]
fn small_integer_ext_decodes_unsigned_byte() {
    assert_eq!(etf_integer_to_bigint(&[131, 97, 200]), BigInt::from(200u8));
}

#[test]
fn integer_ext_decodes_signed_big_endian() {
    assert_eq!(etf_integer_to_bigint(&[131, 98, 0xff, 0xff, 0xff, 0xfe]), BigInt::from(-2i32));
    assert_eq!(etf_integer_to_bigint(&[131, 98, 0x00, 0x01, 0x00, 0x00]), BigInt::from(65536i32));
}

#[test]
fn small_big_ext_decodes_little_endian_magnitude() {
    // 2^64 = 0x1_0000_0000_0000_0000: nine magnitude bytes.
    let bytes = [131, 110, 9, 0, 0, 0, 0, 0, 0, 0, 0, 0, 1];
    let expected = BigInt::from(u64::MAX) + BigInt::from(1u8);
    assert_eq!(etf_integer_to_bigint(&bytes), expected);
    let negative = [131, 110, 9, 1, 0, 0, 0, 0, 0, 0, 0, 0, 1];
    assert_eq!(etf_integer_to_bigint(&negative), -expected);
}

#[test]
fn bignum_encoding_round_trips() {
    let big = BigInt::from(u64::MAX) * BigInt::from(u64::MAX);
    let etf = bigint_to_etf(&big);
    assert_eq!(etf[0], 131);
    assert_eq!(etf[1], 110);
    assert_eq!(etf_integer_to_bigint(&etf), big);
    let neg = -big.clone();
    assert_eq!(etf_integer_to_bigint(&bigint_to_etf(&neg)), neg);
}

#[test]
fn long_magnitude_uses_large_big_ext() {
    let magnitude = vec![7u8; 300];
    let etf = encode_etf_bignum(true, &magnitude);
    assert_eq!(&etf[..7], &[131, 111, 0, 0, 1, 44, 1]);
    assert_eq!(&etf[7..], &magnitude[..]);
    let expected = -BigInt::from_bytes_le(num_bigint::Sign::Plus, &magnitude);
    assert_eq!(etf_integer_to_bigint(&etf), expected);
}

#[test]
fn integer_repr_prefers_signed_then_unsigned_then_bignum() {
    assert!(matches!(integer_repr_of_bigint(&BigInt::from(-5i64)), IntegerRepr::Signed(-5)));
    assert!(matches!(integer_repr_of_bigint(&BigInt::from(i64::MAX)), IntegerRepr::Signed(i64::MAX)));
    assert!(matches!(integer_repr_of_bigint(&BigInt::from(u64::MAX)), IntegerRepr::Unsigned(u64::MAX)));
    let big = BigInt::from(u64::MAX) + BigInt::from(1u8);
    match integer_repr_of_bigint(&big) {
        IntegerRepr::Bignum(bytes) => {
            assert_eq!(bytes, vec![131, 110, 9, 0, 0, 0, 0, 0, 0, 0, 0, 0, 1]);
            assert_eq!(etf_integer_to_bigint(&bytes), big);
        }
        _ => panic!("a value beyond u64 must become a bignum"),
    }
    let below = BigInt::from(i64::MIN) - BigInt::from(1u8);
    match integer_repr_of_bigint(&below) {
        IntegerRepr::Bignum(bytes) => assert_eq!(etf_integer_to_bigint(&bytes), below),
        _ => panic!("a value below i64 must become a bignum"),
    }
}

#[test]
fn etf_integer_shape_check() {
    assert!(is_etf_integer(&[131, 97, 5]));
    assert!(is_etf_integer(&[131, 98, 0, 0, 0, 1]));
    assert!(!is_etf_integer(&[131, 98, 0, 0, 1]));
    assert!(is_etf_integer(&[131, 110, 1, 0, 9]));
    assert!(!is_etf_integer(&[131, 110, 2, 0, 9]));
    assert!(!is_etf_integer(&[130, 97, 5]));
    assert!(!is_etf_integer(&[131, 100, 5]));
    assert!(is_etf_integer(&[131, 111, 0, 0, 0, 1, 0, 4]));
    assert!(!is_etf_integer(&[131, 111, 0, 0, 0, 2, 0, 4]));
}
