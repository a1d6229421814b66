use otter::codec::{
    bool_atom_name, bool_from_atom, check_arity, decode_string, finish_list, i16_from_i64,
    i32_from_i64, i64_from_i64, i8_from_i64, isize_from_i64, string_from_utf8, u16_from_u64,
    u32_from_u64, u64_from_u64, u8_from_u64, usize_from_u64, CodecError,
};

#[test]
fn codec_error_messages() {
    assert_eq!(CodecError::WrongType.message(), "wrong term type");
    assert_eq!(CodecError::IntegerOverflow.message(), "integer overflow");
    assert_eq!(CodecError::NotFinite.message(), "float is not finite");
    assert_eq!(CodecError::FloatRange.message(), "float out of range");
    assert_eq!(CodecError::NotUtf8.message(), "not valid UTF-8");
    assert_eq!(CodecError::WrongArity.message(), "wrong tuple arity");
    assert_eq!(CodecError::UnknownTermType.message(), "unknown term type");
}

#[test]
fn signed_narrowing_checks_the_range() {
    assert_eq!(i8_from_i64(Some(127)), Ok(127));
    assert_eq!(i8_from_i64(Some(-128)), Ok(-128));
    assert_eq!(i8_from_i64(Some(128)), Err(CodecError::IntegerOverflow));
    assert_eq!(i8_from_i64(None), Err(CodecError::IntegerOverflow));
    assert_eq!(i16_from_i64(Some(-32769)), Err(CodecError::IntegerOverflow));
    assert_eq!(i16_from_i64(Some(32767)), Ok(32767));
    assert_eq!(i32_from_i64(Some(i64::from(i32::MIN))), Ok(i32::MIN));
    assert_eq!(i32_from_i64(Some(1 << 31)), Err(CodecError::IntegerOverflow));
    assert_eq!(i64_from_i64(Some(i64::MIN)), Ok(i64::MIN));
    assert_eq!(i64_from_i64(None), Err(CodecError::IntegerOverflow));
    assert_eq!(isize_from_i64(Some(-5)), Ok(-5));
}

#[test]
fn unsigned_narrowing_rejects_overflow_and_negatives() {
    assert_eq!(u8_from_u64(Some(255)), Ok(255));
    assert_eq!(u8_from_u64(Some(256)), Err(CodecError::IntegerOverflow));
    assert_eq!(u8_from_u64(None), Err(CodecError::IntegerOverflow));
    assert_eq!(u16_from_u64(Some(65536)), Err(CodecError::IntegerOverflow));
    assert_eq!(u32_from_u64(Some(u64::from(u32::MAX))), Ok(u32::MAX));
    assert_eq!(u64_from_u64(Some(u64::MAX)), Ok(u64::MAX));
    assert_eq!(usize_from_u64(Some(42)), Ok(42));
}

#[test]
fn bool_decodes_only_true_and_false() {
    assert_eq!(bool_from_atom(true, true, false), Ok(true));
    assert_eq!(bool_from_atom(true, false, true), Ok(false));
    assert_eq!(bool_from_atom(true, false, false), Err(CodecError::WrongType));
    assert_eq!(bool_from_atom(false, false, false), Err(CodecError::WrongType));
    assert_eq!(bool_atom_name(true), "true");
    assert_eq!(bool_atom_name(false), "false");
}

#[test]
fn strings_decode_from_binaries_or_charlists() {
    assert_eq!(string_from_utf8("héllo".as_bytes()), Ok("héllo".to_string()));
    assert_eq!(string_from_utf8(&[0xff, 0xfe]), Err(CodecError::NotUtf8));
    assert_eq!(decode_string(Some(b"abc"), None), Ok("abc".to_string()));
    assert_eq!(decode_string(None, Some(Some("xyz".to_string()))), Ok("xyz".to_string()));
    assert_eq!(decode_string(None, Some(None)), Err(CodecError::NotUtf8));
    assert_eq!(decode_string(None, None), Err(CodecError::WrongType));
}

#[test]
fn tuples_and_lists_need_the_right_shape() {
    assert_eq!(check_arity(3, 3), Ok(()));
    assert_eq!(check_arity(2, 3), Err(CodecError::WrongArity));
    assert_eq!(finish_list(vec![1, 2, 3], true), Ok(vec![1, 2, 3]));
    assert_eq!(finish_list(vec![1, 2], false), Err(CodecError::WrongType));
}

#[test]
fn integers_round_trip_through_the_64_bit_read() {
    assert_eq!(i8_from_i64(Some(i8::MIN as i64)), Ok(i8::MIN));
    assert_eq!(i16_from_i64(Some(-300)), Ok(-300));
    assert_eq!(u16_from_u64(Some(u16::MAX as u64)), Ok(u16::MAX));
    assert_eq!(u32_from_u64(Some(70000)), Ok(70000));
}

#[test]
fn strings_round_trip_through_their_utf8_bytes() {
    let s = String::from("héllo, wörld ✓");
    assert_eq!(decode_string(Some(s.as_bytes()), None), Ok(s.clone()));
    assert_eq!(string_from_utf8(s.as_bytes()), Ok(s));
}

#[test]
fn utf8_str_views_valid_bytes_only() {
    assert_eq!(otter::codec::utf8_str("ok ✓".as_bytes()), Some("ok ✓"));
    assert_eq!(otter::codec::utf8_str(&[0xff, 0x41]), None);
}
