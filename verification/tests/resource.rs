use otter::resource::{abi_resource_name, format_hex16, is_valid_c_name, tagged_resource_name};

#[test]
fn hex_tag_is_sixteen_lowercase_digits() {
    assert_eq!(format_hex16(0), b"0000000000000000".to_vec());
    assert_eq!(format_hex16(0xdead_beef), b"00000000deadbeef".to_vec());
    assert_eq!(format_hex16(u64::MAX), b"ffffffffffffffff".to_vec());
    assert_eq!(format_hex16(0x0123_4567_89ab_cdef), format!("{:016x}", 0x0123_4567_89ab_cdefu64).into_bytes());
}

#[test]
fn abi_name_appends_the_build_tag() {
    let name = abi_resource_name("my_nif::Counter", 0xabc);
    assert_eq!(name, b"my_nif::Counter#abi=0000000000000abc".to_vec());
    assert_ne!(abi_resource_name("T", 1), abi_resource_name("T", 2));
}

#[test]
fn tagged_name_carries_the_callers_tag() {
    assert_eq!(tagged_resource_name("my_nif::Counter", "v2"), b"my_nif::Counter#tag=v2".to_vec());
}

#[test]
fn names_with_nul_bytes_are_not_c_names() {
    assert!(is_valid_c_name(b"ok#abi=00"));
    assert!(is_valid_c_name(b""));
    assert!(!is_valid_c_name(b"bad\0name"));
}

#[test]
fn takeover_names_never_collide_with_build_names() {
    assert_ne!(abi_resource_name("T", 0x1), tagged_resource_name("T", "0000000000000001"));
    assert_ne!(abi_resource_name("T", 0), tagged_resource_name("T", ""));
}
