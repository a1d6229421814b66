use otter::priv_data::{PrivData, ResourceRegistry, PRIV_MAGIC};

#[test]
fn priv_magic_is_rustnif1_big_endian() {
    assert_eq!(PRIV_MAGIC, u64::from_be_bytes(*b"RUSTNIF1"));
}

#[test]
fn registry_looks_up_what_was_registered() {
    let mut reg: ResourceRegistry<u64, usize> = ResourceRegistry::new();
    assert_eq!(reg.get(&1), None);
    reg.insert(1, 0x1000);
    reg.insert(2, 0x2000);
    assert_eq!(reg.get(&1), Some(0x1000));
    assert_eq!(reg.get(&2), Some(0x2000));
    assert_eq!(reg.get(&3), None);
    assert!(reg.contains(&2));
    assert!(!reg.contains(&3));
}

#[test]
fn fresh_priv_data_has_the_header_and_an_empty_registry() {
    let mut pd: PrivData<u64, usize> = PrivData::new();
    assert_eq!(pd.magic(), PRIV_MAGIC);
    assert_eq!(pd.user_priv_data(), 0);
    assert_eq!(pd.registry().get(&7), None);
    pd.register(7, 0x70);
    assert_eq!(pd.registry().get(&7), Some(0x70));
    assert_eq!(pd.magic(), PRIV_MAGIC);
}
