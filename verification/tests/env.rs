use otter::env::OwnedTermBuilder;
use otter::types::THE_NON_VALUE;

#[test]
fn owned_term_builder_hands_over_env_and_last_message() {
    let mut builder = OwnedTermBuilder::new(0x1000);
    assert_eq!(builder.env(), 0x1000);
    assert!(!builder.is_set());
    builder.set(0x1000, 0x2b);
    builder.set(0x1000, 0x3b);
    assert!(builder.is_set());
    let owned = builder.build();
    assert_eq!(owned.env(), 0x1000);
    assert_eq!(owned.msg(), 0x3b);
    assert_ne!(owned.msg(), THE_NON_VALUE);
}
