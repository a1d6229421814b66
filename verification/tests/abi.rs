use otter::abi::{compute_tag, content_tag, fallback, TagCache};

#[test]
fn tag_is_cached() {
    let mut cache = TagCache::new();
    let first = cache.get_or_init(|| compute_tag(Some(b"a build image"), 0));
    let again = cache.get_or_init(|| compute_tag(None, first.wrapping_add(1)));
    assert_eq!(first, again);
    assert_eq!(cache.get(), Some(first));
}

#[test]
fn identical_images_share_a_tag_and_distinct_images_do_not() {
    let a = content_tag(b"build one");
    assert_eq!(a, content_tag(b"build one"));
    assert_ne!(a, content_tag(b"build two"));
    assert_eq!(compute_tag(Some(b"build one"), 7), a);
    assert_eq!(compute_tag(None, 7), 7);
}

#[test]
fn fallback_depends_on_the_clock_and_the_address() {
    let a = fallback(1_000, 0x7f00);
    assert_eq!(a, fallback(1_000, 0x7f00));
    assert_ne!(a, fallback(1_001, 0x7f00));
    assert_ne!(a, fallback(1_000, 0x7f08));
}
