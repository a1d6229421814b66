use otter::allocator::{align_up, EnifAlloc};
use otter::resource::{align_ptr, resource_alloc_size};

#[test]
fn align_up_rounds_to_the_next_multiple() {
    assert_eq!(align_up(0, 8), 0);
    assert_eq!(align_up(1, 8), 8);
    assert_eq!(align_up(8, 8), 8);
    assert_eq!(align_up(9, 16), 16);
    assert_eq!(align_up(4097, 4096), 8192);
    assert_eq!(align_up(13, 1), 13);
}

#[test]
fn request_size_adds_alignment_slack_and_a_header_word() {
    let word = std::mem::size_of::<usize>();
    assert_eq!(EnifAlloc::header(), word);
    assert_eq!(EnifAlloc::request_size(100, 16), Some(100 + 16 + word));
    assert_eq!(EnifAlloc::request_size(usize::MAX, 1), None);
    assert_eq!(EnifAlloc::request_size(usize::MAX - word - 8, 8), Some(usize::MAX));
    assert_eq!(EnifAlloc::request_size(usize::MAX - word - 7, 8), None);
}

#[test]
fn user_address_leaves_room_for_the_stashed_base() {
    let word = EnifAlloc::header();
    let base = 0x1000;
    let user = EnifAlloc::user_address(base, 64);
    assert_eq!(user % 64, 0);
    assert!(user >= base + word);
    assert!(user < base + word + 64);
    assert_eq!(EnifAlloc::header_address(user), user - word);
    // A base already one word below an aligned boundary needs no slack.
    assert_eq!(EnifAlloc::user_address(0x2000 - word, 16), 0x2000);
}

#[test]
fn resource_objects_are_aligned_inside_their_block() {
    assert_eq!(resource_alloc_size(24, 8), 31);
    assert_eq!(resource_alloc_size(1, 1), 1);
    let raw = 0x7008;
    let obj = align_ptr(raw, 32);
    assert_eq!(obj, 0x7020);
    assert!(obj + 24 <= raw + resource_alloc_size(24, 32));
}
