use otter::types::{ArenaState, GenerationCounter};

#[test]
fn generation_stamps_increase() {
    let mut g = GenerationCounter::new();
    let a = g.next_generation();
    let b = g.next_generation();
    assert_eq!(a, 1);
    assert_eq!(b, 2);
}

#[test]
fn export_import_round_trip_and_clear_invalidates() {
    let mut g = GenerationCounter::new();
    let mut arena = ArenaState::new(g.next_generation());
    let handle = arena.wrap_term(0x55);
    assert!(arena.accepts(&handle));
    assert_eq!(arena.unwrap_term(handle), 0x55);
    arena.clear(g.next_generation());
    assert!(!arena.accepts(&handle));
    let other = ArenaState::new(g.next_generation());
    let fresh = arena.wrap_term(0x66);
    assert!(!other.accepts(&fresh));
}

#[test]
fn steal_send_leaves_the_arena_dirty_until_cleared() {
    let mut g = GenerationCounter::new();
    let mut arena = ArenaState::new(g.next_generation());
    let handle = arena.wrap_term(7);
    arena.record_send(true);
    assert!(arena.is_dirty());
    assert!(!arena.accepts(&handle));
    arena.clear(g.next_generation());
    assert!(!arena.is_dirty());
    let mut undelivered = ArenaState::new(g.next_generation());
    undelivered.record_send(false);
    assert!(!undelivered.is_dirty());
}

#[test]
fn a_fresh_counter_has_stamps_left() {
    let mut g = GenerationCounter::new();
    assert!(g.has_next());
    g.next_generation();
    assert!(g.has_next());
}

#[test]
fn clearing_from_the_counter_takes_a_fresh_stamp() {
    let mut g = GenerationCounter::new();
    let mut arena = ArenaState::fresh(&mut g);
    assert_eq!(arena.version(), 1);
    let handle = arena.wrap_term(9);
    arena.record_send(true);
    let other = ArenaState::fresh(&mut g);
    assert_eq!(other.version(), 2);
    arena.clear_from(&mut g);
    assert_eq!(arena.version(), 3);
    assert!(!arena.is_dirty());
    assert!(!arena.accepts(&handle));
}
