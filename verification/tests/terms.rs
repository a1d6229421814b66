use otter::codec::CodecError;
use otter::env::EnvKind;
use otter::system::ThreadType;
use otter::types::{
    atom_name_bytes, binary_to_term_options, charlist_bytes, check_raised, deserialized, return_word, AnyTerm, Atom, AtomError, Binary,
    Bitstring, Integer, List, ListIterator, LocalPid, Raised, StaticAtom, Term, TermType, Tuple,
    TupleView, TypedTerm, BIN2TERM_SAFE, THE_NON_VALUE,
};

#[test]
fn term_type_codes_follow_the_nif_header() {
    assert_eq!(TermType::from_code(1), Some(TermType::Atom));
    assert_eq!(TermType::from_code(2), Some(TermType::Bitstring));
    assert_eq!(TermType::from_code(5), Some(TermType::Integer));
    assert_eq!(TermType::from_code(7), Some(TermType::MapTerm));
    assert_eq!(TermType::from_code(11), Some(TermType::Tuple));
    assert_eq!(TermType::from_code(0), None);
    assert_eq!(TermType::from_code(12), None);
    assert_eq!(TermType::from_code(-1), None);
}

#[test]
fn resolve_keeps_the_word_and_picks_the_variant() {
    let t: AnyTerm<'_> = AnyTerm::wrap(0x1234);
    match t.resolve(5) {
        Some(TypedTerm::Integer(i)) => assert_eq!(i.raw_term(), 0x1234),
        _ => panic!("expected an integer"),
    }
    assert!(t.resolve(99).is_none());
    assert!(matches!(TypedTerm::decode(t, 99), Err(CodecError::UnknownTermType)));
    assert_eq!(TypedTerm::decode(t, 6).ok().map(|x| x.raw_term()), Some(0x1234));
}

#[test]
fn decoders_check_the_type_then_rewrap() {
    let t: AnyTerm<'_> = AnyTerm::wrap(42);
    assert_eq!(Integer::decode(t, Some(TermType::Integer)).ok().map(|i| i.raw_term()), Some(42));
    assert!(matches!(Integer::decode(t, Some(TermType::Float)), Err(CodecError::WrongType)));
    assert!(matches!(Integer::decode(t, None), Err(CodecError::WrongType)));
    assert_eq!(Binary::decode(t, true).ok().map(|b| b.raw_term()), Some(42));
    assert!(matches!(Binary::decode(t, false), Err(CodecError::WrongType)));
    assert!(matches!(Atom::decode(t, false), Err(CodecError::WrongType)));
    assert!(matches!(LocalPid::decode(None), Err(CodecError::WrongType)));
    let pid = LocalPid::from_raw(9);
    assert_eq!(LocalPid::decode(Some(pid)).ok().map(|p| Term::<'_>::raw_term(p)), Some(9));
}

#[test]
fn a_binary_is_a_bitstring_variant() {
    let b: Binary<'_> = Binary::from_raw(77);
    match TypedTerm::from(b) {
        TypedTerm::Bitstring(bs) => assert_eq!(bs.raw_term(), 77),
        _ => panic!("binary should land in the bitstring variant"),
    }
    let bs: Bitstring<'_> = Bitstring::from_raw(78);
    assert_eq!(bs.to_binary(true).map(|b| b.raw_term()), Some(78));
    assert!(bs.to_binary(false).is_none());
}

#[test]
fn sub_binary_bounds() {
    assert!(Binary::sub_in_bounds(2, 3, 5));
    assert!(!Binary::sub_in_bounds(2, 4, 5));
    assert!(!Binary::sub_in_bounds(usize::MAX, 2, usize::MAX));
}

#[test]
fn list_walk_yields_heads_then_records_the_tail() {
    let list: List<'_> = List::from_raw(100);
    let mut it = ListIterator::new(list);
    assert_eq!(it.current(), 100);
    assert_eq!(it.advance(Some((1, 101))).map(|h| h.raw_term()), Some(1));
    assert_eq!(it.current(), 101);
    assert_eq!(it.advance(Some((2, 102))).map(|h| h.raw_term()), Some(2));
    assert!(it.tail().is_none());
    assert!(it.advance(None).is_none());
    assert!(it.is_finished());
    assert_eq!(it.tail().map(|t| t.raw_term()), Some(102));
    // Fused: nothing more, whatever the cell says.
    assert!(it.advance(Some((3, 103))).is_none());
    assert_eq!(it.tail().map(|t| t.raw_term()), Some(102));
}

#[test]
fn tuple_view_indexes_its_elements() {
    let elements = [10usize, 20, 30];
    let view = TupleView::new(Tuple::from_raw(5), &elements);
    assert_eq!(view.len(), 3);
    assert!(!view.is_empty());
    assert_eq!(view.get(1).raw_term(), 20);
    assert_eq!(view.raw_term(), 5);
    let empty: [usize; 0] = [];
    assert!(TupleView::new(Tuple::from_raw(6), &empty).is_empty());
}

#[test]
fn atoms_intern_and_lookup_outcomes() {
    assert_eq!(Atom::interned(true, 3).ok().map(|a| Term::<'_>::raw_term(a)), Some(3));
    assert_eq!(Atom::interned(false, 3).err(), Some(AtomError::NameTooLong));
    assert_eq!(AtomError::NameTooLong.message(), "atom name exceeds 255 characters");
    assert!(Atom::existing(false, 3).is_none());
    assert_eq!(atom_name_bytes(b"ok\0\0".to_vec(), 3), b"ok".to_vec());
    assert_eq!(charlist_bytes(b"hi\0".to_vec(), 2, 3), Some(b"hi".to_vec()));
    assert_eq!(charlist_bytes(b"hi\0".to_vec(), 2, 0), None);
    assert_eq!(charlist_bytes(Vec::new(), 0, 0), Some(Vec::new()));
}

#[test]
fn static_atom_keeps_its_first_value() {
    let mut s = StaticAtom::new("ok");
    assert_eq!(s.name(), "ok");
    assert!(s.try_get().is_none());
    s.init(Atom::from_raw(11));
    s.init(Atom::from_raw(12));
    assert_eq!(Term::<'_>::raw_term(s.get()), 11);
}

#[test]
fn raised_results_return_the_non_value() {
    let t: AnyTerm<'_> = AnyTerm::wrap(8);
    assert_eq!(check_raised(false, t).ok().map(|x| x.raw_term()), Some(8));
    assert!(check_raised(true, t).is_err());
    assert_eq!(return_word(Ok(t)), 8);
    assert_eq!(return_word(Err(Raised::pending())), THE_NON_VALUE);
}

#[test]
fn thread_types_and_env_kinds() {
    assert_eq!(ThreadType::from_code(0), ThreadType::NonScheduler);
    assert_eq!(ThreadType::from_code(1), ThreadType::Scheduler);
    assert_eq!(ThreadType::from_code(2), ThreadType::DirtyCpu);
    assert_eq!(ThreadType::from_code(3), ThreadType::DirtyIo);
    assert_eq!(ThreadType::from_code(-1), ThreadType::Unknown(-1));
    assert!(EnvKind::Load.may_register_resource_types());
    assert!(EnvKind::Upgrade.may_register_resource_types());
    assert!(!EnvKind::ProcessBound.may_register_resource_types());
    assert!(EnvKind::Callback.has_caller());
    assert!(!EnvKind::ProcessIndependent.has_caller());
}

#[test]
fn charlist_longer_than_the_buffer_keeps_the_whole_buffer() {
    assert_eq!(charlist_bytes(b"ab".to_vec(), 5, 3), Some(b"ab".to_vec()));
}

#[test]
fn binary_to_term_options_and_outcome() {
    assert_eq!(BIN2TERM_SAFE, enif_ffi::BIN2TERM_SAFE);
    assert_eq!(binary_to_term_options(true), 0x2000_0000);
    assert_eq!(binary_to_term_options(false), 0);
    let ok: Option<AnyTerm<'static>> = deserialized(7, 0x4b);
    assert_eq!(ok.map(|t| t.raw_term()), Some(0x4b));
    let failed: Option<AnyTerm<'static>> = deserialized(0, 0x4b);
    assert!(failed.is_none());
}
