use vc_cast::builtin::{
    describe_ref, describe_value, Banner, BuiltinValue, Describable, TAG_BANNER, TAG_INT, TAG_TEXT,
};
use vc_cast::cast::{
    cast_to_concrete, cast_to_trait, erase_conformant, CastError, VcCast, VcValueType,
    VcValueTypeCast, VcValueTraitCast,
};
use vc_cast::cell::{same_cell, CellContent, CellId, ValueUniverse};

fn int_cell(v: i64, provenance: Option<CellId>) -> CellContent<BuiltinValue> {
    CellContent { payload: <i64 as VcValueType>::erase(v), provenance }
}

fn text_cell(s: &str, provenance: Option<CellId>) -> CellContent<BuiltinValue> {
    CellContent {
        payload: <String as VcValueType>::erase(String::from(s)),
        provenance,
    }
}

fn banner_cell(s: &str, provenance: Option<CellId>) -> CellContent<BuiltinValue> {
    CellContent {
        payload: <Banner as VcValueType>::erase(Banner { text: String::from(s) }),
        provenance,
    }
}

#[test]
fn concrete_cast_succeeds_on_matching_type() {
    let id = CellId { task: 3, index: 1 };
    let cell = int_cell(42, Some(id));
    let r = <VcValueTypeCast<i64> as VcCast>::cast(cell).unwrap();
    assert_eq!(*r.get(), 42);
    assert_eq!(r.cell(), Some(id));
}

#[test]
fn concrete_cast_fails_on_mismatched_type() {
    let cell = int_cell(42, None);
    match <VcValueTypeCast<String> as VcCast>::cast(cell) {
        Err(e) => assert_eq!(e, CastError::TypeMismatch { expected: TAG_TEXT, found: TAG_INT }),
        Ok(_) => panic!("casting an integer cell to a text must fail"),
    }
}

#[test]
fn concrete_cast_mismatch_other_direction() {
    let cell = text_cell("forty-two", None);
    match <VcValueTypeCast<i64> as VcCast>::cast(cell) {
        Err(e) => assert_eq!(e, CastError::TypeMismatch { expected: TAG_INT, found: TAG_TEXT }),
        Ok(_) => panic!("casting a text cell to an integer must fail"),
    }
}

#[test]
fn concrete_cast_roundtrips_text() {
    let cell = text_cell("hello world", None);
    let r = <VcValueTypeCast<String> as VcCast>::cast(cell).unwrap();
    assert_eq!(r.get().as_str(), "hello world");
    assert_eq!(r.cell(), None);
}

#[test]
fn concrete_cast_roundtrips_banner() {
    let cell = banner_cell("release notes", None);
    let r = <VcValueTypeCast<Banner> as VcCast>::cast(cell).unwrap();
    assert_eq!(r.get().text.as_str(), "release notes");
}

#[test]
fn trait_cast_dispatches_to_banner_implementation() {
    let id = CellId { task: 8, index: 0 };
    let cell = banner_cell("hello", Some(id));
    let t = <VcValueTraitCast<Describable> as VcCast>::cast(cell).unwrap();
    let direct = Banner { text: String::from("hello") }.describe();
    assert_eq!(describe_ref(&t), direct);
    assert_eq!(describe_ref(&t).as_str(), "hello");
    assert_eq!(t.cell(), Some(id));
}

#[test]
fn conformance_path_feeds_the_trait_cast() {
    let id = CellId { task: 2, index: 9 };
    let cell = erase_conformant::<Banner, Describable>(
        Banner { text: String::from("wrapped once") },
        Some(id),
    );
    let t = cast_to_trait::<Describable>(cell).unwrap();
    assert_eq!(describe_ref(&t).as_str(), "wrapped once");
    assert_eq!(t.cell(), Some(id));
}

#[test]
fn empty_banner_describes_as_empty_text() {
    let t = cast_to_trait::<Describable>(banner_cell("", None)).unwrap();
    assert_eq!(describe_ref(&t).as_str(), "");
}

#[test]
fn trait_cast_dispatches_to_text_implementation() {
    let cell = text_cell("plain text", None);
    let t = <VcValueTraitCast<Describable> as VcCast>::cast(cell).unwrap();
    assert_eq!(describe_ref(&t).as_str(), "plain text");
}

#[test]
fn trait_references_over_different_types_are_interchangeable() {
    let from_text = <VcValueTraitCast<Describable> as VcCast>::cast(text_cell("same", None)).unwrap();
    let from_banner =
        <VcValueTraitCast<Describable> as VcCast>::cast(banner_cell("same", None)).unwrap();
    assert_eq!(describe_ref(&from_text), describe_ref(&from_banner));
}

#[test]
fn describe_value_matches_direct_call() {
    let b = Banner { text: String::from("direct") };
    let direct = b.describe();
    let erased = <Banner as VcValueType>::erase(b);
    assert_eq!(describe_value(&erased), direct);
}

#[test]
fn casting_preserves_cell_identity_across_strategies() {
    let id = CellId { task: 11, index: 4 };
    let concrete = <VcValueTypeCast<Banner> as VcCast>::cast(banner_cell("x", Some(id))).unwrap();
    let through_trait =
        <VcValueTraitCast<Describable> as VcCast>::cast(banner_cell("x", Some(id))).unwrap();
    assert_eq!(concrete.cell(), through_trait.cell());
    assert!(same_cell(concrete.cell(), through_trait.cell()));
}

#[test]
fn references_without_recorded_provenance_denote_no_cell() {
    let a = cast_to_concrete::<i64>(int_cell(1, None)).unwrap();
    let b = cast_to_concrete::<i64>(int_cell(1, None)).unwrap();
    assert!(!same_cell(a.cell(), b.cell()));
    let c = cast_to_concrete::<i64>(int_cell(1, Some(CellId { task: 1, index: 1 }))).unwrap();
    let d = cast_to_concrete::<i64>(int_cell(2, Some(CellId { task: 1, index: 2 }))).unwrap();
    assert!(!same_cell(c.cell(), d.cell()));
    assert!(same_cell(c.cell(), c.cell()));
}

#[test]
fn cell_holding_forty_two_casts_to_its_own_type_only() {
    let r = cast_to_concrete::<i64>(int_cell(42, None)).unwrap();
    assert_eq!(*r.get(), 42);
    match cast_to_concrete::<String>(int_cell(42, None)) {
        Err(CastError::TypeMismatch { expected, found }) => {
            assert_eq!(expected, TAG_TEXT);
            assert_eq!(found, TAG_INT);
        }
        Ok(_) => panic!("casting an integer cell to a text must fail"),
    }
}

#[test]
fn trait_cast_entry_point_describes_like_the_concrete_type() {
    let t = cast_to_trait::<Describable>(banner_cell("announcement", None)).unwrap();
    let direct = Banner { text: String::from("announcement") }.describe();
    assert_eq!(describe_ref(&t), direct);
}

#[test]
fn runtime_identities_are_distinct() {
    assert_ne!(<i64 as VcValueType>::type_id(), <String as VcValueType>::type_id());
    assert_ne!(<i64 as VcValueType>::type_id(), <Banner as VcValueType>::type_id());
    assert_ne!(<String as VcValueType>::type_id(), <Banner as VcValueType>::type_id());
}

#[test]
fn erased_values_carry_their_types_tag() {
    assert_eq!(<i64 as VcValueType>::erase(5).tag(), TAG_INT);
    assert_eq!(<String as VcValueType>::erase(String::from("s")).tag(), TAG_TEXT);
    assert_eq!(
        <Banner as VcValueType>::erase(Banner { text: String::from("b") }).tag(),
        TAG_BANNER
    );
}

#[test]
fn recovery_succeeds_exactly_on_matching_tag() {
    assert_eq!(<i64 as VcValueType>::try_recover(BuiltinValue::Int(9)), Some(9));
    assert!(<i64 as VcValueType>::try_recover(BuiltinValue::Text(String::from("t"))).is_none());
    assert!(<String as VcValueType>::try_recover(BuiltinValue::Int(0)).is_none());
}
