use pipewire_yolo_client::pod::{
    AsChoice, AsFD, AsFraction, AsRange, AsRectangle, AsSteps, Choice, ChoiceEnum, ChoiceFlags,
    ChoiceValue, Fd, Fraction, Id, PodKind, PodValue, Rectangle, ValueArray,
};

#[test]
fn simple_values_are_scalars_strings_and_bytes() {
    assert!(PodValue::Bool(true).is_simple_value());
    assert!(PodValue::Id(Id(3)).is_simple_value());
    assert!(PodValue::String("a".to_string()).is_simple_value());
    assert!(PodValue::Bytes(vec![1, 2]).is_simple_value());
    assert!(PodValue::Null.is_simple_value());
    assert!(!PodValue::Struct(vec![]).is_simple_value());
    assert!(!PodValue::Pointer(1, 0).is_simple_value());
    assert!(!PodValue::ValueArray(ValueArray::Int(vec![1])).is_simple_value());
    assert!(!PodValue::choice_of_ints(vec![1]).is_simple_value());
}

#[test]
fn only_choices_are_choices() {
    assert!(PodValue::choice_of_ids(vec![Id(1)]).is_choice());
    assert!(!PodValue::Int(1).is_choice());
    assert!(!PodValue::Struct(vec![]).is_choice());
}

#[test]
fn values_compare_by_variant_only() {
    assert!(PodValue::Int(1) == PodValue::Int(2));
    assert!(PodValue::Long(1) != PodValue::Int(1));
    assert!(PodValue::String("a".to_string()) == PodValue::String("b".to_string()));
    assert_eq!(PodValue::Fd(Fd(4)).kind(), PodKind::Fd);
}

#[test]
fn integers_convert_to_their_pod_types() {
    assert!(matches!(PodValue::from(7u32), PodValue::Id(Id(7))));
    assert!(matches!(PodValue::from(-7i32), PodValue::Int(-7)));
    assert!(matches!(PodValue::from(7u16), PodValue::Int(7)));
    assert!(matches!(PodValue::from(-7i16), PodValue::Int(-7)));
    assert!(matches!(PodValue::from(-7i64), PodValue::Long(-7)));
    assert!(matches!(PodValue::from(u64::MAX), PodValue::Long(-1)));
    assert!(matches!(PodValue::from(0x00ff_ffff_ffff_ffffu64), PodValue::Long(0x00ff_ffff_ffff_ffff)));
    assert!(matches!(PodValue::from(true), PodValue::Bool(true)));
}

#[test]
fn shapes_convert_to_rectangles_fractions_and_fds() {
    assert!(matches!(
        PodValue::from((AsRectangle, 1920, 1080)),
        PodValue::Rectangle(Rectangle { width: 1920, height: 1080 })
    ));
    assert!(matches!(
        PodValue::from((AsFraction, 30, 1)),
        PodValue::Fraction(Fraction { num: 30, denom: 1 })
    ));
    assert!(matches!(PodValue::from((AsFD, 9)), PodValue::Fd(Fd(9))));
    match PodValue::string("hola") {
        PodValue::String(s) => assert_eq!(s, "hola"),
        _ => panic!("not a string"),
    }
}

#[test]
fn vectors_convert_to_arrays() {
    match PodValue::from(vec![1i32, 2, 3]) {
        PodValue::ValueArray(ValueArray::Int(v)) => assert_eq!(v, vec![1, 2, 3]),
        _ => panic!("not an int array"),
    }
    match PodValue::from(vec![1u8, 2]) {
        PodValue::Bytes(v) => assert_eq!(v, vec![1, 2]),
        _ => panic!("not bytes"),
    }
    match PodValue::rectangle_array(vec![(AsRectangle, 2, 3), (AsRectangle, 4, 5)]) {
        PodValue::ValueArray(ValueArray::Rectangle(v)) => {
            assert_eq!(v, vec![Rectangle { width: 2, height: 3 }, Rectangle { width: 4, height: 5 }])
        }
        _ => panic!("not a rectangle array"),
    }
    match PodValue::fraction_array(vec![(AsFraction, 1, 2)]) {
        PodValue::ValueArray(ValueArray::Fraction(v)) => assert_eq!(v, vec![Fraction { num: 1, denom: 2 }]),
        _ => panic!("not a fraction array"),
    }
    match PodValue::fd_array(vec![(AsFD, 3), (AsFD, 4)]) {
        PodValue::ValueArray(ValueArray::Fd(v)) => assert_eq!(v, vec![Fd(3), Fd(4)]),
        _ => panic!("not an fd array"),
    }
}

#[test]
fn enumerations_default_to_their_first_value() {
    match PodValue::choice_of_longs(vec![5, 6, 7]) {
        PodValue::Choice(ChoiceValue::Long(Choice(ChoiceFlags(0), ChoiceEnum::Enum { default, alternatives }))) => {
            assert_eq!(default, 5);
            assert_eq!(alternatives, vec![5, 6, 7]);
        }
        _ => panic!("not a long enumeration"),
    }
    match PodValue::choice_of_unsigned_longs(vec![u64::MAX, 1]) {
        PodValue::Choice(ChoiceValue::Long(Choice(_, ChoiceEnum::Enum { default, alternatives }))) => {
            assert_eq!(default, -1);
            assert_eq!(alternatives, vec![-1, 1]);
        }
        _ => panic!("not a long enumeration"),
    }
}

#[test]
fn ranges_and_steps_become_choices() {
    match PodValue::from((AsChoice, AsRange { default: 30i32, min: 1, max: 60 })) {
        PodValue::Choice(ChoiceValue::Int(Choice(ChoiceFlags(0), ChoiceEnum::Range { default, min, max }))) => {
            assert_eq!((default, min, max), (30, 1, 60));
        }
        _ => panic!("not an int range"),
    }
    match PodValue::from((AsChoice, AsSteps { default: 4i64, min: 0, max: 8, step: 2 })) {
        PodValue::Choice(ChoiceValue::Long(Choice(_, ChoiceEnum::Step { default, min, max, step }))) => {
            assert_eq!((default, min, max, step), (4, 0, 8, 2));
        }
        _ => panic!("not a long step"),
    }
}

#[test]
fn ranges_and_steps_of_any_type_keep_their_fields() {
    let small = Rectangle { width: 320, height: 240 };
    let big = Rectangle { width: 1920, height: 1080 };
    let mid = Rectangle { width: 1280, height: 720 };
    match Choice::from(AsRange { default: mid, min: small, max: big }) {
        Choice(ChoiceFlags(0), ChoiceEnum::Range { default, min, max }) => {
            assert_eq!((default, min, max), (mid, small, big));
        }
        _ => panic!("not a range"),
    }
    let (d, lo, hi, st) = (Fraction { num: 30, denom: 1 }, Fraction { num: 1, denom: 1 },
        Fraction { num: 60, denom: 1 }, Fraction { num: 5, denom: 1 });
    match Choice::from(AsSteps { default: d, min: lo, max: hi, step: st }) {
        Choice(ChoiceFlags(0), ChoiceEnum::Step { default, min, max, step }) => {
            assert_eq!((default, min, max, step), (d, lo, hi, st));
        }
        _ => panic!("not a stepped range"),
    }
}

#[test]
fn lists_of_values_group_into_enumerations() {
    let list = vec![PodValue::Id(Id(12)), PodValue::Id(Id(8)), PodValue::Id(Id(7))];
    match PodValue::choice_of_values(list) {
        PodValue::Choice(ChoiceValue::Id(Choice(ChoiceFlags(0), ChoiceEnum::Enum { default, alternatives }))) => {
            assert_eq!(default, Id(12));
            assert_eq!(alternatives, vec![Id(12), Id(8), Id(7)]);
        }
        _ => panic!("not an id enumeration"),
    }
    let list = vec![
        PodValue::Rectangle(Rectangle { width: 1, height: 2 }),
        PodValue::Rectangle(Rectangle { width: 3, height: 4 }),
    ];
    match PodValue::choice_of_values(list) {
        PodValue::Choice(ChoiceValue::Rectangle(Choice(_, ChoiceEnum::Enum { default, alternatives }))) => {
            assert_eq!(default, Rectangle { width: 1, height: 2 });
            assert_eq!(alternatives.len(), 2);
        }
        _ => panic!("not a rectangle enumeration"),
    }
    match PodValue::choice_of_values(vec![PodValue::Float(1.5f32.to_bits())]) {
        PodValue::Choice(ChoiceValue::Float(Choice(_, ChoiceEnum::Enum { default, .. }))) => {
            assert_eq!(f32::from_bits(default), 1.5);
        }
        _ => panic!("not a float enumeration"),
    }
}
