//! A model of the SPA POD values that make up a stream's format and buffer
//! parameters, with the rules by which plain values are grouped into choices.
//!
//! Floating-point payloads are carried by their IEEE-754 bit patterns: the
//! rules here never read them, they only move them.

use vstd::prelude::*;

use crate::flags::PropertyFlags;

verus! {

/// An enumerated identifier (`SPA_TYPE_Id`).
#[derive(Clone, Copy, Debug, PartialEq, Eq, Structural)]
pub struct Id(pub u32);

/// A width and a height (`SPA_TYPE_Rectangle`).
#[derive(Clone, Copy, Debug, PartialEq, Eq, Structural)]
pub struct Rectangle {
    pub width: u32,
    pub height: u32,
}

/// A numerator and a denominator (`SPA_TYPE_Fraction`).
#[derive(Clone, Copy, Debug, PartialEq, Eq, Structural)]
pub struct Fraction {
    pub num: u32,
    pub denom: u32,
}

/// A file descriptor (`SPA_TYPE_Fd`).
#[derive(Clone, Copy, Debug, PartialEq, Eq, Structural)]
pub struct Fd(pub i64);

/// The flags of a choice (`SPA_POD_CHOICE_FLAG_*`).
#[derive(Clone, Copy, Debug, PartialEq, Eq, Structural)]
pub struct ChoiceFlags(pub u32);

impl ChoiceFlags {
    /// No flag at all.
    pub fn empty() -> (r: Self)
        ensures r == ChoiceFlags(0),
    {
        ChoiceFlags(0)
    }
}

/// The shape of a choice among values of one type.
#[derive(Clone, Debug)]
pub enum ChoiceEnum<T> {
    Plain(T),
    Range { default: T, min: T, max: T },
    Step { default: T, min: T, max: T, step: T },
    Enum { default: T, alternatives: Vec<T> },
    Flags { default: T, flags: Vec<T> },
}

/// A choice with its flags (`SPA_TYPE_Choice`).
#[derive(Clone, Debug)]
pub struct Choice<T>(pub ChoiceFlags, pub ChoiceEnum<T>);

/// A choice, tagged by the type of its values. `Float` and `Double` carry the
/// bit patterns of their values.
#[derive(Clone, Debug)]
pub enum ChoiceValue {
    Bool(Choice<bool>),
    Int(Choice<i32>),
    Long(Choice<i64>),
    Float(Choice<u32>),
    Double(Choice<u64>),
    Id(Choice<Id>),
    Rectangle(Choice<Rectangle>),
    Fraction(Choice<Fraction>),
    Fd(Choice<Fd>),
}

/// An array of values of one type (`SPA_TYPE_Array`). `Float` and `Double`
/// carry the bit patterns of their values.
#[derive(Clone, Debug)]
pub enum ValueArray {
    Null(Vec<()>),
    Bool(Vec<bool>),
    Id(Vec<Id>),
    Int(Vec<i32>),
    Long(Vec<i64>),
    Float(Vec<u32>),
    Double(Vec<u64>),
    Rectangle(Vec<Rectangle>),
    Fraction(Vec<Fraction>),
    Fd(Vec<Fd>),
}

/// An object: a type, an id and its properties (`SPA_TYPE_Object`).
#[derive(Debug)]
pub struct Object {
    pub type_: u32,
    pub id: u32,
    pub properties: Vec<Property>,
}

/// One property of an object: a key, its flags and its value.
#[derive(Debug)]
pub struct Property {
    pub key: u32,
    pub flags: PropertyFlags,
    pub value: PodValue,
}

/// A POD value. `Float` and `Double` carry the bit patterns of their values,
/// `Pointer` a type and an address.
#[derive(Debug)]
pub enum PodValue {
    Null,
    Bool(bool),
    Id(Id),
    Int(i32),
    Long(i64),
    Float(u32),
    Double(u64),
    String(String),
    Bytes(Vec<u8>),
    Rectangle(Rectangle),
    Fraction(Fraction),
    Fd(Fd),
    ValueArray(ValueArray),
    Struct(Vec<PodValue>),
    Object(Object),
    Choice(ChoiceValue),
    Pointer(u32, usize),
}

/// The variant of a `PodValue`, without its payload.
#[derive(Clone, Copy, Debug, PartialEq, Eq, Structural)]
pub enum PodKind {
    Null,
    Bool,
    Id,
    Int,
    Long,
    Float,
    Double,
    String,
    Bytes,
    Rectangle,
    Fraction,
    Fd,
    ValueArray,
    Struct,
    Object,
    Choice,
    Pointer,
}

/// The variant of `v`.
pub open spec fn kind_of(v: PodValue) -> PodKind {
    match v {
        PodValue::Null => PodKind::Null,
        PodValue::Bool(_) => PodKind::Bool,
        PodValue::Id(_) => PodKind::Id,
        PodValue::Int(_) => PodKind::Int,
        PodValue::Long(_) => PodKind::Long,
        PodValue::Float(_) => PodKind::Float,
        PodValue::Double(_) => PodKind::Double,
        PodValue::String(_) => PodKind::String,
        PodValue::Bytes(_) => PodKind::Bytes,
        PodValue::Rectangle(_) => PodKind::Rectangle,
        PodValue::Fraction(_) => PodKind::Fraction,
        PodValue::Fd(_) => PodKind::Fd,
        PodValue::ValueArray(_) => PodKind::ValueArray,
        PodValue::Struct(_) => PodKind::Struct,
        PodValue::Object(_) => PodKind::Object,
        PodValue::Choice(_) => PodKind::Choice,
        PodValue::Pointer(_, _) => PodKind::Pointer,
    }
}

/// A simple value is a single scalar, string or byte string: neither an
/// array, a struct, an object, a choice nor a pointer.
pub open spec fn is_simple_kind(k: PodKind) -> bool {
    !(k == PodKind::ValueArray || k == PodKind::Struct || k == PodKind::Object
        || k == PodKind::Choice || k == PodKind::Pointer)
}

/// The kinds of value that can be offered as alternatives of a choice.
pub open spec fn is_choosable_kind(k: PodKind) -> bool {
    k == PodKind::Id || k == PodKind::Int || k == PodKind::Long || k == PodKind::Float
        || k == PodKind::Double || k == PodKind::Rectangle || k == PodKind::Fraction
        || k == PodKind::Fd
}

impl PodValue {
    /// The variant of this value.
    pub fn kind(&self) -> (k: PodKind)
        ensures k == kind_of(*self),
    {
        match self {
            PodValue::Null => PodKind::Null,
            PodValue::Bool(_) => PodKind::Bool,
            PodValue::Id(_) => PodKind::Id,
            PodValue::Int(_) => PodKind::Int,
            PodValue::Long(_) => PodKind::Long,
            PodValue::Float(_) => PodKind::Float,
            PodValue::Double(_) => PodKind::Double,
            PodValue::String(_) => PodKind::String,
            PodValue::Bytes(_) => PodKind::Bytes,
            PodValue::Rectangle(_) => PodKind::Rectangle,
            PodValue::Fraction(_) => PodKind::Fraction,
            PodValue::Fd(_) => PodKind::Fd,
            PodValue::ValueArray(_) => PodKind::ValueArray,
            PodValue::Struct(_) => PodKind::Struct,
            PodValue::Object(_) => PodKind::Object,
            PodValue::Choice(_) => PodKind::Choice,
            PodValue::Pointer(_, _) => PodKind::Pointer,
        }
    }

    /// Whether this is a simple value: neither an array, a struct, an object,
    /// a choice nor a pointer.
    pub fn is_simple_value(&self) -> (r: bool)
        ensures r == is_simple_kind(kind_of(*self)),
    {
        match self {
            PodValue::ValueArray(_) | PodValue::Struct(_) | PodValue::Object(_)
            | PodValue::Choice(_) | PodValue::Pointer(_, _) => false,
            _ => true,
        }
    }

    /// Whether this value is a choice.
    pub fn is_choice(&self) -> (r: bool)
        ensures r == (kind_of(*self) == PodKind::Choice),
    {
        match self {
            PodValue::Choice(_) => true,
            _ => false,
        }
    }
}

/// Two values are equal when they are of the same variant, whatever their
/// payloads.
impl PartialEq for PodValue {
    fn eq(&self, other: &Self) -> (r: bool) {
        self.kind() == other.kind()
    }
}

impl vstd::std_specs::cmp::PartialEqSpecImpl for PodValue {
    open spec fn obeys_eq_spec() -> bool {
        true
    }

    open spec fn eq_spec(&self, other: &PodValue) -> bool {
        kind_of(*self) == kind_of(*other)
    }
}


/// Marks a pair of `u32` as the width and height of a rectangle.
pub struct AsRectangle;

/// Marks a pair of `u32` as the numerator and denominator of a fraction.
pub struct AsFraction;

/// Marks an `i64` as a file descriptor.
pub struct AsFD;

/// Marks a list of values as the alternatives of a choice.
pub struct AsChoice;

/// A continuous range with a default.
pub struct AsRange<T> {
    pub default: T,
    pub min: T,
    pub max: T,
}

/// A range with a default and a step between allowed values.
pub struct AsSteps<T> {
    pub default: T,
    pub min: T,
    pub max: T,
    pub step: T,
}

/// `c` is an enumeration, without flags, of `values`, and its default is the
/// first of them.
pub open spec fn is_enum_of<T>(c: Choice<T>, values: Seq<T>) -> bool {
    &&& c.0 == ChoiceFlags(0)
    &&& c.1 matches ChoiceEnum::Enum { default, alternatives }
    &&& values.len() > 0
    &&& default == values[0]
    &&& alternatives@ == values
}

/// `r` is the choice, without flags, that enumerates the payloads of `list`,
/// all of one choosable kind, with the first as default.
pub open spec fn is_enum_choice_of(r: PodValue, list: Seq<PodValue>) -> bool {
    &&& list.len() > 0
    &&& match kind_of(list[0]) {
        PodKind::Id => r matches PodValue::Choice(ChoiceValue::Id(c))
            && is_enum_of(c, list.map_values(|v: PodValue| v->Id_0)),
        PodKind::Int => r matches PodValue::Choice(ChoiceValue::Int(c))
            && is_enum_of(c, list.map_values(|v: PodValue| v->Int_0)),
        PodKind::Long => r matches PodValue::Choice(ChoiceValue::Long(c))
            && is_enum_of(c, list.map_values(|v: PodValue| v->Long_0)),
        PodKind::Float => r matches PodValue::Choice(ChoiceValue::Float(c))
            && is_enum_of(c, list.map_values(|v: PodValue| v->Float_0)),
        PodKind::Double => r matches PodValue::Choice(ChoiceValue::Double(c))
            && is_enum_of(c, list.map_values(|v: PodValue| v->Double_0)),
        PodKind::Rectangle => r matches PodValue::Choice(ChoiceValue::Rectangle(c))
            && is_enum_of(c, list.map_values(|v: PodValue| v->Rectangle_0)),
        PodKind::Fraction => r matches PodValue::Choice(ChoiceValue::Fraction(c))
            && is_enum_of(c, list.map_values(|v: PodValue| v->Fraction_0)),
        PodKind::Fd => r matches PodValue::Choice(ChoiceValue::Fd(c))
            && is_enum_of(c, list.map_values(|v: PodValue| v->Fd_0)),
        _ => false,
    }
}

/// Every value of `list` is of kind `k`.
pub open spec fn all_of_kind(list: Seq<PodValue>, k: PodKind) -> bool {
    forall|i: int| 0 <= i < list.len() ==> kind_of(#[trigger] list[i]) == k
}

/// A list of values can be turned into an enumerated choice: it is not empty,
/// its values are all of one kind, and that kind can be chosen among.
pub open spec fn choosable_list(list: Seq<PodValue>) -> bool {
    &&& list.len() > 0
    &&& is_choosable_kind(kind_of(list[0]))
    &&& all_of_kind(list, kind_of(list[0]))
}

/// An enumerated choice, without flags, over `v`, whose default is `v[0]`.
fn enum_choice<T: Copy>(v: Vec<T>) -> (c: Choice<T>)
    requires v.len() > 0,
    ensures is_enum_of(c, v@),
{
    let default: T = v[0];
    Choice(ChoiceFlags(0), ChoiceEnum::Enum { default, alternatives: v })
}

impl PodValue {
    /// A choice among ids; the first is the default.
    pub fn choice_of_ids(v: Vec<Id>) -> (r: PodValue)
        requires v.len() > 0,
        ensures r matches PodValue::Choice(ChoiceValue::Id(c)) && is_enum_of(c, v@),
    {
        PodValue::Choice(ChoiceValue::Id(enum_choice(v)))
    }

    /// A choice among `Int` values; the first is the default.
    pub fn choice_of_ints(v: Vec<i32>) -> (r: PodValue)
        requires v.len() > 0,
        ensures r matches PodValue::Choice(ChoiceValue::Int(c)) && is_enum_of(c, v@),
    {
        PodValue::Choice(ChoiceValue::Int(enum_choice(v)))
    }

    /// A choice among `Long` values; the first is the default.
    pub fn choice_of_longs(v: Vec<i64>) -> (r: PodValue)
        requires v.len() > 0,
        ensures r matches PodValue::Choice(ChoiceValue::Long(c)) && is_enum_of(c, v@),
    {
        PodValue::Choice(ChoiceValue::Long(enum_choice(v)))
    }

    /// A choice among `Long` values given unsigned, each reinterpreted as
    /// signed (two's complement); the first is the default.
    pub fn choice_of_unsigned_longs(v: Vec<u64>) -> (r: PodValue)
        requires v.len() > 0,
        ensures
            r matches PodValue::Choice(ChoiceValue::Long(c))
                && is_enum_of(c, v@.map_values(|x: u64| x as i64)),
    {
        let mut signed: Vec<i64> = Vec::new();
        let n = v.len();
        for i in 0..n
            invariant
                n == v.len(),
                signed@ == v@.take(i as int).map_values(|x: u64| x as i64),
        {
            #[verifier::truncate]
            let x: i64 = v[i] as i64;
            signed.push(x);
            assert(v@.take(i + 1) == v@.take(i as int).push(v@[i as int]));
        }
        assert(v@.take(n as int) == v@);
        PodValue::Choice(ChoiceValue::Long(enum_choice(signed)))
    }

    /// A choice among rectangles; the first is the default.
    pub fn choice_of_rectangles(v: Vec<Rectangle>) -> (r: PodValue)
        requires v.len() > 0,
        ensures r matches PodValue::Choice(ChoiceValue::Rectangle(c)) && is_enum_of(c, v@),
    {
        PodValue::Choice(ChoiceValue::Rectangle(enum_choice(v)))
    }

    /// A choice among fractions; the first is the default.
    pub fn choice_of_fractions(v: Vec<Fraction>) -> (r: PodValue)
        requires v.len() > 0,
        ensures r matches PodValue::Choice(ChoiceValue::Fraction(c)) && is_enum_of(c, v@),
    {
        PodValue::Choice(ChoiceValue::Fraction(enum_choice(v)))
    }

    /// A choice among file descriptors; the first is the default.
    pub fn choice_of_fds(v: Vec<Fd>) -> (r: PodValue)
        requires v.len() > 0,
        ensures r matches PodValue::Choice(ChoiceValue::Fd(c)) && is_enum_of(c, v@),
    {
        PodValue::Choice(ChoiceValue::Fd(enum_choice(v)))
    }

    /// A choice among `Float` values, given by their bit patterns; the first
    /// is the default.
    pub fn choice_of_float_bits(v: Vec<u32>) -> (r: PodValue)
        requires v.len() > 0,
        ensures r matches PodValue::Choice(ChoiceValue::Float(c)) && is_enum_of(c, v@),
    {
        PodValue::Choice(ChoiceValue::Float(enum_choice(v)))
    }

    /// A choice among `Double` values, given by their bit patterns; the first
    /// is the default.
    pub fn choice_of_double_bits(v: Vec<u64>) -> (r: PodValue)
        requires v.len() > 0,
        ensures r matches PodValue::Choice(ChoiceValue::Double(c)) && is_enum_of(c, v@),
    {
        PodValue::Choice(ChoiceValue::Double(enum_choice(v)))
    }
}


/// The payloads of a list of `Id` values, in order.
fn payloads_id(list: &Vec<PodValue>) -> (r: Vec<Id>)
    requires all_of_kind(list@, PodKind::Id),
    ensures r@ == list@.map_values(|v: PodValue| v->Id_0),
{
    let mut r: Vec<Id> = Vec::new();
    let n = list.len();
    for i in 0..n
        invariant
            n == list.len(),
            all_of_kind(list@, PodKind::Id),
            r@ == list@.take(i as int).map_values(|v: PodValue| v->Id_0),
    {
        assert(kind_of(list@[i as int]) == PodKind::Id);
        match &list[i] {
            PodValue::Id(x) => {
                r.push(*x);
            },
            _ => {},
        }
        assert(list@.take(i + 1) == list@.take(i as int).push(list@[i as int]));
    }
    assert(list@.take(n as int) == list@);
    r
}

/// The payloads of a list of `Int` values, in order.
fn payloads_int(list: &Vec<PodValue>) -> (r: Vec<i32>)
    requires all_of_kind(list@, PodKind::Int),
    ensures r@ == list@.map_values(|v: PodValue| v->Int_0),
{
    let mut r: Vec<i32> = Vec::new();
    let n = list.len();
    for i in 0..n
        invariant
            n == list.len(),
            all_of_kind(list@, PodKind::Int),
            r@ == list@.take(i as int).map_values(|v: PodValue| v->Int_0),
    {
        assert(kind_of(list@[i as int]) == PodKind::Int);
        match &list[i] {
            PodValue::Int(x) => {
                r.push(*x);
            },
            _ => {},
        }
        assert(list@.take(i + 1) == list@.take(i as int).push(list@[i as int]));
    }
    assert(list@.take(n as int) == list@);
    r
}

/// The payloads of a list of `Long` values, in order.
fn payloads_long(list: &Vec<PodValue>) -> (r: Vec<i64>)
    requires all_of_kind(list@, PodKind::Long),
    ensures r@ == list@.map_values(|v: PodValue| v->Long_0),
{
    let mut r: Vec<i64> = Vec::new();
    let n = list.len();
    for i in 0..n
        invariant
            n == list.len(),
            all_of_kind(list@, PodKind::Long),
            r@ == list@.take(i as int).map_values(|v: PodValue| v->Long_0),
    {
        assert(kind_of(list@[i as int]) == PodKind::Long);
        match &list[i] {
            PodValue::Long(x) => {
                r.push(*x);
            },
            _ => {},
        }
        assert(list@.take(i + 1) == list@.take(i as int).push(list@[i as int]));
    }
    assert(list@.take(n as int) == list@);
    r
}

/// The payloads of a list of `Float` values, in order.
fn payloads_float(list: &Vec<PodValue>) -> (r: Vec<u32>)
    requires all_of_kind(list@, PodKind::Float),
    ensures r@ == list@.map_values(|v: PodValue| v->Float_0),
{
    let mut r: Vec<u32> = Vec::new();
    let n = list.len();
    for i in 0..n
        invariant
            n == list.len(),
            all_of_kind(list@, PodKind::Float),
            r@ == list@.take(i as int).map_values(|v: PodValue| v->Float_0),
    {
        assert(kind_of(list@[i as int]) == PodKind::Float);
        match &list[i] {
            PodValue::Float(x) => {
                r.push(*x);
            },
            _ => {},
        }
        assert(list@.take(i + 1) == list@.take(i as int).push(list@[i as int]));
    }
    assert(list@.take(n as int) == list@);
    r
}

/// The payloads of a list of `Double` values, in order.
fn payloads_double(list: &Vec<PodValue>) -> (r: Vec<u64>)
    requires all_of_kind(list@, PodKind::Double),
    ensures r@ == list@.map_values(|v: PodValue| v->Double_0),
{
    let mut r: Vec<u64> = Vec::new();
    let n = list.len();
    for i in 0..n
        invariant
            n == list.len(),
            all_of_kind(list@, PodKind::Double),
            r@ == list@.take(i as int).map_values(|v: PodValue| v->Double_0),
    {
        assert(kind_of(list@[i as int]) == PodKind::Double);
        match &list[i] {
            PodValue::Double(x) => {
                r.push(*x);
            },
            _ => {},
        }
        assert(list@.take(i + 1) == list@.take(i as int).push(list@[i as int]));
    }
    assert(list@.take(n as int) == list@);
    r
}

/// The payloads of a list of `Rectangle` values, in order.
fn payloads_rectangle(list: &Vec<PodValue>) -> (r: Vec<Rectangle>)
    requires all_of_kind(list@, PodKind::Rectangle),
    ensures r@ == list@.map_values(|v: PodValue| v->Rectangle_0),
{
    let mut r: Vec<Rectangle> = Vec::new();
    let n = list.len();
    for i in 0..n
        invariant
            n == list.len(),
            all_of_kind(list@, PodKind::Rectangle),
            r@ == list@.take(i as int).map_values(|v: PodValue| v->Rectangle_0),
    {
        assert(kind_of(list@[i as int]) == PodKind::Rectangle);
        match &list[i] {
            PodValue::Rectangle(x) => {
                r.push(*x);
            },
            _ => {},
        }
        assert(list@.take(i + 1) == list@.take(i as int).push(list@[i as int]));
    }
    assert(list@.take(n as int) == list@);
    r
}

/// The payloads of a list of `Fraction` values, in order.
fn payloads_fraction(list: &Vec<PodValue>) -> (r: Vec<Fraction>)
    requires all_of_kind(list@, PodKind::Fraction),
    ensures r@ == list@.map_values(|v: PodValue| v->Fraction_0),
{
    let mut r: Vec<Fraction> = Vec::new();
    let n = list.len();
    for i in 0..n
        invariant
            n == list.len(),
            all_of_kind(list@, PodKind::Fraction),
            r@ == list@.take(i as int).map_values(|v: PodValue| v->Fraction_0),
    {
        assert(kind_of(list@[i as int]) == PodKind::Fraction);
        match &list[i] {
            PodValue::Fraction(x) => {
                r.push(*x);
            },
            _ => {},
        }
        assert(list@.take(i + 1) == list@.take(i as int).push(list@[i as int]));
    }
    assert(list@.take(n as int) == list@);
    r
}

/// The payloads of a list of `Fd` values, in order.
fn payloads_fd(list: &Vec<PodValue>) -> (r: Vec<Fd>)
    requires all_of_kind(list@, PodKind::Fd),
    ensures r@ == list@.map_values(|v: PodValue| v->Fd_0),
{
    let mut r: Vec<Fd> = Vec::new();
    let n = list.len();
    for i in 0..n
        invariant
            n == list.len(),
            all_of_kind(list@, PodKind::Fd),
            r@ == list@.take(i as int).map_values(|v: PodValue| v->Fd_0),
    {
        assert(kind_of(list@[i as int]) == PodKind::Fd);
        match &list[i] {
            PodValue::Fd(x) => {
                r.push(*x);
            },
            _ => {},
        }
        assert(list@.take(i + 1) == list@.take(i as int).push(list@[i as int]));
    }
    assert(list@.take(n as int) == list@);
    r
}

impl PodValue {
    /// Groups a list of simple values, all of one kind, into a choice that
    /// enumerates them, the first being the default.
    pub fn choice_of_values(list: Vec<PodValue>) -> (r: PodValue)
        requires choosable_list(list@),
        ensures is_enum_choice_of(r, list@),
    {
        let k = list[0].kind();
        match k {
            PodKind::Id => PodValue::choice_of_ids(payloads_id(&list)),
            PodKind::Int => PodValue::choice_of_ints(payloads_int(&list)),
            PodKind::Long => PodValue::choice_of_longs(payloads_long(&list)),
            PodKind::Float => PodValue::choice_of_float_bits(payloads_float(&list)),
            PodKind::Double => PodValue::choice_of_double_bits(payloads_double(&list)),
            PodKind::Rectangle => PodValue::choice_of_rectangles(payloads_rectangle(&list)),
            PodKind::Fraction => PodValue::choice_of_fractions(payloads_fraction(&list)),
            PodKind::Fd => PodValue::choice_of_fds(payloads_fd(&list)),
            _ => {
                assert(false);
                PodValue::Null
            },
        }
    }
}


/// A list of values can be grouped into a choice exactly when it is not
/// empty, none of its values is a choice or is not simple, its first value is
/// not a null, a boolean, a string or bytes, and every value is of the variant
/// of the first; `choice_of_values` then gives the choice that enumerates the
/// values in order, the first being the default.
pub proof fn lemma_choosable_list_conditions(list: Seq<PodValue>)
    ensures
        choosable_list(list) <==> {
            &&& list.len() > 0
            &&& forall|i: int| 0 <= i < list.len() ==> !(#[trigger] list[i] is Choice)
                && is_simple_kind(kind_of(list[i]))
            &&& !(list[0] is Null || list[0] is Bool || list[0] is String || list[0] is Bytes)
            &&& forall|i: int| 0 <= i < list.len() ==> kind_of(#[trigger] list[i]) == kind_of(
                list[0],
            )
        },
{
    if choosable_list(list) {
        assert forall|i: int| 0 <= i < list.len() implies !(#[trigger] list[i] is Choice)
            && is_simple_kind(kind_of(list[i])) by {
            assert(kind_of(list[i]) == kind_of(list[0]));
        }
    }
}

/// A boolean.
impl From<bool> for PodValue {
    fn from(v: bool) -> (r: PodValue) {
        PodValue::Bool(v)
    }
}

impl vstd::std_specs::convert::FromSpecImpl<bool> for PodValue {
    open spec fn obeys_from_spec() -> bool {
        true
    }

    open spec fn from_spec(v: bool) -> PodValue {
        PodValue::Bool(v)
    }
}

/// An id.
impl From<Id> for PodValue {
    fn from(v: Id) -> (r: PodValue) {
        PodValue::Id(v)
    }
}

impl vstd::std_specs::convert::FromSpecImpl<Id> for PodValue {
    open spec fn obeys_from_spec() -> bool {
        true
    }

    open spec fn from_spec(v: Id) -> PodValue {
        PodValue::Id(v)
    }
}

/// An unsigned 16-bit integer becomes an `Int`.
impl From<u16> for PodValue {
    fn from(v: u16) -> (r: PodValue) {
        PodValue::Int(v as i32)
    }
}

impl vstd::std_specs::convert::FromSpecImpl<u16> for PodValue {
    open spec fn obeys_from_spec() -> bool {
        true
    }

    open spec fn from_spec(v: u16) -> PodValue {
        PodValue::Int(v as i32)
    }
}

/// A signed 16-bit integer becomes an `Int`.
impl From<i16> for PodValue {
    fn from(v: i16) -> (r: PodValue) {
        PodValue::Int(v as i32)
    }
}

impl vstd::std_specs::convert::FromSpecImpl<i16> for PodValue {
    open spec fn obeys_from_spec() -> bool {
        true
    }

    open spec fn from_spec(v: i16) -> PodValue {
        PodValue::Int(v as i32)
    }
}

/// An unsigned 32-bit integer becomes an `Id`.
impl From<u32> for PodValue {
    fn from(v: u32) -> (r: PodValue) {
        PodValue::Id(Id(v))
    }
}

impl vstd::std_specs::convert::FromSpecImpl<u32> for PodValue {
    open spec fn obeys_from_spec() -> bool {
        true
    }

    open spec fn from_spec(v: u32) -> PodValue {
        PodValue::Id(Id(v))
    }
}

/// A signed 32-bit integer becomes an `Int`.
impl From<i32> for PodValue {
    fn from(v: i32) -> (r: PodValue) {
        PodValue::Int(v)
    }
}

impl vstd::std_specs::convert::FromSpecImpl<i32> for PodValue {
    open spec fn obeys_from_spec() -> bool {
        true
    }

    open spec fn from_spec(v: i32) -> PodValue {
        PodValue::Int(v)
    }
}

/// A signed 64-bit integer becomes a `Long`.
impl From<i64> for PodValue {
    fn from(v: i64) -> (r: PodValue) {
        PodValue::Long(v)
    }
}

impl vstd::std_specs::convert::FromSpecImpl<i64> for PodValue {
    open spec fn obeys_from_spec() -> bool {
        true
    }

    open spec fn from_spec(v: i64) -> PodValue {
        PodValue::Long(v)
    }
}

/// A string.
impl From<String> for PodValue {
    fn from(v: String) -> (r: PodValue) {
        PodValue::String(v)
    }
}

impl vstd::std_specs::convert::FromSpecImpl<String> for PodValue {
    open spec fn obeys_from_spec() -> bool {
        true
    }

    open spec fn from_spec(v: String) -> PodValue {
        PodValue::String(v)
    }
}

/// A byte string.
impl From<Vec<u8>> for PodValue {
    fn from(v: Vec<u8>) -> (r: PodValue) {
        PodValue::Bytes(v)
    }
}

impl vstd::std_specs::convert::FromSpecImpl<Vec<u8>> for PodValue {
    open spec fn obeys_from_spec() -> bool {
        true
    }

    open spec fn from_spec(v: Vec<u8>) -> PodValue {
        PodValue::Bytes(v)
    }
}

/// A rectangle.
impl From<Rectangle> for PodValue {
    fn from(v: Rectangle) -> (r: PodValue) {
        PodValue::Rectangle(v)
    }
}

impl vstd::std_specs::convert::FromSpecImpl<Rectangle> for PodValue {
    open spec fn obeys_from_spec() -> bool {
        true
    }

    open spec fn from_spec(v: Rectangle) -> PodValue {
        PodValue::Rectangle(v)
    }
}

/// A width and a height become a rectangle.
impl From<(AsRectangle, u32, u32)> for PodValue {
    fn from(v: (AsRectangle, u32, u32)) -> (r: PodValue) {
        PodValue::Rectangle(Rectangle { width: v.1, height: v.2 })
    }
}

impl vstd::std_specs::convert::FromSpecImpl<(AsRectangle, u32, u32)> for PodValue {
    open spec fn obeys_from_spec() -> bool {
        true
    }

    open spec fn from_spec(v: (AsRectangle, u32, u32)) -> PodValue {
        PodValue::Rectangle(Rectangle { width: v.1, height: v.2 })
    }
}

/// A fraction.
impl From<Fraction> for PodValue {
    fn from(v: Fraction) -> (r: PodValue) {
        PodValue::Fraction(v)
    }
}

impl vstd::std_specs::convert::FromSpecImpl<Fraction> for PodValue {
    open spec fn obeys_from_spec() -> bool {
        true
    }

    open spec fn from_spec(v: Fraction) -> PodValue {
        PodValue::Fraction(v)
    }
}

/// A numerator and a denominator become a fraction.
impl From<(AsFraction, u32, u32)> for PodValue {
    fn from(v: (AsFraction, u32, u32)) -> (r: PodValue) {
        PodValue::Fraction(Fraction { num: v.1, denom: v.2 })
    }
}

impl vstd::std_specs::convert::FromSpecImpl<(AsFraction, u32, u32)> for PodValue {
    open spec fn obeys_from_spec() -> bool {
        true
    }

    open spec fn from_spec(v: (AsFraction, u32, u32)) -> PodValue {
        PodValue::Fraction(Fraction { num: v.1, denom: v.2 })
    }
}

/// A raw descriptor becomes a file descriptor.
impl From<(AsFD, i64)> for PodValue {
    fn from(v: (AsFD, i64)) -> (r: PodValue) {
        PodValue::Fd(Fd(v.1))
    }
}

impl vstd::std_specs::convert::FromSpecImpl<(AsFD, i64)> for PodValue {
    open spec fn obeys_from_spec() -> bool {
        true
    }

    open spec fn from_spec(v: (AsFD, i64)) -> PodValue {
        PodValue::Fd(Fd(v.1))
    }
}

/// An array of empty values.
impl From<Vec<()>> for PodValue {
    fn from(v: Vec<()>) -> (r: PodValue) {
        PodValue::ValueArray(ValueArray::Null(v))
    }
}

impl vstd::std_specs::convert::FromSpecImpl<Vec<()>> for PodValue {
    open spec fn obeys_from_spec() -> bool {
        true
    }

    open spec fn from_spec(v: Vec<()>) -> PodValue {
        PodValue::ValueArray(ValueArray::Null(v))
    }
}

/// An array of booleans.
impl From<Vec<bool>> for PodValue {
    fn from(v: Vec<bool>) -> (r: PodValue) {
        PodValue::ValueArray(ValueArray::Bool(v))
    }
}

impl vstd::std_specs::convert::FromSpecImpl<Vec<bool>> for PodValue {
    open spec fn obeys_from_spec() -> bool {
        true
    }

    open spec fn from_spec(v: Vec<bool>) -> PodValue {
        PodValue::ValueArray(ValueArray::Bool(v))
    }
}

/// An array of ids.
impl From<Vec<Id>> for PodValue {
    fn from(v: Vec<Id>) -> (r: PodValue) {
        PodValue::ValueArray(ValueArray::Id(v))
    }
}

impl vstd::std_specs::convert::FromSpecImpl<Vec<Id>> for PodValue {
    open spec fn obeys_from_spec() -> bool {
        true
    }

    open spec fn from_spec(v: Vec<Id>) -> PodValue {
        PodValue::ValueArray(ValueArray::Id(v))
    }
}

/// An array of `Int` values.
impl From<Vec<i32>> for PodValue {
    fn from(v: Vec<i32>) -> (r: PodValue) {
        PodValue::ValueArray(ValueArray::Int(v))
    }
}

impl vstd::std_specs::convert::FromSpecImpl<Vec<i32>> for PodValue {
    open spec fn obeys_from_spec() -> bool {
        true
    }

    open spec fn from_spec(v: Vec<i32>) -> PodValue {
        PodValue::ValueArray(ValueArray::Int(v))
    }
}

/// An array of `Long` values.
impl From<Vec<i64>> for PodValue {
    fn from(v: Vec<i64>) -> (r: PodValue) {
        PodValue::ValueArray(ValueArray::Long(v))
    }
}

impl vstd::std_specs::convert::FromSpecImpl<Vec<i64>> for PodValue {
    open spec fn obeys_from_spec() -> bool {
        true
    }

    open spec fn from_spec(v: Vec<i64>) -> PodValue {
        PodValue::ValueArray(ValueArray::Long(v))
    }
}


/// An unsigned 64-bit integer becomes a `Long`, reinterpreted as signed (two's
/// complement).
impl From<u64> for PodValue {
    fn from(v: u64) -> (r: PodValue) {
        #[verifier::truncate]
        let x: i64 = v as i64;
        PodValue::Long(x)
    }
}

impl vstd::std_specs::convert::FromSpecImpl<u64> for PodValue {
    open spec fn obeys_from_spec() -> bool {
        true
    }

    open spec fn from_spec(v: u64) -> PodValue {
        PodValue::Long(v as i64)
    }
}

/// Every scalar conversion keeps its value: a boolean, an id, an integer, a
/// rectangle, a fraction or a descriptor becomes the POD value of that kind
/// holding the same value, term for term (the width first and the numerator
/// first when given as two integers); a `u16` or an `i16` becomes the `Int`
/// of the same number, a `u32` the id of the same number; a `u64` becomes the
/// `Long` whose bits are the same.
pub proof fn lemma_conversions_keep_values(
    b: bool,
    id: Id,
    a: u16,
    c: i16,
    u: u32,
    n: i32,
    l: i64,
    rect: Rectangle,
    frac: Fraction,
    w: u32,
    h: u32,
    q: u64,
)
    ensures
        <PodValue as vstd::std_specs::convert::FromSpec<bool>>::obeys_from_spec(),
        <PodValue as vstd::std_specs::convert::FromSpec<bool>>::from_spec(b) matches PodValue::Bool(x) && x == b,
        <PodValue as vstd::std_specs::convert::FromSpec<Id>>::obeys_from_spec(),
        <PodValue as vstd::std_specs::convert::FromSpec<Id>>::from_spec(id) matches PodValue::Id(x) && x.0 == id.0,
        <PodValue as vstd::std_specs::convert::FromSpec<u16>>::obeys_from_spec(),
        <PodValue as vstd::std_specs::convert::FromSpec<u16>>::from_spec(a) matches PodValue::Int(x) && x == a,
        <PodValue as vstd::std_specs::convert::FromSpec<i16>>::obeys_from_spec(),
        <PodValue as vstd::std_specs::convert::FromSpec<i16>>::from_spec(c) matches PodValue::Int(x) && x == c,
        <PodValue as vstd::std_specs::convert::FromSpec<u32>>::obeys_from_spec(),
        <PodValue as vstd::std_specs::convert::FromSpec<u32>>::from_spec(u) matches PodValue::Id(x) && x.0 == u,
        <PodValue as vstd::std_specs::convert::FromSpec<i32>>::obeys_from_spec(),
        <PodValue as vstd::std_specs::convert::FromSpec<i32>>::from_spec(n) matches PodValue::Int(x) && x == n,
        <PodValue as vstd::std_specs::convert::FromSpec<i64>>::obeys_from_spec(),
        <PodValue as vstd::std_specs::convert::FromSpec<i64>>::from_spec(l) matches PodValue::Long(x) && x == l,
        <PodValue as vstd::std_specs::convert::FromSpec<Rectangle>>::obeys_from_spec(),
        <PodValue as vstd::std_specs::convert::FromSpec<Rectangle>>::from_spec(rect) matches PodValue::Rectangle(x) && x.width == rect.width && x.height == rect.height,
        <PodValue as vstd::std_specs::convert::FromSpec<(AsRectangle, u32, u32)>>::obeys_from_spec(),
        <PodValue as vstd::std_specs::convert::FromSpec<(AsRectangle, u32, u32)>>::from_spec((AsRectangle, w, h)) matches PodValue::Rectangle(x) && x.width == w && x.height == h,
        <PodValue as vstd::std_specs::convert::FromSpec<Fraction>>::obeys_from_spec(),
        <PodValue as vstd::std_specs::convert::FromSpec<Fraction>>::from_spec(frac) matches PodValue::Fraction(x) && x.num == frac.num && x.denom == frac.denom,
        <PodValue as vstd::std_specs::convert::FromSpec<(AsFraction, u32, u32)>>::obeys_from_spec(),
        <PodValue as vstd::std_specs::convert::FromSpec<(AsFraction, u32, u32)>>::from_spec((AsFraction, w, h)) matches PodValue::Fraction(x) && x.num == w && x.denom == h,
        <PodValue as vstd::std_specs::convert::FromSpec<(AsFD, i64)>>::obeys_from_spec(),
        <PodValue as vstd::std_specs::convert::FromSpec<(AsFD, i64)>>::from_spec((AsFD, l)) matches PodValue::Fd(x) && x.0 == l,
        <PodValue as vstd::std_specs::convert::FromSpec<u64>>::obeys_from_spec(),
        <PodValue as vstd::std_specs::convert::FromSpec<u64>>::from_spec(q) matches PodValue::Long(x) && (q < 0x8000_0000_0000_0000 ==> x == q) && (q >= 0x8000_0000_0000_0000 ==> x == q - 0x1_0000_0000_0000_0000),
{
    assert((q as i64) == (if q < 0x8000_0000_0000_0000u64 { q as int } else { q - 0x1_0000_0000_0000_0000 })) by (bit_vector);
}

/// A range becomes a choice, without flags, over that range.
impl<T> From<AsRange<T>> for Choice<T> {
    fn from(v: AsRange<T>) -> (r: Choice<T>) {
        Choice(ChoiceFlags(0), ChoiceEnum::Range { default: v.default, min: v.min, max: v.max })
    }
}

impl<T> vstd::std_specs::convert::FromSpecImpl<AsRange<T>> for Choice<T> {
    open spec fn obeys_from_spec() -> bool {
        true
    }

    open spec fn from_spec(v: AsRange<T>) -> Choice<T> {
        Choice(ChoiceFlags(0), ChoiceEnum::Range { default: v.default, min: v.min, max: v.max })
    }
}

/// A stepped range becomes a choice, without flags, over that range.
impl<T> From<AsSteps<T>> for Choice<T> {
    fn from(v: AsSteps<T>) -> (r: Choice<T>) {
        Choice(
            ChoiceFlags(0),
            ChoiceEnum::Step { default: v.default, min: v.min, max: v.max, step: v.step },
        )
    }
}

impl<T> vstd::std_specs::convert::FromSpecImpl<AsSteps<T>> for Choice<T> {
    open spec fn obeys_from_spec() -> bool {
        true
    }

    open spec fn from_spec(v: AsSteps<T>) -> Choice<T> {
        Choice(
            ChoiceFlags(0),
            ChoiceEnum::Step { default: v.default, min: v.min, max: v.max, step: v.step },
        )
    }
}

/// A range of `Int` values becomes a choice over it.
impl From<(AsChoice, AsRange<i32>)> for PodValue {
    fn from(v: (AsChoice, AsRange<i32>)) -> (r: PodValue) {
        PodValue::Choice(ChoiceValue::Int(Choice(ChoiceFlags(0), ChoiceEnum::Range { default: v.1.default, min: v.1.min, max: v.1.max })))
    }
}

impl vstd::std_specs::convert::FromSpecImpl<(AsChoice, AsRange<i32>)> for PodValue {
    open spec fn obeys_from_spec() -> bool {
        true
    }

    open spec fn from_spec(v: (AsChoice, AsRange<i32>)) -> PodValue {
        PodValue::Choice(ChoiceValue::Int(Choice(ChoiceFlags(0), ChoiceEnum::Range { default: v.1.default, min: v.1.min, max: v.1.max })))
    }
}

/// A stepped range of `Int` values becomes a choice over it.
impl From<(AsChoice, AsSteps<i32>)> for PodValue {
    fn from(v: (AsChoice, AsSteps<i32>)) -> (r: PodValue) {
        PodValue::Choice(ChoiceValue::Int(Choice(ChoiceFlags(0), ChoiceEnum::Step { default: v.1.default, min: v.1.min, max: v.1.max, step: v.1.step })))
    }
}

impl vstd::std_specs::convert::FromSpecImpl<(AsChoice, AsSteps<i32>)> for PodValue {
    open spec fn obeys_from_spec() -> bool {
        true
    }

    open spec fn from_spec(v: (AsChoice, AsSteps<i32>)) -> PodValue {
        PodValue::Choice(ChoiceValue::Int(Choice(ChoiceFlags(0), ChoiceEnum::Step { default: v.1.default, min: v.1.min, max: v.1.max, step: v.1.step })))
    }
}

/// A range of `Long` values becomes a choice over it.
impl From<(AsChoice, AsRange<i64>)> for PodValue {
    fn from(v: (AsChoice, AsRange<i64>)) -> (r: PodValue) {
        PodValue::Choice(ChoiceValue::Long(Choice(ChoiceFlags(0), ChoiceEnum::Range { default: v.1.default, min: v.1.min, max: v.1.max })))
    }
}

impl vstd::std_specs::convert::FromSpecImpl<(AsChoice, AsRange<i64>)> for PodValue {
    open spec fn obeys_from_spec() -> bool {
        true
    }

    open spec fn from_spec(v: (AsChoice, AsRange<i64>)) -> PodValue {
        PodValue::Choice(ChoiceValue::Long(Choice(ChoiceFlags(0), ChoiceEnum::Range { default: v.1.default, min: v.1.min, max: v.1.max })))
    }
}

/// A stepped range of `Long` values becomes a choice over it.
impl From<(AsChoice, AsSteps<i64>)> for PodValue {
    fn from(v: (AsChoice, AsSteps<i64>)) -> (r: PodValue) {
        PodValue::Choice(ChoiceValue::Long(Choice(ChoiceFlags(0), ChoiceEnum::Step { default: v.1.default, min: v.1.min, max: v.1.max, step: v.1.step })))
    }
}

impl vstd::std_specs::convert::FromSpecImpl<(AsChoice, AsSteps<i64>)> for PodValue {
    open spec fn obeys_from_spec() -> bool {
        true
    }

    open spec fn from_spec(v: (AsChoice, AsSteps<i64>)) -> PodValue {
        PodValue::Choice(ChoiceValue::Long(Choice(ChoiceFlags(0), ChoiceEnum::Step { default: v.1.default, min: v.1.min, max: v.1.max, step: v.1.step })))
    }
}

impl PodValue {
    /// A string value holding a copy of `v`.
    pub fn string(v: &str) -> (r: PodValue)
        ensures r matches PodValue::String(s) && s@ == v@,
    {
        PodValue::String(v.to_owned())
    }

    /// An array of rectangles, each given by its two components.
    pub fn rectangle_array(v: Vec<(AsRectangle, u32, u32)>) -> (r: PodValue)
        ensures
            r matches PodValue::ValueArray(ValueArray::Rectangle(a)) && a@
                == v@.map_values(|x: (AsRectangle, u32, u32)| Rectangle { width: x.1, height: x.2 }),
    {
        let mut a: Vec<Rectangle> = Vec::new();
        let n = v.len();
        for i in 0..n
            invariant
                n == v.len(),
                a@ == v@.take(i as int).map_values(|x: (AsRectangle, u32, u32)| Rectangle { width: x.1, height: x.2 }),
        {
            let x = Rectangle { width: v[i].1, height: v[i].2 };
            a.push(x);
            assert(v@.take(i + 1) == v@.take(i as int).push(v@[i as int]));
        }
        assert(v@.take(n as int) == v@);
        PodValue::ValueArray(ValueArray::Rectangle(a))
    }

    /// An array of fractions, each given by its two components.
    pub fn fraction_array(v: Vec<(AsFraction, u32, u32)>) -> (r: PodValue)
        ensures
            r matches PodValue::ValueArray(ValueArray::Fraction(a)) && a@
                == v@.map_values(|x: (AsFraction, u32, u32)| Fraction { num: x.1, denom: x.2 }),
    {
        let mut a: Vec<Fraction> = Vec::new();
        let n = v.len();
        for i in 0..n
            invariant
                n == v.len(),
                a@ == v@.take(i as int).map_values(|x: (AsFraction, u32, u32)| Fraction { num: x.1, denom: x.2 }),
        {
            let x = Fraction { num: v[i].1, denom: v[i].2 };
            a.push(x);
            assert(v@.take(i + 1) == v@.take(i as int).push(v@[i as int]));
        }
        assert(v@.take(n as int) == v@);
        PodValue::ValueArray(ValueArray::Fraction(a))
    }

    /// An array of file descriptors, each given as a raw descriptor.
    pub fn fd_array(v: Vec<(AsFD, i64)>) -> (r: PodValue)
        ensures
            r matches PodValue::ValueArray(ValueArray::Fd(a)) && a@
                == v@.map_values(|x: (AsFD, i64)| Fd(x.1)),
    {
        let mut a: Vec<Fd> = Vec::new();
        let n = v.len();
        for i in 0..n
            invariant
                n == v.len(),
                a@ == v@.take(i as int).map_values(|x: (AsFD, i64)| Fd(x.1)),
        {
            let x = Fd(v[i].1);
            a.push(x);
            assert(v@.take(i + 1) == v@.take(i as int).push(v@[i as int]));
        }
        assert(v@.take(n as int) == v@);
        PodValue::ValueArray(ValueArray::Fd(a))
    }
}

} // verus!
