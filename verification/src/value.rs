use vstd::prelude::*;

use crate::types::{StaticType, Type, TypeLineage};

verus! {

/// What a value holds.
#[derive(Debug)]
pub enum ValueData {
    /// Nothing: the value of a fundamental type without payload.
    Unset,
    Bool(bool),
    I8(i8),
    U8(u8),
    I32(i32),
    U32(u32),
    I64(i64),
    U64(u64),
    Long(i64),
    ULong(u64),
    Str(Option<String>),
    Enum(i32),
    Flags(u32),
    /// An object reference (or none), given by the lineage of the object's type.
    Object(Option<TypeLineage>),
}

/// The mathematical content of a value's payload.
pub enum DataView {
    Unset,
    Bool(bool),
    I8(i8),
    U8(u8),
    I32(i32),
    U32(u32),
    I64(i64),
    U64(u64),
    Long(i64),
    ULong(u64),
    Str(Option<Seq<char>>),
    Enum(i32),
    Flags(u32),
    Object(Option<(Type, Seq<Type>)>),
}

/// The view of a payload.
pub open spec fn data_view(d: ValueData) -> DataView {
    match d {
        ValueData::Unset => DataView::Unset,
        ValueData::Bool(b) => DataView::Bool(b),
        ValueData::I8(v) => DataView::I8(v),
        ValueData::U8(v) => DataView::U8(v),
        ValueData::I32(v) => DataView::I32(v),
        ValueData::U32(v) => DataView::U32(v),
        ValueData::I64(v) => DataView::I64(v),
        ValueData::U64(v) => DataView::U64(v),
        ValueData::Long(v) => DataView::Long(v),
        ValueData::ULong(v) => DataView::ULong(v),
        ValueData::Str(s) => DataView::Str(
            match s {
                Some(t) => Some(t@),
                None => None,
            },
        ),
        ValueData::Enum(v) => DataView::Enum(v),
        ValueData::Flags(v) => DataView::Flags(v),
        ValueData::Object(o) => DataView::Object(
            match o {
                Some(l) => Some((l.type_(), l.supertypes())),
                None => None,
            },
        ),
    }
}

/// The mathematical content of a value: its type, the types that type
/// derives from, and its payload.
pub struct ValueView {
    pub type_: Type,
    pub supertypes: Seq<Type>,
    pub data: DataView,
}

/// A dynamically typed value: a type, the lineage of that type, and a payload.
#[derive(Debug)]
pub struct Value {
    lineage: TypeLineage,
    data: ValueData,
}

impl View for Value {
    type V = ValueView;

    closed spec fn view(&self) -> ValueView {
        ValueView {
            type_: self.lineage.type_(),
            supertypes: self.lineage.supertypes(),
            data: data_view(self.data),
        }
    }
}

/// Copies a lineage.
pub fn copy_lineage(l: &TypeLineage) -> (r: TypeLineage)
    ensures
        r.type_() == l.type_(),
        r.supertypes() == l.supertypes(),
{
    let t = l.get_type();
    let supers = l.supertypes_vec();
    TypeLineage::new(t, supers)
}

impl Value {
    /// Whether the type of the value is `ancestor` or derives from it.
    pub open spec fn spec_type_is_a(&self, ancestor: Type) -> bool {
        self@.type_ == ancestor || self@.supertypes.contains(ancestor)
    }

    /// A value of the given lineage and payload.
    pub fn new(lineage: TypeLineage, data: ValueData) -> (r: Value)
        ensures
            r@.type_ == lineage.type_(),
            r@.supertypes == lineage.supertypes(),
            r@.data == data_view(data),
    {
        Value { lineage, data }
    }

    /// The type of the value.
    pub fn type_(&self) -> (r: Type)
        ensures
            r == self@.type_,
    {
        self.lineage.get_type()
    }

    /// Whether the type of the value is `ancestor` or derives from it.
    pub fn type_is_a(&self, ancestor: Type) -> (r: bool)
        ensures
            r == self.spec_type_is_a(ancestor),
    {
        self.lineage.is_a(ancestor)
    }

    /// The payload.
    pub fn data(&self) -> (r: &ValueData)
        ensures
            data_view(*r) == self@.data,
    {
        &self.data
    }

    /// Gives the value the type `type_`, keeping its payload; `type_` must
    /// lie on the lineage of the value's type, which it becomes the head of.
    pub fn retype(&mut self, type_: Type)
        ensures
            final(self)@.type_ == type_,
            final(self)@.supertypes == old(self)@.supertypes,
            final(self)@.data == old(self)@.data,
    {
        let supers = self.lineage.supertypes_vec();
        self.lineage = TypeLineage::new(type_, supers);
    }

    /// Replaces the payload, keeping the type.
    pub fn set_data(&mut self, data: ValueData)
        ensures
            final(self)@.type_ == old(self)@.type_,
            final(self)@.supertypes == old(self)@.supertypes,
            final(self)@.data == data_view(data),
    {
        self.data = data;
    }

    /// A copy of the value.
    pub fn copy(&self) -> (r: Value)
        ensures
            r@ == self@,
    {
        let data = match &self.data {
            ValueData::Unset => ValueData::Unset,
            ValueData::Bool(b) => ValueData::Bool(*b),
            ValueData::I8(v) => ValueData::I8(*v),
            ValueData::U8(v) => ValueData::U8(*v),
            ValueData::I32(v) => ValueData::I32(*v),
            ValueData::U32(v) => ValueData::U32(*v),
            ValueData::I64(v) => ValueData::I64(*v),
            ValueData::U64(v) => ValueData::U64(*v),
            ValueData::Long(v) => ValueData::Long(*v),
            ValueData::ULong(v) => ValueData::ULong(*v),
            ValueData::Str(s) => ValueData::Str(
                match s {
                    Some(t) => Some(t.clone()),
                    None => None,
                },
            ),
            ValueData::Enum(v) => ValueData::Enum(*v),
            ValueData::Flags(v) => ValueData::Flags(*v),
            ValueData::Object(o) => ValueData::Object(
                match o {
                    Some(l) => Some(copy_lineage(l)),
                    None => None,
                },
            ),
        };
        Value { lineage: copy_lineage(&self.lineage), data }
    }
}

/// Types whose values can be stored in a `Value`.
pub trait ToValue {
    /// The value `self` converts to.
    spec fn spec_to_value(&self) -> ValueView;

    /// Converts `self` into a `Value`.
    fn to_value(&self) -> (r: Value)
        ensures
            r@ == self.spec_to_value(),
            crate::object::well_formed_value(r@),
    ;
}

/// The view of an optional value.
pub open spec fn opt_v<T: View>(o: Option<T>) -> Option<T::V> {
    match o {
        Some(x) => Some(x@),
        None => None,
    }
}

/// Types that can be read back out of a `Value`.
pub trait FromValue: View + Sized {
    /// The view of the result of reading `v`, or nothing when `v` holds another type.
    spec fn spec_from_value(v: ValueView) -> Option<Self::V>;

    /// Reads `v`.
    fn from_value(v: &Value) -> (r: Option<Self>)
        ensures
            opt_v(r) == Self::spec_from_value(v@),
    ;
}

impl ToValue for bool {
    open spec fn spec_to_value(&self) -> ValueView {
        ValueView { type_: Type(20), supertypes: Seq::empty(), data: DataView::Bool(*self) }
    }

    fn to_value(&self) -> (r: Value) {
        Value::new(TypeLineage::fundamental(Type::bool()), ValueData::Bool(*self))
    }
}

impl ToValue for i8 {
    open spec fn spec_to_value(&self) -> ValueView {
        ValueView { type_: Type(12), supertypes: Seq::empty(), data: DataView::I8(*self) }
    }

    fn to_value(&self) -> (r: Value) {
        Value::new(TypeLineage::fundamental(Type::i8()), ValueData::I8(*self))
    }
}

impl ToValue for u8 {
    open spec fn spec_to_value(&self) -> ValueView {
        ValueView { type_: Type(16), supertypes: Seq::empty(), data: DataView::U8(*self) }
    }

    fn to_value(&self) -> (r: Value) {
        Value::new(TypeLineage::fundamental(Type::u8()), ValueData::U8(*self))
    }
}

impl ToValue for i32 {
    open spec fn spec_to_value(&self) -> ValueView {
        ValueView { type_: Type(24), supertypes: Seq::empty(), data: DataView::I32(*self) }
    }

    fn to_value(&self) -> (r: Value) {
        Value::new(TypeLineage::fundamental(Type::i32()), ValueData::I32(*self))
    }
}

impl ToValue for u32 {
    open spec fn spec_to_value(&self) -> ValueView {
        ValueView { type_: Type(28), supertypes: Seq::empty(), data: DataView::U32(*self) }
    }

    fn to_value(&self) -> (r: Value) {
        Value::new(TypeLineage::fundamental(Type::u32()), ValueData::U32(*self))
    }
}

impl ToValue for i64 {
    open spec fn spec_to_value(&self) -> ValueView {
        ValueView { type_: Type(40), supertypes: Seq::empty(), data: DataView::I64(*self) }
    }

    fn to_value(&self) -> (r: Value) {
        Value::new(TypeLineage::fundamental(Type::i64()), ValueData::I64(*self))
    }
}

impl ToValue for u64 {
    open spec fn spec_to_value(&self) -> ValueView {
        ValueView { type_: Type(44), supertypes: Seq::empty(), data: DataView::U64(*self) }
    }

    fn to_value(&self) -> (r: Value) {
        Value::new(TypeLineage::fundamental(Type::u64()), ValueData::U64(*self))
    }
}

impl ToValue for String {
    open spec fn spec_to_value(&self) -> ValueView {
        ValueView { type_: Type(64), supertypes: Seq::empty(), data: DataView::Str(Some(self@)) }
    }

    fn to_value(&self) -> (r: Value) {
        Value::new(TypeLineage::fundamental(Type::string()), ValueData::Str(Some(self.clone())))
    }
}

impl ToValue for str {
    open spec fn spec_to_value(&self) -> ValueView {
        ValueView { type_: Type(64), supertypes: Seq::empty(), data: DataView::Str(Some(self@)) }
    }

    fn to_value(&self) -> (r: Value) {
        Value::new(
            TypeLineage::fundamental(Type::string()),
            ValueData::Str(Some(String::from_str(self))),
        )
    }
}

impl FromValue for bool {
    open spec fn spec_from_value(v: ValueView) -> Option<bool> {
        match v.data {
            DataView::Bool(b) => Some(b),
            _ => None,
        }
    }

    fn from_value(v: &Value) -> (r: Option<bool>) {
        match v.data() {
            ValueData::Bool(b) => Some(*b),
            _ => None,
        }
    }
}

impl FromValue for i8 {
    open spec fn spec_from_value(v: ValueView) -> Option<i8> {
        match v.data {
            DataView::I8(x) => Some(x),
            _ => None,
        }
    }

    fn from_value(v: &Value) -> (r: Option<i8>) {
        match v.data() {
            ValueData::I8(x) => Some(*x),
            _ => None,
        }
    }
}

impl FromValue for u8 {
    open spec fn spec_from_value(v: ValueView) -> Option<u8> {
        match v.data {
            DataView::U8(x) => Some(x),
            _ => None,
        }
    }

    fn from_value(v: &Value) -> (r: Option<u8>) {
        match v.data() {
            ValueData::U8(x) => Some(*x),
            _ => None,
        }
    }
}

impl FromValue for i32 {
    open spec fn spec_from_value(v: ValueView) -> Option<i32> {
        match v.data {
            DataView::I32(x) => Some(x),
            _ => None,
        }
    }

    fn from_value(v: &Value) -> (r: Option<i32>) {
        match v.data() {
            ValueData::I32(x) => Some(*x),
            _ => None,
        }
    }
}

impl FromValue for u32 {
    open spec fn spec_from_value(v: ValueView) -> Option<u32> {
        match v.data {
            DataView::U32(x) => Some(x),
            _ => None,
        }
    }

    fn from_value(v: &Value) -> (r: Option<u32>) {
        match v.data() {
            ValueData::U32(x) => Some(*x),
            _ => None,
        }
    }
}

impl FromValue for i64 {
    open spec fn spec_from_value(v: ValueView) -> Option<i64> {
        match v.data {
            DataView::I64(x) => Some(x),
            _ => None,
        }
    }

    fn from_value(v: &Value) -> (r: Option<i64>) {
        match v.data() {
            ValueData::I64(x) => Some(*x),
            _ => None,
        }
    }
}

impl FromValue for u64 {
    open spec fn spec_from_value(v: ValueView) -> Option<u64> {
        match v.data {
            DataView::U64(x) => Some(x),
            _ => None,
        }
    }

    fn from_value(v: &Value) -> (r: Option<u64>) {
        match v.data() {
            ValueData::U64(x) => Some(*x),
            _ => None,
        }
    }
}

impl FromValue for String {
    /// A string value reads as its text; a string value holding no string,
    /// and a value of another type, read as nothing.
    open spec fn spec_from_value(v: ValueView) -> Option<Seq<char>> {
        match v.data {
            DataView::Str(Some(s)) => Some(s),
            _ => None,
        }
    }

    fn from_value(v: &Value) -> (r: Option<String>) {
        match v.data() {
            ValueData::Str(Some(s)) => Some(s.clone()),
            _ => None,
        }
    }
}

/// A value made from a `bool`, an integer or a string reads back as what
/// it was made from.
pub proof fn law_value_round_trip(b: bool, i: i32, u: u32, l: i64, ul: u64, s: String)
    ensures
        <bool as FromValue>::spec_from_value(b.spec_to_value()) == Some(b),
        <i32 as FromValue>::spec_from_value(i.spec_to_value()) == Some(i),
        <u32 as FromValue>::spec_from_value(u.spec_to_value()) == Some(u),
        <i64 as FromValue>::spec_from_value(l.spec_to_value()) == Some(l),
        <u64 as FromValue>::spec_from_value(ul.spec_to_value()) == Some(ul),
        <String as FromValue>::spec_from_value(s.spec_to_value()) == Some(s@),
{
}

/// A value of one type does not read as another: an integer value is no
/// string, and a string value is no integer.
pub proof fn law_value_type_mismatch(i: i32, s: String)
    ensures
        <String as FromValue>::spec_from_value(i.spec_to_value()) is None,
        <i32 as FromValue>::spec_from_value(s.spec_to_value()) is None,
        <u32 as FromValue>::spec_from_value(i.spec_to_value()) is None,
{
}

} // verus!
