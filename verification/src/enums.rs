use vstd::prelude::*;

use crate::bytes::text_equal;
use crate::types::{Type, TypeLineage};
use crate::value::{copy_lineage, DataView, Value, ValueData, ValueView};

verus! {

/// The special directories of a user.
#[derive(Clone, Copy, Debug, PartialEq, Eq, Structural, Hash)]
pub enum UserDirectory {
    Desktop,
    Documents,
    Downloads,
    Music,
    Pictures,
    PublicShare,
    Templates,
    Videos,
    /// The number of directories; names none of them.
    NDirectories,
}

impl UserDirectory {
    /// The C number of the directory, in declaration order from 0.
    pub open spec fn spec_into_glib(self) -> i32 {
        match self {
            UserDirectory::Desktop => 0,
            UserDirectory::Documents => 1,
            UserDirectory::Downloads => 2,
            UserDirectory::Music => 3,
            UserDirectory::Pictures => 4,
            UserDirectory::PublicShare => 5,
            UserDirectory::Templates => 6,
            UserDirectory::Videos => 7,
            UserDirectory::NDirectories => 8,
        }
    }

    /// The C number of the directory.
    pub fn into_glib(self) -> (r: i32)
        ensures
            r == self.spec_into_glib(),
    {
        match self {
            UserDirectory::Desktop => 0,
            UserDirectory::Documents => 1,
            UserDirectory::Downloads => 2,
            UserDirectory::Music => 3,
            UserDirectory::Pictures => 4,
            UserDirectory::PublicShare => 5,
            UserDirectory::Templates => 6,
            UserDirectory::Videos => 7,
            UserDirectory::NDirectories => 8,
        }
    }
}

/// Whether `items` contains `v`.
pub fn contains_i32(items: &[i32], v: i32) -> (r: bool)
    ensures
        r == items@.contains(v),
{
    let mut i: usize = 0;
    while i < items.len()
        invariant
            i <= items@.len(),
            forall|j: int| 0 <= j < i ==> items@[j] != v,
        decreases items@.len() - i,
    {
        if items[i] == v {
            assert(items@[i as int] == v);
            return true;
        }
        i = i + 1;
    }
    false
}

/// The index of the first element of `s` that satisfies `p`, if any.
pub open spec fn first_index<A>(s: Seq<A>, p: spec_fn(A) -> bool) -> Option<int>
    decreases s.len(),
{
    if s.len() == 0 {
        None
    } else if p(s[0]) {
        Some(0)
    } else {
        match first_index(s.drop_first(), p) {
            Some(i) => Some(i + 1),
            None => None,
        }
    }
}

/// When no element before `i` satisfies `p`, the first index is `i` if
/// `s[i]` does, and there is none when `i` is the end.
proof fn lemma_first_index<A>(s: Seq<A>, p: spec_fn(A) -> bool, i: int)
    requires
        0 <= i <= s.len(),
        forall|j: int| 0 <= j < i ==> !p(#[trigger] s[j]),
    ensures
        i < s.len() && p(s[i]) ==> first_index(s, p) == Some(i),
        i == s.len() ==> first_index(s, p) is None,
    decreases s.len(),
{
    if s.len() > 0 && i > 0 {
        assert forall|j: int| 0 <= j < i - 1 implies !p(#[trigger] s.drop_first()[j]) by {
            assert(s.drop_first()[j] == s[j + 1]);
        };
        lemma_first_index(s.drop_first(), p, i - 1);
        assert(!p(s[0]));
        if i < s.len() {
            assert(s.drop_first()[i - 1] == s[i]);
        }
    }
}

/// The first index is that of an element that satisfies `p`, and every
/// element before it fails `p`.
proof fn lemma_first_index_found<A>(s: Seq<A>, p: spec_fn(A) -> bool)
    ensures
        first_index(s, p) matches Some(i) ==> 0 <= i < s.len() && p(s[i]),
    decreases s.len(),
{
    if s.len() > 0 && !p(s[0]) {
        lemma_first_index_found(s.drop_first(), p);
    }
}

/// The mathematical content of an enumeration value.
pub struct EnumValueView {
    pub value: i32,
    pub name: Seq<char>,
    pub nick: Seq<char>,
}

/// One value of an enumeration type: its number, name and nick.
#[derive(Debug)]
pub struct EnumValue {
    value: i32,
    name: String,
    nick: String,
}

impl View for EnumValue {
    type V = EnumValueView;

    closed spec fn view(&self) -> EnumValueView {
        EnumValueView { value: self.value, name: self.name@, nick: self.nick@ }
    }
}

impl EnumValue {
    /// The value numbered `value`, named `name`, with the nick `nick`.
    pub fn new(value: i32, name: String, nick: String) -> (r: EnumValue)
        ensures
            r@ == (EnumValueView { value, name: name@, nick: nick@ }),
    {
        EnumValue { value, name, nick }
    }

    /// The number of the value.
    pub fn value(&self) -> (r: i32)
        ensures
            r == self@.value,
    {
        self.value
    }

    /// The name of the value.
    pub fn name(&self) -> (r: &str)
        ensures
            r@ == self@.name,
    {
        self.name.as_str()
    }

    /// The nick of the value.
    pub fn nick(&self) -> (r: &str)
        ensures
            r@ == self@.nick,
    {
        self.nick.as_str()
    }

    /// A value of the enumeration type of `enum_` holding this value.
    pub fn to_value(&self, enum_: &EnumClass) -> (r: Value)
        ensures
            r@ == (ValueView {
                type_: enum_.spec_type(),
                supertypes: enum_.spec_supertypes(),
                data: DataView::Enum(self@.value),
            }),
    {
        Value::new(copy_lineage(&enum_.lineage), ValueData::Enum(self.value))
    }

    /// The value of `enum_` that `value`, a value of the type of `enum_`,
    /// holds; nothing when it holds no value of the enumeration.
    pub fn from_value<'a>(value: &Value, enum_: &'a EnumClass) -> (r: Option<&'a EnumValue>)
        requires
            value@.type_ == enum_.spec_type(),
        ensures
            match r {
                Some(e) => first_index(enum_.spec_values(), enum_value_is(spec_enum_of(value@.data)))
                    matches Some(i) && e@ == enum_.spec_values()[i],
                None => first_index(enum_.spec_values(), enum_value_is(spec_enum_of(value@.data))) is None,
            },
    {
        let n = match value.data() {
            ValueData::Enum(n) => *n,
            _ => 0,
        };
        enum_.value(n)
    }
}

impl PartialEq for EnumValue {
    fn eq(&self, other: &EnumValue) -> (r: bool) {
        self.value == other.value
    }
}

impl vstd::std_specs::cmp::PartialEqSpecImpl for EnumValue {
    open spec fn obeys_eq_spec() -> bool {
        true
    }

    open spec fn eq_spec(&self, other: &EnumValue) -> bool {
        self@.value == other@.value
    }
}

/// The number an enumeration payload holds, or 0 for another payload.
pub open spec fn spec_enum_of(d: DataView) -> i32 {
    match d {
        DataView::Enum(n) => n,
        _ => 0,
    }
}

/// Whether an enumeration value is numbered `v`.
pub open spec fn enum_value_is(v: i32) -> spec_fn(EnumValueView) -> bool {
    |e: EnumValueView| e.value == v
}

/// Whether an enumeration value is named `name`.
pub open spec fn enum_name_is(name: Seq<char>) -> spec_fn(EnumValueView) -> bool {
    |e: EnumValueView| e.name == name
}

/// Whether an enumeration value has the nick `nick`.
pub open spec fn enum_nick_is(nick: Seq<char>) -> spec_fn(EnumValueView) -> bool {
    |e: EnumValueView| e.nick == nick
}

/// The values of an enumeration type, in declaration order.
#[derive(Debug)]
pub struct EnumClass {
    lineage: TypeLineage,
    values: Vec<EnumValue>,
}

impl EnumClass {
    /// The enumeration type.
    pub closed spec fn spec_type(&self) -> Type {
        self.lineage.type_()
    }

    /// The types the enumeration type derives from.
    pub closed spec fn spec_supertypes(&self) -> Seq<Type> {
        self.lineage.supertypes()
    }

    /// The views of the values, in order.
    pub closed spec fn spec_values(&self) -> Seq<EnumValueView> {
        self.values@.map_values(|e: EnumValue| e@)
    }

    /// The class of the type of lineage `lineage` with the values `values`;
    /// nothing when the type is no enumeration type.
    pub fn new(lineage: TypeLineage, values: Vec<EnumValue>) -> (r: Option<EnumClass>)
        ensures
            r is Some <==> lineage.spec_is_a(Type(48)),
            r matches Some(c) ==> c.spec_type() == lineage.type_() && c.spec_supertypes() == lineage.supertypes()
                && c.spec_values() == values@.map_values(|e: EnumValue| e@),
    {
        if !lineage.is_a(Type::enum_()) {
            return None;
        }
        Some(EnumClass { lineage, values })
    }

    /// The enumeration type.
    pub fn type_(&self) -> (r: Type)
        ensures
            r == self.spec_type(),
    {
        self.lineage.get_type()
    }

    /// The values, in order.
    pub fn values(&self) -> (r: &[EnumValue])
        ensures
            r@.map_values(|e: EnumValue| e@) == self.spec_values(),
    {
        self.values.as_slice()
    }

    /// The first value numbered `value`.
    pub fn value(&self, value: i32) -> (r: Option<&EnumValue>)
        ensures
            match r {
                Some(e) => first_index(self.spec_values(), enum_value_is(value)) matches Some(i)
                    && e@ == self.spec_values()[i],
                None => first_index(self.spec_values(), enum_value_is(value)) is None,
            },
    {
        let ghost vals = self.spec_values();
        let ghost p = enum_value_is(value);
        let mut i: usize = 0;
        while i < self.values.len()
            invariant
                i <= self.values@.len(),
                vals == self.spec_values(),
                p == enum_value_is(value),
                forall|j: int| 0 <= j < i ==> !p(#[trigger] vals[j]),
            decreases self.values@.len() - i,
        {
            assert(vals[i as int] == self.values@[i as int]@);
            if self.values[i].value == value {
                proof {
                    lemma_first_index(vals, p, i as int);
                }
                return Some(&self.values[i]);
            }
            i = i + 1;
        }
        proof {
            lemma_first_index(vals, p, i as int);
        }
        None
    }

    /// The first value named `name`.
    pub fn value_by_name(&self, name: &str) -> (r: Option<&EnumValue>)
        ensures
            match r {
                Some(e) => first_index(self.spec_values(), enum_name_is(name@)) matches Some(i)
                    && e@ == self.spec_values()[i],
                None => first_index(self.spec_values(), enum_name_is(name@)) is None,
            },
    {
        let ghost vals = self.spec_values();
        let ghost p = enum_name_is(name@);
        let mut i: usize = 0;
        while i < self.values.len()
            invariant
                i <= self.values@.len(),
                vals == self.spec_values(),
                p == enum_name_is(name@),
                forall|j: int| 0 <= j < i ==> !p(#[trigger] vals[j]),
            decreases self.values@.len() - i,
        {
            assert(vals[i as int] == self.values@[i as int]@);
            if text_equal(self.values[i].name.as_str(), name) {
                proof {
                    lemma_first_index(vals, p, i as int);
                }
                return Some(&self.values[i]);
            }
            i = i + 1;
        }
        proof {
            lemma_first_index(vals, p, i as int);
        }
        None
    }

    /// The first value with the nick `nick`.
    pub fn value_by_nick(&self, nick: &str) -> (r: Option<&EnumValue>)
        ensures
            match r {
                Some(e) => first_index(self.spec_values(), enum_nick_is(nick@)) matches Some(i)
                    && e@ == self.spec_values()[i],
                None => first_index(self.spec_values(), enum_nick_is(nick@)) is None,
            },
    {
        let ghost vals = self.spec_values();
        let ghost p = enum_nick_is(nick@);
        let mut i: usize = 0;
        while i < self.values.len()
            invariant
                i <= self.values@.len(),
                vals == self.spec_values(),
                p == enum_nick_is(nick@),
                forall|j: int| 0 <= j < i ==> !p(#[trigger] vals[j]),
            decreases self.values@.len() - i,
        {
            assert(vals[i as int] == self.values@[i as int]@);
            if text_equal(self.values[i].nick.as_str(), nick) {
                proof {
                    lemma_first_index(vals, p, i as int);
                }
                return Some(&self.values[i]);
            }
            i = i + 1;
        }
        proof {
            lemma_first_index(vals, p, i as int);
        }
        None
    }

    /// A value of the enumeration type holding the first value numbered
    /// `value`; nothing when there is none.
    pub fn to_value(&self, value: i32) -> (r: Option<Value>)
        ensures
            r is Some <==> first_index(self.spec_values(), enum_value_is(value)) is Some,
            r matches Some(v) ==> v@ == (ValueView {
                type_: self.spec_type(),
                supertypes: self.spec_supertypes(),
                data: DataView::Enum(value),
            }),
    {
        proof {
            lemma_first_index_found(self.spec_values(), enum_value_is(value));
        }
        match self.value(value) {
            Some(e) => Some(e.to_value(self)),
            None => None,
        }
    }

    /// A value of the enumeration type holding the first value named `name`;
    /// nothing when there is none.
    pub fn to_value_by_name(&self, name: &str) -> (r: Option<Value>)
        ensures
            match first_index(self.spec_values(), enum_name_is(name@)) {
                Some(i) => r matches Some(v) && v@ == (ValueView {
                    type_: self.spec_type(),
                    supertypes: self.spec_supertypes(),
                    data: DataView::Enum(self.spec_values()[i].value),
                }),
                None => r is None,
            },
    {
        match self.value_by_name(name) {
            Some(e) => Some(e.to_value(self)),
            None => None,
        }
    }

    /// A value of the enumeration type holding the first value with the nick
    /// `nick`; nothing when there is none.
    pub fn to_value_by_nick(&self, nick: &str) -> (r: Option<Value>)
        ensures
            match first_index(self.spec_values(), enum_nick_is(nick@)) {
                Some(i) => r matches Some(v) && v@ == (ValueView {
                    type_: self.spec_type(),
                    supertypes: self.spec_supertypes(),
                    data: DataView::Enum(self.spec_values()[i].value),
                }),
                None => r is None,
            },
    {
        match self.value_by_nick(nick) {
            Some(e) => Some(e.to_value(self)),
            None => None,
        }
    }
}

/// The mathematical content of a flags value.
pub struct FlagsValueView {
    pub value: u32,
    pub name: Seq<char>,
    pub nick: Seq<char>,
}

/// One value of a flags type: its bits, name and nick.
#[derive(Debug)]
pub struct FlagsValue {
    value: u32,
    name: String,
    nick: String,
}

impl View for FlagsValue {
    type V = FlagsValueView;

    closed spec fn view(&self) -> FlagsValueView {
        FlagsValueView { value: self.value, name: self.name@, nick: self.nick@ }
    }
}

/// The bits a flags payload holds, or none for another payload.
pub open spec fn spec_flags_of(d: DataView) -> u32 {
    match d {
        DataView::Flags(f) => f,
        _ => 0,
    }
}

/// Whether the flags value `fv` is the one to pick for the bits `value`:
/// for no bits, a value of no bits; otherwise a value with bits, all of
/// which are among `value`.
pub open spec fn flags_value_fits(value: u32) -> spec_fn(FlagsValueView) -> bool {
    |fv: FlagsValueView|
        if value == 0 {
            fv.value == 0
        } else {
            fv.value != 0 && fv.value & value == fv.value
        }
}

/// Whether a flags value is named `name`.
pub open spec fn flags_name_is(name: Seq<char>) -> spec_fn(FlagsValueView) -> bool {
    |fv: FlagsValueView| fv.name == name
}

/// Whether a flags value has the nick `nick`.
pub open spec fn flags_nick_is(nick: Seq<char>) -> spec_fn(FlagsValueView) -> bool {
    |fv: FlagsValueView| fv.nick == nick
}

/// The bits of the first value of `vals` that satisfies `p`, if any.
pub open spec fn found_bits(vals: Seq<FlagsValueView>, p: spec_fn(FlagsValueView) -> bool) -> Option<u32> {
    match first_index(vals, p) {
        Some(i) => Some(vals[i].value),
        None => None,
    }
}

/// The outcome of setting (or clearing, when `set` is false) the bits
/// `bits` found in a flags class of type `t` on the value `v`: the value
/// with its bits updated, or the value unchanged as an error when its type
/// is not `t` or no bits were found.
pub open spec fn spec_flags_update(t: Type, v: ValueView, bits: Option<u32>, set: bool) -> Result<ValueView, ValueView> {
    if v.type_ != t {
        Err(v)
    } else {
        match bits {
            Some(b) => Ok(ValueView {
                type_: v.type_,
                supertypes: v.supertypes,
                data: DataView::Flags(if set { spec_flags_of(v.data) | b } else { spec_flags_of(v.data) & !b }),
            }),
            None => Err(v),
        }
    }
}

/// The view of the outcome of an update.
pub open spec fn update_view(r: Result<Value, Value>) -> Result<ValueView, ValueView> {
    match r {
        Ok(v) => Ok(v@),
        Err(v) => Err(v@),
    }
}

/// Whether the bits `bits` found in a flags class of type `t` are set in
/// the value `v`: false when the type is not `t` or no bits were found.
pub open spec fn spec_flags_test(t: Type, v: ValueView, bits: Option<u32>) -> bool {
    v.type_ == t && match bits {
        Some(b) => spec_flags_of(v.data) & b != 0,
        None => false,
    }
}

impl FlagsValue {
    /// The value of bits `value`, named `name`, with the nick `nick`.
    pub fn new(value: u32, name: String, nick: String) -> (r: FlagsValue)
        ensures
            r@ == (FlagsValueView { value, name: name@, nick: nick@ }),
    {
        FlagsValue { value, name, nick }
    }

    /// The bits of the value.
    pub fn value(&self) -> (r: u32)
        ensures
            r == self@.value,
    {
        self.value
    }

    /// The name of the value.
    pub fn name(&self) -> (r: &str)
        ensures
            r@ == self@.name,
    {
        self.name.as_str()
    }

    /// The nick of the value.
    pub fn nick(&self) -> (r: &str)
        ensures
            r@ == self@.nick,
    {
        self.nick.as_str()
    }

    /// A value of the flags type of `flags` holding exactly these bits.
    pub fn to_value(&self, flags: &FlagsClass) -> (r: Value)
        ensures
            r@ == (ValueView {
                type_: flags.spec_type(),
                supertypes: flags.spec_supertypes(),
                data: DataView::Flags(self@.value),
            }),
    {
        Value::new(copy_lineage(&flags.lineage), ValueData::Flags(self.value))
    }

    /// The values of `flags` that share a bit with `value`, a value of the
    /// type of `flags`, in order.
    pub fn from_value<'a>(value: &Value, flags: &'a FlagsClass) -> (r: Vec<&'a FlagsValue>)
        requires
            value@.type_ == flags.spec_type(),
        ensures
            r@.map_values(|fv: &FlagsValue| fv@) == flags.spec_values().filter(
                shares_bits(spec_flags_of(value@.data)),
            ),
    {
        let f = match value.data() {
            ValueData::Flags(f) => *f,
            _ => 0,
        };
        let ghost vals = flags.spec_values();
        let mut res: Vec<&'a FlagsValue> = Vec::new();
        let mut i: usize = 0;
        assert(vals.take(0) =~= Seq::<FlagsValueView>::empty());
        reveal(Seq::filter);
        while i < flags.values.len()
            invariant
                i <= flags.values@.len(),
                vals == flags.spec_values(),
                f == spec_flags_of(value@.data),
                res@.map_values(|fv: &FlagsValue| fv@) == vals.take(i as int).filter(shares_bits(f)),
            decreases flags.values@.len() - i,
        {
            let fv = &flags.values[i];
            reveal(Seq::filter);
            assert(vals.take(i + 1).drop_last() =~= vals.take(i as int));
            assert(vals.take(i + 1).last() == fv@);
            assert(vals.take(i + 1).filter(shares_bits(f)) == {
                let rest = vals.take(i as int).filter(shares_bits(f));
                if shares_bits(f)(fv@) { rest.push(fv@) } else { rest }
            });
            let ghost prev = res@;
            if fv.value & f != 0 {
                res.push(fv);
                assert(res@.map_values(|fv: &FlagsValue| fv@) =~= prev.map_values(|fv: &FlagsValue| fv@).push(fv@));
            }
            i = i + 1;
        }
        assert(vals.take(i as int) =~= vals);
        res
    }
}

/// Whether a flags value shares a bit with `f`.
pub open spec fn shares_bits(f: u32) -> spec_fn(FlagsValueView) -> bool {
    |fv: FlagsValueView| fv.value & f != 0
}

impl PartialEq for FlagsValue {
    fn eq(&self, other: &FlagsValue) -> (r: bool) {
        self.value == other.value
    }
}

impl vstd::std_specs::cmp::PartialEqSpecImpl for FlagsValue {
    open spec fn obeys_eq_spec() -> bool {
        true
    }

    open spec fn eq_spec(&self, other: &FlagsValue) -> bool {
        self@.value == other@.value
    }
}

/// The values of a flags type, in declaration order.
#[derive(Debug)]
pub struct FlagsClass {
    lineage: TypeLineage,
    values: Vec<FlagsValue>,
}

impl FlagsClass {
    /// The flags type.
    pub closed spec fn spec_type(&self) -> Type {
        self.lineage.type_()
    }

    /// The types the flags type derives from.
    pub closed spec fn spec_supertypes(&self) -> Seq<Type> {
        self.lineage.supertypes()
    }

    /// The views of the values, in order.
    pub closed spec fn spec_values(&self) -> Seq<FlagsValueView> {
        self.values@.map_values(|fv: FlagsValue| fv@)
    }

    /// The class of the type of lineage `lineage` with the values `values`;
    /// nothing when the type is no flags type.
    pub fn new(lineage: TypeLineage, values: Vec<FlagsValue>) -> (r: Option<FlagsClass>)
        ensures
            r is Some <==> lineage.spec_is_a(Type(52)),
            r matches Some(c) ==> c.spec_type() == lineage.type_() && c.spec_supertypes() == lineage.supertypes()
                && c.spec_values() == values@.map_values(|fv: FlagsValue| fv@),
    {
        if !lineage.is_a(Type::flags()) {
            return None;
        }
        Some(FlagsClass { lineage, values })
    }

    /// The flags type.
    pub fn type_(&self) -> (r: Type)
        ensures
            r == self.spec_type(),
    {
        self.lineage.get_type()
    }

    /// The values, in order.
    pub fn values(&self) -> (r: &[FlagsValue])
        ensures
            r@.map_values(|fv: FlagsValue| fv@) == self.spec_values(),
    {
        self.values.as_slice()
    }

    /// The first value to pick for the bits `value`: for no bits, the first
    /// value of no bits; otherwise the first value with bits, all of which
    /// are among `value`.
    pub fn value(&self, value: u32) -> (r: Option<&FlagsValue>)
        ensures
            match r {
                Some(fv) => first_index(self.spec_values(), flags_value_fits(value)) matches Some(i)
                    && fv@ == self.spec_values()[i],
                None => first_index(self.spec_values(), flags_value_fits(value)) is None,
            },
    {
        let ghost vals = self.spec_values();
        let ghost p = flags_value_fits(value);
        let mut i: usize = 0;
        while i < self.values.len()
            invariant
                i <= self.values@.len(),
                vals == self.spec_values(),
                p == flags_value_fits(value),
                forall|j: int| 0 <= j < i ==> !p(#[trigger] vals[j]),
            decreases self.values@.len() - i,
        {
            assert(vals[i as int] == self.values@[i as int]@);
            let v = self.values[i].value;
            let fits = if value == 0 {
                v == 0
            } else {
                v != 0 && v & value == v
            };
            if fits {
                proof {
                    lemma_first_index(vals, p, i as int);
                }
                return Some(&self.values[i]);
            }
            i = i + 1;
        }
        proof {
            lemma_first_index(vals, p, i as int);
        }
        None
    }

    /// The first value named `name`.
    pub fn value_by_name(&self, name: &str) -> (r: Option<&FlagsValue>)
        ensures
            match r {
                Some(fv) => first_index(self.spec_values(), flags_name_is(name@)) matches Some(i)
                    && fv@ == self.spec_values()[i],
                None => first_index(self.spec_values(), flags_name_is(name@)) is None,
            },
    {
        let ghost vals = self.spec_values();
        let ghost p = flags_name_is(name@);
        let mut i: usize = 0;
        while i < self.values.len()
            invariant
                i <= self.values@.len(),
                vals == self.spec_values(),
                p == flags_name_is(name@),
                forall|j: int| 0 <= j < i ==> !p(#[trigger] vals[j]),
            decreases self.values@.len() - i,
        {
            assert(vals[i as int] == self.values@[i as int]@);
            if text_equal(self.values[i].name.as_str(), name) {
                proof {
                    lemma_first_index(vals, p, i as int);
                }
                return Some(&self.values[i]);
            }
            i = i + 1;
        }
        proof {
            lemma_first_index(vals, p, i as int);
        }
        None
    }

    /// The first value with the nick `nick`.
    pub fn value_by_nick(&self, nick: &str) -> (r: Option<&FlagsValue>)
        ensures
            match r {
                Some(fv) => first_index(self.spec_values(), flags_nick_is(nick@)) matches Some(i)
                    && fv@ == self.spec_values()[i],
                None => first_index(self.spec_values(), flags_nick_is(nick@)) is None,
            },
    {
        let ghost vals = self.spec_values();
        let ghost p = flags_nick_is(nick@);
        let mut i: usize = 0;
        while i < self.values.len()
            invariant
                i <= self.values@.len(),
                vals == self.spec_values(),
                p == flags_nick_is(nick@),
                forall|j: int| 0 <= j < i ==> !p(#[trigger] vals[j]),
            decreases self.values@.len() - i,
        {
            assert(vals[i as int] == self.values@[i as int]@);
            if text_equal(self.values[i].nick.as_str(), nick) {
                proof {
                    lemma_first_index(vals, p, i as int);
                }
                return Some(&self.values[i]);
            }
            i = i + 1;
        }
        proof {
            lemma_first_index(vals, p, i as int);
        }
        None
    }

    /// The bits of a found value, if any.
    fn found(fv: Option<&FlagsValue>) -> (r: Option<u32>)
        ensures
            r == match fv {
                Some(v) => Some(v@.value),
                None => None::<u32>,
            },
    {
        match fv {
            Some(v) => Some(v.value),
            None => None,
        }
    }

    /// A value of the flags type holding the bits of the value picked for
    /// `value`; nothing when none is.
    pub fn to_value(&self, value: u32) -> (r: Option<Value>)
        ensures
            match found_bits(self.spec_values(), flags_value_fits(value)) {
                Some(b) => r matches Some(v) && v@ == (ValueView {
                    type_: self.spec_type(),
                    supertypes: self.spec_supertypes(),
                    data: DataView::Flags(b),
                }),
                None => r is None,
            },
    {
        match self.value(value) {
            Some(fv) => Some(fv.to_value(self)),
            None => None,
        }
    }

    /// A value of the flags type holding the bits of the first value named
    /// `name`; nothing when there is none.
    pub fn to_value_by_name(&self, name: &str) -> (r: Option<Value>)
        ensures
            match found_bits(self.spec_values(), flags_name_is(name@)) {
                Some(b) => r matches Some(v) && v@ == (ValueView {
                    type_: self.spec_type(),
                    supertypes: self.spec_supertypes(),
                    data: DataView::Flags(b),
                }),
                None => r is None,
            },
    {
        match self.value_by_name(name) {
            Some(fv) => Some(fv.to_value(self)),
            None => None,
        }
    }

    /// A value of the flags type holding the bits of the first value with the
    /// nick `nick`; nothing when there is none.
    pub fn to_value_by_nick(&self, nick: &str) -> (r: Option<Value>)
        ensures
            match found_bits(self.spec_values(), flags_nick_is(nick@)) {
                Some(b) => r matches Some(v) && v@ == (ValueView {
                    type_: self.spec_type(),
                    supertypes: self.spec_supertypes(),
                    data: DataView::Flags(b),
                }),
                None => r is None,
            },
    {
        match self.value_by_nick(nick) {
            Some(fv) => Some(fv.to_value(self)),
            None => None,
        }
    }

    /// Whether `value`, of this flags type, has any of the bits `bits`.
    fn test_bits(&self, value: &Value, bits: Option<u32>) -> (r: bool)
        ensures
            r == spec_flags_test(self.spec_type(), value@, bits),
    {
        if self.type_() != value.type_() {
            return false;
        }
        match bits {
            Some(b) => {
                let flags = match value.data() {
                    ValueData::Flags(f) => *f,
                    _ => 0,
                };
                flags & b != 0
            },
            None => false,
        }
    }

    /// Sets (or clears, when `set` is false) the bits `bits` in `value`.
    fn update_bits(&self, value: Value, bits: Option<u32>, set: bool) -> (r: Result<Value, Value>)
        ensures
            update_view(r) == spec_flags_update(self.spec_type(), value@, bits, set),
    {
        if self.type_() != value.type_() {
            return Err(value);
        }
        match bits {
            Some(b) => {
                let flags = match value.data() {
                    ValueData::Flags(f) => *f,
                    _ => 0,
                };
                let mut v = value;
                if set {
                    v.set_data(ValueData::Flags(flags | b));
                } else {
                    v.set_data(ValueData::Flags(flags & !b));
                }
                Ok(v)
            },
            None => Err(value),
        }
    }

    /// Whether `value`, of this flags type, has any of the bits `f`.
    pub fn is_set(&self, value: &Value, f: u32) -> (r: bool)
        ensures
            r == spec_flags_test(self.spec_type(), value@, Some(f)),
    {
        self.test_bits(value, Some(f))
    }

    /// Whether `value`, of this flags type, has any bit of the first value
    /// named `name`.
    pub fn is_set_by_name(&self, value: &Value, name: &str) -> (r: bool)
        ensures
            r == spec_flags_test(self.spec_type(), value@, found_bits(self.spec_values(), flags_name_is(name@))),
    {
        let bits = FlagsClass::found(self.value_by_name(name));
        self.test_bits(value, bits)
    }

    /// Whether `value`, of this flags type, has any bit of the first value
    /// with the nick `nick`.
    pub fn is_set_by_nick(&self, value: &Value, nick: &str) -> (r: bool)
        ensures
            r == spec_flags_test(self.spec_type(), value@, found_bits(self.spec_values(), flags_nick_is(nick@))),
    {
        let bits = FlagsClass::found(self.value_by_nick(nick));
        self.test_bits(value, bits)
    }

    /// Sets in `value` the bits of the value picked for `f`; gives `value`
    /// back unchanged as an error when it is of another type or no value is
    /// picked.
    pub fn set(&self, value: Value, f: u32) -> (r: Result<Value, Value>)
        ensures
            update_view(r) == spec_flags_update(
                self.spec_type(),
                value@,
                found_bits(self.spec_values(), flags_value_fits(f)),
                true,
            ),
    {
        let bits = FlagsClass::found(self.value(f));
        self.update_bits(value, bits, true)
    }

    /// Sets in `value` the bits of the first value named `name`.
    pub fn set_by_name(&self, value: Value, name: &str) -> (r: Result<Value, Value>)
        ensures
            update_view(r) == spec_flags_update(
                self.spec_type(),
                value@,
                found_bits(self.spec_values(), flags_name_is(name@)),
                true,
            ),
    {
        let bits = FlagsClass::found(self.value_by_name(name));
        self.update_bits(value, bits, true)
    }

    /// Sets in `value` the bits of the first value with the nick `nick`.
    pub fn set_by_nick(&self, value: Value, nick: &str) -> (r: Result<Value, Value>)
        ensures
            update_view(r) == spec_flags_update(
                self.spec_type(),
                value@,
                found_bits(self.spec_values(), flags_nick_is(nick@)),
                true,
            ),
    {
        let bits = FlagsClass::found(self.value_by_nick(nick));
        self.update_bits(value, bits, true)
    }

    /// Clears in `value` the bits of the value picked for `f`.
    pub fn unset(&self, value: Value, f: u32) -> (r: Result<Value, Value>)
        ensures
            update_view(r) == spec_flags_update(
                self.spec_type(),
                value@,
                found_bits(self.spec_values(), flags_value_fits(f)),
                false,
            ),
    {
        let bits = FlagsClass::found(self.value(f));
        self.update_bits(value, bits, false)
    }

    /// Clears in `value` the bits of the first value named `name`.
    pub fn unset_by_name(&self, value: Value, name: &str) -> (r: Result<Value, Value>)
        ensures
            update_view(r) == spec_flags_update(
                self.spec_type(),
                value@,
                found_bits(self.spec_values(), flags_name_is(name@)),
                false,
            ),
    {
        let bits = FlagsClass::found(self.value_by_name(name));
        self.update_bits(value, bits, false)
    }

    /// Clears in `value` the bits of the first value with the nick `nick`.
    pub fn unset_by_nick(&self, value: Value, nick: &str) -> (r: Result<Value, Value>)
        ensures
            update_view(r) == spec_flags_update(
                self.spec_type(),
                value@,
                found_bits(self.spec_values(), flags_nick_is(nick@)),
                false,
            ),
    {
        let bits = FlagsClass::found(self.value_by_nick(nick));
        self.update_bits(value, bits, false)
    }

    /// A builder that starts from the value of this type with no bits set.
    pub fn builder(&self) -> (r: FlagsBuilder<'_>)
        ensures
            r.spec_class() == self,
            r.spec_value() == Some(ValueView {
                type_: self.spec_type(),
                supertypes: self.spec_supertypes(),
                data: DataView::Flags(0),
            }),
    {
        FlagsBuilder::new(self)
    }

    /// A builder that starts from `value`; nothing when `value` is of another
    /// type.
    pub fn builder_with_value(&self, value: Value) -> (r: Option<FlagsBuilder<'_>>)
        ensures
            r is Some <==> value@.type_ == self.spec_type(),
            r matches Some(b) ==> b.spec_class() == self && b.spec_value() == Some(value@),
    {
        if self.type_() != value.type_() {
            return None;
        }
        Some(FlagsBuilder::with_value(self, value))
    }
}

/// The value an update leaves in a builder: the updated value, or nothing
/// once an update has failed.
pub open spec fn spec_builder_step(
    class_type: Type,
    current: Option<ValueView>,
    bits: Option<u32>,
    set: bool,
) -> Option<ValueView> {
    match current {
        Some(v) => match spec_flags_update(class_type, v, bits, set) {
            Ok(nv) => Some(nv),
            Err(_) => None,
        },
        None => None,
    }
}

/// Sets and clears flags on a value, one step after the other; once a step
/// fails, the builder holds nothing.
pub struct FlagsBuilder<'a> {
    class: &'a FlagsClass,
    value: Option<Value>,
}

impl<'a> FlagsBuilder<'a> {
    /// The class whose values name the flags.
    pub closed spec fn spec_class(&self) -> &'a FlagsClass {
        self.class
    }

    /// The value built so far, or nothing after a failed step.
    pub closed spec fn spec_value(&self) -> Option<ValueView> {
        match self.value {
            Some(v) => Some(v@),
            None => None,
        }
    }

    fn new(class: &'a FlagsClass) -> (r: FlagsBuilder<'a>)
        ensures
            r.spec_class() == class,
            r.spec_value() == Some(ValueView {
                type_: class.spec_type(),
                supertypes: class.spec_supertypes(),
                data: DataView::Flags(0),
            }),
    {
        let value = Value::new(copy_lineage(&class.lineage), ValueData::Flags(0));
        FlagsBuilder { class, value: Some(value) }
    }

    fn with_value(class: &'a FlagsClass, value: Value) -> (r: FlagsBuilder<'a>)
        ensures
            r.spec_class() == class,
            r.spec_value() == Some(value@),
    {
        FlagsBuilder { class, value: Some(value) }
    }

    fn step(self, bits: Option<u32>, set: bool) -> (r: FlagsBuilder<'a>)
        ensures
            r.spec_class() == self.spec_class(),
            r.spec_value() == spec_builder_step(self.spec_class().spec_type(), self.spec_value(), bits, set),
    {
        let FlagsBuilder { class, value } = self;
        match value {
            Some(v) => {
                let next = match class.update_bits(v, bits, set) {
                    Ok(nv) => Some(nv),
                    Err(_) => None,
                };
                FlagsBuilder { class, value: next }
            },
            None => FlagsBuilder { class, value: None },
        }
    }

    /// Sets the bits of the value picked for `f`.
    pub fn set(self, f: u32) -> (r: FlagsBuilder<'a>)
        ensures
            r.spec_class() == self.spec_class(),
            r.spec_value() == spec_builder_step(
                self.spec_class().spec_type(),
                self.spec_value(),
                found_bits(self.spec_class().spec_values(), flags_value_fits(f)),
                true,
            ),
    {
        let bits = FlagsClass::found(self.class.value(f));
        self.step(bits, true)
    }

    /// Sets the bits of the first value named `name`.
    pub fn set_by_name(self, name: &str) -> (r: FlagsBuilder<'a>)
        ensures
            r.spec_class() == self.spec_class(),
            r.spec_value() == spec_builder_step(
                self.spec_class().spec_type(),
                self.spec_value(),
                found_bits(self.spec_class().spec_values(), flags_name_is(name@)),
                true,
            ),
    {
        let bits = FlagsClass::found(self.class.value_by_name(name));
        self.step(bits, true)
    }

    /// Sets the bits of the first value with the nick `nick`.
    pub fn set_by_nick(self, nick: &str) -> (r: FlagsBuilder<'a>)
        ensures
            r.spec_class() == self.spec_class(),
            r.spec_value() == spec_builder_step(
                self.spec_class().spec_type(),
                self.spec_value(),
                found_bits(self.spec_class().spec_values(), flags_nick_is(nick@)),
                true,
            ),
    {
        let bits = FlagsClass::found(self.class.value_by_nick(nick));
        self.step(bits, true)
    }

    /// Clears the bits of the value picked for `f`.
    pub fn unset(self, f: u32) -> (r: FlagsBuilder<'a>)
        ensures
            r.spec_class() == self.spec_class(),
            r.spec_value() == spec_builder_step(
                self.spec_class().spec_type(),
                self.spec_value(),
                found_bits(self.spec_class().spec_values(), flags_value_fits(f)),
                false,
            ),
    {
        let bits = FlagsClass::found(self.class.value(f));
        self.step(bits, false)
    }

    /// Clears the bits of the first value named `name`.
    pub fn unset_by_name(self, name: &str) -> (r: FlagsBuilder<'a>)
        ensures
            r.spec_class() == self.spec_class(),
            r.spec_value() == spec_builder_step(
                self.spec_class().spec_type(),
                self.spec_value(),
                found_bits(self.spec_class().spec_values(), flags_name_is(name@)),
                false,
            ),
    {
        let bits = FlagsClass::found(self.class.value_by_name(name));
        self.step(bits, false)
    }

    /// Clears the bits of the first value with the nick `nick`.
    pub fn unset_by_nick(self, nick: &str) -> (r: FlagsBuilder<'a>)
        ensures
            r.spec_class() == self.spec_class(),
            r.spec_value() == spec_builder_step(
                self.spec_class().spec_type(),
                self.spec_value(),
                found_bits(self.spec_class().spec_values(), flags_nick_is(nick@)),
                false,
            ),
    {
        let bits = FlagsClass::found(self.class.value_by_nick(nick));
        self.step(bits, false)
    }

    /// The value built, or nothing when a step failed.
    pub fn build(self) -> (r: Option<Value>)
        ensures
            match r {
                Some(v) => self.spec_value() == Some(v@),
                None => self.spec_value() is None,
            },
    {
        self.value
    }
}

/// Once a step of a flags builder fails, every later step leaves it failed.
pub proof fn law_builder_failure_sticks(class_type: Type, bits: Option<u32>, set: bool)
    ensures
        spec_builder_step(class_type, None, bits, set) is None,
{
}

/// The builder's value after the steps `steps`, one after the other, from
/// `start`; each step gives the bits it found (nothing when its value, name
/// or nick was not found) and whether it sets or clears them.
pub open spec fn spec_builder_run(
    class_type: Type,
    start: Option<ValueView>,
    steps: Seq<(Option<u32>, bool)>,
) -> Option<ValueView>
    decreases steps.len(),
{
    if steps.len() == 0 {
        start
    } else {
        spec_builder_step(
            class_type,
            spec_builder_run(class_type, start, steps.drop_last()),
            steps.last().0,
            steps.last().1,
        )
    }
}

/// The flags `f` after or-ing in (set) or clearing (unset) the bits of each
/// found step in order.
pub open spec fn spec_apply_steps(f: u32, steps: Seq<(Option<u32>, bool)>) -> u32
    decreases steps.len(),
{
    if steps.len() == 0 {
        f
    } else {
        let g = spec_apply_steps(f, steps.drop_last());
        match steps.last().0 {
            Some(b) => if steps.last().1 { g | b } else { g & !b },
            None => g,
        }
    }
}

/// A chain of builder steps from a flags value of the class's type ends with a
/// value exactly when every step found its value, name or nick; that value
/// keeps the start's type and holds the start's flags with each step's bits
/// set or cleared in order.
pub proof fn law_builder_chain(class_type: Type, start: ValueView, steps: Seq<(Option<u32>, bool)>)
    requires
        start.type_ == class_type,
        start.data is Flags,
    ensures
        spec_builder_run(class_type, Some(start), steps) is Some <==> (forall|i: int|
            0 <= i < steps.len() ==> (#[trigger] steps[i]).0 is Some),
        (forall|i: int| 0 <= i < steps.len() ==> (#[trigger] steps[i]).0 is Some) ==> spec_builder_run(
            class_type,
            Some(start),
            steps,
        ) == Some(
            ValueView {
                type_: class_type,
                supertypes: start.supertypes,
                data: DataView::Flags(spec_apply_steps(spec_flags_of(start.data), steps)),
            },
        ),
    decreases steps.len(),
{
    if steps.len() > 0 {
        let prefix = steps.drop_last();
        law_builder_chain(class_type, start, prefix);
        assert forall|i: int| 0 <= i < prefix.len() implies #[trigger] prefix[i] == steps[i] by {};
        if forall|i: int| 0 <= i < steps.len() ==> (#[trigger] steps[i]).0 is Some {
            assert forall|i: int| 0 <= i < prefix.len() implies (#[trigger] prefix[i]).0 is Some by {
                assert(prefix[i] == steps[i]);
            };
            assert(steps[steps.len() - 1].0 is Some);
            let g = spec_apply_steps(spec_flags_of(start.data), prefix);
            let pv = ValueView { type_: class_type, supertypes: start.supertypes, data: DataView::Flags(g) };
            assert(spec_builder_run(class_type, Some(start), prefix) == Some(pv));
            assert(spec_flags_of(pv.data) == g);
        } else {
            let j = choose|i: int| 0 <= i < steps.len() && !((#[trigger] steps[i]).0 is Some);
            if j == steps.len() - 1 {
                assert(steps.last().0 is None);
            } else {
                assert(prefix[j] == steps[j]);
                assert(spec_builder_run(class_type, Some(start), prefix) is None);
            }
        }
    }
}

/// Setting found bits and then clearing them leaves none of them set, and
/// setting them twice is the same as setting them once.
pub proof fn law_set_then_unset(t: Type, v: ValueView, b: u32)
    requires
        v.type_ == t,
    ensures
        spec_flags_update(t, v, Some(b), true) matches Ok(s) && spec_flags_test(t, s, Some(b)) == (b != 0),
        spec_flags_update(t, v, Some(b), true) matches Ok(s) && spec_flags_update(t, s, Some(b), false) matches Ok(u)
            && spec_flags_of(u.data) & b == 0,
        spec_flags_update(t, v, Some(b), true) matches Ok(s) && spec_flags_update(t, s, Some(b), true) == Ok::<ValueView, ValueView>(s),
{
    let f = spec_flags_of(v.data);
    assert((f | b) & b == b) by (bit_vector);
    assert(((f | b) & !b) & b == 0) by (bit_vector);
    assert((f | b) | b == f | b) by (bit_vector);
    assert(b != 0 ==> b & b != 0) by (bit_vector);
}

} // verus!
