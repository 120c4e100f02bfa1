use smallvec::SmallVec;
use std::marker::PhantomData;
use std::rc::Rc;
use vstd::prelude::*;
use vstd::string::StringSliceAdditionalSpecFns;
use vstd::utf8::encode_utf8;

use crate::bytes::bytes_equal;
use crate::param_flags::ParamFlags;
use crate::param_spec::{rc_share, ParamSpec, ParamSpecKind};
use crate::types::{BoolError, StaticType, Type, TypeLineage};
use crate::value::{copy_lineage, opt_v, DataView, FromValue, ToValue, Value, ValueData, ValueView};

verus! {

/// The byte a property-name lookup compares in place of `c`: ASCII letters,
/// digits and `-` stand for themselves, every other byte for `-`.
pub open spec fn canonical_key_byte(c: u8) -> u8 {
    if (48 <= c <= 57) || (65 <= c <= 90) || (97 <= c <= 122) || c == 45 {
        c
    } else {
        45u8
    }
}

/// The key under which a property name is looked up.
pub open spec fn canonical_key(name: Seq<u8>) -> Seq<u8> {
    name.map_values(|c: u8| canonical_key_byte(c))
}

/// The bytes of the name of a property.
pub open spec fn name_bytes(p: ParamSpec) -> Seq<u8> {
    encode_utf8(p.data().name@)
}

/// Whether the property at `i` is the first one whose name is `key`.
pub open spec fn first_named(props: Seq<ParamSpec>, key: Seq<u8>, i: int) -> bool {
    &&& 0 <= i < props.len()
    &&& name_bytes(props[i]) == key
    &&& forall|j: int| 0 <= j < i ==> name_bytes(#[trigger] props[j]) != key
}

/// Whether no property is named `key`.
pub open spec fn none_named(props: Seq<ParamSpec>, key: Seq<u8>) -> bool {
    forall|j: int| 0 <= j < props.len() ==> name_bytes(#[trigger] props[j]) != key
}

/// The lookup key of `name`.
pub fn canonicalize_key(name: &str) -> (r: Vec<u8>)
    ensures
        r@ == canonical_key(name.spec_bytes()),
{
    let b = name.as_bytes();
    let mut out: Vec<u8> = Vec::new();
    let mut i: usize = 0;
    while i < b.len()
        invariant
            i <= b@.len(),
            b@ == name.spec_bytes(),
            out@ == canonical_key(b@.subrange(0, i as int)),
        decreases b@.len() - i,
    {
        let c = b[i];
        let k = if (48 <= c && c <= 57) || (65 <= c && c <= 90) || (97 <= c && c <= 122) || c
            == 45 {
            c
        } else {
            45u8
        };
        out.push(k);
        i = i + 1;
        assert(canonical_key(b@.subrange(0, i as int)) =~= canonical_key(
            b@.subrange(0, i - 1),
        ).push(k));
    }
    assert(b@.subrange(0, b@.len() as int) =~= b@);
    out
}

/// Index of the first property whose name is `key`.
pub fn position_of(props: &[ParamSpec], key: &[u8]) -> (r: Option<usize>)
    ensures
        match r {
            Some(i) => first_named(props@, key@, i as int),
            None => none_named(props@, key@),
        },
{
    let mut i: usize = 0;
    while i < props.len()
        invariant
            i <= props@.len(),
            forall|j: int| 0 <= j < i ==> name_bytes(#[trigger] props@[j]) != key@,
        decreases props@.len() - i,
    {
        let name = props[i].name();
        if bytes_equal(name.as_bytes(), key) {
            return Some(i);
        }
        i = i + 1;
    }
    None
}

/// The property found for `name` among `props`, under the lookup key of `name`.
pub open spec fn spec_find(props: Seq<ParamSpec>, name: Seq<u8>) -> Option<ParamSpec> {
    let key = canonical_key(name);
    if exists|i: int| first_named(props, key, i) {
        Some(props[choose|i: int| first_named(props, key, i)])
    } else {
        None
    }
}

/// A name made only of ASCII letters, digits and `-` is its own lookup key,
/// so a property of that name is found under it: the first one so named.
pub proof fn law_plain_names_are_found(props: Seq<ParamSpec>, name: Seq<u8>, i: int)
    requires
        forall|k: int|
            0 <= k < name.len() ==> {
                let c = #[trigger] name[k];
                (0x30 <= c <= 0x39) || (0x41 <= c <= 0x5a) || (0x61 <= c <= 0x7a) || c == 0x2d
            },
        0 <= i < props.len(),
        name_bytes(props[i]) == name,
        forall|j: int| 0 <= j < i ==> name_bytes(#[trigger] props[j]) != name,
    ensures
        canonical_key(name) == name,
        spec_find(props, name) == Some(props[i]),
{
    assert(canonical_key(name) =~= name) by {
        assert forall|k: int| 0 <= k < name.len() implies canonical_key(name)[k] == name[k] by {
            let c = name[k];
            assert((0x30 <= c <= 0x39) || (0x41 <= c <= 0x5a) || (0x61 <= c <= 0x7a) || c == 0x2d);
        };
    };
    assert(first_named(props, name, i));
    let c = choose|c: int| first_named(props, name, c);
    lemma_first_named_unique(props, name, i, c);
}

/// Property lookups do not tell apart names with the same lookup key, such
/// as `a-b` and `a_b`.
pub proof fn law_lookup_by_key(props: Seq<ParamSpec>, a: Seq<u8>, b: Seq<u8>)
    requires
        canonical_key(a) == canonical_key(b),
    ensures
        spec_find(props, a) == spec_find(props, b),
{
}

proof fn lemma_first_named_unique(props: Seq<ParamSpec>, key: Seq<u8>, i: int, k: int)
    requires
        first_named(props, key, i),
        first_named(props, key, k),
    ensures
        i == k,
{
    if i < k {
        assert(name_bytes(props[i]) != key);
    } else if k < i {
        assert(name_bytes(props[k]) != key);
    }
}

/// Looks `name` up among `props`.
pub fn find_property_in(props: &[ParamSpec], name: &str) -> (r: Option<ParamSpec>)
    ensures
        r == spec_find(props@, name.spec_bytes()),
{
    let key = canonicalize_key(name);
    match position_of(props, key.as_slice()) {
        Some(i) => {
            proof {
                let k = choose|k: int| first_named(props@, key@, k);
                lemma_first_named_unique(props@, key@, i as int, k);
            }
            Some(props[i].clone())
        },
        None => {
            assert(!exists|i: int| first_named(props@, key@, i));
            None
        },
    }
}

/// The type of the values of the property found for `name`.
pub open spec fn spec_property_type(props: Seq<ParamSpec>, name: Seq<u8>) -> Option<Type> {
    match spec_find(props, name) {
        Some(p) => Some(p.data().value_type),
        None => None,
    }
}

/// Whether a property is found for `name`, of the type `type_` when one is given.
pub open spec fn spec_has_property(props: Seq<ParamSpec>, name: Seq<u8>, type_: Option<Type>) -> bool {
    match (spec_property_type(props, name), type_) {
        (None, _) => false,
        (Some(_), None) => true,
        (Some(p), Some(t)) => p == t,
    }
}

/// The class of a type whose instances are of the Rust type `T`: the
/// lineage of the type, whether it can be instantiated and whether it is
/// abstract, and every property its instances have (inherited ones included).
pub struct Class<T> {
    lineage: TypeLineage,
    instantiatable: bool,
    is_abstract: bool,
    properties: Vec<ParamSpec>,
    phantom: PhantomData<T>,
}

impl<T> Class<T> {
    /// The type of the class.
    pub closed spec fn spec_type(&self) -> Type {
        self.lineage.type_()
    }

    /// The types the type of the class derives from.
    pub closed spec fn spec_supertypes(&self) -> Seq<Type> {
        self.lineage.supertypes()
    }

    /// Whether the type can be instantiated.
    pub closed spec fn spec_instantiatable(&self) -> bool {
        self.instantiatable
    }

    /// Whether the type is abstract.
    pub closed spec fn spec_abstract(&self) -> bool {
        self.is_abstract
    }

    /// The properties of the class.
    pub closed spec fn spec_properties(&self) -> Seq<ParamSpec> {
        self.properties@
    }

    /// A class with the given type facts and properties.
    pub fn new(lineage: TypeLineage, instantiatable: bool, is_abstract: bool, properties: Vec<ParamSpec>) -> (r: Class<T>)
        ensures
            r.spec_type() == lineage.type_(),
            r.spec_supertypes() == lineage.supertypes(),
            r.spec_instantiatable() == instantiatable,
            r.spec_abstract() == is_abstract,
            r.spec_properties() == properties@,
    {
        Class { lineage, instantiatable, is_abstract, properties, phantom: PhantomData }
    }

    /// The type of the class.
    pub fn type_(&self) -> (r: Type)
        ensures
            r == self.spec_type(),
    {
        self.lineage.get_type()
    }

    /// Every property of the class.
    pub fn list_properties(&self) -> (r: &[ParamSpec])
        ensures
            r@ == self.spec_properties(),
    {
        self.properties.as_slice()
    }

    /// The property named `property_name` (`_` and other bytes that are not
    /// letters, digits or `-` match `-`).
    pub fn find_property(&self, property_name: &str) -> (r: Option<ParamSpec>)
        ensures
            r == spec_find(self.spec_properties(), property_name.spec_bytes()),
    {
        find_property_in(self.properties.as_slice(), property_name)
    }

    /// The type of the property `property_name`, or nothing if the class has
    /// no such property.
    pub fn property_type(&self, property_name: &str) -> (r: Option<Type>)
        ensures
            r == spec_property_type(self.spec_properties(), property_name.spec_bytes()),
    {
        match self.find_property(property_name) {
            Some(p) => Some(p.value_type()),
            None => None,
        }
    }

    /// Whether the class has a property `property_name`, of the type `type_`
    /// when one is given.
    pub fn has_property(&self, property_name: &str, type_: Option<Type>) -> (r: bool)
        ensures
            r == spec_has_property(self.spec_properties(), property_name.spec_bytes(), type_),
    {
        let ptype = self.property_type(property_name);
        match (ptype, type_) {
            (None, _) => false,
            (Some(_), None) => true,
            (Some(p), Some(t)) => p == t,
        }
    }
}

/// An interface type whose implementors are of the Rust type `T`, with the
/// properties it declares.
pub struct Interface<T> {
    type_: Type,
    properties: Vec<ParamSpec>,
    phantom: PhantomData<T>,
}

impl<T> Interface<T> {
    /// The interface type.
    pub closed spec fn spec_type(&self) -> Type {
        self.type_
    }

    /// The properties the interface declares.
    pub closed spec fn spec_properties(&self) -> Seq<ParamSpec> {
        self.properties@
    }

    /// An interface with the given type and properties.
    pub fn new(type_: Type, properties: Vec<ParamSpec>) -> (r: Interface<T>)
        ensures
            r.spec_type() == type_,
            r.spec_properties() == properties@,
    {
        Interface { type_, properties, phantom: PhantomData }
    }

    /// The interface type.
    pub fn type_(&self) -> (r: Type)
        ensures
            r == self.spec_type(),
    {
        self.type_
    }

    /// Every property the interface declares.
    pub fn list_properties(&self) -> (r: &[ParamSpec])
        ensures
            r@ == self.spec_properties(),
    {
        self.properties.as_slice()
    }

    /// The property named `property_name`.
    pub fn find_property(&self, property_name: &str) -> (r: Option<ParamSpec>)
        ensures
            r == spec_find(self.spec_properties(), property_name.spec_bytes()),
    {
        find_property_in(self.properties.as_slice(), property_name)
    }

    /// The type of the property `property_name`, or nothing if the interface
    /// has no such property.
    pub fn property_type(&self, property_name: &str) -> (r: Option<Type>)
        ensures
            r == spec_property_type(self.spec_properties(), property_name.spec_bytes()),
    {
        match self.find_property(property_name) {
            Some(p) => Some(p.value_type()),
            None => None,
        }
    }

    /// Whether the interface has a property `property_name`, of the type
    /// `type_` when one is given.
    pub fn has_property(&self, property_name: &str, type_: Option<Type>) -> (r: bool)
        ensures
            r == spec_has_property(self.spec_properties(), property_name.spec_bytes(), type_),
    {
        let ptype = self.property_type(property_name);
        match (ptype, type_) {
            (None, _) => false,
            (Some(_), None) => true,
            (Some(p), Some(t)) => p == t,
        }
    }
}


/// Whether the flags `flags` let a property be set, construct-only properties
/// included when `allow_construct_only` holds.
pub open spec fn spec_property_writable(flags: u32, allow_construct_only: bool) -> bool {
    &&& flags & 2u32 == 2u32
    &&& (allow_construct_only || flags & 8u32 != 8u32)
}

/// Whether the value's type is `ancestor` or derives from it.
pub open spec fn view_is_a(v: ValueView, ancestor: Type) -> bool {
    v.type_ == ancestor || v.supertypes.contains(ancestor)
}

/// Whether a value of type object holds an object payload.
pub open spec fn well_formed_value(v: ValueView) -> bool {
    view_is_a(v, Type(80)) ==> v.data is Object
}

/// Whether a value may stand for a property or argument of type `t`: its
/// type is `t` or derives from it, or it holds no object or an object whose
/// type is `t` or derives from it.
pub open spec fn spec_type_compatible(v: ValueView, t: Type) -> bool {
    ||| view_is_a(v, t)
    ||| (view_is_a(v, Type(80)) && match v.data {
        DataView::Object(None) => true,
        DataView::Object(Some((ot, supers))) => ot == t || supers.contains(t),
        _ => false,
    })
}

/// A compatible value as it is stored for type `t`: unchanged when its type
/// already is `t` or derives from it, else given the type `t`.
pub open spec fn spec_retype(v: ValueView, t: Type) -> ValueView {
    if view_is_a(v, t) {
        v
    } else {
        ValueView { type_: t, supertypes: v.supertypes, data: v.data }
    }
}

/// Whether `x` is a Unicode scalar value: below 0x110000 and no surrogate.
pub open spec fn spec_is_unichar(x: u32) -> bool {
    x < 0x11_0000 && (x < 0xD800 || x > 0xDFFF)
}

/// Whether validation against the kind `kind` (of a property whose values
/// have type `t`) changes the payload `d`: numbers outside the range, and
/// objects whose type does not derive from `t`.
pub open spec fn spec_kind_changes(kind: ParamSpecKind, t: Type, d: DataView) -> bool {
    match (kind, d) {
        (ParamSpecKind::Char { minimum, maximum, .. }, DataView::I8(x)) => x < minimum || x > maximum,
        (ParamSpecKind::UChar { minimum, maximum, .. }, DataView::U8(x)) => x < minimum || x > maximum,
        (ParamSpecKind::Long { minimum, maximum, .. }, DataView::Long(x)) => x < minimum || x > maximum,
        (ParamSpecKind::ULong { minimum, maximum, .. }, DataView::ULong(x)) => x < minimum || x > maximum,
        (ParamSpecKind::Int { minimum, maximum, .. }, DataView::I32(x)) => x < minimum || x > maximum,
        (ParamSpecKind::UInt { minimum, maximum, .. }, DataView::U32(x)) => x < minimum || x > maximum,
        (ParamSpecKind::Int64 { minimum, maximum, .. }, DataView::I64(x)) => x < minimum || x > maximum,
        (ParamSpecKind::UInt64 { minimum, maximum, .. }, DataView::U64(x)) => x < minimum || x > maximum,
        (ParamSpecKind::Unichar { .. }, DataView::U32(x)) => !spec_is_unichar(x),
        (ParamSpecKind::Enum { members, .. }, DataView::Enum(x)) => !members@.contains(x),
        (ParamSpecKind::Flags { mask, .. }, DataView::Flags(x)) => x & mask != x,
        (ParamSpecKind::Object, DataView::Object(Some((ot, supers)))) => !(ot == t || supers.contains(t)),
        _ => false,
    }
}

/// The payload after validation against `kind`: numbers clamped into the
/// range, objects of another type dropped.
pub open spec fn spec_kind_validated(kind: ParamSpecKind, t: Type, d: DataView) -> DataView {
    match (kind, d) {
        (ParamSpecKind::Char { minimum, maximum, .. }, DataView::I8(x)) =>
            DataView::I8(if x < minimum { minimum } else if x > maximum { maximum } else { x }),
        (ParamSpecKind::UChar { minimum, maximum, .. }, DataView::U8(x)) =>
            DataView::U8(if x < minimum { minimum } else if x > maximum { maximum } else { x }),
        (ParamSpecKind::Long { minimum, maximum, .. }, DataView::Long(x)) =>
            DataView::Long(if x < minimum { minimum } else if x > maximum { maximum } else { x }),
        (ParamSpecKind::ULong { minimum, maximum, .. }, DataView::ULong(x)) =>
            DataView::ULong(if x < minimum { minimum } else if x > maximum { maximum } else { x }),
        (ParamSpecKind::Int { minimum, maximum, .. }, DataView::I32(x)) =>
            DataView::I32(if x < minimum { minimum } else if x > maximum { maximum } else { x }),
        (ParamSpecKind::UInt { minimum, maximum, .. }, DataView::U32(x)) =>
            DataView::U32(if x < minimum { minimum } else if x > maximum { maximum } else { x }),
        (ParamSpecKind::Int64 { minimum, maximum, .. }, DataView::I64(x)) =>
            DataView::I64(if x < minimum { minimum } else if x > maximum { maximum } else { x }),
        (ParamSpecKind::UInt64 { minimum, maximum, .. }, DataView::U64(x)) =>
            DataView::U64(if x < minimum { minimum } else if x > maximum { maximum } else { x }),
        (ParamSpecKind::Unichar { .. }, DataView::U32(x)) => if spec_is_unichar(x) { d } else { DataView::U32(0) },
        (ParamSpecKind::Enum { default_value, members }, DataView::Enum(x)) =>
            if members@.contains(x) { d } else { DataView::Enum(default_value) },
        (ParamSpecKind::Flags { mask, .. }, DataView::Flags(x)) => DataView::Flags(x & mask),
        (ParamSpecKind::Object, DataView::Object(Some((ot, supers)))) =>
            if ot == t || supers.contains(t) { d } else { DataView::Object(None) },
        _ => d,
    }
}

/// The kind that validates values of `p`: that of the overridden property for
/// an override.
pub open spec fn spec_validating_kind(p: ParamSpec) -> ParamSpecKind {
    match p.data().kind {
        ParamSpecKind::Override { overridden } => overridden.data().kind,
        k => k,
    }
}

/// Whether validating `v` against `p` changes it.
pub open spec fn spec_validate_changes(p: ParamSpec, v: ValueView) -> bool {
    spec_kind_changes(spec_validating_kind(p), p.data().value_type, v.data)
}

/// `v` after validation against `p`.
pub open spec fn spec_validated(p: ParamSpec, v: ValueView) -> ValueView {
    ValueView {
        type_: v.type_,
        supertypes: v.supertypes,
        data: spec_kind_validated(spec_validating_kind(p), p.data().value_type, v.data),
    }
}

/// What setting the property `p` from `v` stores, or nothing when it is
/// refused: the property must be writable, the value compatible with its
/// type, and validation may only change the value when the property is lax.
pub open spec fn spec_property_check(p: ParamSpec, allow_construct_only: bool, v: ValueView) -> Option<ValueView> {
    let t = p.data().value_type;
    let flags = p.data().flags@;
    if !spec_property_writable(flags, allow_construct_only) || !spec_type_compatible(v, t) {
        None
    } else {
        let r = spec_retype(v, t);
        if spec_validate_changes(p, r) && flags & 16u32 != 16u32 {
            None
        } else {
            Some(spec_validated(p, r))
        }
    }
}

/// A property whose flags lack the writable bit is never accepted for
/// setting, nor is a construct-only one outside construction; a value that
/// is accepted has the property's value type or a type derived from it.
pub proof fn law_only_writable_properties_accepted(p: ParamSpec, allow_construct_only: bool, v: ValueView)
    ensures
        p.data().flags@ & 2u32 != 2u32 ==> spec_property_check(p, allow_construct_only, v) is None,
        !allow_construct_only && p.data().flags@ & 8u32 == 8u32 ==> spec_property_check(p, allow_construct_only, v) is None,
        spec_property_check(p, allow_construct_only, v) matches Some(w) ==> (w.type_ == p.data().value_type
            || w.supertypes.contains(p.data().value_type)),
{
    if let Some(w) = spec_property_check(p, allow_construct_only, v) {
        let t = p.data().value_type;
        let r = spec_retype(v, t);
        assert(r.type_ == t || r.supertypes.contains(t));
    }
}

/// The value left behind by a refused check: unchanged when the property is
/// not writable or the type does not fit, else retyped and validated.
pub open spec fn spec_refused_value(p: ParamSpec, allow_construct_only: bool, v: ValueView) -> ValueView {
    let t = p.data().value_type;
    if !spec_property_writable(p.data().flags@, allow_construct_only) || !spec_type_compatible(v, t) {
        v
    } else {
        spec_validated(p, spec_retype(v, t))
    }
}

/// Validates `value` against the kind `kind`, in place; returns whether it changed.
fn validate_kind(kind: &ParamSpecKind, t: Type, value: &mut Value) -> (r: bool)
    ensures
        r == spec_kind_changes(*kind, t, old(value)@.data),
        final(value)@ == (ValueView {
            type_: old(value)@.type_,
            supertypes: old(value)@.supertypes,
            data: spec_kind_validated(*kind, t, old(value)@.data),
        }),
{
    let new_data = match (kind, value.data()) {
        (ParamSpecKind::Char { minimum, maximum, .. }, ValueData::I8(x)) => {
            if *x < *minimum || *x > *maximum {
                Some(ValueData::I8(if *x < *minimum { *minimum } else { *maximum }))
            } else {
                None
            }
        },
        (ParamSpecKind::UChar { minimum, maximum, .. }, ValueData::U8(x)) => {
            if *x < *minimum || *x > *maximum {
                Some(ValueData::U8(if *x < *minimum { *minimum } else { *maximum }))
            } else {
                None
            }
        },
        (ParamSpecKind::Long { minimum, maximum, .. }, ValueData::Long(x)) => {
            if *x < *minimum || *x > *maximum {
                Some(ValueData::Long(if *x < *minimum { *minimum } else { *maximum }))
            } else {
                None
            }
        },
        (ParamSpecKind::ULong { minimum, maximum, .. }, ValueData::ULong(x)) => {
            if *x < *minimum || *x > *maximum {
                Some(ValueData::ULong(if *x < *minimum { *minimum } else { *maximum }))
            } else {
                None
            }
        },
        (ParamSpecKind::Int { minimum, maximum, .. }, ValueData::I32(x)) => {
            if *x < *minimum || *x > *maximum {
                Some(ValueData::I32(if *x < *minimum { *minimum } else { *maximum }))
            } else {
                None
            }
        },
        (ParamSpecKind::UInt { minimum, maximum, .. }, ValueData::U32(x)) => {
            if *x < *minimum || *x > *maximum {
                Some(ValueData::U32(if *x < *minimum { *minimum } else { *maximum }))
            } else {
                None
            }
        },
        (ParamSpecKind::Int64 { minimum, maximum, .. }, ValueData::I64(x)) => {
            if *x < *minimum || *x > *maximum {
                Some(ValueData::I64(if *x < *minimum { *minimum } else { *maximum }))
            } else {
                None
            }
        },
        (ParamSpecKind::UInt64 { minimum, maximum, .. }, ValueData::U64(x)) => {
            if *x < *minimum || *x > *maximum {
                Some(ValueData::U64(if *x < *minimum { *minimum } else { *maximum }))
            } else {
                None
            }
        },
        (ParamSpecKind::Unichar { .. }, ValueData::U32(x)) => {
            if *x < 0x11_0000 && (*x < 0xD800 || *x > 0xDFFF) {
                None
            } else {
                Some(ValueData::U32(0))
            }
        },
        (ParamSpecKind::Enum { default_value, members }, ValueData::Enum(x)) => {
            if crate::enums::contains_i32(members.as_slice(), *x) {
                None
            } else {
                Some(ValueData::Enum(*default_value))
            }
        },
        (ParamSpecKind::Flags { mask, .. }, ValueData::Flags(x)) => {
            if *x & *mask != *x {
                Some(ValueData::Flags(*x & *mask))
            } else {
                None
            }
        },
        (ParamSpecKind::Object, ValueData::Object(Some(l))) => {
            if l.is_a(t) {
                None
            } else {
                Some(ValueData::Object(None))
            }
        },
        _ => None,
    };
    match new_data {
        Some(d) => {
            value.set_data(d);
            true
        },
        None => false,
    }
}

/// Validates `value` against the property `pspec`, in place; returns whether
/// it changed.
fn validate_value(pspec: &ParamSpec, value: &mut Value) -> (r: bool)
    ensures
        r == spec_validate_changes(*pspec, old(value)@),
        final(value)@ == spec_validated(*pspec, old(value)@),
{
    let t = pspec.value_type();
    match pspec.kind() {
        ParamSpecKind::Override { overridden } => validate_kind(overridden.kind(), t, value),
        k => validate_kind(k, t, value),
    }
}

/// Checks that `property_value` may be stored in the property `pspec` of an
/// object of type `type_`, and turns it into the value stored: retyped to the
/// property's type when it holds a compatible object, then validated.
pub fn validate_property_type(
    type_: Type,
    allow_construct_only: bool,
    pspec: &ParamSpec,
    property_value: &mut Value,
) -> (r: Result<(), BoolError>)
    requires
        well_formed_value(old(property_value)@),
    ensures
        r is Ok <==> spec_property_check(*pspec, allow_construct_only, old(property_value)@) is Some,
        r is Ok ==> Some(final(property_value)@) == spec_property_check(*pspec, allow_construct_only, old(property_value)@),
        r is Err ==> final(property_value)@ == spec_refused_value(*pspec, allow_construct_only, old(property_value)@),
        pspec.data().flags@ & 2u32 != 2u32 ==> r is Err,
{
    let flags = pspec.stored_flags();
    if !flags.contains(ParamFlags::writable()) || (!allow_construct_only && flags.contains(
        ParamFlags::construct_only(),
    )) {
        return Err(BoolError::with_name("property '", pspec.name(), "' is not writable"));
    }
    let t = pspec.value_type();
    let valid_type = property_value.type_is_a(t);
    if !valid_type && property_value.type_is_a(Type::object()) {
        let object_fits = match property_value.data() {
            ValueData::Object(Some(l)) => l.is_a(t),
            ValueData::Object(None) => true,
            _ => false,
        };
        if object_fits {
            property_value.retype(t);
        } else {
            return Err(BoolError::with_name("property '", pspec.name(), "' can't be set from the given object type"));
        }
    } else if !valid_type {
        return Err(BoolError::with_name("property '", pspec.name(), "' can't be set from the given type"));
    }
    let changed = validate_value(pspec, property_value);
    let change_allowed = flags.contains(ParamFlags::lax_validation());
    if changed && !change_allowed {
        return Err(BoolError::with_name("property '", pspec.name(), "' can't be set from given value, it is invalid or out of range"));
    }
    Ok(())
}


/// The property whose name is exactly `name`, if any.
pub open spec fn spec_find_exact(props: Seq<ParamSpec>, name: Seq<u8>) -> Option<ParamSpec> {
    if exists|i: int| first_named(props, name, i) {
        Some(props[choose|i: int| first_named(props, name, i)])
    } else {
        None
    }
}

/// What setting stores for one `(name, value)` pair: the property named
/// exactly `name` must exist and accept the value (construct-only properties
/// included when `allow_construct_only` holds).
pub open spec fn spec_checked_param(props: Seq<ParamSpec>, name: Seq<u8>, v: ValueView, allow_construct_only: bool) -> Option<(Seq<char>, ValueView)> {
    match spec_find_exact(props, name) {
        Some(p) => match spec_property_check(p, allow_construct_only, v) {
            Some(stored) => Some((p.data().name@, stored)),
            None => None,
        },
        None => None,
    }
}

/// What construction stores for one `(name, value)` pair: construct-only
/// properties may be set.
pub open spec fn spec_construct_param(props: Seq<ParamSpec>, name: Seq<u8>, v: ValueView) -> Option<(Seq<char>, ValueView)> {
    spec_checked_param(props, name, v, true)
}

/// Whether every pair is accepted.
pub open spec fn spec_all_checked(props: Seq<ParamSpec>, names: Seq<Seq<u8>>, values: Seq<ValueView>, allow_construct_only: bool) -> bool {
    forall|i: int| 0 <= i < names.len() ==> (#[trigger] spec_checked_param(props, names[i], values[i], allow_construct_only)) is Some
}

/// Whether every pair is accepted at construction.
pub open spec fn spec_all_accepted(props: Seq<ParamSpec>, names: Seq<Seq<u8>>, values: Seq<ValueView>) -> bool {
    spec_all_checked(props, names, values, true)
}

/// The names and values of construction pairs.
pub open spec fn pair_names(properties: Seq<(&str, Value)>) -> Seq<Seq<u8>> {
    properties.map_values(|p: (&str, Value)| p.0.spec_bytes())
}

/// The values of construction pairs.
pub open spec fn pair_values(properties: Seq<(&str, Value)>) -> Seq<ValueView> {
    properties.map_values(|p: (&str, Value)| p.1@)
}


/// Finds the property named exactly `name`.
fn find_exact(props: &[ParamSpec], name: &str) -> (r: Option<ParamSpec>)
    ensures
        r == spec_find_exact(props@, name.spec_bytes()),
{
    match position_of(props, name.as_bytes()) {
        Some(i) => {
            proof {
                let k = choose|k: int| first_named(props@, name.spec_bytes(), k);
                lemma_first_named_unique(props@, name.spec_bytes(), i as int, k);
            }
            Some(props[i].clone())
        },
        None => {
            assert(!exists|i: int| first_named(props@, name.spec_bytes(), i));
            None
        },
    }
}

/// The inline buffer (a `smallvec::SmallVec` of ten inline items) that
/// collects the parameters of a construction or of a setting of several
/// properties. Verus does not read inside it; what it holds is named by
/// `param_buffer_items`.
#[verifier::external_body]
#[derive(Debug)]
pub struct ParamBuffer {
    items: SmallVec<[(String, Value); 10]>,
}

/// The views of the `(name, value)` pairs a parameter buffer holds, in order.
pub uninterp spec fn param_buffer_items(v: ParamBuffer) -> Seq<(Seq<char>, ValueView)>;

/// `SmallVec::new`: an empty buffer.
#[verifier::external_body]
fn param_buffer_new() -> (r: ParamBuffer)
    ensures
        param_buffer_items(r) == Seq::<(Seq<char>, ValueView)>::empty(),
{
    ParamBuffer { items: SmallVec::new() }
}

/// `SmallVec::push`: appends `item` at the end; the length must leave room
/// for one more item. Like every growing collection, `push` panics or aborts
/// when the new capacity's byte size overflows or memory runs out; the
/// length bound here does not rule those out.
#[verifier::external_body]
fn param_buffer_push(v: &mut ParamBuffer, item: (String, Value))
    requires
        param_buffer_items(*old(v)).len() < usize::MAX,
    ensures
        param_buffer_items(*final(v)) == param_buffer_items(*old(v)).push((item.0@, item.1@)),
{
    v.items.push(item)
}

/// `SmallVec::len`: the number of pairs.
#[verifier::external_body]
fn param_buffer_len(v: &ParamBuffer) -> (r: usize)
    ensures
        r == param_buffer_items(*v).len(),
{
    v.items.len()
}

/// `SmallVec::as_slice`: the pairs, in order.
#[verifier::external_body]
fn param_buffer_as_slice(v: &ParamBuffer) -> (r: &[(String, Value)])
    ensures
        entries_view(r@) == param_buffer_items(*v),
{
    v.items.as_slice()
}

impl ParamBuffer {
    /// The number of pairs.
    pub fn len(&self) -> (r: usize)
        ensures
            r == param_buffer_items(*self).len(),
    {
        param_buffer_len(self)
    }

    /// Whether there is no pair.
    pub fn is_empty(&self) -> (r: bool)
        ensures
            r == (param_buffer_items(*self).len() == 0),
    {
        param_buffer_len(self) == 0
    }

    /// The pairs, in order.
    pub fn as_slice(&self) -> (r: &[(String, Value)])
        ensures
            entries_view(r@) == param_buffer_items(*self),
    {
        param_buffer_as_slice(self)
    }
}

/// Checks `(name, value)` pairs against the properties `props` of a class of
/// type `type_` and returns the parameters to set: for each pair, the
/// property's name and the value as stored. The first pair that names no
/// property, or whose value the property refuses, makes the whole setting
/// fail; construct-only properties are accepted when `allow_construct_only`
/// holds.
pub fn checked_params(type_: Type, props: &[ParamSpec], properties: &[(&str, Value)], allow_construct_only: bool) -> (r: Result<ParamBuffer, BoolError>)
    requires
        forall|i: int| 0 <= i < properties.len() ==> well_formed_value(#[trigger] properties@[i].1@),
    ensures
        r is Ok <==> spec_all_checked(props@, pair_names(properties@), pair_values(properties@), allow_construct_only),
        r matches Ok(params) ==> param_buffer_items(params).len() == properties@.len() && forall|i: int|
            0 <= i < properties@.len() ==> Some(#[trigger] param_buffer_items(params)[i]) == spec_checked_param(
                props@,
                properties@[i].0.spec_bytes(),
                properties@[i].1@,
                allow_construct_only,
            ),
{
    let mut params = param_buffer_new();
    let mut i: usize = 0;
    while i < properties.len()
        invariant
            i <= properties@.len(),
            param_buffer_items(params).len() == i,
            forall|j: int| 0 <= j < properties@.len() ==> well_formed_value(#[trigger] properties@[j].1@),
            forall|j: int|
                0 <= j < i ==> Some(#[trigger] param_buffer_items(params)[j]) == spec_checked_param(
                    props@,
                    properties@[j].0.spec_bytes(),
                    properties@[j].1@,
                    allow_construct_only,
                ),
        decreases properties@.len() - i,
    {
        let name = properties[i].0;
        let pspec = match find_exact(props, name) {
            Some(p) => p,
            None => {
                assert(pair_names(properties@)[i as int] == name.spec_bytes());
                assert(spec_checked_param(props@, pair_names(properties@)[i as int], pair_values(properties@)[i as int], allow_construct_only) is None);
                return Err(BoolError::with_name("Can't find property '", name, "'"));
            },
        };
        let mut value = properties[i].1.copy();
        match validate_property_type(type_, allow_construct_only, &pspec, &mut value) {
            Ok(()) => {},
            Err(e) => {
                assert(pair_names(properties@)[i as int] == name.spec_bytes());
                assert(spec_checked_param(props@, pair_names(properties@)[i as int], pair_values(properties@)[i as int], allow_construct_only) is None);
                return Err(e);
            },
        }
        let pname = String::from_str(pspec.name());
        let ghost prev = param_buffer_items(params);
        param_buffer_push(&mut params, (pname, value));
        i = i + 1;
        assert forall|j: int| 0 <= j < i implies Some(#[trigger] param_buffer_items(params)[j]) == spec_checked_param(
                props@,
                properties@[j].0.spec_bytes(),
                properties@[j].1@,
                allow_construct_only,
            ) by {
            if j < i - 1 {
                assert(param_buffer_items(params)[j] == prev[j]);
            }
        };
    }
    assert(spec_all_checked(props@, pair_names(properties@), pair_values(properties@), allow_construct_only)) by {
        assert forall|j: int| 0 <= j < pair_names(properties@).len() implies (#[trigger] spec_checked_param(
            props@,
            pair_names(properties@)[j],
            pair_values(properties@)[j],
            allow_construct_only,
        )) is Some by {
            assert(param_buffer_items(params)[j] == param_buffer_items(params)[j]);
        };
    };
    Ok(params)
}


/// Checks `(name, value)` pairs for the construction of an instance of a
/// class of type `type_` with the properties `props`; construct-only
/// properties may be set.
pub fn construct_params(type_: Type, props: &[ParamSpec], properties: &[(&str, Value)]) -> (r: Result<ParamBuffer, BoolError>)
    requires
        forall|i: int| 0 <= i < properties.len() ==> well_formed_value(#[trigger] properties@[i].1@),
    ensures
        r is Ok <==> spec_all_accepted(props@, pair_names(properties@), pair_values(properties@)),
        r matches Ok(params) ==> param_buffer_items(params).len() == properties@.len() && forall|i: int|
            0 <= i < properties@.len() ==> Some(#[trigger] param_buffer_items(params)[i]) == spec_construct_param(
                props@,
                properties@[i].0.spec_bytes(),
                properties@[i].1@,
            ),
{
    checked_params(type_, props, properties, true)
}

/// What setting the property found for `name` (as `find_property` finds it)
/// from `v` stores on an existing instance, where construct-only properties
/// cannot be set: the property and the value stored.
pub open spec fn spec_set_param(props: Seq<ParamSpec>, name: Seq<u8>, v: ValueView) -> Option<(ParamSpec, ValueView)> {
    match spec_find(props, name) {
        Some(p) => match spec_property_check(p, false, v) {
            Some(stored) => Some((p, stored)),
            None => None,
        },
        None => None,
    }
}

/// Checks the setting of the property `property_name` of an instance of
/// `class` from `value`, and returns the property and the value to store.
pub fn prepare_set_property<T>(class: &Class<T>, property_name: &str, value: &Value) -> (r: Result<(ParamSpec, Value), BoolError>)
    requires
        well_formed_value(value@),
    ensures
        r is Ok <==> spec_set_param(class.spec_properties(), property_name.spec_bytes(), value@) is Some,
        r matches Ok((p, v)) ==> spec_set_param(class.spec_properties(), property_name.spec_bytes(), value@) == Some((p, v@)),
{
    let pspec = match class.find_property(property_name) {
        Some(p) => p,
        None => {
            return Err(BoolError::with_name("property '", property_name, "' not found"));
        },
    };
    let mut v = value.copy();
    match validate_property_type(class.type_(), false, &pspec, &mut v) {
        Ok(()) => Ok((pspec, v)),
        Err(e) => Err(e),
    }
}

/// Checks the setting of several properties of an instance of `class` at
/// once, by exact names; construct-only properties cannot be set. Either
/// every pair is accepted, or nothing is to be set.
pub fn prepare_set_properties<T>(class: &Class<T>, properties: &[(&str, Value)]) -> (r: Result<ParamBuffer, BoolError>)
    requires
        forall|i: int| 0 <= i < properties.len() ==> well_formed_value(#[trigger] properties@[i].1@),
    ensures
        r is Ok <==> spec_all_checked(class.spec_properties(), pair_names(properties@), pair_values(properties@), false),
        r matches Ok(params) ==> param_buffer_items(params).len() == properties@.len() && forall|i: int|
            0 <= i < properties@.len() ==> Some(#[trigger] param_buffer_items(params)[i]) == spec_checked_param(
                class.spec_properties(),
                properties@[i].0.spec_bytes(),
                properties@[i].1@,
                false,
            ),
{
    checked_params(class.type_(), class.list_properties(), properties, false)
}

/// The property found for `name` that may be read: it must exist and be
/// readable.
pub open spec fn spec_readable_property(props: Seq<ParamSpec>, name: Seq<u8>) -> Option<ParamSpec> {
    match spec_find(props, name) {
        Some(p) => if p.data().flags@ & 1u32 == 1u32 {
            Some(p)
        } else {
            None
        },
        None => None,
    }
}

/// Checks the reading of the property `property_name` of an instance of
/// `class`, and returns the property to read.
pub fn prepare_get_property<T>(class: &Class<T>, property_name: &str) -> (r: Result<ParamSpec, BoolError>)
    ensures
        match spec_readable_property(class.spec_properties(), property_name.spec_bytes()) {
            Some(p) => r == Ok::<ParamSpec, BoolError>(p),
            None => r is Err,
        },
{
    let pspec = match class.find_property(property_name) {
        Some(p) => p,
        None => {
            return Err(BoolError::with_name("property '", property_name, "' not found"));
        },
    };
    if !pspec.stored_flags().contains(ParamFlags::readable()) {
        return Err(BoolError::with_name("property '", property_name, "' is not readable"));
    }
    Ok(pspec)
}

/// The value stored under `key` in `entries`: the one of the last entry with
/// that key.
pub open spec fn spec_lookup(entries: Seq<(Seq<char>, ValueView)>, key: Seq<char>) -> Option<ValueView>
    decreases entries.len(),
{
    if entries.len() == 0 {
        None
    } else if entries.last().0 == key {
        Some(entries.last().1)
    } else {
        spec_lookup(entries.drop_last(), key)
    }
}

/// The entries of a data store.
pub open spec fn entries_view(entries: Seq<(String, Value)>) -> Seq<(Seq<char>, ValueView)> {
    entries.map_values(|e: (String, Value)| (e.0@, e.1@))
}

/// The entries that are not stored under `key`.
pub open spec fn without_key(entries: Seq<(Seq<char>, ValueView)>, key: Seq<char>) -> Seq<(Seq<char>, ValueView)> {
    entries.filter(|e: (Seq<char>, ValueView)| e.0 != key)
}

proof fn lemma_without_key_push(s: Seq<(Seq<char>, ValueView)>, key: Seq<char>, x: (Seq<char>, ValueView))
    ensures
        without_key(s.push(x), key) == if x.0 != key {
            without_key(s, key).push(x)
        } else {
            without_key(s, key)
        },
{
    reveal(Seq::filter);
    assert(s.push(x).drop_last() =~= s);
    assert(s.push(x).last() == x);
}

proof fn lemma_lookup_push(s: Seq<(Seq<char>, ValueView)>, x: (Seq<char>, ValueView), k: Seq<char>)
    ensures
        spec_lookup(s.push(x), k) == if x.0 == k {
            Some(x.1)
        } else {
            spec_lookup(s, k)
        },
{
    assert(s.push(x).last() == x);
    assert(s.push(x).drop_last() =~= s);
}

proof fn lemma_lookup_filter(entries: Seq<(Seq<char>, ValueView)>, key: Seq<char>, other: Seq<char>)
    ensures
        spec_lookup(without_key(entries, key), other) == if other == key {
            None
        } else {
            spec_lookup(entries, other)
        },
    decreases entries.len(),
{
    if entries.len() == 0 {
        reveal(Seq::filter);
        assert(without_key(entries, key) =~= Seq::<(Seq<char>, ValueView)>::empty());
    } else {
        let init = entries.drop_last();
        let last = entries.last();
        assert(init.push(last) =~= entries);
        lemma_lookup_filter(init, key, other);
        lemma_without_key_push(init, key, last);
        lemma_lookup_push(init, last, other);
        if last.0 != key {
            lemma_lookup_push(without_key(init, key), last, other);
        }
    }
}

/// Data attached under a key reads back as what was attached: storing under
/// `key` appends an entry after dropping the earlier ones with that key, and
/// a lookup then finds the new entry; a string attached reads back as that
/// string. After the entries with `key` are dropped, nothing is found under
/// `key`, and every other key still finds what it found before.
pub proof fn law_data_read_after_write(data: Seq<(Seq<char>, ValueView)>, key: Seq<char>, other: Seq<char>, s: String)
    ensures
        spec_lookup(without_key(data, key).push((key, s.spec_to_value())), key) == Some(s.spec_to_value()),
        <String as FromValue>::spec_from_value(s.spec_to_value()) == Some(s@),
        spec_lookup(without_key(data, key), key) is None,
        other != key ==> spec_lookup(without_key(data, key).push((key, s.spec_to_value())), other)
            == spec_lookup(data, other),
{
    lemma_lookup_push(without_key(data, key), (key, s.spec_to_value()), key);
    lemma_lookup_push(without_key(data, key), (key, s.spec_to_value()), other);
    lemma_lookup_filter(data, key, key);
    lemma_lookup_filter(data, key, other);
}

/// Whether the type of the class is instantiable: an object type that can be
/// instantiated and is not abstract.
pub open spec fn spec_instantiable<T>(class: &Class<T>) -> bool {
    &&& (class.spec_type() == Type(80) || class.spec_supertypes().contains(Type(80)))
    &&& class.spec_instantiatable()
    &&& !class.spec_abstract()
}

/// Checks that instances of the class can be created.
pub fn check_instantiable<T>(class: &Class<T>) -> (r: Result<(), BoolError>)
    ensures
        r is Ok <==> spec_instantiable(class),
{
    if !class.lineage.is_a(Type::object()) {
        return Err(BoolError::new("Can't instantiate non-GObject type"));
    }
    if !class.instantiatable {
        return Err(BoolError::new("Can't instantiate type"));
    }
    if class.is_abstract {
        return Err(BoolError::new("Can't instantiate abstract type"));
    }
    Ok(())
}

/// An instance of an object type: the lineage of its type, the properties it
/// was constructed with, and the data attached to it under string keys.
///
/// Handles made by `clone` refer to the same instance: they share its
/// identity, type and construction properties, and compare equal. Each handle
/// carries its own copy of the attached data, taken when it was cloned.
#[derive(Debug)]
pub struct Object {
    instance: Rc<ObjectInstance>,
    id: usize,
    data: Vec<(String, Value)>,
}

/// What an instance is made of once created.
#[derive(Debug)]
struct ObjectInstance {
    lineage: TypeLineage,
    construct_properties: ParamBuffer,
}

/// The address of the allocation `rc` points to (`Rc::as_ptr`). No other
/// live allocation has it; nothing is stated of its value, which is wherever
/// the allocator placed the allocation.
#[verifier::external_body]
fn rc_address<T>(rc: &Rc<T>) -> usize {
    Rc::as_ptr(rc).addr()
}

/// A copy of the entries of a data store.
fn copy_entries(entries: &Vec<(String, Value)>) -> (r: Vec<(String, Value)>)
    ensures
        entries_view(r@) == entries_view(entries@),
{
    let mut r: Vec<(String, Value)> = Vec::new();
    let mut i: usize = 0;
    while i < entries.len()
        invariant
            i <= entries@.len(),
            entries_view(r@) == entries_view(entries@).subrange(0, i as int),
        decreases entries@.len() - i,
    {
        let k = entries[i].0.clone();
        let v = entries[i].1.copy();
        let ghost prev = r@;
        r.push((k, v));
        assert(entries_view(r@) =~= entries_view(prev).push(entries_view(entries@)[i as int]));
        assert(entries_view(entries@).subrange(0, i + 1) =~= entries_view(entries@).subrange(0, i as int).push(
            entries_view(entries@)[i as int],
        ));
        i = i + 1;
    }
    assert(entries_view(entries@).subrange(0, entries@.len() as int) =~= entries_view(entries@));
    r
}

impl<T> Class<T> {
    /// The class of the base object type: instantiable, not abstract, with no
    /// property.
    pub fn object_class() -> (r: Class<T>)
        ensures
            r.spec_type() == Type(80),
            r.spec_supertypes() == Seq::<Type>::empty(),
            r.spec_instantiatable(),
            !r.spec_abstract(),
            r.spec_properties() == Seq::<ParamSpec>::empty(),
    {
        Class::new(TypeLineage::fundamental(Type::object()), true, false, Vec::new())
    }
}

/// The class of the base object type.
pub type ObjectClass = Class<Object>;

impl View for Object {
    type V = usize;

    /// The identity of the instance the handle refers to.
    closed spec fn view(&self) -> usize {
        self.id
    }
}

impl Object {
    /// The type of the object.
    pub closed spec fn spec_type(&self) -> Type {
        self.instance.lineage.type_()
    }

    /// The types the type of the object derives from.
    pub closed spec fn spec_supertypes(&self) -> Seq<Type> {
        self.instance.lineage.supertypes()
    }

    /// The properties the object was constructed with.
    pub closed spec fn spec_construct_properties(&self) -> Seq<(Seq<char>, ValueView)> {
        param_buffer_items(self.instance.construct_properties)
    }

    /// A handle on a new instance of the lineage `lineage`.
    fn from_parts(lineage: TypeLineage, construct_properties: ParamBuffer) -> (r: Object)
        ensures
            r.spec_type() == lineage.type_(),
            r.spec_supertypes() == lineage.supertypes(),
            r.spec_construct_properties() == param_buffer_items(construct_properties),
            r.spec_data() == Seq::<(Seq<char>, ValueView)>::empty(),
    {
        let instance = Rc::new(ObjectInstance { lineage, construct_properties });
        let id = rc_address(&instance);
        let o = Object { instance, id, data: Vec::new() };
        assert(o.spec_data() =~= Seq::<(Seq<char>, ValueView)>::empty());
        o
    }

    /// The data attached to the object.
    pub closed spec fn spec_data(&self) -> Seq<(Seq<char>, ValueView)> {
        entries_view(self.data@)
    }

    /// Creates an instance of the class `class` with the given properties.
    /// It fails when a pair names no property of the class or its value is
    /// refused, or when the class cannot be instantiated.
    pub fn with_values<T>(class: &Class<T>, properties: &[(&str, Value)]) -> (r: Result<Object, BoolError>)
        requires
            forall|i: int| 0 <= i < properties.len() ==> well_formed_value(#[trigger] properties@[i].1@),
        ensures
            r is Ok <==> (spec_all_accepted(class.spec_properties(), pair_names(properties@), pair_values(properties@))
                && spec_instantiable(class)),
            r matches Ok(o) ==> {
                &&& o.spec_type() == class.spec_type()
                &&& o.spec_supertypes() == class.spec_supertypes()
                &&& o.spec_data() == Seq::<(Seq<char>, ValueView)>::empty()
                &&& o.spec_construct_properties().len() == properties@.len()
                &&& forall|i: int| 0 <= i < properties@.len() ==> Some(#[trigger] o.spec_construct_properties()[i])
                    == spec_construct_param(class.spec_properties(), properties@[i].0.spec_bytes(), properties@[i].1@)
            },
    {
        let params = construct_params(class.type_(), class.list_properties(), properties)?;
        check_instantiable(class)?;
        Ok(Object::from_parts(copy_lineage(&class.lineage), params))
    }

    /// Creates an instance of the base object type, which has no property:
    /// it succeeds exactly when no property is given.
    pub fn new(properties: &[(&str, Value)]) -> (r: Result<Object, BoolError>)
        requires
            forall|i: int| 0 <= i < properties.len() ==> well_formed_value(#[trigger] properties@[i].1@),
        ensures
            r is Ok <==> properties@.len() == 0,
            r matches Ok(o) ==> o.spec_type() == Type(80) && o.spec_data() == Seq::<(Seq<char>, ValueView)>::empty(),
    {
        let class: ObjectClass = Class::object_class();
        let r = Object::with_values(&class, properties);
        proof {
            if properties@.len() > 0 {
                assert(spec_construct_param(class.spec_properties(), pair_names(properties@)[0], pair_values(properties@)[0]) is None);
            }
        }
        r
    }

    /// A builder of an instance of the type of `O`.
    pub fn builder<'a, O: StaticType>() -> (r: ObjectBuilder<'a, O>)
        ensures
            r.spec_type() == O::spec_static_type(),
            r.spec_names() == Seq::<Seq<u8>>::empty(),
            r.spec_values() == Seq::<ValueView>::empty(),
    {
        ObjectBuilder::new(O::static_type())
    }

    /// A builder of an instance of the type `type_`.
    pub fn builder_with_type<'a>(type_: Type) -> (r: ObjectBuilder<'a, Object>)
        ensures
            r.spec_type() == type_,
            r.spec_names() == Seq::<Seq<u8>>::empty(),
            r.spec_values() == Seq::<ValueView>::empty(),
    {
        ObjectBuilder::new(type_)
    }

    /// The type of the object.
    pub fn type_(&self) -> (r: Type)
        ensures
            r == self.spec_type(),
    {
        self.instance.lineage.get_type()
    }

    /// Whether the object's type is `t` or derives from it.
    pub fn is_a(&self, t: Type) -> (r: bool)
        ensures
            r == (self.spec_type() == t || self.spec_supertypes().contains(t)),
    {
        self.instance.lineage.is_a(t)
    }

    /// The lineage of the object's type.
    pub fn lineage(&self) -> (r: TypeLineage)
        ensures
            r.type_() == self.spec_type(),
            r.supertypes() == self.spec_supertypes(),
    {
        copy_lineage(&self.instance.lineage)
    }

    /// Removes the data stored under `key`, returning it.
    fn take_data(&mut self, key: &String) -> (r: Option<Value>)
        ensures
            opt_value_view(r) == spec_lookup(old(self).spec_data(), key@),
            final(self).spec_data() == without_key(old(self).spec_data(), key@),
            final(self).spec_type() == old(self).spec_type(),
            final(self).spec_supertypes() == old(self).spec_supertypes(),
            final(self).spec_construct_properties() == old(self).spec_construct_properties(),
    {
        let found = self.data_lookup(key);
        let mut kept: Vec<(String, Value)> = Vec::new();
        let mut i: usize = 0;
        while i < self.data.len()
            invariant
                i <= self.data@.len(),
                entries_view(kept@) == without_key(entries_view(self.data@).subrange(0, i as int), key@),
            decreases self.data@.len() - i,
        {
            let ghost before = entries_view(self.data@).subrange(0, i as int);
            proof {
                lemma_without_key_push(before, key@, entries_view(self.data@)[i as int]);
                assert(entries_view(self.data@).subrange(0, i + 1) =~= before.push(
                    entries_view(self.data@)[i as int],
                ));
            }
            if !(self.data[i].0 == *key) {
                let k = self.data[i].0.clone();
                let v = self.data[i].1.copy();
                let ghost prev = kept@;
                kept.push((k, v));
                assert(entries_view(kept@) =~= entries_view(prev).push(
                    entries_view(self.data@)[i as int],
                ));
            }
            i = i + 1;
        }
        assert(entries_view(self.data@).subrange(0, self.data@.len() as int) =~= entries_view(
            self.data@,
        ));
        assert(entries_view(kept@) == without_key(entries_view(self.data@), key@));
        self.data = kept;
        found
    }

    /// A copy of the data stored under `key`.
    fn data_lookup(&self, key: &String) -> (r: Option<Value>)
        ensures
            opt_value_view(r) == spec_lookup(self.spec_data(), key@),
    {
        let mut i: usize = self.data.len();
        assert(self.spec_data().subrange(0, i as int) =~= self.spec_data());
        while i > 0
            invariant
                i <= self.data@.len(),
                spec_lookup(self.spec_data(), key@) == spec_lookup(
                    self.spec_data().subrange(0, i as int),
                    key@,
                ),
            decreases i,
        {
            let ghost prefix = self.spec_data().subrange(0, i as int);
            assert(prefix.drop_last() =~= self.spec_data().subrange(0, i - 1));
            if self.data[i - 1].0 == *key {
                return Some(self.data[i - 1].1.copy());
            }
            i = i - 1;
        }
        None
    }

    /// Attaches `value` to the object under `key`, replacing what was stored
    /// under it.
    pub fn set_data<V: ToValue>(&mut self, key: &str, value: V)
        ensures
            forall|k: Seq<char>|
                #![trigger spec_lookup(final(self).spec_data(), k)]
                spec_lookup(final(self).spec_data(), k) == if k == key@ {
                    Some(value.spec_to_value())
                } else {
                    spec_lookup(old(self).spec_data(), k)
                },
            final(self).spec_type() == old(self).spec_type(),
            final(self).spec_supertypes() == old(self).spec_supertypes(),
    {
        let k = String::from_str(key);
        let _ = self.take_data(&k);
        let ghost mid = self.spec_data();
        let v = value.to_value();
        self.data.push((k, v));
        proof {
            assert forall|other: Seq<char>| #![trigger spec_lookup(self.spec_data(), other)]
                spec_lookup(self.spec_data(), other) == if other == key@ {
                    Some(value.spec_to_value())
                } else {
                    spec_lookup(old(self).spec_data(), other)
                } by {
                assert(self.spec_data() =~= mid.push((k@, value.spec_to_value())));
                lemma_lookup_push(mid, (k@, value.spec_to_value()), other);
                lemma_lookup_filter(old(self).spec_data(), key@, other);
            }
        }
    }

    /// The data stored under `key`, read as a `V`; nothing when no data is
    /// stored there or it is not a `V`.
    pub fn data<V: FromValue>(&self, key: &str) -> (r: Option<V>)
        ensures
            opt_v(r) == match spec_lookup(self.spec_data(), key@) {
                Some(v) => V::spec_from_value(v),
                None => None,
            },
    {
        let k = String::from_str(key);
        match self.data_lookup(&k) {
            Some(v) => V::from_value(&v),
            None => None,
        }
    }

    /// Removes the data stored under `key` and returns it, read as a `V`.
    pub fn steal_data<V: FromValue>(&mut self, key: &str) -> (r: Option<V>)
        ensures
            opt_v(r) == match spec_lookup(old(self).spec_data(), key@) {
                Some(v) => V::spec_from_value(v),
                None => None,
            },
            forall|k: Seq<char>|
                #![trigger spec_lookup(final(self).spec_data(), k)]
                spec_lookup(final(self).spec_data(), k) == if k == key@ {
                    None
                } else {
                    spec_lookup(old(self).spec_data(), k)
                },
            final(self).spec_type() == old(self).spec_type(),
            final(self).spec_supertypes() == old(self).spec_supertypes(),
    {
        let k = String::from_str(key);
        let taken = self.take_data(&k);
        proof {
            assert forall|other: Seq<char>| #![trigger spec_lookup(self.spec_data(), other)]
                spec_lookup(self.spec_data(), other) == if other == key@ {
                    None
                } else {
                    spec_lookup(old(self).spec_data(), other)
                } by {
                lemma_lookup_filter(old(self).spec_data(), key@, other);
            }
        }
        match taken {
            Some(v) => V::from_value(&v),
            None => None,
        }
    }
}

/// The view of an optional value.
pub open spec fn opt_value_view(o: Option<Value>) -> Option<ValueView> {
    match o {
        Some(v) => Some(v@),
        None => None,
    }
}


impl Clone for Object {
    /// Another handle on the same instance, with a copy of the data
    /// attached so far.
    fn clone(&self) -> (r: Object)
        ensures
            r@ == self@,
            r.spec_type() == self.spec_type(),
            r.spec_supertypes() == self.spec_supertypes(),
            r.spec_construct_properties() == self.spec_construct_properties(),
            r.spec_data() == self.spec_data(),
    {
        Object { instance: rc_share(&self.instance), id: self.id, data: copy_entries(&self.data) }
    }
}

impl PartialEq for Object {
    /// Whether the handles refer to the same instance.
    fn eq(&self, other: &Object) -> (r: bool) {
        self.id == other.id
    }
}

impl vstd::std_specs::cmp::PartialEqSpecImpl for Object {
    open spec fn obeys_eq_spec() -> bool {
        true
    }

    open spec fn eq_spec(&self, other: &Object) -> bool {
        self@ == other@
    }
}

impl StaticType for Object {
    open spec fn spec_static_type() -> Type {
        Type(80)
    }

    open spec fn spec_static_is_a(ancestor: Type) -> bool {
        ancestor == Type(80)
    }

    fn static_type() -> (r: Type) {
        Type::object()
    }
}

/// Collects `(name, value)` pairs to create an instance of a type with.
pub struct ObjectBuilder<'a, O> {
    type_: Type,
    properties: Vec<(&'a str, Value)>,
    phantom: PhantomData<O>,
}

impl<'a, O> ObjectBuilder<'a, O> {
    #[verifier::type_invariant]
    spec fn values_well_formed(self) -> bool {
        forall|i: int| 0 <= i < self.properties@.len() ==> well_formed_value(#[trigger] self.properties@[i].1@)
    }

    /// The type of the instance to create.
    pub closed spec fn spec_type(&self) -> Type {
        self.type_
    }

    /// The names given so far, in order.
    pub closed spec fn spec_names(&self) -> Seq<Seq<u8>> {
        pair_names(self.properties@)
    }

    /// The values given so far, in order.
    pub closed spec fn spec_values(&self) -> Seq<ValueView> {
        pair_values(self.properties@)
    }

    fn new(type_: Type) -> (r: Self)
        ensures
            r.spec_type() == type_,
            r.spec_names() == Seq::<Seq<u8>>::empty(),
            r.spec_values() == Seq::<ValueView>::empty(),
    {
        let r = ObjectBuilder { type_, properties: Vec::new(), phantom: PhantomData };
        assert(pair_names(r.properties@) =~= Seq::<Seq<u8>>::empty());
        assert(pair_values(r.properties@) =~= Seq::<ValueView>::empty());
        r
    }

    /// Adds the pair `(name, value)`.
    pub fn property<V: ToValue>(self, name: &'a str, value: V) -> (r: Self)
        ensures
            r.spec_type() == self.spec_type(),
            r.spec_names() == self.spec_names().push(name.spec_bytes()),
            r.spec_values() == self.spec_values().push(value.spec_to_value()),
    {
        proof {
            use_type_invariant(&self);
        }
        let ObjectBuilder { type_, mut properties, phantom } = self;
        let ghost prev = properties@;
        let v = value.to_value();
        properties.push((name, v));
        assert(pair_names(properties@) =~= pair_names(prev).push(name.spec_bytes()));
        assert(pair_values(properties@) =~= pair_values(prev).push(value.spec_to_value()));
        ObjectBuilder { type_, properties, phantom }
    }

    /// Creates the instance from the class of its type, `class`, with the
    /// pairs given so far. It fails when `class` is the class of another
    /// type, when a pair names no property of the class or its value is
    /// refused, or when the class cannot be instantiated.
    pub fn build(self, class: &Class<O>) -> (r: Result<Object, BoolError>)
        ensures
            r is Ok <==> (class.spec_type() == self.spec_type()
                && spec_all_accepted(class.spec_properties(), self.spec_names(), self.spec_values())
                && spec_instantiable(class)),
            r matches Ok(o) ==> {
                &&& o.spec_type() == self.spec_type()
                &&& o.spec_supertypes() == class.spec_supertypes()
                &&& o.spec_data() == Seq::<(Seq<char>, ValueView)>::empty()
                &&& o.spec_construct_properties().len() == self.spec_names().len()
                &&& forall|i: int| 0 <= i < self.spec_names().len() ==> Some(#[trigger] o.spec_construct_properties()[i])
                    == spec_construct_param(class.spec_properties(), self.spec_names()[i], self.spec_values()[i])
            },
    {
        proof {
            use_type_invariant(&self);
        }
        if class.type_() != self.type_ {
            return Err(BoolError::new("Can't retrieve class for type"));
        }
        Object::with_values(class, self.properties.as_slice())
    }
}

/// What the type system reports of a signal: its name and the types of its
/// parameters.
#[derive(Debug)]
pub struct SignalQuery {
    signal_name: String,
    param_types: Vec<Type>,
}

impl SignalQuery {
    /// The name of the signal.
    pub closed spec fn spec_signal_name(&self) -> Seq<char> {
        self.signal_name@
    }

    /// The types of the parameters.
    pub closed spec fn spec_param_types(&self) -> Seq<Type> {
        self.param_types@
    }

    /// A query result with the given name and parameter types.
    pub fn new(signal_name: String, param_types: Vec<Type>) -> (r: SignalQuery)
        requires
            param_types@.len() <= u32::MAX,
        ensures
            r.spec_signal_name() == signal_name@,
            r.spec_param_types() == param_types@,
    {
        SignalQuery { signal_name, param_types }
    }

    /// The name of the signal.
    pub fn signal_name(&self) -> (r: &str)
        ensures
            r@ == self.spec_signal_name(),
    {
        self.signal_name.as_str()
    }

    /// The number of parameters.
    pub fn n_params(&self) -> (r: u32)
        ensures
            r == self.spec_param_types().len(),
    {
        proof {
            use_type_invariant(self);
        }
        self.param_types.len() as u32
    }

    /// The types of the parameters.
    pub fn param_types(&self) -> (r: &[Type])
        ensures
            r@ == self.spec_param_types(),
    {
        self.param_types.as_slice()
    }

    #[verifier::type_invariant]
    spec fn inv(&self) -> bool {
        self.param_types@.len() <= u32::MAX
    }
}

/// Whether an argument fits a parameter of type `t`: an object argument (or
/// none) whose object's type is `t` or derives from it, or else an argument
/// of exactly the type `t`.
pub open spec fn spec_arg_fits(v: ValueView, t: Type) -> bool {
    if view_is_a(v, Type(80)) {
        match v.data {
            DataView::Object(None) => true,
            DataView::Object(Some((ot, supers))) => ot == t || supers.contains(t),
            _ => false,
        }
    } else {
        v.type_ == t
    }
}

/// An argument as passed for a parameter of type `t`: object arguments take
/// the parameter's type, others stay as they are.
pub open spec fn spec_arg_passed(v: ValueView, t: Type) -> ValueView {
    if view_is_a(v, Type(80)) {
        ValueView { type_: t, supertypes: v.supertypes, data: v.data }
    } else {
        v
    }
}

/// Whether the object held by `v` (or its absence) fits the type `t`.
fn object_fits(v: &Value, t: Type) -> (r: bool)
    requires
        view_is_a(v@, Type(80)),
    ensures
        r == spec_arg_fits(v@, t),
{
    match v.data() {
        ValueData::Object(Some(l)) => l.is_a(t),
        ValueData::Object(None) => true,
        _ => false,
    }
}

/// Whether every argument that has a parameter fits it.
pub open spec fn spec_args_fit(args: Seq<ValueView>, params: Seq<Type>) -> bool {
    forall|i: int| 0 <= i < args.len() && i < params.len() ==> spec_arg_fits(#[trigger] args[i], params[i])
}

/// The views of some values.
pub open spec fn values_view(args: Seq<Value>) -> Seq<ValueView> {
    args.map_values(|v: Value| v@)
}

/// Whether the number of arguments matches that of the parameters, counted
/// as a `u32`.
pub open spec fn spec_count_matches(n_args: nat, n_params: nat) -> bool {
    n_params == n_args as u32
}

/// For argument lists that fit in a `u32` count, the counts match exactly
/// when they are equal: surplus or missing arguments never match.
pub proof fn law_count_matches_is_equality(n_args: nat, n_params: nat)
    requires
        n_args <= u32::MAX,
    ensures
        spec_count_matches(n_args, n_params) <==> n_args == n_params,
{
}

/// Walks the arguments in order, giving each object argument that has a
/// parameter the parameter's type, and stops at the first argument that does
/// not fit its parameter: its position is returned, and the arguments from
/// there on are left as they were.
fn pass_arguments(args: &mut [Value], params: &[Type]) -> (r: Option<usize>)
    requires
        params@.len() <= old(args)@.len(),
        forall|j: int| 0 <= j < old(args)@.len() ==> well_formed_value(#[trigger] old(args)@[j]@),
    ensures
        final(args)@.len() == old(args)@.len(),
        r is None <==> spec_args_fit(values_view(old(args)@), params@),
        match r {
            None => forall|i: int| 0 <= i < old(args)@.len() ==> #[trigger] final(args)@[i]@
                == if i < params@.len() {
                    spec_arg_passed(old(args)@[i]@, params@[i])
                } else {
                    old(args)@[i]@
                },
            Some(k) => spec_first_misfit(values_view(old(args)@), params@, k as int) && forall|i: int|
                0 <= i < old(args)@.len() ==> #[trigger] final(args)@[i]@ == if i < k {
                    spec_arg_passed(old(args)@[i]@, params@[i])
                } else {
                    old(args)@[i]@
                },
        },
{
    let ghost orig = old(args)@;
    let mut i: usize = 0;
    while i < params.len()
        invariant
            orig == old(args)@,
            i <= params@.len(),
            params@.len() <= orig.len(),
            args@.len() == orig.len(),
            forall|j: int| 0 <= j < orig.len() ==> well_formed_value(#[trigger] orig[j]@),
            forall|j: int| 0 <= j < i ==> spec_arg_fits(#[trigger] orig[j]@, params@[j]),
            forall|j: int| 0 <= j < i ==> #[trigger] args@[j]@ == spec_arg_passed(orig[j]@, params@[j]),
            forall|j: int| i <= j < orig.len() ==> #[trigger] args@[j] == orig[j],
        decreases params@.len() - i,
    {
        let param_type = params[i];
        assert(args@[i as int] == orig[i as int]);
        let fits = if args[i].type_is_a(Type::object()) {
            object_fits(&args[i], param_type)
        } else {
            param_type == args[i].type_()
        };
        if !fits {
            proof {
                assert(!spec_arg_fits(values_view(orig)[i as int], params@[i as int]));
                assert forall|j: int| 0 <= j < i implies spec_arg_fits(#[trigger] values_view(orig)[j], params@[j]) by {
                    assert(values_view(orig)[j] == orig[j]@);
                };
            }
            return Some(i);
        }
        if args[i].type_is_a(Type::object()) {
            let mut v = args[i].copy();
            v.retype(param_type);
            args[i] = v;
        }
        i = i + 1;
    }
    proof {
        assert forall|j: int| 0 <= j < orig.len() && j < params@.len() implies spec_arg_fits(
            #[trigger] values_view(orig)[j],
            params@[j],
        ) by {
            assert(values_view(orig)[j] == orig[j]@);
        };
    }
    None
}

/// Whether `k` is the position of the first argument that does not fit its
/// parameter.
pub open spec fn spec_first_misfit(args: Seq<ValueView>, params: Seq<Type>, k: int) -> bool {
    &&& 0 <= k < args.len()
    &&& k < params.len()
    &&& !spec_arg_fits(args[k], params[k])
    &&& forall|j: int| 0 <= j < k ==> spec_arg_fits(#[trigger] args[j], params[j])
}

/// Checks the arguments of an emission of a signal of the instance type
/// `type_`: their number, counted as a `u32`, must be that of the parameters,
/// and each argument that has a parameter must fit it. Going through them in
/// order, object arguments are given the parameter's type; at the first
/// argument that does not fit, the check stops, so the arguments before it
/// are already retyped and the rest are left as they were.
pub fn validate_signal_arguments(type_: Type, signal_query: &SignalQuery, args: &mut [Value]) -> (r: Result<(), BoolError>)
    requires
        forall|i: int| 0 <= i < old(args)@.len() ==> well_formed_value(#[trigger] old(args)@[i]@),
    ensures
        final(args)@.len() == old(args)@.len(),
        r is Ok <==> spec_count_matches(old(args)@.len(), signal_query.spec_param_types().len())
            && spec_args_fit(values_view(old(args)@), signal_query.spec_param_types()),
        r is Ok ==> forall|i: int| 0 <= i < old(args)@.len() ==> #[trigger] final(args)@[i]@
            == if i < signal_query.spec_param_types().len() {
                spec_arg_passed(old(args)@[i]@, signal_query.spec_param_types()[i])
            } else {
                old(args)@[i]@
            },
        !spec_count_matches(old(args)@.len(), signal_query.spec_param_types().len()) ==> final(args)@
            == old(args)@,
        r is Ok && old(args)@.len() <= u32::MAX ==> old(args)@.len() == signal_query.spec_param_types().len(),
        r is Err && spec_count_matches(old(args)@.len(), signal_query.spec_param_types().len()) ==> exists|
            k: int,
        |
            spec_first_misfit(values_view(old(args)@), signal_query.spec_param_types(), k) && forall|i: int|
                0 <= i < old(args)@.len() ==> #[trigger] final(args)@[i]@ == if i < k {
                    spec_arg_passed(old(args)@[i]@, signal_query.spec_param_types()[i])
                } else {
                    old(args)@[i]@
                },
{
    proof {
        use_type_invariant(signal_query);
    }
    let n = signal_query.n_params();
    let len = args.len();
    #[verifier::truncate]
    let truncated = len as u32;
    assert(truncated <= len) by (bit_vector)
        requires
            truncated == len as u32,
    ;
    if n != truncated {
        return Err(BoolError::new("Incompatible number of arguments for signal"));
    }
    let params = signal_query.param_types();
    match pass_arguments(args, params) {
        None => Ok(()),
        Some(k) => Err(BoolError::new("Incompatible argument type for signal")),
    }
}

/// Why the answer of a signal handler does not suit the signal.
#[derive(Clone, Copy, Debug, PartialEq, Eq, Structural)]
pub enum HandlerReturnError {
    /// The signal returns nothing, and the handler gave a value.
    UnexpectedValue,
    /// The signal returns a value, and the handler gave none.
    MissingValue,
    /// The value given is of a type that is not the signal's return type.
    WrongType,
}

/// What a signal handler's answer `ret` gives back to a signal whose return
/// type is `return_type`: nothing for a signal returning `()`; otherwise a
/// value of the return type, or holding an object of that type (then given
/// the return type).
pub open spec fn spec_handler_return(return_type: Type, ret: Option<ValueView>) -> Result<Option<ValueView>, HandlerReturnError> {
    if return_type == Type(4) {
        match ret {
            None => Ok(None),
            Some(_) => Err(HandlerReturnError::UnexpectedValue),
        }
    } else {
        match ret {
            None => Err(HandlerReturnError::MissingValue),
            Some(v) => if view_is_a(v, return_type) {
                Ok(Some(v))
            } else if view_is_a(v, Type(80)) && (match v.data {
                DataView::Object(Some((ot, supers))) => ot == return_type || supers.contains(return_type),
                _ => false,
            }) {
                Ok(Some(ValueView { type_: return_type, supertypes: v.supertypes, data: v.data }))
            } else {
                Err(HandlerReturnError::WrongType)
            },
        }
    }
}

/// Checks the answer `ret` of a handler of a signal whose return type is
/// `return_type`.
pub fn check_handler_return(return_type: Type, ret: Option<Value>) -> (r: Result<Option<Value>, HandlerReturnError>)
    ensures
        match (r, spec_handler_return(return_type, opt_value_view(ret))) {
            (Ok(Some(v)), Ok(Some(w))) => v@ == w,
            (Ok(None), Ok(None)) => true,
            (Err(e), Err(f)) => e == f,
            _ => false,
        },
{
    if return_type == Type::unit() {
        return match ret {
            None => Ok(None),
            Some(_) => Err(HandlerReturnError::UnexpectedValue),
        };
    }
    match ret {
        None => Err(HandlerReturnError::MissingValue),
        Some(v) => {
            if v.type_is_a(return_type) {
                Ok(Some(v))
            } else if v.type_is_a(Type::object()) {
                let fits = match v.data() {
                    ValueData::Object(Some(l)) => l.is_a(return_type),
                    _ => false,
                };
                if fits {
                    let mut w = v;
                    w.retype(return_type);
                    Ok(Some(w))
                } else {
                    Err(HandlerReturnError::WrongType)
                }
            } else {
                Err(HandlerReturnError::WrongType)
            }
        },
    }
}

} // verus!
