use vstd::prelude::*;

verus! {

/// Identifier of a type registered with the GObject type system (a `GType`).
///
/// Fundamental types have fixed identifiers (`n << 2` for the `n`-th
/// fundamental type); other types get theirs when they are registered.
#[derive(Clone, Copy, PartialEq, Eq, Structural, Debug, Hash, PartialOrd, Ord)]
pub struct Type(pub usize);

impl Type {
    /// An invalid `Type` used as error return value in some functions.
    pub fn invalid() -> (r: Type)
        ensures
            r == Type(0),
    {
        Type(0)
    }
    /// The fundamental type corresponding to the unit type `()`.
    pub fn unit() -> (r: Type)
        ensures
            r == Type(4),
    {
        Type(4)
    }
    /// The fundamental type from which all interfaces are derived.
    pub fn interface() -> (r: Type)
        ensures
            r == Type(8),
    {
        Type(8)
    }
    /// The fundamental type corresponding to `i8`.
    pub fn i8() -> (r: Type)
        ensures
            r == Type(12),
    {
        Type(12)
    }
    /// The fundamental type corresponding to `u8`.
    pub fn u8() -> (r: Type)
        ensures
            r == Type(16),
    {
        Type(16)
    }
    /// The fundamental type corresponding to `bool`.
    pub fn bool() -> (r: Type)
        ensures
            r == Type(20),
    {
        Type(20)
    }
    /// The fundamental type corresponding to `i32`.
    pub fn i32() -> (r: Type)
        ensures
            r == Type(24),
    {
        Type(24)
    }
    /// The fundamental type corresponding to `u32`.
    pub fn u32() -> (r: Type)
        ensures
            r == Type(28),
    {
        Type(28)
    }
    /// The fundamental type corresponding to C `long`.
    pub fn i_long() -> (r: Type)
        ensures
            r == Type(32),
    {
        Type(32)
    }
    /// The fundamental type corresponding to C `unsigned long`.
    pub fn u_long() -> (r: Type)
        ensures
            r == Type(36),
    {
        Type(36)
    }
    /// The fundamental type corresponding to `i64`.
    pub fn i64() -> (r: Type)
        ensures
            r == Type(40),
    {
        Type(40)
    }
    /// The fundamental type corresponding to `u64`.
    pub fn u64() -> (r: Type)
        ensures
            r == Type(44),
    {
        Type(44)
    }
    /// The fundamental type from which all enumeration types are derived.
    pub fn enum_() -> (r: Type)
        ensures
            r == Type(48),
    {
        Type(48)
    }
    /// The fundamental type from which all flags types are derived.
    pub fn flags() -> (r: Type)
        ensures
            r == Type(52),
    {
        Type(52)
    }
    /// The fundamental type corresponding to `String`.
    pub fn string() -> (r: Type)
        ensures
            r == Type(64),
    {
        Type(64)
    }

    /// The fundamental type corresponding to a pointer.
    pub fn pointer() -> (r: Type)
        ensures
            r == Type(68),
    {
        Type(68)
    }

    /// The fundamental type of boxed types.
    pub fn boxed() -> (r: Type)
        ensures
            r == Type(72),
    {
        Type(72)
    }

    /// The fundamental type from which all `ParamSpec` types are derived.
    pub fn param_spec() -> (r: Type)
        ensures
            r == Type(76),
    {
        Type(76)
    }

    /// The fundamental type from which all objects are derived.
    pub fn object() -> (r: Type)
        ensures
            r == Type(80),
    {
        Type(80)
    }

    /// The fundamental type of `Variant`.
    pub fn variant() -> (r: Type)
        ensures
            r == Type(84),
    {
        Type(84)
    }

    /// Whether this is the invalid type.
    pub fn is_valid(&self) -> (r: bool)
        ensures
            r == (self.0 != 0),
    {
        self.0 != 0
    }

    /// The raw `GType` value.
    pub fn into_glib(&self) -> (r: usize)
        ensures
            r == self.0,
    {
        self.0
    }
}

/// Whether a type lies below `ancestor` in the type hierarchy, given the list
/// of every type it derives from or implements.
pub open spec fn spec_is_a(type_: Type, supertypes: Seq<Type>, ancestor: Type) -> bool {
    type_ == ancestor || supertypes.contains(ancestor)
}

/// Whether `items` contains `t`.
pub fn contains_type(items: &[Type], t: Type) -> (r: bool)
    ensures
        r == items@.contains(t),
{
    let mut i: usize = 0;
    while i < items.len()
        invariant
            i <= items@.len(),
            forall|j: int| 0 <= j < i ==> items@[j] != t,
        decreases items@.len() - i,
    {
        if items[i] == t {
            assert(items@[i as int] == t);
            return true;
        }
        i = i + 1;
    }
    false
}

/// A type together with every type it derives from or implements, as the
/// type system reports them for one object or value.
#[derive(Debug)]
pub struct TypeLineage {
    type_: Type,
    supertypes: Vec<Type>,
}

impl TypeLineage {
    /// A lineage with the given type and supertypes.
    pub fn new(type_: Type, supertypes: Vec<Type>) -> (r: TypeLineage)
        ensures
            r.type_() == type_,
            r.supertypes() == supertypes@,
    {
        TypeLineage { type_, supertypes }
    }

    /// A fundamental type, which derives from nothing.
    pub fn fundamental(type_: Type) -> (r: TypeLineage)
        ensures
            r.type_() == type_,
            r.supertypes() == Seq::<Type>::empty(),
    {
        TypeLineage { type_, supertypes: Vec::new() }
    }

    /// The type itself.
    pub closed spec fn type_(&self) -> Type {
        self.type_
    }

    /// The types it derives from or implements.
    pub closed spec fn supertypes(&self) -> Seq<Type> {
        self.supertypes@
    }

    /// Whether the type is `ancestor` or derives from it.
    pub open spec fn spec_is_a(&self, ancestor: Type) -> bool {
        spec_is_a(self.type_(), self.supertypes(), ancestor)
    }

    /// The type itself.
    pub fn get_type(&self) -> (r: Type)
        ensures
            r == self.type_(),
    {
        self.type_
    }

    /// A copy of the supertypes.
    pub fn supertypes_vec(&self) -> (r: Vec<Type>)
        ensures
            r@ == self.supertypes(),
    {
        let mut out: Vec<Type> = Vec::new();
        let mut i: usize = 0;
        while i < self.supertypes.len()
            invariant
                i <= self.supertypes@.len(),
                out@ == self.supertypes@.subrange(0, i as int),
            decreases self.supertypes@.len() - i,
        {
            out.push(self.supertypes[i]);
            i = i + 1;
            assert(out@ =~= self.supertypes@.subrange(0, i as int));
        }
        assert(out@ =~= self.supertypes@);
        out
    }

    /// Whether the type is `ancestor` or derives from it.
    pub fn is_a(&self, ancestor: Type) -> (r: bool)
        ensures
            r == self.spec_is_a(ancestor),
    {
        self.type_ == ancestor || contains_type(self.supertypes.as_slice(), ancestor)
    }
}

/// Types that are known to the type system under a fixed identifier.
pub trait StaticType {
    /// The identifier of the type.
    spec fn spec_static_type() -> Type;

    /// Whether the type is `ancestor` or derives from it.
    spec fn spec_static_is_a(ancestor: Type) -> bool;

    /// Returns the type identifier of `Self`.
    fn static_type() -> (r: Type)
        ensures
            r == Self::spec_static_type(),
    ;
}

impl StaticType for bool {
    open spec fn spec_static_type() -> Type {
        Type(20)
    }

    open spec fn spec_static_is_a(ancestor: Type) -> bool {
        ancestor == Type(20)
    }

    fn static_type() -> (r: Type) {
        Type::bool()
    }
}

impl StaticType for i8 {
    open spec fn spec_static_type() -> Type {
        Type(12)
    }

    open spec fn spec_static_is_a(ancestor: Type) -> bool {
        ancestor == Type(12)
    }

    fn static_type() -> (r: Type) {
        Type::i8()
    }
}

impl StaticType for u8 {
    open spec fn spec_static_type() -> Type {
        Type(16)
    }

    open spec fn spec_static_is_a(ancestor: Type) -> bool {
        ancestor == Type(16)
    }

    fn static_type() -> (r: Type) {
        Type::u8()
    }
}

impl StaticType for i32 {
    open spec fn spec_static_type() -> Type {
        Type(24)
    }

    open spec fn spec_static_is_a(ancestor: Type) -> bool {
        ancestor == Type(24)
    }

    fn static_type() -> (r: Type) {
        Type::i32()
    }
}

impl StaticType for u32 {
    open spec fn spec_static_type() -> Type {
        Type(28)
    }

    open spec fn spec_static_is_a(ancestor: Type) -> bool {
        ancestor == Type(28)
    }

    fn static_type() -> (r: Type) {
        Type::u32()
    }
}

impl StaticType for i64 {
    open spec fn spec_static_type() -> Type {
        Type(40)
    }

    open spec fn spec_static_is_a(ancestor: Type) -> bool {
        ancestor == Type(40)
    }

    fn static_type() -> (r: Type) {
        Type::i64()
    }
}

impl StaticType for u64 {
    open spec fn spec_static_type() -> Type {
        Type(44)
    }

    open spec fn spec_static_is_a(ancestor: Type) -> bool {
        ancestor == Type(44)
    }

    fn static_type() -> (r: Type) {
        Type::u64()
    }
}

impl StaticType for String {
    open spec fn spec_static_type() -> Type {
        Type(64)
    }

    open spec fn spec_static_is_a(ancestor: Type) -> bool {
        ancestor == Type(64)
    }

    fn static_type() -> (r: Type) {
        Type::string()
    }
}

/// An error carrying only a message, returned when a precondition of an
/// operation on the type system does not hold.
#[derive(Debug, Clone, PartialEq, Eq)]
pub struct BoolError {
    pub message: String,
}

impl BoolError {
    /// An error with the given message.
    pub fn new(message: &str) -> (r: BoolError)
        ensures
            r.message@ == message@,
    {
        BoolError { message: String::from_str(message) }
    }

    /// An error whose message is `before`, then the name `name`, then
    /// `after`.
    pub fn with_name(before: &str, name: &str, after: &str) -> (r: BoolError)
        ensures
            r.message@ == before@ + name@ + after@,
    {
        let mut message = String::from_str(before);
        message.append(name);
        message.append(after);
        BoolError { message }
    }
}

} // verus!
