use std::rc::Rc;
use vstd::prelude::*;
use vstd::string::StringSliceAdditionalSpecFns;

use crate::param_flags::ParamFlags;
use crate::types::{StaticType, Type};

verus! {

/// Whether byte `c` may stand in a canonical property name, at the first
/// position when `first` holds.
pub open spec fn canonical_byte(c: u8, first: bool) -> bool {
    ||| (!first && ((48 <= c <= 57) || c == 45))
    ||| (65 <= c <= 90)
    ||| (97 <= c <= 122)
}

/// A canonical property name: ASCII letters anywhere, digits and `-` anywhere
/// but at the start.
pub open spec fn spec_is_canonical_pspec_name(name: Seq<u8>) -> bool {
    forall|i: int| 0 <= i < name.len() ==> canonical_byte(#[trigger] name[i], i == 0)
}

/// A valid property name: a letter first, then letters, digits, `-` or `_`.
pub open spec fn spec_is_valid_pspec_name(name: Seq<u8>) -> bool {
    &&& name.len() > 0
    &&& ((65 <= name[0] <= 90) || (97 <= name[0] <= 122))
    &&& forall|i: int|
        0 <= i < name.len() ==> {
            let c = #[trigger] name[i];
            (48 <= c <= 57) || (65 <= c <= 90) || (97 <= c <= 122) || c == 45 || c == 95
        }
}

/// Every nonempty canonical property name is a valid property name.
pub proof fn law_canonical_names_are_valid(name: Seq<u8>)
    requires
        spec_is_canonical_pspec_name(name),
        name.len() > 0,
    ensures
        spec_is_valid_pspec_name(name),
{
    assert(canonical_byte(name[0], true));
    assert forall|i: int| 0 <= i < name.len() implies {
        let c = #[trigger] name[i];
        (48 <= c <= 57) || (65 <= c <= 90) || (97 <= c <= 122) || c == 45 || c == 95
    } by {
        assert(canonical_byte(name[i], i == 0));
    };
}

/// Whether `name` is a canonical property name.
pub fn is_canonical_pspec_name(name: &str) -> (r: bool)
    ensures
        r == spec_is_canonical_pspec_name(name.spec_bytes()),
{
    let bytes = name.as_bytes();
    let mut i: usize = 0;
    while i < bytes.len()
        invariant
            i <= bytes@.len(),
            bytes@ == name.spec_bytes(),
            forall|j: int| 0 <= j < i ==> canonical_byte(#[trigger] bytes@[j], j == 0),
        decreases bytes@.len() - i,
    {
        let c = bytes[i];
        let ok = (i != 0 && ((48 <= c && c <= 57) || c == 45)) || (65 <= c && c <= 90) || (97
            <= c && c <= 122);
        if !ok {
            assert(!canonical_byte(bytes@[i as int], i == 0));
            return false;
        }
        i = i + 1;
    }
    true
}

/// Panics unless `name` is a canonical property name; every builder checks
/// its name this way.
pub fn assert_param_name(name: &str)
    requires
        spec_is_canonical_pspec_name(name.spec_bytes()),
{
    let ok = is_canonical_pspec_name(name);
    assert(ok);
}

/// What distinguishes the kinds of property specifications.
#[derive(Debug)]
pub enum ParamSpecKind {
    Boolean { default_value: bool },
    Char { minimum: i8, maximum: i8, default_value: i8 },
    UChar { minimum: u8, maximum: u8, default_value: u8 },
    Int { minimum: i32, maximum: i32, default_value: i32 },
    UInt { minimum: u32, maximum: u32, default_value: u32 },
    Int64 { minimum: i64, maximum: i64, default_value: i64 },
    UInt64 { minimum: u64, maximum: u64, default_value: u64 },
    Long { minimum: i64, maximum: i64, default_value: i64 },
    ULong { minimum: u64, maximum: u64, default_value: u64 },
    Unichar { default_value: char },
    String { default_value: Option<String> },
    Enum { default_value: i32, members: Vec<i32> },
    Flags { default_value: u32, mask: u32 },
    Boxed,
    Object,
    ValueArray { element_spec: Option<ParamSpec> },
    Override { overridden: ParamSpec },
}

/// The fields of a property specification.
#[derive(Debug)]
pub struct ParamSpecData {
    pub name: String,
    pub nick: Option<String>,
    pub blurb: Option<String>,
    pub flags: ParamFlags,
    pub value_type: Type,
    pub kind: ParamSpecKind,
}

/// A shared, immutable description of a property: its name, nick, blurb,
/// flags, value type and kind-specific data.
#[derive(Debug)]
pub struct ParamSpec {
    inner: Rc<ParamSpecData>,
}

/// Another handle on the same shared value (`Rc::clone`).
#[verifier::external_body]
pub(crate) fn rc_share<T>(rc: &Rc<T>) -> (r: Rc<T>)
    ensures
        r == *rc,
{
    Rc::clone(rc)
}

/// The view of an optional string.
pub open spec fn opt_view(s: Option<String>) -> Option<Seq<char>> {
    match s {
        Some(t) => Some(t@),
        None => None,
    }
}

/// The view of an optional string slice.
pub open spec fn opt_str_view(s: Option<&str>) -> Option<Seq<char>> {
    match s {
        Some(t) => Some(t@),
        None => None,
    }
}

/// Copies an optional string slice into an owned string.
pub fn opt_to_string(s: Option<&str>) -> (r: Option<String>)
    ensures
        opt_view(r) == opt_str_view(s),
{
    match s {
        Some(t) => Some(String::from_str(t)),
        None => None,
    }
}

impl Clone for ParamSpec {
    fn clone(&self) -> (r: ParamSpec)
        ensures
            r == *self,
    {
        ParamSpec { inner: rc_share(&self.inner) }
    }
}

impl ParamSpec {
    /// All fields of the specification.
    pub closed spec fn data(&self) -> ParamSpecData {
        *self.inner
    }

    /// The target this specification redirects to: the overridden
    /// specification of an override, nothing otherwise.
    pub open spec fn spec_redirect_target(&self) -> Option<ParamSpec> {
        match self.data().kind {
            ParamSpecKind::Override { overridden } => Some(overridden),
            _ => None,
        }
    }

    /// The nick reported for the specification.
    pub open spec fn spec_nick(&self) -> Seq<char> {
        match self.data().nick {
            Some(n) => n@,
            None => match self.spec_redirect_target() {
                Some(t) => match t.data().nick {
                    Some(n) => n@,
                    None => self.data().name@,
                },
                None => self.data().name@,
            },
        }
    }

    /// The blurb reported for the specification.
    pub open spec fn spec_blurb(&self) -> Option<Seq<char>> {
        match self.data().blurb {
            Some(b) => Some(b@),
            None => match self.spec_redirect_target() {
                Some(t) => opt_view(t.data().blurb),
                None => None,
            },
        }
    }

    /// A specification with the given fields.
    pub fn from_data(data: ParamSpecData) -> (r: ParamSpec)
        ensures
            r.data() == data,
    {
        ParamSpec { inner: Rc::new(data) }
    }

    /// The name of the property.
    pub fn name(&self) -> (r: &str)
        ensures
            r@ == self.data().name@,
    {
        self.inner.name.as_str()
    }

    /// The flags of the property, as far as they name flags: bits stored
    /// beyond those (such as the static-strings bits) are dropped.
    pub fn flags(&self) -> (r: ParamFlags)
        ensures
            r@ == self.data().flags@ & 0xC001_FD1Fu32,
    {
        ParamFlags::from_glib(self.inner.flags.bits())
    }

    /// The flags as stored, every bit kept.
    pub fn stored_flags(&self) -> (r: ParamFlags)
        ensures
            r == self.data().flags,
    {
        self.inner.flags
    }

    /// The type of the values the property holds.
    pub fn value_type(&self) -> (r: Type)
        ensures
            r == self.data().value_type,
    {
        self.inner.value_type
    }

    /// The kind-specific data of the property.
    pub fn kind(&self) -> (r: &ParamSpecKind)
        ensures
            *r == self.data().kind,
    {
        &self.inner.kind
    }

    /// The specification this one redirects to, if any.
    pub fn redirect_target(&self) -> (r: Option<ParamSpec>)
        ensures
            r == self.spec_redirect_target(),
    {
        match &self.inner.kind {
            ParamSpecKind::Override { overridden } => Some(overridden.clone()),
            _ => None,
        }
    }

    /// The nickname: the own one, else the one of the redirect target, else the name.
    pub fn nick(&self) -> (r: &str)
        ensures
            r@ == self.spec_nick(),
    {
        match &self.inner.nick {
            Some(n) => n.as_str(),
            None => match &self.inner.kind {
                ParamSpecKind::Override { overridden } => match &overridden.inner.nick {
                    Some(n) => n.as_str(),
                    None => self.inner.name.as_str(),
                },
                _ => self.inner.name.as_str(),
            },
        }
    }

    /// The description: the own one, else the one of the redirect target.
    pub fn blurb(&self) -> (r: Option<&str>)
        ensures
            opt_str_view(r) == self.spec_blurb(),
    {
        match &self.inner.blurb {
            Some(b) => Some(b.as_str()),
            None => match &self.inner.kind {
                ParamSpecKind::Override { overridden } => match &overridden.inner.blurb {
                    Some(b) => Some(b.as_str()),
                    None => None,
                },
                _ => None,
            },
        }
    }

    /// Whether `name` is a valid property name.
    pub fn is_valid_name(name: &str) -> (r: bool)
        ensures
            r == spec_is_valid_pspec_name(name.spec_bytes()),
    {
        let b = name.as_bytes();
        if b.len() == 0 {
            return false;
        }
        let c0 = b[0];
        if !((65 <= c0 && c0 <= 90) || (97 <= c0 && c0 <= 122)) {
            return false;
        }
        let mut i: usize = 0;
        while i < b.len()
            invariant
                i <= b@.len(),
                b@ == name.spec_bytes(),
                forall|j: int|
                    0 <= j < i ==> {
                        let c = #[trigger] b@[j];
                        (48 <= c <= 57) || (65 <= c <= 90) || (97 <= c <= 122) || c == 45 || c
                            == 95
                    },
            decreases b@.len() - i,
        {
            let c = b[i];
            if !((48 <= c && c <= 57) || (65 <= c && c <= 90) || (97 <= c && c <= 122) || c == 45
                || c == 95) {
                return false;
            }
            i = i + 1;
        }
        true
    }
}

} // verus!
