use vstd::prelude::*;
use vstd::string::StringSliceAdditionalSpecFns;

use crate::param_flags::ParamFlags;
use crate::param_spec::{
    assert_param_name, opt_str_view, opt_to_string, opt_view, spec_is_canonical_pspec_name,
    ParamSpec, ParamSpecData, ParamSpecKind,
};
use crate::types::{StaticType, Type};

verus! {

/// Builder methods shared by every property specification builder.
pub trait ParamSpecBuilderExt<'a>: Sized {
    /// The nick set so far.
    spec fn spec_nick(&self) -> Option<&'a str>;

    /// The blurb set so far.
    spec fn spec_blurb(&self) -> Option<&'a str>;

    /// The flags set so far.
    spec fn spec_flags(&self) -> u32;

    /// Whether the builders agree on everything but nick, blurb and flags.
    spec fn spec_same_payload(&self, other: Self) -> bool;

    /// Sets the nick.
    fn set_nick(&mut self, nick: Option<&'a str>)
        ensures
            final(self).spec_nick() == nick,
            final(self).spec_blurb() == old(self).spec_blurb(),
            final(self).spec_flags() == old(self).spec_flags(),
            old(self).spec_same_payload(*final(self)),
    ;

    /// Sets the blurb.
    fn set_blurb(&mut self, blurb: Option<&'a str>)
        ensures
            final(self).spec_nick() == old(self).spec_nick(),
            final(self).spec_blurb() == blurb,
            final(self).spec_flags() == old(self).spec_flags(),
            old(self).spec_same_payload(*final(self)),
    ;

    /// Sets the flags.
    fn set_flags(&mut self, flags: ParamFlags)
        ensures
            final(self).spec_nick() == old(self).spec_nick(),
            final(self).spec_blurb() == old(self).spec_blurb(),
            final(self).spec_flags() == flags@,
            old(self).spec_same_payload(*final(self)),
    ;

    /// The flags set so far.
    fn current_flags(&self) -> (r: ParamFlags)
        ensures
            r@ == self.spec_flags(),
    ;

    /// By default, the nickname of the redirect target is used if it has one,
    /// otherwise the name.
    fn nick(self, nick: &'a str) -> (r: Self)
        ensures
            r.spec_nick() == Some(nick),
            r.spec_blurb() == self.spec_blurb(),
            r.spec_flags() == self.spec_flags(),
            self.spec_same_payload(r),
    {
        let mut s = self;
        s.set_nick(Some(nick));
        s
    }

    /// Default: no blurb.
    fn blurb(self, blurb: &'a str) -> (r: Self)
        ensures
            r.spec_nick() == self.spec_nick(),
            r.spec_blurb() == Some(blurb),
            r.spec_flags() == self.spec_flags(),
            self.spec_same_payload(r),
    {
        let mut s = self;
        s.set_blurb(Some(blurb));
        s
    }

    /// Default: `ParamFlags::readwrite()`.
    fn flags(self, flags: ParamFlags) -> (r: Self)
        ensures
            r.spec_nick() == self.spec_nick(),
            r.spec_blurb() == self.spec_blurb(),
            r.spec_flags() == flags@,
            self.spec_same_payload(r),
    {
        let mut s = self;
        s.set_flags(flags);
        s
    }

    /// Marks the property as read only, dropping the writable flag.
    fn read_only(self) -> (r: Self)
        ensures
            r.spec_nick() == self.spec_nick(),
            r.spec_blurb() == self.spec_blurb(),
            r.spec_flags() == (self.spec_flags() & !2u32) | 1u32,
            self.spec_same_payload(r),
    {
        let flags = self.current_flags().difference(ParamFlags::writable()).union(
            ParamFlags::readable(),
        );
        self.flags(flags)
    }

    /// Marks the property as write only, dropping the readable flag.
    fn write_only(self) -> (r: Self)
        ensures
            r.spec_nick() == self.spec_nick(),
            r.spec_blurb() == self.spec_blurb(),
            r.spec_flags() == (self.spec_flags() & !1u32) | 2u32,
            self.spec_same_payload(r),
    {
        let flags = self.current_flags().difference(ParamFlags::readable()).union(
            ParamFlags::writable(),
        );
        self.flags(flags)
    }

    /// Marks the property as readable and writable.
    fn readwrite(self) -> (r: Self)
        ensures
            r.spec_nick() == self.spec_nick(),
            r.spec_blurb() == self.spec_blurb(),
            r.spec_flags() == self.spec_flags() | 3u32,
            self.spec_same_payload(r),
    {
        let flags = self.current_flags().union(ParamFlags::readwrite());
        self.flags(flags)
    }

    /// Marks the property as set on construction.
    fn construct(self) -> (r: Self)
        ensures
            r.spec_nick() == self.spec_nick(),
            r.spec_blurb() == self.spec_blurb(),
            r.spec_flags() == self.spec_flags() | 4u32,
            self.spec_same_payload(r),
    {
        let flags = self.current_flags().union(ParamFlags::construct());
        self.flags(flags)
    }

    /// Marks the property as settable only on construction.
    fn construct_only(self) -> (r: Self)
        ensures
            r.spec_nick() == self.spec_nick(),
            r.spec_blurb() == self.spec_blurb(),
            r.spec_flags() == self.spec_flags() | 8u32,
            self.spec_same_payload(r),
    {
        let flags = self.current_flags().union(ParamFlags::construct_only());
        self.flags(flags)
    }

    /// Marks the property as validated laxly.
    fn lax_validation(self) -> (r: Self)
        ensures
            r.spec_nick() == self.spec_nick(),
            r.spec_blurb() == self.spec_blurb(),
            r.spec_flags() == self.spec_flags() | 16u32,
            self.spec_same_payload(r),
    {
        let flags = self.current_flags().union(ParamFlags::lax_validation());
        self.flags(flags)
    }

    /// Marks the property as notifying only when asked explicitly.
    fn explicit_notify(self) -> (r: Self)
        ensures
            r.spec_nick() == self.spec_nick(),
            r.spec_blurb() == self.spec_blurb(),
            r.spec_flags() == self.spec_flags() | 0x4000_0000u32,
            self.spec_same_payload(r),
    {
        let flags = self.current_flags().union(ParamFlags::explicit_notify());
        self.flags(flags)
    }

    /// Marks the property as deprecated.
    fn deprecated(self) -> (r: Self)
        ensures
            r.spec_nick() == self.spec_nick(),
            r.spec_blurb() == self.spec_blurb(),
            r.spec_flags() == self.spec_flags() | 0x8000_0000u32,
            self.spec_same_payload(r),
    {
        let flags = self.current_flags().union(ParamFlags::deprecated());
        self.flags(flags)
    }
}

/// The fields common to every built specification: name, nick, blurb, flags
/// and value type.
pub open spec fn built_header(
    r: ParamSpec,
    name: &str,
    nick: Option<&str>,
    blurb: Option<&str>,
    flags: u32,
    value_type: Type,
) -> bool {
    &&& r.data().name@ == name@
    &&& opt_view(r.data().nick) == opt_str_view(nick)
    &&& opt_view(r.data().blurb) == opt_str_view(blurb)
    &&& r.data().flags@ == flags
    &&& r.data().value_type == value_type
}

/// Builds the shared part of a specification.
pub(crate) fn make_spec<'a>(
    name: &'a str,
    nick: Option<&'a str>,
    blurb: Option<&'a str>,
    flags: ParamFlags,
    value_type: Type,
    kind: ParamSpecKind,
) -> (r: ParamSpec)
    ensures
        built_header(r, name, nick, blurb, flags@, value_type),
        r.data().kind == kind,
{
    ParamSpec::from_data(
        ParamSpecData {
            name: String::from_str(name),
            nick: opt_to_string(nick),
            blurb: opt_to_string(blurb),
            flags,
            value_type,
            kind,
        },
    )
}

/// Builder of a property holding an `i32`.
pub struct ParamSpecIntBuilder<'a> {
    name: &'a str,
    nick: Option<&'a str>,
    blurb: Option<&'a str>,
    flags: ParamFlags,
    minimum: Option<i32>,
    maximum: Option<i32>,
    default_value: Option<i32>,
}

/// A property holding an `i32` within a range.
pub struct ParamSpecInt {
    inner: ParamSpec,
}

impl ParamSpecInt {
    /// Starts building a specification named `name`.
    pub fn builder<'a>(name: &'a str) -> (r: ParamSpecIntBuilder<'a>)
        requires
            spec_is_canonical_pspec_name(name.spec_bytes()),
        ensures
            r.spec_name() == name,
            r.spec_nick() == None::<&str>,
            r.spec_blurb() == None::<&str>,
            r.spec_flags() == 3u32,
            r.spec_range() == (None::<i32>, None::<i32>, None::<i32>),
    {
        ParamSpecIntBuilder::new(name)
    }
}

impl<'a> ParamSpecIntBuilder<'a> {
    /// The name given.
    pub closed spec fn spec_name(&self) -> &'a str {
        self.name
    }

    /// Minimum, maximum and default set so far.
    pub closed spec fn spec_range(&self) -> (Option<i32>, Option<i32>, Option<i32>) {
        (self.minimum, self.maximum, self.default_value)
    }

    /// The bounds and default the built specification gets: `i32::MIN`,
    /// `i32::MAX` and `0` for those not set.
    pub open spec fn spec_effective(&self) -> (i32, i32, i32) {
        (
            match self.spec_range().0 { Some(v) => v, None => i32::MIN },
            match self.spec_range().1 { Some(v) => v, None => i32::MAX },
            match self.spec_range().2 { Some(v) => v, None => 0i32 },
        )
    }

    fn new(name: &'a str) -> (r: Self)
        requires
            spec_is_canonical_pspec_name(name.spec_bytes()),
        ensures
            r.spec_name() == name,
            r.spec_nick() == None::<&str>,
            r.spec_blurb() == None::<&str>,
            r.spec_flags() == 3u32,
            r.spec_range() == (None::<i32>, None::<i32>, None::<i32>),
    {
        assert_param_name(name);
        ParamSpecIntBuilder {
            name,
            nick: None,
            blurb: None,
            flags: ParamFlags::default(),
            minimum: None,
            maximum: None,
            default_value: None,
        }
    }

    /// Default: `i32::MIN`.
    pub fn minimum(self, value: i32) -> (r: Self)
        ensures
            r.spec_name() == self.spec_name(),
            r.spec_nick() == self.spec_nick(),
            r.spec_blurb() == self.spec_blurb(),
            r.spec_flags() == self.spec_flags(),
            r.spec_range() == (Some(value), self.spec_range().1, self.spec_range().2),
    {
        ParamSpecIntBuilder { minimum: Some(value), ..self }
    }

    /// Default: `i32::MAX`.
    pub fn maximum(self, value: i32) -> (r: Self)
        ensures
            r.spec_name() == self.spec_name(),
            r.spec_nick() == self.spec_nick(),
            r.spec_blurb() == self.spec_blurb(),
            r.spec_flags() == self.spec_flags(),
            r.spec_range() == (self.spec_range().0, Some(value), self.spec_range().2),
    {
        ParamSpecIntBuilder { maximum: Some(value), ..self }
    }

    /// Default: `0`.
    pub fn default_value(self, value: i32) -> (r: Self)
        ensures
            r.spec_name() == self.spec_name(),
            r.spec_nick() == self.spec_nick(),
            r.spec_blurb() == self.spec_blurb(),
            r.spec_flags() == self.spec_flags(),
            r.spec_range() == (self.spec_range().0, self.spec_range().1, Some(value)),
    {
        ParamSpecIntBuilder { default_value: Some(value), ..self }
    }

    /// Builds the specification; the default must lie within the bounds and
    /// the name must not be empty.
    pub fn build(self) -> (r: ParamSpec)
        requires
            self.spec_name()@.len() > 0,
            self.spec_effective().0 <= self.spec_effective().2 <= self.spec_effective().1,
        ensures
            built_header(r, self.spec_name(), self.spec_nick(), self.spec_blurb(), self.spec_flags(), Type(24)),
            r.data().kind == (ParamSpecKind::Int {
                minimum: self.spec_effective().0,
                maximum: self.spec_effective().1,
                default_value: self.spec_effective().2,
            }),
    {
        let minimum = match self.minimum { Some(v) => v, None => i32::MIN };
        let maximum = match self.maximum { Some(v) => v, None => i32::MAX };
        let default_value = match self.default_value { Some(v) => v, None => 0 };
        make_spec(
            self.name,
            self.nick,
            self.blurb,
            self.flags,
            Type::i32(),
            ParamSpecKind::Int { minimum, maximum, default_value },
        )
    }
}

impl<'a> ParamSpecBuilderExt<'a> for ParamSpecIntBuilder<'a> {
    closed spec fn spec_nick(&self) -> Option<&'a str> {
        self.nick
    }

    closed spec fn spec_blurb(&self) -> Option<&'a str> {
        self.blurb
    }

    closed spec fn spec_flags(&self) -> u32 {
        self.flags@
    }

    open spec fn spec_same_payload(&self, other: Self) -> bool {
        &&& self.spec_name() == other.spec_name()
        &&& self.spec_range() == other.spec_range()
    }

    fn set_nick(&mut self, nick: Option<&'a str>) {
        self.nick = nick;
    }

    fn set_blurb(&mut self, blurb: Option<&'a str>) {
        self.blurb = blurb;
    }

    fn set_flags(&mut self, flags: ParamFlags) {
        self.flags = flags;
    }

    fn current_flags(&self) -> (r: ParamFlags) {
        self.flags
    }
}

/// Builder of a property holding an `u32`.
pub struct ParamSpecUIntBuilder<'a> {
    name: &'a str,
    nick: Option<&'a str>,
    blurb: Option<&'a str>,
    flags: ParamFlags,
    minimum: Option<u32>,
    maximum: Option<u32>,
    default_value: Option<u32>,
}

/// A property holding an `u32` within a range.
pub struct ParamSpecUInt {
    inner: ParamSpec,
}

impl ParamSpecUInt {
    /// Starts building a specification named `name`.
    pub fn builder<'a>(name: &'a str) -> (r: ParamSpecUIntBuilder<'a>)
        requires
            spec_is_canonical_pspec_name(name.spec_bytes()),
        ensures
            r.spec_name() == name,
            r.spec_nick() == None::<&str>,
            r.spec_blurb() == None::<&str>,
            r.spec_flags() == 3u32,
            r.spec_range() == (None::<u32>, None::<u32>, None::<u32>),
    {
        ParamSpecUIntBuilder::new(name)
    }
}

impl<'a> ParamSpecUIntBuilder<'a> {
    /// The name given.
    pub closed spec fn spec_name(&self) -> &'a str {
        self.name
    }

    /// Minimum, maximum and default set so far.
    pub closed spec fn spec_range(&self) -> (Option<u32>, Option<u32>, Option<u32>) {
        (self.minimum, self.maximum, self.default_value)
    }

    /// The bounds and default the built specification gets: `u32::MIN`,
    /// `u32::MAX` and `0` for those not set.
    pub open spec fn spec_effective(&self) -> (u32, u32, u32) {
        (
            match self.spec_range().0 { Some(v) => v, None => u32::MIN },
            match self.spec_range().1 { Some(v) => v, None => u32::MAX },
            match self.spec_range().2 { Some(v) => v, None => 0u32 },
        )
    }

    fn new(name: &'a str) -> (r: Self)
        requires
            spec_is_canonical_pspec_name(name.spec_bytes()),
        ensures
            r.spec_name() == name,
            r.spec_nick() == None::<&str>,
            r.spec_blurb() == None::<&str>,
            r.spec_flags() == 3u32,
            r.spec_range() == (None::<u32>, None::<u32>, None::<u32>),
    {
        assert_param_name(name);
        ParamSpecUIntBuilder {
            name,
            nick: None,
            blurb: None,
            flags: ParamFlags::default(),
            minimum: None,
            maximum: None,
            default_value: None,
        }
    }

    /// Default: `u32::MIN`.
    pub fn minimum(self, value: u32) -> (r: Self)
        ensures
            r.spec_name() == self.spec_name(),
            r.spec_nick() == self.spec_nick(),
            r.spec_blurb() == self.spec_blurb(),
            r.spec_flags() == self.spec_flags(),
            r.spec_range() == (Some(value), self.spec_range().1, self.spec_range().2),
    {
        ParamSpecUIntBuilder { minimum: Some(value), ..self }
    }

    /// Default: `u32::MAX`.
    pub fn maximum(self, value: u32) -> (r: Self)
        ensures
            r.spec_name() == self.spec_name(),
            r.spec_nick() == self.spec_nick(),
            r.spec_blurb() == self.spec_blurb(),
            r.spec_flags() == self.spec_flags(),
            r.spec_range() == (self.spec_range().0, Some(value), self.spec_range().2),
    {
        ParamSpecUIntBuilder { maximum: Some(value), ..self }
    }

    /// Default: `0`.
    pub fn default_value(self, value: u32) -> (r: Self)
        ensures
            r.spec_name() == self.spec_name(),
            r.spec_nick() == self.spec_nick(),
            r.spec_blurb() == self.spec_blurb(),
            r.spec_flags() == self.spec_flags(),
            r.spec_range() == (self.spec_range().0, self.spec_range().1, Some(value)),
    {
        ParamSpecUIntBuilder { default_value: Some(value), ..self }
    }

    /// Builds the specification; the default must lie within the bounds and
    /// the name must not be empty.
    pub fn build(self) -> (r: ParamSpec)
        requires
            self.spec_name()@.len() > 0,
            self.spec_effective().0 <= self.spec_effective().2 <= self.spec_effective().1,
        ensures
            built_header(r, self.spec_name(), self.spec_nick(), self.spec_blurb(), self.spec_flags(), Type(28)),
            r.data().kind == (ParamSpecKind::UInt {
                minimum: self.spec_effective().0,
                maximum: self.spec_effective().1,
                default_value: self.spec_effective().2,
            }),
    {
        let minimum = match self.minimum { Some(v) => v, None => u32::MIN };
        let maximum = match self.maximum { Some(v) => v, None => u32::MAX };
        let default_value = match self.default_value { Some(v) => v, None => 0 };
        make_spec(
            self.name,
            self.nick,
            self.blurb,
            self.flags,
            Type::u32(),
            ParamSpecKind::UInt { minimum, maximum, default_value },
        )
    }
}

impl<'a> ParamSpecBuilderExt<'a> for ParamSpecUIntBuilder<'a> {
    closed spec fn spec_nick(&self) -> Option<&'a str> {
        self.nick
    }

    closed spec fn spec_blurb(&self) -> Option<&'a str> {
        self.blurb
    }

    closed spec fn spec_flags(&self) -> u32 {
        self.flags@
    }

    open spec fn spec_same_payload(&self, other: Self) -> bool {
        &&& self.spec_name() == other.spec_name()
        &&& self.spec_range() == other.spec_range()
    }

    fn set_nick(&mut self, nick: Option<&'a str>) {
        self.nick = nick;
    }

    fn set_blurb(&mut self, blurb: Option<&'a str>) {
        self.blurb = blurb;
    }

    fn set_flags(&mut self, flags: ParamFlags) {
        self.flags = flags;
    }

    fn current_flags(&self) -> (r: ParamFlags) {
        self.flags
    }
}

/// Builder of a property holding an `i64`.
pub struct ParamSpecInt64Builder<'a> {
    name: &'a str,
    nick: Option<&'a str>,
    blurb: Option<&'a str>,
    flags: ParamFlags,
    minimum: Option<i64>,
    maximum: Option<i64>,
    default_value: Option<i64>,
}

/// A property holding an `i64` within a range.
pub struct ParamSpecInt64 {
    inner: ParamSpec,
}

impl ParamSpecInt64 {
    /// Starts building a specification named `name`.
    pub fn builder<'a>(name: &'a str) -> (r: ParamSpecInt64Builder<'a>)
        requires
            spec_is_canonical_pspec_name(name.spec_bytes()),
        ensures
            r.spec_name() == name,
            r.spec_nick() == None::<&str>,
            r.spec_blurb() == None::<&str>,
            r.spec_flags() == 3u32,
            r.spec_range() == (None::<i64>, None::<i64>, None::<i64>),
    {
        ParamSpecInt64Builder::new(name)
    }
}

impl<'a> ParamSpecInt64Builder<'a> {
    /// The name given.
    pub closed spec fn spec_name(&self) -> &'a str {
        self.name
    }

    /// Minimum, maximum and default set so far.
    pub closed spec fn spec_range(&self) -> (Option<i64>, Option<i64>, Option<i64>) {
        (self.minimum, self.maximum, self.default_value)
    }

    /// The bounds and default the built specification gets: `i64::MIN`,
    /// `i64::MAX` and `0` for those not set.
    pub open spec fn spec_effective(&self) -> (i64, i64, i64) {
        (
            match self.spec_range().0 { Some(v) => v, None => i64::MIN },
            match self.spec_range().1 { Some(v) => v, None => i64::MAX },
            match self.spec_range().2 { Some(v) => v, None => 0i64 },
        )
    }

    fn new(name: &'a str) -> (r: Self)
        requires
            spec_is_canonical_pspec_name(name.spec_bytes()),
        ensures
            r.spec_name() == name,
            r.spec_nick() == None::<&str>,
            r.spec_blurb() == None::<&str>,
            r.spec_flags() == 3u32,
            r.spec_range() == (None::<i64>, None::<i64>, None::<i64>),
    {
        assert_param_name(name);
        ParamSpecInt64Builder {
            name,
            nick: None,
            blurb: None,
            flags: ParamFlags::default(),
            minimum: None,
            maximum: None,
            default_value: None,
        }
    }

    /// Default: `i64::MIN`.
    pub fn minimum(self, value: i64) -> (r: Self)
        ensures
            r.spec_name() == self.spec_name(),
            r.spec_nick() == self.spec_nick(),
            r.spec_blurb() == self.spec_blurb(),
            r.spec_flags() == self.spec_flags(),
            r.spec_range() == (Some(value), self.spec_range().1, self.spec_range().2),
    {
        ParamSpecInt64Builder { minimum: Some(value), ..self }
    }

    /// Default: `i64::MAX`.
    pub fn maximum(self, value: i64) -> (r: Self)
        ensures
            r.spec_name() == self.spec_name(),
            r.spec_nick() == self.spec_nick(),
            r.spec_blurb() == self.spec_blurb(),
            r.spec_flags() == self.spec_flags(),
            r.spec_range() == (self.spec_range().0, Some(value), self.spec_range().2),
    {
        ParamSpecInt64Builder { maximum: Some(value), ..self }
    }

    /// Default: `0`.
    pub fn default_value(self, value: i64) -> (r: Self)
        ensures
            r.spec_name() == self.spec_name(),
            r.spec_nick() == self.spec_nick(),
            r.spec_blurb() == self.spec_blurb(),
            r.spec_flags() == self.spec_flags(),
            r.spec_range() == (self.spec_range().0, self.spec_range().1, Some(value)),
    {
        ParamSpecInt64Builder { default_value: Some(value), ..self }
    }

    /// Builds the specification; the default must lie within the bounds and
    /// the name must not be empty.
    pub fn build(self) -> (r: ParamSpec)
        requires
            self.spec_name()@.len() > 0,
            self.spec_effective().0 <= self.spec_effective().2 <= self.spec_effective().1,
        ensures
            built_header(r, self.spec_name(), self.spec_nick(), self.spec_blurb(), self.spec_flags(), Type(40)),
            r.data().kind == (ParamSpecKind::Int64 {
                minimum: self.spec_effective().0,
                maximum: self.spec_effective().1,
                default_value: self.spec_effective().2,
            }),
    {
        let minimum = match self.minimum { Some(v) => v, None => i64::MIN };
        let maximum = match self.maximum { Some(v) => v, None => i64::MAX };
        let default_value = match self.default_value { Some(v) => v, None => 0 };
        make_spec(
            self.name,
            self.nick,
            self.blurb,
            self.flags,
            Type::i64(),
            ParamSpecKind::Int64 { minimum, maximum, default_value },
        )
    }
}

impl<'a> ParamSpecBuilderExt<'a> for ParamSpecInt64Builder<'a> {
    closed spec fn spec_nick(&self) -> Option<&'a str> {
        self.nick
    }

    closed spec fn spec_blurb(&self) -> Option<&'a str> {
        self.blurb
    }

    closed spec fn spec_flags(&self) -> u32 {
        self.flags@
    }

    open spec fn spec_same_payload(&self, other: Self) -> bool {
        &&& self.spec_name() == other.spec_name()
        &&& self.spec_range() == other.spec_range()
    }

    fn set_nick(&mut self, nick: Option<&'a str>) {
        self.nick = nick;
    }

    fn set_blurb(&mut self, blurb: Option<&'a str>) {
        self.blurb = blurb;
    }

    fn set_flags(&mut self, flags: ParamFlags) {
        self.flags = flags;
    }

    fn current_flags(&self) -> (r: ParamFlags) {
        self.flags
    }
}

/// Builder of a property holding an `u64`.
pub struct ParamSpecUInt64Builder<'a> {
    name: &'a str,
    nick: Option<&'a str>,
    blurb: Option<&'a str>,
    flags: ParamFlags,
    minimum: Option<u64>,
    maximum: Option<u64>,
    default_value: Option<u64>,
}

/// A property holding an `u64` within a range.
pub struct ParamSpecUInt64 {
    inner: ParamSpec,
}

impl ParamSpecUInt64 {
    /// Starts building a specification named `name`.
    pub fn builder<'a>(name: &'a str) -> (r: ParamSpecUInt64Builder<'a>)
        requires
            spec_is_canonical_pspec_name(name.spec_bytes()),
        ensures
            r.spec_name() == name,
            r.spec_nick() == None::<&str>,
            r.spec_blurb() == None::<&str>,
            r.spec_flags() == 3u32,
            r.spec_range() == (None::<u64>, None::<u64>, None::<u64>),
    {
        ParamSpecUInt64Builder::new(name)
    }
}

impl<'a> ParamSpecUInt64Builder<'a> {
    /// The name given.
    pub closed spec fn spec_name(&self) -> &'a str {
        self.name
    }

    /// Minimum, maximum and default set so far.
    pub closed spec fn spec_range(&self) -> (Option<u64>, Option<u64>, Option<u64>) {
        (self.minimum, self.maximum, self.default_value)
    }

    /// The bounds and default the built specification gets: `u64::MIN`,
    /// `u64::MAX` and `0` for those not set.
    pub open spec fn spec_effective(&self) -> (u64, u64, u64) {
        (
            match self.spec_range().0 { Some(v) => v, None => u64::MIN },
            match self.spec_range().1 { Some(v) => v, None => u64::MAX },
            match self.spec_range().2 { Some(v) => v, None => 0u64 },
        )
    }

    fn new(name: &'a str) -> (r: Self)
        requires
            spec_is_canonical_pspec_name(name.spec_bytes()),
        ensures
            r.spec_name() == name,
            r.spec_nick() == None::<&str>,
            r.spec_blurb() == None::<&str>,
            r.spec_flags() == 3u32,
            r.spec_range() == (None::<u64>, None::<u64>, None::<u64>),
    {
        assert_param_name(name);
        ParamSpecUInt64Builder {
            name,
            nick: None,
            blurb: None,
            flags: ParamFlags::default(),
            minimum: None,
            maximum: None,
            default_value: None,
        }
    }

    /// Default: `u64::MIN`.
    pub fn minimum(self, value: u64) -> (r: Self)
        ensures
            r.spec_name() == self.spec_name(),
            r.spec_nick() == self.spec_nick(),
            r.spec_blurb() == self.spec_blurb(),
            r.spec_flags() == self.spec_flags(),
            r.spec_range() == (Some(value), self.spec_range().1, self.spec_range().2),
    {
        ParamSpecUInt64Builder { minimum: Some(value), ..self }
    }

    /// Default: `u64::MAX`.
    pub fn maximum(self, value: u64) -> (r: Self)
        ensures
            r.spec_name() == self.spec_name(),
            r.spec_nick() == self.spec_nick(),
            r.spec_blurb() == self.spec_blurb(),
            r.spec_flags() == self.spec_flags(),
            r.spec_range() == (self.spec_range().0, Some(value), self.spec_range().2),
    {
        ParamSpecUInt64Builder { maximum: Some(value), ..self }
    }

    /// Default: `0`.
    pub fn default_value(self, value: u64) -> (r: Self)
        ensures
            r.spec_name() == self.spec_name(),
            r.spec_nick() == self.spec_nick(),
            r.spec_blurb() == self.spec_blurb(),
            r.spec_flags() == self.spec_flags(),
            r.spec_range() == (self.spec_range().0, self.spec_range().1, Some(value)),
    {
        ParamSpecUInt64Builder { default_value: Some(value), ..self }
    }

    /// Builds the specification; the default must lie within the bounds and
    /// the name must not be empty.
    pub fn build(self) -> (r: ParamSpec)
        requires
            self.spec_name()@.len() > 0,
            self.spec_effective().0 <= self.spec_effective().2 <= self.spec_effective().1,
        ensures
            built_header(r, self.spec_name(), self.spec_nick(), self.spec_blurb(), self.spec_flags(), Type(44)),
            r.data().kind == (ParamSpecKind::UInt64 {
                minimum: self.spec_effective().0,
                maximum: self.spec_effective().1,
                default_value: self.spec_effective().2,
            }),
    {
        let minimum = match self.minimum { Some(v) => v, None => u64::MIN };
        let maximum = match self.maximum { Some(v) => v, None => u64::MAX };
        let default_value = match self.default_value { Some(v) => v, None => 0 };
        make_spec(
            self.name,
            self.nick,
            self.blurb,
            self.flags,
            Type::u64(),
            ParamSpecKind::UInt64 { minimum, maximum, default_value },
        )
    }
}

impl<'a> ParamSpecBuilderExt<'a> for ParamSpecUInt64Builder<'a> {
    closed spec fn spec_nick(&self) -> Option<&'a str> {
        self.nick
    }

    closed spec fn spec_blurb(&self) -> Option<&'a str> {
        self.blurb
    }

    closed spec fn spec_flags(&self) -> u32 {
        self.flags@
    }

    open spec fn spec_same_payload(&self, other: Self) -> bool {
        &&& self.spec_name() == other.spec_name()
        &&& self.spec_range() == other.spec_range()
    }

    fn set_nick(&mut self, nick: Option<&'a str>) {
        self.nick = nick;
    }

    fn set_blurb(&mut self, blurb: Option<&'a str>) {
        self.blurb = blurb;
    }

    fn set_flags(&mut self, flags: ParamFlags) {
        self.flags = flags;
    }

    fn current_flags(&self) -> (r: ParamFlags) {
        self.flags
    }
}


/// Builder of a property holding an `i8`.
pub struct ParamSpecCharBuilder<'a> {
    name: &'a str,
    nick: Option<&'a str>,
    blurb: Option<&'a str>,
    flags: ParamFlags,
    minimum: Option<i8>,
    maximum: Option<i8>,
    default_value: Option<i8>,
}

/// A property holding an `i8` within a range.
pub struct ParamSpecChar {
    inner: ParamSpec,
}

impl ParamSpecChar {
    /// Starts building a specification named `name`.
    pub fn builder<'a>(name: &'a str) -> (r: ParamSpecCharBuilder<'a>)
        requires
            spec_is_canonical_pspec_name(name.spec_bytes()),
        ensures
            r.spec_name() == name,
            r.spec_nick() == None::<&str>,
            r.spec_blurb() == None::<&str>,
            r.spec_flags() == 3u32,
            r.spec_range() == (None::<i8>, None::<i8>, None::<i8>),
    {
        ParamSpecCharBuilder::new(name)
    }
}

impl<'a> ParamSpecCharBuilder<'a> {
    /// The name given.
    pub closed spec fn spec_name(&self) -> &'a str {
        self.name
    }

    /// Minimum, maximum and default set so far.
    pub closed spec fn spec_range(&self) -> (Option<i8>, Option<i8>, Option<i8>) {
        (self.minimum, self.maximum, self.default_value)
    }

    /// The bounds and default the built specification gets: `i8::MIN`,
    /// `i8::MAX` and `0` for those not set.
    pub open spec fn spec_effective(&self) -> (i8, i8, i8) {
        (
            match self.spec_range().0 { Some(v) => v, None => i8::MIN },
            match self.spec_range().1 { Some(v) => v, None => i8::MAX },
            match self.spec_range().2 { Some(v) => v, None => 0i8 },
        )
    }

    fn new(name: &'a str) -> (r: Self)
        requires
            spec_is_canonical_pspec_name(name.spec_bytes()),
        ensures
            r.spec_name() == name,
            r.spec_nick() == None::<&str>,
            r.spec_blurb() == None::<&str>,
            r.spec_flags() == 3u32,
            r.spec_range() == (None::<i8>, None::<i8>, None::<i8>),
    {
        assert_param_name(name);
        ParamSpecCharBuilder {
            name,
            nick: None,
            blurb: None,
            flags: ParamFlags::default(),
            minimum: None,
            maximum: None,
            default_value: None,
        }
    }

    /// Default: `i8::MIN`.
    pub fn minimum(self, value: i8) -> (r: Self)
        ensures
            r.spec_name() == self.spec_name(),
            r.spec_nick() == self.spec_nick(),
            r.spec_blurb() == self.spec_blurb(),
            r.spec_flags() == self.spec_flags(),
            r.spec_range() == (Some(value), self.spec_range().1, self.spec_range().2),
    {
        ParamSpecCharBuilder { minimum: Some(value), ..self }
    }

    /// Default: `i8::MAX`.
    pub fn maximum(self, value: i8) -> (r: Self)
        ensures
            r.spec_name() == self.spec_name(),
            r.spec_nick() == self.spec_nick(),
            r.spec_blurb() == self.spec_blurb(),
            r.spec_flags() == self.spec_flags(),
            r.spec_range() == (self.spec_range().0, Some(value), self.spec_range().2),
    {
        ParamSpecCharBuilder { maximum: Some(value), ..self }
    }

    /// Default: `0`.
    pub fn default_value(self, value: i8) -> (r: Self)
        ensures
            r.spec_name() == self.spec_name(),
            r.spec_nick() == self.spec_nick(),
            r.spec_blurb() == self.spec_blurb(),
            r.spec_flags() == self.spec_flags(),
            r.spec_range() == (self.spec_range().0, self.spec_range().1, Some(value)),
    {
        ParamSpecCharBuilder { default_value: Some(value), ..self }
    }

    /// Builds the specification; the default must lie within the bounds and
    /// the name must not be empty.
    pub fn build(self) -> (r: ParamSpec)
        requires
            self.spec_name()@.len() > 0,
            self.spec_effective().0 <= self.spec_effective().2 <= self.spec_effective().1,
        ensures
            built_header(r, self.spec_name(), self.spec_nick(), self.spec_blurb(), self.spec_flags(), Type(12)),
            r.data().kind == (ParamSpecKind::Char {
                minimum: self.spec_effective().0,
                maximum: self.spec_effective().1,
                default_value: self.spec_effective().2,
            }),
    {
        let minimum = match self.minimum { Some(v) => v, None => i8::MIN };
        let maximum = match self.maximum { Some(v) => v, None => i8::MAX };
        let default_value = match self.default_value { Some(v) => v, None => 0 };
        make_spec(
            self.name,
            self.nick,
            self.blurb,
            self.flags,
            Type::i8(),
            ParamSpecKind::Char { minimum, maximum, default_value },
        )
    }
}

impl<'a> ParamSpecBuilderExt<'a> for ParamSpecCharBuilder<'a> {
    closed spec fn spec_nick(&self) -> Option<&'a str> {
        self.nick
    }

    closed spec fn spec_blurb(&self) -> Option<&'a str> {
        self.blurb
    }

    closed spec fn spec_flags(&self) -> u32 {
        self.flags@
    }

    open spec fn spec_same_payload(&self, other: Self) -> bool {
        &&& self.spec_name() == other.spec_name()
        &&& self.spec_range() == other.spec_range()
    }

    fn set_nick(&mut self, nick: Option<&'a str>) {
        self.nick = nick;
    }

    fn set_blurb(&mut self, blurb: Option<&'a str>) {
        self.blurb = blurb;
    }

    fn set_flags(&mut self, flags: ParamFlags) {
        self.flags = flags;
    }

    fn current_flags(&self) -> (r: ParamFlags) {
        self.flags
    }
}

/// Builder of a property holding an `u8`.
pub struct ParamSpecUCharBuilder<'a> {
    name: &'a str,
    nick: Option<&'a str>,
    blurb: Option<&'a str>,
    flags: ParamFlags,
    minimum: Option<u8>,
    maximum: Option<u8>,
    default_value: Option<u8>,
}

/// A property holding an `u8` within a range.
pub struct ParamSpecUChar {
    inner: ParamSpec,
}

impl ParamSpecUChar {
    /// Starts building a specification named `name`.
    pub fn builder<'a>(name: &'a str) -> (r: ParamSpecUCharBuilder<'a>)
        requires
            spec_is_canonical_pspec_name(name.spec_bytes()),
        ensures
            r.spec_name() == name,
            r.spec_nick() == None::<&str>,
            r.spec_blurb() == None::<&str>,
            r.spec_flags() == 3u32,
            r.spec_range() == (None::<u8>, None::<u8>, None::<u8>),
    {
        ParamSpecUCharBuilder::new(name)
    }
}

impl<'a> ParamSpecUCharBuilder<'a> {
    /// The name given.
    pub closed spec fn spec_name(&self) -> &'a str {
        self.name
    }

    /// Minimum, maximum and default set so far.
    pub closed spec fn spec_range(&self) -> (Option<u8>, Option<u8>, Option<u8>) {
        (self.minimum, self.maximum, self.default_value)
    }

    /// The bounds and default the built specification gets: `u8::MIN`,
    /// `u8::MAX` and `0` for those not set.
    pub open spec fn spec_effective(&self) -> (u8, u8, u8) {
        (
            match self.spec_range().0 { Some(v) => v, None => u8::MIN },
            match self.spec_range().1 { Some(v) => v, None => u8::MAX },
            match self.spec_range().2 { Some(v) => v, None => 0u8 },
        )
    }

    fn new(name: &'a str) -> (r: Self)
        requires
            spec_is_canonical_pspec_name(name.spec_bytes()),
        ensures
            r.spec_name() == name,
            r.spec_nick() == None::<&str>,
            r.spec_blurb() == None::<&str>,
            r.spec_flags() == 3u32,
            r.spec_range() == (None::<u8>, None::<u8>, None::<u8>),
    {
        assert_param_name(name);
        ParamSpecUCharBuilder {
            name,
            nick: None,
            blurb: None,
            flags: ParamFlags::default(),
            minimum: None,
            maximum: None,
            default_value: None,
        }
    }

    /// Default: `u8::MIN`.
    pub fn minimum(self, value: u8) -> (r: Self)
        ensures
            r.spec_name() == self.spec_name(),
            r.spec_nick() == self.spec_nick(),
            r.spec_blurb() == self.spec_blurb(),
            r.spec_flags() == self.spec_flags(),
            r.spec_range() == (Some(value), self.spec_range().1, self.spec_range().2),
    {
        ParamSpecUCharBuilder { minimum: Some(value), ..self }
    }

    /// Default: `u8::MAX`.
    pub fn maximum(self, value: u8) -> (r: Self)
        ensures
            r.spec_name() == self.spec_name(),
            r.spec_nick() == self.spec_nick(),
            r.spec_blurb() == self.spec_blurb(),
            r.spec_flags() == self.spec_flags(),
            r.spec_range() == (self.spec_range().0, Some(value), self.spec_range().2),
    {
        ParamSpecUCharBuilder { maximum: Some(value), ..self }
    }

    /// Default: `0`.
    pub fn default_value(self, value: u8) -> (r: Self)
        ensures
            r.spec_name() == self.spec_name(),
            r.spec_nick() == self.spec_nick(),
            r.spec_blurb() == self.spec_blurb(),
            r.spec_flags() == self.spec_flags(),
            r.spec_range() == (self.spec_range().0, self.spec_range().1, Some(value)),
    {
        ParamSpecUCharBuilder { default_value: Some(value), ..self }
    }

    /// Builds the specification; the default must lie within the bounds and
    /// the name must not be empty.
    pub fn build(self) -> (r: ParamSpec)
        requires
            self.spec_name()@.len() > 0,
            self.spec_effective().0 <= self.spec_effective().2 <= self.spec_effective().1,
        ensures
            built_header(r, self.spec_name(), self.spec_nick(), self.spec_blurb(), self.spec_flags(), Type(16)),
            r.data().kind == (ParamSpecKind::UChar {
                minimum: self.spec_effective().0,
                maximum: self.spec_effective().1,
                default_value: self.spec_effective().2,
            }),
    {
        let minimum = match self.minimum { Some(v) => v, None => u8::MIN };
        let maximum = match self.maximum { Some(v) => v, None => u8::MAX };
        let default_value = match self.default_value { Some(v) => v, None => 0 };
        make_spec(
            self.name,
            self.nick,
            self.blurb,
            self.flags,
            Type::u8(),
            ParamSpecKind::UChar { minimum, maximum, default_value },
        )
    }
}

impl<'a> ParamSpecBuilderExt<'a> for ParamSpecUCharBuilder<'a> {
    closed spec fn spec_nick(&self) -> Option<&'a str> {
        self.nick
    }

    closed spec fn spec_blurb(&self) -> Option<&'a str> {
        self.blurb
    }

    closed spec fn spec_flags(&self) -> u32 {
        self.flags@
    }

    open spec fn spec_same_payload(&self, other: Self) -> bool {
        &&& self.spec_name() == other.spec_name()
        &&& self.spec_range() == other.spec_range()
    }

    fn set_nick(&mut self, nick: Option<&'a str>) {
        self.nick = nick;
    }

    fn set_blurb(&mut self, blurb: Option<&'a str>) {
        self.blurb = blurb;
    }

    fn set_flags(&mut self, flags: ParamFlags) {
        self.flags = flags;
    }

    fn current_flags(&self) -> (r: ParamFlags) {
        self.flags
    }
}


/// Builder of a property holding an `C long`.
pub struct ParamSpecLongBuilder<'a> {
    name: &'a str,
    nick: Option<&'a str>,
    blurb: Option<&'a str>,
    flags: ParamFlags,
    minimum: Option<i64>,
    maximum: Option<i64>,
    default_value: Option<i64>,
}

/// A property holding an `C long` within a range.
pub struct ParamSpecLong {
    inner: ParamSpec,
}

impl ParamSpecLong {
    /// Starts building a specification named `name`.
    pub fn builder<'a>(name: &'a str) -> (r: ParamSpecLongBuilder<'a>)
        requires
            spec_is_canonical_pspec_name(name.spec_bytes()),
        ensures
            r.spec_name() == name,
            r.spec_nick() == None::<&str>,
            r.spec_blurb() == None::<&str>,
            r.spec_flags() == 3u32,
            r.spec_range() == (None::<i64>, None::<i64>, None::<i64>),
    {
        ParamSpecLongBuilder::new(name)
    }
}

impl<'a> ParamSpecLongBuilder<'a> {
    /// The name given.
    pub closed spec fn spec_name(&self) -> &'a str {
        self.name
    }

    /// Minimum, maximum and default set so far.
    pub closed spec fn spec_range(&self) -> (Option<i64>, Option<i64>, Option<i64>) {
        (self.minimum, self.maximum, self.default_value)
    }

    /// The bounds and default the built specification gets: `i64::MIN`,
    /// `i64::MAX` and `0` for those not set.
    pub open spec fn spec_effective(&self) -> (i64, i64, i64) {
        (
            match self.spec_range().0 { Some(v) => v, None => i64::MIN },
            match self.spec_range().1 { Some(v) => v, None => i64::MAX },
            match self.spec_range().2 { Some(v) => v, None => 0i64 },
        )
    }

    fn new(name: &'a str) -> (r: Self)
        requires
            spec_is_canonical_pspec_name(name.spec_bytes()),
        ensures
            r.spec_name() == name,
            r.spec_nick() == None::<&str>,
            r.spec_blurb() == None::<&str>,
            r.spec_flags() == 3u32,
            r.spec_range() == (None::<i64>, None::<i64>, None::<i64>),
    {
        assert_param_name(name);
        ParamSpecLongBuilder {
            name,
            nick: None,
            blurb: None,
            flags: ParamFlags::default(),
            minimum: None,
            maximum: None,
            default_value: None,
        }
    }

    /// Default: `i64::MIN`.
    pub fn minimum(self, value: i64) -> (r: Self)
        ensures
            r.spec_name() == self.spec_name(),
            r.spec_nick() == self.spec_nick(),
            r.spec_blurb() == self.spec_blurb(),
            r.spec_flags() == self.spec_flags(),
            r.spec_range() == (Some(value), self.spec_range().1, self.spec_range().2),
    {
        ParamSpecLongBuilder { minimum: Some(value), ..self }
    }

    /// Default: `i64::MAX`.
    pub fn maximum(self, value: i64) -> (r: Self)
        ensures
            r.spec_name() == self.spec_name(),
            r.spec_nick() == self.spec_nick(),
            r.spec_blurb() == self.spec_blurb(),
            r.spec_flags() == self.spec_flags(),
            r.spec_range() == (self.spec_range().0, Some(value), self.spec_range().2),
    {
        ParamSpecLongBuilder { maximum: Some(value), ..self }
    }

    /// Default: `0`.
    pub fn default_value(self, value: i64) -> (r: Self)
        ensures
            r.spec_name() == self.spec_name(),
            r.spec_nick() == self.spec_nick(),
            r.spec_blurb() == self.spec_blurb(),
            r.spec_flags() == self.spec_flags(),
            r.spec_range() == (self.spec_range().0, self.spec_range().1, Some(value)),
    {
        ParamSpecLongBuilder { default_value: Some(value), ..self }
    }

    /// Builds the specification; the default must lie within the bounds and
    /// the name must not be empty.
    pub fn build(self) -> (r: ParamSpec)
        requires
            self.spec_name()@.len() > 0,
            self.spec_effective().0 <= self.spec_effective().2 <= self.spec_effective().1,
        ensures
            built_header(r, self.spec_name(), self.spec_nick(), self.spec_blurb(), self.spec_flags(), Type(32)),
            r.data().kind == (ParamSpecKind::Long {
                minimum: self.spec_effective().0,
                maximum: self.spec_effective().1,
                default_value: self.spec_effective().2,
            }),
    {
        let minimum = match self.minimum { Some(v) => v, None => i64::MIN };
        let maximum = match self.maximum { Some(v) => v, None => i64::MAX };
        let default_value = match self.default_value { Some(v) => v, None => 0 };
        make_spec(
            self.name,
            self.nick,
            self.blurb,
            self.flags,
            Type::i_long(),
            ParamSpecKind::Long { minimum, maximum, default_value },
        )
    }
}

impl<'a> ParamSpecBuilderExt<'a> for ParamSpecLongBuilder<'a> {
    closed spec fn spec_nick(&self) -> Option<&'a str> {
        self.nick
    }

    closed spec fn spec_blurb(&self) -> Option<&'a str> {
        self.blurb
    }

    closed spec fn spec_flags(&self) -> u32 {
        self.flags@
    }

    open spec fn spec_same_payload(&self, other: Self) -> bool {
        &&& self.spec_name() == other.spec_name()
        &&& self.spec_range() == other.spec_range()
    }

    fn set_nick(&mut self, nick: Option<&'a str>) {
        self.nick = nick;
    }

    fn set_blurb(&mut self, blurb: Option<&'a str>) {
        self.blurb = blurb;
    }

    fn set_flags(&mut self, flags: ParamFlags) {
        self.flags = flags;
    }

    fn current_flags(&self) -> (r: ParamFlags) {
        self.flags
    }
}

/// Builder of a property holding an `C unsigned long`.
pub struct ParamSpecULongBuilder<'a> {
    name: &'a str,
    nick: Option<&'a str>,
    blurb: Option<&'a str>,
    flags: ParamFlags,
    minimum: Option<u64>,
    maximum: Option<u64>,
    default_value: Option<u64>,
}

/// A property holding an `C unsigned long` within a range.
pub struct ParamSpecULong {
    inner: ParamSpec,
}

impl ParamSpecULong {
    /// Starts building a specification named `name`.
    pub fn builder<'a>(name: &'a str) -> (r: ParamSpecULongBuilder<'a>)
        requires
            spec_is_canonical_pspec_name(name.spec_bytes()),
        ensures
            r.spec_name() == name,
            r.spec_nick() == None::<&str>,
            r.spec_blurb() == None::<&str>,
            r.spec_flags() == 3u32,
            r.spec_range() == (None::<u64>, None::<u64>, None::<u64>),
    {
        ParamSpecULongBuilder::new(name)
    }
}

impl<'a> ParamSpecULongBuilder<'a> {
    /// The name given.
    pub closed spec fn spec_name(&self) -> &'a str {
        self.name
    }

    /// Minimum, maximum and default set so far.
    pub closed spec fn spec_range(&self) -> (Option<u64>, Option<u64>, Option<u64>) {
        (self.minimum, self.maximum, self.default_value)
    }

    /// The bounds and default the built specification gets: `u64::MIN`,
    /// `u64::MAX` and `0` for those not set.
    pub open spec fn spec_effective(&self) -> (u64, u64, u64) {
        (
            match self.spec_range().0 { Some(v) => v, None => u64::MIN },
            match self.spec_range().1 { Some(v) => v, None => u64::MAX },
            match self.spec_range().2 { Some(v) => v, None => 0u64 },
        )
    }

    fn new(name: &'a str) -> (r: Self)
        requires
            spec_is_canonical_pspec_name(name.spec_bytes()),
        ensures
            r.spec_name() == name,
            r.spec_nick() == None::<&str>,
            r.spec_blurb() == None::<&str>,
            r.spec_flags() == 3u32,
            r.spec_range() == (None::<u64>, None::<u64>, None::<u64>),
    {
        assert_param_name(name);
        ParamSpecULongBuilder {
            name,
            nick: None,
            blurb: None,
            flags: ParamFlags::default(),
            minimum: None,
            maximum: None,
            default_value: None,
        }
    }

    /// Default: `u64::MIN`.
    pub fn minimum(self, value: u64) -> (r: Self)
        ensures
            r.spec_name() == self.spec_name(),
            r.spec_nick() == self.spec_nick(),
            r.spec_blurb() == self.spec_blurb(),
            r.spec_flags() == self.spec_flags(),
            r.spec_range() == (Some(value), self.spec_range().1, self.spec_range().2),
    {
        ParamSpecULongBuilder { minimum: Some(value), ..self }
    }

    /// Default: `u64::MAX`.
    pub fn maximum(self, value: u64) -> (r: Self)
        ensures
            r.spec_name() == self.spec_name(),
            r.spec_nick() == self.spec_nick(),
            r.spec_blurb() == self.spec_blurb(),
            r.spec_flags() == self.spec_flags(),
            r.spec_range() == (self.spec_range().0, Some(value), self.spec_range().2),
    {
        ParamSpecULongBuilder { maximum: Some(value), ..self }
    }

    /// Default: `0`.
    pub fn default_value(self, value: u64) -> (r: Self)
        ensures
            r.spec_name() == self.spec_name(),
            r.spec_nick() == self.spec_nick(),
            r.spec_blurb() == self.spec_blurb(),
            r.spec_flags() == self.spec_flags(),
            r.spec_range() == (self.spec_range().0, self.spec_range().1, Some(value)),
    {
        ParamSpecULongBuilder { default_value: Some(value), ..self }
    }

    /// Builds the specification; the default must lie within the bounds and
    /// the name must not be empty.
    pub fn build(self) -> (r: ParamSpec)
        requires
            self.spec_name()@.len() > 0,
            self.spec_effective().0 <= self.spec_effective().2 <= self.spec_effective().1,
        ensures
            built_header(r, self.spec_name(), self.spec_nick(), self.spec_blurb(), self.spec_flags(), Type(36)),
            r.data().kind == (ParamSpecKind::ULong {
                minimum: self.spec_effective().0,
                maximum: self.spec_effective().1,
                default_value: self.spec_effective().2,
            }),
    {
        let minimum = match self.minimum { Some(v) => v, None => u64::MIN };
        let maximum = match self.maximum { Some(v) => v, None => u64::MAX };
        let default_value = match self.default_value { Some(v) => v, None => 0 };
        make_spec(
            self.name,
            self.nick,
            self.blurb,
            self.flags,
            Type::u_long(),
            ParamSpecKind::ULong { minimum, maximum, default_value },
        )
    }
}

impl<'a> ParamSpecBuilderExt<'a> for ParamSpecULongBuilder<'a> {
    closed spec fn spec_nick(&self) -> Option<&'a str> {
        self.nick
    }

    closed spec fn spec_blurb(&self) -> Option<&'a str> {
        self.blurb
    }

    closed spec fn spec_flags(&self) -> u32 {
        self.flags@
    }

    open spec fn spec_same_payload(&self, other: Self) -> bool {
        &&& self.spec_name() == other.spec_name()
        &&& self.spec_range() == other.spec_range()
    }

    fn set_nick(&mut self, nick: Option<&'a str>) {
        self.nick = nick;
    }

    fn set_blurb(&mut self, blurb: Option<&'a str>) {
        self.blurb = blurb;
    }

    fn set_flags(&mut self, flags: ParamFlags) {
        self.flags = flags;
    }

    fn current_flags(&self) -> (r: ParamFlags) {
        self.flags
    }
}


/// Types registered as enumerations whose values convert to `i32`.
pub trait EnumType: StaticType {
    /// The integer value of `self`.
    spec fn spec_into_glib(&self) -> i32;

    /// Whether `v` is the value of a member of the enumeration.
    spec fn spec_is_member(v: i32) -> bool;

    /// The integer value of `self`.
    fn into_glib(&self) -> (r: i32)
        ensures
            r == self.spec_into_glib(),
    ;

    /// The values of the members of the enumeration.
    fn members() -> (r: Vec<i32>)
        ensures
            forall|v: i32| Self::spec_is_member(v) <==> r@.contains(v),
    ;
}

/// Types registered as flags whose values convert to `u32`.
pub trait FlagsType: StaticType + Sized {
    /// The bits of `self`.
    spec fn spec_into_glib(&self) -> u32;

    /// The bits that name some flag of the type.
    spec fn spec_mask() -> u32;

    /// The bits of `self`.
    fn into_glib(&self) -> (r: u32)
        ensures
            r == self.spec_into_glib(),
    ;

    /// The value with no flag set.
    fn from_glib_empty() -> (r: Self)
        ensures
            r.spec_into_glib() == 0,
    ;

    /// The bits that name some flag of the type.
    fn mask() -> (r: u32)
        ensures
            r == Self::spec_mask(),
    ;
}

/// Builder of a property holding a `bool`.
pub struct ParamSpecBooleanBuilder<'a> {
    name: &'a str,
    nick: Option<&'a str>,
    blurb: Option<&'a str>,
    flags: ParamFlags,
    default_value: Option<bool>,
}

/// A property holding a `bool`.
pub struct ParamSpecBoolean {
    inner: ParamSpec,
}

impl ParamSpecBoolean {
    /// Starts building a specification named `name`.
    pub fn builder<'a>(name: &'a str) -> (r: ParamSpecBooleanBuilder<'a>)
        requires
            spec_is_canonical_pspec_name(name.spec_bytes()),
        ensures
            r.spec_name() == name,
            r.spec_nick() == None::<&str>,
            r.spec_blurb() == None::<&str>,
            r.spec_flags() == 3u32,
            r.spec_default() == None::<bool>,
    {
        assert_param_name(name);
        ParamSpecBooleanBuilder {
            name,
            nick: None,
            blurb: None,
            flags: ParamFlags::default(),
            default_value: None,
        }
    }
}

impl<'a> ParamSpecBooleanBuilder<'a> {
    /// The name given.
    pub closed spec fn spec_name(&self) -> &'a str {
        self.name
    }

    /// The default set so far.
    pub closed spec fn spec_default(&self) -> Option<bool> {
        self.default_value
    }

    /// Default: `false`.
    pub fn default_value(self, value: bool) -> (r: Self)
        ensures
            r.spec_name() == self.spec_name(),
            r.spec_nick() == self.spec_nick(),
            r.spec_blurb() == self.spec_blurb(),
            r.spec_flags() == self.spec_flags(),
            r.spec_default() == Some(value),
    {
        ParamSpecBooleanBuilder { default_value: Some(value), ..self }
    }

    /// Builds the specification; the name must not be empty.
    pub fn build(self) -> (r: ParamSpec)
        requires
            self.spec_name()@.len() > 0,
        ensures
            built_header(r, self.spec_name(), self.spec_nick(), self.spec_blurb(), self.spec_flags(), Type(20)),
            r.data().kind == (ParamSpecKind::Boolean {
                default_value: match self.spec_default() { Some(v) => v, None => false },
            }),
    {
        let default_value = match self.default_value { Some(v) => v, None => false };
        make_spec(
            self.name,
            self.nick,
            self.blurb,
            self.flags,
            Type::bool(),
            ParamSpecKind::Boolean { default_value },
        )
    }
}

impl<'a> ParamSpecBuilderExt<'a> for ParamSpecBooleanBuilder<'a> {
    closed spec fn spec_nick(&self) -> Option<&'a str> {
        self.nick
    }

    closed spec fn spec_blurb(&self) -> Option<&'a str> {
        self.blurb
    }

    closed spec fn spec_flags(&self) -> u32 {
        self.flags@
    }

    open spec fn spec_same_payload(&self, other: Self) -> bool {
        self.spec_name() == other.spec_name() &&
        self.spec_default() == other.spec_default()
    }

    fn set_nick(&mut self, nick: Option<&'a str>) {
        self.nick = nick;
    }

    fn set_blurb(&mut self, blurb: Option<&'a str>) {
        self.blurb = blurb;
    }

    fn set_flags(&mut self, flags: ParamFlags) {
        self.flags = flags;
    }

    fn current_flags(&self) -> (r: ParamFlags) {
        self.flags
    }
}

/// Builder of a property holding a Unicode character.
pub struct ParamSpecUnicharBuilder<'a> {
    name: &'a str,
    nick: Option<&'a str>,
    blurb: Option<&'a str>,
    flags: ParamFlags,
    default_value: char,
}

/// A property holding a Unicode character, stored as its `u32` code.
pub struct ParamSpecUnichar {
    inner: ParamSpec,
}

impl ParamSpecUnichar {
    /// Starts building a specification named `name` with the default
    /// `default_value`.
    pub fn builder<'a>(name: &'a str, default_value: char) -> (r: ParamSpecUnicharBuilder<'a>)
        requires
            spec_is_canonical_pspec_name(name.spec_bytes()),
        ensures
            r.spec_name() == name,
            r.spec_nick() == None::<&str>,
            r.spec_blurb() == None::<&str>,
            r.spec_flags() == 3u32,
            r.spec_default() == default_value,
    {
        assert_param_name(name);
        ParamSpecUnicharBuilder { name, nick: None, blurb: None, flags: ParamFlags::default(), default_value }
    }
}

impl<'a> ParamSpecUnicharBuilder<'a> {
    /// The name given.
    pub closed spec fn spec_name(&self) -> &'a str {
        self.name
    }

    /// The default set so far.
    pub closed spec fn spec_default(&self) -> char {
        self.default_value
    }

    /// Replaces the default.
    pub fn default_value(self, value: char) -> (r: Self)
        ensures
            r.spec_name() == self.spec_name(),
            r.spec_nick() == self.spec_nick(),
            r.spec_blurb() == self.spec_blurb(),
            r.spec_flags() == self.spec_flags(),
            r.spec_default() == value,
    {
        ParamSpecUnicharBuilder { default_value: value, ..self }
    }

    /// Builds the specification; the name must not be empty. Its values are
    /// `u32` codes.
    pub fn build(self) -> (r: ParamSpec)
        requires
            self.spec_name()@.len() > 0,
        ensures
            built_header(r, self.spec_name(), self.spec_nick(), self.spec_blurb(), self.spec_flags(), Type(28)),
            r.data().kind == (ParamSpecKind::Unichar { default_value: self.spec_default() }),
    {
        make_spec(
            self.name,
            self.nick,
            self.blurb,
            self.flags,
            Type::u32(),
            ParamSpecKind::Unichar { default_value: self.default_value },
        )
    }
}

impl<'a> ParamSpecBuilderExt<'a> for ParamSpecUnicharBuilder<'a> {
    closed spec fn spec_nick(&self) -> Option<&'a str> {
        self.nick
    }

    closed spec fn spec_blurb(&self) -> Option<&'a str> {
        self.blurb
    }

    closed spec fn spec_flags(&self) -> u32 {
        self.flags@
    }

    open spec fn spec_same_payload(&self, other: Self) -> bool {
        self.spec_name() == other.spec_name() && self.spec_default() == other.spec_default()
    }

    fn set_nick(&mut self, nick: Option<&'a str>) {
        self.nick = nick;
    }

    fn set_blurb(&mut self, blurb: Option<&'a str>) {
        self.blurb = blurb;
    }

    fn set_flags(&mut self, flags: ParamFlags) {
        self.flags = flags;
    }

    fn current_flags(&self) -> (r: ParamFlags) {
        self.flags
    }
}

impl ParamSpecUnichar {
    #[verifier::type_invariant]
    spec fn kind_is_unichar(self) -> bool {
        self.inner.data().kind is Unichar
    }
}

impl ParamSpecType for ParamSpecUnichar {
    open spec fn spec_accepts(kind: ParamSpecKind) -> bool {
        kind is Unichar
    }

    closed spec fn spec_inner(&self) -> ParamSpec {
        self.inner
    }

    fn accepts(kind: &ParamSpecKind) -> (r: bool) {
        match kind {
            ParamSpecKind::Unichar { .. } => true,
            _ => false,
        }
    }

    fn wrap(spec: ParamSpec) -> (r: Self) {
        ParamSpecUnichar { inner: spec }
    }

    fn upcast_ref(&self) -> (r: &ParamSpec) {
        &self.inner
    }
}

impl ParamSpecUnichar {
    /// The default value of the property.
    pub fn default_value(&self) -> (r: char)
        ensures
            self.spec_inner().data().kind matches ParamSpecKind::Unichar { default_value } && r == default_value,
    {
        proof {
            use_type_invariant(self);
        }
        match self.inner.kind() {
            ParamSpecKind::Unichar { default_value } => *default_value,
            _ => '\0',
        }
    }

    /// The specification viewed, given back.
    pub fn upcast(self) -> (r: ParamSpec)
        ensures
            r == self.spec_inner(),
    {
        self.inner
    }
}

impl std::ops::Deref for ParamSpecUnichar {
    type Target = ParamSpec;

    fn deref(&self) -> (r: &ParamSpec)
        ensures
            *r == self.spec_inner(),
    {
        &self.inner
    }
}

/// Builder of a property holding a string.
pub struct ParamSpecStringBuilder<'a> {
    name: &'a str,
    nick: Option<&'a str>,
    blurb: Option<&'a str>,
    flags: ParamFlags,
    default_value: Option<&'a str>,
}

/// A property holding a string.
pub struct ParamSpecString {
    inner: ParamSpec,
}

impl ParamSpecString {
    /// Starts building a specification named `name`.
    pub fn builder<'a>(name: &'a str) -> (r: ParamSpecStringBuilder<'a>)
        requires
            spec_is_canonical_pspec_name(name.spec_bytes()),
        ensures
            r.spec_name() == name,
            r.spec_nick() == None::<&str>,
            r.spec_blurb() == None::<&str>,
            r.spec_flags() == 3u32,
            r.spec_default() == None::<&str>,
    {
        ParamSpecStringBuilder::new(name)
    }
}

impl<'a> ParamSpecStringBuilder<'a> {
    /// The name given.
    pub closed spec fn spec_name(&self) -> &'a str {
        self.name
    }

    /// The default set so far.
    pub closed spec fn spec_default(&self) -> Option<&'a str> {
        self.default_value
    }

    fn new(name: &'a str) -> (r: Self)
        requires
            spec_is_canonical_pspec_name(name.spec_bytes()),
        ensures
            r.spec_name() == name,
            r.spec_nick() == None::<&str>,
            r.spec_blurb() == None::<&str>,
            r.spec_flags() == 3u32,
            r.spec_default() == None::<&str>,
    {
        assert_param_name(name);
        ParamSpecStringBuilder {
            name,
            nick: None,
            blurb: None,
            flags: ParamFlags::default(),
            default_value: None,
        }
    }

    /// Default: no default string.
    pub fn default_value(self, value: Option<&'a str>) -> (r: Self)
        ensures
            r.spec_name() == self.spec_name(),
            r.spec_nick() == self.spec_nick(),
            r.spec_blurb() == self.spec_blurb(),
            r.spec_flags() == self.spec_flags(),
            r.spec_default() == value,
    {
        ParamSpecStringBuilder { default_value: value, ..self }
    }

    /// Builds the specification; the name must not be empty.
    pub fn build(self) -> (r: ParamSpec)
        requires
            self.spec_name()@.len() > 0,
        ensures
            built_header(r, self.spec_name(), self.spec_nick(), self.spec_blurb(), self.spec_flags(), Type(64)),
            r.data().kind is String,
            opt_view(r.data().kind->String_default_value) == opt_str_view(self.spec_default()),
    {
        let default_value = opt_to_string(self.default_value);
        make_spec(
            self.name,
            self.nick,
            self.blurb,
            self.flags,
            Type::string(),
            ParamSpecKind::String { default_value },
        )
    }
}

impl<'a> ParamSpecBuilderExt<'a> for ParamSpecStringBuilder<'a> {
    closed spec fn spec_nick(&self) -> Option<&'a str> {
        self.nick
    }

    closed spec fn spec_blurb(&self) -> Option<&'a str> {
        self.blurb
    }

    closed spec fn spec_flags(&self) -> u32 {
        self.flags@
    }

    open spec fn spec_same_payload(&self, other: Self) -> bool {
        self.spec_name() == other.spec_name() &&
        self.spec_default() == other.spec_default()
    }

    fn set_nick(&mut self, nick: Option<&'a str>) {
        self.nick = nick;
    }

    fn set_blurb(&mut self, blurb: Option<&'a str>) {
        self.blurb = blurb;
    }

    fn set_flags(&mut self, flags: ParamFlags) {
        self.flags = flags;
    }

    fn current_flags(&self) -> (r: ParamFlags) {
        self.flags
    }
}

/// Builder of a property holding a member of the enumeration `T`.
pub struct ParamSpecEnumBuilder<'a, T: EnumType> {
    name: &'a str,
    nick: Option<&'a str>,
    blurb: Option<&'a str>,
    flags: ParamFlags,
    default_value: T,
}

/// A property holding a member of an enumeration.
pub struct ParamSpecEnum {
    inner: ParamSpec,
}

impl ParamSpecEnum {
    /// Starts building a specification named `name` with the given default.
    pub fn builder_with_default<'a, T: EnumType>(name: &'a str, default_value: T) -> (r: ParamSpecEnumBuilder<'a, T>)
        requires
            spec_is_canonical_pspec_name(name.spec_bytes()),
            T::spec_static_is_a(Type(48)),
        ensures
            r.spec_name() == name,
            r.spec_nick() == None::<&str>,
            r.spec_blurb() == None::<&str>,
            r.spec_flags() == 3u32,
            r.spec_default() == default_value,
    {
        ParamSpecEnumBuilder::new(name, default_value)
    }

    /// Starts building a specification named `name` whose default is `T::default()`.
    pub fn builder<'a, T: EnumType + Default>(name: &'a str) -> (r: ParamSpecEnumBuilder<'a, T>)
        requires
            spec_is_canonical_pspec_name(name.spec_bytes()),
            T::spec_static_is_a(Type(48)),
            T::default.requires(()),
        ensures
            r.spec_name() == name,
            r.spec_nick() == None::<&str>,
            r.spec_blurb() == None::<&str>,
            r.spec_flags() == 3u32,
            T::default.ensures((), r.spec_default()),
    {
        ParamSpecEnumBuilder::new(name, T::default())
    }
}

impl<'a, T: EnumType> ParamSpecEnumBuilder<'a, T> {
    /// The name given.
    pub closed spec fn spec_name(&self) -> &'a str {
        self.name
    }

    /// The default set so far.
    pub closed spec fn spec_default(&self) -> T {
        self.default_value
    }

    fn new(name: &'a str, default_value: T) -> (r: Self)
        requires
            spec_is_canonical_pspec_name(name.spec_bytes()),
            T::spec_static_is_a(Type(48)),
        ensures
            r.spec_name() == name,
            r.spec_nick() == None::<&str>,
            r.spec_blurb() == None::<&str>,
            r.spec_flags() == 3u32,
            r.spec_default() == default_value,
    {
        assert_param_name(name);
        ParamSpecEnumBuilder {
            name,
            nick: None,
            blurb: None,
            flags: ParamFlags::default(),
            default_value,
        }
    }

    /// Replaces the default.
    pub fn default_value(self, default: T) -> (r: Self)
        ensures
            r.spec_name() == self.spec_name(),
            r.spec_nick() == self.spec_nick(),
            r.spec_blurb() == self.spec_blurb(),
            r.spec_flags() == self.spec_flags(),
            r.spec_default() == default,
    {
        ParamSpecEnumBuilder { default_value: default, ..self }
    }

    /// Builds the specification; the name must not be empty and the default
    /// must be a member of the enumeration.
    pub fn build(self) -> (r: ParamSpec)
        requires
            self.spec_name()@.len() > 0,
            T::spec_is_member(self.spec_default().spec_into_glib()),
        ensures
            built_header(r, self.spec_name(), self.spec_nick(), self.spec_blurb(), self.spec_flags(), T::spec_static_type()),
            r.data().kind matches ParamSpecKind::Enum { default_value, members }
                && default_value == self.spec_default().spec_into_glib()
                && forall|v: i32| T::spec_is_member(v) <==> members@.contains(v),
    {
        let default_value = self.default_value.into_glib();
        let members = T::members();
        make_spec(
            self.name,
            self.nick,
            self.blurb,
            self.flags,
            T::static_type(),
            ParamSpecKind::Enum { default_value, members },
        )
    }
}

impl<'a, T: EnumType> ParamSpecBuilderExt<'a> for ParamSpecEnumBuilder<'a, T> {
    closed spec fn spec_nick(&self) -> Option<&'a str> {
        self.nick
    }

    closed spec fn spec_blurb(&self) -> Option<&'a str> {
        self.blurb
    }

    closed spec fn spec_flags(&self) -> u32 {
        self.flags@
    }

    open spec fn spec_same_payload(&self, other: Self) -> bool {
        self.spec_name() == other.spec_name() &&
        self.spec_default() == other.spec_default()
    }

    fn set_nick(&mut self, nick: Option<&'a str>) {
        self.nick = nick;
    }

    fn set_blurb(&mut self, blurb: Option<&'a str>) {
        self.blurb = blurb;
    }

    fn set_flags(&mut self, flags: ParamFlags) {
        self.flags = flags;
    }

    fn current_flags(&self) -> (r: ParamFlags) {
        self.flags
    }
}

/// Builder of a property holding a value of the flags type `T`.
pub struct ParamSpecFlagsBuilder<'a, T: FlagsType> {
    name: &'a str,
    nick: Option<&'a str>,
    blurb: Option<&'a str>,
    flags: ParamFlags,
    default_value: T,
}

/// A property holding a value of a flags type.
pub struct ParamSpecFlags {
    inner: ParamSpec,
}

impl ParamSpecFlags {
    /// Starts building a specification named `name`; the default is the empty value.
    pub fn builder<'a, T: FlagsType>(name: &'a str) -> (r: ParamSpecFlagsBuilder<'a, T>)
        requires
            spec_is_canonical_pspec_name(name.spec_bytes()),
            T::spec_static_is_a(Type(52)),
        ensures
            r.spec_name() == name,
            r.spec_nick() == None::<&str>,
            r.spec_blurb() == None::<&str>,
            r.spec_flags() == 3u32,
            r.spec_default().spec_into_glib() == 0,
    {
        ParamSpecFlagsBuilder::new(name)
    }
}

impl<'a, T: FlagsType> ParamSpecFlagsBuilder<'a, T> {
    /// The name given.
    pub closed spec fn spec_name(&self) -> &'a str {
        self.name
    }

    /// The default set so far.
    pub closed spec fn spec_default(&self) -> T {
        self.default_value
    }

    fn new(name: &'a str) -> (r: Self)
        requires
            spec_is_canonical_pspec_name(name.spec_bytes()),
            T::spec_static_is_a(Type(52)),
        ensures
            r.spec_name() == name,
            r.spec_nick() == None::<&str>,
            r.spec_blurb() == None::<&str>,
            r.spec_flags() == 3u32,
            r.spec_default().spec_into_glib() == 0,
    {
        assert_param_name(name);
        ParamSpecFlagsBuilder {
            name,
            nick: None,
            blurb: None,
            flags: ParamFlags::default(),
            default_value: T::from_glib_empty(),
        }
    }

    /// Default: no flag set.
    pub fn default_value(self, value: T) -> (r: Self)
        ensures
            r.spec_name() == self.spec_name(),
            r.spec_nick() == self.spec_nick(),
            r.spec_blurb() == self.spec_blurb(),
            r.spec_flags() == self.spec_flags(),
            r.spec_default() == value,
    {
        ParamSpecFlagsBuilder { default_value: value, ..self }
    }

    /// Builds the specification; the name must not be empty and the default
    /// may only hold bits that name flags of the type.
    pub fn build(self) -> (r: ParamSpec)
        requires
            self.spec_name()@.len() > 0,
            self.spec_default().spec_into_glib() & T::spec_mask() == self.spec_default().spec_into_glib(),
        ensures
            built_header(r, self.spec_name(), self.spec_nick(), self.spec_blurb(), self.spec_flags(), T::spec_static_type()),
            r.data().kind == (ParamSpecKind::Flags { default_value: self.spec_default().spec_into_glib(), mask: T::spec_mask() }),
    {
        let default_value = self.default_value.into_glib();
        let mask = T::mask();
        make_spec(
            self.name,
            self.nick,
            self.blurb,
            self.flags,
            T::static_type(),
            ParamSpecKind::Flags { default_value, mask },
        )
    }
}

impl<'a, T: FlagsType> ParamSpecBuilderExt<'a> for ParamSpecFlagsBuilder<'a, T> {
    closed spec fn spec_nick(&self) -> Option<&'a str> {
        self.nick
    }

    closed spec fn spec_blurb(&self) -> Option<&'a str> {
        self.blurb
    }

    closed spec fn spec_flags(&self) -> u32 {
        self.flags@
    }

    open spec fn spec_same_payload(&self, other: Self) -> bool {
        self.spec_name() == other.spec_name() &&
        self.spec_default() == other.spec_default()
    }

    fn set_nick(&mut self, nick: Option<&'a str>) {
        self.nick = nick;
    }

    fn set_blurb(&mut self, blurb: Option<&'a str>) {
        self.blurb = blurb;
    }

    fn set_flags(&mut self, flags: ParamFlags) {
        self.flags = flags;
    }

    fn current_flags(&self) -> (r: ParamFlags) {
        self.flags
    }
}

/// Builder of a property holding a value of the boxed type `T`.
pub struct ParamSpecBoxedBuilder<'a, T: StaticType> {
    name: &'a str,
    nick: Option<&'a str>,
    blurb: Option<&'a str>,
    flags: ParamFlags,
    phantom: std::marker::PhantomData<T>,
}

/// A property holding a value of a boxed type.
pub struct ParamSpecBoxed {
    inner: ParamSpec,
}

impl ParamSpecBoxed {
    /// Starts building a specification named `name`.
    pub fn builder<'a, T: StaticType>(name: &'a str) -> (r: ParamSpecBoxedBuilder<'a, T>)
        requires
            spec_is_canonical_pspec_name(name.spec_bytes()),
            T::spec_static_is_a(Type(72)),
        ensures
            r.spec_name() == name,
            r.spec_nick() == None::<&str>,
            r.spec_blurb() == None::<&str>,
            r.spec_flags() == 3u32,
    {
        ParamSpecBoxedBuilder::new(name)
    }
}

impl<'a, T: StaticType> ParamSpecBoxedBuilder<'a, T> {
    /// The name given.
    pub closed spec fn spec_name(&self) -> &'a str {
        self.name
    }

    fn new(name: &'a str) -> (r: Self)
        requires
            spec_is_canonical_pspec_name(name.spec_bytes()),
            T::spec_static_is_a(Type(72)),
        ensures
            r.spec_name() == name,
            r.spec_nick() == None::<&str>,
            r.spec_blurb() == None::<&str>,
            r.spec_flags() == 3u32,
    {
        assert_param_name(name);
        ParamSpecBoxedBuilder {
            name,
            nick: None,
            blurb: None,
            flags: ParamFlags::default(),
            phantom: std::marker::PhantomData,
        }
    }

    /// Builds the specification; the name must not be empty.
    pub fn build(self) -> (r: ParamSpec)
        requires
            self.spec_name()@.len() > 0,
        ensures
            built_header(r, self.spec_name(), self.spec_nick(), self.spec_blurb(), self.spec_flags(), T::spec_static_type()),
            r.data().kind == ParamSpecKind::Boxed,
    {
        make_spec(
            self.name,
            self.nick,
            self.blurb,
            self.flags,
            T::static_type(),
            ParamSpecKind::Boxed,
        )
    }
}

impl<'a, T: StaticType> ParamSpecBuilderExt<'a> for ParamSpecBoxedBuilder<'a, T> {
    closed spec fn spec_nick(&self) -> Option<&'a str> {
        self.nick
    }

    closed spec fn spec_blurb(&self) -> Option<&'a str> {
        self.blurb
    }

    closed spec fn spec_flags(&self) -> u32 {
        self.flags@
    }

    open spec fn spec_same_payload(&self, other: Self) -> bool {
        self.spec_name() == other.spec_name()
    }

    fn set_nick(&mut self, nick: Option<&'a str>) {
        self.nick = nick;
    }

    fn set_blurb(&mut self, blurb: Option<&'a str>) {
        self.blurb = blurb;
    }

    fn set_flags(&mut self, flags: ParamFlags) {
        self.flags = flags;
    }

    fn current_flags(&self) -> (r: ParamFlags) {
        self.flags
    }
}

/// Builder of a property holding a value of the object type `T`.
pub struct ParamSpecObjectBuilder<'a, T: StaticType> {
    name: &'a str,
    nick: Option<&'a str>,
    blurb: Option<&'a str>,
    flags: ParamFlags,
    phantom: std::marker::PhantomData<T>,
}

/// A property holding a value of a object type.
pub struct ParamSpecObject {
    inner: ParamSpec,
}

impl ParamSpecObject {
    /// Starts building a specification named `name`.
    pub fn builder<'a, T: StaticType>(name: &'a str) -> (r: ParamSpecObjectBuilder<'a, T>)
        requires
            spec_is_canonical_pspec_name(name.spec_bytes()),
            T::spec_static_is_a(Type(80)),
        ensures
            r.spec_name() == name,
            r.spec_nick() == None::<&str>,
            r.spec_blurb() == None::<&str>,
            r.spec_flags() == 3u32,
    {
        ParamSpecObjectBuilder::new(name)
    }
}

impl<'a, T: StaticType> ParamSpecObjectBuilder<'a, T> {
    /// The name given.
    pub closed spec fn spec_name(&self) -> &'a str {
        self.name
    }

    fn new(name: &'a str) -> (r: Self)
        requires
            spec_is_canonical_pspec_name(name.spec_bytes()),
            T::spec_static_is_a(Type(80)),
        ensures
            r.spec_name() == name,
            r.spec_nick() == None::<&str>,
            r.spec_blurb() == None::<&str>,
            r.spec_flags() == 3u32,
    {
        assert_param_name(name);
        ParamSpecObjectBuilder {
            name,
            nick: None,
            blurb: None,
            flags: ParamFlags::default(),
            phantom: std::marker::PhantomData,
        }
    }

    /// Builds the specification; the name must not be empty.
    pub fn build(self) -> (r: ParamSpec)
        requires
            self.spec_name()@.len() > 0,
        ensures
            built_header(r, self.spec_name(), self.spec_nick(), self.spec_blurb(), self.spec_flags(), T::spec_static_type()),
            r.data().kind == ParamSpecKind::Object,
    {
        make_spec(
            self.name,
            self.nick,
            self.blurb,
            self.flags,
            T::static_type(),
            ParamSpecKind::Object,
        )
    }
}

impl<'a, T: StaticType> ParamSpecBuilderExt<'a> for ParamSpecObjectBuilder<'a, T> {
    closed spec fn spec_nick(&self) -> Option<&'a str> {
        self.nick
    }

    closed spec fn spec_blurb(&self) -> Option<&'a str> {
        self.blurb
    }

    closed spec fn spec_flags(&self) -> u32 {
        self.flags@
    }

    open spec fn spec_same_payload(&self, other: Self) -> bool {
        self.spec_name() == other.spec_name()
    }

    fn set_nick(&mut self, nick: Option<&'a str>) {
        self.nick = nick;
    }

    fn set_blurb(&mut self, blurb: Option<&'a str>) {
        self.blurb = blurb;
    }

    fn set_flags(&mut self, flags: ParamFlags) {
        self.flags = flags;
    }

    fn current_flags(&self) -> (r: ParamFlags) {
        self.flags
    }
}

/// Builder of a property holding an array of values.
pub struct ParamSpecValueArrayBuilder<'a> {
    name: &'a str,
    nick: Option<&'a str>,
    blurb: Option<&'a str>,
    flags: ParamFlags,
    element_spec: Option<&'a ParamSpec>,
}

/// A property holding an array of values.
pub struct ParamSpecValueArray {
    inner: ParamSpec,
}

impl ParamSpecValueArray {
    /// Starts building a specification named `name`.
    pub fn builder<'a>(name: &'a str) -> (r: ParamSpecValueArrayBuilder<'a>)
        requires
            spec_is_canonical_pspec_name(name.spec_bytes()),
        ensures
            r.spec_name() == name,
            r.spec_nick() == None::<&str>,
            r.spec_blurb() == None::<&str>,
            r.spec_flags() == 3u32,
            r.spec_element_spec() == None::<&ParamSpec>,
    {
        ParamSpecValueArrayBuilder::new(name)
    }
}

impl<'a> ParamSpecValueArrayBuilder<'a> {
    /// The name given.
    pub closed spec fn spec_name(&self) -> &'a str {
        self.name
    }

    /// The element specification set so far.
    pub closed spec fn spec_element_spec(&self) -> Option<&'a ParamSpec> {
        self.element_spec
    }

    fn new(name: &'a str) -> (r: Self)
        requires
            spec_is_canonical_pspec_name(name.spec_bytes()),
        ensures
            r.spec_name() == name,
            r.spec_nick() == None::<&str>,
            r.spec_blurb() == None::<&str>,
            r.spec_flags() == 3u32,
            r.spec_element_spec() == None::<&ParamSpec>,
    {
        assert_param_name(name);
        ParamSpecValueArrayBuilder {
            name,
            nick: None,
            blurb: None,
            flags: ParamFlags::default(),
            element_spec: None,
        }
    }

    /// Default: no element specification.
    pub fn element_spec(self, value: Option<&'a ParamSpec>) -> (r: Self)
        ensures
            r.spec_name() == self.spec_name(),
            r.spec_nick() == self.spec_nick(),
            r.spec_blurb() == self.spec_blurb(),
            r.spec_flags() == self.spec_flags(),
            r.spec_element_spec() == value,
    {
        ParamSpecValueArrayBuilder { element_spec: value, ..self }
    }

    /// Builds the specification; the name must not be empty.
    pub fn build(self) -> (r: ParamSpec)
        requires
            self.spec_name()@.len() > 0,
        ensures
            built_header(r, self.spec_name(), self.spec_nick(), self.spec_blurb(), self.spec_flags(), Type(72)),
            r.data().kind == (ParamSpecKind::ValueArray {
                element_spec: match self.spec_element_spec() { Some(e) => Some(*e), None => None },
            }),
    {
        let element_spec = match self.element_spec {
            Some(e) => Some(e.clone()),
            None => None,
        };
        make_spec(
            self.name,
            self.nick,
            self.blurb,
            self.flags,
            Type::boxed(),
            ParamSpecKind::ValueArray { element_spec },
        )
    }
}

impl<'a> ParamSpecBuilderExt<'a> for ParamSpecValueArrayBuilder<'a> {
    closed spec fn spec_nick(&self) -> Option<&'a str> {
        self.nick
    }

    closed spec fn spec_blurb(&self) -> Option<&'a str> {
        self.blurb
    }

    closed spec fn spec_flags(&self) -> u32 {
        self.flags@
    }

    open spec fn spec_same_payload(&self, other: Self) -> bool {
        self.spec_name() == other.spec_name() &&
        self.spec_element_spec() == other.spec_element_spec()
    }

    fn set_nick(&mut self, nick: Option<&'a str>) {
        self.nick = nick;
    }

    fn set_blurb(&mut self, blurb: Option<&'a str>) {
        self.blurb = blurb;
    }

    fn set_flags(&mut self, flags: ParamFlags) {
        self.flags = flags;
    }

    fn current_flags(&self) -> (r: ParamFlags) {
        self.flags
    }
}

/// The specification an override ends up redirecting to: overrides of
/// overrides resolve to the specification they finally override.
pub open spec fn spec_final_target(p: ParamSpec) -> ParamSpec {
    match p.spec_redirect_target() {
        Some(t) => t,
        None => p,
    }
}

/// Builder of a property that overrides a property of a parent class or interface.
pub struct ParamSpecOverrideBuilder<'a> {
    name: &'a str,
    overridden: &'a ParamSpec,
}

/// A property overriding another one: it redirects to it.
pub struct ParamSpecOverride {
    inner: ParamSpec,
}

impl ParamSpecOverride {
    /// Starts building a specification named `name` overriding `overridden`.
    pub fn builder<'a>(name: &'a str, overridden: &'a ParamSpec) -> (r: ParamSpecOverrideBuilder<'a>)
        requires
            spec_is_canonical_pspec_name(name.spec_bytes()),
        ensures
            r.spec_name() == name,
            r.spec_overridden() == overridden,
    {
        ParamSpecOverrideBuilder::new(name, overridden)
    }
}

impl<'a> ParamSpecOverrideBuilder<'a> {
    /// The name given.
    pub closed spec fn spec_name(&self) -> &'a str {
        self.name
    }

    /// The overridden specification.
    pub closed spec fn spec_overridden(&self) -> &'a ParamSpec {
        self.overridden
    }

    fn new(name: &'a str, overridden: &'a ParamSpec) -> (r: Self)
        requires
            spec_is_canonical_pspec_name(name.spec_bytes()),
        ensures
            r.spec_name() == name,
            r.spec_overridden() == overridden,
    {
        assert_param_name(name);
        ParamSpecOverrideBuilder { name, overridden }
    }

    /// Replaces the overridden specification.
    pub fn overridden(self, spec: &'a ParamSpec) -> (r: Self)
        ensures
            r.spec_name() == self.spec_name(),
            r.spec_overridden() == spec,
    {
        ParamSpecOverrideBuilder { overridden: spec, ..self }
    }

    /// Builds the override: it has no nick or blurb of its own, redirects to
    /// the finally overridden specification, takes its value type, and its
    /// flags with the static-strings bits added.
    pub fn build(self) -> (r: ParamSpec)
        requires
            self.spec_name()@.len() > 0,
        ensures
            built_header(
                r,
                self.spec_name(),
                None,
                None,
                spec_final_target(*self.spec_overridden()).data().flags@ | 224u32,
                spec_final_target(*self.spec_overridden()).data().value_type,
            ),
            r.data().kind == (ParamSpecKind::Override { overridden: spec_final_target(*self.spec_overridden()) }),
    {
        let target = match self.overridden.redirect_target() {
            Some(t) => t,
            None => self.overridden.clone(),
        };
        let flags = target.stored_flags().union(ParamFlags::from_bits_retain(224));
        let value_type = target.value_type();
        make_spec(
            self.name,
            None,
            None,
            flags,
            value_type,
            ParamSpecKind::Override { overridden: target },
        )
    }
}

/// Typed views of a specification, each standing for one kind.
pub trait ParamSpecType: Sized {
    /// Whether a specification of kind `kind` is of this type.
    spec fn spec_accepts(kind: ParamSpecKind) -> bool;

    /// The specification viewed.
    spec fn spec_inner(&self) -> ParamSpec;

    /// Whether a specification of kind `kind` is of this type.
    fn accepts(kind: &ParamSpecKind) -> (r: bool)
        ensures
            r == Self::spec_accepts(*kind),
    ;

    /// Views `spec` as this type.
    fn wrap(spec: ParamSpec) -> (r: Self)
        requires
            Self::spec_accepts(spec.data().kind),
        ensures
            r.spec_inner() == spec,
    ;

    /// The specification viewed.
    fn upcast_ref(&self) -> (r: &ParamSpec)
        ensures
            *r == self.spec_inner(),
    ;
}

/// Every specification is a `ParamSpec`.
impl ParamSpecType for ParamSpec {
    open spec fn spec_accepts(kind: ParamSpecKind) -> bool {
        true
    }

    closed spec fn spec_inner(&self) -> ParamSpec {
        *self
    }

    fn accepts(kind: &ParamSpecKind) -> (r: bool) {
        true
    }

    fn wrap(spec: ParamSpec) -> (r: Self) {
        spec
    }

    fn upcast_ref(&self) -> (r: &ParamSpec) {
        self
    }
}

impl ParamSpec {
    /// Whether the specification is of the type `T`.
    pub fn is<T: ParamSpecType>(&self) -> (r: bool)
        ensures
            r == T::spec_accepts(self.data().kind),
    {
        T::accepts(self.kind())
    }

    /// Views the specification as `T`, or gives it back when it is of another type.
    pub fn downcast<T: ParamSpecType>(self) -> (r: Result<T, ParamSpec>)
        ensures
            T::spec_accepts(self.data().kind) ==> (r is Ok && r->Ok_0.spec_inner() == self),
            !T::spec_accepts(self.data().kind) ==> r == Err::<T, ParamSpec>(self),
    {
        if T::accepts(self.kind()) {
            Ok(T::wrap(self))
        } else {
            Err(self)
        }
    }
}

impl ParamSpecInt {
    #[verifier::type_invariant]
    spec fn kind_is_int(self) -> bool {
        self.inner.data().kind is Int
    }
}

impl ParamSpecType for ParamSpecInt {
    open spec fn spec_accepts(kind: ParamSpecKind) -> bool {
        kind is Int
    }

    closed spec fn spec_inner(&self) -> ParamSpec {
        self.inner
    }

    fn accepts(kind: &ParamSpecKind) -> (r: bool) {
        match kind {
            ParamSpecKind::Int { .. } => true,
            _ => false,
        }
    }

    fn wrap(spec: ParamSpec) -> (r: Self) {
        ParamSpecInt { inner: spec }
    }

    fn upcast_ref(&self) -> (r: &ParamSpec) {
        &self.inner
    }
}

impl ParamSpecInt {
    /// The smallest value the property accepts.
    pub fn minimum(&self) -> (r: i32)
        ensures
            self.spec_inner().data().kind matches ParamSpecKind::Int { minimum, .. } && r == minimum,
    {
        proof {
            use_type_invariant(self);
        }
        match self.inner.kind() {
            ParamSpecKind::Int { minimum, .. } => *minimum,
            _ => 0,
        }
    }

    /// The largest value the property accepts.
    pub fn maximum(&self) -> (r: i32)
        ensures
            self.spec_inner().data().kind matches ParamSpecKind::Int { maximum, .. } && r == maximum,
    {
        proof {
            use_type_invariant(self);
        }
        match self.inner.kind() {
            ParamSpecKind::Int { maximum, .. } => *maximum,
            _ => 0,
        }
    }

    /// The default value of the property.
    pub fn default_value(&self) -> (r: i32)
        ensures
            self.spec_inner().data().kind matches ParamSpecKind::Int { default_value, .. } && r == default_value,
    {
        proof {
            use_type_invariant(self);
        }
        match self.inner.kind() {
            ParamSpecKind::Int { default_value, .. } => *default_value,
            _ => 0,
        }
    }

    /// The specification viewed, given back.
    pub fn upcast(self) -> (r: ParamSpec)
        ensures
            r == self.spec_inner(),
    {
        self.inner
    }
}

impl ParamSpecUInt {
    #[verifier::type_invariant]
    spec fn kind_is_uint(self) -> bool {
        self.inner.data().kind is UInt
    }
}

impl ParamSpecType for ParamSpecUInt {
    open spec fn spec_accepts(kind: ParamSpecKind) -> bool {
        kind is UInt
    }

    closed spec fn spec_inner(&self) -> ParamSpec {
        self.inner
    }

    fn accepts(kind: &ParamSpecKind) -> (r: bool) {
        match kind {
            ParamSpecKind::UInt { .. } => true,
            _ => false,
        }
    }

    fn wrap(spec: ParamSpec) -> (r: Self) {
        ParamSpecUInt { inner: spec }
    }

    fn upcast_ref(&self) -> (r: &ParamSpec) {
        &self.inner
    }
}

impl ParamSpecUInt {
    /// The smallest value the property accepts.
    pub fn minimum(&self) -> (r: u32)
        ensures
            self.spec_inner().data().kind matches ParamSpecKind::UInt { minimum, .. } && r == minimum,
    {
        proof {
            use_type_invariant(self);
        }
        match self.inner.kind() {
            ParamSpecKind::UInt { minimum, .. } => *minimum,
            _ => 0,
        }
    }

    /// The largest value the property accepts.
    pub fn maximum(&self) -> (r: u32)
        ensures
            self.spec_inner().data().kind matches ParamSpecKind::UInt { maximum, .. } && r == maximum,
    {
        proof {
            use_type_invariant(self);
        }
        match self.inner.kind() {
            ParamSpecKind::UInt { maximum, .. } => *maximum,
            _ => 0,
        }
    }

    /// The default value of the property.
    pub fn default_value(&self) -> (r: u32)
        ensures
            self.spec_inner().data().kind matches ParamSpecKind::UInt { default_value, .. } && r == default_value,
    {
        proof {
            use_type_invariant(self);
        }
        match self.inner.kind() {
            ParamSpecKind::UInt { default_value, .. } => *default_value,
            _ => 0,
        }
    }

    /// The specification viewed, given back.
    pub fn upcast(self) -> (r: ParamSpec)
        ensures
            r == self.spec_inner(),
    {
        self.inner
    }
}

impl ParamSpecInt64 {
    #[verifier::type_invariant]
    spec fn kind_is_int64(self) -> bool {
        self.inner.data().kind is Int64
    }
}

impl ParamSpecType for ParamSpecInt64 {
    open spec fn spec_accepts(kind: ParamSpecKind) -> bool {
        kind is Int64
    }

    closed spec fn spec_inner(&self) -> ParamSpec {
        self.inner
    }

    fn accepts(kind: &ParamSpecKind) -> (r: bool) {
        match kind {
            ParamSpecKind::Int64 { .. } => true,
            _ => false,
        }
    }

    fn wrap(spec: ParamSpec) -> (r: Self) {
        ParamSpecInt64 { inner: spec }
    }

    fn upcast_ref(&self) -> (r: &ParamSpec) {
        &self.inner
    }
}

impl ParamSpecInt64 {
    /// The smallest value the property accepts.
    pub fn minimum(&self) -> (r: i64)
        ensures
            self.spec_inner().data().kind matches ParamSpecKind::Int64 { minimum, .. } && r == minimum,
    {
        proof {
            use_type_invariant(self);
        }
        match self.inner.kind() {
            ParamSpecKind::Int64 { minimum, .. } => *minimum,
            _ => 0,
        }
    }

    /// The largest value the property accepts.
    pub fn maximum(&self) -> (r: i64)
        ensures
            self.spec_inner().data().kind matches ParamSpecKind::Int64 { maximum, .. } && r == maximum,
    {
        proof {
            use_type_invariant(self);
        }
        match self.inner.kind() {
            ParamSpecKind::Int64 { maximum, .. } => *maximum,
            _ => 0,
        }
    }

    /// The default value of the property.
    pub fn default_value(&self) -> (r: i64)
        ensures
            self.spec_inner().data().kind matches ParamSpecKind::Int64 { default_value, .. } && r == default_value,
    {
        proof {
            use_type_invariant(self);
        }
        match self.inner.kind() {
            ParamSpecKind::Int64 { default_value, .. } => *default_value,
            _ => 0,
        }
    }

    /// The specification viewed, given back.
    pub fn upcast(self) -> (r: ParamSpec)
        ensures
            r == self.spec_inner(),
    {
        self.inner
    }
}

impl ParamSpecUInt64 {
    #[verifier::type_invariant]
    spec fn kind_is_uint64(self) -> bool {
        self.inner.data().kind is UInt64
    }
}

impl ParamSpecType for ParamSpecUInt64 {
    open spec fn spec_accepts(kind: ParamSpecKind) -> bool {
        kind is UInt64
    }

    closed spec fn spec_inner(&self) -> ParamSpec {
        self.inner
    }

    fn accepts(kind: &ParamSpecKind) -> (r: bool) {
        match kind {
            ParamSpecKind::UInt64 { .. } => true,
            _ => false,
        }
    }

    fn wrap(spec: ParamSpec) -> (r: Self) {
        ParamSpecUInt64 { inner: spec }
    }

    fn upcast_ref(&self) -> (r: &ParamSpec) {
        &self.inner
    }
}

impl ParamSpecUInt64 {
    /// The smallest value the property accepts.
    pub fn minimum(&self) -> (r: u64)
        ensures
            self.spec_inner().data().kind matches ParamSpecKind::UInt64 { minimum, .. } && r == minimum,
    {
        proof {
            use_type_invariant(self);
        }
        match self.inner.kind() {
            ParamSpecKind::UInt64 { minimum, .. } => *minimum,
            _ => 0,
        }
    }

    /// The largest value the property accepts.
    pub fn maximum(&self) -> (r: u64)
        ensures
            self.spec_inner().data().kind matches ParamSpecKind::UInt64 { maximum, .. } && r == maximum,
    {
        proof {
            use_type_invariant(self);
        }
        match self.inner.kind() {
            ParamSpecKind::UInt64 { maximum, .. } => *maximum,
            _ => 0,
        }
    }

    /// The default value of the property.
    pub fn default_value(&self) -> (r: u64)
        ensures
            self.spec_inner().data().kind matches ParamSpecKind::UInt64 { default_value, .. } && r == default_value,
    {
        proof {
            use_type_invariant(self);
        }
        match self.inner.kind() {
            ParamSpecKind::UInt64 { default_value, .. } => *default_value,
            _ => 0,
        }
    }

    /// The specification viewed, given back.
    pub fn upcast(self) -> (r: ParamSpec)
        ensures
            r == self.spec_inner(),
    {
        self.inner
    }
}

impl ParamSpecChar {
    #[verifier::type_invariant]
    spec fn kind_is_char(self) -> bool {
        self.inner.data().kind is Char
    }
}

impl ParamSpecType for ParamSpecChar {
    open spec fn spec_accepts(kind: ParamSpecKind) -> bool {
        kind is Char
    }

    closed spec fn spec_inner(&self) -> ParamSpec {
        self.inner
    }

    fn accepts(kind: &ParamSpecKind) -> (r: bool) {
        match kind {
            ParamSpecKind::Char { .. } => true,
            _ => false,
        }
    }

    fn wrap(spec: ParamSpec) -> (r: Self) {
        ParamSpecChar { inner: spec }
    }

    fn upcast_ref(&self) -> (r: &ParamSpec) {
        &self.inner
    }
}

impl ParamSpecChar {
    /// The smallest value the property accepts.
    pub fn minimum(&self) -> (r: i8)
        ensures
            self.spec_inner().data().kind matches ParamSpecKind::Char { minimum, .. } && r == minimum,
    {
        proof {
            use_type_invariant(self);
        }
        match self.inner.kind() {
            ParamSpecKind::Char { minimum, .. } => *minimum,
            _ => 0,
        }
    }

    /// The largest value the property accepts.
    pub fn maximum(&self) -> (r: i8)
        ensures
            self.spec_inner().data().kind matches ParamSpecKind::Char { maximum, .. } && r == maximum,
    {
        proof {
            use_type_invariant(self);
        }
        match self.inner.kind() {
            ParamSpecKind::Char { maximum, .. } => *maximum,
            _ => 0,
        }
    }

    /// The default value of the property.
    pub fn default_value(&self) -> (r: i8)
        ensures
            self.spec_inner().data().kind matches ParamSpecKind::Char { default_value, .. } && r == default_value,
    {
        proof {
            use_type_invariant(self);
        }
        match self.inner.kind() {
            ParamSpecKind::Char { default_value, .. } => *default_value,
            _ => 0,
        }
    }

    /// The specification viewed, given back.
    pub fn upcast(self) -> (r: ParamSpec)
        ensures
            r == self.spec_inner(),
    {
        self.inner
    }
}
impl ParamSpecUChar {
    #[verifier::type_invariant]
    spec fn kind_is_uchar(self) -> bool {
        self.inner.data().kind is UChar
    }
}

impl ParamSpecType for ParamSpecUChar {
    open spec fn spec_accepts(kind: ParamSpecKind) -> bool {
        kind is UChar
    }

    closed spec fn spec_inner(&self) -> ParamSpec {
        self.inner
    }

    fn accepts(kind: &ParamSpecKind) -> (r: bool) {
        match kind {
            ParamSpecKind::UChar { .. } => true,
            _ => false,
        }
    }

    fn wrap(spec: ParamSpec) -> (r: Self) {
        ParamSpecUChar { inner: spec }
    }

    fn upcast_ref(&self) -> (r: &ParamSpec) {
        &self.inner
    }
}

impl ParamSpecUChar {
    /// The smallest value the property accepts.
    pub fn minimum(&self) -> (r: u8)
        ensures
            self.spec_inner().data().kind matches ParamSpecKind::UChar { minimum, .. } && r == minimum,
    {
        proof {
            use_type_invariant(self);
        }
        match self.inner.kind() {
            ParamSpecKind::UChar { minimum, .. } => *minimum,
            _ => 0,
        }
    }

    /// The largest value the property accepts.
    pub fn maximum(&self) -> (r: u8)
        ensures
            self.spec_inner().data().kind matches ParamSpecKind::UChar { maximum, .. } && r == maximum,
    {
        proof {
            use_type_invariant(self);
        }
        match self.inner.kind() {
            ParamSpecKind::UChar { maximum, .. } => *maximum,
            _ => 0,
        }
    }

    /// The default value of the property.
    pub fn default_value(&self) -> (r: u8)
        ensures
            self.spec_inner().data().kind matches ParamSpecKind::UChar { default_value, .. } && r == default_value,
    {
        proof {
            use_type_invariant(self);
        }
        match self.inner.kind() {
            ParamSpecKind::UChar { default_value, .. } => *default_value,
            _ => 0,
        }
    }

    /// The specification viewed, given back.
    pub fn upcast(self) -> (r: ParamSpec)
        ensures
            r == self.spec_inner(),
    {
        self.inner
    }
}
impl ParamSpecLong {
    #[verifier::type_invariant]
    spec fn kind_is_long(self) -> bool {
        self.inner.data().kind is Long
    }
}

impl ParamSpecType for ParamSpecLong {
    open spec fn spec_accepts(kind: ParamSpecKind) -> bool {
        kind is Long
    }

    closed spec fn spec_inner(&self) -> ParamSpec {
        self.inner
    }

    fn accepts(kind: &ParamSpecKind) -> (r: bool) {
        match kind {
            ParamSpecKind::Long { .. } => true,
            _ => false,
        }
    }

    fn wrap(spec: ParamSpec) -> (r: Self) {
        ParamSpecLong { inner: spec }
    }

    fn upcast_ref(&self) -> (r: &ParamSpec) {
        &self.inner
    }
}

impl ParamSpecLong {
    /// The smallest value the property accepts.
    pub fn minimum(&self) -> (r: i64)
        ensures
            self.spec_inner().data().kind matches ParamSpecKind::Long { minimum, .. } && r == minimum,
    {
        proof {
            use_type_invariant(self);
        }
        match self.inner.kind() {
            ParamSpecKind::Long { minimum, .. } => *minimum,
            _ => 0,
        }
    }

    /// The largest value the property accepts.
    pub fn maximum(&self) -> (r: i64)
        ensures
            self.spec_inner().data().kind matches ParamSpecKind::Long { maximum, .. } && r == maximum,
    {
        proof {
            use_type_invariant(self);
        }
        match self.inner.kind() {
            ParamSpecKind::Long { maximum, .. } => *maximum,
            _ => 0,
        }
    }

    /// The default value of the property.
    pub fn default_value(&self) -> (r: i64)
        ensures
            self.spec_inner().data().kind matches ParamSpecKind::Long { default_value, .. } && r == default_value,
    {
        proof {
            use_type_invariant(self);
        }
        match self.inner.kind() {
            ParamSpecKind::Long { default_value, .. } => *default_value,
            _ => 0,
        }
    }

    /// The specification viewed, given back.
    pub fn upcast(self) -> (r: ParamSpec)
        ensures
            r == self.spec_inner(),
    {
        self.inner
    }
}
impl ParamSpecULong {
    #[verifier::type_invariant]
    spec fn kind_is_ulong(self) -> bool {
        self.inner.data().kind is ULong
    }
}

impl ParamSpecType for ParamSpecULong {
    open spec fn spec_accepts(kind: ParamSpecKind) -> bool {
        kind is ULong
    }

    closed spec fn spec_inner(&self) -> ParamSpec {
        self.inner
    }

    fn accepts(kind: &ParamSpecKind) -> (r: bool) {
        match kind {
            ParamSpecKind::ULong { .. } => true,
            _ => false,
        }
    }

    fn wrap(spec: ParamSpec) -> (r: Self) {
        ParamSpecULong { inner: spec }
    }

    fn upcast_ref(&self) -> (r: &ParamSpec) {
        &self.inner
    }
}

impl ParamSpecULong {
    /// The smallest value the property accepts.
    pub fn minimum(&self) -> (r: u64)
        ensures
            self.spec_inner().data().kind matches ParamSpecKind::ULong { minimum, .. } && r == minimum,
    {
        proof {
            use_type_invariant(self);
        }
        match self.inner.kind() {
            ParamSpecKind::ULong { minimum, .. } => *minimum,
            _ => 0,
        }
    }

    /// The largest value the property accepts.
    pub fn maximum(&self) -> (r: u64)
        ensures
            self.spec_inner().data().kind matches ParamSpecKind::ULong { maximum, .. } && r == maximum,
    {
        proof {
            use_type_invariant(self);
        }
        match self.inner.kind() {
            ParamSpecKind::ULong { maximum, .. } => *maximum,
            _ => 0,
        }
    }

    /// The default value of the property.
    pub fn default_value(&self) -> (r: u64)
        ensures
            self.spec_inner().data().kind matches ParamSpecKind::ULong { default_value, .. } && r == default_value,
    {
        proof {
            use_type_invariant(self);
        }
        match self.inner.kind() {
            ParamSpecKind::ULong { default_value, .. } => *default_value,
            _ => 0,
        }
    }

    /// The specification viewed, given back.
    pub fn upcast(self) -> (r: ParamSpec)
        ensures
            r == self.spec_inner(),
    {
        self.inner
    }
}
impl ParamSpecBoolean {
    #[verifier::type_invariant]
    spec fn kind_is_boolean(self) -> bool {
        self.inner.data().kind is Boolean
    }
}

impl ParamSpecType for ParamSpecBoolean {
    open spec fn spec_accepts(kind: ParamSpecKind) -> bool {
        kind is Boolean
    }

    closed spec fn spec_inner(&self) -> ParamSpec {
        self.inner
    }

    fn accepts(kind: &ParamSpecKind) -> (r: bool) {
        match kind {
            ParamSpecKind::Boolean { .. } => true,
            _ => false,
        }
    }

    fn wrap(spec: ParamSpec) -> (r: Self) {
        ParamSpecBoolean { inner: spec }
    }

    fn upcast_ref(&self) -> (r: &ParamSpec) {
        &self.inner
    }
}

impl ParamSpecBoolean {
    /// The default value of the property.
    pub fn default_value(&self) -> (r: bool)
        ensures
            self.spec_inner().data().kind matches ParamSpecKind::Boolean { default_value } && r == default_value,
    {
        proof {
            use_type_invariant(self);
        }
        match self.inner.kind() {
            ParamSpecKind::Boolean { default_value } => *default_value,
            _ => false,
        }
    }

    /// The specification viewed, given back.
    pub fn upcast(self) -> (r: ParamSpec)
        ensures
            r == self.spec_inner(),
    {
        self.inner
    }
}

impl ParamSpecString {
    #[verifier::type_invariant]
    spec fn kind_is_string(self) -> bool {
        self.inner.data().kind is String
    }
}

impl ParamSpecType for ParamSpecString {
    open spec fn spec_accepts(kind: ParamSpecKind) -> bool {
        kind is String
    }

    closed spec fn spec_inner(&self) -> ParamSpec {
        self.inner
    }

    fn accepts(kind: &ParamSpecKind) -> (r: bool) {
        match kind {
            ParamSpecKind::String { .. } => true,
            _ => false,
        }
    }

    fn wrap(spec: ParamSpec) -> (r: Self) {
        ParamSpecString { inner: spec }
    }

    fn upcast_ref(&self) -> (r: &ParamSpec) {
        &self.inner
    }
}

impl ParamSpecString {
    /// The default value of the property, if any.
    pub fn default_value(&self) -> (r: Option<&str>)
        ensures
            self.spec_inner().data().kind matches ParamSpecKind::String { default_value }
                && opt_str_view(r) == opt_view(default_value),
    {
        proof {
            use_type_invariant(self);
        }
        match self.inner.kind() {
            ParamSpecKind::String { default_value } => match default_value {
                Some(d) => Some(d.as_str()),
                None => None,
            },
            _ => None,
        }
    }

    /// The specification viewed, given back.
    pub fn upcast(self) -> (r: ParamSpec)
        ensures
            r == self.spec_inner(),
    {
        self.inner
    }
}

impl ParamSpecEnum {
    #[verifier::type_invariant]
    spec fn kind_is_enum(self) -> bool {
        self.inner.data().kind is Enum
    }
}

impl ParamSpecType for ParamSpecEnum {
    open spec fn spec_accepts(kind: ParamSpecKind) -> bool {
        kind is Enum
    }

    closed spec fn spec_inner(&self) -> ParamSpec {
        self.inner
    }

    fn accepts(kind: &ParamSpecKind) -> (r: bool) {
        match kind {
            ParamSpecKind::Enum { .. } => true,
            _ => false,
        }
    }

    fn wrap(spec: ParamSpec) -> (r: Self) {
        ParamSpecEnum { inner: spec }
    }

    fn upcast_ref(&self) -> (r: &ParamSpec) {
        &self.inner
    }
}

impl ParamSpecEnum {
    /// The number of the default value of the property.
    pub fn default_value(&self) -> (r: i32)
        ensures
            self.spec_inner().data().kind matches ParamSpecKind::Enum { default_value, .. } && r == default_value,
    {
        proof {
            use_type_invariant(self);
        }
        match self.inner.kind() {
            ParamSpecKind::Enum { default_value, .. } => *default_value,
            _ => 0,
        }
    }

    /// The specification viewed, given back.
    pub fn upcast(self) -> (r: ParamSpec)
        ensures
            r == self.spec_inner(),
    {
        self.inner
    }
}

impl ParamSpecFlags {
    #[verifier::type_invariant]
    spec fn kind_is_flags(self) -> bool {
        self.inner.data().kind is Flags
    }
}

impl ParamSpecType for ParamSpecFlags {
    open spec fn spec_accepts(kind: ParamSpecKind) -> bool {
        kind is Flags
    }

    closed spec fn spec_inner(&self) -> ParamSpec {
        self.inner
    }

    fn accepts(kind: &ParamSpecKind) -> (r: bool) {
        match kind {
            ParamSpecKind::Flags { .. } => true,
            _ => false,
        }
    }

    fn wrap(spec: ParamSpec) -> (r: Self) {
        ParamSpecFlags { inner: spec }
    }

    fn upcast_ref(&self) -> (r: &ParamSpec) {
        &self.inner
    }
}

impl ParamSpecFlags {
    /// The bits of the default value of the property.
    pub fn default_value(&self) -> (r: u32)
        ensures
            self.spec_inner().data().kind matches ParamSpecKind::Flags { default_value, .. } && r == default_value,
    {
        proof {
            use_type_invariant(self);
        }
        match self.inner.kind() {
            ParamSpecKind::Flags { default_value, .. } => *default_value,
            _ => 0,
        }
    }

    /// The specification viewed, given back.
    pub fn upcast(self) -> (r: ParamSpec)
        ensures
            r == self.spec_inner(),
    {
        self.inner
    }
}

impl ParamSpecBoxed {
    #[verifier::type_invariant]
    spec fn kind_is_boxed(self) -> bool {
        self.inner.data().kind is Boxed
    }
}

impl ParamSpecType for ParamSpecBoxed {
    open spec fn spec_accepts(kind: ParamSpecKind) -> bool {
        kind is Boxed
    }

    closed spec fn spec_inner(&self) -> ParamSpec {
        self.inner
    }

    fn accepts(kind: &ParamSpecKind) -> (r: bool) {
        match kind {
            ParamSpecKind::Boxed { .. } => true,
            _ => false,
        }
    }

    fn wrap(spec: ParamSpec) -> (r: Self) {
        ParamSpecBoxed { inner: spec }
    }

    fn upcast_ref(&self) -> (r: &ParamSpec) {
        &self.inner
    }
}

impl ParamSpecBoxed {
    /// The specification viewed, given back.
    pub fn upcast(self) -> (r: ParamSpec)
        ensures
            r == self.spec_inner(),
    {
        self.inner
    }
}

impl ParamSpecObject {
    #[verifier::type_invariant]
    spec fn kind_is_object(self) -> bool {
        self.inner.data().kind is Object
    }
}

impl ParamSpecType for ParamSpecObject {
    open spec fn spec_accepts(kind: ParamSpecKind) -> bool {
        kind is Object
    }

    closed spec fn spec_inner(&self) -> ParamSpec {
        self.inner
    }

    fn accepts(kind: &ParamSpecKind) -> (r: bool) {
        match kind {
            ParamSpecKind::Object { .. } => true,
            _ => false,
        }
    }

    fn wrap(spec: ParamSpec) -> (r: Self) {
        ParamSpecObject { inner: spec }
    }

    fn upcast_ref(&self) -> (r: &ParamSpec) {
        &self.inner
    }
}

impl ParamSpecObject {
    /// The specification viewed, given back.
    pub fn upcast(self) -> (r: ParamSpec)
        ensures
            r == self.spec_inner(),
    {
        self.inner
    }
}

impl ParamSpecValueArray {
    #[verifier::type_invariant]
    spec fn kind_is_valuearray(self) -> bool {
        self.inner.data().kind is ValueArray
    }
}

impl ParamSpecType for ParamSpecValueArray {
    open spec fn spec_accepts(kind: ParamSpecKind) -> bool {
        kind is ValueArray
    }

    closed spec fn spec_inner(&self) -> ParamSpec {
        self.inner
    }

    fn accepts(kind: &ParamSpecKind) -> (r: bool) {
        match kind {
            ParamSpecKind::ValueArray { .. } => true,
            _ => false,
        }
    }

    fn wrap(spec: ParamSpec) -> (r: Self) {
        ParamSpecValueArray { inner: spec }
    }

    fn upcast_ref(&self) -> (r: &ParamSpec) {
        &self.inner
    }
}

impl ParamSpecValueArray {
    /// The specification of the elements, if any.
    pub fn element_spec(&self) -> (r: Option<&ParamSpec>)
        ensures
            self.spec_inner().data().kind matches ParamSpecKind::ValueArray { element_spec } && r == match element_spec {
                Some(e) => Some(&e),
                None => None::<&ParamSpec>,
            },
    {
        proof {
            use_type_invariant(self);
        }
        match self.inner.kind() {
            ParamSpecKind::ValueArray { element_spec } => element_spec.as_ref(),
            _ => None,
        }
    }

    /// The specification viewed, given back.
    pub fn upcast(self) -> (r: ParamSpec)
        ensures
            r == self.spec_inner(),
    {
        self.inner
    }
}

impl ParamSpecOverride {
    #[verifier::type_invariant]
    spec fn kind_is_override(self) -> bool {
        self.inner.data().kind is Override
    }
}

impl ParamSpecType for ParamSpecOverride {
    open spec fn spec_accepts(kind: ParamSpecKind) -> bool {
        kind is Override
    }

    closed spec fn spec_inner(&self) -> ParamSpec {
        self.inner
    }

    fn accepts(kind: &ParamSpecKind) -> (r: bool) {
        match kind {
            ParamSpecKind::Override { .. } => true,
            _ => false,
        }
    }

    fn wrap(spec: ParamSpec) -> (r: Self) {
        ParamSpecOverride { inner: spec }
    }

    fn upcast_ref(&self) -> (r: &ParamSpec) {
        &self.inner
    }
}

impl ParamSpecOverride {
    /// The overridden specification.
    pub fn overridden(&self) -> (r: ParamSpec)
        ensures
            self.spec_inner().data().kind matches ParamSpecKind::Override { overridden } && r == overridden,
    {
        proof {
            use_type_invariant(self);
        }
        match self.inner.kind() {
            ParamSpecKind::Override { overridden } => overridden.clone(),
            _ => self.inner.clone(),
        }
    }

    /// The specification viewed, given back.
    pub fn upcast(self) -> (r: ParamSpec)
        ensures
            r == self.spec_inner(),
    {
        self.inner
    }
}
/// Types with a property specification of their own: the builder that
/// starts a specification of a property holding the type.
pub trait HasParamSpec {
    /// The kind of specification.
    type ParamSpec;
    /// The preferred type to set such a property from.
    type SetValue: ?Sized;
    /// The builder of the specification.
    type Builder<'a>;

    /// Starts building a specification named `name`.
    fn param_spec_builder<'a>(name: &'a str) -> Self::Builder<'a>
        requires
            spec_is_canonical_pspec_name(name.spec_bytes()),
    ;
}

impl HasParamSpec for i32 {
    type ParamSpec = ParamSpecInt;
    type SetValue = i32;
    type Builder<'a> = ParamSpecIntBuilder<'a>;

    fn param_spec_builder<'a>(name: &'a str) -> (r: ParamSpecIntBuilder<'a>)
        ensures
            r.spec_name() == name,
            r.spec_nick() == None::<&str>,
            r.spec_blurb() == None::<&str>,
            r.spec_flags() == 3u32,
            r.spec_range() == (None::<i32>, None::<i32>, None::<i32>),
    {
        ParamSpecInt::builder(name)
    }
}

impl HasParamSpec for u32 {
    type ParamSpec = ParamSpecUInt;
    type SetValue = u32;
    type Builder<'a> = ParamSpecUIntBuilder<'a>;

    fn param_spec_builder<'a>(name: &'a str) -> (r: ParamSpecUIntBuilder<'a>)
        ensures
            r.spec_name() == name,
            r.spec_nick() == None::<&str>,
            r.spec_blurb() == None::<&str>,
            r.spec_flags() == 3u32,
            r.spec_range() == (None::<u32>, None::<u32>, None::<u32>),
    {
        ParamSpecUInt::builder(name)
    }
}

impl HasParamSpec for i64 {
    type ParamSpec = ParamSpecInt64;
    type SetValue = i64;
    type Builder<'a> = ParamSpecInt64Builder<'a>;

    fn param_spec_builder<'a>(name: &'a str) -> (r: ParamSpecInt64Builder<'a>)
        ensures
            r.spec_name() == name,
            r.spec_nick() == None::<&str>,
            r.spec_blurb() == None::<&str>,
            r.spec_flags() == 3u32,
            r.spec_range() == (None::<i64>, None::<i64>, None::<i64>),
    {
        ParamSpecInt64::builder(name)
    }
}

impl HasParamSpec for u64 {
    type ParamSpec = ParamSpecUInt64;
    type SetValue = u64;
    type Builder<'a> = ParamSpecUInt64Builder<'a>;

    fn param_spec_builder<'a>(name: &'a str) -> (r: ParamSpecUInt64Builder<'a>)
        ensures
            r.spec_name() == name,
            r.spec_nick() == None::<&str>,
            r.spec_blurb() == None::<&str>,
            r.spec_flags() == 3u32,
            r.spec_range() == (None::<u64>, None::<u64>, None::<u64>),
    {
        ParamSpecUInt64::builder(name)
    }
}

impl HasParamSpec for bool {
    type ParamSpec = ParamSpecBoolean;
    type SetValue = bool;
    type Builder<'a> = ParamSpecBooleanBuilder<'a>;

    fn param_spec_builder<'a>(name: &'a str) -> (r: ParamSpecBooleanBuilder<'a>)
        ensures
            r.spec_name() == name,
            r.spec_nick() == None::<&str>,
            r.spec_blurb() == None::<&str>,
            r.spec_flags() == 3u32,
            r.spec_default() == None::<bool>,
    {
        ParamSpecBoolean::builder(name)
    }
}

impl HasParamSpec for String {
    type ParamSpec = ParamSpecString;
    type SetValue = str;
    type Builder<'a> = ParamSpecStringBuilder<'a>;

    fn param_spec_builder<'a>(name: &'a str) -> (r: ParamSpecStringBuilder<'a>)
        ensures
            r.spec_name() == name,
            r.spec_nick() == None::<&str>,
            r.spec_blurb() == None::<&str>,
            r.spec_flags() == 3u32,
            r.spec_default() == None::<&str>,
    {
        ParamSpecString::builder(name)
    }
}

impl HasParamSpec for str {
    type ParamSpec = ParamSpecString;
    type SetValue = str;
    type Builder<'a> = ParamSpecStringBuilder<'a>;

    fn param_spec_builder<'a>(name: &'a str) -> (r: ParamSpecStringBuilder<'a>)
        ensures
            r.spec_name() == name,
            r.spec_nick() == None::<&str>,
            r.spec_blurb() == None::<&str>,
            r.spec_flags() == 3u32,
            r.spec_default() == None::<&str>,
    {
        ParamSpecString::builder(name)
    }
}

impl std::ops::Deref for ParamSpecInt {
    type Target = ParamSpec;

    fn deref(&self) -> (r: &ParamSpec)
        ensures
            *r == self.spec_inner(),
    {
        &self.inner
    }
}

impl std::ops::Deref for ParamSpecUInt {
    type Target = ParamSpec;

    fn deref(&self) -> (r: &ParamSpec)
        ensures
            *r == self.spec_inner(),
    {
        &self.inner
    }
}

impl std::ops::Deref for ParamSpecInt64 {
    type Target = ParamSpec;

    fn deref(&self) -> (r: &ParamSpec)
        ensures
            *r == self.spec_inner(),
    {
        &self.inner
    }
}

impl std::ops::Deref for ParamSpecUInt64 {
    type Target = ParamSpec;

    fn deref(&self) -> (r: &ParamSpec)
        ensures
            *r == self.spec_inner(),
    {
        &self.inner
    }
}

impl std::ops::Deref for ParamSpecBoolean {
    type Target = ParamSpec;

    fn deref(&self) -> (r: &ParamSpec)
        ensures
            *r == self.spec_inner(),
    {
        &self.inner
    }
}

impl std::ops::Deref for ParamSpecString {
    type Target = ParamSpec;

    fn deref(&self) -> (r: &ParamSpec)
        ensures
            *r == self.spec_inner(),
    {
        &self.inner
    }
}

impl std::ops::Deref for ParamSpecEnum {
    type Target = ParamSpec;

    fn deref(&self) -> (r: &ParamSpec)
        ensures
            *r == self.spec_inner(),
    {
        &self.inner
    }
}

impl std::ops::Deref for ParamSpecFlags {
    type Target = ParamSpec;

    fn deref(&self) -> (r: &ParamSpec)
        ensures
            *r == self.spec_inner(),
    {
        &self.inner
    }
}

impl std::ops::Deref for ParamSpecBoxed {
    type Target = ParamSpec;

    fn deref(&self) -> (r: &ParamSpec)
        ensures
            *r == self.spec_inner(),
    {
        &self.inner
    }
}

impl std::ops::Deref for ParamSpecObject {
    type Target = ParamSpec;

    fn deref(&self) -> (r: &ParamSpec)
        ensures
            *r == self.spec_inner(),
    {
        &self.inner
    }
}

impl std::ops::Deref for ParamSpecValueArray {
    type Target = ParamSpec;

    fn deref(&self) -> (r: &ParamSpec)
        ensures
            *r == self.spec_inner(),
    {
        &self.inner
    }
}

impl std::ops::Deref for ParamSpecOverride {
    type Target = ParamSpec;

    fn deref(&self) -> (r: &ParamSpec)
        ensures
            *r == self.spec_inner(),
    {
        &self.inner
    }
}

impl std::ops::Deref for ParamSpecChar {
    type Target = ParamSpec;

    fn deref(&self) -> (r: &ParamSpec)
        ensures
            *r == self.spec_inner(),
    {
        &self.inner
    }
}
impl std::ops::Deref for ParamSpecUChar {
    type Target = ParamSpec;

    fn deref(&self) -> (r: &ParamSpec)
        ensures
            *r == self.spec_inner(),
    {
        &self.inner
    }
}
impl std::ops::Deref for ParamSpecLong {
    type Target = ParamSpec;

    fn deref(&self) -> (r: &ParamSpec)
        ensures
            *r == self.spec_inner(),
    {
        &self.inner
    }
}
impl std::ops::Deref for ParamSpecULong {
    type Target = ParamSpec;

    fn deref(&self) -> (r: &ParamSpec)
        ensures
            *r == self.spec_inner(),
    {
        &self.inner
    }
}
impl HasParamSpec for i8 {
    type ParamSpec = ParamSpecChar;
    type SetValue = i8;
    type Builder<'a> = ParamSpecCharBuilder<'a>;

    fn param_spec_builder<'a>(name: &'a str) -> (r: ParamSpecCharBuilder<'a>)
        ensures
            r.spec_name() == name,
            r.spec_nick() == None::<&str>,
            r.spec_blurb() == None::<&str>,
            r.spec_flags() == 3u32,
            r.spec_range() == (None::<i8>, None::<i8>, None::<i8>),
    {
        ParamSpecChar::builder(name)
    }
}

impl HasParamSpec for u8 {
    type ParamSpec = ParamSpecUChar;
    type SetValue = u8;
    type Builder<'a> = ParamSpecUCharBuilder<'a>;

    fn param_spec_builder<'a>(name: &'a str) -> (r: ParamSpecUCharBuilder<'a>)
        ensures
            r.spec_name() == name,
            r.spec_nick() == None::<&str>,
            r.spec_blurb() == None::<&str>,
            r.spec_flags() == 3u32,
            r.spec_range() == (None::<u8>, None::<u8>, None::<u8>),
    {
        ParamSpecUChar::builder(name)
    }
}

} // verus!
