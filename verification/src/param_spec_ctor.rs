use vstd::prelude::*;
use vstd::string::StringSliceAdditionalSpecFns;

use crate::param_flags::ParamFlags;
use crate::param_spec::{
    assert_param_name, opt_str_view, opt_to_string, opt_view, spec_is_canonical_pspec_name,
    ParamSpec, ParamSpecKind,
};
use crate::param_spec_builder::{
    built_header, make_spec, spec_final_target, ParamSpecBoolean, ParamSpecChar, ParamSpecInt,
    ParamSpecInt64, ParamSpecLong, ParamSpecOverride, ParamSpecString, ParamSpecUChar,
    ParamSpecUInt, ParamSpecUInt64, ParamSpecULong, ParamSpecUnichar, ParamSpecValueArray,
};
use crate::types::Type;

verus! {

// Constructors that take every field of a specification at once. The
// builders are the preferred way to make specifications; these give the same
// result for the same fields.

impl ParamSpecChar {
    /// A specification named `name` for `i8` values in
    /// `minimum..=maximum`; the name must be a nonempty canonical name and
    /// the default must lie within the bounds.
    pub fn new<'a>(
        name: &'a str,
        nick: Option<&'a str>,
        blurb: Option<&'a str>,
        minimum: i8,
        maximum: i8,
        default_value: i8,
        flags: ParamFlags,
    ) -> (r: ParamSpec)
        requires
            spec_is_canonical_pspec_name(name.spec_bytes()),
            name@.len() > 0,
            minimum <= default_value <= maximum,
        ensures
            built_header(r, name, nick, blurb, flags@, Type(12)),
            r.data().kind == (ParamSpecKind::Char { minimum, maximum, default_value }),
    {
        assert_param_name(name);
        make_spec(name, nick, blurb, flags, Type::i8(), ParamSpecKind::Char { minimum, maximum, default_value })
    }
}

impl ParamSpecUChar {
    /// A specification named `name` for `u8` values in
    /// `minimum..=maximum`; the name must be a nonempty canonical name and
    /// the default must lie within the bounds.
    pub fn new<'a>(
        name: &'a str,
        nick: Option<&'a str>,
        blurb: Option<&'a str>,
        minimum: u8,
        maximum: u8,
        default_value: u8,
        flags: ParamFlags,
    ) -> (r: ParamSpec)
        requires
            spec_is_canonical_pspec_name(name.spec_bytes()),
            name@.len() > 0,
            minimum <= default_value <= maximum,
        ensures
            built_header(r, name, nick, blurb, flags@, Type(16)),
            r.data().kind == (ParamSpecKind::UChar { minimum, maximum, default_value }),
    {
        assert_param_name(name);
        make_spec(name, nick, blurb, flags, Type::u8(), ParamSpecKind::UChar { minimum, maximum, default_value })
    }
}

impl ParamSpecInt {
    /// A specification named `name` for `i32` values in
    /// `minimum..=maximum`; the name must be a nonempty canonical name and
    /// the default must lie within the bounds.
    pub fn new<'a>(
        name: &'a str,
        nick: Option<&'a str>,
        blurb: Option<&'a str>,
        minimum: i32,
        maximum: i32,
        default_value: i32,
        flags: ParamFlags,
    ) -> (r: ParamSpec)
        requires
            spec_is_canonical_pspec_name(name.spec_bytes()),
            name@.len() > 0,
            minimum <= default_value <= maximum,
        ensures
            built_header(r, name, nick, blurb, flags@, Type(24)),
            r.data().kind == (ParamSpecKind::Int { minimum, maximum, default_value }),
    {
        assert_param_name(name);
        make_spec(name, nick, blurb, flags, Type::i32(), ParamSpecKind::Int { minimum, maximum, default_value })
    }
}

impl ParamSpecUInt {
    /// A specification named `name` for `u32` values in
    /// `minimum..=maximum`; the name must be a nonempty canonical name and
    /// the default must lie within the bounds.
    pub fn new<'a>(
        name: &'a str,
        nick: Option<&'a str>,
        blurb: Option<&'a str>,
        minimum: u32,
        maximum: u32,
        default_value: u32,
        flags: ParamFlags,
    ) -> (r: ParamSpec)
        requires
            spec_is_canonical_pspec_name(name.spec_bytes()),
            name@.len() > 0,
            minimum <= default_value <= maximum,
        ensures
            built_header(r, name, nick, blurb, flags@, Type(28)),
            r.data().kind == (ParamSpecKind::UInt { minimum, maximum, default_value }),
    {
        assert_param_name(name);
        make_spec(name, nick, blurb, flags, Type::u32(), ParamSpecKind::UInt { minimum, maximum, default_value })
    }
}

impl ParamSpecInt64 {
    /// A specification named `name` for `i64` values in
    /// `minimum..=maximum`; the name must be a nonempty canonical name and
    /// the default must lie within the bounds.
    pub fn new<'a>(
        name: &'a str,
        nick: Option<&'a str>,
        blurb: Option<&'a str>,
        minimum: i64,
        maximum: i64,
        default_value: i64,
        flags: ParamFlags,
    ) -> (r: ParamSpec)
        requires
            spec_is_canonical_pspec_name(name.spec_bytes()),
            name@.len() > 0,
            minimum <= default_value <= maximum,
        ensures
            built_header(r, name, nick, blurb, flags@, Type(40)),
            r.data().kind == (ParamSpecKind::Int64 { minimum, maximum, default_value }),
    {
        assert_param_name(name);
        make_spec(name, nick, blurb, flags, Type::i64(), ParamSpecKind::Int64 { minimum, maximum, default_value })
    }
}

impl ParamSpecUInt64 {
    /// A specification named `name` for `u64` values in
    /// `minimum..=maximum`; the name must be a nonempty canonical name and
    /// the default must lie within the bounds.
    pub fn new<'a>(
        name: &'a str,
        nick: Option<&'a str>,
        blurb: Option<&'a str>,
        minimum: u64,
        maximum: u64,
        default_value: u64,
        flags: ParamFlags,
    ) -> (r: ParamSpec)
        requires
            spec_is_canonical_pspec_name(name.spec_bytes()),
            name@.len() > 0,
            minimum <= default_value <= maximum,
        ensures
            built_header(r, name, nick, blurb, flags@, Type(44)),
            r.data().kind == (ParamSpecKind::UInt64 { minimum, maximum, default_value }),
    {
        assert_param_name(name);
        make_spec(name, nick, blurb, flags, Type::u64(), ParamSpecKind::UInt64 { minimum, maximum, default_value })
    }
}

impl ParamSpecLong {
    /// A specification named `name` for `i64` values in
    /// `minimum..=maximum`; the name must be a nonempty canonical name and
    /// the default must lie within the bounds.
    pub fn new<'a>(
        name: &'a str,
        nick: Option<&'a str>,
        blurb: Option<&'a str>,
        minimum: i64,
        maximum: i64,
        default_value: i64,
        flags: ParamFlags,
    ) -> (r: ParamSpec)
        requires
            spec_is_canonical_pspec_name(name.spec_bytes()),
            name@.len() > 0,
            minimum <= default_value <= maximum,
        ensures
            built_header(r, name, nick, blurb, flags@, Type(32)),
            r.data().kind == (ParamSpecKind::Long { minimum, maximum, default_value }),
    {
        assert_param_name(name);
        make_spec(name, nick, blurb, flags, Type::i_long(), ParamSpecKind::Long { minimum, maximum, default_value })
    }
}

impl ParamSpecULong {
    /// A specification named `name` for `u64` values in
    /// `minimum..=maximum`; the name must be a nonempty canonical name and
    /// the default must lie within the bounds.
    pub fn new<'a>(
        name: &'a str,
        nick: Option<&'a str>,
        blurb: Option<&'a str>,
        minimum: u64,
        maximum: u64,
        default_value: u64,
        flags: ParamFlags,
    ) -> (r: ParamSpec)
        requires
            spec_is_canonical_pspec_name(name.spec_bytes()),
            name@.len() > 0,
            minimum <= default_value <= maximum,
        ensures
            built_header(r, name, nick, blurb, flags@, Type(36)),
            r.data().kind == (ParamSpecKind::ULong { minimum, maximum, default_value }),
    {
        assert_param_name(name);
        make_spec(name, nick, blurb, flags, Type::u_long(), ParamSpecKind::ULong { minimum, maximum, default_value })
    }
}

impl ParamSpecBoolean {
    /// A specification named `name` for `bool` values; the name must be a
    /// nonempty canonical name.
    pub fn new<'a>(
        name: &'a str,
        nick: Option<&'a str>,
        blurb: Option<&'a str>,
        default_value: bool,
        flags: ParamFlags,
    ) -> (r: ParamSpec)
        requires
            spec_is_canonical_pspec_name(name.spec_bytes()),
            name@.len() > 0,
        ensures
            built_header(r, name, nick, blurb, flags@, Type(20)),
            r.data().kind == (ParamSpecKind::Boolean { default_value }),
    {
        assert_param_name(name);
        make_spec(name, nick, blurb, flags, Type::bool(), ParamSpecKind::Boolean { default_value })
    }
}

impl ParamSpecUnichar {
    /// A specification named `name` for characters, held as `u32` codes; the
    /// name must be a nonempty canonical name.
    pub fn new<'a>(
        name: &'a str,
        nick: Option<&'a str>,
        blurb: Option<&'a str>,
        default_value: char,
        flags: ParamFlags,
    ) -> (r: ParamSpec)
        requires
            spec_is_canonical_pspec_name(name.spec_bytes()),
            name@.len() > 0,
        ensures
            built_header(r, name, nick, blurb, flags@, Type(28)),
            r.data().kind == (ParamSpecKind::Unichar { default_value }),
    {
        assert_param_name(name);
        make_spec(name, nick, blurb, flags, Type::u32(), ParamSpecKind::Unichar { default_value })
    }
}

impl ParamSpecString {
    /// A specification named `name` for strings, with an optional default;
    /// the name must be a nonempty canonical name.
    pub fn new<'a>(
        name: &'a str,
        nick: Option<&'a str>,
        blurb: Option<&'a str>,
        default_value: Option<&'a str>,
        flags: ParamFlags,
    ) -> (r: ParamSpec)
        requires
            spec_is_canonical_pspec_name(name.spec_bytes()),
            name@.len() > 0,
        ensures
            built_header(r, name, nick, blurb, flags@, Type(64)),
            r.data().kind is String,
            opt_view(r.data().kind->String_default_value) == opt_str_view(default_value),
    {
        assert_param_name(name);
        let default_value = opt_to_string(default_value);
        make_spec(name, nick, blurb, flags, Type::string(), ParamSpecKind::String { default_value })
    }
}

impl ParamSpecValueArray {
    /// A specification named `name` for arrays of values, each described by
    /// `element_spec` when given; the name must be a nonempty canonical name.
    pub fn new<'a>(
        name: &'a str,
        nick: Option<&'a str>,
        blurb: Option<&'a str>,
        element_spec: Option<&'a ParamSpec>,
        flags: ParamFlags,
    ) -> (r: ParamSpec)
        requires
            spec_is_canonical_pspec_name(name.spec_bytes()),
            name@.len() > 0,
        ensures
            built_header(r, name, nick, blurb, flags@, Type(72)),
            r.data().kind == (ParamSpecKind::ValueArray {
                element_spec: match element_spec { Some(e) => Some(*e), None => None },
            }),
    {
        assert_param_name(name);
        let element_spec = match element_spec {
            Some(e) => Some(e.clone()),
            None => None,
        };
        make_spec(name, nick, blurb, flags, Type::boxed(), ParamSpecKind::ValueArray { element_spec })
    }
}

impl ParamSpecOverride {
    /// A specification named `name` overriding `overridden`, as the builder
    /// makes it; the name must be a nonempty canonical name.
    pub fn new<'a>(name: &'a str, overridden: &'a ParamSpec) -> (r: ParamSpec)
        requires
            spec_is_canonical_pspec_name(name.spec_bytes()),
            name@.len() > 0,
        ensures
            built_header(
                r,
                name,
                None,
                None,
                spec_final_target(*overridden).data().flags@ | 224u32,
                spec_final_target(*overridden).data().value_type,
            ),
            r.data().kind == (ParamSpecKind::Override { overridden: spec_final_target(*overridden) }),
    {
        ParamSpecOverride::builder(name, overridden).build()
    }
}

} // verus!
