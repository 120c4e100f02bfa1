use vstd::prelude::*;

verus! {

/// Flags that describe how a property may be used.
#[derive(Clone, Copy, PartialEq, Eq, Structural, Debug, Hash)]
pub struct ParamFlags {
    bits: u32,
}

/// Bit of `ParamFlags::READABLE`.
pub const READABLE_BIT: u32 = 1;
/// Bit of `ParamFlags::WRITABLE`.
pub const WRITABLE_BIT: u32 = 2;
/// Bits of `ParamFlags::READWRITE`.
pub const READWRITE_BITS: u32 = 3;
/// Bit of `ParamFlags::CONSTRUCT`.
pub const CONSTRUCT_BIT: u32 = 4;
/// Bit of `ParamFlags::CONSTRUCT_ONLY`.
pub const CONSTRUCT_ONLY_BIT: u32 = 8;
/// Bit of `ParamFlags::LAX_VALIDATION`.
pub const LAX_VALIDATION_BIT: u32 = 16;
/// Bits set on every override specification (static name, nick and blurb).
pub const STATIC_STRINGS_BITS: u32 = 224;
/// Bit of `ParamFlags::EXPLICIT_NOTIFY`.
pub const EXPLICIT_NOTIFY_BIT: u32 = 0x4000_0000;
/// Bit of `ParamFlags::DEPRECATED`.
pub const DEPRECATED_BIT: u32 = 0x8000_0000;
/// The bits that name a flag: the standard flags, the user flags and the
/// notify and deprecation flags.
pub const KNOWN_BITS: u32 = 0xC001_FD1F;

impl View for ParamFlags {
    type V = u32;

    closed spec fn view(&self) -> u32 {
        self.bits
    }
}

impl ParamFlags {
    /// No flag set.
    pub fn empty() -> (r: ParamFlags)
        ensures
            r@ == 0,
    {
        ParamFlags { bits: 0 }
    }

    /// Flags with exactly the given bits (bits that name no flag are kept).
    pub fn from_bits_retain(bits: u32) -> (r: ParamFlags)
        ensures
            r@ == bits,
    {
        ParamFlags { bits }
    }

    /// The parameter is readable.
    pub fn readable() -> (r: ParamFlags)
        ensures
            r@ == READABLE_BIT,
    {
        ParamFlags { bits: 1 }
    }

    /// The parameter is writable.
    pub fn writable() -> (r: ParamFlags)
        ensures
            r@ == WRITABLE_BIT,
    {
        ParamFlags { bits: 2 }
    }

    /// The parameter is readable and writable.
    pub fn readwrite() -> (r: ParamFlags)
        ensures
            r@ == READWRITE_BITS,
    {
        ParamFlags { bits: 3 }
    }

    /// The parameter is set upon object construction.
    pub fn construct() -> (r: ParamFlags)
        ensures
            r@ == CONSTRUCT_BIT,
    {
        ParamFlags { bits: 4 }
    }

    /// The parameter can only be set upon object construction.
    pub fn construct_only() -> (r: ParamFlags)
        ensures
            r@ == CONSTRUCT_ONLY_BIT,
    {
        ParamFlags { bits: 8 }
    }

    /// Upon parameter conversion strict validation is not required.
    pub fn lax_validation() -> (r: ParamFlags)
        ensures
            r@ == LAX_VALIDATION_BIT,
    {
        ParamFlags { bits: 16 }
    }

    /// Change notifications are only emitted when explicitly requested.
    pub fn explicit_notify() -> (r: ParamFlags)
        ensures
            r@ == EXPLICIT_NOTIFY_BIT,
    {
        ParamFlags { bits: 0x4000_0000 }
    }

    /// The parameter is deprecated and will be removed in a future version.
    pub fn deprecated() -> (r: ParamFlags)
        ensures
            r@ == DEPRECATED_BIT,
    {
        ParamFlags { bits: 0x8000_0000 }
    }

    /// The flags named by the C bits `bits`; bits that name no flag are
    /// dropped.
    pub fn from_glib(bits: u32) -> (r: ParamFlags)
        ensures
            r@ == bits & KNOWN_BITS,
    {
        ParamFlags { bits: bits & KNOWN_BITS }
    }

    /// The C bits of the flags.
    pub fn into_glib(self) -> (r: u32)
        ensures
            r == self@,
    {
        self.bits
    }

    /// The raw bits.
    pub fn bits(&self) -> (r: u32)
        ensures
            r == self@,
    {
        self.bits
    }

    /// Whether every flag of `other` is set in `self`.
    pub fn contains(&self, other: ParamFlags) -> (r: bool)
        ensures
            r == (self@ & other@ == other@),
    {
        self.bits & other.bits == other.bits
    }

    /// The flags set in either.
    pub fn union(&self, other: ParamFlags) -> (r: ParamFlags)
        ensures
            r@ == self@ | other@,
    {
        ParamFlags { bits: self.bits | other.bits }
    }

    /// The flags of `self` that are not set in `other`.
    pub fn difference(&self, other: ParamFlags) -> (r: ParamFlags)
        ensures
            r@ == self@ & !other@,
    {
        ParamFlags { bits: self.bits & !other.bits }
    }

    /// Whether no flag is set.
    pub fn is_empty(&self) -> (r: bool)
        ensures
            r == (self@ == 0),
    {
        self.bits == 0
    }
}

impl Default for ParamFlags {
    /// Properties are readable and writable unless stated otherwise.
    fn default() -> (r: ParamFlags)
        ensures
            r@ == READWRITE_BITS,
    {
        ParamFlags::readwrite()
    }
}

/// Of the access flags, the last choice wins: marking flags `f` read only
/// and then write only is marking them write only, and the other way round;
/// marking them readable and writable afterwards sets both. From the default
/// flags, read only leaves only the readable flag.
pub proof fn law_access_flags_last_choice_wins(f: u32)
    ensures
        ((((f & !2u32) | 1u32) & !1u32) | 2u32) == ((f & !1u32) | 2u32),
        ((((f & !1u32) | 2u32) & !2u32) | 1u32) == ((f & !2u32) | 1u32),
        (((((f & !2u32) | 1u32) & !1u32) | 2u32) | 3u32) & 3u32 == 3u32,
        ((3u32 & !2u32) | 1u32) == 1u32,
        ((((3u32 & !2u32) | 1u32) & !1u32) | 2u32) == 2u32,
{
    assert(((((f & !2u32) | 1u32) & !1u32) | 2u32) == ((f & !1u32) | 2u32)) by (bit_vector);
    assert(((((f & !1u32) | 2u32) & !2u32) | 1u32) == ((f & !2u32) | 1u32)) by (bit_vector);
    assert((((((f & !2u32) | 1u32) & !1u32) | 2u32) | 3u32) & 3u32 == 3u32) by (bit_vector);
    assert(((3u32 & !2u32) | 1u32) == 1u32) by (bit_vector);
    assert(((((3u32 & !2u32) | 1u32) & !1u32) | 2u32) == 2u32) by (bit_vector);
}

/// Reading flags from C bits keeps exactly the bits that name a flag, so
/// reading them again changes nothing.
pub proof fn law_from_glib_idempotent(bits: u32)
    ensures
        (bits & KNOWN_BITS) & KNOWN_BITS == bits & KNOWN_BITS,
        (bits | 224u32) & KNOWN_BITS == bits & KNOWN_BITS,
{
    assert((bits & 0xC001_FD1Fu32) & 0xC001_FD1Fu32 == bits & 0xC001_FD1Fu32) by (bit_vector);
    assert((bits | 224u32) & 0xC001_FD1Fu32 == bits & 0xC001_FD1Fu32) by (bit_vector);
}

} // verus!
