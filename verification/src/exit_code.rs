use vstd::prelude::*;

verus! {

/// Wrapper around an `i32` exit code.
///
/// - a zero exit code means success.
/// - a positive exit code means failure.
/// - a negative exit code is reserved as special.
///
/// Values outside the range of `u8` are mapped to `u8::MAX` when converted to a
/// process exit status byte.
#[derive(Clone, Copy, PartialEq, Eq, Structural, Debug, PartialOrd, Ord, Hash)]
pub struct ExitCode(i32);

/// `libc::EXIT_SUCCESS`, which libc defines as `0` on every target.
#[verifier::external_body]
fn libc_exit_success() -> (r: i32)
    ensures
        r == 0,
{
    libc::EXIT_SUCCESS
}

/// `libc::EXIT_FAILURE`, which libc defines as `1` on every target.
#[verifier::external_body]
fn libc_exit_failure() -> (r: i32)
    ensures
        r == 1,
{
    libc::EXIT_FAILURE
}

/// The byte a process reports for an exit code: the code itself when it fits in a
/// `u8`, `u8::MAX` otherwise.
pub open spec fn spec_exit_byte(code: i32) -> u8 {
    if 0 <= code <= 255 {
        code as u8
    } else {
        255u8
    }
}

impl ExitCode {
    /// The wrapped code.
    pub closed spec fn spec_value(&self) -> i32 {
        self.0
    }

    /// The canonical exit code for successful termination.
    pub fn success() -> (r: ExitCode)
        ensures
            r.spec_value() == 0,
    {
        ExitCode(libc_exit_success())
    }

    /// The canonical exit code for unsuccessful termination.
    pub fn failure() -> (r: ExitCode)
        ensures
            r.spec_value() == 1,
    {
        ExitCode(libc_exit_failure())
    }

    /// A special negative value to indicate that default handling should continue.
    pub fn continue_() -> (r: ExitCode)
        ensures
            r.spec_value() == -1,
    {
        ExitCode(-1)
    }

    /// Returns the wrapped `i32` value.
    pub fn value(&self) -> (r: i32)
        ensures
            r == self.spec_value(),
    {
        self.0
    }

    /// Builds an exit code from a raw value.
    pub fn from_i32(value: i32) -> (r: ExitCode)
        ensures
            r.spec_value() == value,
    {
        ExitCode(value)
    }

    /// Returns the raw value of the exit code.
    pub fn into_i32(self) -> (r: i32)
        ensures
            r == self.spec_value(),
    {
        self.value()
    }

    /// The process exit status byte for this code: values outside `0..=255`
    /// become `u8::MAX`.
    pub fn exit_byte(&self) -> (r: u8)
        ensures
            r == spec_exit_byte(self.spec_value()),
    {
        if 0 <= self.0 && self.0 <= 255 {
            self.0 as u8
        } else {
            u8::MAX
        }
    }
}

impl From<i32> for ExitCode {
    fn from(value: i32) -> (r: ExitCode)
        ensures
            r.spec_value() == value,
    {
        ExitCode(value)
    }
}

impl vstd::std_specs::convert::FromSpecImpl<i32> for ExitCode {
    open spec fn obeys_from_spec() -> bool {
        true
    }

    closed spec fn from_spec(v: i32) -> ExitCode {
        ExitCode(v)
    }
}

impl From<ExitCode> for i32 {
    fn from(code: ExitCode) -> (r: i32)
        ensures
            r == code.spec_value(),
    {
        code.value()
    }
}

impl vstd::std_specs::convert::FromSpecImpl<ExitCode> for i32 {
    open spec fn obeys_from_spec() -> bool {
        true
    }

    closed spec fn from_spec(v: ExitCode) -> i32 {
        v.0
    }
}

} // verus!
