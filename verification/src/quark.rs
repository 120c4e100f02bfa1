use vstd::prelude::*;

verus! {

/// The error of a conversion from a C value that stands for nothing.
#[derive(Clone, Copy, Debug, PartialEq, Eq, Structural)]
pub struct GlibNoneError;

/// An interned string, known by a nonzero number.
#[derive(Clone, Copy, Debug, PartialEq, Eq, Structural, PartialOrd, Ord, Hash)]
pub struct Quark {
    id: u32,
}

impl Quark {
    #[verifier::type_invariant]
    spec fn nonzero(self) -> bool {
        self.id != 0
    }

    /// The number of the quark.
    pub closed spec fn spec_id(&self) -> u32 {
        self.id
    }

    /// The quark numbered `value`, which must not be zero.
    pub fn from_glib(value: u32) -> (r: Quark)
        requires
            value != 0,
        ensures
            r.spec_id() == value,
    {
        Quark { id: value }
    }

    /// The quark numbered `value`; zero stands for no quark.
    pub fn try_from_glib(value: u32) -> (r: Result<Quark, GlibNoneError>)
        ensures
            value == 0 <==> r is Err,
            r matches Ok(q) ==> q.spec_id() == value,
    {
        if value == 0 {
            Err(GlibNoneError)
        } else {
            Ok(Quark { id: value })
        }
    }

    /// The number of the quark, never zero.
    pub fn into_glib(self) -> (r: u32)
        ensures
            r == self.spec_id(),
            r != 0,
    {
        proof {
            use_type_invariant(&self);
        }
        self.id
    }
}

/// The number of an optional quark: zero for none.
pub fn option_quark_into_glib(q: Option<Quark>) -> (r: u32)
    ensures
        r == match q {
            Some(q) => q.spec_id(),
            None => 0,
        },
{
    match q {
        Some(q) => q.into_glib(),
        None => 0,
    }
}

} // verus!
