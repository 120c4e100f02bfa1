use vstd::prelude::*;

use crate::bytes::text_equal;

verus! {

/// Appends one character to a string (`String::push`).
#[verifier::external_body]
fn string_push(s: &mut String, c: char)
    ensures
        final(s)@ == old(s)@.push(c),
{
    s.push(c)
}

/// The error type of `std::fmt`, carried through `std::fmt::Write`.
#[verifier::external_type_specification]
#[verifier::external_body]
pub struct ExFmtError(std::fmt::Error);

/// A mutable text buffer that grows automatically.
#[derive(Debug, Hash, Eq, PartialOrd, Ord)]
pub struct GStringBuilder {
    text: String,
}

impl View for GStringBuilder {
    type V = Seq<char>;

    closed spec fn view(&self) -> Seq<char> {
        self.text@
    }
}

impl GStringBuilder {
    /// Creates a builder holding a copy of `data`.
    pub fn new(data: &str) -> (r: GStringBuilder)
        ensures
            r@ == data@,
    {
        GStringBuilder { text: String::from_str(data) }
    }

    /// Appends `val` at the end.
    pub fn append(&mut self, val: &str)
        ensures
            final(self)@ == old(self)@ + val@,
    {
        self.text.append(val);
    }

    /// Inserts `val` at the start.
    pub fn prepend(&mut self, val: &str)
        ensures
            final(self)@ == val@ + old(self)@,
    {
        let mut text = String::from_str(val);
        text.append(self.text.as_str());
        self.text = text;
    }

    /// Appends the character `val` at the end.
    pub fn append_c(&mut self, val: char)
        ensures
            final(self)@ == old(self)@.push(val),
    {
        string_push(&mut self.text, val);
    }

    /// Inserts the character `val` at the start.
    pub fn prepend_c(&mut self, val: char)
        ensures
            final(self)@ == seq![val] + old(self)@,
    {
        let mut text = String::new();
        string_push(&mut text, val);
        text.append(self.text.as_str());
        self.text = text;
        assert(self@ =~= seq![val] + old(self)@);
    }

    /// The text held.
    pub fn as_str(&self) -> (r: &str)
        ensures
            r@ == self@,
    {
        self.text.as_str()
    }

    /// Gives up the builder and returns its text.
    pub fn into_string(self) -> (r: String)
        ensures
            r@ == self@,
    {
        self.text
    }

    /// A copy of the text held, as the `Display` rendering of the builder.
    pub fn to_string(&self) -> (r: String)
        ensures
            r@ == self@,
    {
        self.text.clone()
    }
}

impl Default for GStringBuilder {
    /// Creates a new empty builder.
    fn default() -> (r: GStringBuilder)
        ensures
            r@ == Seq::<char>::empty(),
    {
        GStringBuilder { text: String::new() }
    }
}

impl PartialEq for GStringBuilder {
    fn eq(&self, other: &GStringBuilder) -> (r: bool) {
        self.text == other.text
    }
}

impl vstd::std_specs::cmp::PartialEqSpecImpl for GStringBuilder {
    open spec fn obeys_eq_spec() -> bool {
        true
    }

    open spec fn eq_spec(&self, other: &GStringBuilder) -> bool {
        self@ == other@
    }
}

impl PartialEq<str> for GStringBuilder {
    fn eq(&self, other: &str) -> (r: bool) {
        text_equal(self.text.as_str(), other)
    }
}

impl vstd::std_specs::cmp::PartialEqSpecImpl<str> for GStringBuilder {
    open spec fn obeys_eq_spec() -> bool {
        true
    }

    open spec fn eq_spec(&self, other: &str) -> bool {
        self@ == other@
    }
}

impl PartialEq<GStringBuilder> for str {
    fn eq(&self, other: &GStringBuilder) -> (r: bool) {
        text_equal(self, other.text.as_str())
    }
}

impl vstd::std_specs::cmp::PartialEqSpecImpl<GStringBuilder> for str {
    open spec fn obeys_eq_spec() -> bool {
        true
    }

    open spec fn eq_spec(&self, other: &GStringBuilder) -> bool {
        self@ == other@
    }
}

impl std::ops::Deref for GStringBuilder {
    type Target = str;

    fn deref(&self) -> (r: &str)
        ensures
            r@ == self@,
    {
        self.text.as_str()
    }
}

impl std::fmt::Write for GStringBuilder {
    fn write_str(&mut self, s: &str) -> (r: std::fmt::Result)
        ensures
            final(self)@ == old(self)@ + s@,
            r.is_ok(),
    {
        self.append(s);
        Ok(())
    }

    fn write_char(&mut self, c: char) -> (r: std::fmt::Result)
        ensures
            final(self)@ == old(self)@.push(c),
            r.is_ok(),
    {
        self.append_c(c);
        Ok(())
    }
}

} // verus!
