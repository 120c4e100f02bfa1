use vstd::prelude::*;

verus! {

/// A property value that is set while an object is constructed: empty until
/// then.
#[derive(Debug)]
pub struct ConstructCell<T> {
    value: Option<T>,
}

impl<T> ConstructCell<T> {
    /// The value held, if any.
    pub closed spec fn spec_value(&self) -> Option<T> {
        self.value
    }

    /// A cell holding `value`.
    pub fn new(value: T) -> (r: ConstructCell<T>)
        ensures
            r.spec_value() == Some(value),
    {
        ConstructCell { value: Some(value) }
    }

    /// A cell holding nothing yet.
    pub fn new_empty() -> (r: ConstructCell<T>)
        ensures
            r.spec_value() is None,
    {
        ConstructCell { value: None }
    }

    /// Stores `v`, replacing what was held.
    pub fn set(&mut self, v: T)
        ensures
            final(self).spec_value() == Some(v),
    {
        self.value = Some(v);
    }

    /// The value held, if any.
    pub fn value(&self) -> (r: Option<&T>)
        ensures
            r == match self.spec_value() {
                Some(v) => Some(&v),
                None => None::<&T>,
            },
    {
        self.value.as_ref()
    }

    /// Takes the value out, leaving the cell empty.
    pub fn take(&mut self) -> (r: Option<T>)
        ensures
            r == old(self).spec_value(),
            final(self).spec_value() is None,
    {
        self.value.take()
    }

    /// Applies `f` to the value held, which must have been set.
    pub fn get<R, F: Fn(&T) -> R>(&self, f: F) -> (r: R)
        requires
            self.spec_value() is Some,
            call_requires(f, (&self.spec_value()->0,)),
        ensures
            call_ensures(f, (&self.spec_value()->0,), r),
    {
        let v = self.value.as_ref().unwrap();
        f(v)
    }
}

impl<T> Default for ConstructCell<T> {
    fn default() -> (r: ConstructCell<T>)
        ensures
            r.spec_value() is None,
    {
        ConstructCell::new_empty()
    }
}

} // verus!
