use vstd::prelude::*;

verus! {

/// The id of a source attached to a main context: never zero.
#[derive(Debug, PartialEq, Eq)]
pub struct SourceId {
    id: u32,
}

impl SourceId {
    #[verifier::type_invariant]
    spec fn nonzero(self) -> bool {
        self.id != 0
    }

    /// The raw id.
    pub closed spec fn spec_raw(&self) -> u32 {
        self.id
    }

    /// The id `val`, which must not be zero.
    pub fn from_glib(val: u32) -> (r: SourceId)
        requires
            val != 0,
        ensures
            r.spec_raw() == val,
    {
        SourceId { id: val }
    }

    /// The raw id, which is never zero.
    pub fn as_raw(&self) -> (r: u32)
        ensures
            r == self.spec_raw(),
            r != 0,
    {
        proof {
            use_type_invariant(self);
        }
        self.id
    }
}

/// The id of a child process, as the C library gives it.
#[derive(Clone, Copy, Debug, PartialEq, Eq, Structural)]
pub struct Pid(pub i32);

impl Pid {
    /// The process id `val`.
    pub fn from_glib(val: i32) -> (r: Pid)
        ensures
            r == Pid(val),
    {
        Pid(val)
    }

    /// The raw process id.
    pub fn into_glib(self) -> (r: i32)
        ensures
            r == self.0,
    {
        self.0
    }
}

/// Whether a source's callback is to be called again (`Continue(true)`) or
/// removed (`Continue(false)`).
#[derive(Clone, Copy, Debug, PartialEq, Eq, Structural)]
pub struct Continue(pub bool);

impl Continue {
    /// The C boolean for the answer: 1 to keep the source, 0 to remove it.
    pub fn into_glib(self) -> (r: i32)
        ensures
            r == (if self.0 { 1i32 } else { 0i32 }),
    {
        if self.0 {
            1
        } else {
            0
        }
    }
}

/// The priority of a source: the lower, the earlier it is dispatched.
#[derive(Clone, Copy, Debug, PartialEq, Eq, Structural)]
pub struct Priority(i32);

impl Priority {
    /// The number the priority stands for.
    pub closed spec fn spec_value(self) -> i32 {
        self.0
    }

    /// The priority that stands for `val`.
    pub fn from_glib(val: i32) -> (r: Priority)
        ensures
            r.spec_value() == val,
    {
        Priority(val)
    }

    /// The number the priority stands for.
    pub fn into_glib(self) -> (r: i32)
        ensures
            r == self.spec_value(),
    {
        self.0
    }

    /// The priority of urgent sources, -100.
    pub fn high() -> (r: Priority)
        ensures
            r.spec_value() == -100,
    {
        Priority(-100)
    }

    /// The priority of timeouts and I/O sources by default, 0.
    pub fn default_priority() -> (r: Priority)
        ensures
            r.spec_value() == 0,
    {
        Priority(0)
    }

    /// The priority of idle work that should run before redrawing, 100.
    pub fn high_idle() -> (r: Priority)
        ensures
            r.spec_value() == 100,
    {
        Priority(100)
    }

    /// The priority of idle sources by default, 200.
    pub fn default_idle() -> (r: Priority)
        ensures
            r.spec_value() == 200,
    {
        Priority(200)
    }

    /// The priority of background work, 300.
    pub fn low() -> (r: Priority)
        ensures
            r.spec_value() == 300,
    {
        Priority(300)
    }
}

impl Default for Priority {
    fn default() -> (r: Priority)
        ensures
            r.spec_value() == 0,
    {
        Priority(0)
    }
}

/// A callback that runs a one-shot function on its first call and asks for
/// the source to be removed. It must not be called again afterwards.
pub struct OnceCallback<F> {
    func: Option<F>,
}

impl<F: FnOnce()> OnceCallback<F> {
    /// Whether the function has not run yet.
    pub closed spec fn pending(&self) -> bool {
        self.func is Some
    }

    /// The function still to run.
    pub closed spec fn spec_func(&self) -> F
        recommends
            self.pending(),
    {
        self.func->0
    }

    /// Whether the function has not run yet.
    pub fn is_pending(&self) -> (r: bool)
        ensures
            r == self.pending(),
    {
        self.func.is_some()
    }

    /// Runs the function and answers `Continue(false)`, so that the source is
    /// removed.
    pub fn call(&mut self) -> (r: Continue)
        requires
            old(self).pending(),
            call_requires(old(self).spec_func(), ()),
        ensures
            call_ensures(old(self).spec_func(), (), ()),
            r == Continue(false),
            !final(self).pending(),
    {
        let func = self.func.take().unwrap();
        func();
        Continue(false)
    }
}

/// Wraps the one-shot `func` into a callback that a source can call.
pub fn fnmut_callback_wrapper<F: FnOnce() + Send>(func: F) -> (r: OnceCallback<F>)
    ensures
        r.pending(),
        r.spec_func() == func,
{
    OnceCallback { func: Some(func) }
}

/// Wraps the one-shot `func`, which need not be sent to another thread, into
/// a callback that a source of the current thread's main context can call.
pub fn fnmut_callback_wrapper_local<F: FnOnce()>(func: F) -> (r: OnceCallback<F>)
    ensures
        r.pending(),
        r.spec_func() == func,
{
    OnceCallback { func: Some(func) }
}

} // verus!
