//! Items that only the library implements or uses.
use vstd::prelude::*;

verus! {

/// A trait that only the library's types implement.
pub trait Sealed {}

/// A callback to run when the value is done with.
pub struct OnDrop<F: FnOnce()> {
    cb: F,
}

impl<F: FnOnce()> OnDrop<F> {
    /// Holds `cb` until [`OnDrop::run`].
    pub fn new(cb: F) -> (r: Self)
        ensures
            r.callback() == cb,
    {
        OnDrop { cb }
    }

    pub closed spec fn callback(&self) -> F {
        self.cb
    }

    /// Runs the callback.
    pub fn run(self)
        requires
            self.callback().requires(()),
        ensures
            self.callback().ensures((), ()),
    {
        (self.cb)();
    }
}

} // verus!
