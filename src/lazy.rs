//! A value computed from its initialiser on first use.

use vstd::prelude::*;

verus! {

/// A value computed by `init` the first time it is asked for, and kept.
pub struct Lazy<T, F = fn() -> T> {
    cell: Option<T>,
    init: F,
}

impl<T, F: Fn() -> T> Lazy<T, F> {
    /// The value, once computed.
    pub closed spec fn forced(&self) -> Option<T> {
        self.cell
    }

    /// The initialiser.
    pub closed spec fn initialiser(&self) -> F {
        self.init
    }

    /// A lazy value that `init` will compute.
    pub fn new(init: F) -> (r: Self)
        ensures
            r.forced() is None,
            r.initialiser() == init,
    {
        Lazy { cell: None, init }
    }

    /// The value: computed by the initialiser on the first call, and the
    /// same value on every later call.
    pub fn get_inner(&mut self) -> (r: &T)
        requires
            old(self).forced() is None ==> old(self).initialiser().requires(()),
        ensures
            final(self).forced() == Some(*r),
            final(self).initialiser() == old(self).initialiser(),
            old(self).forced() matches Some(v) ==> *r == v,
            old(self).forced() is None ==> old(self).initialiser().ensures((), *r),
    {
        if self.cell.is_none() {
            let v = (self.init)();
            self.cell = Some(v);
        }
        self.cell.as_ref().unwrap()
    }
}

} // verus!
