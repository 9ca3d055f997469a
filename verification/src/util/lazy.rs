use vstd::prelude::*;

verus! {

const NONE: usize = 0;

const READY: usize = 2;

/// A value that is set once and read afterwards.
pub struct Lazy<T> {
    inner: Option<T>,
    state: usize,
}

impl<T> Lazy<T> {
    /// The state and the stored value agree: ready exactly when a value is
    /// stored, empty otherwise.
    #[verifier::type_invariant]
    spec fn wf(self) -> bool {
        (self.state == READY && self.inner is Some) || (self.state == NONE && self.inner is None)
    }

    /// The value that was set, if any.
    pub closed spec fn value(self) -> Option<T> {
        self.inner
    }

    /// An empty `Lazy`.
    pub fn new() -> (r: Self)
        ensures
            r.value() is None,
    {
        Lazy { inner: None, state: NONE }
    }

    /// Sets the value. It may be set only once.
    pub fn init(&mut self, x: T)
        requires
            old(self).value() is None,
        ensures
            final(self).value() == Some(x),
    {
        proof {
            use_type_invariant(&*self);
        }
        *self = Lazy { inner: Some(x), state: READY };
    }

    /// The value, once it has been set.
    pub fn get(&self) -> (r: Option<&T>)
        ensures
            r is Some <==> self.value() is Some,
            r matches Some(v) ==> *v == self.value()->0,
    {
        proof {
            use_type_invariant(self);
        }
        if self.state == READY {
            self.inner.as_ref()
        } else {
            None
        }
    }

    /// The value; it must have been set.
    pub fn unwrap(&self) -> (r: &T)
        requires
            self.value() is Some,
        ensures
            *r == self.value()->0,
    {
        self.get().unwrap()
    }
}

} // verus!
