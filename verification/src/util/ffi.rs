use vstd::prelude::*;

verus! {

/// A value handed across threads as it is.
pub struct UnsafeSend<T>(T);

impl<T> UnsafeSend<T> {
    /// The value that `take` gives back.
    pub closed spec fn value(self) -> T {
        self.0
    }

    /// Wraps `x`.
    pub fn new(x: T) -> (r: Self)
        ensures
            r.value() == x,
    {
        UnsafeSend(x)
    }

    /// Gives the wrapped value back.
    pub fn take(self) -> (r: T)
        ensures
            r == self.value(),
    {
        self.0
    }
}

} // verus!
