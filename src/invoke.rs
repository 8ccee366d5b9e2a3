//! The continuation that a builder hands its finished node to.
use vstd::prelude::*;

verus! {

/// What a builder does with the node it has just built: `invoke` takes the
/// node and returns the continuation's own result.
pub trait Invoke<A>: Sized {
    type Result;

    /// Holds when `r` is what this continuation returns for `arg`.
    spec fn completes(self, arg: A, r: Self::Result) -> bool;

    fn invoke(self, arg: A) -> (r: Self::Result)
        ensures
            self.completes(arg, r),
    ;
}

/// The continuation that returns the node unchanged.
#[derive(Clone, Copy, Debug, PartialEq, Eq)]
pub struct Identity;

impl<A> Invoke<A> for Identity {
    type Result = A;

    open spec fn completes(self, arg: A, r: A) -> bool {
        r == arg
    }

    fn invoke(self, arg: A) -> (r: A) {
        arg
    }
}

} // verus!
