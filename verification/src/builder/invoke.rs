//! The continuation capability: what to do with a value that was just built.

use vstd::prelude::*;

verus! {

/// A one-shot continuation over values of type `A`.
///
/// `invoke` consumes the continuation together with the value. What it may
/// return is described by `yields`, so that a builder can state the result of
/// its own `build` without knowing which continuation it carries.
pub trait Invoke<A>: Sized {
    /// What the continuation produces.
    type Result;

    /// Whether `result` is an outcome of invoking `self` on `arg`.
    ///
    /// A continuation that does not say otherwise may yield any result.
    open spec fn yields(self, arg: A, result: Self::Result) -> bool {
        true
    }

    /// Consumes the continuation and the value and produces the result.
    fn invoke(self, arg: A) -> (result: Self::Result)
        ensures
            self.yields(arg, result),
    ;
}

/// The terminal continuation: it hands the value back unchanged.
pub struct Identity;

impl<A> Invoke<A> for Identity {
    type Result = A;

    open spec fn yields(self, arg: A, result: A) -> bool {
        result == arg
    }

    fn invoke(self, arg: A) -> (result: A)
        ensures
            result == arg,
    {
        arg
    }
}

} // verus!
