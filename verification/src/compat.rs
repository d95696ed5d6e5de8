//! The compatibility wrapper.
//!
//! A [`Compat`] adapts a value of this library to interfaces that expect a
//! plain error type: it forwards the display text and deliberately exposes
//! neither cause nor trace.

use vstd::prelude::*;
use crate::Fail;

verus! {

/// A compatibility wrapper around an error type of this library.
#[derive(Debug)]
pub struct Compat<E> {
    /// The wrapped error value.
    pub error: E,
}

impl<E> Compat<E> {
    /// Unwraps this into the inner error.
    pub fn into_inner(self) -> (r: E)
        ensures
            r == self.error,
    {
        self.error
    }

    /// Gets a reference to the inner error.
    pub fn get_ref(&self) -> (r: &E)
        ensures
            *r == self.error,
    {
        &self.error
    }
}

impl<E: Fail> Compat<E> {
    /// The display text, forwarded from the inner failure. The foreign side
    /// sees neither cause nor trace: the narrowing is intentional.
    pub fn display(&self) -> (r: String)
        ensures
            r@ == self.error.msg_spec(),
    {
        self.error.display()
    }
}

} // verus!
