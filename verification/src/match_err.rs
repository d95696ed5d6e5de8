//! Matching an error against failure types.
//!
//! [`Match`] lets callers try one type identity after another against an
//! error, getting the failure out on the first identity that fits and the
//! error back otherwise — the building block for match-like handling of
//! type-erased errors.

use vstd::prelude::*;
use crate::error::Error;
use crate::{tag_of, Failure, TypeTag};

verus! {

/// One attempt at matching a wrapped failure against a type identity.
pub trait Match: Sized {
    /// What a successful match hands out.
    type Matched;

    /// The failure the value wraps.
    spec fn wraps(&self) -> Failure;

    /// What comes out when the identity fits.
    spec fn matched_of(self) -> Self::Matched;

    /// Succeeds exactly when the wrapped failure's identity equals the
    /// requested one; otherwise the value comes back unchanged.
    fn try_match(self, tag: TypeTag) -> (r: Result<Self::Matched, Self>)
        ensures
            (r is Ok) == (tag_of(self.wraps()) == tag),
            r is Ok ==> r->Ok_0 == self.matched_of(),
            r is Err ==> r->Err_0 == self,
    ;
}

impl Match for Error {
    type Matched = Failure;

    open spec fn wraps(&self) -> Failure {
        *self.failure
    }

    open spec fn matched_of(self) -> Failure {
        *self.failure
    }

    fn try_match(self, tag: TypeTag) -> Result<Failure, Error> {
        self.downcast(tag)
    }
}

impl<'a> Match for &'a Error {
    type Matched = &'a Failure;

    open spec fn wraps(&self) -> Failure {
        *self.failure
    }

    open spec fn matched_of(self) -> &'a Failure {
        &*self.failure
    }

    fn try_match(self, tag: TypeTag) -> Result<&'a Failure, &'a Error> {
        match self.downcast_ref(tag) {
            Some(f) => Ok(f),
            None => Err(self),
        }
    }
}

} // verus!
