//! The adapter for foreign error values.
//!
//! Any value with the minimal error capability — a display text and a debug
//! text — satisfies the failure contract with no cause and no trace. A
//! [`ForeignFailure`] carries those two renderings; callers convert a
//! foreign error value into one at the boundary.

use vstd::prelude::*;
use crate::context::Context;
use crate::error::Error;
use crate::trace::{Trace, TraceView};
use crate::{Fail, Failure, TypeTag};

verus! {

/// A foreign error, reduced to its display and debug renderings.
#[derive(Debug)]
pub struct ForeignFailure {
    /// What the foreign error displays.
    pub message: String,
    /// The foreign error's developer-facing rendering.
    pub debug: String,
}

impl Fail for ForeignFailure {
    open spec fn msg_spec(&self) -> Seq<char> {
        self.message@
    }

    open spec fn cause_spec(&self) -> Option<Failure> {
        Option::None
    }

    open spec fn trace_spec(&self) -> Option<TraceView> {
        Option::None
    }

    open spec fn tag_spec(&self) -> TypeTag {
        TypeTag::Foreign
    }

    fn display(&self) -> String {
        self.message.clone()
    }

    fn cause(&self) -> Option<&Failure> {
        None
    }

    fn backtrace(&self) -> Option<&Trace> {
        None
    }

    fn into_failure(self) -> Failure {
        Failure::Foreign(self)
    }

    fn context(self, context: String, capture: bool) -> Context {
        Context::with_err(context, Error::from(self.into_failure(), capture))
    }
}

} // verus!
