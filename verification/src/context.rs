//! The context decorator.
//!
//! A [`Context`] adds a human-readable annotation on top of a failure or
//! error. It is built either from the annotation alone (a fresh trace is
//! captured for it) or around an existing [`crate::error::Error`] (trace
//! ownership stays with that error). Its display shows only the annotation;
//! its cause and trace delegate to the wrapped error when there is one.

use vstd::prelude::*;
use crate::error::Error;
use crate::trace::{Trace, TraceView};
use crate::{ctx_trace, Fail, Failure, TypeTag};

verus! {

/// One of two values.
#[derive(Debug)]
pub enum Either<A, B> {
    This(A),
    That(B),
}

/// An annotation wrapped around a failure or error.
#[derive(Debug)]
pub struct Context {
    /// The human-readable annotation.
    pub context: String,
    /// A fresh capture-site trace, or the error being annotated.
    pub failure: Either<Trace, Error>,
}

impl Context {
    /// A context without an underlying error: a fresh trace is captured for
    /// it now, subject to the capture switch handed in by the caller.
    pub fn new(context: String, capture: bool) -> (r: Context)
        ensures
            r.context == context,
            r.failure is This,
            r.failure->This_0@ == (if capture {
                TraceView::Raw
            } else {
                TraceView::Placeholder
            }),
    {
        Context { context, failure: Either::This(Trace::new(capture)) }
    }

    /// A context around an existing error; trace ownership stays with the
    /// error.
    pub fn with_err(context: String, error: Error) -> (r: Context)
        ensures
            r.context == context,
            (r.failure == Either::<Trace, Error>::That(error)),
    {
        Context { context, failure: Either::That(error) }
    }

    /// The display message: the annotation alone. The underlying error is
    /// not assumed to be end-user relevant.
    pub fn display(&self) -> (r: String)
        ensures
            r@ == self.context@,
    {
        self.context.clone()
    }
}

impl Fail for Context {
    open spec fn msg_spec(&self) -> Seq<char> {
        self.context@
    }

    open spec fn cause_spec(&self) -> Option<Failure> {
        match self.failure {
            Either::This(_) => Option::None,
            Either::That(e) => Option::Some(*e.failure),
        }
    }

    open spec fn trace_spec(&self) -> Option<TraceView> {
        ctx_trace(*self)
    }

    open spec fn tag_spec(&self) -> TypeTag {
        TypeTag::Context
    }

    fn display(&self) -> String {
        self.context.clone()
    }

    fn cause(&self) -> Option<&Failure> {
        match &self.failure {
            Either::This(_) => None,
            Either::That(e) => Some(e.cause()),
        }
    }

    fn backtrace(&self) -> Option<&Trace> {
        proof {
            reveal_with_fuel(ctx_trace, 3);
        }
        match &self.failure {
            Either::This(t) => Some(t),
            Either::That(e) => e.effective_backtrace(),
        }
    }

    fn into_failure(self) -> Failure {
        Failure::Context(Box::new(self))
    }

    fn context(self, context: String, capture: bool) -> Context {
        Context::with_err(context, Error::from(self.into_failure(), capture))
    }
}

} // verus!
