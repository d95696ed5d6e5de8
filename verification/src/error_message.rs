//! The message-only failure.
//!
//! An [`ErrorMessage`] is the minimal failure: a display message and an
//! optional boxed cause. It is the value behind the convenience
//! constructors [`err_msg`] and [`err_msg_with`].

use vstd::prelude::*;
use crate::context::Context;
use crate::error::Error;
use crate::trace::{Trace, TraceView};
use crate::{cause_of, fail_msg, fail_trace, tag_of, Fail, Failure, TypeTag};

verus! {

/// A failure that carries only an error message and an optional cause.
#[derive(Debug)]
pub struct ErrorMessage {
    /// The display message.
    pub msg: String,
    /// The underlying cause, if any.
    pub cause: Option<Box<Failure>>,
}

impl Fail for ErrorMessage {
    open spec fn msg_spec(&self) -> Seq<char> {
        self.msg@
    }

    open spec fn cause_spec(&self) -> Option<Failure> {
        match self.cause {
            Option::Some(b) => Option::Some(*b),
            Option::None => Option::None,
        }
    }

    open spec fn trace_spec(&self) -> Option<TraceView> {
        Option::None
    }

    open spec fn tag_spec(&self) -> TypeTag {
        TypeTag::Message
    }

    fn display(&self) -> String {
        self.msg.clone()
    }

    fn cause(&self) -> Option<&Failure> {
        match &self.cause {
            Some(b) => Some(&**b),
            None => None,
        }
    }

    fn backtrace(&self) -> Option<&Trace> {
        None
    }

    fn into_failure(self) -> Failure {
        Failure::Message(self)
    }

    fn context(self, context: String, capture: bool) -> Context {
        Context::with_err(context, Error::from(self.into_failure(), capture))
    }
}

/// Constructs an error from a message alone: the convenient way to turn a
/// string into an error value without declaring a failure type for it.
pub fn err_msg(msg: String, capture: bool) -> (r: Error)
    ensures
        (*r.failure == Failure::Message(ErrorMessage { msg: msg, cause: Option::None })),
        r.wf(),
        r.trace@ == (if capture {
            TraceView::Raw
        } else {
            TraceView::Placeholder
        }),
{
    Error::from(Failure::Message(ErrorMessage { msg, cause: None }), capture)
}

/// Constructs an error from a message and the failure that caused it.
pub fn err_msg_with(cause: Failure, msg: String, capture: bool) -> (r: Error)
    ensures
        ({
            let m = (*r.failure)->Message_0;
            (*r.failure) is Message && m.msg == msg && m.cause is Some && *m.cause->0 == cause
        }),
        r.wf(),
        r.trace@ == (if capture {
            TraceView::Raw
        } else {
            TraceView::Placeholder
        }),
{
    Error::from(Failure::Message(ErrorMessage { msg, cause: Some(Box::new(cause)) }), capture)
}

} // verus!
