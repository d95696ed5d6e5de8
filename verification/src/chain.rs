//! The error chain decorator.
//!
//! A [`Chain`] pairs a failure with contextual information. Unlike a
//! [`crate::context::Context`], its display shows the underlying failure
//! first and the added information after it.

use vstd::prelude::*;
use vstd::string::StringExecFns;
use crate::context::Context;
use crate::error::Error;
use crate::trace::{Trace, TraceView};
use crate::{chain_msg, chain_trace, fail_msg, Fail, Failure, TypeTag};

verus! {

/// Contextual information around an underlying failure.
#[derive(Debug)]
pub struct Chain {
    /// The added contextual information.
    pub context: String,
    /// The underlying failure.
    pub failure: Failure,
}

impl Chain {
    /// The display message: the underlying failure's message, then the
    /// added information on a line of its own.
    pub fn display(&self) -> (r: String)
        ensures
            r@ == chain_msg(*self),
        decreases *self, 3int, 0int,
    {
        let mut s = self.failure.display();
        s.append("\ninfo: ");
        s.append(self.context.as_str());
        proof {
            assert(s@ =~= chain_msg(*self));
        }
        s
    }
}

impl Fail for Chain {
    open spec fn msg_spec(&self) -> Seq<char> {
        chain_msg(*self)
    }

    open spec fn cause_spec(&self) -> Option<Failure> {
        Option::Some(self.failure)
    }

    open spec fn trace_spec(&self) -> Option<TraceView> {
        chain_trace(*self)
    }

    open spec fn tag_spec(&self) -> TypeTag {
        TypeTag::Chain
    }

    fn display(&self) -> String {
        Chain::display(self)
    }

    fn cause(&self) -> Option<&Failure> {
        Some(&self.failure)
    }

    fn backtrace(&self) -> Option<&Trace> {
        proof {
            reveal_with_fuel(chain_trace, 2);
        }
        self.failure.backtrace()
    }

    fn into_failure(self) -> Failure {
        Failure::Chained(Box::new(self))
    }

    fn context(self, context: String, capture: bool) -> Context {
        Context::with_err(context, Error::from(self.into_failure(), capture))
    }
}

/// Chains the error case of a result with contextual information.
pub trait ChainErr<T, E>: Sized {
    /// The success value, where there is one.
    spec fn ok_spec(&self) -> Option<T>;

    /// The failure behind the error case, where there is one.
    spec fn err_failure(&self) -> Option<Failure>;

    /// Wraps the error case in a [`Chain`] carrying the given context;
    /// the success case passes through untouched.
    fn chain_err(self, context: String) -> (r: Result<T, Chain>)
        ensures
            (r is Ok) == (self.ok_spec() is Some),
            r is Ok ==> r->Ok_0 == self.ok_spec()->0,
            r is Err ==> r->Err_0.context == context && Some(r->Err_0.failure)
                == self.err_failure(),
    ;
}

impl<T> ChainErr<T, Failure> for Result<T, Failure> {
    open spec fn ok_spec(&self) -> Option<T> {
        match *self {
            Result::Ok(t) => Option::Some(t),
            Result::Err(_) => Option::None,
        }
    }

    open spec fn err_failure(&self) -> Option<Failure> {
        match *self {
            Result::Ok(_) => Option::None,
            Result::Err(f) => Option::Some(f),
        }
    }

    fn chain_err(self, context: String) -> Result<T, Chain> {
        match self {
            Ok(t) => Ok(t),
            Err(failure) => Err(Chain { context, failure }),
        }
    }
}

impl<T> ChainErr<T, crate::error::Error> for Result<T, crate::error::Error> {
    open spec fn ok_spec(&self) -> Option<T> {
        match *self {
            Result::Ok(t) => Option::Some(t),
            Result::Err(_) => Option::None,
        }
    }

    open spec fn err_failure(&self) -> Option<Failure> {
        match *self {
            Result::Ok(_) => Option::None,
            Result::Err(e) => Option::Some(*e.failure),
        }
    }

    fn chain_err(self, context: String) -> Result<T, Chain> {
        match self {
            Ok(t) => Ok(t),
            Err(e) => Err(Chain { context, failure: *e.failure }),
        }
    }
}

} // verus!
