//! Extension methods for `Option`.

use vstd::prelude::*;
use crate::context::Context;
use crate::trace::TraceView;

verus! {

/// Turning an absent value into an annotated error.
pub trait OptionExt<T>: Sized {
    /// The optional value itself.
    spec fn val_spec(&self) -> Option<T>;

    /// The value where there is one; otherwise a [`Context`] carrying the
    /// annotation and a fresh capture-site trace, subject to the capture
    /// switch handed in by the caller.
    fn ok_or_context(self, context: String, capture: bool) -> (r: Result<T, Context>)
        ensures
            (r is Ok) == (self.val_spec() is Some),
            r is Ok ==> r->Ok_0 == self.val_spec()->0,
            r is Err ==> r->Err_0.context == context && r->Err_0.failure is This
                && r->Err_0.failure->This_0@ == (if capture {
                TraceView::Raw
            } else {
                TraceView::Placeholder
            }),
    ;
}

impl<T> OptionExt<T> for Option<T> {
    open spec fn val_spec(&self) -> Option<T> {
        *self
    }

    fn ok_or_context(self, context: String, capture: bool) -> Result<T, Context> {
        match self {
            Some(t) => Ok(t),
            None => Err(Context::new(context, capture)),
        }
    }
}

} // verus!
