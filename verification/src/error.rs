//! The type-erased error value.
//!
//! An [`Error`] owns exactly one boxed failure plus a capture-site trace.
//! If the wrapped failure already carries its own trace, the error's own
//! trace is the zero-cost placeholder: at most one real trace exists per
//! error value.

use vstd::prelude::*;
use vstd::string::StringExecFns;
use crate::compat::Compat;
use crate::context::Context;
use crate::trace::{Trace, TraceView};
use crate::{
    cause_of, chain_seq, err_trace, fail_debug, fail_msg, fail_trace, find_root_cause,
    lemma_cause_step, lemma_chain_seq, num_causes, pretty_msg, root_of, tag_of, Failure, TypeTag,
};

verus! {

/// The error type, which can contain any failure.
#[derive(Debug)]
pub struct Error {
    /// The one failure this error wraps.
    pub failure: Box<Failure>,
    /// The capture-site trace; the placeholder when the failure carries its
    /// own trace or capture is disabled.
    pub trace: Trace,
}

impl Error {
    /// At most one real trace per error value: when the wrapped failure
    /// carries its own trace, the error's own trace is the placeholder.
    pub open spec fn wf(&self) -> bool {
        fail_trace(*self.failure) is Some ==> self.trace@ is Placeholder
    }

    /// Wraps a failure into an error, moving it onto the heap.
    ///
    /// If the failure carries its own trace the error's own trace is the
    /// zero-cost placeholder; otherwise a fresh trace is captured now,
    /// subject to the process-wide capture switch handed in by the caller.
    pub fn from(failure: Failure, capture: bool) -> (r: Error)
        ensures
            *r.failure == failure,
            r.wf(),
            fail_trace(failure) is None ==> r.trace@ == (if capture {
                TraceView::Raw
            } else {
                TraceView::Placeholder
            }),
            fail_trace(failure) is Some ==> r.trace@ is Placeholder,
    {
        let trace = if failure.backtrace().is_none() {
            Trace::new(capture)
        } else {
            Trace::none()
        };
        Error { failure: Box::new(failure), trace }
    }

    /// A reference to the wrapped failure: the entry point of the cause
    /// chain. Unlike the failures' own `cause`, this never returns nothing —
    /// an error always wraps exactly one failure.
    pub fn cause(&self) -> (r: &Failure)
        ensures
            *r == *self.failure,
    {
        &*self.failure
    }

    /// The resolved content of this error's effective trace: its own trace
    /// when real, else the wrapped failure's own trace, else nothing.
    ///
    /// Resolution happens at most once: a second call changes nothing and
    /// yields the same content as the first.
    pub fn backtrace(&mut self) -> (r: Option<String>)
        ensures
            err_trace(*old(self)) is None ==> *final(self) == *old(self) && r is None,
            err_trace(*old(self)) == Some(TraceView::Placeholder) ==> *final(self) == *old(
                self,
            ) && r is None,
            (match err_trace(*old(self)) {
                Option::Some(TraceView::Resolved(s)) => *final(self) == *old(self) && r is Some
                    && r->0@ == s,
                _ => true,
            }),
            err_trace(*old(self)) == Some(TraceView::Raw) ==> r is Some && err_trace(
                *final(self),
            ) == Some(TraceView::Resolved(r->0@)) && fail_msg(*final(self).failure) == fail_msg(
                *old(self).failure,
            ) && tag_of(*final(self).failure) == tag_of(*old(self).failure) && num_causes(
                *final(self).failure,
            ) == num_causes(*old(self).failure) && (old(self).wf() ==> final(self).wf()),
        decreases *old(self), 1int,
    {
        if !self.trace.is_none() {
            self.trace.resolved_text()
        } else {
            self.failure.resolve_trace()
        }
    }

    /// The effective trace of this error, unresolved: its own when real,
    /// else the wrapped failure's own, else nothing.
    pub fn effective_backtrace(&self) -> (r: Option<&Trace>)
        ensures
            (r is Some) == (err_trace(*self) is Some),
            r is Some ==> Some(r->0@) == err_trace(*self),
        decreases *self, 0int,
    {
        if !self.trace.is_none() {
            Some(&self.trace)
        } else {
            self.failure.backtrace()
        }
    }

    /// The display message of this error: the wrapped failure's message.
    pub fn display(&self) -> (r: String)
        ensures
            r@ == fail_msg(*self.failure),
    {
        self.failure.display()
    }

    /// The developer-facing rendering of this error: the wrapped failure's
    /// debug text, and — where a real trace exists — its resolved content
    /// after a blank line.
    pub fn debug_text(&mut self) -> (r: String)
        ensures
            (match err_trace(*old(self)) {
                Option::Some(TraceView::Raw) => r@ == fail_debug(*old(self).failure)
                    + "\n\n"@ + err_trace(*final(self))->0->Resolved_0,
                Option::Some(TraceView::Resolved(s)) => r@ == fail_debug(*old(self).failure)
                    + "\n\n"@ + s,
                _ => r@ == fail_debug(*old(self).failure),
            }),
    {
        let mut s = self.failure.debug_msg();
        let bt = self.backtrace();
        match bt {
            Some(t) => {
                s.append("\n\n");
                s.append(t.as_str());
                proof {
                    assert(s@ =~= fail_debug(*old(self).failure) + "\n\n"@ + t@);
                }
            },
            None => {},
        }
        s
    }

    /// Attempts to downcast this error to the failure with the given type
    /// identity, by value.
    ///
    /// The downcast succeeds exactly when the wrapped failure's identity
    /// equals the requested one, and then moves the failure out whole. On
    /// the other identities the error comes back unchanged: ownership is
    /// never partially consumed on the failure path.
    pub fn downcast(self, tag: TypeTag) -> (r: Result<Failure, Error>)
        ensures
            (r is Ok) == (tag_of(*self.failure) == tag),
            r is Ok ==> r->Ok_0 == *self.failure,
            r is Err ==> r->Err_0 == self,
    {
        let t = self.failure.tag();
        if t == tag {
            Ok(*self.failure)
        } else {
            Err(self)
        }
    }

    /// Attempts to downcast this error by reference: a reference to the
    /// wrapped failure exactly when its identity equals the requested one.
    pub fn downcast_ref(&self, tag: TypeTag) -> (r: Option<&Failure>)
        ensures
            (r is Some) == (tag_of(*self.failure) == tag),
            r is Some ==> *r->0 == *self.failure,
    {
        let t = self.failure.tag();
        if t == tag {
            Some(&*self.failure)
        } else {
            None
        }
    }

    /// Attempts to downcast this error by mutable reference: a mutable
    /// reference to the wrapped failure exactly when its identity equals
    /// the requested one. No identity can change through the reference.
    pub fn downcast_mut(&mut self, tag: TypeTag) -> (r: Option<&mut Failure>)
        ensures
            (r is Some) == (tag_of(*old(self).failure) == tag),
            r is Some ==> *r->0 == *old(self).failure && *final(self).failure == *final(r->0)
                && final(self).trace == old(self).trace,
            r is None ==> *final(self) == *old(self),
    {
        let t = self.failure.tag();
        if t == tag {
            Some(&mut *self.failure)
        } else {
            None
        }
    }

    /// The root cause of this error: the last failure in the cause chain,
    /// which has no underlying cause of its own.
    pub fn root_cause(&self) -> (r: &Failure)
        ensures
            *r == root_of(*self.failure),
            cause_of(root_of(*self.failure)) is None,
    {
        proof {
            lemma_chain_seq(*self.failure);
        }
        find_root_cause(self.cause())
    }

    /// The failures of the cause chain, in order: the wrapped failure
    /// first, the root cause last — one entry per wrapped layer.
    pub fn causes(&self) -> (r: Vec<&Failure>)
        ensures
            r@.len() == 1 + num_causes(*self.failure),
            forall|i: int| 0 <= i < r@.len() ==> *r@[i] == chain_seq(*self.failure)[i],
    {
        let mut v: Vec<&Failure> = Vec::new();
        collect_chain(self.cause(), &mut v);
        v
    }

    /// The display messages of the whole cause chain, joined by `: `.
    pub fn pretty(&self) -> (r: String)
        ensures
            r@ == pretty_msg(*self.failure),
    {
        pretty_into(self.cause())
    }

    /// Provides context for this error: the annotation is shown, the error
    /// is kept underneath with its trace.
    pub fn context(self, context: String) -> (r: Context)
        ensures
            r.context == context,
            (r.failure == crate::context::Either::<Trace, Error>::That(self)),
    {
        Context::with_err(context, self)
    }

    /// Wraps this error in a compatibility type.
    pub fn compat(self) -> (r: Compat<Error>)
        ensures
            r.error == self,
    {
        Compat { error: self }
    }
}

/// Appends the whole cause chain of `f` to `v`, starting with `f` itself.
fn collect_chain<'a>(f: &'a Failure, v: &mut Vec<&'a Failure>)
    ensures
        final(v)@.len() == old(v)@.len() + 1 + num_causes(*f),
        forall|i: int| 0 <= i < old(v)@.len() ==> final(v)@[i] == old(v)@[i],
        forall|i: int|
            0 <= i < 1 + num_causes(*f) ==> *final(v)@[old(v)@.len() + i] == chain_seq(*f)[i],
    decreases num_causes(*f),
{
    proof {
        lemma_cause_step(*f);
        lemma_chain_seq(*f);
    }
    v.push(f);
    match f.cause() {
        Some(c) => {
            proof {
                lemma_chain_seq(*c);
            }
            collect_chain(c, v);
        },
        None => {},
    }
}

/// Builds the `: `-joined rendering of the cause chain of `f`.
fn pretty_into(f: &Failure) -> (r: String)
    ensures
        r@ == pretty_msg(*f),
    decreases num_causes(*f),
{
    proof {
        lemma_cause_step(*f);
    }
    let mut s = f.display();
    match f.cause() {
        Some(c) => {
            s.append(": ");
            let rest = pretty_into(c);
            s.append(rest.as_str());
            proof {
                assert(s@ =~= pretty_msg(*f));
            }
            s
        },
        None => s,
    }
}

} // verus!
