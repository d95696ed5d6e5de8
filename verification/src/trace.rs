//! The trace capture primitive.
//!
//! A [`Trace`] is an opaque capture of the call stack at a point in time.
//! It has three states: *placeholder* (capture was disabled or redundant, all
//! operations are no-ops), *captured but unresolved* (raw addresses only), and
//! *resolved* (symbolic text, memoized). Resolution is deferred and performed
//! at most once per trace; once resolved the content never changes.

use vstd::prelude::*;

verus! {

/// Whether a value of the process-wide toggle variable enables capture:
/// absent or the literal `0` disables it, anything else enables it.
pub open spec fn switch_on(value: Option<Seq<char>>) -> bool {
    value is Some && value->0 != "0"@
}

/// Decides the process-wide capture switch from the toggle variable's
/// value. Callers read the variable once, hand its value in, and cache the
/// decision for the life of the process.
pub fn capture_switch(value: Option<String>) -> (r: bool)
    ensures
        r == (value is Some && value->0@ != "0"@),
{
    match value {
        Some(s) => {
            let zero = "0".to_owned();
            !s.eq(&zero)
        },
        None => false,
    }
}

/// The abstract state of a [`Trace`].
pub enum TraceView {
    /// No capture was made: every operation is a no-op.
    Placeholder,
    /// The stack was captured as raw addresses; symbols are not yet known.
    Raw,
    /// Symbols were resolved once; the text is fixed from then on.
    Resolved(Seq<char>),
}

/// Declares the outside capture type `backtrace::Backtrace`, which holds
/// the raw stack frames; it stays opaque here and is only carried through.
#[verifier::external_type_specification]
#[verifier::external_body]
pub struct ExRawTrace(::backtrace::Backtrace);

/// Relies on `backtrace::Backtrace::new_unresolved`: captures the current
/// call stack as raw addresses, without resolving symbols. The result depends
/// on the call site and the machine, so nothing is promised of it.
#[verifier::external_body]
fn capture_raw() -> ::backtrace::Backtrace {
    ::backtrace::Backtrace::new_unresolved()
}

/// Relies on `backtrace::Backtrace::resolve`: resolves the raw addresses of a
/// captured trace to their symbolic names, in place. The symbols depend on
/// the machine, so nothing is promised of the new value.
#[verifier::external_body]
fn resolve_raw(raw: &mut ::backtrace::Backtrace) {
    raw.resolve();
}

/// Relies on the `Debug` implementation of `backtrace::Backtrace`: renders
/// the frames of a trace as text. The text depends on the machine, so nothing
/// is promised of it.
#[verifier::external_body]
fn raw_text(raw: &::backtrace::Backtrace) -> String {
    format!("{:?}", raw)
}

/// A lazily resolved capture of the call stack.
///
/// At most one of `raw` and `text` is ever set: `raw` while the capture is
/// unresolved, `text` once it has been resolved (the raw addresses are no
/// longer needed then).
#[derive(Debug)]
pub struct Trace {
    raw: Option<::backtrace::Backtrace>,
    text: Option<String>,
}

impl View for Trace {
    type V = TraceView;

    closed spec fn view(&self) -> TraceView {
        if self.text is Some {
            TraceView::Resolved(self.text->0@)
        } else if self.raw is Some {
            TraceView::Raw
        } else {
            TraceView::Placeholder
        }
    }
}

impl Trace {
    /// Captures a new trace if `capture` is set, and returns the zero-cost
    /// placeholder otherwise. The switch is process-wide in spirit: callers
    /// read it once from the environment and hand the cached value in.
    pub fn new(capture: bool) -> (r: Trace)
        ensures
            r@ == (if capture {
                TraceView::Raw
            } else {
                TraceView::Placeholder
            }),
    {
        if capture {
            Trace { raw: Some(capture_raw()), text: None }
        } else {
            Trace { raw: None, text: None }
        }
    }

    /// The zero-cost placeholder trace.
    pub fn none() -> (r: Trace)
        ensures
            r@ is Placeholder,
    {
        Trace { raw: None, text: None }
    }

    /// True exactly on the placeholder.
    pub fn is_none(&self) -> (r: bool)
        ensures
            r == (self@ is Placeholder),
    {
        self.raw.is_none() && self.text.is_none()
    }

    /// True exactly on a captured, not yet resolved trace.
    pub fn is_raw(&self) -> (r: bool)
        ensures
            r == (self@ is Raw),
    {
        self.text.is_none() && self.raw.is_some()
    }

    /// The resolved text, where resolution has already happened; nothing
    /// otherwise. Never resolves and never changes the trace.
    pub fn peek_text(&self) -> (r: Option<String>)
        ensures
            self@ is Resolved ==> r is Some && self@ == TraceView::Resolved(r->0@),
            !(self@ is Resolved) ==> r is None,
    {
        match &self.text {
            Some(t) => Some(t.clone()),
            None => None,
        }
    }

    /// Resolves the trace to symbolic text, at most once.
    ///
    /// The placeholder stays a placeholder and yields nothing. A raw capture
    /// is resolved now and remembered. A resolved trace is returned as it is:
    /// the second call changes nothing and yields the same content.
    pub fn resolved_text(&mut self) -> (r: Option<String>)
        ensures
            old(self)@ is Placeholder ==> *final(self) == *old(self) && r is None,
            old(self)@ is Resolved ==> *final(self) == *old(self) && r is Some
                && old(self)@ == TraceView::Resolved(r->0@),
            old(self)@ is Raw ==> r is Some && final(self)@ == TraceView::Resolved(r->0@),
    {
        if let Some(t) = &self.text {
            return Some(t.clone());
        }
        let raw_opt = self.raw.take();
        match raw_opt {
            Some(mut raw) => {
                resolve_raw(&mut raw);
                let t = raw_text(&raw);
                self.text = Some(t.clone());
                Some(t)
            },
            None => None,
        }
    }
}

} // verus!
