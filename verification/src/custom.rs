//! Failure values of user-declared types.
//!
//! A [`CustomFailure`] is a runtime value of a type described by a
//! [`crate::decl::TypeDecl`]: the generated plan, the index of the variant
//! the value inhabits, and the field values of that variant. Its message,
//! cause and trace all follow the plan's per-variant lookups.

use vstd::prelude::*;
use vstd::string::StringExecFns;
use crate::decl::{
    first_cause_from, first_display_from, first_trace_from, lemma_literal_template, n_holes_from,
    plan_matches, FailPlan, TypeDecl,
};
use crate::render::{format_i64, render, render_spec};
use crate::{
    arg_views, custom_cause, custom_causes, custom_msg, custom_name, custom_trace, fallback_msg,
    lemma_arg_views_index, lemma_custom_congruence, slot_view,
};
use crate::context::Context;
use crate::error::Error;
use crate::trace::{Trace, TraceView};
use crate::{Fail, Failure, FieldValue, TypeTag};

verus! {

/// A value of a user-declared failure type.
#[derive(Debug)]
pub struct CustomFailure {
    /// The generated implementation for the value's type.
    pub plan: FailPlan,
    /// Which variant this value inhabits.
    pub variant: usize,
    /// The field values of that variant, in declaration order.
    pub fields: Vec<FieldValue>,
}

/// The text shown for a variant without a display arm.
pub(crate) fn fallback_string() -> (r: String)
    ensures
        r@ == fallback_msg(),
{
    String::from_str("An error has occurred.")
}

impl CustomFailure {
    /// The rendering of the referenced field, or nothing for a reference
    /// beyond the variant's fields.
    fn display_slot(&self, ix: usize) -> (r: String)
        ensures
            r@ == slot_view(*self, ix as int),
        decreases *self, 1int, 0int,
    {
        if ix < self.fields.len() {
            match &self.fields[ix] {
                FieldValue::Int(n) => format_i64(*n),
                FieldValue::Text(s) => s.clone(),
                FieldValue::Trace(_) => String::new(),
                FieldValue::Fail(b) => b.display(),
            }
        } else {
            String::new()
        }
    }

    /// The display message: the variant's template rendered against the
    /// fields its arguments reference, or the fallback text where the
    /// variant has no display arm.
    pub fn display(&self) -> (r: String)
        ensures
            r@ == custom_msg(*self),
        decreases *self, 3int, 0int,
    {
        if self.variant < self.plan.variants.len() {
            if let Some(arm) = &self.plan.variants[self.variant].display {
                let mut args: Vec<String> = Vec::new();
                let mut i: usize = 0;
                while i < arm.slots.len()
                    invariant
                        i <= arm.slots@.len(),
                        args@.len() == i,
                        forall|j: int|
                            0 <= j < i ==> args@[j]@ == slot_view(*self, arm.slots@[j] as int),
                    decreases arm.slots@.len() - i,
                {
                    let s = self.display_slot(arm.slots[i]);
                    args.push(s);
                    i += 1;
                }
                proof {
                    lemma_arg_views_index(*self, arm.slots@);
                    assert(args.deep_view() =~= arg_views(*self, arm.slots@));
                }
                render(&arm.template, &args)
            } else {
                fallback_string()
            }
        } else {
            fallback_string()
        }
    }

    /// The underlying cause: the value of the variant's cause-annotated
    /// field, where that field holds a failure.
    pub fn cause(&self) -> (r: Option<&Failure>)
        ensures
            (r is Some) == (custom_cause(*self) is Some),
            r is Some ==> *r->0 == custom_cause(*self)->0,
    {
        if self.variant < self.plan.variants.len() {
            match self.plan.variants[self.variant].cause_slot {
                Some(ix) => {
                    if ix < self.fields.len() {
                        match &self.fields[ix] {
                            FieldValue::Fail(b) => Some(&**b),
                            _ => None,
                        }
                    } else {
                        None
                    }
                },
                None => None,
            }
        } else {
            None
        }
    }

    /// The capture-site trace: the value of the variant's trace-typed
    /// field, where that field holds a trace.
    pub fn backtrace(&self) -> (r: Option<&Trace>)
        ensures
            (r is Some) == (custom_trace(*self) is Some),
            r is Some ==> Some(r->0@) == custom_trace(*self),
    {
        if self.variant < self.plan.variants.len() {
            match self.plan.variants[self.variant].trace_slot {
                Some(ix) => {
                    if ix < self.fields.len() {
                        match &self.fields[ix] {
                            FieldValue::Trace(t) => Some(t),
                            _ => None,
                        }
                    } else {
                        None
                    }
                },
                None => None,
            }
        } else {
            None
        }
    }

    /// Resolves the trace held in the variant's trace-typed field, at most
    /// once; see [`Failure::resolve_trace`](crate::Failure::resolve_trace).
    pub fn resolve_trace(&mut self) -> (r: Option<String>)
        ensures
            custom_trace(*old(self)) is None ==> *final(self) == *old(self) && r is None,
            custom_trace(*old(self)) == Some(TraceView::Placeholder) ==> *final(self) == *old(
                self,
            ) && r is None,
            (match custom_trace(*old(self)) {
                Option::Some(TraceView::Resolved(s)) => *final(self) == *old(self) && r is Some
                    && r->0@ == s,
                _ => true,
            }),
            custom_trace(*old(self)) == Some(TraceView::Raw) ==> r is Some && custom_trace(
                *final(self),
            ) == Some(TraceView::Resolved(r->0@)) && custom_msg(*final(self)) == custom_msg(
                *old(self),
            ) && custom_cause(*final(self)) == custom_cause(*old(self)) && custom_causes(
                *final(self),
            ) == custom_causes(*old(self)) && custom_name(*final(self)) == custom_name(*old(self))
                && final(self).plan == old(self).plan && final(self).variant == old(self).variant,
    {
        if self.variant >= self.plan.variants.len() {
            return None;
        }
        let slot = self.plan.variants[self.variant].trace_slot;
        let ix = match slot {
            Some(ix) => ix,
            None => {
                return None;
            },
        };
        if ix >= self.fields.len() {
            return None;
        }
        let raw = match &self.fields[ix] {
            FieldValue::Trace(t) => t.is_raw(),
            _ => {
                return None;
            },
        };
        if !raw {
            let r = match &self.fields[ix] {
                FieldValue::Trace(t) => t.peek_text(),
                _ => None,
            };
            return r;
        }
        let ghost c1 = *self;
        let r = match &mut self.fields[ix] {
            FieldValue::Trace(t) => t.resolved_text(),
            _ => {
                proof {
                    assert(false);
                }
                None
            },
        };
        proof {
            lemma_custom_congruence(c1, *self, ix as int);
        }
        r
    }

    /// The reported name of the variant this value inhabits, if any.
    pub fn name(&self) -> (r: Option<String>)
        ensures
            (r is Some) == (custom_name(*self) is Some),
            r is Some ==> Some(r->0@) == custom_name(*self),
    {
        if self.variant < self.plan.variants.len() {
            match &self.plan.variants[self.variant].name {
                Some(n) => Some(n.clone()),
                None => None,
            }
        } else {
            None
        }
    }
}

/// For failures generated from a declaration: each variant's display
/// output is its own message template rendered with its own field
/// substitutions — the fallback text where the variant declares no
/// template; the value reports a trace exactly where its variant declares
/// a trace-typed field and that field holds one; and its cause is exactly
/// the value of the variant's cause-annotated field, where that field
/// holds a failure.
pub proof fn lemma_generated_variant(d: TypeDecl, c: CustomFailure)
    requires
        plan_matches(d, c.plan),
        c.variant < d.variants@.len(),
    ensures
        (match first_display_from(d.variants@[c.variant as int].notes@, 0) {
            Option::Some(da) => custom_msg(c) == render_spec(
                da.template@,
                arg_views(c, c.plan.variants@[c.variant as int].display->0.slots@),
            ),
            Option::None => custom_msg(c) == crate::fallback_msg(),
        }),
        (custom_trace(c) is Some) <==> (first_trace_from(
            d.variants@[c.variant as int].fields@,
            0,
        ) matches Option::Some(ix) && ix < c.fields@.len() && c.fields@[ix] is Trace),
        (match first_cause_from(d.variants@[c.variant as int].fields@, 0) {
            Option::Some(ix) => custom_cause(c) == (if ix < c.fields@.len() && c.fields@[ix]
                is Fail {
                Option::Some(*c.fields@[ix]->Fail_0)
            } else {
                Option::<Failure>::None
            }),
            Option::None => custom_cause(c) is None,
        }),
{
    reveal_with_fuel(custom_msg, 2);
    assert(c.variant < c.plan.variants@.len());
}

/// A variant whose display template holds no placeholder displays exactly
/// the literal template text, with no substitution performed.
pub proof fn lemma_literal_display(c: CustomFailure)
    requires
        c.variant < c.plan.variants@.len(),
        c.plan.variants@[c.variant as int].display is Some,
        n_holes_from(c.plan.variants@[c.variant as int].display->0.template@, 0) == 0,
    ensures
        custom_msg(c) == c.plan.variants@[c.variant as int].display->0.template@,
{
    reveal_with_fuel(custom_msg, 2);
    let arm = c.plan.variants@[c.variant as int].display->0;
    lemma_literal_template(arm.template@, arg_views(c, arm.slots@));
}

impl Fail for CustomFailure {
    open spec fn msg_spec(&self) -> Seq<char> {
        custom_msg(*self)
    }

    open spec fn cause_spec(&self) -> Option<Failure> {
        custom_cause(*self)
    }

    open spec fn trace_spec(&self) -> Option<TraceView> {
        custom_trace(*self)
    }

    open spec fn tag_spec(&self) -> TypeTag {
        TypeTag::Custom(self.plan.tag)
    }

    fn display(&self) -> String {
        CustomFailure::display(self)
    }

    fn cause(&self) -> Option<&Failure> {
        CustomFailure::cause(self)
    }

    fn backtrace(&self) -> Option<&Trace> {
        CustomFailure::backtrace(self)
    }

    fn into_failure(self) -> Failure {
        Failure::Custom(self)
    }

    fn context(self, context: String, capture: bool) -> Context {
        Context::with_err(context, Error::from(self.into_failure(), capture))
    }
}

} // verus!
