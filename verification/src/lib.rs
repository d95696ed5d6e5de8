//! An error-handling library built around a polymorphic error value.
//!
//! The two central items are:
//!
//! - [`Fail`], the capability set that every concrete failure value offers:
//!   a display message, an optional underlying cause, an optional capture-site
//!   trace, and a runtime type tag for downcasting.
//! - [`Error`](error::Error), the type-erased wrapper that owns exactly one
//!   failure together with a capture-site trace, and that can be inspected,
//!   displayed, downcast and walked along its cause chain.
//!
//! Concrete failures are the variants of [`Failure`]: the message-only
//! failure, values of user-declared types driven by a generated plan, foreign
//! errors reduced to their renderings, and the two decorators that annotate
//! an existing failure or error.

use vstd::prelude::*;

pub mod chain;
pub mod compat;
pub mod context;
pub mod custom;
pub mod decl;
pub mod display;
pub mod error;
pub mod error_message;
pub mod foreign;
pub mod match_err;
pub mod option_ext;
pub mod render;
pub mod trace;

use crate::chain::Chain;
use crate::compat::Compat;
use crate::context::{Context, Either};
use crate::custom::CustomFailure;
use crate::error::Error;
use crate::error_message::ErrorMessage;
use crate::foreign::ForeignFailure;
use crate::render::{dec_int, render_spec};
use crate::trace::{Trace, TraceView};

verus! {

/// The runtime type identity of a failure value, checked by downcasts.
#[derive(Clone, Copy, PartialEq, Eq, Structural, Debug)]
pub enum TypeTag {
    /// A message-only failure.
    Message,
    /// A value of the user-declared type with this tag.
    Custom(u64),
    /// A foreign error behind the blanket adapter.
    Foreign,
    /// A context decorator.
    Context,
    /// A chain decorator.
    Chain,
}

/// One field value of a user-declared failure.
#[derive(Debug)]
pub enum FieldValue {
    /// An integer field.
    Int(i64),
    /// A text field.
    Text(String),
    /// A capture-site trace field.
    Trace(Trace),
    /// A field holding the underlying cause.
    Fail(Box<Failure>),
}

/// Any concrete failure value, ready for type erasure.
#[derive(Debug)]
pub enum Failure {
    /// A message-only failure.
    Message(ErrorMessage),
    /// A value of a user-declared type.
    Custom(CustomFailure),
    /// A foreign error behind the blanket adapter.
    Foreign(ForeignFailure),
    /// A context decorator around a failure or error.
    Context(Box<Context>),
    /// A chain decorator around a failure.
    Chained(Box<Chain>),
}

/// The message shown when a variant has no display arm.
pub open spec fn fallback_msg() -> Seq<char> {
    "An error has occurred."@
}

/// The display message of a failure.
pub open spec fn fail_msg(f: Failure) -> Seq<char>
    decreases f, 4int, 0int,
{
    match f {
        Failure::Message(m) => m.msg@,
        Failure::Custom(c) => custom_msg(c),
        Failure::Foreign(x) => x.message@,
        Failure::Context(b) => (*b).context@,
        Failure::Chained(b) => chain_msg(*b),
    }
}

/// The display message of a chain decorator: the failure's message, a line
/// break, and the added information.
pub open spec fn chain_msg(ch: Chain) -> Seq<char>
    decreases ch, 3int, 0int,
{
    fail_msg(ch.failure) + "\ninfo: "@ + ch.context@
}

/// The display message of a user-declared failure: its variant's template
/// rendered against the referenced fields, or the fallback text where the
/// variant has no display arm.
pub open spec fn custom_msg(c: CustomFailure) -> Seq<char>
    decreases c, 3int, 0int,
{
    if c.variant < c.plan.variants@.len() && c.plan.variants@[c.variant as int].display is Some {
        let arm = c.plan.variants@[c.variant as int].display->0;
        render_spec(arm.template@, arg_views(c, arm.slots@))
    } else {
        fallback_msg()
    }
}

/// The rendered argument strings for the given field references.
pub open spec fn arg_views(c: CustomFailure, slots: Seq<usize>) -> Seq<Seq<char>>
    decreases c, 2int, slots.len(),
{
    if slots.len() == 0 {
        Seq::empty()
    } else {
        seq![slot_view(c, slots[0] as int)] + arg_views(c, slots.drop_first())
    }
}

/// The rendering of one referenced field; out-of-range references render as
/// nothing.
pub open spec fn slot_view(c: CustomFailure, ix: int) -> Seq<char>
    decreases c, 1int, 0int,
{
    if 0 <= ix < c.fields@.len() {
        field_msg(c.fields@[ix])
    } else {
        Seq::empty()
    }
}

/// The rendering of one field value: integers in decimal, text as it is,
/// traces as nothing, causes by their own display message.
pub open spec fn field_msg(v: FieldValue) -> Seq<char>
    decreases v, 4int, 0int,
{
    match v {
        FieldValue::Int(n) => dec_int(n as int),
        FieldValue::Text(s) => s@,
        FieldValue::Trace(_) => Seq::empty(),
        FieldValue::Fail(b) => fail_msg(*b),
    }
}

/// The developer-facing rendering of a failure: a foreign error's recorded
/// debug text, every other failure's display message.
pub open spec fn fail_debug(f: Failure) -> Seq<char> {
    match f {
        Failure::Foreign(x) => x.debug@,
        _ => fail_msg(f),
    }
}

/// The immediate underlying cause of a failure, if any.
pub open spec fn cause_of(f: Failure) -> Option<Failure> {
    match f {
        Failure::Message(m) => match m.cause {
            Option::Some(b) => Option::Some(*b),
            Option::None => Option::None,
        },
        Failure::Custom(c) => custom_cause(c),
        Failure::Foreign(_) => Option::None,
        Failure::Context(b) => match (*b).failure {
            Either::This(_) => Option::None,
            Either::That(e) => Option::Some(*e.failure),
        },
        Failure::Chained(b) => Option::Some((*b).failure),
    }
}

/// The cause of a user-declared failure: the value of its variant's
/// cause-annotated field, where that field holds a failure.
pub open spec fn custom_cause(c: CustomFailure) -> Option<Failure> {
    if c.variant < c.plan.variants@.len() && c.plan.variants@[c.variant as int].cause_slot is Some {
        let ix = c.plan.variants@[c.variant as int].cause_slot->0;
        if ix < c.fields@.len() && c.fields@[ix as int] is Fail {
            Option::Some(*c.fields@[ix as int]->Fail_0)
        } else {
            Option::None
        }
    } else {
        Option::None
    }
}

/// The reported name of the variant a user-declared failure inhabits.
pub open spec fn custom_name(c: CustomFailure) -> Option<Seq<char>> {
    if c.variant < c.plan.variants@.len() && c.plan.variants@[c.variant as int].name is Some {
        Option::Some(c.plan.variants@[c.variant as int].name->0@)
    } else {
        Option::None
    }
}

/// The runtime type identity of a failure value.
pub open spec fn tag_of(f: Failure) -> TypeTag {
    match f {
        Failure::Message(_) => TypeTag::Message,
        Failure::Custom(c) => TypeTag::Custom(c.plan.tag),
        Failure::Foreign(_) => TypeTag::Foreign,
        Failure::Context(_) => TypeTag::Context,
        Failure::Chained(_) => TypeTag::Chain,
    }
}

/// The capture-site trace a failure itself carries, if any.
pub open spec fn fail_trace(f: Failure) -> Option<TraceView>
    decreases f, 4int,
{
    match f {
        Failure::Message(_) => Option::None,
        Failure::Custom(c) => custom_trace(c),
        Failure::Foreign(_) => Option::None,
        Failure::Context(b) => ctx_trace(*b),
        Failure::Chained(b) => chain_trace(*b),
    }
}

/// The trace of a user-declared failure: the value of its variant's
/// trace-typed field, where that field holds a trace.
pub open spec fn custom_trace(c: CustomFailure) -> Option<TraceView> {
    if c.variant < c.plan.variants@.len() && c.plan.variants@[c.variant as int].trace_slot is Some {
        let ix = c.plan.variants@[c.variant as int].trace_slot->0;
        if ix < c.fields@.len() && c.fields@[ix as int] is Trace {
            Option::Some(c.fields@[ix as int]->Trace_0@)
        } else {
            Option::None
        }
    } else {
        Option::None
    }
}

/// The trace of a context decorator: its own fresh capture, or the wrapped
/// error's effective trace.
pub open spec fn ctx_trace(ctx: Context) -> Option<TraceView>
    decreases ctx, 3int,
{
    either_trace(ctx.failure)
}

/// The trace behind a context's source.
pub open spec fn either_trace(src: Either<Trace, Error>) -> Option<TraceView>
    decreases src, 2int,
{
    match src {
        Either::This(t) => Option::Some(t@),
        Either::That(e) => err_trace(e),
    }
}

/// The trace of a chain decorator: its failure's trace.
pub open spec fn chain_trace(ch: Chain) -> Option<TraceView>
    decreases ch, 3int,
{
    fail_trace(ch.failure)
}

/// The effective trace of an error: its own trace when real, else the
/// wrapped failure's own trace, else none.
pub open spec fn err_trace(e: Error) -> Option<TraceView>
    decreases e, 1int,
{
    if e.trace@ is Placeholder {
        fail_trace(*e.failure)
    } else {
        Option::Some(e.trace@)
    }
}

/// The number of underlying causes below a failure: the length of its cause
/// chain, not counting the failure itself.
pub open spec fn num_causes(f: Failure) -> nat
    decreases f, 4int,
{
    match f {
        Failure::Message(m) => msg_causes(m),
        Failure::Custom(c) => custom_causes(c),
        Failure::Foreign(_) => 0,
        Failure::Context(b) => ctx_causes(*b),
        Failure::Chained(b) => chain_causes(*b),
    }
}

/// The chain length below a message-only failure.
pub open spec fn msg_causes(m: ErrorMessage) -> nat
    decreases m, 3int,
{
    opt_causes(m.cause)
}

/// The chain length below an optional boxed cause.
pub open spec fn opt_causes(o: Option<Box<Failure>>) -> nat
    decreases o, 2int,
{
    match o {
        Option::Some(b) => 1 + num_causes(*b),
        Option::None => 0,
    }
}

/// The chain length below a user-declared failure.
pub open spec fn custom_causes(c: CustomFailure) -> nat
    decreases c, 3int,
{
    if c.variant < c.plan.variants@.len() && c.plan.variants@[c.variant as int].cause_slot is Some {
        let ix = c.plan.variants@[c.variant as int].cause_slot->0;
        if ix < c.fields@.len() {
            fv_causes(c.fields@[ix as int])
        } else {
            0
        }
    } else {
        0
    }
}

/// The chain length below one field value.
pub open spec fn fv_causes(v: FieldValue) -> nat
    decreases v, 2int,
{
    match v {
        FieldValue::Fail(b) => 1 + num_causes(*b),
        _ => 0,
    }
}

/// The chain length below a context decorator.
pub open spec fn ctx_causes(ctx: Context) -> nat
    decreases ctx, 3int,
{
    either_causes(ctx.failure)
}

/// The chain length below a context's source.
pub open spec fn either_causes(src: Either<Trace, Error>) -> nat
    decreases src, 2int,
{
    match src {
        Either::This(_) => 0,
        Either::That(e) => 1 + num_causes(*e.failure),
    }
}

/// The chain length below a chain decorator.
pub open spec fn chain_causes(ch: Chain) -> nat
    decreases ch, 3int,
{
    1 + num_causes(ch.failure)
}

/// The failure contract: the capability set every concrete failure value
/// offers. Implementors are called failures.
///
/// A failure produces a display message, optionally reports the next
/// failure of the cause chain, optionally reports a capture-site trace,
/// and carries a runtime type identity for downcasting. Its cause must
/// never close a cycle back to the failure itself: here every cause is
/// owned by the failure reporting it, so a cycle cannot be built at all,
/// and chain traversal always terminates.
pub trait Fail: Sized {
    /// The display message of this failure.
    spec fn msg_spec(&self) -> Seq<char>;

    /// The immediate underlying cause of this failure, if any.
    spec fn cause_spec(&self) -> Option<Failure>;

    /// The capture-site trace this failure carries, if any.
    spec fn trace_spec(&self) -> Option<TraceView>;

    /// The runtime type identity of this failure.
    spec fn tag_spec(&self) -> TypeTag;

    /// The display message, deterministic and side-effect-free.
    fn display(&self) -> (r: String)
        ensures
            r@ == self.msg_spec(),
    ;

    /// The immediate underlying cause, if any; never the failure itself.
    fn cause(&self) -> (r: Option<&Failure>)
        ensures
            (r is Some) == (self.cause_spec() is Some),
            r is Some ==> *r->0 == self.cause_spec()->0,
    ;

    /// The capture-site trace carried by this failure, if any.
    fn backtrace(&self) -> (r: Option<&Trace>)
        ensures
            (r is Some) == (self.trace_spec() is Some),
            r is Some ==> Some(r->0@) == self.trace_spec(),
    ;

    /// Erases the concrete type: the failure as a [`Failure`] value with
    /// the same message, cause, trace and identity.
    fn into_failure(self) -> (r: Failure)
        ensures
            fail_msg(r) == self.msg_spec(),
            cause_of(r) == self.cause_spec(),
            fail_trace(r) == self.trace_spec(),
            tag_of(r) == self.tag_spec(),
    ;

    /// Wraps this failure in a compatibility wrapper, consuming it.
    fn compat(self) -> (r: Compat<Self>)
        ensures
            r.error == self,
    {
        Compat { error: self }
    }

    /// Provides context for this failure, consuming it: the annotation is
    /// shown, the failure is erased and wrapped into an error underneath,
    /// capturing a trace subject to the switch handed in by the caller.
    fn context(self, context: String, capture: bool) -> (r: Context)
        ensures
            r.context == context,
            r.failure is That,
            fail_msg(*r.failure->That_0.failure) == self.msg_spec(),
            cause_of(*r.failure->That_0.failure) == self.cause_spec(),
            tag_of(*r.failure->That_0.failure) == self.tag_spec(),
    ;
}

impl Failure {
    /// The display message of this failure.
    pub fn display(&self) -> (r: String)
        ensures
            r@ == fail_msg(*self),
        decreases *self, 4int, 0int,
    {
        match self {
            Failure::Message(m) => m.msg.clone(),
            Failure::Custom(c) => c.display(),
            Failure::Foreign(x) => x.message.clone(),
            Failure::Context(b) => b.context.clone(),
            Failure::Chained(b) => b.display(),
        }
    }

    /// The developer-facing rendering of this failure.
    pub fn debug_msg(&self) -> (r: String)
        ensures
            r@ == fail_debug(*self),
    {
        match self {
            Failure::Foreign(x) => x.debug.clone(),
            _ => self.display(),
        }
    }

    /// The immediate underlying cause of this failure, if any.
    pub fn cause(&self) -> (r: Option<&Failure>)
        ensures
            (r is Some) == (cause_of(*self) is Some),
            r is Some ==> *r->0 == cause_of(*self)->0,
    {
        match self {
            Failure::Message(m) => match &m.cause {
                Some(b) => Some(&**b),
                None => None,
            },
            Failure::Custom(c) => c.cause(),
            Failure::Foreign(_) => None,
            Failure::Context(b) => match &b.failure {
                Either::This(_) => None,
                Either::That(e) => Some(e.cause()),
            },
            Failure::Chained(b) => Some(&b.failure),
        }
    }

    /// The capture-site trace this failure itself carries, if any.
    pub fn backtrace(&self) -> (r: Option<&Trace>)
        ensures
            (r is Some) == (fail_trace(*self) is Some),
            r is Some ==> Some(r->0@) == fail_trace(*self),
        decreases *self, 4int,
    {
        proof {
            reveal_with_fuel(fail_trace, 5);
        }
        match self {
            Failure::Message(_) => None,
            Failure::Custom(c) => c.backtrace(),
            Failure::Foreign(_) => None,
            Failure::Context(b) => match &b.failure {
                Either::This(t) => Some(t),
                Either::That(e) => e.effective_backtrace(),
            },
            Failure::Chained(b) => b.failure.backtrace(),
        }
    }

    /// Resolves the trace this failure carries, at most once.
    ///
    /// A failure without a real trace is left exactly as it is. A raw trace
    /// is resolved now and remembered; resolution changes nothing a caller
    /// can observe but the trace itself. A resolved trace is returned as it
    /// is: the second call changes nothing and yields the same content.
    pub fn resolve_trace(&mut self) -> (r: Option<String>)
        ensures
            fail_trace(*old(self)) is None ==> *final(self) == *old(self) && r is None,
            fail_trace(*old(self)) == Some(TraceView::Placeholder) ==> *final(self) == *old(
                self,
            ) && r is None,
            (match fail_trace(*old(self)) {
                Option::Some(TraceView::Resolved(s)) => *final(self) == *old(self) && r is Some
                    && r->0@ == s,
                _ => true,
            }),
            fail_trace(*old(self)) == Some(TraceView::Raw) ==> r is Some && fail_trace(
                *final(self),
            ) == Some(TraceView::Resolved(r->0@)) && same_observables(*old(self), *final(self)),
        decreases *old(self), 2int,
    {
        proof {
            reveal_with_fuel(fail_trace, 5);
            reveal_with_fuel(num_causes, 4);
            reveal_with_fuel(fail_msg, 2);
        }
        match self {
            Failure::Message(_) => None,
            Failure::Custom(c) => c.resolve_trace(),
            Failure::Foreign(_) => None,
            Failure::Context(b) => match &mut b.failure {
                Either::This(t) => t.resolved_text(),
                Either::That(e) => e.backtrace(),
            },
            Failure::Chained(b) => b.failure.resolve_trace(),
        }
    }

    /// The runtime type identity of this failure.
    pub fn tag(&self) -> (r: TypeTag)
        ensures
            r == tag_of(*self),
    {
        match self {
            Failure::Message(_) => TypeTag::Message,
            Failure::Custom(c) => TypeTag::Custom(c.plan.tag),
            Failure::Foreign(_) => TypeTag::Foreign,
            Failure::Context(_) => TypeTag::Context,
            Failure::Chained(_) => TypeTag::Chain,
        }
    }

    /// This failure by reference, exactly when its identity equals the
    /// requested one.
    pub fn downcast_ref(&self, tag: TypeTag) -> (r: Option<&Failure>)
        ensures
            (r is Some) == (tag_of(*self) == tag),
            r is Some ==> *r->0 == *self,
    {
        let t = self.tag();
        if t == tag {
            Some(self)
        } else {
            None
        }
    }

    /// This failure by mutable reference, exactly when its identity equals
    /// the requested one.
    pub fn downcast_mut(&mut self, tag: TypeTag) -> (r: Option<&mut Failure>)
        ensures
            (r is Some) == (tag_of(*old(self)) == tag),
            r is Some ==> *r->0 == *old(self) && *final(self) == *final(r->0),
            r is None ==> *final(self) == *old(self),
    {
        let t = self.tag();
        if t == tag {
            Some(self)
        } else {
            None
        }
    }
}

/// The display messages of a failure and all its causes, joined by `: `.
pub open spec fn pretty_msg(f: Failure) -> Seq<char>
    decreases num_causes(f),
    via pretty_msg_dec
{
    match cause_of(f) {
        Option::Some(c) => fail_msg(f) + ": "@ + pretty_msg(c),
        Option::None => fail_msg(f),
    }
}

#[via_fn]
proof fn pretty_msg_dec(f: Failure) {
    lemma_cause_step(f);
}

/// Walks the cause chain to the root cause: the last failure in the chain,
/// which has no underlying cause of its own.
pub fn find_root_cause(fail: &Failure) -> (r: &Failure)
    ensures
        *r == root_of(*fail),
    decreases num_causes(*fail),
{
    proof {
        lemma_cause_step(*fail);
    }
    match fail.cause() {
        Some(c) => find_root_cause(c),
        None => fail,
    }
}

impl Fail for Failure {
    open spec fn msg_spec(&self) -> Seq<char> {
        fail_msg(*self)
    }

    open spec fn cause_spec(&self) -> Option<Failure> {
        cause_of(*self)
    }

    open spec fn trace_spec(&self) -> Option<TraceView> {
        fail_trace(*self)
    }

    open spec fn tag_spec(&self) -> TypeTag {
        tag_of(*self)
    }

    fn display(&self) -> String {
        Failure::display(self)
    }

    fn cause(&self) -> Option<&Failure> {
        Failure::cause(self)
    }

    fn backtrace(&self) -> Option<&Trace> {
        Failure::backtrace(self)
    }

    fn into_failure(self) -> Failure {
        self
    }

    fn context(self, context: String, capture: bool) -> Context {
        Context::with_err(context, Error::from(Fail::into_failure(self), capture))
    }
}

/// The argument strings of a display arm are exactly the renderings of its
/// referenced fields, in order.
pub proof fn lemma_arg_views_index(c: CustomFailure, slots: Seq<usize>)
    ensures
        arg_views(c, slots).len() == slots.len(),
        forall|i: int|
            0 <= i < slots.len() ==> arg_views(c, slots)[i] == slot_view(c, slots[i] as int),
    decreases slots.len(),
{
    if slots.len() > 0 {
        lemma_arg_views_index(c, slots.drop_first());
        assert forall|i: int|
            0 <= i < slots.len() implies arg_views(c, slots)[i] == slot_view(
            c,
            slots[i] as int,
        ) by {
            if i > 0 {
                assert(arg_views(c, slots)[i] == arg_views(c, slots.drop_first())[i - 1]);
                assert(slots.drop_first()[i - 1] == slots[i]);
            }
        }
    }
}

/// The cause chain of a failure: the failure itself, then each underlying
/// cause in order, ending at the root cause.
pub open spec fn chain_seq(f: Failure) -> Seq<Failure>
    decreases num_causes(f),
    via chain_seq_dec
{
    match cause_of(f) {
        Option::Some(c) => seq![f] + chain_seq(c),
        Option::None => seq![f],
    }
}

#[via_fn]
proof fn chain_seq_dec(f: Failure) {
    lemma_cause_step(f);
}

/// The root cause of a failure: the last failure of the cause chain, the
/// one without an underlying cause of its own.
pub open spec fn root_of(f: Failure) -> Failure
    decreases num_causes(f),
    via root_of_dec
{
    match cause_of(f) {
        Option::Some(c) => root_of(c),
        Option::None => f,
    }
}

#[via_fn]
proof fn root_of_dec(f: Failure) {
    lemma_cause_step(f);
}

/// Cause chain traversal terminates and visits exactly the wrapped layers:
/// the chain starts at the failure itself, has one entry per layer, and
/// ends at the root cause, which has no cause of its own.
pub proof fn lemma_chain_seq(f: Failure)
    ensures
        chain_seq(f).len() == 1 + num_causes(f),
        chain_seq(f)[0] == f,
        chain_seq(f).last() == root_of(f),
        cause_of(root_of(f)) is None,
        (match cause_of(f) {
            Option::Some(c) => chain_seq(f).skip(1) == chain_seq(c),
            Option::None => true,
        }),
    decreases num_causes(f),
{
    lemma_cause_step(f);
    match cause_of(f) {
        Option::Some(c) => {
            lemma_chain_seq(c);
            assert((seq![f] + chain_seq(c)).skip(1) =~= chain_seq(c));
        },
        Option::None => {},
    }
}

/// What trace resolution never touches: the message, the type identity and
/// the chain length of a failure.
pub open spec fn same_observables(f1: Failure, f2: Failure) -> bool {
    &&& fail_msg(f2) == fail_msg(f1)
    &&& tag_of(f2) == tag_of(f1)
    &&& num_causes(f2) == num_causes(f1)
}

/// Two values of one declared type that differ only in a trace-valued field
/// have the same message, name, cause and chain length: a trace never feeds
/// any of them.
pub proof fn lemma_custom_congruence(c1: CustomFailure, c2: CustomFailure, ix: int)
    requires
        c1.plan == c2.plan,
        c1.variant == c2.variant,
        c1.fields@.len() == c2.fields@.len(),
        0 <= ix < c1.fields@.len(),
        forall|j: int| 0 <= j < c1.fields@.len() && j != ix ==> c1.fields@[j] == c2.fields@[j],
        c1.fields@[ix] is Trace,
        c2.fields@[ix] is Trace,
    ensures
        custom_msg(c1) == custom_msg(c2),
        custom_cause(c1) == custom_cause(c2),
        custom_causes(c1) == custom_causes(c2),
        custom_name(c1) == custom_name(c2),
{
    assert forall|k: int| #[trigger] slot_view(c1, k) == slot_view(c2, k) by {
        reveal_with_fuel(slot_view, 3);
    }
    if c1.variant < c1.plan.variants@.len() {
        let plan_variant = c1.plan.variants@[c1.variant as int];
        if plan_variant.display is Some {
            let arm = plan_variant.display->0;
            lemma_arg_views_index(c1, arm.slots@);
            lemma_arg_views_index(c2, arm.slots@);
            assert(arg_views(c1, arm.slots@) =~= arg_views(c2, arm.slots@));
            reveal_with_fuel(custom_msg, 2);
        }
        if plan_variant.cause_slot is Some {
            reveal_with_fuel(custom_causes, 3);
        }
    }
}

/// Each layer of wrapping adds exactly one to the cause chain: a failure's
/// chain length is one more than its cause's, and zero where it has no
/// cause. In particular every chain is finite, so traversal terminates.
pub proof fn lemma_cause_step(f: Failure)
    ensures
        match cause_of(f) {
            Option::Some(c) => num_causes(f) == 1 + num_causes(c),
            Option::None => num_causes(f) == 0,
        },
{
    reveal_with_fuel(num_causes, 4);
}

} // verus!

