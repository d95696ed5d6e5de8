//! Declarations consumed by the implementation generator.
//!
//! A [`TypeDecl`] describes the shape of a user-defined failure type — its
//! variants, their fields, and the lightweight annotations placed on them —
//! exactly the information the generator needs to produce a failure-contract
//! implementation: one display arm per variant, one cause lookup per variant
//! (the cause-annotated field), and one trace lookup per variant (the field
//! whose declared type is the trace type).
//!
//! [`generate`] validates a declaration and compiles it into a [`FailPlan`];
//! malformed annotations are reported as a [`GenError`], never ignored.

use vstd::prelude::*;
use crate::render::{chars_of, render_spec};

verus! {

/// One argument reference of a display template: either a field position or
/// a field name.
#[derive(Debug)]
pub enum TemplateArg {
    Positional(usize),
    Named(String),
}

/// A display annotation: a message template plus the argument references
/// substituted for its `{}` placeholders, left to right.
#[derive(Debug)]
pub struct DisplayAttr {
    pub template: Vec<char>,
    pub args: Vec<TemplateArg>,
}

impl DisplayAttr {
    /// A display annotation from the template text and its arguments.
    pub fn new(template: &str, args: Vec<TemplateArg>) -> (r: DisplayAttr)
        ensures
            r.template@ == template@,
            r.args == args,
    {
        DisplayAttr { template: chars_of(template), args }
    }
}

/// One annotation placed on a variant.
#[derive(Debug)]
pub enum Annotation {
    /// The variant's display template and arguments.
    Display(DisplayAttr),
    /// The variant's name, reported for error matching.
    Name(String),
}

/// One field of a variant: its name (none for tuple positions), whether it
/// is annotated as the cause, and whether its declared type is the trace
/// type.
#[derive(Debug)]
pub struct FieldDecl {
    pub ident: Option<String>,
    pub is_cause: bool,
    pub is_trace: bool,
}

/// One variant of a declared failure type.
#[derive(Debug)]
pub struct VariantDecl {
    pub ident: String,
    pub notes: Vec<Annotation>,
    pub fields: Vec<FieldDecl>,
}

/// The declared shape of a user-defined failure type.
#[derive(Debug)]
pub struct TypeDecl {
    /// The qualified name of the type, reported when no variant carries a
    /// name annotation.
    pub path: String,
    /// The runtime type identity of values of this type.
    pub tag: u64,
    /// The variants; a struct declares exactly one.
    pub variants: Vec<VariantDecl>,
}

/// A validated display arm: the template together with the resolved field
/// index feeding each placeholder.
#[derive(Clone, Debug)]
pub struct DisplayArm {
    pub template: Vec<char>,
    pub slots: Vec<usize>,
}

/// The generated lookups for one variant.
#[derive(Clone, Debug)]
pub struct VariantPlan {
    pub n_fields: usize,
    pub display: Option<DisplayArm>,
    pub name: Option<String>,
    pub cause_slot: Option<usize>,
    pub trace_slot: Option<usize>,
}

/// The generated failure-contract implementation for a declared type.
#[derive(Clone, Debug)]
pub struct FailPlan {
    pub path: String,
    pub tag: u64,
    pub variants: Vec<VariantPlan>,
}

/// A malformed annotation, reported at generation time.
#[derive(Clone, Copy, PartialEq, Eq, Structural, Debug)]
pub enum GenError {
    /// Another variant has a display annotation but this one has none.
    MissingDisplay { variant: usize },
    /// Two display annotations on one variant.
    DuplicateDisplay { variant: usize },
    /// Two name annotations on one variant.
    DuplicateName { variant: usize },
    /// The number of `{}` placeholders differs from the number of arguments.
    ArityMismatch { variant: usize },
    /// A positional argument reference beyond the variant's fields.
    SlotOutOfRange { variant: usize, arg: usize },
    /// A named argument reference that matches none of the variant's fields.
    UnknownField { variant: usize, arg: usize },
    /// Two fields of one variant annotated as the cause.
    DuplicateCause { variant: usize },
    /// Two fields of one variant declared with the trace type.
    DuplicateTrace { variant: usize },
}

/// How many display annotations sit on the notes from position `i` on.
pub open spec fn n_display_from(notes: Seq<Annotation>, i: int) -> nat
    decreases notes.len() - i,
{
    if i < 0 || i >= notes.len() {
        0
    } else {
        (if notes[i] is Display {
            1nat
        } else {
            0nat
        }) + n_display_from(notes, i + 1)
    }
}

/// The first display annotation from position `i` on, if any.
pub open spec fn first_display_from(notes: Seq<Annotation>, i: int) -> Option<DisplayAttr>
    decreases notes.len() - i,
{
    if i < 0 || i >= notes.len() {
        Option::None
    } else if notes[i] is Display {
        Option::Some(notes[i]->Display_0)
    } else {
        first_display_from(notes, i + 1)
    }
}

/// How many name annotations sit on the notes from position `i` on.
pub open spec fn n_name_from(notes: Seq<Annotation>, i: int) -> nat
    decreases notes.len() - i,
{
    if i < 0 || i >= notes.len() {
        0
    } else {
        (if notes[i] is Name {
            1nat
        } else {
            0nat
        }) + n_name_from(notes, i + 1)
    }
}

/// The first name annotation from position `i` on, if any.
pub open spec fn first_name_from(notes: Seq<Annotation>, i: int) -> Option<Seq<char>>
    decreases notes.len() - i,
{
    if i < 0 || i >= notes.len() {
        Option::None
    } else if notes[i] is Name {
        Option::Some(notes[i]->Name_0@)
    } else {
        first_name_from(notes, i + 1)
    }
}

/// How many cause-annotated fields there are from position `i` on.
pub open spec fn n_causes_from(fields: Seq<FieldDecl>, i: int) -> nat
    decreases fields.len() - i,
{
    if i < 0 || i >= fields.len() {
        0
    } else {
        (if fields[i].is_cause {
            1nat
        } else {
            0nat
        }) + n_causes_from(fields, i + 1)
    }
}

/// The position of the first cause-annotated field from `i` on, if any.
pub open spec fn first_cause_from(fields: Seq<FieldDecl>, i: int) -> Option<int>
    decreases fields.len() - i,
{
    if i < 0 || i >= fields.len() {
        Option::None
    } else if fields[i].is_cause {
        Option::Some(i)
    } else {
        first_cause_from(fields, i + 1)
    }
}

/// How many trace-typed fields there are from position `i` on.
pub open spec fn n_traces_from(fields: Seq<FieldDecl>, i: int) -> nat
    decreases fields.len() - i,
{
    if i < 0 || i >= fields.len() {
        0
    } else {
        (if fields[i].is_trace {
            1nat
        } else {
            0nat
        }) + n_traces_from(fields, i + 1)
    }
}

/// The position of the first trace-typed field from `i` on, if any.
pub open spec fn first_trace_from(fields: Seq<FieldDecl>, i: int) -> Option<int>
    decreases fields.len() - i,
{
    if i < 0 || i >= fields.len() {
        Option::None
    } else if fields[i].is_trace {
        Option::Some(i)
    } else {
        first_trace_from(fields, i + 1)
    }
}

/// The position of the first field carrying the given name, from `i` on.
pub open spec fn field_index_from(fields: Seq<FieldDecl>, name: Seq<char>, i: int) -> Option<int>
    decreases fields.len() - i,
{
    if i < 0 || i >= fields.len() {
        Option::None
    } else if fields[i].ident is Some && fields[i].ident->0@ == name {
        Option::Some(i)
    } else {
        field_index_from(fields, name, i + 1)
    }
}

/// How many `{}` placeholders the template holds from position `i` on.
pub open spec fn n_holes_from(tmpl: Seq<char>, i: int) -> nat
    decreases tmpl.len() - i,
{
    if i < 0 || i >= tmpl.len() {
        0
    } else if i + 1 < tmpl.len() && tmpl[i] == '{' && tmpl[i + 1] == '}' {
        1 + n_holes_from(tmpl, i + 2)
    } else {
        n_holes_from(tmpl, i + 1)
    }
}

/// Whether some variant of the declaration carries a display annotation.
pub open spec fn has_display(d: TypeDecl) -> bool {
    exists|i: int|
        0 <= i < d.variants@.len() && first_display_from(d.variants@[i].notes@, 0) is Some
}

/// Whether some variant of the declaration carries a name annotation.
pub open spec fn has_name(d: TypeDecl) -> bool {
    exists|i: int| 0 <= i < d.variants@.len() && first_name_from(d.variants@[i].notes@, 0) is Some
}

/// Whether one template argument resolves against the variant's fields.
pub open spec fn arg_ok(v: VariantDecl, a: TemplateArg) -> bool {
    match a {
        TemplateArg::Positional(p) => (p as int) < v.fields@.len(),
        TemplateArg::Named(nm) => field_index_from(v.fields@, nm@, 0) is Some,
    }
}

/// The field position a template argument resolves to.
pub open spec fn arg_slot(v: VariantDecl, a: TemplateArg) -> int {
    match a {
        TemplateArg::Positional(p) => p as int,
        TemplateArg::Named(nm) => field_index_from(v.fields@, nm@, 0)->0,
    }
}

/// A well-formed variant: at most one of each annotation, at most one cause
/// and one trace field, a display annotation where the type demands one,
/// and a display annotation whose arguments all resolve and match the
/// placeholders of its template one for one.
pub open spec fn wf_variant(v: VariantDecl, must_display: bool) -> bool {
    &&& n_display_from(v.notes@, 0) <= 1
    &&& n_name_from(v.notes@, 0) <= 1
    &&& n_causes_from(v.fields@, 0) <= 1
    &&& n_traces_from(v.fields@, 0) <= 1
    &&& (must_display ==> first_display_from(v.notes@, 0) is Some)
    &&& (match first_display_from(v.notes@, 0) {
        Option::Some(d) => n_holes_from(d.template@, 0) == d.args@.len() && (forall|j: int|
            0 <= j < d.args@.len() ==> arg_ok(v, d.args@[j])),
        Option::None => true,
    })
}

/// A well-formed declaration: every variant is well formed, under the rule
/// that once one variant has a display annotation, all must have one.
pub open spec fn wf_decl(d: TypeDecl) -> bool {
    forall|i: int|
        0 <= i < d.variants@.len() ==> wf_variant(#[trigger] d.variants@[i], has_display(d))
}

/// The generated lookups for one variant, characterized against its
/// declaration: field count, first cause field, first trace field, the
/// resolved display arm, and the reported name (the variant's own, or the
/// type's qualified name when no variant declares one).
pub open spec fn plan_variant_matches(v: VariantDecl, p: VariantPlan, d: TypeDecl) -> bool {
    &&& p.n_fields == v.fields@.len()
    &&& (p.cause_slot is Some) == (first_cause_from(v.fields@, 0) is Some)
    &&& (p.cause_slot is Some ==> p.cause_slot->0 as int == first_cause_from(v.fields@, 0)->0)
    &&& (p.trace_slot is Some) == (first_trace_from(v.fields@, 0) is Some)
    &&& (p.trace_slot is Some ==> p.trace_slot->0 as int == first_trace_from(v.fields@, 0)->0)
    &&& (if has_name(d) {
        ((p.name is Some) == (first_name_from(v.notes@, 0) is Some)) && (p.name is Some
            ==> p.name->0@ == first_name_from(v.notes@, 0)->0)
    } else {
        p.name is Some && p.name->0@ == d.path@
    })
    &&& (p.display is Some) == (first_display_from(v.notes@, 0) is Some)
    &&& (p.display is Some ==> {
        let da = first_display_from(v.notes@, 0)->0;
        let arm = p.display->0;
        &&& arm.template@ == da.template@
        &&& arm.slots@.len() == da.args@.len()
        &&& (forall|j: int|
            0 <= j < da.args@.len() ==> arm.slots@[j] as int == arg_slot(v, da.args@[j]))
    })
}

/// The generated plan, characterized variant by variant.
pub open spec fn plan_matches(d: TypeDecl, p: FailPlan) -> bool {
    &&& p.path@ == d.path@
    &&& p.tag == d.tag
    &&& p.variants@.len() == d.variants@.len()
    &&& (forall|i: int|
        0 <= i < d.variants@.len() ==> plan_variant_matches(
            d.variants@[i],
            #[trigger] p.variants@[i],
            d,
        ))
}

/// The reported error names a real violation in the declaration.
pub open spec fn error_holds(d: TypeDecl, e: GenError) -> bool {
    match e {
        GenError::MissingDisplay { variant } => variant < d.variants@.len() && has_display(d)
            && first_display_from(d.variants@[variant as int].notes@, 0) is None,
        GenError::DuplicateDisplay { variant } => variant < d.variants@.len() && n_display_from(
            d.variants@[variant as int].notes@,
            0,
        ) > 1,
        GenError::DuplicateName { variant } => variant < d.variants@.len() && n_name_from(
            d.variants@[variant as int].notes@,
            0,
        ) > 1,
        GenError::ArityMismatch { variant } => variant < d.variants@.len() && (match
            first_display_from(d.variants@[variant as int].notes@, 0) {
            Option::Some(da) => n_holes_from(da.template@, 0) != da.args@.len(),
            Option::None => false,
        }),
        GenError::SlotOutOfRange { variant, arg } => variant < d.variants@.len() && (match
            first_display_from(d.variants@[variant as int].notes@, 0) {
            Option::Some(da) => arg < da.args@.len() && da.args@[arg as int] is Positional
                && !arg_ok(d.variants@[variant as int], da.args@[arg as int]),
            Option::None => false,
        }),
        GenError::UnknownField { variant, arg } => variant < d.variants@.len() && (match
            first_display_from(d.variants@[variant as int].notes@, 0) {
            Option::Some(da) => arg < da.args@.len() && da.args@[arg as int] is Named && !arg_ok(
                d.variants@[variant as int],
                da.args@[arg as int],
            ),
            Option::None => false,
        }),
        GenError::DuplicateCause { variant } => variant < d.variants@.len() && n_causes_from(
            d.variants@[variant as int].fields@,
            0,
        ) > 1,
        GenError::DuplicateTrace { variant } => variant < d.variants@.len() && n_traces_from(
            d.variants@[variant as int].fields@,
            0,
        ) > 1,
    }
}

proof fn lemma_holes_shift(tmpl: Seq<char>, i: int)
    requires
        0 <= i <= tmpl.len(),
    ensures
        n_holes_from(tmpl, i) == n_holes_from(tmpl.skip(i), 0),
    decreases tmpl.len() - i,
{
    let s = tmpl.skip(i);
    if i < tmpl.len() {
        assert(s[0] == tmpl[i]);
        if i + 1 < tmpl.len() {
            assert(s[1] == tmpl[i + 1]);
        }
        if i + 1 < tmpl.len() && tmpl[i] == '{' && tmpl[i + 1] == '}' {
            lemma_holes_shift(tmpl, i + 2);
            lemma_holes_shift(s, 2);
            assert(s.skip(2) =~= tmpl.skip(i + 2));
        } else {
            lemma_holes_shift(tmpl, i + 1);
            lemma_holes_shift(s, 1);
            assert(s.skip(1) =~= tmpl.skip(i + 1));
        }
    }
}

/// A template without placeholders renders as exactly its literal text,
/// whatever arguments stand by: no substitution is performed.
pub proof fn lemma_literal_template(tmpl: Seq<char>, args: Seq<Seq<char>>)
    requires
        n_holes_from(tmpl, 0) == 0,
    ensures
        render_spec(tmpl, args) == tmpl,
    decreases tmpl.len(),
{
    if tmpl.len() == 0 {
        assert(render_spec(tmpl, args) =~= tmpl);
    } else {
        assert(!(tmpl.len() >= 2 && tmpl[0] == '{' && tmpl[1] == '}'));
        let rest = tmpl.drop_first();
        lemma_holes_shift(tmpl, 1);
        assert(rest =~= tmpl.skip(1));
        lemma_literal_template(rest, args);
        assert(render_spec(tmpl, args) =~= tmpl);
    }
}

fn count_display(notes: &Vec<Annotation>, i: usize) -> (r: usize)
    requires
        i <= notes@.len(),
    ensures
        r == n_display_from(notes@, i as int),
        r <= notes@.len() - i,
    decreases notes@.len() - i,
{
    if i == notes.len() {
        0
    } else {
        let here: usize = match &notes[i] {
            Annotation::Display(_) => 1,
            _ => 0,
        };
        here + count_display(notes, i + 1)
    }
}

fn find_display(notes: &Vec<Annotation>, i: usize) -> (r: Option<&DisplayAttr>)
    requires
        i <= notes@.len(),
    ensures
        (r is Some) == (first_display_from(notes@, i as int) is Some),
        r is Some ==> *r->0 == first_display_from(notes@, i as int)->0,
    decreases notes@.len() - i,
{
    if i == notes.len() {
        None
    } else {
        match &notes[i] {
            Annotation::Display(d) => Some(d),
            _ => find_display(notes, i + 1),
        }
    }
}

fn count_name(notes: &Vec<Annotation>, i: usize) -> (r: usize)
    requires
        i <= notes@.len(),
    ensures
        r == n_name_from(notes@, i as int),
        r <= notes@.len() - i,
    decreases notes@.len() - i,
{
    if i == notes.len() {
        0
    } else {
        let here: usize = match &notes[i] {
            Annotation::Name(_) => 1,
            _ => 0,
        };
        here + count_name(notes, i + 1)
    }
}

fn find_name(notes: &Vec<Annotation>, i: usize) -> (r: Option<&String>)
    requires
        i <= notes@.len(),
    ensures
        (r is Some) == (first_name_from(notes@, i as int) is Some),
        r is Some ==> r->0@ == first_name_from(notes@, i as int)->0,
    decreases notes@.len() - i,
{
    if i == notes.len() {
        None
    } else {
        match &notes[i] {
            Annotation::Name(n) => Some(n),
            _ => find_name(notes, i + 1),
        }
    }
}

fn count_causes(fields: &Vec<FieldDecl>, i: usize) -> (r: usize)
    requires
        i <= fields@.len(),
    ensures
        r == n_causes_from(fields@, i as int),
        r <= fields@.len() - i,
    decreases fields@.len() - i,
{
    if i == fields.len() {
        0
    } else {
        let here: usize = if fields[i].is_cause {
            1
        } else {
            0
        };
        here + count_causes(fields, i + 1)
    }
}

fn find_cause(fields: &Vec<FieldDecl>, i: usize) -> (r: Option<usize>)
    requires
        i <= fields@.len(),
    ensures
        (r is Some) == (first_cause_from(fields@, i as int) is Some),
        r is Some ==> r->0 as int == first_cause_from(fields@, i as int)->0,
    decreases fields@.len() - i,
{
    if i == fields.len() {
        None
    } else if fields[i].is_cause {
        Some(i)
    } else {
        find_cause(fields, i + 1)
    }
}

fn count_traces(fields: &Vec<FieldDecl>, i: usize) -> (r: usize)
    requires
        i <= fields@.len(),
    ensures
        r == n_traces_from(fields@, i as int),
        r <= fields@.len() - i,
    decreases fields@.len() - i,
{
    if i == fields.len() {
        0
    } else {
        let here: usize = if fields[i].is_trace {
            1
        } else {
            0
        };
        here + count_traces(fields, i + 1)
    }
}

fn find_trace(fields: &Vec<FieldDecl>, i: usize) -> (r: Option<usize>)
    requires
        i <= fields@.len(),
    ensures
        (r is Some) == (first_trace_from(fields@, i as int) is Some),
        r is Some ==> r->0 as int == first_trace_from(fields@, i as int)->0,
    decreases fields@.len() - i,
{
    if i == fields.len() {
        None
    } else if fields[i].is_trace {
        Some(i)
    } else {
        find_trace(fields, i + 1)
    }
}

fn find_field(fields: &Vec<FieldDecl>, name: &String, i: usize) -> (r: Option<usize>)
    requires
        i <= fields@.len(),
    ensures
        (r is Some) == (field_index_from(fields@, name@, i as int) is Some),
        r is Some ==> r->0 as int == field_index_from(fields@, name@, i as int)->0,
    decreases fields@.len() - i,
{
    if i == fields.len() {
        None
    } else {
        let named = match &fields[i].ident {
            Some(id) => id.eq(name),
            None => false,
        };
        if named {
            Some(i)
        } else {
            find_field(fields, name, i + 1)
        }
    }
}

fn count_holes(tmpl: &Vec<char>, i: usize) -> (r: usize)
    requires
        i <= tmpl@.len(),
    ensures
        r == n_holes_from(tmpl@, i as int),
        r <= tmpl@.len() - i,
    decreases tmpl@.len() - i,
{
    if i == tmpl.len() {
        0
    } else if i + 1 < tmpl.len() && tmpl[i] == '{' && tmpl[i + 1] == '}' {
        1 + count_holes(tmpl, i + 2)
    } else {
        count_holes(tmpl, i + 1)
    }
}

fn copy_chars(v: &Vec<char>) -> (r: Vec<char>)
    ensures
        r@ == v@,
{
    let mut r: Vec<char> = Vec::new();
    let mut i: usize = 0;
    while i < v.len()
        invariant
            i <= v@.len(),
            r@ == v@.take(i as int),
        decreases v@.len() - i,
    {
        r.push(v[i]);
        assert(r@ =~= v@.take(i + 1));
        i += 1;
    }
    assert(r@ =~= v@);
    r
}

fn any_display(d: &TypeDecl) -> (r: bool)
    ensures
        r == has_display(*d),
{
    let mut i: usize = 0;
    while i < d.variants.len()
        invariant
            i <= d.variants@.len(),
            forall|j: int|
                0 <= j < i ==> first_display_from(#[trigger] d.variants@[j].notes@, 0) is None,
        decreases d.variants@.len() - i,
    {
        if find_display(&d.variants[i].notes, 0).is_some() {
            return true;
        }
        i += 1;
    }
    false
}

fn any_name(d: &TypeDecl) -> (r: bool)
    ensures
        r == has_name(*d),
{
    let mut i: usize = 0;
    while i < d.variants.len()
        invariant
            i <= d.variants@.len(),
            forall|j: int|
                0 <= j < i ==> first_name_from(#[trigger] d.variants@[j].notes@, 0) is None,
        decreases d.variants@.len() - i,
    {
        if find_name(&d.variants[i].notes, 0).is_some() {
            return true;
        }
        i += 1;
    }
    false
}

/// Validates a declaration and compiles it into the generated plan.
///
/// Exactly the well-formed declarations are accepted, and the plan follows
/// the declaration arm for arm; a malformed annotation is reported as the
/// error naming its violation, never ignored.
pub fn generate(decl: &TypeDecl) -> (r: Result<FailPlan, GenError>)
    ensures
        (r is Ok) == wf_decl(*decl),
        r is Ok ==> plan_matches(*decl, r->Ok_0),
        r is Err ==> error_holds(*decl, r->Err_0),
{
    let must_display = any_display(decl);
    let type_has_name = any_name(decl);
    let mut variants: Vec<VariantPlan> = Vec::new();
    let mut v_ix: usize = 0;
    while v_ix < decl.variants.len()
        invariant
            v_ix <= decl.variants@.len(),
            variants@.len() == v_ix,
            must_display == has_display(*decl),
            type_has_name == has_name(*decl),
            forall|i: int|
                0 <= i < v_ix ==> wf_variant(#[trigger] decl.variants@[i], has_display(*decl)),
            forall|i: int|
                0 <= i < v_ix ==> plan_variant_matches(
                    decl.variants@[i],
                    #[trigger] variants@[i],
                    *decl,
                ),
        decreases decl.variants@.len() - v_ix,
    {
        let v = &decl.variants[v_ix];
        if count_display(&v.notes, 0) > 1 {
            return Err(GenError::DuplicateDisplay { variant: v_ix });
        }
        if count_name(&v.notes, 0) > 1 {
            return Err(GenError::DuplicateName { variant: v_ix });
        }
        if count_causes(&v.fields, 0) > 1 {
            return Err(GenError::DuplicateCause { variant: v_ix });
        }
        if count_traces(&v.fields, 0) > 1 {
            return Err(GenError::DuplicateTrace { variant: v_ix });
        }
        let display_arm: Option<DisplayArm> = match find_display(&v.notes, 0) {
            Some(da) => {
                if count_holes(&da.template, 0) != da.args.len() {
                    return Err(GenError::ArityMismatch { variant: v_ix });
                }
                let mut slots: Vec<usize> = Vec::new();
                let mut a_ix: usize = 0;
                while a_ix < da.args.len()
                    invariant
                        a_ix <= da.args@.len(),
                        slots@.len() == a_ix,
                        *da == first_display_from(decl.variants@[v_ix as int].notes@, 0)->0,
                        first_display_from(decl.variants@[v_ix as int].notes@, 0) is Some,
                        v_ix < decl.variants@.len(),
                        v == &decl.variants@[v_ix as int],
                        forall|j: int|
                            0 <= j < a_ix ==> arg_ok(
                                decl.variants@[v_ix as int],
                                #[trigger] da.args@[j],
                            ),
                        forall|j: int|
                            0 <= j < a_ix ==> #[trigger] slots@[j] as int == arg_slot(
                                decl.variants@[v_ix as int],
                                da.args@[j],
                            ),
                    decreases da.args@.len() - a_ix,
                {
                    match &da.args[a_ix] {
                        TemplateArg::Positional(p) => {
                            if *p >= v.fields.len() {
                                return Err(
                                    GenError::SlotOutOfRange { variant: v_ix, arg: a_ix },
                                );
                            }
                            slots.push(*p);
                        },
                        TemplateArg::Named(nm) => {
                            match find_field(&v.fields, nm, 0) {
                                Some(ix) => {
                                    slots.push(ix);
                                },
                                None => {
                                    return Err(
                                        GenError::UnknownField { variant: v_ix, arg: a_ix },
                                    );
                                },
                            }
                        },
                    }
                    a_ix += 1;
                }
                Some(DisplayArm { template: copy_chars(&da.template), slots })
            },
            None => {
                if must_display {
                    return Err(GenError::MissingDisplay { variant: v_ix });
                }
                None
            },
        };
        let name: Option<String> = if !type_has_name {
            Some(decl.path.clone())
        } else {
            match find_name(&v.notes, 0) {
                Some(n) => Some(n.clone()),
                None => None,
            }
        };
        let plan_variant = VariantPlan {
            n_fields: v.fields.len(),
            display: display_arm,
            name,
            cause_slot: find_cause(&v.fields, 0),
            trace_slot: find_trace(&v.fields, 0),
        };
        variants.push(plan_variant);
        v_ix += 1;
    }
    Ok(FailPlan { path: decl.path.clone(), tag: decl.tag, variants })
}

} // verus!
