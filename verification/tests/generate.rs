//! The generator's validation: every malformed annotation is reported.

use failure::custom::CustomFailure;
use failure::decl::{
    generate, Annotation, DisplayAttr, FieldDecl, GenError, TemplateArg, TypeDecl, VariantDecl,
};

fn note(template: &str, args: Vec<TemplateArg>) -> Annotation {
    Annotation::Display(DisplayAttr { template: template.chars().collect(), args })
}

fn decl(variants: Vec<VariantDecl>) -> TypeDecl {
    TypeDecl { path: "tests::Declared".to_string(), tag: 50, variants }
}

fn gen_variant(notes: Vec<Annotation>, fields: Vec<FieldDecl>) -> VariantDecl {
    VariantDecl { ident: "V".to_string(), notes, fields }
}

fn named_field(name: &str, is_cause: bool, is_trace: bool) -> FieldDecl {
    FieldDecl { ident: Some(name.to_string()), is_cause, is_trace }
}

#[test]
fn rejects_two_display_annotations() {
    let d = decl(vec![gen_variant(vec![note("one", vec![]), note("two", vec![])], vec![])]);
    assert_eq!(generate(&d).unwrap_err(), GenError::DuplicateDisplay { variant: 0 });
}

#[test]
fn rejects_two_name_annotations() {
    let d = decl(vec![gen_variant(
        vec![Annotation::Name("A".to_string()), Annotation::Name("B".to_string())],
        vec![],
    )]);
    assert_eq!(generate(&d).unwrap_err(), GenError::DuplicateName { variant: 0 });
}

#[test]
fn rejects_missing_display_on_one_variant() {
    let d = decl(vec![
        gen_variant(vec![note("shown", vec![])], vec![]),
        gen_variant(vec![], vec![]),
    ]);
    assert_eq!(generate(&d).unwrap_err(), GenError::MissingDisplay { variant: 1 });
}

#[test]
fn rejects_placeholder_argument_mismatch() {
    let d = decl(vec![gen_variant(
        vec![note("{} and {}", vec![TemplateArg::Positional(0)])],
        vec![named_field("a", false, false)],
    )]);
    assert_eq!(generate(&d).unwrap_err(), GenError::ArityMismatch { variant: 0 });
}

#[test]
fn rejects_positional_reference_out_of_range() {
    let d = decl(vec![gen_variant(
        vec![note("{}", vec![TemplateArg::Positional(5)])],
        vec![named_field("a", false, false)],
    )]);
    assert_eq!(generate(&d).unwrap_err(), GenError::SlotOutOfRange { variant: 0, arg: 0 });
}

#[test]
fn rejects_unknown_named_field() {
    let d = decl(vec![gen_variant(
        vec![note("{}", vec![TemplateArg::Named("missing".to_string())])],
        vec![named_field("present", false, false)],
    )]);
    assert_eq!(generate(&d).unwrap_err(), GenError::UnknownField { variant: 0, arg: 0 });
}

#[test]
fn rejects_two_cause_fields() {
    let d = decl(vec![gen_variant(
        vec![note("both", vec![])],
        vec![named_field("a", true, false), named_field("b", true, false)],
    )]);
    assert_eq!(generate(&d).unwrap_err(), GenError::DuplicateCause { variant: 0 });
}

#[test]
fn rejects_two_trace_fields() {
    let d = decl(vec![gen_variant(
        vec![note("both", vec![])],
        vec![named_field("a", false, true), named_field("b", false, true)],
    )]);
    assert_eq!(generate(&d).unwrap_err(), GenError::DuplicateTrace { variant: 0 });
}

#[test]
fn accepts_well_formed_declaration() {
    let d = decl(vec![gen_variant(
        vec![note("pair: {} {}", vec![
            TemplateArg::Named("b".to_string()),
            TemplateArg::Positional(0),
        ])],
        vec![
            named_field("a", true, false),
            named_field("b", false, false),
            named_field("t", false, true),
        ],
    )]);
    let plan = generate(&d).unwrap();
    assert_eq!(plan.variants.len(), 1);
    assert_eq!(plan.variants[0].n_fields, 3);
    assert_eq!(plan.variants[0].cause_slot, Some(0));
    assert_eq!(plan.variants[0].trace_slot, Some(2));
    let arm = plan.variants[0].display.as_ref().unwrap();
    assert_eq!(arm.slots, vec![1, 0]);
}

#[test]
fn no_display_anywhere_falls_back() {
    let d = decl(vec![gen_variant(vec![], vec![])]);
    let plan = generate(&d).unwrap();
    let f = CustomFailure { plan, variant: 0, fields: vec![] };
    assert_eq!(&f.display()[..], "An error has occurred.");
}

#[test]
fn name_defaults_to_type_path() {
    let d = decl(vec![gen_variant(vec![note("x", vec![])], vec![])]);
    let plan = generate(&d).unwrap();
    assert_eq!(plan.variants[0].name.as_deref(), Some("tests::Declared"));
}
