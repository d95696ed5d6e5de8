//! The generated failure-contract behavior: display templates, names and
//! trace lookups of user-declared failure types.

use failure::custom::CustomFailure;
use failure::decl::{
    generate, Annotation, DisplayAttr, FailPlan, FieldDecl, TemplateArg, TypeDecl, VariantDecl,
};
use failure::trace::Trace;
use failure::FieldValue;

fn chars_of(s: &str) -> Vec<char> {
    s.chars().collect()
}

fn display_note(template: &str, args: Vec<TemplateArg>) -> Annotation {
    Annotation::Display(DisplayAttr { template: chars_of(template), args })
}

fn name_note(name: &str) -> Annotation {
    Annotation::Name(name.to_string())
}

fn plain_field(name: &str) -> FieldDecl {
    FieldDecl { ident: Some(name.to_string()), is_cause: false, is_trace: false }
}

fn tuple_field() -> FieldDecl {
    FieldDecl { ident: None, is_cause: false, is_trace: false }
}

fn trace_field(name: Option<&str>) -> FieldDecl {
    FieldDecl { ident: name.map(|n| n.to_string()), is_cause: false, is_trace: true }
}

fn variant(ident: &str, notes: Vec<Annotation>, fields: Vec<FieldDecl>) -> VariantDecl {
    VariantDecl { ident: ident.to_string(), notes, fields }
}

fn plan_of(path: &str, tag: u64, variants: Vec<VariantDecl>) -> FailPlan {
    generate(&TypeDecl { path: path.to_string(), tag, variants }).unwrap()
}

#[test]
fn unit_struct() {
    let plan = plan_of(
        "tests::UnitError",
        1,
        vec![variant("UnitError", vec![display_note("An error has occurred.", vec![])], vec![])],
    );
    let err = CustomFailure { plan, variant: 0, fields: vec![] };
    let s = err.display();
    assert_eq!(&s[..], "An error has occurred.");
}

#[test]
fn record_struct() {
    let plan = plan_of(
        "tests::RecordError",
        2,
        vec![variant(
            "RecordError",
            vec![display_note("Error code: {}", vec![TemplateArg::Named("code".to_string())])],
            vec![plain_field("code")],
        )],
    );
    let err = CustomFailure { plan, variant: 0, fields: vec![FieldValue::Int(0)] };
    let s = err.display();
    assert_eq!(&s[..], "Error code: 0");
}

#[test]
fn tuple_struct() {
    let plan = plan_of(
        "tests::TupleError",
        3,
        vec![variant(
            "TupleError",
            vec![display_note("Error code: {}", vec![TemplateArg::Positional(0)])],
            vec![tuple_field()],
        )],
    );
    let err = CustomFailure { plan, variant: 0, fields: vec![FieldValue::Int(2)] };
    let s = err.display();
    assert_eq!(&s[..], "Error code: 2");
}

#[test]
fn enum_error() {
    let plan = plan_of(
        "tests::EnumError",
        4,
        vec![
            variant(
                "StructVariant",
                vec![display_note("Error code: {}", vec![TemplateArg::Named("code".to_string())])],
                vec![plain_field("code")],
            ),
            variant(
                "TupleVariant",
                vec![display_note("Error: {}", vec![TemplateArg::Positional(0)])],
                vec![tuple_field()],
            ),
            variant("UnitVariant", vec![display_note("An error has occurred.", vec![])], vec![]),
        ],
    );
    let structure = CustomFailure { plan: plan.clone(), variant: 0, fields: vec![FieldValue::Int(2)] };
    let s = structure.display();
    assert_eq!(&s[..], "Error code: 2");
    let tuple = CustomFailure {
        plan: plan.clone(),
        variant: 1,
        fields: vec![FieldValue::Text("foobar".to_string())],
    };
    let s = tuple.display();
    assert_eq!(&s[..], "Error: foobar");
    let unit = CustomFailure { plan, variant: 2, fields: vec![] };
    let s = unit.display();
    assert_eq!(&s[..], "An error has occurred.");
}

#[test]
fn tests_unit_struct() {
    let plan = plan_of(
        "tests::UnitError",
        5,
        vec![variant(
            "UnitError",
            vec![display_note("An error has occurred.", vec![]), name_note("UNIT_ERROR")],
            vec![],
        )],
    );
    let err = CustomFailure { plan, variant: 0, fields: vec![] };
    let s = err.display();
    assert_eq!(&s[..], "An error has occurred.");
    assert_eq!(err.name().unwrap(), "UNIT_ERROR");
}

#[test]
fn tests_record_struct() {
    let plan = plan_of(
        "tests::RecordError",
        6,
        vec![variant(
            "RecordError",
            vec![
                display_note("Error code: {}", vec![TemplateArg::Named("code".to_string())]),
                name_note("RECORD_ERROR"),
            ],
            vec![plain_field("code")],
        )],
    );
    let err = CustomFailure { plan, variant: 0, fields: vec![FieldValue::Int(0)] };
    let s = err.display();
    assert_eq!(&s[..], "Error code: 0");
    assert_eq!(err.name().unwrap(), "RECORD_ERROR");
}

#[test]
fn tests_tuple_struct() {
    let plan = plan_of(
        "tests::TupleError",
        7,
        vec![variant(
            "TupleError",
            vec![display_note("Error code: {}", vec![TemplateArg::Positional(0)])],
            vec![tuple_field()],
        )],
    );
    let err = CustomFailure { plan, variant: 0, fields: vec![FieldValue::Int(2)] };
    let s = err.display();
    assert_eq!(&s[..], "Error code: 2");
}

#[test]
fn tests_enum_error() {
    let plan = plan_of(
        "tests::EnumError",
        8,
        vec![
            variant(
                "StructVariant",
                vec![
                    display_note("Error code: {}", vec![TemplateArg::Named("code".to_string())]),
                    name_note("STRUCT"),
                ],
                vec![plain_field("code")],
            ),
            variant(
                "TupleVariant",
                vec![
                    display_note("Error: {}", vec![TemplateArg::Positional(0)]),
                    name_note("TUPLE"),
                ],
                vec![tuple_field()],
            ),
            variant("UnitVariant", vec![display_note("An error has occurred.", vec![])], vec![]),
        ],
    );
    let structure = CustomFailure { plan: plan.clone(), variant: 0, fields: vec![FieldValue::Int(2)] };
    let s = structure.display();
    assert_eq!(&s[..], "Error code: 2");
    assert_eq!(structure.name().unwrap(), "STRUCT");
    let tuple = CustomFailure {
        plan: plan.clone(),
        variant: 1,
        fields: vec![FieldValue::Text("foobar".to_string())],
    };
    let s = tuple.display();
    assert_eq!(&s[..], "Error: foobar");
    assert_eq!(tuple.name().unwrap(), "TUPLE");
    let unit = CustomFailure { plan, variant: 2, fields: vec![] };
    let s = unit.display();
    assert_eq!(&s[..], "An error has occurred.");
    assert!(unit.name().is_none());
}

#[test]
fn backtrace_error() {
    let plan = plan_of(
        "tests::BacktraceError",
        9,
        vec![variant(
            "BacktraceError",
            vec![display_note("Error code: {}", vec![TemplateArg::Named("code".to_string())])],
            vec![trace_field(Some("backtrace")), plain_field("code")],
        )],
    );
    let err = CustomFailure {
        plan,
        variant: 0,
        fields: vec![FieldValue::Trace(Trace::new(true)), FieldValue::Int(7)],
    };
    let s = err.display();
    assert_eq!(&s[..], "Error code: 7");
    assert!(err.backtrace().is_some());
}

#[test]
fn backtrace_tuple_error() {
    let plan = plan_of(
        "tests::BacktraceTupleError",
        10,
        vec![variant(
            "BacktraceTupleError",
            vec![display_note("An error has occurred.", vec![])],
            vec![trace_field(None)],
        )],
    );
    let err = CustomFailure {
        plan,
        variant: 0,
        fields: vec![FieldValue::Trace(Trace::new(true))],
    };
    let s = err.display();
    assert_eq!(&s[..], "An error has occurred.");
    assert!(err.backtrace().is_some());
}

#[test]
fn backtrace_enum_error() {
    let plan = plan_of(
        "tests::BacktraceEnumError",
        11,
        vec![
            variant(
                "StructVariant",
                vec![display_note("Error code: {}", vec![TemplateArg::Named("code".to_string())])],
                vec![plain_field("code"), trace_field(Some("backtrace"))],
            ),
            variant(
                "TupleVariant",
                vec![display_note("Error: {}", vec![TemplateArg::Positional(0)])],
                vec![tuple_field(), trace_field(None)],
            ),
            variant("UnitVariant", vec![display_note("An error has occurred.", vec![])], vec![]),
        ],
    );
    let err = CustomFailure {
        plan: plan.clone(),
        variant: 0,
        fields: vec![FieldValue::Int(2), FieldValue::Trace(Trace::new(true))],
    };
    let s = err.display();
    assert_eq!(&s[..], "Error code: 2");
    assert!(err.backtrace().is_some());
    let err = CustomFailure {
        plan: plan.clone(),
        variant: 1,
        fields: vec![
            FieldValue::Text("foobar".to_string()),
            FieldValue::Trace(Trace::new(true)),
        ],
    };
    let s = err.display();
    assert_eq!(&s[..], "Error: foobar");
    assert!(err.backtrace().is_some());
    let err = CustomFailure { plan, variant: 2, fields: vec![] };
    let s = err.display();
    assert_eq!(&s[..], "An error has occurred.");
    assert!(err.backtrace().is_none());
}
