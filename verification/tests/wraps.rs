//! Wrapping foreign errors as causes of user-declared failures.

use failure::custom::CustomFailure;
use failure::decl::{
    generate, Annotation, DisplayAttr, FieldDecl, TemplateArg, TypeDecl, VariantDecl,
};
use failure::foreign::ForeignFailure;
use failure::trace::Trace;
use failure::{Failure, FieldValue, TypeTag};

fn io_failure(code: i32) -> Failure {
    let inner = std::io::Error::from_raw_os_error(code);
    Failure::Foreign(ForeignFailure {
        message: inner.to_string(),
        debug: format!("{:?}", inner),
    })
}

fn fmt_failure() -> Failure {
    let inner = std::fmt::Error::default();
    Failure::Foreign(ForeignFailure {
        message: inner.to_string(),
        debug: format!("{:?}", inner),
    })
}

fn cause_field(name: Option<&str>) -> FieldDecl {
    FieldDecl { ident: name.map(|n| n.to_string()), is_cause: true, is_trace: false }
}

fn trace_field(name: Option<&str>) -> FieldDecl {
    FieldDecl { ident: name.map(|n| n.to_string()), is_cause: false, is_trace: true }
}

fn wrap_note(arg: TemplateArg) -> Annotation {
    Annotation::Display(DisplayAttr {
        template: "An error has occurred: {}".chars().collect(),
        args: vec![arg],
    })
}

#[test]
fn wrap_error() {
    let decl = TypeDecl {
        path: "wraps::WrapError".to_string(),
        tag: 60,
        variants: vec![VariantDecl {
            ident: "WrapError".to_string(),
            notes: vec![wrap_note(TemplateArg::Named("inner".to_string()))],
            fields: vec![cause_field(Some("inner"))],
        }],
    };
    let plan = generate(&decl).unwrap();
    let err = CustomFailure {
        plan,
        variant: 0,
        fields: vec![FieldValue::Fail(Box::new(io_failure(98)))],
    };
    let cause = err.cause();
    assert!(cause.is_some());
    assert_eq!(cause.unwrap().tag(), TypeTag::Foreign);
}

#[test]
fn wrap_tuple_error() {
    let decl = TypeDecl {
        path: "wraps::WrapTupleError".to_string(),
        tag: 61,
        variants: vec![VariantDecl {
            ident: "WrapTupleError".to_string(),
            notes: vec![wrap_note(TemplateArg::Positional(0))],
            fields: vec![cause_field(None)],
        }],
    };
    let plan = generate(&decl).unwrap();
    let err = CustomFailure {
        plan,
        variant: 0,
        fields: vec![FieldValue::Fail(Box::new(io_failure(98)))],
    };
    let cause = err.cause();
    assert!(cause.is_some());
    assert_eq!(cause.unwrap().tag(), TypeTag::Foreign);
}

#[test]
fn wrap_backtrace_error() {
    let decl = TypeDecl {
        path: "wraps::WrapBacktraceError".to_string(),
        tag: 62,
        variants: vec![VariantDecl {
            ident: "WrapBacktraceError".to_string(),
            notes: vec![wrap_note(TemplateArg::Named("inner".to_string()))],
            fields: vec![cause_field(Some("inner")), trace_field(Some("backtrace"))],
        }],
    };
    let plan = generate(&decl).unwrap();
    let err = CustomFailure {
        plan,
        variant: 0,
        fields: vec![
            FieldValue::Fail(Box::new(io_failure(98))),
            FieldValue::Trace(Trace::new(true)),
        ],
    };
    let cause = err.cause();
    assert!(cause.is_some());
    assert_eq!(cause.unwrap().tag(), TypeTag::Foreign);
    assert!(err.backtrace().is_some());
}

#[test]
fn wrap_enum_error() {
    let decl = TypeDecl {
        path: "wraps::WrapEnumError".to_string(),
        tag: 63,
        variants: vec![
            VariantDecl {
                ident: "Io".to_string(),
                notes: vec![wrap_note(TemplateArg::Positional(0))],
                fields: vec![cause_field(None)],
            },
            VariantDecl {
                ident: "Fmt".to_string(),
                notes: vec![wrap_note(TemplateArg::Named("inner".to_string()))],
                fields: vec![cause_field(Some("inner")), trace_field(Some("backtrace"))],
            },
        ],
    };
    let plan = generate(&decl).unwrap();
    let err = CustomFailure {
        plan: plan.clone(),
        variant: 0,
        fields: vec![FieldValue::Fail(Box::new(io_failure(98)))],
    };
    assert!(err.cause().is_some());
    assert_eq!(err.cause().unwrap().tag(), TypeTag::Foreign);
    assert!(err.backtrace().is_none());
    let err = CustomFailure {
        plan,
        variant: 1,
        fields: vec![
            FieldValue::Fail(Box::new(fmt_failure())),
            FieldValue::Trace(Trace::new(true)),
        ],
    };
    assert!(err.cause().is_some());
    assert_eq!(err.cause().unwrap().tag(), TypeTag::Foreign);
    assert!(err.backtrace().is_some());
}
