//! Decorators, adapters and matching: Compat, Chain, Context, Match and
//! the Option extension.

use failure::chain::{Chain, ChainErr};
use failure::compat::Compat;
use failure::context::{Context, Either};
use failure::error::Error;
use failure::error_message::{err_msg, ErrorMessage};
use failure::custom::CustomFailure;
use failure::decl::{generate, Annotation, DisplayAttr, TypeDecl, VariantDecl};
use failure::match_err::Match;
use failure::option_ext::OptionExt;
use failure::trace::capture_switch;
use failure::{Fail, Failure, TypeTag};

fn message(text: &str) -> Failure {
    Failure::Message(ErrorMessage { msg: text.to_string(), cause: None })
}

fn custom_failure(tag: u64, text: &str) -> Failure {
    let decl = TypeDecl {
        path: format!("misc::{}", text),
        tag,
        variants: vec![VariantDecl {
            ident: text.to_string(),
            notes: vec![Annotation::Display(DisplayAttr {
                template: text.chars().collect(),
                args: vec![],
            })],
            fields: vec![],
        }],
    };
    Failure::Custom(CustomFailure { plan: generate(&decl).unwrap(), variant: 0, fields: vec![] })
}

fn assert_just_data<T: Send + Sync + 'static>() {}

#[test]
fn assert_error_is_just_data() {
    assert_just_data::<Error>();
}

#[test]
fn error_assert_error_is_just_data() {
    assert_just_data::<Error>();
}

#[test]
fn compat_wraps_and_unwraps() {
    let er = err_msg("payload".to_string(), false);
    let compat: Compat<Error> = er.compat();
    assert_eq!(&compat.get_ref().display()[..], "payload");
    let er = compat.into_inner();
    assert_eq!(&er.display()[..], "payload");
}

#[test]
fn compat_on_concrete_failure() {
    let m = ErrorMessage { msg: "plain".to_string(), cause: None };
    let compat = m.compat();
    assert_eq!(&compat.get_ref().msg[..], "plain");
}

#[test]
fn chain_err_annotates_the_error_case() {
    let ok: Result<u32, Failure> = Ok(7);
    let chained = ok.chain_err("while reading".to_string());
    assert_eq!(chained.unwrap(), 7);

    let bad: Result<u32, Failure> = Err(message("disk full"));
    let chained = bad.chain_err("while reading".to_string());
    let chain: Chain = chained.unwrap_err();
    assert_eq!(&chain.display()[..], "disk full\ninfo: while reading");
    assert_eq!(&chain.cause().unwrap().display()[..], "disk full");
}

#[test]
fn chain_err_on_error_results() {
    let bad: Result<u32, Error> = Err(err_msg("disk full".to_string(), false));
    let chain = bad.chain_err("while writing".to_string()).unwrap_err();
    assert_eq!(&chain.display()[..], "disk full\ninfo: while writing");
}

#[test]
fn context_shows_only_the_annotation() {
    let er = err_msg("low level".to_string(), false);
    let ctx = er.context("could not save".to_string());
    assert_eq!(&ctx.display()[..], "could not save");
    assert_eq!(&ctx.cause().unwrap().display()[..], "low level");
}

#[test]
fn context_without_error_has_no_cause() {
    let ctx = Context::new("on its own".to_string(), false);
    assert_eq!(&ctx.display()[..], "on its own");
    assert!(ctx.cause().is_none());
    assert!(matches!(ctx.failure, Either::This(_)));
}

#[test]
fn ok_or_context_keeps_the_value() {
    let opt: Option<u32> = Some(3);
    let r = opt.ok_or_context("An error occured".to_string(), false);
    assert_eq!(r.unwrap(), 3);
}

#[test]
fn ok_or_context_reports_the_annotation() {
    let opt: Option<String> = None;
    let x = opt.ok_or_context("An error occured".to_string(), false).unwrap_err();
    assert_eq!(&x.display()[..], "An error occured");
}

#[test]
fn match_by_value() {
    let mut s = String::new();
    let err: Error = Error::from(custom_failure(2, "bar"), false);
    let err = match err.try_match(TypeTag::Custom(1)) {
        Ok(f) => {
            s = format!("matched {}", f.display());
            None
        },
        Err(e) => Some(e),
    };
    if let Some(err) = err {
        match err.try_match(TypeTag::Custom(2)) {
            Ok(f) => {
                s = format!("matched {}", f.display());
            },
            Err(_) => {
                s = "no match".to_string();
            },
        }
    }
    assert_eq!(&s, "matched bar");
}

#[test]
fn match_by_ref() {
    let mut s = String::new();
    let err: Error = Error::from(custom_failure(2, "bar"), false);
    let outcome = (&err).try_match(TypeTag::Custom(1));
    match outcome {
        Ok(f) => {
            s = format!("matched {}", f.display());
        },
        Err(e) => match e.try_match(TypeTag::Custom(2)) {
            Ok(f) => {
                s = format!("matched {}", f.display());
            },
            Err(_) => {
                s = "no match".to_string();
            },
        },
    }
    assert_eq!(&s, "matched bar");
}

#[test]
fn match_by_mut() {
    let mut s = String::new();
    let mut err: Error = Error::from(custom_failure(2, "bar"), false);
    if err.downcast_mut(TypeTag::Custom(1)).is_some() {
        s = "matched foo".to_string();
    } else if let Some(f) = err.downcast_mut(TypeTag::Custom(2)) {
        s = format!("matched {}", f.display());
    } else {
        s = "no match".to_string();
    }
    assert_eq!(&s, "matched bar");
}

#[test]
fn no_match_found() {
    let mut s = String::new();
    let err: Error = Error::from(custom_failure(2, "bar"), false);
    match err.try_match(TypeTag::Custom(1)) {
        Ok(f) => {
            s = format!("matched {}", f.display());
        },
        Err(_) => {
            s = "no match".to_string();
        },
    }
    assert_eq!(&s, "no match");
}

#[test]
fn capture_switch_follows_the_toggle_rule() {
    assert!(!capture_switch(None));
    assert!(!capture_switch(Some("0".to_string())));
    assert!(capture_switch(Some("1".to_string())));
    assert!(capture_switch(Some("full".to_string())));
}

#[test]
fn context_on_a_concrete_failure() {
    let m = ErrorMessage { msg: "low level".to_string(), cause: None };
    let ctx = m.context("while copying".to_string(), false);
    assert_eq!(&ctx.display()[..], "while copying");
    assert_eq!(&ctx.cause().unwrap().display()[..], "low level");
}

#[test]
fn compat_display_forwards_the_message() {
    let m = ErrorMessage { msg: "plain".to_string(), cause: None };
    let compat = m.compat();
    assert_eq!(&compat.display()[..], "plain");
}

#[test]
fn into_failure_erases_the_type() {
    let m = ErrorMessage { msg: "kept".to_string(), cause: None };
    let f = m.into_failure();
    assert_eq!(f.tag(), TypeTag::Message);
    assert_eq!(&f.display()[..], "kept");
}
