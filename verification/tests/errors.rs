use xmile::errors::{format_errors, ErrorCollection, ErrorContext, ToXmileError, XmileError};
use xmile::validation::ValidationResult;

fn deser(message: &str) -> XmileError {
    XmileError::Deserialize { message: message.to_string(), context: ErrorContext::new() }
}

#[test]
fn context_description() {
    assert_eq!(ErrorContext::new().describe(), "");
    assert_eq!(ErrorContext::default().describe(), "");
    assert_eq!(ErrorContext::with_file_path("m.xmile").describe(), " in file 'm.xmile'");
    assert_eq!(ErrorContext::with_line(12).describe(), " at line 12");
    assert_eq!(ErrorContext::with_line(12).with_column(7).describe(), " at line 12, column 7");
    assert_eq!(ErrorContext::new().with_column(7).describe(), "");
    assert_eq!(
        ErrorContext::with_file_and_line("a.xml", 3).with_column(0).with_parsing("stock").describe(),
        " in file 'a.xml', at line 3, column 0, while parsing stock"
    );
    let c = ErrorContext::with_file_and_line("a.xml", 3);
    assert_eq!(c.file_path.as_deref(), Some("a.xml"));
    assert_eq!(c.line, Some(3));
    assert_eq!(c.column, None);
    assert_eq!(c.parsing, None);
}

#[test]
fn error_messages() {
    assert_eq!(XmileError::Io("denied".to_string()).message(), "IO error reading file: denied");
    let e = XmileError::Xml { message: "bad tag".to_string(), context: ErrorContext::with_line(4) };
    assert_eq!(e.message(), "XML parsing error at line 4: bad tag");
    assert_eq!(deser("no header").message(), "Deserialization error: no header");
    let v = XmileError::Validation {
        message: "dup".to_string(),
        context: ErrorContext::new().with_parsing("model"),
        warnings: vec![],
        errors: vec!["dup".to_string()],
    };
    assert_eq!(v.message(), "Validation error while parsing model: dup");
    let m = XmileError::Multiple(vec![deser("a"), XmileError::Io("b".to_string())]);
    assert_eq!(
        m.message(),
        "Multiple errors occurred:\n  1. Deserialization error: a\n  2. IO error reading file: b"
    );
    assert_eq!(format_errors(&[]), "");
}

#[test]
fn collection_into_error() {
    let mut c = ErrorCollection::new();
    assert!(c.is_empty());
    assert!(ErrorCollection::default().into_error().is_none());
    c.push(deser("one"));
    assert_eq!(c.len(), 1);
    assert_eq!(c.errors().len(), 1);
    match c.into_error() {
        Some(XmileError::Multiple(v)) => {
            assert_eq!(v.len(), 1);
            assert_eq!(v[0].message(), "Deserialization error: one");
        }
        other => panic!("unexpected {:?}", other),
    }
    let c = ErrorCollection::from(vec![deser("a"), deser("b"), deser("c")]);
    assert_eq!(c.len(), 3);
    match c.into_error() {
        Some(XmileError::Multiple(v)) => assert_eq!(v.len(), 3),
        other => panic!("unexpected {:?}", other),
    }
}

#[test]
fn collection_into_xmile_error() {
    let e: XmileError = ErrorCollection::new().into();
    match e {
        XmileError::Validation { message, warnings, errors, .. } => {
            assert_eq!(message, "Unknown error");
            assert!(warnings.is_empty());
            assert!(errors.is_empty());
        }
        other => panic!("unexpected {:?}", other),
    }
    let mut c = ErrorCollection::new();
    c.push(XmileError::Io("x".to_string()));
    match XmileError::from(c) {
        XmileError::Multiple(v) => assert_eq!(v[0].message(), "IO error reading file: x"),
        other => panic!("unexpected {:?}", other),
    }
}

#[test]
fn validation_result_to_error() {
    let ctx = ErrorContext::with_line(1);
    match ValidationResult::Valid(()).to_xmile_error(ctx.clone()) {
        XmileError::Validation { message, context, .. } => {
            assert_eq!(message, "Validation passed");
            assert_eq!(context, ctx);
        }
        other => panic!("unexpected {:?}", other),
    }
    match ValidationResult::Warnings((), vec!["w1".to_string(), "w2".to_string()]).to_xmile_error(ctx.clone()) {
        XmileError::Validation { message, warnings, errors, .. } => {
            assert_eq!(message, "Validation passed with 2 warning(s)");
            assert_eq!(warnings.len(), 2);
            assert!(errors.is_empty());
        }
        other => panic!("unexpected {:?}", other),
    }
    match ValidationResult::Invalid(vec![], vec!["only".to_string()]).to_xmile_error(ctx.clone()) {
        XmileError::Validation { message, .. } => assert_eq!(message, "only"),
        other => panic!("unexpected {:?}", other),
    }
    match ValidationResult::Invalid(vec![], vec!["a".to_string(), "b".to_string()]).to_xmile_error(ctx) {
        XmileError::Validation { message, errors, .. } => {
            assert_eq!(message, "2 validation errors");
            assert_eq!(errors, vec!["a".to_string(), "b".to_string()]);
        }
        other => panic!("unexpected {:?}", other),
    }
}
