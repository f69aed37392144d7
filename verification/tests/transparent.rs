//! Transparent wrappers: a wrapper whose own rendering is defined to equal
//! its cause's rendering carries the cause's display text.

use errore::data::{ErrorData, Id, Meta, Metadata};
use errore::location::Location;
use errore::span::Span;

const FILE: &str = "tests/transparent.rs";

fn kind_meta(name: &str) -> Meta {
    Meta {
        name: name.to_string(),
        target: "test_transparent".to_string(),
        id: Id::from_target(name),
        target_id: Id::from_target("test_transparent"),
        type_id: Id::from_target("enum a::ErrorKind"),
        is_transparent: false,
    }
}

fn transparent_meta(name: &str) -> Meta {
    Meta {
        name: name.to_string(),
        target: "test_transparent".to_string(),
        id: Id::from_target(name),
        target_id: Id::from_target("test_transparent"),
        type_id: Id::from_target("struct Error"),
        is_transparent: true,
    }
}

#[test]
fn test_transparent_struct() {
    // The wrapper forwards its rendering to its cause `E0`.
    let error = ErrorData::new(
        transparent_meta("errore::test_transparent::Error"),
        "E0".to_string(),
    );
    assert_eq!(error.message, "E0");
    let ec = Span::new(None, error, &Location::new(FILE, 29, 14));
    assert_eq!(
        ec.render(),
        "errore::test_transparent::Error: E0\n    at tests/transparent.rs:29:14"
    );

    let error = ErrorData::new(
        transparent_meta("errore::test_transparent::Error"),
        "E1".to_string(),
    );
    assert_eq!(error.message, "E1");
    let ec = Span::new(None, error, &Location::new(FILE, 42, 14));
    assert_eq!(
        ec.render(),
        "errore::test_transparent::Error: E1\n    at tests/transparent.rs:42:14"
    );
}

#[test]
fn test_transparent_enum() {
    let error = ErrorData::new(
        kind_meta("errore::test_transparent::This"),
        "this failed".to_string(),
    );
    assert_eq!(error.message, "this failed");
    let ec = Span::new(None, error, &Location::new(FILE, 63, 14));
    assert_eq!(
        ec.render(),
        "errore::test_transparent::This: this failed\n    at tests/transparent.rs:63:14"
    );

    // A transparent variant wrapping an outside cause renders the cause's
    // own text.
    let error = ErrorData::new(
        transparent_meta("errore::test_transparent::Other"),
        "outer".to_string(),
    );
    assert_eq!(error.message, "outer");
    assert!(error.meta.is_transparent);
    let ec = Span::new(None, error, &Location::new(FILE, 74, 14));
    assert!(ec.is_transparent());
    assert_eq!(
        ec.render(),
        "errore::test_transparent::Other: outer\n    at tests/transparent.rs:74:14"
    );
}
