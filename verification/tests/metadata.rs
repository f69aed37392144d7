//! Metadata of error values and of the spans wrapping them: names,
//! identifier hashes, targets, transparency, and the span-level render.

use errore::data::{ErrorData, Id, Meta, Metadata};
use errore::location::Location;
use errore::span::Span;

const FILE: &str = "tests/metadata.rs";

fn struct_meta() -> Meta {
    Meta {
        name: "errore::a::ErrorStruct".to_string(),
        target: "test_metadata".to_string(),
        id: Id::from_target("errore::a::ErrorStruct"),
        target_id: Id::from_target("test_metadata"),
        type_id: Id::from_target("struct errore::a::ErrorStruct"),
        is_transparent: false,
    }
}

fn enum_meta() -> Meta {
    Meta {
        name: "errore::a::Field".to_string(),
        target: "test_metadata".to_string(),
        id: Id::from_target("errore::a::Field"),
        target_id: Id::from_target("test_metadata"),
        type_id: Id::from_target("enum errore::a::ErrorEnum"),
        is_transparent: false,
    }
}

#[test]
fn test_struct_metadata() {
    let ec = Span::new(
        None,
        ErrorData::new(struct_meta(), "...".to_string()),
        &Location::new(FILE, 33, 16),
    );
    assert_eq!(ec.name(), "errore::a::ErrorStruct");
    assert_eq!(ec.id(), Id::from(5981839328034856538_u64));
    assert_eq!(ec.target(), "test_metadata");
    assert_eq!(ec.target_id(), Id::from(1556350161995980347_u64));
    assert_eq!(ec.target_id(), Id::from_target("test_metadata"));
    assert_eq!(
        ec.render(),
        "errore::a::ErrorStruct: ...\n    at tests/metadata.rs:33:16"
    );
}

#[test]
fn test_struct_metadata_is_transparent() {
    let ec = Span::new(
        None,
        ErrorData::new(struct_meta(), "...".to_string()),
        &Location::new(FILE, 57, 14),
    );
    assert!(!ec.is_transparent());

    let transparent = Meta {
        name: "errore::b::ErrorTransparent".to_string(),
        target: "test_metadata".to_string(),
        id: Id::from_target("errore::b::ErrorTransparent"),
        target_id: Id::from_target("test_metadata"),
        type_id: Id::from_target("struct errore::b::ErrorTransparent"),
        is_transparent: true,
    };
    // A transparent wrapper carries its cause's display text.
    let ec = ec.convert(
        ErrorData::new(transparent, "...".to_string()),
        &Location::new(FILE, 64, 14),
    );
    assert!(ec.is_transparent());
}

#[test]
fn test_enum_metadata() {
    let ec = Span::new(
        None,
        ErrorData::new(enum_meta(), "...".to_string()),
        &Location::new(FILE, 99, 16),
    );
    assert_eq!(ec.name(), "errore::a::Field");
    assert_eq!(ec.id(), Id::from(7599497168313962197_u64));
    assert_eq!(ec.target(), "test_metadata");
    assert_eq!(ec.target_id(), Id::from(1556350161995980347_u64));
    assert_eq!(ec.target_id(), Id::from_target("test_metadata"));
    assert_eq!(
        ec.render(),
        "errore::a::Field: ...\n    at tests/metadata.rs:99:16"
    );
}

#[test]
fn test_enum_metadata_is_transparent() {
    let ec = Span::new(
        None,
        ErrorData::new(enum_meta(), "...".to_string()),
        &Location::new(FILE, 123, 14),
    );
    assert!(!ec.is_transparent());

    let transparent = Meta {
        name: "errore::b::Field".to_string(),
        target: "test_metadata".to_string(),
        id: Id::from_target("errore::b::Field"),
        target_id: Id::from_target("test_metadata"),
        type_id: Id::from_target("enum errore::b::ErrorTransparent"),
        is_transparent: true,
    };
    let ec = ec.convert(
        ErrorData::new(transparent, "...".to_string()),
        &Location::new(FILE, 130, 14),
    );
    assert!(ec.is_transparent());
}
