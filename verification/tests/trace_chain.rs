//! Creation and conversion chains for an enum-shaped and a struct-shaped
//! wrapper: a bare conversion moves the context without recording, and
//! only propagation steps append records.

use errore::data::{ErrorData, Id, Meta};
use errore::location::Location;
use errore::result::Result as TraceResult;
use errore::span::Span;

const FILE: &str = "tests/trace_chain.rs";

fn meta(name: &str, type_seed: &str) -> Meta {
    Meta {
        name: name.to_string(),
        target: "test_trace_chain".to_string(),
        id: Id::from_target(name),
        target_id: Id::from_target("test_trace_chain"),
        type_id: Id::from_target(type_seed),
        is_transparent: false,
    }
}

fn enum_a() -> ErrorData {
    ErrorData::new(meta("errore::a::Field", "enum errore::a::Error"), "...".to_string())
}

fn enum_b() -> ErrorData {
    ErrorData::new(meta("errore::b::Field", "enum errore::b::Error"), "...".to_string())
}

fn struct_a() -> ErrorData {
    ErrorData::new(meta("errore::a::Error", "struct errore::a::Error"), "...".to_string())
}

fn struct_b() -> ErrorData {
    ErrorData::new(meta("errore::b::Error", "struct errore::b::Error"), "...".to_string())
}

#[test]
fn test_trace_enum_test_trace_from_error() {
    // A plain error converted into the traced wrapper at one site.
    let ec = Span::new(None, enum_a(), &Location::new(FILE, 13, 14));
    let trace = ec.trace();

    assert_eq!(trace.len(), 1);
    assert_eq!(trace.last().location.file(), "tests/trace_chain.rs");
    assert_eq!(trace.last().location.line(), 13);
}

#[test]
fn test_trace_enum_test_trace_from_ec() {
    let ec = Span::new(None, enum_a(), &Location::new(FILE, 48, 14));
    let trace = ec.trace();

    assert_eq!(trace.len(), 1);
    assert_eq!(trace.last().location.file(), "tests/trace_chain.rs");
    assert_eq!(trace.last().location.line(), 48);

    // A trace record is only appended by propagation, not by conversion.
    let ec = ec.convert(enum_b(), &Location::new(FILE, 56, 14));
    assert_eq!(ec.trace().len(), 1);
}

fn enum_a_func1() -> TraceResult<(), Span> {
    TraceResult::Failure(Span::new(None, enum_a(), &Location::new(FILE, 74, 17)))
}

fn enum_a_func2() -> TraceResult<(), Span> {
    enum_a_func1().retrace(&Location::new(FILE, 78, 19))
}

fn enum_b_func1() -> TraceResult<(), Span> {
    enum_a_func2().propagate(enum_b(), &Location::new(FILE, 92, 16))
}

fn enum_b_func2() -> TraceResult<(), Span> {
    enum_b_func1().retrace(&Location::new(FILE, 96, 19))
}

#[test]
fn test_trace_enum_test_trace_result() {
    let ec = match enum_b_func2() {
        TraceResult::Failure(s) => s,
        TraceResult::Success(_) => panic!("the chain should fail"),
    };
    let trace = ec.trace().iter();

    assert_eq!(trace.len(), 4);
    assert_eq!(trace.at(0).location.file(), "tests/trace_chain.rs");
    assert_eq!(trace.at(0).location.line(), 74);
    assert_eq!(trace.at(1).location.line(), 78);
    assert_eq!(trace.at(2).location.line(), 92);
    assert_eq!(trace.at(3).location.line(), 96);
}

#[test]
fn test_trace_struct_test_trace_from_error() {
    let ec = Span::new(None, struct_a(), &Location::new(FILE, 120, 14));
    let trace = ec.trace();

    assert_eq!(trace.len(), 1);
    assert_eq!(trace.last().location.file(), "tests/trace_chain.rs");
    assert_eq!(trace.last().location.line(), 120);
}

#[test]
fn test_trace_struct_test_trace_from_ec() {
    let ec = Span::new(None, struct_a(), &Location::new(FILE, 130, 14));
    let trace = ec.trace();

    assert_eq!(trace.len(), 1);
    assert_eq!(trace.last().location.file(), "tests/trace_chain.rs");
    assert_eq!(trace.last().location.line(), 130);

    let ec = ec.convert(struct_b(), &Location::new(FILE, 138, 14));
    assert_eq!(ec.trace().len(), 1);
}

fn struct_a_func1() -> TraceResult<(), Span> {
    TraceResult::Failure(Span::new(None, struct_a(), &Location::new(FILE, 146, 17)))
}

fn struct_a_func2() -> TraceResult<(), Span> {
    struct_a_func1().retrace(&Location::new(FILE, 150, 19))
}

fn struct_b_func1() -> TraceResult<(), Span> {
    struct_a_func2().propagate(struct_b(), &Location::new(FILE, 160, 16))
}

fn struct_b_func2() -> TraceResult<(), Span> {
    struct_b_func1().retrace(&Location::new(FILE, 164, 19))
}

#[test]
fn test_trace_struct_test_trace_result() {
    let ec = match struct_b_func2() {
        TraceResult::Failure(s) => s,
        TraceResult::Success(_) => panic!("the chain should fail"),
    };
    let trace = ec.trace().iter();

    assert_eq!(trace.len(), 4);
    assert_eq!(trace.at(0).location.file(), "tests/trace_chain.rs");
    assert_eq!(trace.at(0).location.line(), 146);
    assert_eq!(trace.at(1).location.line(), 150);
    assert_eq!(trace.at(2).location.line(), 160);
    assert_eq!(trace.at(3).location.line(), 164);
}
