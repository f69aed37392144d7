//! The four-layer propagation chain: wrappers a, b, c and d, each layer
//! failing at a configurable depth, with lifecycle-event counts and
//! extraction checks after the chain is finished.

use errore::data::{ErrorData, Id, Meta};
use errore::extract::Extract;
use errore::location::Location;
use errore::result::Result as TraceResult;
use errore::span::Span;
use errore::trace::Event;

const FILE: &str = "tests/trace_mixed.rs";

fn meta(name: &str, type_seed: &str, transparent: bool) -> Meta {
    Meta {
        name: name.to_string(),
        target: "test_trace_mixed".to_string(),
        id: Id::from_target(name),
        target_id: Id::from_target("test_trace_mixed"),
        type_id: Id::from_target(type_seed),
        is_transparent: transparent,
    }
}

fn data_a() -> ErrorData {
    ErrorData::new(meta("errore::a::Field", "errore::a::Error", false), "display-a".to_string())
}

fn data_b() -> ErrorData {
    ErrorData::new(meta("errore::b::Error", "errore::b::Error", false), "display-b".to_string())
}

fn data_c() -> ErrorData {
    ErrorData::new(meta("errore::c::Field", "errore::c::Error", false), "display-c".to_string())
}

fn data_d() -> ErrorData {
    ErrorData::new(meta("errore::d::Error", "errore::d::Error", false), "display-d".to_string())
}

fn type_a() -> Id {
    Id::from_target("errore::a::Error")
}

fn type_b() -> Id {
    Id::from_target("errore::b::Error")
}

fn type_c() -> Id {
    Id::from_target("errore::c::Error")
}

fn type_d() -> Id {
    Id::from_target("errore::d::Error")
}

fn func1(on: usize) -> TraceResult<(), Span> {
    if on == 1 {
        return TraceResult::Failure(Span::new(None, data_a(), &Location::new(FILE, 21, 20)));
    }
    TraceResult::Failure(Span::new(None, data_a(), &Location::new(FILE, 23, 9)))
}

fn func2(on: usize) -> TraceResult<(), Span> {
    if on == 2 {
        return TraceResult::Failure(Span::new(None, data_a(), &Location::new(FILE, 28, 20)));
    }
    // propagation within the same wrapper type
    func1(on).retrace(&Location::new(FILE, 30, 19))
}

fn func3(on: usize) -> TraceResult<(), Span> {
    if on == 3 {
        return TraceResult::Failure(Span::new(None, data_b(), &Location::new(FILE, 47, 20)));
    }
    func2(on).propagate(data_b(), &Location::new(FILE, 49, 20))
}

fn func4(on: usize) -> TraceResult<(), Span> {
    if on == 4 {
        return TraceResult::Failure(Span::new(None, data_b(), &Location::new(FILE, 55, 20)));
    }
    func3(on).retrace(&Location::new(FILE, 57, 15))
}

fn func5(on: usize) -> TraceResult<(), Span> {
    if on == 5 {
        return TraceResult::Failure(Span::new(None, data_c(), &Location::new(FILE, 73, 20)));
    }
    func4(on).propagate(data_c(), &Location::new(FILE, 75, 20))
}

fn func6(on: usize) -> TraceResult<(), Span> {
    if on == 6 {
        return TraceResult::Failure(Span::new(None, data_c(), &Location::new(FILE, 81, 20)));
    }
    func5(on).retrace(&Location::new(FILE, 83, 15))
}

fn func7(on: usize) -> TraceResult<(), Span> {
    if on == 7 {
        return TraceResult::Failure(Span::new(None, data_d(), &Location::new(FILE, 99, 20)));
    }
    func6(on).propagate(data_d(), &Location::new(FILE, 101, 20))
}

fn func8(on: usize) -> TraceResult<(), Span> {
    if on == 8 {
        return TraceResult::Failure(Span::new(None, data_d(), &Location::new(FILE, 107, 20)));
    }
    func7(on).retrace(&Location::new(FILE, 109, 15))
}

struct Counts {
    on_new_span: usize,
    on_try_record: usize,
    on_record: usize,
    on_start: usize,
    on_end: usize,
}

/// Runs the chain failing at depth `on`, inspects the live trace through
/// `cb`, then finishes the occurrence and returns the event counts.
fn init(on: usize, cb: &dyn Fn(&Span)) -> Counts {
    let span = match func8(on) {
        TraceResult::Failure(s) => s,
        TraceResult::Success(_) => panic!("the chain should fail"),
    };
    cb(&span);
    let ctx = span.finish().expect("the last span should own the context");
    Counts {
        on_new_span: ctx.count(Event::NewSpan),
        on_try_record: ctx.count(Event::TryRecord),
        on_record: ctx.count(Event::Record),
        on_start: ctx.count(Event::Start),
        on_end: ctx.count(Event::End),
    }
}

#[test]
fn test_trace_func0() {
    let data = init(0, &|trace| {
        assert!(trace.has(type_a()));
        assert!(trace.has(type_b()));
        assert!(trace.has(type_c()));
        assert!(trace.has(type_d()));
        assert!(trace.get(type_a()).is_some());
        assert!(trace.get(type_b()).is_some());
        assert!(trace.get(type_c()).is_some());
        assert!(trace.get(type_d()).is_some());
        assert_eq!(
            trace.render(),
            "errore::d::Error: display-d\n    at tests/trace_mixed.rs:23:9"
        );
        assert_eq!(
            trace.trace().render(),
            "Error: errore::d::Error\n\
             ├─▶ <errore::a::Field> display-a\n\
             │   ├╴ tests/trace_mixed.rs:23:9\n\
             │   ╰╴ tests/trace_mixed.rs:30:19\n\
             │\n\
             ├─▶ <errore::b::Error> display-b\n\
             │   ├╴ tests/trace_mixed.rs:49:20\n\
             │   ╰╴ tests/trace_mixed.rs:57:15\n\
             │\n\
             ├─▶ <errore::c::Field> display-c\n\
             │   ├╴ tests/trace_mixed.rs:75:20\n\
             │   ╰╴ tests/trace_mixed.rs:83:15\n\
             │\n\
             ╰─▶ <errore::d::Error> display-d\n\
             \x20   ├╴ tests/trace_mixed.rs:101:20\n\
             \x20   ╰╴ tests/trace_mixed.rs:109:15"
        );
    });
    assert_eq!(data.on_new_span, 4);
    assert_eq!(data.on_try_record, 8);
    assert_eq!(data.on_record, 8);
    assert_eq!(data.on_start, 1);
    assert_eq!(data.on_end, 1);
}

#[test]
fn test_trace_func1() {
    let data = init(1, &|trace| {
        assert!(trace.has(type_a()));
        assert!(trace.has(type_b()));
        assert!(trace.has(type_c()));
        assert!(trace.has(type_d()));
        assert!(trace.get(type_a()).is_some());
        assert!(trace.get(type_b()).is_some());
        assert!(trace.get(type_c()).is_some());
        assert!(trace.get(type_d()).is_some());
    });
    assert_eq!(data.on_new_span, 4);
    assert_eq!(data.on_try_record, 8);
    assert_eq!(data.on_record, 8);
    assert_eq!(data.on_start, 1);
    assert_eq!(data.on_end, 1);
}

#[test]
fn test_trace_func2() {
    let data = init(2, &|trace| {
        assert!(trace.has(type_a()));
        assert!(trace.has(type_b()));
        assert!(trace.has(type_c()));
        assert!(trace.has(type_d()));
        assert!(trace.get(type_a()).is_some());
        assert!(trace.get(type_b()).is_some());
        assert!(trace.get(type_c()).is_some());
        assert!(trace.get(type_d()).is_some());
    });
    assert_eq!(data.on_new_span, 4);
    assert_eq!(data.on_try_record, 7);
    assert_eq!(data.on_record, 7);
    assert_eq!(data.on_start, 1);
    assert_eq!(data.on_end, 1);
}

#[test]
fn test_trace_func3() {
    let data = init(3, &|trace| {
        assert!(!trace.has(type_a()));
        assert!(trace.has(type_b()));
        assert!(trace.has(type_c()));
        assert!(trace.has(type_d()));
        assert!(!trace.get(type_a()).is_some());
        assert!(trace.get(type_b()).is_some());
        assert!(trace.get(type_c()).is_some());
        assert!(trace.get(type_d()).is_some());
    });
    assert_eq!(data.on_new_span, 3);
    assert_eq!(data.on_try_record, 6);
    assert_eq!(data.on_record, 6);
    assert_eq!(data.on_start, 1);
    assert_eq!(data.on_end, 1);
}

#[test]
fn test_trace_func4() {
    let data = init(4, &|trace| {
        assert!(!trace.has(type_a()));
        assert!(trace.has(type_b()));
        assert!(trace.has(type_c()));
        assert!(trace.has(type_d()));
        assert!(!trace.get(type_a()).is_some());
        assert!(trace.get(type_b()).is_some());
        assert!(trace.get(type_c()).is_some());
        assert!(trace.get(type_d()).is_some());
    });
    assert_eq!(data.on_new_span, 3);
    assert_eq!(data.on_try_record, 5);
    assert_eq!(data.on_record, 5);
    assert_eq!(data.on_start, 1);
    assert_eq!(data.on_end, 1);
}

#[test]
fn test_trace_func5() {
    let data = init(5, &|trace| {
        assert!(!trace.has(type_a()));
        assert!(!trace.has(type_b()));
        assert!(trace.has(type_c()));
        assert!(trace.has(type_d()));
        assert!(!trace.get(type_a()).is_some());
        assert!(!trace.get(type_b()).is_some());
        assert!(trace.get(type_c()).is_some());
        assert!(trace.get(type_d()).is_some());
        assert_eq!(
            trace.trace().render(),
            "Error: errore::d::Error\n\
             ├─▶ <errore::c::Field> display-c\n\
             │   ├╴ tests/trace_mixed.rs:73:20\n\
             │   ╰╴ tests/trace_mixed.rs:83:15\n\
             │\n\
             ╰─▶ <errore::d::Error> display-d\n\
             \x20   ├╴ tests/trace_mixed.rs:101:20\n\
             \x20   ╰╴ tests/trace_mixed.rs:109:15"
        );
    });
    assert_eq!(data.on_new_span, 2);
    assert_eq!(data.on_try_record, 4);
    assert_eq!(data.on_record, 4);
    assert_eq!(data.on_start, 1);
    assert_eq!(data.on_end, 1);
}

#[test]
fn test_trace_func6() {
    let data = init(6, &|trace| {
        assert!(!trace.has(type_a()));
        assert!(!trace.has(type_b()));
        assert!(trace.has(type_c()));
        assert!(trace.has(type_d()));
        assert!(!trace.get(type_a()).is_some());
        assert!(!trace.get(type_b()).is_some());
        assert!(trace.get(type_c()).is_some());
        assert!(trace.get(type_d()).is_some());
    });
    assert_eq!(data.on_new_span, 2);
    assert_eq!(data.on_try_record, 3);
    assert_eq!(data.on_record, 3);
    assert_eq!(data.on_start, 1);
    assert_eq!(data.on_end, 1);
}

#[test]
fn test_trace_func7() {
    let data = init(7, &|trace| {
        assert!(!trace.has(type_a()));
        assert!(!trace.has(type_b()));
        assert!(!trace.has(type_c()));
        assert!(trace.has(type_d()));
        assert!(!trace.get(type_a()).is_some());
        assert!(!trace.get(type_b()).is_some());
        assert!(!trace.get(type_c()).is_some());
        assert!(trace.get(type_d()).is_some());
    });
    assert_eq!(data.on_new_span, 1);
    assert_eq!(data.on_try_record, 2);
    assert_eq!(data.on_record, 2);
    assert_eq!(data.on_start, 1);
    assert_eq!(data.on_end, 1);
}

#[test]
fn test_trace_func8() {
    let data = init(8, &|trace| {
        assert!(!trace.has(type_a()));
        assert!(!trace.has(type_b()));
        assert!(!trace.has(type_c()));
        assert!(trace.has(type_d()));
        assert!(!trace.get(type_a()).is_some());
        assert!(!trace.get(type_b()).is_some());
        assert!(!trace.get(type_c()).is_some());
        assert!(trace.get(type_d()).is_some());
    });
    assert_eq!(data.on_new_span, 1);
    assert_eq!(data.on_try_record, 1);
    assert_eq!(data.on_record, 1);
    assert_eq!(data.on_start, 1);
    assert_eq!(data.on_end, 1);
}

#[test]
fn test_trace_iterator() {
    let span = match func8(0) {
        TraceResult::Failure(s) => s,
        TraceResult::Success(_) => panic!("the chain should fail"),
    };
    let trace = span.trace();

    let mut forward = Vec::new();
    let mut iter = trace.iter();
    while let Some(rec) = iter.next() {
        forward.push(errore::formatter::format_record(rec, trace));
    }

    let mut backward = Vec::new();
    let mut iter = trace.iter();
    while let Some(rec) = iter.next_back() {
        backward.push(errore::formatter::format_record(rec, trace));
    }
    backward.reverse();

    assert_eq!(forward.len(), 8);
    assert_eq!(forward, backward);
}

/// An operation whose conversion to the traced wrapper and whose
/// propagation hook both fire at the identical call site: the second
/// record is a duplicate and is suppressed.
fn dup_read_to_string(_path: &str) -> TraceResult<String, Span> {
    let io = ErrorData::new(meta("errore::a::Error", "errore::a::Error", false), "...".to_string());
    let loc = Location::new(FILE, 373, 12);
    let mut s = Span::new(None, io, &loc);
    let rec = s.record_at(&loc);
    s.insert(rec);
    TraceResult::Failure(s)
}

fn dup_func() -> TraceResult<String, Span> {
    match dup_read_to_string("/x") {
        TraceResult::Failure(s) => {
            let b = ErrorData::new(
                meta("errore::b::Io", "errore::b::Error", false),
                "...".to_string(),
            );
            TraceResult::Failure(s.propagate(b, &Location::new(FILE, 386, 12)))
        }
        TraceResult::Success(v) => TraceResult::Success(v),
    }
}

#[test]
fn test_trace_duplicate_location() {
    let span = match dup_func() {
        TraceResult::Failure(s) => s,
        TraceResult::Success(_) => panic!("the operation should fail"),
    };
    let ctx = span.finish().expect("the last span should own the context");
    assert_eq!(ctx.count(Event::NewSpan), 2);
    assert_eq!(ctx.count(Event::TryRecord), 3);
    assert_eq!(ctx.count(Event::Record), 2);
    assert_eq!(ctx.count(Event::Start), 1);
    assert_eq!(ctx.count(Event::End), 1);
    assert_eq!(ctx.len(), 2);
}
