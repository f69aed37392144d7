//! An in-process error provenance tracer.
//!
//! As a fallible value propagates up a call chain, the library records, in
//! order, every location and error type it passed through. A [`trace::TraceContext`]
//! owns the ordered records of one logical error occurrence; a [`span::Span`]
//! wraps one concrete error value and, while it is the current owner, the
//! context. Conversions between wrapper types move the context forward, append
//! one deduplicated record per propagation step, and leave a journal of
//! lifecycle events that observers can consume. A formatter renders the
//! accumulated chain as a text tree.

pub mod data;
pub mod display;
pub mod downcast;
pub mod extensions;
pub mod extract;
pub mod hash;
pub mod location;
pub mod formatter;
pub mod result;
pub mod span;
pub mod subscriber;
pub mod trace;

pub use data::{ErrorData, Id, Meta, Metadata};
pub use downcast::Downcasted;
pub use extensions::{ExtVal, Extensions};
pub use extract::{Extract, Extractable};
pub use hash::fnv1a_hash_64;
pub use formatter::{ErrorFormatter, Formatter};
pub use location::Location;
pub use span::Span;
pub use subscriber::{ErrorSubscriber, Subscriber};
pub use trace::{Event, TraceContext, TraceRecord, TraceRecordIterator};
