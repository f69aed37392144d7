//! The lifecycle interface for error-event observers.
//!
//! The verified engine records every lifecycle event in the context's
//! journal ([`Event`](crate::trace::Event)); a dispatcher outside the
//! library forwards the journal to registered subscribers, in registration
//! order.

use vstd::prelude::*;

use crate::trace::{TraceContext, TraceRecord};

verus! {

/// A handler for error events.
///
/// A `Subscriber` implements a behavior for recording or collecting traces
/// of created, propagated or converted errors.
pub trait Subscriber {
    /// Notifies this subscriber that the propagation of an error has
    /// started. Called before any other handler; the place to initialize
    /// the context's extension store.
    fn on_start(&self, ctx: &mut TraceContext, rec: &TraceRecord);

    /// Notifies this subscriber that the propagation has completed and no
    /// more records will be appended. Fires exactly once per occurrence.
    fn on_end(&self, ctx: &mut TraceContext);

    /// Visits the construction of a new error span, by fresh creation or
    /// by conversion from another wrapper type.
    fn on_new_span(&self, ctx: &mut TraceContext, rec: &TraceRecord);

    /// Visits a record about to be inserted into the trace context.
    /// Several events can fire this for the same location.
    fn on_try_record(&self, ctx: &mut TraceContext, rec: &TraceRecord);

    /// Notifies this subscriber that a record was verified as new and
    /// successfully recorded.
    fn on_record(&self, ctx: &mut TraceContext);
}

/// Default error subscriber: observes everything, records nothing.
#[derive(Clone, Copy, Debug)]
pub struct ErrorSubscriber;

impl Default for ErrorSubscriber {
    fn default() -> (r: Self)
        ensures
            r == ErrorSubscriber,
    {
        ErrorSubscriber
    }
}

impl Subscriber for ErrorSubscriber {
    fn on_start(&self, ctx: &mut TraceContext, rec: &TraceRecord) {
    }

    fn on_end(&self, ctx: &mut TraceContext) {
    }

    fn on_new_span(&self, ctx: &mut TraceContext, rec: &TraceRecord) {
    }

    fn on_try_record(&self, ctx: &mut TraceContext, rec: &TraceRecord) {
    }

    fn on_record(&self, ctx: &mut TraceContext) {
    }
}

} // verus!
