//! The span: the per-wrapper container that owns one error value and,
//! while it is the current sole owner, the trace context.
//!
//! A span is created either by fresh error construction, which allocates a
//! new context, or by conversion from an inner wrapper, which takes that
//! wrapper's context: ownership transfer is a move, never a copy, so at any
//! instant at most one live span holds a given context.

use vstd::prelude::*;
use vstd::string::StringExecFns;

use crate::data::{ErrorData, Id, Meta, Metadata};
use crate::downcast::Downcasted;
use crate::extract::Extract;
use crate::location::Location;
use crate::trace::{
    count_of, finish_events, insert_appends, insert_result, lemma_count_push, record_for, Event,
    Instance, TraceContext, TraceRecord, TraceRecordIterator,
};

verus! {

/// The `Span` represents a parent which a [`TraceRecord`] refers back to.
///
/// A single span comprises the records propagated from one error value.
#[derive(Debug)]
pub struct Span {
    /// The context that is moved to the last emitted span. `Some` while this
    /// span is the current owner.
    pub ctx: Option<TraceContext>,
    /// The record that was created with the span.
    pub record: TraceRecord,
    /// The error value that was created with the span.
    pub data: ErrorData,
    /// The slot of this span's error instance in the context's table.
    pub slot: usize,
}

/// `c2` is `c0` as a conversion adopts it: the new owner's instance is added
/// and the span-construction event fires; the records are untouched.
pub open spec fn adopted_ctx(c2: TraceContext, c0: TraceContext, data: ErrorData) -> bool {
    &&& c2.trace@ == c0.trace@
    &&& c2.instances@ == c0.instances@.push(Instance { data, alive: true })
    &&& c2.events@ == c0.events@.push(Event::NewSpan)
    &&& c2.finalized == c0.finalized
    &&& c2.extensions == c0.extensions
}

/// `c2` is the context a first span allocates: one instance, one record at
/// the creation site, and the full start-of-life event sequence.
pub open spec fn fresh_ctx(c2: TraceContext, data: ErrorData, location: Location) -> bool {
    &&& c2.trace@ == seq![record_for(data, location, 0)]
    &&& c2.instances@ == seq![Instance { data, alive: true }]
    &&& c2.events@ == seq![Event::Start, Event::NewSpan, Event::TryRecord, Event::Record]
    &&& !c2.finalized
    &&& c2.extensions.entries@.len() == 0
}

/// `c2` is `c0` after an insertion attempt of `rec`: the try event fires,
/// and unless `rec` repeats the key of the most recent record it is appended
/// and the record event fires.
pub open spec fn inserted_ctx(
    c2: TraceContext,
    c0: TraceContext,
    rec: TraceRecord,
    appended: bool,
) -> bool {
    &&& appended == insert_appends(c0.trace@, rec)
    &&& c2.trace@ == insert_result(c0.trace@, rec)
    &&& appended ==> c2.events@ == c0.events@ + seq![Event::TryRecord, Event::Record]
    &&& !appended ==> c2.events@ == c0.events@.push(Event::TryRecord)
    &&& c2.instances == c0.instances
    &&& c2.finalized == c0.finalized
    &&& c2.extensions == c0.extensions
}

/// `c2` is `c0` after a full propagation step into the wrapper value
/// `outer`: adoption, then insertion of the conversion record.
pub open spec fn propagated_ctx(
    c2: TraceContext,
    c0: TraceContext,
    outer: ErrorData,
    location: Location,
    slot: usize,
    appended: bool,
) -> bool {
    let rec = record_for(outer, location, slot);
    &&& appended == insert_appends(c0.trace@, rec)
    &&& c2.trace@ == insert_result(c0.trace@, rec)
    &&& c2.instances@ == c0.instances@.push(Instance { data: outer, alive: true })
    &&& appended ==> c2.events@ == c0.events@ + seq![
        Event::NewSpan,
        Event::TryRecord,
        Event::Record,
    ]
    &&& !appended ==> c2.events@ == c0.events@ + seq![Event::NewSpan, Event::TryRecord]
    &&& c2.finalized == c0.finalized
    &&& c2.extensions == c0.extensions
}

/// Builds the record a span creates for `data` at `location`, holding the
/// non-owning handle `origin` to the span's instance.
fn make_record(data: &ErrorData, location: &Location, origin: usize) -> (r: TraceRecord)
    ensures
        r == record_for(*data, *location, origin),
{
    TraceRecord {
        location: location.clone(),
        name: data.meta.name.clone(),
        target: data.meta.target.clone(),
        target_id: data.meta.target_id,
        id: data.meta.id,
        is_transparent: data.meta.is_transparent,
        origin,
    }
}

impl Span {
    /// The internal invariant: while this span owns a context, the context
    /// is well formed and the span's instance slot points into its table.
    pub open spec fn wf(&self) -> bool {
        &&& self.ctx matches Some(c) ==> c.wf() && self.slot < c.instances@.len()
        &&& self.record.origin == self.slot
    }

    /// Constructs a span for the error value `data` created or converted at
    /// `location`.
    ///
    /// With no inherited context a new one is allocated; this is the first
    /// span of its occurrence, so the start event fires before any record
    /// exists, and the span inserts its own record. With an inherited
    /// context only the span-construction event fires: the conversion
    /// record is inserted by the propagation step, not by construction,
    /// because a span may be created without ever being propagated.
    pub fn new(ctx: Option<TraceContext>, data: ErrorData, location: &Location) -> (s: Span)
        requires
            ctx matches Some(c0) ==> c0.wf(),
        ensures
            s.wf(),
            s.data == data,
            s.record == record_for(data, *location, s.slot),
            s.ctx is Some,
            ctx is None ==> s.slot == 0 && (s.ctx matches Some(c2) && fresh_ctx(
                c2,
                data,
                *location,
            )),
            ctx matches Some(c0) ==> s.slot == c0.instances@.len() && (s.ctx matches Some(c2)
                && adopted_ctx(c2, c0, data)),
    {
        let is_first = ctx.is_none();
        let mut c = match ctx {
            Some(c0) => c0,
            None => TraceContext::new(),
        };
        let slot = c.instances.len();
        let ghost pre_instances = c.instances@;
        c.instances.push(Instance { data: data.clone(), alive: true });
        let record = make_record(&data, location, slot);
        proof {
            assert forall|i: int|
                0 <= i < c.trace@.len() implies (#[trigger] c.trace@[i]).origin
                < c.instances@.len() by {}
        }
        if is_first {
            proof {
                lemma_count_push(c.events@, Event::Start, Event::End);
            }
            c.events.push(Event::Start);
            proof {
                lemma_count_push(c.events@, Event::NewSpan, Event::End);
            }
            c.events.push(Event::NewSpan);
            proof {
                lemma_count_push(c.events@, Event::TryRecord, Event::End);
            }
            c.events.push(Event::TryRecord);
            let appended = c.insert(record.clone());
            assert(appended);
            proof {
                lemma_count_push(c.events@, Event::Record, Event::End);
            }
            c.events.push(Event::Record);
            assert(c.events@ =~= seq![
                Event::Start,
                Event::NewSpan,
                Event::TryRecord,
                Event::Record,
            ]);
            assert(c.trace@ =~= seq![record_for(data, *location, 0)]);
            assert(c.instances@ =~= seq![Instance { data, alive: true }]);
        } else {
            proof {
                lemma_count_push(c.events@, Event::NewSpan, Event::End);
            }
            c.events.push(Event::NewSpan);
        }
        Span { ctx: Some(c), record, data, slot }
    }

    /// Builds a record for this span's error value at `location`, for a
    /// propagation step that stays within one wrapper type.
    pub fn record_at(&self, location: &Location) -> (r: TraceRecord)
        ensures
            r == record_for(self.data, *location, self.slot),
    {
        make_record(&self.data, location, self.slot)
    }

    /// Returns the trace context.
    ///
    /// Calling this on a span that handed its context off is a
    /// programming-contract violation; use [`Span::trace_ref`] where
    /// ownership is not known.
    pub fn trace(&self) -> (r: &TraceContext)
        requires
            self.ctx is Some,
        ensures
            self.ctx matches Some(c) && *r == c,
    {
        match &self.ctx {
            Some(c) => c,
            None => unreached(),
        }
    }

    /// Returns the trace context, if this span still owns it.
    pub fn trace_ref(&self) -> (r: Option<&TraceContext>)
        ensures
            match r {
                Some(c) => self.ctx matches Some(c0) && *c == c0,
                None => self.ctx is None,
            },
    {
        self.ctx.as_ref()
    }

    /// Takes the trace context, leaving the span without one: a move, never
    /// a copy.
    pub fn take_trace(&mut self) -> (r: Option<TraceContext>)
        ensures
            r == old(self).ctx,
            final(self).ctx is None,
            final(self).record == old(self).record,
            final(self).data == old(self).data,
            final(self).slot == old(self).slot,
    {
        self.ctx.take()
    }

    /// Returns the error value that was created with the span.
    pub fn inner(&self) -> (r: &ErrorData)
        ensures
            *r == self.data,
    {
        &self.data
    }

    /// Inserts a new trace record into the error chain: the try event
    /// fires, then the record is appended unless it repeats the key of the
    /// most recently inserted record, in which case it is suppressed.
    pub fn insert(&mut self, record: TraceRecord) -> (r: bool)
        requires
            old(self).wf(),
            old(self).ctx matches Some(c0) && record.origin < c0.instances@.len(),
        ensures
            final(self).wf(),
            final(self).record == old(self).record,
            final(self).data == old(self).data,
            final(self).slot == old(self).slot,
            old(self).ctx matches Some(c0) ==> final(self).ctx matches Some(c2) && inserted_ctx(
                c2,
                c0,
                record,
                r,
            ),
    {
        let ghost c0 = old(self).ctx->0;
        match &mut self.ctx {
            Some(c) => {
                proof {
                    lemma_count_push(c.events@, Event::TryRecord, Event::End);
                }
                c.events.push(Event::TryRecord);
                let appended = c.insert(record);
                if appended {
                    proof {
                        lemma_count_push(c.events@, Event::Record, Event::End);
                    }
                    c.events.push(Event::Record);
                    assert(c.events@ =~= c0.events@ + seq![Event::TryRecord, Event::Record]);
                }
                appended
            },
            None => unreached(),
        }
    }

    /// Converts this span into one for the wrapper value `outer`, created at
    /// `location`: the context moves to the new span, which becomes its sole
    /// owner, and this span is consumed. No record is inserted; that is the
    /// propagation step's task ([`Span::propagate`]).
    ///
    /// A span that already handed its context off converts into a first
    /// span with a fresh context.
    pub fn convert(self, outer: ErrorData, location: &Location) -> (s: Span)
        requires
            self.wf(),
        ensures
            s.wf(),
            s.data == outer,
            s.record == record_for(outer, *location, s.slot),
            s.ctx is Some,
            self.ctx matches Some(c0) ==> s.slot == c0.instances@.len() && (s.ctx matches Some(c2)
                && adopted_ctx(c2, c0, outer)),
            self.ctx is None ==> s.slot == 0 && (s.ctx matches Some(c2) && fresh_ctx(
                c2,
                outer,
                *location,
            )),
    {
        let mut inner = self;
        let ctx = inner.take_trace();
        Span::new(ctx, outer, location)
    }

    /// The full propagation step for a failure value that crosses a
    /// conversion boundary into the wrapper value `outer` at `location`:
    /// the context moves into a new span for `outer`, and a record naming
    /// the outer type at this conversion's call site is inserted, subject
    /// to deduplication.
    pub fn propagate(self, outer: ErrorData, location: &Location) -> (s: Span)
        requires
            self.wf(),
            self.ctx is Some,
        ensures
            s.wf(),
            s.data == outer,
            s.record == record_for(outer, *location, s.slot),
            s.ctx is Some,
            self.ctx matches Some(c0) ==> {
                let appended = insert_appends(
                    c0.trace@,
                    record_for(outer, *location, (c0.instances@.len() as usize)),
                );
                &&& s.slot == c0.instances@.len()
                &&& s.ctx matches Some(c2) && propagated_ctx(
                    c2,
                    c0,
                    outer,
                    *location,
                    s.slot,
                    appended,
                )
            },
    {
        let ghost c0 = self.ctx->0;
        let mut s = self.convert(outer, location);
        let rec = s.record.clone();
        let appended = s.insert(rec);
        proof {
            let c2 = s.ctx->0;
            if appended {
                assert(c2.events@ =~= c0.events@ + seq![
                    Event::NewSpan,
                    Event::TryRecord,
                    Event::Record,
                ]);
            } else {
                assert(c2.events@ =~= c0.events@ + seq![Event::NewSpan, Event::TryRecord]);
            }
        }
        s
    }

    /// Inserts a record for this span's error value whose name is rewritten
    /// to `name`: the final surfacing step when the chain leaves the traced
    /// wrappers for a foreign result type, where no further span exists to
    /// own the name.
    pub fn surface(&mut self, name: String, location: &Location) -> (r: bool)
        requires
            old(self).wf(),
            old(self).ctx is Some,
        ensures
            final(self).wf(),
            final(self).record == old(self).record,
            final(self).data == old(self).data,
            final(self).slot == old(self).slot,
            old(self).ctx matches Some(c0) ==> final(self).ctx matches Some(c2) && inserted_ctx(
                c2,
                c0,
                record_renamed(old(self).data, *location, old(self).slot, name),
                r,
            ),
    {
        let rec = TraceRecord {
            location: location.clone(),
            name,
            target: self.data.meta.target.clone(),
            target_id: self.data.meta.target_id,
            id: self.data.meta.id,
            is_transparent: self.data.meta.is_transparent,
            origin: self.slot,
        };
        self.insert(rec)
    }

    /// Finishes the occurrence: fired when the span is destroyed. If this
    /// span still owns the context, every error instance is released, the
    /// one end event fires unless finalization already happened, and the
    /// finished context is returned for inspection. A span that handed its
    /// context off finishes nothing.
    pub fn finish(self) -> (r: Option<TraceContext>)
        requires
            self.wf(),
        ensures
            self.ctx is None ==> r is None,
            self.ctx matches Some(c0) ==> r matches Some(c2) && {
                &&& c2.wf()
                &&& c2.finalized
                &&& c2.events@ == finish_events(c0.events@, c0.finalized)
                &&& c2.trace == c0.trace
                &&& c2.extensions == c0.extensions
                &&& c2.instances@.len() == c0.instances@.len()
                &&& forall|i: int|
                    0 <= i < c2.instances@.len() ==> (#[trigger] c2.instances@[i]).data
                        == c0.instances@[i].data && !c2.instances@[i].alive
            },
    {
        match self.ctx {
            Some(mut c) => {
                c.finish();
                Some(c)
            },
            None => None,
        }
    }

    /// Returns an iterator over the records of the owned context, or an
    /// empty one if the context was handed off.
    pub fn iter(&self) -> (r: TraceRecordIterator)
        ensures
            match self.ctx {
                Some(c) => (r.index matches Some(v) && *v == c.trace) && r.pos == 0 && r.len
                    == c.trace@.len(),
                None => r.index is None && r.pos == 0 && r.len == 0,
            },
    {
        match &self.ctx {
            Some(c) => c.iter(),
            None => TraceRecordIterator::empty(),
        }
    }
}

impl Metadata for Span {
    open spec fn metadata(&self) -> Meta {
        self.data.meta
    }

    open spec fn message_spec(&self) -> Seq<char> {
        self.data.message@
    }

    fn name(&self) -> (r: &str) {
        self.data.meta.name.as_str()
    }

    fn id(&self) -> (r: Id) {
        self.data.meta.id
    }

    fn target(&self) -> (r: &str) {
        self.data.meta.target.as_str()
    }

    fn target_id(&self) -> (r: Id) {
        self.data.meta.target_id
    }

    fn display(&self) -> (r: String) {
        self.data.message.clone()
    }

    fn is_transparent(&self) -> (r: bool) {
        self.data.meta.is_transparent
    }
}

impl Extract for Span {
    open spec fn extract_wf(&self) -> bool {
        self.ctx matches Some(c) ==> c.wf()
    }

    open spec fn has_spec(&self, type_id: Id) -> bool {
        self.ctx matches Some(c) && c.has_spec(type_id)
    }

    open spec fn get_spec(&self, type_id: Id) -> Option<ErrorData> {
        match self.ctx {
            Some(c) => c.get_spec(type_id),
            None => None,
        }
    }

    fn get(&self, type_id: Id) -> (r: Option<Downcasted>) {
        match &self.ctx {
            Some(c) => c.get(type_id),
            None => None,
        }
    }

    fn has(&self, type_id: Id) -> (r: bool) {
        match &self.ctx {
            Some(c) => c.has(type_id),
            None => false,
        }
    }
}

/// The record that the surfacing step inserts: this span's identity, with
/// the name rewritten to the foreign result type that the error leaves
/// through.
pub open spec fn record_renamed(
    data: ErrorData,
    location: Location,
    origin: usize,
    name: String,
) -> TraceRecord {
    TraceRecord {
        location,
        name,
        target: data.meta.target,
        target_id: data.meta.target_id,
        id: data.meta.id,
        is_transparent: data.meta.is_transparent,
        origin,
    }
}

/// Ownership uniqueness: for any propagation chain, exactly one live
/// context exists for one occurrence at any point in time.
///
/// Transfer is a move, never a copy. [`Span::take_trace`] guarantees the
/// postcondition assumed here: the taken value is exactly what the source
/// span held, and the source is left without a context. This lemma states
/// that such a transfer preserves the number of live contexts, so a chain
/// built by [`Span::convert`] or [`Span::propagate`] — each of which
/// consumes the inner span and moves its context into the new owner — holds
/// exactly one context throughout.
pub proof fn lemma_context_moves_not_copies(
    before: Option<TraceContext>,
    after_src: Option<TraceContext>,
    taken: Option<TraceContext>,
)
    requires
        taken == before,
        after_src is None,
    ensures
        (if before is Some {
            1int
        } else {
            0int
        }) == (if after_src is Some {
            1int
        } else {
            0int
        }) + (if taken is Some {
            1int
        } else {
            0int
        }),
{
}

} // verus!
