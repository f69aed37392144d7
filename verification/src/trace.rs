//! The trace context: the owned record of one logical error occurrence.
//!
//! A context holds the ordered sequence of trace records, the table of
//! error instances the records refer to, a journal of lifecycle events, and
//! the one-shot finalization flag. Exactly one context exists per occurrence;
//! ownership moves between spans and is never copied.

use vstd::prelude::*;

use crate::data::{ErrorData, Id};
use crate::downcast::Downcasted;
use crate::extensions::Extensions;
use crate::extract::Extract;
use crate::location::Location;

verus! {

/// A lifecycle notification, recorded in the context's journal in the order
/// the events fired. Observers consume the journal.
#[derive(Clone, Copy, Debug, PartialEq, Eq, Structural)]
pub enum Event {
    /// The propagation of an error occurrence has started.
    Start,
    /// A span was constructed, by fresh creation or by conversion.
    NewSpan,
    /// A record is about to be inserted into the context.
    TryRecord,
    /// A record was verified as new and recorded.
    Record,
    /// The propagation has completed; no more records will be appended.
    End,
}

/// How many events of kind `kind` the journal holds.
pub open spec fn count_of(events: Seq<Event>, kind: Event) -> nat
    decreases events.len(),
{
    if events.len() == 0 {
        0
    } else {
        count_of(events.drop_last(), kind) + if events.last() == kind {
            1nat
        } else {
            0nat
        }
    }
}

pub proof fn lemma_count_push(s: Seq<Event>, e: Event, k: Event)
    ensures
        count_of(s.push(e), k) == count_of(s, k) + if e == k {
            1nat
        } else {
            0nat
        },
{
    assert(s.push(e).drop_last() =~= s);
    assert(s.push(e).last() == e);
}

/// One live error instance held for the records that refer to it.
///
/// The instance dies when the occurrence it belongs to is finished; a dead
/// instance stays in the table so that its records remain displayable.
#[derive(Debug)]
pub struct Instance {
    pub data: ErrorData,
    pub alive: bool,
}

/// The record represents an entity where an error was created, propagated or
/// converted in the error chain. Immutable once created.
#[derive(Debug)]
pub struct TraceRecord {
    /// The location of the error.
    pub location: Location,
    /// The name of the error variant.
    pub name: String,
    /// The target of the error.
    pub target: String,
    /// The target id of the error.
    pub target_id: Id,
    /// The id of the error variant.
    pub id: Id,
    /// Whether the wrapper forwards its textual rendering to its inner cause.
    pub is_transparent: bool,
    /// The non-owning handle to the live error instance: a slot in the
    /// owning context's instance table.
    pub origin: usize,
}

impl Clone for TraceRecord {
    fn clone(&self) -> (r: Self)
        ensures
            r == *self,
    {
        TraceRecord {
            location: self.location.clone(),
            name: self.name.clone(),
            target: self.target.clone(),
            target_id: self.target_id,
            id: self.id,
            is_transparent: self.is_transparent,
            origin: self.origin,
        }
    }
}

/// The record a span at `location` creates for the error value `data`,
/// whose instance sits in slot `origin`.
pub open spec fn record_for(data: ErrorData, location: Location, origin: usize) -> TraceRecord {
    TraceRecord {
        location,
        name: data.meta.name,
        target: data.meta.target,
        target_id: data.meta.target_id,
        id: data.meta.id,
        is_transparent: data.meta.is_transparent,
        origin,
    }
}

/// Two records describe the same propagation step: same location, same
/// error-variant name. The dedup guard compares exactly this.
pub open spec fn same_key(a: TraceRecord, b: TraceRecord) -> bool {
    a.name@ == b.name@ && Location::same(a.location, b.location)
}

/// Whether inserting `rec` after `trace` appends it: it does unless `rec`
/// repeats the key of the most recently inserted record.
pub open spec fn insert_appends(trace: Seq<TraceRecord>, rec: TraceRecord) -> bool {
    !(trace.len() > 0 && same_key(rec, trace.last()))
}

/// The trace after an insertion attempt: `rec` is appended unless it
/// repeats the key of the most recently inserted record.
pub open spec fn insert_result(trace: Seq<TraceRecord>, rec: TraceRecord) -> Seq<TraceRecord> {
    if insert_appends(trace, rec) {
        trace.push(rec)
    } else {
        trace
    }
}

/// The trace after a whole sequence of insertion attempts, oldest first.
pub open spec fn fold_inserts(trace: Seq<TraceRecord>, recs: Seq<TraceRecord>) -> Seq<TraceRecord>
    decreases recs.len(),
{
    if recs.len() == 0 {
        trace
    } else {
        fold_inserts(insert_result(trace, recs[0]), recs.drop_first())
    }
}

impl TraceRecord {
    /// Compares the dedup keys of two records.
    pub fn key_matches(&self, other: &TraceRecord) -> (r: bool)
        ensures
            r == same_key(*self, *other),
    {
        self.location.eq_loc(&other.location) && self.name.eq(&other.name)
    }

    /// Resolves the non-owning handle to the error instance this record was
    /// created for. Returns the instance while it is live; once every owner
    /// of the wrapped error is gone the record remains, but resolution fails.
    pub fn error_ref<'a>(&self, ctx: &'a TraceContext) -> (r: Option<&'a ErrorData>)
        ensures
            match r {
                Some(d) => self.origin < ctx.instances@.len()
                    && ctx.instances@[self.origin as int].alive && *d == ctx.instances@[self.origin
                    as int].data,
                None => !(self.origin < ctx.instances@.len() && ctx.instances@[self.origin
                    as int].alive),
            },
    {
        if self.origin < ctx.instances.len() {
            let inst = &ctx.instances[self.origin];
            if inst.alive {
                return Some(&inst.data);
            }
        }
        None
    }
}

/// A context for holding data used for error tracing.
///
/// This construct is always moved to the last emitted [`Span`](crate::span::Span):
/// at any instant at most one live span owns it.
#[derive(Debug)]
pub struct TraceContext {
    /// The collected trace records, in insertion order (innermost cause
    /// first). Append-only: never reordered, never truncated.
    pub trace: Vec<TraceRecord>,
    /// The error instances the records refer to.
    pub instances: Vec<Instance>,
    /// Whether finalization has already fired. One-shot.
    pub finalized: bool,
    /// The journal of lifecycle events, in firing order.
    pub events: Vec<Event>,
    /// User attached data container.
    pub extensions: Extensions,
}

impl TraceContext {
    /// The internal invariant: every record's origin handle points into the
    /// instance table, the journal holds exactly one end event once
    /// finalization has fired and none before, and the extension store is
    /// well formed.
    pub open spec fn wf(&self) -> bool {
        &&& forall|i: int|
            0 <= i < self.trace@.len() ==> (#[trigger] self.trace@[i]).origin
                < self.instances@.len()
        &&& count_of(self.events@, Event::End) == if self.finalized {
            1nat
        } else {
            0nat
        }
        &&& self.extensions.wf()
    }

    pub(crate) fn new() -> (r: Self)
        ensures
            r.trace@.len() == 0,
            r.instances@.len() == 0,
            r.events@.len() == 0,
            !r.finalized,
            r.extensions.entries@.len() == 0,
            r.wf(),
    {
        let r = TraceContext {
            trace: Vec::new(),
            instances: Vec::new(),
            finalized: false,
            events: Vec::new(),
            extensions: Extensions::new(),
        };
        proof {
            assert(count_of(r.events@, Event::End) == 0);
        }
        r
    }

    /// The number of records in the trace, also referred to as its 'length'.
    pub fn len(&self) -> (r: usize)
        ensures
            r == self.trace@.len(),
    {
        self.trace.len()
    }

    /// Gets the origin error's record.
    ///
    /// A context with no records is a contract violation; the construction
    /// protocol always inserts one record before a context is handed out.
    pub fn first(&self) -> (r: &TraceRecord)
        requires
            self.trace@.len() > 0,
        ensures
            *r == self.trace@[0],
    {
        &self.trace[0]
    }

    /// Gets the top-level error's record.
    ///
    /// A context with no records is a contract violation, as with
    /// [`TraceContext::first`].
    pub fn last(&self) -> (r: &TraceRecord)
        requires
            self.trace@.len() > 0,
        ensures
            *r == self.trace@[self.trace@.len() - 1],
    {
        &self.trace[self.trace.len() - 1]
    }

    /// Inserts `record` unless it repeats the key of the most recently
    /// inserted record; returns whether it was appended.
    ///
    /// A duplicate occurs when multiple independent conversion paths fire
    /// for the identical call site; the duplicate is suppressed.
    pub fn insert(&mut self, record: TraceRecord) -> (r: bool)
        requires
            old(self).wf(),
            record.origin < old(self).instances@.len(),
        ensures
            final(self).wf(),
            r == insert_appends(old(self).trace@, record),
            final(self).trace@ == insert_result(old(self).trace@, record),
            r ==> final(self).trace@ == old(self).trace@.push(record),
            !r ==> final(self).trace@ == old(self).trace@,
            final(self).instances == old(self).instances,
            final(self).events == old(self).events,
            final(self).finalized == old(self).finalized,
            final(self).extensions == old(self).extensions,
    {
        let n = self.trace.len();
        if n > 0 {
            let dup = record.key_matches(&self.trace[n - 1]);
            if dup {
                return false;
            }
        }
        let ghost pre = self.trace@;
        self.trace.push(record);
        assert forall|i: int|
            0 <= i < self.trace@.len() implies (#[trigger] self.trace@[i]).origin
            < self.instances@.len() by {
            if i < pre.len() {
                assert(self.trace@[i] == pre[i]);
            } else {
                assert(self.trace@[i] == record);
            }
        }
        true
    }

    /// Counts the events of kind `kind` in the journal.
    pub fn count(&self, kind: Event) -> (r: usize)
        ensures
            r == count_of(self.events@, kind),
    {
        let n = self.events.len();
        let mut cnt: usize = 0;
        let mut i: usize = 0;
        proof {
            lemma_count_bounded(self.events@, kind);
            assert(self.events@.take(0) =~= Seq::<Event>::empty());
        }
        while i < n
            invariant
                n == self.events@.len(),
                i <= n,
                cnt == count_of(self.events@.take(i as int), kind),
                cnt <= i,
            decreases n - i,
        {
            proof {
                assert(self.events@.take(i + 1).drop_last() =~= self.events@.take(i as int));
                assert(self.events@.take(i + 1).last() == self.events@[i as int]);
            }
            if event_eq(self.events[i], kind) {
                cnt = cnt + 1;
            }
            i = i + 1;
        }
        proof {
            assert(self.events@.take(n as int) =~= self.events@);
        }
        cnt
    }

    /// Returns a reference to this context's extension store.
    pub fn extensions(&self) -> (r: &Extensions)
        ensures
            *r == self.extensions,
    {
        &self.extensions
    }

    /// Returns a mutable reference to this context's extension store.
    pub fn extensions_mut(&mut self) -> (r: &mut Extensions)
        ensures
            *r == old(self).extensions,
            final(self).extensions == *final(r),
            final(self).trace == old(self).trace,
            final(self).instances == old(self).instances,
            final(self).events == old(self).events,
            final(self).finalized == old(self).finalized,
    {
        &mut self.extensions
    }

    /// Finishes the occurrence this context records: releases every error
    /// instance and, unless finalization has already fired, appends the one
    /// end event. Returns whether the end event fired.
    ///
    /// This is the fallback for a context that was detached from its span;
    /// a context still owned by a span is finished through
    /// [`Span::finish`](crate::span::Span::finish).
    pub fn finish(&mut self) -> (r: bool)
        requires
            old(self).wf(),
        ensures
            final(self).wf(),
            r == !old(self).finalized,
            final(self).finalized,
            final(self).events@ == finish_events(old(self).events@, old(self).finalized),
            final(self).trace == old(self).trace,
            final(self).extensions == old(self).extensions,
            final(self).instances@.len() == old(self).instances@.len(),
            forall|i: int|
                0 <= i < final(self).instances@.len() ==> (#[trigger] final(self).instances@[i]).data
                    == old(self).instances@[i].data && !final(self).instances@[i].alive,
    {
        self.release_instances();
        if !self.finalized {
            proof {
                lemma_count_push(self.events@, Event::End, Event::End);
            }
            self.events.push(Event::End);
            self.finalized = true;
            true
        } else {
            false
        }
    }

    /// Marks every instance in the table as dead.
    fn release_instances(&mut self)
        ensures
            final(self).instances@.len() == old(self).instances@.len(),
            forall|i: int|
                0 <= i < final(self).instances@.len() ==> (#[trigger] final(self).instances@[i]).data
                    == old(self).instances@[i].data && !final(self).instances@[i].alive,
            final(self).trace == old(self).trace,
            final(self).events == old(self).events,
            final(self).finalized == old(self).finalized,
            final(self).extensions == old(self).extensions,
            old(self).wf() ==> final(self).wf(),
    {
        let n = self.instances.len();
        let mut i: usize = 0;
        while i < n
            invariant
                n == self.instances@.len(),
                i <= n,
                self.instances@.len() == old(self).instances@.len(),
                forall|j: int|
                    0 <= j < n ==> (#[trigger] self.instances@[j]).data == old(
                        self,
                    ).instances@[j].data,
                forall|j: int| 0 <= j < i ==> !(#[trigger] self.instances@[j]).alive,
                self.trace == old(self).trace,
                self.events == old(self).events,
                self.finalized == old(self).finalized,
                self.extensions == old(self).extensions,
            decreases n - i,
        {
            let data = self.instances[i].data.clone();
            self.instances.set(i, Instance { data, alive: false });
            i = i + 1;
        }
    }
}

impl TraceContext {
    /// Whether the record at `i` resolves to a live instance of the type
    /// named by `type_id`.
    pub open spec fn resolves_at(&self, i: int, type_id: Id) -> bool {
        0 <= i < self.trace@.len() && {
            let o = self.trace@[i].origin as int;
            o < self.instances@.len() && self.instances@[o].alive && self.instances@[o].data.meta.type_id
                == type_id
        }
    }

    /// The index of the first record at or after `from` that resolves to a
    /// live instance of the type named by `type_id`.
    pub open spec fn first_resolvable_from(&self, type_id: Id, from: int) -> Option<int>
        decreases self.trace@.len() - from,
    {
        if from < 0 || from >= self.trace@.len() {
            None
        } else if self.resolves_at(from, type_id) {
            Some(from)
        } else {
            self.first_resolvable_from(type_id, from + 1)
        }
    }

    /// Returns an iterator over the trace records, oldest first.
    pub fn iter(&self) -> (r: TraceRecordIterator)
        ensures
            match r.index {
                Some(v) => *v == self.trace,
                None => false,
            },
            r.pos == 0,
            r.len == self.trace@.len(),
    {
        TraceRecordIterator { index: Some(&self.trace), pos: 0, len: self.trace.len() }
    }
}

impl Extract for TraceContext {
    open spec fn extract_wf(&self) -> bool {
        self.wf()
    }

    open spec fn has_spec(&self, type_id: Id) -> bool {
        exists|i: int| self.resolves_at(i, type_id)
    }

    open spec fn get_spec(&self, type_id: Id) -> Option<ErrorData> {
        match self.first_resolvable_from(type_id, 0) {
            Some(i) => Some(self.instances@[self.trace@[i].origin as int].data),
            None => None,
        }
    }

    fn get(&self, type_id: Id) -> (r: Option<Downcasted>) {
        let n = self.trace.len();
        let mut i: usize = 0;
        while i < n
            invariant
                self.wf(),
                n == self.trace@.len(),
                i <= n,
                self.first_resolvable_from(type_id, 0) == self.first_resolvable_from(
                    type_id,
                    i as int,
                ),
            decreases n - i,
        {
            let origin = self.trace[i].origin;
            if origin < self.instances.len() {
                let inst = &self.instances[origin];
                if inst.alive && inst.data.meta.type_id.0 == type_id.0 {
                    assert(self.resolves_at(i as int, type_id));
                    return Some(Downcasted::new(inst.data.clone()));
                }
            }
            assert(!self.resolves_at(i as int, type_id));
            i = i + 1;
        }
        None
    }

    fn has(&self, type_id: Id) -> (r: bool) {
        let n = self.trace.len();
        let mut i: usize = 0;
        while i < n
            invariant
                self.wf(),
                n == self.trace@.len(),
                i <= n,
                forall|j: int| 0 <= j < i ==> !self.resolves_at(j, type_id),
            decreases n - i,
        {
            let origin = self.trace[i].origin;
            if origin < self.instances.len() {
                let inst = &self.instances[origin];
                if inst.alive && inst.data.meta.type_id.0 == type_id.0 {
                    assert(self.resolves_at(i as int, type_id));
                    return true;
                }
            }
            assert(!self.resolves_at(i as int, type_id));
            i = i + 1;
        }
        false
    }
}

/// An iterator over the records of a trace context.
#[derive(Debug)]
pub struct TraceRecordIterator<'a> {
    pub index: Option<&'a Vec<TraceRecord>>,
    pub pos: usize,
    pub len: usize,
}

impl<'a> TraceRecordIterator<'a> {
    /// An iterator over no records.
    pub fn empty() -> (r: Self)
        ensures
            r.index is None,
            r.pos == 0,
            r.len == 0,
    {
        TraceRecordIterator { index: None, pos: 0, len: 0 }
    }

    /// Returns the number of elements in the trace context, also referred to
    /// as its 'length'.
    pub fn len(&self) -> (r: usize)
        ensures
            r == match self.index {
                Some(v) => v@.len(),
                None => 0nat,
            },
    {
        match self.index {
            Some(v) => v.len(),
            None => 0,
        }
    }

    /// The record at index `i`.
    pub fn at(&self, i: usize) -> (r: &'a TraceRecord)
        requires
            self.index matches Some(v) && i < v@.len(),
        ensures
            self.index matches Some(v) && *r == v@[i as int],
    {
        match self.index {
            Some(v) => &v[i],
            None => unreached(),
        }
    }

    /// The next record from the front, if any.
    pub fn next(&mut self) -> (r: Option<&'a TraceRecord>)
        ensures
            match old(self).index {
                Some(v) => {
                    &&& final(self).index == old(self).index
                    &&& final(self).len == old(self).len
                    &&& if old(self).pos < v@.len() {
                        &&& r matches Some(x) && *x == v@[old(self).pos as int]
                        &&& final(self).pos == old(self).pos + 1
                    } else {
                        r is None && final(self).pos == old(self).pos
                    }
                },
                None => r is None && *final(self) == *old(self),
            },
    {
        match self.index {
            Some(v) => {
                if self.pos < v.len() {
                    let r = &v[self.pos];
                    self.pos = self.pos + 1;
                    Some(r)
                } else {
                    None
                }
            },
            None => None,
        }
    }

    /// The next record from the back, if any. A fresh iterator walks the
    /// records newest first; do not mix the two directions on one iterator.
    pub fn next_back(&mut self) -> (r: Option<&'a TraceRecord>)
        requires
            old(self).index matches Some(v) ==> old(self).len == v@.len(),
        ensures
            match old(self).index {
                Some(v) => {
                    &&& final(self).index == old(self).index
                    &&& final(self).len == old(self).len
                    &&& if old(self).pos < v@.len() {
                        &&& r matches Some(x) && *x == v@[v@.len() - 1 - old(self).pos]
                        &&& final(self).pos == old(self).pos + 1
                    } else {
                        r is None && final(self).pos == old(self).pos
                    }
                },
                None => r is None && *final(self) == *old(self),
            },
    {
        match self.index {
            Some(v) => {
                if self.pos < v.len() {
                    self.pos = self.pos + 1;
                    let r = &v[self.len - self.pos];
                    Some(r)
                } else {
                    None
                }
            },
            None => None,
        }
    }
}

/// The journal after finalization: one end event is appended unless
/// finalization had already fired.
pub open spec fn finish_events(events: Seq<Event>, finalized: bool) -> Seq<Event> {
    if finalized {
        events
    } else {
        events.push(Event::End)
    }
}

/// Compares two events.
pub fn event_eq(a: Event, b: Event) -> (r: bool)
    ensures
        r == (a == b),
{
    match (a, b) {
        (Event::Start, Event::Start) => true,
        (Event::NewSpan, Event::NewSpan) => true,
        (Event::TryRecord, Event::TryRecord) => true,
        (Event::Record, Event::Record) => true,
        (Event::End, Event::End) => true,
        _ => false,
    }
}

proof fn lemma_count_bounded(s: Seq<Event>, k: Event)
    ensures
        count_of(s, k) <= s.len(),
    decreases s.len(),
{
    if s.len() > 0 {
        lemma_count_bounded(s.drop_last(), k);
    }
}

/// Record count equals distinct propagation steps: a chain that passes
/// through propagation steps no two consecutive of which share a
/// (location, name) key — the first also differing from the most recently
/// inserted record — records every one of them: one record per step.
pub proof fn lemma_distinct_steps_all_recorded(trace: Seq<TraceRecord>, recs: Seq<TraceRecord>)
    requires
        forall|i: int| 0 <= i && i + 1 < recs.len() ==> !same_key(#[trigger] recs[i + 1], recs[i]),
        recs.len() > 0 && trace.len() > 0 ==> !same_key(recs[0], trace.last()),
    ensures
        fold_inserts(trace, recs).len() == trace.len() + recs.len(),
    decreases recs.len(),
{
    if recs.len() > 0 {
        assert(insert_appends(trace, recs[0]));
        let t1 = insert_result(trace, recs[0]);
        assert(t1 == trace.push(recs[0]));
        assert(t1.last() == recs[0]);
        let rest = recs.drop_first();
        assert forall|i: int| 0 <= i && i + 1 < rest.len() implies !same_key(
            #[trigger] rest[i + 1],
            rest[i],
        ) by {
            assert(rest[i + 1] == recs[i + 2]);
            assert(rest[i] == recs[i + 1]);
        }
        if rest.len() > 0 {
            assert(rest[0] == recs[1]);
            assert(!same_key(recs[1], recs[0]));
        }
        lemma_distinct_steps_all_recorded(t1, rest);
    }
}

/// The other half of deduplication: re-traversing the identical
/// (location, name) step immediately again produces no new record.
pub proof fn lemma_duplicate_step_suppressed(trace: Seq<TraceRecord>, rec: TraceRecord)
    requires
        trace.len() > 0,
        same_key(rec, trace.last()),
    ensures
        insert_result(trace, rec) == trace,
{
}

/// Exactly-once finalization: the end event fires exactly once per
/// occurrence, whichever way the occurrence is consumed.
///
/// A well-formed journal holds one end event once the finalization flag is
/// set and none before. Finalization — through the owning span's
/// destruction, through the fallback on a detached context, or both in
/// sequence — leaves exactly one end event, and finalizing an already
/// finalized journal adds none.
pub proof fn lemma_end_fires_exactly_once(events: Seq<Event>, finalized: bool)
    requires
        count_of(events, Event::End) == if finalized {
            1nat
        } else {
            0nat
        },
    ensures
        count_of(finish_events(events, finalized), Event::End) == 1,
        count_of(finish_events(finish_events(events, finalized), true), Event::End) == 1,
{
    if !finalized {
        lemma_count_push(events, Event::End, Event::End);
    }
}

proof fn lemma_first_resolvable_iff_exists(c: TraceContext, type_id: Id, from: int)
    requires
        0 <= from,
    ensures
        (c.first_resolvable_from(type_id, from) is Some) <==> (exists|i: int|
            from <= i && c.resolves_at(i, type_id)),
    decreases c.trace@.len() - from,
{
    if from >= c.trace@.len() {
    } else if c.resolves_at(from, type_id) {
    } else {
        lemma_first_resolvable_iff_exists(c, type_id, from + 1);
        if exists|i: int| from <= i && c.resolves_at(i, type_id) {
            let i = choose|i: int| from <= i && c.resolves_at(i, type_id);
            assert(i != from);
            assert(from + 1 <= i && c.resolves_at(i, type_id));
        }
    }
}

/// Extraction correctness, connecting the two queries: an extraction
/// handle exists exactly when some record's resolvable origin is of the
/// requested type.
pub proof fn lemma_get_has_agree(c: TraceContext, type_id: Id)
    ensures
        (c.get_spec(type_id) is Some) <==> c.has_spec(type_id),
{
    lemma_first_resolvable_iff_exists(c, type_id, 0);
    if c.has_spec(type_id) {
        let i = choose|i: int| c.resolves_at(i, type_id);
        assert(0 <= i && c.resolves_at(i, type_id));
    }
}

} // verus!
