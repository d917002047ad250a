//! Spans: named units of work that form one tree per request. A span's
//! identity travels as an explicit index, never as worker-local state, so a
//! request that suspends and resumes elsewhere keeps its own spans.

use vstd::prelude::*;
use crate::attributes::{Attribute, attrs_view, copy_attributes, lookup, merge_attributes, merged};
use crate::correlation::CorrelationContext;
use crate::persistence::FailureKind;
use crate::sink::Severity;

verus! {

/// What a span reports when it closes.
#[derive(Clone, Copy, Debug, PartialEq, Eq, Structural)]
pub enum SpanOutcome {
    Unspecified,
    Success,
    Failure(FailureKind),
}

#[derive(Clone, Copy, Debug, PartialEq, Eq, Structural)]
pub enum CloseMisuse {
    UnknownSpan,
    AlreadyClosed,
}

/// The abstract state of one span.
pub struct SpanState {
    pub name: Seq<char>,
    pub parent: Option<nat>,
    pub request_id: u128,
    pub attributes: Seq<(Seq<char>, Seq<char>)>,
    pub started_at: i64,
    pub closed: bool,
}

/// The event a span emits when it closes.
pub struct SummaryEvent {
    pub span: usize,
    pub name: String,
    pub request_id: u128,
    pub attributes: Vec<Attribute>,
    pub severity: Severity,
    pub outcome: SpanOutcome,
    pub started_at: i64,
    pub ended_at: i64,
    /// What caused a failure, in full; none when the span reports no cause.
    pub cause: Option<String>,
}

pub open spec fn cause_view(c: Option<String>) -> Option<Seq<char>> {
    match c {
        Some(s) => Some(s@),
        None => None,
    }
}

pub open spec fn severity_of(outcome: SpanOutcome) -> Severity {
    match outcome {
        SpanOutcome::Failure(_) => Severity::Error,
        _ => Severity::Info,
    }
}

/// `ev` reports span `id`, in state `s`, closing with `outcome`.
pub open spec fn summarises(ev: SummaryEvent, s: SpanState, id: int, outcome: SpanOutcome) -> bool {
    &&& ev.span == id
    &&& ev.name@ == s.name
    &&& ev.request_id == s.request_id
    &&& attrs_view(ev.attributes@) == s.attributes
    &&& ev.severity == severity_of(outcome)
    &&& ev.outcome == outcome
    &&& ev.started_at == s.started_at
}

impl SummaryEvent {
    /// The time between opening and closing, in microseconds; zero if the
    /// clock went back.
    pub fn duration_micros(&self) -> (r: u64)
        ensures
            r == if self.ended_at >= self.started_at { self.ended_at - self.started_at } else { 0 },
    {
        if self.ended_at >= self.started_at {
            (self.ended_at as i128 - self.started_at as i128) as u64
        } else {
            0
        }
    }
}

/// Every span's parent was opened before it, and a span belongs to the same
/// request as its parent.
pub open spec fn tree_ok(spans: Seq<SpanState>) -> bool {
    forall|i: int|
        0 <= i < spans.len() && (#[trigger] spans[i]).parent is Some ==> {
            let p = spans[i].parent->0 as int;
            &&& p < i
            &&& spans[i].request_id == spans[p].request_id
        }
}

pub open spec fn can_close(spans: Seq<SpanState>, id: int) -> bool {
    0 <= id < spans.len() && !spans[id].closed
}

/// The spans after closing span `id`; closing only works once.
pub open spec fn mark_closed(spans: Seq<SpanState>, id: int) -> Seq<SpanState> {
    if can_close(spans, id) {
        spans.update(id, SpanState { closed: true, ..spans[id] })
    } else {
        spans
    }
}

/// The root of the tree that span `i` belongs to.
pub open spec fn root_of(spans: Seq<SpanState>, i: int) -> int
    decreases i,
{
    if tree_ok(spans) && 0 <= i < spans.len() && spans[i].parent is Some && (spans[i].parent->0 as int) < i {
        root_of(spans, spans[i].parent->0 as int)
    } else {
        i
    }
}

struct SpanRecord {
    name: String,
    parent: Option<usize>,
    request_id: u128,
    attributes: Vec<Attribute>,
    started_at: i64,
}

spec fn parent_view(p: Option<usize>) -> Option<nat> {
    match p {
        Some(x) => Some(x as nat),
        None => None,
    }
}

/// All spans opened so far. A span is named by its index.
pub struct SpanRegistry {
    records: Vec<SpanRecord>,
    closed: Vec<bool>,
}

impl View for SpanRegistry {
    type V = Seq<SpanState>;

    closed spec fn view(&self) -> Seq<SpanState> {
        Seq::new(
            self.records@.len(),
            |i: int|
                SpanState {
                    name: self.records@[i].name@,
                    parent: parent_view(self.records@[i].parent),
                    request_id: self.records@[i].request_id,
                    attributes: attrs_view(self.records@[i].attributes@),
                    started_at: self.records@[i].started_at,
                    closed: self.closed@[i],
                },
        )
    }
}

impl SpanRegistry {
    /// The registry's internal bookkeeping is consistent.
    pub closed spec fn wf(&self) -> bool {
        self.records@.len() == self.closed@.len()
    }

    pub fn new() -> (r: Self)
        ensures
            r.wf(),
            r@ == Seq::<SpanState>::empty(),
    {
        let r = SpanRegistry { records: Vec::new(), closed: Vec::new() };
        assert(r@ =~= Seq::<SpanState>::empty());
        r
    }

    pub fn len(&self) -> (r: usize)
        ensures
            r == self@.len(),
    {
        self.records.len()
    }

    pub fn is_closed(&self, id: usize) -> (r: bool)
        requires
            self.wf(),
            id < self@.len(),
        ensures
            r == self@[id as int].closed,
    {
        self.closed[id]
    }

    /// Opens the root span of a request; it carries the request's identifier
    /// and attributes.
    pub fn open_root(&mut self, name: &str, context: &CorrelationContext, started_at: i64) -> (id: usize)
        requires
            old(self).wf(),
            tree_ok(old(self)@),
        ensures
            id == old(self)@.len(),
            final(self)@ == old(self)@.push(
                SpanState {
                    name: name@,
                    parent: None,
                    request_id: context@.0,
                    attributes: context@.1,
                    started_at,
                    closed: false,
                },
            ),
            final(self).wf(),
            tree_ok(final(self)@),
    {
        let ghost before = self@;
        let id = self.records.len();
        let rec = SpanRecord {
            name: name.to_string(),
            parent: None,
            request_id: context.request_id(),
            attributes: copy_attributes(context.attributes()),
            started_at,
        };
        self.records.push(rec);
        self.closed.push(false);
        assert(self@ =~= before.push(
            SpanState {
                name: name@,
                parent: None,
                request_id: context@.0,
                attributes: context@.1,
                started_at,
                closed: false,
            },
        ));
        id
    }

    /// Opens a span under `parent`: it belongs to the parent's request, and
    /// its attributes are the parent's merged with `supplied`, whose values
    /// win on a shared name.
    pub fn open_child(&mut self, name: &str, parent: usize, supplied: &Vec<Attribute>, started_at: i64) -> (id: usize)
        requires
            old(self).wf(),
            tree_ok(old(self)@),
            parent < old(self)@.len(),
        ensures
            id == old(self)@.len(),
            final(self)@.len() == old(self)@.len() + 1,
            final(self)@.take(id as int) == old(self)@,
            final(self)@[id as int].name == name@,
            final(self)@[id as int].parent == Some(parent as nat),
            final(self)@[id as int].request_id == old(self)@[parent as int].request_id,
            final(self)@[id as int].started_at == started_at,
            !final(self)@[id as int].closed,
            forall|k: Seq<char>|
                #[trigger] lookup(final(self)@[id as int].attributes, k) == merged(
                    old(self)@[parent as int].attributes,
                    attrs_view(supplied@),
                    k,
                ),
            final(self).wf(),
            tree_ok(final(self)@),
    {
        let ghost before = self@;
        let id = self.records.len();
        let attributes = merge_attributes(&self.records[parent].attributes, supplied);
        let rec = SpanRecord {
            name: name.to_string(),
            parent: Some(parent),
            request_id: self.records[parent].request_id,
            attributes,
            started_at,
        };
        self.records.push(rec);
        self.closed.push(false);
        assert(self@.take(id as int) =~= before);
        assert forall|i: int| 0 <= i < self@.len() && (#[trigger] self@[i]).parent is Some implies {
            let p = self@[i].parent->0 as int;
            &&& p < i
            &&& self@[i].request_id == self@[p].request_id
        } by {
            if i < id {
                assert(self@[i] == before[i]);
                let p = before[i].parent->0 as int;
                assert(self@[p] == before[p]);
            }
        }
        id
    }

    /// Closes span `id` and returns its summary event, which carries `cause`. Closing an unknown
    /// span, or one already closed, is reported and changes nothing.
    pub fn close(&mut self, id: usize, outcome: SpanOutcome, cause: &Option<String>, ended_at: i64) -> (r: Result<SummaryEvent, CloseMisuse>)
        requires
            old(self).wf(),
            tree_ok(old(self)@),
        ensures
            final(self).wf(),
            final(self)@ == mark_closed(old(self)@, id as int),
            tree_ok(final(self)@),
            r is Ok <==> can_close(old(self)@, id as int),
            r matches Ok(ev) ==> summarises(ev, old(self)@[id as int], id as int, outcome) && ev.ended_at
                == ended_at && cause_view(ev.cause) == cause_view(*cause),
            r == Err::<SummaryEvent, CloseMisuse>(CloseMisuse::UnknownSpan) <==> id >= old(self)@.len(),
            r == Err::<SummaryEvent, CloseMisuse>(CloseMisuse::AlreadyClosed) <==> id < old(self)@.len()
                && old(self)@[id as int].closed,
    {
        let ghost before = self@;
        if id >= self.records.len() {
            return Err(CloseMisuse::UnknownSpan);
        }
        if self.closed[id] {
            return Err(CloseMisuse::AlreadyClosed);
        }
        self.closed.set(id, true);
        assert(self@ =~= mark_closed(before, id as int));
        assert forall|i: int| 0 <= i < self@.len() && (#[trigger] self@[i]).parent is Some implies {
            let p = self@[i].parent->0 as int;
            &&& p < i
            &&& self@[i].request_id == self@[p].request_id
        } by {
            assert(before[i].parent == self@[i].parent);
            let p = before[i].parent->0 as int;
            assert(self@[p].request_id == before[p].request_id);
        }
        let rec = &self.records[id];
        let severity = match outcome {
            SpanOutcome::Failure(_) => Severity::Error,
            _ => Severity::Info,
        };
        let cause = match cause {
            Some(c) => Some(c.clone()),
            None => None,
        };
        Ok(SummaryEvent {
            span: id,
            name: rec.name.clone(),
            request_id: rec.request_id,
            attributes: copy_attributes(&rec.attributes),
            severity,
            outcome,
            started_at: rec.started_at,
            ended_at,
            cause,
        })
    }
}

/// A span closes at most once: after the first close it can no longer be
/// closed, so `close` reports any later call as misuse and emits no second
/// summary event; closing again leaves the spans as they were.
pub proof fn lemma_close_at_most_once(spans: Seq<SpanState>, id: int)
    ensures
        !can_close(mark_closed(spans, id), id),
        mark_closed(mark_closed(spans, id), id) == mark_closed(spans, id),
{
}

/// Every span carries the correlation identifier of the root of its tree, so
/// each event can be traced to the request that opened the tree.
pub proof fn lemma_span_shares_root_request(spans: Seq<SpanState>, i: int)
    requires
        tree_ok(spans),
        0 <= i < spans.len(),
    ensures
        0 <= root_of(spans, i) <= i,
        spans[root_of(spans, i)].parent is None,
        spans[root_of(spans, i)].request_id == spans[i].request_id,
    decreases i,
{
    if spans[i].parent is Some {
        let p = spans[i].parent->0 as int;
        assert(p < i);
        lemma_span_shares_root_request(spans, p);
    }
}

} // verus!
