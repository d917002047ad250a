//! The sign-up handler. Its work alternates with one database round-trip, so
//! it is split in two steps around it: `subscribe` reads the form, opens the
//! request's spans and says what to insert; `finish_subscription` reads the
//! insert's result, closes the spans, and picks the HTTP status.

use vstd::prelude::*;
use crate::attributes::{Attribute, attrs_view, lookup, merged};
use crate::correlation::CorrelationContext;
use crate::persistence::{DatabaseFault, InsertCommand, InsertOutcome, detail_of, insert_cause, insert_outcome, outcome_of, status_for, status_of};
use crate::sink::{ObservabilitySink, accepts};
use crate::sources::{fresh_identifier, now_micros};
use crate::span::{SpanOutcome, SpanRegistry, SpanState, can_close, cause_view, mark_closed, severity_of, summarises, tree_ok};

verus! {

/// The fields of a sign-up form.
pub struct FormData {
    pub email: String,
    pub name: String,
}

/// Why a sign-up form was refused.
#[derive(Clone, Copy, Debug, PartialEq, Eq, Structural)]
pub enum FormRejection {
    MissingEmail,
    MissingName,
    MissingBoth,
}

impl FormRejection {
    /// A refused form is answered with 400 Bad Request.
    pub fn status(&self) -> (r: u16)
        ensures
            r == 400,
    {
        400
    }

    pub fn message(&self) -> (r: &'static str)
        ensures
            r@ == match *self {
                FormRejection::MissingEmail => "missing the email"@,
                FormRejection::MissingName => "missing the name"@,
                FormRejection::MissingBoth => "missing both name and email"@,
            },
    {
        match self {
            FormRejection::MissingEmail => "missing the email",
            FormRejection::MissingName => "missing the name",
            FormRejection::MissingBoth => "missing both name and email",
        }
    }
}

/// The value of the first field named `key` in a decoded form.
pub open spec fn form_value(pairs: Seq<(String, String)>, key: Seq<char>) -> Option<Seq<char>>
    decreases pairs.len(),
{
    if pairs.len() == 0 {
        None
    } else {
        match form_value(pairs.drop_last(), key) {
            Some(v) => Some(v),
            None => if pairs.last().0@ == key {
                Some(pairs.last().1@)
            } else {
                None
            },
        }
    }
}

/// What a decoded form gives: the email and the name, or why it is refused.
pub open spec fn form_outcome(pairs: Seq<(String, String)>) -> Result<(Seq<char>, Seq<char>), FormRejection> {
    match (form_value(pairs, "email"@), form_value(pairs, "name"@)) {
        (Some(e), Some(n)) => Ok((e, n)),
        (None, Some(_)) => Err(FormRejection::MissingEmail),
        (Some(_), None) => Err(FormRejection::MissingName),
        (None, None) => Err(FormRejection::MissingBoth),
    }
}

fn find_value(pairs: &Vec<(String, String)>, key: &str) -> (r: Option<String>)
    ensures
        match form_value(pairs@, key@) {
            Some(v) => r matches Some(s) && s@ == v,
            None => r is None,
        },
{
    let wanted = key.to_string();
    assert(wanted@ == key@);
    let mut i: usize = 0;
    while i < pairs.len()
        invariant
            i <= pairs.len(),
            wanted@ == key@,
            form_value(pairs@.take(i as int), key@) is None,
        decreases pairs.len() - i,
    {
        assert(pairs@.take(i as int + 1).drop_last() =~= pairs@.take(i as int));
        assert(pairs@.take(i as int + 1).last() == pairs@[i as int]);
        let field: &String = &pairs[i].0;
        if *field == wanted {
            assert(pairs@.take(pairs.len() as int) =~= pairs@);
            proof {
                let t = pairs@.take(i as int + 1);
                assert(form_value(t, key@) == Some(pairs@[i as int].1@));
                lemma_form_value_prefix(pairs@, i as int + 1, key@);
            }
            return Some(pairs[i].1.clone());
        }
        i += 1;
    }
    assert(pairs@.take(pairs.len() as int) =~= pairs@);
    None
}

/// Once a prefix names `key`, the whole form gives that prefix's value.
proof fn lemma_form_value_prefix(pairs: Seq<(String, String)>, n: int, key: Seq<char>)
    requires
        0 <= n <= pairs.len(),
        form_value(pairs.take(n), key) is Some,
    ensures
        form_value(pairs, key) == form_value(pairs.take(n), key),
    decreases pairs.len() - n,
{
    if n < pairs.len() {
        assert(pairs.take(n + 1).drop_last() =~= pairs.take(n));
        lemma_form_value_prefix(pairs, n + 1, key);
    } else {
        assert(pairs.take(n) =~= pairs);
    }
}

/// Reads a decoded sign-up form. Both fields are required.
pub fn parse_subscription_form(pairs: &Vec<(String, String)>) -> (r: Result<FormData, FormRejection>)
    ensures
        match form_outcome(pairs@) {
            Ok((e, n)) => r matches Ok(f) && f.email@ == e && f.name@ == n,
            Err(x) => r matches Err(y) && y == x,
        },
{
    let email = find_value(pairs, "email");
    let name = find_value(pairs, "name");
    match (email, name) {
        (Some(email), Some(name)) => Ok(FormData { email, name }),
        (None, Some(_)) => Err(FormRejection::MissingEmail),
        (Some(_), None) => Err(FormRejection::MissingName),
        (None, None) => Err(FormRejection::MissingBoth),
    }
}

/// A sign-up waiting for its insert: the request's two open spans, its
/// correlation identifier, and the row to write.
pub struct PendingInsert {
    pub root: usize,
    pub child: usize,
    pub request_id: u128,
    pub command: InsertCommand,
}

pub enum SubscribeStep {
    /// The form was refused before any span was opened.
    Rejected(FormRejection),
    /// The row to insert; the result goes to `finish_subscription`.
    Insert(PendingInsert),
}

/// An attribute set names the subscriber of `c`.
pub open spec fn tagged(attrs: Seq<(Seq<char>, Seq<char>)>, c: InsertCommand) -> bool {
    &&& lookup(attrs, "subscriber_email"@) == Some(c.email@)
    &&& lookup(attrs, "subscriber_name"@) == Some(c.name@)
}

/// The spans of `p` stand in `spans`, belong to its request, and name its
/// subscriber.
pub open spec fn in_flight(p: PendingInsert, spans: Seq<SpanState>) -> bool {
    &&& p.root < p.child < spans.len()
    &&& spans[p.child as int].parent == Some(p.root as nat)
    &&& spans[p.root as int].request_id == p.request_id
    &&& spans[p.child as int].request_id == p.request_id
    &&& tagged(spans[p.root as int].attributes, p.command)
    &&& tagged(spans[p.child as int].attributes, p.command)
}

/// `a` and `b` are one span, perhaps closed in between.
pub open spec fn same_span(a: SpanState, b: SpanState) -> bool {
    &&& a.name == b.name
    &&& a.parent == b.parent
    &&& a.request_id == b.request_id
    &&& a.attributes == b.attributes
    &&& a.started_at == b.started_at
}

/// `after` keeps every span of `before`, changing at most whether it is closed.
pub open spec fn preserves_spans(before: Seq<SpanState>, after: Seq<SpanState>) -> bool {
    &&& before.len() <= after.len()
    &&& forall|i: int| 0 <= i < before.len() ==> same_span(#[trigger] before[i], after[i])
}

pub open spec fn span_outcome(o: InsertOutcome) -> SpanOutcome {
    match o {
        InsertOutcome::Success => SpanOutcome::Success,
        InsertOutcome::Failure(k) => SpanOutcome::Failure(k),
    }
}

/// First step of a sign-up. A form without both fields is refused with no
/// span opened. Otherwise the request gets a fresh correlation identifier, a
/// root span named for the sign-up and tagged with the subscriber, a child
/// span for the insert, and exactly one row to write, holding the form's email
/// and name. The correlation and row identifiers are version-4 UUIDs.
pub fn subscribe(reg: &mut SpanRegistry, pairs: &Vec<(String, String)>) -> (r: SubscribeStep)
    requires
        old(reg).wf(),
        tree_ok(old(reg)@),
    ensures
        final(reg).wf(),
        tree_ok(final(reg)@),
        preserves_spans(old(reg)@, final(reg)@),
        match form_outcome(pairs@) {
            Err(x) => r matches SubscribeStep::Rejected(y) && y == x && final(reg)@ == old(reg)@,
            Ok((e, n)) => r matches SubscribeStep::Insert(p) && {
                &&& p.command.email@ == e
                &&& p.command.name@ == n
                &&& p.command.subscribed_at >= 0
                &&& (p.command.id >> 76u128) & 0xfu128 == 4
                &&& (p.request_id >> 76u128) & 0xfu128 == 4
                &&& in_flight(p, final(reg)@)
                &&& final(reg)@.len() == old(reg)@.len() + 2
                &&& can_close(final(reg)@, p.root as int)
                &&& can_close(final(reg)@, p.child as int)
            },
        },
{
    let form = match parse_subscription_form(pairs) {
        Ok(f) => f,
        Err(x) => {
            return SubscribeStep::Rejected(x);
        },
    };
    let ghost before = reg@;
    let mut tags: Vec<Attribute> = Vec::new();
    tags.push(Attribute::new("subscriber_email", form.email.as_str()));
    tags.push(Attribute::new("subscriber_name", form.name.as_str()));
    let ghost tv = attrs_view(tags@);
    let context = CorrelationContext::new_for_request(tags);
    let now = now_micros();
    let root = reg.open_root("adding a new subscriber", &context, now);
    let child = reg.open_child("saving subscriber details", root, &Vec::new(), now);
    let command = InsertCommand { id: fresh_identifier(), email: form.email, name: form.name, subscribed_at: now };
    let p = PendingInsert { root, child, request_id: context.request_id(), command };
    proof {
        reveal_strlit("subscriber_email");
        reveal_strlit("subscriber_name");
        reveal_with_fuel(lookup, 3);
        let ra = reg@[root as int].attributes;
        assert(ra == tv);
        assert("subscriber_email"@.len() == 16);
        assert("subscriber_name"@.len() == 15);
        assert(ra[1].0 != ra[0].0);
        assert(ra.drop_last().drop_last().len() == 0);
        assert(lookup(reg@[child as int].attributes, "subscriber_email"@) == merged(ra, Seq::empty(), "subscriber_email"@));
        assert(lookup(reg@[child as int].attributes, "subscriber_name"@) == merged(ra, Seq::empty(), "subscriber_name"@));
        assert(reg@[root as int] == reg@.take(child as int)[root as int]);
        assert forall|i: int| 0 <= i < before.len() implies same_span(#[trigger] before[i], reg@[i]) by {
            assert(reg@.take(child as int)[i] == reg@[i]);
        }
    }
    SubscribeStep::Insert(p)
}

/// Second step of a sign-up, once the insert has run. The insert's span
/// closes, then the request's span, each with the outcome, and their summary
/// events go to the sink; on failure each carries the database error's full
/// description, which the client never sees. The answer is 200 when the row was written and 500
/// otherwise; a span that cannot be closed never changes the answer.
pub fn finish_subscription(
    reg: &mut SpanRegistry,
    sink: &mut ObservabilitySink,
    pending: &PendingInsert,
    result: &Result<(), DatabaseFault>,
) -> (status: u16)
    requires
        old(reg).wf(),
        tree_ok(old(reg)@),
        in_flight(*pending, old(reg)@),
    ensures
        status == status_of(insert_outcome(*result)),
        final(reg).wf(),
        tree_ok(final(reg)@),
        final(reg)@ == mark_closed(mark_closed(old(reg)@, pending.child as int), pending.root as int),
        preserves_spans(old(reg)@, final(reg)@),
        in_flight(*pending, final(reg)@),
        final(sink)@.initialized == old(sink)@.initialized,
        final(sink)@.min_severity == old(sink)@.min_severity,
        final(sink)@.destination == old(sink)@.destination,
        final(sink)@.pending.take(old(sink)@.pending.len() as int) == old(sink)@.pending,
        forall|j: int|
            old(sink)@.pending.len() <= j < final(sink)@.pending.len() ==> {
                let ev = #[trigger] final(sink)@.pending[j];
                &&& ev.request_id == pending.request_id
                &&& tagged(attrs_view(ev.attributes@), pending.command)
                &&& ev.outcome == span_outcome(insert_outcome(*result))
                &&& cause_view(ev.cause) == insert_cause(*result)
            },
        ({
            let o = span_outcome(insert_outcome(*result));
            let n = old(sink)@.pending.len() as int;
            let by_child = can_close(old(reg)@, pending.child as int) && accepts(old(sink)@, severity_of(o));
            let by_root = can_close(old(reg)@, pending.root as int) && accepts(old(sink)@, severity_of(o));
            let m = if by_child { n + 1 } else { n };
            &&& final(sink)@.pending.len() == if by_root { m + 1 } else { m }
            &&& by_child ==> summarises(final(sink)@.pending[n], old(reg)@[pending.child as int], pending.child as int, o)
            &&& by_root ==> summarises(final(sink)@.pending[m], old(reg)@[pending.root as int], pending.root as int, o)
        }),
{
    let outcome = outcome_of(result);
    let so = match outcome {
        InsertOutcome::Success => SpanOutcome::Success,
        InsertOutcome::Failure(k) => SpanOutcome::Failure(k),
    };
    let cause = match result {
        Ok(()) => None,
        Err(f) => Some(detail_of(f).clone()),
    };
    let ghost r0 = reg@;
    let ghost s0 = sink@;
    let ended = now_micros();
    match reg.close(pending.child, so, &cause, ended) {
        Ok(ev) => {
            sink.emit(ev);
        },
        Err(_) => {},
    }
    let ghost r1 = reg@;
    let ghost s1 = sink@;
    assert(s1.pending.take(s0.pending.len() as int) =~= s0.pending);
    let ended = now_micros();
    match reg.close(pending.root, so, &cause, ended) {
        Ok(ev) => {
            sink.emit(ev);
        },
        Err(_) => {},
    }
    proof {
        assert(r1[pending.root as int] == r0[pending.root as int]);
        assert(sink@.pending.take(s0.pending.len() as int) =~= s0.pending);
        assert(sink@.pending.take(s1.pending.len() as int) =~= s1.pending);
        assert forall|i: int| 0 <= i < r0.len() implies same_span(#[trigger] r0[i], reg@[i]) by {
            assert(r1[i].parent == r0[i].parent);
        }
    }
    status_for(outcome)
}

/// Interleaving is harmless: whatever other requests do to the shared
/// registry in the meantime (open their own spans, close spans), the spans
/// of a sign-up in flight still belong to its request and still name its own
/// subscriber, so the events they emit carry only its values.
pub proof fn lemma_other_requests_keep_tags(p: PendingInsert, before: Seq<SpanState>, after: Seq<SpanState>)
    requires
        in_flight(p, before),
        preserves_spans(before, after),
    ensures
        in_flight(p, after),
{
    assert(same_span(before[p.root as int], after[p.root as int]));
    assert(same_span(before[p.child as int], after[p.child as int]));
}

/// A form that holds both fields is accepted with exactly those values, and
/// once its single row is written the answer is 200.
pub proof fn lemma_complete_form_is_accepted(pairs: Seq<(String, String)>, e: Seq<char>, n: Seq<char>)
    requires
        form_value(pairs, "email"@) == Some(e),
        form_value(pairs, "name"@) == Some(n),
    ensures
        form_outcome(pairs) == Ok::<(Seq<char>, Seq<char>), FormRejection>((e, n)),
        status_of(insert_outcome(Ok(()))) == 200,
{
}

/// A form that lacks the email, the name, or both is refused, so nothing is
/// inserted, and the answer is 400.
pub proof fn lemma_incomplete_form_is_refused(pairs: Seq<(String, String)>)
    requires
        form_value(pairs, "email"@) is None || form_value(pairs, "name"@) is None,
    ensures
        form_outcome(pairs) is Err,
        form_value(pairs, "email"@) is None && form_value(pairs, "name"@) is None ==> form_outcome(pairs)
            == Err::<(Seq<char>, Seq<char>), FormRejection>(FormRejection::MissingBoth),
{
}

} // verus!
