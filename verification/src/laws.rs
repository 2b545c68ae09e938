//! What holds of the workers whatever they are handed.

use crate::clock::{rfc3339_text, second_days_before, Timestamp};
use crate::codec::{all_encoded, bodies_of, first_failure, EncodedView};
use crate::config::{WorkerKind, POLL_TIMEOUT_MS};
use crate::ident::is_identifier;
use crate::notice::NoticeView;
use crate::payload::{AggregatedDataView, OutboundView, ProfileView, RequestView, ServiceRecordView};
use crate::transform::{description_text, is_batch_at, is_generated_batch, service_name_text};
use crate::worker::{
    back_to_polling, is_answer, publication_of, settle, transition, ActionView, EventView,
    PhaseView, PollOutcomeView, PublicationView, StepView,
};
use vstd::prelude::*;

verus! {

/// A generated list has exactly the length asked for, and each of its
/// records carries a well-formed identifier and the name and description
/// that the templates give for its index.
pub proof fn lemma_generated_batch_follows_templates(
    records: Seq<ServiceRecordView>,
    profile: ProfileView,
    count: nat,
    i: int,
)
    requires
        is_generated_batch(records, profile, count),
        0 <= i < count,
    ensures
        records.len() == count,
        is_identifier(records[i].id),
        records[i].service_name == service_name_text(profile.name, i as nat),
        records[i].description == description_text(profile.email, i as nat),
{
}

/// Whether `later` and `earlier` are the texts of two instants of which the
/// second lies `days` whole days before the first.
pub open spec fn days_apart(later: Seq<char>, earlier: Seq<char>, days: nat) -> bool {
    exists|secs: int, nanos: int|
        later == #[trigger] rfc3339_text(secs, nanos) && earlier == rfc3339_text(
            second_days_before(secs, days),
            nanos,
        )
}

/// In a generated list the timestamps never grow with the index: the record
/// at `j` is dated `j - i` whole days before the record at `i`.
pub proof fn lemma_timestamps_non_increasing(
    records: Seq<ServiceRecordView>,
    profile: ProfileView,
    count: nat,
    i: int,
    j: int,
)
    requires
        is_generated_batch(records, profile, count),
        0 <= i <= j < count,
    ensures
        days_apart(records[i].date, records[j].date, (j - i) as nat),
        forall|secs: int| #[trigger] second_days_before(secs, (j - i) as nat) <= secs,
{
    let base = choose|base: Timestamp|
        base.is_valid() && base.secs >= 0 && #[trigger] is_batch_at(records, profile, count, base);
    let later = second_days_before(base.secs as int, i as nat);
    assert(second_days_before(later, (j - i) as nat) == second_days_before(
        base.secs as int,
        j as nat,
    ));
    assert(records[j].date == rfc3339_text(
        second_days_before(later, (j - i) as nat),
        base.nanos as int,
    ));
}

/// The two records that answer an aggregated record are equal to it field
/// for field, and so to each other.
pub proof fn lemma_duplicates_agree(
    list_size: nat,
    data: AggregatedDataView,
    items: Seq<OutboundView>,
)
    requires
        is_answer(list_size, RequestView::Aggregated(data), items),
    ensures
        items.len() == 2,
        items[0] == OutboundView::Aggregated(data),
        items[1] == OutboundView::Aggregated(data),
        items[0] == items[1],
{
}

/// A worker that waits in vain logs one idle wait, publishes nothing and
/// polls again.
pub proof fn lemma_idle_wait_only_logs(
    kind: WorkerKind,
    list_size: usize,
    next: PhaseView,
    step: StepView,
)
    requires
        transition(
            kind,
            list_size,
            PhaseView::Polling,
            EventView::Polled(PollOutcomeView::TimedOut),
            next,
            step,
        ),
    ensures
        next == PhaseView::Polling,
        step.notices == seq![NoticeView::TimedOut],
        step.action == (ActionView::Poll { timeout_ms: POLL_TIMEOUT_MS }),
{
}

/// A message whose body turns out malformed leads to no publication: the
/// worker asks for the body to be decoded, then logs the one diagnostic and
/// polls again.
pub proof fn lemma_malformed_request_is_dropped(
    kind: WorkerKind,
    list_size: usize,
    body: Seq<u8>,
    diagnostic: Seq<char>,
    decoding: PhaseView,
    first: StepView,
    next: PhaseView,
    second: StepView,
)
    requires
        transition(
            kind,
            list_size,
            PhaseView::Polling,
            EventView::Polled(PollOutcomeView::Message(body)),
            decoding,
            first,
        ),
        transition(kind, list_size, decoding, EventView::Decoded(Err(diagnostic)), next, second),
    ensures
        first.action == (ActionView::Decode { body }),
        first.notices + second.notices == seq![NoticeView::DecodeFailed(diagnostic)],
        second.action == (ActionView::Poll { timeout_ms: POLL_TIMEOUT_MS }),
        next == PhaseView::Polling,
{
}

/// What the rules make of a sequence of events, none of which hands over a
/// request to transform: the phase at the end and the steps on the way.
pub open spec fn run(
    kind: WorkerKind,
    list_size: usize,
    phase: PhaseView,
    events: Seq<EventView>,
) -> (PhaseView, Seq<StepView>)
    decreases events.len(),
{
    if events.len() == 0 {
        (phase, Seq::empty())
    } else {
        let (next, step) = settle(kind, list_size, phase, events[0]);
        let (last, steps) = run(kind, list_size, next, events.skip(1));
        (last, seq![step] + steps)
    }
}

/// The messages that a sequence of steps asks to publish, in order.
pub open spec fn published(steps: Seq<StepView>) -> Seq<PublicationView>
    decreases steps.len(),
{
    if steps.len() == 0 {
        Seq::empty()
    } else {
        let rest = published(steps.skip(1));
        match steps[0].action {
            ActionView::Publish(publication) => seq![publication] + rest,
            _ => rest,
        }
    }
}

/// The events that report the outcomes of a row of publications.
pub open spec fn publish_events(results: Seq<Result<(), Seq<char>>>) -> Seq<EventView> {
    results.map_values(|r: Result<(), Seq<char>>| EventView::Published(r))
}

/// The messages that carry the given bodies, in order.
pub open spec fn publications_of(kind: WorkerKind, bodies: Seq<Seq<u8>>) -> Seq<PublicationView> {
    bodies.map_values(|b: Seq<u8>| publication_of(kind, b))
}

/// Once a message is on its way, every body queued behind it is published
/// too, in order, whether or not the broker session accepts the ones
/// before; then the worker polls again.
pub proof fn lemma_queue_is_drained(
    kind: WorkerKind,
    list_size: usize,
    subject: Seq<char>,
    sent: nat,
    queue: Seq<Seq<u8>>,
    results: Seq<Result<(), Seq<char>>>,
)
    requires
        results.len() == queue.len() + 1,
    ensures
        ({
            let publishing = PhaseView::Publishing { subject, sent, queue };
            let (last, steps) = run(kind, list_size, publishing, publish_events(results));
            &&& last == PhaseView::Polling
            &&& published(steps) == publications_of(kind, queue)
        }),
    decreases queue.len(),
{
    let publishing = PhaseView::Publishing { subject, sent, queue };
    let events = publish_events(results);
    let (next, step) = settle(kind, list_size, publishing, events[0]);
    let (last, steps) = run(kind, list_size, next, events.skip(1));
    assert((seq![step] + steps).skip(1) =~= steps);
    assert(events.skip(1) =~= publish_events(results.skip(1)));
    if queue.len() == 0 {
        assert(published(steps) =~= Seq::<PublicationView>::empty());
    } else {
        lemma_queue_is_drained(kind, list_size, subject, sent + 1, queue.skip(1), results.skip(1));
        assert(publications_of(kind, queue) =~= seq![publication_of(kind, queue[0])]
            + publications_of(kind, queue.skip(1)));
    }
}

/// A batch is published whole or not at all. Where every record was
/// encoded, the bodies are published one after the other, in order, each on
/// the worker's outbound topic, and a refusal holds back none of those that
/// follow; then the worker polls again. Where a record was not encoded, the
/// first diagnostic is logged, nothing is published and the worker polls
/// again.
pub proof fn lemma_batch_whole_or_withheld(
    kind: WorkerKind,
    list_size: usize,
    subject: Seq<char>,
    outcomes: Seq<EncodedView>,
    results: Seq<Result<(), Seq<char>>>,
)
    requires
        results.len() == outcomes.len(),
    ensures
        ({
            let encoding = PhaseView::Encoding { subject, expected: outcomes.len() };
            let encoded = EventView::Encoded(outcomes);
            if all_encoded(outcomes) {
                let (last, steps) = run(
                    kind,
                    list_size,
                    encoding,
                    seq![encoded] + publish_events(results),
                );
                &&& last == PhaseView::Polling
                &&& published(steps) == publications_of(kind, bodies_of(outcomes))
            } else {
                settle(kind, list_size, encoding, encoded) == back_to_polling(
                    seq![NoticeView::EncodeFailed(first_failure(outcomes))],
                )
            }
        }),
{
    let encoding = PhaseView::Encoding { subject, expected: outcomes.len() };
    let events = seq![EventView::Encoded(outcomes)] + publish_events(results);
    if all_encoded(outcomes) {
        let bodies = bodies_of(outcomes);
        let (next, step) = settle(kind, list_size, encoding, events[0]);
        let (last, steps) = run(kind, list_size, next, events.skip(1));
        assert(events.skip(1) =~= publish_events(results));
        assert((seq![step] + steps).skip(1) =~= steps);
        if bodies.len() == 0 {
            assert(published(steps) =~= Seq::<PublicationView>::empty());
        } else {
            lemma_queue_is_drained(kind, list_size, subject, 0, bodies.skip(1), results);
            assert(publications_of(kind, bodies) =~= seq![publication_of(kind, bodies[0])]
                + publications_of(kind, bodies.skip(1)));
        }
    }
}

} // verus!
