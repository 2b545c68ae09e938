//! The worker's cycle as a machine: it is handed the outcome of the action
//! it asked for last, and answers with what to log and what to do next.
//!
//! The program around it performs the actions: it waits on the broker,
//! turns bodies into records and back, and publishes. The machine decides.

use crate::codec::{
    body_views, collect_bodies, collected, encoded_views, DecodeError, Encoded, EncodedView,
};
use crate::config::{
    session_plan, session_plan_of, QoS, SessionPlan, SessionPlanView, WorkerKind, POLL_TIMEOUT_MS,
};
use crate::notice::{notice_views, Notice, NoticeView};
use crate::payload::{
    outbound_views, AggregatedData, Outbound, OutboundView, Request, RequestView,
};
use crate::transform::{duplicate, is_generated_batch, respond, DUPLICATES, MAX_LIST_SIZE};
use vstd::prelude::*;

verus! {

/// What one bounded wait on the broker session brought.
#[derive(Debug, PartialEq, Eq)]
pub enum PollOutcome {
    /// A message on the subscribed topic, with its body.
    Message(Vec<u8>),
    /// Any other broker event.
    Other,
    /// The session reported an error.
    Failed(String),
    /// Nothing came within the wait.
    TimedOut,
}

/// What a [`PollOutcome`] holds.
pub enum PollOutcomeView {
    Message(Seq<u8>),
    Other,
    Failed(Seq<char>),
    TimedOut,
}

impl View for PollOutcome {
    type V = PollOutcomeView;

    open spec fn view(&self) -> PollOutcomeView {
        match self {
            PollOutcome::Message(body) => PollOutcomeView::Message(body@),
            PollOutcome::Other => PollOutcomeView::Other,
            PollOutcome::Failed(e) => PollOutcomeView::Failed(e@),
            PollOutcome::TimedOut => PollOutcomeView::TimedOut,
        }
    }
}

/// The outcome of an action, handed back to the machine.
#[derive(Debug, PartialEq, Eq)]
pub enum Event {
    /// The session is open and the subscription is made.
    Opened,
    /// The wait on the broker ended.
    Polled(PollOutcome),
    /// The body was decoded, or was found malformed.
    Decoded(Result<Request, DecodeError>),
    /// The batch was encoded, record by record, in order.
    Encoded(Vec<Encoded>),
    /// The message was handed to the broker session, or refused by it.
    Published(Result<(), String>),
}

/// What an [`Event`] holds.
pub enum EventView {
    Opened,
    Polled(PollOutcomeView),
    Decoded(Result<RequestView, Seq<char>>),
    Encoded(Seq<EncodedView>),
    Published(Result<(), Seq<char>>),
}

impl View for Event {
    type V = EventView;

    open spec fn view(&self) -> EventView {
        match self {
            Event::Opened => EventView::Opened,
            Event::Polled(outcome) => EventView::Polled(outcome@),
            Event::Decoded(Ok(request)) => EventView::Decoded(Ok(request@)),
            Event::Decoded(Err(e)) => EventView::Decoded(Err(e@)),
            Event::Encoded(outcomes) => EventView::Encoded(encoded_views(outcomes@)),
            Event::Published(Ok(_)) => EventView::Published(Ok(())),
            Event::Published(Err(e)) => EventView::Published(Err(e@)),
        }
    }
}

/// One message for the broker.
#[derive(Debug, PartialEq, Eq)]
pub struct Publication {
    pub topic: String,
    pub qos: QoS,
    pub retain: bool,
    pub payload: Vec<u8>,
}

/// What a [`Publication`] holds.
pub struct PublicationView {
    pub topic: Seq<char>,
    pub qos: QoS,
    pub retain: bool,
    pub payload: Seq<u8>,
}

impl View for Publication {
    type V = PublicationView;

    open spec fn view(&self) -> PublicationView {
        PublicationView {
            topic: self.topic@,
            qos: self.qos,
            retain: self.retain,
            payload: self.payload@,
        }
    }
}

/// What the machine asks for next.
#[derive(Debug, PartialEq, Eq)]
pub enum Action {
    /// Open the session with the broker and subscribe, as the plan says.
    Open(SessionPlan),
    /// Wait for the next broker event, no longer than `timeout_ms`.
    Poll { timeout_ms: u64 },
    /// Decode the body of a request.
    Decode { body: Vec<u8> },
    /// Encode each record of the batch.
    Encode { items: Vec<Outbound> },
    /// Publish the message.
    Publish(Publication),
}

/// What an [`Action`] holds.
pub enum ActionView {
    Open(SessionPlanView),
    Poll { timeout_ms: u64 },
    Decode { body: Seq<u8> },
    Encode { items: Seq<OutboundView> },
    Publish(PublicationView),
}

impl View for Action {
    type V = ActionView;

    open spec fn view(&self) -> ActionView {
        match self {
            Action::Open(plan) => ActionView::Open(plan@),
            Action::Poll { timeout_ms } => ActionView::Poll { timeout_ms: *timeout_ms },
            Action::Decode { body } => ActionView::Decode { body: body@ },
            Action::Encode { items } => ActionView::Encode { items: outbound_views(items@) },
            Action::Publish(publication) => ActionView::Publish(publication@),
        }
    }
}

/// The machine's answer to an event: what to log, then what to do.
#[derive(Debug, PartialEq, Eq)]
pub struct Step {
    pub notices: Vec<Notice>,
    pub action: Action,
}

/// What a [`Step`] holds.
pub struct StepView {
    pub notices: Seq<NoticeView>,
    pub action: ActionView,
}

impl View for Step {
    type V = StepView;

    open spec fn view(&self) -> StepView {
        StepView { notices: notice_views(self.notices@), action: self.action@ }
    }
}

/// Where in its cycle a worker stands.
#[derive(Debug, PartialEq, Eq)]
pub enum Phase {
    /// Waiting for the session to be opened.
    Starting,
    /// Waiting for the next broker event.
    Polling,
    /// Waiting for a request to be decoded.
    Decoding,
    /// Waiting for a batch of `expected` records to be encoded, for the
    /// request that `subject` identifies.
    Encoding { subject: String, expected: usize },
    /// Waiting for a message to be published; `sent` went before it and
    /// `queue` comes after it.
    Publishing { subject: String, sent: usize, queue: Vec<Vec<u8>> },
}

/// What a [`Phase`] holds.
pub enum PhaseView {
    Starting,
    Polling,
    Decoding,
    Encoding { subject: Seq<char>, expected: nat },
    Publishing { subject: Seq<char>, sent: nat, queue: Seq<Seq<u8>> },
}

impl View for Phase {
    type V = PhaseView;

    open spec fn view(&self) -> PhaseView {
        match self {
            Phase::Starting => PhaseView::Starting,
            Phase::Polling => PhaseView::Polling,
            Phase::Decoding => PhaseView::Decoding,
            Phase::Encoding { subject, expected } => PhaseView::Encoding {
                subject: subject@,
                expected: *expected as nat,
            },
            Phase::Publishing { subject, sent, queue } => PhaseView::Publishing {
                subject: subject@,
                sent: *sent as nat,
                queue: body_views(queue@),
            },
        }
    }
}

/// The step with which a worker begins: it reports that it starts and asks
/// for its session, under its own client identifier and with its one
/// subscription.
pub open spec fn opening(kind: WorkerKind) -> StepView {
    StepView {
        notices: seq![NoticeView::Started],
        action: ActionView::Open(session_plan_of(kind)),
    }
}

/// What a worker reports once its session is open: a record-generation
/// worker the length of its lists, a duplication worker nothing.
pub open spec fn settings_notices(kind: WorkerKind, list_size: usize) -> Seq<NoticeView> {
    match kind {
        WorkerKind::RecordGeneration => seq![NoticeView::ListSize(list_size)],
        WorkerKind::Duplication => Seq::empty(),
    }
}

/// The step that ends a cycle: the notices are logged and the worker waits
/// for the next broker event.
pub open spec fn back_to_polling(notices: Seq<NoticeView>) -> (PhaseView, StepView) {
    (
        PhaseView::Polling,
        StepView { notices, action: ActionView::Poll { timeout_ms: POLL_TIMEOUT_MS } },
    )
}

/// The message that carries `body` from a worker of the given kind: on the
/// worker's outbound topic, delivered at least once, not retained.
pub open spec fn publication_of(kind: WorkerKind, body: Seq<u8>) -> PublicationView {
    PublicationView {
        topic: kind.response_topic_text(),
        qos: QoS::AtLeastOnce,
        retain: false,
        payload: body,
    }
}

/// The step that goes on with a batch of which `sent` messages are done:
/// the head of `queue` is published next; with nothing left the cycle ends.
pub open spec fn publish_from(
    kind: WorkerKind,
    subject: Seq<char>,
    sent: nat,
    queue: Seq<Seq<u8>>,
    notices: Seq<NoticeView>,
) -> (PhaseView, StepView) {
    if queue.len() == 0 {
        back_to_polling(notices)
    } else {
        (
            PhaseView::Publishing { subject, sent, queue: queue.skip(1) },
            StepView { notices, action: ActionView::Publish(publication_of(kind, queue[0])) },
        )
    }
}

/// The notice for the outcome of publishing the `ordinal`-th message.
pub open spec fn report_of(
    result: Result<(), Seq<char>>,
    ordinal: nat,
    subject: Seq<char>,
) -> NoticeView {
    match result {
        Ok(_) => NoticeView::Published { ordinal, subject },
        Err(e) => NoticeView::PublishFailed(e),
    }
}

/// Whether a request has the shape that a worker of the given kind serves.
pub open spec fn accepts(kind: WorkerKind, request: RequestView) -> bool {
    match (kind, request) {
        (WorkerKind::RecordGeneration, RequestView::Profile(_)) => true,
        (WorkerKind::Duplication, RequestView::Aggregated(_)) => true,
        _ => false,
    }
}

/// The field that identifies a request: the email of its profile.
pub open spec fn subject_of(request: RequestView) -> Seq<char> {
    match request {
        RequestView::Profile(profile) => profile.email,
        RequestView::Aggregated(data) => data.profile.email,
    }
}

/// Whether `items` is a batch that answers `request`: for a profile, one
/// response that pairs its email with `list_size` generated records; for an
/// aggregated record, two unchanged copies of it.
pub open spec fn is_answer(list_size: nat, request: RequestView, items: Seq<OutboundView>) -> bool {
    match request {
        RequestView::Profile(profile) => {
            &&& items.len() == 1
            &&& items[0] is Services
            &&& items[0]->Services_0.email == profile.email
            &&& is_generated_batch(items[0]->Services_0.services, profile, list_size)
        },
        RequestView::Aggregated(data) => {
            &&& items.len() == DUPLICATES
            &&& forall|i: int|
                0 <= i < items.len() ==> #[trigger] items[i] == OutboundView::Aggregated(data)
        },
    }
}

/// Whether the event hands a worker a request of its own shape while it
/// waits for one: the one step whose outcome the clock and chance take
/// part in.
pub open spec fn starts_batch(kind: WorkerKind, phase: PhaseView, event: EventView) -> bool {
    &&& phase is Decoding
    &&& event is Decoded
    &&& event->Decoded_0 is Ok
    &&& accepts(kind, event->Decoded_0->Ok_0)
}

/// The machine's rules, but for the step that transforms a request (see
/// [`starts_batch`]): the phase it enters and the step it answers with.
///
/// * While starting: once the session is open the worker reports its
///   settings and polls. Any other event leaves it starting, and it asks
///   for the session again.
/// * While polling: a message goes to decoding; any other broker event is
///   passed over in silence; an error or an idle wait is logged. The worker
///   polls again.
/// * While decoding: a malformed body is logged and dropped.
/// * While encoding: a batch counts only whole. Where every record was
///   encoded the first body is published and the rest queued; where one
///   was not, the first diagnostic is logged and nothing is published.
/// * While publishing: the outcome is logged, a refusal too, and the next
///   body of the queue is published; after the last the worker polls again.
/// * An event that answers no pending action ends the cycle with a notice.
pub open spec fn settle(
    kind: WorkerKind,
    list_size: usize,
    phase: PhaseView,
    event: EventView,
) -> (PhaseView, StepView) {
    match (phase, event) {
        (PhaseView::Starting, EventView::Opened) => back_to_polling(
            settings_notices(kind, list_size),
        ),
        (PhaseView::Starting, _) => (
            PhaseView::Starting,
            StepView {
                notices: seq![NoticeView::OutOfTurn],
                action: ActionView::Open(session_plan_of(kind)),
            },
        ),
        (PhaseView::Polling, EventView::Polled(PollOutcomeView::Message(body))) => (
            PhaseView::Decoding,
            StepView { notices: Seq::empty(), action: ActionView::Decode { body } },
        ),
        (PhaseView::Polling, EventView::Polled(PollOutcomeView::Other)) => back_to_polling(
            Seq::empty(),
        ),
        (PhaseView::Polling, EventView::Polled(PollOutcomeView::Failed(e))) => back_to_polling(
            seq![NoticeView::PollFailed(e)],
        ),
        (PhaseView::Polling, EventView::Polled(PollOutcomeView::TimedOut)) => back_to_polling(
            seq![NoticeView::TimedOut],
        ),
        (PhaseView::Decoding, EventView::Decoded(Err(e))) => back_to_polling(
            seq![NoticeView::DecodeFailed(e)],
        ),
        (PhaseView::Encoding { subject, expected }, EventView::Encoded(outcomes)) => {
            if outcomes.len() != expected {
                back_to_polling(seq![NoticeView::OutOfTurn])
            } else {
                match collected(outcomes) {
                    Ok(bodies) => publish_from(kind, subject, 0, bodies, Seq::empty()),
                    Err(e) => back_to_polling(seq![NoticeView::EncodeFailed(e)]),
                }
            }
        },
        (PhaseView::Publishing { subject, sent, queue }, EventView::Published(result)) => {
            publish_from(kind, subject, sent + 1, queue, seq![report_of(result, sent + 1, subject)])
        },
        _ => back_to_polling(seq![NoticeView::OutOfTurn]),
    }
}

/// Whether a worker that stands in `phase` may answer `event` by entering
/// `next` with `step`. The rules of [`settle`] leave one answer; where a
/// request is transformed, every batch that answers it is one.
pub open spec fn transition(
    kind: WorkerKind,
    list_size: usize,
    phase: PhaseView,
    event: EventView,
    next: PhaseView,
    step: StepView,
) -> bool {
    if starts_batch(kind, phase, event) {
        let request = event->Decoded_0->Ok_0;
        &&& step.notices == Seq::<NoticeView>::empty()
        &&& step.action is Encode
        &&& is_answer(list_size as nat, request, step.action->items)
        &&& next == PhaseView::Encoding {
            subject: subject_of(request),
            expected: step.action->items.len(),
        }
    } else {
        (next, step) == settle(kind, list_size, phase, event)
    }
}

/// A worker of one of the two kinds, in some phase of its cycle.
pub struct Worker {
    kind: WorkerKind,
    list_size: usize,
    phase: Phase,
}

/// What a [`Worker`] holds.
pub struct WorkerView {
    pub kind: WorkerKind,
    pub list_size: usize,
    pub phase: PhaseView,
}

impl View for Worker {
    type V = WorkerView;

    closed spec fn view(&self) -> WorkerView {
        WorkerView { kind: self.kind, list_size: self.list_size, phase: self.phase@ }
    }
}

/// Whether the count of published messages can still grow by one for each
/// body that is queued.
spec fn countable(phase: Phase) -> bool {
    match phase {
        Phase::Publishing { sent, queue, .. } => sent + queue.len() < usize::MAX,
        _ => true,
    }
}

fn no_notice() -> (notices: Vec<Notice>)
    ensures
        notice_views(notices@) == Seq::<NoticeView>::empty(),
{
    let notices: Vec<Notice> = Vec::new();
    notices
}

fn one_notice(notice: Notice) -> (notices: Vec<Notice>)
    ensures
        notice_views(notices@) == seq![notice@],
{
    let mut notices: Vec<Notice> = Vec::new();
    notices.push(notice);
    notices
}

fn end_cycle(notices: Vec<Notice>) -> (out: (Phase, Step))
    ensures
        (out.0@, out.1@) == back_to_polling(notice_views(notices@)),
        countable(out.0),
{
    (Phase::Polling, Step { notices, action: Action::Poll { timeout_ms: POLL_TIMEOUT_MS } })
}

fn publish_next(
    kind: WorkerKind,
    subject: String,
    sent: usize,
    queue: Vec<Vec<u8>>,
    notices: Vec<Notice>,
) -> (out: (Phase, Step))
    requires
        sent + queue.len() <= usize::MAX,
    ensures
        (out.0@, out.1@) == publish_from(
            kind,
            subject@,
            sent as nat,
            body_views(queue@),
            notice_views(notices@),
        ),
        countable(out.0),
{
    let mut queue = queue;
    if queue.len() == 0 {
        end_cycle(notices)
    } else {
        let ghost bodies = body_views(queue@);
        let payload = queue.remove(0);
        proof {
            assert(body_views(queue@) =~= bodies.skip(1));
        }
        let publication = Publication {
            topic: kind.response_topic().to_owned(),
            qos: QoS::AtLeastOnce,
            retain: false,
            payload,
        };
        (
            Phase::Publishing { subject, sent, queue },
            Step { notices, action: Action::Publish(publication) },
        )
    }
}

fn wrap_copies(copies: Vec<AggregatedData>) -> (items: Vec<Outbound>)
    ensures
        items.len() == copies.len(),
        forall|i: int|
            0 <= i < items.len() ==> #[trigger] outbound_views(items@)[i]
                == OutboundView::Aggregated(copies[i]@),
{
    let mut items: Vec<Outbound> = Vec::new();
    for copy in it: copies
        invariant
            items.len() == it.index(),
            forall|i: int|
                0 <= i < items.len() ==> (#[trigger] items[i])@ == OutboundView::Aggregated(
                    it.seq()[i]@,
                ),
    {
        items.push(Outbound::Aggregated(copy));
    }
    items
}

fn start_batch(kind: WorkerKind, list_size: usize, request: Request) -> (out: (Phase, Step))
    requires
        list_size <= MAX_LIST_SIZE,
    ensures
        transition(
            kind,
            list_size,
            PhaseView::Decoding,
            EventView::Decoded(Ok(request@)),
            out.0@,
            out.1@,
        ),
        countable(out.0),
{
    match (kind, request) {
        (WorkerKind::RecordGeneration, Request::Profile(profile)) => {
            let response = respond(&profile, list_size);
            let mut items: Vec<Outbound> = Vec::new();
            items.push(Outbound::Services(response));
            (
                Phase::Encoding { subject: profile.email, expected: 1 },
                Step { notices: no_notice(), action: Action::Encode { items } },
            )
        },
        (WorkerKind::Duplication, Request::Aggregated(data)) => {
            let items = wrap_copies(duplicate(&data));
            (
                Phase::Encoding { subject: data.profile.email, expected: DUPLICATES },
                Step { notices: no_notice(), action: Action::Encode { items } },
            )
        },
        _ => end_cycle(one_notice(Notice::OutOfTurn)),
    }
}

fn settle_event(kind: WorkerKind, list_size: usize, phase: Phase, event: Event) -> (out: (
    Phase,
    Step,
))
    requires
        list_size <= MAX_LIST_SIZE,
        countable(phase),
    ensures
        transition(kind, list_size, phase@, event@, out.0@, out.1@),
        countable(out.0),
{
    match (phase, event) {
        (Phase::Starting, Event::Opened) => {
            let notices = match kind {
                WorkerKind::RecordGeneration => one_notice(Notice::ListSize(list_size)),
                WorkerKind::Duplication => no_notice(),
            };
            end_cycle(notices)
        },
        (Phase::Starting, _) => (
            Phase::Starting,
            Step {
                notices: one_notice(Notice::OutOfTurn),
                action: Action::Open(session_plan(kind)),
            },
        ),
        (Phase::Polling, Event::Polled(PollOutcome::Message(body))) => (
            Phase::Decoding,
            Step { notices: no_notice(), action: Action::Decode { body } },
        ),
        (Phase::Polling, Event::Polled(PollOutcome::Other)) => end_cycle(no_notice()),
        (Phase::Polling, Event::Polled(PollOutcome::Failed(e))) => end_cycle(
            one_notice(Notice::PollFailed(e)),
        ),
        (Phase::Polling, Event::Polled(PollOutcome::TimedOut)) => end_cycle(
            one_notice(Notice::TimedOut),
        ),
        (Phase::Decoding, Event::Decoded(Ok(request))) => start_batch(kind, list_size, request),
        (Phase::Decoding, Event::Decoded(Err(e))) => end_cycle(
            one_notice(Notice::DecodeFailed(e.diagnostic)),
        ),
        (Phase::Encoding { subject, expected }, Event::Encoded(outcomes)) => {
            if outcomes.len() != expected {
                end_cycle(one_notice(Notice::OutOfTurn))
            } else {
                match collect_bodies(outcomes) {
                    Ok(bodies) => publish_next(kind, subject, 0, bodies, no_notice()),
                    Err(e) => end_cycle(one_notice(Notice::EncodeFailed(e.diagnostic))),
                }
            }
        },
        (Phase::Publishing { subject, sent, queue }, Event::Published(result)) => {
            let ordinal: usize = sent + 1;
            let notice = match result {
                Ok(_) => Notice::Published { ordinal, subject: subject.clone() },
                Err(e) => Notice::PublishFailed(e),
            };
            publish_next(kind, subject, ordinal, queue, one_notice(notice))
        },
        _ => end_cycle(one_notice(Notice::OutOfTurn)),
    }
}

impl Worker {
    #[verifier::type_invariant]
    spec fn well_formed(self) -> bool {
        &&& self.list_size <= MAX_LIST_SIZE
        &&& countable(self.phase)
    }

    /// A record-generation worker that answers each profile with
    /// `list_size` records, or `None` where no clock reading could date so
    /// long a list.
    pub fn record_generation(list_size: usize) -> (worker: Option<Worker>)
        ensures
            worker is Some <==> list_size <= MAX_LIST_SIZE,
            worker is Some ==> worker->Some_0@ == (WorkerView {
                kind: WorkerKind::RecordGeneration,
                list_size,
                phase: PhaseView::Starting,
            }),
    {
        if list_size <= MAX_LIST_SIZE {
            Some(Worker { kind: WorkerKind::RecordGeneration, list_size, phase: Phase::Starting })
        } else {
            None
        }
    }

    /// A duplication worker. The list length means nothing to it and is
    /// held as zero.
    pub fn duplication() -> (worker: Worker)
        ensures
            worker@ == (WorkerView {
                kind: WorkerKind::Duplication,
                list_size: 0,
                phase: PhaseView::Starting,
            }),
    {
        Worker { kind: WorkerKind::Duplication, list_size: 0, phase: Phase::Starting }
    }

    /// Which of the two workers this is.
    pub fn kind(&self) -> (kind: WorkerKind)
        ensures
            kind == self@.kind,
    {
        self.kind
    }

    /// The length of the lists that the worker generates.
    pub fn list_size(&self) -> (size: usize)
        ensures
            size == self@.list_size,
    {
        self.list_size
    }

    /// Where in its cycle the worker stands.
    pub fn phase(&self) -> (phase: &Phase)
        ensures
            phase@ == self@.phase,
    {
        &self.phase
    }

    /// The step with which the worker begins. It leaves the worker as it
    /// is: the worker goes on once it is handed [`Event::Opened`].
    pub fn start(&self) -> (step: Step)
        ensures
            step@ == opening(self@.kind),
    {
        Step { notices: one_notice(Notice::Started), action: Action::Open(session_plan(self.kind)) }
    }

    /// Hands the worker the outcome of the action it asked for last. The
    /// worker moves to its next phase and answers with what to log and
    /// what to do next.
    pub fn step(&mut self, event: Event) -> (step: Step)
        ensures
            final(self)@.kind == old(self)@.kind,
            final(self)@.list_size == old(self)@.list_size,
            transition(
                old(self)@.kind,
                old(self)@.list_size,
                old(self)@.phase,
                event@,
                final(self)@.phase,
                step@,
            ),
    {
        proof {
            use_type_invariant(&*self);
        }
        let mut phase = Phase::Polling;
        core::mem::swap(&mut self.phase, &mut phase);
        let (next, step) = settle_event(self.kind, self.list_size, phase, event);
        self.phase = next;
        step
    }
}

} // verus!
