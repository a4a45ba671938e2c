//! The consumer loop, the unit of work of one delivery, and the supervision
//! of the loop.
//!
//! The loop is in one of two modes. While it runs, every delivery is handed
//! to a unit of work of its own and acknowledged at once: the loop does not
//! wait for the unit, so units run side by side and end in any order, and a
//! delivery that cannot be processed is not redelivered. An
//! interrupt ends the loop in good order; an error of the delivery stream,
//! or its end, ends the loop with an error, upon which the supervisor waits
//! and starts over with a new consumer.

use crate::broker::{Report, ReportView};
use vstd::prelude::*;

verus! {

/// The seconds that the supervisor waits before it starts the loop again.
pub const RESTART_SECONDS: u64 = 5;

/// The mode of the consumer loop.
#[derive(Debug, Clone, Copy, PartialEq, Eq, Structural)]
pub enum Mode {
    Running,
    ShuttingDown,
}

/// What reached the loop.
#[derive(Debug, Clone, PartialEq, Eq)]
pub enum Incoming {
    /// A delivery, with the tag by which the broker knows it.
    Delivery { tag: u64, payload: Vec<u8> },
    /// The delivery stream gave an error.
    Broken(String),
    /// The delivery stream ended.
    Closed,
    /// The signal to shut down.
    Interrupt,
}

pub enum IncomingView {
    Delivery { tag: u64, payload: Seq<u8> },
    Broken(Seq<char>),
    Closed,
    Interrupt,
}

impl View for Incoming {
    type V = IncomingView;

    open spec fn view(&self) -> IncomingView {
        match self {
            Incoming::Delivery { tag, payload } => IncomingView::Delivery {
                tag: *tag,
                payload: payload@,
            },
            Incoming::Broken(why) => IncomingView::Broken(why@),
            Incoming::Closed => IncomingView::Closed,
            Incoming::Interrupt => IncomingView::Interrupt,
        }
    }
}

/// Why the loop ended in an error.
#[derive(Debug, Clone, PartialEq, Eq)]
pub enum ConsumerError {
    /// The delivery stream gave an error.
    Receive(String),
    /// The broker closed the channel.
    ChannelClosed,
}

pub enum ConsumerErrorView {
    Receive(Seq<char>),
    ChannelClosed,
}

impl View for ConsumerError {
    type V = ConsumerErrorView;

    open spec fn view(&self) -> ConsumerErrorView {
        match self {
            ConsumerError::Receive(why) => ConsumerErrorView::Receive(why@),
            ConsumerError::ChannelClosed => ConsumerErrorView::ChannelClosed,
        }
    }
}

/// The acknowledgment of a delivery.
#[derive(Debug, Clone, Copy, PartialEq, Eq, Structural)]
pub struct Acknowledgment {
    /// The tag of the delivery that is acknowledged.
    pub tag: u64,
    /// Whether the deliveries before this one are acknowledged with it.
    pub multiple: bool,
}

/// What the loop is to do.
#[derive(Debug, PartialEq, Eq)]
pub enum Directive {
    /// Hand the payload to a unit of work of its own and, without waiting
    /// for that unit, send the acknowledgment.
    Dispatch { payload: Vec<u8>, acknowledge: Acknowledgment },
    /// Leave the loop.
    Leave(Result<(), ConsumerError>),
}

pub enum DirectiveView {
    Dispatch { payload: Seq<u8>, acknowledge: Acknowledgment },
    Leave(Result<(), ConsumerErrorView>),
}

impl View for Directive {
    type V = DirectiveView;

    open spec fn view(&self) -> DirectiveView {
        match self {
            Directive::Dispatch { payload, acknowledge } => DirectiveView::Dispatch {
                payload: payload@,
                acknowledge: *acknowledge,
            },
            Directive::Leave(Ok(())) => DirectiveView::Leave(Ok(())),
            Directive::Leave(Err(error)) => DirectiveView::Leave(Err(error@)),
        }
    }
}

/// The consumer loop.
#[derive(Debug, Clone, Copy, PartialEq, Eq, Structural)]
pub struct Consumer {
    pub mode: Mode,
}

/// What a unit of work needs before it can process a delivery, in the order
/// in which it gets it.
#[derive(Debug, Clone, Copy, PartialEq, Eq, Structural)]
pub enum Resource {
    PrimaryPool,
    LogsPool,
    PrimaryClient,
    LogsClient,
}

/// Where the preparation of a unit of work stands.
#[derive(Debug, Clone, PartialEq, Eq)]
pub enum Readiness {
    /// Get this next.
    Need(Resource),
    /// Everything is there: the delivery can be processed.
    Ready,
    /// The resource could not be had; the unit ends here.
    GaveUp { resource: Resource, detail: String },
}

pub enum ReadinessView {
    Need(Resource),
    Ready,
    GaveUp { resource: Resource, detail: Seq<char> },
}

impl View for Readiness {
    type V = ReadinessView;

    open spec fn view(&self) -> ReadinessView {
        match self {
            Readiness::Need(resource) => ReadinessView::Need(*resource),
            Readiness::Ready => ReadinessView::Ready,
            Readiness::GaveUp { resource, detail } => ReadinessView::GaveUp {
                resource: *resource,
                detail: detail@,
            },
        }
    }
}

/// What the supervisor does when the loop has ended.
#[derive(Debug, Clone, Copy, PartialEq, Eq, Structural)]
pub enum Supervision {
    /// The shutdown was asked for: the worker ends.
    Exit,
    /// The loop failed: wait, then acquire a new consumer and run the loop
    /// again.
    RestartAfter { seconds: u64 },
}

/// The acknowledgment of the delivery `tag`: positive, and for this
/// delivery alone.
pub open spec fn acknowledgment_of(tag: u64) -> Acknowledgment {
    Acknowledgment { tag, multiple: false }
}

/// What the loop does with what reached it.
pub open spec fn reaction(consumer: Consumer, incoming: IncomingView) -> (Consumer, DirectiveView) {
    match consumer.mode {
        Mode::Running => match incoming {
            IncomingView::Delivery { tag, payload } => (
                consumer,
                DirectiveView::Dispatch { payload, acknowledge: acknowledgment_of(tag) },
            ),
            IncomingView::Broken(why) => (
                Consumer { mode: Mode::ShuttingDown },
                DirectiveView::Leave(Err(ConsumerErrorView::Receive(why))),
            ),
            IncomingView::Closed => (
                Consumer { mode: Mode::ShuttingDown },
                DirectiveView::Leave(Err(ConsumerErrorView::ChannelClosed)),
            ),
            IncomingView::Interrupt => (
                Consumer { mode: Mode::ShuttingDown },
                DirectiveView::Leave(Ok(())),
            ),
        },
        Mode::ShuttingDown => (consumer, DirectiveView::Leave(Ok(()))),
    }
}

/// The resource that a unit of work gets after a resource.
pub open spec fn resource_after(resource: Resource) -> Option<Resource> {
    match resource {
        Resource::PrimaryPool => Some(Resource::LogsPool),
        Resource::LogsPool => Some(Resource::PrimaryClient),
        Resource::PrimaryClient => Some(Resource::LogsClient),
        Resource::LogsClient => None,
    }
}

/// Where the preparation stands once it is known how the getting of a
/// resource went.
pub open spec fn readiness_after(resource: Resource, report: ReportView) -> ReadinessView {
    match report {
        ReportView::Succeeded => match resource_after(resource) {
            Some(then) => ReadinessView::Need(then),
            None => ReadinessView::Ready,
        },
        ReportView::Failed(detail) => ReadinessView::GaveUp { resource, detail },
    }
}

/// What the supervisor does for an end of the loop.
pub open spec fn supervision_of(end: Result<(), ConsumerErrorView>) -> Supervision {
    match end {
        Ok(()) => Supervision::Exit,
        Err(_) => Supervision::RestartAfter { seconds: RESTART_SECONDS },
    }
}

/// The view of an end of the loop.
pub open spec fn end_view(end: Result<(), ConsumerError>) -> Result<(), ConsumerErrorView> {
    match end {
        Ok(()) => Ok(()),
        Err(error) => Err(error@),
    }
}

/// The loop of a consumer that was just acquired: it runs.
pub fn run_consumer() -> (consumer: Consumer)
    ensures
        consumer.mode == Mode::Running,
{
    Consumer { mode: Mode::Running }
}

impl Consumer {
    /// Takes what reached the loop, and says what the loop is to do.
    pub fn receive(self, incoming: Incoming) -> (next: (Consumer, Directive))
        ensures
            (next.0, next.1@) == reaction(self, incoming@),
    {
        match self.mode {
            Mode::Running => match incoming {
                Incoming::Delivery { tag, payload } => (
                    self,
                    Directive::Dispatch { payload, acknowledge: acknowledge(tag) },
                ),
                Incoming::Broken(why) => (
                    Consumer { mode: Mode::ShuttingDown },
                    Directive::Leave(Err(ConsumerError::Receive(why))),
                ),
                Incoming::Closed => (
                    Consumer { mode: Mode::ShuttingDown },
                    Directive::Leave(Err(ConsumerError::ChannelClosed)),
                ),
                Incoming::Interrupt => (
                    Consumer { mode: Mode::ShuttingDown },
                    Directive::Leave(Ok(())),
                ),
            },
            Mode::ShuttingDown => (self, Directive::Leave(Ok(()))),
        }
    }
}

/// The acknowledgment of the delivery `tag`: positive, and for this
/// delivery alone. It depends on nothing but the tag, so it is the same
/// whatever becomes of the unit of work.
pub fn acknowledge(tag: u64) -> (ack: Acknowledgment)
    ensures
        ack == acknowledgment_of(tag),
        ack == (Acknowledgment { tag, multiple: false }),
{
    Acknowledgment { tag, multiple: false }
}

/// The first resource that a unit of work gets.
pub fn first_resource() -> (resource: Resource)
    ensures
        resource == Resource::PrimaryPool,
{
    Resource::PrimaryPool
}

/// Takes the report on the getting of a resource, and says where the
/// preparation of the unit stands.
pub fn prepared(resource: Resource, report: Report) -> (readiness: Readiness)
    ensures
        readiness@ == readiness_after(resource, report@),
{
    match report {
        Report::Succeeded => match resource {
            Resource::PrimaryPool => Readiness::Need(Resource::LogsPool),
            Resource::LogsPool => Readiness::Need(Resource::PrimaryClient),
            Resource::PrimaryClient => Readiness::Need(Resource::LogsClient),
            Resource::LogsClient => Readiness::Ready,
        },
        Report::Failed(detail) => Readiness::GaveUp { resource, detail },
    }
}

/// Says what the supervisor does when the loop has ended with `end`.
pub fn supervise(end: &Result<(), ConsumerError>) -> (supervision: Supervision)
    ensures
        supervision == supervision_of(end_view(*end)),
{
    match end {
        Ok(()) => Supervision::Exit,
        Err(_) => Supervision::RestartAfter { seconds: RESTART_SECONDS },
    }
}

/// The tags of the deliveries that the loop dispatches and acknowledges, in
/// the order in which it does so, while it is fed `incoming`.
pub open spec fn dispatched(consumer: Consumer, incoming: Seq<IncomingView>) -> Seq<u64>
    decreases incoming.len(),
{
    if incoming.len() == 0 {
        Seq::empty()
    } else {
        let (then, directive) = reaction(consumer, incoming[0]);
        match directive {
            DirectiveView::Dispatch { acknowledge, .. } => seq![acknowledge.tag] + dispatched(
                then,
                incoming.drop_first(),
            ),
            DirectiveView::Leave(_) => Seq::empty(),
        }
    }
}

/// Deliveries are dispatched and acknowledged in the order in which they
/// are received: the dispatches of a running loop are the deliveries that
/// reached it before anything else did, one for one.
pub proof fn lemma_dispatch_in_receipt_order(incoming: Seq<IncomingView>)
    ensures
        dispatched(Consumer { mode: Mode::Running }, incoming).len() <= incoming.len(),
        forall|i: int|
            0 <= i < dispatched(Consumer { mode: Mode::Running }, incoming).len()
                ==> #[trigger] incoming[i] is Delivery && incoming[i]->Delivery_tag == dispatched(
                Consumer { mode: Mode::Running },
                incoming,
            )[i],
        dispatched(Consumer { mode: Mode::Running }, incoming).len() < incoming.len()
            ==> !(incoming[dispatched(Consumer { mode: Mode::Running }, incoming).len() as int]
            is Delivery),
    decreases incoming.len(),
{
    let running = Consumer { mode: Mode::Running };
    if incoming.len() > 0 {
        let rest = incoming.drop_first();
        lemma_dispatch_in_receipt_order(rest);
        if incoming[0] is Delivery {
            let tags = dispatched(running, incoming);
            let later = dispatched(running, rest);
            assert(tags == seq![incoming[0]->Delivery_tag] + later);
            assert forall|i: int| 0 <= i < tags.len() implies #[trigger] incoming[i] is Delivery
                && incoming[i]->Delivery_tag == tags[i] by {
                if i > 0 {
                    assert(incoming[i] == rest[i - 1]);
                    assert(tags[i] == later[i - 1]);
                }
            }
            if tags.len() < incoming.len() {
                assert(incoming[tags.len() as int] == rest[later.len() as int]);
            }
        }
    }
}

/// A loop that is shutting down dispatches nothing, whatever reaches it.
pub proof fn lemma_shutdown_dispatches_nothing(incoming: Seq<IncomingView>)
    ensures
        dispatched(Consumer { mode: Mode::ShuttingDown }, incoming).len() == 0,
{
}

/// The loop leaves in good order on an interrupt alone: an error of the
/// stream or its end make it leave with an error, and a delivery does not
/// make a running loop leave.
pub proof fn lemma_leave_reasons(incoming: IncomingView)
    ensures
        reaction(Consumer { mode: Mode::Running }, incoming).1 == DirectiveView::Leave(Ok(()))
            <==> incoming is Interrupt,
        reaction(Consumer { mode: Mode::Running }, incoming).1 matches DirectiveView::Leave(
            Err(_),
        ) <==> incoming is Broken || incoming is Closed,
        reaction(Consumer { mode: Mode::Running }, incoming).1 is Dispatch <==> incoming
            is Delivery,
        reaction(Consumer { mode: Mode::Running }, incoming).1 is Leave ==> reaction(
            Consumer { mode: Mode::Running },
            incoming,
        ).0.mode == Mode::ShuttingDown,
{
}

} // verus!
