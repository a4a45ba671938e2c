//! The acquisition of a consumer on the message broker.
//!
//! A consumer is had in five steps: connect, open a channel, limit the
//! deliveries in flight to one, declare the queue, and subscribe with manual
//! acknowledgment. When a
//! step fails, the failure is reported, five seconds are waited, and the
//! acquisition starts over with the connection. There is no other way out
//! than a consumer: the acquisition never gives up.

use vstd::prelude::*;

verus! {

/// The name under which the worker connects.
pub const CONNECTION_NAME: &'static str = "button_consumer";

/// The queue that is consumed.
pub const QUEUE: &'static str = "button_templates";

/// The tag of the consumer.
pub const CONSUMER_TAG: &'static str = "button-consumer";

/// The deliveries that the broker may leave unacknowledged.
pub const PREFETCH: u16 = 1;

/// The seconds that are waited after a failure.
pub const BACKOFF_SECONDS: u64 = 5;

/// A step of the setup of a consumer on a connection.
#[derive(Debug, Clone, Copy, PartialEq, Eq, Structural)]
pub enum SetupStep {
    OpenChannel,
    LimitPrefetch,
    DeclareQueue,
    Subscribe,
}

/// A step of the acquisition: the connection, or a step of the setup on it.
#[derive(Debug, Clone, Copy, PartialEq, Eq, Structural)]
pub enum Stage {
    Connecting,
    SettingUp(SetupStep),
}

/// What the acquisition waits for: the end of a step, or of the pause after
/// a failure.
#[derive(Debug, Clone, Copy, PartialEq, Eq, Structural)]
pub enum Pending {
    Step(Stage),
    Pause,
}

/// Something to do for the acquisition.
#[derive(Debug, Clone, PartialEq, Eq)]
pub enum Order {
    /// Connect to the broker at `url`, under the name `name`.
    Connect { url: String, name: String },
    /// Open a channel on the connection.
    OpenChannel,
    /// Limit the unacknowledged deliveries of the channel to `count`.
    LimitPrefetch { count: u16 },
    /// Declare the queue `queue`, which must exist (`passive`) and be durable.
    DeclareQueue { queue: String, passive: bool, durable: bool },
    /// Subscribe to `queue` under the tag `tag`. With `manual_ack` the broker
    /// waits for the acknowledgment of each delivery.
    Subscribe { queue: String, tag: String, manual_ack: bool },
    /// Report that `step` failed for the reason `detail`, and wait `seconds`.
    BackOff { step: Stage, detail: String, seconds: u64 },
}

pub enum OrderView {
    Connect { url: Seq<char>, name: Seq<char> },
    OpenChannel,
    LimitPrefetch { count: u16 },
    DeclareQueue { queue: Seq<char>, passive: bool, durable: bool },
    Subscribe { queue: Seq<char>, tag: Seq<char>, manual_ack: bool },
    BackOff { step: Stage, detail: Seq<char>, seconds: u64 },
}

impl View for Order {
    type V = OrderView;

    open spec fn view(&self) -> OrderView {
        match self {
            Order::Connect { url, name } => OrderView::Connect { url: url@, name: name@ },
            Order::OpenChannel => OrderView::OpenChannel,
            Order::LimitPrefetch { count } => OrderView::LimitPrefetch { count: *count },
            Order::DeclareQueue { queue, passive, durable } => OrderView::DeclareQueue {
                queue: queue@,
                passive: *passive,
                durable: *durable,
            },
            Order::Subscribe { queue, tag, manual_ack } => OrderView::Subscribe {
                queue: queue@,
                tag: tag@,
                manual_ack: *manual_ack,
            },
            Order::BackOff { step, detail, seconds } => OrderView::BackOff {
                step: *step,
                detail: detail@,
                seconds: *seconds,
            },
        }
    }
}

/// How what was ordered went.
#[derive(Debug, Clone, PartialEq, Eq)]
pub enum Report {
    Succeeded,
    /// It failed; the text says why.
    Failed(String),
}

pub enum ReportView {
    Succeeded,
    Failed(Seq<char>),
}

impl View for Report {
    type V = ReportView;

    open spec fn view(&self) -> ReportView {
        match self {
            Report::Succeeded => ReportView::Succeeded,
            Report::Failed(detail) => ReportView::Failed(detail@),
        }
    }
}

/// An acquisition under way.
#[derive(Debug, Clone, PartialEq, Eq)]
pub struct Acquisition {
    pub url: String,
    pub pending: Pending,
    /// The failures so far, as far as a `u64` counts them.
    pub failures: u64,
}

pub struct AcquisitionView {
    pub url: Seq<char>,
    pub pending: Pending,
    pub failures: u64,
}

impl View for Acquisition {
    type V = AcquisitionView;

    open spec fn view(&self) -> AcquisitionView {
        AcquisitionView { url: self.url@, pending: self.pending, failures: self.failures }
    }
}

/// What the acquisition says after a report.
#[derive(Debug, Clone, PartialEq, Eq)]
pub enum Attempt {
    /// Do this, and come back with its report.
    Go(Acquisition, Order),
    /// The consumer is subscribed, after this many failures.
    Ready { failures: u64 },
}

pub enum AttemptView {
    Go(AcquisitionView, OrderView),
    Ready { failures: u64 },
}

impl View for Attempt {
    type V = AttemptView;

    open spec fn view(&self) -> AttemptView {
        match self {
            Attempt::Go(acquisition, order) => AttemptView::Go(acquisition@, order@),
            Attempt::Ready { failures } => AttemptView::Ready { failures: *failures },
        }
    }
}

/// The order that carries out a step of the setup.
pub open spec fn setup_order(step: SetupStep) -> OrderView {
    match step {
        SetupStep::OpenChannel => OrderView::OpenChannel,
        SetupStep::LimitPrefetch => OrderView::LimitPrefetch { count: PREFETCH },
        SetupStep::DeclareQueue => OrderView::DeclareQueue {
            queue: QUEUE@,
            passive: true,
            durable: true,
        },
        SetupStep::Subscribe => OrderView::Subscribe {
            queue: QUEUE@,
            tag: CONSUMER_TAG@,
            manual_ack: true,
        },
    }
}

/// The order that carries out a step of the acquisition.
pub open spec fn order_of(url: Seq<char>, step: Stage) -> OrderView {
    match step {
        Stage::Connecting => OrderView::Connect { url, name: CONNECTION_NAME@ },
        Stage::SettingUp(setup) => setup_order(setup),
    }
}

/// The step that follows a step; none follows the subscription.
pub open spec fn step_after(step: Stage) -> Option<Stage> {
    match step {
        Stage::Connecting => Some(Stage::SettingUp(SetupStep::OpenChannel)),
        Stage::SettingUp(SetupStep::OpenChannel) => Some(
            Stage::SettingUp(SetupStep::LimitPrefetch),
        ),
        Stage::SettingUp(SetupStep::LimitPrefetch) => Some(
            Stage::SettingUp(SetupStep::DeclareQueue),
        ),
        Stage::SettingUp(SetupStep::DeclareQueue) => Some(Stage::SettingUp(SetupStep::Subscribe)),
        Stage::SettingUp(SetupStep::Subscribe) => None,
    }
}

/// One more failure, as far as a `u64` counts.
pub open spec fn one_more(failures: u64) -> u64 {
    if failures < u64::MAX {
        (failures + 1) as u64
    } else {
        failures
    }
}

/// The acquisition on its way to a step.
pub open spec fn heading_for(acquisition: AcquisitionView, step: Stage) -> AttemptView {
    AttemptView::Go(
        AcquisitionView {
            url: acquisition.url,
            pending: Pending::Step(step),
            failures: acquisition.failures,
        },
        order_of(acquisition.url, step),
    )
}

/// An acquisition at its beginning.
pub open spec fn start(url: Seq<char>) -> AttemptView {
    heading_for(
        AcquisitionView { url, pending: Pending::Pause, failures: 0 },
        Stage::Connecting,
    )
}

/// What a report leads to.
pub open spec fn resume(acquisition: AcquisitionView, report: ReportView) -> AttemptView {
    match acquisition.pending {
        Pending::Pause => heading_for(acquisition, Stage::Connecting),
        Pending::Step(step) => match report {
            ReportView::Succeeded => match step_after(step) {
                Some(then) => heading_for(acquisition, then),
                None => AttemptView::Ready { failures: acquisition.failures },
            },
            ReportView::Failed(detail) => AttemptView::Go(
                AcquisitionView {
                    url: acquisition.url,
                    pending: Pending::Pause,
                    failures: one_more(acquisition.failures),
                },
                OrderView::BackOff { step, detail, seconds: BACKOFF_SECONDS },
            ),
        },
    }
}

/// The order that connects to the broker at `rabbit_url`.
pub fn connect_rabbitmq(rabbit_url: &str) -> (order: Order)
    ensures
        order@ == order_of(rabbit_url@, Stage::Connecting),
{
    Order::Connect { url: rabbit_url.to_owned(), name: CONNECTION_NAME.to_owned() }
}

/// The order that carries out a step of the setup on a connection.
pub fn setup_consumer(step: SetupStep) -> (order: Order)
    ensures
        order@ == setup_order(step),
{
    match step {
        SetupStep::OpenChannel => Order::OpenChannel,
        SetupStep::LimitPrefetch => Order::LimitPrefetch { count: PREFETCH },
        SetupStep::DeclareQueue => Order::DeclareQueue {
            queue: QUEUE.to_owned(),
            passive: true,
            durable: true,
        },
        SetupStep::Subscribe => Order::Subscribe {
            queue: QUEUE.to_owned(),
            tag: CONSUMER_TAG.to_owned(),
            manual_ack: true,
        },
    }
}

/// The step that follows a step.
pub fn following_step(step: Stage) -> (then: Option<Stage>)
    ensures
        then == step_after(step),
{
    match step {
        Stage::Connecting => Some(Stage::SettingUp(SetupStep::OpenChannel)),
        Stage::SettingUp(SetupStep::OpenChannel) => Some(
            Stage::SettingUp(SetupStep::LimitPrefetch),
        ),
        Stage::SettingUp(SetupStep::LimitPrefetch) => Some(
            Stage::SettingUp(SetupStep::DeclareQueue),
        ),
        Stage::SettingUp(SetupStep::DeclareQueue) => Some(Stage::SettingUp(SetupStep::Subscribe)),
        Stage::SettingUp(SetupStep::Subscribe) => None,
    }
}

fn head_for(url: String, failures: u64, step: Stage) -> (attempt: Attempt)
    ensures
        forall|pending: Pending|
            attempt@ == heading_for(AcquisitionView { url: url@, pending, failures }, step),
{
    let order = match step {
        Stage::Connecting => connect_rabbitmq(url.as_str()),
        Stage::SettingUp(setup) => setup_consumer(setup),
    };
    Attempt::Go(Acquisition { url, pending: Pending::Step(step), failures }, order)
}

/// Begins the acquisition of a consumer on the broker at `rabbit_url`.
pub fn create_rabbitmq_consumer(rabbit_url: &str) -> (attempt: Attempt)
    ensures
        attempt@ == start(rabbit_url@),
{
    head_for(rabbit_url.to_owned(), 0, Stage::Connecting)
}

impl Acquisition {
    /// Takes the report on what was ordered last, and says what comes next.
    pub fn advance(self, report: Report) -> (attempt: Attempt)
        ensures
            attempt@ == resume(self@, report@),
    {
        let Acquisition { url, pending, failures } = self;
        match pending {
            Pending::Pause => head_for(url, failures, Stage::Connecting),
            Pending::Step(step) => match report {
                Report::Succeeded => match following_step(step) {
                    Some(then) => head_for(url, failures, then),
                    None => Attempt::Ready { failures },
                },
                Report::Failed(detail) => {
                    let failures = if failures < u64::MAX {
                        failures + 1
                    } else {
                        failures
                    };
                    Attempt::Go(
                        Acquisition { url, pending: Pending::Pause, failures },
                        Order::BackOff { step, detail, seconds: BACKOFF_SECONDS },
                    )
                },
            },
        }
    }
}

/// Every failure of a step is answered by the report of that failure and a
/// pause of five seconds, and nothing else is.
pub proof fn lemma_failure_backs_off(acquisition: AcquisitionView, report: ReportView)
    ensures
        resume(acquisition, report) matches AttemptView::Go(then, OrderView::BackOff {
            step,
            detail,
            seconds,
        }) ==> seconds == 5 && acquisition.pending == Pending::Step(step) && report
            == ReportView::Failed(detail) && then.pending == Pending::Pause,
        acquisition.pending is Step && report is Failed ==> resume(acquisition, report) is Go
            && resume(acquisition, report)->Go_1 is BackOff,
{
}

/// After a pause the acquisition starts over with the connection, whatever
/// is reported of the pause.
pub proof fn lemma_pause_starts_over(acquisition: AcquisitionView, report: ReportView)
    requires
        acquisition.pending == Pending::Pause,
    ensures
        resume(acquisition, report) == heading_for(acquisition, Stage::Connecting),
        resume(acquisition, report)->Go_1 == (OrderView::Connect {
            url: acquisition.url,
            name: CONNECTION_NAME@,
        }),
{
}

/// The consumer is ready only when the subscription succeeded, and each
/// step is ordered only when the step before it succeeded: the channel after
/// the connection, the prefetch limit of one after the channel, the queue
/// after the limit, and the subscription after the queue. Every
/// subscription asks for manual acknowledgment.
pub proof fn lemma_steps_in_order(acquisition: AcquisitionView, report: ReportView)
    ensures
        resume(acquisition, report) is Ready <==> acquisition.pending == Pending::Step(
            Stage::SettingUp(SetupStep::Subscribe),
        ) && report is Succeeded,
        forall|setup: SetupStep|
            (resume(acquisition, report) matches AttemptView::Go(then, order) && order
                == #[trigger] setup_order(setup)) ==> report is Succeeded && acquisition.pending
                is Step && step_after(acquisition.pending->Step_0) == Some(
                Stage::SettingUp(setup),
            ),
        setup_order(SetupStep::LimitPrefetch) == (OrderView::LimitPrefetch { count: 1 }),
        resume(acquisition, report) matches AttemptView::Go(
            then,
            OrderView::Subscribe { queue, tag, manual_ack },
        ) ==> manual_ack,
{
    assert forall|setup: SetupStep|
        (resume(acquisition, report) matches AttemptView::Go(then, order) && order
            == #[trigger] setup_order(setup)) implies report is Succeeded && acquisition.pending
        is Step && step_after(acquisition.pending->Step_0) == Some(Stage::SettingUp(setup)) by {
        match acquisition.pending {
            Pending::Step(step) => {
                if report is Succeeded {
                    match step_after(step) {
                        Some(Stage::SettingUp(then)) => {
                            assert(setup_order(then) == setup_order(setup) ==> then == setup);
                        },
                        _ => {},
                    }
                }
            },
            Pending::Pause => {},
        }
    }
}

/// An acquisition counts its failures: while the count fits, the failures
/// that it shows are those that were reported of its steps. In particular a
/// run of reports that ends with a ready consumer shows how many pauses
/// preceded it.
pub proof fn lemma_failures_are_counted(acquisition: AcquisitionView, report: ReportView)
    requires
        acquisition.failures < u64::MAX,
    ensures
        match resume(acquisition, report) {
            AttemptView::Go(then, order) => then.failures == acquisition.failures + (if order
                is BackOff {
                1int
            } else {
                0int
            }),
            AttemptView::Ready { failures } => failures == acquisition.failures,
        },
{
}

} // verus!
