//! The processing of one delivery, from the decoded payload to the audit
//! record.
//!
//! [`process_webhook`] takes the payload and answers with the first thing to
//! do; the result of each thing done is handed to [`Pipeline::advance`]. The
//! order is: look up the UUID of the routing key, look up its source name,
//! reconcile the conversation of the sender, and record the reply.
//!
//! A payload without a button reply is ignored, and a routing key without a
//! UUID or a source name is abandoned: neither is a failure, and neither
//! causes anything to be done. A failure of a lookup or of the
//! reconciliation ends the processing. A failure of the audit record does
//! not: the processing is complete without it.

use crate::crm::{
    create_contact, next, request_of, Failure, FailureView, JobView, Reconciler, ReconcilerView,
    Settled, StageView, Step, StepView,
};
use crate::http::{Reply, ReplyView, Request, RequestView};
use crate::store::{
    fetch_conn, fetch_uuid, following, insert_log, opening, AuditRecordView, Command, CommandView,
    Found, FoundView, Outcome, OutcomeView, Session, SessionView, StoreError, StoreErrorView,
    TaskView, Turn, TurnView,
};
use crate::text::{contains, lowercased, occurs_in, to_lowercase};
use crate::webhook::{first_reply, parse_webhook_data, ButtonReply, WhatsAppWebhook};
use vstd::prelude::*;

verus! {

/// The text that the audit record holds as the one that went out.
pub const AUDIT_TEXT: &'static str =
    "Perfeito! Agora, você saberia me informar se ainda tem acesso ao aplicativo do FGTS?\n\nDigite: 1 para Sim!\nDigite: 2 para Não!\n";

/// The tag of a reply whose button says yes or asks for a call.
pub const TAG_FGTS: &'static str = "FGTS";

/// The tag of every other reply.
pub const TAG_BOLSA: &'static str = "BOLSA";

/// A button reply that is being processed.
#[derive(Debug, Clone, PartialEq, Eq)]
pub struct InboundEvent {
    pub sender_id: String,
    pub routing_key: String,
    pub button_text: String,
}

impl View for InboundEvent {
    type V = ButtonReply;

    open spec fn view(&self) -> ButtonReply {
        ButtonReply {
            routing_key: self.routing_key@,
            sender_id: self.sender_id@,
            button_text: self.button_text@,
        }
    }
}

/// What the processing waits for.
#[derive(Debug, Clone, PartialEq, Eq)]
pub enum Phase {
    FindingUuid { session: Session },
    FindingSource { uuid: String, session: Session },
    Reconciling { reconciler: Reconciler },
    Recording { settled: Settled, session: Session },
}

pub enum PhaseView {
    FindingUuid { session: SessionView },
    FindingSource { uuid: Seq<char>, session: SessionView },
    Reconciling { reconciler: ReconcilerView },
    Recording { settled: Settled, session: SessionView },
}

impl View for Phase {
    type V = PhaseView;

    open spec fn view(&self) -> PhaseView {
        match self {
            Phase::FindingUuid { session } => PhaseView::FindingUuid { session: session@ },
            Phase::FindingSource { uuid, session } => PhaseView::FindingSource {
                uuid: uuid@,
                session: session@,
            },
            Phase::Reconciling { reconciler } => PhaseView::Reconciling {
                reconciler: reconciler@,
            },
            Phase::Recording { settled, session } => PhaseView::Recording {
                settled: *settled,
                session: session@,
            },
        }
    }
}

/// The processing of one reply under way.
#[derive(Debug, Clone, PartialEq, Eq)]
pub struct Pipeline {
    pub event: InboundEvent,
    /// The key of the CRM.
    pub crm_key: String,
    /// The key of the messaging gateway.
    pub gateway_key: String,
    pub phase: Phase,
}

pub struct PipelineView {
    pub event: ButtonReply,
    pub crm_key: Seq<char>,
    pub gateway_key: Seq<char>,
    pub phase: PhaseView,
}

impl View for Pipeline {
    type V = PipelineView;

    open spec fn view(&self) -> PipelineView {
        PipelineView {
            event: self.event@,
            crm_key: self.crm_key@,
            gateway_key: self.gateway_key@,
            phase: self.phase@,
        }
    }
}

/// Something to do for the processing.
#[derive(Debug, Clone, PartialEq, Eq)]
pub enum Effect {
    /// Run the statement on the primary store.
    Lookup(Command),
    /// Send the request.
    Call(Request),
    /// Run the statement on the store of the audit records.
    Audit(Command),
}

pub enum EffectView {
    Lookup(CommandView),
    Call(RequestView),
    Audit(CommandView),
}

impl View for Effect {
    type V = EffectView;

    open spec fn view(&self) -> EffectView {
        match self {
            Effect::Lookup(command) => EffectView::Lookup(command@),
            Effect::Call(request) => EffectView::Call(request@),
            Effect::Audit(command) => EffectView::Audit(command@),
        }
    }
}

/// The result of something done.
#[derive(Debug, Clone, PartialEq, Eq)]
pub enum Signal {
    /// What a store said to a statement.
    Store(Outcome),
    /// What came back for a request.
    Http(Reply),
}

pub enum SignalView {
    Store(OutcomeView),
    Http(ReplyView),
}

impl View for Signal {
    type V = SignalView;

    open spec fn view(&self) -> SignalView {
        match self {
            Signal::Store(outcome) => SignalView::Store(outcome@),
            Signal::Http(reply) => SignalView::Http(reply@),
        }
    }
}

/// What a routing key may lack.
#[derive(Debug, Clone, Copy, PartialEq, Eq, Structural)]
pub enum Missing {
    Uuid,
    SourceName,
}

/// Why a processing failed.
#[derive(Debug, Clone, PartialEq, Eq)]
pub enum Trouble {
    /// The payload could not be decoded; the text says why.
    Undecodable(String),
    /// A routing lookup failed.
    Lookup(StoreError),
    /// The reconciliation failed.
    Crm(Failure),
    /// A result was handed in that the thing last asked for cannot give.
    OutOfTurn,
}

pub enum TroubleView {
    Undecodable(Seq<char>),
    Lookup(StoreErrorView),
    Crm(FailureView),
    OutOfTurn,
}

impl View for Trouble {
    type V = TroubleView;

    open spec fn view(&self) -> TroubleView {
        match self {
            Trouble::Undecodable(why) => TroubleView::Undecodable(why@),
            Trouble::Lookup(error) => TroubleView::Lookup(error@),
            Trouble::Crm(failure) => TroubleView::Crm(failure@),
            Trouble::OutOfTurn => TroubleView::OutOfTurn,
        }
    }
}

/// How a processing ended.
#[derive(Debug, Clone, PartialEq, Eq)]
pub enum Verdict {
    /// The payload holds no button reply.
    Ignored,
    /// The routing key of the reply has no UUID or no source name.
    Unrouted(Missing),
    /// The conversation was reconciled. `recorded` says whether the audit
    /// record was written.
    Completed { settled: Settled, recorded: bool },
    Failed(Trouble),
}

pub enum VerdictView {
    Ignored,
    Unrouted(Missing),
    Completed { settled: Settled, recorded: bool },
    Failed(TroubleView),
}

impl View for Verdict {
    type V = VerdictView;

    open spec fn view(&self) -> VerdictView {
        match self {
            Verdict::Ignored => VerdictView::Ignored,
            Verdict::Unrouted(missing) => VerdictView::Unrouted(*missing),
            Verdict::Completed { settled, recorded } => VerdictView::Completed {
                settled: *settled,
                recorded: *recorded,
            },
            Verdict::Failed(trouble) => VerdictView::Failed(trouble@),
        }
    }
}

impl Verdict {
    /// Whether the processing ended in an error.
    pub open spec fn failed(&self) -> bool {
        self is Failed
    }

    /// Whether the processing ended in an error.
    pub fn is_error(&self) -> (r: bool)
        ensures
            r == self.failed(),
            r == (self@ is Failed),
    {
        match self {
            Verdict::Failed(_) => true,
            _ => false,
        }
    }
}

/// What the processing says after a result.
#[derive(Debug, Clone, PartialEq, Eq)]
pub enum Progress {
    /// Do this, and come back with its result.
    Do(Pipeline, Effect),
    Done(Verdict),
}

pub enum ProgressView {
    Do(PipelineView, EffectView),
    Done(VerdictView),
}

impl View for Progress {
    type V = ProgressView;

    open spec fn view(&self) -> ProgressView {
        match self {
            Progress::Do(pipeline, effect) => ProgressView::Do(pipeline@, effect@),
            Progress::Done(verdict) => ProgressView::Done(verdict@),
        }
    }
}

/// The tag of a reply, from its button text in lowercase: `FGTS` where the
/// text holds `sim` or `chamar`, and `BOLSA` where it holds neither.
pub open spec fn tag_of_lowercase(lower: Seq<char>) -> Seq<char> {
    if occurs_in("sim"@, lower) || occurs_in("chamar"@, lower) {
        TAG_FGTS@
    } else {
        TAG_BOLSA@
    }
}

/// The tag of a reply, whatever the case of its button text.
pub open spec fn flow_tag(button_text: Seq<char>) -> Seq<char> {
    tag_of_lowercase(lowercased(button_text))
}

/// The audit record of a reply.
pub open spec fn record_of(event: ButtonReply) -> AuditRecordView {
    AuditRecordView {
        recipient: event.sender_id,
        outbound_message: AUDIT_TEXT@,
        inbound_button_text: event.button_text,
        flow_tag: flow_tag(event.button_text),
    }
}

/// The job of reconciling the conversation of the sender of a reply.
pub open spec fn job_of(
    event: ButtonReply,
    crm_key: Seq<char>,
    gateway_key: Seq<char>,
    uuid: Seq<char>,
    source_name: Seq<char>,
) -> JobView {
    JobView {
        api_key: crm_key,
        gateway_key,
        uuid,
        source_name,
        routing_key: event.routing_key,
        recipient: event.sender_id,
    }
}

/// A processing in another phase.
pub open spec fn in_phase(pipeline: PipelineView, phase: PhaseView) -> PipelineView {
    PipelineView {
        event: pipeline.event,
        crm_key: pipeline.crm_key,
        gateway_key: pipeline.gateway_key,
        phase,
    }
}

/// How the processing of a decoded payload begins.
pub open spec fn beginning(
    decoded: Result<Option<ButtonReply>, Seq<char>>,
    crm_key: Seq<char>,
    gateway_key: Seq<char>,
) -> ProgressView {
    match decoded {
        Err(why) => ProgressView::Done(VerdictView::Failed(TroubleView::Undecodable(why))),
        Ok(None) => ProgressView::Done(VerdictView::Ignored),
        Ok(Some(event)) => {
            let (session, command) = opening(
                TaskView::FetchUuid { routing_key: event.routing_key },
            );
            ProgressView::Do(
                PipelineView {
                    event,
                    crm_key,
                    gateway_key,
                    phase: PhaseView::FindingUuid { session },
                },
                EffectView::Lookup(command),
            )
        },
    }
}

/// What follows the lookup of the UUID.
pub open spec fn after_uuid(pipeline: PipelineView, turn: TurnView) -> ProgressView {
    match turn {
        TurnView::Run(session, command) => ProgressView::Do(
            in_phase(pipeline, PhaseView::FindingUuid { session }),
            EffectView::Lookup(command),
        ),
        TurnView::Finished(Ok(FoundView::Value(uuid))) => {
            let (session, command) = opening(
                TaskView::FetchConn { routing_key: pipeline.event.routing_key },
            );
            ProgressView::Do(
                in_phase(pipeline, PhaseView::FindingSource { uuid, session }),
                EffectView::Lookup(command),
            )
        },
        TurnView::Finished(Ok(_)) => ProgressView::Done(VerdictView::Unrouted(Missing::Uuid)),
        TurnView::Finished(Err(error)) => ProgressView::Done(
            VerdictView::Failed(TroubleView::Lookup(error)),
        ),
    }
}

/// What follows the lookup of the source name.
pub open spec fn after_source(pipeline: PipelineView, uuid: Seq<char>, turn: TurnView)
    -> ProgressView {
    match turn {
        TurnView::Run(session, command) => ProgressView::Do(
            in_phase(pipeline, PhaseView::FindingSource { uuid, session }),
            EffectView::Lookup(command),
        ),
        TurnView::Finished(Ok(FoundView::Value(source_name))) => {
            let job = job_of(
                pipeline.event,
                pipeline.crm_key,
                pipeline.gateway_key,
                uuid,
                source_name,
            );
            let reconciler = ReconcilerView { job, stage: StageView::CreatingContact };
            ProgressView::Do(
                in_phase(pipeline, PhaseView::Reconciling { reconciler }),
                EffectView::Call(request_of(job, StageView::CreatingContact)),
            )
        },
        TurnView::Finished(Ok(_)) => ProgressView::Done(
            VerdictView::Unrouted(Missing::SourceName),
        ),
        TurnView::Finished(Err(error)) => ProgressView::Done(
            VerdictView::Failed(TroubleView::Lookup(error)),
        ),
    }
}

/// What follows a step of the reconciliation.
pub open spec fn after_step(pipeline: PipelineView, step: StepView) -> ProgressView {
    match step {
        StepView::Ask(reconciler, request) => ProgressView::Do(
            in_phase(pipeline, PhaseView::Reconciling { reconciler }),
            EffectView::Call(request),
        ),
        StepView::Settled(settled) => {
            let (session, command) = opening(TaskView::InsertLog(record_of(pipeline.event)));
            ProgressView::Do(
                in_phase(pipeline, PhaseView::Recording { settled, session }),
                EffectView::Audit(command),
            )
        },
        StepView::Failed(failure) => ProgressView::Done(
            VerdictView::Failed(TroubleView::Crm(failure)),
        ),
    }
}

/// What follows a turn of the audit session.
pub open spec fn after_record(pipeline: PipelineView, settled: Settled, turn: TurnView)
    -> ProgressView {
    match turn {
        TurnView::Run(session, command) => ProgressView::Do(
            in_phase(pipeline, PhaseView::Recording { settled, session }),
            EffectView::Audit(command),
        ),
        TurnView::Finished(Ok(_)) => ProgressView::Done(
            VerdictView::Completed { settled, recorded: true },
        ),
        TurnView::Finished(Err(_)) => ProgressView::Done(
            VerdictView::Completed { settled, recorded: false },
        ),
    }
}

/// What a result leads to.
pub open spec fn onward(pipeline: PipelineView, signal: SignalView) -> ProgressView {
    match pipeline.phase {
        PhaseView::FindingUuid { session } => match signal {
            SignalView::Store(outcome) => after_uuid(pipeline, following(session, outcome)),
            SignalView::Http(_) => ProgressView::Done(VerdictView::Failed(TroubleView::OutOfTurn)),
        },
        PhaseView::FindingSource { uuid, session } => match signal {
            SignalView::Store(outcome) => after_source(
                pipeline,
                uuid,
                following(session, outcome),
            ),
            SignalView::Http(_) => ProgressView::Done(VerdictView::Failed(TroubleView::OutOfTurn)),
        },
        PhaseView::Reconciling { reconciler } => match signal {
            SignalView::Http(reply) => after_step(pipeline, next(reconciler, reply)),
            SignalView::Store(_) => ProgressView::Done(
                VerdictView::Failed(TroubleView::OutOfTurn),
            ),
        },
        PhaseView::Recording { settled, session } => match signal {
            SignalView::Store(outcome) => after_record(
                pipeline,
                settled,
                following(session, outcome),
            ),
            SignalView::Http(_) => ProgressView::Done(
                VerdictView::Completed { settled, recorded: false },
            ),
        },
    }
}

/// The view of a decoded payload: its first button reply, or why it could
/// not be decoded.
pub open spec fn payload_view(decoded: Result<WhatsAppWebhook, String>) -> Result<
    Option<ButtonReply>,
    Seq<char>,
> {
    match decoded {
        Ok(webhook) => Ok(first_reply(webhook)),
        Err(why) => Err(why@),
    }
}

/// The tag of a reply whose button text, in lowercase, is `lower`.
pub fn tag_for_lowercase(lower: &str) -> (tag: &'static str)
    ensures
        tag@ == tag_of_lowercase(lower@),
{
    if contains(lower, "sim") || contains(lower, "chamar") {
        TAG_FGTS
    } else {
        TAG_BOLSA
    }
}

/// The tag of a reply with the given button text.
pub fn flow_tag_for(button_text: &str) -> (tag: &'static str)
    ensures
        tag@ == flow_tag(button_text@),
{
    let lower = to_lowercase(button_text);
    tag_for_lowercase(lower.as_str())
}

/// Begins the processing of a delivery whose payload was decoded into
/// `decoded`, or could not be for the reason given there. `api_key_hug` is
/// the key of the CRM and `api_key_gup` that of the gateway. The last
/// argument is the second key of the CRM, which no request uses.
pub fn process_webhook(
    decoded: Result<WhatsAppWebhook, String>,
    api_key_hug: &str,
    api_key_gup: &str,
    _api_key_hug2: &str,
) -> (progress: Progress)
    ensures
        progress@ == beginning(payload_view(decoded), api_key_hug@, api_key_gup@),
{
    let webhook = match decoded {
        Ok(webhook) => webhook,
        Err(why) => {
            return Progress::Done(Verdict::Failed(Trouble::Undecodable(why)));
        },
    };
    match parse_webhook_data(&webhook) {
        Some((context_from, message_from, button_text)) => {
            let (session, command) = fetch_uuid(context_from.as_str());
            let event = InboundEvent {
                sender_id: message_from,
                routing_key: context_from,
                button_text,
            };
            Progress::Do(
                Pipeline {
                    event,
                    crm_key: api_key_hug.to_owned(),
                    gateway_key: api_key_gup.to_owned(),
                    phase: Phase::FindingUuid { session },
                },
                Effect::Lookup(command),
            )
        },
        None => Progress::Done(Verdict::Ignored),
    }
}

fn on_uuid(event: InboundEvent, crm_key: String, gateway_key: String, turn: Turn) -> (progress:
    Progress)
    ensures
        forall|phase: PhaseView|
            progress@ == after_uuid(
                PipelineView { event: event@, crm_key: crm_key@, gateway_key: gateway_key@, phase },
                turn@,
            ),
{
    match turn {
        Turn::Run(session, command) => Progress::Do(
            Pipeline { event, crm_key, gateway_key, phase: Phase::FindingUuid { session } },
            Effect::Lookup(command),
        ),
        Turn::Finished(Ok(Found::Value(uuid))) => {
            let (session, command) = fetch_conn(event.routing_key.as_str());
            Progress::Do(
                Pipeline {
                    event,
                    crm_key,
                    gateway_key,
                    phase: Phase::FindingSource { uuid, session },
                },
                Effect::Lookup(command),
            )
        },
        Turn::Finished(Ok(_)) => Progress::Done(Verdict::Unrouted(Missing::Uuid)),
        Turn::Finished(Err(error)) => Progress::Done(Verdict::Failed(Trouble::Lookup(error))),
    }
}

fn on_source(
    event: InboundEvent,
    crm_key: String,
    gateway_key: String,
    uuid: String,
    turn: Turn,
) -> (progress: Progress)
    ensures
        forall|phase: PhaseView|
            progress@ == after_source(
                PipelineView { event: event@, crm_key: crm_key@, gateway_key: gateway_key@, phase },
                uuid@,
                turn@,
            ),
{
    match turn {
        Turn::Run(session, command) => Progress::Do(
            Pipeline {
                event,
                crm_key,
                gateway_key,
                phase: Phase::FindingSource { uuid, session },
            },
            Effect::Lookup(command),
        ),
        Turn::Finished(Ok(Found::Value(source_name))) => {
            let (reconciler, request) = create_contact(
                crm_key.as_str(),
                uuid.as_str(),
                (source_name, event.routing_key.clone()),
                event.sender_id.as_str(),
                gateway_key.as_str(),
            );
            Progress::Do(
                Pipeline { event, crm_key, gateway_key, phase: Phase::Reconciling { reconciler } },
                Effect::Call(request),
            )
        },
        Turn::Finished(Ok(_)) => Progress::Done(Verdict::Unrouted(Missing::SourceName)),
        Turn::Finished(Err(error)) => Progress::Done(Verdict::Failed(Trouble::Lookup(error))),
    }
}

fn on_step(event: InboundEvent, crm_key: String, gateway_key: String, step: Step) -> (progress:
    Progress)
    ensures
        forall|phase: PhaseView|
            progress@ == after_step(
                PipelineView { event: event@, crm_key: crm_key@, gateway_key: gateway_key@, phase },
                step@,
            ),
{
    match step {
        Step::Ask(reconciler, request) => Progress::Do(
            Pipeline { event, crm_key, gateway_key, phase: Phase::Reconciling { reconciler } },
            Effect::Call(request),
        ),
        Step::Settled(settled) => {
            let (session, command) = insert_log(
                event.sender_id.as_str(),
                AUDIT_TEXT,
                event.button_text.as_str(),
                flow_tag_for(event.button_text.as_str()),
            );
            Progress::Do(
                Pipeline {
                    event,
                    crm_key,
                    gateway_key,
                    phase: Phase::Recording { settled, session },
                },
                Effect::Audit(command),
            )
        },
        Step::Failed(failure) => Progress::Done(Verdict::Failed(Trouble::Crm(failure))),
    }
}

fn on_record(
    event: InboundEvent,
    crm_key: String,
    gateway_key: String,
    settled: Settled,
    turn: Turn,
) -> (progress: Progress)
    ensures
        forall|phase: PhaseView|
            progress@ == after_record(
                PipelineView { event: event@, crm_key: crm_key@, gateway_key: gateway_key@, phase },
                settled,
                turn@,
            ),
{
    match turn {
        Turn::Run(session, command) => Progress::Do(
            Pipeline {
                event,
                crm_key,
                gateway_key,
                phase: Phase::Recording { settled, session },
            },
            Effect::Audit(command),
        ),
        Turn::Finished(Ok(_)) => Progress::Done(Verdict::Completed { settled, recorded: true }),
        Turn::Finished(Err(_)) => Progress::Done(Verdict::Completed { settled, recorded: false }),
    }
}

impl Pipeline {
    /// Takes the result of what was asked for last, and says what comes
    /// next.
    pub fn advance(self, signal: Signal) -> (progress: Progress)
        ensures
            progress@ == onward(self@, signal@),
    {
        let Pipeline { event, crm_key, gateway_key, phase } = self;
        match phase {
            Phase::FindingUuid { session } => match signal {
                Signal::Store(outcome) => on_uuid(
                    event,
                    crm_key,
                    gateway_key,
                    session.advance(outcome),
                ),
                Signal::Http(_) => Progress::Done(Verdict::Failed(Trouble::OutOfTurn)),
            },
            Phase::FindingSource { uuid, session } => match signal {
                Signal::Store(outcome) => on_source(
                    event,
                    crm_key,
                    gateway_key,
                    uuid,
                    session.advance(outcome),
                ),
                Signal::Http(_) => Progress::Done(Verdict::Failed(Trouble::OutOfTurn)),
            },
            Phase::Reconciling { reconciler } => match signal {
                Signal::Http(reply) => on_step(
                    event,
                    crm_key,
                    gateway_key,
                    reconciler.advance(reply),
                ),
                Signal::Store(_) => Progress::Done(Verdict::Failed(Trouble::OutOfTurn)),
            },
            Phase::Recording { settled, session } => match signal {
                Signal::Store(outcome) => on_record(
                    event,
                    crm_key,
                    gateway_key,
                    settled,
                    session.advance(outcome),
                ),
                Signal::Http(_) => Progress::Done(
                    Verdict::Completed { settled, recorded: false },
                ),
            },
        }
    }
}

/// How a processing that is fed the results `signals` ends; nothing while
/// it still waits for a result.
pub open spec fn verdict_after(pipeline: PipelineView, signals: Seq<SignalView>) -> Option<
    VerdictView,
>
    decreases signals.len(),
{
    if signals.len() == 0 {
        None
    } else {
        match onward(pipeline, signals[0]) {
            ProgressView::Do(then, _) => verdict_after(then, signals.drop_first()),
            ProgressView::Done(verdict) => Some(verdict),
        }
    }
}

/// A payload in which no message counts is ignored: its processing is over
/// at once, with nothing done.
pub proof fn lemma_payload_without_reply_is_ignored(
    webhook: WhatsAppWebhook,
    crm_key: Seq<char>,
    gateway_key: Seq<char>,
)
    requires
        forall|i: int, j: int, k: int| !#[trigger] crate::webhook::counts(webhook, i, j, k),
    ensures
        beginning(payload_view(Ok(webhook)), crm_key, gateway_key) == ProgressView::Done(
            VerdictView::Ignored,
        ),
{
    crate::webhook::lemma_no_reply_without_qualifying_message(webhook);
}

/// Once the conversation is reconciled, no result makes the processing
/// fail: whatever the store of the audit records says, the processing goes
/// on recording or is complete, with the conversation as it was settled.
pub proof fn lemma_recording_cannot_fail(pipeline: PipelineView, signal: SignalView)
    requires
        pipeline.phase is Recording,
    ensures
        match onward(pipeline, signal) {
            ProgressView::Do(then, effect) => effect is Audit && then.phase is Recording
                && then.phase->Recording_settled == pipeline.phase->Recording_settled,
            ProgressView::Done(verdict) => verdict is Completed && verdict->settled
                == pipeline.phase->Recording_settled,
        },
{
}

/// A processing that has reached the audit record ends complete, however
/// the recording goes.
pub proof fn lemma_audit_failure_is_no_error(pipeline: PipelineView, signals: Seq<SignalView>)
    requires
        pipeline.phase is Recording,
    ensures
        verdict_after(pipeline, signals) matches Some(verdict) ==> verdict is Completed
            && verdict->settled == pipeline.phase->Recording_settled,
    decreases signals.len(),
{
    if signals.len() > 0 {
        lemma_recording_cannot_fail(pipeline, signals[0]);
        match onward(pipeline, signals[0]) {
            ProgressView::Do(then, _) => {
                lemma_audit_failure_is_no_error(then, signals.drop_first());
            },
            ProgressView::Done(_) => {},
        }
    }
}

/// The phases come in their order: a request is sent only once the UUID and
/// the source name of the routing key were found, and the audit record is
/// written only once the conversation is settled.
pub proof fn lemma_phases_in_order(pipeline: PipelineView, signal: SignalView)
    ensures
        onward(pipeline, signal) matches ProgressView::Do(then, effect) ==> {
            &&& then.event == pipeline.event
            &&& then.crm_key == pipeline.crm_key
            &&& then.gateway_key == pipeline.gateway_key
            &&& effect is Lookup <==> then.phase is FindingUuid || then.phase is FindingSource
            &&& effect is Call <==> then.phase is Reconciling
            &&& effect is Audit <==> then.phase is Recording
            &&& then.phase is FindingUuid ==> pipeline.phase is FindingUuid
            &&& then.phase is FindingSource ==> pipeline.phase is FindingUuid || pipeline.phase
                is FindingSource
            &&& then.phase is Reconciling ==> pipeline.phase is FindingSource || pipeline.phase
                is Reconciling
            &&& then.phase is Recording ==> pipeline.phase is Reconciling || pipeline.phase
                is Recording
        },
        onward(pipeline, signal) matches ProgressView::Done(VerdictView::Unrouted(missing)) ==> (
        missing == Missing::Uuid <==> pipeline.phase is FindingUuid) && (missing
            == Missing::SourceName <==> pipeline.phase is FindingSource),
{
}

} // verus!
