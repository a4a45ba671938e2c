//! The conversation reconciler: what to ask of the CRM, one request at a
//! time, until a recipient either has an open conversation that is left
//! alone or a newly started flow.
//!
//! The reconciler never performs a request. [`create_contact`] answers with
//! the first request; each answer to a request is handed to
//! [`Reconciler::advance`], which says what comes next. The order is: create
//! the contact (or, where the CRM says that it exists already, search for
//! it), read the timeline of the contact, read the current chat if there is
//! one, start the flow unless that chat is open, and send the prompt.
//!
//! A chat whose detail cannot be had (the request fails, is refused, or the
//! answer is not JSON) ends the reconciliation with a failure: nothing is
//! started on a guess about the state of a conversation.

use crate::gateway::{delivery, delivery_of, message_request, send_gupshup_message, UNREAD_BODY};
use crate::http::{
    body_or, body_text, is_success, pair, pairs_view, success, Method, Pair, Payload, PayloadView,
    Reply, ReplyView, Request, RequestView,
};
use crate::json::{
    first_element, first_of, flag_of, flag_value, json_content, json_parsed, json_text, member,
    member_flag, member_text, new_members, no_members, object_value, opt_text, parse, put, text_of,
    text_value, to_text, JsonDoc,
};
use crate::text::{contains, join, join3, occurs_in, same};
use crate::timeline::{current_chat, events_of, find_current_chat, read_events};
use vstd::prelude::*;

verus! {

pub const CONTACTS_URL: &'static str = "https://api.huggy.app/v2/contacts";

pub const CONTACT_BY_PHONE_URL: &'static str = "https://api.huggy.app/v2/contacts?phone=";

pub const CONTACT_URL: &'static str = "https://api.huggy.app/v3/contacts/";

pub const CHAT_URL: &'static str = "https://api.huggy.app/v3/chats/";

/// The cookie that every request to the CRM carries.
pub const SESSION_COOKIE: &'static str = "app_powerzap=nks19drvheb20cffjlh7fqatqb;";

/// The flow that is started for a recipient.
pub const FLOW_ID: &'static str = "452128";

/// The words by which the CRM says that a contact exists already.
pub const EXISTING_CONTACT_MARK: &'static str = "já existe um contato";

/// The situation of a chat that is being closed.
pub const FINISHING: &'static str = "finishing";

/// The text that is sent once the flow has been started.
pub const PROMPT: &'static str =
    "Perfeito! Agora, você saberia me informar se ainda tem acesso ao aplicativo do FGTS?\n\nDigite: 1 para Sim!\nDigite: 2 para Não!";

/// What a reconciliation works on.
#[derive(Debug, Clone, PartialEq, Eq)]
pub struct Job {
    /// The key of the CRM.
    pub api_key: String,
    /// The key of the messaging gateway.
    pub gateway_key: String,
    pub uuid: String,
    /// The name of the source; the prompt is sent in this name.
    pub source_name: String,
    /// The routing key by which the UUID and the source name were found. It
    /// belongs to the job, and no request carries it.
    pub routing_key: String,
    /// The phone number of the recipient.
    pub recipient: String,
}

pub struct JobView {
    pub api_key: Seq<char>,
    pub gateway_key: Seq<char>,
    pub uuid: Seq<char>,
    pub source_name: Seq<char>,
    pub routing_key: Seq<char>,
    pub recipient: Seq<char>,
}

impl View for Job {
    type V = JobView;

    open spec fn view(&self) -> JobView {
        JobView {
            api_key: self.api_key@,
            gateway_key: self.gateway_key@,
            uuid: self.uuid@,
            source_name: self.source_name@,
            routing_key: self.routing_key@,
            recipient: self.recipient@,
        }
    }
}

/// The request whose answer the reconciler waits for.
#[derive(Debug, Clone, PartialEq, Eq)]
pub enum Stage {
    CreatingContact,
    SearchingContact,
    ReadingTimeline { contact_id: String },
    ReadingChat { contact_id: String, chat_id: String },
    StartingFlow { contact_id: String },
    SendingPrompt,
}

pub enum StageView {
    CreatingContact,
    SearchingContact,
    ReadingTimeline { contact_id: Seq<char> },
    ReadingChat { contact_id: Seq<char>, chat_id: Seq<char> },
    StartingFlow { contact_id: Seq<char> },
    SendingPrompt,
}

impl View for Stage {
    type V = StageView;

    open spec fn view(&self) -> StageView {
        match self {
            Stage::CreatingContact => StageView::CreatingContact,
            Stage::SearchingContact => StageView::SearchingContact,
            Stage::ReadingTimeline { contact_id } => StageView::ReadingTimeline {
                contact_id: contact_id@,
            },
            Stage::ReadingChat { contact_id, chat_id } => StageView::ReadingChat {
                contact_id: contact_id@,
                chat_id: chat_id@,
            },
            Stage::StartingFlow { contact_id } => StageView::StartingFlow {
                contact_id: contact_id@,
            },
            Stage::SendingPrompt => StageView::SendingPrompt,
        }
    }
}

/// A request to the CRM.
#[derive(Debug, Clone, Copy, PartialEq, Eq, Structural)]
pub enum Call {
    CreateContact,
    SearchContact,
    ReadTimeline,
    ReadChat,
    StartFlow,
}

/// Why a reconciliation was given up.
#[derive(Debug, Clone, PartialEq, Eq)]
pub enum Failure {
    /// A request could not be carried out.
    Unreachable { call: Call, detail: String },
    /// The CRM answered a request with a status outside 200..=299.
    Refused { call: Call, status: u16, body: String },
    /// The CRM answered with a body that cannot be read as what was asked for.
    Unreadable { call: Call },
    /// Neither creating the contact nor searching for it gave its id.
    NoContactId,
}

pub enum FailureView {
    Unreachable { call: Call, detail: Seq<char> },
    Refused { call: Call, status: u16, body: Seq<char> },
    Unreadable { call: Call },
    NoContactId,
}

impl View for Failure {
    type V = FailureView;

    open spec fn view(&self) -> FailureView {
        match self {
            Failure::Unreachable { call, detail } => FailureView::Unreachable {
                call: *call,
                detail: detail@,
            },
            Failure::Refused { call, status, body } => FailureView::Refused {
                call: *call,
                status: *status,
                body: body@,
            },
            Failure::Unreadable { call } => FailureView::Unreadable { call: *call },
            Failure::NoContactId => FailureView::NoContactId,
        }
    }
}

/// How a reconciliation ends when nothing fails.
#[derive(Debug, Clone, Copy, PartialEq, Eq, Structural)]
pub enum Settled {
    /// The recipient has an open conversation: nothing was started or sent.
    LeftOpen,
    /// A flow was started. `prompt_sent` says whether the prompt went out.
    Started { prompt_sent: bool },
}

/// A reconciliation under way.
#[derive(Debug, Clone, PartialEq, Eq)]
pub struct Reconciler {
    pub job: Job,
    pub stage: Stage,
}

pub struct ReconcilerView {
    pub job: JobView,
    pub stage: StageView,
}

impl View for Reconciler {
    type V = ReconcilerView;

    open spec fn view(&self) -> ReconcilerView {
        ReconcilerView { job: self.job@, stage: self.stage@ }
    }
}

/// What the reconciler says after an answer.
#[derive(Debug, Clone, PartialEq, Eq)]
pub enum Step {
    /// Send the request, and come back with its answer.
    Ask(Reconciler, Request),
    Settled(Settled),
    Failed(Failure),
}

pub enum StepView {
    Ask(ReconcilerView, RequestView),
    Settled(Settled),
    Failed(FailureView),
}

impl View for Step {
    type V = StepView;

    open spec fn view(&self) -> StepView {
        match self {
            Step::Ask(reconciler, request) => StepView::Ask(reconciler@, request@),
            Step::Settled(settled) => StepView::Settled(*settled),
            Step::Failed(failure) => StepView::Failed(failure@),
        }
    }
}

/// The headers of a request to the CRM, with the content type of a JSON body
/// where the request has a body.
pub open spec fn crm_headers(api_key: Seq<char>, with_body: bool) -> Seq<(Seq<char>, Seq<char>)> {
    let common = seq![("Authorization"@, "Bearer "@ + api_key), ("cookie"@, SESSION_COOKIE@)];
    if with_body {
        common.push(("Content-Type"@, "application/json"@))
    } else {
        common
    }
}

/// The document that describes a new contact.
pub open spec fn contact_doc(recipient: Seq<char>) -> JsonDoc {
    JsonDoc::Object(
        no_members().insert("name"@, JsonDoc::Text(recipient + " API"@)).insert(
            "phone"@,
            JsonDoc::Text(recipient),
        ).insert("email"@, JsonDoc::Text("sem"@ + recipient + "@email.com"@)),
    )
}

/// The document that asks for the flow, in every state of the conversation.
pub open spec fn flow_doc(uuid: Seq<char>) -> JsonDoc {
    JsonDoc::Object(
        no_members().insert("uuid"@, JsonDoc::Text(uuid)).insert(
            "flowId"@,
            JsonDoc::Text(FLOW_ID@),
        ).insert("whenInChat"@, JsonDoc::Bool(true)).insert(
            "whenWaitForChat"@,
            JsonDoc::Bool(true),
        ).insert("whenInAuto"@, JsonDoc::Bool(true)),
    )
}

/// The request that a stage waits on.
pub open spec fn request_of(job: JobView, stage: StageView) -> RequestView {
    match stage {
        StageView::CreatingContact => RequestView {
            method: Method::Post,
            url: CONTACTS_URL@,
            headers: crm_headers(job.api_key, true),
            payload: PayloadView::Text(json_text(contact_doc(job.recipient))),
        },
        StageView::SearchingContact => RequestView {
            method: Method::Get,
            url: CONTACT_BY_PHONE_URL@ + job.recipient,
            headers: crm_headers(job.api_key, false),
            payload: PayloadView::Empty,
        },
        StageView::ReadingTimeline { contact_id } => RequestView {
            method: Method::Get,
            url: CONTACT_URL@ + contact_id + "/timeline"@,
            headers: crm_headers(job.api_key, false),
            payload: PayloadView::Empty,
        },
        StageView::ReadingChat { contact_id, chat_id } => RequestView {
            method: Method::Get,
            url: CHAT_URL@ + chat_id,
            headers: crm_headers(job.api_key, false),
            payload: PayloadView::Empty,
        },
        StageView::StartingFlow { contact_id } => RequestView {
            method: Method::Put,
            url: CONTACT_URL@ + contact_id + "/ExecFlow"@,
            headers: crm_headers(job.api_key, true),
            payload: PayloadView::Text(json_text(flow_doc(job.uuid))),
        },
        StageView::SendingPrompt => message_request(
            job.gateway_key,
            PROMPT@,
            job.source_name,
            job.recipient,
        ),
    }
}

/// The step that enters a stage.
pub open spec fn ask(job: JobView, stage: StageView) -> StepView {
    StepView::Ask(ReconcilerView { job, stage }, request_of(job, stage))
}

/// The id of the first element of a document that is an array.
pub open spec fn leading_id(doc: JsonDoc) -> Option<Seq<char>> {
    match first_of(doc) {
        Some(head) => text_of(member(head, "id"@)),
        None => None,
    }
}

/// The id that the answer to the creation of a contact gives: the member
/// `id` of the document, or else that of its first element.
pub open spec fn created_id(doc: Option<JsonDoc>) -> Option<Seq<char>> {
    match doc {
        Some(d) => match text_of(member(d, "id"@)) {
            Some(id) => Some(id),
            None => leading_id(d),
        },
        None => None,
    }
}

/// The id that the answer to a search gives: that of its first element.
pub open spec fn found_id(doc: Option<JsonDoc>) -> Option<Seq<char>> {
    match doc {
        Some(d) => leading_id(d),
        None => None,
    }
}

/// Whether the detail of a chat shows it closed: its situation is
/// `finishing`, or its session is disabled.
pub open spec fn closed(doc: JsonDoc) -> bool {
    text_of(member(doc, "situation"@)) == Some(FINISHING@) || flag_of(
        member(doc, "enabledSession"@),
    ) == Some(false)
}

/// With the id of the contact, its timeline is read; without, the
/// reconciliation fails.
pub open spec fn with_contact(job: JobView, id: Option<Seq<char>>) -> StepView {
    match id {
        Some(contact_id) => ask(job, StageView::ReadingTimeline { contact_id }),
        None => StepView::Failed(FailureView::NoContactId),
    }
}

/// What follows the answer to the creation of the contact.
pub open spec fn after_create(job: JobView, reply: ReplyView) -> StepView {
    match reply {
        ReplyView::Unreachable(detail) => StepView::Failed(
            FailureView::Unreachable { call: Call::CreateContact, detail },
        ),
        ReplyView::Answered { status, body } => {
            let text = body_or(body, UNREAD_BODY@);
            if success(status) {
                with_contact(job, created_id(json_parsed(text)))
            } else if occurs_in(EXISTING_CONTACT_MARK@, text) {
                ask(job, StageView::SearchingContact)
            } else {
                StepView::Failed(
                    FailureView::Refused { call: Call::CreateContact, status, body: text },
                )
            }
        },
    }
}

/// What follows the answer to the search for the contact.
pub open spec fn after_search(job: JobView, reply: ReplyView) -> StepView {
    match reply {
        ReplyView::Unreachable(detail) => StepView::Failed(
            FailureView::Unreachable { call: Call::SearchContact, detail },
        ),
        ReplyView::Answered { status, body } => if success(status) {
            with_contact(job, found_id(json_parsed(body_or(body, "[]"@))))
        } else {
            StepView::Failed(FailureView::NoContactId)
        },
    }
}

/// What follows a timeline: the detail of the current chat where it has an
/// id, and else the flow.
pub open spec fn after_events(
    job: JobView,
    contact_id: Seq<char>,
    events: Seq<crate::timeline::ChatEventView>,
) -> StepView {
    match current_chat(events) {
        Some(at) => match events[at].chat_id {
            Some(chat_id) => ask(job, StageView::ReadingChat { contact_id, chat_id }),
            None => ask(job, StageView::StartingFlow { contact_id }),
        },
        None => ask(job, StageView::StartingFlow { contact_id }),
    }
}

/// What follows the answer to the reading of the timeline.
pub open spec fn after_timeline(job: JobView, contact_id: Seq<char>, reply: ReplyView) -> StepView {
    match reply {
        ReplyView::Unreachable(detail) => StepView::Failed(
            FailureView::Unreachable { call: Call::ReadTimeline, detail },
        ),
        ReplyView::Answered { status, body } => if success(status) {
            match json_parsed(body_or(body, "[]"@)) {
                Some(doc) => match events_of(doc) {
                    Some(events) => after_events(job, contact_id, events),
                    None => StepView::Failed(FailureView::Unreadable { call: Call::ReadTimeline }),
                },
                None => StepView::Failed(FailureView::Unreadable { call: Call::ReadTimeline }),
            }
        } else {
            StepView::Failed(
                FailureView::Refused {
                    call: Call::ReadTimeline,
                    status,
                    body: body_or(body, UNREAD_BODY@),
                },
            )
        },
    }
}

/// What follows the answer to the reading of the current chat.
pub open spec fn after_chat(job: JobView, contact_id: Seq<char>, reply: ReplyView) -> StepView {
    match reply {
        ReplyView::Unreachable(detail) => StepView::Failed(
            FailureView::Unreachable { call: Call::ReadChat, detail },
        ),
        ReplyView::Answered { status, body } => if success(status) {
            match json_parsed(body_or(body, "{}"@)) {
                Some(doc) => if closed(doc) {
                    ask(job, StageView::StartingFlow { contact_id })
                } else {
                    StepView::Settled(Settled::LeftOpen)
                },
                None => StepView::Failed(FailureView::Unreadable { call: Call::ReadChat }),
            }
        } else {
            StepView::Failed(
                FailureView::Refused {
                    call: Call::ReadChat,
                    status,
                    body: body_or(body, UNREAD_BODY@),
                },
            )
        },
    }
}

/// What follows the answer to the start of the flow.
pub open spec fn after_flow(job: JobView, reply: ReplyView) -> StepView {
    match reply {
        ReplyView::Unreachable(detail) => StepView::Failed(
            FailureView::Unreachable { call: Call::StartFlow, detail },
        ),
        ReplyView::Answered { status, body } => if success(status) {
            ask(job, StageView::SendingPrompt)
        } else {
            StepView::Failed(
                FailureView::Refused {
                    call: Call::StartFlow,
                    status,
                    body: body_or(body, UNREAD_BODY@),
                },
            )
        },
    }
}

/// What follows the answer to the prompt: the flow stays started whether or
/// not the prompt went out.
pub open spec fn after_prompt(reply: ReplyView) -> StepView {
    StepView::Settled(Settled::Started { prompt_sent: delivery_of(reply) is Ok })
}

/// The step that an answer leads to.
pub open spec fn next(reconciler: ReconcilerView, reply: ReplyView) -> StepView {
    match reconciler.stage {
        StageView::CreatingContact => after_create(reconciler.job, reply),
        StageView::SearchingContact => after_search(reconciler.job, reply),
        StageView::ReadingTimeline { contact_id } => after_timeline(
            reconciler.job,
            contact_id,
            reply,
        ),
        StageView::ReadingChat { contact_id, chat_id } => after_chat(
            reconciler.job,
            contact_id,
            reply,
        ),
        StageView::StartingFlow { contact_id } => after_flow(reconciler.job, reply),
        StageView::SendingPrompt => after_prompt(reply),
    }
}

fn headers_for(api_key: &str, with_body: bool) -> (headers: Vec<Pair>)
    ensures
        pairs_view(headers@) == crm_headers(api_key@, with_body),
{
    let mut headers: Vec<Pair> = Vec::new();
    let bearer = join("Bearer ", api_key);
    headers.push(pair("Authorization", bearer.as_str()));
    headers.push(pair("cookie", SESSION_COOKIE));
    if with_body {
        headers.push(pair("Content-Type", "application/json"));
    }
    assert(pairs_view(headers@) =~= crm_headers(api_key@, with_body));
    headers
}

fn contact_body(recipient: &str) -> (body: String)
    ensures
        body@ == json_text(contact_doc(recipient@)),
{
    let mut members = new_members();
    put(&mut members, "name".to_owned(), text_value(join(recipient, " API")));
    put(&mut members, "phone".to_owned(), text_value(recipient.to_owned()));
    put(&mut members, "email".to_owned(), text_value(join3("sem", recipient, "@email.com")));
    to_text(&object_value(members))
}

fn flow_body(uuid: &str) -> (body: String)
    ensures
        body@ == json_text(flow_doc(uuid@)),
{
    let mut members = new_members();
    put(&mut members, "uuid".to_owned(), text_value(uuid.to_owned()));
    put(&mut members, "flowId".to_owned(), text_value(FLOW_ID.to_owned()));
    put(&mut members, "whenInChat".to_owned(), flag_value(true));
    put(&mut members, "whenWaitForChat".to_owned(), flag_value(true));
    put(&mut members, "whenInAuto".to_owned(), flag_value(true));
    to_text(&object_value(members))
}

/// Builds the request that a stage waits on.
pub fn request_for(job: &Job, stage: &Stage) -> (request: Request)
    ensures
        request@ == request_of(job@, stage@),
{
    match stage {
        Stage::CreatingContact => Request {
            method: Method::Post,
            url: CONTACTS_URL.to_owned(),
            headers: headers_for(job.api_key.as_str(), true),
            payload: Payload::Text(contact_body(job.recipient.as_str())),
        },
        Stage::SearchingContact => Request {
            method: Method::Get,
            url: join(CONTACT_BY_PHONE_URL, job.recipient.as_str()),
            headers: headers_for(job.api_key.as_str(), false),
            payload: Payload::Empty,
        },
        Stage::ReadingTimeline { contact_id } => Request {
            method: Method::Get,
            url: join3(CONTACT_URL, contact_id.as_str(), "/timeline"),
            headers: headers_for(job.api_key.as_str(), false),
            payload: Payload::Empty,
        },
        Stage::ReadingChat { contact_id, chat_id } => Request {
            method: Method::Get,
            url: join(CHAT_URL, chat_id.as_str()),
            headers: headers_for(job.api_key.as_str(), false),
            payload: Payload::Empty,
        },
        Stage::StartingFlow { contact_id } => Request {
            method: Method::Put,
            url: join3(CONTACT_URL, contact_id.as_str(), "/ExecFlow"),
            headers: headers_for(job.api_key.as_str(), true),
            payload: Payload::Text(flow_body(job.uuid.as_str())),
        },
        Stage::SendingPrompt => send_gupshup_message(
            job.gateway_key.as_str(),
            PROMPT,
            (job.source_name.as_str(), job.routing_key.as_str()),
            job.recipient.as_str(),
        ),
    }
}

fn enter(job: Job, stage: Stage) -> (step: Step)
    ensures
        step@ == ask(job@, stage@),
{
    let request = request_for(&job, &stage);
    Step::Ask(Reconciler { job, stage }, request)
}

fn refused(call: Call, status: u16, body: Option<String>) -> (step: Step)
    ensures
        step@ == StepView::Failed(
            FailureView::Refused { call, status, body: body_or(opt_text(body), UNREAD_BODY@) },
        ),
{
    Step::Failed(Failure::Refused { call, status, body: body_text(body, UNREAD_BODY) })
}

/// The id of the first element of a document that is an array.
pub fn leading_id_of(doc: &serde_json::Value) -> (id: Option<String>)
    ensures
        opt_text(id) == leading_id(json_content(*doc)),
{
    match first_element(doc) {
        Some(head) => member_text(head, "id"),
        None => None,
    }
}

/// The id of the contact in the document that answers its creation.
pub fn created_id_of(doc: &serde_json::Value) -> (id: Option<String>)
    ensures
        opt_text(id) == created_id(Some(json_content(*doc))),
{
    match member_text(doc, "id") {
        Some(id) => Some(id),
        None => leading_id_of(doc),
    }
}

/// Whether the detail of a chat shows it closed.
pub fn is_closed(doc: &serde_json::Value) -> (r: bool)
    ensures
        r == closed(json_content(*doc)),
{
    let finishing = match member_text(doc, "situation") {
        Some(situation) => same(situation.as_str(), FINISHING),
        None => false,
    };
    let disabled = match member_flag(doc, "enabledSession") {
        Some(enabled) => !enabled,
        None => false,
    };
    finishing || disabled
}

fn proceed_with(job: Job, id: Option<String>) -> (step: Step)
    ensures
        step@ == with_contact(job@, opt_text(id)),
{
    match id {
        Some(contact_id) => enter(job, Stage::ReadingTimeline { contact_id }),
        None => Step::Failed(Failure::NoContactId),
    }
}

fn on_created(job: Job, reply: Reply) -> (step: Step)
    ensures
        step@ == after_create(job@, reply@),
{
    match reply {
        Reply::Unreachable(detail) => Step::Failed(
            Failure::Unreachable { call: Call::CreateContact, detail },
        ),
        Reply::Answered { status, body } => {
            let text = body_text(body, UNREAD_BODY);
            if is_success(status) {
                let id = match parse(text.as_str()) {
                    Ok(doc) => created_id_of(&doc),
                    Err(_) => None,
                };
                proceed_with(job, id)
            } else if contains(text.as_str(), EXISTING_CONTACT_MARK) {
                enter(job, Stage::SearchingContact)
            } else {
                Step::Failed(Failure::Refused { call: Call::CreateContact, status, body: text })
            }
        },
    }
}

fn on_searched(job: Job, reply: Reply) -> (step: Step)
    ensures
        step@ == after_search(job@, reply@),
{
    match reply {
        Reply::Unreachable(detail) => Step::Failed(
            Failure::Unreachable { call: Call::SearchContact, detail },
        ),
        Reply::Answered { status, body } => {
            if is_success(status) {
                let text = body_text(body, "[]");
                let id = match parse(text.as_str()) {
                    Ok(doc) => leading_id_of(&doc),
                    Err(_) => None,
                };
                proceed_with(job, id)
            } else {
                Step::Failed(Failure::NoContactId)
            }
        },
    }
}

fn on_timeline(job: Job, contact_id: String, reply: Reply) -> (step: Step)
    ensures
        step@ == after_timeline(job@, contact_id@, reply@),
{
    match reply {
        Reply::Unreachable(detail) => Step::Failed(
            Failure::Unreachable { call: Call::ReadTimeline, detail },
        ),
        Reply::Answered { status, body } => {
            if !is_success(status) {
                return refused(Call::ReadTimeline, status, body);
            }
            let text = body_text(body, "[]");
            let doc = match parse(text.as_str()) {
                Ok(doc) => doc,
                Err(_) => {
                    return Step::Failed(Failure::Unreadable { call: Call::ReadTimeline });
                },
            };
            let events = match read_events(&doc) {
                Some(events) => events,
                None => {
                    return Step::Failed(Failure::Unreadable { call: Call::ReadTimeline });
                },
            };
            match find_current_chat(&events) {
                Some(at) => match &events[at].chat_id {
                    Some(chat_id) => {
                        let chat_id = chat_id.clone();
                        enter(job, Stage::ReadingChat { contact_id, chat_id })
                    },
                    None => enter(job, Stage::StartingFlow { contact_id }),
                },
                None => enter(job, Stage::StartingFlow { contact_id }),
            }
        },
    }
}

fn on_chat(job: Job, contact_id: String, reply: Reply) -> (step: Step)
    ensures
        step@ == after_chat(job@, contact_id@, reply@),
{
    match reply {
        Reply::Unreachable(detail) => Step::Failed(
            Failure::Unreachable { call: Call::ReadChat, detail },
        ),
        Reply::Answered { status, body } => {
            if !is_success(status) {
                return refused(Call::ReadChat, status, body);
            }
            let text = body_text(body, "{}");
            match parse(text.as_str()) {
                Ok(doc) => {
                    if is_closed(&doc) {
                        enter(job, Stage::StartingFlow { contact_id })
                    } else {
                        Step::Settled(Settled::LeftOpen)
                    }
                },
                Err(_) => Step::Failed(Failure::Unreadable { call: Call::ReadChat }),
            }
        },
    }
}

fn on_flow(job: Job, reply: Reply) -> (step: Step)
    ensures
        step@ == after_flow(job@, reply@),
{
    match reply {
        Reply::Unreachable(detail) => Step::Failed(
            Failure::Unreachable { call: Call::StartFlow, detail },
        ),
        Reply::Answered { status, body } => {
            if is_success(status) {
                enter(job, Stage::SendingPrompt)
            } else {
                refused(Call::StartFlow, status, body)
            }
        },
    }
}

/// Begins the reconciliation for the recipient `to`: answers with the
/// reconciler and the request that creates the contact. `conn` is the source
/// name and the routing key, in this order.
pub fn create_contact(
    apikey: &str,
    uuid: &str,
    conn: (String, String),
    to: &str,
    apikey_gup: &str,
) -> (begun: (Reconciler, Request))
    ensures
        begun.0@.stage == StageView::CreatingContact,
        begun.0@.job == (JobView {
            api_key: apikey@,
            gateway_key: apikey_gup@,
            uuid: uuid@,
            source_name: conn.0@,
            routing_key: conn.1@,
            recipient: to@,
        }),
        begun.1@ == request_of(begun.0@.job, StageView::CreatingContact),
{
    let job = Job {
        api_key: apikey.to_owned(),
        gateway_key: apikey_gup.to_owned(),
        uuid: uuid.to_owned(),
        source_name: conn.0,
        routing_key: conn.1,
        recipient: to.to_owned(),
    };
    let stage = Stage::CreatingContact;
    let request = request_for(&job, &stage);
    (Reconciler { job, stage }, request)
}

impl Reconciler {
    /// Takes the answer to the request that was asked last, and says what
    /// comes next.
    pub fn advance(self, reply: Reply) -> (step: Step)
        ensures
            step@ == next(self@, reply@),
    {
        let Reconciler { job, stage } = self;
        match stage {
            Stage::CreatingContact => on_created(job, reply),
            Stage::SearchingContact => on_searched(job, reply),
            Stage::ReadingTimeline { contact_id } => on_timeline(job, contact_id, reply),
            Stage::ReadingChat { contact_id, chat_id } => on_chat(job, contact_id, reply),
            Stage::StartingFlow { contact_id } => on_flow(job, reply),
            Stage::SendingPrompt => {
                let sent = delivery(reply).is_ok();
                Step::Settled(Settled::Started { prompt_sent: sent })
            },
        }
    }
}

} // verus!
