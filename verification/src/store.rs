//! Sessions with the relational stores: the two routing lookups and the
//! insertion of an audit record.
//!
//! A session is three statements on one connection. The first two bound the
//! time that the third may take: the statement timeout and the timeout for an
//! idle transaction, thirty seconds each. The third is the lookup or the
//! insertion itself. A statement that fails ends the session with the error
//! of the driver. A lookup that finds no row, or a row whose column cannot be
//! read as text, ends it with nothing found, which is no error.
//!
//! The text of the statements belongs to the caller: a [`Command`] says which
//! statement to run, with its arguments.

use vstd::prelude::*;

verus! {

/// The seconds that bound a statement and an idle transaction.
pub const LIMIT_SECONDS: u32 = 30;

/// The time after which an idle connection is probed, in seconds.
pub const KEEPALIVES_IDLE_SECONDS: u64 = 30;

/// The time between two probes of an idle connection, in seconds.
pub const KEEPALIVES_INTERVAL_SECONDS: u64 = 10;

/// The probes that may be lost before a connection counts as dead.
pub const KEEPALIVES_RETRIES: u32 = 5;

/// The connections that a pool may hold.
pub const POOL_SIZE: usize = 16;

/// How a pool of connections is set up.
#[derive(Debug, Clone, Copy, PartialEq, Eq, Structural)]
pub struct PoolSettings {
    pub keepalives_idle_seconds: u64,
    pub keepalives_interval_seconds: u64,
    pub keepalives_retries: u32,
    pub max_size: usize,
}

/// The settings of every pool of this worker.
pub fn pool_settings() -> (settings: PoolSettings)
    ensures
        settings == (PoolSettings {
            keepalives_idle_seconds: 30,
            keepalives_interval_seconds: 10,
            keepalives_retries: 5,
            max_size: 16,
        }),
{
    PoolSettings {
        keepalives_idle_seconds: KEEPALIVES_IDLE_SECONDS,
        keepalives_interval_seconds: KEEPALIVES_INTERVAL_SECONDS,
        keepalives_retries: KEEPALIVES_RETRIES,
        max_size: POOL_SIZE,
    }
}

/// The record of one processed reply.
#[derive(Debug, Clone, PartialEq, Eq)]
pub struct AuditRecord {
    pub recipient: String,
    pub outbound_message: String,
    pub inbound_button_text: String,
    pub flow_tag: String,
}

pub struct AuditRecordView {
    pub recipient: Seq<char>,
    pub outbound_message: Seq<char>,
    pub inbound_button_text: Seq<char>,
    pub flow_tag: Seq<char>,
}

impl View for AuditRecord {
    type V = AuditRecordView;

    open spec fn view(&self) -> AuditRecordView {
        AuditRecordView {
            recipient: self.recipient@,
            outbound_message: self.outbound_message@,
            inbound_button_text: self.inbound_button_text@,
            flow_tag: self.flow_tag@,
        }
    }
}

/// What a session is for.
#[derive(Debug, Clone, PartialEq, Eq)]
pub enum Task {
    /// Find the UUID that belongs to a routing key.
    FetchUuid { routing_key: String },
    /// Find the source name that belongs to a routing key.
    FetchConn { routing_key: String },
    /// Insert an audit record.
    InsertLog(AuditRecord),
}

pub enum TaskView {
    FetchUuid { routing_key: Seq<char> },
    FetchConn { routing_key: Seq<char> },
    InsertLog(AuditRecordView),
}

impl View for Task {
    type V = TaskView;

    open spec fn view(&self) -> TaskView {
        match self {
            Task::FetchUuid { routing_key } => TaskView::FetchUuid { routing_key: routing_key@ },
            Task::FetchConn { routing_key } => TaskView::FetchConn { routing_key: routing_key@ },
            Task::InsertLog(record) => TaskView::InsertLog(record@),
        }
    }
}

/// A statement to run on the connection of the session.
#[derive(Debug, Clone, PartialEq, Eq)]
pub enum Command {
    /// Bound the time of every statement that follows.
    LimitStatement { seconds: u32 },
    /// Bound the time that a transaction may stay idle.
    LimitIdle { seconds: u32 },
    /// Select the UUID of the parameters whose connection has this source;
    /// at most one row is expected.
    SelectUuid { routing_key: String },
    /// Select the source name of the parameters whose connection has this
    /// source; at most one row is expected.
    SelectSourceName { routing_key: String },
    /// Insert the record.
    Insert(AuditRecord),
}

pub enum CommandView {
    LimitStatement { seconds: u32 },
    LimitIdle { seconds: u32 },
    SelectUuid { routing_key: Seq<char> },
    SelectSourceName { routing_key: Seq<char> },
    Insert(AuditRecordView),
}

impl View for Command {
    type V = CommandView;

    open spec fn view(&self) -> CommandView {
        match self {
            Command::LimitStatement { seconds } => CommandView::LimitStatement {
                seconds: *seconds,
            },
            Command::LimitIdle { seconds } => CommandView::LimitIdle { seconds: *seconds },
            Command::SelectUuid { routing_key } => CommandView::SelectUuid {
                routing_key: routing_key@,
            },
            Command::SelectSourceName { routing_key } => CommandView::SelectSourceName {
                routing_key: routing_key@,
            },
            Command::Insert(record) => CommandView::Insert(record@),
        }
    }
}

/// What the store said to a statement.
#[derive(Debug, Clone, PartialEq, Eq)]
pub enum Outcome {
    /// The statement failed; the text is the error of the driver.
    Failed(String),
    /// The statement was carried out and gives no row.
    Done,
    /// The selection matched no row.
    NoRow,
    /// The selection matched one row. `column` is the text of the selected
    /// column, absent where the column cannot be read as text.
    Row { column: Option<String> },
}

pub enum OutcomeView {
    Failed(Seq<char>),
    Done,
    NoRow,
    Row { column: Option<Seq<char>> },
}

impl View for Outcome {
    type V = OutcomeView;

    open spec fn view(&self) -> OutcomeView {
        match self {
            Outcome::Failed(why) => OutcomeView::Failed(why@),
            Outcome::Done => OutcomeView::Done,
            Outcome::NoRow => OutcomeView::NoRow,
            Outcome::Row { column } => OutcomeView::Row {
                column: match column {
                    Some(text) => Some(text@),
                    None => None,
                },
            },
        }
    }
}

/// Why a session was given up.
#[derive(Debug, Clone, PartialEq, Eq)]
pub enum StoreError {
    /// The store failed a statement.
    Driver(String),
    /// The store answered a statement with what that statement cannot give.
    OutOfTurn,
}

pub enum StoreErrorView {
    Driver(Seq<char>),
    OutOfTurn,
}

impl View for StoreError {
    type V = StoreErrorView;

    open spec fn view(&self) -> StoreErrorView {
        match self {
            StoreError::Driver(why) => StoreErrorView::Driver(why@),
            StoreError::OutOfTurn => StoreErrorView::OutOfTurn,
        }
    }
}

/// What a session gave.
#[derive(Debug, Clone, PartialEq, Eq)]
pub enum Found {
    /// The text that a lookup found.
    Value(String),
    /// A lookup found nothing.
    Nothing,
    /// The record was inserted.
    Recorded,
}

pub enum FoundView {
    Value(Seq<char>),
    Nothing,
    Recorded,
}

impl View for Found {
    type V = FoundView;

    open spec fn view(&self) -> FoundView {
        match self {
            Found::Value(text) => FoundView::Value(text@),
            Found::Nothing => FoundView::Nothing,
            Found::Recorded => FoundView::Recorded,
        }
    }
}

/// The statement whose outcome a session waits for.
#[derive(Debug, Clone, Copy, PartialEq, Eq, Structural)]
pub enum Waiting {
    StatementLimit,
    IdleLimit,
    Result,
}

/// A session under way.
#[derive(Debug, Clone, PartialEq, Eq)]
pub struct Session {
    pub task: Task,
    pub waiting: Waiting,
}

pub struct SessionView {
    pub task: TaskView,
    pub waiting: Waiting,
}

impl View for Session {
    type V = SessionView;

    open spec fn view(&self) -> SessionView {
        SessionView { task: self.task@, waiting: self.waiting }
    }
}

/// What a session says after an outcome.
#[derive(Debug, PartialEq, Eq)]
pub enum Turn {
    /// Run the statement, and come back with its outcome.
    Run(Session, Command),
    Finished(Result<Found, StoreError>),
}

pub enum TurnView {
    Run(SessionView, CommandView),
    Finished(Result<FoundView, StoreErrorView>),
}

impl View for Turn {
    type V = TurnView;

    open spec fn view(&self) -> TurnView {
        match self {
            Turn::Run(session, command) => TurnView::Run(session@, command@),
            Turn::Finished(Ok(found)) => TurnView::Finished(Ok(found@)),
            Turn::Finished(Err(error)) => TurnView::Finished(Err(error@)),
        }
    }
}

/// The statement that a task is about.
pub open spec fn statement_of(task: TaskView) -> CommandView {
    match task {
        TaskView::FetchUuid { routing_key } => CommandView::SelectUuid { routing_key },
        TaskView::FetchConn { routing_key } => CommandView::SelectSourceName { routing_key },
        TaskView::InsertLog(record) => CommandView::Insert(record),
    }
}

/// The statement that a session waits on.
pub open spec fn command_of(session: SessionView) -> CommandView {
    match session.waiting {
        Waiting::StatementLimit => CommandView::LimitStatement { seconds: LIMIT_SECONDS },
        Waiting::IdleLimit => CommandView::LimitIdle { seconds: LIMIT_SECONDS },
        Waiting::Result => statement_of(session.task),
    }
}

/// A session at its beginning, with its first statement.
pub open spec fn opening(task: TaskView) -> (SessionView, CommandView) {
    let session = SessionView { task, waiting: Waiting::StatementLimit };
    (session, command_of(session))
}

/// What the outcome of the statement of a task means.
pub open spec fn result_of(task: TaskView, outcome: OutcomeView) -> Result<
    FoundView,
    StoreErrorView,
> {
    match outcome {
        OutcomeView::Failed(why) => Err(StoreErrorView::Driver(why)),
        OutcomeView::Done => match task {
            TaskView::InsertLog(_) => Ok(FoundView::Recorded),
            _ => Err(StoreErrorView::OutOfTurn),
        },
        OutcomeView::NoRow => match task {
            TaskView::InsertLog(_) => Err(StoreErrorView::OutOfTurn),
            _ => Ok(FoundView::Nothing),
        },
        OutcomeView::Row { column } => match task {
            TaskView::InsertLog(_) => Err(StoreErrorView::OutOfTurn),
            _ => match column {
                Some(text) => Ok(FoundView::Value(text)),
                None => Ok(FoundView::Nothing),
            },
        },
    }
}

/// The session after a limit was set.
pub open spec fn after_limit(session: SessionView, then: Waiting, outcome: OutcomeView) -> TurnView {
    match outcome {
        OutcomeView::Done => {
            let onward = SessionView { task: session.task, waiting: then };
            TurnView::Run(onward, command_of(onward))
        },
        OutcomeView::Failed(why) => TurnView::Finished(Err(StoreErrorView::Driver(why))),
        _ => TurnView::Finished(Err(StoreErrorView::OutOfTurn)),
    }
}

/// The turn that an outcome leads to.
pub open spec fn following(session: SessionView, outcome: OutcomeView) -> TurnView {
    match session.waiting {
        Waiting::StatementLimit => after_limit(session, Waiting::IdleLimit, outcome),
        Waiting::IdleLimit => after_limit(session, Waiting::Result, outcome),
        Waiting::Result => TurnView::Finished(result_of(session.task, outcome)),
    }
}

fn copy_of(record: &AuditRecord) -> (copy: AuditRecord)
    ensures
        copy@ == record@,
{
    AuditRecord {
        recipient: record.recipient.clone(),
        outbound_message: record.outbound_message.clone(),
        inbound_button_text: record.inbound_button_text.clone(),
        flow_tag: record.flow_tag.clone(),
    }
}

fn command_for(session: &Session) -> (command: Command)
    ensures
        command@ == command_of(session@),
{
    match session.waiting {
        Waiting::StatementLimit => Command::LimitStatement { seconds: LIMIT_SECONDS },
        Waiting::IdleLimit => Command::LimitIdle { seconds: LIMIT_SECONDS },
        Waiting::Result => match &session.task {
            Task::FetchUuid { routing_key } => Command::SelectUuid {
                routing_key: routing_key.clone(),
            },
            Task::FetchConn { routing_key } => Command::SelectSourceName {
                routing_key: routing_key.clone(),
            },
            Task::InsertLog(record) => Command::Insert(copy_of(record)),
        },
    }
}

fn open(task: Task) -> (begun: (Session, Command))
    ensures
        (begun.0@, begun.1@) == opening(task@),
{
    let session = Session { task, waiting: Waiting::StatementLimit };
    let command = command_for(&session);
    (session, command)
}

/// Begins the lookup of the UUID that belongs to the routing key `source`.
pub fn fetch_uuid(source: &str) -> (begun: (Session, Command))
    ensures
        (begun.0@, begun.1@) == opening(TaskView::FetchUuid { routing_key: source@ }),
{
    open(Task::FetchUuid { routing_key: source.to_owned() })
}

/// Begins the lookup of the source name that belongs to the routing key
/// `source`.
pub fn fetch_conn(source: &str) -> (begun: (Session, Command))
    ensures
        (begun.0@, begun.1@) == opening(TaskView::FetchConn { routing_key: source@ }),
{
    open(Task::FetchConn { routing_key: source.to_owned() })
}

/// Begins the insertion of an audit record: the recipient `num`, the text
/// `msg` that went out, the text `resp_cliente` of the button that came in,
/// and the tag of the flow.
pub fn insert_log(num: &str, msg: &str, resp_cliente: &str, flow_tag: &str) -> (begun: (
    Session,
    Command,
))
    ensures
        (begun.0@, begun.1@) == opening(
            TaskView::InsertLog(
                AuditRecordView {
                    recipient: num@,
                    outbound_message: msg@,
                    inbound_button_text: resp_cliente@,
                    flow_tag: flow_tag@,
                },
            ),
        ),
{
    open(
        Task::InsertLog(
            AuditRecord {
                recipient: num.to_owned(),
                outbound_message: msg.to_owned(),
                inbound_button_text: resp_cliente.to_owned(),
                flow_tag: flow_tag.to_owned(),
            },
        ),
    )
}

fn limit_set(task: Task, then: Waiting, outcome: Outcome) -> (turn: Turn)
    ensures
        forall|waiting: Waiting|
            turn@ == after_limit(SessionView { task: task@, waiting }, then, outcome@),
{
    match outcome {
        Outcome::Done => {
            let onward = Session { task, waiting: then };
            let command = command_for(&onward);
            Turn::Run(onward, command)
        },
        Outcome::Failed(why) => Turn::Finished(Err(StoreError::Driver(why))),
        _ => Turn::Finished(Err(StoreError::OutOfTurn)),
    }
}

fn conclude(task: &Task, outcome: Outcome) -> (result: Result<Found, StoreError>)
    ensures
        (Turn::Finished(result))@ == TurnView::Finished(result_of(task@, outcome@)),
{
    let inserting = match task {
        Task::InsertLog(_) => true,
        _ => false,
    };
    match outcome {
        Outcome::Failed(why) => Err(StoreError::Driver(why)),
        Outcome::Done => if inserting {
            Ok(Found::Recorded)
        } else {
            Err(StoreError::OutOfTurn)
        },
        Outcome::NoRow => if inserting {
            Err(StoreError::OutOfTurn)
        } else {
            Ok(Found::Nothing)
        },
        Outcome::Row { column } => if inserting {
            Err(StoreError::OutOfTurn)
        } else {
            match column {
                Some(text) => Ok(Found::Value(text)),
                None => Ok(Found::Nothing),
            }
        },
    }
}

impl Session {
    /// Takes the outcome of the statement that was run last, and says what
    /// comes next.
    pub fn advance(self, outcome: Outcome) -> (turn: Turn)
        ensures
            turn@ == following(self@, outcome@),
    {
        let Session { task, waiting } = self;
        match waiting {
            Waiting::StatementLimit => limit_set(task, Waiting::IdleLimit, outcome),
            Waiting::IdleLimit => limit_set(task, Waiting::Result, outcome),
            Waiting::Result => Turn::Finished(conclude(&task, outcome)),
        }
    }
}

/// The first statement of a session sets the statement timeout to thirty
/// seconds.
pub proof fn lemma_session_opens_with_limit(task: TaskView)
    ensures
        opening(task).1 == (CommandView::LimitStatement { seconds: 30 }),
        opening(task).0.task == task,
{
}

/// A session goes on after a limit only when the limit was set, and what
/// follows the first limit is the second, of thirty seconds.
pub proof fn lemma_second_limit_follows(task: TaskView, outcome: OutcomeView)
    ensures
        following(opening(task).0, outcome) is Run <==> outcome == OutcomeView::Done,
        following(opening(task).0, outcome) matches TurnView::Run(session, command) ==> command
            == (CommandView::LimitIdle { seconds: 30 }) && session == (SessionView {
            task,
            waiting: Waiting::IdleLimit,
        }),
{
}

/// The statement of the task is run only after both limits were set.
pub proof fn lemma_statement_follows_limits(session: SessionView, outcome: OutcomeView)
    ensures
        following(session, outcome) matches TurnView::Run(onward, command) ==> (command
            == statement_of(session.task) <==> session.waiting == Waiting::IdleLimit),
        following(session, outcome) matches TurnView::Run(onward, command) ==> outcome
            == OutcomeView::Done && onward.task == session.task,
{
}

/// A session is over with the outcome of the statement of its task.
pub proof fn lemma_statement_ends_session(session: SessionView, outcome: OutcomeView)
    requires
        session.waiting == Waiting::Result,
    ensures
        following(session, outcome) is Finished,
{
}

/// A lookup that matches no row, or a row whose column cannot be read, finds
/// nothing, which is no error; only a failed statement is one.
pub proof fn lemma_absence_is_no_error(task: TaskView, outcome: OutcomeView)
    requires
        !(task is InsertLog),
    ensures
        outcome is NoRow ==> result_of(task, outcome) == Ok::<FoundView, StoreErrorView>(
            FoundView::Nothing,
        ),
        outcome == (OutcomeView::Row { column: None }) ==> result_of(task, outcome) == Ok::<
            FoundView,
            StoreErrorView,
        >(FoundView::Nothing),
        result_of(task, outcome) matches Err(StoreErrorView::Driver(why)) ==> outcome
            == OutcomeView::Failed(why),
{
}

} // verus!
