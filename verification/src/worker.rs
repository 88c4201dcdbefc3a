//! The sync worker's decisions.
//!
//! The worker owns the connection to the remote store and serves the
//! controller's instructions one at a time, in the order in which they
//! arrive. What it decides is written here as steps of a state machine; the
//! task that runs the worker performs what a step asks for (open the
//! connection, run a statement, pause, send messages) and comes back with
//! what happened.
//!
//! ```text
//! Configured --start--> Connecting --connected(true)--> Ready
//!      |                    |                          |    ^
//!      v                    v                       accept  finish
//!   Stopped              Stopped                       v    |
//!                                                    Running
//! ```

use vstd::prelude::*;
use crate::config::{is_url, AppConfig};
use crate::protocol::{
    FetchReason, FetchReasonView, Instruction, InstructionView, Message, MessageView, views_of,
    STATUS_CONNECTING, STATUS_DELETE_FAILED, STATUS_FETCH_FAILED, STATUS_LIST_FAILED,
    STATUS_NOT_FOUND, STATUS_NO_SERVER, STATUS_NO_TOKEN, STATUS_UPLOAD_FAILED,
};
use crate::remote::{Outcome, Query, QueryKind, QueryView, Reply, ReplyView};
use crate::timestamp::Timestamp;

verus! {

/// What the worker waits for while a statement is under way.
#[derive(Debug, Clone, PartialEq, Eq)]
pub enum Pending {
    /// The result of a list statement.
    List,
    /// The result of an insertion.
    Create,
    /// The result of the pruning that follows an insertion.
    Prune,
    /// The result of a fetch made for this reason.
    Fetch(FetchReason),
    /// The result of a deletion.
    Delete,
}

/// The mathematical value of a [`Pending`].
pub enum PendingView {
    List,
    Create,
    Prune,
    Fetch(FetchReasonView),
    Delete,
}

impl View for Pending {
    type V = PendingView;

    open spec fn view(&self) -> PendingView {
        match *self {
            Pending::List => PendingView::List,
            Pending::Create => PendingView::Create,
            Pending::Prune => PendingView::Prune,
            Pending::Fetch(reason) => PendingView::Fetch(reason@),
            Pending::Delete => PendingView::Delete,
        }
    }
}

impl PendingView {
    /// The kind of the statement that is under way.
    pub open spec fn kind(self) -> QueryKind {
        match self {
            PendingView::List => QueryKind::List,
            PendingView::Create => QueryKind::Insert,
            PendingView::Prune => QueryKind::Prune,
            PendingView::Fetch(_) => QueryKind::Fetch,
            PendingView::Delete => QueryKind::Delete,
        }
    }
}

/// Where the worker stands.
#[derive(Debug, Clone, PartialEq, Eq)]
pub enum Phase {
    /// Made, not started.
    Configured,
    /// Started; the connection is being opened.
    Connecting,
    /// Connected and idle: the next instruction can be accepted.
    Ready,
    /// A statement is under way.
    Running(Pending),
    /// Ended: for want of configuration, or because the connection failed.
    Stopped,
}

/// The mathematical value of a [`Phase`].
pub enum PhaseView {
    Configured,
    Connecting,
    Ready,
    Running(PendingView),
    Stopped,
}

impl View for Phase {
    type V = PhaseView;

    open spec fn view(&self) -> PhaseView {
        match *self {
            Phase::Configured => PhaseView::Configured,
            Phase::Connecting => PhaseView::Connecting,
            Phase::Ready => PhaseView::Ready,
            Phase::Running(pending) => PhaseView::Running(pending@),
            Phase::Stopped => PhaseView::Stopped,
        }
    }
}

/// What the worker's task is to do after a statement's result was handled:
/// pause if asked, then send the messages in order, then run the next
/// statement if there is one.
#[derive(Debug, Clone, PartialEq, Eq)]
pub struct Step {
    /// Whether to pause before the messages are sent, so that the loading
    /// indicator can be seen. Asked for after every success that is reported.
    pub pause: bool,
    pub messages: Vec<Message>,
    /// A statement to run in the same turn, before the next instruction.
    pub next: Option<Query>,
}

/// The mathematical value of a [`Step`].
#[verifier::ext_equal]
pub struct StepView {
    pub pause: bool,
    pub messages: Seq<MessageView>,
    pub next: Option<QueryView>,
}

impl View for Step {
    type V = StepView;

    open spec fn view(&self) -> StepView {
        StepView {
            pause: self.pause,
            messages: views_of(self.messages@),
            next: match self.next {
                Some(query) => Some(query@),
                None => None,
            },
        }
    }
}

/// The messages of a failed action: `ActionFailed`, then the status text.
pub open spec fn failure(text: Seq<char>) -> Seq<MessageView> {
    seq![MessageView::ActionFailed, MessageView::Status(text)]
}

/// What the worker sends when it starts, and where it stands then: without
/// a valid endpoint it reports that and stops; without a token it reports
/// that and stops; else it announces the connection attempt.
pub open spec fn started(endpoint_valid: bool, has_token: bool) -> (Seq<MessageView>, PhaseView) {
    if !endpoint_valid {
        (seq![MessageView::Status(STATUS_NO_SERVER@)], PhaseView::Stopped)
    } else if !has_token {
        (seq![MessageView::Status(STATUS_NO_TOKEN@)], PhaseView::Stopped)
    } else {
        (seq![MessageView::Status(STATUS_CONNECTING@)], PhaseView::Connecting)
    }
}

/// The statement that serves an instruction of `client` at the instant
/// `now`, and what the worker waits for while it runs.
pub open spec fn planned(client: Seq<char>, instruction: InstructionView, now: Timestamp) -> (
    QueryView,
    PendingView,
) {
    match instruction {
        InstructionView::ListBackups => (QueryView::List { client_id: client }, PendingView::List),
        InstructionView::CreateBackup(payload) => (
            QueryView::Insert { client_id: client, created_at: now, payload },
            PendingView::Create,
        ),
        InstructionView::FetchBackup(id, reason) => (
            QueryView::Fetch { client_id: client, id },
            PendingView::Fetch(reason),
        ),
        InstructionView::DeleteBackup(id) => (
            QueryView::Delete { client_id: client, id },
            PendingView::Delete,
        ),
    }
}

/// What follows from a statement's result.
///
/// - A list: the list on success, else a failure.
/// - An insertion: `BackupCreated` on success, else a failure; either way
///   the pruning for the client runs next.
/// - A pruning: nothing is sent, whether it succeeded or not.
/// - A fetch: the contents with the reason on success, a failure where no
///   such backup exists, another failure where the statement failed.
/// - A deletion: `BackupDeleted` on success, else a failure.
///
/// A result that does not belong to the statement counts as its failure.
pub open spec fn concluded(client: Seq<char>, pending: PendingView, reply: ReplyView) -> StepView {
    match pending {
        PendingView::List => match reply {
            ReplyView::Listed(list) => StepView {
                pause: true,
                messages: seq![MessageView::BackupList(list)],
                next: None,
            },
            _ => StepView { pause: false, messages: failure(STATUS_LIST_FAILED@), next: None },
        },
        PendingView::Create => match reply {
            ReplyView::Inserted => StepView {
                pause: true,
                messages: seq![MessageView::BackupCreated],
                next: Some(QueryView::Prune { client_id: client }),
            },
            _ => StepView {
                pause: false,
                messages: failure(STATUS_UPLOAD_FAILED@),
                next: Some(QueryView::Prune { client_id: client }),
            },
        },
        PendingView::Prune => StepView { pause: false, messages: Seq::empty(), next: None },
        PendingView::Fetch(reason) => match reply {
            ReplyView::Fetched(Some(bytes)) => StepView {
                pause: true,
                messages: seq![MessageView::BackupContents(bytes, reason)],
                next: None,
            },
            ReplyView::Fetched(None) => StepView {
                pause: false,
                messages: failure(STATUS_NOT_FOUND@),
                next: None,
            },
            _ => StepView { pause: false, messages: failure(STATUS_FETCH_FAILED@), next: None },
        },
        PendingView::Delete => match reply {
            ReplyView::Deleted => StepView {
                pause: true,
                messages: seq![MessageView::BackupDeleted],
                next: None,
            },
            _ => StepView { pause: false, messages: failure(STATUS_DELETE_FAILED@), next: None },
        },
    }
}

/// Where the worker stands after a statement's result was handled: waiting
/// for the pruning after an insertion, ready otherwise.
pub open spec fn phase_after(pending: PendingView) -> PhaseView {
    match pending {
        PendingView::Create => PhaseView::Running(PendingView::Prune),
        _ => PhaseView::Ready,
    }
}

/// The sync worker of one client.
#[derive(Debug)]
pub struct Worker {
    client_id: String,
    phase: Phase,
}

/// The mathematical value of a [`Worker`].
pub struct WorkerView {
    pub client_id: Seq<char>,
    pub phase: PhaseView,
}

impl View for Worker {
    type V = WorkerView;

    closed spec fn view(&self) -> WorkerView {
        WorkerView { client_id: self.client_id@, phase: self.phase@ }
    }
}

/// `ActionFailed`, then the status text.
fn failure_messages(text: &str) -> (messages: Vec<Message>)
    ensures
        views_of(messages@) == failure(text@),
{
    let mut messages: Vec<Message> = Vec::new();
    messages.push(Message::ActionFailed);
    messages.push(Message::Status(text.to_string()));
    assert(views_of(messages@) =~= failure(text@));
    messages
}

/// One message.
fn single(message: Message) -> (messages: Vec<Message>)
    ensures
        views_of(messages@) == seq![message@],
{
    let mut messages: Vec<Message> = Vec::new();
    messages.push(message);
    assert(views_of(messages@) =~= seq![message@]);
    messages
}

impl Worker {
    /// A worker for the client of this id, not started yet.
    pub fn new(client_id: String) -> (worker: Worker)
        ensures
            worker@ == (WorkerView { client_id: client_id@, phase: PhaseView::Configured }),
    {
        Worker { client_id, phase: Phase::Configured }
    }

    /// The client that the worker serves.
    pub fn client_id(&self) -> (id: &String)
        ensures
            id@ == self@.client_id,
    {
        &self.client_id
    }

    /// Whether the connection is to be opened now.
    pub fn is_connecting(&self) -> (r: bool)
        ensures
            r == (self@.phase is Connecting),
    {
        match self.phase {
            Phase::Connecting => true,
            _ => false,
        }
    }

    /// Whether the next instruction can be accepted.
    pub fn is_ready(&self) -> (r: bool)
        ensures
            r == (self@.phase is Ready),
    {
        match self.phase {
            Phase::Ready => true,
            _ => false,
        }
    }

    /// Whether a statement is under way.
    pub fn is_running(&self) -> (r: bool)
        ensures
            r == (self@.phase is Running),
    {
        match self.phase {
            Phase::Running(_) => true,
            _ => false,
        }
    }

    /// Whether the worker has ended.
    pub fn is_stopped(&self) -> (r: bool)
        ensures
            r == (self@.phase is Stopped),
    {
        match self.phase {
            Phase::Stopped => true,
            _ => false,
        }
    }

    /// Starts the worker, given whether the configured endpoint is a valid
    /// address and whether an authentication token is configured. Returns the
    /// messages to send. A worker that was started before stays as it is and
    /// sends nothing.
    pub fn start(&mut self, endpoint_valid: bool, has_token: bool) -> (messages: Vec<Message>)
        ensures
            final(self)@.client_id == old(self)@.client_id,
            old(self)@.phase is Configured ==> views_of(messages@) == started(endpoint_valid, has_token).0
                && final(self)@.phase == started(endpoint_valid, has_token).1,
            !(old(self)@.phase is Configured) ==> messages@.len() == 0 && final(self)@ == old(self)@,
    {
        match self.phase {
            Phase::Configured => {
                if !endpoint_valid {
                    self.phase = Phase::Stopped;
                    single(Message::Status(STATUS_NO_SERVER.to_string()))
                } else if !has_token {
                    self.phase = Phase::Stopped;
                    single(Message::Status(STATUS_NO_TOKEN.to_string()))
                } else {
                    self.phase = Phase::Connecting;
                    single(Message::Status(STATUS_CONNECTING.to_string()))
                }
            },
            _ => Vec::new(),
        }
    }

    /// Makes the worker that a configuration asks for and starts it. Returns
    /// the worker and the messages to send.
    pub fn from_config(config: &AppConfig) -> (made: (Worker, Vec<Message>))
        ensures
            made.0@.client_id == config.client_id@,
            views_of(made.1@) == started(
                is_url("libsql://"@ + config.turso_db@ + ".turso.io"@),
                config.auth_token.is_some(),
            ).0,
            made.0@.phase == started(
                is_url("libsql://"@ + config.turso_db@ + ".turso.io"@),
                config.auth_token.is_some(),
            ).1,
    {
        let mut worker = Worker::new(config.client_id.clone());
        let messages = worker.start(config.endpoint_valid(), config.has_token());
        (worker, messages)
    }

    /// Takes note of how the connection attempt ended. Returns the message to
    /// send: `Connected`, after which the worker is ready, or
    /// `ConnectionFailed`, after which it has ended.
    pub fn connected(&mut self, success: bool) -> (messages: Vec<Message>)
        requires
            old(self)@.phase is Connecting,
        ensures
            final(self)@.client_id == old(self)@.client_id,
            success ==> views_of(messages@) == seq![MessageView::Connected] && final(self)@.phase
                is Ready,
            !success ==> views_of(messages@) == seq![MessageView::ConnectionFailed]
                && final(self)@.phase is Stopped,
    {
        if success {
            self.phase = Phase::Ready;
            single(Message::Connected)
        } else {
            self.phase = Phase::Stopped;
            single(Message::ConnectionFailed)
        }
    }

    /// Accepts the next instruction, as of the instant `now`, and returns the
    /// statement to run for it.
    pub fn accept_at(&mut self, instruction: Instruction, now: Timestamp) -> (query: Query)
        requires
            old(self)@.phase is Ready,
        ensures
            final(self)@.client_id == old(self)@.client_id,
            query@ == planned(old(self)@.client_id, instruction@, now).0,
            final(self)@.phase == PhaseView::Running(
                planned(old(self)@.client_id, instruction@, now).1,
            ),
    {
        let client_id = self.client_id.clone();
        match instruction {
            Instruction::ListBackups => {
                self.phase = Phase::Running(Pending::List);
                Query::List { client_id }
            },
            Instruction::CreateBackup(payload) => {
                self.phase = Phase::Running(Pending::Create);
                Query::Insert { client_id, created_at: now, payload }
            },
            Instruction::FetchBackup(id, reason) => {
                self.phase = Phase::Running(Pending::Fetch(reason));
                Query::Fetch { client_id, id }
            },
            Instruction::DeleteBackup(id) => {
                self.phase = Phase::Running(Pending::Delete);
                Query::Delete { client_id, id }
            },
        }
    }

    /// Accepts the next instruction as of now and returns the statement to
    /// run for it. The statement is the one that [`Worker::accept_at`] plans
    /// for some instant.
    pub fn accept(&mut self, instruction: Instruction) -> (query: Query)
        requires
            old(self)@.phase is Ready,
        ensures
            final(self)@.client_id == old(self)@.client_id,
            exists|now: Timestamp|
                query@ == (#[trigger] planned(old(self)@.client_id, instruction@, now)).0
                    && final(self)@.phase == PhaseView::Running(
                    planned(old(self)@.client_id, instruction@, now).1,
                ),
    {
        let now = Timestamp::now();
        let query = self.accept_at(instruction, now);
        assert(query@ == planned(old(self)@.client_id, instruction@, now).0);
        query
    }

    /// Handles the result of the statement under way, read already.
    pub fn finish(&mut self, reply: Reply) -> (step: Step)
        requires
            old(self)@.phase is Running,
        ensures
            final(self)@.client_id == old(self)@.client_id,
            step@ == concluded(old(self)@.client_id, old(self)@.phase->Running_0, reply@),
            final(self)@.phase == phase_after(old(self)@.phase->Running_0),
    {
        let mut phase = Phase::Ready;
        core::mem::swap(&mut self.phase, &mut phase);
        let pending = match phase {
            Phase::Running(pending) => pending,
            _ => Pending::Prune,
        };
        match pending {
            Pending::List => match reply {
                Reply::Listed(list) => Step {
                    pause: true,
                    messages: single(Message::BackupList(list)),
                    next: None,
                },
                _ => Step { pause: false, messages: failure_messages(STATUS_LIST_FAILED), next: None },
            },
            Pending::Create => {
                self.phase = Phase::Running(Pending::Prune);
                let next = Some(Query::Prune { client_id: self.client_id.clone() });
                match reply {
                    Reply::Inserted => Step {
                        pause: true,
                        messages: single(Message::BackupCreated),
                        next,
                    },
                    _ => Step {
                        pause: false,
                        messages: failure_messages(STATUS_UPLOAD_FAILED),
                        next,
                    },
                }
            },
            Pending::Prune => {
                let messages: Vec<Message> = Vec::new();
                assert(views_of(messages@) =~= Seq::<MessageView>::empty());
                Step { pause: false, messages, next: None }
            },
            Pending::Fetch(reason) => match reply {
                Reply::Fetched(Some(bytes)) => Step {
                    pause: true,
                    messages: single(Message::BackupContents(bytes, reason)),
                    next: None,
                },
                Reply::Fetched(None) => Step {
                    pause: false,
                    messages: failure_messages(STATUS_NOT_FOUND),
                    next: None,
                },
                _ => Step { pause: false, messages: failure_messages(STATUS_FETCH_FAILED), next: None },
            },
            Pending::Delete => match reply {
                Reply::Deleted => Step {
                    pause: true,
                    messages: single(Message::BackupDeleted),
                    next: None,
                },
                _ => Step { pause: false, messages: failure_messages(STATUS_DELETE_FAILED), next: None },
            },
        }
    }

    /// Handles what came back for the statement under way: reads it as the
    /// result of that statement, then does as [`Worker::finish`].
    pub fn complete(&mut self, outcome: Outcome) -> (step: Step)
        requires
            old(self)@.phase is Running,
        ensures
            final(self)@.client_id == old(self)@.client_id,
            step@ == concluded(
                old(self)@.client_id,
                old(self)@.phase->Running_0,
                old(self)@.phase->Running_0.kind().decoded(outcome@),
            ),
            final(self)@.phase == phase_after(old(self)@.phase->Running_0),
    {
        let kind = match &self.phase {
            Phase::Running(Pending::List) => QueryKind::List,
            Phase::Running(Pending::Create) => QueryKind::Insert,
            Phase::Running(Pending::Fetch(_)) => QueryKind::Fetch,
            Phase::Running(Pending::Delete) => QueryKind::Delete,
            _ => QueryKind::Prune,
        };
        let reply = kind.decode(outcome);
        self.finish(reply)
    }
}

} // verus!
