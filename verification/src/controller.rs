//! The sync controller's decisions.
//!
//! The controller stands between the user, the worker and the local
//! database. It never waits: a request returns the instruction to put on the
//! worker's queue, a message from the worker is applied at once, and work on
//! the local database (restore, migrate, refresh, write a file) is handed to
//! the caller as a task whose result the caller reports back.
//!
//! A message that calls for a new backup list does not ask for it itself. It
//! marks the list as owed, and the list is asked for once when the messages
//! of the round have all been applied, however many of them owed it.

use std::collections::VecDeque;
use vstd::prelude::*;
use crate::modal::ConfirmationModal;
use crate::protocol::{
    views_of, BackupSummary, FetchReason, FetchReasonView, Instruction, InstructionView, Message,
    MessageView,
};
use crate::text::text_view;

verus! {

pub const STATUS_CONNECTION_FAILED: &'static str = "Failed to connect to backup server.";

pub const STATUS_SNAPSHOT_FAILED: &'static str = "Failed to create backup.";

pub const STATUS_READ_FAILED: &'static str = "Failed to fetch backup for upload.";

pub const STATUS_RESTORED: &'static str = "Backup restored.";

pub const STATUS_RESTORE_FAILED: &'static str = "Failed to restore backup.";

pub const STATUS_MIGRATION_FAILED: &'static str = "Failed to run migrations after restore.";

pub const STATUS_REFRESH_FAILED: &'static str = "Failed to refresh records after restore.";

pub const STATUS_SAVED: &'static str = "Backup saved.";

pub const STATUS_SAVE_FAILED: &'static str = "Failed to save backup.";

/// What became of the attempt to take a snapshot of the local database and
/// to read it into memory.
#[derive(Debug, Clone, PartialEq, Eq)]
pub enum Snapshot {
    /// The database could not be written to a temporary file.
    SnapshotFailed,
    /// The temporary file could not be read.
    ReadFailed,
    /// The snapshot's bytes.
    Taken(Vec<u8>),
}

/// Work on the local side that the controller asks its caller to do.
#[derive(Debug, Clone, PartialEq, Eq)]
pub enum LocalTask {
    /// Write the bytes to a temporary file and restore the local database
    /// from it, under exclusive access to the database.
    Restore(Vec<u8>),
    /// Apply the pending schema migrations.
    Migrate,
    /// Refresh every record store and every type store, each once.
    RefreshCaches,
    /// Write the bytes to the file at this path.
    Save { path: String, bytes: Vec<u8> },
}

/// The mathematical value of a [`LocalTask`].
pub enum LocalTaskView {
    Restore(Seq<u8>),
    Migrate,
    RefreshCaches,
    Save { path: Seq<char>, bytes: Seq<u8> },
}

impl View for LocalTask {
    type V = LocalTaskView;

    open spec fn view(&self) -> LocalTaskView {
        match *self {
            LocalTask::Restore(bytes) => LocalTaskView::Restore(bytes@),
            LocalTask::Migrate => LocalTaskView::Migrate,
            LocalTask::RefreshCaches => LocalTaskView::RefreshCaches,
            LocalTask::Save { path, bytes } => LocalTaskView::Save { path: path@, bytes: bytes@ },
        }
    }
}

/// Which local task the controller waits for.
#[derive(Clone, Copy, Debug, PartialEq, Eq, Structural)]
pub enum Stage {
    /// None.
    Idle,
    Restoring,
    Migrating,
    Refreshing,
    Saving,
}

/// What the caller is to do after a message was applied.
#[derive(Debug, Clone, PartialEq, Eq)]
pub struct Reaction {
    /// An instruction to put on the worker's queue.
    pub send: Option<Instruction>,
    /// A local task to perform before the next message is applied.
    pub task: Option<LocalTask>,
}

/// The mathematical value of a [`Reaction`].
pub struct ReactionView {
    pub send: Option<InstructionView>,
    pub task: Option<LocalTaskView>,
}

impl View for Reaction {
    type V = ReactionView;

    open spec fn view(&self) -> ReactionView {
        ReactionView {
            send: match self.send {
                Some(i) => Some(i@),
                None => None,
            },
            task: match self.task {
                Some(t) => Some(t@),
                None => None,
            },
        }
    }
}

/// The controller's state.
#[derive(Debug)]
pub struct SyncController {
    connected: bool,
    loading: bool,
    pending_refresh: bool,
    has_worker: bool,
    last_status: Option<String>,
    backups: Option<Vec<BackupSummary>>,
    stage: Stage,
}

/// The mathematical value of a [`SyncController`].
#[verifier::ext_equal]
pub struct ControllerView {
    /// The worker reported its connection, and no failure since.
    pub connected: bool,
    /// An instruction is under way, or a local task.
    pub loading: bool,
    /// A list is owed: it is asked for at the end of a round, once the
    /// worker is connected.
    pub pending_refresh: bool,
    /// The worker has not reported that its connection failed.
    pub has_worker: bool,
    /// The text to show to the user, if any.
    pub last_status: Option<Seq<char>>,
    /// The last backup list received, if any.
    pub backups: Option<Seq<BackupSummary>>,
    /// The local task waited for.
    pub stage: Stage,
}

impl View for SyncController {
    type V = ControllerView;

    closed spec fn view(&self) -> ControllerView {
        ControllerView {
            connected: self.connected,
            loading: self.loading,
            pending_refresh: self.pending_refresh,
            has_worker: self.has_worker,
            last_status: text_view(self.last_status),
            backups: match self.backups {
                Some(list) => Some(list@),
                None => None,
            },
            stage: self.stage,
        }
    }
}

impl ControllerView {
    /// The state of a controller whose worker has not reported yet.
    pub open spec fn initial() -> ControllerView {
        ControllerView {
            connected: false,
            loading: false,
            pending_refresh: true,
            has_worker: true,
            last_status: None,
            backups: None,
            stage: Stage::Idle,
        }
    }

    /// The state after an instruction was handed out for sending.
    pub open spec fn sending(self) -> ControllerView {
        ControllerView { loading: true, ..self }
    }

    /// The state and the instruction after a list was asked for: while
    /// connected the list instruction goes out; else nothing happens.
    pub open spec fn list_requested(self) -> (ControllerView, Option<InstructionView>) {
        if self.connected {
            (
                ControllerView { loading: true, pending_refresh: false, ..self },
                Some(InstructionView::ListBackups),
            )
        } else {
            (self, None)
        }
    }

    /// The state and the instruction after the user asked for a backup and
    /// the snapshot ended as `snapshot` says (taken: its bytes). A snapshot
    /// that failed leaves its status, connected or not, and nothing goes out.
    /// A snapshot that was taken goes out while the worker is connected; while
    /// it is not, there is no queue to put it on, and nothing happens.
    pub open spec fn create_requested(self, snapshot: Option<Option<Seq<u8>>>) -> (
        ControllerView,
        Option<InstructionView>,
    ) {
        match snapshot {
            None => (ControllerView { last_status: Some(STATUS_SNAPSHOT_FAILED@), ..self }, None),
            Some(None) => (ControllerView { last_status: Some(STATUS_READ_FAILED@), ..self }, None),
            Some(Some(bytes)) => if self.connected {
                (self.sending(), Some(InstructionView::CreateBackup(bytes)))
            } else {
                (self, None)
            },
        }
    }

    /// The state and the instruction after the user asked for the contents
    /// of backup `id`, for `reason`, and `allowed` says whether the user
    /// consented. The request goes out while the worker is connected; while
    /// it is not, there is no queue to put it on, and nothing happens.
    pub open spec fn fetch_requested(self, id: i64, reason: FetchReasonView, allowed: bool) -> (
        ControllerView,
        Option<InstructionView>,
    ) {
        if self.connected && allowed {
            (self.sending(), Some(InstructionView::FetchBackup(id, reason)))
        } else {
            (self, None)
        }
    }

    /// The state and the instruction after the user asked to delete backup
    /// `id`, and `allowed` says whether the user consented. The request goes
    /// out while the worker is connected; while it is not, there is no queue
    /// to put it on, and nothing happens.
    pub open spec fn delete_requested(self, id: i64, allowed: bool) -> (
        ControllerView,
        Option<InstructionView>,
    ) {
        if self.connected && allowed {
            (self.sending(), Some(InstructionView::DeleteBackup(id)))
        } else {
            (self, None)
        }
    }

    /// The state with a list owed: the list is asked for at the end of the
    /// round, once for all that owe it. The wait for it starts now, and the
    /// status is cleared.
    pub open spec fn owing(self) -> ControllerView {
        ControllerView { pending_refresh: true, loading: true, last_status: None, ..self }
    }

    /// The state and the instruction when an owed list is taken up: while a
    /// list is owed and the worker is connected, the one list instruction goes
    /// out and nothing is owed any more; else nothing happens.
    pub open spec fn refresh_taken(self) -> (ControllerView, Option<InstructionView>) {
        if self.pending_refresh {
            self.list_requested()
        } else {
            (self, None)
        }
    }

    /// The state and the reaction after a message from the worker. No
    /// message hands out an instruction; only fetched contents hand out a
    /// task.
    ///
    /// - `Connected`: connected, and a list is owed.
    /// - `ConnectionFailed`: not connected, the worker is given up, nothing is
    ///   under way, and the status says so.
    /// - `Status`: the text becomes the status.
    /// - `BackupList`: the list is kept, nothing is under way, the status is
    ///   cleared.
    /// - `BackupCreated`, `BackupDeleted`: a list is owed.
    /// - `BackupContents` to restore: the restore is handed out as a task.
    /// - `BackupContents` to save: the write is handed out as a task.
    /// - `ActionFailed`: nothing is under way.
    pub open spec fn applied(self, message: MessageView) -> (ControllerView, ReactionView) {
        match message {
            MessageView::Connected => (
                (ControllerView { connected: true, ..self }).owing(),
                ReactionView { send: None, task: None },
            ),
            MessageView::ConnectionFailed => (
                ControllerView {
                    connected: false,
                    has_worker: false,
                    loading: false,
                    last_status: Some(STATUS_CONNECTION_FAILED@),
                    ..self
                },
                ReactionView { send: None, task: None },
            ),
            MessageView::Status(text) => (
                ControllerView { last_status: Some(text), ..self },
                ReactionView { send: None, task: None },
            ),
            MessageView::BackupList(list) => (
                ControllerView { backups: Some(list), loading: false, last_status: None, ..self },
                ReactionView { send: None, task: None },
            ),
            MessageView::BackupCreated | MessageView::BackupDeleted => (
                self.owing(),
                ReactionView { send: None, task: None },
            ),
            MessageView::BackupContents(bytes, FetchReasonView::Restore) => (
                ControllerView { stage: Stage::Restoring, ..self },
                ReactionView { send: None, task: Some(LocalTaskView::Restore(bytes)) },
            ),
            MessageView::BackupContents(bytes, FetchReasonView::SaveToPath(path)) => (
                ControllerView { stage: Stage::Saving, ..self },
                ReactionView { send: None, task: Some(LocalTaskView::Save { path, bytes }) },
            ),
            MessageView::ActionFailed => (
                ControllerView { loading: false, ..self },
                ReactionView { send: None, task: None },
            ),
        }
    }

    /// The state after all messages of an inbox were applied, one after
    /// another.
    pub open spec fn applied_all(self, inbox: Seq<MessageView>) -> ControllerView
        decreases inbox.len(),
    {
        if inbox.len() == 0 {
            self
        } else {
            self.applied(inbox[0]).0.applied_all(inbox.drop_first())
        }
    }

    /// The state, what is left of the inbox, and the reaction after a poll.
    /// The messages at the head of the inbox are applied one after another.
    /// The first that hands out a task ends the poll with that task. Where
    /// the inbox runs empty, the round is over: a list that is owed is taken
    /// up, once, whatever number of messages owed it. Nothing is applied and
    /// nothing goes out while a local task is waited for.
    pub open spec fn polled(self, inbox: Seq<MessageView>) -> (
        ControllerView,
        Seq<MessageView>,
        ReactionView,
    )
        decreases inbox.len(),
    {
        if self.stage != Stage::Idle {
            (self, inbox, ReactionView { send: None, task: None })
        } else if inbox.len() == 0 {
            (self.refresh_taken().0, inbox, ReactionView { send: self.refresh_taken().1, task: None })
        } else {
            let (state, reaction) = self.applied(inbox[0]);
            if reaction.task is Some {
                (state, inbox.drop_first(), reaction)
            } else {
                state.polled(inbox.drop_first())
            }
        }
    }

    /// The state after the local work ended with this status text.
    pub open spec fn settled(self, status: Seq<char>) -> ControllerView {
        ControllerView { stage: Stage::Idle, loading: false, last_status: Some(status), ..self }
    }

    /// The state and the next task after the task waited for ended.
    ///
    /// A restore that succeeded is followed by the migrations, and these by
    /// the refresh of the caches; after the refresh the status reports the
    /// restore. The first of the three that fails ends the sequence: the
    /// status names it and no further task is handed out. A write to a file
    /// ends with a status either way.
    pub open spec fn completed(self, success: bool) -> (ControllerView, Option<LocalTaskView>) {
        match self.stage {
            Stage::Idle => (self, None),
            Stage::Restoring => if success {
                (ControllerView { stage: Stage::Migrating, ..self }, Some(LocalTaskView::Migrate))
            } else {
                (self.settled(STATUS_RESTORE_FAILED@), None)
            },
            Stage::Migrating => if success {
                (
                    ControllerView { stage: Stage::Refreshing, ..self },
                    Some(LocalTaskView::RefreshCaches),
                )
            } else {
                (self.settled(STATUS_MIGRATION_FAILED@), None)
            },
            Stage::Refreshing => if success {
                (self.settled(STATUS_RESTORED@), None)
            } else {
                (self.settled(STATUS_REFRESH_FAILED@), None)
            },
            Stage::Saving => if success {
                (self.settled(STATUS_SAVED@), None)
            } else {
                (self.settled(STATUS_SAVE_FAILED@), None)
            },
        }
    }
}

impl Snapshot {
    /// The snapshot as a value: `None` where none was taken, `Some(None)`
    /// where it could not be read back, else its bytes.
    pub open spec fn result(self) -> Option<Option<Seq<u8>>> {
        match self {
            Snapshot::SnapshotFailed => None,
            Snapshot::ReadFailed => Some(None),
            Snapshot::Taken(bytes) => Some(Some(bytes@)),
        }
    }
}

impl SyncController {
    /// A controller whose worker has not reported yet.
    pub fn new() -> (controller: SyncController)
        ensures
            controller@ == ControllerView::initial(),
    {
        SyncController {
            connected: false,
            loading: false,
            pending_refresh: true,
            has_worker: true,
            last_status: None,
            backups: None,
            stage: Stage::Idle,
        }
    }

    /// Whether the worker is connected.
    pub fn connected(&self) -> (r: bool)
        ensures
            r == self@.connected,
    {
        self.connected
    }

    /// Whether an instruction or a local task is under way.
    pub fn loading(&self) -> (r: bool)
        ensures
            r == self@.loading,
    {
        self.loading
    }

    /// Whether a list is owed: it is asked for at the end of a round, once
    /// the worker is connected.
    pub fn pending_refresh(&self) -> (r: bool)
        ensures
            r == self@.pending_refresh,
    {
        self.pending_refresh
    }

    /// Whether the worker is still held. Once this is `false` only a new
    /// controller with a new worker connects again.
    pub fn has_worker(&self) -> (r: bool)
        ensures
            r == self@.has_worker,
    {
        self.has_worker
    }

    /// The local task waited for.
    pub fn stage(&self) -> (r: Stage)
        ensures
            r == self@.stage,
    {
        self.stage
    }

    /// The text to show to the user, if any.
    pub fn last_status(&self) -> (r: Option<&String>)
        ensures
            r.is_some() == self@.last_status.is_some(),
            r.is_some() ==> r.unwrap()@ == self@.last_status.unwrap(),
    {
        self.last_status.as_ref()
    }

    /// The last backup list received, if any.
    pub fn backups(&self) -> (r: Option<&Vec<BackupSummary>>)
        ensures
            r.is_some() == self@.backups.is_some(),
            r.is_some() ==> r.unwrap()@ == self@.backups.unwrap(),
    {
        self.backups.as_ref()
    }

    /// Whether the user may ask for a new backup: while connected and
    /// nothing is under way.
    pub fn can_create(&self) -> (r: bool)
        ensures
            r == (self@.connected && !self@.loading),
    {
        self.connected && !self.loading
    }

    /// Asks for the backup list.
    pub fn request_list_refresh(&mut self) -> (send: Option<Instruction>)
        ensures
            final(self)@ == old(self)@.list_requested().0,
            instruction_view(send) == old(self)@.list_requested().1,
    {
        if self.connected {
            self.loading = true;
            self.pending_refresh = false;
            Some(Instruction::ListBackups)
        } else {
            None
        }
    }

    /// Takes up the list that is owed, if one is: the instruction to send
    /// once the messages of a round have been applied.
    pub fn take_refresh(&mut self) -> (send: Option<Instruction>)
        ensures
            final(self)@ == old(self)@.refresh_taken().0,
            instruction_view(send) == old(self)@.refresh_taken().1,
    {
        if self.pending_refresh {
            self.request_list_refresh()
        } else {
            None
        }
    }

    /// Asks for a new backup, given what became of the snapshot. A failed
    /// snapshot leaves its status; a snapshot that was taken goes out while
    /// the worker is connected.
    pub fn request_create_backup(&mut self, snapshot: Snapshot) -> (send: Option<Instruction>)
        ensures
            final(self)@ == old(self)@.create_requested(snapshot.result()).0,
            instruction_view(send) == old(self)@.create_requested(snapshot.result()).1,
    {
        match snapshot {
            Snapshot::SnapshotFailed => {
                self.last_status = Some(STATUS_SNAPSHOT_FAILED.to_string());
                None
            },
            Snapshot::ReadFailed => {
                self.last_status = Some(STATUS_READ_FAILED.to_string());
                None
            },
            Snapshot::Taken(bytes) => {
                if self.connected {
                    self.loading = true;
                    Some(Instruction::CreateBackup(bytes))
                } else {
                    None
                }
            },
        }
    }

    /// Asks for the contents of backup `id`, to be written to the file at
    /// `destination_path`.
    pub fn request_download(&mut self, id: i64, destination_path: String) -> (send: Option<Instruction>)
        ensures
            final(self)@ == old(self)@.fetch_requested(
                id,
                FetchReasonView::SaveToPath(destination_path@),
                true,
            ).0,
            instruction_view(send) == old(self)@.fetch_requested(
                id,
                FetchReasonView::SaveToPath(destination_path@),
                true,
            ).1,
    {
        if self.connected {
            self.loading = true;
            Some(Instruction::FetchBackup(id, FetchReason::SaveToPath(destination_path)))
        } else {
            None
        }
    }

    /// Asks for the contents of backup `id`, to restore the local database
    /// from them. Nothing goes out unless the user confirmed.
    pub fn request_restore(&mut self, id: i64, confirmation: &ConfirmationModal) -> (send: Option<
        Instruction,
    >)
        ensures
            final(self)@ == old(self)@.fetch_requested(
                id,
                FetchReasonView::Restore,
                confirmation.confirmed,
            ).0,
            instruction_view(send) == old(self)@.fetch_requested(
                id,
                FetchReasonView::Restore,
                confirmation.confirmed,
            ).1,
    {
        if self.connected && confirmation.confirmed {
            self.loading = true;
            Some(Instruction::FetchBackup(id, FetchReason::Restore))
        } else {
            None
        }
    }

    /// Asks for backup `id` to be deleted. Nothing goes out unless the user
    /// confirmed.
    pub fn request_delete(&mut self, id: i64, confirmation: &ConfirmationModal) -> (send: Option<
        Instruction,
    >)
        ensures
            final(self)@ == old(self)@.delete_requested(id, confirmation.confirmed).0,
            instruction_view(send) == old(self)@.delete_requested(id, confirmation.confirmed).1,
    {
        if self.connected && confirmation.confirmed {
            self.loading = true;
            Some(Instruction::DeleteBackup(id))
        } else {
            None
        }
    }

    /// Takes note that a list is owed.
    fn owe_refresh(&mut self)
        ensures
            final(self)@ == old(self)@.owing(),
    {
        self.pending_refresh = true;
        self.loading = true;
        self.last_status = None;
    }

    /// Applies one message from the worker. The caller performs the task
    /// that the reaction holds, reporting back through
    /// [`SyncController::complete`], before it applies the next message, and
    /// takes up an owed list with [`SyncController::take_refresh`] once it
    /// has applied all that arrived.
    pub fn apply(&mut self, message: Message) -> (reaction: Reaction)
        requires
            old(self)@.stage == Stage::Idle,
        ensures
            final(self)@ == old(self)@.applied(message@).0,
            reaction@ == old(self)@.applied(message@).1,
    {
        match message {
            Message::Connected => {
                self.connected = true;
                self.owe_refresh();
                Reaction { send: None, task: None }
            },
            Message::ConnectionFailed => {
                self.connected = false;
                self.has_worker = false;
                self.loading = false;
                self.last_status = Some(STATUS_CONNECTION_FAILED.to_string());
                Reaction { send: None, task: None }
            },
            Message::Status(text) => {
                self.last_status = Some(text);
                Reaction { send: None, task: None }
            },
            Message::BackupList(list) => {
                self.backups = Some(list);
                self.loading = false;
                self.last_status = None;
                Reaction { send: None, task: None }
            },
            Message::BackupCreated => {
                self.owe_refresh();
                Reaction { send: None, task: None }
            },
            Message::BackupDeleted => {
                self.owe_refresh();
                Reaction { send: None, task: None }
            },
            Message::BackupContents(bytes, FetchReason::Restore) => {
                self.stage = Stage::Restoring;
                Reaction { send: None, task: Some(LocalTask::Restore(bytes)) }
            },
            Message::BackupContents(bytes, FetchReason::SaveToPath(path)) => {
                self.stage = Stage::Saving;
                Reaction { send: None, task: Some(LocalTask::Save { path, bytes }) }
            },
            Message::ActionFailed => {
                self.loading = false;
                Reaction { send: None, task: None }
            },
        }
    }

    /// Applies the messages that have arrived, without waiting for more:
    /// one after another from the head of the inbox, up to the first that
    /// hands out a task, and at the end of the inbox takes up the list that
    /// is owed. The caller performs the task or sends the instruction, and
    /// polls again until the reaction holds neither.
    pub fn poll(&mut self, inbox: &mut VecDeque<Message>) -> (reaction: Reaction)
        ensures
            final(self)@ == old(self)@.polled(views_of(old(inbox)@)).0,
            views_of(final(inbox)@) == old(self)@.polled(views_of(old(inbox)@)).1,
            reaction@ == old(self)@.polled(views_of(old(inbox)@)).2,
    {
        loop
            invariant
                self@.polled(views_of(inbox@)) == old(self)@.polled(views_of(old(inbox)@)),
            decreases inbox.len(),
        {
            let idle = match self.stage {
                Stage::Idle => true,
                _ => false,
            };
            if !idle {
                return Reaction { send: None, task: None };
            }
            if inbox.len() == 0 {
                let send = self.take_refresh();
                return Reaction { send, task: None };
            }
            let ghost before = inbox@;
            let message = inbox.pop_front().unwrap();
            assert(views_of(inbox@) =~= views_of(before).drop_first());
            assert(message@ == views_of(before)[0]);
            let reaction = self.apply(message);
            if reaction.task.is_some() {
                return reaction;
            }
        }
    }

    /// Ends the local work with a status text.
    fn settle(&mut self, status: &str)
        ensures
            final(self)@ == old(self)@.settled(status@),
    {
        self.stage = Stage::Idle;
        self.loading = false;
        self.last_status = Some(status.to_string());
    }

    /// Takes note of how the local task ended, and returns the task that
    /// follows, if any. Without a task under way nothing happens.
    pub fn complete(&mut self, success: bool) -> (next: Option<LocalTask>)
        ensures
            final(self)@ == old(self)@.completed(success).0,
            (match next {
                Some(t) => Some(t@),
                None => None,
            }) == old(self)@.completed(success).1,
    {
        match self.stage {
            Stage::Idle => None,
            Stage::Restoring => {
                if success {
                    self.stage = Stage::Migrating;
                    Some(LocalTask::Migrate)
                } else {
                    self.settle(STATUS_RESTORE_FAILED);
                    None
                }
            },
            Stage::Migrating => {
                if success {
                    self.stage = Stage::Refreshing;
                    Some(LocalTask::RefreshCaches)
                } else {
                    self.settle(STATUS_MIGRATION_FAILED);
                    None
                }
            },
            Stage::Refreshing => {
                if success {
                    self.settle(STATUS_RESTORED);
                } else {
                    self.settle(STATUS_REFRESH_FAILED);
                }
                None
            },
            Stage::Saving => {
                if success {
                    self.settle(STATUS_SAVED);
                } else {
                    self.settle(STATUS_SAVE_FAILED);
                }
                None
            },
        }
    }
}

/// The value of an optional instruction.
pub open spec fn instruction_view(send: Option<Instruction>) -> Option<InstructionView> {
    match send {
        Some(i) => Some(i@),
        None => None,
    }
}

} // verus!
