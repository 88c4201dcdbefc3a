//! The two queues' vocabulary: instructions that the controller sends to the
//! worker, and messages that the worker sends back.

use vstd::prelude::*;
use crate::timestamp::Timestamp;

verus! {

pub const STATUS_NO_SERVER: &'static str = "no valid backup server configured";

pub const STATUS_NO_TOKEN: &'static str = "no authentication token";

pub const STATUS_CONNECTING: &'static str = "Connecting to backup server...";

pub const STATUS_LIST_FAILED: &'static str = "failed to get list of backups";

pub const STATUS_UPLOAD_FAILED: &'static str = "failed to upload backup";

pub const STATUS_NOT_FOUND: &'static str = "backup cannot be found";

pub const STATUS_FETCH_FAILED: &'static str = "failed to get backup contents";

pub const STATUS_DELETE_FAILED: &'static str = "failed to delete backup";

/// Why a backup's contents are fetched.
#[derive(Debug, Clone, PartialEq, Eq)]
pub enum FetchReason {
    /// To replace the local database with them.
    Restore,
    /// To write them to the file at this path.
    SaveToPath(String),
}

/// The mathematical value of a [`FetchReason`].
pub enum FetchReasonView {
    Restore,
    SaveToPath(Seq<char>),
}

impl View for FetchReason {
    type V = FetchReasonView;

    open spec fn view(&self) -> FetchReasonView {
        match *self {
            FetchReason::Restore => FetchReasonView::Restore,
            FetchReason::SaveToPath(path) => FetchReasonView::SaveToPath(path@),
        }
    }
}

/// One line of the backup list: a record's id and its time of creation.
#[derive(Clone, Copy, Debug, PartialEq, Eq, Structural)]
pub struct BackupSummary {
    pub id: i64,
    pub created_at: Timestamp,
}

/// A request from the controller to the worker.
#[derive(Debug, Clone, PartialEq, Eq)]
pub enum Instruction {
    ListBackups,
    CreateBackup(Vec<u8>),
    FetchBackup(i64, FetchReason),
    DeleteBackup(i64),
}

/// The mathematical value of an [`Instruction`].
pub enum InstructionView {
    ListBackups,
    CreateBackup(Seq<u8>),
    FetchBackup(i64, FetchReasonView),
    DeleteBackup(i64),
}

impl View for Instruction {
    type V = InstructionView;

    open spec fn view(&self) -> InstructionView {
        match *self {
            Instruction::ListBackups => InstructionView::ListBackups,
            Instruction::CreateBackup(payload) => InstructionView::CreateBackup(payload@),
            Instruction::FetchBackup(id, reason) => InstructionView::FetchBackup(id, reason@),
            Instruction::DeleteBackup(id) => InstructionView::DeleteBackup(id),
        }
    }
}

/// A result or a status from the worker to the controller.
#[derive(Debug, Clone, PartialEq, Eq)]
pub enum Message {
    Connected,
    ConnectionFailed,
    Status(String),
    BackupList(Vec<BackupSummary>),
    BackupCreated,
    BackupContents(Vec<u8>, FetchReason),
    BackupDeleted,
    ActionFailed,
}

/// The mathematical value of a [`Message`].
pub enum MessageView {
    Connected,
    ConnectionFailed,
    Status(Seq<char>),
    BackupList(Seq<BackupSummary>),
    BackupCreated,
    BackupContents(Seq<u8>, FetchReasonView),
    BackupDeleted,
    ActionFailed,
}

impl View for Message {
    type V = MessageView;

    open spec fn view(&self) -> MessageView {
        match *self {
            Message::Connected => MessageView::Connected,
            Message::ConnectionFailed => MessageView::ConnectionFailed,
            Message::Status(text) => MessageView::Status(text@),
            Message::BackupList(list) => MessageView::BackupList(list@),
            Message::BackupCreated => MessageView::BackupCreated,
            Message::BackupContents(bytes, reason) => MessageView::BackupContents(
                bytes@,
                reason@,
            ),
            Message::BackupDeleted => MessageView::BackupDeleted,
            Message::ActionFailed => MessageView::ActionFailed,
        }
    }
}

/// The values of the messages of a batch, in order.
pub open spec fn views_of(batch: Seq<Message>) -> Seq<MessageView> {
    batch.map_values(|m: Message| m@)
}

impl FetchReason {
    /// A copy with the same value.
    pub fn duplicate(&self) -> (r: FetchReason)
        ensures
            r@ == self@,
    {
        match self {
            FetchReason::Restore => FetchReason::Restore,
            FetchReason::SaveToPath(path) => FetchReason::SaveToPath(path.clone()),
        }
    }
}

} // verus!
