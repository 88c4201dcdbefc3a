use std::collections::VecDeque;

use blackcurrant::controller::{LocalTask, Reaction, Snapshot, Stage, SyncController};
use blackcurrant::modal::ConfirmationModal;
use blackcurrant::protocol::{BackupSummary, FetchReason, Instruction, Message};
use blackcurrant::timestamp::Timestamp;

fn connected_controller() -> SyncController {
    let mut controller = SyncController::new();
    let reaction = controller.apply(Message::Connected);
    assert_eq!(reaction, Reaction { send: None, task: None });
    assert_eq!(controller.take_refresh(), Some(Instruction::ListBackups));
    controller.apply(Message::BackupList(vec![]));
    assert!(controller.connected());
    assert!(!controller.loading());
    controller
}

fn confirmed() -> ConfirmationModal {
    let mut modal = ConfirmationModal::new("Are you sure?", None);
    modal.press_ok();
    modal
}

fn status_of(controller: &SyncController) -> Option<&str> {
    controller.last_status().map(|s| s.as_str())
}

#[test]
fn a_new_controller_waits_for_its_worker() {
    let controller = SyncController::new();
    assert!(!controller.connected());
    assert!(!controller.loading());
    assert!(controller.pending_refresh());
    assert!(controller.has_worker());
    assert_eq!(controller.stage(), Stage::Idle);
    assert_eq!(controller.last_status(), None);
    assert_eq!(controller.backups(), None);
    assert!(!controller.can_create());
}

#[test]
fn requests_go_nowhere_before_the_worker_is_connected() {
    let mut controller = SyncController::new();
    assert_eq!(controller.request_list_refresh(), None);
    assert_eq!(controller.take_refresh(), None);
    assert_eq!(controller.request_create_backup(Snapshot::Taken(vec![1])), None);
    assert_eq!(controller.request_download(1, "/tmp/x".to_string()), None);
    assert_eq!(controller.request_restore(1, &confirmed()), None);
    assert_eq!(controller.request_delete(1, &confirmed()), None);
    assert!(!controller.loading());
    assert!(controller.pending_refresh());
    assert_eq!(controller.last_status(), None);
}

#[test]
fn a_failed_snapshot_leaves_its_status_without_a_connection_too() {
    let mut controller = SyncController::new();
    assert_eq!(controller.request_create_backup(Snapshot::SnapshotFailed), None);
    assert_eq!(status_of(&controller), Some("Failed to create backup."));
    assert_eq!(controller.request_create_backup(Snapshot::ReadFailed), None);
    assert_eq!(status_of(&controller), Some("Failed to fetch backup for upload."));
    assert!(!controller.loading());
    assert!(!controller.connected());
}

#[test]
fn connected_asks_for_the_list() {
    let mut controller = SyncController::new();
    controller.apply(Message::Status("Connecting to backup server...".to_string()));
    assert_eq!(status_of(&controller), Some("Connecting to backup server..."));
    let reaction = controller.apply(Message::Connected);
    assert_eq!(reaction, Reaction { send: None, task: None });
    assert!(controller.connected());
    assert!(controller.loading());
    assert!(controller.pending_refresh());
    assert_eq!(controller.last_status(), None);
    assert_eq!(controller.take_refresh(), Some(Instruction::ListBackups));
    assert!(controller.loading());
    assert!(!controller.pending_refresh());
    // The list is asked for once.
    assert_eq!(controller.take_refresh(), None);
}

#[test]
fn connection_failed_gives_the_worker_up() {
    let mut controller = SyncController::new();
    let reaction = controller.apply(Message::ConnectionFailed);
    assert_eq!(reaction, Reaction { send: None, task: None });
    assert!(!controller.connected());
    assert!(!controller.has_worker());
    assert!(!controller.loading());
    assert_eq!(status_of(&controller), Some("Failed to connect to backup server."));
    assert_eq!(controller.request_list_refresh(), None);
}

#[test]
fn status_is_stored() {
    let mut controller = connected_controller();
    controller.apply(Message::Status("hello".to_string()));
    assert_eq!(status_of(&controller), Some("hello"));
}

#[test]
fn backup_list_is_stored_and_ends_loading() {
    let mut controller = connected_controller();
    controller.request_list_refresh();
    controller.apply(Message::Status("old".to_string()));
    assert!(controller.loading());
    let list = vec![BackupSummary { id: 1, created_at: Timestamp { secs: 5, nanos: 0 } }];
    let reaction = controller.apply(Message::BackupList(list.clone()));
    assert_eq!(reaction, Reaction { send: None, task: None });
    assert_eq!(controller.backups(), Some(&list));
    assert!(!controller.loading());
    assert_eq!(controller.last_status(), None);
}

#[test]
fn created_and_deleted_ask_for_the_list_again() {
    let mut controller = connected_controller();
    controller.apply(Message::Status("old".to_string()));
    let reaction = controller.apply(Message::BackupCreated);
    assert_eq!(reaction, Reaction { send: None, task: None });
    assert!(controller.loading());
    assert!(controller.pending_refresh());
    assert_eq!(controller.last_status(), None);
    assert_eq!(controller.take_refresh(), Some(Instruction::ListBackups));
    controller.apply(Message::BackupList(vec![]));
    assert!(!controller.loading());
    let reaction = controller.apply(Message::BackupDeleted);
    assert_eq!(reaction, Reaction { send: None, task: None });
    assert!(controller.loading());
    assert_eq!(controller.take_refresh(), Some(Instruction::ListBackups));
    assert!(controller.loading());
}

#[test]
fn several_triggers_in_one_round_ask_for_one_list() {
    let mut controller = connected_controller();
    let mut inbox: VecDeque<Message> = VecDeque::new();
    inbox.push_back(Message::BackupCreated);
    inbox.push_back(Message::BackupDeleted);
    inbox.push_back(Message::BackupCreated);
    let reaction = controller.poll(&mut inbox);
    assert_eq!(reaction, Reaction { send: Some(Instruction::ListBackups), task: None });
    assert!(inbox.is_empty());
    assert!(controller.loading());
    assert!(!controller.pending_refresh());
    // The round is over: nothing more goes out.
    assert_eq!(controller.poll(&mut inbox), Reaction { send: None, task: None });
    // Loading lasts until the list has arrived.
    assert!(controller.loading());
    inbox.push_back(Message::BackupList(vec![]));
    assert_eq!(controller.poll(&mut inbox), Reaction { send: None, task: None });
    assert!(!controller.loading());
}

#[test]
fn triggers_owe_a_list_until_the_worker_is_connected() {
    let mut controller = SyncController::new();
    let mut inbox: VecDeque<Message> = VecDeque::new();
    inbox.push_back(Message::BackupCreated);
    assert_eq!(controller.poll(&mut inbox), Reaction { send: None, task: None });
    assert!(controller.pending_refresh());
    inbox.push_back(Message::Connected);
    inbox.push_back(Message::BackupDeleted);
    assert_eq!(
        controller.poll(&mut inbox),
        Reaction { send: Some(Instruction::ListBackups), task: None }
    );
    assert!(!controller.pending_refresh());
}

#[test]
fn a_connection_lost_in_the_round_sends_no_list() {
    let mut controller = connected_controller();
    let mut inbox: VecDeque<Message> = VecDeque::new();
    inbox.push_back(Message::BackupCreated);
    inbox.push_back(Message::ConnectionFailed);
    assert_eq!(controller.poll(&mut inbox), Reaction { send: None, task: None });
    assert!(!controller.connected());
    assert!(!controller.loading());
    assert!(controller.pending_refresh());
}

#[test]
fn action_failed_ends_loading_and_the_status_follows() {
    let mut controller = connected_controller();
    assert!(controller.request_delete(3, &confirmed()).is_some());
    assert!(controller.loading());
    controller.apply(Message::ActionFailed);
    assert!(!controller.loading());
    controller.apply(Message::Status("failed to delete backup".to_string()));
    assert_eq!(status_of(&controller), Some("failed to delete backup"));
}

#[test]
fn create_with_a_snapshot_sends_it() {
    let mut controller = connected_controller();
    assert!(controller.can_create());
    let send = controller.request_create_backup(Snapshot::Taken(vec![1, 2, 3]));
    assert_eq!(send, Some(Instruction::CreateBackup(vec![1, 2, 3])));
    assert!(controller.loading());
    assert!(!controller.can_create());
}

#[test]
fn create_without_a_snapshot_fails_locally() {
    let mut controller = connected_controller();
    assert_eq!(controller.request_create_backup(Snapshot::SnapshotFailed), None);
    assert_eq!(status_of(&controller), Some("Failed to create backup."));
    assert!(!controller.loading());
    assert_eq!(controller.request_create_backup(Snapshot::ReadFailed), None);
    assert_eq!(status_of(&controller), Some("Failed to fetch backup for upload."));
    assert!(!controller.loading());
    assert!(controller.connected());
}

#[test]
fn download_sends_a_fetch_for_the_path() {
    let mut controller = connected_controller();
    let send = controller.request_download(4, "/home/u/b.sqlite".to_string());
    assert_eq!(
        send,
        Some(Instruction::FetchBackup(4, FetchReason::SaveToPath("/home/u/b.sqlite".to_string())))
    );
    assert!(controller.loading());
}

#[test]
fn restore_needs_confirmation() {
    let mut controller = connected_controller();
    let unanswered = ConfirmationModal::new("Are you sure?", Some("All will be replaced."));
    assert_eq!(controller.request_restore(4, &unanswered), None);
    assert!(!controller.loading());
    let mut cancelled = ConfirmationModal::new("Are you sure?", None);
    cancelled.press_ok();
    cancelled.press_cancel();
    assert_eq!(controller.request_restore(4, &cancelled), None);
    assert_eq!(
        controller.request_restore(4, &confirmed()),
        Some(Instruction::FetchBackup(4, FetchReason::Restore))
    );
    assert!(controller.loading());
}

#[test]
fn delete_needs_confirmation() {
    let mut controller = connected_controller();
    let unanswered = ConfirmationModal::new("Are you sure?", None);
    assert_eq!(controller.request_delete(4, &unanswered), None);
    assert!(!controller.loading());
    assert_eq!(controller.request_delete(4, &confirmed()), Some(Instruction::DeleteBackup(4)));
    assert!(controller.loading());
}

#[test]
fn restore_runs_restore_then_migrations_then_refresh() {
    let mut controller = connected_controller();
    controller.request_restore(4, &confirmed());
    let reaction = controller.apply(Message::BackupContents(vec![9, 9], FetchReason::Restore));
    assert_eq!(reaction, Reaction { send: None, task: Some(LocalTask::Restore(vec![9, 9])) });
    assert_eq!(controller.stage(), Stage::Restoring);
    assert!(controller.loading());
    assert_eq!(controller.complete(true), Some(LocalTask::Migrate));
    assert_eq!(controller.stage(), Stage::Migrating);
    assert!(controller.loading());
    assert_eq!(controller.complete(true), Some(LocalTask::RefreshCaches));
    assert_eq!(controller.stage(), Stage::Refreshing);
    assert_eq!(controller.complete(true), None);
    assert_eq!(controller.stage(), Stage::Idle);
    assert!(!controller.loading());
    assert_eq!(status_of(&controller), Some("Backup restored."));
}

#[test]
fn a_failed_restore_ends_the_sequence() {
    let mut controller = connected_controller();
    controller.request_restore(4, &confirmed());
    controller.apply(Message::BackupContents(vec![9], FetchReason::Restore));
    assert_eq!(controller.complete(false), None);
    assert_eq!(controller.stage(), Stage::Idle);
    assert!(!controller.loading());
    assert_eq!(status_of(&controller), Some("Failed to restore backup."));
    assert!(controller.connected());
    assert!(controller.has_worker());
}

#[test]
fn failed_migrations_end_the_sequence() {
    let mut controller = connected_controller();
    controller.apply(Message::BackupContents(vec![9], FetchReason::Restore));
    controller.complete(true);
    assert_eq!(controller.complete(false), None);
    assert_eq!(controller.stage(), Stage::Idle);
    assert_eq!(status_of(&controller), Some("Failed to run migrations after restore."));
}

#[test]
fn a_failed_refresh_is_reported() {
    let mut controller = connected_controller();
    controller.apply(Message::BackupContents(vec![9], FetchReason::Restore));
    controller.complete(true);
    controller.complete(true);
    assert_eq!(controller.complete(false), None);
    assert_eq!(status_of(&controller), Some("Failed to refresh records after restore."));
    assert!(!controller.loading());
}

#[test]
fn save_writes_the_bytes_to_the_path() {
    let mut controller = connected_controller();
    controller.request_download(4, "/tmp/a".to_string());
    let reaction = controller.apply(Message::BackupContents(
        vec![1, 2],
        FetchReason::SaveToPath("/tmp/a".to_string()),
    ));
    assert_eq!(
        reaction.task,
        Some(LocalTask::Save { path: "/tmp/a".to_string(), bytes: vec![1, 2] })
    );
    assert_eq!(controller.stage(), Stage::Saving);
    assert_eq!(controller.complete(true), None);
    assert_eq!(status_of(&controller), Some("Backup saved."));
    assert!(!controller.loading());
}

#[test]
fn a_failed_save_is_reported() {
    let mut controller = connected_controller();
    controller.apply(Message::BackupContents(vec![1], FetchReason::SaveToPath("/x/y".to_string())));
    assert_eq!(controller.complete(false), None);
    assert_eq!(status_of(&controller), Some("Failed to save backup."));
    assert!(!controller.loading());
    assert_eq!(controller.stage(), Stage::Idle);
}

#[test]
fn complete_without_a_task_changes_nothing() {
    let mut controller = connected_controller();
    controller.apply(Message::Status("s".to_string()));
    assert_eq!(controller.complete(true), None);
    assert_eq!(controller.complete(false), None);
    assert_eq!(status_of(&controller), Some("s"));
    assert_eq!(controller.stage(), Stage::Idle);
}

#[test]
fn poll_applies_messages_up_to_the_first_that_asks_for_something() {
    let mut controller = SyncController::new();
    let mut inbox: VecDeque<Message> = VecDeque::new();
    inbox.push_back(Message::Status("Connecting to backup server...".to_string()));
    inbox.push_back(Message::Connected);
    inbox.push_back(Message::BackupContents(vec![4], FetchReason::SaveToPath("/p".to_string())));
    inbox.push_back(Message::Status("later".to_string()));
    let reaction = controller.poll(&mut inbox);
    assert_eq!(
        reaction,
        Reaction {
            send: None,
            task: Some(LocalTask::Save { path: "/p".to_string(), bytes: vec![4] })
        }
    );
    assert_eq!(inbox.len(), 1);
    assert!(controller.connected());
    assert!(controller.pending_refresh());
    assert_eq!(controller.complete(true), None);
    // The rest of the round, and at its end the list that is owed.
    let reaction = controller.poll(&mut inbox);
    assert_eq!(reaction, Reaction { send: Some(Instruction::ListBackups), task: None });
    assert!(inbox.is_empty());
    assert_eq!(status_of(&controller), Some("later"));
    assert_eq!(controller.poll(&mut inbox), Reaction { send: None, task: None });
}

#[test]
fn poll_of_an_empty_inbox_returns_at_once() {
    let mut controller = connected_controller();
    let mut inbox: VecDeque<Message> = VecDeque::new();
    assert_eq!(controller.poll(&mut inbox), Reaction { send: None, task: None });
    assert!(controller.connected());
    assert!(!controller.loading());
}

#[test]
fn poll_waits_for_the_local_task_before_it_goes_on() {
    let mut controller = connected_controller();
    let mut inbox: VecDeque<Message> = VecDeque::new();
    inbox.push_back(Message::BackupContents(vec![1], FetchReason::Restore));
    inbox.push_back(Message::Status("after".to_string()));
    let reaction = controller.poll(&mut inbox);
    assert_eq!(reaction.task, Some(LocalTask::Restore(vec![1])));
    // The restore is under way: the next message stays where it is, and
    // nothing goes out.
    assert_eq!(controller.poll(&mut inbox), Reaction { send: None, task: None });
    assert_eq!(inbox.len(), 1);
    assert_eq!(controller.complete(false), None);
    assert_eq!(status_of(&controller), Some("Failed to restore backup."));
    assert_eq!(controller.poll(&mut inbox), Reaction { send: None, task: None });
    assert!(inbox.is_empty());
    assert_eq!(status_of(&controller), Some("after"));
}

#[test]
fn poll_applies_a_failure_and_its_status_in_one_go() {
    let mut controller = connected_controller();
    controller.request_delete(1, &confirmed());
    let mut inbox: VecDeque<Message> = VecDeque::new();
    inbox.push_back(Message::ActionFailed);
    inbox.push_back(Message::Status("failed to delete backup".to_string()));
    assert_eq!(controller.poll(&mut inbox), Reaction { send: None, task: None });
    assert!(inbox.is_empty());
    assert!(!controller.loading());
    assert_eq!(status_of(&controller), Some("failed to delete backup"));
}
