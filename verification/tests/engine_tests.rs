use std::collections::VecDeque;

use blackcurrant::controller::{LocalTask, SyncController};
use blackcurrant::loopback::{serve, serve_all, Timed};
use blackcurrant::modal::ConfirmationModal;
use blackcurrant::protocol::{BackupSummary, FetchReason, Instruction, Message};
use blackcurrant::table::BackupTable;
use blackcurrant::timestamp::Timestamp;
use blackcurrant::worker::Worker;

fn at(secs: i64) -> Timestamp {
    Timestamp { secs, nanos: 0 }
}

fn worker_of(client: &str) -> Worker {
    let mut worker = Worker::new(client.to_string());
    worker.start(true, true);
    worker.connected(true);
    worker
}

fn confirmed() -> ConfirmationModal {
    let mut modal = ConfirmationModal::new("Are you sure?", None);
    modal.press_ok();
    modal
}

/// A local database and its seven caches, as far as the engine is
/// concerned.
struct LocalSide {
    database: Vec<u8>,
    restore_fails: bool,
    migrations_run: u32,
    refreshes: [u32; 7],
    files: Vec<(String, Vec<u8>)>,
}

impl LocalSide {
    fn holding(database: &[u8]) -> LocalSide {
        LocalSide {
            database: database.to_vec(),
            restore_fails: false,
            migrations_run: 0,
            refreshes: [0; 7],
            files: Vec::new(),
        }
    }

    fn perform(&mut self, task: LocalTask) -> bool {
        match task {
            LocalTask::Restore(bytes) => {
                if self.restore_fails {
                    false
                } else {
                    self.database = bytes;
                    true
                }
            }
            LocalTask::Migrate => {
                self.migrations_run += 1;
                true
            }
            LocalTask::RefreshCaches => {
                for count in self.refreshes.iter_mut() {
                    *count += 1;
                }
                true
            }
            LocalTask::Save { path, bytes } => {
                self.files.push((path, bytes));
                true
            }
        }
    }
}

/// The whole engine without a network: a controller, the worker of one
/// client, and the table that serves it.
struct Engine {
    controller: SyncController,
    worker: Worker,
    table: BackupTable,
    local: LocalSide,
    inbox: VecDeque<Message>,
    lists_asked: u32,
    clock: i64,
}

impl Engine {
    fn connected(client: &str, database: &[u8]) -> Engine {
        let mut engine = Engine {
            controller: SyncController::new(),
            worker: worker_of(client),
            table: BackupTable::new(),
            local: LocalSide::holding(database),
            inbox: VecDeque::new(),
            lists_asked: 0,
            clock: 1_000,
        };
        engine.inbox.push_back(Message::Connected);
        engine.poll();
        engine
    }

    /// Puts an instruction on the worker's queue; the worker serves it at
    /// once and its messages wait in the inbox.
    fn send(&mut self, instruction: Instruction) {
        self.clock += 1;
        if instruction == Instruction::ListBackups {
            self.lists_asked += 1;
        }
        let messages = serve(&mut self.worker, &mut self.table, instruction, at(self.clock));
        self.inbox.extend(messages);
    }

    /// Polls until the controller asks for nothing more.
    fn poll(&mut self) {
        loop {
            let reaction = self.controller.poll(&mut self.inbox);
            let done = reaction.send.is_none() && reaction.task.is_none();
            let mut task = reaction.task;
            while let Some(t) = task {
                let ok = self.local.perform(t);
                task = self.controller.complete(ok);
            }
            if let Some(instruction) = reaction.send {
                self.send(instruction);
            }
            if done {
                break;
            }
        }
    }

    /// Sends an instruction and polls all that follows from it.
    fn send_and_poll(&mut self, instruction: Instruction) {
        self.send(instruction);
        self.poll();
    }

    fn listed_ids(&self) -> Vec<i64> {
        self.controller.backups().expect("a list").iter().map(|l| l.id).collect()
    }
}

#[test]
fn scenario_twelve_backups_delete_newest_restore() {
    let mut engine = Engine::connected("c1", b"local");
    for i in 1..=12 {
        let contents = format!("v{}", i).into_bytes();
        let send = engine.controller.request_create_backup(
            blackcurrant::controller::Snapshot::Taken(contents),
        );
        engine.send_and_poll(send.expect("an instruction"));
    }
    // Ten are left, and the two oldest are not among them.
    assert_eq!(engine.listed_ids(), vec![3, 4, 5, 6, 7, 8, 9, 10, 11, 12]);
    assert!(!engine.controller.loading());

    // Delete the newest.
    let send = engine.controller.request_delete(12, &confirmed());
    engine.send_and_poll(send.expect("an instruction"));
    assert_eq!(engine.listed_ids(), vec![3, 4, 5, 6, 7, 8, 9, 10, 11]);
    assert_eq!(engine.table.fetch("c1", 12), None);

    // Restore the newest that is left.
    let newest = *engine.listed_ids().last().unwrap();
    assert_eq!(newest, 11);
    let send = engine.controller.request_restore(newest, &confirmed());
    engine.send_and_poll(send.expect("an instruction"));
    assert_eq!(engine.local.database, b"v11".to_vec());
    assert_eq!(engine.local.migrations_run, 1);
    assert_eq!(engine.local.refreshes, [1; 7]);
    assert_eq!(engine.controller.last_status().map(|s| s.as_str()), Some("Backup restored."));
    assert!(!engine.controller.loading());
}

#[test]
fn retention_keeps_the_ten_latest_of_many() {
    let mut worker = worker_of("c1");
    let mut table = BackupTable::new();
    table.insert("c1", at(1), b"old".to_vec());
    table.insert("c2", at(2), b"other".to_vec());
    for i in 0..25 {
        let messages =
            serve(&mut worker, &mut table, Instruction::CreateBackup(vec![i as u8]), at(100 + i));
        assert_eq!(messages, vec![Message::BackupCreated]);
        assert!(table.list("c1").len() <= 10);
    }
    let messages = serve(&mut worker, &mut table, Instruction::ListBackups, at(500));
    let expected: Vec<BackupSummary> =
        (15..25).map(|i| BackupSummary { id: 3 + i, created_at: at(100 + i) }).collect();
    assert_eq!(messages, vec![Message::BackupList(expected)]);
    for i in 15..25 {
        assert_eq!(table.fetch("c1", 3 + i), Some(vec![i as u8]));
    }
    assert_eq!(table.fetch("c1", 1), None);
    assert_eq!(table.fetch("c2", 2), Some(b"other".to_vec()));
}

#[test]
fn retention_after_exactly_eleven() {
    let mut worker = worker_of("c1");
    let mut table = BackupTable::new();
    let queue: Vec<Timed> = (0..11)
        .map(|i| Timed { instruction: Instruction::CreateBackup(vec![i as u8]), at: at(10 + i) })
        .chain(std::iter::once(Timed { instruction: Instruction::ListBackups, at: at(99) }))
        .collect();
    let messages = serve_all(&mut worker, &mut table, queue);
    assert_eq!(messages.len(), 12);
    match messages.last() {
        Some(Message::BackupList(list)) => {
            let ids: Vec<i64> = list.iter().map(|l| l.id).collect();
            assert_eq!(ids, vec![2, 3, 4, 5, 6, 7, 8, 9, 10, 11]);
        }
        other => panic!("unexpected message {:?}", other),
    }
}

#[test]
fn a_list_sent_right_after_a_create_shows_the_created_backup() {
    let mut worker = worker_of("c1");
    let mut table = BackupTable::new();
    for i in 0..10 {
        table.insert("c1", at(i), vec![]);
    }
    let queue = vec![
        Timed { instruction: Instruction::CreateBackup(b"new".to_vec()), at: at(50) },
        Timed { instruction: Instruction::ListBackups, at: at(51) },
    ];
    let messages = serve_all(&mut worker, &mut table, queue);
    assert_eq!(messages.len(), 2);
    assert_eq!(messages[0], Message::BackupCreated);
    match &messages[1] {
        Message::BackupList(list) => {
            let ids: Vec<i64> = list.iter().map(|l| l.id).collect();
            // The new backup is there, and the oldest has been pruned.
            assert_eq!(ids, vec![2, 3, 4, 5, 6, 7, 8, 9, 10, 11]);
            assert_eq!(list.last().unwrap().created_at, at(50));
        }
        other => panic!("unexpected message {:?}", other),
    }
    assert!(worker.is_ready());
}

#[test]
fn instructions_are_served_first_in_first_out() {
    let mut worker = worker_of("c1");
    let mut table = BackupTable::new();
    let queue = vec![
        Timed { instruction: Instruction::ListBackups, at: at(1) },
        Timed { instruction: Instruction::CreateBackup(vec![1]), at: at(2) },
        Timed { instruction: Instruction::DeleteBackup(1), at: at(3) },
        Timed { instruction: Instruction::FetchBackup(1, FetchReason::Restore), at: at(4) },
    ];
    let messages = serve_all(&mut worker, &mut table, queue);
    assert_eq!(
        messages,
        vec![
            Message::BackupList(vec![]),
            Message::BackupCreated,
            Message::BackupDeleted,
            Message::ActionFailed,
            Message::Status("backup cannot be found".to_string()),
        ]
    );
}

#[test]
fn an_empty_queue_sends_nothing() {
    let mut worker = worker_of("c1");
    let mut table = BackupTable::new();
    assert!(serve_all(&mut worker, &mut table, vec![]).is_empty());
    assert_eq!(table.len(), 0);
    assert!(worker.is_ready());
}

#[test]
fn fetching_twice_for_two_paths_saves_the_same_bytes() {
    let mut engine = Engine::connected("c1", b"local");
    let send = engine
        .controller
        .request_create_backup(blackcurrant::controller::Snapshot::Taken(b"payload".to_vec()));
    engine.send_and_poll(send.unwrap());
    let send = engine.controller.request_download(1, "/tmp/first.sqlite".to_string());
    engine.send_and_poll(send.unwrap());
    let send = engine.controller.request_download(1, "/tmp/second.sqlite".to_string());
    engine.send_and_poll(send.unwrap());
    assert_eq!(
        engine.local.files,
        vec![
            ("/tmp/first.sqlite".to_string(), b"payload".to_vec()),
            ("/tmp/second.sqlite".to_string(), b"payload".to_vec()),
        ]
    );
    assert_eq!(engine.table.len(), 1);
    assert_eq!(engine.controller.last_status().map(|s| s.as_str()), Some("Backup saved."));
}

#[test]
fn one_client_neither_sees_nor_touches_the_rows_of_another() {
    let mut table = BackupTable::new();
    let mut a = worker_of("a");
    let mut b = worker_of("b");
    serve(&mut b, &mut table, Instruction::CreateBackup(b"of b".to_vec()), at(1));
    serve(&mut a, &mut table, Instruction::CreateBackup(b"of a".to_vec()), at(2));
    // b's backup has id 1, a's has id 2.
    assert_eq!(
        serve(&mut a, &mut table, Instruction::ListBackups, at(3)),
        vec![Message::BackupList(vec![BackupSummary { id: 2, created_at: at(2) }])]
    );
    assert_eq!(
        serve(&mut a, &mut table, Instruction::FetchBackup(1, FetchReason::Restore), at(4)),
        vec![Message::ActionFailed, Message::Status("backup cannot be found".to_string())]
    );
    assert_eq!(
        serve(&mut a, &mut table, Instruction::DeleteBackup(1), at(5)),
        vec![Message::BackupDeleted]
    );
    assert_eq!(table.fetch("b", 1), Some(b"of b".to_vec()));
    // Many backups of a do not prune b's.
    for i in 0..15 {
        serve(&mut a, &mut table, Instruction::CreateBackup(vec![]), at(10 + i));
    }
    assert_eq!(table.list("a").len(), 10);
    assert_eq!(table.list("b"), vec![BackupSummary { id: 1, created_at: at(1) }]);
}

#[test]
fn a_failed_restore_leaves_the_local_database_and_its_caches_alone() {
    let mut engine = Engine::connected("c1", b"before");
    let send = engine
        .controller
        .request_create_backup(blackcurrant::controller::Snapshot::Taken(b"remote".to_vec()));
    engine.send_and_poll(send.unwrap());
    engine.local.restore_fails = true;
    let send = engine.controller.request_restore(1, &confirmed());
    engine.send_and_poll(send.unwrap());
    assert_eq!(engine.local.database, b"before".to_vec());
    assert_eq!(engine.local.migrations_run, 0);
    assert_eq!(engine.local.refreshes, [0; 7]);
    assert_eq!(
        engine.controller.last_status().map(|s| s.as_str()),
        Some("Failed to restore backup.")
    );
    assert!(!engine.controller.loading());
    assert!(engine.controller.connected());
}

#[test]
fn restoring_a_backup_that_is_gone_reports_it() {
    let mut engine = Engine::connected("c1", b"before");
    let send = engine.controller.request_restore(5, &confirmed());
    engine.send_and_poll(send.unwrap());
    assert_eq!(engine.local.database, b"before".to_vec());
    assert_eq!(
        engine.controller.last_status().map(|s| s.as_str()),
        Some("backup cannot be found")
    );
    assert!(!engine.controller.loading());
}

#[test]
fn two_instructions_in_flight_are_answered_by_one_list() {
    let mut engine = Engine::connected("c1", b"local");
    assert_eq!(engine.lists_asked, 1);
    let create = engine
        .controller
        .request_create_backup(blackcurrant::controller::Snapshot::Taken(b"one".to_vec()))
        .unwrap();
    engine.send_and_poll(create);
    assert_eq!(engine.lists_asked, 2);
    // A backup and a deletion are sent before anything is polled.
    let create = engine
        .controller
        .request_create_backup(blackcurrant::controller::Snapshot::Taken(b"two".to_vec()))
        .unwrap();
    let delete = engine.controller.request_delete(1, &confirmed()).unwrap();
    engine.send(create);
    engine.send(delete);
    engine.poll();
    assert_eq!(engine.lists_asked, 3);
    assert_eq!(engine.listed_ids(), vec![2]);
    assert!(!engine.controller.loading());
}

#[test]
fn ten_backups_are_kept_whatever_the_clock_says() {
    let mut worker = worker_of("c1");
    let mut table = BackupTable::new();
    for i in 0..4 {
        table.insert("c1", at(5_000 + i), vec![]);
    }
    // The clock jumps back and forth, and stands still.
    let times = [900, 30, 30, 7_000, 1, 30, 6_000, 2, 2, 2, 9, 9_999, 0];
    for (i, secs) in times.iter().enumerate() {
        let messages =
            serve(&mut worker, &mut table, Instruction::CreateBackup(vec![i as u8]), at(*secs));
        assert_eq!(messages, vec![Message::BackupCreated]);
        let expected = std::cmp::min(4 + i + 1, 10);
        assert_eq!(table.list("c1").len(), expected);
    }
    let messages = serve(&mut worker, &mut table, Instruction::ListBackups, at(1));
    match &messages[..] {
        [Message::BackupList(list)] => {
            assert_eq!(list.len(), 10);
            for pair in list.windows(2) {
                assert!(
                    (pair[0].created_at.secs, pair[0].id) < (pair[1].created_at.secs, pair[1].id)
                );
            }
        }
        other => panic!("unexpected messages {:?}", other),
    }
}

#[test]
fn a_list_after_a_create_has_one_line_more_up_to_ten() {
    for m in [0usize, 1, 5, 9, 10] {
        let mut worker = worker_of("c1");
        let mut table = BackupTable::new();
        for i in 0..m {
            table.insert("c1", at(i as i64), vec![]);
        }
        let queue = vec![
            Timed { instruction: Instruction::CreateBackup(b"p".to_vec()), at: at(100) },
            Timed { instruction: Instruction::ListBackups, at: at(101) },
        ];
        let messages = serve_all(&mut worker, &mut table, queue);
        assert_eq!(messages[0], Message::BackupCreated);
        match &messages[1] {
            Message::BackupList(list) => {
                assert_eq!(list.len(), std::cmp::min(m + 1, 10));
                let newest = list.last().unwrap();
                assert_eq!(*newest, BackupSummary { id: m as i64 + 1, created_at: at(100) });
                assert_eq!(table.fetch("c1", newest.id), Some(b"p".to_vec()));
            }
            other => panic!("unexpected message {:?}", other),
        }
    }
}

#[test]
fn a_backup_dated_before_ten_others_is_pruned_at_once() {
    let mut worker = worker_of("c1");
    let mut table = BackupTable::new();
    for i in 0..10 {
        table.insert("c1", at(1_000 + i), vec![]);
    }
    let queue = vec![
        Timed { instruction: Instruction::CreateBackup(b"late".to_vec()), at: at(5) },
        Timed { instruction: Instruction::ListBackups, at: at(6) },
    ];
    let messages = serve_all(&mut worker, &mut table, queue);
    match &messages[1] {
        Message::BackupList(list) => {
            let ids: Vec<i64> = list.iter().map(|l| l.id).collect();
            assert_eq!(ids, vec![1, 2, 3, 4, 5, 6, 7, 8, 9, 10]);
        }
        other => panic!("unexpected message {:?}", other),
    }
    assert_eq!(table.fetch("c1", 11), None);
}
