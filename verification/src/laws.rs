//! What holds of the engine as a whole: the worker of one client served by a
//! backup table, instruction after instruction.

use vstd::prelude::*;
use crate::controller::{
    ControllerView, LocalTaskView, ReactionView, Stage, STATUS_RESTORE_FAILED,
};
use crate::loopback::{served, served_all, TimedView};
use crate::protocol::{FetchReasonView, InstructionView, MessageView, STATUS_NOT_FOUND};
use crate::seq_facts::lemma_filter_twice;
use crate::store::{RecordView, TableView};
use crate::timestamp::Timestamp;
use crate::worker::failure;

verus! {

/// A pruning for one client leaves the rows of every other client as they
/// are.
pub proof fn lemma_pruned_spares_others(t: TableView, a: Seq<char>, b: Seq<char>)
    requires
        a != b,
    ensures
        t.pruned(a).of_client(b) == t.of_client(b),
{
    let keep = |r: RecordView| t.keeps(a, r);
    let theirs = |r: RecordView| r.client_id == b;
    lemma_filter_twice(t.rows, keep, theirs, theirs);
}

/// A deletion by one client leaves the rows of every other client as they
/// are, whatever their ids.
pub proof fn lemma_deleted_spares_others(t: TableView, a: Seq<char>, id: i64, b: Seq<char>)
    requires
        a != b,
    ensures
        t.deleted(a, id).of_client(b) == t.of_client(b),
{
    let keep = |r: RecordView| !TableView::is_target(a, id, r);
    let theirs = |r: RecordView| r.client_id == b;
    lemma_filter_twice(t.rows, keep, theirs, theirs);
}

/// An insertion by one client leaves the rows of every other client as they
/// are.
pub proof fn lemma_inserted_spares_others(
    t: TableView,
    a: Seq<char>,
    at: Timestamp,
    payload: Seq<u8>,
    b: Seq<char>,
)
    requires
        a != b,
    ensures
        t.inserted(a, at, payload).of_client(b) == t.of_client(b),
{
    let theirs = |r: RecordView| r.client_id == b;
    t.rows.lemma_filter_push(t.next_row(a, at, payload), theirs);
}

/// The payload that a client is given for an id is looked up among the
/// client's own rows.
pub proof fn lemma_contents_among_own(t: TableView, a: Seq<char>, id: i64)
    ensures
        t.rows.filter(|r: RecordView| TableView::is_target(a, id, r)) == t.of_client(a).filter(
            |r: RecordView| r.id == id,
        ),
{
    let mine = |r: RecordView| r.client_id == a;
    let same_id = |r: RecordView| r.id == id;
    let hit = |r: RecordView| TableView::is_target(a, id, r);
    lemma_filter_twice(t.rows, mine, same_id, hit);
}

/// No cross-client leakage, first half: whatever a client's worker is
/// instructed to do, the rows of every other client stay as they are.
pub proof fn law_other_clients_untouched(
    t: TableView,
    a: Seq<char>,
    b: Seq<char>,
    instruction: InstructionView,
    now: Timestamp,
)
    requires
        a != b,
    ensures
        served(t, a, instruction, now).0.of_client(b) == t.of_client(b),
{
    match instruction {
        InstructionView::ListBackups => {},
        InstructionView::CreateBackup(payload) => {
            lemma_inserted_spares_others(t, a, now, payload, b);
            lemma_pruned_spares_others(t.inserted(a, now, payload), a, b);
        },
        InstructionView::FetchBackup(id, reason) => {},
        InstructionView::DeleteBackup(id) => {
            lemma_deleted_spares_others(t, a, id, b);
        },
    }
}

/// No cross-client leakage, second half: what a client's worker sends for
/// a list, a fetch or a deletion is decided by the client's own rows alone.
/// Two tables that hold the same rows of the client get the same messages,
/// whatever else they hold and whichever ids collide.
pub proof fn law_other_clients_unseen(
    t1: TableView,
    t2: TableView,
    a: Seq<char>,
    instruction: InstructionView,
    now: Timestamp,
)
    requires
        t1.of_client(a) == t2.of_client(a),
        !(instruction is CreateBackup),
    ensures
        served(t1, a, instruction, now).1 == served(t2, a, instruction, now).1,
        served(t1, a, instruction, now).0.of_client(a) == served(t2, a, instruction, now).0.of_client(a),
{
    match instruction {
        InstructionView::ListBackups => {},
        InstructionView::CreateBackup(payload) => {},
        InstructionView::FetchBackup(id, reason) => {
            lemma_contents_among_own(t1, a, id);
            lemma_contents_among_own(t2, a, id);
        },
        InstructionView::DeleteBackup(id) => {
            let keep = |r: RecordView| !TableView::is_target(a, id, r);
            let mine = |r: RecordView| r.client_id == a;
            let other_id = |r: RecordView| r.id != id;
            let both = |r: RecordView| r.client_id == a && r.id != id;
            lemma_filter_twice(t1.rows, keep, mine, both);
            lemma_filter_twice(t1.rows, mine, other_id, both);
            lemma_filter_twice(t2.rows, keep, mine, both);
            lemma_filter_twice(t2.rows, mine, other_id, both);
        },
    }
}

/// Ordering: a queue is served in the order in which it was filled. Serving
/// one queue and then another is serving the one queue that the two make: the
/// second starts from the table that the first left, and its messages follow
/// those of the first.
pub proof fn law_queue_in_order(
    t: TableView,
    client: Seq<char>,
    first: Seq<TimedView>,
    second: Seq<TimedView>,
)
    ensures
        served_all(t, client, first + second).0 == served_all(
            served_all(t, client, first).0,
            client,
            second,
        ).0,
        served_all(t, client, first + second).1 == served_all(t, client, first).1 + served_all(
            served_all(t, client, first).0,
            client,
            second,
        ).1,
    decreases second.len(),
{
    let between = served_all(t, client, first);
    if second.len() == 0 {
        assert(first + second =~= first);
        assert(between.1 + served_all(between.0, client, second).1 =~= between.1);
    } else {
        law_queue_in_order(t, client, first, second.drop_last());
        assert((first + second).drop_last() =~= first + second.drop_last());
        assert((first + second).last() == second.last());
        let before = served_all(between.0, client, second.drop_last());
        let step = served(before.0, client, second.last().instruction, second.last().at);
        assert((between.1 + before.1) + step.1 =~= between.1 + (before.1 + step.1));
    }
}

/// Ordering: a backup instruction followed at once by a list instruction
/// yields a list of the table as the backup and its pruning left it, never of
/// the table before.
pub proof fn law_list_follows_create(
    t: TableView,
    client: Seq<char>,
    payload: Seq<u8>,
    created: Timestamp,
    listed: Timestamp,
)
    requires
        t.can_insert(),
    ensures
        served_all(
            t,
            client,
            seq![
                TimedView { instruction: InstructionView::CreateBackup(payload), at: created },
                TimedView { instruction: InstructionView::ListBackups, at: listed },
            ],
        ) == (
            t.inserted(client, created, payload).pruned(client),
            seq![
                MessageView::BackupCreated,
                MessageView::BackupList(
                    t.inserted(client, created, payload).pruned(client).listed(client),
                ),
            ],
        ),
{
    let create = TimedView { instruction: InstructionView::CreateBackup(payload), at: created };
    let list = TimedView { instruction: InstructionView::ListBackups, at: listed };
    let queue = seq![create, list];
    let after = t.inserted(client, created, payload).pruned(client);
    assert(queue.drop_last() =~= seq![create]);
    assert(seq![create].drop_last() =~= Seq::<TimedView>::empty());
    reveal_with_fuel(served_all, 3);
    let first = served_all(t, client, seq![create]);
    assert(first.0 == after);
    assert(first.1 =~= seq![MessageView::BackupCreated]);
    let both = served_all(t, client, queue);
    assert(both.0 == after);
    assert(both.1 =~= seq![MessageView::BackupCreated, MessageView::BackupList(after.listed(client))]);
}

/// Idempotent fetch-for-save: a backup fetched twice, to be saved at two
/// paths, comes with the same bytes both times, and the table is none the
/// different for it. A backup that is not there is missing both times.
pub proof fn law_fetch_for_save_repeats(
    t: TableView,
    client: Seq<char>,
    id: i64,
    first_path: Seq<char>,
    second_path: Seq<char>,
    first: Timestamp,
    second: Timestamp,
)
    ensures
        ({
            let one = served(
                t,
                client,
                InstructionView::FetchBackup(id, FetchReasonView::SaveToPath(first_path)),
                first,
            );
            let two = served(
                one.0,
                client,
                InstructionView::FetchBackup(id, FetchReasonView::SaveToPath(second_path)),
                second,
            );
            &&& one.0 == t
            &&& two.0 == t
            &&& match t.contents(client, id) {
                Some(bytes) => {
                    &&& one.1 == seq![
                        MessageView::BackupContents(bytes, FetchReasonView::SaveToPath(first_path)),
                    ]
                    &&& two.1 == seq![
                        MessageView::BackupContents(bytes, FetchReasonView::SaveToPath(second_path)),
                    ]
                },
                None => one.1 == failure(STATUS_NOT_FOUND@) && two.1 == failure(STATUS_NOT_FOUND@),
            }
        }),
{
}

/// What the controller hands out for fetched contents that are to be
/// saved: the write of exactly these bytes to exactly this path.
pub proof fn law_saved_bytes_are_fetched_bytes(state: ControllerView, bytes: Seq<u8>, path: Seq<char>)
    ensures
        state.applied(MessageView::BackupContents(bytes, FetchReasonView::SaveToPath(path))).1.task
            == Some(LocalTaskView::Save { path, bytes }),
{
}

/// Whether a message ends what the controller waits for: a list, a
/// failure, or the loss of the connection. Fetched contents end it too, but
/// only once the local task that they start has ended.
pub open spec fn is_terminal(message: MessageView) -> bool {
    message is BackupList || message is ActionFailed || message is ConnectionFailed
}

/// Loading lasts: while the controller waits for the end of an instruction,
/// no message but a terminal one ends the wait.
pub proof fn law_loading_lasts(state: ControllerView, message: MessageView)
    requires
        state.loading,
        !is_terminal(message),
    ensures
        state.applied(message).0.loading,
{
}

/// Every request that hands out an instruction starts the wait for its
/// end.
pub proof fn law_requests_start_loading(
    state: ControllerView,
    snapshot: Option<Option<Seq<u8>>>,
    id: i64,
    reason: FetchReasonView,
    allowed: bool,
)
    ensures
        state.list_requested().1 is Some ==> state.list_requested().0.loading,
        state.create_requested(snapshot).1 is Some ==> state.create_requested(snapshot).0.loading,
        state.fetch_requested(id, reason, allowed).1 is Some ==> state.fetch_requested(
            id,
            reason,
            allowed,
        ).0.loading,
        state.delete_requested(id, allowed).1 is Some ==> state.delete_requested(
            id,
            allowed,
        ).0.loading,
{
}

/// No restore without consent: a restore or a deletion that the user did
/// not confirm hands out no instruction and changes nothing.
pub proof fn law_unconfirmed_requests_do_nothing(state: ControllerView, id: i64)
    ensures
        state.fetch_requested(id, FetchReasonView::Restore, false) == (state, None::<InstructionView>),
        state.delete_requested(id, false) == (state, None::<InstructionView>),
{
}

/// Restore atomicity, as far as the controller decides: after a restore
/// that failed, neither the migrations nor the refresh of the caches is asked
/// for, so that nothing reads the database as a restored one; the wait ends
/// and the status tells of the failure. That the failed restore leaves the
/// database itself as it was is up to whoever performs it.
pub proof fn law_failed_restore_ends_there(state: ControllerView)
    requires
        state.stage == Stage::Restoring,
    ensures
        state.completed(false).1 is None,
        state.completed(false).0.stage == Stage::Idle,
        !state.completed(false).0.loading,
        state.completed(false).0.last_status == Some(STATUS_RESTORE_FAILED@),
        state.completed(false).0.backups == state.backups,
        state.completed(false).0.connected == state.connected,
{
}

/// Whether a message owes a list: the connection, a backup made, a backup
/// deleted.
pub open spec fn owes_list(message: MessageView) -> bool {
    message is Connected || message is BackupCreated || message is BackupDeleted
}

/// Whether none of the messages brings fetched contents, so that none hands
/// out a task.
pub open spec fn without_contents(inbox: Seq<MessageView>) -> bool {
    forall|i: int| 0 <= i < inbox.len() ==> !(#[trigger] inbox[i] is BackupContents)
}

/// A round without fetched contents, as one step: all its messages are
/// applied, the inbox is empty, no task is handed out, and the one thing that
/// may go out is the list that is owed when the inbox has run empty.
pub proof fn law_round_is_one_step(state: ControllerView, inbox: Seq<MessageView>)
    requires
        state.stage == Stage::Idle,
        without_contents(inbox),
    ensures
        state.applied_all(inbox).stage == Stage::Idle,
        state.polled(inbox) == (
            state.applied_all(inbox).refresh_taken().0,
            Seq::<MessageView>::empty(),
            ReactionView { send: state.applied_all(inbox).refresh_taken().1, task: None },
        ),
    decreases inbox.len(),
{
    if inbox.len() > 0 {
        assert(!(inbox[0] is BackupContents));
        let next = state.applied(inbox[0]).0;
        let rest = inbox.drop_first();
        assert(without_contents(rest)) by {
            assert forall|i: int| 0 <= i < rest.len() implies !(#[trigger] rest[i] is BackupContents) by {
                assert(rest[i] == inbox[i + 1]);
            }
        }
        law_round_is_one_step(next, rest);
    } else {
        assert(inbox =~= Seq::<MessageView>::empty());
    }
}

/// What a round leaves of the connection and of the owed list: a list that
/// was owed, or that a message of the round owes, is owed at the end of the
/// round; and a round without `ConnectionFailed` keeps the connection, or
/// makes it where a `Connected` is among its messages.
pub proof fn lemma_round_owes(state: ControllerView, inbox: Seq<MessageView>)
    requires
        state.stage == Stage::Idle,
        without_contents(inbox),
    ensures
        state.pending_refresh || (exists|i: int| 0 <= i < inbox.len() && owes_list(#[trigger] inbox[i]))
            ==> state.applied_all(inbox).pending_refresh,
        (forall|i: int| 0 <= i < inbox.len() ==> !(#[trigger] inbox[i] is ConnectionFailed)) && (
        state.connected || (exists|i: int| 0 <= i < inbox.len() && #[trigger] inbox[i] is Connected))
            ==> state.applied_all(inbox).connected,
        (forall|i: int| 0 <= i < inbox.len() ==> !(#[trigger] inbox[i] is Connected))
            && !state.connected ==> !state.applied_all(inbox).connected,
    decreases inbox.len(),
{
    if inbox.len() > 0 {
        assert(!(inbox[0] is BackupContents));
        let next = state.applied(inbox[0]).0;
        let rest = inbox.drop_first();
        assert(without_contents(rest)) by {
            assert forall|i: int| 0 <= i < rest.len() implies !(#[trigger] rest[i] is BackupContents) by {
                assert(rest[i] == inbox[i + 1]);
            }
        }
        lemma_round_owes(next, rest);
        if exists|i: int| 0 <= i < inbox.len() && owes_list(#[trigger] inbox[i]) {
            let i = choose|i: int| 0 <= i < inbox.len() && owes_list(#[trigger] inbox[i]);
            if i > 0 {
                assert(rest[i - 1] == inbox[i]);
                assert(owes_list(rest[i - 1]));
            }
        }
        if exists|i: int| 0 <= i < inbox.len() && #[trigger] inbox[i] is Connected {
            let i = choose|i: int| 0 <= i < inbox.len() && #[trigger] inbox[i] is Connected;
            if i > 0 {
                assert(rest[i - 1] == inbox[i]);
                assert(rest[i - 1] is Connected);
            }
        }
        assert forall|i: int| 0 <= i < rest.len() implies (inbox[i + 1] == #[trigger] rest[i]) by {}
        if forall|i: int| 0 <= i < inbox.len() ==> !(#[trigger] inbox[i] is ConnectionFailed) {
            assert(!(inbox[0] is ConnectionFailed));
            assert forall|i: int| 0 <= i < rest.len() implies !(#[trigger] rest[i] is ConnectionFailed) by {
                assert(rest[i] == inbox[i + 1]);
            }
        }
        if forall|i: int| 0 <= i < inbox.len() ==> !(#[trigger] inbox[i] is Connected) {
            assert(!(inbox[0] is Connected));
            assert forall|i: int| 0 <= i < rest.len() implies !(#[trigger] rest[i] is Connected) by {
                assert(rest[i] == inbox[i + 1]);
            }
        }
    }
}

/// One list per round: however many of a round's messages owe a list, one
/// list instruction goes out when the round is over, provided the worker is
/// connected then. After it nothing is owed, and the wait for the list has
/// begun.
pub proof fn law_one_list_per_round(state: ControllerView, inbox: Seq<MessageView>)
    requires
        state.stage == Stage::Idle,
        without_contents(inbox),
        forall|i: int| 0 <= i < inbox.len() ==> !(#[trigger] inbox[i] is ConnectionFailed),
        state.connected || (exists|i: int| 0 <= i < inbox.len() && #[trigger] inbox[i] is Connected),
        exists|i: int| 0 <= i < inbox.len() && owes_list(#[trigger] inbox[i]),
    ensures
        state.polled(inbox).2 == (ReactionView {
            send: Some(InstructionView::ListBackups),
            task: None,
        }),
        state.polled(inbox).1.len() == 0,
        !state.polled(inbox).0.pending_refresh,
        state.polled(inbox).0.loading,
        state.polled(inbox).0.polled(Seq::empty()).2 == (ReactionView { send: None, task: None }),
{
    law_round_is_one_step(state, inbox);
    lemma_round_owes(state, inbox);
}

/// No list without a connection: while the worker is not connected and no
/// message of the round connects it, the round sends nothing, and what is
/// owed stays owed.
pub proof fn law_no_list_while_unconnected(state: ControllerView, inbox: Seq<MessageView>)
    requires
        state.stage == Stage::Idle,
        without_contents(inbox),
        !state.connected,
        forall|i: int| 0 <= i < inbox.len() ==> !(#[trigger] inbox[i] is Connected),
    ensures
        state.polled(inbox).2 == (ReactionView { send: None, task: None }),
        state.polled(inbox).0.pending_refresh == state.applied_all(inbox).pending_refresh,
{
    law_round_is_one_step(state, inbox);
    lemma_round_owes(state, inbox);
}

} // verus!
