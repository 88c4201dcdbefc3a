//! The worker served by a table in memory instead of a remote store: one
//! instruction at a time, each run to its end before the next begins. This is
//! the engine without a network, and the setting in which its laws are
//! stated.

use vstd::prelude::*;
use crate::protocol::{Instruction, InstructionView, Message, MessageView, views_of};
use crate::store::TableView;
use crate::table::BackupTable;
use crate::timestamp::Timestamp;
use crate::worker::{concluded, phase_after, planned, Worker};

verus! {

/// An instruction and the instant at which the worker accepts it.
#[derive(Debug, Clone, PartialEq, Eq)]
pub struct Timed {
    pub instruction: Instruction,
    pub at: Timestamp,
}

/// The mathematical value of a [`Timed`].
pub struct TimedView {
    pub instruction: InstructionView,
    pub at: Timestamp,
}

impl View for Timed {
    type V = TimedView;

    open spec fn view(&self) -> TimedView {
        TimedView { instruction: self.instruction@, at: self.at }
    }
}

/// The values of a queue of timed instructions, in order.
pub open spec fn queue_view(queue: Seq<Timed>) -> Seq<TimedView> {
    queue.map_values(|t: Timed| t@)
}

/// The table and the messages after the worker of `client` served one
/// instruction against `table`: the instruction's statement runs, its result
/// is handled, and a statement that the result calls for runs in the same
/// turn.
pub open spec fn served(
    table: TableView,
    client: Seq<char>,
    instruction: InstructionView,
    now: Timestamp,
) -> (TableView, Seq<MessageView>) {
    let (query, pending) = planned(client, instruction, now);
    let step = concluded(client, pending, query.answer(table));
    let after = query.effect(table);
    match step.next {
        Some(next) => (
            next.effect(after),
            step.messages + concluded(
                client,
                phase_after(pending)->Running_0,
                next.answer(after),
            ).messages,
        ),
        None => (after, step.messages),
    }
}

/// The table and the messages after the worker served a queue of
/// instructions, first in, first served.
pub open spec fn served_all(table: TableView, client: Seq<char>, queue: Seq<TimedView>) -> (
    TableView,
    Seq<MessageView>,
)
    decreases queue.len(),
{
    if queue.len() == 0 {
        (table, Seq::empty())
    } else {
        let (before, sent) = served_all(table, client, queue.drop_last());
        let (after, more) = served(before, client, queue.last().instruction, queue.last().at);
        (after, sent + more)
    }
}

/// Serves one instruction against the table and returns the messages that
/// the worker sends for it, in order.
pub fn serve(
    worker: &mut Worker,
    table: &mut BackupTable,
    instruction: Instruction,
    now: Timestamp,
) -> (messages: Vec<Message>)
    requires
        old(worker)@.phase is Ready,
    ensures
        final(worker)@ == old(worker)@,
        final(table)@ == served(old(table)@, old(worker)@.client_id, instruction@, now).0,
        views_of(messages@) == served(old(table)@, old(worker)@.client_id, instruction@, now).1,
        old(table)@.wf() ==> final(table)@.wf(),
{
    let query = worker.accept_at(instruction, now);
    let reply = table.run(query);
    let step = worker.finish(reply);
    let mut messages = step.messages;
    match step.next {
        Some(next) => {
            let ghost sent = messages@;
            let reply = table.run(next);
            let last = worker.finish(reply);
            let mut more = last.messages;
            let ghost added = more@;
            messages.append(&mut more);
            assert(views_of(messages@) =~= views_of(sent) + views_of(added));
        },
        None => {},
    }
    messages
}

/// Serves a queue of instructions against the table, first in, first
/// served, and returns all messages that the worker sends, in order.
pub fn serve_all(worker: &mut Worker, table: &mut BackupTable, queue: Vec<Timed>) -> (messages:
    Vec<Message>)
    requires
        old(worker)@.phase is Ready,
    ensures
        final(worker)@ == old(worker)@,
        final(table)@ == served_all(old(table)@, old(worker)@.client_id, queue_view(queue@)).0,
        views_of(messages@) == served_all(old(table)@, old(worker)@.client_id, queue_view(queue@)).1,
        old(table)@.wf() ==> final(table)@.wf(),
{
    let ghost all = queue_view(queue@);
    let ghost client = worker@.client_id;
    let mut messages: Vec<Message> = Vec::new();
    let mut queue = queue;
    let mut rest: Vec<Timed> = Vec::new();
    // Turn the queue over, so that its head can be popped.
    while queue.len() > 0
        invariant
            queue_view(queue@) + queue_view(rest@).reverse() == all,
        decreases queue.len(),
    {
        let ghost q = queue@;
        let ghost r = rest@;
        let item = queue.pop().unwrap();
        rest.push(item);
        assert(queue_view(queue@) + queue_view(rest@).reverse() =~= queue_view(q) + queue_view(
            r,
        ).reverse());
    }
    let ghost n = rest.len();
    assert(queue_view(rest@).reverse() =~= all);
    assert(views_of(messages@) =~= Seq::<MessageView>::empty());
    assert(all.take(0) =~= Seq::<TimedView>::empty());
    while rest.len() > 0
        invariant
            worker@ == old(worker)@,
            worker@.phase is Ready,
            client == worker@.client_id,
            rest.len() <= n == all.len(),
            queue_view(rest@) == all.reverse().take(rest.len() as int),
            table@ == served_all(old(table)@, client, all.take(n - rest.len())).0,
            views_of(messages@) == served_all(old(table)@, client, all.take(n - rest.len())).1,
            old(table)@.wf() ==> table@.wf(),
        decreases rest.len(),
    {
        let ghost done = n - rest.len();
        let ghost sent = messages@;
        let ghost r = rest@;
        let item = rest.pop().unwrap();
        proof {
            assert(item@ == queue_view(r)[r.len() - 1]);
            assert(item@ == all[done as int]);
            assert(all.take(done + 1).drop_last() =~= all.take(done as int));
            assert(all.take(done + 1).last() == all[done as int]);
            assert(queue_view(rest@) =~= all.reverse().take(rest.len() as int));
        }
        let mut more = serve(worker, table, item.instruction, item.at);
        let ghost added = more@;
        messages.append(&mut more);
        assert(views_of(messages@) =~= views_of(sent) + views_of(added));
    }
    assert(all.take(n as int) =~= all);
    messages
}

} // verus!
