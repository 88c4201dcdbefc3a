//! The retention law: of the backups that a client creates one after
//! another, the table keeps the ten latest.

use vstd::prelude::*;
use vstd::relations::sorted_by;
use vstd::seq_lib::lemma_sorted_unique;
use crate::loopback::{served, served_all, TimedView};
use crate::protocol::{BackupSummary, InstructionView, MessageView};
use crate::seq_facts::{
    lemma_filter_agree, lemma_filter_all, lemma_filter_member, lemma_filter_none,
    lemma_filter_twice,
};
use crate::table::lemma_filter_keeps_wf;
use crate::store::{lemma_listed_before_total, listed_before, RecordView, TableView, RETENTION};
use crate::timestamp::Timestamp;

verus! {

/// The instructions that create one backup per payload, each accepted at
/// its instant.
pub open spec fn creations(payloads: Seq<Seq<u8>>, times: Seq<Timestamp>) -> Seq<TimedView> {
    Seq::new(
        payloads.len(),
        |i: int| TimedView { instruction: InstructionView::CreateBackup(payloads[i]), at: times[i] },
    )
}

/// The row that the `i`-th of these creations adds to a table `t`.
pub open spec fn created_row(
    t: TableView,
    client: Seq<char>,
    payloads: Seq<Seq<u8>>,
    times: Seq<Timestamp>,
    i: int,
) -> RecordView {
    RecordView {
        id: (t.last_id + 1 + i) as i64,
        client_id: client,
        created_at: times[i],
        payload: payloads[i],
    }
}

/// The rows that the creations `from .. to` add, in order.
pub open spec fn created_rows(
    t: TableView,
    client: Seq<char>,
    payloads: Seq<Seq<u8>>,
    times: Seq<Timestamp>,
    from: int,
    to: int,
) -> Seq<RecordView> {
    Seq::new((to - from) as nat, |j: int| created_row(t, client, payloads, times, from + j))
}

/// The clock runs forward: every creation is later than the one before, and
/// the first is later than every row that the client has in the table.
pub open spec fn clock_runs_forward(t: TableView, client: Seq<char>, times: Seq<Timestamp>) -> bool {
    &&& forall|i: int, j: int| 0 <= i < j < times.len() ==> (#[trigger] times[i]).before(#[trigger] times[j])
    &&& forall|k: int|
        0 <= k < t.of_client(client).len() && times.len() > 0 ==> (#[trigger] t.of_client(
            client,
        )[k]).created_at.before(times[0])
}

/// `a` is before `b`, or is `b`.
spec fn not_after(a: Timestamp, b: Timestamp) -> bool {
    a.before(b) || a == b
}

/// In a run of rows whose times of creation grow strictly, as many rows are
/// newer than row `i` as come after it.
proof fn lemma_newer_in_rising_run(s: Seq<RecordView>, i: int)
    requires
        0 <= i < s.len(),
        forall|a: int, b: int| 0 <= a < b < s.len() ==> (#[trigger] s[a]).created_at.before((#[trigger] s[b]).created_at),
    ensures
        s.filter(|y: RecordView| y.newer_than(s[i])).len() == s.len() - 1 - i,
    decreases s.len(),
{
    let newer = |y: RecordView| y.newer_than(s[i]);
    let head = s.drop_last();
    let last = s.last();
    assert(s =~= head.push(last));
    head.lemma_filter_push(last, newer);
    if i == s.len() - 1 {
        assert forall|k: int| 0 <= k < head.len() implies !newer(#[trigger] head[k]) by {
            assert(head[k] == s[k]);
            assert(s[k].created_at.before(s[i].created_at));
        }
        lemma_filter_none(head, newer);
    } else {
        assert forall|a: int, b: int| 0 <= a < b < head.len() implies (#[trigger] head[a]).created_at.before((#[trigger] head[b]).created_at) by {
            assert(head[a] == s[a] && head[b] == s[b]);
        }
        lemma_newer_in_rising_run(head, i);
        assert(head[i] == s[i]);
        assert(s[i].created_at.before(s[s.len() - 1].created_at));
        assert(newer(last));
    }
}

/// The times of creation grow strictly along the run.
spec fn rises(s: Seq<RecordView>) -> bool {
    forall|a: int, b: int| 0 <= a < b < s.len() ==> (#[trigger] s[a]).created_at.before((#[trigger] s[b]).created_at)
}

/// Every row of `before` is older than every row of `rising`.
spec fn all_older(before: Seq<RecordView>, rising: Seq<RecordView>) -> bool {
    forall|j: int, i: int|
        0 <= j < before.len() && 0 <= i < rising.len() ==> (#[trigger] before[j]).created_at.before(
            (#[trigger] rising[i]).created_at,
        )
}

/// After a pruning for a client, the client has those of its rows that
/// fewer than ten of them outranked.
proof fn lemma_pruned_own_rows(t: TableView, client: Seq<char>)
    ensures
        t.pruned(client).of_client(client) == t.of_client(client).filter(
            |r: RecordView| t.rank(client, r) < RETENTION,
        ),
{
    let mine = |r: RecordView| r.client_id == client;
    let keep = |r: RecordView| t.keeps(client, r);
    let low = |r: RecordView| t.rank(client, r) < RETENTION;
    let both = |r: RecordView| r.client_id == client && t.rank(client, r) < RETENTION;
    lemma_filter_twice(t.rows, keep, mine, both);
    lemma_filter_twice(t.rows, mine, low, both);
}

/// Where a client's rows are older rows followed by a rising run, a row of
/// the run is outranked by the rows behind it, and an older row by the whole
/// run at least.
proof fn lemma_ranks(t: TableView, client: Seq<char>, before: Seq<RecordView>, rising: Seq<RecordView>)
    requires
        t.of_client(client) == before + rising,
        rises(rising),
        all_older(before, rising),
    ensures
        forall|i: int| 0 <= i < rising.len() ==> t.rank(client, #[trigger] rising[i]) == rising.len() - 1 - i,
        forall|j: int| 0 <= j < before.len() ==> t.rank(client, #[trigger] before[j]) >= rising.len(),
{
    assert forall|i: int| 0 <= i < rising.len() implies t.rank(client, #[trigger] rising[i]) == rising.len() - 1 - i by {
        let newer = |y: RecordView| y.newer_than(rising[i]);
        Seq::filter_distributes_over_add(before, rising, newer);
        assert forall|j: int| 0 <= j < before.len() implies !newer(#[trigger] before[j]) by {
            assert(before[j].created_at.before(rising[i].created_at));
        }
        lemma_filter_none(before, newer);
        lemma_newer_in_rising_run(rising, i);
        assert((before + rising).filter(newer) =~= rising.filter(newer));
    }
    assert forall|j: int| 0 <= j < before.len() implies t.rank(client, #[trigger] before[j]) >= rising.len() by {
        let newer = |y: RecordView| y.newer_than(before[j]);
        Seq::filter_distributes_over_add(before, rising, newer);
        assert forall|i: int| 0 <= i < rising.len() implies newer(#[trigger] rising[i]) by {
            assert(before[j].created_at.before(rising[i].created_at));
        }
        lemma_filter_all(rising, newer);
    }
}

/// What a pruning leaves of older rows followed by a rising run of eleven
/// rows at most: of the run its last ten, and of the older rows none once the
/// run has ten.
proof fn lemma_prune_rising(
    before: Seq<RecordView>,
    rising: Seq<RecordView>,
    low: spec_fn(RecordView) -> bool,
)
    requires
        1 <= rising.len() <= RETENTION + 1,
        forall|i: int| 0 <= i < rising.len() ==> low(#[trigger] rising[i]) == (rising.len() - 1 - i < RETENTION),
        forall|j: int| 0 <= j < before.len() && rising.len() >= RETENTION ==> !low(#[trigger] before[j]),
    ensures
        rising.len() <= RETENTION ==> (before + rising).filter(low) == before.filter(low) + rising,
        rising.len() > RETENTION ==> (before + rising).filter(low) == before.filter(low) + rising.skip(1),
        rising.len() >= RETENTION ==> before.filter(low).len() == 0,
{
    Seq::filter_distributes_over_add(before, rising, low);
    if rising.len() >= RETENTION {
        lemma_filter_none(before, low);
    }
    if rising.len() <= RETENTION {
        lemma_filter_all(rising, low);
    } else {
        let head = seq![rising[0]];
        let tail = rising.skip(1);
        assert(rising =~= head + tail);
        Seq::filter_distributes_over_add(head, tail, low);
        assert forall|i: int| 0 <= i < head.len() implies !low(#[trigger] head[i]) by {
            assert(head[i] == rising[0]);
        }
        lemma_filter_none(head, low);
        assert forall|i: int| 0 <= i < tail.len() implies low(#[trigger] tail[i]) by {
            assert(tail[i] == rising[i + 1]);
        }
        lemma_filter_all(tail, low);
        assert(head.filter(low) + tail.filter(low) =~= tail);
    }
}

/// One more creation: what the run of the first `k` creations is, told by
/// the run of the first `k - 1`.
proof fn lemma_one_more_creation(
    t: TableView,
    client: Seq<char>,
    payloads: Seq<Seq<u8>>,
    times: Seq<Timestamp>,
    k: int,
)
    requires
        payloads.len() == times.len(),
        1 <= k <= times.len(),
        served_all(t, client, creations(payloads, times).take(k - 1)).0.can_insert(),
    ensures
        ({
            let prior = served_all(t, client, creations(payloads, times).take(k - 1));
            let run = served_all(t, client, creations(payloads, times).take(k));
            &&& run.0 == prior.0.inserted(client, times[k - 1], payloads[k - 1]).pruned(client)
            &&& run.1 == prior.1.push(MessageView::BackupCreated)
        }),
{
    let queue = creations(payloads, times);
    assert(queue.take(k).drop_last() =~= queue.take(k - 1));
    assert(queue.take(k).last() == queue[k - 1]);
    let prior = served_all(t, client, queue.take(k - 1));
    let step = served(prior.0, client, queue[k - 1].instruction, queue[k - 1].at);
    assert(step.1 =~= seq![MessageView::BackupCreated]);
    assert(prior.1 + step.1 =~= prior.1.push(MessageView::BackupCreated));
}

/// The state of the table after the first `k` creations: the highest id
/// has grown by `k`; the client's rows are some of its earlier rows, all older
/// than the first creation, followed by the latest creations, ten at most;
/// from the tenth creation on none of the earlier rows is left. One
/// `BackupCreated` was sent per creation.
proof fn lemma_after_creations(
    t: TableView,
    client: Seq<char>,
    payloads: Seq<Seq<u8>>,
    times: Seq<Timestamp>,
    k: int,
) -> (earlier: Seq<RecordView>)
    requires
        payloads.len() == times.len(),
        0 <= k <= times.len(),
        t.last_id + times.len() <= i64::MAX,
        clock_runs_forward(t, client, times),
    ensures
        ({
            let run = served_all(t, client, creations(payloads, times).take(k));
            let kept = if k < RETENTION { k } else { RETENTION as int };
            &&& run.0.last_id == t.last_id + k
            &&& run.0.of_client(client) == earlier + created_rows(t, client, payloads, times, k - kept, k)
            &&& forall|j: int| 0 <= j < earlier.len() && times.len() > 0 ==> (#[trigger] earlier[j]).created_at.before(times[0])
            &&& k >= RETENTION ==> earlier.len() == 0
            &&& run.1 == Seq::new(k as nat, |i: int| MessageView::BackupCreated)
        }),
    decreases k,
{
    let queue = creations(payloads, times);
    if k == 0 {
        let earlier = t.of_client(client);
        assert(queue.take(0) =~= Seq::<TimedView>::empty());
        assert(created_rows(t, client, payloads, times, 0, 0) =~= Seq::<RecordView>::empty());
        let run = served_all(t, client, queue.take(0));
        assert(run.0 == t);
        assert(run.1 =~= Seq::new(0nat, |i: int| MessageView::BackupCreated));
        assert(earlier + created_rows(t, client, payloads, times, 0, 0) =~= earlier);
        earlier
    } else {
        let n = k - 1;
        let before = lemma_after_creations(t, client, payloads, times, n);
        let prior = served_all(t, client, queue.take(n));
        let m = if n < RETENTION { n } else { RETENTION as int };
        let latest = created_rows(t, client, payloads, times, n - m, n);
        let x = created_row(t, client, payloads, times, n);
        let grown = prior.0.inserted(client, times[n], payloads[n]);
        lemma_one_more_creation(t, client, payloads, times, k);
        let run = served_all(t, client, queue.take(k));
        assert(run.1 =~= Seq::new(k as nat, |i: int| MessageView::BackupCreated));
        assert(prior.0.next_row(client, times[n], payloads[n]) == x);

        let mine = |r: RecordView| r.client_id == client;
        prior.0.rows.lemma_filter_push(x, mine);
        let rising = latest.push(x);
        assert(grown.of_client(client) =~= before + rising);
        assert(rises(rising)) by {
            assert forall|a: int, b: int| 0 <= a < b < rising.len() implies (#[trigger] rising[a]).created_at.before((#[trigger] rising[b]).created_at) by {
                assert(rising[a].created_at == times[n - m + a]);
                assert(rising[b].created_at == times[n - m + b]);
            }
        }
        assert(all_older(before, rising)) by {
            assert forall|j: int, i: int| 0 <= j < before.len() && 0 <= i < rising.len() implies (
            #[trigger] before[j]).created_at.before((#[trigger] rising[i]).created_at) by {
                assert(before[j].created_at.before(times[0]));
                assert(rising[i].created_at == times[n - m + i]);
                assert(n - m + i == 0 || times[0].before(times[n - m + i]));
            }
        }
        lemma_ranks(grown, client, before, rising);
        lemma_pruned_own_rows(grown, client);
        let low = |r: RecordView| grown.rank(client, r) < RETENTION;
        lemma_prune_rising(before, rising, low);
        let earlier = before.filter(low);
        assert forall|j: int| 0 <= j < earlier.len() && times.len() > 0 implies (#[trigger] earlier[j]).created_at.before(times[0]) by {
            lemma_filter_member(before, low, j);
            let i = choose|i: int| 0 <= i < before.len() && before[i] == earlier[j];
            assert(before[i].created_at.before(times[0]));
        }
        if k <= RETENTION {
            assert(rising =~= created_rows(t, client, payloads, times, 0, k));
        } else {
            assert(rising.skip(1) =~= created_rows(t, client, payloads, times, k - RETENTION, k));
        }
        earlier
    }
}

/// Retention: after a client created more than ten backups one after
/// another, each with success and each later than all it had before, a list
/// instruction yields exactly ten lines, and they are the ten backups created
/// last, oldest first. The table holds their payloads and no other row of the
/// client.
pub proof fn law_retention(
    t: TableView,
    client: Seq<char>,
    payloads: Seq<Seq<u8>>,
    times: Seq<Timestamp>,
    listed_at: Timestamp,
)
    requires
        payloads.len() == times.len(),
        times.len() > RETENTION,
        t.last_id + times.len() <= i64::MAX,
        clock_runs_forward(t, client, times),
    ensures
        ({
            let n = times.len() as int;
            let queue = creations(payloads, times).push(
                TimedView { instruction: InstructionView::ListBackups, at: listed_at },
            );
            let run = served_all(t, client, queue);
            let last_ten = created_rows(t, client, payloads, times, n - RETENTION, n);
            let lines = last_ten.map_values(|r: RecordView| r.summary());
            &&& run.0.of_client(client) == last_ten
            &&& run.1 == Seq::new(n as nat, |i: int| MessageView::BackupCreated).push(
                MessageView::BackupList(lines),
            )
            &&& lines.len() == RETENTION
        }),
{
    let n = times.len() as int;
    let all = creations(payloads, times);
    let list = TimedView { instruction: InstructionView::ListBackups, at: listed_at };
    let queue = all.push(list);
    let earlier = lemma_after_creations(t, client, payloads, times, n);
    assert(all.take(n) =~= all);
    assert(queue.drop_last() =~= all);
    let prior = served_all(t, client, all);
    let last_ten = created_rows(t, client, payloads, times, n - RETENTION, n);
    assert(prior.0.of_client(client) =~= last_ten);
    let lines = last_ten.map_values(|r: RecordView| r.summary());
    let leq = |a: BackupSummary, b: BackupSummary| listed_before(a, b);
    assert(sorted_by(lines, leq)) by {
        assert forall|i: int, j: int| 0 <= i < j < lines.len() implies #[trigger] leq(lines[i], lines[j]) by {
            assert(lines[i].created_at == times[n - RETENTION + i]);
            assert(lines[j].created_at == times[n - RETENTION + j]);
        }
    }
    lemma_listed_before_total();
    lines.lemma_sort_by_ensures(leq);
    lemma_sorted_unique(lines, lines.sort_by(leq), leq);
    assert(prior.0.listed(client) == lines);
    let run = served_all(t, client, queue);
    let last = served(prior.0, client, list.instruction, list.at);
    assert(last.1 =~= seq![MessageView::BackupList(lines)]);
    assert(run.1 =~= Seq::new(n as nat, |i: int| MessageView::BackupCreated).push(
        MessageView::BackupList(lines),
    ));
}

/// The ids grow along the run, so that no two rows are the same.
spec fn ids_rise(s: Seq<RecordView>) -> bool {
    forall|a: int, b: int| 0 <= a < b < s.len() ==> (#[trigger] s[a]).id < (#[trigger] s[b]).id
}

/// How many rows of the run are newer than `r`.
spec fn outranked_by(s: Seq<RecordView>, r: RecordView) -> nat {
    s.filter(|x: RecordView| x.newer_than(r)).len()
}

/// A run of rows with rising ids has a newest row.
proof fn lemma_newest_exists(s: Seq<RecordView>) -> (m: int)
    requires
        s.len() > 0,
        ids_rise(s),
    ensures
        0 <= m < s.len(),
        forall|j: int| 0 <= j < s.len() && j != m ==> s[m].newer_than(#[trigger] s[j]),
    decreases s.len(),
{
    if s.len() == 1 {
        0
    } else {
        let head = s.drop_last();
        let last = s.last();
        assert(ids_rise(head)) by {
            assert forall|a: int, b: int| 0 <= a < b < head.len() implies (#[trigger] head[a]).id < (
            #[trigger] head[b]).id by {
                assert(head[a] == s[a] && head[b] == s[b]);
            }
        }
        let h = lemma_newest_exists(head);
        assert(head[h] == s[h]);
        assert(s[h].id < s[s.len() - 1].id);
        if last.newer_than(s[h]) {
            let m = s.len() - 1;
            assert forall|j: int| 0 <= j < s.len() && j != m implies s[m].newer_than(
                #[trigger] s[j],
            ) by {
                if j != h {
                    assert(head[j] == s[j]);
                    assert(head[h].newer_than(head[j]));
                }
            }
            m
        } else {
            assert forall|j: int| 0 <= j < s.len() && j != h implies s[h].newer_than(
                #[trigger] s[j],
            ) by {
                if j < s.len() - 1 {
                    assert(head[j] == s[j]);
                    assert(head[h].newer_than(head[j]));
                }
            }
            h
        }
    }
}

/// Without its newest row, a run outranks each of its other rows by one
/// row less.
proof fn lemma_rank_without_newest(s: Seq<RecordView>, m: int, j: int)
    requires
        0 <= m < s.len(),
        0 <= j < s.len(),
        j != m,
        s[m].newer_than(s[j]),
    ensures
        outranked_by(s, s[j]) == outranked_by(s.remove(m), s[j]) + 1,
{
    let newer = |x: RecordView| x.newer_than(s[j]);
    let front = s.take(m);
    let one = seq![s[m]];
    let back = s.skip(m + 1);
    assert(s =~= front + one + back);
    assert(s.remove(m) =~= front + back);
    Seq::filter_distributes_over_add(front + one, back, newer);
    Seq::filter_distributes_over_add(front, one, newer);
    Seq::filter_distributes_over_add(front, back, newer);
    assert forall|i: int| 0 <= i < one.len() implies newer(#[trigger] one[i]) by {
        assert(one[i] == s[m]);
    }
    lemma_filter_all(one, newer);
}

/// Nothing outranks the newest row of a run.
proof fn lemma_newest_ranks_first(s: Seq<RecordView>, m: int)
    requires
        0 <= m < s.len(),
        forall|j: int| 0 <= j < s.len() && j != m ==> s[m].newer_than(#[trigger] s[j]),
    ensures
        outranked_by(s, s[m]) == 0,
{
    let newer = |x: RecordView| x.newer_than(s[m]);
    assert forall|j: int| 0 <= j < s.len() implies !newer(#[trigger] s[j]) by {
        if j != m {
            assert(s[m].newer_than(s[j]));
        }
    }
    lemma_filter_none(s, newer);
}

/// Of a run of rows with rising ids, exactly `n` are outranked by fewer
/// than `n` of the run, or all of them where the run has fewer than `n`.
proof fn lemma_low_ranks_counted(s: Seq<RecordView>, n: nat)
    requires
        ids_rise(s),
    ensures
        s.filter(|r: RecordView| outranked_by(s, r) < n).len() == (if n < s.len() {
            n
        } else {
            s.len()
        }),
    decreases n,
{
    let low = |r: RecordView| outranked_by(s, r) < n;
    if n == 0 {
        assert forall|i: int| 0 <= i < s.len() implies !low(#[trigger] s[i]) by {}
        lemma_filter_none(s, low);
    } else if s.len() == 0 {
        s.lemma_filter_len(low);
    } else {
        let m = lemma_newest_exists(s);
        let rest = s.remove(m);
        let front = s.take(m);
        let one = seq![s[m]];
        let back = s.skip(m + 1);
        assert(s =~= front + one + back);
        assert(rest =~= front + back);
        assert(ids_rise(rest)) by {
            assert forall|a: int, b: int| 0 <= a < b < rest.len() implies (#[trigger] rest[a]).id < (
            #[trigger] rest[b]).id by {
                let a0 = if a < m { a } else { a + 1 };
                let b0 = if b < m { b } else { b + 1 };
                assert(rest[a] == s[a0] && rest[b] == s[b0]);
            }
        }
        let lower = |r: RecordView| outranked_by(rest, r) < (n - 1) as nat;
        lemma_low_ranks_counted(rest, (n - 1) as nat);
        assert forall|i: int| 0 <= i < front.len() implies low(#[trigger] front[i]) == lower(
            front[i],
        ) by {
            assert(front[i] == s[i]);
            lemma_rank_without_newest(s, m, i);
        }
        lemma_filter_agree(front, low, lower);
        assert forall|i: int| 0 <= i < back.len() implies low(#[trigger] back[i]) == lower(
            back[i],
        ) by {
            assert(back[i] == s[m + 1 + i]);
            lemma_rank_without_newest(s, m, m + 1 + i);
        }
        lemma_filter_agree(back, low, lower);
        Seq::filter_distributes_over_add(front + one, back, low);
        Seq::filter_distributes_over_add(front, one, low);
        Seq::filter_distributes_over_add(front, back, lower);
        lemma_newest_ranks_first(s, m);
        assert forall|i: int| 0 <= i < one.len() implies low(#[trigger] one[i]) by {
            assert(one[i] == s[m]);
        }
        lemma_filter_all(one, low);
    }
}

/// The rows of a client in a well-formed table have rising ids.
proof fn lemma_own_ids_rise(t: TableView, client: Seq<char>)
    requires
        t.wf(),
    ensures
        ids_rise(t.of_client(client)),
{
    let mine = |r: RecordView| r.client_id == client;
    let own = t.of_client(client);
    lemma_filter_keeps_wf(t, mine);
    let shorter = TableView { rows: t.rows.filter(mine), last_id: t.last_id };
    assert(shorter.wf());
    assert forall|a: int, b: int| 0 <= a < b < own.len() implies (#[trigger] own[a]).id < (
    #[trigger] own[b]).id by {
        assert(own[a] == shorter.rows[a] && own[b] == shorter.rows[b]);
    }
}

/// What a pruning keeps: of a client's rows in a well-formed table exactly
/// ten, or all of them where the client has fewer. No premise on the times of
/// creation is needed.
pub proof fn law_pruned_keeps_ten_or_all(t: TableView, client: Seq<char>)
    requires
        t.wf(),
    ensures
        t.pruned(client).of_client(client).len() == (if t.of_client(client).len() > RETENTION {
            RETENTION as nat
        } else {
            t.of_client(client).len()
        }),
        t.pruned(client).wf(),
{
    let own = t.of_client(client);
    lemma_own_ids_rise(t, client);
    lemma_pruned_own_rows(t, client);
    lemma_low_ranks_counted(own, RETENTION as nat);
    let low = |r: RecordView| t.rank(client, r) < RETENTION;
    let few = |r: RecordView| outranked_by(own, r) < RETENTION as nat;
    assert forall|i: int| 0 <= i < own.len() implies low(#[trigger] own[i]) == few(own[i]) by {}
    lemma_filter_agree(own, low, few);
    lemma_filter_keeps_wf(t, |r: RecordView| t.keeps(client, r));
}

/// The retention invariant: after a pruning for a client, the client has
/// ten rows at most, whatever the table held before.
pub proof fn law_pruned_holds_ten_at_most(t: TableView, client: Seq<char>)
    requires
        t.wf(),
    ensures
        t.pruned(client).of_client(client).len() <= RETENTION,
{
    law_pruned_keeps_ten_or_all(t, client);
}

/// An insertion keeps a table well formed and adds one row to the client's
/// rows, at their end.
proof fn lemma_inserted(t: TableView, client: Seq<char>, at: Timestamp, payload: Seq<u8>)
    requires
        t.wf(),
    ensures
        t.inserted(client, at, payload).wf(),
        t.can_insert() ==> t.inserted(client, at, payload).of_client(client) == t.of_client(
            client,
        ).push(t.next_row(client, at, payload)),
{
    let grown = t.inserted(client, at, payload);
    if t.can_insert() {
        assert forall|i: int| 0 <= i < grown.rows.len() implies 1 <= (#[trigger] grown.rows[i]).id
            <= grown.last_id by {
            if i < t.rows.len() {
                assert(grown.rows[i] == t.rows[i]);
            }
        }
        assert forall|i: int, j: int| 0 <= i < j < grown.rows.len() implies (
        #[trigger] grown.rows[i]).id < (#[trigger] grown.rows[j]).id by {
            assert(grown.rows[i] == t.rows[i]);
            if j < t.rows.len() {
                assert(grown.rows[j] == t.rows[j]);
            }
        }
        let mine = |r: RecordView| r.client_id == client;
        t.rows.lemma_filter_push(t.next_row(client, at, payload), mine);
    }
}

/// A backup list has one line for each row of the client.
pub proof fn lemma_listed_len(t: TableView, client: Seq<char>)
    ensures
        t.listed(client).len() == t.of_client(client).len(),
{
    let lines = t.of_client(client).map_values(|r: RecordView| r.summary());
    let leq = |a: BackupSummary, b: BackupSummary| listed_before(a, b);
    lemma_listed_before_total();
    lines.lemma_sort_by_ensures(leq);
    vstd::seq_lib::to_multiset_len(lines);
    vstd::seq_lib::to_multiset_len(lines.sort_by(leq));
}

/// The retention invariant, as the worker keeps it: whenever a client's
/// backup instruction has been served, the client has ten backups at most.
pub proof fn law_ten_at_most_after_create(
    t: TableView,
    client: Seq<char>,
    payload: Seq<u8>,
    now: Timestamp,
)
    requires
        t.wf(),
    ensures
        served(t, client, InstructionView::CreateBackup(payload), now).0.of_client(client).len()
            <= RETENTION,
{
    let grown = t.inserted(client, now, payload);
    lemma_inserted(t, client, now, payload);
    law_pruned_holds_ten_at_most(grown, client);
}

/// `n` where it is ten at most, else ten.
pub open spec fn ten_at_most(n: int) -> int {
    if n > RETENTION {
        RETENTION as int
    } else {
        n
    }
}

/// How many backups a client has after the first `k` of its creations, all
/// with success: one more per creation, up to ten. The table stays well
/// formed, and one `BackupCreated` was sent per creation. No premise on the
/// times of creation is needed.
proof fn lemma_count_after_creations(
    t: TableView,
    client: Seq<char>,
    payloads: Seq<Seq<u8>>,
    times: Seq<Timestamp>,
    k: int,
)
    requires
        t.wf(),
        payloads.len() == times.len(),
        0 <= k <= times.len(),
        t.last_id + times.len() <= i64::MAX,
    ensures
        ({
            let run = served_all(t, client, creations(payloads, times).take(k));
            &&& run.0.wf()
            &&& run.0.last_id == t.last_id + k
            &&& k >= 1 ==> run.0.of_client(client).len() == ten_at_most(
                t.of_client(client).len() + k,
            )
            &&& k == 0 ==> run.0 == t
            &&& run.1 == Seq::new(k as nat, |i: int| MessageView::BackupCreated)
        }),
    decreases k,
{
    let queue = creations(payloads, times);
    if k == 0 {
        assert(queue.take(0) =~= Seq::<TimedView>::empty());
        let run = served_all(t, client, queue.take(0));
        assert(run.1 =~= Seq::new(0nat, |i: int| MessageView::BackupCreated));
    } else {
        let n = k - 1;
        lemma_count_after_creations(t, client, payloads, times, n);
        let prior = served_all(t, client, queue.take(n));
        lemma_one_more_creation(t, client, payloads, times, k);
        let grown = prior.0.inserted(client, times[n], payloads[n]);
        lemma_inserted(prior.0, client, times[n], payloads[n]);
        law_pruned_keeps_ten_or_all(grown, client);
        let run = served_all(t, client, queue.take(k));
        assert(run.1 =~= Seq::new(k as nat, |i: int| MessageView::BackupCreated));
    }
}

/// Retention, whatever the clock: after a client created ten backups or
/// more one after another, each with success, the table holds exactly ten
/// rows of the client, and a list instruction yields exactly ten lines, one
/// for each of them.
pub proof fn law_exactly_ten_after_creations(
    t: TableView,
    client: Seq<char>,
    payloads: Seq<Seq<u8>>,
    times: Seq<Timestamp>,
    listed_at: Timestamp,
)
    requires
        t.wf(),
        payloads.len() == times.len(),
        times.len() >= RETENTION,
        t.last_id + times.len() <= i64::MAX,
    ensures
        ({
            let n = times.len() as int;
            let before = served_all(t, client, creations(payloads, times));
            let run = served_all(
                t,
                client,
                creations(payloads, times).push(
                    TimedView { instruction: InstructionView::ListBackups, at: listed_at },
                ),
            );
            &&& run.0 == before.0
            &&& run.0.of_client(client).len() == RETENTION
            &&& run.1 == Seq::new(n as nat, |i: int| MessageView::BackupCreated).push(
                MessageView::BackupList(run.0.listed(client)),
            )
            &&& run.0.listed(client).len() == RETENTION
        }),
{
    let n = times.len() as int;
    let all = creations(payloads, times);
    let list = TimedView { instruction: InstructionView::ListBackups, at: listed_at };
    let queue = all.push(list);
    lemma_count_after_creations(t, client, payloads, times, n);
    assert(all.take(n) =~= all);
    assert(queue.drop_last() =~= all);
    let prior = served_all(t, client, all);
    lemma_listed_len(prior.0, client);
    let last = served(prior.0, client, list.instruction, list.at);
    assert(last.1 =~= seq![MessageView::BackupList(prior.0.listed(client))]);
    let run = served_all(t, client, queue);
    assert(run.1 =~= Seq::new(n as nat, |i: int| MessageView::BackupCreated).push(
        MessageView::BackupList(prior.0.listed(client)),
    ));
}

/// No row of the client is later than `at`.
pub open spec fn none_later(t: TableView, client: Seq<char>, at: Timestamp) -> bool {
    forall|k: int|
        0 <= k < t.of_client(client).len() ==> !at.before(
            (#[trigger] t.of_client(client)[k]).created_at,
        )
}

/// A list right after a backup: where a client with `m` backups creates one
/// more and lists at once, the list has `m + 1` lines, or ten where that
/// would be more. Where no backup of the client is later than the new one,
/// the new one is in the table with its payload, and its line is the last of
/// the list.
pub proof fn law_list_after_create_counts(
    t: TableView,
    client: Seq<char>,
    payload: Seq<u8>,
    created: Timestamp,
)
    requires
        t.wf(),
        t.can_insert(),
    ensures
        ({
            let after = t.inserted(client, created, payload).pruned(client);
            let new_row = t.next_row(client, created, payload);
            &&& after.listed(client).len() == ten_at_most(t.of_client(client).len() as int + 1)
            &&& none_later(t, client, created) ==> after.of_client(client).contains(new_row)
                && after.listed(client).last() == new_row.summary()
        }),
{
    let grown = t.inserted(client, created, payload);
    let after = grown.pruned(client);
    let x = t.next_row(client, created, payload);
    lemma_inserted(t, client, created, payload);
    law_pruned_keeps_ten_or_all(grown, client);
    lemma_listed_len(after, client);
    if none_later(t, client, created) {
        let own = grown.of_client(client);
        let old_own = t.of_client(client);
        assert(own == old_own.push(x));
        // Every row of the client has an id below the new one's.
        assert forall|k: int| 0 <= k < old_own.len() implies (#[trigger] old_own[k]).id < x.id by {
            let mine = |r: RecordView| r.client_id == client;
            lemma_filter_member(t.rows, mine, k);
            let i = choose|i: int| 0 <= i < t.rows.len() && t.rows[i] == old_own[k];
            assert(t.rows[i].id <= t.last_id);
        }
        // Nothing outranks the new row, so the pruning keeps it.
        let newer = |y: RecordView| y.newer_than(x);
        assert forall|k: int| 0 <= k < own.len() implies !newer(#[trigger] own[k]) by {
            if k < old_own.len() {
                assert(own[k] == old_own[k]);
                assert(!created.before(old_own[k].created_at));
                assert(old_own[k].id < x.id);
            }
        }
        lemma_filter_none(own, newer);
        lemma_pruned_own_rows(grown, client);
        let low = |r: RecordView| grown.rank(client, r) < RETENTION;
        let kept = after.of_client(client);
        assert(kept == own.filter(low));
        assert(low(own[own.len() - 1]));
        own.lemma_filter_contains(low, own.len() - 1);
        assert(kept.contains(x));
        // Its line is in the list, and no line of the list comes after it.
        let line = |r: RecordView| r.summary();
        let lines = kept.map_values(line);
        let leq = |a: BackupSummary, b: BackupSummary| listed_before(a, b);
        let listed = after.listed(client);
        lemma_listed_before_total();
        lines.lemma_sort_by_ensures(leq);
        let at = choose|i: int| 0 <= i < kept.len() && kept[i] == x;
        assert(lines[at] == x.summary());
        assert(lines.contains(x.summary()));
        vstd::seq_lib::to_multiset_contains(lines, x.summary());
        vstd::seq_lib::to_multiset_contains(listed, x.summary());
        assert(listed.contains(x.summary()));
        let last = listed.last();
        assert(listed.contains(last)) by {
            assert(listed[listed.len() - 1] == last);
        }
        vstd::seq_lib::to_multiset_contains(listed, last);
        vstd::seq_lib::to_multiset_contains(lines, last);
        assert(lines.contains(last));
        let j = choose|j: int| 0 <= j < lines.len() && lines[j] == last;
        assert(kept.contains(kept[j]));
        lemma_filter_member(own, low, j);
        let k = choose|k: int| 0 <= k < own.len() && own[k] == kept[j];
        assert(listed_before(last, x.summary())) by {
            if k < old_own.len() {
                assert(own[k] == old_own[k]);
                assert(!created.before(old_own[k].created_at));
                assert(old_own[k].id < x.id);
            }
        }
        let i = choose|i: int| 0 <= i < listed.len() && listed[i] == x.summary();
        if i < listed.len() - 1 {
            assert(leq(listed[i], listed[listed.len() - 1]));
        }
    }
}

} // verus!
