//! The backup table held in memory.

use vstd::prelude::*;
use vstd::relations::sorted_by;
use vstd::seq_lib::lemma_sorted_unique;
use crate::protocol::BackupSummary;
use crate::remote::{Query, Reply};
use crate::store::{
    lemma_listed_before_total, listed_before, record_views, BackupRecord, RecordView, TableView,
    RETENTION,
};
use crate::timestamp::Timestamp;

verus! {

/// A backup table in memory. Its value is a [`TableView`], and every
/// operation does to it what the operation of the same name does to the view.
#[derive(Debug)]
pub struct BackupTable {
    rows: Vec<BackupRecord>,
    last_id: i64,
}

impl View for BackupTable {
    type V = TableView;

    closed spec fn view(&self) -> TableView {
        TableView { rows: record_views(self.rows@), last_id: self.last_id }
    }
}

/// Whether `a` comes before `b` in a backup list, or is `b`.
fn is_listed_before(a: &BackupSummary, b: &BackupSummary) -> (r: bool)
    ensures
        r == listed_before(*a, *b),
{
    a.created_at.is_before(&b.created_at) || (a.created_at == b.created_at && a.id <= b.id)
}

/// Puts `line` into a sorted list, behind every line that is listed before it.
fn insert_sorted(list: &mut Vec<BackupSummary>, line: BackupSummary)
    requires
        sorted_by(old(list)@, |a: BackupSummary, b: BackupSummary| listed_before(a, b)),
    ensures
        sorted_by(final(list)@, |a: BackupSummary, b: BackupSummary| listed_before(a, b)),
        final(list)@.to_multiset() == old(list)@.to_multiset().insert(line),
{
    let ghost leq = |a: BackupSummary, b: BackupSummary| listed_before(a, b);
    let mut at: usize = 0;
    while at < list.len() && is_listed_before(&list[at], &line)
        invariant
            at <= list.len(),
            list@ == old(list)@,
            forall|k: int| 0 <= k < at ==> listed_before(#[trigger] list@[k], line),
        decreases list.len() - at,
    {
        at += 1;
    }
    proof {
        let before = list@;
        let after = before.insert(at as int, line);
        vstd::seq_lib::to_multiset_insert(before, at as int, line);
        assert forall|i: int, j: int| 0 <= i < j < after.len() implies #[trigger] leq(after[i], after[j]) by {
            if j < at {
                assert(leq(before[i], before[j]));
            } else if j == at {
                assert(listed_before(before[i], line));
            } else if i < at {
                assert(leq(before[i], before[j - 1]));
            } else if i == at {
                assert(!listed_before(before[at as int], line));
                assert(at as int == j - 1 || leq(before[at as int], before[j - 1]));
                assert(listed_before(line, before[j - 1]));
            } else {
                assert(leq(before[i - 1], before[j - 1]));
            }
        }
    }
    list.insert(at, line);
}

impl BackupRecord {
    /// A copy with the same value.
    pub fn duplicate(&self) -> (r: BackupRecord)
        ensures
            r@ == self@,
    {
        BackupRecord {
            id: self.id,
            client_id: self.client_id.clone(),
            created_at: self.created_at,
            payload: self.payload.clone(),
        }
    }

    /// Whether this record was created after `other`.
    pub fn is_newer_than(&self, other: &BackupRecord) -> (r: bool)
        ensures
            r == self@.newer_than(other@),
    {
        other.created_at.is_before(&self.created_at) || (self.created_at == other.created_at
            && self.id > other.id)
    }
}

impl BackupTable {
    /// A table that holds nothing yet.
    pub fn new() -> (t: BackupTable)
        ensures
            t@ == TableView::empty(),
            t@.wf(),
    {
        let t = BackupTable { rows: Vec::new(), last_id: 0 };
        assert(t@.rows =~= Seq::<RecordView>::empty());
        t
    }

    /// How many rows the table holds, of all clients together.
    pub fn len(&self) -> (n: usize)
        ensures
            n == self@.rows.len(),
    {
        self.rows.len()
    }

    /// Adds a row for `client` and returns its id, one above every id handed
    /// out before. Returns `None`, and changes nothing, when no id is left.
    pub fn insert(&mut self, client: &str, at: Timestamp, payload: Vec<u8>) -> (id: Option<i64>)
        ensures
            final(self)@ == old(self)@.inserted(client@, at, payload@),
            id == (if old(self)@.can_insert() {
                Some(old(self)@.next_row(client@, at, payload@).id)
            } else {
                None
            }),
            old(self)@.wf() ==> final(self)@.wf(),
    {
        if self.last_id == i64::MAX {
            return None;
        }
        let id = self.last_id + 1;
        let ghost before = self.rows@;
        let record = BackupRecord { id, client_id: client.to_string(), created_at: at, payload };
        self.rows.push(record);
        self.last_id = id;
        proof {
            assert(record_views(self.rows@) =~= record_views(before).push(
                old(self)@.next_row(client@, at, payload@),
            ));
            if old(self)@.wf() {
                let rows = final(self)@.rows;
                assert forall|i: int| 0 <= i < rows.len() implies 1 <= (#[trigger] rows[i]).id <= id by {
                    if i < before.len() {
                        assert(rows[i] == old(self)@.rows[i]);
                    }
                }
                assert forall|i: int, j: int| 0 <= i < j < rows.len() implies (#[trigger] rows[i]).id < (#[trigger] rows[j]).id by {
                    assert(rows[i] == old(self)@.rows[i]);
                    if j < before.len() {
                        assert(rows[j] == old(self)@.rows[j]);
                    }
                }
            }
        }
        Some(id)
    }

    /// The payload of the row that `client` means by `id`, if it has one.
    pub fn fetch(&self, client: &str, id: i64) -> (payload: Option<Vec<u8>>)
        ensures
            payload.is_some() == self@.contents(client@, id).is_some(),
            payload.is_some() ==> payload.unwrap()@ == self@.contents(client@, id).unwrap(),
    {
        let owner = client.to_string();
        let ghost hit = |r: RecordView| TableView::is_target(client@, id, r);
        let ghost rows = record_views(self.rows@);
        let mut k: usize = 0;
        while k < self.rows.len()
            invariant
                k <= self.rows.len(),
                owner@ == client@,
                rows == record_views(self.rows@),
                hit == (|r: RecordView| TableView::is_target(client@, id, r)),
                rows.take(k as int).filter(hit).len() == 0,
            decreases self.rows.len() - k,
        {
            proof {
                assert(rows.take(k + 1) =~= rows.take(k as int).push(rows[k as int]));
                rows.take(k as int).lemma_filter_push(rows[k as int], hit);
            }
            if self.rows[k].id == id && self.rows[k].client_id == owner {
                proof {
                    let rest = rows.skip(k + 1);
                    assert(rows =~= rows.take(k + 1) + rest);
                    Seq::filter_distributes_over_add(rows.take(k + 1), rest, hit);
                    assert(rows.take(k + 1).filter(hit) =~= seq![rows[k as int]]);
                }
                return Some(self.rows[k].payload.clone());
            }
            k += 1;
        }
        proof {
            assert(rows.take(k as int) =~= rows);
        }
        None
    }

    /// How many rows of `client` are newer than row `k`.
    fn rank_of(&self, k: usize, client: &String) -> (n: usize)
        requires
            k < self.rows.len(),
        ensures
            n == self@.rank(client@, self.rows[k as int]@),
    {
        let ghost rows = record_views(self.rows@);
        let ghost mine = |r: RecordView| r.client_id == client@;
        let ghost newer = |x: RecordView| x.newer_than(self.rows[k as int]@);
        let mut n: usize = 0;
        let mut j: usize = 0;
        while j < self.rows.len()
            invariant
                j <= self.rows.len(),
                k < self.rows.len(),
                rows == record_views(self.rows@),
                mine == (|r: RecordView| r.client_id == client@),
                newer == (|x: RecordView| x.newer_than(self.rows[k as int]@)),
                n == rows.take(j as int).filter(mine).filter(newer).len(),
                n <= j,
            decreases self.rows.len() - j,
        {
            proof {
                let head = rows.take(j as int);
                assert(rows.take(j + 1) =~= head.push(rows[j as int]));
                head.lemma_filter_push(rows[j as int], mine);
                head.filter(mine).lemma_filter_push(rows[j as int], newer);
            }
            if self.rows[j].client_id == *client && self.rows[j].is_newer_than(&self.rows[k]) {
                n += 1;
            }
            j += 1;
        }
        proof {
            assert(rows.take(j as int) =~= rows);
        }
        n
    }

    /// Drops the rows that are not marked.
    fn retain_marked(&mut self, marks: &Vec<bool>, Ghost(keep): Ghost<spec_fn(RecordView) -> bool>)
        requires
            marks.len() == old(self).rows.len(),
            forall|k: int| 0 <= k < marks.len() ==> marks[k] == keep(#[trigger] old(self).rows[k]@),
        ensures
            final(self)@.rows == old(self)@.rows.filter(keep),
            final(self)@.last_id == old(self)@.last_id,
    {
        let ghost rows = record_views(self.rows@);
        let mut kept: Vec<BackupRecord> = Vec::new();
        let mut k: usize = 0;
        while k < self.rows.len()
            invariant
                k <= self.rows.len(),
                *self == *old(self),
                marks.len() == self.rows.len(),
                rows == record_views(self.rows@),
                forall|i: int| 0 <= i < marks.len() ==> marks[i] == keep(#[trigger] rows[i]),
                record_views(kept@) == rows.take(k as int).filter(keep),
            decreases self.rows.len() - k,
        {
            proof {
                assert(rows.take(k + 1) =~= rows.take(k as int).push(rows[k as int]));
                rows.take(k as int).lemma_filter_push(rows[k as int], keep);
            }
            if marks[k] {
                let ghost so_far = kept@;
                let copy = self.rows[k].duplicate();
                kept.push(copy);
                assert(record_views(kept@) =~= record_views(so_far).push(rows[k as int]));
            }
            k += 1;
        }
        proof {
            assert(rows.take(k as int) =~= rows);
        }
        self.rows = kept;
    }

    /// Deletes the row that `client` means by `id`; rows of other clients
    /// stay, whatever their ids.
    pub fn delete(&mut self, client: &str, id: i64)
        ensures
            final(self)@ == old(self)@.deleted(client@, id),
            old(self)@.wf() ==> final(self)@.wf(),
    {
        let owner = client.to_string();
        let ghost keep = |r: RecordView| !TableView::is_target(client@, id, r);
        let mut marks: Vec<bool> = Vec::new();
        let mut k: usize = 0;
        while k < self.rows.len()
            invariant
                k <= self.rows.len(),
                *self == *old(self),
                owner@ == client@,
                marks.len() == k,
                keep == (|r: RecordView| !TableView::is_target(client@, id, r)),
                forall|i: int| 0 <= i < k ==> marks[i] == keep(#[trigger] self.rows[i]@),
            decreases self.rows.len() - k,
        {
            marks.push(!(self.rows[k].id == id && self.rows[k].client_id == owner));
            k += 1;
        }
        self.retain_marked(&marks, Ghost(keep));
        proof {
            if old(self)@.wf() {
                lemma_filter_keeps_wf(old(self)@, keep);
            }
        }
    }

    /// Deletes all rows of `client` but its [`RETENTION`] newest; rows of
    /// other clients stay.
    pub fn prune(&mut self, client: &str)
        ensures
            final(self)@ == old(self)@.pruned(client@),
            old(self)@.wf() ==> final(self)@.wf(),
    {
        let owner = client.to_string();
        let ghost keep = |r: RecordView| old(self)@.keeps(client@, r);
        let mut marks: Vec<bool> = Vec::new();
        let mut k: usize = 0;
        while k < self.rows.len()
            invariant
                k <= self.rows.len(),
                *self == *old(self),
                owner@ == client@,
                marks.len() == k,
                keep == (|r: RecordView| old(self)@.keeps(client@, r)),
                forall|i: int| 0 <= i < k ==> marks[i] == keep(#[trigger] self.rows[i]@),
            decreases self.rows.len() - k,
        {
            let stays = self.rows[k].client_id != owner || self.rank_of(k, &owner) < RETENTION;
            marks.push(stays);
            k += 1;
        }
        self.retain_marked(&marks, Ghost(keep));
        proof {
            if old(self)@.wf() {
                lemma_filter_keeps_wf(old(self)@, keep);
            }
        }
    }

    /// Runs one statement against the table and reports as the remote store
    /// would.
    pub fn run(&mut self, query: Query) -> (reply: Reply)
        ensures
            reply@ == query@.answer(old(self)@),
            final(self)@ == query@.effect(old(self)@),
            old(self)@.wf() ==> final(self)@.wf(),
    {
        match query {
            Query::List { client_id } => Reply::Listed(self.list(client_id.as_str())),
            Query::Insert { client_id, created_at, payload } => {
                match self.insert(client_id.as_str(), created_at, payload) {
                    Some(_) => Reply::Inserted,
                    None => Reply::Failed,
                }
            },
            Query::Prune { client_id } => {
                self.prune(client_id.as_str());
                Reply::Pruned
            },
            Query::Fetch { client_id, id } => Reply::Fetched(self.fetch(client_id.as_str(), id)),
            Query::Delete { client_id, id } => {
                self.delete(client_id.as_str(), id);
                Reply::Deleted
            },
        }
    }

    /// The backup list of `client`, oldest first.
    pub fn list(&self, client: &str) -> (list: Vec<BackupSummary>)
        ensures
            list@ == self@.listed(client@),
    {
        let owner = client.to_string();
        let ghost rows = record_views(self.rows@);
        let ghost mine = |r: RecordView| r.client_id == client@;
        let ghost line = |r: RecordView| r.summary();
        let ghost leq = |a: BackupSummary, b: BackupSummary| listed_before(a, b);
        let mut list: Vec<BackupSummary> = Vec::new();
        let mut k: usize = 0;
        proof {
            rows.take(0).lemma_filter_len(mine);
            assert(rows.take(0).filter(mine).map_values(line) =~= list@);
        }
        while k < self.rows.len()
            invariant
                k <= self.rows.len(),
                owner@ == client@,
                rows == record_views(self.rows@),
                mine == (|r: RecordView| r.client_id == client@),
                line == (|r: RecordView| r.summary()),
                leq == (|a: BackupSummary, b: BackupSummary| listed_before(a, b)),
                sorted_by(list@, leq),
                list@.to_multiset() == rows.take(k as int).filter(mine).map_values(line).to_multiset(),
            decreases self.rows.len() - k,
        {
            proof {
                let head = rows.take(k as int);
                assert(rows.take(k + 1) =~= head.push(rows[k as int]));
                head.lemma_filter_push(rows[k as int], mine);
            }
            if self.rows[k].client_id == owner {
                let entry = BackupSummary { id: self.rows[k].id, created_at: self.rows[k].created_at };
                proof {
                    let sofar = rows.take(k as int).filter(mine);
                    assert(sofar.push(rows[k as int]).map_values(line) =~= sofar.map_values(line).push(
                        entry,
                    ));
                    vstd::seq_lib::to_multiset_build(sofar.map_values(line), entry);
                }
                insert_sorted(&mut list, entry);
            }
            k += 1;
        }
        proof {
            assert(rows.take(k as int) =~= rows);
            let lines = rows.filter(mine).map_values(line);
            lemma_listed_before_total();
            lines.lemma_sort_by_ensures(leq);
            lemma_sorted_unique(list@, lines.sort_by(leq), leq);
        }
        list
    }
}

/// Dropping rows keeps a table well formed.
pub proof fn lemma_filter_keeps_wf(t: TableView, keep: spec_fn(RecordView) -> bool)
    requires
        t.wf(),
    ensures
        (TableView { rows: t.rows.filter(keep), last_id: t.last_id }).wf(),
    decreases t.rows.len(),
{
    reveal(Seq::filter);
    let kept = t.rows.filter(keep);
    if t.rows.len() > 0 {
        let head = TableView { rows: t.rows.drop_last(), last_id: t.last_id };
        let last = t.rows.last();
        assert(head.wf()) by {
            assert forall|i: int| 0 <= i < head.rows.len() implies 1 <= (#[trigger] head.rows[i]).id
                <= head.last_id by {
                assert(head.rows[i] == t.rows[i]);
            }
            assert forall|i: int, j: int| 0 <= i < j < head.rows.len() implies (#[trigger] head.rows[i]).id
                < (#[trigger] head.rows[j]).id by {
                assert(head.rows[i] == t.rows[i] && head.rows[j] == t.rows[j]);
            }
        }
        lemma_filter_keeps_wf(head, keep);
        let front = head.rows.filter(keep);
        assert forall|i: int| 0 <= i < front.len() implies (#[trigger] front[i]).id < last.id by {
            assert(front.contains(front[i]));
            head.rows.lemma_filter_contains_rev(keep, front[i]);
            let j = choose|j: int| 0 <= j < head.rows.len() && head.rows[j] == front[i];
            assert(t.rows[j].id < t.rows[t.rows.len() - 1].id);
        }
        assert(1 <= t.rows[t.rows.len() - 1].id <= t.last_id);
        let shorter = TableView { rows: front, last_id: t.last_id };
        assert(shorter.wf());
        if keep(last) {
            assert(kept == front.push(last));
            assert forall|i: int| 0 <= i < kept.len() implies 1 <= (#[trigger] kept[i]).id <= t.last_id by {
                if i < front.len() {
                    assert(kept[i] == shorter.rows[i]);
                }
            }
            assert forall|i: int, j: int| 0 <= i < j < kept.len() implies (#[trigger] kept[i]).id < (
            #[trigger] kept[j]).id by {
                assert(kept[i] == shorter.rows[i]);
                if j < front.len() {
                    assert(kept[j] == shorter.rows[j]);
                } else {
                    assert(front[i].id < last.id);
                }
            }
        } else {
            assert(kept == front);
        }
    }
}

} // verus!
