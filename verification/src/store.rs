//! The remote backup store as the engine understands it: a table of backup
//! records, each owned by one client, and the five operations that the worker
//! asks of it.
//!
//! [`TableView`] is the mathematical table. [`BackupTable`] is the same table
//! held in memory, operation for operation; it stands in for the remote store
//! wherever no network is at hand.

use vstd::prelude::*;
use vstd::relations::total_ordering;
use crate::protocol::BackupSummary;
use crate::timestamp::Timestamp;

verus! {

/// How many backups of one client outlive a pruning.
pub const RETENTION: usize = 10;

/// One snapshot of the local database, as the remote store holds it.
#[derive(Debug, Clone, PartialEq, Eq)]
pub struct BackupRecord {
    pub id: i64,
    pub client_id: String,
    pub created_at: Timestamp,
    pub payload: Vec<u8>,
}

/// The mathematical value of a [`BackupRecord`].
pub struct RecordView {
    pub id: i64,
    pub client_id: Seq<char>,
    pub created_at: Timestamp,
    pub payload: Seq<u8>,
}

impl View for BackupRecord {
    type V = RecordView;

    open spec fn view(&self) -> RecordView {
        RecordView {
            id: self.id,
            client_id: self.client_id@,
            created_at: self.created_at,
            payload: self.payload@,
        }
    }
}

impl RecordView {
    /// The line that stands for this record in a backup list.
    pub open spec fn summary(self) -> BackupSummary {
        BackupSummary { id: self.id, created_at: self.created_at }
    }

    /// `self` was created after `other`; of two records created at the same
    /// instant, the one with the higher id counts as the later.
    pub open spec fn newer_than(self, other: RecordView) -> bool {
        other.created_at.before(self.created_at) || (self.created_at == other.created_at
            && self.id > other.id)
    }
}

/// The order of a backup list: by time of creation, then by id.
pub open spec fn listed_before(a: BackupSummary, b: BackupSummary) -> bool {
    a.created_at.before(b.created_at) || (a.created_at == b.created_at && a.id <= b.id)
}

/// The values of a run of records, in order.
pub open spec fn record_views(rows: Seq<BackupRecord>) -> Seq<RecordView> {
    rows.map_values(|r: BackupRecord| r@)
}

/// The mathematical table: its rows in order of insertion, and the highest id
/// it has ever handed out.
#[verifier::ext_equal]
pub struct TableView {
    pub rows: Seq<RecordView>,
    pub last_id: i64,
}

impl TableView {
    /// Ids are positive, never above `last_id`, and grow with every insertion.
    pub open spec fn wf(self) -> bool {
        &&& 0 <= self.last_id
        &&& forall|i: int| 0 <= i < self.rows.len() ==> 1 <= (#[trigger] self.rows[i]).id <= self.last_id
        &&& forall|i: int, j: int|
            0 <= i < j < self.rows.len() ==> (#[trigger] self.rows[i]).id < (#[trigger] self.rows[j]).id
    }

    /// The table that holds nothing yet.
    pub open spec fn empty() -> TableView {
        TableView { rows: Seq::empty(), last_id: 0 }
    }

    /// The rows of one client, in order of insertion.
    pub open spec fn of_client(self, client: Seq<char>) -> Seq<RecordView> {
        self.rows.filter(|r: RecordView| r.client_id == client)
    }

    /// How many rows of `client` are newer than `r`.
    pub open spec fn rank(self, client: Seq<char>, r: RecordView) -> nat {
        self.of_client(client).filter(|x: RecordView| x.newer_than(r)).len()
    }

    /// Whether a pruning for `client` leaves `r` in place: rows of other
    /// clients always, rows of `client` while fewer than [`RETENTION`] of its
    /// rows are newer.
    pub open spec fn keeps(self, client: Seq<char>, r: RecordView) -> bool {
        r.client_id != client || self.rank(client, r) < RETENTION
    }

    /// The table after a pruning for `client`.
    pub open spec fn pruned(self, client: Seq<char>) -> TableView {
        TableView { rows: self.rows.filter(|r: RecordView| self.keeps(client, r)), last_id: self.last_id }
    }

    /// Whether an id is left for one more row.
    pub open spec fn can_insert(self) -> bool {
        self.last_id < i64::MAX
    }

    /// The row that the next insertion adds.
    pub open spec fn next_row(self, client: Seq<char>, at: Timestamp, payload: Seq<u8>) -> RecordView {
        RecordView { id: (self.last_id + 1) as i64, client_id: client, created_at: at, payload }
    }

    /// The table after an insertion; unchanged where no id is left.
    pub open spec fn inserted(self, client: Seq<char>, at: Timestamp, payload: Seq<u8>) -> TableView {
        if self.can_insert() {
            TableView {
                rows: self.rows.push(self.next_row(client, at, payload)),
                last_id: (self.last_id + 1) as i64,
            }
        } else {
            self
        }
    }

    /// Whether `r` is the row that `client` means by `id`.
    pub open spec fn is_target(client: Seq<char>, id: i64, r: RecordView) -> bool {
        r.id == id && r.client_id == client
    }

    /// The table after `client` deleted `id`: every row but its own row of
    /// that id.
    pub open spec fn deleted(self, client: Seq<char>, id: i64) -> TableView {
        TableView {
            rows: self.rows.filter(|r: RecordView| !Self::is_target(client, id, r)),
            last_id: self.last_id,
        }
    }

    /// The payload of the row that `client` means by `id`, if it has one.
    pub open spec fn contents(self, client: Seq<char>, id: i64) -> Option<Seq<u8>> {
        let hits = self.rows.filter(|r: RecordView| Self::is_target(client, id, r));
        if hits.len() > 0 {
            Some(hits[0].payload)
        } else {
            None
        }
    }

    /// The backup list of `client`: one line per row of the client, oldest
    /// first.
    pub open spec fn listed(self, client: Seq<char>) -> Seq<BackupSummary> {
        self.of_client(client).map_values(|r: RecordView| r.summary()).sort_by(
            |a: BackupSummary, b: BackupSummary| listed_before(a, b),
        )
    }
}

/// [`listed_before`] orders all summaries in one line.
pub proof fn lemma_listed_before_total()
    ensures
        total_ordering(|a: BackupSummary, b: BackupSummary| listed_before(a, b)),
{
    let leq = |a: BackupSummary, b: BackupSummary| listed_before(a, b);
    assert forall|x: BackupSummary, y: BackupSummary| #[trigger] leq(x, y) && #[trigger] leq(y, x) implies x == y by {
        assert(listed_before(x, y) && listed_before(y, x));
    }
    assert forall|x: BackupSummary, y: BackupSummary, z: BackupSummary| #[trigger] leq(x, y) && #[trigger] leq(y, z) implies leq(x, z) by {
        assert(listed_before(x, y) && listed_before(y, z));
    }
    assert forall|x: BackupSummary, y: BackupSummary| #[trigger] leq(x, y) || #[trigger] leq(y, x) by {
        assert(listed_before(x, y) || listed_before(y, x));
    }
}

} // verus!
