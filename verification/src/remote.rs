//! Access to the remote backup store: the five statements that the worker
//! runs against the `backups` table, and how their results are read.
//!
//! ```text
//! backups(id INTEGER PRIMARY KEY AUTOINCREMENT,
//!         client_id TEXT NOT NULL,
//!         backup_time TEXT NOT NULL,   -- RFC 3339
//!         backup_contents BLOB NOT NULL)
//! ```
//!
//! Every statement carries the client's id, so that none reads or changes a
//! row of another client.

use vstd::prelude::*;
use crate::protocol::BackupSummary;
use crate::store::TableView;
use crate::timestamp::{rfc3339_instant, rfc3339_text, Timestamp};

verus! {

pub const SQL_LIST: &'static str =
    "SELECT id, backup_time FROM backups WHERE client_id = ? ORDER BY backup_time, id";

pub const SQL_INSERT: &'static str =
    "INSERT INTO backups (id, client_id, backup_time, backup_contents) VALUES (NULL, ?, ?, ?)";

pub const SQL_PRUNE: &'static str =
    "DELETE FROM backups WHERE client_id = ? AND id NOT IN (SELECT id FROM backups WHERE client_id = ? ORDER BY backup_time DESC, id DESC LIMIT 10)";

pub const SQL_FETCH: &'static str =
    "SELECT backup_contents FROM backups WHERE id = ? AND client_id = ?";

pub const SQL_DELETE: &'static str = "DELETE FROM backups WHERE id = ? AND client_id = ?";

/// A value bound to a statement or found in a result row. `Real` stands for a
/// floating-point number, which no statement of the engine binds or reads.
#[derive(Debug, Clone, PartialEq, Eq)]
pub enum SqlValue {
    Null,
    Integer(i64),
    Real,
    Text(String),
    Blob(Vec<u8>),
}

/// The mathematical value of a [`SqlValue`].
pub enum SqlValueView {
    Null,
    Integer(i64),
    Real,
    Text(Seq<char>),
    Blob(Seq<u8>),
}

impl View for SqlValue {
    type V = SqlValueView;

    open spec fn view(&self) -> SqlValueView {
        match *self {
            SqlValue::Null => SqlValueView::Null,
            SqlValue::Integer(n) => SqlValueView::Integer(n),
            SqlValue::Real => SqlValueView::Real,
            SqlValue::Text(text) => SqlValueView::Text(text@),
            SqlValue::Blob(bytes) => SqlValueView::Blob(bytes@),
        }
    }
}

/// The values of a row, in order.
pub open spec fn row_view(row: Seq<SqlValue>) -> Seq<SqlValueView> {
    row.map_values(|v: SqlValue| v@)
}

/// One statement for the remote store, with what it binds.
#[derive(Debug, Clone, PartialEq, Eq)]
pub enum Query {
    /// The client's backups, oldest first.
    List { client_id: String },
    /// A new backup of the client.
    Insert { client_id: String, created_at: Timestamp, payload: Vec<u8> },
    /// Delete all backups of the client but its ten newest.
    Prune { client_id: String },
    /// The contents of the client's backup of this id.
    Fetch { client_id: String, id: i64 },
    /// Delete the client's backup of this id.
    Delete { client_id: String, id: i64 },
}

/// The mathematical value of a [`Query`].
pub enum QueryView {
    List { client_id: Seq<char> },
    Insert { client_id: Seq<char>, created_at: Timestamp, payload: Seq<u8> },
    Prune { client_id: Seq<char> },
    Fetch { client_id: Seq<char>, id: i64 },
    Delete { client_id: Seq<char>, id: i64 },
}

impl View for Query {
    type V = QueryView;

    open spec fn view(&self) -> QueryView {
        match *self {
            Query::List { client_id } => QueryView::List { client_id: client_id@ },
            Query::Insert { client_id, created_at, payload } => QueryView::Insert {
                client_id: client_id@,
                created_at,
                payload: payload@,
            },
            Query::Prune { client_id } => QueryView::Prune { client_id: client_id@ },
            Query::Fetch { client_id, id } => QueryView::Fetch { client_id: client_id@, id },
            Query::Delete { client_id, id } => QueryView::Delete { client_id: client_id@, id },
        }
    }
}

/// Which of the five statements a query is.
#[derive(Clone, Copy, Debug, PartialEq, Eq, Structural)]
pub enum QueryKind {
    List,
    Insert,
    Prune,
    Fetch,
    Delete,
}

impl QueryView {
    /// Which of the five statements this is.
    pub open spec fn kind(self) -> QueryKind {
        match self {
            QueryView::List { .. } => QueryKind::List,
            QueryView::Insert { .. } => QueryKind::Insert,
            QueryView::Prune { .. } => QueryKind::Prune,
            QueryView::Fetch { .. } => QueryKind::Fetch,
            QueryView::Delete { .. } => QueryKind::Delete,
        }
    }

    /// The client in whose name the statement runs.
    pub open spec fn client(self) -> Seq<char> {
        match self {
            QueryView::List { client_id } => client_id,
            QueryView::Insert { client_id, .. } => client_id,
            QueryView::Prune { client_id } => client_id,
            QueryView::Fetch { client_id, .. } => client_id,
            QueryView::Delete { client_id, .. } => client_id,
        }
    }

    /// The statement's text.
    pub open spec fn sql(self) -> Seq<char> {
        match self {
            QueryView::List { .. } => SQL_LIST@,
            QueryView::Insert { .. } => SQL_INSERT@,
            QueryView::Prune { .. } => SQL_PRUNE@,
            QueryView::Fetch { .. } => SQL_FETCH@,
            QueryView::Delete { .. } => SQL_DELETE@,
        }
    }

    /// What the statement binds to its `?` marks, in order. The time of
    /// creation is bound as RFC 3339 text; an instant that has no such text
    /// is bound as `NULL`, which the table's `NOT NULL` column refuses.
    pub open spec fn args(self) -> Seq<SqlValueView> {
        match self {
            QueryView::List { client_id } => seq![SqlValueView::Text(client_id)],
            QueryView::Insert { client_id, created_at, payload } => seq![
                SqlValueView::Text(client_id),
                match rfc3339_text(created_at.secs, created_at.nanos) {
                    Some(text) => SqlValueView::Text(text),
                    None => SqlValueView::Null,
                },
                SqlValueView::Blob(payload),
            ],
            QueryView::Prune { client_id } => seq![
                SqlValueView::Text(client_id),
                SqlValueView::Text(client_id),
            ],
            QueryView::Fetch { client_id, id } => seq![
                SqlValueView::Integer(id),
                SqlValueView::Text(client_id),
            ],
            QueryView::Delete { client_id, id } => seq![
                SqlValueView::Integer(id),
                SqlValueView::Text(client_id),
            ],
        }
    }

    /// The table after the statement ran and succeeded.
    pub open spec fn effect(self, table: TableView) -> TableView {
        match self {
            QueryView::List { .. } => table,
            QueryView::Insert { client_id, created_at, payload } => table.inserted(
                client_id,
                created_at,
                payload,
            ),
            QueryView::Prune { client_id } => table.pruned(client_id),
            QueryView::Fetch { .. } => table,
            QueryView::Delete { client_id, id } => table.deleted(client_id, id),
        }
    }

    /// What the statement reports when it ran against `table`. An insertion
    /// fails where the table has no id left; nothing else fails in a table.
    pub open spec fn answer(self, table: TableView) -> ReplyView {
        match self {
            QueryView::List { client_id } => ReplyView::Listed(table.listed(client_id)),
            QueryView::Insert { .. } => if table.can_insert() {
                ReplyView::Inserted
            } else {
                ReplyView::Failed
            },
            QueryView::Prune { .. } => ReplyView::Pruned,
            QueryView::Fetch { client_id, id } => ReplyView::Fetched(table.contents(client_id, id)),
            QueryView::Delete { .. } => ReplyView::Deleted,
        }
    }
}

/// What came back from the remote store for one statement, as the transport
/// hands it over: a failure, or the rows of the result.
#[derive(Debug, Clone, PartialEq, Eq)]
pub enum Outcome {
    Failed,
    Rows(Vec<Vec<SqlValue>>),
}

/// What one statement reported, read.
#[derive(Debug, Clone, PartialEq, Eq)]
pub enum Reply {
    /// The statement failed, or its result had another shape than expected.
    Failed,
    Listed(Vec<BackupSummary>),
    Inserted,
    Pruned,
    /// The contents asked for, or `None` where no such backup exists.
    Fetched(Option<Vec<u8>>),
    Deleted,
}

/// The mathematical value of a [`Reply`].
pub enum ReplyView {
    Failed,
    Listed(Seq<BackupSummary>),
    Inserted,
    Pruned,
    Fetched(Option<Seq<u8>>),
    Deleted,
}

impl View for Reply {
    type V = ReplyView;

    open spec fn view(&self) -> ReplyView {
        match *self {
            Reply::Failed => ReplyView::Failed,
            Reply::Listed(list) => ReplyView::Listed(list@),
            Reply::Inserted => ReplyView::Inserted,
            Reply::Pruned => ReplyView::Pruned,
            Reply::Fetched(found) => ReplyView::Fetched(
                match found {
                    Some(bytes) => Some(bytes@),
                    None => None,
                },
            ),
            Reply::Deleted => ReplyView::Deleted,
        }
    }
}

/// The id and the time text of a list row: the row's first value where it is
/// an integer, and its second where that is a text.
pub open spec fn row_fields(row: Seq<SqlValueView>) -> Option<(i64, Seq<char>)> {
    if row.len() >= 2 && row[0] is Integer && row[1] is Text {
        Some((row[0]->Integer_0, row[1]->Text_0))
    } else {
        None
    }
}

/// The list line that a row stands for: its fields where it has them and the
/// time text denotes an instant.
pub open spec fn row_summary(row: Seq<SqlValueView>) -> Option<BackupSummary> {
    match row_fields(row) {
        Some((id, text)) => match rfc3339_instant(text) {
            Some(at) => Some(BackupSummary { id, created_at: Timestamp { secs: at.0, nanos: at.1 } }),
            None => None,
        },
        None => None,
    }
}

/// The blob that a fetched row holds as its first value.
pub open spec fn row_blob(row: Seq<SqlValueView>) -> Option<Seq<u8>> {
    if row.len() >= 1 && row[0] is Blob {
        Some(row[0]->Blob_0)
    } else {
        None
    }
}

impl BackupSummary {
    /// Takes the id and the time text out of a list row.
    pub fn split_row(row: &Vec<SqlValue>) -> (fields: Option<(i64, &String)>)
        ensures
            fields.is_some() == row_fields(row_view(row@)).is_some(),
            fields.is_some() ==> fields.unwrap().0 == row_fields(row_view(row@)).unwrap().0
                && fields.unwrap().1@ == row_fields(row_view(row@)).unwrap().1,
    {
        if row.len() < 2 {
            return None;
        }
        assert(row_view(row@)[0] == row@[0]@ && row_view(row@)[1] == row@[1]@);
        match (&row[0], &row[1]) {
            (SqlValue::Integer(id), SqlValue::Text(text)) => Some((*id, text)),
            _ => None,
        }
    }

    /// Reads one row of a list result: an integer id, then the time of
    /// creation as RFC 3339 text.
    pub fn parse_row(row: &Vec<SqlValue>) -> (line: Option<BackupSummary>)
        ensures
            line == row_summary(row_view(row@)),
    {
        match Self::split_row(row) {
            Some((id, text)) => match Timestamp::parse_rfc3339(text.as_str()) {
                Some(created_at) => Some(BackupSummary { id, created_at }),
                None => None,
            },
            None => None,
        }
    }
}

/// The list lines of the first `n` rows, in order, or `None` where one of
/// them stands for no line.
pub open spec fn rows_listing(rows: Seq<Seq<SqlValueView>>, n: int) -> Option<Seq<BackupSummary>>
    decreases n,
{
    if n <= 0 {
        Some(Seq::empty())
    } else {
        match (rows_listing(rows, n - 1), row_summary(rows[n - 1])) {
            (Some(lines), Some(line)) => Some(lines.push(line)),
            _ => None,
        }
    }
}

/// The values of the rows of a result, in order.
pub open spec fn rows_view(rows: Seq<Vec<SqlValue>>) -> Seq<Seq<SqlValueView>> {
    rows.map_values(|row: Vec<SqlValue>| row_view(row@))
}

impl QueryKind {
    /// How the statement's result is read. A failure stays a failure. A list
    /// is read row by row, and one row that is no list line makes the whole
    /// result a failure. Of a fetch only the first row counts: no row means no
    /// such backup, and a first row without a blob is a failure. The other
    /// statements report nothing but success.
    pub open spec fn decoded(self, outcome: Option<Seq<Seq<SqlValueView>>>) -> ReplyView {
        match outcome {
            None => ReplyView::Failed,
            Some(rows) => match self {
                QueryKind::List => match rows_listing(rows, rows.len() as int) {
                    Some(lines) => ReplyView::Listed(lines),
                    None => ReplyView::Failed,
                },
                QueryKind::Insert => ReplyView::Inserted,
                QueryKind::Prune => ReplyView::Pruned,
                QueryKind::Fetch => if rows.len() == 0 {
                    ReplyView::Fetched(None)
                } else {
                    match row_blob(rows[0]) {
                        Some(bytes) => ReplyView::Fetched(Some(bytes)),
                        None => ReplyView::Failed,
                    }
                },
                QueryKind::Delete => ReplyView::Deleted,
            },
        }
    }
}

impl View for Outcome {
    type V = Option<Seq<Seq<SqlValueView>>>;

    open spec fn view(&self) -> Option<Seq<Seq<SqlValueView>>> {
        match *self {
            Outcome::Failed => None,
            Outcome::Rows(rows) => Some(rows_view(rows@)),
        }
    }
}

/// Reads all rows of a list result.
fn read_listing(rows: &Vec<Vec<SqlValue>>) -> (lines: Option<Vec<BackupSummary>>)
    ensures
        lines.is_some() == rows_listing(rows_view(rows@), rows.len() as int).is_some(),
        lines.is_some() ==> lines.unwrap()@ == rows_listing(rows_view(rows@), rows.len() as int).unwrap(),
{
    let ghost all = rows_view(rows@);
    let mut lines: Vec<BackupSummary> = Vec::new();
    let mut k: usize = 0;
    while k < rows.len()
        invariant
            k <= rows.len(),
            all == rows_view(rows@),
            rows_listing(all, k as int) == Some(lines@),
        decreases rows.len() - k,
    {
        assert(all[k as int] == row_view(rows@[k as int]@));
        match BackupSummary::parse_row(&rows[k]) {
            Some(line) => {
                lines.push(line);
            },
            None => {
                proof {
                    lemma_listing_stays_none(all, k + 1, rows.len() as int);
                }
                return None;
            },
        }
        k += 1;
    }
    Some(lines)
}

/// Once a row is no list line, no longer run of rows is a listing.
proof fn lemma_listing_stays_none(rows: Seq<Seq<SqlValueView>>, n: int, m: int)
    requires
        0 <= n <= m,
        rows_listing(rows, n).is_none(),
    ensures
        rows_listing(rows, m).is_none(),
    decreases m - n,
{
    if n < m {
        lemma_listing_stays_none(rows, n, m - 1);
    }
}

impl Query {
    /// The client in whose name the statement runs.
    pub fn client(&self) -> (client: &String)
        ensures
            client@ == self@.client(),
    {
        match self {
            Query::List { client_id } => client_id,
            Query::Insert { client_id, .. } => client_id,
            Query::Prune { client_id } => client_id,
            Query::Fetch { client_id, .. } => client_id,
            Query::Delete { client_id, .. } => client_id,
        }
    }

    /// The statement's text, with a `?` for each value it binds.
    pub fn sql(&self) -> (text: &'static str)
        ensures
            text@ == self@.sql(),
    {
        match self {
            Query::List { .. } => SQL_LIST,
            Query::Insert { .. } => SQL_INSERT,
            Query::Prune { .. } => SQL_PRUNE,
            Query::Fetch { .. } => SQL_FETCH,
            Query::Delete { .. } => SQL_DELETE,
        }
    }

    /// The values that the statement binds, in the order of its `?` marks.
    pub fn args(&self) -> (args: Vec<SqlValue>)
        ensures
            row_view(args@) == self@.args(),
    {
        let mut args: Vec<SqlValue> = Vec::new();
        match self {
            Query::List { client_id } => {
                args.push(SqlValue::Text(client_id.clone()));
            },
            Query::Insert { client_id, created_at, payload } => {
                args.push(SqlValue::Text(client_id.clone()));
                match created_at.format_rfc3339() {
                    Some(text) => args.push(SqlValue::Text(text)),
                    None => args.push(SqlValue::Null),
                }
                args.push(SqlValue::Blob(payload.clone()));
            },
            Query::Prune { client_id } => {
                args.push(SqlValue::Text(client_id.clone()));
                args.push(SqlValue::Text(client_id.clone()));
            },
            Query::Fetch { client_id, id } => {
                args.push(SqlValue::Integer(*id));
                args.push(SqlValue::Text(client_id.clone()));
            },
            Query::Delete { client_id, id } => {
                args.push(SqlValue::Integer(*id));
                args.push(SqlValue::Text(client_id.clone()));
            },
        }
        assert(row_view(args@) =~= self@.args());
        args
    }

    /// Which of the five statements this is.
    pub fn kind(&self) -> (kind: QueryKind)
        ensures
            kind == self@.kind(),
    {
        match self {
            Query::List { .. } => QueryKind::List,
            Query::Insert { .. } => QueryKind::Insert,
            Query::Prune { .. } => QueryKind::Prune,
            Query::Fetch { .. } => QueryKind::Fetch,
            Query::Delete { .. } => QueryKind::Delete,
        }
    }
}

impl QueryKind {
    /// Reads what came back for a statement of this kind.
    pub fn decode(self, outcome: Outcome) -> (reply: Reply)
        ensures
            reply@ == self.decoded(outcome@),
    {
        match outcome {
            Outcome::Failed => Reply::Failed,
            Outcome::Rows(mut rows) => match self {
                QueryKind::List => match read_listing(&rows) {
                    Some(lines) => Reply::Listed(lines),
                    None => Reply::Failed,
                },
                QueryKind::Insert => Reply::Inserted,
                QueryKind::Prune => Reply::Pruned,
                QueryKind::Fetch => {
                    if rows.len() == 0 {
                        Reply::Fetched(None)
                    } else {
                        let ghost first = row_view(rows@[0]@);
                        assert(rows_view(rows@)[0] == first);
                        let mut row = rows.swap_remove(0);
                        if row.len() == 0 {
                            Reply::Failed
                        } else {
                            assert(first[0] == row@[0]@);
                            match row.swap_remove(0) {
                                SqlValue::Blob(bytes) => Reply::Fetched(Some(bytes)),
                                _ => Reply::Failed,
                            }
                        }
                    }
                },
                QueryKind::Delete => Reply::Deleted,
            },
        }
    }
}

} // verus!
