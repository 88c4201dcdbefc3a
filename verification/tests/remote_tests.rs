use blackcurrant::protocol::BackupSummary;
use blackcurrant::remote::{Query, QueryKind, SqlValue};
use blackcurrant::timestamp::Timestamp;

fn text(s: &str) -> SqlValue {
    SqlValue::Text(s.to_string())
}

#[test]
fn parse_row_reads_id_and_time() {
    let row = vec![SqlValue::Integer(42), text("2023-08-12T10:11:12+00:00")];
    assert_eq!(
        BackupSummary::parse_row(&row),
        Some(BackupSummary { id: 42, created_at: Timestamp { secs: 1691835072, nanos: 0 } })
    );
}

#[test]
fn parse_row_brings_other_offsets_to_utc() {
    let row = vec![SqlValue::Integer(1), text("2023-08-12T12:11:12.000000001+02:00")];
    assert_eq!(
        BackupSummary::parse_row(&row),
        Some(BackupSummary { id: 1, created_at: Timestamp { secs: 1691835072, nanos: 1 } })
    );
}

#[test]
fn parse_row_ignores_further_values() {
    let row = vec![SqlValue::Integer(1), text("1970-01-01T00:00:00Z"), SqlValue::Null];
    assert_eq!(
        BackupSummary::parse_row(&row),
        Some(BackupSummary { id: 1, created_at: Timestamp { secs: 0, nanos: 0 } })
    );
}

#[test]
fn parse_row_rejects_other_shapes() {
    assert_eq!(BackupSummary::parse_row(&vec![]), None);
    assert_eq!(BackupSummary::parse_row(&vec![SqlValue::Integer(1)]), None);
    assert_eq!(BackupSummary::parse_row(&vec![text("1"), text("1970-01-01T00:00:00Z")]), None);
    assert_eq!(BackupSummary::parse_row(&vec![SqlValue::Integer(1), SqlValue::Integer(2)]), None);
    assert_eq!(BackupSummary::parse_row(&vec![SqlValue::Integer(1), SqlValue::Null]), None);
    assert_eq!(BackupSummary::parse_row(&vec![SqlValue::Real, text("1970-01-01T00:00:00Z")]), None);
    assert_eq!(
        BackupSummary::parse_row(&vec![SqlValue::Blob(vec![1]), text("1970-01-01T00:00:00Z")]),
        None
    );
}

#[test]
fn parse_row_rejects_a_text_that_is_no_time() {
    assert_eq!(BackupSummary::parse_row(&vec![SqlValue::Integer(1), text("")]), None);
    assert_eq!(BackupSummary::parse_row(&vec![SqlValue::Integer(1), text("2023-13-40")]), None);
    assert_eq!(BackupSummary::parse_row(&vec![SqlValue::Integer(1), text("12 August 2023")]), None);
}

#[test]
fn split_row_takes_the_fields_apart() {
    let row = vec![SqlValue::Integer(3), text("whatever")];
    let fields = BackupSummary::split_row(&row);
    assert_eq!(fields.map(|(id, t)| (id, t.clone())), Some((3, "whatever".to_string())));
    assert!(BackupSummary::split_row(&vec![SqlValue::Integer(3)]).is_none());
}

#[test]
fn list_statement() {
    let q = Query::List { client_id: "c1".to_string() };
    assert_eq!(q.kind(), QueryKind::List);
    assert_eq!(q.client(), "c1");
    assert_eq!(
        q.sql(),
        "SELECT id, backup_time FROM backups WHERE client_id = ? ORDER BY backup_time, id"
    );
    assert_eq!(q.args(), vec![text("c1")]);
}

#[test]
fn insert_statement_binds_the_time_as_rfc3339() {
    let q = Query::Insert {
        client_id: "c1".to_string(),
        created_at: Timestamp { secs: 1691835072, nanos: 500_000_000 },
        payload: vec![1, 2, 3],
    };
    assert_eq!(q.kind(), QueryKind::Insert);
    assert_eq!(
        q.sql(),
        "INSERT INTO backups (id, client_id, backup_time, backup_contents) VALUES (NULL, ?, ?, ?)"
    );
    assert_eq!(
        q.args(),
        vec![text("c1"), text("2023-08-12T10:11:12.500+00:00"), SqlValue::Blob(vec![1, 2, 3])]
    );
}

#[test]
fn insert_statement_writes_whole_seconds_without_a_fraction() {
    let q = Query::Insert {
        client_id: "c1".to_string(),
        created_at: Timestamp { secs: 0, nanos: 0 },
        payload: vec![],
    };
    assert_eq!(q.args()[1], text("1970-01-01T00:00:00+00:00"));
}

#[test]
fn insert_statement_binds_null_for_an_instant_without_a_date() {
    let q = Query::Insert {
        client_id: "c1".to_string(),
        created_at: Timestamp { secs: i64::MAX, nanos: 0 },
        payload: vec![],
    };
    assert_eq!(q.args()[1], SqlValue::Null);
}

#[test]
fn the_written_time_reads_back_as_the_same_instant() {
    let created_at = Timestamp { secs: 1709251199, nanos: 123_456_789 };
    let q = Query::Insert { client_id: "c1".to_string(), created_at, payload: vec![] };
    let written = q.args().remove(1);
    let row = vec![SqlValue::Integer(1), written];
    assert_eq!(BackupSummary::parse_row(&row), Some(BackupSummary { id: 1, created_at }));
}

#[test]
fn prune_fetch_and_delete_statements_carry_the_client() {
    let q = Query::Prune { client_id: "c1".to_string() };
    assert_eq!(q.kind(), QueryKind::Prune);
    assert_eq!(
        q.sql(),
        "DELETE FROM backups WHERE client_id = ? AND id NOT IN (SELECT id FROM backups WHERE client_id = ? ORDER BY backup_time DESC, id DESC LIMIT 10)"
    );
    assert_eq!(q.args(), vec![text("c1"), text("c1")]);

    let q = Query::Fetch { client_id: "c1".to_string(), id: 12 };
    assert_eq!(q.kind(), QueryKind::Fetch);
    assert_eq!(q.sql(), "SELECT backup_contents FROM backups WHERE id = ? AND client_id = ?");
    assert_eq!(q.args(), vec![SqlValue::Integer(12), text("c1")]);

    let q = Query::Delete { client_id: "c1".to_string(), id: 12 };
    assert_eq!(q.kind(), QueryKind::Delete);
    assert_eq!(q.sql(), "DELETE FROM backups WHERE id = ? AND client_id = ?");
    assert_eq!(q.args(), vec![SqlValue::Integer(12), text("c1")]);
}
