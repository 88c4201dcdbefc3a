//! The export of records as CSV: the columns of each kind of record, the
//! lines that the records make, and the name of the file they go to.

use vstd::prelude::*;
use crate::records::{GameRecord, ItemRecord, KeyRecord, ParcelRecord, RecordType};
use crate::text::{i64_text, names_view, signed_decimal, writes_u64, is_u64_text};
use crate::timestamp::{rfc3339_text, Timestamp};

verus! {

/// The bytes that `csv` writes for one record of these fields, line end
/// included, or `None` where `csv` refuses them.
pub uninterp spec fn csv_line(fields: Seq<Seq<char>>) -> Option<Seq<u8>>;

/// Writes one record as a line of CSV.
///
/// Trusted: calls `csv`'s `Writer::from_writer` on an empty buffer, then
/// `Writer::write_record` and `Writer::into_inner`. The contract only names
/// what `csv` writes.
#[verifier::external_body]
fn encode_record(fields: &Vec<String>) -> (line: Option<Vec<u8>>)
    ensures
        line.is_some() == csv_line(names_view(fields@)).is_some(),
        line.is_some() ==> line.unwrap()@ == csv_line(names_view(fields@)).unwrap(),
{
    let mut writer = csv::Writer::from_writer(Vec::new());
    if writer.write_record(fields).is_err() {
        return None;
    }
    match writer.into_inner() {
        Ok(bytes) => Some(bytes),
        Err(_) => None,
    }
}

/// The part of a file name behind its last dot, if the path has one.
///
/// Trusted: calls std's `Path::extension`. Nothing is claimed of the
/// result, which goes by the separators of the machine.
#[verifier::external_body]
fn path_extension(path: &str) -> Option<String> {
    match std::path::Path::new(path).extension() {
        Some(extension) => Some(extension.to_string_lossy().into_owned()),
        None => None,
    }
}

/// The path with `csv` as its extension, in place of the one it has.
///
/// Trusted: calls std's `PathBuf::set_extension`. Nothing is claimed of the
/// result, which goes by the separators of the machine.
#[verifier::external_body]
fn with_csv_extension(path: String) -> String {
    let mut path = std::path::PathBuf::from(path);
    path.set_extension("csv");
    path.to_string_lossy().into_owned()
}

/// Whether what stands behind a file name's last dot is no extension at
/// all but the fraction of the seconds in a proposed name, so that `.csv` is
/// to be put behind it and not in its place: it is, where it writes a number.
pub fn is_fraction(extension: Option<&str>) -> (r: bool)
    ensures
        r == (extension.is_some() && is_u64_text(extension.unwrap()@)),
{
    match extension {
        Some(text) => writes_u64(text),
        None => false,
    }
}

/// The path to which records are exported: what std makes of the path that
/// [`export_base`] picks, with `csv` set as its extension. Std reads paths
/// by the separators of the machine, so nothing is promised of the result.
pub fn set_export_path_extention(path: String) -> String {
    let extension = path_extension(path.as_str());
    let base = match &extension {
        Some(text) => export_base(path, Some(text.as_str())),
        None => export_base(path, None),
    };
    with_csv_extension(base)
}

/// The path whose extension is to be set to `csv`, given the chosen path
/// and what std takes for its extension. A proposed name ends in the fraction
/// of a second; where the user kept it, that fraction is what std takes for
/// the extension, and `.csv` is put behind it so that it is not replaced. Any
/// other path is taken as it is.
pub open spec fn export_base_of(path: Seq<char>, extension: Option<Seq<char>>) -> Seq<char> {
    match extension {
        Some(text) => if is_u64_text(text) {
            path + ".csv"@
        } else {
            path
        },
        None => path,
    }
}

/// The path whose extension is to be set to `csv`, given the chosen path
/// and what std takes for its extension.
pub fn export_base(path: String, extension: Option<&str>) -> (base: String)
    ensures
        base@ == export_base_of(
            path@,
            match extension {
                Some(text) => Some(text@),
                None => None,
            },
        ),
{
    if is_fraction(extension) {
        let mut longer = path;
        longer.append(".csv");
        longer
    } else {
        path
    }
}

/// The text of an instant in a CSV column: RFC 3339, or nothing where the
/// instant has no date.
pub open spec fn time_text(time: Timestamp) -> Seq<char> {
    match rfc3339_text(time.secs, time.nanos) {
        Some(text) => text,
        None => Seq::empty(),
    }
}

/// The text of an instant that may be missing: nothing where it is.
pub open spec fn optional_time_text(time: Option<Timestamp>) -> Seq<char> {
    match time {
        Some(t) => time_text(t),
        None => Seq::empty(),
    }
}

/// The text of an instant in a CSV column.
pub fn format_time(time: Timestamp) -> (text: String)
    ensures
        text@ == time_text(time),
{
    match time.format_rfc3339() {
        Some(text) => text,
        None => String::new(),
    }
}

/// The text of an instant that may be missing.
pub fn format_optional_time(time: Option<Timestamp>) -> (text: String)
    ensures
        text@ == optional_time_text(time),
{
    match time {
        Some(t) => format_time(t),
        None => String::new(),
    }
}

/// The headings of the columns in which records of a kind are exported.
pub open spec fn headings(kind: RecordType) -> Seq<Seq<char>> {
    match kind {
        RecordType::Key => seq![
            "Time Out"@,
            "Time In"@,
            "Key"@,
            "Student Name"@,
            "Student Number"@,
            "Receptionist"@,
            "Notes"@,
        ],
        RecordType::Parcel => seq![
            "Time In"@,
            "Time Out"@,
            "Parcel Description"@,
            "Student Name"@,
            "Receptionist"@,
            "Notes"@,
        ],
        RecordType::Game => seq![
            "Time Out"@,
            "Time In"@,
            "Game"@,
            "Quantity"@,
            "Student Name"@,
            "Student Number"@,
            "Receptionist"@,
            "Notes"@,
        ],
        RecordType::Item => seq![
            "Time Out"@,
            "Item"@,
            "Quantity"@,
            "Student Name"@,
            "Student Number"@,
            "Receptionist"@,
            "Notes"@,
        ],
    }
}

/// A list of texts.
fn texts(list: &[&str]) -> (r: Vec<String>)
    ensures
        r.len() == list.len(),
        forall|i: int| 0 <= i < list.len() ==> r[i]@ == list[i]@,
{
    let mut r: Vec<String> = Vec::new();
    let mut i: usize = 0;
    while i < list.len()
        invariant
            i <= list.len(),
            r.len() == i,
            forall|k: int| 0 <= k < i ==> r[k]@ == list[k]@,
        decreases list.len() - i,
    {
        r.push(list[i].to_string());
        i += 1;
    }
    r
}

/// The headings of the columns in which records of a kind are exported.
pub fn csv_headers(kind: RecordType) -> (r: Vec<String>)
    ensures
        names_view(r@) == headings(kind),
{
    let r = match kind {
        RecordType::Key => texts(
            &[
                "Time Out",
                "Time In",
                "Key",
                "Student Name",
                "Student Number",
                "Receptionist",
                "Notes",
            ],
        ),
        RecordType::Parcel => texts(
            &[
                "Time In",
                "Time Out",
                "Parcel Description",
                "Student Name",
                "Receptionist",
                "Notes",
            ],
        ),
        RecordType::Game => texts(
            &[
                "Time Out",
                "Time In",
                "Game",
                "Quantity",
                "Student Name",
                "Student Number",
                "Receptionist",
                "Notes",
            ],
        ),
        RecordType::Item => texts(
            &[
                "Time Out",
                "Item",
                "Quantity",
                "Student Name",
                "Student Number",
                "Receptionist",
                "Notes",
            ],
        ),
    };
    assert(names_view(r@) =~= headings(kind));
    r
}

/// The text of a name that may be missing: nothing where it is.
pub open spec fn optional_text(text: Option<String>) -> Seq<char> {
    match text {
        Some(t) => t@,
        None => Seq::empty(),
    }
}

/// A copy of a name that may be missing.
fn or_empty(text: &Option<String>) -> (r: String)
    ensures
        r@ == optional_text(*text),
{
    match text {
        Some(t) => t.clone(),
        None => String::new(),
    }
}

impl KeyRecord {
    /// The record's columns, under the headings of its kind.
    pub open spec fn columns(self) -> Seq<Seq<char>> {
        seq![
            time_text(self.time_out),
            optional_time_text(self.time_in),
            self.key@,
            self.student_name@,
            self.student_number@,
            optional_text(self.receptionist),
            self.notes@,
        ]
    }

    /// The record's columns, under the headings of its kind.
    pub fn csv_fields(&self) -> (fields: Vec<String>)
        ensures
            names_view(fields@) == self.columns(),
    {
        let mut fields: Vec<String> = Vec::new();
        fields.push(format_time(self.time_out));
        fields.push(format_optional_time(self.time_in));
        fields.push(self.key.clone());
        fields.push(self.student_name.clone());
        fields.push(self.student_number.clone());
        fields.push(or_empty(&self.receptionist));
        fields.push(self.notes.clone());
        assert(names_view(fields@) =~= self.columns());
        fields
    }
}

impl ParcelRecord {
    /// The record's columns, under the headings of its kind.
    pub open spec fn columns(self) -> Seq<Seq<char>> {
        seq![
            time_text(self.time_in),
            optional_time_text(self.time_out),
            self.parcel_desc@,
            self.student_name@,
            self.receptionist@,
            self.notes@,
        ]
    }

    /// The record's columns, under the headings of its kind.
    pub fn csv_fields(&self) -> (fields: Vec<String>)
        ensures
            names_view(fields@) == self.columns(),
    {
        let mut fields: Vec<String> = Vec::new();
        fields.push(format_time(self.time_in));
        fields.push(format_optional_time(self.time_out));
        fields.push(self.parcel_desc.clone());
        fields.push(self.student_name.clone());
        fields.push(self.receptionist.clone());
        fields.push(self.notes.clone());
        assert(names_view(fields@) =~= self.columns());
        fields
    }
}

impl GameRecord {
    /// The record's columns, under the headings of its kind.
    pub open spec fn columns(self) -> Seq<Seq<char>> {
        seq![
            time_text(self.time_out),
            optional_time_text(self.time_in),
            self.game@,
            signed_decimal(self.quantity as int),
            self.student_name@,
            self.student_number@,
            optional_text(self.receptionist),
            self.notes@,
        ]
    }

    /// The record's columns, under the headings of its kind.
    pub fn csv_fields(&self) -> (fields: Vec<String>)
        ensures
            names_view(fields@) == self.columns(),
    {
        let mut fields: Vec<String> = Vec::new();
        fields.push(format_time(self.time_out));
        fields.push(format_optional_time(self.time_in));
        fields.push(self.game.clone());
        fields.push(i64_text(self.quantity));
        fields.push(self.student_name.clone());
        fields.push(self.student_number.clone());
        fields.push(or_empty(&self.receptionist));
        fields.push(self.notes.clone());
        assert(names_view(fields@) =~= self.columns());
        fields
    }
}

impl ItemRecord {
    /// The record's columns, under the headings of its kind.
    pub open spec fn columns(self) -> Seq<Seq<char>> {
        seq![
            time_text(self.time_out),
            self.item@,
            signed_decimal(self.quantity as int),
            self.student_name@,
            self.student_number@,
            self.receptionist@,
            self.notes@,
        ]
    }

    /// The record's columns, under the headings of its kind.
    pub fn csv_fields(&self) -> (fields: Vec<String>)
        ensures
            names_view(fields@) == self.columns(),
    {
        let mut fields: Vec<String> = Vec::new();
        fields.push(format_time(self.time_out));
        fields.push(self.item.clone());
        fields.push(i64_text(self.quantity));
        fields.push(self.student_name.clone());
        fields.push(self.student_number.clone());
        fields.push(self.receptionist.clone());
        fields.push(self.notes.clone());
        assert(names_view(fields@) =~= self.columns());
        fields
    }
}

/// The values of the rows of a table.
pub open spec fn rows_text(rows: Seq<Vec<String>>) -> Seq<Seq<Seq<char>>> {
    rows.map_values(|row: Vec<String>| names_view(row@))
}

/// The CSV of the first `n` rows: their lines one after another, or `None`
/// where one of them is refused.
pub open spec fn csv_document(rows: Seq<Seq<Seq<char>>>, n: int) -> Option<Seq<u8>>
    decreases n,
{
    if n <= 0 {
        Some(Seq::empty())
    } else {
        match (csv_document(rows, n - 1), csv_line(rows[n - 1])) {
            (Some(before), Some(line)) => Some(before + line),
            _ => None,
        }
    }
}

/// Once a row is refused, no longer run of rows has a CSV.
proof fn lemma_document_stays_none(rows: Seq<Seq<Seq<char>>>, n: int, m: int)
    requires
        0 <= n <= m,
        csv_document(rows, n).is_none(),
    ensures
        csv_document(rows, m).is_none(),
    decreases m - n,
{
    if n < m {
        lemma_document_stays_none(rows, n, m - 1);
    }
}

/// Writes the rows of a table as CSV, headings first where they are the
/// first row.
pub fn export_csv(rows: &Vec<Vec<String>>) -> (document: Option<Vec<u8>>)
    ensures
        document.is_some() == csv_document(rows_text(rows@), rows.len() as int).is_some(),
        document.is_some() ==> document.unwrap()@ == csv_document(
            rows_text(rows@),
            rows.len() as int,
        ).unwrap(),
{
    let ghost all = rows_text(rows@);
    let mut document: Vec<u8> = Vec::new();
    let mut k: usize = 0;
    while k < rows.len()
        invariant
            k <= rows.len(),
            all == rows_text(rows@),
            csv_document(all, k as int) == Some(document@),
        decreases rows.len() - k,
    {
        assert(all[k as int] == names_view(rows@[k as int]@));
        match encode_record(&rows[k]) {
            Some(mut line) => {
                let ghost before = document@;
                let ghost added = line@;
                document.append(&mut line);
                assert(document@ =~= before + added);
            },
            None => {
                proof {
                    lemma_document_stays_none(all, k + 1, rows.len() as int);
                }
                return None;
            },
        }
        k += 1;
    }
    Some(document)
}

} // verus!
