//! The records that the program keeps, and the pages in which it shows
//! them.

use vstd::prelude::*;
use crate::config::PAGE_SIZE;
use crate::timestamp::Timestamp;

verus! {

/// The kinds of records.
#[derive(Debug, Clone, Copy, PartialEq, Eq, Structural)]
pub enum RecordType {
    Key,
    Parcel,
    Game,
    Item,
}

impl Default for RecordType {
    fn default() -> (kind: RecordType)
        ensures
            kind == RecordType::Key,
    {
        RecordType::Key
    }
}

impl RecordType {
    /// The kind's name as the user reads it.
    pub open spec fn name(self) -> Seq<char> {
        match self {
            RecordType::Key => "Key"@,
            RecordType::Parcel => "Parcel"@,
            RecordType::Game => "Game"@,
            RecordType::Item => "Item"@,
        }
    }

    /// The kind's name as the user reads it.
    pub fn label(&self) -> (text: String)
        ensures
            text@ == self.name(),
    {
        match self {
            RecordType::Key => "Key".to_string(),
            RecordType::Parcel => "Parcel".to_string(),
            RecordType::Game => "Game".to_string(),
            RecordType::Item => "Item".to_string(),
        }
    }

    /// All kinds, in the order in which the program offers them.
    pub fn all() -> (kinds: Vec<RecordType>)
        ensures
            kinds@ == seq![RecordType::Key, RecordType::Parcel, RecordType::Game, RecordType::Item],
    {
        let mut kinds: Vec<RecordType> = Vec::new();
        kinds.push(RecordType::Key);
        kinds.push(RecordType::Parcel);
        kinds.push(RecordType::Game);
        kinds.push(RecordType::Item);
        assert(kinds@ =~= seq![
            RecordType::Key,
            RecordType::Parcel,
            RecordType::Game,
            RecordType::Item,
        ]);
        kinds
    }
}

/// A page of a table: one by its number, counted from zero, or whichever is
/// the last.
#[derive(Debug, Clone, Copy, PartialEq, Eq, Structural)]
pub enum Page {
    Page(i64),
    LastPage,
}

impl Default for Page {
    fn default() -> (page: Page)
        ensures
            page == Page::LastPage,
    {
        Page::LastPage
    }
}

/// The number of the last page of a table of `count` records. A table
/// without records has one page, which is empty.
pub open spec fn max_page(count: int) -> int {
    if count <= 0 {
        0
    } else {
        (count - 1) / PAGE_SIZE as int
    }
}

/// `page` where it lies between `0` and `last`, else the nearer of the two.
pub open spec fn clamped(page: int, last: int) -> int {
    if page < 0 {
        0
    } else if page > last {
        last
    } else {
        page
    }
}

/// The number of the last page of a table of `count` records.
pub fn last_page(count: i64) -> (last: i64)
    ensures
        last == max_page(count as int),
        0 <= last,
{
    if count <= 0 {
        0
    } else {
        (count - 1) / PAGE_SIZE
    }
}

impl Page {
    /// The number of the page in a table of `count` records.
    pub open spec fn number(self, count: int) -> int {
        match self {
            Page::Page(page) => clamped(page as int, max_page(count)),
            Page::LastPage => max_page(count),
        }
    }

    /// The page, brought into a table of `count` records: a page by number
    /// stays one, with its number between zero and the last page's; the last
    /// page stays the last page.
    pub fn clamp(self, count: i64) -> (page: Page)
        requires
            count >= -98,
        ensures
            page == (match self {
                Page::Page(_) => Page::Page(self.number(count as int) as i64),
                Page::LastPage => Page::LastPage,
            }),
    {
        match self {
            Page::Page(_) => Page::Page(self.as_i64(count)),
            Page::LastPage => Page::LastPage,
        }
    }

    /// The number of the page in a table of `count` records.
    pub fn as_i64(&self, count: i64) -> (number: i64)
        requires
            count >= -98,
        ensures
            number == self.number(count as int),
            0 <= number <= max_page(count as int),
    {
        let last = last_page(count);
        match self {
            Page::Page(page) => {
                if *page < 0 {
                    0
                } else if *page > last {
                    last
                } else {
                    *page
                }
            },
            Page::LastPage => last,
        }
    }
}

/// Asks a table that shows `current` to show `requested`. A request for the
/// page that is shown changes nothing. Any other request is brought into the
/// table first. Returns whether the records are to be read again.
pub fn set_page(current: &mut Page, requested: Page, count: i64) -> (refresh: bool)
    requires
        count >= -98,
    ensures
        refresh == (requested != *old(current)),
        *final(current) == (if requested == *old(current) {
            requested
        } else {
            match requested {
                Page::Page(_) => Page::Page(requested.number(count as int) as i64),
                Page::LastPage => Page::LastPage,
            }
        }),
{
    if requested != *current {
        *current = requested.clamp(count);
        true
    } else {
        false
    }
}

/// A key that was signed out.
#[derive(Debug, Clone, PartialEq, Eq)]
pub struct KeyRecord {
    pub id: i64,
    pub key: String,
    pub student_name: String,
    pub student_number: String,
    pub receptionist: Option<String>,
    pub time_out: Timestamp,
    pub time_in: Option<Timestamp>,
    pub notes: String,
}

/// What is known of a key when it is signed out.
#[derive(Debug, Clone, PartialEq, Eq)]
pub struct NewKeyRecord<'a> {
    pub key: &'a str,
    pub student_name: &'a str,
    pub student_number: &'a str,
    pub notes: &'a str,
}

/// A parcel that was signed in.
#[derive(Debug, Clone, PartialEq, Eq)]
pub struct ParcelRecord {
    pub id: i64,
    pub parcel_desc: String,
    pub student_name: String,
    pub receptionist: String,
    pub time_in: Timestamp,
    pub time_out: Option<Timestamp>,
    pub notes: String,
}

/// What is known of a parcel when it is signed in.
#[derive(Debug, Clone, PartialEq, Eq)]
pub struct NewParcelRecord<'a> {
    pub parcel_desc: &'a str,
    pub student_name: &'a str,
    pub receptionist: &'a str,
    pub notes: &'a str,
}

/// A game that was signed out.
#[derive(Debug, Clone, PartialEq, Eq)]
pub struct GameRecord {
    pub id: i64,
    pub game: String,
    pub quantity: i64,
    pub student_name: String,
    pub student_number: String,
    pub receptionist: Option<String>,
    pub time_out: Timestamp,
    pub time_in: Option<Timestamp>,
    pub notes: String,
}

/// What is known of a game when it is signed out.
#[derive(Debug, Clone, PartialEq, Eq)]
pub struct NewGameRecord<'a> {
    pub game: &'a str,
    pub quantity: i64,
    pub student_name: &'a str,
    pub student_number: &'a str,
    pub notes: &'a str,
}

/// An item that was handed out.
#[derive(Debug, Clone, PartialEq, Eq)]
pub struct ItemRecord {
    pub id: i64,
    pub item: String,
    pub quantity: i64,
    pub student_name: String,
    pub student_number: String,
    pub receptionist: String,
    pub time_out: Timestamp,
    pub notes: String,
}

/// What is known of an item when it is handed out.
#[derive(Debug, Clone, PartialEq, Eq)]
pub struct NewItemRecord<'a> {
    pub item: &'a str,
    pub quantity: i64,
    pub student_name: &'a str,
    pub student_number: &'a str,
    pub receptionist: &'a str,
    pub notes: &'a str,
}

/// A game that the residence owns, and how many of it.
#[derive(Debug, Clone, PartialEq, Eq)]
pub struct GameTypeRecord {
    pub game: String,
    pub quantity: i64,
}

/// What is known of a game when it is entered.
#[derive(Debug, Clone, PartialEq, Eq)]
pub struct NewGameTypeRecord<'a> {
    pub game: &'a str,
    pub quantity: i64,
}

/// A student who signed something out this year.
#[derive(Debug, Clone, PartialEq, Eq)]
pub struct Student {
    pub name: String,
    pub number: String,
}

} // verus!
