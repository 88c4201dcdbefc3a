//! The program's name, its limits and its configuration.

use vstd::prelude::*;

verus! {

pub const APP_NAME: &'static str = "Blackcurrant";

/// The longest name, in bytes.
pub const NAME_MAX_LENGTH: usize = 512;

/// The longest note, in bytes.
pub const NOTES_MAX_LENGTH: usize = 512;

/// The length of a student number: six letters, then three digits.
pub const STUDENT_NUMBER_LENGTH: usize = 9;

/// The length of a staff number, which is all digits.
pub const STAFF_NUMBER_LENGTH: usize = 8;

/// The most of one game or item that can be entered or signed out at once.
pub const MAX_QUANTITY: i64 = 99;

/// How many records a page of a table shows.
pub const PAGE_SIZE: i64 = 100;

/// How times are shown in the tables.
pub const DATE_TIME_FORMAT: &'static str = "%d/%m/%Y %H:%M";

/// How the time is written into the name of a backup or export file.
pub const BACKUP_DATE_TIME_FORMAT: &'static str = "%Y-%m-%d_%H-%M-%S.%f";

pub const CONFIRMATION_TITLE: &'static str = "Are you sure?";

pub const RESTORE_CONFIRM_TEXT: &'static str =
    "Restoring from a backup will delete all records which are not present in the backup.";

/// What the program is configured with.
#[derive(Debug, Clone, PartialEq, Eq)]
pub struct AppConfig {
    /// The name of the residence, shown under the program's name.
    pub facility_name: String,
    /// The name of the remote database, from which the endpoint is made.
    pub turso_db: String,
    /// The id under which this installation keeps its backups.
    pub client_id: String,
    /// The token that opens the remote database, if one is configured.
    pub auth_token: Option<String>,
}

/// Whether a text is an address as `url` reads it.
pub uninterp spec fn is_url(text: Seq<char>) -> bool;

/// Whether a text is an address.
///
/// Trusted: calls `url`'s `Url::parse` and tells success from failure. The
/// contract only names what `url` decides.
#[verifier::external_body]
fn parses_as_url(text: &str) -> (r: bool)
    ensures
        r == is_url(text@),
{
    url::Url::parse(text).is_ok()
}

/// A fresh client id.
///
/// Trusted: calls `uuid`'s `Uuid::new_v4` and writes the random result in
/// its hyphenated form. Nothing is claimed of the text.
#[verifier::external_body]
fn fresh_client_id() -> String {
    uuid::Uuid::new_v4().as_hyphenated().to_string()
}

impl AppConfig {
    /// A configuration with the given client id and nothing else.
    pub fn with_client_id(client_id: String) -> (config: AppConfig)
        ensures
            config.facility_name@ == Seq::<char>::empty(),
            config.turso_db@ == Seq::<char>::empty(),
            config.client_id@ == client_id@,
            config.auth_token.is_none(),
    {
        AppConfig {
            facility_name: String::new(),
            turso_db: String::new(),
            client_id,
            auth_token: None,
        }
    }

    /// The address of the remote database: `libsql://`, its name, and
    /// `.turso.io`.
    pub fn endpoint(&self) -> (url: String)
        ensures
            url@ == "libsql://"@ + self.turso_db@ + ".turso.io"@,
    {
        let mut url = String::new();
        url.append("libsql://");
        url.append(self.turso_db.as_str());
        url.append(".turso.io");
        assert(url@ =~= "libsql://"@ + self.turso_db@ + ".turso.io"@);
        url
    }

    /// Whether the address of the remote database is one that can be
    /// connected to, as far as its form goes.
    pub fn endpoint_valid(&self) -> (r: bool)
        ensures
            r == is_url("libsql://"@ + self.turso_db@ + ".turso.io"@),
    {
        parses_as_url(self.endpoint().as_str())
    }

    /// Whether an authentication token is configured.
    pub fn has_token(&self) -> (r: bool)
        ensures
            r == self.auth_token.is_some(),
    {
        self.auth_token.is_some()
    }
}

impl Default for AppConfig {
    /// No facility name, no database, no token, and a fresh random client
    /// id.
    fn default() -> (config: AppConfig)
        ensures
            config.facility_name@ == Seq::<char>::empty(),
            config.turso_db@ == Seq::<char>::empty(),
            config.auth_token.is_none(),
    {
        AppConfig::with_client_id(fresh_client_id())
    }
}

} // verus!
