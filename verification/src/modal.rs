//! The small dialogs: what they hold and what their buttons decide. Drawing
//! them is left to the program.

use vstd::prelude::*;
use crate::config::{AppConfig, NAME_MAX_LENGTH};
use crate::filters::{check_name, filter_length, name_error, too_long};
use crate::records::RecordType;
use crate::text::{byte_len, joined, owned_text, text_view, trim, trimmed};

verus! {

/// A question that the user answers with OK or Cancel.
#[derive(Debug, Clone, PartialEq, Eq)]
pub struct ConfirmationModal {
    pub title: String,
    pub description: Option<String>,
    pub confirmed: bool,
}

impl Default for ConfirmationModal {
    /// A question without words, not answered yet.
    fn default() -> (modal: ConfirmationModal)
        ensures
            modal.title@.len() == 0,
            modal.description.is_none(),
            !modal.confirmed,
    {
        ConfirmationModal { title: String::new(), description: None, confirmed: false }
    }
}

impl ConfirmationModal {
    /// A question that is not answered yet.
    pub fn new(title: &str, description: Option<&str>) -> (modal: ConfirmationModal)
        ensures
            modal.title@ == title@,
            text_view(modal.description) == (match description {
                Some(d) => Some(d@),
                None => None,
            }),
            !modal.confirmed,
    {
        ConfirmationModal {
            title: title.to_string(),
            description: owned_text(description),
            confirmed: false,
        }
    }

    /// The user pressed OK. Returns whether the dialog closes: it does.
    pub fn press_ok(&mut self) -> (close: bool)
        ensures
            close,
            final(self).confirmed,
            final(self).title == old(self).title,
            final(self).description == old(self).description,
    {
        self.confirmed = true;
        true
    }

    /// The user pressed Cancel. Returns whether the dialog closes: it does.
    pub fn press_cancel(&mut self) -> (close: bool)
        ensures
            close,
            !final(self).confirmed,
            final(self).title == old(self).title,
            final(self).description == old(self).description,
    {
        self.confirmed = false;
        true
    }
}

/// A notice that the user dismisses.
#[derive(Debug, Clone, PartialEq, Eq)]
pub struct AlertModal {
    pub title: String,
    pub description: Option<String>,
}

/// What failed in an export of records.
#[derive(Debug, Clone, PartialEq, Eq)]
pub enum ExportFailure {
    /// The database could not be read.
    Database,
    /// The records could not be written as CSV; the text says why.
    Csv(String),
    /// The file could not be written; the text says why.
    Io(String),
}

/// The value of an export failure: `None` for the database, else the
/// reason's text.
pub open spec fn failure_reason(failure: ExportFailure) -> Option<Seq<char>> {
    match failure {
        ExportFailure::Database => None,
        ExportFailure::Csv(reason) => Some(reason@),
        ExportFailure::Io(reason) => Some(reason@),
    }
}

/// The description of a failed export.
pub open spec fn export_failure_text(reason: Option<Seq<char>>) -> Seq<char> {
    match reason {
        None => "An expected error occurred while accessing the database."@,
        Some(reason) => "Failed to export data: "@ + reason,
    }
}

impl Default for AlertModal {
    /// A notice without words.
    fn default() -> (modal: AlertModal)
        ensures
            modal.title@.len() == 0,
            modal.description.is_none(),
    {
        AlertModal { title: String::new(), description: None }
    }
}

impl AlertModal {
    /// A notice with a title and, if given, a description.
    pub fn new(title: &str, description: Option<String>) -> (modal: AlertModal)
        ensures
            modal.title@ == title@,
            modal.description == description,
    {
        AlertModal { title: title.to_string(), description }
    }

    /// The notice after the local database was written to a backup file:
    /// of the success, or of the failure with its reason.
    pub fn backup_done(error: Option<&str>) -> (modal: AlertModal)
        ensures
            error.is_none() ==> modal.title@ == "Backup Successful"@ && modal.description.is_none(),
            error.is_some() ==> modal.title@ == "Backup Failed"@ && text_view(modal.description)
                == Some("Failed to backup database: "@ + error.unwrap()@),
    {
        match error {
            None => AlertModal::new("Backup Successful", None),
            Some(reason) => AlertModal::new(
                "Backup Failed",
                Some(joined("Failed to backup database: ", reason)),
            ),
        }
    }

    /// The notice after the local database was restored from a backup
    /// file: of the success, or of the failure with its reason.
    pub fn restore_done(error: Option<&str>) -> (modal: AlertModal)
        ensures
            error.is_none() ==> modal.title@ == "Restore Successful"@ && modal.description.is_none(),
            error.is_some() ==> modal.title@ == "Restore Failed"@ && text_view(modal.description)
                == Some("Failed to restore database: "@ + error.unwrap()@),
    {
        match error {
            None => AlertModal::new("Restore Successful", None),
            Some(reason) => AlertModal::new(
                "Restore Failed",
                Some(joined("Failed to restore database: ", reason)),
            ),
        }
    }

    /// The notice after records were exported: of the success, or of the
    /// failure with what failed.
    pub fn export_done(failure: Option<ExportFailure>) -> (modal: AlertModal)
        ensures
            failure.is_none() ==> modal.title@ == "Export Successful"@ && modal.description.is_none(),
            failure.is_some() ==> modal.title@ == "Export Failed"@ && text_view(modal.description)
                == Some(export_failure_text(failure_reason(failure.unwrap()))),
    {
        match failure {
            None => AlertModal::new("Export Successful", None),
            Some(ExportFailure::Database) => AlertModal::new(
                "Export Failed",
                Some("An expected error occurred while accessing the database.".to_string()),
            ),
            Some(ExportFailure::Csv(reason)) => AlertModal::new(
                "Export Failed",
                Some(joined("Failed to export data: ", reason.as_str())),
            ),
            Some(ExportFailure::Io(reason)) => AlertModal::new(
                "Export Failed",
                Some(joined("Failed to export data: ", reason.as_str())),
            ),
        }
    }

    /// The user pressed Ok. Returns whether the notice closes: it does.
    pub fn press_ok(&self) -> (close: bool)
        ensures
            close,
    {
        true
    }
}

/// The question whether to leave the program.
#[derive(Debug, Clone, PartialEq, Eq)]
pub struct ExitModal {
    /// Whether the user chose to leave.
    pub close_process: bool,
}

impl Default for ExitModal {
    /// The question, not answered yet.
    fn default() -> (modal: ExitModal)
        ensures
            !modal.close_process,
    {
        ExitModal { close_process: false }
    }
}

impl ExitModal {

    /// The user pressed Yes: the program is to end. Returns whether the
    /// dialog closes: it stays until the program has ended.
    pub fn press_yes(&mut self) -> (close: bool)
        ensures
            !close,
            final(self).close_process,
    {
        self.close_process = true;
        false
    }

    /// The user pressed Cancel. Returns whether the dialog closes: it does.
    pub fn press_cancel(&mut self) -> (close: bool)
        ensures
            close,
            final(self).close_process == old(self).close_process,
    {
        true
    }

    /// The window is asked to close. Returns whether it may: only once the
    /// user has chosen to leave. Where no question is open yet, one is opened
    /// and the window stays.
    pub fn close_requested(open: &mut Option<ExitModal>) -> (may_close: bool)
        ensures
            old(open).is_some() ==> may_close == old(open).unwrap().close_process && *final(open)
                == *old(open),
            old(open).is_none() ==> !may_close && final(open).is_some()
                && !final(open).unwrap().close_process,
    {
        match open {
            Some(modal) => modal.close_process,
            None => {
                *open = Some(ExitModal::default());
                false
            },
        }
    }
}

/// The notice that tells what the program is.
#[derive(Debug, Clone, Copy, PartialEq, Eq)]
pub struct AboutModal;

impl Default for AboutModal {
    fn default() -> AboutModal {
        AboutModal
    }
}

impl AboutModal {
    /// The user pressed Close. Returns whether the notice closes: it does.
    pub fn press_close(&self) -> (close: bool)
        ensures
            close,
    {
        true
    }
}

/// The form in which the user names the facility.
#[derive(Debug, Clone, PartialEq, Eq)]
pub struct SettingsModal {
    pub facility_name: String,
    pub facility_name_error: Option<String>,
    pub cancelled: bool,
}

impl SettingsModal {
    /// The form, filled with the configured name.
    pub fn new(config: &AppConfig) -> (modal: SettingsModal)
        ensures
            modal.facility_name@ == config.facility_name@,
            modal.facility_name_error.is_none(),
            !modal.cancelled,
    {
        SettingsModal {
            facility_name: config.facility_name.clone(),
            facility_name_error: None,
            cancelled: false,
        }
    }

    /// The user pressed OK. Returns whether the form closes: it does unless
    /// the name is too long, in which case the error says so.
    pub fn press_ok(&mut self) -> (close: bool)
        ensures
            close == (byte_len(old(self).facility_name@) <= NAME_MAX_LENGTH),
            final(self).facility_name == old(self).facility_name,
            final(self).cancelled == old(self).cancelled,
            text_view(final(self).facility_name_error) == (if close {
                text_view(old(self).facility_name_error)
            } else {
                Some(too_long(NAME_MAX_LENGTH))
            }),
    {
        !filter_length(self.facility_name.as_str(), NAME_MAX_LENGTH, &mut self.facility_name_error)
    }

    /// The user pressed Cancel. Returns whether the form closes: it does,
    /// and it is marked as cancelled.
    pub fn press_cancel(&mut self) -> (close: bool)
        ensures
            close,
            final(self).cancelled,
            final(self).facility_name == old(self).facility_name,
            final(self).facility_name_error == old(self).facility_name_error,
    {
        self.cancelled = true;
        true
    }

    /// Takes the name over into the configuration, without the blank space
    /// at its ends, unless the form was cancelled. Returns whether the
    /// configuration is to be stored.
    pub fn apply_to(&self, config: &mut AppConfig) -> (store: bool)
        ensures
            store == !self.cancelled,
            final(config).facility_name@ == (if self.cancelled {
                old(config).facility_name@
            } else {
                trimmed(self.facility_name@)
            }),
            final(config).turso_db == old(config).turso_db,
            final(config).client_id == old(config).client_id,
            final(config).auth_token == old(config).auth_token,
    {
        if self.cancelled {
            false
        } else {
            config.facility_name = trim(self.facility_name.as_str()).to_string();
            true
        }
    }
}

/// The form in which the receptionist signs a record in.
#[derive(Debug, Clone, PartialEq, Eq)]
pub struct SignInModal<I: Copy> {
    pub receptionist: String,
    pub receptionist_error: Option<String>,
    pub record_id: I,
}

impl<I: Copy> SignInModal<I> {
    /// The form for the record of this id, empty.
    pub fn new(id: I) -> (modal: SignInModal<I>)
        ensures
            modal.receptionist@ == Seq::<char>::empty(),
            modal.receptionist_error.is_none(),
            modal.record_id == id,
    {
        SignInModal { receptionist: String::new(), receptionist_error: None, record_id: id }
    }

    /// The user pressed Sign In. Checks the receptionist's name, leaves the
    /// error beside it, and returns whether the entry is valid: then the
    /// record is to be signed in under this name and the form closes.
    pub fn press_sign_in(&mut self) -> (valid: bool)
        ensures
            text_view(final(self).receptionist_error) == name_error(
                old(self).receptionist@,
                NAME_MAX_LENGTH,
            ),
            valid == final(self).receptionist_error.is_none(),
            final(self).receptionist == old(self).receptionist,
            final(self).record_id == old(self).record_id,
    {
        self.receptionist_error = check_name(self.receptionist.as_str(), NAME_MAX_LENGTH);
        self.receptionist_error.is_none()
    }

    /// The user pressed Cancel. Returns whether the form closes: it does.
    pub fn press_cancel(&self) -> (close: bool)
        ensures
            close,
    {
        true
    }
}

/// The form in which the user picks the kind of records to export.
#[derive(Debug, Clone, PartialEq, Eq)]
pub struct ExportModal {
    pub record_type: RecordType,
}

impl Default for ExportModal {
    fn default() -> (modal: ExportModal)
        ensures
            modal.record_type == RecordType::Key,
    {
        ExportModal { record_type: RecordType::Key }
    }
}

impl RecordType {
    /// The kind's name in lower case.
    pub open spec fn lower_name(self) -> Seq<char> {
        match self {
            RecordType::Key => "key"@,
            RecordType::Parcel => "parcel"@,
            RecordType::Game => "game"@,
            RecordType::Item => "item"@,
        }
    }
}

impl ExportModal {
    /// The file name that the save dialog proposes: the kind in lower case,
    /// `_records_`, the time as the caller wrote it, and `.csv`.
    pub fn file_name(&self, time: &str) -> (name: String)
        ensures
            name@ == self.record_type.lower_name() + "_records_"@ + time@ + ".csv"@,
    {
        let mut name = String::new();
        match self.record_type {
            RecordType::Key => name.append("key"),
            RecordType::Parcel => name.append("parcel"),
            RecordType::Game => name.append("game"),
            RecordType::Item => name.append("item"),
        }
        name.append("_records_");
        name.append(time);
        name.append(".csv");
        assert(name@ =~= self.record_type.lower_name() + "_records_"@ + time@ + ".csv"@);
        name
    }

    /// The user pressed Export. Returns the kind to export; the form closes.
    pub fn press_export(&self) -> (kind: RecordType)
        ensures
            kind == self.record_type,
    {
        self.record_type
    }
}

} // verus!
