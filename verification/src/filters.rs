//! The checks that the forms run on what the user typed. Each check leaves
//! an error text beside the field where the entry fails it.

use vstd::prelude::*;
use crate::config::{STAFF_NUMBER_LENGTH, STUDENT_NUMBER_LENGTH};
use crate::text::{
    byte_len, byte_length, char_is_digit, char_is_letter, chars_of, decimal, is_digit, is_i64_text,
    is_letter, push_decimal, text_view, trim, trimmed, writes_i64,
};

verus! {

pub const ERROR_REQUIRED: &'static str = "Required";

pub const ERROR_STAFF_NUMBER: &'static str = "Invalid staff number.";

pub const ERROR_STUDENT_NUMBER: &'static str = "Invalid student number.";

/// Whether a text has the shape of a student number: letters in its first
/// six places and digits behind them.
pub open spec fn student_pattern(text: Seq<char>) -> bool {
    forall|i: int|
        0 <= i < text.len() ==> (i < 6 && is_letter(#[trigger] text[i])) || (i >= 6 && is_digit(
            text[i],
        ))
}

/// The error of an entry that should be a staff or student number. An entry
/// that writes an integer is taken for a staff number and must be eight bytes
/// long. Any other entry is taken for a student number and must be nine bytes
/// long, six letters and three digits.
pub open spec fn number_error(text: Seq<char>) -> Option<Seq<char>> {
    if is_i64_text(text) {
        if byte_len(text) != STAFF_NUMBER_LENGTH {
            Some(ERROR_STAFF_NUMBER@)
        } else {
            None
        }
    } else {
        if byte_len(text) != STUDENT_NUMBER_LENGTH || !student_pattern(text) {
            Some(ERROR_STUDENT_NUMBER@)
        } else {
            None
        }
    }
}

/// The text of the error for an entry longer than `max` bytes.
pub open spec fn too_long(max: usize) -> Seq<char> {
    "Too long. (> "@ + decimal(max as nat) + " characters)"@
}

/// `found` where a check found an error, else what stood there before.
pub open spec fn noted(found: Option<Seq<char>>, before: Option<Seq<char>>) -> Option<Seq<char>> {
    match found {
        Some(e) => Some(e),
        None => before,
    }
}

/// Whether a text has the shape of a student number.
pub fn has_student_pattern(text: &str) -> (r: bool)
    ensures
        r == student_pattern(text@),
{
    let chars = chars_of(text);
    let mut i: usize = 0;
    while i < chars.len()
        invariant
            i <= chars.len(),
            chars@ == text@,
            forall|k: int|
                0 <= k < i ==> (k < 6 && is_letter(#[trigger] text@[k])) || (k >= 6 && is_digit(
                    text@[k],
                )),
        decreases chars.len() - i,
    {
        let c = chars[i];
        let fits = (i < 6 && char_is_letter(c)) || (i >= 6 && char_is_digit(c));
        if !fits {
            assert(!((i < 6 && is_letter(text@[i as int])) || (i >= 6 && is_digit(text@[i as int]))));
            return false;
        }
        i += 1;
    }
    true
}

/// Checks a staff or student number. Leaves the error, if any, in
/// `error_text`, and returns whether `error_text` holds an error then, be it
/// this one or an earlier one.
pub fn filter_student_number(student_number: &str, error_text: &mut Option<String>) -> (failed: bool)
    ensures
        text_view(*final(error_text)) == noted(
            number_error(student_number@),
            text_view(*old(error_text)),
        ),
        failed == final(error_text).is_some(),
{
    if writes_i64(student_number) {
        if byte_length(student_number) != STAFF_NUMBER_LENGTH {
            *error_text = Some(ERROR_STAFF_NUMBER.to_string());
        }
    } else {
        if byte_length(student_number) != STUDENT_NUMBER_LENGTH || !has_student_pattern(student_number) {
            *error_text = Some(ERROR_STUDENT_NUMBER.to_string());
        }
    }
    error_text.is_some()
}

/// Checks that an entry is not empty. Leaves the error in `error_text` and
/// returns whether the check failed.
pub fn filter_required(value: &str, error_text: &mut Option<String>) -> (failed: bool)
    ensures
        failed == (byte_len(value@) == 0),
        text_view(*final(error_text)) == (if failed {
            Some(ERROR_REQUIRED@)
        } else {
            text_view(*old(error_text))
        }),
{
    if byte_length(value) == 0 {
        *error_text = Some(ERROR_REQUIRED.to_string());
        true
    } else {
        false
    }
}

/// Checks that an entry is no longer than `max` bytes. Leaves the error in
/// `error_text` and returns whether the check failed.
pub fn filter_length(value: &str, max: usize, error_text: &mut Option<String>) -> (failed: bool)
    ensures
        failed == (byte_len(value@) > max),
        text_view(*final(error_text)) == (if failed {
            Some(too_long(max))
        } else {
            text_view(*old(error_text))
        }),
{
    if byte_length(value) > max {
        let mut text = String::new();
        text.append("Too long. (> ");
        push_decimal(&mut text, max as u64);
        text.append(" characters)");
        assert(text@ =~= too_long(max));
        *error_text = Some(text);
        true
    } else {
        false
    }
}

/// The error of an entry that must not be empty.
pub open spec fn required_error(entry: Seq<char>) -> Option<Seq<char>> {
    if byte_len(entry) == 0 {
        Some(ERROR_REQUIRED@)
    } else {
        None
    }
}

/// The error of an entry that must be there and no longer than `max` bytes,
/// counted as it stands: too long, or missing, or none.
pub open spec fn plain_name_error(entry: Seq<char>, max: usize) -> Option<Seq<char>> {
    if byte_len(entry) > max {
        Some(too_long(max))
    } else {
        required_error(entry)
    }
}

/// The error of an entry that must be there and no longer than `max` bytes,
/// blank space at its ends not counted.
pub open spec fn name_error(entry: Seq<char>, max: usize) -> Option<Seq<char>> {
    plain_name_error(trimmed(entry), max)
}

/// The error of an entry that must be a staff or student number, blank
/// space at its ends not counted: missing, or not such a number, or none.
pub open spec fn number_field_error(entry: Seq<char>) -> Option<Seq<char>> {
    if byte_len(trimmed(entry)) == 0 {
        Some(ERROR_REQUIRED@)
    } else {
        number_error(trimmed(entry))
    }
}

/// The error of an entry that may be empty but no longer than `max` bytes,
/// blank space at its ends not counted.
pub open spec fn notes_error(entry: Seq<char>, max: usize) -> Option<Seq<char>> {
    if byte_len(trimmed(entry)) > max {
        Some(too_long(max))
    } else {
        None
    }
}

/// Checks an entry that must not be empty. Returns the error, if any.
pub fn check_required(entry: &str) -> (error: Option<String>)
    ensures
        text_view(error) == required_error(entry@),
{
    let mut error: Option<String> = None;
    let missing = filter_required(entry, &mut error);
    error
}

/// Checks an entry that must be there and no longer than `max` bytes,
/// counted as it stands. Returns the error, if any.
pub fn check_plain_name(entry: &str, max: usize) -> (error: Option<String>)
    ensures
        text_view(error) == plain_name_error(entry@, max),
{
    let mut error: Option<String> = None;
    let missing = filter_required(entry, &mut error);
    let long = filter_length(entry, max, &mut error);
    error
}

/// Checks an entry that must be there and no longer than `max` bytes, blank
/// space at its ends not counted. Returns the error, if any.
pub fn check_name(entry: &str, max: usize) -> (error: Option<String>)
    ensures
        text_view(error) == name_error(entry@, max),
{
    check_plain_name(trim(entry), max)
}

/// Checks an entry that must be a staff or student number. Returns the
/// error, if any.
pub fn check_number(entry: &str) -> (error: Option<String>)
    ensures
        text_view(error) == number_field_error(entry@),
{
    let mut error: Option<String> = None;
    let value = trim(entry);
    // The number is checked first, so that a blank entry ends up as missing.
    let invalid = filter_student_number(value, &mut error);
    let missing = filter_required(value, &mut error);
    error
}

/// Checks an entry that may be empty but no longer than `max` bytes.
/// Returns the error, if any.
pub fn check_notes(entry: &str, max: usize) -> (error: Option<String>)
    ensures
        text_view(error) == notes_error(entry@, max),
{
    let mut error: Option<String> = None;
    let long = filter_length(trim(entry), max, &mut error);
    error
}

} // verus!
