//! The forms in which keys, games and items are signed out and parcels are
//! signed in: what they hold, what their buttons decide, and the record that
//! a valid entry makes.

use vstd::prelude::*;
use crate::config::{MAX_QUANTITY, NAME_MAX_LENGTH};
use crate::filters::{
    check_name, check_notes, check_number, check_plain_name, check_required, name_error,
    notes_error, number_field_error, plain_name_error, required_error, ERROR_REQUIRED,
};
use crate::quantity::{held, hold, most_left, most_of, read_quantity, typed_quantity};
use crate::records::{NewGameRecord, NewItemRecord, NewKeyRecord, NewParcelRecord};
use crate::text::{
    byte_len, byte_length, decimal, i64_text, push_decimal, signed_decimal, text_view, trim, trimmed,
};

verus! {

pub const ERROR_OUT_OF_STOCK: &'static str = "Not enough of this game in stock.";

/// The error beside a key that is signed out already, given the time since
/// when, as the caller wrote it.
pub open spec fn already_out(since: Seq<char>) -> Seq<char> {
    "Key already signed out on "@ + since + "."@
}

/// The form in which a key is signed out.
#[derive(Debug, Clone, PartialEq, Eq)]
pub struct KeySignModal {
    pub key: String,
    pub key_error: Option<String>,
    pub student_name: String,
    pub student_name_error: Option<String>,
    pub student_number: String,
    pub student_number_error: Option<String>,
    pub notes: String,
    pub notes_error: Option<String>,
}

impl Default for KeySignModal {
    /// An empty form.
    fn default() -> (modal: KeySignModal)
        ensures
            modal.key@.len() == 0 && modal.student_name@.len() == 0 && modal.student_number@.len()
                == 0 && modal.notes@.len() == 0,
            modal.key_error.is_none() && modal.student_name_error.is_none()
                && modal.student_number_error.is_none() && modal.notes_error.is_none(),
    {
        KeySignModal {
            key: String::new(),
            key_error: None,
            student_name: String::new(),
            student_name_error: None,
            student_number: String::new(),
            student_number_error: None,
            notes: String::new(),
            notes_error: None,
        }
    }
}

impl KeySignModal {
    /// The user pressed Sign Out. `signed_out_since` tells since when the
    /// chosen key is out, if it is. Checks every field, leaves the errors
    /// beside the fields, and returns whether the entry is valid: then the
    /// record is to be added and the form closes.
    pub fn press_sign_out(&mut self, signed_out_since: Option<&str>) -> (valid: bool)
        ensures
            text_view(final(self).key_error) == (match signed_out_since {
                Some(since) => Some(already_out(since@)),
                None => required_error(old(self).key@),
            }),
            text_view(final(self).student_name_error) == name_error(
                old(self).student_name@,
                NAME_MAX_LENGTH,
            ),
            text_view(final(self).student_number_error) == number_field_error(
                old(self).student_number@,
            ),
            text_view(final(self).notes_error) == notes_error(old(self).notes@, NAME_MAX_LENGTH),
            valid == (final(self).key_error.is_none() && final(self).student_name_error.is_none()
                && final(self).student_number_error.is_none() && final(self).notes_error.is_none()),
            final(self).key == old(self).key,
            final(self).student_name == old(self).student_name,
            final(self).student_number == old(self).student_number,
            final(self).notes == old(self).notes,
    {
        self.key_error = check_required(self.key.as_str());
        match signed_out_since {
            Some(since) => {
                let mut text = String::new();
                text.append("Key already signed out on ");
                text.append(since);
                text.append(".");
                assert(text@ =~= already_out(since@));
                self.key_error = Some(text);
            },
            None => {},
        }
        self.student_name_error = check_name(self.student_name.as_str(), NAME_MAX_LENGTH);
        self.student_number_error = check_number(self.student_number.as_str());
        self.notes_error = check_notes(self.notes.as_str(), NAME_MAX_LENGTH);
        self.key_error.is_none() && self.student_name_error.is_none()
            && self.student_number_error.is_none() && self.notes_error.is_none()
    }

    /// The record that the entry makes, as typed.
    pub fn record(&self) -> (record: NewKeyRecord<'_>)
        ensures
            record.key@ == self.key@,
            record.student_name@ == self.student_name@,
            record.student_number@ == self.student_number@,
            record.notes@ == self.notes@,
    {
        NewKeyRecord {
            key: self.key.as_str(),
            student_name: self.student_name.as_str(),
            student_number: self.student_number.as_str(),
            notes: self.notes.as_str(),
        }
    }
}

/// The form in which a parcel is signed in.
#[derive(Debug, Clone, PartialEq, Eq)]
pub struct ParcelSignModal {
    pub parcel_desc: String,
    pub parcel_desc_error: Option<String>,
    pub student_name: String,
    pub student_name_error: Option<String>,
    pub receptionist: String,
    pub receptionist_error: Option<String>,
    pub notes: String,
    pub notes_error: Option<String>,
}

impl Default for ParcelSignModal {
    /// An empty form.
    fn default() -> (modal: ParcelSignModal)
        ensures
            modal.parcel_desc@.len() == 0 && modal.student_name@.len() == 0
                && modal.receptionist@.len() == 0 && modal.notes@.len() == 0,
            modal.parcel_desc_error.is_none() && modal.student_name_error.is_none()
                && modal.receptionist_error.is_none() && modal.notes_error.is_none(),
    {
        ParcelSignModal {
            parcel_desc: String::new(),
            parcel_desc_error: None,
            student_name: String::new(),
            student_name_error: None,
            receptionist: String::new(),
            receptionist_error: None,
            notes: String::new(),
            notes_error: None,
        }
    }
}

impl ParcelSignModal {
    /// The user pressed Sign In. Checks every field, leaves the errors
    /// beside the fields, and returns whether the entry is valid: then the
    /// record is to be added and the form closes.
    pub fn press_sign_in(&mut self) -> (valid: bool)
        ensures
            text_view(final(self).parcel_desc_error) == name_error(
                old(self).parcel_desc@,
                NAME_MAX_LENGTH,
            ),
            text_view(final(self).student_name_error) == name_error(
                old(self).student_name@,
                NAME_MAX_LENGTH,
            ),
            text_view(final(self).receptionist_error) == name_error(
                old(self).receptionist@,
                NAME_MAX_LENGTH,
            ),
            text_view(final(self).notes_error) == notes_error(old(self).notes@, NAME_MAX_LENGTH),
            valid == (final(self).parcel_desc_error.is_none()
                && final(self).student_name_error.is_none()
                && final(self).receptionist_error.is_none()
                && final(self).notes_error.is_none()),
            final(self).parcel_desc == old(self).parcel_desc,
            final(self).student_name == old(self).student_name,
            final(self).receptionist == old(self).receptionist,
            final(self).notes == old(self).notes,
    {
        self.parcel_desc_error = check_name(self.parcel_desc.as_str(), NAME_MAX_LENGTH);
        self.student_name_error = check_name(self.student_name.as_str(), NAME_MAX_LENGTH);
        self.receptionist_error = check_name(self.receptionist.as_str(), NAME_MAX_LENGTH);
        self.notes_error = check_notes(self.notes.as_str(), NAME_MAX_LENGTH);
        self.parcel_desc_error.is_none() && self.student_name_error.is_none()
            && self.receptionist_error.is_none() && self.notes_error.is_none()
    }

    /// The record that the entry makes, as typed.
    pub fn record(&self) -> (record: NewParcelRecord<'_>)
        ensures
            record.parcel_desc@ == self.parcel_desc@,
            record.student_name@ == self.student_name@,
            record.receptionist@ == self.receptionist@,
            record.notes@ == self.notes@,
    {
        NewParcelRecord {
            parcel_desc: self.parcel_desc.as_str(),
            student_name: self.student_name.as_str(),
            receptionist: self.receptionist.as_str(),
            notes: self.notes.as_str(),
        }
    }
}

/// What is known of the chosen game: how many the residence owns and how
/// many are out.
#[derive(Debug, Clone, Copy, PartialEq, Eq, Structural)]
pub struct Stock {
    pub owned: i64,
    pub already_out: i64,
}

/// The most of a game that can be signed out: what is left of its stock,
/// one at least; one where the game is not known.
pub open spec fn most_in_stock(stock: Option<Stock>) -> int {
    match stock {
        Some(s) => most_of(s.owned as int, s.already_out as int),
        None => 1,
    }
}

/// The most of a game that can be signed out.
pub fn most_to_sign_out(stock: Option<Stock>) -> (most: i64)
    ensures
        most == most_in_stock(stock),
        most >= 1,
{
    match stock {
        Some(s) => most_left(s.owned, s.already_out),
        None => 1,
    }
}

/// The form in which a game is signed out.
#[derive(Debug, Clone, PartialEq, Eq)]
pub struct GameSignModal {
    pub game: String,
    pub game_error: Option<String>,
    pub quantity: i64,
    pub quantity_str: String,
    pub quantity_error: Option<String>,
    pub student_name: String,
    pub student_name_error: Option<String>,
    pub student_number: String,
    pub student_number_error: Option<String>,
    pub notes: String,
    pub notes_error: Option<String>,
}

impl Default for GameSignModal {
    /// An empty form for one game.
    fn default() -> (modal: GameSignModal)
        ensures
            modal.quantity == 1,
            modal.quantity_str@ == signed_decimal(1),
            modal.game@.len() == 0 && modal.student_name@.len() == 0 && modal.student_number@.len()
                == 0 && modal.notes@.len() == 0,
            modal.game_error.is_none() && modal.quantity_error.is_none()
                && modal.student_name_error.is_none() && modal.student_number_error.is_none()
                && modal.notes_error.is_none(),
    {
        GameSignModal {
            game: String::new(),
            game_error: None,
            quantity: 1,
            quantity_str: i64_text(1),
            quantity_error: None,
            student_name: String::new(),
            student_name_error: None,
            student_number: String::new(),
            student_number_error: None,
            notes: String::new(),
            notes_error: None,
        }
    }
}

impl GameSignModal {
    /// What the form is like after its quantity became `quantity`, held
    /// within the stock: the number and its text are new, all else is as it
    /// was.
    pub open spec fn with_quantity(self, quantity: int, stock: Option<Stock>, after: GameSignModal) -> bool {
        &&& after.quantity == held(quantity, most_in_stock(stock))
        &&& after.quantity_str@ == signed_decimal(after.quantity as int)
        &&& after.game == self.game
        &&& after.game_error == self.game_error
        &&& after.quantity_error == self.quantity_error
        &&& after.student_name == self.student_name
        &&& after.student_name_error == self.student_name_error
        &&& after.student_number == self.student_number
        &&& after.student_number_error == self.student_number_error
        &&& after.notes == self.notes
        &&& after.notes_error == self.notes_error
    }

    /// Sets the quantity, held within the stock, and writes it into the
    /// field.
    fn set_quantity(&mut self, quantity: i64, stock: Option<Stock>)
        ensures
            old(self).with_quantity(quantity as int, stock, *final(self)),
    {
        self.quantity = hold(quantity, most_to_sign_out(stock));
        self.quantity_str = i64_text(self.quantity);
    }

    /// The user pressed `+`: one more, if the stock has it.
    pub fn press_plus(&mut self, stock: Option<Stock>)
        requires
            old(self).quantity < i64::MAX,
        ensures
            old(self).with_quantity(old(self).quantity + 1, stock, *final(self)),
    {
        let quantity = self.quantity + 1;
        self.set_quantity(quantity, stock);
    }

    /// The user pressed `−`: one less, but one at least.
    pub fn press_minus(&mut self, stock: Option<Stock>)
        requires
            old(self).quantity > i64::MIN,
        ensures
            old(self).with_quantity(old(self).quantity - 1, stock, *final(self)),
    {
        let quantity = self.quantity - 1;
        self.set_quantity(quantity, stock);
    }

    /// The user left the quantity field: the quantity is what the field's
    /// digits write, held within the stock.
    pub fn quantity_typed(&mut self, stock: Option<Stock>)
        ensures
            old(self).with_quantity(typed_quantity(old(self).quantity_str@), stock, *final(self)),
    {
        let quantity = read_quantity(self.quantity_str.as_str());
        self.set_quantity(quantity, stock);
    }

    /// The error beside the quantity: none is left of a known game.
    pub open spec fn stock_error(stock: Option<Stock>) -> Option<Seq<char>> {
        match stock {
            Some(s) => if s.owned - s.already_out <= 0 {
                Some(ERROR_OUT_OF_STOCK@)
            } else {
                None
            },
            None => None,
        }
    }

    /// The user pressed Sign Out. `stock` tells what is known of the chosen
    /// game. Checks every field, leaves the errors beside the fields, and
    /// returns whether the entry is valid: then the record is to be added and
    /// the form closes.
    pub fn press_sign_out(&mut self, stock: Option<Stock>) -> (valid: bool)
        ensures
            text_view(final(self).game_error) == plain_name_error(old(self).game@, NAME_MAX_LENGTH),
            text_view(final(self).quantity_error) == Self::stock_error(stock),
            text_view(final(self).student_name_error) == name_error(
                old(self).student_name@,
                NAME_MAX_LENGTH,
            ),
            text_view(final(self).student_number_error) == number_field_error(
                old(self).student_number@,
            ),
            text_view(final(self).notes_error) == notes_error(old(self).notes@, NAME_MAX_LENGTH),
            valid == (final(self).game_error.is_none() && final(self).quantity_error.is_none()
                && final(self).student_name_error.is_none()
                && final(self).student_number_error.is_none()
                && final(self).notes_error.is_none()),
            final(self).game == old(self).game,
            final(self).quantity == old(self).quantity,
            final(self).quantity_str == old(self).quantity_str,
            final(self).student_name == old(self).student_name,
            final(self).student_number == old(self).student_number,
            final(self).notes == old(self).notes,
    {
        self.game_error = check_plain_name(self.game.as_str(), NAME_MAX_LENGTH);
        self.quantity_error = None;
        match stock {
            Some(s) => {
                if s.owned as i128 - s.already_out as i128 <= 0 {
                    self.quantity_error = Some(ERROR_OUT_OF_STOCK.to_string());
                }
            },
            None => {},
        }
        self.student_name_error = check_name(self.student_name.as_str(), NAME_MAX_LENGTH);
        self.student_number_error = check_number(self.student_number.as_str());
        self.notes_error = check_notes(self.notes.as_str(), NAME_MAX_LENGTH);
        self.game_error.is_none() && self.quantity_error.is_none()
            && self.student_name_error.is_none() && self.student_number_error.is_none()
            && self.notes_error.is_none()
    }

    /// The record that the entry makes, as typed.
    pub fn record(&self) -> (record: NewGameRecord<'_>)
        ensures
            record.game@ == self.game@,
            record.quantity == self.quantity,
            record.student_name@ == self.student_name@,
            record.student_number@ == self.student_number@,
            record.notes@ == self.notes@,
    {
        NewGameRecord {
            game: self.game.as_str(),
            quantity: self.quantity,
            student_name: self.student_name.as_str(),
            student_number: self.student_number.as_str(),
            notes: self.notes.as_str(),
        }
    }
}

/// The text of the error for a name longer than `max` bytes.
pub open spec fn name_too_long(max: usize) -> Seq<char> {
    "Name too long. (> "@ + decimal(max as nat) + " characters)"@
}

/// The text of the error for notes longer than `max` bytes.
pub open spec fn notes_too_long(max: usize) -> Seq<char> {
    "Notes too long. (> "@ + decimal(max as nat) + " characters)"@
}

/// The form in which an item is handed out.
#[derive(Debug, Clone, PartialEq, Eq)]
pub struct ItemSignModal {
    pub item: String,
    pub item_error: Option<String>,
    pub quantity: i64,
    pub quantity_str: String,
    pub quantity_error: Option<String>,
    pub student_name: String,
    pub student_name_error: Option<String>,
    pub student_number: String,
    pub student_number_error: Option<String>,
    pub receptionist: String,
    pub receptionist_error: Option<String>,
    pub notes: String,
    pub notes_error: Option<String>,
}

impl Default for ItemSignModal {
    /// An empty form for one item.
    fn default() -> (modal: ItemSignModal)
        ensures
            modal.quantity == 1,
            modal.quantity_str@ == signed_decimal(1),
            modal.item@.len() == 0 && modal.student_name@.len() == 0 && modal.student_number@.len()
                == 0 && modal.receptionist@.len() == 0 && modal.notes@.len() == 0,
            modal.item_error.is_none() && modal.quantity_error.is_none()
                && modal.student_name_error.is_none() && modal.student_number_error.is_none()
                && modal.receptionist_error.is_none() && modal.notes_error.is_none(),
    {
        ItemSignModal {
            item: String::new(),
            item_error: None,
            quantity: 1,
            quantity_str: i64_text(1),
            quantity_error: None,
            student_name: String::new(),
            student_name_error: None,
            student_number: String::new(),
            student_number_error: None,
            receptionist: String::new(),
            receptionist_error: None,
            notes: String::new(),
            notes_error: None,
        }
    }
}

impl ItemSignModal {
    /// What the form is like after its quantity became `quantity`, held
    /// between one and [`MAX_QUANTITY`]: the number and its text are new, all
    /// else is as it was.
    pub open spec fn with_quantity(self, quantity: int, after: ItemSignModal) -> bool {
        &&& after.quantity == held(quantity, MAX_QUANTITY as int)
        &&& after.quantity_str@ == signed_decimal(after.quantity as int)
        &&& after.item == self.item
        &&& after.item_error == self.item_error
        &&& after.quantity_error == self.quantity_error
        &&& after.student_name == self.student_name
        &&& after.student_name_error == self.student_name_error
        &&& after.student_number == self.student_number
        &&& after.student_number_error == self.student_number_error
        &&& after.receptionist == self.receptionist
        &&& after.receptionist_error == self.receptionist_error
        &&& after.notes == self.notes
        &&& after.notes_error == self.notes_error
    }

    /// Sets the quantity, held within the limit, and writes it into the
    /// field.
    fn set_quantity(&mut self, quantity: i64)
        ensures
            old(self).with_quantity(quantity as int, *final(self)),
    {
        self.quantity = hold(quantity, MAX_QUANTITY);
        self.quantity_str = i64_text(self.quantity);
    }

    /// The user pressed `+`: one more, up to the limit.
    pub fn press_plus(&mut self)
        requires
            old(self).quantity < i64::MAX,
        ensures
            old(self).with_quantity(old(self).quantity + 1, *final(self)),
    {
        let quantity = self.quantity + 1;
        self.set_quantity(quantity);
    }

    /// The user pressed `−`: one less, but one at least.
    pub fn press_minus(&mut self)
        requires
            old(self).quantity > i64::MIN,
        ensures
            old(self).with_quantity(old(self).quantity - 1, *final(self)),
    {
        let quantity = self.quantity - 1;
        self.set_quantity(quantity);
    }

    /// The user left the quantity field: the quantity is what the field's
    /// digits write, held within the limit.
    pub fn quantity_typed(&mut self)
        ensures
            old(self).with_quantity(typed_quantity(old(self).quantity_str@), *final(self)),
    {
        let quantity = read_quantity(self.quantity_str.as_str());
        self.set_quantity(quantity);
    }

    /// The error beside the receptionist's name, blank space at its ends
    /// not counted: too long, or missing, or none.
    pub open spec fn receptionist_rule(entry: Seq<char>) -> Option<Seq<char>> {
        let value = trimmed(entry);
        if byte_len(value) > NAME_MAX_LENGTH {
            Some(name_too_long(NAME_MAX_LENGTH))
        } else if byte_len(value) == 0 {
            Some(ERROR_REQUIRED@)
        } else {
            None
        }
    }

    /// The error beside the notes, blank space at their ends not counted:
    /// too long, or none.
    pub open spec fn notes_rule(entry: Seq<char>) -> Option<Seq<char>> {
        if byte_len(trimmed(entry)) > NAME_MAX_LENGTH {
            Some(notes_too_long(NAME_MAX_LENGTH))
        } else {
            None
        }
    }

    /// The user pressed Sign Out. Checks every field, leaves the errors
    /// beside the fields, and returns whether the entry is valid: then the
    /// record is to be added and the form closes.
    pub fn press_sign_out(&mut self) -> (valid: bool)
        ensures
            text_view(final(self).item_error) == required_error(old(self).item@),
            text_view(final(self).student_name_error) == name_error(
                old(self).student_name@,
                NAME_MAX_LENGTH,
            ),
            text_view(final(self).student_number_error) == number_field_error(
                old(self).student_number@,
            ),
            text_view(final(self).receptionist_error) == Self::receptionist_rule(
                old(self).receptionist@,
            ),
            text_view(final(self).notes_error) == Self::notes_rule(old(self).notes@),
            valid == (final(self).item_error.is_none() && final(self).student_name_error.is_none()
                && final(self).student_number_error.is_none()
                && final(self).receptionist_error.is_none()
                && final(self).notes_error.is_none()),
            final(self).item == old(self).item,
            final(self).quantity == old(self).quantity,
            final(self).quantity_str == old(self).quantity_str,
            final(self).quantity_error == old(self).quantity_error,
            final(self).student_name == old(self).student_name,
            final(self).student_number == old(self).student_number,
            final(self).receptionist == old(self).receptionist,
            final(self).notes == old(self).notes,
    {
        self.item_error = check_required(self.item.as_str());
        self.student_name_error = check_name(self.student_name.as_str(), NAME_MAX_LENGTH);
        self.student_number_error = check_number(self.student_number.as_str());
        self.receptionist_error = None;
        let receptionist = trim(self.receptionist.as_str());
        if byte_length(receptionist) == 0 {
            self.receptionist_error = Some(ERROR_REQUIRED.to_string());
        }
        if byte_length(receptionist) > NAME_MAX_LENGTH {
            let mut text = String::new();
            text.append("Name too long. (> ");
            push_decimal(&mut text, NAME_MAX_LENGTH as u64);
            text.append(" characters)");
            assert(text@ =~= name_too_long(NAME_MAX_LENGTH));
            self.receptionist_error = Some(text);
        }
        self.notes_error = None;
        if byte_length(trim(self.notes.as_str())) > NAME_MAX_LENGTH {
            let mut text = String::new();
            text.append("Notes too long. (> ");
            push_decimal(&mut text, NAME_MAX_LENGTH as u64);
            text.append(" characters)");
            assert(text@ =~= notes_too_long(NAME_MAX_LENGTH));
            self.notes_error = Some(text);
        }
        self.item_error.is_none() && self.student_name_error.is_none()
            && self.student_number_error.is_none() && self.receptionist_error.is_none()
            && self.notes_error.is_none()
    }

    /// The record that the entry makes, as typed.
    pub fn record(&self) -> (record: NewItemRecord<'_>)
        ensures
            record.item@ == self.item@,
            record.quantity == self.quantity,
            record.student_name@ == self.student_name@,
            record.student_number@ == self.student_number@,
            record.receptionist@ == self.receptionist@,
            record.notes@ == self.notes@,
    {
        NewItemRecord {
            item: self.item.as_str(),
            quantity: self.quantity,
            student_name: self.student_name.as_str(),
            student_number: self.student_number.as_str(),
            receptionist: self.receptionist.as_str(),
            notes: self.notes.as_str(),
        }
    }
}

} // verus!
