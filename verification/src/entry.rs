//! The forms in which the kinds of keys, games and items are entered.

use vstd::prelude::*;
use crate::config::{MAX_QUANTITY, NAME_MAX_LENGTH};
use crate::filters::{check_name, name_error, ERROR_REQUIRED};
use crate::quantity::{held, hold, read_quantity, typed_quantity};
use crate::records::GameTypeRecord;
use crate::sign::name_too_long;
use crate::text::{
    byte_len, byte_length, i64_text, names_view, push_decimal, same_text, signed_decimal, text_view,
    trim, trimmed,
};

verus! {

pub const ERROR_KEY_EXISTS: &'static str = "A key with this name already exists.";

pub const ERROR_GAME_EXISTS: &'static str = "A game with this name already exists.";

pub const ERROR_ITEM_EXISTS: &'static str = "An item with this name already exists.";

/// The names of a list of games.
pub open spec fn game_names(games: Seq<GameTypeRecord>) -> Seq<Seq<char>> {
    games.map_values(|g: GameTypeRecord| g.game@)
}

/// Whether a list of names holds `name`.
pub fn holds_name(names: &Vec<String>, name: &str) -> (r: bool)
    ensures
        r == names_view(names@).contains(name@),
{
    let mut i: usize = 0;
    while i < names.len()
        invariant
            i <= names.len(),
            forall|k: int| 0 <= k < i ==> names_view(names@)[k] != name@,
        decreases names.len() - i,
    {
        if same_text(names[i].as_str(), name) {
            assert(names_view(names@)[i as int] == name@);
            return true;
        }
        i += 1;
    }
    false
}

/// Whether a list of games holds one of this name.
pub fn holds_game(games: &Vec<GameTypeRecord>, name: &str) -> (r: bool)
    ensures
        r == game_names(games@).contains(name@),
{
    let mut i: usize = 0;
    while i < games.len()
        invariant
            i <= games.len(),
            forall|k: int| 0 <= k < i ==> game_names(games@)[k] != name@,
        decreases games.len() - i,
    {
        if same_text(games[i].game.as_str(), name) {
            assert(game_names(games@)[i as int] == name@);
            return true;
        }
        i += 1;
    }
    false
}

/// The error beside a new name, blank space at its ends not counted: taken
/// already, or else whatever `otherwise` found.
pub open spec fn unless_taken(
    entry: Seq<char>,
    existing: Seq<Seq<char>>,
    taken: Seq<char>,
    otherwise: Option<Seq<char>>,
) -> Option<Seq<char>> {
    if existing.contains(trimmed(entry)) {
        Some(taken)
    } else {
        otherwise
    }
}

/// The form in which a kind of key is entered.
#[derive(Debug, Clone, PartialEq, Eq)]
pub struct KeyEntryModal {
    pub key: String,
    pub key_error: Option<String>,
}

impl Default for KeyEntryModal {
    /// An empty form.
    fn default() -> (modal: KeyEntryModal)
        ensures
            modal.key@.len() == 0,
            modal.key_error.is_none(),
    {
        KeyEntryModal { key: String::new(), key_error: None }
    }
}

impl KeyEntryModal {
    /// The error beside the key's name where it is not taken: too long, or
    /// missing, or none.
    pub open spec fn name_rule(entry: Seq<char>) -> Option<Seq<char>> {
        if byte_len(trimmed(entry)) > NAME_MAX_LENGTH {
            Some(name_too_long(NAME_MAX_LENGTH))
        } else if byte_len(trimmed(entry)) == 0 {
            Some(ERROR_REQUIRED@)
        } else {
            None
        }
    }

    /// The user pressed Add Key. `existing` are the keys entered so far.
    /// Checks the name and leaves the error beside it. Where the entry is
    /// valid, returns the name to add, as typed, and empties the field.
    pub fn press_add(&mut self, existing: &Vec<String>) -> (added: Option<String>)
        ensures
            text_view(final(self).key_error) == unless_taken(
                old(self).key@,
                names_view(existing@),
                ERROR_KEY_EXISTS@,
                Self::name_rule(old(self).key@),
            ),
            added.is_some() == final(self).key_error.is_none(),
            added.is_some() ==> added.unwrap()@ == old(self).key@ && final(self).key@.len() == 0,
            added.is_none() ==> final(self).key == old(self).key,
    {
        self.key_error = None;
        let key = trim(self.key.as_str());
        if byte_length(key) == 0 {
            self.key_error = Some(ERROR_REQUIRED.to_string());
        }
        if byte_length(key) > NAME_MAX_LENGTH {
            let mut text = String::new();
            text.append("Name too long. (> ");
            push_decimal(&mut text, NAME_MAX_LENGTH as u64);
            text.append(" characters)");
            assert(text@ =~= name_too_long(NAME_MAX_LENGTH));
            self.key_error = Some(text);
        }
        if holds_name(existing, key) {
            self.key_error = Some(ERROR_KEY_EXISTS.to_string());
        }
        if self.key_error.is_none() {
            let mut name = String::new();
            core::mem::swap(&mut self.key, &mut name);
            Some(name)
        } else {
            None
        }
    }
}

/// The form in which a kind of item is entered.
#[derive(Debug, Clone, PartialEq, Eq)]
pub struct ItemEntryModal {
    pub item: String,
    pub item_error: Option<String>,
}

impl Default for ItemEntryModal {
    /// An empty form.
    fn default() -> (modal: ItemEntryModal)
        ensures
            modal.item@.len() == 0,
            modal.item_error.is_none(),
    {
        ItemEntryModal { item: String::new(), item_error: None }
    }
}

impl ItemEntryModal {
    /// The user pressed Add Item. `existing` are the items entered so far.
    /// Checks the name and leaves the error beside it. Where the entry is
    /// valid, returns the name to add, as typed, and empties the field.
    pub fn press_add(&mut self, existing: &Vec<String>) -> (added: Option<String>)
        ensures
            text_view(final(self).item_error) == unless_taken(
                old(self).item@,
                names_view(existing@),
                ERROR_ITEM_EXISTS@,
                name_error(old(self).item@, NAME_MAX_LENGTH),
            ),
            added.is_some() == final(self).item_error.is_none(),
            added.is_some() ==> added.unwrap()@ == old(self).item@ && final(self).item@.len() == 0,
            added.is_none() ==> final(self).item == old(self).item,
    {
        self.item_error = check_name(self.item.as_str(), NAME_MAX_LENGTH);
        if holds_name(existing, trim(self.item.as_str())) {
            self.item_error = Some(ERROR_ITEM_EXISTS.to_string());
        }
        if self.item_error.is_none() {
            let mut name = String::new();
            core::mem::swap(&mut self.item, &mut name);
            Some(name)
        } else {
            None
        }
    }
}

/// The form in which a kind of game is entered, with how many of it.
#[derive(Debug, Clone, PartialEq, Eq)]
pub struct GameEntryModal {
    pub game: String,
    pub game_error: Option<String>,
    pub quantity: i64,
    pub quantity_str: String,
    pub quantity_error: Option<String>,
}

impl Default for GameEntryModal {
    /// An empty form for one game.
    fn default() -> (modal: GameEntryModal)
        ensures
            modal.game@.len() == 0,
            modal.game_error.is_none(),
            modal.quantity == 1,
            modal.quantity_str@ == signed_decimal(1),
            modal.quantity_error.is_none(),
    {
        GameEntryModal {
            game: String::new(),
            game_error: None,
            quantity: 1,
            quantity_str: i64_text(1),
            quantity_error: None,
        }
    }
}

impl GameEntryModal {
    /// What the form is like after its quantity became `quantity`, held
    /// between one and [`MAX_QUANTITY`]: the number and its text are new, all
    /// else is as it was.
    pub open spec fn with_quantity(self, quantity: int, after: GameEntryModal) -> bool {
        &&& after.quantity == held(quantity, MAX_QUANTITY as int)
        &&& after.quantity_str@ == signed_decimal(after.quantity as int)
        &&& after.game == self.game
        &&& after.game_error == self.game_error
        &&& after.quantity_error == self.quantity_error
    }

    /// Sets the quantity, held within the limit, and writes it into the
    /// field.
    fn set_quantity(&mut self, quantity: i64)
        ensures
            old(self).with_quantity(quantity as int, *final(self)),
    {
        self.quantity = hold(quantity, MAX_QUANTITY);
        self.quantity_str = i64_text(self.quantity);
    }

    /// The user pressed `+`: one more, up to the limit.
    pub fn press_plus(&mut self)
        requires
            old(self).quantity < i64::MAX,
        ensures
            old(self).with_quantity(old(self).quantity + 1, *final(self)),
    {
        let quantity = self.quantity + 1;
        self.set_quantity(quantity);
    }

    /// The user pressed `−`: one less, but one at least.
    pub fn press_minus(&mut self)
        requires
            old(self).quantity > i64::MIN,
        ensures
            old(self).with_quantity(old(self).quantity - 1, *final(self)),
    {
        let quantity = self.quantity - 1;
        self.set_quantity(quantity);
    }

    /// The user left the quantity field: the quantity is what the field's
    /// digits write, held within the limit.
    pub fn quantity_typed(&mut self)
        ensures
            old(self).with_quantity(typed_quantity(old(self).quantity_str@), *final(self)),
    {
        let quantity = read_quantity(self.quantity_str.as_str());
        self.set_quantity(quantity);
    }

    /// The quantity of an entered game after the user pressed `+` or `−`
    /// beside it: one more or one less, held between one and
    /// [`MAX_QUANTITY`].
    pub fn stepped(quantity: i64, up: bool) -> (r: i64)
        requires
            up ==> quantity < i64::MAX,
            !up ==> quantity > i64::MIN,
        ensures
            r == held(if up { quantity + 1 } else { quantity - 1 }, MAX_QUANTITY as int),
    {
        if up {
            hold(quantity + 1, MAX_QUANTITY)
        } else {
            hold(quantity - 1, MAX_QUANTITY)
        }
    }

    /// The user pressed Add Game. `existing` are the games entered so far.
    /// Checks the name and leaves the error beside it. Where the entry is
    /// valid, returns the game to add, named as typed, and resets the form
    /// to one game without a name.
    pub fn press_add(&mut self, existing: &Vec<GameTypeRecord>) -> (added: Option<GameTypeRecord>)
        ensures
            text_view(final(self).game_error) == unless_taken(
                old(self).game@,
                game_names(existing@),
                ERROR_GAME_EXISTS@,
                name_error(old(self).game@, NAME_MAX_LENGTH),
            ),
            final(self).quantity_error == old(self).quantity_error,
            added.is_some() == final(self).game_error.is_none(),
            added.is_some() ==> {
                &&& added.unwrap().game@ == old(self).game@
                &&& added.unwrap().quantity == old(self).quantity
                &&& final(self).game@.len() == 0
                &&& final(self).quantity == 1
                &&& final(self).quantity_str@ == signed_decimal(1)
            },
            added.is_none() ==> {
                &&& final(self).game == old(self).game
                &&& final(self).quantity == old(self).quantity
                &&& final(self).quantity_str == old(self).quantity_str
            },
    {
        self.game_error = check_name(self.game.as_str(), NAME_MAX_LENGTH);
        if holds_game(existing, trim(self.game.as_str())) {
            self.game_error = Some(ERROR_GAME_EXISTS.to_string());
        }
        if self.game_error.is_none() {
            let mut game = String::new();
            core::mem::swap(&mut self.game, &mut game);
            let added = GameTypeRecord { game, quantity: self.quantity };
            self.quantity = 1;
            self.quantity_str = i64_text(1);
            Some(added)
        } else {
            None
        }
    }
}

} // verus!
