//! The four tables of records: which page they show, which note is being
//! edited, which of their forms is open.

use vstd::prelude::*;
use crate::modal::SignInModal;
use crate::records::{last_page, max_page, Page};
use crate::sign::{GameSignModal, ItemSignModal, KeySignModal, ParcelSignModal};

verus! {

/// The buttons that turn the pages of a table.
#[derive(Debug, Clone, Copy, PartialEq, Eq, Structural)]
pub enum PageButton {
    /// `<<`: to the first page.
    First,
    /// `<`: one page back.
    Previous,
    /// `>`: one page on.
    Next,
    /// `>>`: to the last page.
    Last,
}

/// Whether a button can be pressed on page `number` of a table whose last
/// page is `last`: the two that lead on, before the last page; the two that
/// lead back, behind the first.
pub open spec fn button_enabled(button: PageButton, number: int, last: int) -> bool {
    match button {
        PageButton::First | PageButton::Previous => number > 0,
        PageButton::Next | PageButton::Last => number < last,
    }
}

/// The number of the page that a button leads to.
pub open spec fn button_target(button: PageButton, number: int, last: int) -> int {
    match button {
        PageButton::First => 0,
        PageButton::Previous => number - 1,
        PageButton::Next => number + 1,
        PageButton::Last => last,
    }
}

/// The page after a button was pressed, or none, on `page` of a table of
/// `count` records. A button that cannot be pressed changes nothing. The
/// last page is kept as "the last page", so that it stays the last when
/// records are added.
pub open spec fn turned(page: Page, count: int, pressed: Option<PageButton>) -> Page {
    let last = max_page(count);
    let number = page.number(count);
    let target = match pressed {
        Some(button) => if button_enabled(button, number, last) {
            button_target(button, number, last)
        } else {
            number
        },
        None => number,
    };
    if target >= last {
        Page::LastPage
    } else {
        Page::Page(target as i64)
    }
}

/// Whether a button can be pressed on `page` of a table of `count` records.
pub fn is_enabled(button: PageButton, page: Page, count: i64) -> (r: bool)
    requires
        count >= -98,
    ensures
        r == button_enabled(button, page.number(count as int), max_page(count as int)),
{
    let number = page.as_i64(count);
    match button {
        PageButton::First => number > 0,
        PageButton::Previous => number > 0,
        PageButton::Next => number < last_page(count),
        PageButton::Last => number < last_page(count),
    }
}

/// The page after a button was pressed, or none.
pub fn pagination(page: Page, count: i64, pressed: Option<PageButton>) -> (next: Page)
    requires
        count >= -98,
    ensures
        next == turned(page, count as int, pressed),
{
    let last = last_page(count);
    let number = page.as_i64(count);
    let target = match pressed {
        Some(PageButton::First) => if number > 0 {
            0
        } else {
            number
        },
        Some(PageButton::Previous) => if number > 0 {
            number - 1
        } else {
            number
        },
        Some(PageButton::Next) => if number < last {
            number + 1
        } else {
            number
        },
        Some(PageButton::Last) => if number < last {
            last
        } else {
            number
        },
        None => number,
    };
    if target >= last {
        Page::LastPage
    } else {
        Page::Page(target)
    }
}

/// A note under edit: the record's id and the text as typed so far.
#[derive(Debug, Clone, PartialEq, Eq)]
pub struct NoteDraft {
    pub record_id: i64,
    pub text: String,
}

/// Whether the note of this record is under edit.
pub fn is_editing(current: &Option<NoteDraft>, record_id: i64) -> (r: bool)
    ensures
        r == (current.is_some() && current.unwrap().record_id == record_id),
{
    match current {
        Some(draft) => draft.record_id == record_id,
        None => false,
    }
}

/// The user pressed the pencil beside a record's note. The note goes under
/// edit, starting from its text; a note that was under edit until now is
/// returned, to be stored.
pub fn begin_note(current: &mut Option<NoteDraft>, record_id: i64, notes: &str) -> (store: Option<
    NoteDraft,
>)
    ensures
        store == *old(current),
        final(current).is_some(),
        final(current).unwrap().record_id == record_id,
        final(current).unwrap().text@ == notes@,
{
    let mut draft = Some(NoteDraft { record_id, text: notes.to_string() });
    core::mem::swap(current, &mut draft);
    draft
}

/// The note under edit lost the user's attention: it is returned, to be
/// stored, and no note is under edit any more.
pub fn end_note(current: &mut Option<NoteDraft>) -> (store: Option<NoteDraft>)
    ensures
        store == *old(current),
        final(current).is_none(),
{
    let mut none: Option<NoteDraft> = None;
    core::mem::swap(current, &mut none);
    none
}

/// The first note of a frame to be stored wins: `found` unless one was
/// found before.
pub fn first_update(before: Option<NoteDraft>, found: Option<NoteDraft>) -> (r: Option<NoteDraft>)
    ensures
        r == (if before.is_some() { before } else { found }),
{
    if before.is_some() {
        before
    } else {
        found
    }
}

/// The table of keys.
#[derive(Debug, Clone, PartialEq, Eq)]
pub struct KeyPanel {
    pub page: Page,
    pub key_sign_modal: Option<KeySignModal>,
    pub key_sign_in_modal: Option<SignInModal<i64>>,
    pub current_notes: Option<NoteDraft>,
}

impl Default for KeyPanel {
    /// The table on its last page, with no form open and no note under
    /// edit.
    fn default() -> (panel: KeyPanel)
        ensures
            panel.page == Page::LastPage,
            panel.key_sign_modal.is_none(),
            panel.key_sign_in_modal.is_none(),
            panel.current_notes.is_none(),
    {
        KeyPanel {
            page: Page::LastPage,
            key_sign_modal: None,
            key_sign_in_modal: None,
            current_notes: None,
        }
    }
}

impl KeyPanel {
    /// Turns the page as the pressed button says and returns the page to
    /// show.
    pub fn turn_page(&mut self, count: i64, pressed: Option<PageButton>) -> (page: Page)
        requires
            count >= -98,
        ensures
            page == turned(old(self).page, count as int, pressed),
            final(self).page == page,
            final(self).key_sign_modal == old(self).key_sign_modal,
            final(self).key_sign_in_modal == old(self).key_sign_in_modal,
            final(self).current_notes == old(self).current_notes,
    {
        self.page = pagination(self.page, count, pressed);
        self.page
    }

    /// The user pressed Sign Out Key: an empty form opens.
    pub fn open_sign_out(&mut self)
        ensures
            final(self).key_sign_modal.is_some(),
            final(self).page == old(self).page,
            final(self).key_sign_in_modal == old(self).key_sign_in_modal,
            final(self).current_notes == old(self).current_notes,
    {
        self.key_sign_modal = Some(KeySignModal::default());
    }

    /// The user pressed Sign In beside a key that is out: the form for this
    /// record opens.
    pub fn open_sign_in(&mut self, record_id: i64)
        ensures
            final(self).key_sign_in_modal.is_some(),
            final(self).key_sign_in_modal.unwrap().record_id == record_id,
            final(self).key_sign_in_modal.unwrap().receptionist@.len() == 0,
            final(self).key_sign_in_modal.unwrap().receptionist_error.is_none(),
            final(self).page == old(self).page,
            final(self).key_sign_modal == old(self).key_sign_modal,
            final(self).current_notes == old(self).current_notes,
    {
        self.key_sign_in_modal = Some(SignInModal::new(record_id));
    }
}

/// The table of parcels.
#[derive(Debug, Clone, PartialEq, Eq)]
pub struct ParcelPanel {
    pub page: Page,
    /// The parcel whose signing out waits for the user's confirmation.
    pub record_confirm: Option<i64>,
    pub parcel_sign_modal: Option<ParcelSignModal>,
    pub current_notes: Option<NoteDraft>,
}

impl Default for ParcelPanel {
    /// The table on its last page, with no form open, no note under edit
    /// and no signing out under way.
    fn default() -> (panel: ParcelPanel)
        ensures
            panel.page == Page::LastPage,
            panel.record_confirm.is_none(),
            panel.parcel_sign_modal.is_none(),
            panel.current_notes.is_none(),
    {
        ParcelPanel {
            page: Page::LastPage,
            record_confirm: None,
            parcel_sign_modal: None,
            current_notes: None,
        }
    }
}

/// The buttons beside a parcel that has not been signed out.
#[derive(Debug, Clone, Copy, PartialEq, Eq, Structural)]
pub enum ParcelButton {
    SignOut,
    Confirm,
    Cancel,
}

impl ParcelPanel {
    /// Turns the page as the pressed button says and returns the page to
    /// show.
    pub fn turn_page(&mut self, count: i64, pressed: Option<PageButton>) -> (page: Page)
        requires
            count >= -98,
        ensures
            page == turned(old(self).page, count as int, pressed),
            final(self).page == page,
            final(self).record_confirm == old(self).record_confirm,
            final(self).parcel_sign_modal == old(self).parcel_sign_modal,
            final(self).current_notes == old(self).current_notes,
    {
        self.page = pagination(self.page, count, pressed);
        self.page
    }

    /// The user pressed Sign In Parcel: an empty form opens.
    pub fn open_sign_in(&mut self)
        ensures
            final(self).parcel_sign_modal.is_some(),
            final(self).page == old(self).page,
            final(self).record_confirm == old(self).record_confirm,
            final(self).current_notes == old(self).current_notes,
    {
        self.parcel_sign_modal = Some(ParcelSignModal::default());
    }

    /// Whether the parcel of this id waits for confirmation, so that
    /// Confirm and Cancel stand beside it in place of Sign Out.
    pub fn awaits_confirmation(&self, record_id: i64) -> (r: bool)
        ensures
            r == (self.record_confirm == Some(record_id)),
    {
        match self.record_confirm {
            Some(id) => id == record_id,
            None => false,
        }
    }

    /// The parcel that waits for confirmation after a button beside the
    /// parcel `record_id` was pressed, and the parcel to sign out now, if
    /// any. Sign Out asks for confirmation; Confirm signs the parcel out if it
    /// is the one that waited; Cancel calls the signing out off.
    pub open spec fn pressed(waiting: Option<i64>, record_id: i64, button: ParcelButton) -> (
        Option<i64>,
        Option<i64>,
    ) {
        match button {
            ParcelButton::SignOut => if waiting == Some(record_id) {
                (waiting, None)
            } else {
                (Some(record_id), None)
            },
            ParcelButton::Confirm => if waiting == Some(record_id) {
                (None, Some(record_id))
            } else {
                (waiting, None)
            },
            ParcelButton::Cancel => if waiting == Some(record_id) {
                (None, None)
            } else {
                (waiting, None)
            },
        }
    }

    /// The user pressed a button beside the parcel `record_id`. Returns the
    /// parcel to sign out now, if any.
    pub fn press(&mut self, record_id: i64, button: ParcelButton) -> (sign_out: Option<i64>)
        ensures
            final(self).record_confirm == Self::pressed(
                old(self).record_confirm,
                record_id,
                button,
            ).0,
            sign_out == Self::pressed(old(self).record_confirm, record_id, button).1,
            final(self).page == old(self).page,
            final(self).parcel_sign_modal == old(self).parcel_sign_modal,
            final(self).current_notes == old(self).current_notes,
    {
        let waits = self.awaits_confirmation(record_id);
        match button {
            ParcelButton::SignOut => {
                if !waits {
                    self.record_confirm = Some(record_id);
                }
                None
            },
            ParcelButton::Confirm => {
                if waits {
                    self.record_confirm = None;
                    Some(record_id)
                } else {
                    None
                }
            },
            ParcelButton::Cancel => {
                if waits {
                    self.record_confirm = None;
                }
                None
            },
        }
    }

    /// The user clicked elsewhere while the parcel `record_id` waited for
    /// confirmation: the signing out is called off.
    pub fn clicked_elsewhere(&mut self, record_id: i64)
        ensures
            final(self).record_confirm == (if old(self).record_confirm == Some(record_id) {
                None
            } else {
                old(self).record_confirm
            }),
            final(self).page == old(self).page,
            final(self).parcel_sign_modal == old(self).parcel_sign_modal,
            final(self).current_notes == old(self).current_notes,
    {
        if self.awaits_confirmation(record_id) {
            self.record_confirm = None;
        }
    }
}

/// The table of games.
#[derive(Debug, Clone, PartialEq, Eq)]
pub struct GamePanel {
    pub page: Page,
    pub game_sign_modal: Option<GameSignModal>,
    pub game_sign_in_modal: Option<SignInModal<i64>>,
    pub current_notes: Option<NoteDraft>,
}

impl Default for GamePanel {
    /// The table on its last page, with no form open and no note under
    /// edit.
    fn default() -> (panel: GamePanel)
        ensures
            panel.page == Page::LastPage,
            panel.game_sign_modal.is_none(),
            panel.game_sign_in_modal.is_none(),
            panel.current_notes.is_none(),
    {
        GamePanel {
            page: Page::LastPage,
            game_sign_modal: None,
            game_sign_in_modal: None,
            current_notes: None,
        }
    }
}

impl GamePanel {
    /// Turns the page as the pressed button says and returns the page to
    /// show.
    pub fn turn_page(&mut self, count: i64, pressed: Option<PageButton>) -> (page: Page)
        requires
            count >= -98,
        ensures
            page == turned(old(self).page, count as int, pressed),
            final(self).page == page,
            final(self).game_sign_modal == old(self).game_sign_modal,
            final(self).game_sign_in_modal == old(self).game_sign_in_modal,
            final(self).current_notes == old(self).current_notes,
    {
        self.page = pagination(self.page, count, pressed);
        self.page
    }

    /// The user pressed Sign Out Game: an empty form for one game opens.
    pub fn open_sign_out(&mut self)
        ensures
            final(self).game_sign_modal.is_some(),
            final(self).game_sign_modal.unwrap().quantity == 1,
            final(self).page == old(self).page,
            final(self).game_sign_in_modal == old(self).game_sign_in_modal,
            final(self).current_notes == old(self).current_notes,
    {
        self.game_sign_modal = Some(GameSignModal::default());
    }

    /// The user pressed Sign In beside a game that is out: the form for
    /// this record opens.
    pub fn open_sign_in(&mut self, record_id: i64)
        ensures
            final(self).game_sign_in_modal.is_some(),
            final(self).game_sign_in_modal.unwrap().record_id == record_id,
            final(self).game_sign_in_modal.unwrap().receptionist@.len() == 0,
            final(self).game_sign_in_modal.unwrap().receptionist_error.is_none(),
            final(self).page == old(self).page,
            final(self).game_sign_modal == old(self).game_sign_modal,
            final(self).current_notes == old(self).current_notes,
    {
        self.game_sign_in_modal = Some(SignInModal::new(record_id));
    }
}

/// The table of items.
#[derive(Debug, Clone, PartialEq, Eq)]
pub struct ItemPanel {
    pub page: Page,
    pub item_sign_modal: Option<ItemSignModal>,
    pub current_notes: Option<NoteDraft>,
}

impl Default for ItemPanel {
    /// The table on its last page, with no form open and no note under
    /// edit.
    fn default() -> (panel: ItemPanel)
        ensures
            panel.page == Page::LastPage,
            panel.item_sign_modal.is_none(),
            panel.current_notes.is_none(),
    {
        ItemPanel { page: Page::LastPage, item_sign_modal: None, current_notes: None }
    }
}

impl ItemPanel {
    /// Turns the page as the pressed button says and returns the page to
    /// show.
    pub fn turn_page(&mut self, count: i64, pressed: Option<PageButton>) -> (page: Page)
        requires
            count >= -98,
        ensures
            page == turned(old(self).page, count as int, pressed),
            final(self).page == page,
            final(self).item_sign_modal == old(self).item_sign_modal,
            final(self).current_notes == old(self).current_notes,
    {
        self.page = pagination(self.page, count, pressed);
        self.page
    }

    /// The user pressed Sign Out Item: an empty form for one item opens.
    pub fn open_sign_out(&mut self)
        ensures
            final(self).item_sign_modal.is_some(),
            final(self).item_sign_modal.unwrap().quantity == 1,
            final(self).page == old(self).page,
            final(self).current_notes == old(self).current_notes,
    {
        self.item_sign_modal = Some(ItemSignModal::default());
    }
}

} // verus!
