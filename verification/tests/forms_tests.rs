use blackcurrant::config::{AppConfig, MAX_QUANTITY, NAME_MAX_LENGTH, PAGE_SIZE};
use blackcurrant::entry::{holds_game, holds_name, GameEntryModal, ItemEntryModal, KeyEntryModal};
use blackcurrant::modal::{
    AboutModal, AlertModal, ConfirmationModal, ExitModal, ExportFailure, ExportModal, SettingsModal,
    SignInModal,
};
use blackcurrant::panel::{
    begin_note, end_note, first_update, is_editing, is_enabled, pagination, GamePanel, ItemPanel,
    KeyPanel, NoteDraft, PageButton, ParcelButton, ParcelPanel,
};
use blackcurrant::records::{last_page, GameTypeRecord, Page, RecordType};
use blackcurrant::sign::{
    most_to_sign_out, GameSignModal, ItemSignModal, KeySignModal, ParcelSignModal, Stock,
};

fn some(text: &str) -> Option<String> {
    Some(text.to_string())
}

#[test]
fn confirmation_modal() {
    let mut modal = ConfirmationModal::new("Are you sure?", Some("It will be gone."));
    assert_eq!(modal.title, "Are you sure?");
    assert_eq!(modal.description, some("It will be gone."));
    assert!(!modal.confirmed);
    assert!(modal.press_ok());
    assert!(modal.confirmed);
    assert!(modal.press_cancel());
    assert!(!modal.confirmed);
    let plain = ConfirmationModal::new("Sure?", None);
    assert_eq!(plain.description, None);
    assert_eq!(
        ConfirmationModal::default(),
        ConfirmationModal { title: String::new(), description: None, confirmed: false }
    );
}

#[test]
fn alert_modal() {
    assert_eq!(
        AlertModal::backup_done(None),
        AlertModal { title: "Backup Successful".to_string(), description: None }
    );
    assert_eq!(
        AlertModal::backup_done(Some("disk full")),
        AlertModal {
            title: "Backup Failed".to_string(),
            description: some("Failed to backup database: disk full")
        }
    );
    assert_eq!(
        AlertModal::restore_done(None),
        AlertModal { title: "Restore Successful".to_string(), description: None }
    );
    assert_eq!(
        AlertModal::restore_done(Some("not a database")),
        AlertModal {
            title: "Restore Failed".to_string(),
            description: some("Failed to restore database: not a database")
        }
    );
    assert_eq!(
        AlertModal::export_done(None),
        AlertModal { title: "Export Successful".to_string(), description: None }
    );
    assert_eq!(
        AlertModal::export_done(Some(ExportFailure::Database)),
        AlertModal {
            title: "Export Failed".to_string(),
            description: some("An expected error occurred while accessing the database.")
        }
    );
    assert_eq!(
        AlertModal::export_done(Some(ExportFailure::Csv("bad row".to_string()))).description,
        some("Failed to export data: bad row")
    );
    assert_eq!(
        AlertModal::export_done(Some(ExportFailure::Io("denied".to_string()))).description,
        some("Failed to export data: denied")
    );
    assert!(AlertModal::new("t", None).press_ok());
    assert_eq!(AlertModal::default().title, "");
}

#[test]
fn exit_modal() {
    let mut modal = ExitModal::default();
    assert!(!modal.close_process);
    assert!(modal.press_cancel());
    assert!(!modal.close_process);
    assert!(!modal.press_yes());
    assert!(modal.close_process);

    let mut open = None;
    assert!(!ExitModal::close_requested(&mut open));
    assert_eq!(open, Some(ExitModal { close_process: false }));
    assert!(!ExitModal::close_requested(&mut open));
    open.as_mut().unwrap().press_yes();
    assert!(ExitModal::close_requested(&mut open));
    assert!(AboutModal::default().press_close());
}

#[test]
fn settings_modal() {
    let mut config = AppConfig::with_client_id("id".to_string());
    config.facility_name = "Smuts Hall".to_string();
    let mut modal = SettingsModal::new(&config);
    assert_eq!(modal.facility_name, "Smuts Hall");
    assert_eq!(modal.facility_name_error, None);
    assert!(!modal.cancelled);

    modal.facility_name = "  Kopano  ".to_string();
    assert!(modal.press_ok());
    assert!(modal.apply_to(&mut config));
    assert_eq!(config.facility_name, "Kopano");
    assert_eq!(config.client_id, "id");

    modal.facility_name = "x".repeat(NAME_MAX_LENGTH + 1);
    assert!(!modal.press_ok());
    assert_eq!(modal.facility_name_error, some("Too long. (> 512 characters)"));

    let mut modal = SettingsModal::new(&config);
    modal.facility_name = "Other".to_string();
    assert!(modal.press_cancel());
    assert!(modal.cancelled);
    assert!(!modal.apply_to(&mut config));
    assert_eq!(config.facility_name, "Kopano");
}

#[test]
fn default_config_has_a_fresh_client_id() {
    let a = AppConfig::default();
    let b = AppConfig::default();
    assert_eq!(a.facility_name, "");
    assert_eq!(a.turso_db, "");
    assert_eq!(a.auth_token, None);
    assert!(!a.has_token());
    // Hyphenated: 8-4-4-4-12 hexadecimal digits.
    assert_eq!(a.client_id.len(), 36);
    assert_eq!(a.client_id.matches('-').count(), 4);
    assert_ne!(a.client_id, b.client_id);
}

#[test]
fn sign_in_modal() {
    let mut modal = SignInModal::new(17i64);
    assert_eq!(modal.record_id, 17);
    assert_eq!(modal.receptionist, "");
    assert!(!modal.press_sign_in());
    assert_eq!(modal.receptionist_error, some("Required"));
    modal.receptionist = " Thandi ".to_string();
    assert!(modal.press_sign_in());
    assert_eq!(modal.receptionist_error, None);
    assert_eq!(modal.receptionist, " Thandi ");
    modal.receptionist = "y".repeat(600);
    assert!(!modal.press_sign_in());
    assert_eq!(modal.receptionist_error, some("Too long. (> 512 characters)"));
    assert!(modal.press_cancel());
}

#[test]
fn export_modal() {
    let mut modal = ExportModal::default();
    assert_eq!(modal.record_type, RecordType::Key);
    assert_eq!(modal.file_name("2023-08-12_10-11-12.5"), "key_records_2023-08-12_10-11-12.5.csv");
    modal.record_type = RecordType::Parcel;
    assert_eq!(modal.file_name("t"), "parcel_records_t.csv");
    modal.record_type = RecordType::Game;
    assert_eq!(modal.file_name("t"), "game_records_t.csv");
    modal.record_type = RecordType::Item;
    assert_eq!(modal.file_name("t"), "item_records_t.csv");
    assert_eq!(modal.press_export(), RecordType::Item);
}

#[test]
fn record_types() {
    assert_eq!(RecordType::default(), RecordType::Key);
    assert_eq!(
        RecordType::all(),
        vec![RecordType::Key, RecordType::Parcel, RecordType::Game, RecordType::Item]
    );
    let labels: Vec<String> = RecordType::all().iter().map(|k| k.label()).collect();
    assert_eq!(labels, vec!["Key", "Parcel", "Game", "Item"]);
}

#[test]
fn pages() {
    assert_eq!(PAGE_SIZE, 100);
    assert_eq!(Page::default(), Page::LastPage);
    assert_eq!(last_page(0), 0);
    assert_eq!(last_page(1), 0);
    assert_eq!(last_page(100), 0);
    assert_eq!(last_page(101), 1);
    assert_eq!(last_page(250), 2);
    assert_eq!(last_page(-98), 0);
    assert_eq!(Page::LastPage.as_i64(250), 2);
    assert_eq!(Page::Page(1).as_i64(250), 1);
    assert_eq!(Page::Page(7).as_i64(250), 2);
    assert_eq!(Page::Page(-3).as_i64(250), 0);
    assert_eq!(Page::Page(5).as_i64(0), 0);
    assert_eq!(Page::Page(7).clamp(250), Page::Page(2));
    assert_eq!(Page::Page(-1).clamp(250), Page::Page(0));
    assert_eq!(Page::Page(1).clamp(250), Page::Page(1));
    assert_eq!(Page::LastPage.clamp(250), Page::LastPage);
    assert_eq!(Page::Page(3).clamp(-98), Page::Page(0));
}

#[test]
fn turning_pages() {
    // 250 records: pages 0, 1 and 2.
    assert_eq!(pagination(Page::LastPage, 250, None), Page::LastPage);
    assert_eq!(pagination(Page::Page(1), 250, None), Page::Page(1));
    assert_eq!(pagination(Page::Page(2), 250, None), Page::LastPage);
    assert_eq!(pagination(Page::Page(9), 250, None), Page::LastPage);
    assert_eq!(pagination(Page::LastPage, 250, Some(PageButton::Previous)), Page::Page(1));
    assert_eq!(pagination(Page::Page(1), 250, Some(PageButton::Previous)), Page::Page(0));
    assert_eq!(pagination(Page::Page(0), 250, Some(PageButton::Previous)), Page::Page(0));
    assert_eq!(pagination(Page::LastPage, 250, Some(PageButton::First)), Page::Page(0));
    assert_eq!(pagination(Page::Page(0), 250, Some(PageButton::Next)), Page::Page(1));
    assert_eq!(pagination(Page::Page(1), 250, Some(PageButton::Next)), Page::LastPage);
    assert_eq!(pagination(Page::LastPage, 250, Some(PageButton::Next)), Page::LastPage);
    assert_eq!(pagination(Page::Page(0), 250, Some(PageButton::Last)), Page::LastPage);
    // One page only: it is the last.
    assert_eq!(pagination(Page::Page(0), 50, None), Page::LastPage);
    assert_eq!(pagination(Page::Page(0), 0, Some(PageButton::Next)), Page::LastPage);

    assert!(is_enabled(PageButton::Next, Page::Page(0), 250));
    assert!(is_enabled(PageButton::Last, Page::Page(1), 250));
    assert!(!is_enabled(PageButton::Next, Page::LastPage, 250));
    assert!(!is_enabled(PageButton::Previous, Page::Page(0), 250));
    assert!(is_enabled(PageButton::First, Page::LastPage, 250));
    assert!(!is_enabled(PageButton::First, Page::LastPage, 50));
}

#[test]
fn note_drafts() {
    let mut current: Option<NoteDraft> = None;
    assert!(!is_editing(&current, 1));
    assert_eq!(begin_note(&mut current, 1, "first"), None);
    assert!(is_editing(&current, 1));
    assert!(!is_editing(&current, 2));
    current.as_mut().unwrap().text.push_str(" edited");
    let stored = begin_note(&mut current, 2, "second");
    assert_eq!(stored, Some(NoteDraft { record_id: 1, text: "first edited".to_string() }));
    assert!(is_editing(&current, 2));
    assert_eq!(end_note(&mut current), Some(NoteDraft { record_id: 2, text: "second".to_string() }));
    assert_eq!(current, None);
    assert_eq!(end_note(&mut current), None);

    let a = NoteDraft { record_id: 1, text: "a".to_string() };
    let b = NoteDraft { record_id: 2, text: "b".to_string() };
    assert_eq!(first_update(None, Some(b.clone())), Some(b.clone()));
    assert_eq!(first_update(Some(a.clone()), Some(b)), Some(a.clone()));
    assert_eq!(first_update(Some(a.clone()), None), Some(a));
    assert_eq!(first_update(None, None), None);
}

#[test]
fn key_panel() {
    let mut panel = KeyPanel::default();
    assert_eq!(panel.page, Page::LastPage);
    assert_eq!(panel.turn_page(250, Some(PageButton::Previous)), Page::Page(1));
    assert_eq!(panel.page, Page::Page(1));
    panel.open_sign_out();
    assert_eq!(panel.key_sign_modal, Some(KeySignModal::default()));
    panel.open_sign_in(9);
    assert_eq!(panel.key_sign_in_modal, Some(SignInModal::new(9)));
    assert_eq!(panel.page, Page::Page(1));
}

#[test]
fn parcel_panel_asks_before_signing_out() {
    let mut panel = ParcelPanel::default();
    panel.open_sign_in();
    assert_eq!(panel.parcel_sign_modal, Some(ParcelSignModal::default()));
    assert!(!panel.awaits_confirmation(3));
    // Confirm and Cancel do nothing where no confirmation is awaited.
    assert_eq!(panel.press(3, ParcelButton::Confirm), None);
    assert_eq!(panel.press(3, ParcelButton::Cancel), None);
    assert_eq!(panel.record_confirm, None);
    assert_eq!(panel.press(3, ParcelButton::SignOut), None);
    assert!(panel.awaits_confirmation(3));
    assert_eq!(panel.press(4, ParcelButton::Confirm), None);
    assert!(panel.awaits_confirmation(3));
    assert_eq!(panel.press(3, ParcelButton::Confirm), Some(3));
    assert_eq!(panel.record_confirm, None);
    panel.press(3, ParcelButton::SignOut);
    assert_eq!(panel.press(3, ParcelButton::Cancel), None);
    assert_eq!(panel.record_confirm, None);
    panel.press(3, ParcelButton::SignOut);
    panel.press(5, ParcelButton::SignOut);
    assert!(panel.awaits_confirmation(5));
    panel.clicked_elsewhere(3);
    assert!(panel.awaits_confirmation(5));
    panel.clicked_elsewhere(5);
    assert_eq!(panel.record_confirm, None);
    assert_eq!(panel.turn_page(1000, Some(PageButton::First)), Page::Page(0));
}

#[test]
fn game_and_item_panels() {
    let mut games = GamePanel::default();
    games.open_sign_out();
    assert_eq!(games.game_sign_modal.as_ref().unwrap().quantity, 1);
    assert_eq!(games.game_sign_modal.as_ref().unwrap().quantity_str, "1");
    games.open_sign_in(4);
    assert_eq!(games.game_sign_in_modal.as_ref().unwrap().record_id, 4);
    assert_eq!(games.turn_page(101, Some(PageButton::First)), Page::Page(0));
    let mut items = ItemPanel::default();
    items.open_sign_out();
    assert_eq!(items.item_sign_modal, Some(ItemSignModal::default()));
    assert_eq!(items.turn_page(5, None), Page::LastPage);
}

fn valid_key_form() -> KeySignModal {
    let mut modal = KeySignModal::default();
    modal.key = "Gym".to_string();
    modal.student_name = "Anna Smith".to_string();
    modal.student_number = "SMTANN001".to_string();
    modal.notes = "back by six".to_string();
    modal
}

#[test]
fn key_sign_modal_accepts_a_valid_entry() {
    let mut modal = valid_key_form();
    assert!(modal.press_sign_out(None));
    assert_eq!(modal.key_error, None);
    assert_eq!(modal.student_name_error, None);
    assert_eq!(modal.student_number_error, None);
    assert_eq!(modal.notes_error, None);
    let record = modal.record();
    assert_eq!(record.key, "Gym");
    assert_eq!(record.student_name, "Anna Smith");
    assert_eq!(record.student_number, "SMTANN001");
    assert_eq!(record.notes, "back by six");
}

#[test]
fn key_sign_modal_reports_every_field() {
    let mut modal = KeySignModal::default();
    modal.notes = "n".repeat(513);
    assert!(!modal.press_sign_out(None));
    assert_eq!(modal.key_error, some("Required"));
    assert_eq!(modal.student_name_error, some("Required"));
    assert_eq!(modal.student_number_error, some("Required"));
    assert_eq!(modal.notes_error, some("Too long. (> 512 characters)"));
}

#[test]
fn key_sign_modal_refuses_a_key_that_is_out() {
    let mut modal = valid_key_form();
    assert!(!modal.press_sign_out(Some("12/08/2023 10:11")));
    assert_eq!(modal.key_error, some("Key already signed out on 12/08/2023 10:11."));
    assert_eq!(modal.student_name_error, None);
    // Errors of an earlier attempt are cleared by the next.
    assert!(modal.press_sign_out(None));
    assert_eq!(modal.key_error, None);
}

#[test]
fn key_sign_modal_checks_the_number() {
    let mut modal = valid_key_form();
    modal.student_number = "1234".to_string();
    assert!(!modal.press_sign_out(None));
    assert_eq!(modal.student_number_error, some("Invalid staff number."));
    modal.student_number = "SMTANN01".to_string();
    assert!(!modal.press_sign_out(None));
    assert_eq!(modal.student_number_error, some("Invalid student number."));
    modal.student_number = " 12345678 ".to_string();
    assert!(modal.press_sign_out(None));
}

#[test]
fn parcel_sign_modal() {
    let mut modal = ParcelSignModal::default();
    assert!(!modal.press_sign_in());
    assert_eq!(modal.parcel_desc_error, some("Required"));
    assert_eq!(modal.student_name_error, some("Required"));
    assert_eq!(modal.receptionist_error, some("Required"));
    assert_eq!(modal.notes_error, None);
    modal.parcel_desc = "Box".to_string();
    modal.student_name = "Anna".to_string();
    modal.receptionist = "r".repeat(513);
    assert!(!modal.press_sign_in());
    assert_eq!(modal.parcel_desc_error, None);
    assert_eq!(modal.receptionist_error, some("Too long. (> 512 characters)"));
    modal.receptionist = "Thandi".to_string();
    assert!(modal.press_sign_in());
    let record = modal.record();
    assert_eq!(
        (record.parcel_desc, record.student_name, record.receptionist, record.notes),
        ("Box", "Anna", "Thandi", "")
    );
}

#[test]
fn game_sign_modal_quantity() {
    let stock = Some(Stock { owned: 5, already_out: 2 });
    assert_eq!(most_to_sign_out(stock), 3);
    assert_eq!(most_to_sign_out(None), 1);
    assert_eq!(most_to_sign_out(Some(Stock { owned: 2, already_out: 2 })), 1);
    let mut modal = GameSignModal::default();
    assert_eq!((modal.quantity, modal.quantity_str.as_str()), (1, "1"));
    modal.press_plus(stock);
    assert_eq!((modal.quantity, modal.quantity_str.as_str()), (2, "2"));
    modal.press_plus(stock);
    modal.press_plus(stock);
    assert_eq!((modal.quantity, modal.quantity_str.as_str()), (3, "3"));
    modal.press_minus(stock);
    modal.press_minus(stock);
    modal.press_minus(stock);
    assert_eq!((modal.quantity, modal.quantity_str.as_str()), (1, "1"));
    modal.quantity_str = "2 games".to_string();
    modal.quantity_typed(stock);
    assert_eq!((modal.quantity, modal.quantity_str.as_str()), (2, "2"));
    modal.quantity_str = "70".to_string();
    modal.quantity_typed(stock);
    assert_eq!((modal.quantity, modal.quantity_str.as_str()), (3, "3"));
    modal.quantity_str = "many".to_string();
    modal.quantity_typed(stock);
    assert_eq!(modal.quantity, 1);
    modal.press_plus(None);
    assert_eq!(modal.quantity, 1);
}

#[test]
fn game_sign_modal_sign_out() {
    let mut modal = GameSignModal::default();
    modal.game = "Chess".to_string();
    modal.student_name = "Anna".to_string();
    modal.student_number = "SMTANN001".to_string();
    assert!(modal.press_sign_out(Some(Stock { owned: 2, already_out: 1 })));
    assert_eq!(modal.quantity_error, None);
    assert!(!modal.press_sign_out(Some(Stock { owned: 2, already_out: 2 })));
    assert_eq!(modal.quantity_error, some("Not enough of this game in stock."));
    assert!(!modal.press_sign_out(Some(Stock { owned: 2, already_out: 3 })));
    // A game that is not known has no stock to run out of.
    assert!(modal.press_sign_out(None));
    assert_eq!(modal.quantity_error, None);
    modal.game = String::new();
    assert!(!modal.press_sign_out(None));
    assert_eq!(modal.game_error, some("Required"));
    modal.game = "g".repeat(513);
    assert!(!modal.press_sign_out(None));
    assert_eq!(modal.game_error, some("Too long. (> 512 characters)"));
    modal.game = "Chess".to_string();
    modal.quantity = 2;
    let record = modal.record();
    assert_eq!((record.game, record.quantity), ("Chess", 2));
}

#[test]
fn item_sign_modal() {
    let mut modal = ItemSignModal::default();
    assert!(!modal.press_sign_out());
    assert_eq!(modal.item_error, some("Required"));
    assert_eq!(modal.student_name_error, some("Required"));
    assert_eq!(modal.student_number_error, some("Required"));
    assert_eq!(modal.receptionist_error, some("Required"));
    assert_eq!(modal.notes_error, None);
    modal.item = "Iron".to_string();
    modal.student_name = "Anna".to_string();
    modal.student_number = "SMTANN001".to_string();
    modal.receptionist = "r".repeat(513);
    modal.notes = "n".repeat(513);
    assert!(!modal.press_sign_out());
    assert_eq!(modal.receptionist_error, some("Name too long. (> 512 characters)"));
    assert_eq!(modal.notes_error, some("Notes too long. (> 512 characters)"));
    modal.receptionist = "Thandi".to_string();
    modal.notes = String::new();
    assert!(modal.press_sign_out());
    for _ in 0..200 {
        modal.press_plus();
    }
    assert_eq!((modal.quantity, modal.quantity_str.as_str()), (MAX_QUANTITY, "99"));
    modal.press_minus();
    assert_eq!((modal.quantity, modal.quantity_str.as_str()), (98, "98"));
    modal.quantity_str = "1000".to_string();
    modal.quantity_typed();
    assert_eq!(modal.quantity, 99);
    modal.quantity_str = "0".to_string();
    modal.quantity_typed();
    assert_eq!(modal.quantity, 1);
    let record = modal.record();
    assert_eq!((record.item, record.quantity, record.receptionist), ("Iron", 1, "Thandi"));
}

#[test]
fn key_entry_modal() {
    let existing = vec!["Gym".to_string(), "Laundry".to_string()];
    assert!(holds_name(&existing, "Gym"));
    assert!(!holds_name(&existing, "gym"));
    assert!(!holds_name(&vec![], "Gym"));
    let mut modal = KeyEntryModal::default();
    assert_eq!(modal.press_add(&existing), None);
    assert_eq!(modal.key_error, some("Required"));
    modal.key = " Gym ".to_string();
    assert_eq!(modal.press_add(&existing), None);
    assert_eq!(modal.key_error, some("A key with this name already exists."));
    assert_eq!(modal.key, " Gym ");
    modal.key = "k".repeat(513);
    assert_eq!(modal.press_add(&existing), None);
    assert_eq!(modal.key_error, some("Name too long. (> 512 characters)"));
    modal.key = " Pool ".to_string();
    assert_eq!(modal.press_add(&existing), some(" Pool "));
    assert_eq!(modal.key_error, None);
    assert_eq!(modal.key, "");
}

#[test]
fn item_entry_modal() {
    let existing = vec!["Iron".to_string()];
    let mut modal = ItemEntryModal::default();
    assert_eq!(modal.press_add(&existing), None);
    assert_eq!(modal.item_error, some("Required"));
    modal.item = "Iron".to_string();
    assert_eq!(modal.press_add(&existing), None);
    assert_eq!(modal.item_error, some("An item with this name already exists."));
    modal.item = "i".repeat(513);
    assert_eq!(modal.press_add(&existing), None);
    assert_eq!(modal.item_error, some("Too long. (> 512 characters)"));
    modal.item = "Kettle".to_string();
    assert_eq!(modal.press_add(&existing), some("Kettle"));
    assert_eq!(modal.item, "");
}

#[test]
fn game_entry_modal() {
    let existing = vec![GameTypeRecord { game: "Chess".to_string(), quantity: 2 }];
    assert!(holds_game(&existing, "Chess"));
    assert!(!holds_game(&existing, "Go"));
    let mut modal = GameEntryModal::default();
    assert_eq!((modal.quantity, modal.quantity_str.as_str()), (1, "1"));
    assert_eq!(modal.press_add(&existing), None);
    assert_eq!(modal.game_error, some("Required"));
    modal.game = "Chess ".to_string();
    assert_eq!(modal.press_add(&existing), None);
    assert_eq!(modal.game_error, some("A game with this name already exists."));
    modal.game = "Go".to_string();
    modal.press_plus();
    modal.press_plus();
    assert_eq!((modal.quantity, modal.quantity_str.as_str()), (3, "3"));
    modal.press_minus();
    modal.quantity_str = "12x".to_string();
    modal.quantity_typed();
    assert_eq!((modal.quantity, modal.quantity_str.as_str()), (12, "12"));
    assert_eq!(
        modal.press_add(&existing),
        Some(GameTypeRecord { game: "Go".to_string(), quantity: 12 })
    );
    assert_eq!(modal, GameEntryModal::default());
    assert_eq!(GameEntryModal::stepped(1, false), 1);
    assert_eq!(GameEntryModal::stepped(1, true), 2);
    assert_eq!(GameEntryModal::stepped(99, true), 99);
    assert_eq!(GameEntryModal::stepped(99, false), 98);
    assert_eq!(GameEntryModal::stepped(500, false), 99);
}
