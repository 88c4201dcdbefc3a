use blackcurrant::export::{
    csv_headers, export_base, export_csv, format_optional_time, format_time, is_fraction,
    set_export_path_extention,
};
use blackcurrant::records::{
    set_page, GameRecord, ItemRecord, KeyRecord, Page, ParcelRecord, RecordType, Student,
};
use blackcurrant::students::{contains_part, pick, popup_open, shown, suggestions};
use blackcurrant::summary::{total, Month, SummaryModal, Tally};
use blackcurrant::text::writes_u64;
use blackcurrant::timestamp::Timestamp;

fn at(secs: i64) -> Timestamp {
    Timestamp { secs, nanos: 0 }
}

#[test]
fn times_in_columns() {
    assert_eq!(format_time(at(1691835072)), "2023-08-12T10:11:12+00:00");
    assert_eq!(
        format_time(Timestamp { secs: 1691835072, nanos: 250_000 }),
        "2023-08-12T10:11:12.000250+00:00"
    );
    assert_eq!(format_time(Timestamp { secs: i64::MIN, nanos: 0 }), "");
    assert_eq!(format_optional_time(Some(at(0))), "1970-01-01T00:00:00+00:00");
    assert_eq!(format_optional_time(None), "");
}

#[test]
fn headings_of_each_kind() {
    assert_eq!(
        csv_headers(RecordType::Key),
        vec!["Time Out", "Time In", "Key", "Student Name", "Student Number", "Receptionist", "Notes"]
    );
    assert_eq!(
        csv_headers(RecordType::Parcel),
        vec!["Time In", "Time Out", "Parcel Description", "Student Name", "Receptionist", "Notes"]
    );
    assert_eq!(
        csv_headers(RecordType::Game),
        vec![
            "Time Out",
            "Time In",
            "Game",
            "Quantity",
            "Student Name",
            "Student Number",
            "Receptionist",
            "Notes"
        ]
    );
    assert_eq!(
        csv_headers(RecordType::Item),
        vec!["Time Out", "Item", "Quantity", "Student Name", "Student Number", "Receptionist", "Notes"]
    );
}

fn key_record() -> KeyRecord {
    KeyRecord {
        id: 1,
        key: "Gym".to_string(),
        student_name: "Anna Smith".to_string(),
        student_number: "SMTANN001".to_string(),
        receptionist: None,
        time_out: at(1691835072),
        time_in: None,
        notes: "back, by \"six\"".to_string(),
    }
}

#[test]
fn fields_of_each_kind() {
    assert_eq!(
        key_record().csv_fields(),
        vec!["2023-08-12T10:11:12+00:00", "", "Gym", "Anna Smith", "SMTANN001", "", "back, by \"six\""]
    );
    let mut signed_in = key_record();
    signed_in.receptionist = Some("Thandi".to_string());
    signed_in.time_in = Some(at(1691835073));
    assert_eq!(signed_in.csv_fields()[1], "2023-08-12T10:11:13+00:00");
    assert_eq!(signed_in.csv_fields()[5], "Thandi");

    let parcel = ParcelRecord {
        id: 2,
        parcel_desc: "Box".to_string(),
        student_name: "Anna".to_string(),
        receptionist: "Thandi".to_string(),
        time_in: at(0),
        time_out: Some(at(60)),
        notes: String::new(),
    };
    assert_eq!(
        parcel.csv_fields(),
        vec!["1970-01-01T00:00:00+00:00", "1970-01-01T00:01:00+00:00", "Box", "Anna", "Thandi", ""]
    );

    let game = GameRecord {
        id: 3,
        game: "Chess".to_string(),
        quantity: 2,
        student_name: "Anna".to_string(),
        student_number: "SMTANN001".to_string(),
        receptionist: Some("Thandi".to_string()),
        time_out: at(0),
        time_in: None,
        notes: "n".to_string(),
    };
    assert_eq!(
        game.csv_fields(),
        vec!["1970-01-01T00:00:00+00:00", "", "Chess", "2", "Anna", "SMTANN001", "Thandi", "n"]
    );

    let item = ItemRecord {
        id: 4,
        item: "Iron".to_string(),
        quantity: -12,
        student_name: "Anna".to_string(),
        student_number: "SMTANN001".to_string(),
        receptionist: "Thandi".to_string(),
        time_out: at(0),
        notes: String::new(),
    };
    assert_eq!(
        item.csv_fields(),
        vec!["1970-01-01T00:00:00+00:00", "Iron", "-12", "Anna", "SMTANN001", "Thandi", ""]
    );
}

#[test]
fn export_writes_lines_of_csv() {
    let rows = vec![csv_headers(RecordType::Key), key_record().csv_fields()];
    let document = export_csv(&rows).expect("a document");
    assert_eq!(
        String::from_utf8(document).unwrap(),
        "Time Out,Time In,Key,Student Name,Student Number,Receptionist,Notes\n\
         2023-08-12T10:11:12+00:00,,Gym,Anna Smith,SMTANN001,,\"back, by \"\"six\"\"\"\n"
    );
    assert_eq!(export_csv(&vec![]), Some(vec![]));
    assert_eq!(
        export_csv(&vec![vec!["a".to_string()], vec!["b\nc".to_string(), "d".to_string()]]),
        Some(b"a\n\"b\nc\",d\n".to_vec())
    );
}

#[test]
fn unsigned_integers_as_text() {
    for s in ["0", "5", "+5", "123456", "18446744073709551615"] {
        assert!(writes_u64(s), "{}", s);
        assert!(s.parse::<u64>().is_ok());
    }
    for s in ["", "+", "-5", "5a", "csv", "18446744073709551616", " 5", "5.0"] {
        assert!(!writes_u64(s), "{}", s);
        assert!(s.parse::<u64>().is_err());
    }
}

#[test]
fn fraction_or_extension() {
    assert!(is_fraction(Some("123456789")));
    assert!(is_fraction(Some("5")));
    assert!(!is_fraction(Some("csv")));
    assert!(!is_fraction(Some("")));
    assert!(!is_fraction(None));
}

#[test]
fn export_base_keeps_a_fraction_of_a_second() {
    assert_eq!(export_base("name.5".to_string(), Some("5")), "name.5.csv");
    assert_eq!(export_base("name.500000000".to_string(), Some("500000000")), "name.500000000.csv");
    assert_eq!(export_base("name.+5".to_string(), Some("+5")), "name.+5.csv");
    assert_eq!(export_base("name.txt".to_string(), Some("txt")), "name.txt");
    assert_eq!(export_base("name.csv".to_string(), Some("csv")), "name.csv");
    assert_eq!(export_base("name.".to_string(), Some("")), "name.");
    assert_eq!(export_base("name.-5".to_string(), Some("-5")), "name.-5");
    assert_eq!(export_base("name".to_string(), None), "name");
    assert_eq!(export_base(String::new(), None), "");
    // Whatever is given as the extension decides, not the path.
    assert_eq!(export_base("name".to_string(), Some("7")), "name.csv");
}

#[test]
fn export_path_gets_the_csv_extension() {
    assert_eq!(set_export_path_extention("records".to_string()), "records.csv");
    assert_eq!(set_export_path_extention("records.csv".to_string()), "records.csv");
    assert_eq!(set_export_path_extention("records.txt".to_string()), "records.csv");
    assert_eq!(
        set_export_path_extention("key_records_2023-08-12_10-11-12.500000000".to_string()),
        "key_records_2023-08-12_10-11-12.500000000.csv"
    );
    assert_eq!(
        set_export_path_extention("dir/key_records_2023-08-12_10-11-12.5.csv".to_string()),
        "dir/key_records_2023-08-12_10-11-12.5.csv"
    );
}

#[test]
fn set_page_refreshes_on_a_change_only() {
    let mut page = Page::LastPage;
    assert!(!set_page(&mut page, Page::LastPage, 250));
    assert_eq!(page, Page::LastPage);
    assert!(set_page(&mut page, Page::Page(7), 250));
    assert_eq!(page, Page::Page(2));
    assert!(!set_page(&mut page, Page::Page(2), 250));
    assert!(set_page(&mut page, Page::Page(-1), 250));
    assert_eq!(page, Page::Page(0));
    assert!(set_page(&mut page, Page::LastPage, 250));
    assert_eq!(page, Page::LastPage);
}

#[test]
fn months() {
    let january = Month { year: 2024, month: 1 };
    assert_eq!(january.previous(), Month { year: 2023, month: 12 });
    assert_eq!(january.next(), Month { year: 2024, month: 2 });
    assert_eq!(Month { year: 2023, month: 12 }.next(), january);
    assert!(Month { year: 2023, month: 12 }.is_before(january));
    assert!(!january.is_before(january));
    assert!(!january.is_before(Month { year: 2023, month: 12 }));
    assert!(january.is_before(Month { year: 2024, month: 2 }));
}

#[test]
fn summary_modal_walks_through_the_months() {
    let today = Month { year: 2024, month: 1 };
    let mut modal = SummaryModal::new(today);
    assert_eq!(modal.month_start, Month { year: 2023, month: 12 });
    assert!(modal.refresh);
    assert_eq!(modal.take_refresh(), Some(Month { year: 2023, month: 12 }));
    assert_eq!(modal.take_refresh(), None);
    assert!(modal.can_go_next(today));
    modal.press_next(today);
    assert_eq!(modal.month_start, today);
    assert_eq!(modal.take_refresh(), Some(today));
    assert!(!modal.can_go_next(today));
    modal.press_next(today);
    assert_eq!(modal.month_start, today);
    assert_eq!(modal.take_refresh(), None);
    modal.press_previous();
    modal.press_previous();
    assert_eq!(modal.month_start, Month { year: 2023, month: 11 });
    assert!(modal.refresh);
}

#[test]
fn totals() {
    let tallies = vec![
        Tally { name: "Gym".to_string(), count: 3 },
        Tally { name: "Pool".to_string(), count: 4 },
    ];
    assert_eq!(total(&tallies), 7);
    assert_eq!(total(&vec![]), 0);
    let huge = vec![
        Tally { name: "a".to_string(), count: i64::MAX },
        Tally { name: "b".to_string(), count: i64::MAX },
        Tally { name: "c".to_string(), count: -1 },
    ];
    assert_eq!(total(&huge), 2 * (i64::MAX as i128) - 1);
}

fn student(name: &str, number: &str) -> Student {
    Student { name: name.to_string(), number: number.to_string() }
}

#[test]
fn parts_of_texts() {
    assert!(contains_part("SMTANN001", "ANN"));
    assert!(contains_part("SMTANN001", "SMT"));
    assert!(contains_part("SMTANN001", "001"));
    assert!(contains_part("SMTANN001", "SMTANN001"));
    assert!(contains_part("SMTANN001", ""));
    assert!(contains_part("", ""));
    assert!(!contains_part("SMTANN001", "ann"));
    assert!(!contains_part("SMTANN001", "SMTANN0011"));
    assert!(!contains_part("", "A"));
    assert!(!contains_part("ABAB", "BB"));
    assert!(contains_part("AAB", "AB"));
}

#[test]
fn students_are_offered_by_their_number() {
    let students = vec![
        student("Anna Smith", "SMTANN001"),
        student("John Smith", "SMTJON002"),
        student("Zola Dube", "DBXZOL001"),
    ];
    assert_eq!(suggestions(&students, "smt"), vec![0, 1]);
    assert_eq!(suggestions(&students, "001"), vec![0, 2]);
    assert_eq!(suggestions(&students, "Zol"), vec![2]);
    assert_eq!(suggestions(&students, ""), vec![0, 1, 2]);
    assert_eq!(suggestions(&students, "xyz"), Vec::<usize>::new());
    assert_eq!(suggestions(&vec![], "a"), Vec::<usize>::new());
    assert_eq!(shown(0), 0);
    assert_eq!(shown(9), 9);
    assert_eq!(shown(10), 10);
    assert_eq!(shown(25), 10);
    assert!(popup_open("s", true, 2));
    assert!(!popup_open("", true, 2));
    assert!(!popup_open("s", false, 2));
    assert!(!popup_open("s", true, 0));
    let mut number = "smt".to_string();
    let mut name = String::new();
    pick(&students[1], &mut number, &mut name);
    assert_eq!((number.as_str(), name.as_str()), ("SMTJON002", "John Smith"));
}
