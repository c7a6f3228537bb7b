use open_sight::retrieval::{
    destination, destination_with_date, patient_query, patient_served, read_patient_ids,
    should_copy, trim_line, white_space, Destination, IndexedRow, NOT_FOUND_REPORT,
};

fn row(days: u64) -> IndexedRow {
    IndexedRow {
        laterality: String::from("R"),
        scan_date_days: days,
        modality: String::from("OPT"),
        file_name: String::from("scan 1.dcm"),
    }
}

#[test]
fn patient_list_is_read_line_by_line() {
    assert_eq!(read_patient_ids("a\nb\nc"), vec!["a", "b", "c"]);
    assert_eq!(read_patient_ids("a\nb\nc\n"), vec!["a", "b", "c"]);
    assert_eq!(read_patient_ids("  a \r\n\tb\t\r\n"), vec!["a", "b"]);
    assert_eq!(read_patient_ids("a\n\n b\n"), vec!["a", "", "b"]);
    assert_eq!(read_patient_ids("\n"), vec![""]);
    assert_eq!(read_patient_ids("   "), vec![""]);
    assert_eq!(read_patient_ids(""), Vec::<String>::new());
    assert_eq!(read_patient_ids("a b\u{a0}\n\u{3000}c"), vec!["a b", "c"]);
}

#[test]
fn patient_list_matches_lines_and_trim() {
    for text in ["x\r\ny\r\n", "\r", " \n \n", "one", "\n\n\n", "a\rb\n", "\u{2003}id 7\u{85}\nz"] {
        let expected: Vec<String> = text.lines().map(|line| line.trim().to_string()).collect();
        assert_eq!(read_patient_ids(text), expected);
    }
}

#[test]
fn white_space_is_that_of_unicode() {
    for code in 0u32..0x3100 {
        if let Some(c) = char::from_u32(code) {
            assert_eq!(white_space(c), c.is_whitespace());
        }
    }
    assert!(!white_space('\u{feff}'));
    assert!(!white_space('\u{10ffff}'));
}

#[test]
fn lines_are_trimmed_on_both_sides() {
    assert_eq!(trim_line(&" \t a b \r".chars().collect()), "a b");
    assert_eq!(trim_line(&"   ".chars().collect()), "");
    assert_eq!(trim_line(&Vec::new()), "");
    assert_eq!(trim_line(&"x".chars().collect()), "x");
}

#[test]
fn query_names_the_patient() {
    assert_eq!(
        patient_query("P-9"),
        "SELECT * FROM main.open_sight WHERE patient_id = 'P-9' AND modality IN ('OP','OPT') AND manufacturer = 'Heidelberg Engineering' ORDER BY patient_id, scan_date, laterality, modality"
    );
}

#[test]
fn copy_goes_below_patient_and_date_folder() {
    assert_eq!(
        destination("P-9", &row(18793)),
        Some(Destination {
            patient_folder: String::from("P-9"),
            date_folder: String::from("20210615_R"),
            file_name: String::from("OPT_scan 1.dcm"),
        })
    );
    assert_eq!(destination("P-9", &row(0)).unwrap().date_folder, "19700101_R");
    assert_eq!(destination("P-9", &row(365)).unwrap().date_folder, "19710101_R");
}

#[test]
fn scan_date_beyond_the_calendar_gives_no_destination() {
    assert_eq!(destination("P-9", &row(u64::MAX)), None);
    assert_eq!(destination("P-9", &row(1 << 40)), None);
}

#[test]
fn destination_takes_the_given_date_text() {
    assert_eq!(
        destination_with_date("id", "20000229", &row(1)),
        Destination {
            patient_folder: String::from("id"),
            date_folder: String::from("20000229_R"),
            file_name: String::from("OPT_scan 1.dcm"),
        }
    );
}

#[test]
fn existing_target_is_copied_over_under_overwrite_only() {
    assert!(should_copy(false, false));
    assert!(should_copy(false, true));
    assert!(should_copy(true, true));
    assert!(!should_copy(true, false));
}

#[test]
fn patient_without_rows_or_with_failed_copies_is_reported() {
    assert!(!patient_served(0, 0));
    assert!(patient_served(1, 0));
    assert!(patient_served(40, 0));
    assert!(!patient_served(3, 1));
    assert!(!patient_served(0, 2));
    assert_eq!(NOT_FOUND_REPORT, "patient_ids_not_found.csv");
}
