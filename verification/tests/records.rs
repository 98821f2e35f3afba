//! Tests for the checks of headers, rows and paths.

use meet_validator::check_meet::{
    check_date, check_federation, check_headers, check_meetcountry, check_meetname,
    check_meetpath, check_meetstate, check_meettown, check_records, check_row, do_check,
    file_to_meetpath, find_column, tidy, valid_meetpath, Column, Columns, Defect,
};
use meet_validator::country::Country;
use meet_validator::date::Date;
use meet_validator::report::{Place, Report, Severity};

const HEADER: &str = "Federation,Date,MeetCountry,MeetState,MeetTown,MeetName";

fn row(fields: &[&str]) -> Vec<String> {
    fields.iter().map(|f| String::from(*f)).collect()
}

fn header() -> Vec<String> {
    row(&["Federation", "Date", "MeetCountry", "MeetState", "MeetTown", "MeetName"])
}

fn fresh() -> Report {
    Report::new(String::from("[inline]"))
}

/// The report of a file with the canonical header and the given rows.
fn check_rows(rows: &[&[&str]]) -> Report {
    let mut records = vec![header()];
    for r in rows {
        records.push(row(r));
    }
    check_records(&records, fresh())
}

/// The texts of the messages of a report, in order.
fn texts(report: &Report) -> Vec<String> {
    (0..report.len()).map(|i| report.message(i).text.clone()).collect()
}

/// The defects whose texts the report holds, in order.
fn defects(report: &Report) -> Vec<Defect> {
    let all = [
        Defect::NoHeader,
        Defect::HeaderColumnCount,
        Defect::HeaderColumnName,
        Defect::RowFieldCount,
        Defect::MissingFederation,
        Defect::MissingDate,
        Defect::MalformedDate,
        Defect::NoSuchDay,
        Defect::MissingCountry,
        Defect::UnknownCountry,
        Defect::UnknownState,
        Defect::UncheckedState,
        Defect::UntidyTown,
        Defect::MissingName,
        Defect::UntidyName,
        Defect::NoMeetPath,
        Defect::InvalidMeetPath,
    ];
    texts(report)
        .iter()
        .map(|t| *all.iter().find(|d| d.as_str() == t).unwrap())
        .collect()
}

#[test]
fn defects_have_texts_of_their_own() {
    let report = {
        let mut r = fresh();
        r.error(Defect::NoHeader.as_str());
        r.error(Defect::UntidyName.as_str());
        r
    };
    assert_eq!(defects(&report), vec![Defect::NoHeader, Defect::UntidyName]);
    assert_eq!(Defect::UncheckedState.to_severity(), Severity::Warning);
    assert_eq!(Defect::UnknownState.to_severity(), Severity::Error);
    assert_eq!(Defect::NoHeader.to_severity(), Severity::Error);
}

#[test]
fn a_conforming_file_has_no_message() {
    let report = check_rows(&[&["WRPF", "2016-08-19", "USA", "CA", "Mountain View", "Boss of Bosses 3"]]);
    assert_eq!(report.count_messages(), (0, 0));
    assert_eq!(report.len(), 0);
}

#[test]
fn optional_values_may_be_empty() {
    let report = check_rows(&[&["IPF", "2019-11-18", "Sweden", "", "", "World Championships"]]);
    assert_eq!(report.count_messages(), (0, 0));
}

#[test]
fn a_file_of_the_header_alone_conforms() {
    let report = check_rows(&[]);
    assert_eq!(report.count_messages(), (0, 0));
}

#[test]
fn many_conforming_rows_conform() {
    let report = check_rows(&[
        &["WRPF", "2016-08-19", "USA", "CA", "Mountain View", "Boss of Bosses 3"],
        &["CPU", "2013-11-02", "Canada", "ON", "Ottawa", "Provincials"],
        &["BP", "2018-02-28", "England", "YNE", "", "Regional Open"],
        &["FRPL", "2017-05-06", "Romania", "B", "Bucharest", "Cupa"],
    ]);
    assert_eq!(report.count_messages(), (0, 0));
}

#[test]
fn no_records_means_no_header() {
    let report = check_records(&Vec::new(), fresh());
    assert_eq!(report.count_messages(), (1, 0));
    assert_eq!(defects(&report), vec![Defect::NoHeader]);
    assert_eq!(report.message(0).location.place, None);
    assert_eq!(report.message(0).location.file, "[inline]");
}

#[test]
fn a_header_of_another_width_is_one_error() {
    for names in [
        &["Federation", "Date", "MeetCountry", "MeetState", "MeetTown"][..],
        &["Federation", "Date", "MeetCountry", "MeetState", "MeetTown", "MeetName", "Extra"][..],
        &[][..],
        &["Federation"][..],
    ] {
        let mut report = fresh();
        check_headers(&row(names), &mut report);
        assert_eq!(report.count_messages(), (1, 0));
        assert_eq!(defects(&report), vec![Defect::HeaderColumnCount]);
        assert_eq!(report.message(0).location.place, Some(Place { row: 0, column: None }));
    }
}

#[test]
fn the_canonical_header_passes() {
    let mut report = fresh();
    check_headers(&header(), &mut report);
    assert_eq!(report.count_messages(), (0, 0));
}

#[test]
fn each_misnamed_column_is_an_error_of_its_own() {
    let mut report = fresh();
    check_headers(
        &row(&["federation", "Date", "MeetCountry", "MeetState", "Meet Town", "MeetName "]),
        &mut report,
    );
    assert_eq!(report.count_messages(), (3, 0));
    assert_eq!(report.message(0).location.place, Some(Place { row: 0, column: Some(0) }));
    assert_eq!(report.message(1).location.place, Some(Place { row: 0, column: Some(4) }));
    assert_eq!(report.message(2).location.place, Some(Place { row: 0, column: Some(5) }));
    assert_eq!(
        defects(&report),
        vec![Defect::HeaderColumnName, Defect::HeaderColumnName, Defect::HeaderColumnName]
    );
}

#[test]
fn every_single_removal_from_the_header_fails() {
    for skip in 0..6 {
        let mut names = header();
        names.remove(skip);
        let mut report = fresh();
        check_headers(&names, &mut report);
        assert!(report.count_messages().0 > 0, "without column {}", skip);
    }
}

#[test]
fn every_swap_of_two_header_columns_fails() {
    for i in 0..6 {
        for j in (i + 1)..6 {
            let mut names = header();
            names.swap(i, j);
            let mut report = fresh();
            check_headers(&names, &mut report);
            assert_eq!(report.count_messages(), (2, 0), "columns {} and {}", i, j);
        }
    }
}

#[test]
fn every_single_character_typo_in_the_header_fails() {
    let canonical = header();
    for (i, name) in canonical.iter().enumerate() {
        for k in 0..name.len() {
            let mut typo: Vec<char> = name.chars().collect();
            typo[k] = if typo[k] == 'x' { 'y' } else { 'x' };
            let mut names = canonical.clone();
            names[i] = typo.into_iter().collect();
            let mut report = fresh();
            check_headers(&names, &mut report);
            assert_eq!(report.count_messages(), (1, 0), "{:?}", names);
            assert_eq!(report.message(0).location.place, Some(Place { row: 0, column: Some(i) }));
        }
    }
}

#[test]
fn header_checks_append_to_what_the_report_holds() {
    let mut report = fresh();
    report.warning("before");
    check_headers(&row(&["a", "b"]), &mut report);
    assert_eq!(report.count_messages(), (1, 1));
    assert_eq!(report.message(0).text, "before");
}

#[test]
fn columns_are_found_by_their_first_exact_name() {
    let names = row(&["Date", "MeetName", "Date", "meetstate", "Federation"]);
    assert_eq!(find_column(&names, Column::Date), Some(0));
    assert_eq!(find_column(&names, Column::MeetName), Some(1));
    assert_eq!(find_column(&names, Column::Federation), Some(4));
    assert_eq!(find_column(&names, Column::MeetState), None);
    assert_eq!(find_column(&names, Column::MeetTown), None);
    assert_eq!(find_column(&names, Column::MeetCountry), None);
    let columns = Columns::locate(&names);
    assert_eq!(
        columns,
        Columns {
            federation: Some(4),
            date: Some(0),
            country: None,
            state: None,
            town: None,
            name: Some(1),
        }
    );
    assert_eq!(Column::from_position(0), Column::Federation);
    assert_eq!(Column::from_position(3).as_str(), "MeetState");
    assert_eq!(Column::from_position(5), Column::MeetName);
}

#[test]
fn each_field_defect_is_found_in_its_cell() {
    let cases: [(&[&str], Defect, usize); 10] = [
        (&["", "2016-08-19", "USA", "CA", "Mountain View", "Bob"], Defect::MissingFederation, 0),
        (&["WRPF", "", "USA", "CA", "Mountain View", "Bob"], Defect::MissingDate, 1),
        (&["WRPF", "19.08.2016", "USA", "CA", "Mountain View", "Bob"], Defect::MalformedDate, 1),
        (&["WRPF", "2016-02-30", "USA", "CA", "Mountain View", "Bob"], Defect::NoSuchDay, 1),
        (&["WRPF", "2016-08-19", "", "", "Mountain View", "Bob"], Defect::MissingCountry, 2),
        (&["WRPF", "2016-08-19", "Usa", "", "Mountain View", "Bob"], Defect::UnknownCountry, 2),
        (&["WRPF", "2016-08-19", "USA", "XX", "Mountain View", "Bob"], Defect::UnknownState, 3),
        (&["WRPF", "2016-08-19", "USA", "CA", "Mountain  View", "Bob"], Defect::UntidyTown, 4),
        (&["WRPF", "2016-08-19", "USA", "CA", "Mountain View", ""], Defect::MissingName, 5),
        (&["WRPF", "2016-08-19", "USA", "CA", "Mountain View", "Bob "], Defect::UntidyName, 5),
    ];
    for (fields, defect, column) in cases {
        let report = check_rows(&[fields]);
        assert_eq!(report.count_messages(), (1, 0), "{:?}", fields);
        assert_eq!(defects(&report), vec![defect]);
        assert_eq!(report.message(0).location.place, Some(Place { row: 1, column: Some(column) }));
        assert_eq!(report.message(0).severity, Severity::Error);
    }
}

#[test]
fn a_state_of_a_country_without_subdivisions_is_an_error() {
    let report = check_rows(&[&["JPA", "2016-08-19", "Japan", "CA", "Tokyo", "Nationals"]]);
    assert_eq!(report.count_messages(), (1, 0));
    assert_eq!(defects(&report), vec![Defect::UnknownState]);
}

#[test]
fn a_state_of_another_country_is_an_error() {
    let report = check_rows(&[&["CAPO", "2016-08-19", "Australia", "CA", "Sydney", "Nationals"]]);
    assert_eq!(defects(&report), vec![Defect::UnknownState]);
    let report = check_rows(&[&["FALPO", "2016-08-19", "Argentina", "CA", "Buenos Aires", "Nacional"]]);
    assert_eq!(report.count_messages(), (0, 0));
}

#[test]
fn a_state_without_a_known_country_is_a_warning() {
    let report = check_rows(&[&["WRPF", "2016-08-19", "Atlantis", "CA", "Mountain View", "Bob"]]);
    assert_eq!(report.count_messages(), (1, 1));
    assert_eq!(defects(&report), vec![Defect::UnknownCountry, Defect::UncheckedState]);
    assert_eq!(report.message(1).severity, Severity::Warning);
    assert_eq!(report.message(1).location.place, Some(Place { row: 1, column: Some(3) }));
}

#[test]
fn independent_defects_are_all_reported() {
    let report = check_rows(&[&["", "2016-8-19", "Atlantis", "CA", " Mountain View", ""]]);
    assert_eq!(report.count_messages(), (5, 1));
    assert_eq!(
        defects(&report),
        vec![
            Defect::MissingFederation,
            Defect::MalformedDate,
            Defect::UnknownCountry,
            Defect::UncheckedState,
            Defect::UntidyTown,
            Defect::MissingName,
        ]
    );
}

#[test]
fn every_row_is_checked_and_numbered() {
    let report = check_rows(&[
        &["WRPF", "2016-08-19", "USA", "CA", "Mountain View", "Bob"],
        &["", "2016-08-19", "USA", "CA", "Mountain View", "Bob"],
        &["WRPF", "2016-08-19", "USA", "CA", "Mountain View", "Bob"],
        &["WRPF", "2016-08-19", "USA", "ZZ", "Mountain View", ""],
    ]);
    assert_eq!(report.count_messages(), (3, 0));
    assert_eq!(
        defects(&report),
        vec![Defect::MissingFederation, Defect::UnknownState, Defect::MissingName]
    );
    assert_eq!(report.message(0).location.place, Some(Place { row: 2, column: Some(0) }));
    assert_eq!(report.message(1).location.place, Some(Place { row: 4, column: Some(3) }));
    assert_eq!(report.message(2).location.place, Some(Place { row: 4, column: Some(5) }));
}

#[test]
fn a_short_row_lacks_its_last_values() {
    let report = check_rows(&[&["WRPF", "2016-08-19", "USA"]]);
    assert_eq!(report.count_messages(), (2, 0));
    assert_eq!(defects(&report), vec![Defect::RowFieldCount, Defect::MissingName]);
    assert_eq!(report.message(0).location.place, Some(Place { row: 1, column: None }));
}

#[test]
fn a_long_row_is_an_error() {
    let report =
        check_rows(&[&["WRPF", "2016-08-19", "USA", "CA", "Mountain View", "Bob", "more"]]);
    assert_eq!(report.count_messages(), (1, 0));
    assert_eq!(defects(&report), vec![Defect::RowFieldCount]);
}

#[test]
fn an_empty_row_lacks_every_required_value() {
    let report = check_rows(&[&[]]);
    assert_eq!(
        defects(&report),
        vec![
            Defect::RowFieldCount,
            Defect::MissingFederation,
            Defect::MissingDate,
            Defect::MissingCountry,
            Defect::MissingName,
        ]
    );
}

#[test]
fn rows_are_checked_against_the_columns_that_a_bad_header_names() {
    // The header lacks MeetState and has MeetTown and MeetName swapped.
    let records = vec![
        row(&["Federation", "Date", "MeetCountry", "MeetName", "MeetTown"]),
        row(&["WRPF", "2016-13-19", "USA", "", "Mountain View"]),
    ];
    let report = check_records(&records, fresh());
    assert_eq!(
        defects(&report),
        vec![Defect::HeaderColumnCount, Defect::NoSuchDay, Defect::MissingName]
    );
    assert_eq!(report.message(1).location.place, Some(Place { row: 1, column: Some(1) }));
    assert_eq!(report.message(2).location.place, Some(Place { row: 1, column: Some(3) }));
}

#[test]
fn check_row_looks_only_at_the_columns_given() {
    let columns = Columns {
        federation: None,
        date: Some(0),
        country: None,
        state: Some(1),
        town: None,
        name: None,
    };
    let mut report = fresh();
    check_row(columns, 2, &row(&["2016-08-19", "CA"]), 9, &mut report);
    assert_eq!(report.count_messages(), (0, 1));
    assert_eq!(defects(&report), vec![Defect::UncheckedState]);
    assert_eq!(report.message(0).location.place, Some(Place { row: 9, column: Some(1) }));
}

#[test]
fn field_checks_return_what_they_parsed() {
    let place = Some(Place { row: 1, column: Some(1) });
    let mut report = fresh();
    assert_eq!(
        check_date("2016-08-19", place, &mut report),
        Some(Date { year: 2016, month: 8, day: 19 })
    );
    assert_eq!(check_date("2016-08-32", place, &mut report), None);
    assert_eq!(check_date("", place, &mut report), None);
    assert_eq!(check_meetcountry("USA", place, &mut report), Some(Country::USA));
    assert_eq!(check_meetcountry("U.S.A.", place, &mut report), None);
    assert_eq!(check_meetcountry("", place, &mut report), None);
    assert_eq!(
        defects(&report),
        vec![Defect::NoSuchDay, Defect::MissingDate, Defect::UnknownCountry, Defect::MissingCountry]
    );
    for i in 0..report.len() {
        assert_eq!(report.message(i).location.place, place);
    }
}

#[test]
fn field_checks_append_what_they_find() {
    let mut report = fresh();
    check_federation("WRPF", None, &mut report);
    check_federation("", None, &mut report);
    check_meetstate("", None, Some(Country::USA), &mut report);
    check_meetstate("", None, None, &mut report);
    check_meetstate("NY", None, Some(Country::USA), &mut report);
    check_meetstate("NY", None, Some(Country::Canada), &mut report);
    check_meetstate("NY", None, None, &mut report);
    check_meettown("", None, &mut report);
    check_meettown("Mountain View", None, &mut report);
    check_meettown("Mountain View ", None, &mut report);
    check_meetname("Boss of Bosses 3", None, &mut report);
    check_meetname("", None, &mut report);
    check_meetname(" Boss", None, &mut report);
    assert_eq!(
        defects(&report),
        vec![
            Defect::MissingFederation,
            Defect::UnknownState,
            Defect::UncheckedState,
            Defect::UntidyTown,
            Defect::MissingName,
            Defect::UntidyName,
        ]
    );
    assert_eq!(report.count_messages(), (5, 1));
}

#[test]
fn tidy_texts_have_no_stray_spaces() {
    for text in ["", "a", "Mountain View", "a b c", "Boss of Bosses 3", "\tx", "x\u{a0}"] {
        assert!(tidy(text), "{:?}", text);
    }
    for text in [" ", "  ", " a", "a ", "a  b", "a b  c", " a b", "Mountain View "] {
        assert!(!tidy(text), "{:?}", text);
    }
}

#[test]
fn the_bytes_of_a_file_are_split_into_records() {
    let data = format!("{}\nWRPF,2016-08-19,USA,XX,Mountain View,Boss of Bosses 3\n", HEADER);
    let report = do_check(data.as_bytes(), fresh()).unwrap();
    assert_eq!(report.count_messages(), (1, 0));
    assert_eq!(defects(&report), vec![Defect::UnknownState]);
    assert_eq!(report.message(0).location.place, Some(Place { row: 1, column: Some(3) }));
}

#[test]
fn quotes_are_part_of_the_value() {
    let data = format!("{}\nWRPF,2016-08-19,\"USA\",,Mountain View,Boss of Bosses 3\n", HEADER);
    let report = do_check(data.as_bytes(), fresh()).unwrap();
    assert_eq!(defects(&report), vec![Defect::UnknownCountry]);
    let data = "\"Federation\",Date,MeetCountry,MeetState,MeetTown,MeetName\n";
    let report = do_check(data.as_bytes(), fresh()).unwrap();
    assert_eq!(defects(&report), vec![Defect::HeaderColumnName]);
}

#[test]
fn values_are_not_trimmed() {
    let data = format!("{}\nWRPF,2016-08-19, USA,,Mountain View,Boss of Bosses 3\n", HEADER);
    let report = do_check(data.as_bytes(), fresh()).unwrap();
    assert_eq!(defects(&report), vec![Defect::UnknownCountry]);
}

#[test]
fn an_empty_text_has_no_header() {
    let report = do_check(b"", fresh()).unwrap();
    assert_eq!(defects(&report), vec![Defect::NoHeader]);
}

#[test]
fn rows_of_unequal_length_stop_the_row_source() {
    let data = format!("{}\nWRPF,2016-08-19,USA\n", HEADER);
    assert!(do_check(data.as_bytes(), fresh()).is_err());
}

#[test]
fn bytes_that_are_no_text_stop_the_row_source() {
    let mut data = Vec::from(HEADER.as_bytes());
    data.extend_from_slice(b"\nWRPF,2016-08-19,USA,CA,\xff\xfe,Bob\n");
    assert!(do_check(&data, fresh()).is_err());
}

#[test]
fn checking_twice_gives_the_same_counts() {
    let texts = [
        String::new(),
        format!("{}\n", HEADER),
        format!("{}\nWRPF,2016-08-19,USA,CA,Mountain View,Boss of Bosses 3\n", HEADER),
        format!("{}\n,2016-8-19,Atlantis,CA, Mountain View,\n,,,,,\n", HEADER),
        String::from("Date,Federation\n2016-02-30,\n"),
    ];
    for text in &texts {
        let first = do_check(text.as_bytes(), fresh()).unwrap();
        let second = do_check(text.as_bytes(), fresh()).unwrap();
        assert_eq!(first.count_messages(), second.count_messages());
        assert_eq!(first.len(), second.len());
        for i in 0..first.len() {
            assert_eq!(first.message(i), second.message(i));
        }
    }
}

#[test]
fn the_meet_path_is_the_name_of_the_directory() {
    assert_eq!(file_to_meetpath("/wrpf/bob3/meet.csv"), Some(String::from("bob3")));
    assert_eq!(file_to_meetpath("bob3/meet.csv"), Some(String::from("bob3")));
    assert_eq!(file_to_meetpath("a/b/c/d"), Some(String::from("c")));
    assert_eq!(file_to_meetpath("/meet.csv"), Some(String::new()));
    assert_eq!(file_to_meetpath("a//meet.csv"), Some(String::new()));
    assert_eq!(file_to_meetpath("a/b/"), Some(String::from("b")));
    assert_eq!(file_to_meetpath("/wrpf/белкинасила/meet.csv"), Some(String::from("белкинасила")));
    assert_eq!(file_to_meetpath("meet.csv"), None);
    assert_eq!(file_to_meetpath(""), None);
    assert_eq!(file_to_meetpath("[inline]"), None);
}

#[test]
fn meet_paths_hold_letters_digits_and_hyphens() {
    for name in ["bob3", "0302", "2013-11-02-81b29779", "a", "-", "A-Z", "Z9"] {
        assert!(valid_meetpath(name), "{:?}", name);
    }
    for name in [
        "", "welt_kampf", "welt:kampf", "welt\"kampf", "welt kampf", "weltkampf ", " a", "a/b",
        "a.b", "белкинасила", "bob3\n", "caf\u{e9}", "a\u{0}", "@", "[", "`", "{", "/", ":",
    ] {
        assert!(!valid_meetpath(name), "{:?}", name);
    }
}

#[test]
fn check_meetpath_returns_the_name_it_accepts() {
    let mut report = Report::new(String::from("/uspa/0302/meet.csv"));
    assert_eq!(check_meetpath(&mut report), Some(String::from("0302")));
    assert_eq!(report.count_messages(), (0, 0));
}

#[test]
fn check_meetpath_reports_one_error_on_a_bad_name() {
    let mut report = Report::new(String::from("/dsf/welt_kampf/meet.csv"));
    assert_eq!(check_meetpath(&mut report), None);
    assert_eq!(report.count_messages(), (1, 0));
    assert_eq!(defects(&report), vec![Defect::InvalidMeetPath]);
    assert_eq!(report.message(0).location.place, None);
    assert_eq!(report.message(0).location.file, "/dsf/welt_kampf/meet.csv");
    // Each call reports anew.
    assert_eq!(check_meetpath(&mut report), None);
    assert_eq!(report.count_messages(), (2, 0));
}

#[test]
fn check_meetpath_reports_one_error_without_a_directory() {
    let mut report = Report::new(String::from("meet.csv"));
    assert_eq!(check_meetpath(&mut report), None);
    assert_eq!(defects(&report), vec![Defect::NoMeetPath]);
    let mut report = Report::new(String::from("/meet.csv"));
    assert_eq!(check_meetpath(&mut report), None);
    assert_eq!(defects(&report), vec![Defect::InvalidMeetPath]);
}

#[test]
fn the_path_and_the_contents_are_checked_apart() {
    let data = format!("{}\nWRPF,2016-08-19,USA,CA,Mountain View,Boss of Bosses 3\n", HEADER);
    let report = Report::new(String::from("/wrpf/bob 3/meet.csv"));
    let mut report = do_check(data.as_bytes(), report).unwrap();
    assert_eq!(report.count_messages(), (0, 0));
    check_meetpath(&mut report);
    assert_eq!(report.count_messages(), (1, 0));
}
