//! Tests for the Report.

use meet_validator::report::{Place, Report, Severity};

#[test]
fn a_new_report_is_empty() {
    let report = Report::new(String::from("/wrpf/bob3/meet.csv"));
    assert_eq!(report.count_messages(), (0, 0));
    assert_eq!(report.len(), 0);
    assert_eq!(report.path(), "/wrpf/bob3/meet.csv");
}

#[test]
fn counts_tell_errors_from_warnings() {
    let mut report = Report::new(String::from("a/meet.csv"));
    report.error("first");
    report.warning("second");
    report.error("third");
    report.push(Severity::Warning, None, String::from("fourth"));
    report.error("fifth");
    assert_eq!(report.count_messages(), (3, 2));
    assert_eq!(report.len(), 5);
}

#[test]
fn counting_does_not_clear_the_log() {
    let mut report = Report::new(String::from("a/meet.csv"));
    report.error("first");
    assert_eq!(report.count_messages(), (1, 0));
    assert_eq!(report.count_messages(), (1, 0));
    report.warning("second");
    assert_eq!(report.count_messages(), (1, 1));
    assert_eq!(report.len(), 2);
}

#[test]
fn messages_keep_their_order_and_contents() {
    let mut report = Report::new(String::from("a/meet.csv"));
    report.error("first");
    report.warning("second");
    let place = Place { row: 3, column: Some(2) };
    report.push(Severity::Error, Some(place), String::from("third"));
    assert_eq!(report.message(0).severity, Severity::Error);
    assert_eq!(report.message(0).text, "first");
    assert_eq!(report.message(1).severity, Severity::Warning);
    assert_eq!(report.message(1).text, "second");
    assert_eq!(report.message(2).severity, Severity::Error);
    assert_eq!(report.message(2).text, "third");
}

#[test]
fn messages_are_stamped_with_the_file() {
    let mut report = Report::new(String::from("a/meet.csv"));
    report.error("first");
    let place = Place { row: 3, column: Some(2) };
    report.push(Severity::Warning, Some(place), String::from("second"));
    let whole_row = Place { row: 7, column: None };
    report.push(Severity::Error, Some(whole_row), String::from("third"));
    assert_eq!(report.message(0).location.file, "a/meet.csv");
    assert_eq!(report.message(0).location.place, None);
    assert_eq!(report.message(1).location.file, "a/meet.csv");
    assert_eq!(report.message(1).location.place, Some(place));
    assert_eq!(report.message(2).location.place, Some(whole_row));
}

#[test]
fn many_messages_are_all_kept() {
    let mut report = Report::new(String::from("a/meet.csv"));
    for i in 0..1000 {
        if i % 3 == 0 {
            report.warning("w");
        } else {
            report.error("e");
        }
    }
    assert_eq!(report.count_messages(), (666, 334));
    assert_eq!(report.len(), 1000);
}
