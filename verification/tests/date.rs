//! Tests for the Date column.

use meet_validator::date::{Date, DateFailure};

#[test]
fn a_date_is_read_into_year_month_and_day() {
    assert_eq!(Date::from_str("2016-08-19"), Ok(Date { year: 2016, month: 8, day: 19 }));
    assert_eq!(Date::from_str("0001-01-01"), Ok(Date { year: 1, month: 1, day: 1 }));
    assert_eq!(Date::from_str("9999-12-31"), Ok(Date { year: 9999, month: 12, day: 31 }));
    assert_eq!(Date::from_str("0000-10-09"), Ok(Date { year: 0, month: 10, day: 9 }));
}

#[test]
fn a_leap_year_has_a_leap_day() {
    assert_eq!(Date::from_str("2016-02-29"), Ok(Date { year: 2016, month: 2, day: 29 }));
    assert_eq!(Date::from_str("2000-02-29"), Ok(Date { year: 2000, month: 2, day: 29 }));
    assert_eq!(Date::from_str("2015-02-29"), Err(DateFailure::NoSuchDay));
    assert_eq!(Date::from_str("1900-02-29"), Err(DateFailure::NoSuchDay));
    assert_eq!(Date::from_str("2016-02-30"), Err(DateFailure::NoSuchDay));
    assert_eq!(Date::from_str("2015-02-28"), Ok(Date { year: 2015, month: 2, day: 28 }));
}

#[test]
fn months_have_their_lengths() {
    let lengths = [31, 28, 31, 30, 31, 30, 31, 31, 30, 31, 30, 31];
    for (i, &days) in lengths.iter().enumerate() {
        let month = i as u32 + 1;
        let last = format!("2019-{:02}-{:02}", month, days);
        let beyond = format!("2019-{:02}-{:02}", month, days + 1);
        assert_eq!(Date::from_str(&last), Ok(Date { year: 2019, month, day: days }));
        assert_eq!(Date::from_str(&beyond), Err(DateFailure::NoSuchDay));
    }
}

#[test]
fn a_day_or_month_out_of_range_is_no_day() {
    for text in ["2016-00-10", "2016-13-01", "2016-08-00", "2016-08-32", "2016-99-99"] {
        assert_eq!(Date::from_str(text), Err(DateFailure::NoSuchDay), "{}", text);
    }
}

#[test]
fn another_form_is_malformed() {
    for text in [
        "",
        "2016",
        "16-08-19",
        "2016-8-19",
        "2016-08-9",
        "2016/08/19",
        "2016-08-19 ",
        " 2016-08-19",
        "2016-08-1a",
        "20l6-08-19",
        "2016-08-19T",
        "19-08-2016",
        "+016-08-19",
        "２０１６-08-19",
        "2016-08-१९",
    ] {
        assert_eq!(Date::from_str(text), Err(DateFailure::Malformed), "{}", text);
    }
}
