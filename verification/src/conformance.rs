//! When a meet file conforms, and that the report of its check says so.
//!
//! A file conforms exactly if its header is the canonical one and each of its
//! data rows is well-formed. The check finds at least one error in every
//! other file, and none in a conforming one.

use vstd::prelude::*;
use crate::check_meet::{
    canonical_header, cell, column_of, country_findings, date_findings, federation_findings,
    header_findings, header_name_findings, in_cell, is_first_position, is_meetpath, is_tidy,
    meetpath_findings, meetpath_of, name_findings, one, records_findings, row_country,
    row_findings, rows_findings, state_findings, town_findings, width_findings, Column, Columns,
    Defect,
};
use crate::country::Country;
use crate::date::Date;
use crate::report::{count_severity, lemma_count_concat, MessageView, Place, ReportView, Severity};
use crate::rows::csv_records;
use crate::states::State;

verus! {

/// The number of errors among `messages`.
pub open spec fn errors_in(messages: Seq<MessageView>) -> nat {
    count_severity(messages, Severity::Error)
}

/// Whether a data row is well-formed: six values, of which the Federation is
/// not empty, the Date is a day of the calendar, the MeetCountry names a
/// country, the MeetState is empty or names a subdivision of that country,
/// the MeetTown is tidy, and the MeetName is not empty and tidy.
pub open spec fn row_conforms(row: Seq<Seq<char>>) -> bool {
    &&& row.len() == 6
    &&& row[0].len() > 0
    &&& Date::parse(row[1]).is_ok()
    &&& Country::parse(row[2]).is_some()
    &&& (row[3].len() == 0 || State::parse_in(row[3], Country::parse(row[2]).unwrap()).is_some())
    &&& is_tidy(row[4])
    &&& row[5].len() > 0
    &&& is_tidy(row[5])
}

/// Whether the records of a file conform: the first is the canonical header,
/// and every other one is a well-formed row.
pub open spec fn conforms(records: Seq<Seq<Seq<char>>>) -> bool {
    &&& records.len() >= 1
    &&& records[0] == canonical_header()
    &&& forall|i: int| 1 <= i < records.len() ==> row_conforms(#[trigger] records[i])
}

/// The columns of the canonical header: each at its own position.
pub open spec fn canonical_columns() -> Columns {
    Columns {
        federation: Some(0),
        date: Some(1),
        country: Some(2),
        state: Some(3),
        town: Some(4),
        name: Some(5),
    }
}

/// What the check of the bytes of a file leaves in a report that held
/// `start`; `None` where the row source fails on the bytes.
pub open spec fn checked(data: Seq<u8>, start: ReportView) -> Option<ReportView> {
    match csv_records(data) {
        Some(records) => Some(start.extended(records_findings(start.path, records))),
        None => None,
    }
}

/// The log of one defect holds one error, or none where the defect is a warning.
pub proof fn lemma_errors_in_one(path: Seq<char>, defect: Defect, place: Option<Place>)
    ensures
        errors_in(one(path, defect, place)) == if defect.severity() == Severity::Error {
            1nat
        } else {
            0nat
        },
        errors_in(Seq::empty()) == 0,
{
    let log = one(path, defect, place);
    assert(log.drop_last() =~= Seq::empty());
    assert(errors_in(log) == errors_in(log.drop_last()) + if log.last().severity
        == Severity::Error {
        1nat
    } else {
        0nat
    });
}

/// The first `n` columns of a header of six columns give no error exactly if
/// each of them bears the name of its position.
pub proof fn lemma_header_names(path: Seq<char>, header: Seq<Seq<char>>, n: int)
    requires
        0 <= n <= 6,
    ensures
        errors_in(header_name_findings(path, header, n)) == 0 <==> forall|i: int|
            0 <= i < n ==> header[i] == Column::at(i).name(),
    decreases n,
{
    if n > 0 {
        lemma_header_names(path, header, n - 1);
        let before = header_name_findings(path, header, n - 1);
        let last = if header[n - 1] != Column::at(n - 1).name() {
            one(path, Defect::HeaderColumnName, in_cell(0, (n - 1) as usize))
        } else {
            Seq::empty()
        };
        lemma_count_concat(before, last, Severity::Error);
        lemma_errors_in_one(path, Defect::HeaderColumnName, in_cell(0, (n - 1) as usize));
    } else {
        lemma_errors_in_one(path, Defect::NoHeader, None);
    }
}

/// Header strictness: a header row gives no error exactly if it is the
/// canonical header, with its six columns in their order and spelling.
pub proof fn lemma_header_strict(path: Seq<char>, header: Seq<Seq<char>>)
    ensures
        errors_in(header_findings(path, header)) == 0 <==> header == canonical_header(),
{
    if header.len() != 6 {
        lemma_errors_in_one(path, Defect::HeaderColumnCount, Some(Place { row: 0, column: None }));
    } else {
        lemma_header_names(path, header, 6);
        if errors_in(header_findings(path, header)) == 0 {
            assert(header =~= canonical_header());
        }
    }
}

/// The canonical header without one of its columns gives an error.
pub proof fn lemma_missing_column_fails(path: Seq<char>, i: int)
    requires
        0 <= i < 6,
    ensures
        errors_in(header_findings(path, canonical_header().remove(i))) > 0,
{
    lemma_header_strict(path, canonical_header().remove(i));
}

/// The canonical header with one of its columns under another name gives an
/// error, however close that name is to the right one.
pub proof fn lemma_misspelled_column_fails(path: Seq<char>, i: int, name: Seq<char>)
    requires
        0 <= i < 6,
        name != Column::at(i).name(),
    ensures
        errors_in(header_findings(path, canonical_header().update(i, name))) > 0,
{
    lemma_header_strict(path, canonical_header().update(i, name));
    assert(canonical_header().update(i, name)[i] == name);
}

/// The columns of the canonical header in any other order give an error.
pub proof fn lemma_reordered_columns_fail(path: Seq<char>, header: Seq<Seq<char>>)
    requires
        header.to_multiset() == canonical_header().to_multiset(),
        header != canonical_header(),
    ensures
        errors_in(header_findings(path, header)) > 0,
{
    lemma_header_strict(path, header);
}

/// In the canonical header each column stands at its own position.
pub proof fn lemma_canonical_columns()
    ensures
        Columns::of(canonical_header()) == canonical_columns(),
{
    let header = canonical_header();
    assert forall|k: usize| k < 6 implies #[trigger] column_of(header, Column::at(k as int))
        == Some(k) by {
        let column = Column::at(k as int);
        assert forall|j: int| 0 <= j < k implies header[j] != column.name() by {
            Column::lemma_names(Column::at(j), column);
        }
        assert(is_first_position(header, column.name(), k));
        let found = choose|i: usize| is_first_position(header, column.name(), i);
        assert(found == k);
    }
    assert(column_of(header, Column::at(0)) == Some(0usize));
    assert(column_of(header, Column::at(1)) == Some(1usize));
    assert(column_of(header, Column::at(2)) == Some(2usize));
    assert(column_of(header, Column::at(3)) == Some(3usize));
    assert(column_of(header, Column::at(4)) == Some(4usize));
    assert(column_of(header, Column::at(5)) == Some(5usize));
}

/// Under the canonical header a data row gives no error exactly if it is
/// well-formed.
pub proof fn lemma_row(path: Seq<char>, row: Seq<Seq<char>>, line: usize)
    ensures
        errors_in(row_findings(path, canonical_columns(), 6, row, line)) == 0 <==> row_conforms(
            row,
        ),
{
    reveal(row_findings);
    let columns = canonical_columns();
    let widths = width_findings(path, 6, row, line);
    let federations = federation_findings(path, in_cell(line, 0), cell(row, 0));
    let dates = date_findings(path, in_cell(line, 1), cell(row, 1));
    let countries = country_findings(path, in_cell(line, 2), cell(row, 2));
    let states = state_findings(path, in_cell(line, 3), cell(row, 3), row_country(columns, row));
    let towns = town_findings(path, in_cell(line, 4), cell(row, 4));
    let names = name_findings(path, in_cell(line, 5), cell(row, 5));
    lemma_count_concat(widths, federations, Severity::Error);
    lemma_count_concat(widths + federations, dates, Severity::Error);
    lemma_count_concat(widths + federations + dates, countries, Severity::Error);
    lemma_count_concat(widths + federations + dates + countries, states, Severity::Error);
    lemma_count_concat(widths + federations + dates + countries + states, towns, Severity::Error);
    lemma_count_concat(widths + federations + dates + countries + states + towns, names, Severity::Error);
    lemma_errors_in_one(path, Defect::RowFieldCount, Some(Place { row: line, column: None }));
    lemma_errors_in_one(path, Defect::MissingFederation, in_cell(line, 0));
    lemma_errors_in_one(path, Defect::MissingDate, in_cell(line, 1));
    lemma_errors_in_one(path, Defect::MalformedDate, in_cell(line, 1));
    lemma_errors_in_one(path, Defect::NoSuchDay, in_cell(line, 1));
    lemma_errors_in_one(path, Defect::MissingCountry, in_cell(line, 2));
    lemma_errors_in_one(path, Defect::UnknownCountry, in_cell(line, 2));
    lemma_errors_in_one(path, Defect::UnknownState, in_cell(line, 3));
    lemma_errors_in_one(path, Defect::UncheckedState, in_cell(line, 3));
    lemma_errors_in_one(path, Defect::UntidyTown, in_cell(line, 4));
    lemma_errors_in_one(path, Defect::MissingName, in_cell(line, 5));
    lemma_errors_in_one(path, Defect::UntidyName, in_cell(line, 5));
    if row.len() == 6 {
        if cell(row, 2).len() == 0 {
            assert forall|c: Country| c.name() != cell(row, 2) by {
                Country::lemma_name_is_not_empty(c);
            }
        }
        if cell(row, 1).len() == 0 {
            assert(Date::parse(cell(row, 1)).is_err());
        }
    }
}

/// Under the canonical header the data rows among the first `n` records
/// give no error exactly if each of them is well-formed.
pub proof fn lemma_rows(path: Seq<char>, records: Seq<Seq<Seq<char>>>, n: int)
    requires
        n <= records.len() <= usize::MAX,
    ensures
        errors_in(rows_findings(path, canonical_columns(), 6, records, n)) == 0 <==> forall|i: int|
            1 <= i < n ==> row_conforms(#[trigger] records[i]),
    decreases n,
{
    if n > 1 {
        lemma_rows(path, records, n - 1);
        lemma_row(path, records[n - 1], (n - 1) as usize);
        lemma_count_concat(
            rows_findings(path, canonical_columns(), 6, records, n - 1),
            row_findings(path, canonical_columns(), 6, records[n - 1], (n - 1) as usize),
            Severity::Error,
        );
    } else {
        lemma_errors_in_one(path, Defect::NoHeader, None);
    }
}

/// The check passes exactly the conforming files: the messages for the
/// records of a file hold no error if and only if the records conform.
pub proof fn lemma_passes_iff_conforms(path: Seq<char>, records: Seq<Seq<Seq<char>>>)
    requires
        records.len() <= usize::MAX,
    ensures
        errors_in(records_findings(path, records)) == 0 <==> conforms(records),
{
    if records.len() == 0 {
        lemma_errors_in_one(path, Defect::NoHeader, None);
    } else {
        let head = header_findings(path, records[0]);
        let rest = rows_findings(
            path,
            Columns::of(records[0]),
            records[0].len(),
            records,
            records.len() as int,
        );
        lemma_count_concat(head, rest, Severity::Error);
        lemma_header_strict(path, records[0]);
        if records[0] == canonical_header() {
            lemma_canonical_columns();
            lemma_rows(path, records, records.len() as int);
        }
    }
}

/// An empty file, and a file whose header is not the canonical one, gives at
/// least one error, whatever its rows hold.
pub proof fn lemma_bad_header_fails(path: Seq<char>, records: Seq<Seq<Seq<char>>>)
    requires
        records.len() <= usize::MAX,
        records.len() == 0 || records[0] != canonical_header(),
    ensures
        errors_in(records_findings(path, records)) > 0,
{
    lemma_passes_iff_conforms(path, records);
}

/// What a check appends to a report adds to its counts: the errors of the
/// report afterwards are those it had and those among the new messages, and
/// the same holds of the warnings.
pub proof fn lemma_counts_add_up(start: ReportView, more: Seq<MessageView>)
    ensures
        start.extended(more).errors() == start.errors() + count_severity(more, Severity::Error),
        start.extended(more).warnings() == start.warnings() + count_severity(
            more,
            Severity::Warning,
        ),
{
    lemma_count_concat(start.messages, more, Severity::Error);
    lemma_count_concat(start.messages, more, Severity::Warning);
}

/// Two checks of the same bytes that start from the same report end with
/// the same report, and so with the same counts of errors and warnings.
pub proof fn lemma_same_bytes_same_counts(
    data: Seq<u8>,
    start: ReportView,
    first: ReportView,
    second: ReportView,
)
    ensures
        checked(data, start) == Some(first) && checked(data, start) == Some(second) ==> {
            &&& first == second
            &&& first.errors() == second.errors()
            &&& first.warnings() == second.warnings()
        },
{
}

/// The path of a meet file gives at most one message, an error; and none
/// exactly if it names a directory whose name can name a meet.
pub proof fn lemma_meetpath(path: Seq<char>)
    ensures
        meetpath_findings(path).len() <= 1,
        errors_in(meetpath_findings(path)) == meetpath_findings(path).len(),
        errors_in(meetpath_findings(path)) == 0 <==> (meetpath_of(path) matches Some(name)
            && is_meetpath(name)),
{
    lemma_errors_in_one(path, Defect::NoMeetPath, None);
    lemma_errors_in_one(path, Defect::InvalidMeetPath, None);
}

} // verus!
