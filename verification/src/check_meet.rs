//! Checks for meet.csv files.
//!
//! A meet file is a table with the header row
//! `Federation,Date,MeetCountry,MeetState,MeetTown,MeetName`, in exactly this
//! order and spelling, followed by data rows with one value per column. An
//! empty value counts as missing. Federation, Date, MeetCountry and MeetName
//! are required; MeetState and MeetTown are optional.
//!
//! Nothing here stops at the first defect: every defect becomes a message of
//! the [`Report`], and the file conforms exactly if no message is an error.
//! Rows are counted from zero, the header being row zero; columns are counted
//! from zero as well.

use vstd::prelude::*;
use crate::country::Country;
use crate::date::{is_digit, Date, DateFailure};
use crate::rows::{csv_records, read_records};
use crate::report::{lemma_extended, stamped, MessageView, Place, Report, Severity};
use crate::states::State;
use crate::text::{is_letter, str_eq, to_chars};

verus! {

/// What can be wrong with a meet file, or with the path that leads to it.
#[derive(Clone, Copy, Debug, PartialEq, Eq, Structural)]
pub enum Defect {
    /// The file holds no header row.
    NoHeader,
    /// The header row does not hold exactly six columns.
    HeaderColumnCount,
    /// A column of the header does not bear the name that its position asks for.
    HeaderColumnName,
    /// A row does not hold one value for each column of the header.
    RowFieldCount,
    /// The Federation is empty.
    MissingFederation,
    /// The Date is empty.
    MissingDate,
    /// The Date is not written as `YYYY-MM-DD`.
    MalformedDate,
    /// The Date has the right form, but the calendar has no such day.
    NoSuchDay,
    /// The MeetCountry is empty.
    MissingCountry,
    /// The MeetCountry names no country.
    UnknownCountry,
    /// The MeetState names no subdivision of the MeetCountry.
    UnknownState,
    /// The MeetState could not be looked up, for want of a known MeetCountry.
    UncheckedState,
    /// The MeetTown has leading, trailing or doubled spaces.
    UntidyTown,
    /// The MeetName is empty.
    MissingName,
    /// The MeetName has leading, trailing or doubled spaces.
    UntidyName,
    /// The path of the file names no directory that holds it.
    NoMeetPath,
    /// The name of the directory of the meet holds a character other than
    /// ASCII letters, digits and hyphens, or is empty.
    InvalidMeetPath,
}

impl Defect {
    /// How serious this defect is: all are errors but `UncheckedState`.
    pub open spec fn severity(self) -> Severity {
        match self {
            Defect::UncheckedState => Severity::Warning,
            _ => Severity::Error,
        }
    }

    /// The explanation that a report gives of this defect.
    pub open spec fn text(self) -> Seq<char> {
        match self {
            Defect::NoHeader => "The file holds no header row"@,
            Defect::HeaderColumnCount => "The header row must hold exactly six columns"@,
            Defect::HeaderColumnName => "The columns must be Federation, Date, MeetCountry, MeetState, MeetTown and MeetName, in this order"@,
            Defect::RowFieldCount => "The row must hold one value for each column of the header"@,
            Defect::MissingFederation => "The Federation is missing"@,
            Defect::MissingDate => "The Date is missing"@,
            Defect::MalformedDate => "The Date must be written as YYYY-MM-DD"@,
            Defect::NoSuchDay => "The Date names a day that the calendar does not have"@,
            Defect::MissingCountry => "The MeetCountry is missing"@,
            Defect::UnknownCountry => "The MeetCountry is not a known country"@,
            Defect::UnknownState => "The MeetState is not a known subdivision of the MeetCountry"@,
            Defect::UncheckedState => "The MeetState could not be looked up without a known MeetCountry"@,
            Defect::UntidyTown => "The MeetTown has leading, trailing or doubled spaces"@,
            Defect::MissingName => "The MeetName is missing"@,
            Defect::UntidyName => "The MeetName has leading, trailing or doubled spaces"@,
            Defect::NoMeetPath => "The path names no directory that holds the file"@,
            Defect::InvalidMeetPath => "The name of the meet directory must consist of ASCII letters, digits and hyphens"@,
        }
    }

    /// How serious this defect is.
    pub fn to_severity(self) -> (severity: Severity)
        ensures
            severity == self.severity(),
    {
        match self {
            Defect::UncheckedState => Severity::Warning,
            _ => Severity::Error,
        }
    }

    /// The explanation that a report gives of this defect.
    pub fn as_str(self) -> (text: &'static str)
        ensures
            text@ == self.text(),
    {
        match self {
            Defect::NoHeader => "The file holds no header row",
            Defect::HeaderColumnCount => "The header row must hold exactly six columns",
            Defect::HeaderColumnName => "The columns must be Federation, Date, MeetCountry, MeetState, MeetTown and MeetName, in this order",
            Defect::RowFieldCount => "The row must hold one value for each column of the header",
            Defect::MissingFederation => "The Federation is missing",
            Defect::MissingDate => "The Date is missing",
            Defect::MalformedDate => "The Date must be written as YYYY-MM-DD",
            Defect::NoSuchDay => "The Date names a day that the calendar does not have",
            Defect::MissingCountry => "The MeetCountry is missing",
            Defect::UnknownCountry => "The MeetCountry is not a known country",
            Defect::UnknownState => "The MeetState is not a known subdivision of the MeetCountry",
            Defect::UncheckedState => "The MeetState could not be looked up without a known MeetCountry",
            Defect::UntidyTown => "The MeetTown has leading, trailing or doubled spaces",
            Defect::MissingName => "The MeetName is missing",
            Defect::UntidyName => "The MeetName has leading, trailing or doubled spaces",
            Defect::NoMeetPath => "The path names no directory that holds the file",
            Defect::InvalidMeetPath => "The name of the meet directory must consist of ASCII letters, digits and hyphens",
        }
    }
}

/// The message that a report about `path` holds for a defect.
pub open spec fn finding(path: Seq<char>, defect: Defect, place: Option<Place>) -> MessageView {
    stamped(path, defect.severity(), place, defect.text())
}

/// The log of a single defect.
pub open spec fn one(path: Seq<char>, defect: Defect, place: Option<Place>) -> Seq<MessageView> {
    seq![finding(path, defect, place)]
}

/// The place of a whole row.
pub open spec fn in_row(row: usize) -> Option<Place> {
    Some(Place { row, column: None })
}

/// The place of one value of a row.
pub open spec fn in_cell(row: usize, column: usize) -> Option<Place> {
    Some(Place { row, column: Some(column) })
}

/// Appends the message for one defect to the report.
pub fn note(report: &mut Report, defect: Defect, place: Option<Place>)
    ensures
        final(report)@ == old(report)@.extended(one(old(report)@.path, defect, place)),
{
    report.push(defect.to_severity(), place, defect.as_str().to_owned());
}

/// The columns of a meet file, in the order in which the header must name them.
#[derive(Clone, Copy, Debug, PartialEq, Eq, Structural)]
pub enum Column {
    Federation,
    Date,
    MeetCountry,
    MeetState,
    MeetTown,
    MeetName,
}

impl Column {
    /// The name of this column, as the header spells it.
    pub open spec fn name(self) -> Seq<char> {
        match self {
            Column::Federation => "Federation"@,
            Column::Date => "Date"@,
            Column::MeetCountry => "MeetCountry"@,
            Column::MeetState => "MeetState"@,
            Column::MeetTown => "MeetTown"@,
            Column::MeetName => "MeetName"@,
        }
    }

    /// The column that stands at `position`, counted from zero.
    pub open spec fn at(position: int) -> Column {
        if position == 0 {
            Column::Federation
        } else if position == 1 {
            Column::Date
        } else if position == 2 {
            Column::MeetCountry
        } else if position == 3 {
            Column::MeetState
        } else if position == 4 {
            Column::MeetTown
        } else {
            Column::MeetName
        }
    }

    /// The name of this column.
    pub fn as_str(self) -> (name: &'static str)
        ensures
            name@ == self.name(),
    {
        match self {
            Column::Federation => "Federation",
            Column::Date => "Date",
            Column::MeetCountry => "MeetCountry",
            Column::MeetState => "MeetState",
            Column::MeetTown => "MeetTown",
            Column::MeetName => "MeetName",
        }
    }

    /// The column that stands at `position`, counted from zero.
    pub fn from_position(position: usize) -> (column: Column)
        ensures
            column == Column::at(position as int),
    {
        if position == 0 {
            Column::Federation
        } else if position == 1 {
            Column::Date
        } else if position == 2 {
            Column::MeetCountry
        } else if position == 3 {
            Column::MeetState
        } else if position == 4 {
            Column::MeetTown
        } else {
            Column::MeetName
        }
    }

    /// The six column names differ from one another.
    pub proof fn lemma_names(a: Column, b: Column)
        ensures
            a.name() == b.name() ==> a == b,
    {
        reveal_strlit("Federation");
        reveal_strlit("Date");
        reveal_strlit("MeetCountry");
        reveal_strlit("MeetState");
        reveal_strlit("MeetTown");
        reveal_strlit("MeetName");
        if a.name() == b.name() {
            assert(a.name().len() == b.name().len());
            assert(a.name()[4] == b.name()[4]);
        }
    }
}

/// The header row that every meet file must have.
pub open spec fn canonical_header() -> Seq<Seq<char>> {
    Seq::new(6, |i: int| Column::at(i).name())
}

/// The messages for the first `n` columns of a header of six columns: one
/// error for each column that does not bear the name of its position.
pub open spec fn header_name_findings(path: Seq<char>, header: Seq<Seq<char>>, n: int) -> Seq<
    MessageView,
>
    decreases n,
{
    if n <= 0 {
        Seq::empty()
    } else {
        header_name_findings(path, header, n - 1) + if header[n - 1] != Column::at(n - 1).name() {
            one(path, Defect::HeaderColumnName, in_cell(0, (n - 1) as usize))
        } else {
            Seq::empty()
        }
    }
}

/// The messages for a header row.
pub open spec fn header_findings(path: Seq<char>, header: Seq<Seq<char>>) -> Seq<MessageView> {
    if header.len() != 6 {
        one(path, Defect::HeaderColumnCount, in_row(0))
    } else {
        header_name_findings(path, header, 6)
    }
}

/// Checks that the headers are fixed and correct.
pub fn check_headers(header: &Vec<String>, report: &mut Report)
    ensures
        final(report)@ == old(report)@.extended(
            header_findings(old(report)@.path, header.deep_view()),
        ),
{
    if header.len() != 6 {
        note(report, Defect::HeaderColumnCount, Some(Place { row: 0, column: None }));
        return ;
    }
    let ghost path = report@.path;
    let ghost names = header.deep_view();
    proof {
        lemma_extended(report@, Seq::empty(), Seq::empty());
    }
    let mut i: usize = 0;
    while i < 6
        invariant
            i <= 6,
            header.len() == 6,
            names == header.deep_view(),
            path == old(report)@.path,
            report@ == old(report)@.extended(header_name_findings(path, names, i as int)),
        decreases 6 - i,
    {
        let ghost before = header_name_findings(path, names, i as int);
        assert(names[i as int] == header@[i as int]@);
        if !str_eq(header[i].as_str(), Column::from_position(i).as_str()) {
            note(report, Defect::HeaderColumnName, Some(Place { row: 0, column: Some(i) }));
            proof {
                lemma_extended(
                    old(report)@,
                    before,
                    one(path, Defect::HeaderColumnName, in_cell(0, i)),
                );
            }
        } else {
            assert(before + Seq::<MessageView>::empty() =~= before);
        }
        i += 1;
    }
}

/// Whether a text has neither a leading, nor a trailing, nor a doubled space.
pub open spec fn is_tidy(s: Seq<char>) -> bool {
    &&& s.len() > 0 ==> s[0] != ' ' && s[s.len() - 1] != ' '
    &&& forall|i: int| 0 < i < s.len() ==> !(s[i - 1] == ' ' && #[trigger] s[i] == ' ')
}

/// Whether a text has neither a leading, nor a trailing, nor a doubled space.
pub fn tidy(s: &str) -> (yes: bool)
    ensures
        yes == is_tidy(s@),
{
    let chars = to_chars(s);
    let n = chars.len();
    if n == 0 {
        return true;
    }
    if chars[0] == ' ' || chars[n - 1] == ' ' {
        return false;
    }
    let mut i: usize = 1;
    while i < n
        invariant
            1 <= i <= n,
            n == chars@.len(),
            chars@ == s@,
            chars@[0] != ' ' && chars@[n - 1] != ' ',
            forall|j: int| 0 < j < i ==> !(chars@[j - 1] == ' ' && #[trigger] chars@[j] == ' '),
        decreases n - i,
    {
        if chars[i - 1] == ' ' && chars[i] == ' ' {
            return false;
        }
        i += 1;
    }
    true
}

/// The messages for the Federation of a row.
pub open spec fn federation_findings(path: Seq<char>, place: Option<Place>, value: Seq<char>)
    -> Seq<MessageView> {
    if value.len() == 0 {
        one(path, Defect::MissingFederation, place)
    } else {
        Seq::empty()
    }
}

/// The messages for the Date of a row.
pub open spec fn date_findings(path: Seq<char>, place: Option<Place>, value: Seq<char>) -> Seq<
    MessageView,
> {
    if value.len() == 0 {
        one(path, Defect::MissingDate, place)
    } else {
        match Date::parse(value) {
            Ok(_) => Seq::empty(),
            Err(DateFailure::Malformed) => one(path, Defect::MalformedDate, place),
            Err(DateFailure::NoSuchDay) => one(path, Defect::NoSuchDay, place),
        }
    }
}

/// The messages for the MeetCountry of a row.
pub open spec fn country_findings(path: Seq<char>, place: Option<Place>, value: Seq<char>)
    -> Seq<MessageView> {
    if value.len() == 0 {
        one(path, Defect::MissingCountry, place)
    } else if Country::parse(value).is_none() {
        one(path, Defect::UnknownCountry, place)
    } else {
        Seq::empty()
    }
}

/// The messages for the MeetState of a row whose MeetCountry is `country`,
/// or `None` where the row has no known country.
pub open spec fn state_findings(
    path: Seq<char>,
    place: Option<Place>,
    value: Seq<char>,
    country: Option<Country>,
) -> Seq<MessageView> {
    if value.len() == 0 {
        Seq::empty()
    } else {
        match country {
            Some(c) => if State::parse_in(value, c).is_none() {
                one(path, Defect::UnknownState, place)
            } else {
                Seq::empty()
            },
            None => one(path, Defect::UncheckedState, place),
        }
    }
}

/// The messages for the MeetTown of a row.
pub open spec fn town_findings(path: Seq<char>, place: Option<Place>, value: Seq<char>) -> Seq<
    MessageView,
> {
    if !is_tidy(value) {
        one(path, Defect::UntidyTown, place)
    } else {
        Seq::empty()
    }
}

/// The messages for the MeetName of a row.
pub open spec fn name_findings(path: Seq<char>, place: Option<Place>, value: Seq<char>) -> Seq<
    MessageView,
> {
    if value.len() == 0 {
        one(path, Defect::MissingName, place)
    } else if !is_tidy(value) {
        one(path, Defect::UntidyName, place)
    } else {
        Seq::empty()
    }
}

/// Checks the Federation column: the value must not be empty.
pub fn check_federation(s: &str, place: Option<Place>, report: &mut Report)
    ensures
        final(report)@ == old(report)@.extended(
            federation_findings(old(report)@.path, place, s@),
        ),
{
    if s.is_empty() {
        note(report, Defect::MissingFederation, place);
    } else {
        proof {
            lemma_extended(report@, Seq::empty(), Seq::empty());
        }
    }
}

/// Checks the Date column: the value must be a day of the calendar, written
/// as `YYYY-MM-DD`. Returns the date where it is one.
pub fn check_date(s: &str, place: Option<Place>, report: &mut Report) -> (date: Option<Date>)
    ensures
        final(report)@ == old(report)@.extended(date_findings(old(report)@.path, place, s@)),
        date == match Date::parse(s@) {
            Ok(d) => Some(d),
            Err(_) => None,
        },
{
    if s.is_empty() {
        note(report, Defect::MissingDate, place);
        return None;
    }
    match Date::from_str(s) {
        Ok(date) => {
            proof {
                lemma_extended(report@, Seq::empty(), Seq::empty());
            }
            Some(date)
        },
        Err(DateFailure::Malformed) => {
            note(report, Defect::MalformedDate, place);
            None
        },
        Err(DateFailure::NoSuchDay) => {
            note(report, Defect::NoSuchDay, place);
            None
        },
    }
}

/// Checks the MeetCountry column: the value must name a country. Returns the
/// country where it names one.
pub fn check_meetcountry(s: &str, place: Option<Place>, report: &mut Report) -> (country: Option<
    Country,
>)
    ensures
        final(report)@ == old(report)@.extended(country_findings(old(report)@.path, place, s@)),
        country == Country::parse(s@),
{
    if s.is_empty() {
        note(report, Defect::MissingCountry, place);
        proof {
            assert forall|c: Country| c.name() != s@ by {
                Country::lemma_name_is_not_empty(c);
            }
        }
        return None;
    }
    match Country::from_str(s) {
        Ok(country) => {
            proof {
                lemma_extended(report@, Seq::empty(), Seq::empty());
            }
            Some(country)
        },
        Err(_) => {
            note(report, Defect::UnknownCountry, place);
            None
        },
    }
}

/// Checks the optional MeetState column: a value must name a subdivision of
/// the country of the row. Without a known country the value cannot be
/// looked up, which is worth a warning.
pub fn check_meetstate(s: &str, place: Option<Place>, country: Option<Country>, report: &mut Report)
    ensures
        final(report)@ == old(report)@.extended(
            state_findings(old(report)@.path, place, s@, country),
        ),
{
    if s.is_empty() {
        proof {
            lemma_extended(report@, Seq::empty(), Seq::empty());
        }
        return ;
    }
    match country {
        Some(c) => {
            if State::from_str_and_country(s, c).is_err() {
                note(report, Defect::UnknownState, place);
            } else {
                proof {
                    lemma_extended(report@, Seq::empty(), Seq::empty());
                }
            }
        },
        None => {
            note(report, Defect::UncheckedState, place);
        },
    }
}

/// Checks the optional MeetTown column: a value must be free of leading,
/// trailing and doubled spaces.
pub fn check_meettown(s: &str, place: Option<Place>, report: &mut Report)
    ensures
        final(report)@ == old(report)@.extended(town_findings(old(report)@.path, place, s@)),
{
    if !tidy(s) {
        note(report, Defect::UntidyTown, place);
    } else {
        proof {
            lemma_extended(report@, Seq::empty(), Seq::empty());
        }
    }
}

/// Checks the mandatory MeetName column: the value must not be empty, and
/// must be free of leading, trailing and doubled spaces.
pub fn check_meetname(s: &str, place: Option<Place>, report: &mut Report)
    ensures
        final(report)@ == old(report)@.extended(name_findings(old(report)@.path, place, s@)),
{
    if s.is_empty() {
        note(report, Defect::MissingName, place);
    } else if !tidy(s) {
        note(report, Defect::UntidyName, place);
    } else {
        proof {
            lemma_extended(report@, Seq::empty(), Seq::empty());
        }
    }
}

/// Whether `i` is the first position at which `header` holds `name`.
pub open spec fn is_first_position(header: Seq<Seq<char>>, name: Seq<char>, i: usize) -> bool {
    &&& i < header.len()
    &&& header[i as int] == name
    &&& forall|j: int| 0 <= j < i ==> header[j] != name
}

/// The first position at which `header` names `column`, if it names it.
pub open spec fn column_of(header: Seq<Seq<char>>, column: Column) -> Option<usize> {
    if exists|i: usize| is_first_position(header, column.name(), i) {
        Some(choose|i: usize| is_first_position(header, column.name(), i))
    } else {
        None
    }
}

/// The first position at which `header` names `column`, if it names it.
pub fn find_column(header: &Vec<String>, column: Column) -> (found: Option<usize>)
    ensures
        found == column_of(header.deep_view(), column),
{
    let name = column.as_str();
    let ghost names = header.deep_view();
    let mut i: usize = 0;
    while i < header.len()
        invariant
            i <= header.len(),
            names == header.deep_view(),
            name@ == column.name(),
            forall|j: int| 0 <= j < i ==> names[j] != name@,
        decreases header.len() - i,
    {
        assert(names[i as int] == header@[i as int]@);
        if str_eq(header[i].as_str(), name) {
            assert(is_first_position(names, column.name(), i));
            return Some(i);
        }
        i += 1;
    }
    None
}

/// Where a header names each column of a meet file, if it names it.
#[derive(Clone, Copy, Debug, PartialEq, Eq, Structural)]
pub struct Columns {
    pub federation: Option<usize>,
    pub date: Option<usize>,
    pub country: Option<usize>,
    pub state: Option<usize>,
    pub town: Option<usize>,
    pub name: Option<usize>,
}

impl Columns {
    /// The columns that `header` names.
    pub open spec fn of(header: Seq<Seq<char>>) -> Columns {
        Columns {
            federation: column_of(header, Column::Federation),
            date: column_of(header, Column::Date),
            country: column_of(header, Column::MeetCountry),
            state: column_of(header, Column::MeetState),
            town: column_of(header, Column::MeetTown),
            name: column_of(header, Column::MeetName),
        }
    }

    /// Looks up each column in `header`.
    pub fn locate(header: &Vec<String>) -> (columns: Columns)
        ensures
            columns == Columns::of(header.deep_view()),
    {
        Columns {
            federation: find_column(header, Column::Federation),
            date: find_column(header, Column::Date),
            country: find_column(header, Column::MeetCountry),
            state: find_column(header, Column::MeetState),
            town: find_column(header, Column::MeetTown),
            name: find_column(header, Column::MeetName),
        }
    }
}

/// The value of `row` at position `k`; empty where the row is too short.
pub open spec fn cell(row: Seq<Seq<char>>, k: usize) -> Seq<char> {
    if k < row.len() {
        row[k as int]
    } else {
        Seq::empty()
    }
}

/// The value of `row` at position `k`; empty where the row is too short.
pub fn cell_at(row: &Vec<String>, k: usize) -> (value: &str)
    ensures
        value@ == cell(row.deep_view(), k),
{
    if k < row.len() {
        assert(row.deep_view()[k as int] == row@[k as int]@);
        row[k].as_str()
    } else {
        proof {
            reveal_strlit("");
        }
        assert(""@ =~= Seq::<char>::empty());
        ""
    }
}

/// The country of a row, where the header names the column and the value
/// names a country.
pub open spec fn row_country(columns: Columns, row: Seq<Seq<char>>) -> Option<Country> {
    match columns.country {
        Some(k) => Country::parse(cell(row, k)),
        None => None,
    }
}

/// The message for the number of values of a row, given that of the header.
pub open spec fn width_findings(path: Seq<char>, width: nat, row: Seq<Seq<char>>, line: usize)
    -> Seq<MessageView> {
    if row.len() != width {
        one(path, Defect::RowFieldCount, in_row(line))
    } else {
        Seq::empty()
    }
}

/// The messages for one data row: first for the number of its values, then
/// for each column that the header names, in the order of the canonical
/// header. A column that the header does not name is passed over.
#[verifier::opaque]
pub open spec fn row_findings(
    path: Seq<char>,
    columns: Columns,
    width: nat,
    row: Seq<Seq<char>>,
    line: usize,
) -> Seq<MessageView> {
    width_findings(path, width, row, line) + (match columns.federation {
        Some(k) => federation_findings(path, in_cell(line, k), cell(row, k)),
        None => Seq::empty(),
    }) + (match columns.date {
        Some(k) => date_findings(path, in_cell(line, k), cell(row, k)),
        None => Seq::empty(),
    }) + (match columns.country {
        Some(k) => country_findings(path, in_cell(line, k), cell(row, k)),
        None => Seq::empty(),
    }) + (match columns.state {
        Some(k) => state_findings(path, in_cell(line, k), cell(row, k), row_country(columns, row)),
        None => Seq::empty(),
    }) + (match columns.town {
        Some(k) => town_findings(path, in_cell(line, k), cell(row, k)),
        None => Seq::empty(),
    }) + (match columns.name {
        Some(k) => name_findings(path, in_cell(line, k), cell(row, k)),
        None => Seq::empty(),
    })
}

/// Checks one data row, which is row `line` of the file, against the columns
/// of a header of `width` columns.
pub fn check_row(columns: Columns, width: usize, row: &Vec<String>, line: usize, report: &mut Report)
    ensures
        final(report)@ == old(report)@.extended(
            row_findings(old(report)@.path, columns, width as nat, row.deep_view(), line),
        ),
{
    let ghost start = report@;
    let ghost path = start.path;
    let ghost cells = row.deep_view();
    let ghost nothing = Seq::<MessageView>::empty();
    let ghost widths = width_findings(path, width as nat, cells, line);
    let ghost federations = match columns.federation {
        Some(k) => federation_findings(path, in_cell(line, k), cell(cells, k)),
        None => nothing,
    };
    let ghost dates = match columns.date {
        Some(k) => date_findings(path, in_cell(line, k), cell(cells, k)),
        None => nothing,
    };
    let ghost countries = match columns.country {
        Some(k) => country_findings(path, in_cell(line, k), cell(cells, k)),
        None => nothing,
    };
    let ghost states = match columns.state {
        Some(k) => state_findings(
            path,
            in_cell(line, k),
            cell(cells, k),
            row_country(columns, cells),
        ),
        None => nothing,
    };
    let ghost towns = match columns.town {
        Some(k) => town_findings(path, in_cell(line, k), cell(cells, k)),
        None => nothing,
    };
    let ghost names = match columns.name {
        Some(k) => name_findings(path, in_cell(line, k), cell(cells, k)),
        None => nothing,
    };

    if row.len() != width {
        note(report, Defect::RowFieldCount, Some(Place { row: line, column: None }));
    }
    assert(report@ == start.extended(widths)) by {
        lemma_extended(start, nothing, nothing);
    }

    let ghost mid = report@;
    match columns.federation {
        Some(k) => check_federation(
            cell_at(row, k),
            Some(Place { row: line, column: Some(k) }),
            report,
        ),
        None => {},
    }
    assert(report@ == start.extended(widths + federations)) by {
        lemma_extended(mid, nothing, nothing);
        lemma_extended(start, widths, federations);
    }

    let ghost mid = report@;
    match columns.date {
        Some(k) => {
            let _ = check_date(cell_at(row, k), Some(Place { row: line, column: Some(k) }), report);
        },
        None => {},
    }
    assert(report@ == start.extended(widths + federations + dates)) by {
        lemma_extended(mid, nothing, nothing);
        lemma_extended(start, widths + federations, dates);
    }

    let ghost mid = report@;
    let country = match columns.country {
        Some(k) => check_meetcountry(
            cell_at(row, k),
            Some(Place { row: line, column: Some(k) }),
            report,
        ),
        None => None,
    };
    assert(country == row_country(columns, cells));
    assert(report@ == start.extended(widths + federations + dates + countries)) by {
        lemma_extended(mid, nothing, nothing);
        lemma_extended(start, widths + federations + dates, countries);
    }

    let ghost mid = report@;
    match columns.state {
        Some(k) => check_meetstate(
            cell_at(row, k),
            Some(Place { row: line, column: Some(k) }),
            country,
            report,
        ),
        None => {},
    }
    assert(report@ == start.extended(widths + federations + dates + countries + states)) by {
        lemma_extended(mid, nothing, nothing);
        lemma_extended(start, widths + federations + dates + countries, states);
    }

    let ghost mid = report@;
    match columns.town {
        Some(k) => check_meettown(
            cell_at(row, k),
            Some(Place { row: line, column: Some(k) }),
            report,
        ),
        None => {},
    }
    assert(report@ == start.extended(widths + federations + dates + countries + states + towns)) by {
        lemma_extended(mid, nothing, nothing);
        lemma_extended(start, widths + federations + dates + countries + states, towns);
    }

    let ghost mid = report@;
    match columns.name {
        Some(k) => check_meetname(
            cell_at(row, k),
            Some(Place { row: line, column: Some(k) }),
            report,
        ),
        None => {},
    }
    assert(report@ == start.extended(widths + federations + dates + countries + states + towns + names)) by {
        lemma_extended(mid, nothing, nothing);
        lemma_extended(start, widths + federations + dates + countries + states + towns, names);
    }
    reveal(row_findings);
}

/// The messages for the data rows among the first `n` records, the header
/// being record zero.
pub open spec fn rows_findings(
    path: Seq<char>,
    columns: Columns,
    width: nat,
    records: Seq<Seq<Seq<char>>>,
    n: int,
) -> Seq<MessageView>
    decreases n,
{
    if n <= 1 {
        Seq::empty()
    } else {
        rows_findings(path, columns, width, records, n - 1) + row_findings(
            path,
            columns,
            width,
            records[n - 1],
            (n - 1) as usize,
        )
    }
}

/// The messages for the records of a file: those for the header, then those
/// for each data row in turn. A file without records lacks its header.
pub open spec fn records_findings(path: Seq<char>, records: Seq<Seq<Seq<char>>>) -> Seq<
    MessageView,
> {
    if records.len() == 0 {
        one(path, Defect::NoHeader, None)
    } else {
        header_findings(path, records[0]) + rows_findings(
            path,
            Columns::of(records[0]),
            records[0].len(),
            records,
            records.len() as int,
        )
    }
}

/// Checks the records of a meet file, the first of which is its header, and
/// appends what it finds to the report. Every record is looked at, whatever
/// was found before it.
pub fn check_records(records: &Vec<Vec<String>>, report: Report) -> (checked: Report)
    ensures
        checked@ == report@.extended(records_findings(report@.path, records.deep_view())),
{
    let mut checked = report;
    let ghost path = report@.path;
    let ghost all = records.deep_view();
    if records.len() == 0 {
        note(&mut checked, Defect::NoHeader, None);
        return checked;
    }
    assert(all[0] == records@[0].deep_view());
    check_headers(&records[0], &mut checked);
    let columns = Columns::locate(&records[0]);
    let width = records[0].len();
    let ghost head = header_findings(path, all[0]);
    assert(head + Seq::<MessageView>::empty() =~= head);
    let mut i: usize = 1;
    while i < records.len()
        invariant
            1 <= i <= records.len(),
            all == records.deep_view(),
            path == report@.path,
            head == header_findings(path, all[0]),
            width == all[0].len(),
            checked@ == report@.extended(
                head + rows_findings(path, columns, width as nat, all, i as int),
            ),
        decreases records.len() - i,
    {
        let ghost before = rows_findings(path, columns, width as nat, all, i as int);
        assert(all[i as int] == records@[i as int].deep_view());
        check_row(columns, width, &records[i], i, &mut checked);
        proof {
            let row = row_findings(path, columns, width as nat, all[i as int], i);
            assert(rows_findings(path, columns, width as nat, all, i + 1) == before + row);
            lemma_extended(report@, head + before, row);
            assert((head + before) + row =~= head + (before + row));
        }
        i += 1;
    }
    checked
}

/// Why the records of a file could not be read.
#[derive(Debug)]
pub struct ReadFailure {
    /// What the row source reported.
    pub cause: csv::Error,
}

/// Checks a meet file given as the bytes of its CSV text.
///
/// The bytes are split into records by the row source; where it fails, so
/// does this function, and the report is lost with it. Otherwise the result
/// is that of [`check_records`] on the records.
pub fn do_check(data: &[u8], report: Report) -> (outcome: Result<Report, ReadFailure>)
    ensures
        match outcome {
            Ok(checked) => csv_records(data@) matches Some(records) && checked@
                == report@.extended(records_findings(report@.path, records)),
            Err(_) => csv_records(data@).is_none(),
        },
        crate::conformance::checked(data@, report@) == match outcome {
            Ok(checked) => Some(checked@),
            Err(_) => None,
        },
{
    match read_records(data) {
        Ok(records) => Ok(check_records(&records, report)),
        Err(cause) => Err(ReadFailure { cause }),
    }
}

/// Whether `c` may stand in the name of the directory of a meet: an ASCII
/// letter, an ASCII digit or a hyphen.
pub open spec fn is_meetpath_char(c: char) -> bool {
    is_letter(c) || is_digit(c) || c == '-'
}

/// Whether `s` can name the directory of a meet: it is not empty, and holds
/// ASCII letters, ASCII digits and hyphens only.
pub open spec fn is_meetpath(s: Seq<char>) -> bool {
    &&& s.len() > 0
    &&& forall|i: int| 0 <= i < s.len() ==> is_meetpath_char(#[trigger] s[i])
}

/// The index of the last slash among the first `end` characters of `s`, or
/// `-1` where there is none.
pub open spec fn last_slash(s: Seq<char>, end: int) -> int
    decreases end,
{
    if end <= 0 {
        -1
    } else if s[end - 1] == '/' {
        end - 1
    } else {
        last_slash(s, end - 1)
    }
}

/// The name of the directory that holds the file at `path`: what stands
/// between the last two slashes, or before the only one. `None` where the
/// path holds no slash.
pub open spec fn meetpath_of(path: Seq<char>) -> Option<Seq<char>> {
    let file = last_slash(path, path.len() as int);
    if file < 0 {
        None
    } else {
        Some(path.subrange(last_slash(path, file) + 1, file))
    }
}

/// The messages for the path of a meet file: one error where the path names
/// no directory, or one whose name cannot name a meet.
pub open spec fn meetpath_findings(path: Seq<char>) -> Seq<MessageView> {
    match meetpath_of(path) {
        None => one(path, Defect::NoMeetPath, None),
        Some(name) => if is_meetpath(name) {
            Seq::empty()
        } else {
            one(path, Defect::InvalidMeetPath, None)
        },
    }
}

/// The last slash lies before `end`, and no slash stands between it and `end`.
pub proof fn lemma_last_slash(s: Seq<char>, end: int)
    requires
        0 <= end <= s.len(),
    ensures
        -1 <= last_slash(s, end) < end,
        last_slash(s, end) >= 0 ==> s[last_slash(s, end)] == '/',
        forall|i: int| last_slash(s, end) < i < end ==> s[i] != '/',
    decreases end,
{
    if end > 0 && s[end - 1] != '/' {
        lemma_last_slash(s, end - 1);
    }
}

/// The index of the last slash among the first `end` characters.
fn find_last_slash(chars: &Vec<char>, end: usize) -> (found: Option<usize>)
    requires
        end <= chars@.len(),
    ensures
        match found {
            Some(i) => i == last_slash(chars@, end as int),
            None => last_slash(chars@, end as int) == -1,
        },
{
    let mut i: usize = end;
    while i > 0
        invariant
            i <= end <= chars@.len(),
            last_slash(chars@, end as int) == last_slash(chars@, i as int),
        decreases i,
    {
        if chars[i - 1] == '/' {
            return Some(i - 1);
        }
        i -= 1;
    }
    None
}

/// Whether `s` can name the directory of a meet.
pub fn valid_meetpath(s: &str) -> (valid: bool)
    ensures
        valid == is_meetpath(s@),
{
    let chars = to_chars(s);
    if chars.len() == 0 {
        return false;
    }
    let mut i: usize = 0;
    while i < chars.len()
        invariant
            i <= chars.len(),
            chars@ == s@,
            forall|j: int| 0 <= j < i ==> is_meetpath_char(#[trigger] chars@[j]),
        decreases chars.len() - i,
    {
        let c = chars[i];
        let allowed = (c >= 'A' && c <= 'Z') || (c >= 'a' && c <= 'z') || (c >= '0' && c <= '9')
            || c == '-';
        if !allowed {
            return false;
        }
        i += 1;
    }
    true
}

/// The name of the directory that holds the file at `path`, if the path
/// names one.
pub fn file_to_meetpath(path: &str) -> (name: Option<String>)
    ensures
        match name {
            Some(n) => meetpath_of(path@) == Some(n@),
            None => meetpath_of(path@).is_none(),
        },
{
    let chars = to_chars(path);
    match find_last_slash(&chars, chars.len()) {
        None => None,
        Some(file) => {
            proof {
                lemma_last_slash(chars@, chars@.len() as int);
                lemma_last_slash(chars@, file as int);
            }
            let start = match find_last_slash(&chars, file) {
                Some(dir) => dir + 1,
                None => 0,
            };
            Some(path.substring_char(start, file).to_owned())
        },
    }
}

/// Checks that the directory of the meet, as the path of the report names
/// it, bears a name of ASCII letters, digits and hyphens. Appends one error
/// where it does not, and returns the name where it does.
pub fn check_meetpath(report: &mut Report) -> (name: Option<String>)
    ensures
        final(report)@ == old(report)@.extended(meetpath_findings(old(report)@.path)),
        match name {
            Some(n) => meetpath_of(old(report)@.path) == Some(n@) && is_meetpath(n@),
            None => !(meetpath_of(old(report)@.path) matches Some(n) && is_meetpath(n)),
        },
{
    match file_to_meetpath(report.path()) {
        None => {
            note(report, Defect::NoMeetPath, None);
            None
        },
        Some(n) => {
            if valid_meetpath(n.as_str()) {
                proof {
                    lemma_extended(report@, Seq::empty(), Seq::empty());
                }
                Some(n)
            } else {
                note(report, Defect::InvalidMeetPath, None);
                None
            }
        },
    }
}

} // verus!
