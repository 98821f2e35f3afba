//! The row source: the records of a CSV text, as the `csv` crate reads them.

use vstd::prelude::*;

verus! {

/// The error of the `csv` crate.
#[verifier::external_type_specification]
#[verifier::external_body]
pub struct ExCsvError(csv::Error);

/// The records that the `csv` crate reads from `data`, each a sequence of
/// fields, when quoting is off and the first record is treated like the
/// others; `None` where the reader reports an error.
pub uninterp spec fn csv_records(data: Seq<u8>) -> Option<Seq<Seq<Seq<char>>>>;

/// Reads all records of `data` with `csv::Reader::records`, the reader
/// built by `csv::ReaderBuilder` with `has_headers(false)` and
/// `quoting(false)`. The contract claims only that the outcome is the one
/// named [`csv_records`]: the same bytes give the same records, or fail alike.
#[verifier::external_body]
pub(crate) fn read_records(data: &[u8]) -> (read: Result<Vec<Vec<String>>, csv::Error>)
    ensures
        match read {
            Ok(records) => csv_records(data@) == Some(records.deep_view()),
            Err(_) => csv_records(data@).is_none(),
        },
{
    let mut reader = csv::ReaderBuilder::new().has_headers(false).quoting(false).from_reader(data);
    let mut records: Vec<Vec<String>> = Vec::new();
    for record in reader.records() {
        records.push(record?.iter().map(String::from).collect());
    }
    Ok(records)
}

} // verus!
