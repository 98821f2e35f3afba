//! Validation of meet files: the table that describes one competition, and
//! the path under which it is kept.
//!
//! [`check_meet`] holds the checks of the header, of the rows and of the
//! path; [`report`] the log that they fill; [`conformance`] what the log says
//! of a file; [`country`] and [`states`] the closed geographic codes that the
//! rows are held against; [`date`] the Date column; [`rows`] the row source;
//! [`text`] helpers for text.

use vstd::prelude::*;

pub mod check_meet;
pub mod conformance;
pub mod country;
pub mod date;
pub mod report;
pub mod rows;
pub mod states;
pub mod text;

pub use country::Country;
pub use report::Report;
pub use states::State;

verus! {

/// Why a subdivision or a combined code could not be parsed.
#[derive(Clone, Copy, Debug, PartialEq, Eq, Structural)]
pub enum ParseFailure {
    /// The text names no member of the enumeration it was looked up in.
    VariantNotFound,
}

/// The outcome of a lookup: the member that was found, or `VariantNotFound`.
pub open spec fn found<T>(member: Option<T>) -> Result<T, ParseFailure> {
    match member {
        Some(v) => Ok(v),
        None => Err(ParseFailure::VariantNotFound),
    }
}

} // verus!
