//! The subdivisions of Canada.

use vstd::prelude::*;
use crate::ParseFailure;
use crate::text::{is_plain_code, outline, str_eq};

verus! {

/// A state in Canada.
#[derive(Copy, Clone, Debug, PartialEq, Eq, Structural)]
pub enum CanadaState {
    /// Alberta.
    AB,
    /// British Columbia.
    BC,
    /// Manitoba.
    MB,
    /// New Brunswick.
    NB,
    /// Newfoundland and Labrador.
    NL,
    /// Northwest Territories.
    NT,
    /// Nova Scotia.
    NS,
    /// Nunavut.
    NU,
    /// Ontario.
    ON,
    /// Prince Edward Island.
    PE,
    /// Quebec.
    QC,
    /// Saskatchewan.
    SK,
    /// Yukon.
    YT,
}

impl CanadaState {
    /// The code under which this state is written in the MeetState column.
    pub open spec fn code(self) -> Seq<char> {
        match self {
            CanadaState::AB => "AB"@,
            CanadaState::BC => "BC"@,
            CanadaState::MB => "MB"@,
            CanadaState::NB => "NB"@,
            CanadaState::NL => "NL"@,
            CanadaState::NT => "NT"@,
            CanadaState::NS => "NS"@,
            CanadaState::NU => "NU"@,
            CanadaState::ON => "ON"@,
            CanadaState::PE => "PE"@,
            CanadaState::QC => "QC"@,
            CanadaState::SK => "SK"@,
            CanadaState::YT => "YT"@,
        }
    }

    /// The state that `code` names, if it names one.
    pub open spec fn parse(code: Seq<char>) -> Option<Self> {
        if exists|v: Self| v.code() == code {
            Some(choose|v: Self| v.code() == code)
        } else {
            None
        }
    }

    /// Every code is one to four ASCII letters, and no two members share a code.
    pub proof fn lemma_codes(a: Self, b: Self)
        ensures
            is_plain_code(a.code()),
            a.code() == b.code() ==> a == b,
    {
        reveal_strlit("AB");
        reveal_strlit("BC");
        reveal_strlit("MB");
        reveal_strlit("NB");
        reveal_strlit("NL");
        reveal_strlit("NT");
        reveal_strlit("NS");
        reveal_strlit("NU");
        reveal_strlit("ON");
        reveal_strlit("PE");
        reveal_strlit("QC");
        reveal_strlit("SK");
        reveal_strlit("YT");
        assert(outline(a.code()) == outline(a.code()));
        assert(a.code() == b.code() ==> outline(a.code()) == outline(b.code()));
    }

    /// Parsing the code of a state gives that state back.
    pub proof fn lemma_parse_code(v: Self)
        ensures
            Self::parse(v.code()) == Some(v),
    {
        Self::lemma_codes(v, choose|w: Self| w.code() == v.code());
    }

    /// The code of this state.
    pub fn as_str(self) -> (code: &'static str)
        ensures
            code@ == self.code(),
    {
        match self {
            CanadaState::AB => "AB",
            CanadaState::BC => "BC",
            CanadaState::MB => "MB",
            CanadaState::NB => "NB",
            CanadaState::NL => "NL",
            CanadaState::NT => "NT",
            CanadaState::NS => "NS",
            CanadaState::NU => "NU",
            CanadaState::ON => "ON",
            CanadaState::PE => "PE",
            CanadaState::QC => "QC",
            CanadaState::SK => "SK",
            CanadaState::YT => "YT",
        }
    }

    /// The code of this state, as an owned string.
    pub fn to_string(self) -> (code: String)
        ensures
            code@ == self.code(),
    {
        self.as_str().to_owned()
    }

    /// The state whose code is exactly `s`.
    fn find(s: &str) -> (found: Option<Self>)
        ensures
            match found {
                Some(v) => v.code() == s@,
                None => forall|v: Self| v.code() != s@,
            },
    {
        if str_eq(s, "AB") {
            return Some(CanadaState::AB);
        }
        if str_eq(s, "BC") {
            return Some(CanadaState::BC);
        }
        if str_eq(s, "MB") {
            return Some(CanadaState::MB);
        }
        if str_eq(s, "NB") {
            return Some(CanadaState::NB);
        }
        if str_eq(s, "NL") {
            return Some(CanadaState::NL);
        }
        if str_eq(s, "NT") {
            return Some(CanadaState::NT);
        }
        if str_eq(s, "NS") {
            return Some(CanadaState::NS);
        }
        if str_eq(s, "NU") {
            return Some(CanadaState::NU);
        }
        if str_eq(s, "ON") {
            return Some(CanadaState::ON);
        }
        if str_eq(s, "PE") {
            return Some(CanadaState::PE);
        }
        if str_eq(s, "QC") {
            return Some(CanadaState::QC);
        }
        if str_eq(s, "SK") {
            return Some(CanadaState::SK);
        }
        if str_eq(s, "YT") {
            return Some(CanadaState::YT);
        }
        None
    }

    /// Parses the code of a state. The match is exact and case-sensitive.
    pub fn from_str(s: &str) -> (parsed: Result<Self, ParseFailure>)
        ensures
            parsed == match Self::parse(s@) {
                Some(v) => Ok::<Self, ParseFailure>(v),
                None => Err(ParseFailure::VariantNotFound),
            },
    {
        match Self::find(s) {
            Some(v) => {
                proof {
                    Self::lemma_codes(v, choose|w: Self| w.code() == s@);
                }
                Ok(v)
            },
            None => Err(ParseFailure::VariantNotFound),
        }
    }
}

} // verus!
