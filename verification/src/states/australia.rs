//! The subdivisions of Australia.

use vstd::prelude::*;
use crate::ParseFailure;
use crate::text::{is_plain_code, outline, str_eq};

verus! {

/// A state in Australia.
#[derive(Copy, Clone, Debug, PartialEq, Eq, Structural)]
pub enum AustraliaState {
    /// Australian Capital Territory.
    ACT,
    /// Jervis Bay Territory.
    JBT,
    /// New South Wales.
    NSW,
    /// Northern Territory.
    NT,
    /// Queensland.
    QLD,
    /// South Australia.
    SA,
    /// Tasmania.
    TAS,
    /// Victoria.
    VIC,
    /// Western Australia.
    WA,
}

impl AustraliaState {
    /// The code under which this state is written in the MeetState column.
    pub open spec fn code(self) -> Seq<char> {
        match self {
            AustraliaState::ACT => "ACT"@,
            AustraliaState::JBT => "JBT"@,
            AustraliaState::NSW => "NSW"@,
            AustraliaState::NT => "NT"@,
            AustraliaState::QLD => "QLD"@,
            AustraliaState::SA => "SA"@,
            AustraliaState::TAS => "TAS"@,
            AustraliaState::VIC => "VIC"@,
            AustraliaState::WA => "WA"@,
        }
    }

    /// The state that `code` names, if it names one.
    pub open spec fn parse(code: Seq<char>) -> Option<Self> {
        if exists|v: Self| v.code() == code {
            Some(choose|v: Self| v.code() == code)
        } else {
            None
        }
    }

    /// Every code is one to four ASCII letters, and no two members share a code.
    pub proof fn lemma_codes(a: Self, b: Self)
        ensures
            is_plain_code(a.code()),
            a.code() == b.code() ==> a == b,
    {
        reveal_strlit("ACT");
        reveal_strlit("JBT");
        reveal_strlit("NSW");
        reveal_strlit("NT");
        reveal_strlit("QLD");
        reveal_strlit("SA");
        reveal_strlit("TAS");
        reveal_strlit("VIC");
        reveal_strlit("WA");
        assert(outline(a.code()) == outline(a.code()));
        assert(a.code() == b.code() ==> outline(a.code()) == outline(b.code()));
    }

    /// Parsing the code of a state gives that state back.
    pub proof fn lemma_parse_code(v: Self)
        ensures
            Self::parse(v.code()) == Some(v),
    {
        Self::lemma_codes(v, choose|w: Self| w.code() == v.code());
    }

    /// The code of this state.
    pub fn as_str(self) -> (code: &'static str)
        ensures
            code@ == self.code(),
    {
        match self {
            AustraliaState::ACT => "ACT",
            AustraliaState::JBT => "JBT",
            AustraliaState::NSW => "NSW",
            AustraliaState::NT => "NT",
            AustraliaState::QLD => "QLD",
            AustraliaState::SA => "SA",
            AustraliaState::TAS => "TAS",
            AustraliaState::VIC => "VIC",
            AustraliaState::WA => "WA",
        }
    }

    /// The code of this state, as an owned string.
    pub fn to_string(self) -> (code: String)
        ensures
            code@ == self.code(),
    {
        self.as_str().to_owned()
    }

    /// The state whose code is exactly `s`.
    fn find(s: &str) -> (found: Option<Self>)
        ensures
            match found {
                Some(v) => v.code() == s@,
                None => forall|v: Self| v.code() != s@,
            },
    {
        if str_eq(s, "ACT") {
            return Some(AustraliaState::ACT);
        }
        if str_eq(s, "JBT") {
            return Some(AustraliaState::JBT);
        }
        if str_eq(s, "NSW") {
            return Some(AustraliaState::NSW);
        }
        if str_eq(s, "NT") {
            return Some(AustraliaState::NT);
        }
        if str_eq(s, "QLD") {
            return Some(AustraliaState::QLD);
        }
        if str_eq(s, "SA") {
            return Some(AustraliaState::SA);
        }
        if str_eq(s, "TAS") {
            return Some(AustraliaState::TAS);
        }
        if str_eq(s, "VIC") {
            return Some(AustraliaState::VIC);
        }
        if str_eq(s, "WA") {
            return Some(AustraliaState::WA);
        }
        None
    }

    /// Parses the code of a state. The match is exact and case-sensitive.
    pub fn from_str(s: &str) -> (parsed: Result<Self, ParseFailure>)
        ensures
            parsed == match Self::parse(s@) {
                Some(v) => Ok::<Self, ParseFailure>(v),
                None => Err(ParseFailure::VariantNotFound),
            },
    {
        match Self::find(s) {
            Some(v) => {
                proof {
                    Self::lemma_codes(v, choose|w: Self| w.code() == s@);
                }
                Ok(v)
            },
            None => Err(ParseFailure::VariantNotFound),
        }
    }
}

} // verus!
