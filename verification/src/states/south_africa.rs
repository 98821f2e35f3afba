//! The subdivisions of South Africa.

use vstd::prelude::*;
use crate::ParseFailure;
use crate::text::{is_plain_code, outline, str_eq};

verus! {

/// A province in South Africa, using conventional acronyms (non-ISO).
#[derive(Copy, Clone, Debug, PartialEq, Eq, Structural)]
pub enum SouthAfricaState {
    /// Eastern Cape.
    EC,
    /// Free State.
    FS,
    /// Gauteng.
    GT,
    /// KwaZulu-Natal (ISO: NL).
    KZN,
    /// Limpopo.
    LP,
    /// Mpumalanga.
    MP,
    /// Northern Cape.
    NC,
    /// North-West.
    NW,
    /// Western Cape.
    WC,
}

impl SouthAfricaState {
    /// The code under which this province is written in the MeetState column.
    pub open spec fn code(self) -> Seq<char> {
        match self {
            SouthAfricaState::EC => "EC"@,
            SouthAfricaState::FS => "FS"@,
            SouthAfricaState::GT => "GT"@,
            SouthAfricaState::KZN => "KZN"@,
            SouthAfricaState::LP => "LP"@,
            SouthAfricaState::MP => "MP"@,
            SouthAfricaState::NC => "NC"@,
            SouthAfricaState::NW => "NW"@,
            SouthAfricaState::WC => "WC"@,
        }
    }

    /// The province that `code` names, if it names one.
    pub open spec fn parse(code: Seq<char>) -> Option<Self> {
        if exists|v: Self| v.code() == code {
            Some(choose|v: Self| v.code() == code)
        } else {
            None
        }
    }

    /// Every code is one to four ASCII letters, and no two members share a code.
    pub proof fn lemma_codes(a: Self, b: Self)
        ensures
            is_plain_code(a.code()),
            a.code() == b.code() ==> a == b,
    {
        reveal_strlit("EC");
        reveal_strlit("FS");
        reveal_strlit("GT");
        reveal_strlit("KZN");
        reveal_strlit("LP");
        reveal_strlit("MP");
        reveal_strlit("NC");
        reveal_strlit("NW");
        reveal_strlit("WC");
        assert(outline(a.code()) == outline(a.code()));
        assert(a.code() == b.code() ==> outline(a.code()) == outline(b.code()));
    }

    /// Parsing the code of a province gives that province back.
    pub proof fn lemma_parse_code(v: Self)
        ensures
            Self::parse(v.code()) == Some(v),
    {
        Self::lemma_codes(v, choose|w: Self| w.code() == v.code());
    }

    /// The code of this province.
    pub fn as_str(self) -> (code: &'static str)
        ensures
            code@ == self.code(),
    {
        match self {
            SouthAfricaState::EC => "EC",
            SouthAfricaState::FS => "FS",
            SouthAfricaState::GT => "GT",
            SouthAfricaState::KZN => "KZN",
            SouthAfricaState::LP => "LP",
            SouthAfricaState::MP => "MP",
            SouthAfricaState::NC => "NC",
            SouthAfricaState::NW => "NW",
            SouthAfricaState::WC => "WC",
        }
    }

    /// The code of this province, as an owned string.
    pub fn to_string(self) -> (code: String)
        ensures
            code@ == self.code(),
    {
        self.as_str().to_owned()
    }

    /// The province whose code is exactly `s`.
    fn find(s: &str) -> (found: Option<Self>)
        ensures
            match found {
                Some(v) => v.code() == s@,
                None => forall|v: Self| v.code() != s@,
            },
    {
        if str_eq(s, "EC") {
            return Some(SouthAfricaState::EC);
        }
        if str_eq(s, "FS") {
            return Some(SouthAfricaState::FS);
        }
        if str_eq(s, "GT") {
            return Some(SouthAfricaState::GT);
        }
        if str_eq(s, "KZN") {
            return Some(SouthAfricaState::KZN);
        }
        if str_eq(s, "LP") {
            return Some(SouthAfricaState::LP);
        }
        if str_eq(s, "MP") {
            return Some(SouthAfricaState::MP);
        }
        if str_eq(s, "NC") {
            return Some(SouthAfricaState::NC);
        }
        if str_eq(s, "NW") {
            return Some(SouthAfricaState::NW);
        }
        if str_eq(s, "WC") {
            return Some(SouthAfricaState::WC);
        }
        None
    }

    /// Parses the code of a province. The match is exact and case-sensitive.
    pub fn from_str(s: &str) -> (parsed: Result<Self, ParseFailure>)
        ensures
            parsed == match Self::parse(s@) {
                Some(v) => Ok::<Self, ParseFailure>(v),
                None => Err(ParseFailure::VariantNotFound),
            },
    {
        match Self::find(s) {
            Some(v) => {
                proof {
                    Self::lemma_codes(v, choose|w: Self| w.code() == s@);
                }
                Ok(v)
            },
            None => Err(ParseFailure::VariantNotFound),
        }
    }
}

} // verus!
