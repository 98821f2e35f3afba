//! The subdivisions of Germany.

use vstd::prelude::*;
use crate::ParseFailure;
use crate::text::{is_plain_code, outline, str_eq};

verus! {

/// A state in Germany.
#[derive(Copy, Clone, Debug, PartialEq, Eq, Structural)]
pub enum GermanyState {
    /// Baden-Württemberg.
    BW,
    /// Bavaria.
    BY,
    /// Berlin.
    BE,
    /// Brandenburg.
    BB,
    /// Bremen.
    HB,
    /// Hesse.
    HE,
    /// Hamburg.
    HH,
    /// Mecklenburg-Vorpommern.
    MV,
    /// Lower Saxony.
    NI,
    /// North Rhine-Westphalia.
    NRW,
    /// Rhineland-Palatinate.
    RP,
    /// Schleswig-Holstein.
    SH,
    /// Saarland.
    SL,
    /// Saxony.
    SN,
    /// Saxony-Anhalt.
    ST,
    /// Thuringia.
    TH,
}

impl GermanyState {
    /// The code under which this state is written in the MeetState column.
    pub open spec fn code(self) -> Seq<char> {
        match self {
            GermanyState::BW => "BW"@,
            GermanyState::BY => "BY"@,
            GermanyState::BE => "BE"@,
            GermanyState::BB => "BB"@,
            GermanyState::HB => "HB"@,
            GermanyState::HE => "HE"@,
            GermanyState::HH => "HH"@,
            GermanyState::MV => "MV"@,
            GermanyState::NI => "NI"@,
            GermanyState::NRW => "NRW"@,
            GermanyState::RP => "RP"@,
            GermanyState::SH => "SH"@,
            GermanyState::SL => "SL"@,
            GermanyState::SN => "SN"@,
            GermanyState::ST => "ST"@,
            GermanyState::TH => "TH"@,
        }
    }

    /// The state that `code` names, if it names one.
    pub open spec fn parse(code: Seq<char>) -> Option<Self> {
        if exists|v: Self| v.code() == code {
            Some(choose|v: Self| v.code() == code)
        } else {
            None
        }
    }

    /// Every code is one to four ASCII letters, and no two members share a code.
    pub proof fn lemma_codes(a: Self, b: Self)
        ensures
            is_plain_code(a.code()),
            a.code() == b.code() ==> a == b,
    {
        reveal_strlit("BW");
        reveal_strlit("BY");
        reveal_strlit("BE");
        reveal_strlit("BB");
        reveal_strlit("HB");
        reveal_strlit("HE");
        reveal_strlit("HH");
        reveal_strlit("MV");
        reveal_strlit("NI");
        reveal_strlit("NRW");
        reveal_strlit("RP");
        reveal_strlit("SH");
        reveal_strlit("SL");
        reveal_strlit("SN");
        reveal_strlit("ST");
        reveal_strlit("TH");
        assert(outline(a.code()) == outline(a.code()));
        assert(a.code() == b.code() ==> outline(a.code()) == outline(b.code()));
    }

    /// Parsing the code of a state gives that state back.
    pub proof fn lemma_parse_code(v: Self)
        ensures
            Self::parse(v.code()) == Some(v),
    {
        Self::lemma_codes(v, choose|w: Self| w.code() == v.code());
    }

    /// The code of this state.
    pub fn as_str(self) -> (code: &'static str)
        ensures
            code@ == self.code(),
    {
        match self {
            GermanyState::BW => "BW",
            GermanyState::BY => "BY",
            GermanyState::BE => "BE",
            GermanyState::BB => "BB",
            GermanyState::HB => "HB",
            GermanyState::HE => "HE",
            GermanyState::HH => "HH",
            GermanyState::MV => "MV",
            GermanyState::NI => "NI",
            GermanyState::NRW => "NRW",
            GermanyState::RP => "RP",
            GermanyState::SH => "SH",
            GermanyState::SL => "SL",
            GermanyState::SN => "SN",
            GermanyState::ST => "ST",
            GermanyState::TH => "TH",
        }
    }

    /// The code of this state, as an owned string.
    pub fn to_string(self) -> (code: String)
        ensures
            code@ == self.code(),
    {
        self.as_str().to_owned()
    }

    /// The state whose code is exactly `s`.
    fn find(s: &str) -> (found: Option<Self>)
        ensures
            match found {
                Some(v) => v.code() == s@,
                None => forall|v: Self| v.code() != s@,
            },
    {
        if str_eq(s, "BW") {
            return Some(GermanyState::BW);
        }
        if str_eq(s, "BY") {
            return Some(GermanyState::BY);
        }
        if str_eq(s, "BE") {
            return Some(GermanyState::BE);
        }
        if str_eq(s, "BB") {
            return Some(GermanyState::BB);
        }
        if str_eq(s, "HB") {
            return Some(GermanyState::HB);
        }
        if str_eq(s, "HE") {
            return Some(GermanyState::HE);
        }
        if str_eq(s, "HH") {
            return Some(GermanyState::HH);
        }
        if str_eq(s, "MV") {
            return Some(GermanyState::MV);
        }
        if str_eq(s, "NI") {
            return Some(GermanyState::NI);
        }
        if str_eq(s, "NRW") {
            return Some(GermanyState::NRW);
        }
        if str_eq(s, "RP") {
            return Some(GermanyState::RP);
        }
        if str_eq(s, "SH") {
            return Some(GermanyState::SH);
        }
        if str_eq(s, "SL") {
            return Some(GermanyState::SL);
        }
        if str_eq(s, "SN") {
            return Some(GermanyState::SN);
        }
        if str_eq(s, "ST") {
            return Some(GermanyState::ST);
        }
        if str_eq(s, "TH") {
            return Some(GermanyState::TH);
        }
        None
    }

    /// Parses the code of a state. The match is exact and case-sensitive.
    pub fn from_str(s: &str) -> (parsed: Result<Self, ParseFailure>)
        ensures
            parsed == match Self::parse(s@) {
                Some(v) => Ok::<Self, ParseFailure>(v),
                None => Err(ParseFailure::VariantNotFound),
            },
    {
        match Self::find(s) {
            Some(v) => {
                proof {
                    Self::lemma_codes(v, choose|w: Self| w.code() == s@);
                }
                Ok(v)
            },
            None => Err(ParseFailure::VariantNotFound),
        }
    }
}

} // verus!
