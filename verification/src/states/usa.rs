//! The subdivisions of the USA.

use vstd::prelude::*;
use crate::ParseFailure;
use crate::text::{is_plain_code, outline, str_eq};

verus! {

/// A state in the USA.
#[derive(Copy, Clone, Debug, PartialEq, Eq, Structural)]
pub enum USAState {
    AL,
    AK,
    AZ,
    AR,
    CA,
    CO,
    CT,
    DE,
    DC,
    FL,
    GA,
    HI,
    ID,
    IL,
    IN,
    IA,
    KS,
    KY,
    LA,
    ME,
    MD,
    MA,
    MI,
    MN,
    MS,
    MO,
    MT,
    NE,
    NV,
    NH,
    NJ,
    NM,
    NY,
    NC,
    ND,
    OH,
    OK,
    OR,
    PA,
    RI,
    SC,
    SD,
    TN,
    TX,
    UT,
    VT,
    VA,
    WA,
    WV,
    WI,
    WY,
    /// Guam is an unincorporated territory of the USA.
    Guam,
}

impl USAState {
    /// The code under which this state is written in the MeetState column.
    pub open spec fn code(self) -> Seq<char> {
        match self {
            USAState::AL => "AL"@,
            USAState::AK => "AK"@,
            USAState::AZ => "AZ"@,
            USAState::AR => "AR"@,
            USAState::CA => "CA"@,
            USAState::CO => "CO"@,
            USAState::CT => "CT"@,
            USAState::DE => "DE"@,
            USAState::DC => "DC"@,
            USAState::FL => "FL"@,
            USAState::GA => "GA"@,
            USAState::HI => "HI"@,
            USAState::ID => "ID"@,
            USAState::IL => "IL"@,
            USAState::IN => "IN"@,
            USAState::IA => "IA"@,
            USAState::KS => "KS"@,
            USAState::KY => "KY"@,
            USAState::LA => "LA"@,
            USAState::ME => "ME"@,
            USAState::MD => "MD"@,
            USAState::MA => "MA"@,
            USAState::MI => "MI"@,
            USAState::MN => "MN"@,
            USAState::MS => "MS"@,
            USAState::MO => "MO"@,
            USAState::MT => "MT"@,
            USAState::NE => "NE"@,
            USAState::NV => "NV"@,
            USAState::NH => "NH"@,
            USAState::NJ => "NJ"@,
            USAState::NM => "NM"@,
            USAState::NY => "NY"@,
            USAState::NC => "NC"@,
            USAState::ND => "ND"@,
            USAState::OH => "OH"@,
            USAState::OK => "OK"@,
            USAState::OR => "OR"@,
            USAState::PA => "PA"@,
            USAState::RI => "RI"@,
            USAState::SC => "SC"@,
            USAState::SD => "SD"@,
            USAState::TN => "TN"@,
            USAState::TX => "TX"@,
            USAState::UT => "UT"@,
            USAState::VT => "VT"@,
            USAState::VA => "VA"@,
            USAState::WA => "WA"@,
            USAState::WV => "WV"@,
            USAState::WI => "WI"@,
            USAState::WY => "WY"@,
            USAState::Guam => "Guam"@,
        }
    }

    /// The state that `code` names, if it names one.
    pub open spec fn parse(code: Seq<char>) -> Option<Self> {
        if exists|v: Self| v.code() == code {
            Some(choose|v: Self| v.code() == code)
        } else {
            None
        }
    }

    /// Every code is one to four ASCII letters, and no two members share a code.
    pub proof fn lemma_codes(a: Self, b: Self)
        ensures
            is_plain_code(a.code()),
            a.code() == b.code() ==> a == b,
    {
        reveal_strlit("AL");
        reveal_strlit("AK");
        reveal_strlit("AZ");
        reveal_strlit("AR");
        reveal_strlit("CA");
        reveal_strlit("CO");
        reveal_strlit("CT");
        reveal_strlit("DE");
        reveal_strlit("DC");
        reveal_strlit("FL");
        reveal_strlit("GA");
        reveal_strlit("HI");
        reveal_strlit("ID");
        reveal_strlit("IL");
        reveal_strlit("IN");
        reveal_strlit("IA");
        reveal_strlit("KS");
        reveal_strlit("KY");
        reveal_strlit("LA");
        reveal_strlit("ME");
        reveal_strlit("MD");
        reveal_strlit("MA");
        reveal_strlit("MI");
        reveal_strlit("MN");
        reveal_strlit("MS");
        reveal_strlit("MO");
        reveal_strlit("MT");
        reveal_strlit("NE");
        reveal_strlit("NV");
        reveal_strlit("NH");
        reveal_strlit("NJ");
        reveal_strlit("NM");
        reveal_strlit("NY");
        reveal_strlit("NC");
        reveal_strlit("ND");
        reveal_strlit("OH");
        reveal_strlit("OK");
        reveal_strlit("OR");
        reveal_strlit("PA");
        reveal_strlit("RI");
        reveal_strlit("SC");
        reveal_strlit("SD");
        reveal_strlit("TN");
        reveal_strlit("TX");
        reveal_strlit("UT");
        reveal_strlit("VT");
        reveal_strlit("VA");
        reveal_strlit("WA");
        reveal_strlit("WV");
        reveal_strlit("WI");
        reveal_strlit("WY");
        reveal_strlit("Guam");
        assert(outline(a.code()) == outline(a.code()));
        assert(a.code() == b.code() ==> outline(a.code()) == outline(b.code()));
    }

    /// Parsing the code of a state gives that state back.
    pub proof fn lemma_parse_code(v: Self)
        ensures
            Self::parse(v.code()) == Some(v),
    {
        Self::lemma_codes(v, choose|w: Self| w.code() == v.code());
    }

    /// The code of this state.
    pub fn as_str(self) -> (code: &'static str)
        ensures
            code@ == self.code(),
    {
        match self {
            USAState::AL => "AL",
            USAState::AK => "AK",
            USAState::AZ => "AZ",
            USAState::AR => "AR",
            USAState::CA => "CA",
            USAState::CO => "CO",
            USAState::CT => "CT",
            USAState::DE => "DE",
            USAState::DC => "DC",
            USAState::FL => "FL",
            USAState::GA => "GA",
            USAState::HI => "HI",
            USAState::ID => "ID",
            USAState::IL => "IL",
            USAState::IN => "IN",
            USAState::IA => "IA",
            USAState::KS => "KS",
            USAState::KY => "KY",
            USAState::LA => "LA",
            USAState::ME => "ME",
            USAState::MD => "MD",
            USAState::MA => "MA",
            USAState::MI => "MI",
            USAState::MN => "MN",
            USAState::MS => "MS",
            USAState::MO => "MO",
            USAState::MT => "MT",
            USAState::NE => "NE",
            USAState::NV => "NV",
            USAState::NH => "NH",
            USAState::NJ => "NJ",
            USAState::NM => "NM",
            USAState::NY => "NY",
            USAState::NC => "NC",
            USAState::ND => "ND",
            USAState::OH => "OH",
            USAState::OK => "OK",
            USAState::OR => "OR",
            USAState::PA => "PA",
            USAState::RI => "RI",
            USAState::SC => "SC",
            USAState::SD => "SD",
            USAState::TN => "TN",
            USAState::TX => "TX",
            USAState::UT => "UT",
            USAState::VT => "VT",
            USAState::VA => "VA",
            USAState::WA => "WA",
            USAState::WV => "WV",
            USAState::WI => "WI",
            USAState::WY => "WY",
            USAState::Guam => "Guam",
        }
    }

    /// The code of this state, as an owned string.
    pub fn to_string(self) -> (code: String)
        ensures
            code@ == self.code(),
    {
        self.as_str().to_owned()
    }

    /// The state whose code is exactly `s`.
    fn find(s: &str) -> (found: Option<Self>)
        ensures
            match found {
                Some(v) => v.code() == s@,
                None => forall|v: Self| v.code() != s@,
            },
    {
        if str_eq(s, "AL") {
            return Some(USAState::AL);
        }
        if str_eq(s, "AK") {
            return Some(USAState::AK);
        }
        if str_eq(s, "AZ") {
            return Some(USAState::AZ);
        }
        if str_eq(s, "AR") {
            return Some(USAState::AR);
        }
        if str_eq(s, "CA") {
            return Some(USAState::CA);
        }
        if str_eq(s, "CO") {
            return Some(USAState::CO);
        }
        if str_eq(s, "CT") {
            return Some(USAState::CT);
        }
        if str_eq(s, "DE") {
            return Some(USAState::DE);
        }
        if str_eq(s, "DC") {
            return Some(USAState::DC);
        }
        if str_eq(s, "FL") {
            return Some(USAState::FL);
        }
        if str_eq(s, "GA") {
            return Some(USAState::GA);
        }
        if str_eq(s, "HI") {
            return Some(USAState::HI);
        }
        if str_eq(s, "ID") {
            return Some(USAState::ID);
        }
        if str_eq(s, "IL") {
            return Some(USAState::IL);
        }
        if str_eq(s, "IN") {
            return Some(USAState::IN);
        }
        if str_eq(s, "IA") {
            return Some(USAState::IA);
        }
        if str_eq(s, "KS") {
            return Some(USAState::KS);
        }
        if str_eq(s, "KY") {
            return Some(USAState::KY);
        }
        if str_eq(s, "LA") {
            return Some(USAState::LA);
        }
        if str_eq(s, "ME") {
            return Some(USAState::ME);
        }
        if str_eq(s, "MD") {
            return Some(USAState::MD);
        }
        if str_eq(s, "MA") {
            return Some(USAState::MA);
        }
        if str_eq(s, "MI") {
            return Some(USAState::MI);
        }
        if str_eq(s, "MN") {
            return Some(USAState::MN);
        }
        if str_eq(s, "MS") {
            return Some(USAState::MS);
        }
        if str_eq(s, "MO") {
            return Some(USAState::MO);
        }
        if str_eq(s, "MT") {
            return Some(USAState::MT);
        }
        if str_eq(s, "NE") {
            return Some(USAState::NE);
        }
        if str_eq(s, "NV") {
            return Some(USAState::NV);
        }
        if str_eq(s, "NH") {
            return Some(USAState::NH);
        }
        if str_eq(s, "NJ") {
            return Some(USAState::NJ);
        }
        if str_eq(s, "NM") {
            return Some(USAState::NM);
        }
        if str_eq(s, "NY") {
            return Some(USAState::NY);
        }
        if str_eq(s, "NC") {
            return Some(USAState::NC);
        }
        if str_eq(s, "ND") {
            return Some(USAState::ND);
        }
        if str_eq(s, "OH") {
            return Some(USAState::OH);
        }
        if str_eq(s, "OK") {
            return Some(USAState::OK);
        }
        if str_eq(s, "OR") {
            return Some(USAState::OR);
        }
        if str_eq(s, "PA") {
            return Some(USAState::PA);
        }
        if str_eq(s, "RI") {
            return Some(USAState::RI);
        }
        if str_eq(s, "SC") {
            return Some(USAState::SC);
        }
        if str_eq(s, "SD") {
            return Some(USAState::SD);
        }
        if str_eq(s, "TN") {
            return Some(USAState::TN);
        }
        if str_eq(s, "TX") {
            return Some(USAState::TX);
        }
        if str_eq(s, "UT") {
            return Some(USAState::UT);
        }
        if str_eq(s, "VT") {
            return Some(USAState::VT);
        }
        if str_eq(s, "VA") {
            return Some(USAState::VA);
        }
        if str_eq(s, "WA") {
            return Some(USAState::WA);
        }
        if str_eq(s, "WV") {
            return Some(USAState::WV);
        }
        if str_eq(s, "WI") {
            return Some(USAState::WI);
        }
        if str_eq(s, "WY") {
            return Some(USAState::WY);
        }
        if str_eq(s, "Guam") {
            return Some(USAState::Guam);
        }
        None
    }

    /// Parses the code of a state. The match is exact and case-sensitive.
    pub fn from_str(s: &str) -> (parsed: Result<Self, ParseFailure>)
        ensures
            parsed == match Self::parse(s@) {
                Some(v) => Ok::<Self, ParseFailure>(v),
                None => Err(ParseFailure::VariantNotFound),
            },
    {
        match Self::find(s) {
            Some(v) => {
                proof {
                    Self::lemma_codes(v, choose|w: Self| w.code() == s@);
                }
                Ok(v)
            },
            None => Err(ParseFailure::VariantNotFound),
        }
    }
}

} // verus!
