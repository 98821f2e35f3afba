//! The subdivisions of India.

use vstd::prelude::*;
use crate::ParseFailure;
use crate::text::{is_plain_code, outline, str_eq};

verus! {

/// A state in India.
#[derive(Copy, Clone, Debug, PartialEq, Eq, Structural)]
pub enum IndiaState {
    /// Andaman and Nicobar Islands.
    AN,
    /// Andhra Pradesh.
    AP,
    /// Arunachal Pradesh.
    AR,
    /// Assam.
    AS,
    /// Bihar.
    BR,
    /// Chhattisgarh.
    CG,
    /// Chandigarh.
    CH,
    /// Daman and Diu.
    DD,
    /// Dadra and Nagar Haveli.
    DH,
    /// Delhi.
    DL,
    /// Goa.
    GA,
    /// Gujarat.
    GJ,
    /// Haryana.
    HR,
    /// Himachal Pradesh.
    HP,
    /// Jammu and Kashmir.
    JK,
    /// Jharkhand.
    JH,
    /// Karnataka.
    KA,
    /// Kerala.
    KL,
    /// Lakshadweep.
    LD,
    /// Madhya Pradesh.
    MP,
    /// Maharashtra.
    MH,
    /// Manipur.
    MN,
    /// Meghalaya.
    ML,
    /// Mizoram.
    MZ,
    /// Nagaland.
    NL,
    /// Orissa.
    OR,
    /// Punjab.
    PB,
    /// Pondicherry / Puducherry.
    PY,
    /// Rajasthan.
    RJ,
    /// Sikkim.
    SK,
    /// Tamil Nadu.
    TN,
    /// Tripura.
    TR,
    /// Uttarakhand.
    UK,
    /// Uttar Pradesh.
    UP,
    /// West Bengal.
    WB,
}

impl IndiaState {
    /// The code under which this state is written in the MeetState column.
    pub open spec fn code(self) -> Seq<char> {
        match self {
            IndiaState::AN => "AN"@,
            IndiaState::AP => "AP"@,
            IndiaState::AR => "AR"@,
            IndiaState::AS => "AS"@,
            IndiaState::BR => "BR"@,
            IndiaState::CG => "CG"@,
            IndiaState::CH => "CH"@,
            IndiaState::DD => "DD"@,
            IndiaState::DH => "DH"@,
            IndiaState::DL => "DL"@,
            IndiaState::GA => "GA"@,
            IndiaState::GJ => "GJ"@,
            IndiaState::HR => "HR"@,
            IndiaState::HP => "HP"@,
            IndiaState::JK => "JK"@,
            IndiaState::JH => "JH"@,
            IndiaState::KA => "KA"@,
            IndiaState::KL => "KL"@,
            IndiaState::LD => "LD"@,
            IndiaState::MP => "MP"@,
            IndiaState::MH => "MH"@,
            IndiaState::MN => "MN"@,
            IndiaState::ML => "ML"@,
            IndiaState::MZ => "MZ"@,
            IndiaState::NL => "NL"@,
            IndiaState::OR => "OR"@,
            IndiaState::PB => "PB"@,
            IndiaState::PY => "PY"@,
            IndiaState::RJ => "RJ"@,
            IndiaState::SK => "SK"@,
            IndiaState::TN => "TN"@,
            IndiaState::TR => "TR"@,
            IndiaState::UK => "UK"@,
            IndiaState::UP => "UP"@,
            IndiaState::WB => "WB"@,
        }
    }

    /// The state that `code` names, if it names one.
    pub open spec fn parse(code: Seq<char>) -> Option<Self> {
        if exists|v: Self| v.code() == code {
            Some(choose|v: Self| v.code() == code)
        } else {
            None
        }
    }

    /// Every code is one to four ASCII letters, and no two members share a code.
    pub proof fn lemma_codes(a: Self, b: Self)
        ensures
            is_plain_code(a.code()),
            a.code() == b.code() ==> a == b,
    {
        reveal_strlit("AN");
        reveal_strlit("AP");
        reveal_strlit("AR");
        reveal_strlit("AS");
        reveal_strlit("BR");
        reveal_strlit("CG");
        reveal_strlit("CH");
        reveal_strlit("DD");
        reveal_strlit("DH");
        reveal_strlit("DL");
        reveal_strlit("GA");
        reveal_strlit("GJ");
        reveal_strlit("HR");
        reveal_strlit("HP");
        reveal_strlit("JK");
        reveal_strlit("JH");
        reveal_strlit("KA");
        reveal_strlit("KL");
        reveal_strlit("LD");
        reveal_strlit("MP");
        reveal_strlit("MH");
        reveal_strlit("MN");
        reveal_strlit("ML");
        reveal_strlit("MZ");
        reveal_strlit("NL");
        reveal_strlit("OR");
        reveal_strlit("PB");
        reveal_strlit("PY");
        reveal_strlit("RJ");
        reveal_strlit("SK");
        reveal_strlit("TN");
        reveal_strlit("TR");
        reveal_strlit("UK");
        reveal_strlit("UP");
        reveal_strlit("WB");
        assert(outline(a.code()) == outline(a.code()));
        assert(a.code() == b.code() ==> outline(a.code()) == outline(b.code()));
    }

    /// Parsing the code of a state gives that state back.
    pub proof fn lemma_parse_code(v: Self)
        ensures
            Self::parse(v.code()) == Some(v),
    {
        Self::lemma_codes(v, choose|w: Self| w.code() == v.code());
    }

    /// The code of this state.
    pub fn as_str(self) -> (code: &'static str)
        ensures
            code@ == self.code(),
    {
        match self {
            IndiaState::AN => "AN",
            IndiaState::AP => "AP",
            IndiaState::AR => "AR",
            IndiaState::AS => "AS",
            IndiaState::BR => "BR",
            IndiaState::CG => "CG",
            IndiaState::CH => "CH",
            IndiaState::DD => "DD",
            IndiaState::DH => "DH",
            IndiaState::DL => "DL",
            IndiaState::GA => "GA",
            IndiaState::GJ => "GJ",
            IndiaState::HR => "HR",
            IndiaState::HP => "HP",
            IndiaState::JK => "JK",
            IndiaState::JH => "JH",
            IndiaState::KA => "KA",
            IndiaState::KL => "KL",
            IndiaState::LD => "LD",
            IndiaState::MP => "MP",
            IndiaState::MH => "MH",
            IndiaState::MN => "MN",
            IndiaState::ML => "ML",
            IndiaState::MZ => "MZ",
            IndiaState::NL => "NL",
            IndiaState::OR => "OR",
            IndiaState::PB => "PB",
            IndiaState::PY => "PY",
            IndiaState::RJ => "RJ",
            IndiaState::SK => "SK",
            IndiaState::TN => "TN",
            IndiaState::TR => "TR",
            IndiaState::UK => "UK",
            IndiaState::UP => "UP",
            IndiaState::WB => "WB",
        }
    }

    /// The code of this state, as an owned string.
    pub fn to_string(self) -> (code: String)
        ensures
            code@ == self.code(),
    {
        self.as_str().to_owned()
    }

    /// The state whose code is exactly `s`.
    fn find(s: &str) -> (found: Option<Self>)
        ensures
            match found {
                Some(v) => v.code() == s@,
                None => forall|v: Self| v.code() != s@,
            },
    {
        if str_eq(s, "AN") {
            return Some(IndiaState::AN);
        }
        if str_eq(s, "AP") {
            return Some(IndiaState::AP);
        }
        if str_eq(s, "AR") {
            return Some(IndiaState::AR);
        }
        if str_eq(s, "AS") {
            return Some(IndiaState::AS);
        }
        if str_eq(s, "BR") {
            return Some(IndiaState::BR);
        }
        if str_eq(s, "CG") {
            return Some(IndiaState::CG);
        }
        if str_eq(s, "CH") {
            return Some(IndiaState::CH);
        }
        if str_eq(s, "DD") {
            return Some(IndiaState::DD);
        }
        if str_eq(s, "DH") {
            return Some(IndiaState::DH);
        }
        if str_eq(s, "DL") {
            return Some(IndiaState::DL);
        }
        if str_eq(s, "GA") {
            return Some(IndiaState::GA);
        }
        if str_eq(s, "GJ") {
            return Some(IndiaState::GJ);
        }
        if str_eq(s, "HR") {
            return Some(IndiaState::HR);
        }
        if str_eq(s, "HP") {
            return Some(IndiaState::HP);
        }
        if str_eq(s, "JK") {
            return Some(IndiaState::JK);
        }
        if str_eq(s, "JH") {
            return Some(IndiaState::JH);
        }
        if str_eq(s, "KA") {
            return Some(IndiaState::KA);
        }
        if str_eq(s, "KL") {
            return Some(IndiaState::KL);
        }
        if str_eq(s, "LD") {
            return Some(IndiaState::LD);
        }
        if str_eq(s, "MP") {
            return Some(IndiaState::MP);
        }
        if str_eq(s, "MH") {
            return Some(IndiaState::MH);
        }
        if str_eq(s, "MN") {
            return Some(IndiaState::MN);
        }
        if str_eq(s, "ML") {
            return Some(IndiaState::ML);
        }
        if str_eq(s, "MZ") {
            return Some(IndiaState::MZ);
        }
        if str_eq(s, "NL") {
            return Some(IndiaState::NL);
        }
        if str_eq(s, "OR") {
            return Some(IndiaState::OR);
        }
        if str_eq(s, "PB") {
            return Some(IndiaState::PB);
        }
        if str_eq(s, "PY") {
            return Some(IndiaState::PY);
        }
        if str_eq(s, "RJ") {
            return Some(IndiaState::RJ);
        }
        if str_eq(s, "SK") {
            return Some(IndiaState::SK);
        }
        if str_eq(s, "TN") {
            return Some(IndiaState::TN);
        }
        if str_eq(s, "TR") {
            return Some(IndiaState::TR);
        }
        if str_eq(s, "UK") {
            return Some(IndiaState::UK);
        }
        if str_eq(s, "UP") {
            return Some(IndiaState::UP);
        }
        if str_eq(s, "WB") {
            return Some(IndiaState::WB);
        }
        None
    }

    /// Parses the code of a state. The match is exact and case-sensitive.
    pub fn from_str(s: &str) -> (parsed: Result<Self, ParseFailure>)
        ensures
            parsed == match Self::parse(s@) {
                Some(v) => Ok::<Self, ParseFailure>(v),
                None => Err(ParseFailure::VariantNotFound),
            },
    {
        match Self::find(s) {
            Some(v) => {
                proof {
                    Self::lemma_codes(v, choose|w: Self| w.code() == s@);
                }
                Ok(v)
            },
            None => Err(ParseFailure::VariantNotFound),
        }
    }
}

} // verus!
