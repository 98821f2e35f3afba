//! The subdivisions of New Zealand.

use vstd::prelude::*;
use crate::ParseFailure;
use crate::text::{is_plain_code, outline, str_eq};

verus! {

/// A region in New Zealand.
#[derive(Copy, Clone, Debug, PartialEq, Eq, Structural)]
pub enum NewZealandState {
    /// Northland.
    NTL,
    /// Auckland.
    AKL,
    /// Waikato.
    WKO,
    /// Bay of Plenty.
    BOP,
    /// Gisborne (East Coast).
    GIS,
    /// Hawke's Bay.
    HKB,
    /// Taranaki.
    TKI,
    /// Manawatu-Whanganui.
    MWT,
    /// Wellington.
    WGN,
    /// Tasman.
    TAS,
    /// Nelson.
    NSN,
    /// Marlborough.
    MBH,
    /// West Coast.
    WTC,
    /// Canterbury.
    CAN,
    /// Otago.
    OTA,
    /// Southland.
    STL,
}

impl NewZealandState {
    /// The code under which this region is written in the MeetState column.
    pub open spec fn code(self) -> Seq<char> {
        match self {
            NewZealandState::NTL => "NTL"@,
            NewZealandState::AKL => "AKL"@,
            NewZealandState::WKO => "WKO"@,
            NewZealandState::BOP => "BOP"@,
            NewZealandState::GIS => "GIS"@,
            NewZealandState::HKB => "HKB"@,
            NewZealandState::TKI => "TKI"@,
            NewZealandState::MWT => "MWT"@,
            NewZealandState::WGN => "WGN"@,
            NewZealandState::TAS => "TAS"@,
            NewZealandState::NSN => "NSN"@,
            NewZealandState::MBH => "MBH"@,
            NewZealandState::WTC => "WTC"@,
            NewZealandState::CAN => "CAN"@,
            NewZealandState::OTA => "OTA"@,
            NewZealandState::STL => "STL"@,
        }
    }

    /// The region that `code` names, if it names one.
    pub open spec fn parse(code: Seq<char>) -> Option<Self> {
        if exists|v: Self| v.code() == code {
            Some(choose|v: Self| v.code() == code)
        } else {
            None
        }
    }

    /// Every code is one to four ASCII letters, and no two members share a code.
    pub proof fn lemma_codes(a: Self, b: Self)
        ensures
            is_plain_code(a.code()),
            a.code() == b.code() ==> a == b,
    {
        reveal_strlit("NTL");
        reveal_strlit("AKL");
        reveal_strlit("WKO");
        reveal_strlit("BOP");
        reveal_strlit("GIS");
        reveal_strlit("HKB");
        reveal_strlit("TKI");
        reveal_strlit("MWT");
        reveal_strlit("WGN");
        reveal_strlit("TAS");
        reveal_strlit("NSN");
        reveal_strlit("MBH");
        reveal_strlit("WTC");
        reveal_strlit("CAN");
        reveal_strlit("OTA");
        reveal_strlit("STL");
        assert(outline(a.code()) == outline(a.code()));
        assert(a.code() == b.code() ==> outline(a.code()) == outline(b.code()));
    }

    /// Parsing the code of a region gives that region back.
    pub proof fn lemma_parse_code(v: Self)
        ensures
            Self::parse(v.code()) == Some(v),
    {
        Self::lemma_codes(v, choose|w: Self| w.code() == v.code());
    }

    /// The code of this region.
    pub fn as_str(self) -> (code: &'static str)
        ensures
            code@ == self.code(),
    {
        match self {
            NewZealandState::NTL => "NTL",
            NewZealandState::AKL => "AKL",
            NewZealandState::WKO => "WKO",
            NewZealandState::BOP => "BOP",
            NewZealandState::GIS => "GIS",
            NewZealandState::HKB => "HKB",
            NewZealandState::TKI => "TKI",
            NewZealandState::MWT => "MWT",
            NewZealandState::WGN => "WGN",
            NewZealandState::TAS => "TAS",
            NewZealandState::NSN => "NSN",
            NewZealandState::MBH => "MBH",
            NewZealandState::WTC => "WTC",
            NewZealandState::CAN => "CAN",
            NewZealandState::OTA => "OTA",
            NewZealandState::STL => "STL",
        }
    }

    /// The code of this region, as an owned string.
    pub fn to_string(self) -> (code: String)
        ensures
            code@ == self.code(),
    {
        self.as_str().to_owned()
    }

    /// The region whose code is exactly `s`.
    fn find(s: &str) -> (found: Option<Self>)
        ensures
            match found {
                Some(v) => v.code() == s@,
                None => forall|v: Self| v.code() != s@,
            },
    {
        if str_eq(s, "NTL") {
            return Some(NewZealandState::NTL);
        }
        if str_eq(s, "AKL") {
            return Some(NewZealandState::AKL);
        }
        if str_eq(s, "WKO") {
            return Some(NewZealandState::WKO);
        }
        if str_eq(s, "BOP") {
            return Some(NewZealandState::BOP);
        }
        if str_eq(s, "GIS") {
            return Some(NewZealandState::GIS);
        }
        if str_eq(s, "HKB") {
            return Some(NewZealandState::HKB);
        }
        if str_eq(s, "TKI") {
            return Some(NewZealandState::TKI);
        }
        if str_eq(s, "MWT") {
            return Some(NewZealandState::MWT);
        }
        if str_eq(s, "WGN") {
            return Some(NewZealandState::WGN);
        }
        if str_eq(s, "TAS") {
            return Some(NewZealandState::TAS);
        }
        if str_eq(s, "NSN") {
            return Some(NewZealandState::NSN);
        }
        if str_eq(s, "MBH") {
            return Some(NewZealandState::MBH);
        }
        if str_eq(s, "WTC") {
            return Some(NewZealandState::WTC);
        }
        if str_eq(s, "CAN") {
            return Some(NewZealandState::CAN);
        }
        if str_eq(s, "OTA") {
            return Some(NewZealandState::OTA);
        }
        if str_eq(s, "STL") {
            return Some(NewZealandState::STL);
        }
        None
    }

    /// Parses the code of a region. The match is exact and case-sensitive.
    pub fn from_str(s: &str) -> (parsed: Result<Self, ParseFailure>)
        ensures
            parsed == match Self::parse(s@) {
                Some(v) => Ok::<Self, ParseFailure>(v),
                None => Err(ParseFailure::VariantNotFound),
            },
    {
        match Self::find(s) {
            Some(v) => {
                proof {
                    Self::lemma_codes(v, choose|w: Self| w.code() == s@);
                }
                Ok(v)
            },
            None => Err(ParseFailure::VariantNotFound),
        }
    }
}

} // verus!
