//! The subdivisions of China.

use vstd::prelude::*;
use crate::ParseFailure;
use crate::text::{is_plain_code, outline, str_eq};

verus! {

/// A province in China.
#[derive(Copy, Clone, Debug, PartialEq, Eq, Structural)]
pub enum ChinaState {
    /// Anhui Province.
    AH,
    /// Beijing Municipality.
    BJ,
    /// Chongqing Municipality.
    CQ,
    /// Fujian Province.
    FJ,
    /// Guangdong Province.
    GD,
    /// Gansu Province.
    GS,
    /// Guangxi Zhuang Autonomous Region.
    GX,
    /// Guizhou Province.
    GZ,
    /// Henan Province.
    HEN,
    /// Hubei Province.
    HUB,
    /// Hebei Province.
    HEB,
    /// Hainan Province.
    HI,
    /// Hong Kong Special Administrative Region.
    ///
    /// Hong Kong is usually treated as a country of its own; it is listed here for completeness.
    HK,
    /// Heilongjiang Province.
    HL,
    /// Hunan Province.
    HUN,
    /// Jilin Province.
    JL,
    /// Jiangsu Province.
    JS,
    /// Jiangxi Province.
    JX,
    /// Liaoning Province.
    LN,
    /// Macau Special Administrative Region.
    MO,
    /// Inner Mongolia Autonomous Region.
    NM,
    /// Ningxia Hui Autonomous Region.
    NX,
    /// Qinghai Province.
    QH,
    /// Sichuan Province.
    SC,
    /// Shandong Province.
    SD,
    /// Shanghai Municipality.
    SH,
    /// Shaanxi Province.
    SAA,
    /// Shanxi Province.
    SAX,
    /// Tianjin Municipality.
    TJ,
    /// Xinjiang Uyghur Autonomous Region.
    XJ,
    /// Tibet Autonomous Region.
    XZ,
    /// Yunnan Province.
    YN,
    /// Zhejiang Province.
    ZJ,
}

impl ChinaState {
    /// The code under which this province is written in the MeetState column.
    pub open spec fn code(self) -> Seq<char> {
        match self {
            ChinaState::AH => "AH"@,
            ChinaState::BJ => "BJ"@,
            ChinaState::CQ => "CQ"@,
            ChinaState::FJ => "FJ"@,
            ChinaState::GD => "GD"@,
            ChinaState::GS => "GS"@,
            ChinaState::GX => "GX"@,
            ChinaState::GZ => "GZ"@,
            ChinaState::HEN => "HEN"@,
            ChinaState::HUB => "HUB"@,
            ChinaState::HEB => "HEB"@,
            ChinaState::HI => "HI"@,
            ChinaState::HK => "HK"@,
            ChinaState::HL => "HL"@,
            ChinaState::HUN => "HUN"@,
            ChinaState::JL => "JL"@,
            ChinaState::JS => "JS"@,
            ChinaState::JX => "JX"@,
            ChinaState::LN => "LN"@,
            ChinaState::MO => "MO"@,
            ChinaState::NM => "NM"@,
            ChinaState::NX => "NX"@,
            ChinaState::QH => "QH"@,
            ChinaState::SC => "SC"@,
            ChinaState::SD => "SD"@,
            ChinaState::SH => "SH"@,
            ChinaState::SAA => "SAA"@,
            ChinaState::SAX => "SAX"@,
            ChinaState::TJ => "TJ"@,
            ChinaState::XJ => "XJ"@,
            ChinaState::XZ => "XZ"@,
            ChinaState::YN => "YN"@,
            ChinaState::ZJ => "ZJ"@,
        }
    }

    /// The province that `code` names, if it names one.
    pub open spec fn parse(code: Seq<char>) -> Option<Self> {
        if exists|v: Self| v.code() == code {
            Some(choose|v: Self| v.code() == code)
        } else {
            None
        }
    }

    /// Every code is one to four ASCII letters, and no two members share a code.
    pub proof fn lemma_codes(a: Self, b: Self)
        ensures
            is_plain_code(a.code()),
            a.code() == b.code() ==> a == b,
    {
        reveal_strlit("AH");
        reveal_strlit("BJ");
        reveal_strlit("CQ");
        reveal_strlit("FJ");
        reveal_strlit("GD");
        reveal_strlit("GS");
        reveal_strlit("GX");
        reveal_strlit("GZ");
        reveal_strlit("HEN");
        reveal_strlit("HUB");
        reveal_strlit("HEB");
        reveal_strlit("HI");
        reveal_strlit("HK");
        reveal_strlit("HL");
        reveal_strlit("HUN");
        reveal_strlit("JL");
        reveal_strlit("JS");
        reveal_strlit("JX");
        reveal_strlit("LN");
        reveal_strlit("MO");
        reveal_strlit("NM");
        reveal_strlit("NX");
        reveal_strlit("QH");
        reveal_strlit("SC");
        reveal_strlit("SD");
        reveal_strlit("SH");
        reveal_strlit("SAA");
        reveal_strlit("SAX");
        reveal_strlit("TJ");
        reveal_strlit("XJ");
        reveal_strlit("XZ");
        reveal_strlit("YN");
        reveal_strlit("ZJ");
        assert(outline(a.code()) == outline(a.code()));
        assert(a.code() == b.code() ==> outline(a.code()) == outline(b.code()));
    }

    /// Parsing the code of a province gives that province back.
    pub proof fn lemma_parse_code(v: Self)
        ensures
            Self::parse(v.code()) == Some(v),
    {
        Self::lemma_codes(v, choose|w: Self| w.code() == v.code());
    }

    /// The code of this province.
    pub fn as_str(self) -> (code: &'static str)
        ensures
            code@ == self.code(),
    {
        match self {
            ChinaState::AH => "AH",
            ChinaState::BJ => "BJ",
            ChinaState::CQ => "CQ",
            ChinaState::FJ => "FJ",
            ChinaState::GD => "GD",
            ChinaState::GS => "GS",
            ChinaState::GX => "GX",
            ChinaState::GZ => "GZ",
            ChinaState::HEN => "HEN",
            ChinaState::HUB => "HUB",
            ChinaState::HEB => "HEB",
            ChinaState::HI => "HI",
            ChinaState::HK => "HK",
            ChinaState::HL => "HL",
            ChinaState::HUN => "HUN",
            ChinaState::JL => "JL",
            ChinaState::JS => "JS",
            ChinaState::JX => "JX",
            ChinaState::LN => "LN",
            ChinaState::MO => "MO",
            ChinaState::NM => "NM",
            ChinaState::NX => "NX",
            ChinaState::QH => "QH",
            ChinaState::SC => "SC",
            ChinaState::SD => "SD",
            ChinaState::SH => "SH",
            ChinaState::SAA => "SAA",
            ChinaState::SAX => "SAX",
            ChinaState::TJ => "TJ",
            ChinaState::XJ => "XJ",
            ChinaState::XZ => "XZ",
            ChinaState::YN => "YN",
            ChinaState::ZJ => "ZJ",
        }
    }

    /// The code of this province, as an owned string.
    pub fn to_string(self) -> (code: String)
        ensures
            code@ == self.code(),
    {
        self.as_str().to_owned()
    }

    /// The province whose code is exactly `s`.
    fn find(s: &str) -> (found: Option<Self>)
        ensures
            match found {
                Some(v) => v.code() == s@,
                None => forall|v: Self| v.code() != s@,
            },
    {
        if str_eq(s, "AH") {
            return Some(ChinaState::AH);
        }
        if str_eq(s, "BJ") {
            return Some(ChinaState::BJ);
        }
        if str_eq(s, "CQ") {
            return Some(ChinaState::CQ);
        }
        if str_eq(s, "FJ") {
            return Some(ChinaState::FJ);
        }
        if str_eq(s, "GD") {
            return Some(ChinaState::GD);
        }
        if str_eq(s, "GS") {
            return Some(ChinaState::GS);
        }
        if str_eq(s, "GX") {
            return Some(ChinaState::GX);
        }
        if str_eq(s, "GZ") {
            return Some(ChinaState::GZ);
        }
        if str_eq(s, "HEN") {
            return Some(ChinaState::HEN);
        }
        if str_eq(s, "HUB") {
            return Some(ChinaState::HUB);
        }
        if str_eq(s, "HEB") {
            return Some(ChinaState::HEB);
        }
        if str_eq(s, "HI") {
            return Some(ChinaState::HI);
        }
        if str_eq(s, "HK") {
            return Some(ChinaState::HK);
        }
        if str_eq(s, "HL") {
            return Some(ChinaState::HL);
        }
        if str_eq(s, "HUN") {
            return Some(ChinaState::HUN);
        }
        if str_eq(s, "JL") {
            return Some(ChinaState::JL);
        }
        if str_eq(s, "JS") {
            return Some(ChinaState::JS);
        }
        if str_eq(s, "JX") {
            return Some(ChinaState::JX);
        }
        if str_eq(s, "LN") {
            return Some(ChinaState::LN);
        }
        if str_eq(s, "MO") {
            return Some(ChinaState::MO);
        }
        if str_eq(s, "NM") {
            return Some(ChinaState::NM);
        }
        if str_eq(s, "NX") {
            return Some(ChinaState::NX);
        }
        if str_eq(s, "QH") {
            return Some(ChinaState::QH);
        }
        if str_eq(s, "SC") {
            return Some(ChinaState::SC);
        }
        if str_eq(s, "SD") {
            return Some(ChinaState::SD);
        }
        if str_eq(s, "SH") {
            return Some(ChinaState::SH);
        }
        if str_eq(s, "SAA") {
            return Some(ChinaState::SAA);
        }
        if str_eq(s, "SAX") {
            return Some(ChinaState::SAX);
        }
        if str_eq(s, "TJ") {
            return Some(ChinaState::TJ);
        }
        if str_eq(s, "XJ") {
            return Some(ChinaState::XJ);
        }
        if str_eq(s, "XZ") {
            return Some(ChinaState::XZ);
        }
        if str_eq(s, "YN") {
            return Some(ChinaState::YN);
        }
        if str_eq(s, "ZJ") {
            return Some(ChinaState::ZJ);
        }
        None
    }

    /// Parses the code of a province. The match is exact and case-sensitive.
    pub fn from_str(s: &str) -> (parsed: Result<Self, ParseFailure>)
        ensures
            parsed == match Self::parse(s@) {
                Some(v) => Ok::<Self, ParseFailure>(v),
                None => Err(ParseFailure::VariantNotFound),
            },
    {
        match Self::find(s) {
            Some(v) => {
                proof {
                    Self::lemma_codes(v, choose|w: Self| w.code() == s@);
                }
                Ok(v)
            },
            None => Err(ParseFailure::VariantNotFound),
        }
    }
}

} // verus!
