//! The subdivisions of Romania.

use vstd::prelude::*;
use crate::ParseFailure;
use crate::text::{is_plain_code, outline, str_eq};

verus! {

/// A county in Romania.
#[derive(Copy, Clone, Debug, PartialEq, Eq, Structural)]
pub enum RomaniaState {
    /// Alba.
    AB,
    /// Argeș.
    AG,
    /// Arad.
    AR,
    /// Bucharest.
    B,
    /// Bacău.
    BC,
    /// Bihor.
    BH,
    /// Bistrița-Năsăud.
    BN,
    /// Brăila.
    BR,
    /// Botoșani.
    BT,
    /// Brașov.
    BV,
    /// Buzău.
    BZ,
    /// Cluj.
    CJ,
    /// Călărași.
    CL,
    /// Caraș-Severin.
    CS,
    /// Constanța.
    CT,
    /// Covasna.
    CV,
    /// Dâmbovița.
    DB,
    /// Dolj.
    DJ,
    /// Gorj.
    GJ,
    /// Galați.
    GL,
    /// Giurgiu.
    GR,
    /// Hunedoara.
    HD,
    /// Harghita.
    HR,
    /// Ilfov.
    IF,
    /// Ialomița.
    IL,
    /// Iași.
    IS,
    /// Mehedinți.
    MH,
    /// Maramureș.
    MM,
    /// Mureș.
    MS,
    /// Neamț.
    NT,
    /// Olt.
    OT,
    /// Prahova.
    PH,
    /// Sibiu.
    SB,
    /// Sălaj.
    SJ,
    /// Satu Mare.
    SM,
    /// Suceava.
    SV,
    /// Tulcea.
    TL,
    /// Timiș.
    TM,
    /// Teleorman.
    TR,
    /// Vâlcea.
    VL,
    /// Vrancea.
    VN,
    /// Vaslui.
    VS,
}

impl RomaniaState {
    /// The code under which this county is written in the MeetState column.
    pub open spec fn code(self) -> Seq<char> {
        match self {
            RomaniaState::AB => "AB"@,
            RomaniaState::AG => "AG"@,
            RomaniaState::AR => "AR"@,
            RomaniaState::B => "B"@,
            RomaniaState::BC => "BC"@,
            RomaniaState::BH => "BH"@,
            RomaniaState::BN => "BN"@,
            RomaniaState::BR => "BR"@,
            RomaniaState::BT => "BT"@,
            RomaniaState::BV => "BV"@,
            RomaniaState::BZ => "BZ"@,
            RomaniaState::CJ => "CJ"@,
            RomaniaState::CL => "CL"@,
            RomaniaState::CS => "CS"@,
            RomaniaState::CT => "CT"@,
            RomaniaState::CV => "CV"@,
            RomaniaState::DB => "DB"@,
            RomaniaState::DJ => "DJ"@,
            RomaniaState::GJ => "GJ"@,
            RomaniaState::GL => "GL"@,
            RomaniaState::GR => "GR"@,
            RomaniaState::HD => "HD"@,
            RomaniaState::HR => "HR"@,
            RomaniaState::IF => "IF"@,
            RomaniaState::IL => "IL"@,
            RomaniaState::IS => "IS"@,
            RomaniaState::MH => "MH"@,
            RomaniaState::MM => "MM"@,
            RomaniaState::MS => "MS"@,
            RomaniaState::NT => "NT"@,
            RomaniaState::OT => "OT"@,
            RomaniaState::PH => "PH"@,
            RomaniaState::SB => "SB"@,
            RomaniaState::SJ => "SJ"@,
            RomaniaState::SM => "SM"@,
            RomaniaState::SV => "SV"@,
            RomaniaState::TL => "TL"@,
            RomaniaState::TM => "TM"@,
            RomaniaState::TR => "TR"@,
            RomaniaState::VL => "VL"@,
            RomaniaState::VN => "VN"@,
            RomaniaState::VS => "VS"@,
        }
    }

    /// The county that `code` names, if it names one.
    pub open spec fn parse(code: Seq<char>) -> Option<Self> {
        if exists|v: Self| v.code() == code {
            Some(choose|v: Self| v.code() == code)
        } else {
            None
        }
    }

    /// Every code is one to four ASCII letters, and no two members share a code.
    pub proof fn lemma_codes(a: Self, b: Self)
        ensures
            is_plain_code(a.code()),
            a.code() == b.code() ==> a == b,
    {
        reveal_strlit("AB");
        reveal_strlit("AG");
        reveal_strlit("AR");
        reveal_strlit("B");
        reveal_strlit("BC");
        reveal_strlit("BH");
        reveal_strlit("BN");
        reveal_strlit("BR");
        reveal_strlit("BT");
        reveal_strlit("BV");
        reveal_strlit("BZ");
        reveal_strlit("CJ");
        reveal_strlit("CL");
        reveal_strlit("CS");
        reveal_strlit("CT");
        reveal_strlit("CV");
        reveal_strlit("DB");
        reveal_strlit("DJ");
        reveal_strlit("GJ");
        reveal_strlit("GL");
        reveal_strlit("GR");
        reveal_strlit("HD");
        reveal_strlit("HR");
        reveal_strlit("IF");
        reveal_strlit("IL");
        reveal_strlit("IS");
        reveal_strlit("MH");
        reveal_strlit("MM");
        reveal_strlit("MS");
        reveal_strlit("NT");
        reveal_strlit("OT");
        reveal_strlit("PH");
        reveal_strlit("SB");
        reveal_strlit("SJ");
        reveal_strlit("SM");
        reveal_strlit("SV");
        reveal_strlit("TL");
        reveal_strlit("TM");
        reveal_strlit("TR");
        reveal_strlit("VL");
        reveal_strlit("VN");
        reveal_strlit("VS");
        assert(outline(a.code()) == outline(a.code()));
        assert(a.code() == b.code() ==> outline(a.code()) == outline(b.code()));
    }

    /// Parsing the code of a county gives that county back.
    pub proof fn lemma_parse_code(v: Self)
        ensures
            Self::parse(v.code()) == Some(v),
    {
        Self::lemma_codes(v, choose|w: Self| w.code() == v.code());
    }

    /// The code of this county.
    pub fn as_str(self) -> (code: &'static str)
        ensures
            code@ == self.code(),
    {
        match self {
            RomaniaState::AB => "AB",
            RomaniaState::AG => "AG",
            RomaniaState::AR => "AR",
            RomaniaState::B => "B",
            RomaniaState::BC => "BC",
            RomaniaState::BH => "BH",
            RomaniaState::BN => "BN",
            RomaniaState::BR => "BR",
            RomaniaState::BT => "BT",
            RomaniaState::BV => "BV",
            RomaniaState::BZ => "BZ",
            RomaniaState::CJ => "CJ",
            RomaniaState::CL => "CL",
            RomaniaState::CS => "CS",
            RomaniaState::CT => "CT",
            RomaniaState::CV => "CV",
            RomaniaState::DB => "DB",
            RomaniaState::DJ => "DJ",
            RomaniaState::GJ => "GJ",
            RomaniaState::GL => "GL",
            RomaniaState::GR => "GR",
            RomaniaState::HD => "HD",
            RomaniaState::HR => "HR",
            RomaniaState::IF => "IF",
            RomaniaState::IL => "IL",
            RomaniaState::IS => "IS",
            RomaniaState::MH => "MH",
            RomaniaState::MM => "MM",
            RomaniaState::MS => "MS",
            RomaniaState::NT => "NT",
            RomaniaState::OT => "OT",
            RomaniaState::PH => "PH",
            RomaniaState::SB => "SB",
            RomaniaState::SJ => "SJ",
            RomaniaState::SM => "SM",
            RomaniaState::SV => "SV",
            RomaniaState::TL => "TL",
            RomaniaState::TM => "TM",
            RomaniaState::TR => "TR",
            RomaniaState::VL => "VL",
            RomaniaState::VN => "VN",
            RomaniaState::VS => "VS",
        }
    }

    /// The code of this county, as an owned string.
    pub fn to_string(self) -> (code: String)
        ensures
            code@ == self.code(),
    {
        self.as_str().to_owned()
    }

    /// The county whose code is exactly `s`.
    fn find(s: &str) -> (found: Option<Self>)
        ensures
            match found {
                Some(v) => v.code() == s@,
                None => forall|v: Self| v.code() != s@,
            },
    {
        if str_eq(s, "AB") {
            return Some(RomaniaState::AB);
        }
        if str_eq(s, "AG") {
            return Some(RomaniaState::AG);
        }
        if str_eq(s, "AR") {
            return Some(RomaniaState::AR);
        }
        if str_eq(s, "B") {
            return Some(RomaniaState::B);
        }
        if str_eq(s, "BC") {
            return Some(RomaniaState::BC);
        }
        if str_eq(s, "BH") {
            return Some(RomaniaState::BH);
        }
        if str_eq(s, "BN") {
            return Some(RomaniaState::BN);
        }
        if str_eq(s, "BR") {
            return Some(RomaniaState::BR);
        }
        if str_eq(s, "BT") {
            return Some(RomaniaState::BT);
        }
        if str_eq(s, "BV") {
            return Some(RomaniaState::BV);
        }
        if str_eq(s, "BZ") {
            return Some(RomaniaState::BZ);
        }
        if str_eq(s, "CJ") {
            return Some(RomaniaState::CJ);
        }
        if str_eq(s, "CL") {
            return Some(RomaniaState::CL);
        }
        if str_eq(s, "CS") {
            return Some(RomaniaState::CS);
        }
        if str_eq(s, "CT") {
            return Some(RomaniaState::CT);
        }
        if str_eq(s, "CV") {
            return Some(RomaniaState::CV);
        }
        if str_eq(s, "DB") {
            return Some(RomaniaState::DB);
        }
        if str_eq(s, "DJ") {
            return Some(RomaniaState::DJ);
        }
        if str_eq(s, "GJ") {
            return Some(RomaniaState::GJ);
        }
        if str_eq(s, "GL") {
            return Some(RomaniaState::GL);
        }
        if str_eq(s, "GR") {
            return Some(RomaniaState::GR);
        }
        if str_eq(s, "HD") {
            return Some(RomaniaState::HD);
        }
        if str_eq(s, "HR") {
            return Some(RomaniaState::HR);
        }
        if str_eq(s, "IF") {
            return Some(RomaniaState::IF);
        }
        if str_eq(s, "IL") {
            return Some(RomaniaState::IL);
        }
        if str_eq(s, "IS") {
            return Some(RomaniaState::IS);
        }
        if str_eq(s, "MH") {
            return Some(RomaniaState::MH);
        }
        if str_eq(s, "MM") {
            return Some(RomaniaState::MM);
        }
        if str_eq(s, "MS") {
            return Some(RomaniaState::MS);
        }
        if str_eq(s, "NT") {
            return Some(RomaniaState::NT);
        }
        if str_eq(s, "OT") {
            return Some(RomaniaState::OT);
        }
        if str_eq(s, "PH") {
            return Some(RomaniaState::PH);
        }
        if str_eq(s, "SB") {
            return Some(RomaniaState::SB);
        }
        if str_eq(s, "SJ") {
            return Some(RomaniaState::SJ);
        }
        if str_eq(s, "SM") {
            return Some(RomaniaState::SM);
        }
        if str_eq(s, "SV") {
            return Some(RomaniaState::SV);
        }
        if str_eq(s, "TL") {
            return Some(RomaniaState::TL);
        }
        if str_eq(s, "TM") {
            return Some(RomaniaState::TM);
        }
        if str_eq(s, "TR") {
            return Some(RomaniaState::TR);
        }
        if str_eq(s, "VL") {
            return Some(RomaniaState::VL);
        }
        if str_eq(s, "VN") {
            return Some(RomaniaState::VN);
        }
        if str_eq(s, "VS") {
            return Some(RomaniaState::VS);
        }
        None
    }

    /// Parses the code of a county. The match is exact and case-sensitive.
    pub fn from_str(s: &str) -> (parsed: Result<Self, ParseFailure>)
        ensures
            parsed == match Self::parse(s@) {
                Some(v) => Ok::<Self, ParseFailure>(v),
                None => Err(ParseFailure::VariantNotFound),
            },
    {
        match Self::find(s) {
            Some(v) => {
                proof {
                    Self::lemma_codes(v, choose|w: Self| w.code() == s@);
                }
                Ok(v)
            },
            None => Err(ParseFailure::VariantNotFound),
        }
    }
}

} // verus!
