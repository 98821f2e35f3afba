//! The subdivisions of Russia.

use vstd::prelude::*;
use crate::ParseFailure;
use crate::text::{is_plain_code, outline, str_eq};

verus! {

/// An oblast in Russia.
#[derive(Copy, Clone, Debug, PartialEq, Eq, Structural)]
pub enum RussiaState {
    AD, AL, BA, BU, CE, CU, DA, IN, KB, KL, KC, KR, KK, KO, ME, MO, SA, SE,
    TA, TY, UD, ALT, KAM, KHA, KDA, KYA, PER, PRI, STA, ZAB, AMU, ARK, AST,
    BEL, BRY, CHE, IRK, IVA, KGD, KLU, KEM, KIR, KOS, KGN, KRS, LEN, LIP, MAG,
    MOS, MUR, NIZ, NGR, NVS, OMS, ORE, ORL, PNZ, PSK, ROS, RYA, SAK, SAM, SAR,
    SMO, SVE, TAM, TOM, TUL, TVE, TYE, TYU, ULY, VLA, VGG, VLG, VOR, YAR, MOW,
    SPE, YEV, CHU, KHM, NEN, YAN,
}

impl RussiaState {
    /// The code under which this oblast is written in the MeetState column.
    pub open spec fn code(self) -> Seq<char> {
        match self {
            RussiaState::AD => "AD"@,
            RussiaState::AL => "AL"@,
            RussiaState::BA => "BA"@,
            RussiaState::BU => "BU"@,
            RussiaState::CE => "CE"@,
            RussiaState::CU => "CU"@,
            RussiaState::DA => "DA"@,
            RussiaState::IN => "IN"@,
            RussiaState::KB => "KB"@,
            RussiaState::KL => "KL"@,
            RussiaState::KC => "KC"@,
            RussiaState::KR => "KR"@,
            RussiaState::KK => "KK"@,
            RussiaState::KO => "KO"@,
            RussiaState::ME => "ME"@,
            RussiaState::MO => "MO"@,
            RussiaState::SA => "SA"@,
            RussiaState::SE => "SE"@,
            RussiaState::TA => "TA"@,
            RussiaState::TY => "TY"@,
            RussiaState::UD => "UD"@,
            RussiaState::ALT => "ALT"@,
            RussiaState::KAM => "KAM"@,
            RussiaState::KHA => "KHA"@,
            RussiaState::KDA => "KDA"@,
            RussiaState::KYA => "KYA"@,
            RussiaState::PER => "PER"@,
            RussiaState::PRI => "PRI"@,
            RussiaState::STA => "STA"@,
            RussiaState::ZAB => "ZAB"@,
            RussiaState::AMU => "AMU"@,
            RussiaState::ARK => "ARK"@,
            RussiaState::AST => "AST"@,
            RussiaState::BEL => "BEL"@,
            RussiaState::BRY => "BRY"@,
            RussiaState::CHE => "CHE"@,
            RussiaState::IRK => "IRK"@,
            RussiaState::IVA => "IVA"@,
            RussiaState::KGD => "KGD"@,
            RussiaState::KLU => "KLU"@,
            RussiaState::KEM => "KEM"@,
            RussiaState::KIR => "KIR"@,
            RussiaState::KOS => "KOS"@,
            RussiaState::KGN => "KGN"@,
            RussiaState::KRS => "KRS"@,
            RussiaState::LEN => "LEN"@,
            RussiaState::LIP => "LIP"@,
            RussiaState::MAG => "MAG"@,
            RussiaState::MOS => "MOS"@,
            RussiaState::MUR => "MUR"@,
            RussiaState::NIZ => "NIZ"@,
            RussiaState::NGR => "NGR"@,
            RussiaState::NVS => "NVS"@,
            RussiaState::OMS => "OMS"@,
            RussiaState::ORE => "ORE"@,
            RussiaState::ORL => "ORL"@,
            RussiaState::PNZ => "PNZ"@,
            RussiaState::PSK => "PSK"@,
            RussiaState::ROS => "ROS"@,
            RussiaState::RYA => "RYA"@,
            RussiaState::SAK => "SAK"@,
            RussiaState::SAM => "SAM"@,
            RussiaState::SAR => "SAR"@,
            RussiaState::SMO => "SMO"@,
            RussiaState::SVE => "SVE"@,
            RussiaState::TAM => "TAM"@,
            RussiaState::TOM => "TOM"@,
            RussiaState::TUL => "TUL"@,
            RussiaState::TVE => "TVE"@,
            RussiaState::TYE => "TYE"@,
            RussiaState::TYU => "TYU"@,
            RussiaState::ULY => "ULY"@,
            RussiaState::VLA => "VLA"@,
            RussiaState::VGG => "VGG"@,
            RussiaState::VLG => "VLG"@,
            RussiaState::VOR => "VOR"@,
            RussiaState::YAR => "YAR"@,
            RussiaState::MOW => "MOW"@,
            RussiaState::SPE => "SPE"@,
            RussiaState::YEV => "YEV"@,
            RussiaState::CHU => "CHU"@,
            RussiaState::KHM => "KHM"@,
            RussiaState::NEN => "NEN"@,
            RussiaState::YAN => "YAN"@,
        }
    }

    /// The oblast that `code` names, if it names one.
    pub open spec fn parse(code: Seq<char>) -> Option<Self> {
        if exists|v: Self| v.code() == code {
            Some(choose|v: Self| v.code() == code)
        } else {
            None
        }
    }

    /// Every code is one to four ASCII letters, and no two members share a code.
    pub proof fn lemma_codes(a: Self, b: Self)
        ensures
            is_plain_code(a.code()),
            a.code() == b.code() ==> a == b,
    {
        reveal_strlit("AD");
        reveal_strlit("AL");
        reveal_strlit("BA");
        reveal_strlit("BU");
        reveal_strlit("CE");
        reveal_strlit("CU");
        reveal_strlit("DA");
        reveal_strlit("IN");
        reveal_strlit("KB");
        reveal_strlit("KL");
        reveal_strlit("KC");
        reveal_strlit("KR");
        reveal_strlit("KK");
        reveal_strlit("KO");
        reveal_strlit("ME");
        reveal_strlit("MO");
        reveal_strlit("SA");
        reveal_strlit("SE");
        reveal_strlit("TA");
        reveal_strlit("TY");
        reveal_strlit("UD");
        reveal_strlit("ALT");
        reveal_strlit("KAM");
        reveal_strlit("KHA");
        reveal_strlit("KDA");
        reveal_strlit("KYA");
        reveal_strlit("PER");
        reveal_strlit("PRI");
        reveal_strlit("STA");
        reveal_strlit("ZAB");
        reveal_strlit("AMU");
        reveal_strlit("ARK");
        reveal_strlit("AST");
        reveal_strlit("BEL");
        reveal_strlit("BRY");
        reveal_strlit("CHE");
        reveal_strlit("IRK");
        reveal_strlit("IVA");
        reveal_strlit("KGD");
        reveal_strlit("KLU");
        reveal_strlit("KEM");
        reveal_strlit("KIR");
        reveal_strlit("KOS");
        reveal_strlit("KGN");
        reveal_strlit("KRS");
        reveal_strlit("LEN");
        reveal_strlit("LIP");
        reveal_strlit("MAG");
        reveal_strlit("MOS");
        reveal_strlit("MUR");
        reveal_strlit("NIZ");
        reveal_strlit("NGR");
        reveal_strlit("NVS");
        reveal_strlit("OMS");
        reveal_strlit("ORE");
        reveal_strlit("ORL");
        reveal_strlit("PNZ");
        reveal_strlit("PSK");
        reveal_strlit("ROS");
        reveal_strlit("RYA");
        reveal_strlit("SAK");
        reveal_strlit("SAM");
        reveal_strlit("SAR");
        reveal_strlit("SMO");
        reveal_strlit("SVE");
        reveal_strlit("TAM");
        reveal_strlit("TOM");
        reveal_strlit("TUL");
        reveal_strlit("TVE");
        reveal_strlit("TYE");
        reveal_strlit("TYU");
        reveal_strlit("ULY");
        reveal_strlit("VLA");
        reveal_strlit("VGG");
        reveal_strlit("VLG");
        reveal_strlit("VOR");
        reveal_strlit("YAR");
        reveal_strlit("MOW");
        reveal_strlit("SPE");
        reveal_strlit("YEV");
        reveal_strlit("CHU");
        reveal_strlit("KHM");
        reveal_strlit("NEN");
        reveal_strlit("YAN");
        assert(outline(a.code()) == outline(a.code()));
        assert(a.code() == b.code() ==> outline(a.code()) == outline(b.code()));
    }

    /// Parsing the code of a oblast gives that oblast back.
    pub proof fn lemma_parse_code(v: Self)
        ensures
            Self::parse(v.code()) == Some(v),
    {
        Self::lemma_codes(v, choose|w: Self| w.code() == v.code());
    }

    /// The code of this oblast.
    pub fn as_str(self) -> (code: &'static str)
        ensures
            code@ == self.code(),
    {
        match self {
            RussiaState::AD => "AD",
            RussiaState::AL => "AL",
            RussiaState::BA => "BA",
            RussiaState::BU => "BU",
            RussiaState::CE => "CE",
            RussiaState::CU => "CU",
            RussiaState::DA => "DA",
            RussiaState::IN => "IN",
            RussiaState::KB => "KB",
            RussiaState::KL => "KL",
            RussiaState::KC => "KC",
            RussiaState::KR => "KR",
            RussiaState::KK => "KK",
            RussiaState::KO => "KO",
            RussiaState::ME => "ME",
            RussiaState::MO => "MO",
            RussiaState::SA => "SA",
            RussiaState::SE => "SE",
            RussiaState::TA => "TA",
            RussiaState::TY => "TY",
            RussiaState::UD => "UD",
            RussiaState::ALT => "ALT",
            RussiaState::KAM => "KAM",
            RussiaState::KHA => "KHA",
            RussiaState::KDA => "KDA",
            RussiaState::KYA => "KYA",
            RussiaState::PER => "PER",
            RussiaState::PRI => "PRI",
            RussiaState::STA => "STA",
            RussiaState::ZAB => "ZAB",
            RussiaState::AMU => "AMU",
            RussiaState::ARK => "ARK",
            RussiaState::AST => "AST",
            RussiaState::BEL => "BEL",
            RussiaState::BRY => "BRY",
            RussiaState::CHE => "CHE",
            RussiaState::IRK => "IRK",
            RussiaState::IVA => "IVA",
            RussiaState::KGD => "KGD",
            RussiaState::KLU => "KLU",
            RussiaState::KEM => "KEM",
            RussiaState::KIR => "KIR",
            RussiaState::KOS => "KOS",
            RussiaState::KGN => "KGN",
            RussiaState::KRS => "KRS",
            RussiaState::LEN => "LEN",
            RussiaState::LIP => "LIP",
            RussiaState::MAG => "MAG",
            RussiaState::MOS => "MOS",
            RussiaState::MUR => "MUR",
            RussiaState::NIZ => "NIZ",
            RussiaState::NGR => "NGR",
            RussiaState::NVS => "NVS",
            RussiaState::OMS => "OMS",
            RussiaState::ORE => "ORE",
            RussiaState::ORL => "ORL",
            RussiaState::PNZ => "PNZ",
            RussiaState::PSK => "PSK",
            RussiaState::ROS => "ROS",
            RussiaState::RYA => "RYA",
            RussiaState::SAK => "SAK",
            RussiaState::SAM => "SAM",
            RussiaState::SAR => "SAR",
            RussiaState::SMO => "SMO",
            RussiaState::SVE => "SVE",
            RussiaState::TAM => "TAM",
            RussiaState::TOM => "TOM",
            RussiaState::TUL => "TUL",
            RussiaState::TVE => "TVE",
            RussiaState::TYE => "TYE",
            RussiaState::TYU => "TYU",
            RussiaState::ULY => "ULY",
            RussiaState::VLA => "VLA",
            RussiaState::VGG => "VGG",
            RussiaState::VLG => "VLG",
            RussiaState::VOR => "VOR",
            RussiaState::YAR => "YAR",
            RussiaState::MOW => "MOW",
            RussiaState::SPE => "SPE",
            RussiaState::YEV => "YEV",
            RussiaState::CHU => "CHU",
            RussiaState::KHM => "KHM",
            RussiaState::NEN => "NEN",
            RussiaState::YAN => "YAN",
        }
    }

    /// The code of this oblast, as an owned string.
    pub fn to_string(self) -> (code: String)
        ensures
            code@ == self.code(),
    {
        self.as_str().to_owned()
    }

    /// The oblast whose code is exactly `s`.
    fn find(s: &str) -> (found: Option<Self>)
        ensures
            match found {
                Some(v) => v.code() == s@,
                None => forall|v: Self| v.code() != s@,
            },
    {
        if str_eq(s, "AD") {
            return Some(RussiaState::AD);
        }
        if str_eq(s, "AL") {
            return Some(RussiaState::AL);
        }
        if str_eq(s, "BA") {
            return Some(RussiaState::BA);
        }
        if str_eq(s, "BU") {
            return Some(RussiaState::BU);
        }
        if str_eq(s, "CE") {
            return Some(RussiaState::CE);
        }
        if str_eq(s, "CU") {
            return Some(RussiaState::CU);
        }
        if str_eq(s, "DA") {
            return Some(RussiaState::DA);
        }
        if str_eq(s, "IN") {
            return Some(RussiaState::IN);
        }
        if str_eq(s, "KB") {
            return Some(RussiaState::KB);
        }
        if str_eq(s, "KL") {
            return Some(RussiaState::KL);
        }
        if str_eq(s, "KC") {
            return Some(RussiaState::KC);
        }
        if str_eq(s, "KR") {
            return Some(RussiaState::KR);
        }
        if str_eq(s, "KK") {
            return Some(RussiaState::KK);
        }
        if str_eq(s, "KO") {
            return Some(RussiaState::KO);
        }
        if str_eq(s, "ME") {
            return Some(RussiaState::ME);
        }
        if str_eq(s, "MO") {
            return Some(RussiaState::MO);
        }
        if str_eq(s, "SA") {
            return Some(RussiaState::SA);
        }
        if str_eq(s, "SE") {
            return Some(RussiaState::SE);
        }
        if str_eq(s, "TA") {
            return Some(RussiaState::TA);
        }
        if str_eq(s, "TY") {
            return Some(RussiaState::TY);
        }
        if str_eq(s, "UD") {
            return Some(RussiaState::UD);
        }
        if str_eq(s, "ALT") {
            return Some(RussiaState::ALT);
        }
        if str_eq(s, "KAM") {
            return Some(RussiaState::KAM);
        }
        if str_eq(s, "KHA") {
            return Some(RussiaState::KHA);
        }
        if str_eq(s, "KDA") {
            return Some(RussiaState::KDA);
        }
        if str_eq(s, "KYA") {
            return Some(RussiaState::KYA);
        }
        if str_eq(s, "PER") {
            return Some(RussiaState::PER);
        }
        if str_eq(s, "PRI") {
            return Some(RussiaState::PRI);
        }
        if str_eq(s, "STA") {
            return Some(RussiaState::STA);
        }
        if str_eq(s, "ZAB") {
            return Some(RussiaState::ZAB);
        }
        if str_eq(s, "AMU") {
            return Some(RussiaState::AMU);
        }
        if str_eq(s, "ARK") {
            return Some(RussiaState::ARK);
        }
        if str_eq(s, "AST") {
            return Some(RussiaState::AST);
        }
        if str_eq(s, "BEL") {
            return Some(RussiaState::BEL);
        }
        if str_eq(s, "BRY") {
            return Some(RussiaState::BRY);
        }
        if str_eq(s, "CHE") {
            return Some(RussiaState::CHE);
        }
        if str_eq(s, "IRK") {
            return Some(RussiaState::IRK);
        }
        if str_eq(s, "IVA") {
            return Some(RussiaState::IVA);
        }
        if str_eq(s, "KGD") {
            return Some(RussiaState::KGD);
        }
        if str_eq(s, "KLU") {
            return Some(RussiaState::KLU);
        }
        if str_eq(s, "KEM") {
            return Some(RussiaState::KEM);
        }
        if str_eq(s, "KIR") {
            return Some(RussiaState::KIR);
        }
        if str_eq(s, "KOS") {
            return Some(RussiaState::KOS);
        }
        if str_eq(s, "KGN") {
            return Some(RussiaState::KGN);
        }
        if str_eq(s, "KRS") {
            return Some(RussiaState::KRS);
        }
        if str_eq(s, "LEN") {
            return Some(RussiaState::LEN);
        }
        if str_eq(s, "LIP") {
            return Some(RussiaState::LIP);
        }
        if str_eq(s, "MAG") {
            return Some(RussiaState::MAG);
        }
        if str_eq(s, "MOS") {
            return Some(RussiaState::MOS);
        }
        if str_eq(s, "MUR") {
            return Some(RussiaState::MUR);
        }
        if str_eq(s, "NIZ") {
            return Some(RussiaState::NIZ);
        }
        if str_eq(s, "NGR") {
            return Some(RussiaState::NGR);
        }
        if str_eq(s, "NVS") {
            return Some(RussiaState::NVS);
        }
        if str_eq(s, "OMS") {
            return Some(RussiaState::OMS);
        }
        if str_eq(s, "ORE") {
            return Some(RussiaState::ORE);
        }
        if str_eq(s, "ORL") {
            return Some(RussiaState::ORL);
        }
        if str_eq(s, "PNZ") {
            return Some(RussiaState::PNZ);
        }
        if str_eq(s, "PSK") {
            return Some(RussiaState::PSK);
        }
        if str_eq(s, "ROS") {
            return Some(RussiaState::ROS);
        }
        if str_eq(s, "RYA") {
            return Some(RussiaState::RYA);
        }
        if str_eq(s, "SAK") {
            return Some(RussiaState::SAK);
        }
        if str_eq(s, "SAM") {
            return Some(RussiaState::SAM);
        }
        if str_eq(s, "SAR") {
            return Some(RussiaState::SAR);
        }
        if str_eq(s, "SMO") {
            return Some(RussiaState::SMO);
        }
        if str_eq(s, "SVE") {
            return Some(RussiaState::SVE);
        }
        if str_eq(s, "TAM") {
            return Some(RussiaState::TAM);
        }
        if str_eq(s, "TOM") {
            return Some(RussiaState::TOM);
        }
        if str_eq(s, "TUL") {
            return Some(RussiaState::TUL);
        }
        if str_eq(s, "TVE") {
            return Some(RussiaState::TVE);
        }
        if str_eq(s, "TYE") {
            return Some(RussiaState::TYE);
        }
        if str_eq(s, "TYU") {
            return Some(RussiaState::TYU);
        }
        if str_eq(s, "ULY") {
            return Some(RussiaState::ULY);
        }
        if str_eq(s, "VLA") {
            return Some(RussiaState::VLA);
        }
        if str_eq(s, "VGG") {
            return Some(RussiaState::VGG);
        }
        if str_eq(s, "VLG") {
            return Some(RussiaState::VLG);
        }
        if str_eq(s, "VOR") {
            return Some(RussiaState::VOR);
        }
        if str_eq(s, "YAR") {
            return Some(RussiaState::YAR);
        }
        if str_eq(s, "MOW") {
            return Some(RussiaState::MOW);
        }
        if str_eq(s, "SPE") {
            return Some(RussiaState::SPE);
        }
        if str_eq(s, "YEV") {
            return Some(RussiaState::YEV);
        }
        if str_eq(s, "CHU") {
            return Some(RussiaState::CHU);
        }
        if str_eq(s, "KHM") {
            return Some(RussiaState::KHM);
        }
        if str_eq(s, "NEN") {
            return Some(RussiaState::NEN);
        }
        if str_eq(s, "YAN") {
            return Some(RussiaState::YAN);
        }
        None
    }

    /// Parses the code of a oblast. The match is exact and case-sensitive.
    pub fn from_str(s: &str) -> (parsed: Result<Self, ParseFailure>)
        ensures
            parsed == match Self::parse(s@) {
                Some(v) => Ok::<Self, ParseFailure>(v),
                None => Err(ParseFailure::VariantNotFound),
            },
    {
        match Self::find(s) {
            Some(v) => {
                proof {
                    Self::lemma_codes(v, choose|w: Self| w.code() == s@);
                }
                Ok(v)
            },
            None => Err(ParseFailure::VariantNotFound),
        }
    }
}

} // verus!
