//! The subdivisions of Argentina.

use vstd::prelude::*;
use crate::ParseFailure;
use crate::text::{is_plain_code, outline, str_eq};

verus! {

/// A state in Argentina.
#[derive(Copy, Clone, Debug, PartialEq, Eq, Structural)]
pub enum ArgentinaState {
    /// Ciudad Autónoma de Buenos Aires.
    CA,
    /// Buenos Aires.
    BA,
    /// Catamarca.
    CT,
    /// Chaco.
    CC,
    /// Chubut.
    CH,
    /// Córdoba.
    CB,
    /// Corrientes.
    CN,
    /// Entre Ríos.
    ER,
    /// Formosa.
    FM,
    /// Jujuy.
    JY,
    /// La Pampa.
    LP,
    /// La Rioja.
    LR,
    /// Mendoza.
    MZ,
    /// Misiones.
    MN,
    /// Neuquén.
    NQ,
    /// Río Negro.
    RN,
    /// Salta.
    SA,
    /// San Juan.
    SJ,
    /// San Luis.
    SL,
    /// Santa Cruz.
    SC,
    /// Santa Fe.
    SF,
    /// Santiago del Estero.
    SE,
    /// Tierra del Fuego.
    TF,
    /// Tucumán.
    TM,
}

impl ArgentinaState {
    /// The code under which this state is written in the MeetState column.
    pub open spec fn code(self) -> Seq<char> {
        match self {
            ArgentinaState::CA => "CA"@,
            ArgentinaState::BA => "BA"@,
            ArgentinaState::CT => "CT"@,
            ArgentinaState::CC => "CC"@,
            ArgentinaState::CH => "CH"@,
            ArgentinaState::CB => "CB"@,
            ArgentinaState::CN => "CN"@,
            ArgentinaState::ER => "ER"@,
            ArgentinaState::FM => "FM"@,
            ArgentinaState::JY => "JY"@,
            ArgentinaState::LP => "LP"@,
            ArgentinaState::LR => "LR"@,
            ArgentinaState::MZ => "MZ"@,
            ArgentinaState::MN => "MN"@,
            ArgentinaState::NQ => "NQ"@,
            ArgentinaState::RN => "RN"@,
            ArgentinaState::SA => "SA"@,
            ArgentinaState::SJ => "SJ"@,
            ArgentinaState::SL => "SL"@,
            ArgentinaState::SC => "SC"@,
            ArgentinaState::SF => "SF"@,
            ArgentinaState::SE => "SE"@,
            ArgentinaState::TF => "TF"@,
            ArgentinaState::TM => "TM"@,
        }
    }

    /// The state that `code` names, if it names one.
    pub open spec fn parse(code: Seq<char>) -> Option<Self> {
        if exists|v: Self| v.code() == code {
            Some(choose|v: Self| v.code() == code)
        } else {
            None
        }
    }

    /// Every code is one to four ASCII letters, and no two members share a code.
    pub proof fn lemma_codes(a: Self, b: Self)
        ensures
            is_plain_code(a.code()),
            a.code() == b.code() ==> a == b,
    {
        reveal_strlit("CA");
        reveal_strlit("BA");
        reveal_strlit("CT");
        reveal_strlit("CC");
        reveal_strlit("CH");
        reveal_strlit("CB");
        reveal_strlit("CN");
        reveal_strlit("ER");
        reveal_strlit("FM");
        reveal_strlit("JY");
        reveal_strlit("LP");
        reveal_strlit("LR");
        reveal_strlit("MZ");
        reveal_strlit("MN");
        reveal_strlit("NQ");
        reveal_strlit("RN");
        reveal_strlit("SA");
        reveal_strlit("SJ");
        reveal_strlit("SL");
        reveal_strlit("SC");
        reveal_strlit("SF");
        reveal_strlit("SE");
        reveal_strlit("TF");
        reveal_strlit("TM");
        assert(outline(a.code()) == outline(a.code()));
        assert(a.code() == b.code() ==> outline(a.code()) == outline(b.code()));
    }

    /// Parsing the code of a state gives that state back.
    pub proof fn lemma_parse_code(v: Self)
        ensures
            Self::parse(v.code()) == Some(v),
    {
        Self::lemma_codes(v, choose|w: Self| w.code() == v.code());
    }

    /// The code of this state.
    pub fn as_str(self) -> (code: &'static str)
        ensures
            code@ == self.code(),
    {
        match self {
            ArgentinaState::CA => "CA",
            ArgentinaState::BA => "BA",
            ArgentinaState::CT => "CT",
            ArgentinaState::CC => "CC",
            ArgentinaState::CH => "CH",
            ArgentinaState::CB => "CB",
            ArgentinaState::CN => "CN",
            ArgentinaState::ER => "ER",
            ArgentinaState::FM => "FM",
            ArgentinaState::JY => "JY",
            ArgentinaState::LP => "LP",
            ArgentinaState::LR => "LR",
            ArgentinaState::MZ => "MZ",
            ArgentinaState::MN => "MN",
            ArgentinaState::NQ => "NQ",
            ArgentinaState::RN => "RN",
            ArgentinaState::SA => "SA",
            ArgentinaState::SJ => "SJ",
            ArgentinaState::SL => "SL",
            ArgentinaState::SC => "SC",
            ArgentinaState::SF => "SF",
            ArgentinaState::SE => "SE",
            ArgentinaState::TF => "TF",
            ArgentinaState::TM => "TM",
        }
    }

    /// The code of this state, as an owned string.
    pub fn to_string(self) -> (code: String)
        ensures
            code@ == self.code(),
    {
        self.as_str().to_owned()
    }

    /// The state whose code is exactly `s`.
    fn find(s: &str) -> (found: Option<Self>)
        ensures
            match found {
                Some(v) => v.code() == s@,
                None => forall|v: Self| v.code() != s@,
            },
    {
        if str_eq(s, "CA") {
            return Some(ArgentinaState::CA);
        }
        if str_eq(s, "BA") {
            return Some(ArgentinaState::BA);
        }
        if str_eq(s, "CT") {
            return Some(ArgentinaState::CT);
        }
        if str_eq(s, "CC") {
            return Some(ArgentinaState::CC);
        }
        if str_eq(s, "CH") {
            return Some(ArgentinaState::CH);
        }
        if str_eq(s, "CB") {
            return Some(ArgentinaState::CB);
        }
        if str_eq(s, "CN") {
            return Some(ArgentinaState::CN);
        }
        if str_eq(s, "ER") {
            return Some(ArgentinaState::ER);
        }
        if str_eq(s, "FM") {
            return Some(ArgentinaState::FM);
        }
        if str_eq(s, "JY") {
            return Some(ArgentinaState::JY);
        }
        if str_eq(s, "LP") {
            return Some(ArgentinaState::LP);
        }
        if str_eq(s, "LR") {
            return Some(ArgentinaState::LR);
        }
        if str_eq(s, "MZ") {
            return Some(ArgentinaState::MZ);
        }
        if str_eq(s, "MN") {
            return Some(ArgentinaState::MN);
        }
        if str_eq(s, "NQ") {
            return Some(ArgentinaState::NQ);
        }
        if str_eq(s, "RN") {
            return Some(ArgentinaState::RN);
        }
        if str_eq(s, "SA") {
            return Some(ArgentinaState::SA);
        }
        if str_eq(s, "SJ") {
            return Some(ArgentinaState::SJ);
        }
        if str_eq(s, "SL") {
            return Some(ArgentinaState::SL);
        }
        if str_eq(s, "SC") {
            return Some(ArgentinaState::SC);
        }
        if str_eq(s, "SF") {
            return Some(ArgentinaState::SF);
        }
        if str_eq(s, "SE") {
            return Some(ArgentinaState::SE);
        }
        if str_eq(s, "TF") {
            return Some(ArgentinaState::TF);
        }
        if str_eq(s, "TM") {
            return Some(ArgentinaState::TM);
        }
        None
    }

    /// Parses the code of a state. The match is exact and case-sensitive.
    pub fn from_str(s: &str) -> (parsed: Result<Self, ParseFailure>)
        ensures
            parsed == match Self::parse(s@) {
                Some(v) => Ok::<Self, ParseFailure>(v),
                None => Err(ParseFailure::VariantNotFound),
            },
    {
        match Self::find(s) {
            Some(v) => {
                proof {
                    Self::lemma_codes(v, choose|w: Self| w.code() == s@);
                }
                Ok(v)
            },
            None => Err(ParseFailure::VariantNotFound),
        }
    }
}

} // verus!
