//! The subdivisions of Mexico.

use vstd::prelude::*;
use crate::ParseFailure;
use crate::text::{is_plain_code, outline, str_eq};

verus! {

/// A state in Mexico.
#[derive(Copy, Clone, Debug, PartialEq, Eq, Structural)]
pub enum MexicoState {
    /// Aguascalientes.
    AG,
    /// Baja California.
    BC,
    /// Baja California Sur.
    BS,
    /// Campeche.
    CM,
    /// Chiapas.
    CS,
    /// Chihuahua.
    CH,
    /// Coahuila.
    CO,
    /// Colima.
    CL,
    /// Mexico City.
    DF,
    /// Durango.
    DG,
    /// Guanajuato.
    GT,
    /// Guerrero.
    GR,
    /// Hidalgo.
    HG,
    /// Jalisco.
    JA,
    /// México.
    EM,
    /// Michoacán.
    MI,
    /// Morelos.
    MO,
    /// Nayarit.
    NA,
    /// Nuevo León.
    NL,
    /// Oaxaca.
    OA,
    /// Puebla.
    PU,
    /// Querétaro.
    QT,
    /// Quintana Roo.
    QR,
    /// San Luis Potosí.
    SL,
    /// Sinaloa.
    SI,
    /// Sonora.
    SO,
    /// Tabasco.
    TB,
    /// Tamaulipas.
    TM,
    /// Tlaxcala.
    TL,
    /// Veracruz.
    VE,
    /// Yucatán.
    YU,
    /// Zacatecas.
    ZA,
}

impl MexicoState {
    /// The code under which this state is written in the MeetState column.
    pub open spec fn code(self) -> Seq<char> {
        match self {
            MexicoState::AG => "AG"@,
            MexicoState::BC => "BC"@,
            MexicoState::BS => "BS"@,
            MexicoState::CM => "CM"@,
            MexicoState::CS => "CS"@,
            MexicoState::CH => "CH"@,
            MexicoState::CO => "CO"@,
            MexicoState::CL => "CL"@,
            MexicoState::DF => "DF"@,
            MexicoState::DG => "DG"@,
            MexicoState::GT => "GT"@,
            MexicoState::GR => "GR"@,
            MexicoState::HG => "HG"@,
            MexicoState::JA => "JA"@,
            MexicoState::EM => "EM"@,
            MexicoState::MI => "MI"@,
            MexicoState::MO => "MO"@,
            MexicoState::NA => "NA"@,
            MexicoState::NL => "NL"@,
            MexicoState::OA => "OA"@,
            MexicoState::PU => "PU"@,
            MexicoState::QT => "QT"@,
            MexicoState::QR => "QR"@,
            MexicoState::SL => "SL"@,
            MexicoState::SI => "SI"@,
            MexicoState::SO => "SO"@,
            MexicoState::TB => "TB"@,
            MexicoState::TM => "TM"@,
            MexicoState::TL => "TL"@,
            MexicoState::VE => "VE"@,
            MexicoState::YU => "YU"@,
            MexicoState::ZA => "ZA"@,
        }
    }

    /// The state that `code` names, if it names one.
    pub open spec fn parse(code: Seq<char>) -> Option<Self> {
        if exists|v: Self| v.code() == code {
            Some(choose|v: Self| v.code() == code)
        } else {
            None
        }
    }

    /// Every code is one to four ASCII letters, and no two members share a code.
    pub proof fn lemma_codes(a: Self, b: Self)
        ensures
            is_plain_code(a.code()),
            a.code() == b.code() ==> a == b,
    {
        reveal_strlit("AG");
        reveal_strlit("BC");
        reveal_strlit("BS");
        reveal_strlit("CM");
        reveal_strlit("CS");
        reveal_strlit("CH");
        reveal_strlit("CO");
        reveal_strlit("CL");
        reveal_strlit("DF");
        reveal_strlit("DG");
        reveal_strlit("GT");
        reveal_strlit("GR");
        reveal_strlit("HG");
        reveal_strlit("JA");
        reveal_strlit("EM");
        reveal_strlit("MI");
        reveal_strlit("MO");
        reveal_strlit("NA");
        reveal_strlit("NL");
        reveal_strlit("OA");
        reveal_strlit("PU");
        reveal_strlit("QT");
        reveal_strlit("QR");
        reveal_strlit("SL");
        reveal_strlit("SI");
        reveal_strlit("SO");
        reveal_strlit("TB");
        reveal_strlit("TM");
        reveal_strlit("TL");
        reveal_strlit("VE");
        reveal_strlit("YU");
        reveal_strlit("ZA");
        assert(outline(a.code()) == outline(a.code()));
        assert(a.code() == b.code() ==> outline(a.code()) == outline(b.code()));
    }

    /// Parsing the code of a state gives that state back.
    pub proof fn lemma_parse_code(v: Self)
        ensures
            Self::parse(v.code()) == Some(v),
    {
        Self::lemma_codes(v, choose|w: Self| w.code() == v.code());
    }

    /// The code of this state.
    pub fn as_str(self) -> (code: &'static str)
        ensures
            code@ == self.code(),
    {
        match self {
            MexicoState::AG => "AG",
            MexicoState::BC => "BC",
            MexicoState::BS => "BS",
            MexicoState::CM => "CM",
            MexicoState::CS => "CS",
            MexicoState::CH => "CH",
            MexicoState::CO => "CO",
            MexicoState::CL => "CL",
            MexicoState::DF => "DF",
            MexicoState::DG => "DG",
            MexicoState::GT => "GT",
            MexicoState::GR => "GR",
            MexicoState::HG => "HG",
            MexicoState::JA => "JA",
            MexicoState::EM => "EM",
            MexicoState::MI => "MI",
            MexicoState::MO => "MO",
            MexicoState::NA => "NA",
            MexicoState::NL => "NL",
            MexicoState::OA => "OA",
            MexicoState::PU => "PU",
            MexicoState::QT => "QT",
            MexicoState::QR => "QR",
            MexicoState::SL => "SL",
            MexicoState::SI => "SI",
            MexicoState::SO => "SO",
            MexicoState::TB => "TB",
            MexicoState::TM => "TM",
            MexicoState::TL => "TL",
            MexicoState::VE => "VE",
            MexicoState::YU => "YU",
            MexicoState::ZA => "ZA",
        }
    }

    /// The code of this state, as an owned string.
    pub fn to_string(self) -> (code: String)
        ensures
            code@ == self.code(),
    {
        self.as_str().to_owned()
    }

    /// The state whose code is exactly `s`.
    fn find(s: &str) -> (found: Option<Self>)
        ensures
            match found {
                Some(v) => v.code() == s@,
                None => forall|v: Self| v.code() != s@,
            },
    {
        if str_eq(s, "AG") {
            return Some(MexicoState::AG);
        }
        if str_eq(s, "BC") {
            return Some(MexicoState::BC);
        }
        if str_eq(s, "BS") {
            return Some(MexicoState::BS);
        }
        if str_eq(s, "CM") {
            return Some(MexicoState::CM);
        }
        if str_eq(s, "CS") {
            return Some(MexicoState::CS);
        }
        if str_eq(s, "CH") {
            return Some(MexicoState::CH);
        }
        if str_eq(s, "CO") {
            return Some(MexicoState::CO);
        }
        if str_eq(s, "CL") {
            return Some(MexicoState::CL);
        }
        if str_eq(s, "DF") {
            return Some(MexicoState::DF);
        }
        if str_eq(s, "DG") {
            return Some(MexicoState::DG);
        }
        if str_eq(s, "GT") {
            return Some(MexicoState::GT);
        }
        if str_eq(s, "GR") {
            return Some(MexicoState::GR);
        }
        if str_eq(s, "HG") {
            return Some(MexicoState::HG);
        }
        if str_eq(s, "JA") {
            return Some(MexicoState::JA);
        }
        if str_eq(s, "EM") {
            return Some(MexicoState::EM);
        }
        if str_eq(s, "MI") {
            return Some(MexicoState::MI);
        }
        if str_eq(s, "MO") {
            return Some(MexicoState::MO);
        }
        if str_eq(s, "NA") {
            return Some(MexicoState::NA);
        }
        if str_eq(s, "NL") {
            return Some(MexicoState::NL);
        }
        if str_eq(s, "OA") {
            return Some(MexicoState::OA);
        }
        if str_eq(s, "PU") {
            return Some(MexicoState::PU);
        }
        if str_eq(s, "QT") {
            return Some(MexicoState::QT);
        }
        if str_eq(s, "QR") {
            return Some(MexicoState::QR);
        }
        if str_eq(s, "SL") {
            return Some(MexicoState::SL);
        }
        if str_eq(s, "SI") {
            return Some(MexicoState::SI);
        }
        if str_eq(s, "SO") {
            return Some(MexicoState::SO);
        }
        if str_eq(s, "TB") {
            return Some(MexicoState::TB);
        }
        if str_eq(s, "TM") {
            return Some(MexicoState::TM);
        }
        if str_eq(s, "TL") {
            return Some(MexicoState::TL);
        }
        if str_eq(s, "VE") {
            return Some(MexicoState::VE);
        }
        if str_eq(s, "YU") {
            return Some(MexicoState::YU);
        }
        if str_eq(s, "ZA") {
            return Some(MexicoState::ZA);
        }
        None
    }

    /// Parses the code of a state. The match is exact and case-sensitive.
    pub fn from_str(s: &str) -> (parsed: Result<Self, ParseFailure>)
        ensures
            parsed == match Self::parse(s@) {
                Some(v) => Ok::<Self, ParseFailure>(v),
                None => Err(ParseFailure::VariantNotFound),
            },
    {
        match Self::find(s) {
            Some(v) => {
                proof {
                    Self::lemma_codes(v, choose|w: Self| w.code() == s@);
                }
                Ok(v)
            },
            None => Err(ParseFailure::VariantNotFound),
        }
    }
}

} // verus!
