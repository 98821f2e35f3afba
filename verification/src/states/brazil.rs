//! The subdivisions of Brazil.

use vstd::prelude::*;
use crate::ParseFailure;
use crate::text::{is_plain_code, outline, str_eq};

verus! {

/// A state in Brazil.
#[derive(Copy, Clone, Debug, PartialEq, Eq, Structural)]
pub enum BrazilState {
    /// Acre.
    AC,
    /// Alagoas.
    AL,
    /// Amapá.
    AP,
    /// Amazonas.
    AM,
    /// Bahia.
    BA,
    /// Ceará.
    CE,
    /// Distrito Federal.
    DF,
    /// Espírito Santo.
    ES,
    /// Goiás.
    GO,
    /// Maranhão.
    MA,
    /// Mato Grosso.
    MT,
    /// Mato Grosso do Sul.
    MS,
    /// Minas Gerais.
    MG,
    /// Pará.
    PA,
    /// Paraíba.
    PB,
    /// Paraná.
    PR,
    /// Pernambuco.
    PE,
    /// Piauí.
    PI,
    /// Rio de Janeiro.
    RJ,
    /// Rio Grande do Norte.
    RN,
    /// Rio Grande do Sul.
    RS,
    /// Rondônia.
    RO,
    /// Roraima.
    RR,
    /// Santa Catarina.
    SC,
    /// São Paulo.
    SP,
    /// Sergipe.
    SE,
    /// Tocantins.
    TO,
}

impl BrazilState {
    /// The code under which this state is written in the MeetState column.
    pub open spec fn code(self) -> Seq<char> {
        match self {
            BrazilState::AC => "AC"@,
            BrazilState::AL => "AL"@,
            BrazilState::AP => "AP"@,
            BrazilState::AM => "AM"@,
            BrazilState::BA => "BA"@,
            BrazilState::CE => "CE"@,
            BrazilState::DF => "DF"@,
            BrazilState::ES => "ES"@,
            BrazilState::GO => "GO"@,
            BrazilState::MA => "MA"@,
            BrazilState::MT => "MT"@,
            BrazilState::MS => "MS"@,
            BrazilState::MG => "MG"@,
            BrazilState::PA => "PA"@,
            BrazilState::PB => "PB"@,
            BrazilState::PR => "PR"@,
            BrazilState::PE => "PE"@,
            BrazilState::PI => "PI"@,
            BrazilState::RJ => "RJ"@,
            BrazilState::RN => "RN"@,
            BrazilState::RS => "RS"@,
            BrazilState::RO => "RO"@,
            BrazilState::RR => "RR"@,
            BrazilState::SC => "SC"@,
            BrazilState::SP => "SP"@,
            BrazilState::SE => "SE"@,
            BrazilState::TO => "TO"@,
        }
    }

    /// The state that `code` names, if it names one.
    pub open spec fn parse(code: Seq<char>) -> Option<Self> {
        if exists|v: Self| v.code() == code {
            Some(choose|v: Self| v.code() == code)
        } else {
            None
        }
    }

    /// Every code is one to four ASCII letters, and no two members share a code.
    pub proof fn lemma_codes(a: Self, b: Self)
        ensures
            is_plain_code(a.code()),
            a.code() == b.code() ==> a == b,
    {
        reveal_strlit("AC");
        reveal_strlit("AL");
        reveal_strlit("AP");
        reveal_strlit("AM");
        reveal_strlit("BA");
        reveal_strlit("CE");
        reveal_strlit("DF");
        reveal_strlit("ES");
        reveal_strlit("GO");
        reveal_strlit("MA");
        reveal_strlit("MT");
        reveal_strlit("MS");
        reveal_strlit("MG");
        reveal_strlit("PA");
        reveal_strlit("PB");
        reveal_strlit("PR");
        reveal_strlit("PE");
        reveal_strlit("PI");
        reveal_strlit("RJ");
        reveal_strlit("RN");
        reveal_strlit("RS");
        reveal_strlit("RO");
        reveal_strlit("RR");
        reveal_strlit("SC");
        reveal_strlit("SP");
        reveal_strlit("SE");
        reveal_strlit("TO");
        assert(outline(a.code()) == outline(a.code()));
        assert(a.code() == b.code() ==> outline(a.code()) == outline(b.code()));
    }

    /// Parsing the code of a state gives that state back.
    pub proof fn lemma_parse_code(v: Self)
        ensures
            Self::parse(v.code()) == Some(v),
    {
        Self::lemma_codes(v, choose|w: Self| w.code() == v.code());
    }

    /// The code of this state.
    pub fn as_str(self) -> (code: &'static str)
        ensures
            code@ == self.code(),
    {
        match self {
            BrazilState::AC => "AC",
            BrazilState::AL => "AL",
            BrazilState::AP => "AP",
            BrazilState::AM => "AM",
            BrazilState::BA => "BA",
            BrazilState::CE => "CE",
            BrazilState::DF => "DF",
            BrazilState::ES => "ES",
            BrazilState::GO => "GO",
            BrazilState::MA => "MA",
            BrazilState::MT => "MT",
            BrazilState::MS => "MS",
            BrazilState::MG => "MG",
            BrazilState::PA => "PA",
            BrazilState::PB => "PB",
            BrazilState::PR => "PR",
            BrazilState::PE => "PE",
            BrazilState::PI => "PI",
            BrazilState::RJ => "RJ",
            BrazilState::RN => "RN",
            BrazilState::RS => "RS",
            BrazilState::RO => "RO",
            BrazilState::RR => "RR",
            BrazilState::SC => "SC",
            BrazilState::SP => "SP",
            BrazilState::SE => "SE",
            BrazilState::TO => "TO",
        }
    }

    /// The code of this state, as an owned string.
    pub fn to_string(self) -> (code: String)
        ensures
            code@ == self.code(),
    {
        self.as_str().to_owned()
    }

    /// The state whose code is exactly `s`.
    fn find(s: &str) -> (found: Option<Self>)
        ensures
            match found {
                Some(v) => v.code() == s@,
                None => forall|v: Self| v.code() != s@,
            },
    {
        if str_eq(s, "AC") {
            return Some(BrazilState::AC);
        }
        if str_eq(s, "AL") {
            return Some(BrazilState::AL);
        }
        if str_eq(s, "AP") {
            return Some(BrazilState::AP);
        }
        if str_eq(s, "AM") {
            return Some(BrazilState::AM);
        }
        if str_eq(s, "BA") {
            return Some(BrazilState::BA);
        }
        if str_eq(s, "CE") {
            return Some(BrazilState::CE);
        }
        if str_eq(s, "DF") {
            return Some(BrazilState::DF);
        }
        if str_eq(s, "ES") {
            return Some(BrazilState::ES);
        }
        if str_eq(s, "GO") {
            return Some(BrazilState::GO);
        }
        if str_eq(s, "MA") {
            return Some(BrazilState::MA);
        }
        if str_eq(s, "MT") {
            return Some(BrazilState::MT);
        }
        if str_eq(s, "MS") {
            return Some(BrazilState::MS);
        }
        if str_eq(s, "MG") {
            return Some(BrazilState::MG);
        }
        if str_eq(s, "PA") {
            return Some(BrazilState::PA);
        }
        if str_eq(s, "PB") {
            return Some(BrazilState::PB);
        }
        if str_eq(s, "PR") {
            return Some(BrazilState::PR);
        }
        if str_eq(s, "PE") {
            return Some(BrazilState::PE);
        }
        if str_eq(s, "PI") {
            return Some(BrazilState::PI);
        }
        if str_eq(s, "RJ") {
            return Some(BrazilState::RJ);
        }
        if str_eq(s, "RN") {
            return Some(BrazilState::RN);
        }
        if str_eq(s, "RS") {
            return Some(BrazilState::RS);
        }
        if str_eq(s, "RO") {
            return Some(BrazilState::RO);
        }
        if str_eq(s, "RR") {
            return Some(BrazilState::RR);
        }
        if str_eq(s, "SC") {
            return Some(BrazilState::SC);
        }
        if str_eq(s, "SP") {
            return Some(BrazilState::SP);
        }
        if str_eq(s, "SE") {
            return Some(BrazilState::SE);
        }
        if str_eq(s, "TO") {
            return Some(BrazilState::TO);
        }
        None
    }

    /// Parses the code of a state. The match is exact and case-sensitive.
    pub fn from_str(s: &str) -> (parsed: Result<Self, ParseFailure>)
        ensures
            parsed == match Self::parse(s@) {
                Some(v) => Ok::<Self, ParseFailure>(v),
                None => Err(ParseFailure::VariantNotFound),
            },
    {
        match Self::find(s) {
            Some(v) => {
                proof {
                    Self::lemma_codes(v, choose|w: Self| w.code() == s@);
                }
                Ok(v)
            },
            None => Err(ParseFailure::VariantNotFound),
        }
    }
}

} // verus!
