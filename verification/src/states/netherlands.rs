//! The subdivisions of the Netherlands.

use vstd::prelude::*;
use crate::ParseFailure;
use crate::text::{is_plain_code, outline, str_eq};

verus! {

/// A state in the Netherlands.
#[derive(Copy, Clone, Debug, PartialEq, Eq, Structural)]
pub enum NetherlandsState {
    /// Drenthe.
    DR,
    /// Flevoland.
    FL,
    /// Friesland / Fryslân.
    FR,
    /// Gelderland.
    GE,
    /// Groningen.
    GR,
    /// Limburg.
    LI,
    /// North Brabant / Noord-Brabant.
    NB,
    /// North Holland / Noord-Holland.
    NH,
    /// Overijssel / Overissel.
    OV,
    /// Utrecht.
    UT,
    /// Zeeland.
    ZE,
    /// South Holland / Zuid-Holland.
    ZH,
}

impl NetherlandsState {
    /// The code under which this state is written in the MeetState column.
    pub open spec fn code(self) -> Seq<char> {
        match self {
            NetherlandsState::DR => "DR"@,
            NetherlandsState::FL => "FL"@,
            NetherlandsState::FR => "FR"@,
            NetherlandsState::GE => "GE"@,
            NetherlandsState::GR => "GR"@,
            NetherlandsState::LI => "LI"@,
            NetherlandsState::NB => "NB"@,
            NetherlandsState::NH => "NH"@,
            NetherlandsState::OV => "OV"@,
            NetherlandsState::UT => "UT"@,
            NetherlandsState::ZE => "ZE"@,
            NetherlandsState::ZH => "ZH"@,
        }
    }

    /// The state that `code` names, if it names one.
    pub open spec fn parse(code: Seq<char>) -> Option<Self> {
        if exists|v: Self| v.code() == code {
            Some(choose|v: Self| v.code() == code)
        } else {
            None
        }
    }

    /// Every code is one to four ASCII letters, and no two members share a code.
    pub proof fn lemma_codes(a: Self, b: Self)
        ensures
            is_plain_code(a.code()),
            a.code() == b.code() ==> a == b,
    {
        reveal_strlit("DR");
        reveal_strlit("FL");
        reveal_strlit("FR");
        reveal_strlit("GE");
        reveal_strlit("GR");
        reveal_strlit("LI");
        reveal_strlit("NB");
        reveal_strlit("NH");
        reveal_strlit("OV");
        reveal_strlit("UT");
        reveal_strlit("ZE");
        reveal_strlit("ZH");
        assert(outline(a.code()) == outline(a.code()));
        assert(a.code() == b.code() ==> outline(a.code()) == outline(b.code()));
    }

    /// Parsing the code of a state gives that state back.
    pub proof fn lemma_parse_code(v: Self)
        ensures
            Self::parse(v.code()) == Some(v),
    {
        Self::lemma_codes(v, choose|w: Self| w.code() == v.code());
    }

    /// The code of this state.
    pub fn as_str(self) -> (code: &'static str)
        ensures
            code@ == self.code(),
    {
        match self {
            NetherlandsState::DR => "DR",
            NetherlandsState::FL => "FL",
            NetherlandsState::FR => "FR",
            NetherlandsState::GE => "GE",
            NetherlandsState::GR => "GR",
            NetherlandsState::LI => "LI",
            NetherlandsState::NB => "NB",
            NetherlandsState::NH => "NH",
            NetherlandsState::OV => "OV",
            NetherlandsState::UT => "UT",
            NetherlandsState::ZE => "ZE",
            NetherlandsState::ZH => "ZH",
        }
    }

    /// The code of this state, as an owned string.
    pub fn to_string(self) -> (code: String)
        ensures
            code@ == self.code(),
    {
        self.as_str().to_owned()
    }

    /// The state whose code is exactly `s`.
    fn find(s: &str) -> (found: Option<Self>)
        ensures
            match found {
                Some(v) => v.code() == s@,
                None => forall|v: Self| v.code() != s@,
            },
    {
        if str_eq(s, "DR") {
            return Some(NetherlandsState::DR);
        }
        if str_eq(s, "FL") {
            return Some(NetherlandsState::FL);
        }
        if str_eq(s, "FR") {
            return Some(NetherlandsState::FR);
        }
        if str_eq(s, "GE") {
            return Some(NetherlandsState::GE);
        }
        if str_eq(s, "GR") {
            return Some(NetherlandsState::GR);
        }
        if str_eq(s, "LI") {
            return Some(NetherlandsState::LI);
        }
        if str_eq(s, "NB") {
            return Some(NetherlandsState::NB);
        }
        if str_eq(s, "NH") {
            return Some(NetherlandsState::NH);
        }
        if str_eq(s, "OV") {
            return Some(NetherlandsState::OV);
        }
        if str_eq(s, "UT") {
            return Some(NetherlandsState::UT);
        }
        if str_eq(s, "ZE") {
            return Some(NetherlandsState::ZE);
        }
        if str_eq(s, "ZH") {
            return Some(NetherlandsState::ZH);
        }
        None
    }

    /// Parses the code of a state. The match is exact and case-sensitive.
    pub fn from_str(s: &str) -> (parsed: Result<Self, ParseFailure>)
        ensures
            parsed == match Self::parse(s@) {
                Some(v) => Ok::<Self, ParseFailure>(v),
                None => Err(ParseFailure::VariantNotFound),
            },
    {
        match Self::find(s) {
            Some(v) => {
                proof {
                    Self::lemma_codes(v, choose|w: Self| w.code() == s@);
                }
                Ok(v)
            },
            None => Err(ParseFailure::VariantNotFound),
        }
    }
}

} // verus!
