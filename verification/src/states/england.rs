//! The subdivisions of England.

use vstd::prelude::*;
use crate::ParseFailure;
use crate::text::{is_plain_code, outline, str_eq};

verus! {

/// A region in England, ill-defined and used only by BP.
///
/// This omits other divisions not in England: Scotland, N.Ireland, and Wales.
#[derive(Copy, Clone, Debug, PartialEq, Eq, Structural)]
pub enum EnglandState {
    /// East Midlands.
    EM,
    /// Greater London.
    GL,
    /// North Midlands.
    NM,
    /// North West.
    NW,
    /// South East.
    SE,
    /// South Midlands.
    SM,
    /// South West.
    SW,
    /// West Midlands.
    WM,
    /// Yorkshire North East.
    YNE,
}

impl EnglandState {
    /// The code under which this region is written in the MeetState column.
    pub open spec fn code(self) -> Seq<char> {
        match self {
            EnglandState::EM => "EM"@,
            EnglandState::GL => "GL"@,
            EnglandState::NM => "NM"@,
            EnglandState::NW => "NW"@,
            EnglandState::SE => "SE"@,
            EnglandState::SM => "SM"@,
            EnglandState::SW => "SW"@,
            EnglandState::WM => "WM"@,
            EnglandState::YNE => "YNE"@,
        }
    }

    /// The region that `code` names, if it names one.
    pub open spec fn parse(code: Seq<char>) -> Option<Self> {
        if exists|v: Self| v.code() == code {
            Some(choose|v: Self| v.code() == code)
        } else {
            None
        }
    }

    /// Every code is one to four ASCII letters, and no two members share a code.
    pub proof fn lemma_codes(a: Self, b: Self)
        ensures
            is_plain_code(a.code()),
            a.code() == b.code() ==> a == b,
    {
        reveal_strlit("EM");
        reveal_strlit("GL");
        reveal_strlit("NM");
        reveal_strlit("NW");
        reveal_strlit("SE");
        reveal_strlit("SM");
        reveal_strlit("SW");
        reveal_strlit("WM");
        reveal_strlit("YNE");
        assert(outline(a.code()) == outline(a.code()));
        assert(a.code() == b.code() ==> outline(a.code()) == outline(b.code()));
    }

    /// Parsing the code of a region gives that region back.
    pub proof fn lemma_parse_code(v: Self)
        ensures
            Self::parse(v.code()) == Some(v),
    {
        Self::lemma_codes(v, choose|w: Self| w.code() == v.code());
    }

    /// The code of this region.
    pub fn as_str(self) -> (code: &'static str)
        ensures
            code@ == self.code(),
    {
        match self {
            EnglandState::EM => "EM",
            EnglandState::GL => "GL",
            EnglandState::NM => "NM",
            EnglandState::NW => "NW",
            EnglandState::SE => "SE",
            EnglandState::SM => "SM",
            EnglandState::SW => "SW",
            EnglandState::WM => "WM",
            EnglandState::YNE => "YNE",
        }
    }

    /// The code of this region, as an owned string.
    pub fn to_string(self) -> (code: String)
        ensures
            code@ == self.code(),
    {
        self.as_str().to_owned()
    }

    /// The region whose code is exactly `s`.
    fn find(s: &str) -> (found: Option<Self>)
        ensures
            match found {
                Some(v) => v.code() == s@,
                None => forall|v: Self| v.code() != s@,
            },
    {
        if str_eq(s, "EM") {
            return Some(EnglandState::EM);
        }
        if str_eq(s, "GL") {
            return Some(EnglandState::GL);
        }
        if str_eq(s, "NM") {
            return Some(EnglandState::NM);
        }
        if str_eq(s, "NW") {
            return Some(EnglandState::NW);
        }
        if str_eq(s, "SE") {
            return Some(EnglandState::SE);
        }
        if str_eq(s, "SM") {
            return Some(EnglandState::SM);
        }
        if str_eq(s, "SW") {
            return Some(EnglandState::SW);
        }
        if str_eq(s, "WM") {
            return Some(EnglandState::WM);
        }
        if str_eq(s, "YNE") {
            return Some(EnglandState::YNE);
        }
        None
    }

    /// Parses the code of a region. The match is exact and case-sensitive.
    pub fn from_str(s: &str) -> (parsed: Result<Self, ParseFailure>)
        ensures
            parsed == match Self::parse(s@) {
                Some(v) => Ok::<Self, ParseFailure>(v),
                None => Err(ParseFailure::VariantNotFound),
            },
    {
        match Self::find(s) {
            Some(v) => {
                proof {
                    Self::lemma_codes(v, choose|w: Self| w.code() == s@);
                }
                Ok(v)
            },
            None => Err(ParseFailure::VariantNotFound),
        }
    }
}

} // verus!
