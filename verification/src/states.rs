//! The MeetState column: a subdivision of the country of a meet.
//!
//! Subdivision codes collide across countries (`CA` is a province of Argentina
//! and a state of the USA), so a [`State`] is a code together with its country.
//! Its canonical text is the name of the country, a hyphen, and the code, as
//! in `USA-NY`.

use vstd::prelude::*;
use vstd::string::StringExecFns;
use crate::country::Country;
use crate::text::{
    is_plain_code, is_sole_occurrence, joined, lemma_joined_parts,
    lemma_joined_sole_occurrence, lemma_plain_code_has_no_hyphen, split_at_sole,
};
use crate::{found, ParseFailure};

pub mod argentina;
pub mod australia;
pub mod brazil;
pub mod canada;
pub mod china;
pub mod england;
pub mod germany;
pub mod india;
pub mod mexico;
pub mod netherlands;
pub mod new_zealand;
pub mod romania;
pub mod russia;
pub mod south_africa;
pub mod usa;

pub use self::argentina::ArgentinaState;
pub use self::australia::AustraliaState;
pub use self::brazil::BrazilState;
pub use self::canada::CanadaState;
pub use self::china::ChinaState;
pub use self::england::EnglandState;
pub use self::germany::GermanyState;
pub use self::india::IndiaState;
pub use self::mexico::MexicoState;
pub use self::netherlands::NetherlandsState;
pub use self::new_zealand::NewZealandState;
pub use self::romania::RomaniaState;
pub use self::russia::RussiaState;
pub use self::south_africa::SouthAfricaState;
pub use self::usa::USAState;

verus! {

/// The State column.
#[derive(Copy, Clone, Debug, PartialEq, Eq, Structural)]
pub enum State {
    InArgentina(ArgentinaState),
    InAustralia(AustraliaState),
    InBrazil(BrazilState),
    InCanada(CanadaState),
    InChina(ChinaState),
    InEngland(EnglandState),
    InGermany(GermanyState),
    InIndia(IndiaState),
    InMexico(MexicoState),
    InNetherlands(NetherlandsState),
    InNewZealand(NewZealandState),
    InRomania(RomaniaState),
    InRussia(RussiaState),
    InSouthAfrica(SouthAfricaState),
    InUSA(USAState),
}

impl State {
    /// The country that this subdivision belongs to.
    pub open spec fn country(self) -> Country {
        match self {
            State::InArgentina(_) => Country::Argentina,
            State::InAustralia(_) => Country::Australia,
            State::InBrazil(_) => Country::Brazil,
            State::InCanada(_) => Country::Canada,
            State::InChina(_) => Country::China,
            State::InEngland(_) => Country::England,
            State::InGermany(_) => Country::Germany,
            State::InIndia(_) => Country::India,
            State::InMexico(_) => Country::Mexico,
            State::InNetherlands(_) => Country::Netherlands,
            State::InNewZealand(_) => Country::NewZealand,
            State::InRomania(_) => Country::Romania,
            State::InRussia(_) => Country::Russia,
            State::InSouthAfrica(_) => Country::SouthAfrica,
            State::InUSA(_) => Country::USA,
        }
    }

    /// The code of this subdivision, without its country.
    pub open spec fn code(self) -> Seq<char> {
        match self {
            State::InArgentina(s) => s.code(),
            State::InAustralia(s) => s.code(),
            State::InBrazil(s) => s.code(),
            State::InCanada(s) => s.code(),
            State::InChina(s) => s.code(),
            State::InEngland(s) => s.code(),
            State::InGermany(s) => s.code(),
            State::InIndia(s) => s.code(),
            State::InMexico(s) => s.code(),
            State::InNetherlands(s) => s.code(),
            State::InNewZealand(s) => s.code(),
            State::InRomania(s) => s.code(),
            State::InRussia(s) => s.code(),
            State::InSouthAfrica(s) => s.code(),
            State::InUSA(s) => s.code(),
        }
    }

    /// The canonical text of this subdivision: the name of its country, a
    /// hyphen, and its code.
    pub open spec fn full_code(self) -> Seq<char> {
        joined(self.country().name(), '-', self.code())
    }

    /// The subdivision of `country` that `code` names, if it names one.
    pub open spec fn parse_in(code: Seq<char>, country: Country) -> Option<State> {
        if exists|st: State| st.country() == country && st.code() == code {
            Some(choose|st: State| st.country() == country && st.code() == code)
        } else {
            None
        }
    }

    /// The subdivision whose canonical text is `text`, if there is one.
    pub open spec fn parse_full(text: Seq<char>) -> Option<State> {
        if exists|st: State| st.full_code() == text {
            Some(choose|st: State| st.full_code() == text)
        } else {
            None
        }
    }

    /// Every code is one to four ASCII letters, and within one country no two
    /// subdivisions share a code.
    pub proof fn lemma_codes(a: State, b: State)
        ensures
            is_plain_code(a.code()),
            a.country() == b.country() && a.code() == b.code() ==> a == b,
    {
        match a {
            State::InArgentina(x) => {
                ArgentinaState::lemma_codes(x, x);
                if let State::InArgentina(y) = b {
                    ArgentinaState::lemma_codes(x, y);
                }
            },
            State::InAustralia(x) => {
                AustraliaState::lemma_codes(x, x);
                if let State::InAustralia(y) = b {
                    AustraliaState::lemma_codes(x, y);
                }
            },
            State::InBrazil(x) => {
                BrazilState::lemma_codes(x, x);
                if let State::InBrazil(y) = b {
                    BrazilState::lemma_codes(x, y);
                }
            },
            State::InCanada(x) => {
                CanadaState::lemma_codes(x, x);
                if let State::InCanada(y) = b {
                    CanadaState::lemma_codes(x, y);
                }
            },
            State::InChina(x) => {
                ChinaState::lemma_codes(x, x);
                if let State::InChina(y) = b {
                    ChinaState::lemma_codes(x, y);
                }
            },
            State::InEngland(x) => {
                EnglandState::lemma_codes(x, x);
                if let State::InEngland(y) = b {
                    EnglandState::lemma_codes(x, y);
                }
            },
            State::InGermany(x) => {
                GermanyState::lemma_codes(x, x);
                if let State::InGermany(y) = b {
                    GermanyState::lemma_codes(x, y);
                }
            },
            State::InIndia(x) => {
                IndiaState::lemma_codes(x, x);
                if let State::InIndia(y) = b {
                    IndiaState::lemma_codes(x, y);
                }
            },
            State::InMexico(x) => {
                MexicoState::lemma_codes(x, x);
                if let State::InMexico(y) = b {
                    MexicoState::lemma_codes(x, y);
                }
            },
            State::InNetherlands(x) => {
                NetherlandsState::lemma_codes(x, x);
                if let State::InNetherlands(y) = b {
                    NetherlandsState::lemma_codes(x, y);
                }
            },
            State::InNewZealand(x) => {
                NewZealandState::lemma_codes(x, x);
                if let State::InNewZealand(y) = b {
                    NewZealandState::lemma_codes(x, y);
                }
            },
            State::InRomania(x) => {
                RomaniaState::lemma_codes(x, x);
                if let State::InRomania(y) = b {
                    RomaniaState::lemma_codes(x, y);
                }
            },
            State::InRussia(x) => {
                RussiaState::lemma_codes(x, x);
                if let State::InRussia(y) = b {
                    RussiaState::lemma_codes(x, y);
                }
            },
            State::InSouthAfrica(x) => {
                SouthAfricaState::lemma_codes(x, x);
                if let State::InSouthAfrica(y) = b {
                    SouthAfricaState::lemma_codes(x, y);
                }
            },
            State::InUSA(x) => {
                USAState::lemma_codes(x, x);
                if let State::InUSA(y) = b {
                    USAState::lemma_codes(x, y);
                }
            },
        }
    }

    /// The name of a country that has subdivisions holds no hyphen.
    pub proof fn lemma_country_name(st: State)
        ensures
            !st.country().name().contains('-'),
    {
        reveal_strlit("Argentina");
        reveal_strlit("Australia");
        reveal_strlit("Brazil");
        reveal_strlit("Canada");
        reveal_strlit("China");
        reveal_strlit("England");
        reveal_strlit("Germany");
        reveal_strlit("India");
        reveal_strlit("Mexico");
        reveal_strlit("Netherlands");
        reveal_strlit("New Zealand");
        reveal_strlit("Romania");
        reveal_strlit("Russia");
        reveal_strlit("South Africa");
        reveal_strlit("USA");
    }

    /// In the canonical text of a subdivision the hyphen stands exactly once,
    /// right after the name of the country.
    pub proof fn lemma_full_code_hyphen(st: State)
        ensures
            !st.country().name().contains('-'),
            !st.code().contains('-'),
            is_sole_occurrence(st.full_code(), '-', st.country().name().len() as int),
    {
        State::lemma_country_name(st);
        State::lemma_codes(st, st);
        lemma_plain_code_has_no_hyphen(st.code());
        lemma_joined_sole_occurrence(st.country().name(), '-', st.code());
    }

    /// No two subdivisions share a canonical text.
    pub proof fn lemma_full_codes(a: State, b: State)
        ensures
            a.full_code() == b.full_code() ==> a == b,
    {
        if a.full_code() == b.full_code() {
            State::lemma_full_code_hyphen(a);
            lemma_joined_parts(a.country().name(), a.code(), b.country().name(), b.code(), '-');
            Country::lemma_names(a.country(), b.country());
            State::lemma_codes(a, b);
        }
    }

    /// Round trip through the code: looking up the code of a subdivision in
    /// its own country gives that subdivision back.
    pub proof fn lemma_round_trip_in_country(st: State)
        ensures
            State::parse_in(st.code(), st.country()) == Some(st),
    {
        let other = choose|x: State| x.country() == st.country() && x.code() == st.code();
        State::lemma_codes(st, other);
    }

    /// Round trip through the canonical text: parsing the canonical text of a
    /// subdivision gives that subdivision back.
    pub proof fn lemma_round_trip_full(st: State)
        ensures
            State::parse_full(st.full_code()) == Some(st),
    {
        let other = choose|x: State| x.full_code() == st.full_code();
        State::lemma_full_codes(st, other);
    }

    /// A text in which the hyphen does not stand exactly once is the
    /// canonical text of no subdivision.
    pub proof fn lemma_parse_full_needs_one_hyphen(text: Seq<char>)
        requires
            forall|i: int| !is_sole_occurrence(text, '-', i),
        ensures
            State::parse_full(text).is_none(),
    {
        assert forall|st: State| st.full_code() != text by {
            State::lemma_full_code_hyphen(st);
        }
    }

    /// The two ways of parsing agree: a country name, a hyphen and a code
    /// parse as one text to what the code parses to within that country,
    /// and to nothing where the part before the hyphen names no country.
    pub proof fn lemma_parse_full_by_parts(head: Seq<char>, tail: Seq<char>)
        ensures
            State::parse_full(joined(head, '-', tail)) == match Country::parse(head) {
                Some(country) => State::parse_in(tail, country),
                None => None,
            },
    {
        let text = joined(head, '-', tail);
        if exists|st: State| st.full_code() == text {
            let st = choose|st: State| st.full_code() == text;
            State::lemma_full_code_hyphen(st);
            lemma_joined_parts(st.country().name(), st.code(), head, tail, '-');
            Country::lemma_parse_name(st.country());
            State::lemma_round_trip_in_country(st);
        } else {
            if let Some(country) = Country::parse(head) {
                if let Some(st) = State::parse_in(tail, country) {
                    assert(st.full_code() == text);
                }
            }
        }
    }

    /// Constructs a State for a specific Country.
    ///
    /// The code is looked up among the subdivisions of `country` alone; the
    /// match is exact and case-sensitive. A country without subdivisions has
    /// no State.
    pub fn from_str_and_country(s: &str, country: Country) -> (parsed: Result<State, ParseFailure>)
        ensures
            parsed == found(State::parse_in(s@, country)),
    {
        let parsed = match country {
            Country::Argentina => match ArgentinaState::from_str(s) {
                Ok(v) => Ok(State::InArgentina(v)),
                Err(e) => Err(e),
            },
            Country::Australia => match AustraliaState::from_str(s) {
                Ok(v) => Ok(State::InAustralia(v)),
                Err(e) => Err(e),
            },
            Country::Brazil => match BrazilState::from_str(s) {
                Ok(v) => Ok(State::InBrazil(v)),
                Err(e) => Err(e),
            },
            Country::Canada => match CanadaState::from_str(s) {
                Ok(v) => Ok(State::InCanada(v)),
                Err(e) => Err(e),
            },
            Country::China => match ChinaState::from_str(s) {
                Ok(v) => Ok(State::InChina(v)),
                Err(e) => Err(e),
            },
            Country::England => match EnglandState::from_str(s) {
                Ok(v) => Ok(State::InEngland(v)),
                Err(e) => Err(e),
            },
            Country::Germany => match GermanyState::from_str(s) {
                Ok(v) => Ok(State::InGermany(v)),
                Err(e) => Err(e),
            },
            Country::India => match IndiaState::from_str(s) {
                Ok(v) => Ok(State::InIndia(v)),
                Err(e) => Err(e),
            },
            Country::Mexico => match MexicoState::from_str(s) {
                Ok(v) => Ok(State::InMexico(v)),
                Err(e) => Err(e),
            },
            Country::Netherlands => match NetherlandsState::from_str(s) {
                Ok(v) => Ok(State::InNetherlands(v)),
                Err(e) => Err(e),
            },
            Country::NewZealand => match NewZealandState::from_str(s) {
                Ok(v) => Ok(State::InNewZealand(v)),
                Err(e) => Err(e),
            },
            Country::Romania => match RomaniaState::from_str(s) {
                Ok(v) => Ok(State::InRomania(v)),
                Err(e) => Err(e),
            },
            Country::Russia => match RussiaState::from_str(s) {
                Ok(v) => Ok(State::InRussia(v)),
                Err(e) => Err(e),
            },
            Country::SouthAfrica => match SouthAfricaState::from_str(s) {
                Ok(v) => Ok(State::InSouthAfrica(v)),
                Err(e) => Err(e),
            },
            Country::USA => match USAState::from_str(s) {
                Ok(v) => Ok(State::InUSA(v)),
                Err(e) => Err(e),
            },
            _ => Err(ParseFailure::VariantNotFound),
        };
        proof {
            match parsed {
                Ok(st) => {
                    State::lemma_round_trip_in_country(st);
                },
                Err(_) => {
                    assert forall|st: State| !(st.country() == country && st.code() == s@) by {
                        if st.country() == country {
                            match st {
                                State::InArgentina(v) => {
                                    assert(ArgentinaState::parse(s@).is_none());
                                    assert(v.code() != s@);
                                },
                                State::InAustralia(v) => {
                                    assert(AustraliaState::parse(s@).is_none());
                                    assert(v.code() != s@);
                                },
                                State::InBrazil(v) => {
                                    assert(BrazilState::parse(s@).is_none());
                                    assert(v.code() != s@);
                                },
                                State::InCanada(v) => {
                                    assert(CanadaState::parse(s@).is_none());
                                    assert(v.code() != s@);
                                },
                                State::InChina(v) => {
                                    assert(ChinaState::parse(s@).is_none());
                                    assert(v.code() != s@);
                                },
                                State::InEngland(v) => {
                                    assert(EnglandState::parse(s@).is_none());
                                    assert(v.code() != s@);
                                },
                                State::InGermany(v) => {
                                    assert(GermanyState::parse(s@).is_none());
                                    assert(v.code() != s@);
                                },
                                State::InIndia(v) => {
                                    assert(IndiaState::parse(s@).is_none());
                                    assert(v.code() != s@);
                                },
                                State::InMexico(v) => {
                                    assert(MexicoState::parse(s@).is_none());
                                    assert(v.code() != s@);
                                },
                                State::InNetherlands(v) => {
                                    assert(NetherlandsState::parse(s@).is_none());
                                    assert(v.code() != s@);
                                },
                                State::InNewZealand(v) => {
                                    assert(NewZealandState::parse(s@).is_none());
                                    assert(v.code() != s@);
                                },
                                State::InRomania(v) => {
                                    assert(RomaniaState::parse(s@).is_none());
                                    assert(v.code() != s@);
                                },
                                State::InRussia(v) => {
                                    assert(RussiaState::parse(s@).is_none());
                                    assert(v.code() != s@);
                                },
                                State::InSouthAfrica(v) => {
                                    assert(SouthAfricaState::parse(s@).is_none());
                                    assert(v.code() != s@);
                                },
                                State::InUSA(v) => {
                                    assert(USAState::parse(s@).is_none());
                                    assert(v.code() != s@);
                                },
                            }
                        }
                    }
                },
            }
        }
        parsed
    }

    /// Constructs a State given a full, unambiguous code like "USA-NY".
    ///
    /// Codes of this format are what [`State::to_full_code`] gives. The text
    /// must hold exactly one hyphen; the part before it is parsed as a
    /// Country, the part after it as a subdivision of that country.
    pub fn from_full_code(s: &str) -> (parsed: Result<State, ParseFailure>)
        ensures
            parsed == found(State::parse_full(s@)),
    {
        match split_at_sole(s, '-') {
            Some((head, tail)) => {
                proof {
                    State::lemma_parse_full_by_parts(head@, tail@);
                }
                match Country::from_str(head) {
                    Ok(country) => State::from_str_and_country(tail, country),
                    Err(e) => Err(e),
                }
            },
            None => {
                proof {
                    State::lemma_parse_full_needs_one_hyphen(s@);
                }
                Err(ParseFailure::VariantNotFound)
            },
        }
    }

    /// Returns the Country for the given State.
    pub fn to_country(self) -> (country: Country)
        ensures
            country == self.country(),
    {
        match self {
            State::InArgentina(_) => Country::Argentina,
            State::InAustralia(_) => Country::Australia,
            State::InBrazil(_) => Country::Brazil,
            State::InCanada(_) => Country::Canada,
            State::InChina(_) => Country::China,
            State::InEngland(_) => Country::England,
            State::InGermany(_) => Country::Germany,
            State::InIndia(_) => Country::India,
            State::InMexico(_) => Country::Mexico,
            State::InNetherlands(_) => Country::Netherlands,
            State::InNewZealand(_) => Country::NewZealand,
            State::InRomania(_) => Country::Romania,
            State::InRussia(_) => Country::Russia,
            State::InSouthAfrica(_) => Country::SouthAfrica,
            State::InUSA(_) => Country::USA,
        }
    }

    /// Returns a String describing just the given State (no Country).
    pub fn to_state_string(self) -> (code: String)
        ensures
            code@ == self.code(),
    {
        match self {
            State::InArgentina(s) => s.to_string(),
            State::InAustralia(s) => s.to_string(),
            State::InBrazil(s) => s.to_string(),
            State::InCanada(s) => s.to_string(),
            State::InChina(s) => s.to_string(),
            State::InEngland(s) => s.to_string(),
            State::InGermany(s) => s.to_string(),
            State::InIndia(s) => s.to_string(),
            State::InMexico(s) => s.to_string(),
            State::InNetherlands(s) => s.to_string(),
            State::InNewZealand(s) => s.to_string(),
            State::InRomania(s) => s.to_string(),
            State::InRussia(s) => s.to_string(),
            State::InSouthAfrica(s) => s.to_string(),
            State::InUSA(s) => s.to_string(),
        }
    }

    /// Returns the canonical text of the given State, like "USA-NY".
    pub fn to_full_code(self) -> (text: String)
        ensures
            text@ == self.full_code(),
    {
        let mut text = self.to_country().to_string();
        proof {
            reveal_strlit("-");
        }
        text.append("-");
        text.append(self.to_state_string().as_str());
        assert(text@ =~= self.full_code());
        text
    }
}

} // verus!
