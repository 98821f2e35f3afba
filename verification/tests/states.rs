//! Tests for the Country and State codes.

use meet_validator::country::Country;
use meet_validator::states::{
    ArgentinaState, AustraliaState, CanadaState, NewZealandState, RomaniaState, RussiaState,
    SouthAfricaState, State, USAState,
};
use meet_validator::ParseFailure;

/// Every text of one to three capital letters, and `Guam`.
fn candidate_codes() -> Vec<String> {
    let letters: Vec<char> = ('A'..='Z').collect();
    let mut codes = Vec::new();
    for &a in &letters {
        codes.push(format!("{}", a));
        for &b in &letters {
            codes.push(format!("{}{}", a, b));
            for &c in &letters {
                codes.push(format!("{}{}{}", a, b, c));
            }
        }
    }
    codes.push(String::from("Guam"));
    codes
}

/// The states of a country, found by trying every candidate code.
fn states_of(country: Country) -> Vec<State> {
    candidate_codes()
        .iter()
        .filter_map(|code| State::from_str_and_country(code, country).ok())
        .collect()
}

#[test]
fn from_str_and_country_finds_new_york() {
    let state = State::from_str_and_country("NY", Country::USA).unwrap();
    assert_eq!(state, State::InUSA(USAState::NY));
}

#[test]
fn from_full_code_finds_new_york() {
    let state = State::from_full_code("USA-NY").unwrap();
    assert_eq!(state, State::InUSA(USAState::NY));
}

#[test]
fn both_ways_of_parsing_agree() {
    assert_eq!(
        State::from_str_and_country("NY", Country::USA),
        State::from_full_code("USA-NY")
    );
    assert_eq!(
        State::from_str_and_country("KZN", Country::SouthAfrica),
        State::from_full_code("South Africa-KZN")
    );
    assert_eq!(
        State::from_str_and_country("XX", Country::USA),
        State::from_full_code("USA-XX")
    );
    assert_eq!(
        State::from_str_and_country("NY", Country::Japan),
        State::from_full_code("Japan-NY")
    );
}

#[test]
fn to_country_gives_the_country_of_the_variant() {
    let state = State::from_full_code("USA-NY").unwrap();
    assert_eq!(state.to_country(), Country::USA);
    assert_eq!(State::InArgentina(ArgentinaState::CA).to_country(), Country::Argentina);
    assert_eq!(State::InNewZealand(NewZealandState::AKL).to_country(), Country::NewZealand);
    assert_eq!(State::InRussia(RussiaState::MOW).to_country(), Country::Russia);
}

#[test]
fn to_state_string_gives_the_bare_code() {
    let state = State::from_full_code("USA-NY").unwrap();
    assert_eq!(state.to_state_string(), "NY");
    assert_eq!(State::InUSA(USAState::Guam).to_state_string(), "Guam");
    assert_eq!(State::InRomania(RomaniaState::B).to_state_string(), "B");
    assert_eq!(State::InAustralia(AustraliaState::NSW).to_state_string(), "NSW");
}

#[test]
fn to_full_code_joins_country_and_code() {
    assert_eq!(State::InUSA(USAState::NY).to_full_code(), "USA-NY");
    assert_eq!(State::InNewZealand(NewZealandState::AKL).to_full_code(), "New Zealand-AKL");
    assert_eq!(State::InSouthAfrica(SouthAfricaState::KZN).to_full_code(), "South Africa-KZN");
    assert_eq!(State::InCanada(CanadaState::QC).to_full_code(), "Canada-QC");
}

#[test]
fn unknown_code_is_not_found() {
    assert_eq!(
        State::from_str_and_country("XX", Country::USA),
        Err(ParseFailure::VariantNotFound)
    );
    assert_eq!(
        State::from_str_and_country("", Country::USA),
        Err(ParseFailure::VariantNotFound)
    );
}

#[test]
fn country_without_subdivisions_has_no_state() {
    assert_eq!(
        State::from_str_and_country("CA", Country::Japan),
        Err(ParseFailure::VariantNotFound)
    );
    assert_eq!(
        State::from_str_and_country("CA", Country::Scotland),
        Err(ParseFailure::VariantNotFound)
    );
    assert!(states_of(Country::France).is_empty());
}

#[test]
fn codes_are_case_sensitive_and_exact() {
    assert!(State::from_str_and_country("ny", Country::USA).is_err());
    assert!(State::from_str_and_country("Ny", Country::USA).is_err());
    assert!(State::from_str_and_country(" NY", Country::USA).is_err());
    assert!(State::from_str_and_country("NY ", Country::USA).is_err());
    assert!(State::from_str_and_country("GUAM", Country::USA).is_err());
    assert!(State::from_str_and_country("N\u{0}", Country::USA).is_err());
}

#[test]
fn the_country_tells_colliding_codes_apart() {
    let argentina = State::from_str_and_country("CA", Country::Argentina).unwrap();
    let usa = State::from_str_and_country("CA", Country::USA).unwrap();
    assert_eq!(argentina, State::InArgentina(ArgentinaState::CA));
    assert_eq!(usa, State::InUSA(USAState::CA));
    assert_ne!(argentina, usa);
    assert_ne!(argentina.to_full_code(), usa.to_full_code());
    // South Australia is a state of Australia, CA is not.
    assert!(State::from_str_and_country("SA", Country::Australia).is_ok());
    assert!(State::from_str_and_country("CA", Country::Australia).is_err());
}

#[test]
fn full_code_needs_exactly_one_hyphen() {
    for text in ["", "-", "USANY", "USA NY", "USA-NY-", "USA--NY", "-USA-NY", "USA-N-Y"] {
        assert_eq!(State::from_full_code(text), Err(ParseFailure::VariantNotFound), "{}", text);
    }
}

#[test]
fn full_code_needs_a_country_and_a_code_of_it() {
    for text in ["USA-", "-NY", "usa-NY", "Atlantis-NY", "Japan-NY", "USA-XX", "Canada-NY", "NY-USA"] {
        assert_eq!(State::from_full_code(text), Err(ParseFailure::VariantNotFound), "{}", text);
    }
}

#[test]
fn every_country_has_its_number_of_subdivisions() {
    let expected = [
        (Country::Argentina, 24),
        (Country::Australia, 9),
        (Country::Brazil, 27),
        (Country::Canada, 13),
        (Country::China, 33),
        (Country::England, 9),
        (Country::Germany, 16),
        (Country::India, 35),
        (Country::Mexico, 32),
        (Country::Netherlands, 12),
        (Country::NewZealand, 16),
        (Country::Romania, 42),
        (Country::Russia, 84),
        (Country::SouthAfrica, 9),
        (Country::USA, 52),
    ];
    for (country, count) in expected {
        let states = states_of(country);
        assert_eq!(states.len(), count, "{:?}", country);
        for (i, a) in states.iter().enumerate() {
            for b in &states[i + 1..] {
                assert_ne!(a, b);
            }
        }
    }
}

#[test]
fn every_state_survives_the_round_trip() {
    let countries = [
        Country::Argentina,
        Country::Australia,
        Country::Brazil,
        Country::Canada,
        Country::China,
        Country::England,
        Country::Germany,
        Country::India,
        Country::Mexico,
        Country::Netherlands,
        Country::NewZealand,
        Country::Romania,
        Country::Russia,
        Country::SouthAfrica,
        Country::USA,
    ];
    for country in countries {
        for state in states_of(country) {
            assert_eq!(state.to_country(), country);
            assert_eq!(
                State::from_str_and_country(&state.to_state_string(), state.to_country()),
                Ok(state)
            );
            assert_eq!(State::from_full_code(&state.to_full_code()), Ok(state));
            let expected = format!("{}-{}", country.to_string(), state.to_state_string());
            assert_eq!(state.to_full_code(), expected);
        }
    }
}

#[test]
fn subdivision_enums_parse_and_print_their_codes() {
    assert_eq!(USAState::from_str("NY"), Ok(USAState::NY));
    assert_eq!(USAState::NY.to_string(), "NY");
    assert_eq!(USAState::NY.as_str(), "NY");
    assert_eq!(USAState::from_str("Guam"), Ok(USAState::Guam));
    assert_eq!(USAState::from_str("CA"), Ok(USAState::CA));
    assert_eq!(ArgentinaState::from_str("CA"), Ok(ArgentinaState::CA));
    assert_eq!(ArgentinaState::from_str("NY"), Err(ParseFailure::VariantNotFound));
    assert_eq!(RussiaState::from_str("YAN"), Ok(RussiaState::YAN));
    assert_eq!(RussiaState::YAN.to_string(), "YAN");
    assert_eq!(RomaniaState::from_str("B"), Ok(RomaniaState::B));
    assert_eq!(RomaniaState::from_str("BB"), Err(ParseFailure::VariantNotFound));
}

#[test]
fn countries_parse_and_print_their_names() {
    assert_eq!(Country::from_str("USA"), Ok(Country::USA));
    assert_eq!(Country::from_str("New Zealand"), Ok(Country::NewZealand));
    assert_eq!(Country::from_str("South Africa"), Ok(Country::SouthAfrica));
    assert_eq!(Country::from_str("N.Ireland"), Ok(Country::NorthernIreland));
    assert_eq!(Country::from_str("Guinea-Bissau"), Ok(Country::GuineaBissau));
    assert_eq!(Country::from_str("Guinea"), Ok(Country::Guinea));
    assert_eq!(Country::from_str("Zimbabwe"), Ok(Country::Zimbabwe));
    assert_eq!(Country::USA.to_string(), "USA");
    assert_eq!(Country::NewZealand.to_string(), "New Zealand");
    assert_eq!(Country::NewZealand.as_str(), "New Zealand");
    assert_eq!(Country::Abkhazia.to_string(), "Abkhazia");
}

#[test]
fn country_names_are_case_sensitive_and_exact() {
    for text in ["", "usa", "Usa", "USA ", " USA", "NewZealand", "New  Zealand", "Atlantis", "Slovania"] {
        assert_eq!(Country::from_str(text), Err(ParseFailure::VariantNotFound), "{}", text);
    }
}

#[test]
fn similar_country_names_stay_apart() {
    assert_eq!(Country::from_str("Slovakia"), Ok(Country::Slovakia));
    assert_eq!(Country::from_str("Slovenia"), Ok(Country::Slovenia));
    assert_eq!(Country::from_str("Iran"), Ok(Country::Iran));
    assert_eq!(Country::from_str("Iraq"), Ok(Country::Iraq));
    assert_eq!(Country::from_str("Niger"), Ok(Country::Niger));
    assert_eq!(Country::from_str("Nigeria"), Ok(Country::Nigeria));
    assert_eq!(Country::from_str("Serbia"), Ok(Country::Serbia));
    assert_eq!(Country::from_str("Serbia and Montenegro"), Ok(Country::SerbiaAndMontenegro));
    assert_eq!(Country::from_str("Australia"), Ok(Country::Australia));
    assert_eq!(Country::from_str("Austria"), Ok(Country::Austria));
}
